use treasury_rates::FeedError;
use treasury_rates::fallback::{Plan, decide_after_first, finish_after_retry, response_status};
use treasury_rates::month::{YearMonth, previous_month};
use treasury_rates::url_build::{FeedKind, build_url, format_yyyymm};

#[test]
fn no_entries_retries_previous_month_and_second_result_stands() {
    let now = YearMonth { year: 2023, month: 7 };
    let first: Result<u32, FeedError> = Err(FeedError::NoEntries);
    match decide_after_first(now, first) {
        Plan::Retry(prev) => {
            assert_eq!(prev, YearMonth { year: 2023, month: 6 });
            let second: Result<u32, FeedError> = Ok(42);
            assert_eq!(finish_after_retry(now, second), Ok(42));
        }
        Plan::Done(_) => panic!("a missing month must be retried once"),
    }
}

#[test]
fn network_error_is_returned_without_retry() {
    let now = YearMonth { year: 2023, month: 7 };
    let first: Result<u32, FeedError> = Err(FeedError::Network);
    assert_eq!(decide_after_first(now, first), Plan::Done(Err(FeedError::Network)));
}

#[test]
fn xml_error_is_returned_without_retry() {
    let now = YearMonth { year: 2023, month: 7 };
    let first: Result<u32, FeedError> = Err(FeedError::XmlParse);
    assert_eq!(decide_after_first(now, first), Plan::Done(Err(FeedError::XmlParse)));
}

#[test]
fn success_is_final() {
    let now = YearMonth { year: 2023, month: 7 };
    let first: Result<u32, FeedError> = Ok(7);
    assert_eq!(decide_after_first(now, first), Plan::Done(Ok(7)));
}

#[test]
fn no_entries_at_the_epoch_boundary_stays_no_entries() {
    let now = YearMonth { year: 0, month: 1 };
    let first: Result<u32, FeedError> = Err(FeedError::NoEntries);
    assert_eq!(decide_after_first(now, first), Plan::Done(Err(FeedError::NoEntries)));
}

#[test]
fn previous_month_steps_over_a_year_boundary() {
    let jan = YearMonth { year: 2024, month: 1 };
    assert_eq!(previous_month(jan), Some(YearMonth { year: 2023, month: 12 }));
    let jul = YearMonth { year: 2024, month: 7 };
    assert_eq!(previous_month(jul), Some(YearMonth { year: 2024, month: 6 }));
    assert_eq!(previous_month(YearMonth { year: 0, month: 1 }), None);
}

#[test]
fn yyyymm_is_six_zero_padded_digits() {
    assert_eq!(format_yyyymm(YearMonth { year: 2023, month: 6 }), "202306");
    assert_eq!(format_yyyymm(YearMonth { year: 987, month: 12 }), "098712");
    assert_eq!(format_yyyymm(YearMonth { year: 0, month: 1 }), "000001");
}

#[test]
fn built_url_is_the_base_with_the_two_parameters() {
    let u = build_url(FeedKind::YieldCurve, YearMonth { year: 2023, month: 6 }).unwrap();
    assert_eq!(
        u,
        "https://home.treasury.gov/resource-center/data-chart-center/interest-rates/pages/xml\
?data=daily_treasury_yield_curve&field_tdr_date_value_month=202306"
    );
    let u = build_url(FeedKind::BillRates, YearMonth { year: 2024, month: 11 }).unwrap();
    assert_eq!(
        u,
        "https://home.treasury.gov/resource-center/data-chart-center/interest-rates/pages/xml\
?data=daily_treasury_bill_rates&field_tdr_date_value_month=202411"
    );
}

#[test]
fn built_url_query_parameters_decode_to_kind_and_month() {
    let u = build_url(FeedKind::BillRates, YearMonth { year: 2024, month: 5 }).unwrap();
    let parsed = url::Url::parse(&u).unwrap();
    let pairs: Vec<(String, String)> = parsed
        .query_pairs()
        .map(|(k, v)| (k.into_owned(), v.into_owned()))
        .collect();
    assert_eq!(
        pairs,
        vec![
            ("data".to_owned(), "daily_treasury_bill_rates".to_owned()),
            ("field_tdr_date_value_month".to_owned(), "202405".to_owned()),
        ]
    );
}

#[test]
fn every_failure_kind_maps_to_one_generic_server_error() {
    assert_eq!(response_status::<u32>(&Err(FeedError::Network)), 500);
    assert_eq!(response_status::<u32>(&Err(FeedError::XmlParse)), 500);
    assert_eq!(response_status::<u32>(&Err(FeedError::NoEntries)), 500);
    assert_eq!(response_status::<u32>(&Err(FeedError::UrlBuild)), 500);
    assert_eq!(response_status::<u32>(&Ok(3)), 200);
}
