//! Building the monthly feed URL.
//!
//! The upstream publishes both rate tables under one fixed base path, selected
//! by a `data` query parameter, with the month in a `field_tdr_date_value_month`
//! parameter formatted as six zero-padded digits.

use vstd::prelude::*;
use crate::month::YearMonth;
use crate::FeedError;

verus! {

/// Which of the two published rate tables a URL should ask for.
#[derive(Debug, Clone, Copy, PartialEq, Eq, Structural)]
pub enum FeedKind {
    BillRates,
    YieldCurve,
}

/// The value of the feed-selecting query parameter for each feed kind.
pub open spec fn kind_param(kind: FeedKind) -> Seq<char> {
    match kind {
        FeedKind::BillRates => "daily_treasury_bill_rates"@,
        FeedKind::YieldCurve => "daily_treasury_yield_curve"@,
    }
}

/// The fixed base endpoint under which both feeds are published.
pub open spec fn base_url_spec() -> Seq<char> {
    "https://home.treasury.gov/resource-center/data-chart-center/interest-rates/pages/xml"@
}

/// The character for a single decimal digit.
pub open spec fn digit_char(d: int) -> char {
    if d == 0 {
        '0'
    } else if d == 1 {
        '1'
    } else if d == 2 {
        '2'
    } else if d == 3 {
        '3'
    } else if d == 4 {
        '4'
    } else if d == 5 {
        '5'
    } else if d == 6 {
        '6'
    } else if d == 7 {
        '7'
    } else if d == 8 {
        '8'
    } else {
        '9'
    }
}

/// A month written as six zero-padded digits: four of the year, two of the
/// month number.
pub open spec fn yyyymm_chars(ym: YearMonth) -> Seq<char> {
    seq![
        digit_char(ym.year as int / 1000 % 10),
        digit_char(ym.year as int / 100 % 10),
        digit_char(ym.year as int / 10 % 10),
        digit_char(ym.year as int % 10),
        digit_char(ym.month as int / 10 % 10),
        digit_char(ym.month as int % 10),
    ]
}

/// The full feed URL for one feed kind and one month: the base, then the two
/// query parameters in fixed order.
pub open spec fn feed_url_spec(kind: FeedKind, ym: YearMonth) -> Seq<char> {
    base_url_spec() + "?"@ + "data"@ + "="@ + kind_param(kind) + "&"@
        + "field_tdr_date_value_month"@ + "="@ + yyyymm_chars(ym)
}

fn digit_str(d: u8) -> (r: &'static str)
    requires
        d < 10,
    ensures
        r@ == seq![digit_char(d as int)],
{
    proof {
        reveal_strlit("0");
        reveal_strlit("1");
        reveal_strlit("2");
        reveal_strlit("3");
        reveal_strlit("4");
        reveal_strlit("5");
        reveal_strlit("6");
        reveal_strlit("7");
        reveal_strlit("8");
        reveal_strlit("9");
    }
    let r: &'static str = match d {
        0 => "0",
        1 => "1",
        2 => "2",
        3 => "3",
        4 => "4",
        5 => "5",
        6 => "6",
        7 => "7",
        8 => "8",
        _ => "9",
    };
    proof {
        assert(r@ =~= seq![digit_char(d as int)]);
    }
    r
}

fn push_digit(s: &mut String, d: u8)
    requires
        d < 10,
    ensures
        final(s)@ == old(s)@.push(digit_char(d as int)),
{
    s.append(digit_str(d));
    proof {
        assert(s@ =~= old(s)@.push(digit_char(d as int)));
    }
}

/// Formats a month as its six-digit `YYYYMM` form.
pub fn format_yyyymm(ym: YearMonth) -> (r: String)
    requires
        ym.wf(),
    ensures
        r@ == yyyymm_chars(ym),
        r@.len() == 6,
{
    let mut s = String::new();
    push_digit(&mut s, (ym.year / 1000 % 10) as u8);
    push_digit(&mut s, (ym.year / 100 % 10) as u8);
    push_digit(&mut s, (ym.year / 10 % 10) as u8);
    push_digit(&mut s, (ym.year % 10) as u8);
    push_digit(&mut s, ym.month / 10 % 10);
    push_digit(&mut s, ym.month % 10);
    proof {
        assert(s@ =~= yyyymm_chars(ym));
    }
    s
}

/// Relies on `url::Url::parse_with_params`: the fixed base parses as a URL,
/// and the two pairs are appended after `?` as `key=value` joined by `&`; the
/// admitted keys and values consist only of characters that form-urlencoding
/// leaves unchanged (ASCII letters, digits and underscores).
#[verifier::external_body]
fn url_with_two_params(base: &str, k1: &str, v1: &str, k2: &str, v2: &str) -> (r: Option<String>)
    requires
        base@ == base_url_spec(),
        k1@ == "data"@,
        k2@ == "field_tdr_date_value_month"@,
        v1@ == "daily_treasury_bill_rates"@ || v1@ == "daily_treasury_yield_curve"@,
        forall|i: int| 0 <= i < v2@.len() ==> '0' <= #[trigger] v2@[i] && v2@[i] <= '9',
    ensures
        r is Some,
        r matches Some(u) ==> u@ == base@ + "?"@ + k1@ + "="@ + v1@ + "&"@ + k2@ + "="@ + v2@,
{
    match url::Url::parse_with_params(base, &[(k1, v1), (k2, v2)]) {
        Ok(u) => Some(u.as_str().to_owned()),
        Err(_) => None,
    }
}

fn kind_param_str(kind: FeedKind) -> (r: &'static str)
    ensures
        r@ == kind_param(kind),
{
    match kind {
        FeedKind::BillRates => "daily_treasury_bill_rates",
        FeedKind::YieldCurve => "daily_treasury_yield_curve",
    }
}

proof fn lemma_digit_char_range(d: int)
    requires
        0 <= d <= 9,
    ensures
        '0' <= digit_char(d) && digit_char(d) <= '9',
{
}

/// Builds the feed URL for one feed kind and one month.
///
/// The base template is a compile-time constant that parses as a URL, so the
/// error case never arises; the result is always the exact URL string of
/// `feed_url_spec`.
pub fn build_url(kind: FeedKind, ym: YearMonth) -> (r: Result<String, FeedError>)
    requires
        ym.wf(),
    ensures
        (r matches Ok(u) && u@ == feed_url_spec(kind, ym)),
{
    let month = format_yyyymm(ym);
    proof {
        assert forall|i: int| 0 <= i < month@.len() implies '0' <= #[trigger] month@[i]
            && month@[i] <= '9' by {
            assert(month@ == yyyymm_chars(ym));
            if i == 0 {
                lemma_digit_char_range(ym.year as int / 1000 % 10);
            } else if i == 1 {
                lemma_digit_char_range(ym.year as int / 100 % 10);
            } else if i == 2 {
                lemma_digit_char_range(ym.year as int / 10 % 10);
            } else if i == 3 {
                lemma_digit_char_range(ym.year as int % 10);
            } else if i == 4 {
                lemma_digit_char_range(ym.month as int / 10 % 10);
            } else {
                lemma_digit_char_range(ym.month as int % 10);
            }
        }
    }
    let url = url_with_two_params(
        "https://home.treasury.gov/resource-center/data-chart-center/interest-rates/pages/xml",
        "data",
        kind_param_str(kind),
        "field_tdr_date_value_month",
        month.as_str(),
    );
    match url {
        Some(u) => Ok(u),
        None => Err(FeedError::UrlBuild),
    }
}

} // verus!
