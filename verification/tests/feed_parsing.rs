use treasury_rates::FeedError;
use treasury_rates::bill_rates;
use treasury_rates::yield_curve;

#[test]
fn bill_entry_with_two_fields_rest_default_empty() {
    let xml = b"<entry><ROUND_B1_YIELD_4WK_2>5.10</ROUND_B1_YIELD_4WK_2>\
<INDEX_DATE>2024-05-01</INDEX_DATE></entry>";
    let rec = bill_rates::parse_treasury_xml(xml).unwrap();
    assert_eq!(rec.ROUND_B1_YIELD_4WK_2, "5.10");
    assert_eq!(rec.INDEX_DATE, "2024-05-01");
    assert_eq!(rec.ROUND_B1_YIELD_8WK_2, "");
    assert_eq!(rec.ROUND_B1_YIELD_13WK_2, "");
    assert_eq!(rec.ROUND_B1_YIELD_17WK_2, "");
    assert_eq!(rec.ROUND_B1_YIELD_26WK_2, "");
    assert_eq!(rec.ROUND_B1_YIELD_52WK_2, "");
}

#[test]
fn no_entry_element_yields_no_entries() {
    let xml = b"<feed><title>Daily Treasury Par Yield Curve Rates</title></feed>";
    assert_eq!(yield_curve::parse_treasury_xml(xml), Err(FeedError::NoEntries));
    assert_eq!(bill_rates::parse_treasury_xml(xml), Err(FeedError::NoEntries));
}

#[test]
fn empty_document_yields_no_entries() {
    assert_eq!(bill_rates::parse_treasury_xml(b""), Err(FeedError::NoEntries));
    assert_eq!(yield_curve::parse_treasury_xml(b""), Err(FeedError::NoEntries));
}

#[test]
fn whitespace_only_document_yields_no_entries() {
    assert_eq!(bill_rates::parse_treasury_xml(b"  \n  "), Err(FeedError::NoEntries));
}

#[test]
fn malformed_document_after_element_start_yields_xml_parse() {
    let xml = b"<feed><entry><BC_1MONTH>5.3</BC_1MONTH>";
    assert_eq!(yield_curve::parse_treasury_xml(xml), Err(FeedError::XmlParse));
}

#[test]
fn duplicate_field_last_occurrence_wins() {
    let xml = b"<entry><INDEX_DATE>2024-04-30</INDEX_DATE>\
<INDEX_DATE>2024-05-01</INDEX_DATE></entry>";
    let rec = bill_rates::parse_treasury_xml(xml).unwrap();
    assert_eq!(rec.INDEX_DATE, "2024-05-01");
}

#[test]
fn yield_curve_entry_fills_named_fields() {
    let xml = b"<feed><entry>\
<BC_1MONTH>5.49</BC_1MONTH>\
<BC_10YEAR>4.21</BC_10YEAR>\
<BC_30YEAR>4.40</BC_30YEAR>\
<updated>2023-06-30T15:00:00</updated>\
</entry></feed>";
    let rec = yield_curve::parse_treasury_xml(xml).unwrap();
    assert_eq!(rec.BC_1MONTH, "5.49");
    assert_eq!(rec.BC_10YEAR, "4.21");
    assert_eq!(rec.BC_30YEAR, "4.40");
    assert_eq!(rec.updated, "2023-06-30T15:00:00");
    assert_eq!(rec.BC_2MONTH, "");
    assert_eq!(rec.BC_20YEAR, "");
}

#[test]
fn whitespace_between_elements_does_not_assign_fields() {
    let xml = b"<feed>\n  <entry>\n    <BC_1MONTH>5.49</BC_1MONTH>\n  </entry>\n</feed>";
    let rec = yield_curve::parse_treasury_xml(xml).unwrap();
    assert_eq!(rec.BC_1MONTH, "5.49");
    assert_eq!(rec.BC_2MONTH, "");
}

#[test]
fn character_data_after_closing_tag_stays_scoped_to_last_started_element() {
    // The scan's one piece of state is the last start-element name, so mixed
    // content after a closing tag still assigns to that name.
    let xml = b"<entry><INDEX_DATE>2024-05-01</INDEX_DATE>2024-06-01</entry>";
    let rec = bill_rates::parse_treasury_xml(xml).unwrap();
    assert_eq!(rec.INDEX_DATE, "2024-06-01");
}

#[test]
fn field_named_like_schema_outside_entry_still_counts_as_value() {
    // Field identity is by exact element name alone, wherever the element
    // stands in the document.
    let xml = b"<feed><INDEX_DATE>2024-05-01</INDEX_DATE><entry></entry></feed>";
    let rec = bill_rates::parse_treasury_xml(xml).unwrap();
    assert_eq!(rec.INDEX_DATE, "2024-05-01");
}

#[test]
fn unknown_elements_are_ignored() {
    let xml = b"<entry><NOT_A_FIELD>9.99</NOT_A_FIELD><INDEX_DATE>2024-05-01</INDEX_DATE></entry>";
    let rec = bill_rates::parse_treasury_xml(xml).unwrap();
    assert_eq!(rec.INDEX_DATE, "2024-05-01");
    assert_eq!(rec.ROUND_B1_YIELD_4WK_2, "");
}
