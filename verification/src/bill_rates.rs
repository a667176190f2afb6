//! The daily bill-rate feed: six discount-rate tenors and the index date.

use vstd::prelude::*;
use crate::FeedError;
use crate::xml_scan::{parse_outcome, parse_fields, strs_view};

verus! {

/// The ordered field names of the bill-rate schema.
pub open spec fn bill_field_names() -> Seq<Seq<char>> {
    seq![
        "ROUND_B1_YIELD_4WK_2"@,
        "ROUND_B1_YIELD_8WK_2"@,
        "ROUND_B1_YIELD_13WK_2"@,
        "ROUND_B1_YIELD_17WK_2"@,
        "ROUND_B1_YIELD_26WK_2"@,
        "ROUND_B1_YIELD_52WK_2"@,
        "INDEX_DATE"@,
    ]
}

/// The bill-rate schema's field names, in their declared order.
pub fn bill_schema() -> (r: Vec<String>)
    ensures
        strs_view(r@) == bill_field_names(),
{
    let mut r: Vec<String> = Vec::new();
    r.push("ROUND_B1_YIELD_4WK_2".to_owned());
    r.push("ROUND_B1_YIELD_8WK_2".to_owned());
    r.push("ROUND_B1_YIELD_13WK_2".to_owned());
    r.push("ROUND_B1_YIELD_17WK_2".to_owned());
    r.push("ROUND_B1_YIELD_26WK_2".to_owned());
    r.push("ROUND_B1_YIELD_52WK_2".to_owned());
    r.push("INDEX_DATE".to_owned());
    proof {
        assert(strs_view(r@) =~= bill_field_names());
    }
    r
}

/// One month's bill-rate record: every schema field as published, the empty
/// string where the feed holds no value.
#[allow(non_snake_case)]
#[derive(Debug, Clone, PartialEq)]
pub struct TreasuryBillRates {
    pub ROUND_B1_YIELD_4WK_2: String,
    pub ROUND_B1_YIELD_8WK_2: String,
    pub ROUND_B1_YIELD_13WK_2: String,
    pub ROUND_B1_YIELD_17WK_2: String,
    pub ROUND_B1_YIELD_26WK_2: String,
    pub ROUND_B1_YIELD_52WK_2: String,
    pub INDEX_DATE: String,
}

impl TreasuryBillRates {
    /// The record carries exactly the given field values, in schema order.
    pub open spec fn matches_values(self, vals: Seq<Seq<char>>) -> bool {
        &&& vals.len() == 7
        &&& self.ROUND_B1_YIELD_4WK_2@ == vals[0]
        &&& self.ROUND_B1_YIELD_8WK_2@ == vals[1]
        &&& self.ROUND_B1_YIELD_13WK_2@ == vals[2]
        &&& self.ROUND_B1_YIELD_17WK_2@ == vals[3]
        &&& self.ROUND_B1_YIELD_26WK_2@ == vals[4]
        &&& self.ROUND_B1_YIELD_52WK_2@ == vals[5]
        &&& self.INDEX_DATE@ == vals[6]
    }
}

/// Parses one month's bill-rate feed.
///
/// The result follows `parse_outcome` for the bill-rate schema: a record with
/// every schema field (absent ones empty) when the document is well formed
/// and holds an `entry` element, `NoEntries` when it holds none, and
/// `XmlParse` when it breaks after an element has started.
pub fn parse_treasury_xml(input: &[u8]) -> (r: Result<TreasuryBillRates, FeedError>)
    ensures
        match (r, parse_outcome(input@, bill_field_names())) {
            (Ok(rec), Ok(vals)) => rec.matches_values(vals),
            (Err(e1), Err(e2)) => e1 == e2,
            _ => false,
        },
{
    let schema = bill_schema();
    match parse_fields(input, &schema) {
        Ok(vals) => {
            proof {
                assert(strs_view(vals@).len() == 7);
            }
            Ok(
                TreasuryBillRates {
                    ROUND_B1_YIELD_4WK_2: vals[0].clone(),
                    ROUND_B1_YIELD_8WK_2: vals[1].clone(),
                    ROUND_B1_YIELD_13WK_2: vals[2].clone(),
                    ROUND_B1_YIELD_17WK_2: vals[3].clone(),
                    ROUND_B1_YIELD_26WK_2: vals[4].clone(),
                    ROUND_B1_YIELD_52WK_2: vals[5].clone(),
                    INDEX_DATE: vals[6].clone(),
                },
            )
        }
        Err(e) => Err(e),
    }
}

} // verus!
