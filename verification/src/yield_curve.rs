//! The daily yield-curve feed: thirteen tenor points and the update stamp.

use vstd::prelude::*;
use crate::FeedError;
use crate::xml_scan::{parse_outcome, parse_fields, strs_view};

verus! {

/// The ordered field names of the yield-curve schema.
pub open spec fn yield_field_names() -> Seq<Seq<char>> {
    seq![
        "BC_1MONTH"@,
        "BC_2MONTH"@,
        "BC_3MONTH"@,
        "BC_4MONTH"@,
        "BC_6MONTH"@,
        "BC_1YEAR"@,
        "BC_2YEAR"@,
        "BC_3YEAR"@,
        "BC_5YEAR"@,
        "BC_7YEAR"@,
        "BC_10YEAR"@,
        "BC_20YEAR"@,
        "BC_30YEAR"@,
        "updated"@,
    ]
}

/// The yield-curve schema's field names, in their declared order.
pub fn yield_schema() -> (r: Vec<String>)
    ensures
        strs_view(r@) == yield_field_names(),
{
    let mut r: Vec<String> = Vec::new();
    r.push("BC_1MONTH".to_owned());
    r.push("BC_2MONTH".to_owned());
    r.push("BC_3MONTH".to_owned());
    r.push("BC_4MONTH".to_owned());
    r.push("BC_6MONTH".to_owned());
    r.push("BC_1YEAR".to_owned());
    r.push("BC_2YEAR".to_owned());
    r.push("BC_3YEAR".to_owned());
    r.push("BC_5YEAR".to_owned());
    r.push("BC_7YEAR".to_owned());
    r.push("BC_10YEAR".to_owned());
    r.push("BC_20YEAR".to_owned());
    r.push("BC_30YEAR".to_owned());
    r.push("updated".to_owned());
    proof {
        assert(strs_view(r@) =~= yield_field_names());
    }
    r
}

/// One month's yield-curve record: every schema field as published, the
/// empty string where the feed holds no value.
#[allow(non_snake_case)]
#[derive(Debug, Clone, PartialEq)]
pub struct TreasuryBillRates {
    pub BC_1MONTH: String,
    pub BC_2MONTH: String,
    pub BC_3MONTH: String,
    pub BC_4MONTH: String,
    pub BC_6MONTH: String,
    pub BC_1YEAR: String,
    pub BC_2YEAR: String,
    pub BC_3YEAR: String,
    pub BC_5YEAR: String,
    pub BC_7YEAR: String,
    pub BC_10YEAR: String,
    pub BC_20YEAR: String,
    pub BC_30YEAR: String,
    pub updated: String,
}

impl TreasuryBillRates {
    /// The record carries exactly the given field values, in schema order.
    pub open spec fn matches_values(self, vals: Seq<Seq<char>>) -> bool {
        &&& vals.len() == 14
        &&& self.BC_1MONTH@ == vals[0]
        &&& self.BC_2MONTH@ == vals[1]
        &&& self.BC_3MONTH@ == vals[2]
        &&& self.BC_4MONTH@ == vals[3]
        &&& self.BC_6MONTH@ == vals[4]
        &&& self.BC_1YEAR@ == vals[5]
        &&& self.BC_2YEAR@ == vals[6]
        &&& self.BC_3YEAR@ == vals[7]
        &&& self.BC_5YEAR@ == vals[8]
        &&& self.BC_7YEAR@ == vals[9]
        &&& self.BC_10YEAR@ == vals[10]
        &&& self.BC_20YEAR@ == vals[11]
        &&& self.BC_30YEAR@ == vals[12]
        &&& self.updated@ == vals[13]
    }
}

/// Parses one month's yield-curve feed.
///
/// The result follows `parse_outcome` for the yield-curve schema: a record
/// with every schema field (absent ones empty) when the document is well
/// formed and holds an `entry` element, `NoEntries` when it holds none, and
/// `XmlParse` when it breaks after an element has started.
pub fn parse_treasury_xml(input: &[u8]) -> (r: Result<TreasuryBillRates, FeedError>)
    ensures
        match (r, parse_outcome(input@, yield_field_names())) {
            (Ok(rec), Ok(vals)) => rec.matches_values(vals),
            (Err(e1), Err(e2)) => e1 == e2,
            _ => false,
        },
{
    let schema = yield_schema();
    match parse_fields(input, &schema) {
        Ok(vals) => {
            proof {
                assert(strs_view(vals@).len() == 14);
            }
            Ok(
                TreasuryBillRates {
                    BC_1MONTH: vals[0].clone(),
                    BC_2MONTH: vals[1].clone(),
                    BC_3MONTH: vals[2].clone(),
                    BC_4MONTH: vals[3].clone(),
                    BC_6MONTH: vals[4].clone(),
                    BC_1YEAR: vals[5].clone(),
                    BC_2YEAR: vals[6].clone(),
                    BC_3YEAR: vals[7].clone(),
                    BC_5YEAR: vals[8].clone(),
                    BC_7YEAR: vals[9].clone(),
                    BC_10YEAR: vals[10].clone(),
                    BC_20YEAR: vals[11].clone(),
                    BC_30YEAR: vals[12].clone(),
                    updated: vals[13].clone(),
                },
            )
        }
        Err(e) => Err(e),
    }
}

} // verus!
