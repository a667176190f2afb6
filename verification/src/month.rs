//! Calendar months, as the pair of a year and a month number.
//!
//! The feed is published per calendar month, and the fallback policy steps
//! back exactly one month, so this is all the calendar the library needs.

use vstd::prelude::*;

verus! {

/// A calendar month: a year (at most four digits) and a month number from
/// 1 through 12.
#[derive(Debug, Clone, Copy, PartialEq, Eq, Structural)]
pub struct YearMonth {
    pub year: u16,
    pub month: u8,
}

impl YearMonth {
    /// The year fits in four digits and the month number is a real month.
    pub open spec fn wf(self) -> bool {
        self.year <= 9999 && 1 <= self.month <= 12
    }
}

/// The month one step back in the calendar, or `None` at the very first
/// representable month.
pub open spec fn prev_month_spec(ym: YearMonth) -> Option<YearMonth> {
    if ym.month > 1 {
        Some(YearMonth { year: ym.year, month: (ym.month - 1) as u8 })
    } else if ym.year > 0 {
        Some(YearMonth { year: (ym.year - 1) as u16, month: 12u8 })
    } else {
        None
    }
}

/// Steps one calendar month back; undefined only at the zero year's January.
pub fn previous_month(ym: YearMonth) -> (r: Option<YearMonth>)
    requires
        ym.wf(),
    ensures
        r == prev_month_spec(ym),
        r matches Some(p) ==> p.wf(),
{
    if ym.month > 1 {
        Some(YearMonth { year: ym.year, month: ym.month - 1 })
    } else if ym.year > 0 {
        Some(YearMonth { year: ym.year - 1, month: 12 })
    } else {
        None
    }
}

} // verus!
