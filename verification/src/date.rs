//! Calendar dates at day granularity, the resolution at which check
//! results are recorded, and the clock that supplies the current one.

use vstd::prelude::*;
use chrono::Datelike;

verus! {

/// A calendar date. Check results are recorded at day granularity.
#[derive(Clone, Copy, PartialEq, Eq, Structural, Debug)]
pub struct Date {
    pub year: i32,
    pub month: u8,
    pub day: u8,
}

impl Date {
    /// The month and day lie in their calendar ranges.
    pub open spec fn valid(self) -> bool {
        &&& 1 <= self.month <= 12
        &&& 1 <= self.day <= 31
    }
}

/// The current date in UTC.
///
/// Relies on chrono's `Utc::now` and `NaiveDate`'s `Datelike` accessors:
/// `month()` returns a value in 1..=12 and `day()` a value in 1..=31.
/// The result depends on the clock, so nothing more is promised of it.
#[verifier::external_body]
pub fn today_utc() -> (d: Date)
    ensures
        d.valid(),
{
    let now = chrono::Utc::now().date_naive();
    Date { year: now.year(), month: now.month() as u8, day: now.day() as u8 }
}

} // verus!
