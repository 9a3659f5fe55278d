//! Calendar dates, checked by the `chrono` crate.

use vstd::prelude::*;

verus! {

/// First year that the crate's dates reach.
pub const MIN_YEAR: i32 = -262143;

/// Last year that the crate's dates reach.
pub const MAX_YEAR: i32 = 262142;

/// A leap year of the Gregorian calendar, carried back before its start.
pub open spec fn is_leap_year(year: int) -> bool {
    year % 4 == 0 && (year % 100 != 0 || year % 400 == 0)
}

/// The number of days of a month.
pub open spec fn days_in_month(year: int, month: int) -> int {
    if month == 2 {
        if is_leap_year(year) {
            29
        } else {
            28
        }
    } else if month == 4 || month == 6 || month == 9 || month == 11 {
        30
    } else {
        31
    }
}

/// The calendar has such a day.
pub open spec fn date_exists(year: int, month: int, day: int) -> bool {
    1 <= month <= 12 && 1 <= day <= days_in_month(year, month)
}

/// Calls `NaiveDate::from_ymd_opt` and reports whether it gave a date. The
/// crate documents `None` for a day that the calendar does not have, for a
/// month or day that is no month or day, and for a year out of its range.
#[verifier::external_body]
pub(crate) fn calendar_date_exists(year: i32, month: u32, day: u32) -> (exists: bool)
    ensures
        MIN_YEAR <= year <= MAX_YEAR ==> exists == date_exists(
            year as int,
            month as int,
            day as int,
        ),
        !(MIN_YEAR <= year <= MAX_YEAR) ==> !exists,
{
    chrono::NaiveDate::from_ymd_opt(year, month, day).is_some()
}

} // verus!
