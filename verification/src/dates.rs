//! Calendar dates and times as timestamps.
//!
//! Pricing windows and validity windows carry their bounds as seconds since
//! the epoch. Turning calendar fields into such a timestamp is the calendar
//! library's work; everything the library states about it goes through the
//! name `seconds_of_civil`.

use vstd::prelude::*;

verus! {

/// The number of non-leap seconds since the epoch at the given calendar
/// date and time of day, as the calendar computes it.
pub uninterp spec fn seconds_of_civil(
    year: int,
    month: int,
    day: int,
    hour: int,
    minute: int,
    second: int,
) -> int;

/// Whether a year is a Gregorian leap year.
pub open spec fn is_leap_year(year: int) -> bool {
    (year % 4 == 0 && year % 100 != 0) || year % 400 == 0
}

/// The number of days in a month of the Gregorian calendar.
pub open spec fn days_in_month(year: int, month: int) -> int {
    if month == 2 {
        if is_leap_year(year) {
            29
        } else {
            28
        }
    } else if month == 4 || month == 6 || month == 9 || month == 11 {
        30
    } else {
        31
    }
}

/// Whether the fields form a valid Gregorian calendar date and a valid time
/// of day, within a range of years the calendar accepts.
pub open spec fn valid_civil(
    year: int,
    month: int,
    day: int,
    hour: int,
    minute: int,
    second: int,
) -> bool {
    &&& 0 <= year <= 9999
    &&& 1 <= month <= 12
    &&& 1 <= day <= days_in_month(year, month)
    &&& 0 <= hour < 24
    &&& 0 <= minute < 60
    &&& 0 <= second < 60
}

/// Relies on chrono's `NaiveDate::from_ymd_opt`, `NaiveDate::and_hms_opt`
/// and `DateTime::timestamp`: a valid calendar date and time of day maps to
/// the seconds since the epoch, a function of the fields alone; fields that
/// form no valid date or time map to nothing.
#[verifier::external_body]
fn civil_to_seconds(year: i32, month: u32, day: u32, hour: u32, minute: u32, second: u32) -> (r:
    Option<i64>)
    ensures
        r matches Some(t) ==> t == seconds_of_civil(
            year as int,
            month as int,
            day as int,
            hour as int,
            minute as int,
            second as int,
        ),
        valid_civil(
            year as int,
            month as int,
            day as int,
            hour as int,
            minute as int,
            second as int,
        ) ==> r is Some,
{
    match chrono::NaiveDate::from_ymd_opt(year, month, day) {
        Some(date) => match date.and_hms_opt(hour, minute, second) {
            Some(date_time) => Some(date_time.and_utc().timestamp()),
            None => None,
        },
        None => None,
    }
}

/// The timestamp of the given calendar date and time of day: seconds since
/// the epoch, or nothing when the fields form no valid date or time.
pub fn date_time_seconds(
    year: i32,
    month: u32,
    day: u32,
    hour: u32,
    minute: u32,
    second: u32,
) -> (r: Option<i64>)
    ensures
        r matches Some(t) ==> t == seconds_of_civil(
            year as int,
            month as int,
            day as int,
            hour as int,
            minute as int,
            second as int,
        ),
        valid_civil(
            year as int,
            month as int,
            day as int,
            hour as int,
            minute as int,
            second as int,
        ) ==> r is Some,
{
    civil_to_seconds(year, month, day, hour, minute, second)
}

} // verus!
