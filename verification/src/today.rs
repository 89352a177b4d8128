//! Today's date, for highlighting the current day in the calendar
//! grid: a panic-free reading of the wall clock through trusted
//! wrappers, and a verified clamp of whatever came back into a
//! well-formed date.

use vstd::prelude::*;
use chrono::Datelike;
use crate::date::{Date, days_in_month, spec_days_in_month, MAX_YEAR, MIN_YEAR};

verus! {

/// Relies on std::time::SystemTime::now: whole seconds elapsed since
/// the Unix epoch, or `None` when the clock reads earlier than the
/// epoch. Nothing is promised of the clock's value.
#[verifier::external_body]
fn unix_seconds() -> (r: Option<u64>)
{
    match std::time::SystemTime::now().duration_since(std::time::UNIX_EPOCH) {
        Ok(d) => Some(d.as_secs()),
        Err(_) => None,
    }
}

/// Relies on chrono's checked `DateTime::from_timestamp` and the
/// `Datelike` accessors: the UTC calendar date of the given Unix
/// timestamp, or `None` for a timestamp chrono cannot represent; on
/// every `Some`, the month lies in 1 to 12 and the day of month in
/// 1 to 31, as chrono documents them. No path panics.
#[verifier::external_body]
fn utc_ymd_of_unix(secs: i64) -> (r: Option<(i32, u32, u32)>)
    ensures
        r matches Some(ymd) ==> 1 <= ymd.1 <= 12 && 1 <= ymd.2 <= 31,
{
    match chrono::DateTime::from_timestamp(secs, 0) {
        Some(dt) => {
            let date = dt.date_naive();
            Some((date.year(), date.month(), date.day()))
        },
        None => None,
    }
}

/// The well-formed date nearest to a clock reading `(y, m, d)`: the
/// year forced into the supported range, and the day forced onto a day
/// that month of that year has. A reading that already is a valid
/// in-range date is kept as it is.
pub open spec fn spec_date_from_clock(y: int, m: int, d: int) -> Date {
    let year = if y < MIN_YEAR {
        MIN_YEAR as int
    } else if y > MAX_YEAR {
        MAX_YEAR as int
    } else {
        y
    };
    let day = if d > spec_days_in_month(year, m) {
        spec_days_in_month(year, m)
    } else {
        d
    };
    Date { year: year as i32, month: m as u8, day: day as u8 }
}

/// Builds the date for a clock reading, exactly as
/// [`spec_date_from_clock`] describes it: an in-range reading is
/// preserved, anything else is clamped to the nearest well-formed
/// date.
pub fn date_from_clock(y: i32, m: u32, d: u32) -> (r: Date)
    requires
        1 <= m <= 12,
        1 <= d <= 31,
    ensures
        r == spec_date_from_clock(y as int, m as int, d as int),
        r.wf(),
        MIN_YEAR <= y <= MAX_YEAR && d <= spec_days_in_month(y as int, m as int) ==> r == (Date {
            year: y,
            month: m as u8,
            day: d as u8,
        }),
{
    let month: u8 = m as u8;
    let year: i32 = if y < MIN_YEAR {
        MIN_YEAR
    } else if y > MAX_YEAR {
        MAX_YEAR
    } else {
        y
    };
    let dim = days_in_month(year, month);
    let day: u8 = if d as u8 > dim {
        dim
    } else {
        d as u8
    };
    Date { year, month, day }
}

/// Today's date in UTC: the trusted clock reading, clamped by
/// [`date_from_clock`] into a well-formed date. A clock before the
/// epoch or beyond chrono's range falls back to the epoch date; either
/// way the result is well formed and no path can panic.
pub fn get_current_date() -> (r: Date)
    ensures
        r.wf(),
{
    let fallback = Date { year: 1970, month: 1, day: 1 };
    match unix_seconds() {
        None => fallback,
        Some(secs) => {
            let capped: i64 = if secs > 9223372036854775807u64 {
                9223372036854775807i64
            } else {
                secs as i64
            };
            match utc_ymd_of_unix(capped) {
                Some((y, m, d)) => date_from_clock(y, m, d),
                None => fallback,
            }
        },
    }
}

} // verus!
