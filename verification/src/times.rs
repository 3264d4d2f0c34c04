//! Reading user-supplied event times.
//!
//! A create command carries a local wall-clock time written as
//! `"HH:MMam YYYY-MM-DD"` plus the configured time-zone name.  Parsing
//! the text and resolving the zone offset are the time library's work;
//! each call is named here and trusted, and everything around the
//! calls is verified.

use chrono::{Datelike, TimeZone, Timelike};
use vstd::prelude::*;

use crate::valid_instant;

verus! {

/// What the event-time format parses to on a given string: calendar
/// fields (year, month, day, hour, minute, second), or nothing when
/// the string does not match the format.
pub uninterp spec fn parsed_event_time(s: Seq<char>) -> Option<(i32, u32, u32, u32, u32, u32)>;

/// The UTC timestamp (seconds since the Unix epoch) of the given local
/// calendar fields in the named zone, or nothing when the zone name is
/// unknown, the fields are out of range, or the local time does not
/// map to exactly one instant in that zone.
pub uninterp spec fn utc_timestamp_of(
    tz: Seq<char>,
    year: int,
    month: int,
    day: int,
    hour: int,
    minute: int,
    second: int,
) -> Option<int>;

/// Relies on chrono's `NaiveDateTime::parse_from_str` with the fixed
/// format `"%I:%M%P %Y-%m-%d"`, and on the `Datelike` / `Timelike`
/// accessors of the parsed value.  The result depends on the string
/// alone.
#[verifier::external_body]
pub fn parse_event_time_fields(s: &str) -> (r: Option<(i32, u32, u32, u32, u32, u32)>)
    ensures
        match r {
            Some(f) => parsed_event_time(s@) == Some(f),
            None => parsed_event_time(s@) is None,
        },
{
    match chrono::NaiveDateTime::parse_from_str(s, "%I:%M%P %Y-%m-%d") {
        Ok(dt) => Some((dt.year(), dt.month(), dt.day(), dt.hour(), dt.minute(), dt.second())),
        Err(_) => None,
    }
}

/// Relies on chrono-tz: the zone name is looked up in the compiled-in
/// zone database (`str::parse::<Tz>`), the local fields are resolved
/// with `TimeZone::with_ymd_and_hms`, and the instant is read with
/// `DateTime::timestamp`.  The result depends on the arguments alone.
/// An ambiguous or skipped local time (daylight-saving folds and gaps)
/// yields nothing.  chrono's dates are limited to years within
/// +/-262143, so a produced timestamp always lies far inside
/// `valid_instant`.
#[verifier::external_body]
pub fn local_fields_to_utc(
    tz_name: &str,
    year: i32,
    month: u32,
    day: u32,
    hour: u32,
    minute: u32,
    second: u32,
) -> (r: Option<i64>)
    ensures
        match r {
            Some(t) => utc_timestamp_of(
                tz_name@,
                year as int,
                month as int,
                day as int,
                hour as int,
                minute as int,
                second as int,
            ) == Some(t as int) && valid_instant(t),
            None => utc_timestamp_of(
                tz_name@,
                year as int,
                month as int,
                day as int,
                hour as int,
                minute as int,
                second as int,
            ) is None,
        },
{
    let tz: chrono_tz::Tz = match tz_name.parse() {
        Ok(tz) => tz,
        Err(_) => return None,
    };
    match tz.with_ymd_and_hms(year, month, day, hour, minute, second) {
        chrono::LocalResult::Single(dt) => Some(dt.timestamp()),
        _ => None,
    }
}

} // verus!
