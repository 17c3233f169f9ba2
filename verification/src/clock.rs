//! The calendar and the clock face, as `chrono` keeps them: which offsets and
//! which epoch seconds it accepts, and how it writes a time of day.

use chrono::{DateTime, FixedOffset, Utc};
use vstd::prelude::*;

use crate::digits::digit_char;

verus! {

/// First second that a UTC date-time can hold: midnight of 1 January of the
/// year -262143.
pub const MIN_UTC_SECONDS: i64 = -8_334_601_228_800;

/// Last second that a UTC date-time can hold: 23:59:59 of 31 December of the
/// year 262142.
pub const MAX_UTC_SECONDS: i64 = 8_210_266_876_799;

/// Seconds in a day. A UTC offset lies strictly within one day either way.
pub const DAY_SECONDS: i32 = 86_400;

/// An offset that a place can have: less than a day east or west of UTC.
pub open spec fn valid_offset(offset_seconds: int) -> bool {
    -DAY_SECONDS < offset_seconds < DAY_SECONDS
}

/// Epoch seconds that name a UTC instant.
pub open spec fn valid_timestamp(utc_seconds: int) -> bool {
    MIN_UTC_SECONDS <= utc_seconds <= MAX_UTC_SECONDS
}

/// The format that writes a time of day on a 12-hour clock face.
pub open spec fn clock_pattern() -> Seq<char> {
    "%I:%M %p"@
}

/// A number below one hundred in two digits, with a leading zero where needed.
pub open spec fn two_digits(n: int) -> Seq<char>
    recommends
        0 <= n < 100,
{
    seq![digit_char(n / 10), digit_char(n % 10)]
}

/// The second of the day that a wall clock shows, whatever the date.
pub open spec fn second_of_day(local_seconds: int) -> int {
    local_seconds % (DAY_SECONDS as int)
}

/// The hour of the day, from 0 to 23.
pub open spec fn hour_of_day(local_seconds: int) -> int {
    second_of_day(local_seconds) / 3600
}

/// The minute of the hour, from 0 to 59.
pub open spec fn minute_of_hour(local_seconds: int) -> int {
    (second_of_day(local_seconds) % 3600) / 60
}

/// The hour as a 12-hour clock face shows it, from 1 to 12: midnight and noon
/// are both 12.
pub open spec fn hour_on_face(local_seconds: int) -> int {
    let hour = hour_of_day(local_seconds) % 12;
    if hour == 0 {
        12
    } else {
        hour
    }
}

/// `AM` before noon, `PM` from noon on.
pub open spec fn meridiem(local_seconds: int) -> Seq<char> {
    if hour_of_day(local_seconds) < 12 {
        seq!['A', 'M']
    } else {
        seq!['P', 'M']
    }
}

/// A time of day as the report writes it: two digits for the hour on a
/// 12-hour face, a colon, two digits for the minute, a space, `AM` or `PM`.
pub open spec fn clock_text(local_seconds: int) -> Seq<char> {
    two_digits(hour_on_face(local_seconds)) + seq![':'] + two_digits(
        minute_of_hour(local_seconds),
    ) + seq![' '] + meridiem(local_seconds)
}

/// Calls `chrono::FixedOffset::east_opt` and tells whether it made an offset.
/// Trusted: it makes one exactly for the offsets strictly within a day.
#[verifier::external_body]
pub(crate) fn offset_exists(offset_seconds: i32) -> (known: bool)
    ensures
        known == valid_offset(offset_seconds as int),
{
    FixedOffset::east_opt(offset_seconds).is_some()
}

/// Calls `chrono::DateTime::<Utc>::from_timestamp` with no nanoseconds and
/// tells whether it made an instant. Trusted: it makes one exactly for the
/// seconds whose UTC date lies in the years -262143 to 262142.
#[verifier::external_body]
pub(crate) fn instant_exists(utc_seconds: i64) -> (known: bool)
    ensures
        known == valid_timestamp(utc_seconds as int),
{
    DateTime::<Utc>::from_timestamp(utc_seconds, 0).is_some()
}

/// Calls `chrono::DateTime::format` on the instant `utc_seconds`, moved to the
/// zone `offset_seconds` east of UTC by `DateTime::with_timezone`. Trusted:
/// under the clock pattern, `%I` writes the hour of the local time on a
/// 12-hour face in two digits, `%M` the minute in two digits and `%p` `AM` or
/// `PM`, and the colon and the space are copied.
#[verifier::external_body]
pub(crate) fn format_local_clock(utc_seconds: i64, offset_seconds: i32, pattern: &str) -> (text:
    String)
    requires
        valid_timestamp(utc_seconds as int),
        valid_offset(offset_seconds as int),
        pattern@ == clock_pattern(),
    ensures
        text@ == clock_text(utc_seconds + offset_seconds),
{
    let zone = FixedOffset::east_opt(offset_seconds).unwrap();
    let instant = DateTime::<Utc>::from_timestamp(utc_seconds, 0).unwrap();
    instant.with_timezone(&zone).format(pattern).to_string()
}

} // verus!
