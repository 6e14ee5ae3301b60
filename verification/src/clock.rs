//! Reading and writing the local time, through `chrono`.
//!
//! What these calls return depends on the clock and on the machine's time zone, so
//! their contracts state only what holds whatever the clock and the zone are: a
//! timestamp's local time lies less than a day from its UTC time (a zone's offset is
//! under 24 hours), and the clock reads no time before 1970 and none past chrono's last
//! year. The functions that use them state what they make of whatever came back.
use crate::text::{clock_text, clock_text_of};
use chrono::TimeZone;
use vstd::prelude::*;

verus! {

/// The decimal digit `n` (0 to 9) as a character.
pub open spec fn digit(n: int) -> char {
    (48 + n) as char
}

/// Whether `year` is a leap year of the Gregorian calendar.
pub open spec fn is_leap(year: int) -> bool {
    (year % 4 == 0 && year % 100 != 0) || year % 400 == 0
}

/// The number of days in `month` (1 to 12) of `year`.
pub open spec fn days_in_month(year: int, month: int) -> int {
    if month == 2 {
        if is_leap(year) {
            29
        } else {
            28
        }
    } else if month == 4 || month == 6 || month == 9 || month == 11 {
        30
    } else {
        31
    }
}

/// The number of days of `year` before the first of `month`.
pub open spec fn days_before_month(year: int, month: int) -> int {
    let common: int = if month == 1 {
        0
    } else if month == 2 {
        31
    } else if month == 3 {
        59
    } else if month == 4 {
        90
    } else if month == 5 {
        120
    } else if month == 6 {
        151
    } else if month == 7 {
        181
    } else if month == 8 {
        212
    } else if month == 9 {
        243
    } else if month == 10 {
        273
    } else if month == 11 {
        304
    } else {
        334
    };
    if month > 2 && is_leap(year) {
        common + 1
    } else {
        common
    }
}

/// The number of leap years from year 1 to year `n`.
pub open spec fn leap_years_through(n: int) -> int {
    n / 4 - n / 100 + n / 400
}

/// The days from 1970-01-01 to the date `year`-`month`-`day`.
pub open spec fn days_from_epoch(year: int, month: int, day: int) -> int {
    365 * (year - 1970) + leap_years_through(year - 1) - leap_years_through(1969)
        + days_before_month(year, month) + day - 1
}

/// A date and time of day: (year, month, day, hour, minute, second).
pub type CivilTime = (int, int, int, int, int, int);

/// `f` is a date and time of day with a four-digit year.
pub open spec fn civil_ok(f: CivilTime) -> bool {
    &&& 1000 <= f.0 <= 9999
    &&& 1 <= f.1 <= 12
    &&& 1 <= f.2 <= days_in_month(f.0, f.1)
    &&& 0 <= f.3 < 24
    &&& 0 <= f.4 < 60
    &&& 0 <= f.5 < 60
}

/// The seconds from 1970-01-01 00:00:00 to `f`.
pub open spec fn civil_seconds(f: CivilTime) -> int {
    days_from_epoch(f.0, f.1, f.2) * 86400 + f.3 * 3600 + f.4 * 60 + f.5
}

/// The character at position `i` of `f` written as "%Y-%m-%d %H:%M:%S".
pub open spec fn stamp_char(f: CivilTime, i: int) -> char {
    if i == 0 {
        digit(f.0 / 1000)
    } else if i == 1 {
        digit(f.0 / 100 % 10)
    } else if i == 2 {
        digit(f.0 / 10 % 10)
    } else if i == 3 {
        digit(f.0 % 10)
    } else if i == 4 || i == 7 {
        '-'
    } else if i == 5 {
        digit(f.1 / 10)
    } else if i == 6 {
        digit(f.1 % 10)
    } else if i == 8 {
        digit(f.2 / 10)
    } else if i == 9 {
        digit(f.2 % 10)
    } else if i == 10 {
        ' '
    } else if i == 11 {
        digit(f.3 / 10)
    } else if i == 12 {
        digit(f.3 % 10)
    } else if i == 13 || i == 16 {
        ':'
    } else if i == 14 {
        digit(f.4 / 10)
    } else if i == 15 {
        digit(f.4 % 10)
    } else if i == 17 {
        digit(f.5 / 10)
    } else {
        digit(f.5 % 10)
    }
}

/// `f` written as "%Y-%m-%d %H:%M:%S", such as "2017-07-14 02:40:00".
pub open spec fn clock_stamp(f: CivilTime) -> Seq<char> {
    Seq::new(19, |i: int| stamp_char(f, i))
}

/// `text` is the local time, written as "%Y-%m-%d %H:%M:%S", of the instant `secs`
/// seconds after the Unix epoch in some time zone: a date and time of day that lies
/// less than a day from the UTC time of `secs`.
pub open spec fn local_stamp(secs: int, text: Seq<char>) -> bool {
    exists|f: CivilTime|
        #![trigger clock_stamp(f)]
        clock_stamp(f) == text && civil_ok(f) && -86400 < civil_seconds(f) - secs < 86400
}

/// The latest second that chrono can hold lies before this one (years up to 262142).
pub const CLOCK_LIMIT: i64 = 8_300_000_000_000;

/// `chrono::Local::now().timestamp()`: the seconds since the Unix epoch, now. chrono
/// panics on a clock before 1970 (`Utc::now`) and cannot hold a time past its last
/// year, so a result is neither negative nor beyond `CLOCK_LIMIT`.
#[verifier::external_body]
pub(crate) fn now_epoch_seconds() -> (r: i64)
    ensures
        0 <= r < CLOCK_LIMIT,
{
    chrono::Local::now().timestamp()
}

/// `chrono::Local::now()` written as "%Y-%m-%d %H:%M:%S" in the local time zone: a
/// year of at least four digits and two digits each for month, day, hour, minute and
/// second, so at least 19 characters. It panics where the machine's time zone data
/// cannot name the current offset.
#[verifier::external_body]
pub(crate) fn now_label() -> (r: String)
    ensures
        r@.len() >= 19,
{
    chrono::Local::now().format("%Y-%m-%d %H:%M:%S").to_string()
}

/// The local time of `secs` seconds after the Unix epoch, written as
/// "%Y-%m-%d %H:%M:%S" (at least 19 characters, as for `now_label`):
/// `chrono::Local.timestamp_opt(secs, 0)` where it gives a single time, `None` otherwise,
/// where `Local.timestamp(secs, 0)` would panic. chrono gives a single time for every
/// `secs` within its range of dates (years -262143 to 262142), which holds all `secs` of
/// magnitude up to 8 * 10^12. The local time is the UTC time of `secs` shifted by the
/// zone's offset, which is under a day either way (a `FixedOffset`); from 1970 until a
/// day before the year 10000 its year has four digits, so the text is `local_stamp`.
#[verifier::external_body]
pub(crate) fn local_time_label(secs: i64) -> (r: Option<String>)
    ensures
        -8_000_000_000_000 <= secs <= 8_000_000_000_000 ==> r is Some,
        r matches Some(s) ==> s@.len() >= 19,
        r matches Some(s) ==> (0 <= secs < 253_402_214_400 ==> local_stamp(secs as int, s@)),
{
    match chrono::Local.timestamp_opt(secs, 0) {
        chrono::LocalResult::Single(t) => Some(t.format("%Y-%m-%d %H:%M:%S").to_string()),
        chrono::LocalResult::Ambiguous(_, _) => None,
        chrono::LocalResult::None => None,
    }
}

/// The text of the clock label: the local time now ("%Y-%m-%d %H:%M:%S", at least 19
/// characters), followed by " Uhr".
pub fn current_time() -> (r: String)
    ensures
        exists|t: Seq<char>| t.len() >= 19 && r@ == clock_text_of(t),
{
    let now = now_label();
    clock_text(now.as_str())
}

} // verus!
