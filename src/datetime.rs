//! Calendar date and time of day in UTC, as plain fields.

use vstd::prelude::*;

verus! {

/// The largest Unix timestamp (seconds) that maps to a four-digit year:
/// 9999-12-31 23:59:59 UTC.
pub const MAX_FOUR_DIGIT_UNIX: i64 = 253402300799;

pub open spec fn is_leap_year(y: int) -> bool {
    (y % 4 == 0 && y % 100 != 0) || y % 400 == 0
}

pub open spec fn days_in_month(y: int, m: int) -> int {
    if m == 2 {
        if is_leap_year(y) {
            29
        } else {
            28
        }
    } else if m == 4 || m == 6 || m == 9 || m == 11 {
        30
    } else {
        31
    }
}

/// A calendar date of the proleptic Gregorian calendar.
pub open spec fn valid_date(y: int, m: int, d: int) -> bool {
    1 <= m <= 12 && 1 <= d <= days_in_month(y, m)
}

pub open spec fn valid_time(h: int, mi: int, s: int) -> bool {
    0 <= h < 24 && 0 <= mi < 60 && 0 <= s < 60
}

/// A moment in UTC, to the second.
#[derive(Clone, Copy, Debug, PartialEq, Eq, Structural)]
pub struct DateTime {
    pub year: i32,
    pub month: u8,
    pub day: u8,
    pub hour: u8,
    pub minute: u8,
    pub second: u8,
}

impl DateTime {
    pub open spec fn wf(&self) -> bool {
        valid_date(self.year as int, self.month as int, self.day as int) && valid_time(
            self.hour as int,
            self.minute as int,
            self.second as int,
        )
    }

    pub open spec fn spec_new(y: int, mo: int, d: int, h: int, mi: int, s: int) -> DateTime {
        DateTime {
            year: y as i32,
            month: mo as u8,
            day: d as u8,
            hour: h as u8,
            minute: mi as u8,
            second: s as u8,
        }
    }

    /// The moment with the given fields, if they name one.
    pub fn new(year: i32, month: u8, day: u8, hour: u8, minute: u8, second: u8) -> (r: Option<
        DateTime,
    >)
        ensures
            r is Some <==> valid_date(year as int, month as int, day as int) && valid_time(
                hour as int,
                minute as int,
                second as int,
            ),
            r matches Some(d) ==> d == (DateTime { year, month, day, hour, minute, second }),
    {
        if is_valid_date(year, month, day) && hour < 24 && minute < 60 && second < 60 {
            Some(DateTime { year, month, day, hour, minute, second })
        } else {
            None
        }
    }

    /// Midnight at the start of the given day, if the day exists.
    pub fn midnight(year: i32, month: u8, day: u8) -> (r: Option<DateTime>)
        ensures
            r is Some <==> valid_date(year as int, month as int, day as int),
            r matches Some(d) ==> d == (DateTime {
                year,
                month,
                day,
                hour: 0,
                minute: 0,
                second: 0,
            }),
    {
        DateTime::new(year, month, day, 0, 0, 0)
    }
}

pub fn is_leap(y: i32) -> (r: bool)
    ensures
        r == is_leap_year(y as int),
{
    (y % 4 == 0 && y % 100 != 0) || y % 400 == 0
}

pub fn is_valid_date(y: i32, m: u8, d: u8) -> (r: bool)
    ensures
        r == valid_date(y as int, m as int, d as int),
{
    if m < 1 || m > 12 || d < 1 {
        return false;
    }
    let last: u8 = if m == 2 {
        if is_leap(y) {
            29
        } else {
            28
        }
    } else if m == 4 || m == 6 || m == 9 || m == 11 {
        30
    } else {
        31
    };
    d <= last
}

/// The calendar date (year, month, day) in UTC of a Unix timestamp, as
/// computed by `time`; `None` where `time` cannot represent the moment.
pub uninterp spec fn utc_date_of(secs: int) -> Option<(int, int, int)>;

/// The UTC moment of a Unix timestamp, where `time` can represent it.
pub open spec fn unix_moment(secs: int) -> Option<DateTime> {
    match utc_date_of(secs) {
        Some(date) => Some(
            DateTime::spec_new(
                date.0,
                date.1,
                date.2,
                (secs % 86400) / 3600,
                (secs % 3600) / 60,
                secs % 60,
            ),
        ),
        None => None,
    }
}

/// Relies on `time::OffsetDateTime::from_unix_timestamp`: succeeds for every
/// timestamp of a four-digit year, keeps the time of day of the timestamp
/// (Euclidean remainder by 86400), and gives the calendar date in UTC.
#[verifier::external_body]
fn utc_from_unix(secs: i64) -> (r: Option<DateTime>)
    ensures
        0 <= secs <= MAX_FOUR_DIGIT_UNIX ==> r is Some,
        r matches Some(d) ==> utc_date_of(secs as int) == Some(
            (d.year as int, d.month as int, d.day as int),
        ),
        r matches Some(d) ==> d.hour as int == (secs as int % 86400) / 3600 && d.minute as int == (
        secs as int % 3600) / 60 && d.second as int == secs as int % 60,
        r is None ==> utc_date_of(secs as int) is None,
{
    match time::OffsetDateTime::from_unix_timestamp(secs) {
        Ok(t) => Some(
            DateTime {
                year: t.year(),
                month: u8::from(t.month()),
                day: t.day(),
                hour: t.hour(),
                minute: t.minute(),
                second: t.second(),
            },
        ),
        Err(_) => None,
    }
}

/// The UTC moment of a Unix timestamp in seconds; every timestamp of a
/// four-digit year has one.
pub(crate) fn from_unix_timestamp(secs: i64) -> (r: Option<DateTime>)
    ensures
        r == unix_moment(secs as int),
        0 <= secs <= MAX_FOUR_DIGIT_UNIX ==> r is Some,
{
    utc_from_unix(secs)
}

} // verus!
