//! Dates and times as plain values, and the trusted parsing layer over
//! chrono.
//!
//! Each page type carries its own literal date or time formats; parsing
//! is tried per format and an absent value is returned where no format
//! matches. What a given format accepts is not restated here: the parse
//! result is named by an uninterpreted function of the text and format,
//! which is sound because chrono's parsing depends on its two arguments
//! alone.

use vstd::prelude::*;

use chrono::{Datelike, Timelike};

verus! {

/// A calendar date as plain values.
#[derive(Debug, Clone, Copy, PartialEq, Eq, Structural)]
pub struct CalendarDate {
    pub year: i32,
    pub month: u8,
    pub day: u8,
}

/// A time of day as plain values.
#[derive(Debug, Clone, Copy, PartialEq, Eq, Structural)]
pub struct ClockTime {
    pub hour: u8,
    pub minute: u8,
    pub second: u8,
}

/// A date with a time of day.
#[derive(Debug, Clone, Copy, PartialEq, Eq, Structural)]
pub struct DateTime {
    pub date: CalendarDate,
    pub time: ClockTime,
}

/// A date the trusted parser can hand out: a real calendar month and day.
pub open spec fn date_valid(d: CalendarDate) -> bool {
    1 <= d.month <= 12 && 1 <= d.day <= 31
}

/// A time of day the trusted parser can hand out.
pub open spec fn time_valid(t: ClockTime) -> bool {
    t.hour <= 23 && t.minute <= 59 && t.second <= 59
}

pub open spec fn datetime_valid(dt: DateTime) -> bool {
    date_valid(dt.date) && time_valid(dt.time)
}

/// What chrono's `NaiveDate::parse_from_str` returns on the given text
/// and format, as (year, month, day); `None` where parsing fails.
pub uninterp spec fn date_from_text(s: Seq<char>, fmt: Seq<char>) -> Option<(int, int, int)>;

/// What chrono's `NaiveTime::parse_from_str` returns on the given text
/// and format, as (hour, minute, second); `None` where parsing fails.
pub uninterp spec fn time_from_text(s: Seq<char>, fmt: Seq<char>) -> Option<(int, int, int)>;

/// What chrono's `NaiveDateTime::parse_from_str` returns on the given
/// text and format, as (year, month, day, hour, minute, second); `None`
/// where parsing fails.
pub uninterp spec fn datetime_from_text(s: Seq<char>, fmt: Seq<char>) -> Option<
    (int, int, int, int, int, int),
>;

/// Relies on chrono's `NaiveDate::parse_from_str`: the result depends on
/// the text and the format alone, and a returned date is a valid
/// calendar date (its month 1 to 12, its day 1 to 31).
#[verifier::external_body]
pub fn parse_date(s: &str, fmt: &str) -> (r: Option<CalendarDate>)
    ensures
        match r {
            Some(d) => date_from_text(s@, fmt@) == Some(
                (d.year as int, d.month as int, d.day as int),
            ) && date_valid(d),
            None => date_from_text(s@, fmt@) is None,
        },
{
    match chrono::NaiveDate::parse_from_str(s, fmt) {
        Ok(d) => Some(
            CalendarDate { year: d.year(), month: d.month() as u8, day: d.day() as u8 },
        ),
        Err(_) => None,
    }
}

/// Relies on chrono's `NaiveTime::parse_from_str`: the result depends on
/// the text and the format alone, and a returned time is a valid time of
/// day (chrono reports seconds 0 to 59).
#[verifier::external_body]
pub fn parse_time(s: &str, fmt: &str) -> (r: Option<ClockTime>)
    ensures
        match r {
            Some(t) => time_from_text(s@, fmt@) == Some(
                (t.hour as int, t.minute as int, t.second as int),
            ) && time_valid(t),
            None => time_from_text(s@, fmt@) is None,
        },
{
    match chrono::NaiveTime::parse_from_str(s, fmt) {
        Ok(t) => Some(
            ClockTime { hour: t.hour() as u8, minute: t.minute() as u8, second: t.second() as u8 },
        ),
        Err(_) => None,
    }
}

/// Relies on chrono's `NaiveDateTime::parse_from_str`: the result depends
/// on the text and the format alone, and a returned value is a valid
/// date with a valid time of day.
#[verifier::external_body]
pub fn parse_datetime(s: &str, fmt: &str) -> (r: Option<DateTime>)
    ensures
        match r {
            Some(dt) => datetime_from_text(s@, fmt@) == Some(
                (
                    dt.date.year as int,
                    dt.date.month as int,
                    dt.date.day as int,
                    dt.time.hour as int,
                    dt.time.minute as int,
                    dt.time.second as int,
                ),
            ) && datetime_valid(dt),
            None => datetime_from_text(s@, fmt@) is None,
        },
{
    match chrono::NaiveDateTime::parse_from_str(s, fmt) {
        Ok(dt) => {
            let date = CalendarDate { year: dt.year(), month: dt.month() as u8, day: dt.day() as u8 };
            let time = ClockTime { hour: dt.hour() as u8, minute: dt.minute() as u8, second: dt.second() as u8 };
            Some(DateTime { date, time })
        },
        Err(_) => None,
    }
}

/// A date combined with a time of day.
pub fn at_time(d: CalendarDate, t: ClockTime) -> (r: DateTime)
    ensures
        r == (DateTime { date: d, time: t }),
{
    DateTime { date: d, time: t }
}

} // verus!
