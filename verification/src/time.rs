//! Calendar dates and times of day, and their parsing through `chrono`.

use vstd::prelude::*;
use chrono::Datelike;
use chrono::Timelike;

verus! {

/// `chrono::format::ParseError`, the error of chrono's parsers.
#[verifier::external_type_specification]
#[verifier::external_body]
pub struct ExChronoParseError(chrono::format::ParseError);

/// A time of day, as `chrono::NaiveTime` reports it: hour, minute, second
/// and the fraction of the second in nanoseconds.
#[derive(Clone, Copy, Debug, PartialEq, Eq, Structural)]
pub struct Time {
    pub hour: u32,
    pub minute: u32,
    pub second: u32,
    pub nanosecond: u32,
}

/// A calendar date, as `chrono::NaiveDate` reports it.
#[derive(Clone, Copy, Debug, PartialEq, Eq, Structural)]
pub struct Date {
    pub year: i32,
    pub month: u32,
    pub day: u32,
}

/// A date together with a time of day, as `chrono::NaiveDateTime` holds it.
#[derive(Clone, Copy, Debug, PartialEq, Eq, Structural)]
pub struct DateTime {
    pub date: Date,
    pub time: Time,
}

impl DateTime {
    /// The date part.
    pub fn date(&self) -> (res: Date)
        ensures
            res == self.date,
    {
        self.date
    }

    /// The time-of-day part.
    pub fn time(&self) -> (res: Time)
        ensures
            res == self.time,
    {
        self.time
    }
}

/// What `chrono::NaiveTime::parse_from_str(s, fmt)` yields, as
/// (hour, minute, second, nanosecond), or `None` where it fails.
pub uninterp spec fn chrono_naive_time(s: Seq<char>, fmt: Seq<char>) -> Option<(u32, u32, u32, u32)>;

/// What `chrono::NaiveDate::parse_from_str(s, fmt)` yields, as
/// (year, month, day), or `None` where it fails.
pub uninterp spec fn chrono_naive_date(s: Seq<char>, fmt: Seq<char>) -> Option<(i32, u32, u32)>;

/// Calls `chrono::NaiveTime::parse_from_str`. The contract claims only that
/// the outcome is a function of the text and the format (named
/// `chrono_naive_time`), and that a success carries that time's fields.
#[verifier::external_body]
fn naive_time_parse_from_str(s: &str, fmt: &str) -> (res: Result<Time, chrono::format::ParseError>)
    ensures
        res is Ok <==> chrono_naive_time(s@, fmt@) is Some,
        res matches Ok(t) ==> chrono_naive_time(s@, fmt@) == Some(
            (t.hour, t.minute, t.second, t.nanosecond),
        ),
{
    match chrono::NaiveTime::parse_from_str(s, fmt) {
        Ok(t) => Ok(Time { hour: t.hour(), minute: t.minute(), second: t.second(), nanosecond: t.nanosecond() }),
        Err(e) => Err(e),
    }
}

/// Calls `chrono::NaiveDate::parse_from_str`. The contract claims only that
/// the outcome is a function of the text and the format (named
/// `chrono_naive_date`), and that a success carries that date's fields.
#[verifier::external_body]
fn naive_date_parse_from_str(s: &str, fmt: &str) -> (res: Result<Date, chrono::format::ParseError>)
    ensures
        res is Ok <==> chrono_naive_date(s@, fmt@) is Some,
        res matches Ok(d) ==> chrono_naive_date(s@, fmt@) == Some((d.year, d.month, d.day)),
{
    match chrono::NaiveDate::parse_from_str(s, fmt) {
        Ok(d) => Ok(Date { year: d.year(), month: d.month(), day: d.day() }),
        Err(e) => Err(e),
    }
}

/// The time that a parse result names.
pub open spec fn time_of(p: (u32, u32, u32, u32)) -> Time {
    Time { hour: p.0, minute: p.1, second: p.2, nanosecond: p.3 }
}

/// The date that a parse result names.
pub open spec fn date_of(p: (i32, u32, u32)) -> Date {
    Date { year: p.0, month: p.1, day: p.2 }
}

/// A Darwin time: `HH:MM:SS` where that parses, else `HH:MM`.
pub open spec fn spec_parse_time(s: Seq<char>) -> Option<Time> {
    match chrono_naive_time(s, "%H:%M:%S"@) {
        Some(p) => Some(time_of(p)),
        None => match chrono_naive_time(s, "%H:%M"@) {
            Some(p) => Some(time_of(p)),
            None => None,
        },
    }
}

/// A Darwin date: `YYYY-MM-DD`.
pub open spec fn spec_parse_date(s: Seq<char>) -> Option<Date> {
    match chrono_naive_date(s, "%Y-%m-%d"@) {
        Some(p) => Some(date_of(p)),
        None => None,
    }
}

/// Parses a Darwin time of day, with seconds or without.
pub fn parse_time(s: &str) -> (res: Option<Time>)
    ensures
        res == spec_parse_time(s@),
{
    match naive_time_parse_from_str(s, "%H:%M:%S") {
        Ok(t) => Some(t),
        Err(_) => match naive_time_parse_from_str(s, "%H:%M") {
            Ok(t) => Some(t),
            Err(_) => None,
        },
    }
}

/// Parses a Darwin date (`YYYY-MM-DD`).
pub fn parse_date(s: &str) -> (res: Option<Date>)
    ensures
        res == spec_parse_date(s@),
{
    match naive_date_parse_from_str(s, "%Y-%m-%d") {
        Ok(d) => Some(d),
        Err(_) => None,
    }
}

} // verus!
