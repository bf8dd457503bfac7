//! Dates and times of day as responses carry them.
//!
//! The texts are read by `chrono`. What it reads is kept as plain
//! calendar fields, without a time zone.

use chrono::{Datelike, Timelike};
use vstd::prelude::*;

use crate::decode::Decode;
use crate::json::Json;

verus! {

/// A calendar date, read from a text such as `2024-02-29`.
#[derive(Debug, Clone, Copy, PartialEq, Eq, Structural)]
pub struct Date {
    pub year: i32,
    pub month: u32,
    pub day: u32,
}

/// A time of day, read from a text such as `08:30:00`.
#[derive(Debug, Clone, Copy, PartialEq, Eq, Structural)]
pub struct Time {
    pub hour: u32,
    pub minute: u32,
    pub second: u32,
    pub nanosecond: u32,
}

/// A date and a time of day, read from a text such as
/// `2024-02-29T08:30:00`.
#[derive(Debug, Clone, Copy, PartialEq, Eq, Structural)]
pub struct DateTime {
    pub date: Date,
    pub time: Time,
}

/// The date that `chrono` reads from `text`, if it reads one.
pub uninterp spec fn date_of(text: Seq<char>) -> Option<Date>;

/// The time of day that `chrono` reads from `text`, if it reads one.
pub uninterp spec fn time_of(text: Seq<char>) -> Option<Time>;

/// The date and time that `chrono` reads from `text`, if it reads one.
pub uninterp spec fn date_time_of(text: Seq<char>) -> Option<DateTime>;

/// Calls `str::parse` for `chrono::NaiveDate`, and copies the year, month
/// and day of what it reads. The result depends on `text` alone.
#[verifier::external_body]
fn parse_date(text: &str) -> (date: Option<Date>)
    ensures
        date == date_of(text@),
{
    let parsed = text.parse::<chrono::NaiveDate>().ok()?;
    Some(Date { year: parsed.year(), month: parsed.month(), day: parsed.day() })
}

/// Calls `str::parse` for `chrono::NaiveTime`, and copies the hour, minute,
/// second and nanosecond of what it reads. The result depends on `text`
/// alone.
#[verifier::external_body]
fn parse_time(text: &str) -> (time: Option<Time>)
    ensures
        time == time_of(text@),
{
    let parsed = text.parse::<chrono::NaiveTime>().ok()?;
    Some(
        Time {
            hour: parsed.hour(),
            minute: parsed.minute(),
            second: parsed.second(),
            nanosecond: parsed.nanosecond(),
        },
    )
}

/// Calls `str::parse` for `chrono::NaiveDateTime`, and copies the calendar
/// fields of what it reads. The result depends on `text` alone.
#[verifier::external_body]
fn parse_date_time(text: &str) -> (date_time: Option<DateTime>)
    ensures
        date_time == date_time_of(text@),
{
    let parsed = text.parse::<chrono::NaiveDateTime>().ok()?;
    Some(
        DateTime {
            date: Date { year: parsed.year(), month: parsed.month(), day: parsed.day() },
            time: Time {
                hour: parsed.hour(),
                minute: parsed.minute(),
                second: parsed.second(),
                nanosecond: parsed.nanosecond(),
            },
        },
    )
}

impl Decode for Date {
    open spec fn accepts(value: Json) -> bool {
        value matches Json::Text(text) && date_of(text@) is Some
    }

    open spec fn renders(value: Json, decoded: Date) -> bool {
        value matches Json::Text(text) && date_of(text@) == Some(decoded)
    }

    fn decode(value: &Json) -> (decoded: Option<Date>) {
        match value {
            Json::Text(text) => parse_date(text.as_str()),
            _ => None,
        }
    }
}

impl Decode for Time {
    open spec fn accepts(value: Json) -> bool {
        value matches Json::Text(text) && time_of(text@) is Some
    }

    open spec fn renders(value: Json, decoded: Time) -> bool {
        value matches Json::Text(text) && time_of(text@) == Some(decoded)
    }

    fn decode(value: &Json) -> (decoded: Option<Time>) {
        match value {
            Json::Text(text) => parse_time(text.as_str()),
            _ => None,
        }
    }
}

impl Decode for DateTime {
    open spec fn accepts(value: Json) -> bool {
        value matches Json::Text(text) && date_time_of(text@) is Some
    }

    open spec fn renders(value: Json, decoded: DateTime) -> bool {
        value matches Json::Text(text) && date_time_of(text@) == Some(decoded)
    }

    fn decode(value: &Json) -> (decoded: Option<DateTime>) {
        match value {
            Json::Text(text) => parse_date_time(text.as_str()),
            _ => None,
        }
    }
}

} // verus!
