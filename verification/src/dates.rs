//! Days and timestamps. A date is the number of its day in the proleptic
//! Gregorian calendar, 1 January of the year 1 being day 1; a timestamp is
//! a number of seconds since the start of 1970 in UTC.

use vstd::prelude::*;
use chrono::{Datelike, NaiveDate, TimeZone, Utc};

verus! {

/// The day number of 1 January 1970.
pub const EPOCH_DAY: i32 = 719_163;

/// Seconds in a day.
pub const DAY_SECONDS: i64 = 86_400;

/// Largest magnitude of a day number that is handed to the calendar.
pub const DAY_LIMIT: i32 = 90_000_000;

/// Largest magnitude of a timestamp that is handed to the calendar.
pub const TIMESTAMP_LIMIT: i64 = 7_000_000_000_000;

/// The day on which a timestamp falls.
pub open spec fn day_of(secs: int) -> int {
    secs / (DAY_SECONDS as int) + EPOCH_DAY
}

/// The timestamp of a time of day on a day.
pub open spec fn timestamp_of(day: int, hour: int, minute: int, second: int) -> int {
    (day - EPOCH_DAY) * DAY_SECONDS + hour * 3600 + minute * 60 + second
}

/// The date that a text in the form year-month-day denotes, read by
/// `chrono::NaiveDate::parse_from_str` with the format `%Y-%m-%d`; `None`
/// where the text is not such a date.
pub uninterp spec fn parsed_date(text: Seq<char>) -> Option<i32>;

/// The text of a date in the form year-month-day, written by
/// `chrono::NaiveDate::format` with the format `%Y-%m-%d`.
pub uninterp spec fn date_text(day: i32) -> Seq<char>;

/// Calls `chrono::TimeZone::timestamp_opt` on `Utc` and takes the date of
/// the result. The contract claims that the date is the day on which the
/// timestamp falls: the quotient of the seconds by the seconds of a day,
/// rounded down, counted from the day of 1 January 1970.
#[verifier::external_body]
pub(crate) fn utc_day(secs: i64) -> (day: i32)
    requires
        -TIMESTAMP_LIMIT <= secs <= TIMESTAMP_LIMIT,
    ensures
        day == day_of(secs as int),
{
    Utc.timestamp_opt(secs, 0).unwrap().date_naive().num_days_from_ce()
}

/// Calls `chrono::NaiveDate::and_hms_opt` and takes the timestamp of the
/// result in UTC. The contract claims that the timestamp counts the
/// seconds of the whole days since 1 January 1970 and of the time of day.
#[verifier::external_body]
pub(crate) fn utc_timestamp(day: i32, hour: u32, minute: u32, second: u32) -> (secs: i64)
    requires
        -DAY_LIMIT <= day <= DAY_LIMIT,
        hour < 24,
        minute < 60,
        second < 60,
    ensures
        secs == timestamp_of(day as int, hour as int, minute as int, second as int),
{
    let date = NaiveDate::from_num_days_from_ce_opt(day).unwrap();
    Utc.from_utc_datetime(&date.and_hms_opt(hour, minute, second).unwrap()).timestamp()
}

/// Calls `chrono::NaiveDate::parse_from_str` with the format `%Y-%m-%d`.
/// The contract names the result; it claims nothing of which texts are
/// dates.
#[verifier::external_body]
pub(crate) fn parse_iso_date(text: &str) -> (day: Option<i32>)
    ensures
        day == parsed_date(text@),
{
    match NaiveDate::parse_from_str(text, "%Y-%m-%d") {
        Ok(date) => Some(date.num_days_from_ce()),
        Err(_) => None,
    }
}

/// Calls `chrono::NaiveDate::format` with the format `%Y-%m-%d`. The
/// contract names the result.
#[verifier::external_body]
pub(crate) fn format_iso_date(day: i32) -> (text: String)
    requires
        -DAY_LIMIT <= day <= DAY_LIMIT,
    ensures
        text@ == date_text(day),
{
    NaiveDate::from_num_days_from_ce_opt(day).unwrap().format("%Y-%m-%d").to_string()
}

/// The day on which a timestamp falls, or `None` for a timestamp beyond
/// `TIMESTAMP_LIMIT`.
pub fn day_of_timestamp(secs: i64) -> (day: Option<i32>)
    ensures
        day is Some <==> -TIMESTAMP_LIMIT <= secs <= TIMESTAMP_LIMIT,
        day matches Some(d) ==> d == day_of(secs as int),
{
    if -TIMESTAMP_LIMIT <= secs && secs <= TIMESTAMP_LIMIT {
        Some(utc_day(secs))
    } else {
        None
    }
}

/// The timestamp of the first second of a day, or `None` for a day beyond
/// `DAY_LIMIT`.
pub fn day_start(day: i32) -> (secs: Option<i64>)
    ensures
        secs is Some <==> -DAY_LIMIT <= day <= DAY_LIMIT,
        secs matches Some(t) ==> t == timestamp_of(day as int, 0, 0, 0),
{
    if -DAY_LIMIT <= day && day <= DAY_LIMIT {
        Some(utc_timestamp(day, 0, 0, 0))
    } else {
        None
    }
}

/// The timestamp of the last second of a day, or `None` for a day beyond
/// `DAY_LIMIT`.
pub fn day_end(day: i32) -> (secs: Option<i64>)
    ensures
        secs is Some <==> -DAY_LIMIT <= day <= DAY_LIMIT,
        secs matches Some(t) ==> t == timestamp_of(day as int, 23, 59, 59),
{
    if -DAY_LIMIT <= day && day <= DAY_LIMIT {
        Some(utc_timestamp(day, 23, 59, 59))
    } else {
        None
    }
}

/// Reads a date in the form year-month-day.
pub fn parse_date(text: &str) -> (day: Option<i32>)
    ensures
        day == parsed_date(text@),
{
    parse_iso_date(text)
}

/// Writes a date in the form year-month-day, or `None` for a day beyond
/// `DAY_LIMIT`.
pub fn format_date(day: i32) -> (text: Option<String>)
    ensures
        text is Some <==> -DAY_LIMIT <= day <= DAY_LIMIT,
        text matches Some(t) ==> t@ == date_text(day),
{
    if -DAY_LIMIT <= day && day <= DAY_LIMIT {
        Some(format_iso_date(day))
    } else {
        None
    }
}

/// The last text among `fields` that is a date, as a date; `None` where
/// none is.
pub open spec fn last_date_of(fields: Seq<Seq<char>>, k: int) -> Option<i32>
    decreases k,
{
    if k <= 0 {
        None
    } else {
        match parsed_date(fields[k - 1]) {
            Some(d) => Some(d),
            None => last_date_of(fields, k - 1),
        }
    }
}

/// The date read from a later record where there is one, else the date
/// kept from the records before.
pub fn later_date(kept: Option<i32>, read: Option<i32>) -> (day: Option<i32>)
    ensures
        day == match read {
            Some(d) => Some(d),
            None => kept,
        },
{
    match read {
        Some(d) => Some(d),
        None => kept,
    }
}

/// The last date among the first fields of the records of a table.
pub fn last_valid_date(fields: &Vec<String>) -> (day: Option<i32>)
    ensures
        day == last_date_of(crate::text::texts(fields@), fields.len() as int),
{
    let mut last: Option<i32> = None;
    let mut i: usize = 0;
    while i < fields.len()
        invariant
            i <= fields.len(),
            last == last_date_of(crate::text::texts(fields@), i as int),
        decreases fields.len() - i,
    {
        last = later_date(last, parse_iso_date(fields[i].as_str()));
        i = i + 1;
    }
    last
}

} // verus!
