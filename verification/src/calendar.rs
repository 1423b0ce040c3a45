//! Dates and times of day, and how they are written.

use chrono::{NaiveDate, NaiveTime};
use vstd::prelude::*;

#[allow(unused_imports)]
use crate::config::opt_text;
#[allow(unused_imports)]
use crate::text::{decimal, digit};

verus! {

/// A day of the Gregorian calendar.
#[derive(Debug, Clone, Copy)]
pub struct Date {
    pub year: i32,
    pub month: u32,
    pub day: u32,
}

/// A time of day. In a leap second, which only comes after second 59, the nanoseconds go beyond
/// a second.
#[derive(Debug, Clone, Copy)]
pub struct Time {
    pub hour: u32,
    pub minute: u32,
    pub second: u32,
    pub nano: u32,
}

/// Whether `year` has a 29th of February.
pub open spec fn is_leap(year: int) -> bool {
    year % 4 == 0 && (year % 100 != 0 || year % 400 == 0)
}

/// The number of days of a month.
pub open spec fn month_days(year: int, month: int) -> int {
    if month == 2 {
        if is_leap(year) {
            29
        } else {
            28
        }
    } else if month == 4 || month == 6 || month == 9 || month == 11 {
        30
    } else {
        31
    }
}

/// Whether there is such a day, in the years that are told apart.
pub open spec fn is_date(date: Date) -> bool {
    &&& -262143 <= date.year <= 262142
    &&& 1 <= date.month <= 12
    &&& 1 <= date.day <= month_days(date.year as int, date.month as int)
}

/// Whether there is such a time of day.
pub open spec fn is_time(time: Time) -> bool {
    &&& time.hour < 24
    &&& time.minute < 60
    &&& time.second < 60
    &&& time.nano < 1_000_000_000 || time.second == 59 && time.nano < 2_000_000_000
}

/// The last `width` decimal digits of `n`.
pub open spec fn padded(n: nat, width: nat) -> Seq<char>
    decreases width,
{
    if width == 0 {
        Seq::empty()
    } else {
        padded(n / 10, (width - 1) as nat).push(digit((n % 10) as int))
    }
}

/// A year: four digits, and where that is not enough or the year is negative, a sign before at
/// least four digits.
pub open spec fn year_text(year: int) -> Seq<char> {
    let size = if year < 0 {
        (-year) as nat
    } else {
        year as nat
    };
    let digits = if size < 10_000 {
        padded(size, 4)
    } else {
        decimal(size)
    };
    if 0 <= year < 10_000 {
        digits
    } else if year < 0 {
        "-"@ + digits
    } else {
        "+"@ + digits
    }
}

/// A date: year, month and day.
pub open spec fn date_text(date: Date) -> Seq<char> {
    year_text(date.year as int) + "-"@ + padded(date.month as nat, 2) + "-"@ + padded(
        date.day as nat,
        2,
    )
}

/// The fraction of a second: nothing, or thousandths, millionths or billionths, whichever is the
/// first to write it.
pub open spec fn fraction_text(nano: nat) -> Seq<char> {
    if nano == 0 {
        Seq::empty()
    } else if nano % 1_000_000 == 0 {
        "."@ + padded(nano / 1_000_000, 3)
    } else if nano % 1_000 == 0 {
        "."@ + padded(nano / 1_000, 6)
    } else {
        "."@ + padded(nano, 9)
    }
}

/// A time of day: hour, minute, second and fraction. A leap second is second 60.
pub open spec fn time_text(time: Time) -> Seq<char> {
    let leap: nat = if time.nano >= 1_000_000_000 {
        1
    } else {
        0
    };
    padded(time.hour as nat, 2) + ":"@ + padded(time.minute as nat, 2) + ":"@ + padded(
        time.second as nat + leap,
        2,
    ) + fraction_text((time.nano % 1_000_000_000) as nat)
}

/// How a day is written, if there is such a day.
pub open spec fn written_date(date: Date) -> Option<Seq<char>> {
    if is_date(date) {
        Some(date_text(date))
    } else {
        None
    }
}

/// How a time of day is written, if there is such a time of day.
pub open spec fn written_time(time: Time) -> Option<Seq<char>> {
    if is_time(time) {
        Some(time_text(time))
    } else {
        None
    }
}

/// How a day and a time of day are written: with a space between them.
pub open spec fn written_date_time(date: Date, time: Time) -> Option<Seq<char>> {
    if is_date(date) && is_time(time) {
        Some(date_text(date) + " "@ + time_text(time))
    } else {
        None
    }
}

/// How a moment of UTC is written in the form of RFC 3339.
pub open spec fn written_instant(date: Date, time: Time) -> Option<Seq<char>> {
    if is_date(date) && is_time(time) {
        Some(date_text(date) + "T"@ + time_text(time) + "+00:00"@)
    } else {
        None
    }
}

/// Trusts `to_string` of `NaiveDate` of the `chrono` crate: a day that there is is written with
/// year, month and day.
#[verifier::external_body]
pub(crate) fn write_date(date: Date) -> (text: Option<String>)
    ensures
        opt_text(text) == written_date(date),
{
    NaiveDate::from_ymd_opt(date.year, date.month, date.day).map(|day| day.to_string())
}

/// Trusts `to_string` of `NaiveTime` of the `chrono` crate: a time of day that there is is written
/// with hour, minute, second and fraction.
#[verifier::external_body]
pub(crate) fn write_time(time: Time) -> (text: Option<String>)
    ensures
        opt_text(text) == written_time(time),
{
    NaiveTime::from_hms_nano_opt(time.hour, time.minute, time.second, time.nano).map(
        |time| time.to_string(),
    )
}

/// Trusts `to_string` of `NaiveDateTime` of the `chrono` crate: date and time of day are written
/// with a space between them.
#[verifier::external_body]
pub(crate) fn write_date_time(date: Date, time: Time) -> (text: Option<String>)
    ensures
        opt_text(text) == written_date_time(date, time),
{
    let day = NaiveDate::from_ymd_opt(date.year, date.month, date.day)?;
    let moment = day.and_hms_nano_opt(time.hour, time.minute, time.second, time.nano)?;
    Some(moment.to_string())
}

/// Trusts `to_rfc3339` of `DateTime<Utc>` of the `chrono` crate: date and time of day are written
/// with a `T` between them and the offset of UTC behind them.
#[verifier::external_body]
pub(crate) fn write_rfc3339(date: Date, time: Time) -> (text: Option<String>)
    ensures
        opt_text(text) == written_instant(date, time),
{
    let day = NaiveDate::from_ymd_opt(date.year, date.month, date.day)?;
    let moment = day.and_hms_nano_opt(time.hour, time.minute, time.second, time.nano)?;
    Some(moment.and_utc().to_rfc3339())
}

/// A moment of UTC in the form of RFC 3339, if there is such a moment.
pub fn instant_text(date: Date, time: Time) -> (text: Option<String>)
    ensures
        opt_text(text) == written_instant(date, time),
{
    write_rfc3339(date, time)
}

} // verus!
