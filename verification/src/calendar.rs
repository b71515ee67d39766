//! Calendar dates and times of day, through chrono.

use crate::domain::CalendarDate;
use chrono::Datelike;
use crate::text::{opt_view, padded_decimal};
use vstd::prelude::*;

verus! {

/// Whether `year` is a leap year of the Gregorian calendar.
pub open spec fn leap_year(year: int) -> bool {
    (year % 4 == 0 && year % 100 != 0) || year % 400 == 0
}

/// The number of days of a month (1 to 12) of a year.
pub open spec fn days_in_month(year: int, month: int) -> int {
    if month == 2 {
        if leap_year(year) { 29 } else { 28 }
    } else if month == 4 || month == 6 || month == 9 || month == 11 {
        30
    } else {
        31
    }
}

/// Whether chrono has the date `year-month-day`: a day of the proleptic
/// Gregorian calendar in a year from -262143 to 262142.
pub open spec fn date_exists(year: i32, month: u32, day: u32) -> bool {
    &&& -262_143 <= year <= 262_142
    &&& 1 <= month <= 12
    &&& 1 <= day <= days_in_month(year as int, month as int)
}

/// The days of the months of `year` before `month`.
pub open spec fn days_before_month(year: int, month: int) -> int
    decreases month,
{
    if month <= 1 {
        0
    } else {
        days_before_month(year, month - 1) + days_in_month(year, month - 1)
    }
}

/// The text chrono gives the date `year-month-day`, or `None` where it has
/// no such date.
pub open spec fn date_text_of(year: i32, month: u32, day: u32) -> Option<Seq<char>> {
    if date_exists(year, month, day) {
        Some(date_format(year, month, day))
    } else {
        None
    }
}

/// The text chrono writes for a year: four digits for years 0 to 9999, else
/// the sign and at least four digits.
pub open spec fn year_text(year: int) -> Seq<char> {
    if 0 <= year <= 9999 {
        padded_decimal(year as nat, 4)
    } else if year > 9999 {
        "+"@ + padded_decimal(year as nat, 4)
    } else {
        "-"@ + padded_decimal((-year) as nat, 4)
    }
}

/// The `Display` text of the date `year-month-day`: the year, then month
/// and day in two digits each, joined by `-`.
pub open spec fn date_format(year: i32, month: u32, day: u32) -> Seq<char> {
    year_text(year as int) + "-"@ + padded_decimal(month as nat, 2) + "-"@ + padded_decimal(day as nat, 2)
}

/// chrono `NaiveDate::from_ymd_opt` followed by its `Display`:
/// [`date_text_of`].
#[verifier::external_body]
pub fn date_text(d: CalendarDate) -> (r: Option<String>)
    ensures
        opt_view(r) == date_text_of(d.year, d.month, d.day),
{
    match chrono::NaiveDate::from_ymd_opt(d.year, d.month, d.day) {
        Some(x) => Some(x.to_string()),
        None => None,
    }
}

/// The day number chrono gives the date `year-month-day`: days counted
/// from the first day of year 1, which is day 1, in the proleptic Gregorian
/// calendar; `None` where it has no such date.
pub open spec fn ce_day_of(year: i32, month: u32, day: u32) -> Option<i32> {
    if date_exists(year, month, day) {
        let y = year - 1;
        Some((365 * y + y / 4 - y / 100 + y / 400 + days_before_month(year as int, month as int) + day) as i32)
    } else {
        None
    }
}

/// chrono `NaiveDate::from_ymd_opt` followed by `Datelike::num_days_from_ce`:
/// [`ce_day_of`].
#[verifier::external_body]
pub fn ce_day(d: CalendarDate) -> (r: Option<i32>)
    ensures
        r == ce_day_of(d.year, d.month, d.day),
{
    match chrono::NaiveDate::from_ymd_opt(d.year, d.month, d.day) {
        Some(x) => Some(x.num_days_from_ce()),
        None => None,
    }
}

/// What chrono's `NaiveDate::parse_from_str` gives for a text and a format:
/// the date, or the text of its error.
pub uninterp spec fn date_parse_of(text: Seq<char>, fmt: Seq<char>) -> Result<CalendarDate, Seq<char>>;

/// The view of a date parse result.
pub open spec fn date_result_view(r: Result<CalendarDate, String>) -> Result<CalendarDate, Seq<char>> {
    match r {
        Ok(d) => Ok(d),
        Err(e) => Err(e@),
    }
}

/// chrono `NaiveDate::parse_from_str`: the date as year, month and day, or
/// the `Display` text of chrono's parse error. Named by [`date_parse_of`].
#[verifier::external_body]
pub fn parse_date(text: &str, fmt: &str) -> (r: Result<CalendarDate, String>)
    ensures
        date_result_view(r) == date_parse_of(text@, fmt@),
{
    match chrono::NaiveDate::parse_from_str(text, fmt) {
        Ok(d) => Ok(CalendarDate { year: d.year(), month: d.month(), day: d.day() }),
        Err(e) => Err(e.to_string()),
    }
}

/// What chrono gives when it reads a time of day from `text` in format
/// `in_fmt` and writes it in format `out_fmt`, or `None` where it cannot
/// read it.
pub uninterp spec fn time_reformat_of(text: Seq<char>, in_fmt: Seq<char>, out_fmt: Seq<char>) -> Option<Seq<char>>;

/// chrono `NaiveTime::parse_from_str` followed by `format` and `to_string`.
/// `None` where the text does not parse; the text otherwise is named by
/// [`time_reformat_of`]. The output format is `%H:%M:%S`, which chrono
/// always renders for a time of day (`to_string` panics on a format it
/// cannot render, such as a date field).
#[verifier::external_body]
pub fn reformat_time(text: &str, in_fmt: &str, out_fmt: &str) -> (r: Option<String>)
    requires
        out_fmt@ == "%H:%M:%S"@,
    ensures
        opt_view(r) == time_reformat_of(text@, in_fmt@, out_fmt@),
{
    match chrono::NaiveTime::parse_from_str(text, in_fmt) {
        Ok(t) => Some(t.format(out_fmt).to_string()),
        Err(_) => None,
    }
}

/// What chrono reads as a time of day from `text` in format `fmt`, in
/// seconds after midnight, or `None` where it cannot read it.
pub uninterp spec fn time_parse_of(text: Seq<char>, fmt: Seq<char>) -> Option<u32>;

/// chrono `NaiveTime::parse_from_str` followed by
/// `Timelike::num_seconds_from_midnight`: less than a day of seconds. `None`
/// where the text does not parse; the seconds otherwise are named by
/// [`time_parse_of`].
#[verifier::external_body]
pub fn parse_time(text: &str, fmt: &str) -> (r: Option<u32>)
    ensures
        r == time_parse_of(text@, fmt@),
        r matches Some(s) ==> s < 86_400,
{
    match chrono::NaiveTime::parse_from_str(text, fmt) {
        Ok(t) => Some(chrono::Timelike::num_seconds_from_midnight(&t)),
        Err(_) => None,
    }
}

/// What chrono's `NaiveDateTime::parse_from_str` gives for `text` in format
/// `fmt`: the date (year, month, day) and the seconds after midnight, or the
/// text of its error.
pub uninterp spec fn datetime_parse_of(text: Seq<char>, fmt: Seq<char>) -> Result<(i32, u32, u32, u32), Seq<char>>;

/// chrono `NaiveDateTime::parse_from_str`, read as date and seconds after
/// midnight (`Timelike::num_seconds_from_midnight`), or as the `Display`
/// text of its error; named by [`datetime_parse_of`]. A date-time it gives
/// is one it has, so its seconds are below a day.
#[verifier::external_body]
pub fn parse_datetime(text: &str, fmt: &str) -> (r: Result<(CalendarDate, u32), String>)
    ensures
        match r {
            Ok((d, s)) => datetime_parse_of(text@, fmt@) == Ok::<(i32, u32, u32, u32), Seq<char>>((d.year, d.month, d.day, s)) && s < 86_400,
            Err(e) => datetime_parse_of(text@, fmt@) == Err::<(i32, u32, u32, u32), Seq<char>>(e@),
        },
{
    match chrono::NaiveDateTime::parse_from_str(text, fmt) {
        Ok(t) => Ok((
            CalendarDate { year: t.year(), month: t.month(), day: t.day() },
            chrono::Timelike::num_seconds_from_midnight(&t),
        )),
        Err(e) => Err(e.to_string()),
    }
}

/// The instant, in seconds since the Unix epoch, that chrono-tz gives the
/// local time `secs` seconds after midnight of `year-month-day` in the
/// `US/Pacific` zone, or `None` where that date does not exist or the local
/// time is skipped or repeated by a clock change.
pub uninterp spec fn pacific_utc_of(year: i32, month: u32, day: u32, secs: u32) -> Option<i64>;

/// chrono `NaiveDate::from_ymd_opt`, `NaiveTime::from_num_seconds_from_midnight_opt`
/// and `and_time`, then chrono-tz
/// `US::Pacific.from_local_datetime(..).single()` and the UTC `timestamp`;
/// named by [`pacific_utc_of`].
#[verifier::external_body]
pub fn pacific_utc(d: CalendarDate, secs: u32) -> (r: Option<i64>)
    ensures
        r == pacific_utc_of(d.year, d.month, d.day, secs),
{
    let date = chrono::NaiveDate::from_ymd_opt(d.year, d.month, d.day)?;
    let time = chrono::NaiveTime::from_num_seconds_from_midnight_opt(secs, 0)?;
    let at = chrono::TimeZone::from_local_datetime(&chrono_tz::US::Pacific, &date.and_time(time)).single()?;
    Some(at.with_timezone(&chrono::Utc).timestamp())
}

/// The text chrono gives the time `secs` seconds after midnight, `HH:MM:SS`,
/// or `None` when `secs` is a day or more.
pub open spec fn time_text_of(secs: u32) -> Option<Seq<char>> {
    if secs < 86_400 {
        Some(padded_decimal((secs / 3600) as nat, 2) + ":"@ + padded_decimal(((secs % 3600) / 60) as nat, 2) + ":"@
            + padded_decimal((secs % 60) as nat, 2))
    } else {
        None
    }
}

/// chrono `NaiveTime::from_num_seconds_from_midnight_opt` (no fraction)
/// followed by its `Display`: [`time_text_of`].
#[verifier::external_body]
pub fn time_text(secs: u32) -> (r: Option<String>)
    ensures
        opt_view(r) == time_text_of(secs),
        r.is_some() == (secs < 86_400),
{
    match chrono::NaiveTime::from_num_seconds_from_midnight_opt(secs, 0) {
        Some(t) => Some(t.to_string()),
        None => None,
    }
}

/// chrono `Utc::now()` as milliseconds since the Unix epoch
/// (`DateTime::timestamp_millis`). Nothing is claimed of the value: it is
/// the clock's.
#[verifier::external_body]
pub fn now_ms() -> (r: i64) {
    chrono::Utc::now().timestamp_millis()
}

/// chrono `Utc::now().date_naive()`: today's date in UTC, a day of the
/// calendar. Which day is the clock's.
#[verifier::external_body]
pub fn today_utc() -> (r: CalendarDate)
    ensures
        1 <= r.month <= 12,
        1 <= r.day <= 31,
{
    let d = chrono::Utc::now().date_naive();
    CalendarDate { year: d.year(), month: d.month(), day: d.day() }
}

/// chrono `Utc::now().year()`: the current year in UTC. Which year is the
/// clock's.
#[verifier::external_body]
pub fn utc_year() -> (r: i32) {
    chrono::Utc::now().year()
}

/// chrono `Local::now().year()`: the current year in the machine's time
/// zone. Which year is the clock's and the zone's.
#[verifier::external_body]
pub fn local_year() -> (r: i32) {
    chrono::Local::now().year()
}

/// chrono `Local::now().to_rfc3339()`: the current time in the machine's
/// time zone as RFC 3339 text. Nothing is claimed of the text.
#[verifier::external_body]
pub fn local_now_rfc3339() -> (r: String) {
    chrono::Local::now().to_rfc3339()
}

} // verus!
