//! Calendar dates of the proleptic Gregorian calendar, their order, and the
//! fallback to the epoch for a date that cannot be read.

use chrono::{Datelike, NaiveDate};
use vstd::prelude::*;

verus! {

/// A day named by its year, month and day of month, as mathematical integers.
pub struct Ymd {
    pub year: int,
    pub month: int,
    pub day: int,
}

/// Every fourth year, but of the hundreds only every fourth.
pub open spec fn is_leap_year(year: int) -> bool {
    year % 4 == 0 && (year % 100 != 0 || year % 400 == 0)
}

/// The number of days of a month of a year.
pub open spec fn days_in_month(year: int, month: int) -> int {
    if month == 2 {
        if is_leap_year(year) {
            29
        } else {
            28
        }
    } else if month == 4 || month == 6 || month == 9 || month == 11 {
        30
    } else {
        31
    }
}

/// Whether the three numbers name a day that exists.
pub open spec fn is_calendar_day(year: int, month: int, day: int) -> bool {
    1 <= month <= 12 && 1 <= day <= days_in_month(year, month)
}

/// The day that stands in for a date that could not be read: 1970-01-01.
pub open spec fn epoch_day() -> Ymd {
    Ymd { year: 1970, month: 1, day: 1 }
}

/// Strictly earlier in the calendar.
pub open spec fn earlier(a: Ymd, b: Ymd) -> bool {
    ||| a.year < b.year
    ||| a.year == b.year && a.month < b.month
    ||| a.year == b.year && a.month == b.month && a.day < b.day
}

/// A calendar date. Every value is a day that exists.
#[derive(Clone, Copy, Debug, PartialEq, Eq, PartialOrd, Ord, Hash, Structural)]
pub struct Date {
    year: i32,
    month: u32,
    day: u32,
}

impl View for Date {
    type V = Ymd;

    closed spec fn view(&self) -> Ymd {
        Ymd { year: self.year as int, month: self.month as int, day: self.day as int }
    }
}

fn leap_year(year: i32) -> (leap: bool)
    ensures
        leap == is_leap_year(year as int),
{
    // A multiple of 400 above every negative year: the remainders stay the same.
    let shifted: i64 = year as i64 + 2_147_484_000;
    shifted % 4 == 0 && (shifted % 100 != 0 || shifted % 400 == 0)
}

fn month_length(year: i32, month: u32) -> (days: u32)
    ensures
        days == days_in_month(year as int, month as int),
{
    if month == 2 {
        if leap_year(year) {
            29
        } else {
            28
        }
    } else if month == 4 || month == 6 || month == 9 || month == 11 {
        30
    } else {
        31
    }
}

impl Date {
    #[verifier::type_invariant]
    spec fn exists_in_calendar(self) -> bool {
        is_calendar_day(self.year as int, self.month as int, self.day as int)
    }

    /// The date with this year, month and day, if there is such a day.
    pub fn from_ymd_opt(year: i32, month: u32, day: u32) -> (date: Option<Date>)
        ensures
            date is Some <==> is_calendar_day(year as int, month as int, day as int),
            date matches Some(d) ==> d@ == (Ymd {
                year: year as int,
                month: month as int,
                day: day as int,
            }),
    {
        if 1 <= month && month <= 12 && 1 <= day && day <= month_length(year, month) {
            Some(Date { year, month, day })
        } else {
            None
        }
    }

    /// 1970-01-01.
    pub fn epoch() -> (date: Date)
        ensures
            date@ == epoch_day(),
    {
        Date { year: 1970, month: 1, day: 1 }
    }

    /// The year; years before the year 1 are zero or negative.
    pub fn year(&self) -> (year: i32)
        ensures
            year == self@.year,
    {
        self.year
    }

    /// The month, from 1 to 12.
    pub fn month(&self) -> (month: u32)
        ensures
            month == self@.month,
            1 <= month <= 12,
    {
        proof {
            use_type_invariant(self);
        }
        self.month
    }

    /// The day of the month, from 1.
    pub fn day(&self) -> (day: u32)
        ensures
            day == self@.day,
            1 <= day <= days_in_month(self@.year, self@.month),
    {
        proof {
            use_type_invariant(self);
        }
        self.day
    }

    /// Whether this date comes strictly before `other`.
    pub fn is_before(&self, other: &Date) -> (before: bool)
        ensures
            before == earlier(self@, other@),
    {
        if self.year != other.year {
            self.year < other.year
        } else if self.month != other.month {
            self.month < other.month
        } else {
            self.day < other.day
        }
    }

    /// Whether both are the same day.
    pub fn is_same_day(&self, other: &Date) -> (same: bool)
        ensures
            same == (self@ == other@),
    {
        self.year == other.year && self.month == other.month && self.day == other.day
    }
}

/// What chrono reads from a text under a `strftime` format: the year, month
/// and day of the `NaiveDate`, or nothing where chrono reports an error.
pub uninterp spec fn chrono_date(text: Seq<char>, format: Seq<char>) -> Option<(i32, u32, u32)>;

/// `NaiveDate::parse_from_str`, with the date taken apart by
/// `Datelike::year`, `month` and `day`. Any error comes back as `None`.
#[verifier::external_body]
fn parse_from_str(text: &str, format: &str) -> (parsed: Option<(i32, u32, u32)>)
    ensures
        parsed == chrono_date(text@, format@),
{
    match NaiveDate::parse_from_str(text, format) {
        Ok(date) => Some((date.year(), date.month(), date.day())),
        Err(_) => None,
    }
}

/// The format in which a post states its date: `YYYY-MM-DD`.
pub open spec fn date_format() -> Seq<char> {
    "%Y-%m-%d"@
}

/// The day that a reading stands for: the day read, if it is a day of the
/// calendar, and the epoch otherwise.
pub open spec fn day_or_epoch(parsed: Option<(i32, u32, u32)>) -> Ymd {
    match parsed {
        Some((year, month, day)) => if is_calendar_day(year as int, month as int, day as int) {
            Ymd { year: year as int, month: month as int, day: day as int }
        } else {
            epoch_day()
        },
        None => epoch_day(),
    }
}

/// The day that a post's date text stands for.
pub open spec fn day_of_text(text: Seq<char>) -> Ymd {
    day_or_epoch(chrono_date(text, date_format()))
}

/// Turns a reading of year, month and day into a date. A missing reading, or
/// one that names no day of the calendar, gives the epoch.
pub fn date_or_epoch(parsed: Option<(i32, u32, u32)>) -> (date: Date)
    ensures
        date@ == day_or_epoch(parsed),
{
    match parsed {
        Some((year, month, day)) => match Date::from_ymd_opt(year, month, day) {
            Some(date) => date,
            None => Date::epoch(),
        },
        None => Date::epoch(),
    }
}

/// Reads a date written as `YYYY-MM-DD`. A text that cannot be read as a date
/// gives the epoch, 1970-01-01, never an error.
pub fn parse_date(text: &str) -> (date: Date)
    ensures
        date@ == day_of_text(text@),
{
    date_or_epoch(parse_from_str(text, "%Y-%m-%d"))
}

/// Whatever was read, the date that results is a day of the calendar.
pub proof fn lemma_day_or_epoch_exists(parsed: Option<(i32, u32, u32)>)
    ensures
        is_calendar_day(
            day_or_epoch(parsed).year,
            day_or_epoch(parsed).month,
            day_or_epoch(parsed).day,
        ),
{
}

} // verus!
