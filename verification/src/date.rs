//! Calendar dates: the publication date of a post.

use chrono::{Datelike, NaiveDate};
use std::str::FromStr;
use vstd::prelude::*;

verus! {

/// Whether `year` has a 29th of February in the proleptic Gregorian calendar.
pub open spec fn is_leap_year(year: int) -> bool {
    year % 4 == 0 && (year % 100 != 0 || year % 400 == 0)
}

/// The number of days of a month; 0 where `month` is no month.
pub open spec fn days_in_month(year: int, month: int) -> int {
    if month == 2 {
        if is_leap_year(year) { 29 } else { 28 }
    } else if month == 4 || month == 6 || month == 9 || month == 11 {
        30
    } else if 1 <= month <= 12 {
        31
    } else {
        0
    }
}

/// A day of the calendar, without a time of day.
#[derive(Clone, Copy, Debug, PartialEq, Eq, Structural)]
pub struct Date {
    pub year: i32,
    pub month: u32,
    pub day: u32,
}

impl Date {
    /// The date exists in the calendar.
    pub open spec fn wf(self) -> bool {
        1 <= self.month <= 12 && 1 <= self.day <= days_in_month(self.year as int, self.month as int)
    }

    /// `self` is a strictly earlier day than `other`.
    pub open spec fn earlier(self, other: Date) -> bool {
        self.year < other.year || (self.year == other.year && (self.month < other.month || (
        self.month == other.month && self.day < other.day)))
    }

    /// Whether `self` is a strictly earlier day than `other`.
    pub fn is_before(&self, other: &Date) -> (r: bool)
        ensures
            r == self.earlier(*other),
    {
        if self.year != other.year {
            self.year < other.year
        } else if self.month != other.month {
            self.month < other.month
        } else {
            self.day < other.day
        }
    }

    /// The date written out, as it appears on a page: `date_string`.
    pub fn to_string(&self) -> (text: String)
        ensures
            text@ == date_string(*self),
    {
        match date_text(self) {
            Some(text) => text,
            None => String::new(),
        }
    }

    /// Reads a date from its text. A date that was read is a day of the
    /// calendar.
    pub fn parse(text: &str) -> (r: Option<Date>)
        ensures
            match r {
                Some(date) => date_of_text(text@) == Ok::<Date, Seq<char>>(date) && date.wf(),
                None => date_of_text(text@) is Err,
            },
    {
        match parse_date(text) {
            Ok(date) => Some(date),
            Err(_) => None,
        }
    }
}

/// The character of a digit.
pub open spec fn digit(n: int) -> char {
    if n == 0 {
        '0'
    } else if n == 1 {
        '1'
    } else if n == 2 {
        '2'
    } else if n == 3 {
        '3'
    } else if n == 4 {
        '4'
    } else if n == 5 {
        '5'
    } else if n == 6 {
        '6'
    } else if n == 7 {
        '7'
    } else if n == 8 {
        '8'
    } else {
        '9'
    }
}

/// A date of the years 0 to 9999 in digits: four for the year, two for
/// the month, two for the day, with hyphens between them.
pub open spec fn iso_text(date: Date) -> Seq<char> {
    let year = date.year as int;
    let month = date.month as int;
    let day = date.day as int;
    seq![
        digit(year / 1000),
        digit(year / 100 % 10),
        digit(year / 10 % 10),
        digit(year % 10),
        '-',
        digit(month / 10),
        digit(month % 10),
        '-',
        digit(day / 10),
        digit(day % 10),
    ]
}

/// The date that chrono reads from a text, or the text of its error.
pub uninterp spec fn date_of_text(text: Seq<char>) -> Result<Date, Seq<char>>;

/// The text that chrono writes for a date, if it has that date.
pub uninterp spec fn text_of_date(date: Date) -> Option<Seq<char>>;

/// A date written out. A day of the calendar in the years 0 to 9999 is
/// written as `iso_text` says, one of another year as chrono writes it. What
/// is no day of the calendar, or of a year that chrono does not have, is
/// written as the empty text.
pub open spec fn date_string(date: Date) -> Seq<char> {
    if !date.wf() {
        Seq::empty()
    } else if 0 <= date.year <= 9999 {
        iso_text(date)
    } else {
        match text_of_date(date) {
            Some(text) => text,
            None => Seq::empty(),
        }
    }
}

/// `NaiveDate::from_str` of chrono, which reads a year, a month and a day
/// separated by hyphens. The contract names the date read, or the text of
/// the error, and claims that a date read is a day of the calendar, as
/// every `NaiveDate` is.
#[verifier::external_body]
pub(crate) fn parse_date(text: &str) -> (r: Result<Date, String>)
    ensures
        match r {
            Ok(date) => date_of_text(text@) matches Ok(found) && found == date && date.wf(),
            Err(cause) => date_of_text(text@) matches Err(found) && found == cause@,
        },
{
    match NaiveDate::from_str(text) {
        Ok(d) => Ok(Date { year: d.year(), month: d.month(), day: d.day() }),
        Err(e) => Err(e.to_string()),
    }
}

/// `NaiveDate::from_ymd_opt` of chrono and `to_string` on the date it makes.
/// The contract names the text, and claims what chrono documents: there is
/// no date where the three numbers are no day of the calendar; there is one
/// for each day of the years 0 to 9999, written as `iso_text` says.
#[verifier::external_body]
pub(crate) fn date_text(date: &Date) -> (r: Option<String>)
    ensures
        match r {
            Some(text) => text_of_date(*date) == Some(text@) && date.wf() && (0 <= date.year
                && date.year <= 9999 ==> text@ == iso_text(*date)),
            None => text_of_date(*date) is None && !(date.wf() && 0 <= date.year && date.year
                <= 9999),
        },
{
    NaiveDate::from_ymd_opt(date.year, date.month, date.day).map(|d| d.to_string())
}

} // verus!
