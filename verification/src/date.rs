//! Calendar dates as they appear in note metadata.

use vstd::prelude::*;
use chrono::Datelike;

verus! {

/// The error that `chrono` reports for text that is not a date.
#[verifier::external_type_specification]
#[verifier::external_body]
pub struct ExParseError(chrono::ParseError);

/// A day of the proleptic Gregorian calendar.
///
/// The fields are ordered so that the derived ordering is chronological.
#[derive(Debug, Clone, Copy, PartialEq, Eq, Structural, PartialOrd, Ord, Hash)]
pub struct Date {
    pub year: i32,
    pub month: u32,
    pub day: u32,
}

impl Date {
    /// The month and the day are in the ranges of a calendar.
    pub open spec fn well_formed(self) -> bool {
        &&& 1 <= self.month <= 12
        &&& 1 <= self.day <= 31
    }

    /// This day comes after `other`.
    pub open spec fn after(self, other: Date) -> bool {
        ||| self.year > other.year
        ||| self.year == other.year && self.month > other.month
        ||| self.year == other.year && self.month == other.month && self.day > other.day
    }

    /// Whether this day comes after `other`.
    pub fn is_after(&self, other: &Date) -> (after: bool)
        ensures
            after == self.after(*other),
    {
        if self.year != other.year {
            self.year > other.year
        } else if self.month != other.month {
            self.month > other.month
        } else {
            self.day > other.day
        }
    }
}

/// The date that `chrono` reads from `text` under the format `format`, or
/// `None` when it rejects the text.
pub uninterp spec fn date_parsed(text: Seq<char>, format: Seq<char>) -> Option<Date>;

/// The date written in `text` as year, month and day joined by hyphens.
pub open spec fn date_of(text: Seq<char>) -> Option<Date> {
    date_parsed(text, "%Y-%m-%d"@)
}

/// `chrono::NaiveDate::parse_from_str`, with the date it returns taken apart
/// by `Datelike::year`, `month` and `day`. The outcome is a function of the
/// text and the format alone, named `date_parsed`; a date that comes out has
/// its month in 1..=12 and its day in 1..=31.
#[verifier::external_body]
fn parse_with_format(text: &str, format: &str) -> (parsed: Result<Date, chrono::ParseError>)
    ensures
        match parsed {
            Ok(date) => date_parsed(text@, format@) == Some(date) && date.well_formed(),
            Err(_) => date_parsed(text@, format@) is None,
        },
{
    let date = chrono::NaiveDate::parse_from_str(text, format)?;
    Ok(Date { year: date.year(), month: date.month(), day: date.day() })
}

/// Reads a date written as `YYYY-MM-DD`.
pub fn parse_date(text: &str) -> (parsed: Result<Date, chrono::ParseError>)
    ensures
        match parsed {
            Ok(date) => date_of(text@) == Some(date) && date.well_formed(),
            Err(_) => date_of(text@) is None,
        },
{
    parse_with_format(text, "%Y-%m-%d")
}

} // verus!
