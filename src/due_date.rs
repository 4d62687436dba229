//! The annual review's due date, held as a calendar date.
use vstd::prelude::*;

use crate::error::ValidationError;

verus! {

/// chrono's description of a date that does not exist.
pub const DATE_OUT_OF_RANGE_MESSAGE: &'static str = "input is out of range";

pub open spec fn is_leap_year(year: int) -> bool {
    (year % 4 == 0 && year % 100 != 0) || year % 400 == 0
}

pub open spec fn days_in_month(year: int, month: int) -> int {
    if month == 2 {
        if is_leap_year(year) {
            29
        } else {
            28
        }
    } else if month == 4 || month == 6 || month == 9 || month == 11 {
        30
    } else {
        31
    }
}

/// A day that exists in the proleptic Gregorian calendar.
pub open spec fn is_calendar_date(year: int, month: int, day: int) -> bool {
    1 <= month <= 12 && 1 <= day <= days_in_month(year, month)
}

/// What chrono makes of a text read as `DD/MM/YYYY`: the year, month and day, or
/// the description of why it is not such a date.
pub uninterp spec fn day_month_year_parse(s: Seq<char>) -> Result<(i32, u32, u32), Seq<char>>;

/// Relies on chrono's `NaiveDate::parse_from_str` with the format `%d/%m/%Y`, and
/// on `Datelike::{year, month, day}` of the date it gives: the outcome depends on
/// the text alone, a `NaiveDate` is always a real calendar date, and a failure
/// carries `ParseError`'s description.
#[verifier::external_body]
fn parse_day_month_year(s: &str) -> (r: Result<(i32, u32, u32), String>)
    ensures
        match r {
            Ok(d) => day_month_year_parse(s@) == Ok::<(i32, u32, u32), Seq<char>>(d)
                && is_calendar_date(d.0 as int, d.1 as int, d.2 as int),
            Err(e) => day_month_year_parse(s@) == Err::<(i32, u32, u32), Seq<char>>(e@),
        },
{
    match chrono::NaiveDate::parse_from_str(s, "%d/%m/%Y") {
        Ok(d) => Ok(
            (chrono::Datelike::year(&d), chrono::Datelike::month(&d), chrono::Datelike::day(&d)),
        ),
        Err(e) => Err(e.to_string()),
    }
}

fn is_calendar_date_exec(year: i32, month: u32, day: u32) -> (r: bool)
    ensures
        r == is_calendar_date(year as int, month as int, day as int),
{
    let leap = (year % 4 == 0 && year % 100 != 0) || year % 400 == 0;
    let days: u32 = if month == 2 {
        if leap {
            29
        } else {
            28
        }
    } else if month == 4 || month == 6 || month == 9 || month == 11 {
        30
    } else {
        31
    };
    1 <= month && month <= 12 && 1 <= day && day <= days
}

/// A review due date that reads as a real calendar date. Whether it lies in the
/// past, within a year of the previous review, or inside the right tax year
/// needs records that this library does not hold, and is left to the caller.
#[derive(Debug, PartialEq, Eq)]
pub struct ValidatedAnnualReviewDueDate {
    year: i32,
    month: u32,
    day: u32,
}

impl View for ValidatedAnnualReviewDueDate {
    /// The year, month and day.
    type V = (int, int, int);

    closed spec fn view(&self) -> (int, int, int) {
        (self.year as int, self.month as int, self.day as int)
    }
}

impl ValidatedAnnualReviewDueDate {
    #[verifier::type_invariant]
    closed spec fn inv(&self) -> bool {
        is_calendar_date(self.year as int, self.month as int, self.day as int)
    }

    /// The due date from the outcome of reading its text: a read date that is a
    /// real calendar date is accepted; anything else is an invalid date.
    pub fn from_parsed(parsed: Result<(i32, u32, u32), String>) -> (r: Result<
        Self,
        ValidationError,
    >)
        ensures
            match parsed {
                Ok(d) => if is_calendar_date(d.0 as int, d.1 as int, d.2 as int) {
                    r is Ok && r->Ok_0@ == (d.0 as int, d.1 as int, d.2 as int)
                } else {
                    r is Err && r->Err_0@ == (
                        crate::error::ErrorKind::InvalidDate,
                        DATE_OUT_OF_RANGE_MESSAGE@,
                    )
                },
                Err(m) => r is Err && r->Err_0@ == (crate::error::ErrorKind::InvalidDate, m@),
            },
    {
        match parsed {
            Ok(d) => {
                if is_calendar_date_exec(d.0, d.1, d.2) {
                    Ok(ValidatedAnnualReviewDueDate { year: d.0, month: d.1, day: d.2 })
                } else {
                    Err(ValidationError::InvalidDate(String::from_str(DATE_OUT_OF_RANGE_MESSAGE)))
                }
            },
            Err(m) => Err(ValidationError::InvalidDate(m)),
        }
    }

    /// Reads the due date as `DD/MM/YYYY`. The date of the previous review is
    /// taken for the calendar checks that are left to the caller, and not read.
    pub fn validate(unvalidated_date_string: String, last_annual_review_date_string: String) -> (r:
        Result<Self, ValidationError>)
        ensures
            match day_month_year_parse(unvalidated_date_string@) {
                Ok(d) => r is Ok && r->Ok_0@ == (d.0 as int, d.1 as int, d.2 as int),
                Err(m) => r is Err && r->Err_0@ == (crate::error::ErrorKind::InvalidDate, m),
            },
    {
        let parsed = parse_day_month_year(unvalidated_date_string.as_str());
        Self::from_parsed(parsed)
    }

    pub fn year(&self) -> (r: i32)
        ensures
            r as int == self@.0,
    {
        self.year
    }

    pub fn month(&self) -> (r: u32)
        ensures
            r as int == self@.1,
    {
        self.month
    }

    pub fn day(&self) -> (r: u32)
        ensures
            r as int == self@.2,
    {
        self.day
    }
}

} // verus!
