//! Calendar dates as plain values.
//!
//! Vendor validity dates run through the product model, so the library keeps
//! its own date type: a year, month and day with the usual Gregorian
//! validity rules. Years are limited to four digits, which covers every date
//! the vendor can issue and keeps the rendered form fixed-width.

use vstd::prelude::*;

verus! {

/// A Gregorian calendar date. `valid()` is the type's well-formedness
/// condition; `Date::new` is the checked constructor that establishes it.
#[derive(Clone, Copy, Debug, PartialEq, Eq, Structural)]
pub struct Date {
    pub year: u16,
    pub month: u8,
    pub day: u8,
}

pub open spec fn spec_is_leap_year(year: int) -> bool {
    year % 4 == 0 && (year % 100 != 0 || year % 400 == 0)
}

pub open spec fn spec_days_in_month(year: int, month: int) -> int {
    if month == 2 {
        if spec_is_leap_year(year) {
            29
        } else {
            28
        }
    } else if month == 4 || month == 6 || month == 9 || month == 11 {
        30
    } else {
        31
    }
}

impl Date {
    /// The well-formedness condition: a real calendar date with a
    /// four-digit year.
    pub open spec fn valid(self) -> bool {
        1 <= self.year <= 9999 && 1 <= self.month <= 12 && 1 <= self.day
            <= spec_days_in_month(self.year as int, self.month as int)
    }

    /// Checked constructor: yields a date exactly when the components form
    /// a valid calendar date.
    pub fn new(year: u16, month: u8, day: u8) -> (r: Option<Date>)
        ensures
            r is Some <==> (Date { year, month, day }).valid(),
            r is Some ==> r.unwrap() == (Date { year, month, day }),
    {
        if 1 <= year && year <= 9999 && 1 <= month && month <= 12 && 1 <= day && day
            <= days_in_month(year, month) {
            Some(Date { year, month, day })
        } else {
            None
        }
    }
}

pub fn is_leap_year(year: u16) -> (r: bool)
    ensures
        r == spec_is_leap_year(year as int),
{
    year % 4 == 0 && (year % 100 != 0 || year % 400 == 0)
}

pub fn days_in_month(year: u16, month: u8) -> (r: u8)
    ensures
        r as int == spec_days_in_month(year as int, month as int),
{
    if month == 2 {
        if is_leap_year(year) {
            29
        } else {
            28
        }
    } else if month == 4 || month == 6 || month == 9 || month == 11 {
        30
    } else {
        31
    }
}

} // verus!
