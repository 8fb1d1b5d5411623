//! Days of the proleptic Gregorian calendar.

use vstd::prelude::*;

verus! {

/// The first year that a date can be in.
pub const MIN_YEAR: i32 = -262_143i32;

/// The last year that a date can be in.
pub const MAX_YEAR: i32 = 262_142i32;

/// A day named by year, month and day of the month.
#[derive(Clone, Copy, Debug, PartialEq, Eq)]
pub struct CalendarDate {
    pub year: i32,
    pub month: u32,
    pub day: u32,
}

/// Every fourth year is a leap year, except the centuries that 400 does not divide.
pub open spec fn leap_year(year: int) -> bool {
    year % 4 == 0 && (year % 100 != 0 || year % 400 == 0)
}

/// The number of days of a month; 0 for a month that does not exist.
pub open spec fn days_in_month(year: int, month: int) -> int {
    if month == 2 {
        if leap_year(year) {
            29
        } else {
            28
        }
    } else if month == 4 || month == 6 || month == 9 || month == 11 {
        30
    } else if 1 <= month <= 12 {
        31
    } else {
        0
    }
}

impl CalendarDate {
    /// The date exists in the calendar, in a year from `MIN_YEAR` to `MAX_YEAR`.
    pub open spec fn exists_in_calendar(self) -> bool {
        &&& MIN_YEAR <= self.year <= MAX_YEAR
        &&& 1 <= self.day <= days_in_month(self.year as int, self.month as int)
    }

    /// `self` is an earlier day than `other`.
    pub open spec fn before(self, other: CalendarDate) -> bool {
        ||| self.year < other.year
        ||| self.year == other.year && self.month < other.month
        ||| self.year == other.year && self.month == other.month && self.day < other.day
    }

    /// The date with this year, month and day, if the calendar has it.
    pub fn from_ymd(year: i32, month: u32, day: u32) -> (date: Option<CalendarDate>)
        ensures
            date is Some <==> (CalendarDate { year, month, day }).exists_in_calendar(),
            date matches Some(d) ==> d == (CalendarDate { year, month, day }),
    {
        let candidate = CalendarDate { year, month, day };
        if candidate.is_in_calendar() {
            Some(candidate)
        } else {
            None
        }
    }

    /// Whether the calendar has this date.
    pub fn is_in_calendar(&self) -> (exists: bool)
        ensures
            exists == self.exists_in_calendar(),
    {
        let leap = self.year % 4 == 0 && (self.year % 100 != 0 || self.year % 400 == 0);
        let days: u32 = if self.month == 2 {
            if leap {
                29
            } else {
                28
            }
        } else if self.month == 4 || self.month == 6 || self.month == 9 || self.month == 11 {
            30
        } else if 1 <= self.month && self.month <= 12 {
            31
        } else {
            0
        };
        MIN_YEAR <= self.year && self.year <= MAX_YEAR && 1 <= self.day && self.day <= days
    }

    /// Whether `self` is an earlier day than `other`.
    pub fn is_before(&self, other: &CalendarDate) -> (earlier: bool)
        ensures
            earlier == self.before(*other),
    {
        self.year < other.year || (self.year == other.year && (self.month < other.month || (
        self.month == other.month && self.day < other.day)))
    }
}

/// The order of days is strict: no day is before itself, and of two different days
/// exactly one is before the other.
pub proof fn before_is_a_strict_total_order(a: CalendarDate, b: CalendarDate, c: CalendarDate)
    ensures
        !a.before(a),
        a.before(b) && b.before(c) ==> a.before(c),
        a == b || a.before(b) || b.before(a),
        !(a.before(b) && b.before(a)),
{
}

} // verus!
