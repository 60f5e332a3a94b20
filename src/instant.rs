use chrono::{Datelike, Timelike};
use vstd::prelude::*;

verus! {

/// A UTC instant to the second, as calendar fields of the proleptic
/// Gregorian calendar.
#[derive(Clone, Copy, Debug, PartialEq, Eq, Structural)]
pub struct UtcDateTime {
    pub year: i32,
    pub month: u32,
    pub day: u32,
    pub hour: u32,
    pub minute: u32,
    pub second: u32,
}

/// Gregorian leap year: divisible by 4, except centuries not divisible by 400.
pub open spec fn is_leap_year(year: int) -> bool {
    (year % 4 == 0 && year % 100 != 0) || year % 400 == 0
}

/// Number of days in the given month (1 to 12) of the given year.
pub open spec fn days_in_month(year: int, month: int) -> int {
    if month == 2 {
        if is_leap_year(year) {
            29
        } else {
            28
        }
    } else if month == 4 || month == 6 || month == 9 || month == 11 {
        30
    } else {
        31
    }
}

/// The last second of the given month: its last day at 23:59:59.
pub open spec fn last_instant_of_month(year: int, month: int) -> UtcDateTime {
    UtcDateTime {
        year: year as i32,
        month: month as u32,
        day: days_in_month(year, month) as u32,
        hour: 23,
        minute: 59,
        second: 59,
    }
}

impl UtcDateTime {
    /// Each field lies in its calendar range, the day within its month.
    pub open spec fn is_valid(self) -> bool {
        &&& 1 <= self.month <= 12
        &&& 1 <= self.day <= days_in_month(self.year as int, self.month as int)
        &&& self.hour < 24
        &&& self.minute < 60
        &&& self.second < 60
    }

    /// Strictly later in time: the fields compared from the year down to the second.
    pub open spec fn later_than(self, other: UtcDateTime) -> bool {
        if self.year != other.year {
            self.year > other.year
        } else if self.month != other.month {
            self.month > other.month
        } else if self.day != other.day {
            self.day > other.day
        } else if self.hour != other.hour {
            self.hour > other.hour
        } else if self.minute != other.minute {
            self.minute > other.minute
        } else {
            self.second > other.second
        }
    }

    /// The last second of `month` in `year`.
    pub fn end_of_month(year: i32, month: u32) -> (r: UtcDateTime)
        requires
            1 <= month <= 12,
        ensures
            r == last_instant_of_month(year as int, month as int),
            r.is_valid(),
    {
        UtcDateTime { year, month, day: last_day_of_month(year, month), hour: 23, minute: 59, second: 59 }
    }

    /// Whether `self` is strictly later than `other`.
    pub fn is_later_than(&self, other: &UtcDateTime) -> (r: bool)
        ensures
            r == self.later_than(*other),
    {
        if self.year != other.year {
            self.year > other.year
        } else if self.month != other.month {
            self.month > other.month
        } else if self.day != other.day {
            self.day > other.day
        } else if self.hour != other.hour {
            self.hour > other.hour
        } else if self.minute != other.minute {
            self.minute > other.minute
        } else {
            self.second > other.second
        }
    }
}

/// The number of the last day of `month` in `year`.
pub fn last_day_of_month(year: i32, month: u32) -> (r: u32)
    requires
        1 <= month <= 12,
    ensures
        r == days_in_month(year as int, month as int),
        28 <= r <= 31,
{
    if month == 2 {
        let leap = (year % 4 == 0 && year % 100 != 0) || year % 400 == 0;
        if leap {
            29
        } else {
            28
        }
    } else if month == 4 || month == 6 || month == 9 || month == 11 {
        30
    } else {
        31
    }
}

/// Relies on chrono's `Utc::now` for the current time, read back through the
/// `Datelike` and `Timelike` getters, whose documentation gives the ranges
/// stated here. `Utc::now` panics when the system clock reads before 1970.
#[verifier::external_body]
pub(crate) fn utc_now() -> (r: UtcDateTime)
    ensures
        1 <= r.month <= 12,
        1 <= r.day <= 31,
        r.hour < 24,
        r.minute < 60,
        r.second < 60,
{
    let now = chrono::Utc::now();
    UtcDateTime {
        year: now.year(),
        month: now.month(),
        day: now.day(),
        hour: now.hour(),
        minute: now.minute(),
        second: now.second(),
    }
}

} // verus!
