//! Calendar dates as the real-time clock reports them, and day counts between
//! them.

use vstd::prelude::*;

verus! {

/// Day of the week, as the real-time clock stores it.
#[derive(Clone, Copy, Debug, PartialEq, Eq, Structural)]
pub enum DayOfWeek {
    Sunday,
    Monday,
    Tuesday,
    Wednesday,
    Thursday,
    Friday,
    Saturday,
}

/// A wall-clock reading: calendar date and time of day.
///
/// The fields are not required to name an existing day; day counts treat the
/// day of month as a plain offset into the month.
#[derive(Clone, Copy, Debug, PartialEq, Eq, Structural)]
pub struct DateTime {
    pub year: u16,
    pub month: u8,
    pub day: u8,
    pub day_of_week: DayOfWeek,
    pub hour: u8,
    pub minute: u8,
    pub second: u8,
}

/// Gregorian leap-year rule.
pub open spec fn is_leap_year(year: int) -> bool {
    year % 4 == 0 && (year % 100 != 0 || year % 400 == 0)
}

/// Length of a month in days; months outside 1..=12 have no days.
pub open spec fn month_length(month: int, leap: bool) -> int {
    if month == 2 {
        if leap {
            29
        } else {
            28
        }
    } else if month == 4 || month == 6 || month == 9 || month == 11 {
        30
    } else if 1 <= month <= 12 {
        31
    } else {
        0
    }
}

/// Days of the year that lie before the first day of `month`.
pub open spec fn days_before_month(month: int, leap: bool) -> int
    decreases month,
{
    if month <= 1 {
        0
    } else {
        days_before_month(month - 1, leap) + month_length(month - 1, leap)
    }
}

/// Leap days in the years 1 up to, but not including, `year`.
pub open spec fn leap_days_before(year: int) -> int {
    if year >= 1 {
        (year - 1) / 4 - (year - 1) / 100 + (year - 1) / 400
    } else {
        0
    }
}

/// Ordinal of a date counted from the start of year 1, so that 0001-01-01 is
/// day 1.
pub open spec fn day_number(date: DateTime) -> int {
    (date.year - 1) * 365 + leap_days_before(date.year as int) + days_before_month(
        date.month as int,
        is_leap_year(date.year as int),
    ) + date.day
}

/// Whole days separating two dates, regardless of their order.
pub open spec fn day_distance(date: DateTime, other: DateTime) -> int {
    if day_number(date) >= day_number(other) {
        day_number(date) - day_number(other)
    } else {
        day_number(other) - day_number(date)
    }
}

/// No month starts later than the last day of its year.
pub proof fn lemma_days_before_month_bounds(month: int, leap: bool)
    ensures
        0 <= days_before_month(month, leap) <= 366,
{
    if month >= 13 {
        lemma_days_before_month_saturates(month, leap);
    } else if month > 1 {
        reveal_with_fuel(days_before_month, 14);
    }
}

/// From month 13 on, the whole year lies before the month.
pub proof fn lemma_days_before_month_saturates(month: int, leap: bool)
    requires
        month >= 13,
    ensures
        days_before_month(month, leap) == (if leap {
            366int
        } else {
            365int
        }),
    decreases month,
{
    if month == 13 {
        reveal_with_fuel(days_before_month, 14);
    } else {
        lemma_days_before_month_saturates(month - 1, leap);
    }
}

/// The day count of every representable date fits comfortably in an `i32`.
pub proof fn lemma_day_number_bounds(date: DateTime)
    ensures
        -365 <= day_number(date) <= 23_936_787,
{
    lemma_days_before_month_bounds(date.month as int, is_leap_year(date.year as int));
}

/// The day count moves on by one from each day to the next: within a month,
/// from the last day of a month to the first of the next, and, from year 1
/// on, from the last day of a year to the first of the next.
pub proof fn lemma_day_number_counts_days(date: DateTime)
    requires
        1 <= date.month <= 12,
        date.year < 65535,
        date.day < 255,
    ensures
        day_number(DateTime { day: (date.day + 1) as u8, ..date }) == day_number(date) + 1,
        date.month < 12 && date.day == month_length(
            date.month as int,
            is_leap_year(date.year as int),
        ) ==> day_number(DateTime { month: (date.month + 1) as u8, day: 1, ..date })
            == day_number(date) + 1,
        date.year >= 1 && date.month == 12 && date.day == 31 ==> day_number(
            DateTime { year: (date.year + 1) as u16, month: 1, day: 1, ..date },
        ) == day_number(date) + 1,
{
    reveal_with_fuel(days_before_month, 14);
    if date.year >= 1 {
        let year = date.year as int;
        assert(year / 4 - (year - 1) / 4 == (if year % 4 == 0 {
            1int
        } else {
            0int
        }));
        assert(year / 100 - (year - 1) / 100 == (if year % 100 == 0 {
            1int
        } else {
            0int
        }));
        assert(year / 400 - (year - 1) / 400 == (if year % 400 == 0 {
            1int
        } else {
            0int
        }));
    }
}

fn leap_year(year: u16) -> (leap: bool)
    ensures
        leap == is_leap_year(year as int),
{
    year % 4 == 0 && (year % 100 != 0 || year % 400 == 0)
}

fn length_of_month(month: u8, leap: bool) -> (days: i32)
    ensures
        days == month_length(month as int, leap),
{
    if month == 2 {
        if leap {
            29
        } else {
            28
        }
    } else if month == 4 || month == 6 || month == 9 || month == 11 {
        30
    } else if 1 <= month && month <= 12 {
        31
    } else {
        0
    }
}

/// Counts the days from the start of year 1 up to and including `datetime`.
pub fn days_since_epoch(datetime: &DateTime) -> (days: i32)
    ensures
        days == day_number(*datetime),
{
    let leap = leap_year(datetime.year);
    let year: i32 = datetime.year as i32;
    let mut days: i32 = (year - 1) * 365;
    if year >= 1 {
        days = days + ((year - 1) / 4 - (year - 1) / 100 + (year - 1) / 400);
    }
    let mut month: u8 = 1;
    while month < datetime.month
        invariant
            1 <= month,
            month <= datetime.month || (datetime.month == 0 && month == 1),
            leap == is_leap_year(datetime.year as int),
            days == (datetime.year - 1) * 365 + leap_days_before(datetime.year as int)
                + days_before_month(month as int, leap),
        decreases datetime.month - month,
    {
        proof {
            lemma_days_before_month_bounds(month as int, leap);
            lemma_days_before_month_bounds(month as int + 1, leap);
        }
        days = days + length_of_month(month, leap);
        month = month + 1;
    }
    proof {
        lemma_days_before_month_bounds(month as int, leap);
    }
    days + datetime.day as i32
}

/// Whole days between two dates, in either order.
pub fn days_between(date: &DateTime, other: &DateTime) -> (days: i32)
    ensures
        days == day_distance(*date, *other),
        0 <= days <= 23_937_152,
{
    proof {
        lemma_day_number_bounds(*date);
        lemma_day_number_bounds(*other);
    }
    let first: i32 = days_since_epoch(date);
    let second: i32 = days_since_epoch(other);
    if first >= second {
        first - second
    } else {
        second - first
    }
}

} // verus!
