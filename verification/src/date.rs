//! Proleptic Gregorian calendar arithmetic: leap years, month lengths and
//! weekdays.

use vstd::prelude::*;

verus! {

/// A calendar date.
#[derive(Clone, Copy, Debug, PartialEq, Eq, Structural)]
pub struct Date {
    /// Day of the month, 1 to 31.
    pub day: u32,
    /// Month of the year, 1 to 12.
    pub month: u32,
    /// Year, in the proleptic Gregorian calendar.
    pub year: i32,
}

impl Date {
    /// The day and the month lie in the ranges that a date can have.
    pub open spec fn in_range(&self) -> bool {
        1 <= self.day <= 31 && 1 <= self.month <= 12
    }

    /// The date of the given day, month and year, if the day is 1 to 31 and
    /// the month 1 to 12.
    pub fn new(day: u32, month: u32, year: i32) -> (date: Option<Date>)
        ensures
            date == if 1 <= day <= 31 && 1 <= month <= 12 {
                Some(Date { day, month, year })
            } else {
                None
            },
            date is Some ==> date->0.in_range(),
    {
        if 1 <= day && day <= 31 && 1 <= month && month <= 12 {
            Some(Date { day, month, year })
        } else {
            None
        }
    }
}

/// Why a calendar computation was refused.
#[derive(Clone, Copy, Debug, PartialEq, Eq, Structural)]
pub enum CalendarError {
    /// The month is not in 1 to 12.
    InvalidMonth,
}

/// A whole number of 400-year cycles that lifts every `i32` year above zero.
const YEAR_SHIFT: i64 = 2147484000;

/// A month number names a month of the year.
pub open spec fn valid_month(month: int) -> bool {
    1 <= month <= 12
}

/// Whether `year` is a leap year of the proleptic Gregorian calendar.
pub open spec fn is_leap_year_spec(year: int) -> bool {
    year % 4 == 0 && (year % 100 != 0 || year % 400 == 0)
}

/// The number of days of `month` in `year`.
pub open spec fn days_in_month_spec(month: int, year: int) -> int {
    if month == 2 {
        if is_leap_year_spec(year) {
            29
        } else {
            28
        }
    } else if month == 4 || month == 6 || month == 9 || month == 11 {
        30
    } else {
        31
    }
}

/// The number of days of `year` that lie before the first of `month`.
pub open spec fn days_before_month(month: int, year: int) -> int
    decreases month,
{
    if month <= 1 {
        0
    } else {
        days_before_month(month - 1, year) + days_in_month_spec(month - 1, year)
    }
}

/// The number of days between the first of January of year 1 and the first
/// of January of `year` (negative for earlier years).
pub open spec fn days_before_year(year: int) -> int {
    365 * (year - 1) + (year - 1) / 4 - (year - 1) / 100 + (year - 1) / 400
}

/// The number of a day, counted from the first of January of year 1 as day 1.
/// `day` may lie outside the month: the count goes on from the month's first.
pub open spec fn day_number(day: int, month: int, year: int) -> int {
    days_before_year(year) + days_before_month(month, year) + day
}

/// The weekday index of a day: 0 is Sunday, 6 is Saturday.
pub open spec fn day_of_week_spec(day: int, month: int, year: int) -> int {
    day_number(day, month, year) % 7
}

/// Whether `year` is a leap year.
pub fn is_leap_year(year: i32) -> (leap: bool)
    ensures
        leap == is_leap_year_spec(year as int),
{
    let y: i64 = year as i64 + YEAR_SHIFT;
    y % 4 == 0 && (y % 100 != 0 || y % 400 == 0)
}

/// The number of days of `month` in `year`; an error for a month outside 1
/// to 12.
pub fn days_in_month(month: u32, year: i32) -> (days: Result<u32, CalendarError>)
    ensures
        valid_month(month as int) ==> days == Ok::<u32, CalendarError>(
            days_in_month_spec(month as int, year as int) as u32,
        ),
        !valid_month(month as int) ==> days == Err::<u32, CalendarError>(
            CalendarError::InvalidMonth,
        ),
        days is Ok ==> 28 <= days->Ok_0 <= 31,
{
    if month < 1 || month > 12 {
        Err(CalendarError::InvalidMonth)
    } else if month == 2 {
        if is_leap_year(year) {
            Ok(29)
        } else {
            Ok(28)
        }
    } else if month == 4 || month == 6 || month == 9 || month == 11 {
        Ok(30)
    } else {
        Ok(31)
    }
}

/// The days of `year` before the first of `month`, for a month of the year.
fn month_start(month: u32, leap: bool) -> (before: i64)
    requires
        valid_month(month as int),
    ensures
        forall|year: int|
            is_leap_year_spec(year) == leap ==> before == #[trigger] days_before_month(
                month as int,
                year,
            ),
        0 <= before <= 335,
{
    let common: i64 = if month == 1 {
        0
    } else if month == 2 {
        31
    } else if month == 3 {
        59
    } else if month == 4 {
        90
    } else if month == 5 {
        120
    } else if month == 6 {
        151
    } else if month == 7 {
        181
    } else if month == 8 {
        212
    } else if month == 9 {
        243
    } else if month == 10 {
        273
    } else if month == 11 {
        304
    } else {
        334
    };
    let before: i64 = if leap && month > 2 {
        common + 1
    } else {
        common
    };
    proof {
        assert forall|year: int| is_leap_year_spec(year) == leap implies before
            == #[trigger] days_before_month(month as int, year) by {
            reveal_with_fuel(days_before_month, 13);
        }
    }
    before
}

/// The weekday index (0 is Sunday, 6 is Saturday) of the day that lies
/// `day - 1` days after the first of `month` in `year`; an error for a month
/// outside 1 to 12. Day 0 is the last day of the month before.
pub fn day_of_week(day: u32, month: u32, year: i32) -> (weekday: Result<u32, CalendarError>)
    ensures
        valid_month(month as int) ==> weekday == Ok::<u32, CalendarError>(
            day_of_week_spec(day as int, month as int, year as int) as u32,
        ),
        !valid_month(month as int) ==> weekday == Err::<u32, CalendarError>(
            CalendarError::InvalidMonth,
        ),
        weekday is Ok ==> weekday->Ok_0 <= 6,
{
    if month < 1 || month > 12 {
        return Err(CalendarError::InvalidMonth);
    }
    let y: i64 = year as i64 + YEAR_SHIFT - 1;
    let years: i64 = 365 * y + y / 4 - y / 100 + y / 400;
    let n: i64 = years + month_start(month, is_leap_year(year)) + day as i64;
    proof {
        lemma_year_shift(year as int);
    }
    Ok((n % 7) as u32)
}

/// Moving a year by the shift moves its first of January by a whole number
/// of weeks.
proof fn lemma_year_shift(year: int)
    ensures
        days_before_year(year + YEAR_SHIFT) == days_before_year(year) + 7 * 112050346410,
{
    let a = year - 1;
    assert((a + 2147484000) / 4 == a / 4 + 536871000);
    assert((a + 2147484000) / 100 == a / 100 + 21474840);
    assert((a + 2147484000) / 400 == a / 400 + 5368710);
}

/// A year has 366 days if it is a leap year and 365 otherwise: the first of
/// January of the next year lies that many days later.
pub proof fn lemma_year_length(year: int)
    ensures
        days_before_year(year + 1) - days_before_year(year) == if is_leap_year_spec(year) {
            366int
        } else {
            365int
        },
{
    let a = year - 1;
    assert((a + 1) / 4 == a / 4 + if year % 4 == 0 { 1int } else { 0int });
    assert((a + 1) / 100 == a / 100 + if year % 100 == 0 { 1int } else { 0int });
    assert((a + 1) / 400 == a / 400 + if year % 400 == 0 { 1int } else { 0int });
    assert(year % 400 == 0 ==> year % 100 == 0);
    assert(year % 100 == 0 ==> year % 4 == 0);
}

/// The twelve months of a year hold all its days.
pub proof fn lemma_months_fill_year(year: int)
    ensures
        days_before_month(13, year) == if is_leap_year_spec(year) {
            366int
        } else {
            365int
        },
{
    reveal_with_fuel(days_before_month, 14);
}

/// Weekdays follow each other: the next day has the next weekday index, and
/// the first of a month follows the last day of the month before.
pub proof fn lemma_weekday_advances(day: int, month: int, year: int)
    ensures
        day_of_week_spec(day + 1, month, year) == (day_of_week_spec(day, month, year) + 1) % 7,
        valid_month(month) && month < 12 ==> day_number(1, month + 1, year) == day_number(
            days_in_month_spec(month, year),
            month,
            year,
        ) + 1,
        day_number(1, 1, year + 1) == day_number(31, 12, year) + 1,
{
    reveal_with_fuel(days_before_month, 14);
    lemma_year_length(year);
    lemma_months_fill_year(year);
}

} // verus!
