//! The grid with today marked.

use vstd::prelude::*;
use crate::date::{valid_month, CalendarError, Date};
use crate::grid::{build, grid_spec, CalendarGrid};

verus! {

/// The day to mark in the grid of `month` in `year` when today is `today`:
/// today's day if today lies in that month, none otherwise.
pub open spec fn marked_day(today: Date, month: int, year: int) -> Option<u32> {
    if today.month == month && today.year == year {
        Some(today.day)
    } else {
        None
    }
}

/// The day to mark in the grid of `month` in `year` when today is `today`.
pub fn day_to_mark(today: Date, month: u32, year: i32) -> (day: Option<u32>)
    ensures
        day == marked_day(today, month as int, year as int),
{
    if today.month == month && today.year == year {
        Some(today.day)
    } else {
        None
    }
}

/// Builds the grid of `month` in `year` and marks `today` in it, if it lies
/// in that month. A month outside 1 to 12 is refused.
pub fn build_for_today(today: Date, month: u32, year: i32) -> (grid: Result<
    CalendarGrid,
    CalendarError,
>)
    ensures
        valid_month(month as int) ==> grid is Ok && grid->Ok_0@ == grid_spec(
            month as int,
            year as int,
            marked_day(today, month as int, year as int),
        ),
        !valid_month(month as int) ==> grid is Err && grid->Err_0 == CalendarError::InvalidMonth,
        grid is Ok ==> grid->Ok_0.wf(),
{
    build(month, year, day_to_mark(today, month, year))
}

} // verus!
