//! The calendar grid of one month: a row of weekday headers followed by the
//! month's weeks, Sunday first, seven cells each.

use vstd::prelude::*;
use crate::date::{
    day_of_week, day_of_week_spec, days_in_month, days_in_month_spec, valid_month, CalendarError,
};
use crate::label::{
    blank_label, blank_label_spec, day_label, day_label_spec, decimal_value, header_label,
    header_label_spec, lemma_day_label_len, lemma_day_label_not_blank, lemma_day_label_value,
};

verus! {

/// Cells in a week.
pub const DAYS_PER_WEEK: usize = 7;

/// One cell of the grid.
#[derive(Clone, Debug, PartialEq, Eq)]
pub struct CalendarCell {
    /// The text shown: a weekday letter, a day number or a blank.
    pub label: String,
    /// Whether the cell shows the day that is marked as today.
    pub is_today: bool,
}

/// What a cell holds, as a mathematical value.
pub ghost struct CellSpec {
    pub label: Seq<char>,
    pub is_today: bool,
}

impl View for CalendarCell {
    type V = CellSpec;

    open spec fn view(&self) -> CellSpec {
        CellSpec { label: self.label@, is_today: self.is_today }
    }
}

/// The grid: its first row holds the weekday headers, the others the month's
/// weeks.
#[derive(Clone, Debug, PartialEq, Eq)]
pub struct CalendarGrid {
    pub weeks: Vec<Vec<CalendarCell>>,
}

/// The cells of one row, as mathematical values.
pub open spec fn week_view(week: Seq<CalendarCell>) -> Seq<CellSpec> {
    Seq::new(week.len(), |c: int| week[c]@)
}

impl View for CalendarGrid {
    type V = Seq<Seq<CellSpec>>;

    open spec fn view(&self) -> Seq<Seq<CellSpec>> {
        Seq::new(self.weeks@.len(), |r: int| week_view(self.weeks@[r]@))
    }
}

impl CalendarGrid {
    /// What holds of every grid that `build` returns: the header row comes
    /// first, at least one week follows, and every row has seven cells.
    pub open spec fn wf(&self) -> bool {
        &&& self@.len() >= 2
        &&& self@[0] == header_week()
        &&& forall|r: int| 0 <= r < self@.len() ==> (#[trigger] self@[r]).len() == 7
    }
}

/// A filler cell.
pub open spec fn blank_cell() -> CellSpec {
    CellSpec { label: blank_label_spec(), is_today: false }
}

/// The header cell of a weekday's column.
pub open spec fn header_cell(weekday: int) -> CellSpec {
    CellSpec { label: header_label_spec(weekday), is_today: false }
}

/// The cell of a day of the month; it is marked exactly if `today` names
/// that day.
pub open spec fn day_cell(day: int, today: Option<u32>) -> CellSpec {
    CellSpec { label: day_label_spec(day as nat), is_today: today == Some(day as u32) }
}

/// The cell in a slot of the month's weeks. Slots are counted from 0, row by
/// row; the first of the month stands in slot `offset`, the days follow one
/// by one, and every other slot is a filler.
pub open spec fn data_cell(slot: int, offset: int, days: int, today: Option<u32>) -> CellSpec {
    if offset <= slot < offset + days {
        day_cell(slot - offset + 1, today)
    } else {
        blank_cell()
    }
}

/// The row of weekday headers.
pub open spec fn header_week() -> Seq<CellSpec> {
    Seq::new(7, |c: int| header_cell(c))
}

/// The week with index `week` (from 0) among the month's weeks.
pub open spec fn data_week(week: int, offset: int, days: int, today: Option<u32>) -> Seq<
    CellSpec,
> {
    Seq::new(7, |c: int| data_cell(7 * week + c, offset, days, today))
}

/// The number of weeks that hold a day of the month: a week without one is
/// not part of the grid.
pub open spec fn data_week_count(offset: int, days: int) -> int {
    (offset + days + 6) / 7
}

/// The grid of a month of `days` days whose first falls on the weekday with
/// index `offset`.
pub open spec fn month_grid(offset: int, days: int, today: Option<u32>) -> Seq<Seq<CellSpec>> {
    Seq::new(
        (1 + data_week_count(offset, days)) as nat,
        |r: int|
            if r == 0 {
                header_week()
            } else {
                data_week(r - 1, offset, days, today)
            },
    )
}

/// The grid of `month` in `year`, with the day `today` marked if the month
/// has such a day.
pub open spec fn grid_spec(month: int, year: int, today: Option<u32>) -> Seq<Seq<CellSpec>> {
    month_grid(day_of_week_spec(1, month, year), days_in_month_spec(month, year), today)
}

fn blank() -> (cell: CalendarCell)
    ensures
        cell@ == blank_cell(),
{
    CalendarCell { label: blank_label(), is_today: false }
}

fn header_row() -> (week: Vec<CalendarCell>)
    ensures
        week_view(week@) == header_week(),
{
    let mut week: Vec<CalendarCell> = Vec::new();
    let mut col: u32 = 0;
    while col < 7
        invariant
            col <= 7,
            week@.len() == col,
            forall|c: int| 0 <= c < col ==> (#[trigger] week@[c])@ == header_cell(c),
        decreases 7 - col,
    {
        week.push(CalendarCell { label: header_label(col), is_today: false });
        col += 1;
    }
    assert(week_view(week@) =~= header_week());
    week
}

/// Lays the days `1..=days` out in weeks, the first of them in column
/// `offset`, below the header row.
fn fill_weeks(offset: u32, days: u32, today: Option<u32>) -> (weeks: Vec<Vec<CalendarCell>>)
    requires
        offset <= 6,
        1 <= days <= 31,
    ensures
        weeks@.len() == 1 + data_week_count(offset as int, days as int),
        week_view(weeks@[0]@) == header_week(),
        forall|r: int|
            1 <= r < weeks@.len() ==> week_view((#[trigger] weeks@[r])@) == data_week(
                r - 1,
                offset as int,
                days as int,
                today,
            ),
{
    let mut weeks: Vec<Vec<CalendarCell>> = Vec::new();
    weeks.push(header_row());
    let mut week: Vec<CalendarCell> = Vec::new();
    let mut col: u32 = 0;
    while col < offset
        invariant
            col <= offset <= 6,
            week@.len() == col,
            forall|c: int|
                0 <= c < col ==> (#[trigger] week@[c])@ == data_cell(
                    c,
                    offset as int,
                    days as int,
                    today,
                ),
        decreases offset - col,
    {
        week.push(blank());
        col += 1;
    }
    let mut day: u32 = 1;
    while day <= days
        invariant
            offset <= 6,
            1 <= day <= days + 1,
            days <= 31,
            weeks@.len() == 1 + (offset + day - 1) / 7,
            week@.len() == (offset + day - 1) % 7,
            week_view(weeks@[0]@) == header_week(),
            forall|r: int|
                1 <= r < weeks@.len() ==> week_view((#[trigger] weeks@[r])@) == data_week(
                    r - 1,
                    offset as int,
                    days as int,
                    today,
                ),
            forall|c: int|
                0 <= c < week@.len() ==> (#[trigger] week@[c])@ == data_cell(
                    7 * (weeks@.len() - 1) + c,
                    offset as int,
                    days as int,
                    today,
                ),
        decreases days + 1 - day,
    {
        let marked = match today {
            Some(t) => t == day,
            None => false,
        };
        week.push(CalendarCell { label: day_label(day), is_today: marked });
        if week.len() == DAYS_PER_WEEK {
            assert(week_view(week@) =~= data_week(
                weeks@.len() - 1,
                offset as int,
                days as int,
                today,
            ));
            weeks.push(week);
            week = Vec::new();
        }
        day += 1;
    }
    if week.len() > 0 {
        while week.len() < DAYS_PER_WEEK
            invariant
                offset <= 6,
                days <= 31,
                weeks@.len() == 1 + (offset + days) / 7,
                (offset + days) % 7 <= week@.len() <= 7,
                forall|c: int|
                    0 <= c < week@.len() ==> (#[trigger] week@[c])@ == data_cell(
                        7 * (weeks@.len() - 1) + c,
                        offset as int,
                        days as int,
                        today,
                    ),
            decreases 7 - week@.len(),
        {
            week.push(blank());
        }
        assert(week_view(week@) =~= data_week(
            weeks@.len() - 1,
            offset as int,
            days as int,
            today,
        ));
        weeks.push(week);
    }
    weeks
}

/// Builds the grid of `month` in `year`. `today_day` is the day of the month
/// to mark, if any; a day that the month does not have marks no cell. A month
/// outside 1 to 12 is refused.
pub fn build(month: u32, year: i32, today_day: Option<u32>) -> (grid: Result<
    CalendarGrid,
    CalendarError,
>)
    ensures
        valid_month(month as int) ==> grid is Ok && grid->Ok_0@ == grid_spec(
            month as int,
            year as int,
            today_day,
        ),
        !valid_month(month as int) ==> grid is Err && grid->Err_0 == CalendarError::InvalidMonth,
        grid is Ok ==> grid->Ok_0.wf(),
{
    let days = match days_in_month(month, year) {
        Ok(days) => days,
        Err(e) => {
            return Err(e);
        },
    };
    let offset = match day_of_week(1, month, year) {
        Ok(offset) => offset,
        Err(e) => {
            return Err(e);
        },
    };
    let grid = CalendarGrid { weeks: fill_weeks(offset, days, today_day) };
    assert(grid@ =~= grid_spec(month as int, year as int, today_day));
    Ok(grid)
}

/// The number of cells in some rows.
pub open spec fn cell_count(weeks: Seq<Seq<CellSpec>>) -> nat
    decreases weeks.len(),
{
    if weeks.len() == 0 {
        0
    } else {
        cell_count(weeks.drop_last()) + weeks.last().len()
    }
}

/// The number of cells of a row whose label is not blank.
pub open spec fn non_blank_in_week(week: Seq<CellSpec>) -> nat
    decreases week.len(),
{
    if week.len() == 0 {
        0
    } else {
        non_blank_in_week(week.drop_last()) + if week.last().label != blank_label_spec() {
            1nat
        } else {
            0nat
        }
    }
}

/// The number of cells of some rows whose label is not blank.
pub open spec fn non_blank_cells(weeks: Seq<Seq<CellSpec>>) -> nat
    decreases weeks.len(),
{
    if weeks.len() == 0 {
        0
    } else {
        non_blank_cells(weeks.drop_last()) + non_blank_in_week(weeks.last())
    }
}

/// The rows below the header.
pub open spec fn data_weeks(grid: Seq<Seq<CellSpec>>) -> Seq<Seq<CellSpec>> {
    grid.subrange(1, grid.len() as int)
}

/// The row of the grid in which the day `day` stands.
pub open spec fn row_of_day(offset: int, day: int) -> int {
    1 + (offset + day - 1) / 7
}

/// The column of the grid in which the day `day` stands.
pub open spec fn column_of_day(offset: int, day: int) -> int {
    (offset + day - 1) % 7
}

/// How many of the slots from `lo` up to `hi` hold a day of the month.
spec fn days_in_slots(lo: int, hi: int, offset: int, days: int) -> int {
    let first = if lo < offset {
        offset
    } else {
        lo
    };
    let end = if hi < offset + days {
        hi
    } else {
        offset + days
    };
    if first < end {
        end - first
    } else {
        0
    }
}

proof fn lemma_cell_count(weeks: Seq<Seq<CellSpec>>)
    requires
        forall|r: int| 0 <= r < weeks.len() ==> (#[trigger] weeks[r]).len() == 7,
    ensures
        cell_count(weeks) == 7 * weeks.len(),
    decreases weeks.len(),
{
    if weeks.len() > 0 {
        lemma_cell_count(weeks.drop_last());
    }
}

proof fn lemma_non_blank_in_week(week: int, upto: int, offset: int, days: int, today: Option<u32>)
    requires
        0 <= upto <= 7,
        0 <= days,
    ensures
        non_blank_in_week(data_week(week, offset, days, today).take(upto)) == days_in_slots(
            7 * week,
            7 * week + upto,
            offset,
            days,
        ),
    decreases upto,
{
    let cells = data_week(week, offset, days, today).take(upto);
    if upto > 0 {
        lemma_non_blank_in_week(week, upto - 1, offset, days, today);
        assert(cells.drop_last() =~= data_week(week, offset, days, today).take(upto - 1));
        let slot = 7 * week + upto - 1;
        assert(cells.last() == data_cell(slot, offset, days, today));
        if offset <= slot < offset + days {
            lemma_day_label_not_blank((slot - offset + 1) as nat);
        }
    }
}

proof fn lemma_non_blank_cells(upto: int, offset: int, days: int, today: Option<u32>)
    requires
        0 <= upto <= data_week_count(offset, days),
        0 <= days,
    ensures
        non_blank_cells(data_weeks(month_grid(offset, days, today)).take(upto)) == days_in_slots(
            0,
            7 * upto,
            offset,
            days,
        ),
    decreases upto,
{
    let weeks = data_weeks(month_grid(offset, days, today)).take(upto);
    if upto > 0 {
        lemma_non_blank_cells(upto - 1, offset, days, today);
        assert(weeks.drop_last() =~= data_weeks(month_grid(offset, days, today)).take(upto - 1));
        let week = data_week(upto - 1, offset, days, today);
        assert(weeks.last() == week);
        lemma_non_blank_in_week(upto - 1, 7, offset, days, today);
        assert(week.take(7) =~= week);
    }
}

/// Every row of a month's grid has seven cells, so the rows below the header
/// hold seven cells for each of them.
pub proof fn lemma_weeks_are_full(month: int, year: int, today: Option<u32>)
    requires
        valid_month(month),
    ensures
        forall|r: int|
            0 <= r < grid_spec(month, year, today).len() ==> (#[trigger] grid_spec(
                month,
                year,
                today,
            )[r]).len() == 7,
        cell_count(data_weeks(grid_spec(month, year, today))) == 7 * data_weeks(
            grid_spec(month, year, today),
        ).len(),
{
    lemma_cell_count(data_weeks(grid_spec(month, year, today)));
}

/// Below the header, the cells that are not blank are as many as the month
/// has days.
pub proof fn lemma_one_cell_per_day(month: int, year: int, today: Option<u32>)
    requires
        valid_month(month),
    ensures
        non_blank_cells(data_weeks(grid_spec(month, year, today))) == days_in_month_spec(
            month,
            year,
        ),
{
    let offset = day_of_week_spec(1, month, year);
    let days = days_in_month_spec(month, year);
    let weeks = data_weeks(month_grid(offset, days, today));
    lemma_non_blank_cells(data_week_count(offset, days), offset, days, today);
    assert(weeks.take(data_week_count(offset, days)) =~= weeks);
}

/// A cell is marked exactly if the month has the day `today` and the cell is
/// the one of that day. So at most one cell is marked, one is exactly if
/// `today` names a day of the month, and it bears that day's label.
pub proof fn lemma_today_marked_once(month: int, year: int, today: Option<u32>)
    requires
        valid_month(month),
    ensures
        ({
            let grid = grid_spec(month, year, today);
            let offset = day_of_week_spec(1, month, year);
            let days = days_in_month_spec(month, year);
            let in_month = today is Some && 1 <= today->0 <= days;
            &&& forall|r: int, c: int|
                0 <= r < grid.len() && 0 <= c < 7 ==> ((#[trigger] grid[r][c]).is_today <==> (
                in_month && r == row_of_day(offset, today->0 as int) && c == column_of_day(
                    offset,
                    today->0 as int,
                )))
            &&& forall|r: int, c: int, r2: int, c2: int|
                0 <= r < grid.len() && 0 <= c < 7 && 0 <= r2 < grid.len() && 0 <= c2 < 7 && (
                #[trigger] grid[r][c]).is_today && (#[trigger] grid[r2][c2]).is_today ==> r == r2
                    && c == c2
            &&& in_month ==> {
                let cell = grid[row_of_day(offset, today->0 as int)][column_of_day(
                    offset,
                    today->0 as int,
                )];
                &&& 1 <= row_of_day(offset, today->0 as int) < grid.len()
                &&& cell.is_today
                &&& cell.label == day_label_spec(today->0 as nat)
            }
        }),
{
}

/// The days of the month stand in the grid in order, one slot after the
/// other from the column of the first's weekday, each under a label of two
/// characters that reads as its number; every other cell below the header is
/// blank; each day stands in the column of its weekday, the first day in the
/// first row below the header and the last day in the grid's last row.
pub proof fn lemma_days_in_order(month: int, year: int, today: Option<u32>)
    requires
        valid_month(month),
    ensures
        ({
            let grid = grid_spec(month, year, today);
            let offset = day_of_week_spec(1, month, year);
            let days = days_in_month_spec(month, year);
            &&& 0 <= offset <= 6
            &&& forall|day: int|
                1 <= day <= days ==> 1 <= row_of_day(offset, day) < grid.len() && grid[row_of_day(
                    offset,
                    day,
                )][column_of_day(offset, day)].label == #[trigger] day_label_spec(day as nat)
            &&& forall|day: int|
                1 <= day <= days ==> (#[trigger] day_label_spec(day as nat)).len() == 2
                    && decimal_value(day_label_spec(day as nat)) == day
            &&& forall|r: int, c: int|
                1 <= r < grid.len() && 0 <= c < 7 && !(offset <= 7 * (r - 1) + c < offset + days)
                    ==> (#[trigger] grid[r][c]).label == blank_label_spec()
            &&& forall|day: int|
                1 <= day < days ==> 7 * row_of_day(offset, day + 1) + #[trigger] column_of_day(
                    offset,
                    day + 1,
                ) == 7 * row_of_day(offset, day) + column_of_day(offset, day) + 1
            &&& forall|day: int|
                1 <= day <= days ==> #[trigger] column_of_day(offset, day) == day_of_week_spec(
                    day,
                    month,
                    year,
                )
            &&& row_of_day(offset, 1) == 1
            &&& column_of_day(offset, 1) == offset
            &&& row_of_day(offset, days) == grid.len() - 1
        }),
{
    assert forall|day: int| 1 <= day <= 31 implies (#[trigger] day_label_spec(day as nat)).len()
        == 2 && decimal_value(day_label_spec(day as nat)) == day by {
        lemma_day_label_len(day as nat);
        lemma_day_label_value(day as nat);
    }
}

} // verus!
