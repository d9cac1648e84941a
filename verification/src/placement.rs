//! Where the panel's windows stand on the primary display.

use vstd::prelude::*;

verus! {

/// The gap kept between a window and the display's edge or the next window.
pub const PADDING: i32 = 8;

/// The height of the main bar.
pub const BAR_HEIGHT: i32 = 16;

/// The room left below the main bar.
pub const BAR_BOTTOM_GAP: i32 = 32;

/// The work area of the primary display. Its top edge is taken to be 0.
#[derive(Clone, Copy, Debug, PartialEq, Eq, Structural)]
pub struct DisplayGeometry {
    pub x: i32,
    pub width: i32,
    pub height: i32,
}

/// The size of a window.
#[derive(Clone, Copy, Debug, PartialEq, Eq, Structural)]
pub struct WindowSize {
    pub width: i32,
    pub height: i32,
}

/// The three windows of the panel.
#[derive(Clone, Copy, Debug, PartialEq, Eq, Structural)]
pub enum PanelWindow {
    MainBar,
    StartMenu,
    CalendarPopup,
}

/// Where a window is put, and the size it is given; `None` leaves the size
/// to the window's content.
#[derive(Clone, Copy, Debug, PartialEq, Eq, Structural)]
pub struct Placement {
    pub x: i32,
    pub y: i32,
    pub size: Option<WindowSize>,
}

/// A placement in unbounded integers.
pub ghost struct PlacementSpec {
    pub x: int,
    pub y: int,
    pub size: Option<(int, int)>,
}

impl View for Placement {
    type V = PlacementSpec;

    open spec fn view(&self) -> PlacementSpec {
        PlacementSpec {
            x: self.x as int,
            y: self.y as int,
            size: match self.size {
                Some(s) => Some((s.width as int, s.height as int)),
                None => None,
            },
        }
    }
}

/// The main bar spans the display's width but for the padding on each side,
/// and stands above the gap at the display's bottom.
pub open spec fn main_bar_spec(display: DisplayGeometry) -> PlacementSpec {
    PlacementSpec {
        x: display.x + PADDING,
        y: display.height - BAR_HEIGHT - BAR_BOTTOM_GAP,
        size: Some((display.width - 2 * PADDING, BAR_HEIGHT as int)),
    }
}

/// The start menu stands at the display's left, twice its own height above
/// the bar.
pub open spec fn start_menu_spec(display: DisplayGeometry, natural: WindowSize) -> PlacementSpec {
    PlacementSpec {
        x: display.x + PADDING,
        y: display.height - BAR_HEIGHT - 2 * natural.height - PADDING,
        size: None,
    }
}

/// The calendar popup stands at the display's right, above the bar.
pub open spec fn calendar_popup_spec(display: DisplayGeometry, natural: WindowSize) -> PlacementSpec {
    PlacementSpec {
        x: display.width - PADDING - natural.width,
        y: display.height - BAR_HEIGHT - natural.height - 5 * PADDING,
        size: None,
    }
}

/// The placement of `window`. `natural` is the size that its content gave
/// it; the main bar's placement does not depend on it.
pub open spec fn placement_spec(
    window: PanelWindow,
    display: DisplayGeometry,
    natural: WindowSize,
) -> PlacementSpec {
    match window {
        PanelWindow::MainBar => main_bar_spec(display),
        PanelWindow::StartMenu => start_menu_spec(display, natural),
        PanelWindow::CalendarPopup => calendar_popup_spec(display, natural),
    }
}

/// Whether a coordinate can be handed to the windowing toolkit.
pub open spec fn representable(v: int) -> bool {
    i32::MIN <= v <= i32::MAX
}

/// Whether every coordinate of a placement can be handed to the toolkit.
pub open spec fn fits(p: PlacementSpec) -> bool {
    &&& representable(p.x)
    &&& representable(p.y)
    &&& match p.size {
        Some((w, h)) => representable(w) && representable(h),
        None => true,
    }
}

/// A placement in machine integers, if every coordinate is representable.
pub open spec fn checked(p: PlacementSpec) -> Option<Placement> {
    if fits(p) {
        Some(
            Placement {
                x: p.x as i32,
                y: p.y as i32,
                size: match p.size {
                    Some((w, h)) => Some(WindowSize { width: w as i32, height: h as i32 }),
                    None => None,
                },
            },
        )
    } else {
        None
    }
}

fn narrow(v: i64) -> (out: Option<i32>)
    ensures
        representable(v as int) ==> out == Some(v as i32),
        !representable(v as int) ==> out is None,
{
    if v < -2147483648 || v > 2147483647 {
        None
    } else {
        Some(v as i32)
    }
}

fn at(x: i64, y: i64, size: Option<WindowSize>) -> (placed: Option<Placement>)
    ensures
        representable(x as int) && representable(y as int) ==> placed == Some(
            Placement { x: x as i32, y: y as i32, size },
        ),
        !(representable(x as int) && representable(y as int)) ==> placed is None,
{
    match (narrow(x), narrow(y)) {
        (Some(x), Some(y)) => Some(Placement { x, y, size }),
        _ => None,
    }
}

/// Places the main bar; `None` if a coordinate of the placement is not
/// representable.
pub fn place_main_bar(display: DisplayGeometry) -> (placed: Option<Placement>)
    ensures
        placed == checked(main_bar_spec(display)),
{
    let width: i64 = display.width as i64 - 2 * (PADDING as i64);
    match narrow(width) {
        Some(width) => at(
            display.x as i64 + PADDING as i64,
            display.height as i64 - BAR_HEIGHT as i64 - BAR_BOTTOM_GAP as i64,
            Some(WindowSize { width, height: BAR_HEIGHT }),
        ),
        None => None,
    }
}

/// Places the start menu, whose content gave it the size `natural`; `None`
/// if a coordinate of the placement is not representable.
pub fn place_start_menu(display: DisplayGeometry, natural: WindowSize) -> (placed: Option<
    Placement,
>)
    ensures
        placed == checked(start_menu_spec(display, natural)),
{
    at(
        display.x as i64 + PADDING as i64,
        display.height as i64 - BAR_HEIGHT as i64 - 2 * (natural.height as i64) - PADDING as i64,
        None,
    )
}

/// Places the calendar popup, whose content gave it the size `natural`;
/// `None` if a coordinate of the placement is not representable.
pub fn place_calendar_popup(display: DisplayGeometry, natural: WindowSize) -> (placed: Option<
    Placement,
>)
    ensures
        placed == checked(calendar_popup_spec(display, natural)),
{
    at(
        display.width as i64 - PADDING as i64 - natural.width as i64,
        display.height as i64 - BAR_HEIGHT as i64 - natural.height as i64 - 5 * (PADDING as i64),
        None,
    )
}

/// Places `window` by its rule; `None` if a coordinate of the placement is
/// not representable.
pub fn place(window: PanelWindow, display: DisplayGeometry, natural: WindowSize) -> (placed:
    Option<Placement>)
    ensures
        placed == checked(placement_spec(window, display, natural)),
{
    match window {
        PanelWindow::MainBar => place_main_bar(display),
        PanelWindow::StartMenu => place_start_menu(display, natural),
        PanelWindow::CalendarPopup => place_calendar_popup(display, natural),
    }
}

/// A placement in machine integers exists exactly if every coordinate is
/// representable, and it is then the same placement.
pub proof fn lemma_checked_is_exact(p: PlacementSpec)
    ensures
        checked(p) is Some <==> fits(p),
        fits(p) ==> checked(p)->0@ == p,
{
}

} // verus!
