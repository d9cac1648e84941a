//! The panel's course of action: it shows its windows, has them measured,
//! places them, hides the popups, and from then on flips a popup on each of
//! its triggers. Where a window cannot be placed, startup is given up with
//! no window left on screen. The windowing toolkit does the work; this
//! module decides what is done next.

use vstd::prelude::*;
use crate::placement::{
    calendar_popup_spec, checked, main_bar_spec, place_calendar_popup, place_main_bar,
    place_start_menu, start_menu_spec, DisplayGeometry, PanelWindow, Placement, WindowSize,
};
use crate::visibility::{after_trigger, state_of, window_of, Popup, PopupStates, Visibility};

verus! {

/// How far the panel has come.
#[derive(Clone, Copy, Debug, PartialEq, Eq, Structural)]
pub enum Phase {
    /// The windows exist; nothing is on screen.
    Created,
    /// All windows are shown on the given display, and the sizes that the
    /// popups' contents gave them are awaited.
    Measuring(DisplayGeometry),
    /// Setup is done: the main bar is on screen, and each popup is in the
    /// state held here.
    Ready(PopupStates),
    /// Startup was given up; the panel does not appear.
    Failed,
}

/// What the toolkit reports.
#[derive(Clone, Copy, Debug, PartialEq, Eq, Structural)]
pub enum Event {
    /// The geometry of the primary display.
    DisplayFound(DisplayGeometry),
    /// There is no primary display.
    DisplayMissing,
    /// The sizes of the two popups, measured while they are shown.
    Measured { start_menu: WindowSize, calendar: WindowSize },
    /// The trigger of a popup fired.
    Clicked(Popup),
}

/// What the toolkit is asked to do.
#[derive(Clone, Copy, Debug, PartialEq, Eq, Structural)]
pub enum Action {
    /// Show the window and all that it holds.
    Show(PanelWindow),
    /// Move the window, and resize it where the placement gives a size.
    Place(PanelWindow, Placement),
    /// Set the window's visibility.
    SetVisible(PanelWindow, bool),
}

/// The three placements, in the order in which they are made, if each of
/// them is representable.
pub open spec fn placements(
    display: DisplayGeometry,
    start_menu: WindowSize,
    calendar: WindowSize,
) -> Option<(Placement, Placement, Placement)> {
    match (
        checked(main_bar_spec(display)),
        checked(start_menu_spec(display, start_menu)),
        checked(calendar_popup_spec(display, calendar)),
    ) {
        (Some(bar), Some(menu), Some(popup)) => Some((bar, menu, popup)),
        _ => None,
    }
}

/// The phase after an event. An event that the phase does not await changes
/// nothing.
pub open spec fn next_phase(phase: Phase, event: Event) -> Phase {
    match (phase, event) {
        (Phase::Created, Event::DisplayFound(display)) => {
            if checked(main_bar_spec(display)) is Some {
                Phase::Measuring(display)
            } else {
                Phase::Failed
            }
        },
        (Phase::Created, Event::DisplayMissing) => Phase::Failed,
        (Phase::Measuring(display), Event::Measured { start_menu, calendar }) => {
            if placements(display, start_menu, calendar) is Some {
                Phase::Ready(
                    PopupStates { start_menu: Visibility::Hidden, calendar: Visibility::Hidden },
                )
            } else {
                Phase::Failed
            }
        },
        (Phase::Ready(popups), Event::Clicked(popup)) => Phase::Ready(after_trigger(popups, popup)),
        _ => phase,
    }
}

/// The actions that an event calls for, in order. The windows are shown
/// only on a display on which the main bar can be placed; if a popup cannot
/// be placed once it is measured, all three windows are taken off screen.
pub open spec fn actions(phase: Phase, event: Event) -> Seq<Action> {
    match (phase, event) {
        (Phase::Created, Event::DisplayFound(display)) => {
            if checked(main_bar_spec(display)) is Some {
                seq![
                    Action::Show(PanelWindow::MainBar),
                    Action::Show(PanelWindow::StartMenu),
                    Action::Show(PanelWindow::CalendarPopup),
                ]
            } else {
                Seq::empty()
            }
        },
        (Phase::Measuring(display), Event::Measured { start_menu, calendar }) => {
            match placements(display, start_menu, calendar) {
                Some((bar, menu, popup)) => seq![
                    Action::Place(PanelWindow::MainBar, bar),
                    Action::Place(PanelWindow::StartMenu, menu),
                    Action::Place(PanelWindow::CalendarPopup, popup),
                    Action::SetVisible(PanelWindow::StartMenu, false),
                    Action::SetVisible(PanelWindow::CalendarPopup, false),
                ],
                None => seq![
                    Action::SetVisible(PanelWindow::MainBar, false),
                    Action::SetVisible(PanelWindow::StartMenu, false),
                    Action::SetVisible(PanelWindow::CalendarPopup, false),
                ],
            }
        },
        (Phase::Ready(popups), Event::Clicked(popup)) => seq![
            Action::SetVisible(
                window_of(popup),
                state_of(after_trigger(popups, popup), popup) == Visibility::Visible,
            ),
        ],
        _ => Seq::empty(),
    }
}

/// Takes the panel from one phase to the next on an event, and says what the
/// toolkit has to do, in order.
pub fn step(phase: Phase, event: Event) -> (out: (Phase, Vec<Action>))
    ensures
        out.0 == next_phase(phase, event),
        out.1@ == actions(phase, event),
{
    let mut todo: Vec<Action> = Vec::new();
    let next = match (phase, event) {
        (Phase::Created, Event::DisplayFound(display)) => {
            match place_main_bar(display) {
                Some(_) => {
                    todo.push(Action::Show(PanelWindow::MainBar));
                    todo.push(Action::Show(PanelWindow::StartMenu));
                    todo.push(Action::Show(PanelWindow::CalendarPopup));
                    Phase::Measuring(display)
                },
                None => Phase::Failed,
            }
        },
        (Phase::Created, Event::DisplayMissing) => Phase::Failed,
        (Phase::Measuring(display), Event::Measured { start_menu, calendar }) => {
            match (
                place_main_bar(display),
                place_start_menu(display, start_menu),
                place_calendar_popup(display, calendar),
            ) {
                (Some(bar), Some(menu), Some(popup)) => {
                    todo.push(Action::Place(PanelWindow::MainBar, bar));
                    todo.push(Action::Place(PanelWindow::StartMenu, menu));
                    todo.push(Action::Place(PanelWindow::CalendarPopup, popup));
                    todo.push(Action::SetVisible(PanelWindow::StartMenu, false));
                    todo.push(Action::SetVisible(PanelWindow::CalendarPopup, false));
                    Phase::Ready(PopupStates::new())
                },
                _ => {
                    todo.push(Action::SetVisible(PanelWindow::MainBar, false));
                    todo.push(Action::SetVisible(PanelWindow::StartMenu, false));
                    todo.push(Action::SetVisible(PanelWindow::CalendarPopup, false));
                    Phase::Failed
                },
            }
        },
        (Phase::Ready(popups), Event::Clicked(popup)) => {
            let (after, change) = popups.trigger(popup);
            todo.push(Action::SetVisible(change.window, change.visible));
            Phase::Ready(after)
        },
        _ => phase,
    };
    assert(todo@ =~= actions(phase, event));
    (next, todo)
}

/// Once setup is done, a popup's trigger flips that popup and nothing else,
/// two triggers in a row bring the panel back to where it was, and the
/// panel stays ready.
pub proof fn lemma_click_twice(popups: PopupStates, popup: Popup)
    ensures
        next_phase(Phase::Ready(popups), Event::Clicked(popup)) == Phase::Ready(
            after_trigger(popups, popup),
        ),
        next_phase(
            next_phase(Phase::Ready(popups), Event::Clicked(popup)),
            Event::Clicked(popup),
        ) == Phase::Ready(popups),
        actions(Phase::Ready(popups), Event::Clicked(popup)).len() == 1,
{
}

/// Setup ends with both popups hidden, and the main bar is taken off screen
/// only where startup is given up: no other step sets its visibility.
pub proof fn lemma_main_bar_stays(phase: Phase, event: Event, i: int)
    requires
        0 <= i < actions(phase, event).len(),
    ensures
        actions(phase, event)[i] is SetVisible && actions(phase, event)[i]->SetVisible_0
            == PanelWindow::MainBar ==> next_phase(phase, event) is Failed,
        phase is Measuring && next_phase(phase, event) is Ready ==> next_phase(phase, event)
            == Phase::Ready(
            PopupStates { start_menu: Visibility::Hidden, calendar: Visibility::Hidden },
        ),
{
}

/// Where startup is given up, no window is left on screen: either none was
/// shown yet and nothing is done, or all three are hidden.
pub proof fn lemma_failure_leaves_nothing(phase: Phase, event: Event)
    requires
        !(phase is Failed),
        next_phase(phase, event) is Failed,
    ensures
        phase is Created ==> actions(phase, event).len() == 0,
        phase is Measuring ==> actions(phase, event) == seq![
            Action::SetVisible(PanelWindow::MainBar, false),
            Action::SetVisible(PanelWindow::StartMenu, false),
            Action::SetVisible(PanelWindow::CalendarPopup, false),
        ],
        !(phase is Ready),
{
}

} // verus!
