//! The show/hide state of the start menu and of the calendar popup.

use vstd::prelude::*;
use crate::placement::PanelWindow;

verus! {

/// Whether a popup is on screen.
#[derive(Clone, Copy, Debug, PartialEq, Eq, Structural)]
pub enum Visibility {
    Hidden,
    Visible,
}

/// The two popups of the panel.
#[derive(Clone, Copy, Debug, PartialEq, Eq, Structural)]
pub enum Popup {
    StartMenu,
    Calendar,
}

/// The state of both popups. Neither depends on the other.
#[derive(Clone, Copy, Debug, PartialEq, Eq, Structural)]
pub struct PopupStates {
    pub start_menu: Visibility,
    pub calendar: Visibility,
}

/// What the toolkit is asked to do after a trigger: set one window's
/// visibility, and nothing else.
#[derive(Clone, Copy, Debug, PartialEq, Eq, Structural)]
pub struct SetVisible {
    pub window: PanelWindow,
    pub visible: bool,
}

/// The other state.
pub open spec fn flipped(v: Visibility) -> Visibility {
    match v {
        Visibility::Hidden => Visibility::Visible,
        Visibility::Visible => Visibility::Hidden,
    }
}

/// The window of a popup.
pub open spec fn window_of(popup: Popup) -> PanelWindow {
    match popup {
        Popup::StartMenu => PanelWindow::StartMenu,
        Popup::Calendar => PanelWindow::CalendarPopup,
    }
}

/// The state of one of the popups.
pub open spec fn state_of(states: PopupStates, popup: Popup) -> Visibility {
    match popup {
        Popup::StartMenu => states.start_menu,
        Popup::Calendar => states.calendar,
    }
}

/// The states after `popup`'s trigger: that popup is flipped, the other is
/// as before.
pub open spec fn after_trigger(states: PopupStates, popup: Popup) -> PopupStates {
    match popup {
        Popup::StartMenu => PopupStates {
            start_menu: flipped(states.start_menu),
            calendar: states.calendar,
        },
        Popup::Calendar => PopupStates {
            start_menu: states.start_menu,
            calendar: flipped(states.calendar),
        },
    }
}

impl Visibility {
    /// The state of a window that is or is not on screen.
    pub fn from_visible(visible: bool) -> (v: Visibility)
        ensures
            v == if visible {
                Visibility::Visible
            } else {
                Visibility::Hidden
            },
    {
        if visible {
            Visibility::Visible
        } else {
            Visibility::Hidden
        }
    }

    /// Whether the window is on screen in this state.
    pub fn is_visible(self) -> (visible: bool)
        ensures
            visible == (self == Visibility::Visible),
    {
        match self {
            Visibility::Visible => true,
            Visibility::Hidden => false,
        }
    }

    /// The state after a trigger.
    pub fn toggled(self) -> (next: Visibility)
        ensures
            next == flipped(self),
    {
        match self {
            Visibility::Hidden => Visibility::Visible,
            Visibility::Visible => Visibility::Hidden,
        }
    }
}

impl Popup {
    /// The window that the popup is shown in.
    pub fn window(self) -> (window: PanelWindow)
        ensures
            window == window_of(self),
    {
        match self {
            Popup::StartMenu => PanelWindow::StartMenu,
            Popup::Calendar => PanelWindow::CalendarPopup,
        }
    }
}

impl PopupStates {
    /// Both popups hidden: the state after setup.
    pub fn new() -> (states: PopupStates)
        ensures
            states == (PopupStates {
                start_menu: Visibility::Hidden,
                calendar: Visibility::Hidden,
            }),
    {
        PopupStates { start_menu: Visibility::Hidden, calendar: Visibility::Hidden }
    }

    /// The state of one of the popups.
    pub fn get(self, popup: Popup) -> (v: Visibility)
        ensures
            v == state_of(self, popup),
    {
        match popup {
            Popup::StartMenu => self.start_menu,
            Popup::Calendar => self.calendar,
        }
    }

    /// Handles the trigger of `popup`: returns the next states, and the one
    /// change of visibility that brings the popup's window to its new state.
    pub fn trigger(self, popup: Popup) -> (out: (PopupStates, SetVisible))
        ensures
            out.0 == after_trigger(self, popup),
            out.1 == (SetVisible {
                window: window_of(popup),
                visible: state_of(after_trigger(self, popup), popup) == Visibility::Visible,
            }),
    {
        let next = match popup {
            Popup::StartMenu => PopupStates {
                start_menu: self.start_menu.toggled(),
                calendar: self.calendar,
            },
            Popup::Calendar => PopupStates {
                start_menu: self.start_menu,
                calendar: self.calendar.toggled(),
            },
        };
        let action = SetVisible { window: popup.window(), visible: next.get(popup).is_visible() };
        (next, action)
    }
}

/// The new visibility of a window whose trigger fired while its visibility
/// was `visible`.
pub fn toggle(visible: bool) -> (next: bool)
    ensures
        next == !visible,
{
    Visibility::from_visible(visible).toggled().is_visible()
}

/// One trigger flips the popup's state, and two triggers in a row bring it
/// back; the other popup keeps its state throughout.
pub proof fn lemma_trigger_twice(states: PopupStates, popup: Popup, other: Popup)
    requires
        other != popup,
    ensures
        state_of(after_trigger(states, popup), popup) != state_of(states, popup),
        state_of(after_trigger(states, popup), popup) == flipped(state_of(states, popup)),
        state_of(after_trigger(states, popup), other) == state_of(states, other),
        after_trigger(after_trigger(states, popup), popup) == states,
{
}

/// The states after `count` triggers of `popup` in a row.
pub open spec fn after_triggers(states: PopupStates, popup: Popup, count: nat) -> PopupStates
    decreases count,
{
    if count == 0 {
        states
    } else {
        after_trigger(after_triggers(states, popup, (count - 1) as nat), popup)
    }
}

/// Any number of triggers in a row leaves the popup as it was if the number
/// is even, and flipped if it is odd; the other popup keeps its state.
pub proof fn lemma_trigger_parity(states: PopupStates, popup: Popup, count: nat)
    ensures
        count % 2 == 0 ==> after_triggers(states, popup, count) == states,
        count % 2 == 1 ==> after_triggers(states, popup, count) == after_trigger(states, popup),
    decreases count,
{
    if count > 0 {
        lemma_trigger_parity(states, popup, (count - 1) as nat);
        lemma_trigger_twice(
            states,
            popup,
            match popup {
                Popup::StartMenu => Popup::Calendar,
                Popup::Calendar => Popup::StartMenu,
            },
        );
    }
}

/// The triggers of the two popups do not interfere: they may fire in either
/// order.
pub proof fn lemma_triggers_commute(states: PopupStates)
    ensures
        after_trigger(after_trigger(states, Popup::StartMenu), Popup::Calendar) == after_trigger(
            after_trigger(states, Popup::Calendar),
            Popup::StartMenu,
        ),
{
}

} // verus!
