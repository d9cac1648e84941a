use panel::today::{build_for_today, day_to_mark};
use panel::date::{CalendarError, Date};
use panel::grid::build;
use panel::panel::{step, Action, Event, Phase};
use panel::placement::{DisplayGeometry, PanelWindow, Placement, WindowSize};
use panel::visibility::{toggle, Popup, PopupStates, SetVisible, Visibility};

const FULL_HD: DisplayGeometry = DisplayGeometry { x: 0, width: 1920, height: 1080 };

const HIDDEN: PopupStates =
    PopupStates { start_menu: Visibility::Hidden, calendar: Visibility::Hidden };

#[test]
fn popups_start_hidden() {
    assert_eq!(PopupStates::new(), HIDDEN);
    assert!(!PopupStates::new().get(Popup::StartMenu).is_visible());
    assert!(!PopupStates::new().get(Popup::Calendar).is_visible());
}

#[test]
fn one_trigger_flips_once() {
    let (after, change) = HIDDEN.trigger(Popup::StartMenu);
    assert_eq!(after.start_menu, Visibility::Visible);
    assert_eq!(after.calendar, Visibility::Hidden);
    assert_eq!(change, SetVisible { window: PanelWindow::StartMenu, visible: true });
}

#[test]
fn two_triggers_return_to_the_start() {
    for start in [Visibility::Hidden, Visibility::Visible] {
        let states = PopupStates { start_menu: start, calendar: Visibility::Visible };
        let (once, first) = states.trigger(Popup::StartMenu);
        assert_ne!(once.start_menu, start);
        assert_eq!(first.visible, !start.is_visible());
        let (twice, second) = once.trigger(Popup::StartMenu);
        assert_eq!(twice, states);
        assert_eq!(second.visible, start.is_visible());
    }
}

#[test]
fn popups_are_independent() {
    let (a, _) = HIDDEN.trigger(Popup::StartMenu);
    let (b, change) = a.trigger(Popup::Calendar);
    assert_eq!(b, PopupStates { start_menu: Visibility::Visible, calendar: Visibility::Visible });
    assert_eq!(change, SetVisible { window: PanelWindow::CalendarPopup, visible: true });
    let (c, change) = b.trigger(Popup::StartMenu);
    assert_eq!(c, PopupStates { start_menu: Visibility::Hidden, calendar: Visibility::Visible });
    assert_eq!(change, SetVisible { window: PanelWindow::StartMenu, visible: false });
}

#[test]
fn visibility_conversions() {
    assert_eq!(Visibility::from_visible(true), Visibility::Visible);
    assert_eq!(Visibility::from_visible(false), Visibility::Hidden);
    assert_eq!(Visibility::Hidden.toggled(), Visibility::Visible);
    assert_eq!(Visibility::Visible.toggled(), Visibility::Hidden);
    assert!(toggle(false));
    assert!(!toggle(true));
    assert_eq!(toggle(toggle(true)), true);
    assert_eq!(Popup::StartMenu.window(), PanelWindow::StartMenu);
    assert_eq!(Popup::Calendar.window(), PanelWindow::CalendarPopup);
}

#[test]
fn setup_shows_measures_places_and_hides() {
    let (phase, todo) = step(Phase::Created, Event::DisplayFound(FULL_HD));
    assert_eq!(phase, Phase::Measuring(FULL_HD));
    assert_eq!(
        todo,
        vec![
            Action::Show(PanelWindow::MainBar),
            Action::Show(PanelWindow::StartMenu),
            Action::Show(PanelWindow::CalendarPopup),
        ]
    );
    let measured = Event::Measured {
        start_menu: WindowSize { width: 300, height: 400 },
        calendar: WindowSize { width: 250, height: 200 },
    };
    let (phase, todo) = step(phase, measured);
    assert_eq!(phase, Phase::Ready(HIDDEN));
    let bar = Placement { x: 8, y: 1032, size: Some(WindowSize { width: 1904, height: 16 }) };
    assert_eq!(
        todo,
        vec![
            Action::Place(PanelWindow::MainBar, bar),
            Action::Place(PanelWindow::StartMenu, Placement { x: 8, y: 256, size: None }),
            Action::Place(PanelWindow::CalendarPopup, Placement { x: 1662, y: 824, size: None }),
            Action::SetVisible(PanelWindow::StartMenu, false),
            Action::SetVisible(PanelWindow::CalendarPopup, false),
        ]
    );
}

#[test]
fn a_missing_display_ends_startup() {
    let (phase, todo) = step(Phase::Created, Event::DisplayMissing);
    assert_eq!(phase, Phase::Failed);
    assert!(todo.is_empty());
    let (phase, todo) = step(phase, Event::DisplayFound(FULL_HD));
    assert_eq!(phase, Phase::Failed);
    assert!(todo.is_empty());
}

#[test]
fn a_placement_out_of_range_ends_startup() {
    let measured = Event::Measured {
        start_menu: WindowSize { width: 300, height: i32::MAX },
        calendar: WindowSize { width: 250, height: 200 },
    };
    let (phase, todo) = step(Phase::Measuring(FULL_HD), measured);
    assert_eq!(phase, Phase::Failed);
    assert_eq!(
        todo,
        vec![
            Action::SetVisible(PanelWindow::MainBar, false),
            Action::SetVisible(PanelWindow::StartMenu, false),
            Action::SetVisible(PanelWindow::CalendarPopup, false),
        ]
    );
}

#[test]
fn nothing_is_shown_where_the_bar_cannot_be_placed() {
    let far = DisplayGeometry { x: i32::MAX, width: 1920, height: 1080 };
    let (phase, todo) = step(Phase::Created, Event::DisplayFound(far));
    assert_eq!(phase, Phase::Failed);
    assert!(todo.is_empty());
}

#[test]
fn many_triggers_go_by_parity() {
    let start = PopupStates { start_menu: Visibility::Hidden, calendar: Visibility::Visible };
    let mut states = start;
    for n in 1..=9u32 {
        states = states.trigger(Popup::Calendar).0;
        assert_eq!(states.start_menu, Visibility::Hidden);
        assert_eq!(states.calendar.is_visible(), n % 2 == 0);
    }
}

#[test]
fn clicks_toggle_once_ready() {
    let (phase, todo) = step(Phase::Ready(HIDDEN), Event::Clicked(Popup::StartMenu));
    assert_eq!(todo, vec![Action::SetVisible(PanelWindow::StartMenu, true)]);
    let (phase, todo) = step(phase, Event::Clicked(Popup::Calendar));
    assert_eq!(todo, vec![Action::SetVisible(PanelWindow::CalendarPopup, true)]);
    let (phase, todo) = step(phase, Event::Clicked(Popup::StartMenu));
    assert_eq!(todo, vec![Action::SetVisible(PanelWindow::StartMenu, false)]);
    assert_eq!(
        phase,
        Phase::Ready(PopupStates { start_menu: Visibility::Hidden, calendar: Visibility::Visible })
    );
}

#[test]
fn events_out_of_turn_change_nothing() {
    let (phase, todo) = step(Phase::Created, Event::Clicked(Popup::StartMenu));
    assert_eq!(phase, Phase::Created);
    assert!(todo.is_empty());
    let (phase, todo) = step(Phase::Measuring(FULL_HD), Event::DisplayFound(FULL_HD));
    assert_eq!(phase, Phase::Measuring(FULL_HD));
    assert!(todo.is_empty());
    let (phase, todo) = step(Phase::Ready(HIDDEN), Event::DisplayMissing);
    assert_eq!(phase, Phase::Ready(HIDDEN));
    assert!(todo.is_empty());
}

#[test]
fn today_is_marked_only_in_its_own_month() {
    let today = Date { day: 15, month: 1, year: 2021 };
    assert_eq!(day_to_mark(today, 1, 2021), Some(15));
    assert_eq!(day_to_mark(today, 2, 2021), None);
    assert_eq!(day_to_mark(today, 1, 2022), None);
    assert_eq!(day_to_mark(today, 13, 2021), None);
}

#[test]
fn grid_for_today_marks_today_in_its_month() {
    let today = Date::new(15, 1, 2021).unwrap();
    let grid = build_for_today(today, 1, 2021).unwrap();
    assert_eq!(grid, build(1, 2021, Some(15)).unwrap());
    assert!(grid.weeks[3][5].is_today);
    assert_eq!(grid.weeks[3][5].label, "15");
    assert_eq!(grid.weeks.iter().flatten().filter(|c| c.is_today).count(), 1);
}

#[test]
fn grid_of_another_month_marks_nothing() {
    let today = Date::new(15, 2, 2021).unwrap();
    let grid = build_for_today(today, 1, 2021).unwrap();
    assert_eq!(grid, build(1, 2021, None).unwrap());
    assert_eq!(grid.weeks.iter().flatten().filter(|c| c.is_today).count(), 0);
    let last_year = Date::new(15, 1, 2020).unwrap();
    assert_eq!(build_for_today(last_year, 1, 2021), build(1, 2021, None));
}

#[test]
fn grid_for_today_refuses_a_month_out_of_range() {
    let today = Date::new(15, 1, 2021).unwrap();
    assert_eq!(build_for_today(today, 0, 2021), Err(CalendarError::InvalidMonth));
    assert_eq!(build_for_today(today, 13, 2021), Err(CalendarError::InvalidMonth));
}

#[test]
fn dates_are_made_in_range_only() {
    assert_eq!(Date::new(1, 1, 2021), Some(Date { day: 1, month: 1, year: 2021 }));
    assert_eq!(Date::new(31, 12, i32::MIN), Some(Date { day: 31, month: 12, year: i32::MIN }));
    assert_eq!(Date::new(0, 1, 2021), None);
    assert_eq!(Date::new(32, 1, 2021), None);
    assert_eq!(Date::new(1, 0, 2021), None);
    assert_eq!(Date::new(1, 13, 2021), None);
}
