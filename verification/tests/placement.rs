use panel::placement::{
    place, place_calendar_popup, place_main_bar, place_start_menu, DisplayGeometry, PanelWindow,
    Placement, WindowSize, BAR_HEIGHT, PADDING,
};

const FULL_HD: DisplayGeometry = DisplayGeometry { x: 0, width: 1920, height: 1080 };

#[test]
fn constants() {
    assert_eq!(PADDING, 8);
    assert_eq!(BAR_HEIGHT, 16);
}

#[test]
fn main_bar_on_full_hd() {
    let placed = place_main_bar(FULL_HD).unwrap();
    assert_eq!((placed.x, placed.y), (8, 1032));
    assert_eq!(placed.size, Some(WindowSize { width: 1904, height: 16 }));
}

#[test]
fn main_bar_follows_the_display_origin() {
    let placed = place_main_bar(DisplayGeometry { x: 1920, width: 1280, height: 720 }).unwrap();
    assert_eq!(
        placed,
        Placement { x: 1928, y: 672, size: Some(WindowSize { width: 1264, height: 16 }) }
    );
}

#[test]
fn start_menu_stands_twice_its_height_above_the_bar() {
    let placed = place_start_menu(FULL_HD, WindowSize { width: 300, height: 400 }).unwrap();
    assert_eq!(placed, Placement { x: 8, y: 256, size: None });
}

#[test]
fn calendar_popup_stands_at_the_right() {
    let placed = place_calendar_popup(FULL_HD, WindowSize { width: 250, height: 200 }).unwrap();
    assert_eq!(placed, Placement { x: 1662, y: 824, size: None });
}

#[test]
fn calendar_popup_ignores_the_display_origin() {
    let display = DisplayGeometry { x: 100, width: 1920, height: 1080 };
    let placed = place_calendar_popup(display, WindowSize { width: 250, height: 200 }).unwrap();
    assert_eq!(placed.x, 1662);
}

#[test]
fn place_goes_by_the_window() {
    let natural = WindowSize { width: 250, height: 200 };
    assert_eq!(place(PanelWindow::MainBar, FULL_HD, natural), place_main_bar(FULL_HD));
    assert_eq!(place(PanelWindow::StartMenu, FULL_HD, natural), place_start_menu(FULL_HD, natural));
    assert_eq!(
        place(PanelWindow::CalendarPopup, FULL_HD, natural),
        place_calendar_popup(FULL_HD, natural)
    );
    assert_eq!(place(PanelWindow::StartMenu, FULL_HD, natural).unwrap().y, 656);
}

#[test]
fn a_placement_that_is_not_representable_is_none() {
    let far = DisplayGeometry { x: i32::MAX, width: 1920, height: 1080 };
    assert_eq!(place_main_bar(far), None);
    let narrow = DisplayGeometry { x: 0, width: i32::MIN, height: 1080 };
    assert_eq!(place_main_bar(narrow), None);
    let low = DisplayGeometry { x: 0, width: 1920, height: i32::MIN };
    assert_eq!(place_main_bar(low), None);
    let tall = WindowSize { width: 10, height: i32::MAX };
    assert_eq!(place_start_menu(FULL_HD, tall), None);
    let wide = WindowSize { width: i32::MIN, height: 10 };
    assert_eq!(place_calendar_popup(FULL_HD, wide), None);
}

#[test]
fn placements_at_the_edge_of_the_range() {
    let edge = DisplayGeometry { x: i32::MAX - 8, width: i32::MAX, height: i32::MAX };
    assert_eq!(
        place_main_bar(edge),
        Some(Placement {
            x: i32::MAX,
            y: i32::MAX - 48,
            size: Some(WindowSize { width: i32::MAX - 16, height: 16 }),
        })
    );
    let origin = DisplayGeometry { x: 0, width: 0, height: 0 };
    let negative = WindowSize { width: -100, height: -100 };
    assert_eq!(place_start_menu(origin, negative), Some(Placement { x: 8, y: 176, size: None }));
    assert_eq!(place_calendar_popup(origin, negative), Some(Placement { x: 92, y: 44, size: None }));
}
