use lyrics_plus::overlay::{
    centered_position, legacy_secondary_display, should_show_main_window, stable_overlay_hover,
    toolbar_placement_after_move, unlock_handle_position, KaraokeStyle, LongTextMode,
    OverlayAlignment, OverlayBackground, OverlayOrientation, SecondaryDisplayMode,
    ToolbarPlacement,
};

#[test]
fn defaults() {
    assert_eq!(OverlayBackground::default(), OverlayBackground::Glass);
    assert_eq!(OverlayAlignment::default(), OverlayAlignment::Center);
    assert_eq!(LongTextMode::default(), LongTextMode::Shrink);
    assert_eq!(KaraokeStyle::default(), KaraokeStyle::Sweep);
    assert_eq!(SecondaryDisplayMode::default(), SecondaryDisplayMode::Legacy);
    assert_eq!(legacy_secondary_display(), SecondaryDisplayMode::Legacy);
    assert_eq!(ToolbarPlacement::default(), ToolbarPlacement::Top);
}

#[test]
fn toolbar_placement_follows_the_orientation() {
    assert_eq!(ToolbarPlacement::for_orientation(OverlayOrientation::Horizontal), ToolbarPlacement::Top);
    assert_eq!(ToolbarPlacement::for_orientation(OverlayOrientation::Vertical), ToolbarPlacement::Right);
    assert_eq!(ToolbarPlacement::Bottom.normalized(OverlayOrientation::Horizontal), ToolbarPlacement::Bottom);
    assert_eq!(ToolbarPlacement::Left.normalized(OverlayOrientation::Horizontal), ToolbarPlacement::Top);
    assert_eq!(ToolbarPlacement::Top.normalized(OverlayOrientation::Vertical), ToolbarPlacement::Right);
    assert_eq!(ToolbarPlacement::Left.normalized(OverlayOrientation::Vertical), ToolbarPlacement::Left);
    assert_eq!(ToolbarPlacement::Top.normalized(OverlayOrientation::Vertical).normalized(OverlayOrientation::Vertical), ToolbarPlacement::Top.normalized(OverlayOrientation::Vertical));
}

#[test]
fn toolbar_flips_at_work_area_edges() {
    let work = ((0, 25), (1440, 875));
    assert_eq!(toolbar_placement_after_move(OverlayOrientation::Horizontal, ToolbarPlacement::Top, (100, 30), (800, 120), 40, work.0, work.1), (ToolbarPlacement::Bottom, (100, 70)));
    assert_eq!(toolbar_placement_after_move(OverlayOrientation::Horizontal, ToolbarPlacement::Top, (100, 300), (800, 120), 40, work.0, work.1), (ToolbarPlacement::Top, (100, 300)));
    assert_eq!(toolbar_placement_after_move(OverlayOrientation::Horizontal, ToolbarPlacement::Bottom, (100, 780), (800, 120), 40, work.0, work.1), (ToolbarPlacement::Top, (100, 740)));
    assert_eq!(toolbar_placement_after_move(OverlayOrientation::Vertical, ToolbarPlacement::Right, (1300, 100), (140, 600), 30, work.0, work.1), (ToolbarPlacement::Left, (1270, 100)));
    assert_eq!(toolbar_placement_after_move(OverlayOrientation::Vertical, ToolbarPlacement::Left, (5, 100), (140, 600), 30, work.0, work.1), (ToolbarPlacement::Right, (35, 100)));
    assert_eq!(toolbar_placement_after_move(OverlayOrientation::Vertical, ToolbarPlacement::Top, (500, 100), (140, 600), 30, work.0, work.1), (ToolbarPlacement::Right, (500, 100)));
    assert_eq!(toolbar_placement_after_move(OverlayOrientation::Horizontal, ToolbarPlacement::Top, (0, i32::MAX), (1, 1), 40, (0, i32::MAX), (1, 1)).1, (0, i32::MAX));
}

#[test]
fn unlock_handle_sits_beside_the_toolbar_side() {
    assert_eq!(unlock_handle_position(ToolbarPlacement::Top, (100, 200), (800, 120), (40, 20), 30, 6), (480, 204));
    assert_eq!(unlock_handle_position(ToolbarPlacement::Bottom, (100, 200), (800, 120), (40, 20), 30, 6), (480, 296));
    assert_eq!(unlock_handle_position(ToolbarPlacement::Left, (100, 200), (120, 800), (20, 40), 30, 6), (104, 580));
    assert_eq!(unlock_handle_position(ToolbarPlacement::Right, (100, 200), (120, 800), (20, 40), 30, 6), (196, 580));
    assert_eq!(unlock_handle_position(ToolbarPlacement::Top, (i32::MAX, 0), (800, 120), (40, 20), 30, 6).0, i32::MAX);
}

#[test]
fn window_helpers() {
    assert_eq!(centered_position((0, 25), (1440, 875), (800, 600)), (320, 162));
    assert_eq!(centered_position((10, 10), (100, 100), (400, 400)), (10, 10));
    assert!(should_show_main_window(false, true));
    assert!(should_show_main_window(true, false));
    assert!(!should_show_main_window(true, true));
    assert!(stable_overlay_hover(Some(true), false, true));
    assert!(!stable_overlay_hover(None, false, true));
    assert!(!stable_overlay_hover(Some(true), false, false));
}
