use lyrics_plus::overlay::ToolbarPlacement;
use lyrics_plus::placement::{sort_topology, MonitorTopologyEntry, PlacementTracker};
use lyrics_plus::text::chars_of;
use lyrics_plus::window_layout::{
    notch_monitor_id, notch_window_position, nudged_position, parse_i32, parse_saved_position,
    position_visible, primary_overlay_position,
};

fn entry(id: &str, x: i32) -> MonitorTopologyEntry {
    MonitorTopologyEntry {
        id: id.into(),
        x,
        y: 0,
        width: 100,
        height: 100,
        work_x: x,
        work_y: 0,
        work_width: 100,
        work_height: 90,
        scale_factor_bits: 2.0f64.to_bits(),
    }
}

#[test]
fn placement_tracking() {
    let mut tracker = PlacementTracker::new();
    assert!(!tracker.update_topology(vec![entry("a", 0)]));
    tracker.mark_programmatic_move((10, 10), 1000);
    assert!(!tracker.update_topology(vec![entry("a", 0)]));
    assert_eq!(tracker.expected_position, Some((10, 10)));
    assert!(tracker.suppress_persistence(2500));
    assert!(tracker.consume_programmatic_move((12, 8)));
    assert!(!tracker.consume_programmatic_move((12, 8)));
    tracker.mark_programmatic_move((10, 10), 1000);
    assert!(!tracker.suppress_persistence(3001));
    assert!(tracker.expected_position.is_none());
    tracker.mark_programmatic_move((10, 10), 1000);
    assert!(tracker.update_topology(vec![entry("a", 0), entry("b", 100)]));
    assert!(tracker.expected_position.is_none());
    assert!(tracker.set_toolbar_placement(ToolbarPlacement::Bottom));
    assert!(!tracker.set_toolbar_placement(ToolbarPlacement::Bottom));
}

#[test]
fn topology_is_sorted_by_identifier_then_position() {
    let sorted = sort_topology(&vec![entry("b", 0), entry("a", 50), entry("a", -10), entry("ab", 0)]);
    let keys: Vec<(String, i32)> = sorted.iter().map(|e| (e.id.clone(), e.x)).collect();
    assert_eq!(
        keys,
        vec![("a".to_string(), -10), ("a".to_string(), 50), ("ab".to_string(), 0), ("b".to_string(), 0)]
    );
}

#[test]
fn saved_positions() {
    assert_eq!(parse_i32(&chars_of("-2147483648")), Some(i32::MIN));
    assert_eq!(parse_i32(&chars_of("2147483648")), None);
    assert_eq!(parse_i32(&chars_of("+7")), Some(7));
    assert_eq!(parse_i32(&chars_of("-")), None);
    assert_eq!(parse_i32(&chars_of(" 1")), None);
    assert_eq!(parse_saved_position("120,-40"), Some((120, -40)));
    assert_eq!(parse_saved_position("120;40"), None);
    assert_eq!(parse_saved_position("1,2,3"), None);
    let monitors = vec![((0, 0), (1920, 1080)), ((1920, 0), (1280, 1024))];
    assert!(position_visible((2000, 10), &monitors));
    assert!(!position_visible((3200, 10), &monitors));
    assert!(!position_visible((-1, 10), &monitors));
}

#[test]
fn display_geometry() {
    assert_eq!(notch_monitor_id(Some("Built-in"), (0, -25), (3024, 1964)), "Built-in@0,-25:3024x1964");
    assert_eq!(notch_monitor_id(None, (1, 2), (3, 4)), "display@1,2:3x4");
    assert_eq!(notch_window_position((100, 0), 1000, 401), (399, 0));
    assert_eq!(primary_overlay_position((0, 25), 1440, 760), (340, 97));
    assert_eq!(nudged_position(false, (10, 10), 50, -3), Ok((30, 7)));
    assert_eq!(nudged_position(false, (i32::MAX, 0), 5, 0), Ok((i32::MAX, 0)));
    assert_eq!(nudged_position(true, (0, 0), 1, 1).unwrap_err(), "请先解锁歌词浮窗");
}
