use lyrics_plus::pointer::{HandleStep, PointerMonitorState};
use lyrics_plus::web::content_type;

#[test]
fn overlay_hover_reports_changes_only() {
    let mut state = PointerMonitorState::new();
    assert_eq!(state.overlay_hover(true, true, false, Some(true), false), Some(true));
    assert_eq!(state.overlay_hover(true, true, false, Some(true), false), None);
    // A pressed button keeps the last state while the pointer leaves.
    assert_eq!(state.overlay_hover(true, true, false, Some(false), true), None);
    assert_eq!(state.overlay_hover(true, true, false, Some(false), false), Some(false));
    // A locked window is never hovered.
    assert_eq!(state.overlay_hover(true, true, true, Some(true), false), None);
    assert_eq!(state.overlay_hover(true, true, false, None, false), None);
}

#[test]
fn unlock_handle_lingers_after_leaving() {
    let mut state = PointerMonitorState::new();
    assert_eq!(
        state.unlock_handle(true, true, true, Some((true, true)), 1000),
        HandleStep { show: true, hover_event: Some(true) }
    );
    assert_eq!(
        state.unlock_handle(true, true, true, Some((false, false)), 1150),
        HandleStep { show: true, hover_event: Some(false) }
    );
    assert_eq!(
        state.unlock_handle(true, true, true, Some((false, false)), 1200),
        HandleStep { show: false, hover_event: None }
    );
    assert_eq!(
        state.unlock_handle(true, true, true, None, 1300),
        HandleStep { show: true, hover_event: None }
    );
    assert_eq!(
        state.unlock_handle(true, false, true, Some((true, true)), 1400),
        HandleStep { show: false, hover_event: None }
    );
    assert_eq!(state.last_inside_ms, None);
}

#[test]
fn theme_content_types() {
    assert_eq!(content_type("html"), "text/html; charset=utf-8");
    assert_eq!(content_type("mjs"), "text/javascript; charset=utf-8");
    assert_eq!(content_type("woff2"), "font/woff2");
    assert_eq!(content_type("HTML"), "application/octet-stream");
    assert_eq!(content_type(""), "application/octet-stream");
}
