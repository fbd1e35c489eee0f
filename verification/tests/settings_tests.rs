use lyrics_plus::player::{PlaybackErrorCode, PlaybackSnapshot};
use lyrics_plus::settings::{
    client_playback_snapshot, notch_fit_result, notch_frame_needs_update, style_settings_route,
    LyricsStyleMode, NotchWindowFitResult,
};
use lyrics_plus::surfaces::{
    notch_should_still_hide, playback_has_track, show_notch, show_status_bar, NotchVisibility,
};

#[test]
fn style_routes() {
    assert_eq!(style_settings_route(LyricsStyleMode::StatusBar), "#/settings/style?mode=statusBar");
    assert_eq!(style_settings_route(LyricsStyleMode::Notch), "#/settings/style?mode=notch");
}

#[test]
fn notch_fit() {
    assert_eq!(
        notch_fit_result((300, 80), (301, 79)),
        NotchWindowFitResult { physical_width: 301, physical_height: 79, size_changed: false }
    );
    assert!(notch_fit_result((300, 80), (302, 80)).size_changed);
    assert!(notch_frame_needs_update(false, (0, 0), (0, 1)));
    assert!(!notch_frame_needs_update(false, (3, 4), (3, 4)));
}

#[test]
fn client_playback_waits_for_the_server() {
    let waiting = client_playback_snapshot(None);
    assert_eq!(waiting.error.as_deref(), Some("实验室客户端尚未连接服务端"));
    assert_eq!(waiting.error_code, Some(PlaybackErrorCode::Unavailable));
    let mut remote = PlaybackSnapshot::default();
    remote.title = Some("Song".into());
    assert_eq!(client_playback_snapshot(Some(remote)).title.as_deref(), Some("Song"));
}

#[test]
fn lyrics_surfaces() {
    assert!(show_status_bar(true, true, true));
    assert!(!show_status_bar(true, true, false));
    assert!(show_status_bar(true, false, false));
    let mut snapshot = PlaybackSnapshot::default();
    snapshot.title = Some("  ".into());
    assert!(!playback_has_track(&snapshot));
    snapshot.title = Some("Song".into());
    snapshot.is_playing = false;
    assert!(show_notch(true, false, &snapshot));
    assert!(!show_notch(true, true, &snapshot));
    assert_eq!(notch_should_still_hide(true, true, &snapshot), !show_notch(true, true, &snapshot));
    let mut visibility = NotchVisibility::new();
    assert_eq!(visibility.retarget(true), (true, 1));
    assert_eq!(visibility.retarget(true), (false, 1));
    assert_eq!(visibility.retarget(false), (true, 2));
    assert!(visibility.hide_is_current(2));
    visibility.retarget(true);
    assert!(!visibility.hide_is_current(2));
}
