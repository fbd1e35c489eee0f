use vstd::prelude::*;

use crate::player::PlaybackSnapshot;
use crate::text::{chars_of, push_str, string_from_chars};

verus! {

/// A page of the settings window.
#[derive(Debug, Clone, Copy, PartialEq, Eq, Structural)]
pub enum SettingsSection {
    Style,
    Display,
    Lyrics,
    Player,
    Application,
    About,
}

/// The lyrics display whose style is being edited.
#[derive(Debug, Clone, Copy, PartialEq, Eq, Structural)]
pub enum LyricsStyleMode {
    Desktop,
    StatusBar,
    ListWindow,
    Notch,
}

/// The name of a style mode in the settings route.
pub open spec fn style_mode_name(mode: LyricsStyleMode) -> Seq<char> {
    match mode {
        LyricsStyleMode::Desktop => "desktop"@,
        LyricsStyleMode::StatusBar => "statusBar"@,
        LyricsStyleMode::ListWindow => "listWindow"@,
        LyricsStyleMode::Notch => "notch"@,
    }
}

/// The settings route that opens the style page of a lyrics display.
pub fn style_settings_route(mode: LyricsStyleMode) -> (r: String)
    ensures
        r@ == "#/settings/style?mode="@ + style_mode_name(mode),
{
    let name = match mode {
        LyricsStyleMode::Desktop => "desktop",
        LyricsStyleMode::StatusBar => "statusBar",
        LyricsStyleMode::ListWindow => "listWindow",
        LyricsStyleMode::Notch => "notch",
    };
    let mut out: Vec<char> = Vec::new();
    push_str(&mut out, "#/settings/style?mode=");
    push_str(&mut out, name);
    string_from_chars(&out)
}

/// The edge of the lyrics window that the user drags.
#[derive(Debug, Clone, Copy, PartialEq, Eq, Structural)]
pub enum OverlayResizeEdge {
    Left,
    Right,
    Top,
    Bottom,
}

/// An exported configuration file: its suggested name and its text.
#[derive(Debug, Clone)]
pub struct ConfigExport {
    pub file_name: String,
    pub raw: String,
}

/// The size the notch lyrics window took, in physical pixels, and whether it
/// changed.
#[derive(Debug, Clone, Copy, PartialEq, Eq, Structural)]
pub struct NotchWindowFitResult {
    pub physical_width: u32,
    pub physical_height: u32,
    pub size_changed: bool,
}

/// The distance between two sizes along one axis.
pub open spec fn abs_diff(a: u32, b: u32) -> nat {
    if a >= b {
        (a - b) as nat
    } else {
        (b - a) as nat
    }
}

/// Settles the notch window on its next size: the size counts as changed
/// when either side moves by more than one pixel.
pub fn notch_fit_result(current: (u32, u32), next: (u32, u32)) -> (r: NotchWindowFitResult)
    ensures
        r.physical_width == next.0,
        r.physical_height == next.1,
        r.size_changed == (abs_diff(current.0, next.0) > 1 || abs_diff(current.1, next.1) > 1),
{
    let dw = if current.0 >= next.0 {
        current.0 - next.0
    } else {
        next.0 - current.0
    };
    let dh = if current.1 >= next.1 {
        current.1 - next.1
    } else {
        next.1 - current.1
    };
    NotchWindowFitResult { physical_width: next.0, physical_height: next.1, size_changed: dw > 1 || dh > 1 }
}

/// Whether the notch window's frame is set again: when its size changed or
/// it is not where it belongs.
pub fn notch_frame_needs_update(size_changed: bool, current_position: (i32, i32), next_position: (
    i32,
    i32,
)) -> (r: bool)
    ensures
        r == (size_changed || current_position != next_position),
{
    size_changed || current_position.0 != next_position.0 || current_position.1 != next_position.1
}

/// The message shown while a laboratory client has no state from its server.
pub open spec fn client_waiting_message() -> Seq<char> {
    "实验室客户端尚未连接服务端"@
}

/// The playback a laboratory client shows: the server's, or an unavailable
/// snapshot while none arrived.
pub fn client_playback_snapshot(remote: Option<PlaybackSnapshot>) -> (r: PlaybackSnapshot)
    ensures
        match remote {
            Some(p) => r == p,
            None => r.is_unavailable(None, crate::player::PlaybackErrorCode::Unavailable, client_waiting_message()),
        },
{
    match remote {
        Some(p) => p,
        None => PlaybackSnapshot::unavailable(None, string_from_chars(&chars_of("实验室客户端尚未连接服务端"))),
    }
}

} // verus!
