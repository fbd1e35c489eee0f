use vstd::prelude::*;

use crate::lyrics::next_counter;
use crate::player::PlaybackSnapshot;
use crate::text::{trim_spec, trim_str};

verus! {

/// A display that can hide while nothing plays is shown when it is enabled
/// and either it does not hide or something plays.
pub open spec fn display_shown(enabled: bool, hide_when_not_playing: bool, is_playing: bool) -> bool {
    enabled && (!hide_when_not_playing || is_playing)
}

/// Whether the menu-bar lyrics window is shown.
pub fn show_status_bar(enabled: bool, hide_when_not_playing: bool, is_playing: bool) -> (r: bool)
    ensures
        r == display_shown(enabled, hide_when_not_playing, is_playing),
{
    enabled && (!hide_when_not_playing || is_playing)
}

/// A snapshot has a track when its title is not blank.
pub open spec fn has_track_spec(snapshot: PlaybackSnapshot) -> bool {
    snapshot.title matches Some(t) && trim_spec(t@).len() > 0
}

/// Whether the playback names a track.
pub fn playback_has_track(snapshot: &PlaybackSnapshot) -> (r: bool)
    ensures
        r == has_track_spec(*snapshot),
{
    match &snapshot.title {
        Some(t) => trim_str(t.as_str()).len() > 0,
        None => false,
    }
}

/// The notch lyrics are shown when they are enabled, a track is known, and
/// they do not hide while nothing plays (or something plays).
pub open spec fn notch_shown(enabled: bool, hide_when_not_playing: bool, snapshot: PlaybackSnapshot) -> bool {
    enabled && has_track_spec(snapshot) && (!hide_when_not_playing || snapshot.is_playing)
}

/// Whether the notch lyrics window is shown.
pub fn show_notch(enabled: bool, hide_when_not_playing: bool, snapshot: &PlaybackSnapshot) -> (r: bool)
    ensures
        r == notch_shown(enabled, hide_when_not_playing, *snapshot),
{
    enabled && playback_has_track(snapshot) && (!hide_when_not_playing || snapshot.is_playing)
}

/// Whether a notch window whose exit animation ended is still to be hidden:
/// the settings or the playback may have changed meanwhile.
pub fn notch_should_still_hide(enabled: bool, hide_when_not_playing: bool, snapshot: &PlaybackSnapshot) -> (r:
    bool)
    ensures
        r == (!enabled || !has_track_spec(*snapshot) || (hide_when_not_playing
            && !snapshot.is_playing)),
{
    !enabled || !playback_has_track(snapshot) || (hide_when_not_playing && !snapshot.is_playing)
}

/// The notch window finishes hiding exactly when it would not be shown.
pub proof fn still_hide_is_not_shown(enabled: bool, hide_when_not_playing: bool, snapshot: PlaybackSnapshot)
    ensures
        (!enabled || !has_track_spec(snapshot) || (hide_when_not_playing && !snapshot.is_playing))
            == !notch_shown(enabled, hide_when_not_playing, snapshot),
{
}

/// Whether the notch window should be visible, and a counter that changes
/// with every change of that target.
#[derive(Debug, Clone, Copy, PartialEq, Eq, Structural)]
pub struct NotchVisibility {
    pub target_visible: bool,
    pub generation: u64,
}

impl NotchVisibility {
    /// Hidden, generation zero.
    pub fn new() -> (r: Self)
        ensures
            !r.target_visible,
            r.generation == 0,
    {
        NotchVisibility { target_visible: false, generation: 0 }
    }

    /// Sets the target; says whether it changed and gives the generation
    /// after the call.
    pub fn retarget(&mut self, show: bool) -> (r: (bool, u64))
        ensures
            old(self).target_visible != show ==> final(self).target_visible == show
                && final(self).generation == next_counter(old(self).generation) && r == (
            true,
            final(self).generation,
        ),
            old(self).target_visible == show ==> *final(self) == *old(self) && r == (
                false,
                old(self).generation,
            ),
    {
        if self.target_visible != show {
            self.target_visible = show;
            self.generation = if self.generation == u64::MAX {
                0
            } else {
                self.generation + 1
            };
            (true, self.generation)
        } else {
            (false, self.generation)
        }
    }

    /// Whether a hide that began at `generation` is still the latest wish.
    pub fn hide_is_current(&self, generation: u64) -> (r: bool)
        ensures
            r == (!self.target_visible && self.generation == generation),
    {
        !self.target_visible && self.generation == generation
    }
}

/// A hide begun before the target changed again is no longer current.
pub proof fn retarget_cancels_pending_hide(v: NotchVisibility, pending: u64)
    requires
        v.generation == pending,
    ensures
        next_counter(v.generation) != pending,
{
}

} // verus!
