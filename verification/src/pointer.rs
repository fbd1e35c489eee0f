use vstd::prelude::*;

use crate::overlay::stable_overlay_hover;

verus! {

/// How long the unlock handle stays after the pointer left the lyrics
/// window, in milliseconds.
pub const UNLOCK_HANDLE_HIDE_DELAY_MS: u64 = 200;

/// What the pointer monitor remembers between two samples.
#[derive(Debug, Clone, Copy, PartialEq, Eq, Structural)]
pub struct PointerMonitorState {
    pub last_inside_ms: Option<u64>,
    pub last_handle_hovered: Option<bool>,
    pub last_overlay_hovered: Option<bool>,
}

/// What to do with the unlock handle after a sample.
#[derive(Debug, Clone, Copy, PartialEq, Eq, Structural)]
pub struct HandleStep {
    /// Whether the handle should be shown.
    pub show: bool,
    /// The hover state to announce, when it changed.
    pub hover_event: Option<bool>,
}

/// The hover state a sample gives the lyrics window: only an unlocked,
/// shown window is hovered, and the state holds while a button is pressed.
pub open spec fn overlay_hover_spec(
    last: Option<bool>,
    overlay_visible: bool,
    visible: bool,
    locked: bool,
    pointer_inside: bool,
    mouse_pressed: bool,
) -> bool {
    let sampled = overlay_visible && visible && !locked && pointer_inside;
    let pressed = overlay_visible && visible && !locked && mouse_pressed;
    if pressed {
        match last {
            Some(p) => p,
            None => sampled,
        }
    } else {
        sampled
    }
}

/// Whether a time lies within the hide delay after the last time the
/// pointer was inside.
pub open spec fn within_hide_delay(last_inside: Option<u64>, now_ms: u64) -> bool {
    last_inside matches Some(t) && (if now_ms >= t {
        now_ms - t
    } else {
        0
    }) < UNLOCK_HANDLE_HIDE_DELAY_MS
}

impl PointerMonitorState {
    /// Nothing seen yet.
    pub fn new() -> (r: Self)
        ensures
            r.last_inside_ms is None,
            r.last_handle_hovered is None,
            r.last_overlay_hovered is None,
    {
        PointerMonitorState { last_inside_ms: None, last_handle_hovered: None, last_overlay_hovered: None }
    }

    /// Updates the hover state of the lyrics window from a sample; returns
    /// the state to announce when it changed. `pointer_inside` is `None`
    /// when the pointer or the window could not be read.
    pub fn overlay_hover(
        &mut self,
        overlay_visible: bool,
        visible: bool,
        locked: bool,
        pointer_inside: Option<bool>,
        mouse_pressed: bool,
    ) -> (r: Option<bool>)
        ensures
            ({
                let h = overlay_hover_spec(
                    old(self).last_overlay_hovered,
                    overlay_visible,
                    visible,
                    locked,
                    pointer_inside == Some(true),
                    mouse_pressed,
                );
                &&& final(self).last_overlay_hovered == Some(h)
                &&& r == if old(self).last_overlay_hovered == Some(h) {
                    None
                } else {
                    Some(h)
                }
                &&& final(self).last_inside_ms == old(self).last_inside_ms
                &&& final(self).last_handle_hovered == old(self).last_handle_hovered
            }),
    {
        let inside = match pointer_inside {
            Some(b) => b,
            None => false,
        };
        let sampled = overlay_visible && visible && !locked && inside;
        let hovered = stable_overlay_hover(
            self.last_overlay_hovered,
            sampled,
            overlay_visible && visible && !locked && mouse_pressed,
        );
        let changed = match self.last_overlay_hovered {
            Some(p) => p != hovered,
            None => true,
        };
        self.last_overlay_hovered = Some(hovered);
        if changed {
            Some(hovered)
        } else {
            None
        }
    }

    /// Decides the unlock handle from a sample taken at `now_ms`. The handle
    /// exists only while the shown lyrics window is locked; then it shows
    /// while the pointer is inside the window or left it less than 200 ms
    /// ago, and when the pointer cannot be read. `sample` holds whether the
    /// pointer is inside the window and inside the handle.
    pub fn unlock_handle(
        &mut self,
        visible: bool,
        locked: bool,
        overlay_visible: bool,
        sample: Option<(bool, bool)>,
        now_ms: u64,
    ) -> (r: HandleStep)
        ensures
            !visible || !locked || !overlay_visible ==> {
                &&& !r.show
                &&& final(self).last_inside_ms is None
                &&& final(self).last_handle_hovered == Some(false)
                &&& r.hover_event == if old(self).last_handle_hovered == Some(false) {
                    None
                } else {
                    Some(false)
                }
            },
            visible && locked && overlay_visible ==> match sample {
                None => {
                    &&& r.show
                    &&& final(self).last_inside_ms is None
                    &&& final(self).last_handle_hovered == Some(false)
                    &&& r.hover_event == if old(self).last_handle_hovered == Some(false) {
                        None
                    } else {
                        Some(false)
                    }
                },
                Some((inside, on_handle)) => {
                    let last = if inside {
                        Some(now_ms)
                    } else {
                        old(self).last_inside_ms
                    };
                    let show = inside || within_hide_delay(last, now_ms);
                    let hovered = show && inside && on_handle;
                    &&& r.show == show
                    &&& final(self).last_inside_ms == last
                    &&& final(self).last_handle_hovered == Some(hovered)
                    &&& r.hover_event == if old(self).last_handle_hovered == Some(hovered) {
                        None
                    } else {
                        Some(hovered)
                    }
                },
            },
            final(self).last_overlay_hovered == old(self).last_overlay_hovered,
    {
        let (show, hovered) = if !visible || !locked || !overlay_visible {
            self.last_inside_ms = None;
            (false, false)
        } else {
            match sample {
                None => {
                    self.last_inside_ms = None;
                    (true, false)
                },
                Some((inside, on_handle)) => {
                    if inside {
                        self.last_inside_ms = Some(now_ms);
                    }
                    let within = match self.last_inside_ms {
                        Some(t) => {
                            let elapsed = if now_ms >= t {
                                now_ms - t
                            } else {
                                0
                            };
                            elapsed < UNLOCK_HANDLE_HIDE_DELAY_MS
                        },
                        None => false,
                    };
                    let show = inside || within;
                    (show, show && inside && on_handle)
                },
            }
        };
        let changed = match self.last_handle_hovered {
            Some(p) => p != hovered,
            None => true,
        };
        self.last_handle_hovered = Some(hovered);
        HandleStep {
            show,
            hover_event: if changed {
                Some(hovered)
            } else {
                None
            },
        }
    }
}

} // verus!
