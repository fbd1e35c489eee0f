use vstd::prelude::*;

verus! {

/// How the floating lyrics window paints its background.
#[derive(Debug, Clone, Copy, PartialEq, Eq, Structural)]
pub enum OverlayBackground {
    Glass,
    Transparent,
    Solid,
}

impl Default for OverlayBackground {
    fn default() -> (r: Self)
        ensures
            r == OverlayBackground::Glass,
    {
        OverlayBackground::Glass
    }
}

/// Whether a solid background is drawn at all.
#[derive(Debug, Clone, Copy, PartialEq, Eq, Structural)]
pub enum OverlayBackgroundMode {
    Solid,
    Transparent,
}

impl Default for OverlayBackgroundMode {
    fn default() -> (r: Self)
        ensures
            r == OverlayBackgroundMode::Solid,
    {
        OverlayBackgroundMode::Solid
    }
}

/// One or two lines of lyrics.
#[derive(Debug, Clone, Copy, PartialEq, Eq, Structural)]
pub enum OverlayLayout {
    Single,
    Double,
}

impl Default for OverlayLayout {
    fn default() -> (r: Self)
        ensures
            r == OverlayLayout::Single,
    {
        OverlayLayout::Single
    }
}

/// How two lines take turns.
#[derive(Debug, Clone, Copy, PartialEq, Eq, Structural)]
pub enum DoubleLineMode {
    Rolling,
    Alternating,
}

impl Default for DoubleLineMode {
    fn default() -> (r: Self)
        ensures
            r == DoubleLineMode::Rolling,
    {
        DoubleLineMode::Rolling
    }
}

/// The direction in which the lyrics run.
#[derive(Debug, Clone, Copy, PartialEq, Eq, Structural)]
pub enum OverlayOrientation {
    Horizontal,
    Vertical,
}

impl Default for OverlayOrientation {
    fn default() -> (r: Self)
        ensures
            r == OverlayOrientation::Horizontal,
    {
        OverlayOrientation::Horizontal
    }
}

/// How the lines are aligned inside the window.
#[derive(Debug, Clone, Copy, PartialEq, Eq, Structural)]
pub enum OverlayAlignment {
    Center,
    Distributed,
    Start,
    End,
}

impl Default for OverlayAlignment {
    fn default() -> (r: Self)
        ensures
            r == OverlayAlignment::Center,
    {
        OverlayAlignment::Center
    }
}

/// Which of the two lines carries the current lyric.
#[derive(Debug, Clone, Copy, PartialEq, Eq, Structural)]
pub enum PrimaryLinePosition {
    First,
    Second,
}

impl Default for PrimaryLinePosition {
    fn default() -> (r: Self)
        ensures
            r == PrimaryLinePosition::First,
    {
        PrimaryLinePosition::First
    }
}

/// What happens to a line that does not fit.
#[derive(Debug, Clone, Copy, PartialEq, Eq, Structural)]
pub enum LongTextMode {
    Shrink,
    Wrap,
    Marquee,
}

impl Default for LongTextMode {
    fn default() -> (r: Self)
        ensures
            r == LongTextMode::Shrink,
    {
        LongTextMode::Shrink
    }
}

/// How sung words are highlighted; `Fill` is an older name of `Sweep`.
#[derive(Debug, Clone, Copy, PartialEq, Eq, Structural)]
pub enum KaraokeStyle {
    Sweep,
    Fill,
    Bounce,
    Highlight,
}

impl Default for KaraokeStyle {
    fn default() -> (r: Self)
        ensures
            r == KaraokeStyle::Sweep,
    {
        KaraokeStyle::Sweep
    }
}

/// What the second line shows; `Legacy` defers to the older on/off switches.
#[derive(Debug, Clone, Copy, PartialEq, Eq, Structural)]
pub enum SecondaryDisplayMode {
    Legacy,
    Next,
    Translation,
    Romanization,
    TranslationRomanization,
}

impl Default for SecondaryDisplayMode {
    fn default() -> (r: Self)
        ensures
            r == SecondaryDisplayMode::Legacy,
    {
        SecondaryDisplayMode::Legacy
    }
}

/// The second-line mode assumed for settings stored before the mode existed.
pub fn legacy_secondary_display() -> (r: SecondaryDisplayMode)
    ensures
        r == SecondaryDisplayMode::Legacy,
{
    SecondaryDisplayMode::Legacy
}

/// The side of the lyrics window that holds its toolbar.
#[derive(Debug, Clone, Copy, PartialEq, Eq, Structural)]
pub enum ToolbarPlacement {
    Top,
    Bottom,
    Left,
    Right,
}

impl Default for ToolbarPlacement {
    fn default() -> (r: Self)
        ensures
            r == ToolbarPlacement::Top,
    {
        ToolbarPlacement::Top
    }
}

/// A toolbar side suits an orientation when it runs along the lyrics.
pub open spec fn placement_fits(orientation: OverlayOrientation, placement: ToolbarPlacement) -> bool {
    match orientation {
        OverlayOrientation::Horizontal => placement is Top || placement is Bottom,
        OverlayOrientation::Vertical => placement is Left || placement is Right,
    }
}

pub open spec fn for_orientation_spec(orientation: OverlayOrientation) -> ToolbarPlacement {
    match orientation {
        OverlayOrientation::Horizontal => ToolbarPlacement::Top,
        OverlayOrientation::Vertical => ToolbarPlacement::Right,
    }
}

pub open spec fn normalized_placement(
    placement: ToolbarPlacement,
    orientation: OverlayOrientation,
) -> ToolbarPlacement {
    if placement_fits(orientation, placement) {
        placement
    } else {
        for_orientation_spec(orientation)
    }
}

impl ToolbarPlacement {
    /// The toolbar side used when nothing else is known: above horizontal
    /// lyrics, right of vertical ones.
    pub fn for_orientation(orientation: OverlayOrientation) -> (r: Self)
        ensures
            r == for_orientation_spec(orientation),
    {
        match orientation {
            OverlayOrientation::Horizontal => ToolbarPlacement::Top,
            OverlayOrientation::Vertical => ToolbarPlacement::Right,
        }
    }

    /// Keeps a side that suits the orientation, and replaces any other by the
    /// orientation's default side.
    pub fn normalized(self, orientation: OverlayOrientation) -> (r: Self)
        ensures
            r == normalized_placement(self, orientation),
    {
        match (orientation, self) {
            (OverlayOrientation::Horizontal, ToolbarPlacement::Top)
            | (OverlayOrientation::Horizontal, ToolbarPlacement::Bottom)
            | (OverlayOrientation::Vertical, ToolbarPlacement::Left)
            | (OverlayOrientation::Vertical, ToolbarPlacement::Right) => self,
            _ => ToolbarPlacement::for_orientation(orientation),
        }
    }
}

/// A normalized toolbar side always suits the orientation, a side that already
/// suits it is kept, and normalizing twice changes nothing.
pub proof fn normalized_placement_laws(placement: ToolbarPlacement, orientation: OverlayOrientation)
    ensures
        placement_fits(orientation, normalized_placement(placement, orientation)),
        placement_fits(orientation, placement) ==> normalized_placement(placement, orientation)
            == placement,
        normalized_placement(normalized_placement(placement, orientation), orientation)
            == normalized_placement(placement, orientation),
        placement_fits(orientation, for_orientation_spec(orientation)),
{
}

/// The settings window opens at start unless the notice was accepted and a
/// silent start was asked for.
pub fn should_show_main_window(notice_accepted: bool, silent_startup: bool) -> (r: bool)
    ensures
        r == (!notice_accepted || !silent_startup),
{
    !notice_accepted || !silent_startup
}

/// While the mouse button is held the hover state does not change; otherwise
/// it follows the sample.
pub fn stable_overlay_hover(previous: Option<bool>, sampled: bool, mouse_pressed: bool) -> (r: bool)
    ensures
        r == if mouse_pressed {
            match previous {
                Some(p) => p,
                None => sampled,
            }
        } else {
            sampled
        },
{
    if mouse_pressed {
        match previous {
            Some(p) => p,
            None => sampled,
        }
    } else {
        sampled
    }
}

/// `a + b` held to the range of `i32`.
pub open spec fn clamp_i32(v: int) -> int {
    if v > i32::MAX {
        i32::MAX as int
    } else if v < i32::MIN {
        i32::MIN as int
    } else {
        v
    }
}

/// `a - b` for unsigned values, never below zero.
pub open spec fn sat_sub_u32(a: int, b: int) -> int {
    if a >= b {
        a - b
    } else {
        0
    }
}

/// `a + b` for unsigned values, never above `u32::MAX`.
pub open spec fn sat_add_u32(a: int, b: int) -> int {
    if a + b > u32::MAX {
        u32::MAX as int
    } else {
        a + b
    }
}

/// The signed 32-bit value with the same bits as the unsigned value `v`.
pub open spec fn wrap_to_i32(v: int) -> int {
    if v <= i32::MAX {
        v
    } else {
        v - 0x1_0000_0000
    }
}

pub open spec fn min_int(a: int, b: int) -> int {
    if a <= b {
        a
    } else {
        b
    }
}

fn saturating_add_i32(a: i32, b: i32) -> (r: i32)
    ensures
        r == clamp_i32(a + b),
{
    let s: i64 = a as i64 + b as i64;
    if s > 0x7fff_ffff {
        0x7fff_ffff
    } else if s < -0x8000_0000 {
        -0x8000_0000
    } else {
        s as i32
    }
}

fn saturating_sub_i32(a: i32, b: i32) -> (r: i32)
    ensures
        r == clamp_i32(a - b),
{
    let s: i64 = a as i64 - b as i64;
    if s > 0x7fff_ffff {
        0x7fff_ffff
    } else if s < -0x8000_0000 {
        -0x8000_0000
    } else {
        s as i32
    }
}

fn bits_as_i32(v: u32) -> (r: i32)
    ensures
        r == wrap_to_i32(v as int),
{
    if v <= 0x7fff_ffff {
        v as i32
    } else {
        let w: i64 = v as i64 - 0x1_0000_0000;
        w as i32
    }
}

/// Where the top-left corner of a window goes so that it is centred in the
/// work area; the free room is halved downwards.
pub open spec fn centered_spec(work_start: int, work_extent: int, window_extent: int) -> int {
    work_start + sat_sub_u32(work_extent, window_extent) / 2
}

/// Centres a window of size `window_size` in the work area at `work_position`
/// with size `work_size`.
pub fn centered_position(work_position: (i32, i32), work_size: (u32, u32), window_size: (u32, u32)) -> (r: (
    i32,
    i32,
))
    requires
        sat_sub_u32(work_size.0 as int, window_size.0 as int) <= i32::MAX,
        sat_sub_u32(work_size.1 as int, window_size.1 as int) <= i32::MAX,
        i32::MIN <= centered_spec(work_position.0 as int, work_size.0 as int, window_size.0 as int)
            <= i32::MAX,
        i32::MIN <= centered_spec(work_position.1 as int, work_size.1 as int, window_size.1 as int)
            <= i32::MAX,
    ensures
        r.0 == centered_spec(work_position.0 as int, work_size.0 as int, window_size.0 as int),
        r.1 == centered_spec(work_position.1 as int, work_size.1 as int, window_size.1 as int),
{
    let free_x = work_size.0.saturating_sub(window_size.0);
    let free_y = work_size.1.saturating_sub(window_size.1);
    let half_x = (free_x as i32) / 2;
    let half_y = (free_y as i32) / 2;
    (work_position.0 + half_x, work_position.1 + half_y)
}

/// How close, in pixels, the window must come to a work-area edge before the
/// toolbar moves to the other side.
pub const OVERLAY_EDGE_SNAP_DISTANCE: i32 = 12;

/// The toolbar side and window position after the user moved the lyrics
/// window: the toolbar flips to the opposite side when it would leave the work
/// area, and the window shifts by `inset` to keep the lyrics in place.
pub open spec fn placement_after_move_spec(
    orientation: OverlayOrientation,
    placement: ToolbarPlacement,
    position: (i32, i32),
    size: (u32, u32),
    inset: i32,
    work_position: (i32, i32),
    work_size: (u32, u32),
) -> (ToolbarPlacement, (i32, i32)) {
    let p = normalized_placement(placement, orientation);
    let snap = OVERLAY_EDGE_SNAP_DISTANCE as int;
    match (orientation, p) {
        (OverlayOrientation::Horizontal, ToolbarPlacement::Top) => if position.1 <= clamp_i32(
            work_position.1 + snap,
        ) {
            (ToolbarPlacement::Bottom, (position.0, clamp_i32(position.1 + inset) as i32))
        } else {
            (p, position)
        },
        (OverlayOrientation::Horizontal, ToolbarPlacement::Bottom) => if position.1 + size.1
            >= work_position.1 + work_size.1 - snap {
            (ToolbarPlacement::Top, (position.0, clamp_i32(position.1 - inset) as i32))
        } else {
            (p, position)
        },
        (OverlayOrientation::Vertical, ToolbarPlacement::Right) => if position.0 + size.0
            >= work_position.0 + work_size.0 - snap {
            (ToolbarPlacement::Left, (clamp_i32(position.0 - inset) as i32, position.1))
        } else {
            (p, position)
        },
        (OverlayOrientation::Vertical, ToolbarPlacement::Left) => if position.0 <= work_position.0
            + snap {
            (ToolbarPlacement::Right, (clamp_i32(position.0 + inset) as i32, position.1))
        } else {
            (p, position)
        },
        _ => (p, position),
    }
}

/// Decides the toolbar side after a move of the lyrics window. `inset` is the
/// distance between the window edge and the lyrics surface, in pixels.
pub fn toolbar_placement_after_move(
    orientation: OverlayOrientation,
    placement: ToolbarPlacement,
    position: (i32, i32),
    size: (u32, u32),
    inset: i32,
    work_position: (i32, i32),
    work_size: (u32, u32),
) -> (r: (ToolbarPlacement, (i32, i32)))
    ensures
        r == placement_after_move_spec(
            orientation,
            placement,
            position,
            size,
            inset,
            work_position,
            work_size,
        ),
        placement_fits(orientation, r.0),
{
    let placement = placement.normalized(orientation);
    match (orientation, placement) {
        (OverlayOrientation::Horizontal, ToolbarPlacement::Top) => {
            if position.1 <= saturating_add_i32(work_position.1, OVERLAY_EDGE_SNAP_DISTANCE) {
                (ToolbarPlacement::Bottom, (position.0, saturating_add_i32(position.1, inset)))
            } else {
                (placement, position)
            }
        },
        (OverlayOrientation::Horizontal, ToolbarPlacement::Bottom) => {
            let window_bottom: i64 = position.1 as i64 + size.1 as i64;
            let work_bottom: i64 = work_position.1 as i64 + work_size.1 as i64;
            if window_bottom >= work_bottom - OVERLAY_EDGE_SNAP_DISTANCE as i64 {
                (ToolbarPlacement::Top, (position.0, saturating_sub_i32(position.1, inset)))
            } else {
                (placement, position)
            }
        },
        (OverlayOrientation::Vertical, ToolbarPlacement::Right) => {
            let window_right: i64 = position.0 as i64 + size.0 as i64;
            let work_right: i64 = work_position.0 as i64 + work_size.0 as i64;
            if window_right >= work_right - OVERLAY_EDGE_SNAP_DISTANCE as i64 {
                (ToolbarPlacement::Left, (saturating_sub_i32(position.0, inset), position.1))
            } else {
                (placement, position)
            }
        },
        (OverlayOrientation::Vertical, ToolbarPlacement::Left) => {
            if position.0 as i64 <= work_position.0 as i64 + OVERLAY_EDGE_SNAP_DISTANCE as i64 {
                (ToolbarPlacement::Right, (saturating_add_i32(position.0, inset), position.1))
            } else {
                (placement, position)
            }
        },
        _ => (placement, position),
    }
}

/// Where the unlock handle sits next to the lyrics window: centred along the
/// toolbar side, `background_gap` pixels outside the lyrics surface, and never
/// past the far edge of the window.
pub open spec fn unlock_handle_spec(
    placement: ToolbarPlacement,
    overlay_position: (i32, i32),
    overlay_size: (u32, u32),
    handle_size: (u32, u32),
    surface_inset: u32,
    background_gap: u32,
) -> (i32, i32) {
    let avail_w = sat_sub_u32(overlay_size.0 as int, handle_size.0 as int);
    let avail_h = sat_sub_u32(overlay_size.1 as int, handle_size.1 as int);
    let mid_x = clamp_i32(overlay_position.0 + avail_w / 2) as i32;
    let mid_y = clamp_i32(overlay_position.1 + avail_h / 2) as i32;
    let near_h = min_int(
        sat_sub_u32(sat_sub_u32(surface_inset as int, background_gap as int), handle_size.1 as int),
        avail_h,
    );
    let far_h = min_int(
        sat_add_u32(sat_sub_u32(overlay_size.1 as int, surface_inset as int), background_gap as int),
        avail_h,
    );
    let near_w = min_int(
        sat_sub_u32(sat_sub_u32(surface_inset as int, background_gap as int), handle_size.0 as int),
        avail_w,
    );
    let far_w = min_int(
        sat_add_u32(sat_sub_u32(overlay_size.0 as int, surface_inset as int), background_gap as int),
        avail_w,
    );
    match placement {
        ToolbarPlacement::Top => (mid_x, clamp_i32(overlay_position.1 + wrap_to_i32(near_h)) as i32),
        ToolbarPlacement::Bottom => (mid_x, clamp_i32(overlay_position.1 + wrap_to_i32(far_h)) as i32),
        ToolbarPlacement::Left => (clamp_i32(overlay_position.0 + wrap_to_i32(near_w)) as i32, mid_y),
        ToolbarPlacement::Right => (clamp_i32(overlay_position.0 + wrap_to_i32(far_w)) as i32, mid_y),
    }
}

/// Places the unlock handle of the lyrics window.
pub fn unlock_handle_position(
    placement: ToolbarPlacement,
    overlay_position: (i32, i32),
    overlay_size: (u32, u32),
    handle_size: (u32, u32),
    surface_inset: u32,
    background_gap: u32,
) -> (r: (i32, i32))
    ensures
        r == unlock_handle_spec(
            placement,
            overlay_position,
            overlay_size,
            handle_size,
            surface_inset,
            background_gap,
        ),
{
    let available_width = overlay_size.0.saturating_sub(handle_size.0);
    let available_height = overlay_size.1.saturating_sub(handle_size.1);
    let half_w = (available_width / 2) as i32;
    let half_h = (available_height / 2) as i32;
    match placement {
        ToolbarPlacement::Top => {
            let d = surface_inset.saturating_sub(background_gap).saturating_sub(handle_size.1);
            let d = if d <= available_height {
                d
            } else {
                available_height
            };
            (
                saturating_add_i32(overlay_position.0, half_w),
                saturating_add_i32(overlay_position.1, bits_as_i32(d)),
            )
        },
        ToolbarPlacement::Bottom => {
            let d = overlay_size.1.saturating_sub(surface_inset).saturating_add(background_gap);
            let d = if d <= available_height {
                d
            } else {
                available_height
            };
            (
                saturating_add_i32(overlay_position.0, half_w),
                saturating_add_i32(overlay_position.1, bits_as_i32(d)),
            )
        },
        ToolbarPlacement::Left => {
            let d = surface_inset.saturating_sub(background_gap).saturating_sub(handle_size.0);
            let d = if d <= available_width {
                d
            } else {
                available_width
            };
            (
                saturating_add_i32(overlay_position.0, bits_as_i32(d)),
                saturating_add_i32(overlay_position.1, half_h),
            )
        },
        ToolbarPlacement::Right => {
            let d = overlay_size.0.saturating_sub(surface_inset).saturating_add(background_gap);
            let d = if d <= available_width {
                d
            } else {
                available_width
            };
            (
                saturating_add_i32(overlay_position.0, bits_as_i32(d)),
                saturating_add_i32(overlay_position.1, half_h),
            )
        },
    }
}

/// The font list of the desktop lyrics when none is set.
pub open spec fn overlay_font_family() -> Seq<char> {
    "Inter, \"SF Pro Text\", \"SF Pro Display\", -apple-system, BlinkMacSystemFont, \"Segoe UI\", \"PingFang SC\", \"Hiragino Sans GB\", \"Microsoft YaHei\", \"Noto Sans CJK SC\", \"Noto Sans SC\", Arial, sans-serif"@
}

/// The desktop lyrics style without its fractional measures: the choices,
/// sizes, weights, fonts and colours.
#[derive(Debug, Clone)]
pub struct OverlayStyleChoices {
    pub font_family: String,
    pub font_size: u16,
    pub font_weight: u16,
    pub secondary_font_weight: u16,
    pub active_color: String,
    pub inactive_color: String,
    pub background_mode: OverlayBackgroundMode,
    pub background: OverlayBackground,
    pub solid_color: String,
    pub layout: OverlayLayout,
    pub double_line_mode: DoubleLineMode,
    pub orientation: OverlayOrientation,
    pub alignment: OverlayAlignment,
    pub primary_line_position: PrimaryLinePosition,
    pub long_text: LongTextMode,
    pub secondary_display: SecondaryDisplayMode,
    pub auto_center_with_translation_or_romanization: bool,
    pub translation_enabled: bool,
    pub romanization_enabled: bool,
    pub karaoke_style: KaraokeStyle,
    pub translation_color: String,
    pub romanization_color: String,
    pub text_shadow_color: String,
    pub text_stroke_color: String,
}

/// A colour, or its default when it is blank.
pub open spec fn color_or(value: Seq<char>, fallback: Seq<char>) -> Seq<char> {
    if crate::text::trim_spec(value).len() == 0 {
        fallback
    } else {
        value
    }
}

fn color_or_exec(value: String, fallback: &str) -> (r: String)
    ensures
        r@ == color_or(value@, fallback@),
{
    if crate::text::trim_str(value.as_str()).len() == 0 {
        crate::text::string_from_chars(&crate::text::chars_of(fallback))
    } else {
        value
    }
}

/// The second-line mode that stands for the older switches.
pub open spec fn resolved_secondary(mode: SecondaryDisplayMode, translation: bool, romanization: bool) -> SecondaryDisplayMode {
    if mode == SecondaryDisplayMode::Legacy {
        if translation {
            SecondaryDisplayMode::Translation
        } else if romanization {
            SecondaryDisplayMode::Romanization
        } else {
            SecondaryDisplayMode::Next
        }
    } else {
        mode
    }
}

/// `after` is the style `before` as it is kept (see `normalized`).
pub open spec fn style_normalized(before: OverlayStyleChoices, after: OverlayStyleChoices) -> bool {
    &&& (after.secondary_display == resolved_secondary(
        before.secondary_display,
        before.translation_enabled,
        before.romanization_enabled,
    ))
    &&& (after.font_size == crate::normalize::clamp_u16(before.font_size, 16, 72))
    &&& (crate::config::is_nearest_weight(after.font_weight as int, before.font_weight as int))
    &&& (crate::config::is_nearest_weight(
        after.secondary_font_weight as int,
        before.secondary_font_weight as int,
    ))
    &&& (before.background == OverlayBackground::Transparent ==> after.background
        == OverlayBackground::Solid && after.background_mode
        == OverlayBackgroundMode::Transparent)
    &&& (before.background != OverlayBackground::Transparent ==> after.background == before.background
        && after.background_mode == before.background_mode)
    &&& (after.karaoke_style == if before.karaoke_style == KaraokeStyle::Fill {
        KaraokeStyle::Sweep
    } else {
        before.karaoke_style
    })
    &&& (after.font_family@ == if crate::text::trim_spec(before.font_family@).len() == 0 {
        overlay_font_family()
    } else {
        crate::text::trim_spec(before.font_family@)
    })
    &&& (after.active_color@ == color_or(before.active_color@, "#a3e635"@))
    &&& (after.inactive_color@ == color_or(before.inactive_color@, "#ecfccb"@))
    &&& (after.solid_color@ == color_or(before.solid_color@, "#171821"@))
    &&& (after.translation_color@ == color_or(before.translation_color@, "#d9f99d"@))
    &&& (after.romanization_color@ == color_or(before.romanization_color@, "#bef264"@))
    &&& (after.text_shadow_color@ == color_or(before.text_shadow_color@, "rgba(0, 0, 0, 0.55)"@))
    &&& (after.text_stroke_color@ == color_or(before.text_stroke_color@, "#000000"@))
    &&& (after.layout == before.layout)
    &&& (after.double_line_mode == before.double_line_mode)
    &&& (after.orientation == before.orientation)
    &&& (after.alignment == before.alignment)
    &&& (after.primary_line_position == before.primary_line_position)
    &&& (after.long_text == before.long_text)
    &&& (after.auto_center_with_translation_or_romanization
        == before.auto_center_with_translation_or_romanization)
    &&& (after.translation_enabled == before.translation_enabled)
    &&& (after.romanization_enabled == before.romanization_enabled)
}

impl OverlayStyleChoices {
    /// The style as it is kept: the older second-line switches resolved, the
    /// font size between 16 and 72, weights snapped to offered ones, a
    /// transparent background turned into a transparent solid one, the older
    /// `Fill` karaoke style read as `Sweep`, the font list trimmed, and blank
    /// colours and fonts replaced by the defaults.
    pub fn normalized(self) -> (r: Self)
        ensures
            style_normalized(self, r),
    {
        let mut s = self;
        if s.secondary_display == SecondaryDisplayMode::Legacy {
            s.secondary_display = if s.translation_enabled {
                SecondaryDisplayMode::Translation
            } else if s.romanization_enabled {
                SecondaryDisplayMode::Romanization
            } else {
                SecondaryDisplayMode::Next
            };
        }
        s.font_size = if s.font_size < 16 {
            16
        } else if s.font_size > 72 {
            72
        } else {
            s.font_size
        };
        s.font_weight = crate::config::nearest_overlay_font_weight(s.font_weight);
        s.secondary_font_weight = crate::config::nearest_overlay_font_weight(s.secondary_font_weight);
        if s.background == OverlayBackground::Transparent {
            s.background = OverlayBackground::Solid;
            s.background_mode = OverlayBackgroundMode::Transparent;
        }
        if s.karaoke_style == KaraokeStyle::Fill {
            s.karaoke_style = KaraokeStyle::Sweep;
        }
        s.active_color = color_or_exec(s.active_color, "#a3e635");
        let family = crate::text::trim_str(s.font_family.as_str());
        s.font_family = if family.len() == 0 {
            crate::text::string_from_chars(&crate::text::chars_of("Inter, \"SF Pro Text\", \"SF Pro Display\", -apple-system, BlinkMacSystemFont, \"Segoe UI\", \"PingFang SC\", \"Hiragino Sans GB\", \"Microsoft YaHei\", \"Noto Sans CJK SC\", \"Noto Sans SC\", Arial, sans-serif"))
        } else {
            crate::text::string_from_chars(&family)
        };
        s.text_shadow_color = color_or_exec(s.text_shadow_color, "rgba(0, 0, 0, 0.55)");
        s.text_stroke_color = color_or_exec(s.text_stroke_color, "#000000");
        s.inactive_color = color_or_exec(s.inactive_color, "#ecfccb");
        s.solid_color = color_or_exec(s.solid_color, "#171821");
        s.translation_color = color_or_exec(s.translation_color, "#d9f99d");
        s.romanization_color = color_or_exec(s.romanization_color, "#bef264");
        s
    }
}

/// Normalizing the desktop lyrics style a second time changes nothing that
/// the first time fixed: the second-line mode is resolved, the karaoke style
/// is no longer `Fill`, and the background is no longer `Transparent`.
pub proof fn overlay_style_normalization_settles(
    mode: SecondaryDisplayMode,
    translation: bool,
    romanization: bool,
    size: u16,
)
    ensures
        resolved_secondary(resolved_secondary(mode, translation, romanization), translation, romanization)
            == resolved_secondary(mode, translation, romanization),
        resolved_secondary(mode, translation, romanization) != SecondaryDisplayMode::Legacy,
        crate::normalize::clamp_u16(crate::normalize::clamp_u16(size, 16, 72), 16, 72)
            == crate::normalize::clamp_u16(size, 16, 72),
{
}


/// A text that is not blank and has no white space at either end is its
/// own trim, and a colour that defaults to it settles.
proof fn lemma_color_or_settles(v: Seq<char>, d: Seq<char>)
    requires
        d.len() > 0,
        !crate::text::is_white_space(d[0]),
        !crate::text::is_white_space(d.last()),
    ensures
        color_or(color_or(v, d), d) == color_or(v, d),
{
    crate::text::lemma_trim_fixed(d);
}

/// Normalizing a normalized desktop lyrics style again changes nothing:
/// every choice, size and weight stays, and every font and colour keeps its
/// text.
pub proof fn overlay_style_normalization_is_idempotent(
    a: OverlayStyleChoices,
    b: OverlayStyleChoices,
    c: OverlayStyleChoices,
)
    requires
        style_normalized(a, b),
        style_normalized(b, c),
    ensures
        c.font_family@ == b.font_family@,
        c.font_size == b.font_size,
        c.font_weight == b.font_weight,
        c.secondary_font_weight == b.secondary_font_weight,
        c.active_color@ == b.active_color@,
        c.inactive_color@ == b.inactive_color@,
        c.background_mode == b.background_mode,
        c.background == b.background,
        c.solid_color@ == b.solid_color@,
        c.layout == b.layout,
        c.double_line_mode == b.double_line_mode,
        c.orientation == b.orientation,
        c.alignment == b.alignment,
        c.primary_line_position == b.primary_line_position,
        c.long_text == b.long_text,
        c.secondary_display == b.secondary_display,
        c.auto_center_with_translation_or_romanization == b.auto_center_with_translation_or_romanization,
        c.translation_enabled == b.translation_enabled,
        c.romanization_enabled == b.romanization_enabled,
        c.karaoke_style == b.karaoke_style,
        c.translation_color@ == b.translation_color@,
        c.romanization_color@ == b.romanization_color@,
        c.text_shadow_color@ == b.text_shadow_color@,
        c.text_stroke_color@ == b.text_stroke_color@,
{
    assert(crate::config::is_offered_weight(b.font_weight as int));
    assert(crate::config::is_offered_weight(b.secondary_font_weight as int));
    assert(crate::config::is_offered_weight(c.font_weight as int));
    assert(crate::config::is_offered_weight(c.secondary_font_weight as int));
    reveal_strlit("#a3e635");
    reveal_strlit("#ecfccb");
    reveal_strlit("#171821");
    reveal_strlit("#d9f99d");
    reveal_strlit("#bef264");
    reveal_strlit("rgba(0, 0, 0, 0.55)");
    reveal_strlit("#000000");
    lemma_color_or_settles(a.active_color@, "#a3e635"@);
    lemma_color_or_settles(a.inactive_color@, "#ecfccb"@);
    lemma_color_or_settles(a.solid_color@, "#171821"@);
    lemma_color_or_settles(a.translation_color@, "#d9f99d"@);
    lemma_color_or_settles(a.romanization_color@, "#bef264"@);
    lemma_color_or_settles(a.text_shadow_color@, "rgba(0, 0, 0, 0.55)"@);
    lemma_color_or_settles(a.text_stroke_color@, "#000000"@);
    reveal_strlit(
        "Inter, \"SF Pro Text\", \"SF Pro Display\", -apple-system, BlinkMacSystemFont, \"Segoe UI\", \"PingFang SC\", \"Hiragino Sans GB\", \"Microsoft YaHei\", \"Noto Sans CJK SC\", \"Noto Sans SC\", Arial, sans-serif",
    );
    crate::text::lemma_trim_fixed(overlay_font_family());
    crate::text::lemma_trim_idempotent(a.font_family@);
}

} // verus!
