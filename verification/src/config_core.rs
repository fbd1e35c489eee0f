use vstd::prelude::*;

use crate::config::{
    apps_result_view, apps_view, default_font_family, default_font_family_string, is_nearest_weight,
    normalize_display_font_weight, normalize_player_follower_application,
    normalize_system_media_applications, normalized_application_spec, normalized_applications_spec,
    AppPreferences, CompactKaraokeStyle, LaboratoryPreferences, LyricsBaseAppearance,
    LyricsModeStyleInheritance, LyricsStyleInheritance, StatusBarLyricsAppearance,
};
use crate::normalize::{
    check_colors, check_schema_version, clamp_u16, first_bad_color, laboratory_normalized,
    named_colors_view, newer_schema_message, normalize_compact_font_sizes,
    normalize_laboratory_preferences, normalize_list_alignment, normalize_list_background_mode,
    normalize_notch_widths, trimmed_optional, trimmed_optional_spec, CONFIG_SCHEMA_VERSION,
};
use crate::overlay::{color_or, style_normalized, OverlayStyleChoices};
use crate::player::opt_view;
use crate::shortcuts::{shortcuts_outcome, ShortcutFacts};
use crate::text::{trim_spec, trim_str, string_from_chars};

verus! {

/// What the list window's appearance holds besides its floating-point
/// sizes.
#[derive(Debug, Clone)]
pub struct ListTextAppearance {
    pub font_family: String,
    pub font_size: u16,
    pub font_weight: u16,
    pub active_color: String,
    pub inactive_color: String,
    pub translation_color: String,
    pub romanization_color: String,
    pub active_background_color: String,
    pub background_color: String,
    pub background_mode: String,
    pub alignment: String,
}

/// What the notch lyrics' appearance holds besides its floating-point
/// sizes.
#[derive(Debug, Clone)]
pub struct NotchTextAppearance {
    pub font_family: String,
    pub font_size: u16,
    pub font_weight: u16,
    pub secondary_font_weight: u16,
    pub active_color: String,
    pub inactive_color: String,
    pub translation_color: String,
    pub romanization_color: String,
    pub karaoke_style: CompactKaraokeStyle,
    pub max_width: u16,
    pub expanded_max_width: u16,
}

/// The settings that normalization reads and writes, without the
/// floating-point sizes and without the lyrics providers.
#[derive(Debug, Clone)]
pub struct ConfigCore {
    pub schema_version: u16,
    pub app: AppPreferences,
    pub laboratory: LaboratoryPreferences,
    pub base_appearance: LyricsBaseAppearance,
    pub style_inheritance: LyricsStyleInheritance,
    pub status_bar: StatusBarLyricsAppearance,
    pub list_window: ListTextAppearance,
    pub notch_monitor_id: Option<String>,
    pub notch: NotchTextAppearance,
    pub overlay: OverlayStyleChoices,
}

/// `v` when `inherit`, else `own`.
pub open spec fn pick(inherit: bool, v: Seq<char>, own: Seq<char>) -> Seq<char> {
    if inherit {
        v
    } else {
        own
    }
}

/// The desktop lyrics style with the base font and colours it inherits.
pub open spec fn overlay_inherited(
    before: OverlayStyleChoices,
    b: LyricsBaseAppearance,
    i: LyricsModeStyleInheritance,
    after: OverlayStyleChoices,
) -> bool {
    &&& after.font_family@ == pick(i.inherit_font_family, b.font_family@, before.font_family@)
    &&& after.active_color@ == pick(i.inherit_colors, b.active_color@, before.active_color@)
    &&& after.inactive_color@ == pick(i.inherit_colors, b.inactive_color@, before.inactive_color@)
    &&& after.translation_color@ == pick(i.inherit_colors, b.translation_color@, before.translation_color@)
    &&& after.romanization_color@ == pick(i.inherit_colors, b.romanization_color@, before.romanization_color@)
    &&& after.solid_color@ == pick(i.inherit_colors, b.background_color@, before.solid_color@)
    &&& after == (OverlayStyleChoices {
        font_family: after.font_family,
        active_color: after.active_color,
        inactive_color: after.inactive_color,
        translation_color: after.translation_color,
        romanization_color: after.romanization_color,
        solid_color: after.solid_color,
        ..before
    })
}

/// The menu bar appearance with the base font and colours it inherits.
pub open spec fn status_inherited(
    before: StatusBarLyricsAppearance,
    b: LyricsBaseAppearance,
    i: LyricsModeStyleInheritance,
    after: StatusBarLyricsAppearance,
) -> bool {
    &&& after.font_family@ == pick(i.inherit_font_family, b.font_family@, before.font_family@)
    &&& after.text_color@ == pick(i.inherit_colors, b.active_color@, before.text_color@)
    &&& after.inactive_color@ == pick(i.inherit_colors, b.inactive_color@, before.inactive_color@)
    &&& after.highlight_color@ == pick(i.inherit_colors, b.active_color@, before.highlight_color@)
    &&& after == (StatusBarLyricsAppearance {
        font_family: after.font_family,
        text_color: after.text_color,
        inactive_color: after.inactive_color,
        highlight_color: after.highlight_color,
        ..before
    })
}

/// The list window appearance with the base font and colours it inherits.
pub open spec fn list_inherited(
    before: ListTextAppearance,
    b: LyricsBaseAppearance,
    i: LyricsModeStyleInheritance,
    after: ListTextAppearance,
) -> bool {
    &&& after.font_family@ == pick(i.inherit_font_family, b.font_family@, before.font_family@)
    &&& after.active_color@ == pick(i.inherit_colors, b.active_color@, before.active_color@)
    &&& after.inactive_color@ == pick(i.inherit_colors, b.inactive_color@, before.inactive_color@)
    &&& after.translation_color@ == pick(i.inherit_colors, b.translation_color@, before.translation_color@)
    &&& after.romanization_color@ == pick(i.inherit_colors, b.romanization_color@, before.romanization_color@)
    &&& after.background_color@ == pick(i.inherit_colors, b.background_color@, before.background_color@)
    &&& after == (ListTextAppearance {
        font_family: after.font_family,
        active_color: after.active_color,
        inactive_color: after.inactive_color,
        translation_color: after.translation_color,
        romanization_color: after.romanization_color,
        background_color: after.background_color,
        ..before
    })
}

/// The notch appearance with the base font and colours it inherits.
pub open spec fn notch_inherited(
    before: NotchTextAppearance,
    b: LyricsBaseAppearance,
    i: LyricsModeStyleInheritance,
    after: NotchTextAppearance,
) -> bool {
    &&& after.font_family@ == pick(i.inherit_font_family, b.font_family@, before.font_family@)
    &&& after.active_color@ == pick(i.inherit_colors, b.active_color@, before.active_color@)
    &&& after.inactive_color@ == pick(i.inherit_colors, b.inactive_color@, before.inactive_color@)
    &&& after.translation_color@ == pick(i.inherit_colors, b.translation_color@, before.translation_color@)
    &&& after.romanization_color@ == pick(i.inherit_colors, b.romanization_color@, before.romanization_color@)
    &&& after == (NotchTextAppearance {
        font_family: after.font_family,
        active_color: after.active_color,
        inactive_color: after.inactive_color,
        translation_color: after.translation_color,
        romanization_color: after.romanization_color,
        ..before
    })
}

/// `after` is `before` with the inherited font and colours of the base
/// appearance copied into the displays that inherit them.
pub open spec fn inherited(before: ConfigCore, after: ConfigCore) -> bool {
    let b = before.base_appearance;
    let i = before.style_inheritance;
    &&& after.schema_version == before.schema_version
    &&& after.app == before.app
    &&& after.laboratory == before.laboratory
    &&& after.base_appearance == before.base_appearance
    &&& after.style_inheritance == before.style_inheritance
    &&& after.notch_monitor_id == before.notch_monitor_id
    &&& overlay_inherited(before.overlay, b, i.desktop, after.overlay)
    &&& status_inherited(before.status_bar, b, i.status_bar, after.status_bar)
    &&& list_inherited(before.list_window, b, i.list_window, after.list_window)
    &&& notch_inherited(before.notch, b, i.notch, after.notch)
}

fn copy_string(s: &String) -> (r: String)
    ensures
        r@ == s@,
{
    string_from_chars(&crate::text::chars_of(s.as_str()))
}

#[verifier::rlimit(60)]
fn inherit_overlay(o: &mut OverlayStyleChoices, b: &LyricsBaseAppearance, i: LyricsModeStyleInheritance)
    ensures
        overlay_inherited(*old(o), *b, i, *final(o)),
{
    if i.inherit_font_family {
        o.font_family = copy_string(&b.font_family);
    }
    if i.inherit_colors {
        o.active_color = copy_string(&b.active_color);
        o.inactive_color = copy_string(&b.inactive_color);
        o.translation_color = copy_string(&b.translation_color);
        o.romanization_color = copy_string(&b.romanization_color);
        o.solid_color = copy_string(&b.background_color);
    }
}

fn inherit_status(o: &mut StatusBarLyricsAppearance, b: &LyricsBaseAppearance, i: LyricsModeStyleInheritance)
    ensures
        status_inherited(*old(o), *b, i, *final(o)),
{
    if i.inherit_font_family {
        o.font_family = copy_string(&b.font_family);
    }
    if i.inherit_colors {
        o.text_color = copy_string(&b.active_color);
        o.inactive_color = copy_string(&b.inactive_color);
        o.highlight_color = copy_string(&b.active_color);
    }
}

fn inherit_list(o: &mut ListTextAppearance, b: &LyricsBaseAppearance, i: LyricsModeStyleInheritance)
    ensures
        list_inherited(*old(o), *b, i, *final(o)),
{
    if i.inherit_font_family {
        o.font_family = copy_string(&b.font_family);
    }
    if i.inherit_colors {
        o.active_color = copy_string(&b.active_color);
        o.inactive_color = copy_string(&b.inactive_color);
        o.translation_color = copy_string(&b.translation_color);
        o.romanization_color = copy_string(&b.romanization_color);
        o.background_color = copy_string(&b.background_color);
    }
}

fn inherit_notch(o: &mut NotchTextAppearance, b: &LyricsBaseAppearance, i: LyricsModeStyleInheritance)
    ensures
        notch_inherited(*old(o), *b, i, *final(o)),
{
    if i.inherit_font_family {
        o.font_family = copy_string(&b.font_family);
    }
    if i.inherit_colors {
        o.active_color = copy_string(&b.active_color);
        o.inactive_color = copy_string(&b.inactive_color);
        o.translation_color = copy_string(&b.translation_color);
        o.romanization_color = copy_string(&b.romanization_color);
    }
}

impl ConfigCore {
    /// Copies the base font and colours into the displays whose inheritance
    /// settings ask for them: the desktop lyrics take the base background as
    /// their solid colour, the menu bar its active colour as both its text
    /// and highlight colours.
    pub fn apply_lyrics_style_inheritance(&mut self)
        ensures
            inherited(*old(self), *final(self)),
    {
        let i = self.style_inheritance;
        inherit_overlay(&mut self.overlay, &self.base_appearance, i.desktop);
        inherit_status(&mut self.status_bar, &self.base_appearance, i.status_bar);
        inherit_list(&mut self.list_window, &self.base_appearance, i.list_window);
        inherit_notch(&mut self.notch, &self.base_appearance, i.notch);
    }
}


/// The base font: trimmed, or the default font stack when blank.
pub open spec fn base_font_spec(f: Seq<char>) -> Seq<char> {
    if trim_spec(f).len() == 0 {
        default_font_family()
    } else {
        trim_spec(f)
    }
}

/// The base colours, by the names errors give them.
pub open spec fn base_pairs(b: LyricsBaseAppearance) -> Seq<(Seq<char>, Seq<char>)> {
    seq![
        ("基础主歌词颜色"@, b.active_color@),
        ("基础普通歌词颜色"@, b.inactive_color@),
        ("基础翻译颜色"@, b.translation_color@),
        ("基础音译颜色"@, b.romanization_color@),
        ("基础辅助内容颜色"@, b.supporting_color@),
        ("基础背景颜色"@, b.background_color@),
    ]
}

/// The colours of the menu bar, the list window and the notch once they
/// inherited the base colours, by the names errors give them.
pub open spec fn display_pairs(c: ConfigCore) -> Seq<(Seq<char>, Seq<char>)> {
    let b = c.base_appearance;
    let i = c.style_inheritance;
    let s = c.status_bar;
    let l = c.list_window;
    let n = c.notch;
    seq![
        ("状态栏文字颜色"@, pick(i.status_bar.inherit_colors, b.active_color@, s.text_color@)),
        ("状态栏未唱颜色"@, pick(i.status_bar.inherit_colors, b.inactive_color@, s.inactive_color@)),
        ("状态栏高亮颜色"@, pick(i.status_bar.inherit_colors, b.active_color@, s.highlight_color@)),
        ("列表当前歌词颜色"@, pick(i.list_window.inherit_colors, b.active_color@, l.active_color@)),
        ("列表普通歌词颜色"@, pick(i.list_window.inherit_colors, b.inactive_color@, l.inactive_color@)),
        ("列表翻译颜色"@, pick(i.list_window.inherit_colors, b.translation_color@, l.translation_color@)),
        ("列表音译颜色"@, pick(i.list_window.inherit_colors, b.romanization_color@, l.romanization_color@)),
        ("列表当前行背景"@, l.active_background_color@),
        ("列表窗口背景"@, pick(i.list_window.inherit_colors, b.background_color@, l.background_color@)),
        ("灵动岛歌词颜色"@, pick(i.notch.inherit_colors, b.active_color@, n.active_color@)),
        ("灵动岛未激活颜色"@, pick(i.notch.inherit_colors, b.inactive_color@, n.inactive_color@)),
        ("灵动岛翻译颜色"@, pick(i.notch.inherit_colors, b.translation_color@, n.translation_color@)),
        ("灵动岛音译颜色"@, pick(i.notch.inherit_colors, b.romanization_color@, n.romanization_color@)),
    ]
}

/// The desktop lyrics colours once inherited and defaulted, by the names
/// errors give them.
pub open spec fn overlay_pairs(c: ConfigCore) -> Seq<(Seq<char>, Seq<char>)> {
    let b = c.base_appearance;
    let d = c.style_inheritance.desktop.inherit_colors;
    let o = c.overlay;
    seq![
        ("高亮颜色"@, color_or(pick(d, b.active_color@, o.active_color@), "#a3e635"@)),
        ("未唱颜色"@, color_or(pick(d, b.inactive_color@, o.inactive_color@), "#ecfccb"@)),
        ("背景颜色"@, color_or(pick(d, b.background_color@, o.solid_color@), "#171821"@)),
        ("翻译颜色"@, color_or(pick(d, b.translation_color@, o.translation_color@), "#d9f99d"@)),
        ("音译颜色"@, color_or(pick(d, b.romanization_color@, o.romanization_color@), "#bef264"@)),
        ("文字阴影颜色"@, color_or(o.text_shadow_color@, "rgba(0, 0, 0, 0.55)"@)),
        ("文字描边颜色"@, color_or(o.text_stroke_color@, "#000000"@)),
    ]
}

/// The message of an unsupported colour.
pub open spec fn bad_color_message(name: Seq<char>) -> Seq<char> {
    name + "不是有效的颜色值"@
}

/// Why settings cannot be kept, checked in this order: a newer schema, a
/// port under 1024, a base colour, the system-media applications, the
/// follower application, the shortcuts, a display colour, a desktop lyrics
/// colour.
pub open spec fn core_error(
    c: ConfigCore,
    outcomes: Seq<Result<ShortcutFacts, String>>,
) -> Option<Seq<char>> {
    if c.schema_version > CONFIG_SCHEMA_VERSION {
        Some(newer_schema_message(c.schema_version))
    } else if c.laboratory.server.port < 1024 {
        Some("实验室服务端端口必须在 1024 到 65535 之间"@)
    } else if first_bad_color(base_pairs(c.base_appearance)) is Some {
        Some(bad_color_message(first_bad_color(base_pairs(c.base_appearance))->0))
    } else if normalized_applications_spec(apps_view(c.app.system_media_applications@)) is Err {
        Some(normalized_applications_spec(apps_view(c.app.system_media_applications@))->Err_0)
    } else if c.app.player_follower_application matches Some(a) && normalized_application_spec(a@) is Err {
        Some(normalized_application_spec(c.app.player_follower_application->0@)->Err_0)
    } else if shortcuts_outcome(c.app.shortcuts, outcomes, 6) is Err {
        Some(shortcuts_outcome(c.app.shortcuts, outcomes, 6)->Err_0)
    } else if first_bad_color(display_pairs(c)) is Some {
        Some(bad_color_message(first_bad_color(display_pairs(c))->0))
    } else if first_bad_color(overlay_pairs(c)) is Some {
        Some(bad_color_message(first_bad_color(overlay_pairs(c))->0))
    } else {
        None
    }
}

/// The menu bar appearance held in range.
pub open spec fn status_kept(before: StatusBarLyricsAppearance, after: StatusBarLyricsAppearance) -> bool {
    &&& after.font_size == clamp_u16(before.font_size, 10, 18)
    &&& after.width == clamp_u16(before.width, 120, 360)
    &&& is_nearest_weight(after.font_weight as int, before.font_weight as int)
    &&& after == (StatusBarLyricsAppearance {
        font_size: after.font_size,
        width: after.width,
        font_weight: after.font_weight,
        ..before
    })
}

/// The list window appearance held in range, with a known background mode
/// and alignment.
pub open spec fn list_kept(before: ListTextAppearance, after: ListTextAppearance) -> bool {
    &&& after.font_size == clamp_u16(before.font_size, 12, 56)
    &&& is_nearest_weight(after.font_weight as int, before.font_weight as int)
    &&& after.background_mode@ == if before.background_mode@ == "solid"@ || before.background_mode@
        == "transparent"@ {
        before.background_mode@
    } else {
        "solid"@
    }
    &&& after.alignment@ == if before.alignment@ == "left"@ || before.alignment@ == "center"@
        || before.alignment@ == "right"@ {
        before.alignment@
    } else {
        "center"@
    }
    &&& after == (ListTextAppearance {
        font_size: after.font_size,
        font_weight: after.font_weight,
        background_mode: after.background_mode,
        alignment: after.alignment,
        ..before
    })
}

/// The notch appearance held in range, the expanded width never below the
/// collapsed one.
pub open spec fn notch_kept(before: NotchTextAppearance, after: NotchTextAppearance) -> bool {
    &&& after.font_size == clamp_u16(before.font_size, 12, 32)
    &&& is_nearest_weight(after.font_weight as int, before.font_weight as int)
    &&& is_nearest_weight(after.secondary_font_weight as int, before.secondary_font_weight as int)
    &&& after.max_width == clamp_u16(before.max_width, 320, 640)
    &&& after.expanded_max_width == if clamp_u16(before.expanded_max_width, 440, 640)
        >= after.max_width {
        clamp_u16(before.expanded_max_width, 440, 640)
    } else {
        after.max_width
    }
    &&& after == (NotchTextAppearance {
        font_size: after.font_size,
        font_weight: after.font_weight,
        secondary_font_weight: after.secondary_font_weight,
        max_width: after.max_width,
        expanded_max_width: after.expanded_max_width,
        ..before
    })
}

/// The application settings with their applications normalized.
pub open spec fn app_kept(before: AppPreferences, after: AppPreferences) -> bool {
    &&& normalized_applications_spec(apps_view(before.system_media_applications@)) == Ok::<
        Seq<(Seq<char>, Seq<char>)>,
        Seq<char>,
    >(apps_view(after.system_media_applications@))
    &&& match before.player_follower_application {
        None => after.player_follower_application is None,
        Some(a) => after.player_follower_application matches Some(x) && normalized_application_spec(
            a@,
        ) == Ok::<(Seq<char>, Seq<char>), Seq<char>>(x@),
    }
    &&& after == (AppPreferences {
        system_media_applications: after.system_media_applications,
        player_follower_application: after.player_follower_application,
        ..before
    })
}

/// `n` is the settings `c` as they are kept.
pub open spec fn core_normalized(c: ConfigCore, device: Seq<char>, n: ConfigCore) -> bool {
    let c1 = ConfigCore {
        schema_version: CONFIG_SCHEMA_VERSION,
        laboratory: n.laboratory,
        base_appearance: n.base_appearance,
        ..c
    };
    &&& n.schema_version == CONFIG_SCHEMA_VERSION
    &&& laboratory_normalized(c.laboratory, device, n.laboratory)
    &&& n.base_appearance.font_family@ == base_font_spec(c.base_appearance.font_family@)
    &&& n.base_appearance == (LyricsBaseAppearance {
        font_family: n.base_appearance.font_family,
        ..c.base_appearance
    })
    &&& n.style_inheritance == c.style_inheritance
    &&& opt_view(n.notch_monitor_id) == trimmed_optional_spec(opt_view(c.notch_monitor_id))
    &&& app_kept(c.app, n.app)
    &&& exists|m: ConfigCore|
        #[trigger] inherited(c1, m) && status_kept(m.status_bar, n.status_bar) && list_kept(
            m.list_window,
            n.list_window,
        ) && notch_kept(m.notch, n.notch) && style_normalized(
            OverlayStyleChoices { translation_enabled: false, romanization_enabled: false, ..m.overlay },
            n.overlay,
        )
}

impl ConfigCore {
    /// The settings as they are kept, or why they cannot be: the schema must
    /// not be newer; the laboratory settings are normalized (`device_name`
    /// standing in for blank names); the base font is trimmed (the default
    /// stack when blank) and the base colours checked; the displays inherit
    /// the base font and colours they ask for; the applications are
    /// normalized; the shortcuts are checked, given what the shortcut parser
    /// made of each (`outcomes`, see `GlobalShortcutSettings::parsed`); the
    /// notch display id is trimmed; sizes and weights are held in range and
    /// the display and desktop lyrics colours checked; the desktop lyrics
    /// style is normalized.
    #[verifier::rlimit(100)]
    pub fn normalized(self, device_name: &str, outcomes: &[Result<ShortcutFacts, String>; 6]) -> (r:
        Result<ConfigCore, String>)
        ensures
            match core_error(self, outcomes@) {
                Some(e) => r matches Err(x) && x@ == e,
                None => r matches Ok(n) && core_normalized(self, device_name@, n),
            },
    {
        let ghost orig = self;
        let mut c = self;
        match check_schema_version(c.schema_version) {
            Ok(()) => {},
            Err(e) => return Err(e),
        }
        c.schema_version = CONFIG_SCHEMA_VERSION;
        let lab = c.laboratory;
        c.laboratory = match normalize_laboratory_preferences(lab, device_name) {
            Ok(l) => l,
            Err(e) => return Err(e),
        };
        let font = trim_str(c.base_appearance.font_family.as_str());
        c.base_appearance.font_family = if font.len() == 0 {
            default_font_family_string()
        } else {
            string_from_chars(&font)
        };
        let base_colors = [
            ("基础主歌词颜色", c.base_appearance.active_color.as_str()),
            ("基础普通歌词颜色", c.base_appearance.inactive_color.as_str()),
            ("基础翻译颜色", c.base_appearance.translation_color.as_str()),
            ("基础音译颜色", c.base_appearance.romanization_color.as_str()),
            ("基础辅助内容颜色", c.base_appearance.supporting_color.as_str()),
            ("基础背景颜色", c.base_appearance.background_color.as_str()),
        ];
        assert(named_colors_view(base_colors@) =~= base_pairs(orig.base_appearance));
        match check_colors(&base_colors) {
            Ok(()) => {},
            Err(e) => return Err(e),
        }
        let ghost before_inheritance = c;
        c.apply_lyrics_style_inheritance();
        let ghost m = c;
        let mut apps: Vec<crate::config::RegisteredApplication> = Vec::new();
        std::mem::swap(&mut apps, &mut c.app.system_media_applications);
        c.app.system_media_applications = match normalize_system_media_applications(apps) {
            Ok(v) => v,
            Err(e) => return Err(e),
        };
        let follower = c.app.player_follower_application.take();
        c.app.player_follower_application = match normalize_player_follower_application(follower) {
            Ok(v) => v,
            Err(e) => return Err(e),
        };
        match c.app.shortcuts.parsed(outcomes) {
            Ok(_) => {},
            Err(e) => return Err(e),
        }
        let id = c.notch_monitor_id.take();
        c.notch_monitor_id = trimmed_optional(id);
        let status = c.status_bar;
        c.status_bar = status.normalized();
        let (list_size, notch_size) = normalize_compact_font_sizes(
            c.list_window.font_size,
            c.notch.font_size,
        );
        c.list_window.font_size = list_size;
        c.list_window.font_weight = normalize_display_font_weight(c.list_window.font_weight);
        let mode = c.list_window.background_mode;
        c.list_window.background_mode = normalize_list_background_mode(mode);
        let alignment = c.list_window.alignment;
        c.list_window.alignment = normalize_list_alignment(alignment);
        c.notch.font_size = notch_size;
        c.notch.font_weight = normalize_display_font_weight(c.notch.font_weight);
        c.notch.secondary_font_weight = normalize_display_font_weight(c.notch.secondary_font_weight);
        let (max_width, expanded) = normalize_notch_widths(c.notch.max_width, c.notch.expanded_max_width);
        c.notch.max_width = max_width;
        c.notch.expanded_max_width = expanded;
        let display_colors = [
            ("状态栏文字颜色", c.status_bar.text_color.as_str()),
            ("状态栏未唱颜色", c.status_bar.inactive_color.as_str()),
            ("状态栏高亮颜色", c.status_bar.highlight_color.as_str()),
            ("列表当前歌词颜色", c.list_window.active_color.as_str()),
            ("列表普通歌词颜色", c.list_window.inactive_color.as_str()),
            ("列表翻译颜色", c.list_window.translation_color.as_str()),
            ("列表音译颜色", c.list_window.romanization_color.as_str()),
            ("列表当前行背景", c.list_window.active_background_color.as_str()),
            ("列表窗口背景", c.list_window.background_color.as_str()),
            ("灵动岛歌词颜色", c.notch.active_color.as_str()),
            ("灵动岛未激活颜色", c.notch.inactive_color.as_str()),
            ("灵动岛翻译颜色", c.notch.translation_color.as_str()),
            ("灵动岛音译颜色", c.notch.romanization_color.as_str()),
        ];
        assert(named_colors_view(display_colors@) =~= display_pairs(orig));
        match check_colors(&display_colors) {
            Ok(()) => {},
            Err(e) => return Err(e),
        }
        let mut style = c.overlay;
        style.translation_enabled = false;
        style.romanization_enabled = false;
        let ghost plain = style;
        let style = style.normalized();
        let overlay_colors = [
            ("高亮颜色", style.active_color.as_str()),
            ("未唱颜色", style.inactive_color.as_str()),
            ("背景颜色", style.solid_color.as_str()),
            ("翻译颜色", style.translation_color.as_str()),
            ("音译颜色", style.romanization_color.as_str()),
            ("文字阴影颜色", style.text_shadow_color.as_str()),
            ("文字描边颜色", style.text_stroke_color.as_str()),
        ];
        assert(named_colors_view(overlay_colors@) =~= overlay_pairs(orig));
        match check_colors(&overlay_colors) {
            Ok(()) => {},
            Err(e) => return Err(e),
        }
        c.overlay = style;
        proof {
            let c1 = ConfigCore {
                schema_version: CONFIG_SCHEMA_VERSION,
                laboratory: c.laboratory,
                base_appearance: c.base_appearance,
                ..orig
            };
            assert(before_inheritance == c1);
            assert(plain == OverlayStyleChoices {
                translation_enabled: false,
                romanization_enabled: false,
                ..m.overlay
            });
            assert(inherited(c1, m));
        }
        Ok(c)
    }
}

} // verus!
