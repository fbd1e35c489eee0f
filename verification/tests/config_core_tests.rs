use lyrics_plus::config::{
    AppPreferences, CompactKaraokeStyle, LaboratoryPreferences, LyricsBaseAppearance,
    LyricsStyleInheritance, StatusBarLyricsAppearance,
};
use lyrics_plus::config_core::{ConfigCore, ListTextAppearance, NotchTextAppearance};
use lyrics_plus::overlay::{
    DoubleLineMode, KaraokeStyle, LongTextMode, OverlayAlignment, OverlayBackground, OverlayBackgroundMode,
    OverlayLayout, OverlayOrientation, OverlayStyleChoices, PrimaryLinePosition, SecondaryDisplayMode,
};
use lyrics_plus::shortcuts::ShortcutFacts;

fn overlay() -> OverlayStyleChoices {
    OverlayStyleChoices {
        font_family: "Serif".into(),
        font_size: 30,
        font_weight: 600,
        secondary_font_weight: 500,
        active_color: "#111".into(),
        inactive_color: "#222".into(),
        background_mode: OverlayBackgroundMode::Solid,
        background: OverlayBackground::Glass,
        solid_color: "#333".into(),
        layout: OverlayLayout::Single,
        double_line_mode: DoubleLineMode::Rolling,
        orientation: OverlayOrientation::Horizontal,
        alignment: OverlayAlignment::Center,
        primary_line_position: PrimaryLinePosition::First,
        long_text: LongTextMode::Shrink,
        secondary_display: SecondaryDisplayMode::Next,
        auto_center_with_translation_or_romanization: false,
        translation_enabled: true,
        romanization_enabled: false,
        karaoke_style: KaraokeStyle::Sweep,
        translation_color: "#444".into(),
        romanization_color: "#555".into(),
        text_shadow_color: "".into(),
        text_stroke_color: "#000".into(),
    }
}

fn sample_core() -> ConfigCore {
    ConfigCore {
        schema_version: 40,
        app: AppPreferences::default(),
        laboratory: LaboratoryPreferences::defaults_named("Mac".into()),
        base_appearance: LyricsBaseAppearance::default(),
        style_inheritance: LyricsStyleInheritance::default(),
        status_bar: StatusBarLyricsAppearance::default(),
        list_window: ListTextAppearance {
            font_family: "List".into(),
            font_size: 90,
            font_weight: 420,
            active_color: "#aaa".into(),
            inactive_color: "#bbb".into(),
            translation_color: "#ccc".into(),
            romanization_color: "#ddd".into(),
            active_background_color: "#eee".into(),
            background_color: "#fff".into(),
            background_mode: "gradient".into(),
            alignment: "right".into(),
        },
        notch_monitor_id: Some("  ".into()),
        notch: NotchTextAppearance {
            font_family: "Notch".into(),
            font_size: 5,
            font_weight: 900,
            secondary_font_weight: 550,
            active_color: "#123".into(),
            inactive_color: "#456".into(),
            translation_color: "#789".into(),
            romanization_color: "#abc".into(),
            karaoke_style: CompactKaraokeStyle::default(),
            max_width: 600,
            expanded_max_width: 450,
        },
        overlay: overlay(),
    }
}

fn outcomes() -> [Result<ShortcutFacts, String>; 6] {
    let ok = |id: u32| Ok(ShortcutFacts { has_modifiers: true, id });
    [ok(1), ok(2), ok(3), ok(4), ok(5), ok(6)]
}

#[test]
fn core_settings_are_normalized() {
    let base = LyricsBaseAppearance::default();
    let n = sample_core().normalized("Mac", &outcomes()).unwrap();
    assert_eq!(n.schema_version, 55);
    assert_eq!(n.list_window.font_size, 56);
    assert_eq!(n.list_window.background_mode, "solid");
    assert_eq!(n.list_window.alignment, "right");
    assert_eq!(n.list_window.active_color, base.active_color);
    assert_eq!(n.list_window.active_background_color, "#eee");
    assert_eq!(n.notch.font_size, 12);
    assert_eq!(n.notch.font_weight, 800);
    assert_eq!((n.notch.max_width, n.notch.expanded_max_width), (600, 600));
    assert!(n.notch_monitor_id.is_none());
    assert_eq!(n.overlay.active_color, base.active_color);
    assert_eq!(n.overlay.text_shadow_color, "rgba(0, 0, 0, 0.55)");
    assert!(!n.overlay.translation_enabled);
    assert_eq!(n.status_bar.text_color, base.active_color);
}

#[test]
fn own_styles_stay_without_inheritance() {
    let mut c = sample_core();
    c.style_inheritance.list_window.inherit_colors = false;
    c.style_inheritance.desktop.inherit_font_family = false;
    c.base_appearance.font_family = "   ".into();
    let n = c.normalized("Mac", &outcomes()).unwrap();
    assert_eq!(n.list_window.active_color, "#aaa");
    assert_eq!(n.overlay.font_family, "Serif");
    assert_eq!(n.base_appearance.font_family, LyricsBaseAppearance::default().font_family);
    assert_eq!(n.notch.font_family, n.base_appearance.font_family);
}

#[test]
fn core_settings_report_the_first_problem() {
    let mut c = sample_core();
    c.schema_version = 60;
    assert_eq!(c.normalized("Mac", &outcomes()).unwrap_err(), "配置文件版本 60 高于当前支持的版本 55");
    let mut c = sample_core();
    c.base_appearance.supporting_color = "nope".into();
    c.list_window.active_background_color = "bad".into();
    assert_eq!(c.normalized("Mac", &outcomes()).unwrap_err(), "基础辅助内容颜色不是有效的颜色值");
    let mut c = sample_core();
    c.list_window.active_background_color = "bad".into();
    assert_eq!(c.normalized("Mac", &outcomes()).unwrap_err(), "列表当前行背景不是有效的颜色值");
    let mut c = sample_core();
    c.overlay.text_stroke_color = "bad".into();
    assert_eq!(c.normalized("Mac", &outcomes()).unwrap_err(), "文字描边颜色不是有效的颜色值");
    let mut dup = outcomes();
    dup[1] = Ok(ShortcutFacts { has_modifiers: true, id: 1 });
    assert_eq!(sample_core().normalized("Mac", &dup).unwrap_err(), "全局快捷键不能重复");
    let mut c = sample_core();
    c.laboratory.server.port = 80;
    assert_eq!(c.normalized("Mac", &outcomes()).unwrap_err(), "实验室服务端端口必须在 1024 到 65535 之间");
}

#[test]
fn inheritance_copies_the_base_style() {
    let mut c = sample_core();
    c.apply_lyrics_style_inheritance();
    let base = LyricsBaseAppearance::default();
    assert_eq!(c.overlay.solid_color, base.background_color);
    assert_eq!(c.status_bar.highlight_color, base.active_color);
    assert_eq!(c.notch.font_family, base.font_family);
}
