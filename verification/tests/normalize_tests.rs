use lyrics_plus::config::{
    CompactKaraokeStyle, LaboratoryPreferences, StatusBarLyricsAppearance,
};
use lyrics_plus::normalize::{
    check_colors, check_schema_version, normalize_compact_font_sizes,
    normalize_laboratory_preferences, normalize_list_alignment, normalize_list_background_mode,
    normalize_notch_widths, trimmed_optional,
};
use lyrics_plus::overlay::{
    KaraokeStyle, OverlayBackground, OverlayBackgroundMode, OverlayStyleChoices, SecondaryDisplayMode,
    OverlayLayout, DoubleLineMode, OverlayOrientation, OverlayAlignment, PrimaryLinePosition, LongTextMode,
};

#[test]
fn schema_versions() {
    assert!(check_schema_version(55).is_ok());
    assert!(check_schema_version(1).is_ok());
    assert_eq!(check_schema_version(56).unwrap_err(), "配置文件版本 56 高于当前支持的版本 55");
}

#[test]
fn laboratory_preferences() {
    let mut prefs = LaboratoryPreferences::defaults_named("  ".into());
    prefs.server.debounce_ms = 99999;
    prefs.client.last_server_id = Some("  ".into());
    let normalized = normalize_laboratory_preferences(prefs.clone(), "Mac").unwrap();
    assert_eq!(normalized.server.name, "Mac");
    assert_eq!(normalized.client.name, "Mac");
    assert_eq!(normalized.server.debounce_ms, 10000);
    assert!(normalized.client.last_server_id.is_none());
    prefs.server.port = 80;
    assert_eq!(
        normalize_laboratory_preferences(prefs, "Mac").unwrap_err(),
        "实验室服务端端口必须在 1024 到 65535 之间"
    );
    assert_eq!(trimmed_optional(Some(" id ".into())).as_deref(), Some("id"));
}

#[test]
fn colours_are_checked_in_order() {
    assert!(check_colors(&[("a", "#fff"), ("b", "transparent")]).is_ok());
    assert_eq!(check_colors(&[("a", "#fff"), ("状态栏文字颜色", "nope"), ("c", "bad")]).unwrap_err(), "状态栏文字颜色不是有效的颜色值");
}

#[test]
fn display_sizes() {
    let appearance = StatusBarLyricsAppearance {
        font_size: 40,
        font_weight: 420,
        width: 50,
        ..StatusBarLyricsAppearance::default()
    };
    let normalized = appearance.normalized();
    assert_eq!((normalized.font_size, normalized.font_weight, normalized.width), (18, 400, 120));
    assert_eq!(normalized.karaoke_style, CompactKaraokeStyle::Sweep);
    assert_eq!(normalize_list_background_mode("glass".into()), "solid");
    assert_eq!(normalize_list_background_mode("transparent".into()), "transparent");
    assert_eq!(normalize_list_alignment("justify".into()), "center");
    assert_eq!(normalize_list_alignment("left".into()), "left");
    assert_eq!(normalize_notch_widths(700, 450), (640, 640));
    assert_eq!(normalize_notch_widths(100, 500), (320, 500));
    assert_eq!(normalize_compact_font_sizes(5, 99), (12, 32));
}

fn choices() -> OverlayStyleChoices {
    OverlayStyleChoices {
        font_family: "  ".into(),
        font_size: 100,
        font_weight: 760,
        secondary_font_weight: 0,
        active_color: " ".into(),
        inactive_color: "#111".into(),
        background_mode: OverlayBackgroundMode::Solid,
        background: OverlayBackground::Transparent,
        solid_color: "".into(),
        layout: OverlayLayout::Double,
        double_line_mode: DoubleLineMode::Alternating,
        orientation: OverlayOrientation::Vertical,
        alignment: OverlayAlignment::End,
        primary_line_position: PrimaryLinePosition::Second,
        long_text: LongTextMode::Wrap,
        secondary_display: SecondaryDisplayMode::Legacy,
        auto_center_with_translation_or_romanization: true,
        translation_enabled: false,
        romanization_enabled: true,
        karaoke_style: KaraokeStyle::Fill,
        translation_color: "".into(),
        romanization_color: "".into(),
        text_shadow_color: "".into(),
        text_stroke_color: " #123 ".into(),
    }
}

#[test]
fn overlay_style_choices_are_normalized() {
    let n = choices().normalized();
    assert_eq!(n.secondary_display, SecondaryDisplayMode::Romanization);
    assert_eq!(n.font_size, 72);
    assert_eq!(n.font_weight, 800);
    assert_eq!(n.secondary_font_weight, 400);
    assert_eq!(n.background, OverlayBackground::Solid);
    assert_eq!(n.background_mode, OverlayBackgroundMode::Transparent);
    assert_eq!(n.karaoke_style, KaraokeStyle::Sweep);
    assert!(n.font_family.starts_with("Inter, \"SF Pro Text\""));
    assert_eq!(n.active_color, "#a3e635");
    assert_eq!(n.inactive_color, "#111");
    assert_eq!(n.solid_color, "#171821");
    assert_eq!(n.text_shadow_color, "rgba(0, 0, 0, 0.55)");
    assert_eq!(n.text_stroke_color, " #123 ");
    assert_eq!(n.alignment, OverlayAlignment::End);
    let again = n.clone().normalized();
    assert_eq!(again.secondary_display, n.secondary_display);
    assert_eq!(again.font_family, n.font_family);
    assert_eq!((again.font_size, again.font_weight, again.secondary_font_weight), (n.font_size, n.font_weight, n.secondary_font_weight));
    assert_eq!((again.background, again.background_mode, again.karaoke_style), (n.background, n.background_mode, n.karaoke_style));
    assert_eq!(
        (&again.active_color, &again.inactive_color, &again.solid_color, &again.translation_color),
        (&n.active_color, &n.inactive_color, &n.solid_color, &n.translation_color)
    );
    assert_eq!(
        (&again.romanization_color, &again.text_shadow_color, &again.text_stroke_color),
        (&n.romanization_color, &n.text_shadow_color, &n.text_stroke_color)
    );
}

#[test]
fn laboratory_normalization_is_stable() {
    let mut prefs = LaboratoryPreferences::defaults_named(" Studio ".into());
    prefs.client.name = "".into();
    prefs.server.debounce_ms = 3;
    prefs.client.last_server_id = Some(" server-1 ".into());
    let once = normalize_laboratory_preferences(prefs, "Mac").unwrap();
    let twice = normalize_laboratory_preferences(once.clone(), "Mac").unwrap();
    assert_eq!(once.server.name, "Studio");
    assert_eq!(once.client.name, "Mac");
    assert_eq!(once.server.debounce_ms, 50);
    assert_eq!(once.client.last_server_id.as_deref(), Some("server-1"));
    assert_eq!(twice.server.name, once.server.name);
    assert_eq!(twice.client.name, once.client.name);
    assert_eq!(twice.server.debounce_ms, once.server.debounce_ms);
    assert_eq!(twice.client.last_server_id, once.client.last_server_id);
    // A device name with surrounding spaces keeps changing blank names.
    let mut blank = LaboratoryPreferences::defaults_named("".into());
    blank.client.name = "".into();
    let first = normalize_laboratory_preferences(blank, " Mac ").unwrap();
    let second = normalize_laboratory_preferences(first.clone(), " Mac ").unwrap();
    assert_eq!(first.client.name, " Mac ");
    assert_eq!(second.client.name, "Mac");
}
