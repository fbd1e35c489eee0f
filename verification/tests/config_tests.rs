use lyrics_plus::config::{
    default_laboratory_device_name, is_dedicated_player_bundle_id, is_supported_color,
    is_valid_language_preference, nearest_overlay_font_weight, normalize_display_font_weight,
    normalize_player_follower_application, normalize_registered_application,
    normalize_system_media_applications, LanguagePreference, RegisteredApplication,
};

fn app(name: &str, bundle_id: &str) -> RegisteredApplication {
    RegisteredApplication { name: name.to_string(), bundle_id: bundle_id.to_string() }
}

#[test]
fn registered_application_is_trimmed_and_named() {
    let normalized = normalize_registered_application(app("  ", " org.example.Player ")).unwrap();
    assert_eq!(normalized.name, "org.example.Player");
    assert_eq!(normalized.bundle_id, "org.example.Player");
    let named = normalize_registered_application(app(" Player ", "org.example.Player")).unwrap();
    assert_eq!(named.name, "Player");
}

#[test]
fn registered_application_errors() {
    assert_eq!(
        normalize_registered_application(app("x", "  ")).unwrap_err(),
        "应用的 Bundle ID 不能为空"
    );
    assert_eq!(
        normalize_registered_application(app("x", ".bad")).unwrap_err(),
        "无效的 Bundle ID：.bad"
    );
    assert_eq!(
        normalize_registered_application(app("x", "a b")).unwrap_err(),
        "无效的 Bundle ID：a b"
    );
}

#[test]
fn system_media_applications_drop_repeats_and_refuse_dedicated_players() {
    let list = normalize_system_media_applications(vec![
        app("A", "org.example.a"),
        app("A again", " org.example.a "),
        app("B", "org.example.b"),
    ])
    .unwrap();
    let ids: Vec<&str> = list.iter().map(|a| a.bundle_id.as_str()).collect();
    assert_eq!(ids, vec!["org.example.a", "org.example.b"]);
    assert_eq!(list[0].name, "A");
    assert_eq!(
        normalize_system_media_applications(vec![app("Music", "com.apple.Music")]).unwrap_err(),
        "Apple Music 和 Spotify 使用专用通道，不能添加到系统播放应用"
    );
    let again = normalize_system_media_applications(list.clone()).unwrap();
    assert_eq!(again.len(), list.len());
}

#[test]
fn follower_application_is_optional() {
    assert!(normalize_player_follower_application(None).unwrap().is_none());
    let follower = normalize_player_follower_application(Some(app("", "org.example.f"))).unwrap();
    assert_eq!(follower.unwrap().name, "org.example.f");
    assert!(is_dedicated_player_bundle_id("com.spotify.client"));
    assert!(!is_dedicated_player_bundle_id("com.spotify.client2"));
}

#[test]
fn language_preferences() {
    assert!(is_valid_language_preference("system"));
    assert!(is_valid_language_preference("zh-CN"));
    assert!(is_valid_language_preference("en"));
    assert!(!is_valid_language_preference("e"));
    assert!(!is_valid_language_preference("zh-"));
    assert!(!is_valid_language_preference("zh_CN"));
    let preference = LanguagePreference::from_value("zh-CN");
    assert!(preference.uses_native_chinese());
    assert!(preference.is_valid());
    assert!(!LanguagePreference::default().uses_native_chinese());
}

#[test]
fn font_weights_snap_to_the_nearest_offered_weight() {
    assert_eq!(normalize_display_font_weight(0), 400);
    assert_eq!(normalize_display_font_weight(450), 400);
    assert_eq!(normalize_display_font_weight(451), 500);
    assert_eq!(nearest_overlay_font_weight(749), 700);
    assert_eq!(nearest_overlay_font_weight(u16::MAX), 800);
}

#[test]
fn colors() {
    assert!(is_supported_color("#abc"));
    assert!(is_supported_color(" #AABBCCDD "));
    assert!(!is_supported_color("#abcde"));
    assert!(is_supported_color("Transparent"));
    assert!(is_supported_color("rgba(0, 0, 0, 0.55)"));
    assert!(!is_supported_color("rgba(0, 0, 0, 0.55"));
    assert!(!is_supported_color("red"));
}

#[test]
fn device_names() {
    assert_eq!(default_laboratory_device_name(Some("Mac".into()), Some("host".into())), "Mac");
    assert_eq!(default_laboratory_device_name(None, Some("host".into())), "host");
    assert_eq!(default_laboratory_device_name(Some("  ".into()), Some("host".into())), "Lyrics Plus");
    assert_eq!(default_laboratory_device_name(None, None), "Lyrics Plus");
}
