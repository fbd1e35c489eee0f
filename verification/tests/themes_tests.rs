use lyrics_plus::laboratory::LaboratoryThemeInfo;
use lyrics_plus::themes::{
    accept_theme_manifest, is_safe_relative_path, is_safe_theme_id, select_theme_manifests, sort_themes,
    theme_candidate, theme_info, ThemeManifest,
};

fn manifest(id: &str, name: &str, entry: &str) -> ThemeManifest {
    ThemeManifest {
        id: id.into(),
        name: name.into(),
        version: "1.0.0".into(),
        entry: entry.into(),
        sdk_version: "1".into(),
    }
}

fn theme(name: &str) -> LaboratoryThemeInfo {
    LaboratoryThemeInfo {
        id: name.to_lowercase(),
        name: name.into(),
        version: "1".into(),
        entry: "index.html".into(),
        sdk_version: "1".into(),
    }
}

#[test]
fn theme_paths_are_checked() {
    assert!(is_safe_theme_id("basic"));
    assert!(!is_safe_theme_id("basic/inner"));
    assert!(!is_safe_theme_id(".."));
    assert!(!is_safe_theme_id(""));
    assert!(!is_safe_theme_id("/basic"));
    assert!(is_safe_relative_path("index.html"));
    assert!(is_safe_relative_path("assets/app.js"));
    assert!(!is_safe_relative_path("../other/index.html"));
    assert!(!is_safe_relative_path("./index.html"));
    assert!(!is_safe_relative_path("/etc/passwd"));
}

#[test]
fn theme_manifests_are_accepted_once() {
    let mut seen = Vec::new();
    assert_eq!(
        accept_theme_manifest(&manifest(" basic ", "Basic", " index.html "), true, &mut seen),
        Some(("basic".to_string(), "index.html".to_string()))
    );
    assert_eq!(accept_theme_manifest(&manifest("basic", "Again", "index.html"), true, &mut seen), None);
    // Skipped themes claim nothing.
    assert_eq!(accept_theme_manifest(&manifest("dark", "  ", "index.html"), true, &mut seen), None);
    assert_eq!(accept_theme_manifest(&manifest("neon", "Neon", "../x.html"), true, &mut seen), None);
    assert_eq!(accept_theme_manifest(&manifest("neon", "Neon", "index.html"), false, &mut seen), None);
    assert_eq!(seen, vec!["basic".to_string()]);
    assert_eq!(
        accept_theme_manifest(&manifest("neon", "Neon", "index.html"), true, &mut seen),
        Some(("neon".to_string(), "index.html".to_string()))
    );
    assert_eq!(
        accept_theme_manifest(&manifest("dark", "Dark", "index.html"), true, &mut seen),
        Some(("dark".to_string(), "index.html".to_string()))
    );
}

#[test]
fn theme_candidates_are_checked_before_the_entry() {
    assert_eq!(
        theme_candidate(&manifest(" a ", "A", " index.html ")),
        Some(("a".to_string(), "index.html".to_string()))
    );
    assert_eq!(theme_candidate(&manifest("a", "A", "/etc/passwd")), None);
    assert_eq!(theme_candidate(&manifest("a/b", "A", "index.html")), None);
}

#[test]
fn theme_info_keeps_fields() {
    let info = theme_info(manifest(" basic ", "Basic", "index.html"), "basic".into(), "index.html".into());
    assert_eq!(info.id, "basic");
    assert_eq!(info.name, "Basic");
    assert_eq!(info.version, "1.0.0");
    assert_eq!(info.entry, "index.html");
    assert_eq!(info.sdk_version, "1");
}

#[test]
fn themes_sort_by_lowercase_name_stably() {
    let sorted = sort_themes(vec![theme("beta"), theme("Alpha"), theme("ALPHA"), theme("alpha"), theme("Gamma")]);
    let names: Vec<&str> = sorted.iter().map(|t| t.name.as_str()).collect();
    assert_eq!(names, vec!["Alpha", "ALPHA", "alpha", "beta", "Gamma"]);
    assert!(sort_themes(Vec::new()).is_empty());
}

#[test]
fn scans_accept_each_theme_id_once() {
    let found = vec![
        (manifest("basic", "Basic", "index.html"), true),
        (manifest(" basic", "Copy", "index.html"), true),
        (manifest("neon", "", "index.html"), true),
        (manifest("neon", "Neon", "../escape.html"), true),
        (manifest("neon", "Neon missing", "index.html"), false),
        (manifest("neon", "Neon again", "index.html"), true),
        (manifest("dark/inner", "Dark", "index.html"), true),
        (manifest("dark", "Dark", "index.html"), true),
    ];
    let chosen: Vec<Option<(String, String)>> = select_theme_manifests(&found);
    assert_eq!(
        chosen,
        vec![
            Some(("basic".to_string(), "index.html".to_string())),
            None,
            None,
            None,
            None,
            Some(("neon".to_string(), "index.html".to_string())),
            None,
            Some(("dark".to_string(), "index.html".to_string())),
        ]
    );
}
