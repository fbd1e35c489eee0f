use lyrics_plus::config::SystemMediaFilterMode;
use lyrics_plus::draft::{
    draft_schema_version, is_app_config_key, prepare_draft, legacy_filter_mode, validate_field_types_and_options, validate_known_fields, validate_language_preference,
    validate_string_option,
};
use lyrics_plus::json::{json_pointer, JsonNumber, JsonValue};

fn s(v: &str) -> JsonValue {
    JsonValue::String(v.to_string())
}

fn n(v: u64) -> JsonValue {
    JsonValue::Number(JsonNumber { unsigned: Some(v), text: v.to_string() })
}

fn obj(members: Vec<(&str, JsonValue)>) -> JsonValue {
    JsonValue::Object(members.into_iter().map(|(k, v)| (k.to_string(), v)).collect())
}

#[test]
fn unknown_fields_are_reported_at_their_key() {
    let raw = "{\"schemaVersion\": 55, \"mystery\": true}";
    let value = obj(vec![("schemaVersion", n(55)), ("mystery", JsonValue::Bool(true))]);
    let error = validate_known_fields(&value, raw).unwrap_err();
    assert_eq!(error.message, "未知配置字段：mystery");
    assert_eq!((error.line, error.column), (1, 23));
    let nested_raw = "{\n  \"app\": {\n    \"colour\": \"x\"\n  }\n}";
    let nested = obj(vec![("app", obj(vec![("colour", s("x"))]))]);
    let error = validate_known_fields(&nested, nested_raw).unwrap_err();
    assert_eq!(error.message, "未知配置字段：colour");
    assert_eq!((error.line, error.column), (3, 5));
    let fine = obj(vec![("app", obj(vec![("theme", s("dark"))]))]);
    assert!(validate_known_fields(&fine, "{}").is_ok());
}

#[test]
fn field_types_and_options_are_checked() {
    let raw = "{\"app\": {\"hideDockIcon\": 1}}";
    let value = obj(vec![("app", obj(vec![("hideDockIcon", n(1))]))]);
    let error = validate_field_types_and_options(&value, raw).unwrap_err();
    assert_eq!(error.message, "hideDockIcon 必须是布尔值");
    assert_eq!(error.column, 10);
    let theme = obj(vec![("app", obj(vec![("theme", s("blue"))]))]);
    let error = validate_field_types_and_options(&theme, "{}").unwrap_err();
    assert_eq!(error.message, "theme 可选值：system、light、dark");
    let app_not_object = obj(vec![("app", n(3))]);
    assert_eq!(validate_field_types_and_options(&app_not_object, "{}").unwrap_err().message, "app 必须是对象");
    let port = obj(vec![("laboratory", obj(vec![("server", obj(vec![("port", s("80"))]))]))]);
    assert_eq!(validate_field_types_and_options(&port, "{}").unwrap_err().message, "port 必须是整数");
    let good = obj(vec![("app", obj(vec![("theme", s("light")), ("hideDockIcon", JsonValue::Bool(false))]))]);
    assert!(validate_field_types_and_options(&good, "{}").is_ok());
}

#[test]
fn language_and_string_options() {
    let bad = obj(vec![("app", obj(vec![("language", s("x"))]))]);
    assert_eq!(
        validate_language_preference(&bad, "{}").unwrap_err().message,
        "language 必须是 system 或有效的 BCP 47 语言标签"
    );
    let good = obj(vec![("app", obj(vec![("language", s("en-US"))]))]);
    assert!(validate_language_preference(&good, "{}").is_ok());
    let value = obj(vec![("mode", s("c"))]);
    let error = validate_string_option(&value, "{}", "/mode", "mode", &["a", "b"]).unwrap_err();
    assert_eq!(error.message, "mode 可选值：a、b");
    assert!(validate_string_option(&value, "{}", "/missing", "mode", &["a"]).is_ok());
}

#[test]
fn pointers_walk_object_members() {
    let value = obj(vec![("a", obj(vec![("b", n(7))]))]);
    assert!(matches!(json_pointer(&value, "/a/b"), Some(JsonValue::Number(_))));
    assert!(json_pointer(&value, "/a/c").is_none());
    assert!(json_pointer(&value, "a").is_none());
    assert!(matches!(json_pointer(&value, ""), Some(JsonValue::Object(_))));
}

#[test]
fn schema_versions_of_drafts() {
    assert_eq!(draft_schema_version(&obj(vec![]), "{}").unwrap(), 55);
    assert_eq!(draft_schema_version(&obj(vec![("schemaVersion", n(23))]), "{}").unwrap(), 23);
    let error = draft_schema_version(&obj(vec![("schemaVersion", n(60))]), "{\"schemaVersion\": 60}").unwrap_err();
    assert_eq!(error.message, "配置文件版本 60 高于当前支持的版本 55");
    assert_eq!((error.line, error.column), (1, 2));
    assert_eq!(
        draft_schema_version(&obj(vec![("schemaVersion", n(70000))]), "{}").unwrap_err().message,
        "schemaVersion 超出支持范围"
    );
    let negative = JsonValue::Number(JsonNumber { unsigned: None, text: "-1".into() });
    assert_eq!(
        draft_schema_version(&obj(vec![("schemaVersion", negative)]), "{}").unwrap_err().message,
        "schemaVersion 必须是正整数"
    );
    assert_eq!(
        draft_schema_version(&obj(vec![("schemaVersion", s("1"))]), "{}").unwrap_err().message,
        "schemaVersion 必须是数字"
    );
    assert_eq!(draft_schema_version(&JsonValue::Array(vec![]), "[]").unwrap_err().message, "配置根节点必须是对象");
    assert!(is_app_config_key("shortcuts"));
    assert!(!is_app_config_key("artwork"));
    let listed = obj(vec![("systemMediaApplications", JsonValue::Array(vec![obj(vec![])]))]);
    assert_eq!(legacy_filter_mode(Some(&listed), "{}").unwrap(), SystemMediaFilterMode::Allowlist);
    assert_eq!(legacy_filter_mode(Some(&obj(vec![])), "{}").unwrap(), SystemMediaFilterMode::Blocklist);
    assert_eq!(legacy_filter_mode(None, "{}").unwrap(), SystemMediaFilterMode::Blocklist);
    assert_eq!(legacy_filter_mode(Some(&n(1)), "{}").unwrap_err().message, "app 必须是对象");
}

fn member_keys(v: &JsonValue) -> Vec<String> {
    match v {
        JsonValue::Object(members) => members.iter().map(|(k, _)| k.clone()).collect(),
        _ => Vec::new(),
    }
}

fn string_at(v: &JsonValue, pointer: &str) -> Option<String> {
    match json_pointer(v, pointer) {
        Some(JsonValue::String(text)) => Some(text.clone()),
        _ => None,
    }
}

#[test]
fn older_drafts_are_brought_up_to_date() {
    let raw = "{\"schemaVersion\": 23, \"app\": {\"systemMediaApplications\": [\"a\"], \"dockBadge\": 1}}";
    let draft = obj(vec![
        ("schemaVersion", n(23)),
        ("artwork", JsonValue::Bool(true)),
        ("app", obj(vec![("systemMediaApplications", JsonValue::Array(vec![s("a")])), ("dockBadge", n(1))])),
    ]);
    let (version, prepared) = prepare_draft(draft, raw).unwrap();
    assert_eq!(version, 23);
    assert_eq!(member_keys(&prepared), vec!["schemaVersion", "app"]);
    let app = json_pointer(&prepared, "/app").unwrap();
    assert_eq!(member_keys(app), vec!["systemMediaApplications", "systemMediaFilterMode"]);
    assert_eq!(string_at(&prepared, "/app/systemMediaFilterMode").as_deref(), Some("allowlist"));

    let (_, created) = prepare_draft(obj(vec![("schemaVersion", n(3))]), "{}").unwrap();
    assert_eq!(member_keys(&created), vec!["schemaVersion", "app"]);
    assert_eq!(string_at(&created, "/app/systemMediaFilterMode").as_deref(), Some("blocklist"));

    let (_, replaced) = prepare_draft(
        obj(vec![("schemaVersion", n(10)), ("app", obj(vec![("systemMediaFilterMode", s("allowlist"))]))]),
        "{}",
    )
    .unwrap();
    assert_eq!(member_keys(json_pointer(&replaced, "/app").unwrap()), vec!["systemMediaFilterMode"]);
    assert_eq!(string_at(&replaced, "/app/systemMediaFilterMode").as_deref(), Some("blocklist"));
}

#[test]
fn current_drafts_keep_their_app_section() {
    let draft = obj(vec![
        ("artwork", n(1)),
        ("app", obj(vec![("dockBadge", n(1))])),
    ]);
    let (version, prepared) = prepare_draft(draft, "{}").unwrap();
    assert_eq!(version, 55);
    assert_eq!(member_keys(&prepared), vec!["app"]);
    assert_eq!(member_keys(json_pointer(&prepared, "/app").unwrap()), vec!["dockBadge"]);
    let (_, later) = prepare_draft(obj(vec![("schemaVersion", n(30)), ("app", n(4))]), "{}").unwrap();
    assert!(matches!(json_pointer(&later, "/app"), Some(JsonValue::Number(_))));
}

#[test]
fn prepared_drafts_refuse_bad_roots_and_sections() {
    let error = prepare_draft(JsonValue::Array(Vec::new()), "[]").unwrap_err();
    assert_eq!(error.message, "配置根节点必须是对象");
    let raw = "{\"schemaVersion\": 20, \"app\": 4}";
    let error = prepare_draft(obj(vec![("schemaVersion", n(20)), ("app", n(4))]), raw).unwrap_err();
    assert_eq!(error.message, "app 必须是对象");
    assert_eq!((error.line, error.column), (1, 23));
    let error = prepare_draft(obj(vec![("schemaVersion", n(99))]), "{\"schemaVersion\": 99}").unwrap_err();
    assert_eq!(error.message, "配置文件版本 99 高于当前支持的版本 55");
}

#[test]
fn overlay_colours_are_checked() {
    let raw = "{\"overlay\": {\"appearance\": {\"activeColor\": \"nope\"}}}";
    let value = obj(vec![("overlay", obj(vec![("appearance", obj(vec![("activeColor", s("nope"))]))]))]);
    let error = validate_field_types_and_options(&value, raw).unwrap_err();
    assert_eq!(error.message, "activeColor 不是有效颜色");
    let value = obj(vec![("overlay", obj(vec![("appearance", obj(vec![("textStrokeColor", n(3))]))]))]);
    let error = validate_field_types_and_options(&value, "{}").unwrap_err();
    assert_eq!(error.message, "textStrokeColor 必须是颜色字符串");
    let value = obj(vec![("overlay", obj(vec![("appearance", obj(vec![("solidColor", s("#112233"))]))]))]);
    assert!(validate_field_types_and_options(&value, "{}").is_ok());
}

#[test]
fn draft_text_is_checked_end_to_end() {
    use_check();
}

fn use_check() {
    let (version, value) = lyrics_plus::draft_text::check_config_draft(
        "// settings\n{\"schemaVersion\": 55, \"overlay\": {\"appearance\": {\"activeColor\": \"#fff\",}}}",
    )
    .unwrap();
    assert_eq!(version, 55);
    assert!(json_pointer(&value, "/overlay/appearance/activeColor").is_some());
    let error = lyrics_plus::draft_text::check_config_draft("{\"a\": }").unwrap_err();
    assert!(error.message.starts_with("JSONC 语法错误："));
    assert_eq!(error.line, 1);
    let error = lyrics_plus::draft_text::check_config_draft("{ /* open").unwrap_err();
    assert_eq!(error.message, "块注释没有结束");
    assert_eq!((error.line, error.column), (1, 3));
    let error = lyrics_plus::draft_text::check_config_draft(
        "{\n  \"overlay\": {\"appearance\": {\"activeColor\": \"nope\"}}\n}",
    )
    .unwrap_err();
    assert_eq!(error.message, "activeColor 不是有效颜色");
    assert_eq!(error.line, 2);
    let error = lyrics_plus::draft_text::check_config_draft("[1]").unwrap_err();
    assert_eq!(error.message, "配置根节点必须是对象");
}
