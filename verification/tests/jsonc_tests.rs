use lyrics_plus::jsonc::{error_at_key, sanitize_jsonc};

#[test]
fn sanitize_blanks_comments_and_trailing_commas() {
    let raw = "{\n  // note\n  \"a\": 1, /* more */\n  \"b\": [1, 2,],\n}";
    let out = sanitize_jsonc(raw).unwrap();
    let expected = format!(
        "{{\n{}\n  \"a\": 1,{}\n  \"b\": [1, 2 ] \n}}",
        " ".repeat(9),
        " ".repeat(11)
    );
    assert_eq!(out, expected);
    assert_eq!(out.chars().count(), raw.chars().count());
}

#[test]
fn sanitize_keeps_comment_markers_inside_strings() {
    let raw = "{\"url\": \"http://x/*y*/\", \"q\": \"a\\\"//b\"}";
    assert_eq!(sanitize_jsonc(raw).unwrap(), raw);
}

#[test]
fn sanitize_reports_an_unterminated_block_comment() {
    let error = sanitize_jsonc("{\n  \"a\": 1 /* open").unwrap_err();
    assert_eq!(error.message, "块注释没有结束");
    assert_eq!(error.line, 2);
    assert_eq!(error.column, 10);
}

#[test]
fn error_at_key_points_at_the_quoted_key() {
    let raw = "{\n  \"app\": {\n    \"theme\": 3\n  }\n}";
    let error = error_at_key(raw, "theme", "theme 必须是字符串");
    assert_eq!(error.message, "theme 必须是字符串");
    assert_eq!(error.line, 3);
    assert_eq!(error.column, 5);
    let missing = error_at_key(raw, "nothing", "x");
    assert_eq!((missing.line, missing.column), (1, 1));
}

#[test]
fn internal_errors_are_reported_at_the_start() {
    let error = lyrics_plus::jsonc::internal_draft_error("disk full");
    assert_eq!(error.message, "处理配置失败：disk full");
    assert_eq!((error.line, error.column), (1, 1));
}
