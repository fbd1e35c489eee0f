use vstd::prelude::*;

use crate::draft::{
    draft_prepared, draft_version_spec, field_type_rule, known_field_rule, prepare_draft, rule_table,
    validate_field_types_and_options, validate_known_fields, without_member, FIELD_TYPE_RULE_COUNT,
    KNOWN_FIELD_RULE_COUNT,
};
use crate::json::{rules_outcome, DraftFailure, JsonNumber, JsonValue};
use crate::jsonc::{
    error_at_key_spec, sanitize_jsonc, sanitize_jsonc_spec, unterminated_comment_message, ConfigDraftError,
};
use crate::text::{push_str, string_from_chars};

verus! {

#[verifier::external_type_specification]
#[verifier::external_body]
pub struct ExSerdeJsonValue(serde_json::Value);

/// What `serde_json::from_str::<serde_json::Value>` makes of a JSON text, in
/// the library's model: the document, or serde_json's message, line and
/// column.
pub uninterp spec fn json_text_parse(text: Seq<char>) -> Result<JsonValue, (Seq<char>, usize, usize)>;

/// Converts a `serde_json::Value` into the library's model, one arm per
/// variant; a number keeps `as_u64` and its text, an object its members in
/// serde_json's order. It serves `parse_json_text` only.
#[verifier::external_body]
fn json_model(value: &serde_json::Value) -> JsonValue {
    match value {
        serde_json::Value::Null => JsonValue::Null,
        serde_json::Value::Bool(b) => JsonValue::Bool(*b),
        serde_json::Value::Number(n) => JsonValue::Number(JsonNumber { unsigned: n.as_u64(), text: n.to_string() }),
        serde_json::Value::String(s) => JsonValue::String(s.clone()),
        serde_json::Value::Array(items) => JsonValue::Array(items.iter().map(json_model).collect()),
        serde_json::Value::Object(map) => JsonValue::Object(
            map.iter().map(|(key, member)| (key.clone(), json_model(member))).collect(),
        ),
    }
}

/// Parses JSON text with `serde_json::from_str::<serde_json::Value>`; an
/// error gives serde_json's message (its `Display`), line and column. The
/// result depends on the text alone; nothing more of it is claimed.
#[verifier::external_body]
fn parse_json_text(text: &str) -> (r: Result<JsonValue, (String, usize, usize)>)
    ensures
        match r {
            Ok(v) => json_text_parse(text@) == Ok::<JsonValue, (Seq<char>, usize, usize)>(v),
            Err((m, l, c)) => json_text_parse(text@) == Err::<JsonValue, (Seq<char>, usize, usize)>(
                (m@, l, c),
            ),
        },
{
    match serde_json::from_str::<serde_json::Value>(text) {
        Ok(value) => Ok(json_model(&value)),
        Err(error) => Err((error.to_string(), error.line(), error.column())),
    }
}

/// The member keys of a draft that are not allowed, the first one reported.
pub open spec fn known_fields_outcome(v: JsonValue) -> Result<(), DraftFailure> {
    rules_outcome(v, rule_table(KNOWN_FIELD_RULE_COUNT as int, |i: int| known_field_rule(i)))
}

/// The first member of wrong type or unknown option.
pub open spec fn field_types_outcome(v: JsonValue) -> Result<(), DraftFailure> {
    rules_outcome(v, rule_table(FIELD_TYPE_RULE_COUNT as int, |i: int| field_type_rule(i)))
}

/// The field checks in the order they run: known keys, then types and
/// options.
pub open spec fn field_checks_outcome(v: JsonValue) -> Result<(), DraftFailure> {
    match known_fields_outcome(v) {
        Err(f) => Err(f),
        Ok(_) => field_types_outcome(v),
    }
}

/// `p` is the draft `user` brought up to schema `v`.
pub open spec fn prepared_value(user: JsonValue, v: u16, p: JsonValue) -> bool {
    user matches JsonValue::Object(entries) && p matches JsonValue::Object(out) && draft_prepared(
        entries@,
        v,
        out@,
    )
}

/// The error of the syntax of a draft.
pub open spec fn syntax_error_message(message: Seq<char>) -> Seq<char> {
    "JSONC 语法错误："@ + message
}

/// What checking a parsed draft `user` gives: the root must be an object
/// with a readable schema version; an older draft must have an object `app`
/// when it predates the filter mode; then the draft, brought up to date,
/// passes the field checks and is returned with its version.
pub open spec fn parsed_draft_outcome(
    user: JsonValue,
    raw: Seq<char>,
    r: Result<(u16, JsonValue), ConfigDraftError>,
) -> bool {
    if !(user is Object) {
        r matches Err(e) && e.message@ == "配置根节点必须是对象"@ && e.line == 1 && e.column == 1
    } else {
        match draft_version_spec(user) {
            Err((key, message)) => r matches Err(e) && error_at_key_spec(e, raw, key, message),
            Ok(v) => {
                let e = without_member(user->Object_0@, "artwork"@);
                let app = crate::json::first_key_index(e, "app"@);
                if v < 24 && (app matches Some(j) && !(e[j].1 is Object)) {
                    r matches Err(err) && error_at_key_spec(err, raw, "app"@, "app 必须是对象"@)
                } else {
                    exists|p: JsonValue|
                        #[trigger] prepared_value(user, v, p) && match field_checks_outcome(p) {
                            Err(f) => r matches Err(err) && error_at_key_spec(err, raw, f.0, f.1),
                            Ok(_) => r == Ok::<(u16, JsonValue), ConfigDraftError>((v, p)),
                        }
                }
            },
        }
    }
}

/// Checks the text of a configuration draft: comments and trailing commas
/// are blanked, the JSON is parsed, the draft is brought up to the current
/// schema and its keys, types and options are checked. Returns the draft's
/// schema version and the prepared document; numeric ranges are not
/// checked here.
pub fn check_config_draft(raw: &str) -> (r: Result<(u16, JsonValue), ConfigDraftError>)
    requires
        raw@.len() < usize::MAX,
    ensures
        match sanitize_jsonc_spec(raw@) {
            Err((line, column)) => r matches Err(e) && e.message@ == unterminated_comment_message()
                && e.line == line && e.column == column,
            Ok(text) => match json_text_parse(text) {
                Err((message, line, column)) => r matches Err(e) && e.message@ == syntax_error_message(
                    message,
                ) && e.line == line && e.column == column,
                Ok(user) => parsed_draft_outcome(user, raw@, r),
            },
        },
{
    let sanitized = match sanitize_jsonc(raw) {
        Ok(s) => s,
        Err(e) => return Err(e),
    };
    let user = match parse_json_text(sanitized.as_str()) {
        Ok(v) => v,
        Err((message, line, column)) => {
            let mut text: Vec<char> = Vec::new();
            push_str(&mut text, "JSONC 语法错误：");
            push_str(&mut text, message.as_str());
            return Err(ConfigDraftError { message: string_from_chars(&text), line, column });
        },
    };
    let ghost parsed = user;
    let (version, prepared) = match prepare_draft(user, raw) {
        Ok(x) => x,
        Err(e) => return Err(e),
    };
    assert(prepared_value(parsed, version, prepared));
    match validate_known_fields(&prepared, raw) {
        Ok(()) => {},
        Err(e) => return Err(e),
    }
    match validate_field_types_and_options(&prepared, raw) {
        Ok(()) => {},
        Err(e) => return Err(e),
    }
    Ok((version, prepared))
}

} // verus!
