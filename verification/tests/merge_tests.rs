use lyrics_plus::json::{json_pointer, JsonNumber, JsonValue};
use lyrics_plus::merge::merge_json;

fn n(v: u64) -> JsonValue {
    JsonValue::Number(JsonNumber { unsigned: Some(v), text: v.to_string() })
}

fn obj(members: Vec<(&str, JsonValue)>) -> JsonValue {
    JsonValue::Object(members.into_iter().map(|(k, v)| (k.to_string(), v)).collect())
}

fn number_at(v: &JsonValue, pointer: &str) -> Option<u64> {
    match json_pointer(v, pointer) {
        Some(JsonValue::Number(number)) => number.unsigned,
        _ => None,
    }
}

fn keys(v: &JsonValue) -> Vec<String> {
    match v {
        JsonValue::Object(members) => members.iter().map(|(k, _)| k.clone()).collect(),
        _ => Vec::new(),
    }
}

#[test]
fn objects_merge_member_by_member() {
    let mut base = obj(vec![
        ("app", obj(vec![("theme", n(1)), ("language", n(2))])),
        ("overlay", obj(vec![("width", n(3))])),
    ]);
    let over = obj(vec![
        ("app", obj(vec![("language", n(7)), ("extra", n(8))])),
        ("lyrics", n(9)),
    ]);
    merge_json(&mut base, over);
    assert_eq!(keys(&base), vec!["app", "overlay", "lyrics"]);
    assert_eq!(keys(json_pointer(&base, "/app").unwrap()), vec!["theme", "language", "extra"]);
    assert_eq!(number_at(&base, "/app/theme"), Some(1));
    assert_eq!(number_at(&base, "/app/language"), Some(7));
    assert_eq!(number_at(&base, "/app/extra"), Some(8));
    assert_eq!(number_at(&base, "/overlay/width"), Some(3));
    assert_eq!(number_at(&base, "/lyrics"), Some(9));
}

#[test]
fn non_objects_are_replaced() {
    let mut base = obj(vec![("a", obj(vec![("b", n(1))]))]);
    merge_json(&mut base, obj(vec![("a", n(5))]));
    assert_eq!(number_at(&base, "/a"), Some(5));
    let mut scalar = n(1);
    merge_json(&mut scalar, obj(vec![("c", n(2))]));
    assert_eq!(number_at(&scalar, "/c"), Some(2));
    let mut object = obj(vec![("c", n(2))]);
    merge_json(&mut object, JsonValue::Null);
    assert!(matches!(object, JsonValue::Null));
}
