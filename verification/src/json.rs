use vstd::prelude::*;

use crate::jsonc::{error_at_key, error_at_key_spec, ConfigDraftError};
use crate::text::{chars_of, pieces_view, push_chars, push_str, split_chars, split_spec, str_eq_chars, string_from_chars};

verus! {

/// A JSON number: its unsigned integer value when it has one, and its text.
#[derive(Debug, Clone)]
pub struct JsonNumber {
    pub unsigned: Option<u64>,
    pub text: String,
}

/// A JSON document, with object members in the order the parser keeps them.
#[derive(Debug)]
pub enum JsonValue {
    Null,
    Bool(bool),
    Number(JsonNumber),
    String(String),
    Array(Vec<JsonValue>),
    Object(Vec<(String, JsonValue)>),
}

/// A rejected draft, as the key it is reported at and the message.
pub type DraftFailure = (Seq<char>, Seq<char>);

/// `r` is the outcome that `expected` describes, with the error placed at its
/// key in `raw`.
pub open spec fn draft_outcome(
    r: Result<(), ConfigDraftError>,
    raw: Seq<char>,
    expected: Result<(), DraftFailure>,
) -> bool {
    match expected {
        Ok(_) => r is Ok,
        Err(f) => r matches Err(e) && error_at_key_spec(e, raw, f.0, f.1),
    }
}

/// The position of the first member with this key.
pub open spec fn first_key_index(entries: Seq<(String, JsonValue)>, key: Seq<char>) -> Option<int>
    decreases entries.len(),
{
    if entries.len() == 0 {
        None
    } else if entries[0].0@ == key {
        Some(0)
    } else {
        match first_key_index(entries.drop_first(), key) {
            Some(i) => Some(i + 1),
            None => None,
        }
    }
}

/// The member of an object with this key; `None` for anything else.
pub open spec fn get_spec(v: JsonValue, key: Seq<char>) -> Option<JsonValue> {
    match v {
        JsonValue::Object(entries) => match first_key_index(entries@, key) {
            Some(i) => Some(entries@[i].1),
            None => None,
        },
        _ => None,
    }
}

/// The value that a sequence of member keys leads to.
pub open spec fn walk_spec(v: JsonValue, tokens: Seq<Seq<char>>) -> Option<JsonValue>
    decreases tokens.len(),
{
    if tokens.len() == 0 {
        Some(v)
    } else {
        match get_spec(v, tokens[0]) {
            Some(c) => walk_spec(c, tokens.drop_first()),
            None => None,
        }
    }
}

/// The value at a JSON pointer made of member keys (`""` is the document,
/// `"/a/b"` the member `b` of the member `a`).
pub open spec fn pointer_spec(v: JsonValue, pointer: Seq<char>) -> Option<JsonValue> {
    if pointer.len() == 0 {
        Some(v)
    } else if pointer[0] != '/' {
        None
    } else {
        walk_spec(v, split_spec(pointer.drop_first(), '/'))
    }
}

pub proof fn lemma_first_key_index_bounds(entries: Seq<(String, JsonValue)>, key: Seq<char>)
    ensures
        first_key_index(entries, key) matches Some(i) ==> 0 <= i < entries.len() && entries[i].0@
            == key,
        first_key_index(entries, key) is None ==> forall|j: int|
            0 <= j < entries.len() ==> (#[trigger] entries[j]).0@ != key,
    decreases entries.len(),
{
    if entries.len() > 0 {
        lemma_first_key_index_bounds(entries.drop_first(), key);
        if first_key_index(entries, key) is None {
            assert forall|j: int| 0 <= j < entries.len() implies (#[trigger] entries[j]).0@ != key by {
                if j > 0 {
                    assert(entries[j] == entries.drop_first()[j - 1]);
                }
            }
        }
    }
}

/// The member of an object with this key.
#[verifier::loop_isolation(false)]
pub fn json_get<'a>(v: &'a JsonValue, key: &Vec<char>) -> (r: Option<&'a JsonValue>)
    ensures
        match r {
            Some(x) => get_spec(*v, key@) == Some(*x),
            None => get_spec(*v, key@) is None,
        },
{
    match v {
        JsonValue::Object(entries) => {
            let mut i: usize = 0;
            assert(entries@.subrange(0, entries@.len() as int) == entries@);
            while i < entries.len()
                invariant
                    i <= entries@.len(),
                    first_key_index(entries@, key@) == match first_key_index(
                        entries@.subrange(i as int, entries@.len() as int),
                        key@,
                    ) {
                        Some(j) => Some(j + i),
                        None => None,
                    },
                decreases entries@.len() - i,
            {
                let ghost rest = entries@.subrange(i as int, entries@.len() as int);
                if str_eq_chars(entries[i].0.as_str(), key) {
                    assert(rest[0] == entries@[i as int]);
                    return Some(&entries[i].1);
                }
                assert(rest.drop_first() == entries@.subrange(i + 1, entries@.len() as int));
                i = i + 1;
            }
            assert(entries@.subrange(i as int, entries@.len() as int).len() == 0);
            None
        },
        _ => None,
    }
}

/// The value at a JSON pointer made of member keys.
pub fn json_pointer<'a>(v: &'a JsonValue, pointer: &str) -> (r: Option<&'a JsonValue>)
    ensures
        match r {
            Some(x) => pointer_spec(*v, pointer@) == Some(*x),
            None => pointer_spec(*v, pointer@) is None,
        },
{
    let p = chars_of(pointer);
    if p.len() == 0 {
        return Some(v);
    }
    if p[0] != '/' {
        return None;
    }
    let mut rest: Vec<char> = Vec::new();
    let mut k: usize = 1;
    while k < p.len()
        invariant
            1 <= k <= p@.len(),
            rest@ == p@.subrange(1, k as int),
        decreases p@.len() - k,
    {
        rest.push(p[k]);
        k = k + 1;
    }
    assert(rest@ == p@.drop_first());
    let tokens = split_chars(&rest, '/');
    let ghost tv = pieces_view(tokens@);
    let mut cur: &JsonValue = v;
    let mut i: usize = 0;
    assert(tv.subrange(0, tv.len() as int) == tv);
    while i < tokens.len()
        invariant
            i <= tokens@.len(),
            tv == pieces_view(tokens@),
            pointer_spec(*v, pointer@) == walk_spec(*cur, tv.subrange(i as int, tv.len() as int)),
        decreases tokens@.len() - i,
    {
        let ghost sub = tv.subrange(i as int, tv.len() as int);
        assert(sub[0] == tokens@[i as int]@);
        assert(sub.drop_first() == tv.subrange(i + 1, tv.len() as int));
        match json_get(cur, &tokens[i]) {
            Some(next) => {
                cur = next;
            },
            None => {
                return None;
            },
        }
        i = i + 1;
    }
    Some(cur)
}

/// The message for an unknown member.
pub open spec fn unknown_field_message(key: Seq<char>) -> Seq<char> {
    "未知配置字段："@ + key
}

/// Whether a key is one of the allowed ones.
pub open spec fn key_allowed(allowed: Seq<Seq<char>>, key: Seq<char>) -> bool {
    exists|i: int| 0 <= i < allowed.len() && allowed[i] == key
}

/// The position of the first member whose key is not allowed.
pub open spec fn first_unknown_key(entries: Seq<(String, JsonValue)>, allowed: Seq<Seq<char>>) -> Option<int>
    decreases entries.len(),
{
    if entries.len() == 0 {
        None
    } else if !key_allowed(allowed, entries[0].0@) {
        Some(0)
    } else {
        match first_unknown_key(entries.drop_first(), allowed) {
            Some(i) => Some(i + 1),
            None => None,
        }
    }
}

/// An object passes when every member key is allowed; the first member that
/// is not fails it. Anything but an object passes.
pub open spec fn check_keys_spec(v: JsonValue, allowed: Seq<Seq<char>>) -> Result<(), DraftFailure> {
    match v {
        JsonValue::Object(entries) => match first_unknown_key(entries@, allowed) {
            Some(i) => Err((entries@[i].0@, unknown_field_message(entries@[i].0@))),
            None => Ok(()),
        },
        _ => Ok(()),
    }
}

fn key_in(allowed: &Vec<Vec<char>>, key: &str) -> (r: bool)
    ensures
        r == key_allowed(pieces_view(allowed@), key@),
{
    let ghost av = pieces_view(allowed@);
    let mut i: usize = 0;
    while i < allowed.len()
        invariant
            i <= allowed@.len(),
            av == pieces_view(allowed@),
            forall|j: int| 0 <= j < i ==> av[j] != key@,
        decreases allowed@.len() - i,
    {
        if str_eq_chars(key, &allowed[i]) {
            assert(av[i as int] == key@);
            return true;
        }
        i = i + 1;
    }
    false
}

/// Rejects the first member of an object whose key is not allowed, at that
/// key's place in the draft.
#[verifier::loop_isolation(false)]
pub fn check_keys_in(value: &JsonValue, raw: &str, allowed: &Vec<Vec<char>>) -> (r: Result<(), ConfigDraftError>)
    requires
        raw@.len() < usize::MAX,
    ensures
        draft_outcome(r, raw@, check_keys_spec(*value, pieces_view(allowed@))),
{
    match value {
        JsonValue::Object(entries) => {
            let ghost av = pieces_view(allowed@);
            let mut i: usize = 0;
            assert(entries@.subrange(0, entries@.len() as int) == entries@);
            while i < entries.len()
                invariant
                    i <= entries@.len(),
                    av == pieces_view(allowed@),
                    raw@.len() < usize::MAX,
                    first_unknown_key(entries@, av) == match first_unknown_key(
                        entries@.subrange(i as int, entries@.len() as int),
                        av,
                    ) {
                        Some(j) => Some(j + i),
                        None => None,
                    },
                decreases entries@.len() - i,
            {
                let ghost rest = entries@.subrange(i as int, entries@.len() as int);
                let key = &entries[i].0;
                if !key_in(allowed, key.as_str()) {
                    assert(rest[0] == entries@[i as int]);
                    let mut message = chars_of("未知配置字段：");
                    push_str(&mut message, key.as_str());
                    let message = string_from_chars(&message);
                    return Err(error_at_key(raw, key.as_str(), message.as_str()));
                }
                assert(rest.drop_first() == entries@.subrange(i + 1, entries@.len() as int));
                i = i + 1;
            }
            assert(entries@.subrange(i as int, entries@.len() as int).len() == 0);
            Ok(())
        },
        _ => Ok(()),
    }
}

/// The views of a slice of string slices.
pub open spec fn strs_view(v: Seq<&str>) -> Seq<Seq<char>> {
    v.map_values(|s: &str| s@)
}

/// The characters of each string slice.
pub fn strs_to_chars(v: &[&str]) -> (r: Vec<Vec<char>>)
    ensures
        pieces_view(r@) == strs_view(v@),
{
    let mut out: Vec<Vec<char>> = Vec::new();
    let mut i: usize = 0;
    while i < v.len()
        invariant
            i <= v@.len(),
            pieces_view(out@) == strs_view(v@).take(i as int),
        decreases v@.len() - i,
    {
        let ghost before = pieces_view(out@);
        let c = chars_of(v[i]);
        out.push(c);
        assert(pieces_view(out@) == before.push(c@));
        assert(strs_view(v@).take(i + 1) == strs_view(v@).take(i as int).push(v@[i as int]@));
        i = i + 1;
    }
    assert(strs_view(v@).take(v@.len() as int) == strs_view(v@));
    out
}

/// Rejects the first member of an object whose key is not in `allowed`.
pub fn check_keys(value: &JsonValue, raw: &str, allowed: &[&str]) -> (r: Result<(), ConfigDraftError>)
    requires
        raw@.len() < usize::MAX,
    ensures
        draft_outcome(r, raw@, check_keys_spec(*value, strs_view(allowed@))),
{
    let allowed = strs_to_chars(allowed);
    check_keys_in(value, raw, &allowed)
}

} // verus!

verus! {

/// What a rule demands of the value at its pointer; a missing value passes
/// every check.
#[derive(Clone, Copy)]
pub enum FieldCheck {
    /// An object.
    Object,
    /// `true` or `false`.
    Boolean,
    /// A non-negative integer that fits in 64 bits.
    Integer,
    /// A string.
    Str,
    /// A string or `null`.
    StrOrNull,
    /// A string among the comma-separated options.
    OneOf(&'static str),
    /// The language preference.
    Language,
    /// An array of objects with string `name` and `bundleId`.
    NamedApps,
    /// `null`, or an object with string `name` and `bundleId`.
    NamedAppOrNull,
    /// An array of lyric provider entries, each with a string `id` and a
    /// boolean `enabled`.
    ProviderItems,
    /// A string that is not blank.
    NonBlank,
    /// A supported colour string.
    Color,
    /// Only the comma-separated member keys, if it is an object.
    Keys(&'static str),
    /// Only the comma-separated member keys in each element, if it is an array.
    KeysEach(&'static str),
}

/// A check of the value at a JSON pointer, reported at `key`.
#[derive(Clone, Copy)]
pub struct FieldRule {
    pub pointer: &'static str,
    pub key: &'static str,
    pub check: FieldCheck,
}

/// The pieces joined with `sep` between neighbours.
pub open spec fn join_with(parts: Seq<Seq<char>>, sep: Seq<char>) -> Seq<char>
    decreases parts.len(),
{
    if parts.len() == 0 {
        seq![]
    } else if parts.len() == 1 {
        parts[0]
    } else {
        join_with(parts.drop_last(), sep) + sep + parts.last()
    }
}

/// The first element for which `f` fails, and its failure.
pub open spec fn first_failure(
    items: Seq<JsonValue>,
    f: spec_fn(JsonValue) -> Result<(), DraftFailure>,
) -> Result<(), DraftFailure>
    decreases items.len(),
{
    if items.len() == 0 {
        Ok(())
    } else {
        match f(items[0]) {
            Err(e) => Err(e),
            Ok(_) => first_failure(items.drop_first(), f),
        }
    }
}

/// The member `key` is present and a string.
pub open spec fn has_string_member(v: JsonValue, key: Seq<char>) -> bool {
    get_spec(v, key) matches Some(m) && m is String
}

/// An application entry: an object (else `(k0, m0)`) with string `name` and
/// `bundleId`.
pub open spec fn app_entry_outcome(item: JsonValue, k0: Seq<char>, m0: Seq<char>) -> Result<(), DraftFailure> {
    if !(item is Object) {
        Err((k0, m0))
    } else if !has_string_member(item, "name"@) {
        Err(("name"@, "name 必须是字符串"@))
    } else if !has_string_member(item, "bundleId"@) {
        Err(("bundleId"@, "bundleId 必须是字符串"@))
    } else {
        Ok(())
    }
}

/// A lyric provider entry: an object with a string `id` and a boolean
/// `enabled`, both present.
pub open spec fn provider_entry_outcome(item: JsonValue) -> Result<(), DraftFailure> {
    if !(item is Object) {
        Err(("providers"@, "每个歌词源必须是对象"@))
    } else if get_spec(item, "id"@) matches Some(m) && !(m is String) {
        Err(("id"@, "歌词源 id 必须是字符串"@))
    } else if get_spec(item, "id"@) is None {
        Err(("providers"@, "每个歌词源都必须包含 id"@))
    } else if get_spec(item, "enabled"@) matches Some(m) && !(m is Bool) {
        Err(("enabled"@, "enabled 必须是布尔值"@))
    } else if get_spec(item, "enabled"@) is None {
        Err(("providers"@, "每个歌词源都必须包含 enabled"@))
    } else {
        Ok(())
    }
}

/// The outcome of a check on a present value, reported at `key`.
pub open spec fn check_outcome(t: JsonValue, key: Seq<char>, check: FieldCheck) -> Result<(), DraftFailure> {
    match check {
        FieldCheck::Object => if t is Object {
            Ok(())
        } else {
            Err((key, key + " 必须是对象"@))
        },
        FieldCheck::Boolean => if t is Bool {
            Ok(())
        } else {
            Err((key, key + " 必须是布尔值"@))
        },
        FieldCheck::Integer => if t matches JsonValue::Number(n) && n.unsigned is Some {
            Ok(())
        } else {
            Err((key, key + " 必须是整数"@))
        },
        FieldCheck::Str => if t is String {
            Ok(())
        } else {
            Err((key, key + " 必须是字符串"@))
        },
        FieldCheck::StrOrNull => if t is String || t is Null {
            Ok(())
        } else {
            Err((key, key + " 必须是字符串或 null"@))
        },
        FieldCheck::OneOf(options) => match t {
            JsonValue::String(s) => {
                let opts = split_spec(options@, ',');
                if key_allowed(opts, s@) {
                    Ok(())
                } else {
                    Err((key, key + " 可选值："@ + join_with(opts, "、"@)))
                }
            },
            _ => Err((key, key + " 必须是字符串"@)),
        },
        FieldCheck::Language => match t {
            JsonValue::String(s) => if crate::config::valid_language_spec(s@) {
                Ok(())
            } else {
                Err(("language"@, "language 必须是 system 或有效的 BCP 47 语言标签"@))
            },
            _ => Err(("language"@, "language 必须是字符串"@)),
        },
        FieldCheck::NamedApps => match t {
            JsonValue::Array(items) => first_failure(
                items@,
                |item: JsonValue|
                    app_entry_outcome(item, "systemMediaApplications"@, "系统播放应用必须是对象"@),
            ),
            _ => Err(("systemMediaApplications"@, "systemMediaApplications 必须是数组"@)),
        },
        FieldCheck::NamedAppOrNull => if t is Null {
            Ok(())
        } else {
            app_entry_outcome(
                t,
                "playerFollowerApplication"@,
                "playerFollowerApplication 必须是对象或 null"@,
            )
        },
        FieldCheck::ProviderItems => match t {
            JsonValue::Array(items) => first_failure(
                items@,
                |item: JsonValue| provider_entry_outcome(item),
            ),
            _ => Err(("providers"@, "providers 必须是数组"@)),
        },
        FieldCheck::NonBlank => match t {
            JsonValue::String(s) => if crate::text::trim_spec(s@).len() == 0 {
                Err((key, key + " 不能为空"@))
            } else {
                Ok(())
            },
            _ => Err((key, key + " 必须是字符串"@)),
        },
        FieldCheck::Color => match t {
            JsonValue::String(s) => if crate::config::supported_color_spec(s@) {
                Ok(())
            } else {
                Err((key, key + " 不是有效颜色"@))
            },
            _ => Err((key, key + " 必须是颜色字符串"@)),
        },
        FieldCheck::Keys(allowed) => check_keys_spec(t, split_spec(allowed@, ',')),
        FieldCheck::KeysEach(allowed) => match t {
            JsonValue::Array(items) => first_failure(
                items@,
                |item: JsonValue| check_keys_spec(item, split_spec(allowed@, ',')),
            ),
            _ => Ok(()),
        },
    }
}

/// The outcome of a rule on a document.
pub open spec fn rule_outcome(v: JsonValue, rule: FieldRule) -> Result<(), DraftFailure> {
    match pointer_spec(v, rule.pointer@) {
        None => Ok(()),
        Some(t) => check_outcome(t, rule.key@, rule.check),
    }
}

/// The first rule that a document fails, and its failure.
pub open spec fn rules_outcome(v: JsonValue, rules: Seq<FieldRule>) -> Result<(), DraftFailure>
    decreases rules.len(),
{
    if rules.len() == 0 {
        Ok(())
    } else {
        match rule_outcome(v, rules[0]) {
            Err(e) => Err(e),
            Ok(_) => rules_outcome(v, rules.drop_first()),
        }
    }
}

/// An error at `key` whose message is `key` followed by `suffix`.
pub fn keyed_error(raw: &str, key: &str, suffix: &str) -> (r: ConfigDraftError)
    requires
        raw@.len() < usize::MAX,
    ensures
        error_at_key_spec(r, raw@, key@, key@ + suffix@),
{
    let mut message = chars_of(key);
    push_str(&mut message, suffix);
    let message = string_from_chars(&message);
    error_at_key(raw, key, message.as_str())
}

/// Joins the pieces with `sep` between neighbours.
pub fn join_pieces(parts: &Vec<Vec<char>>, sep: &str) -> (r: Vec<char>)
    ensures
        r@ == join_with(pieces_view(parts@), sep@),
{
    let ghost pv = pieces_view(parts@);
    let mut out: Vec<char> = Vec::new();
    let mut i: usize = 0;
    assert(pv.take(0) == Seq::<Seq<char>>::empty());
    while i < parts.len()
        invariant
            i <= parts@.len(),
            pv == pieces_view(parts@),
            out@ == join_with(pv.take(i as int), sep@),
        decreases parts@.len() - i,
    {
        let ghost cur = pv.take(i + 1);
        assert(cur.drop_last() == pv.take(i as int));
        assert(cur.last() == parts@[i as int]@);
        if i > 0 {
            push_str(&mut out, sep);
        }
        push_chars(&mut out, &parts[i]);
        i = i + 1;
    }
    assert(pv.take(parts@.len() as int) == pv);
    out
}

/// Whether a value is a string member `key` of an object.
fn string_member(v: &JsonValue, key: &str) -> (r: bool)
    ensures
        r == has_string_member(*v, key@),
{
    let k = chars_of(key);
    match json_get(v, &k) {
        Some(JsonValue::String(_)) => true,
        _ => false,
    }
}

fn app_entry_check(raw: &str, item: &JsonValue, k0: &str, m0: &str) -> (r: Result<(), ConfigDraftError>)
    requires
        raw@.len() < usize::MAX,
    ensures
        draft_outcome(r, raw@, app_entry_outcome(*item, k0@, m0@)),
{
    match item {
        JsonValue::Object(_) => {},
        _ => {
            return Err(error_at_key(raw, k0, m0));
        },
    }
    if !string_member(item, "name") {
        return Err(error_at_key(raw, "name", "name 必须是字符串"));
    }
    if !string_member(item, "bundleId") {
        return Err(error_at_key(raw, "bundleId", "bundleId 必须是字符串"));
    }
    Ok(())
}

fn provider_entry_check(raw: &str, item: &JsonValue) -> (r: Result<(), ConfigDraftError>)
    requires
        raw@.len() < usize::MAX,
    ensures
        draft_outcome(r, raw@, provider_entry_outcome(*item)),
{
    match item {
        JsonValue::Object(_) => {},
        _ => {
            return Err(error_at_key(raw, "providers", "每个歌词源必须是对象"));
        },
    }
    let id_key = chars_of("id");
    let enabled_key = chars_of("enabled");
    match json_get(item, &id_key) {
        Some(JsonValue::String(_)) => {},
        Some(_) => {
            return Err(error_at_key(raw, "id", "歌词源 id 必须是字符串"));
        },
        None => {
            return Err(error_at_key(raw, "providers", "每个歌词源都必须包含 id"));
        },
    }
    match json_get(item, &enabled_key) {
        Some(JsonValue::Bool(_)) => {},
        Some(_) => {
            return Err(error_at_key(raw, "enabled", "enabled 必须是布尔值"));
        },
        None => {
            return Err(error_at_key(raw, "providers", "每个歌词源都必须包含 enabled"));
        },
    }
    Ok(())
}

proof fn lemma_first_failure_step(
    items: Seq<JsonValue>,
    f: spec_fn(JsonValue) -> Result<(), DraftFailure>,
    i: int,
)
    requires
        0 <= i < items.len(),
        f(items[i]) is Ok,
    ensures
        first_failure(items.subrange(i, items.len() as int), f) == first_failure(
            items.subrange(i + 1, items.len() as int),
            f,
        ),
{
    let rest = items.subrange(i, items.len() as int);
    assert(rest[0] == items[i]);
    assert(rest.drop_first() == items.subrange(i + 1, items.len() as int));
}

/// Checks the value at the rule's pointer.
#[verifier::loop_isolation(false)]
pub fn check_rule(value: &JsonValue, raw: &str, rule: &FieldRule) -> (r: Result<(), ConfigDraftError>)
    requires
        raw@.len() < usize::MAX,
    ensures
        draft_outcome(r, raw@, rule_outcome(*value, *rule)),
{
    let t = match json_pointer(value, rule.pointer) {
        Some(t) => t,
        None => {
            return Ok(());
        },
    };
    let key = rule.key;
    match rule.check {
        FieldCheck::Object => match t {
            JsonValue::Object(_) => Ok(()),
            _ => Err(keyed_error(raw, key, " 必须是对象")),
        },
        FieldCheck::Boolean => match t {
            JsonValue::Bool(_) => Ok(()),
            _ => Err(keyed_error(raw, key, " 必须是布尔值")),
        },
        FieldCheck::Integer => match t {
            JsonValue::Number(n) => if n.unsigned.is_some() {
                Ok(())
            } else {
                Err(keyed_error(raw, key, " 必须是整数"))
            },
            _ => Err(keyed_error(raw, key, " 必须是整数")),
        },
        FieldCheck::Str => match t {
            JsonValue::String(_) => Ok(()),
            _ => Err(keyed_error(raw, key, " 必须是字符串")),
        },
        FieldCheck::StrOrNull => match t {
            JsonValue::String(_) => Ok(()),
            JsonValue::Null => Ok(()),
            _ => Err(keyed_error(raw, key, " 必须是字符串或 null")),
        },
        FieldCheck::OneOf(options) => match t {
            JsonValue::String(s) => {
                let opts = split_chars(&chars_of(options), ',');
                if key_in(&opts, s.as_str()) {
                    Ok(())
                } else {
                    let mut message = chars_of(key);
                    push_str(&mut message, " 可选值：");
                    let joined = join_pieces(&opts, "、");
                    push_chars(&mut message, &joined);
                    let message = string_from_chars(&message);
                    Err(error_at_key(raw, key, message.as_str()))
                }
            },
            _ => Err(keyed_error(raw, key, " 必须是字符串")),
        },
        FieldCheck::Language => match t {
            JsonValue::String(s) => if crate::config::is_valid_language_preference(s.as_str()) {
                Ok(())
            } else {
                Err(error_at_key(raw, "language", "language 必须是 system 或有效的 BCP 47 语言标签"))
            },
            _ => Err(error_at_key(raw, "language", "language 必须是字符串")),
        },
        FieldCheck::NamedApps => match t {
            JsonValue::Array(items) => {
                let ghost f = |item: JsonValue|
                    app_entry_outcome(item, "systemMediaApplications"@, "系统播放应用必须是对象"@);
                let mut i: usize = 0;
                assert(items@.subrange(0, items@.len() as int) == items@);
                while i < items.len()
                    invariant
                        i <= items@.len(),
                        first_failure(items@, f) == first_failure(
                            items@.subrange(i as int, items@.len() as int),
                            f,
                        ),
                    decreases items@.len() - i,
                {
                    let ghost rest = items@.subrange(i as int, items@.len() as int);
                    assert(rest[0] == items@[i as int]);
                    match app_entry_check(raw, &items[i], "systemMediaApplications", "系统播放应用必须是对象") {
                        Err(e) => {
                            return Err(e);
                        },
                        Ok(_) => {},
                    }
                    proof {
                        lemma_first_failure_step(items@, f, i as int);
                    }
                    i = i + 1;
                }
                assert(items@.subrange(i as int, items@.len() as int).len() == 0);
                Ok(())
            },
            _ => Err(error_at_key(raw, "systemMediaApplications", "systemMediaApplications 必须是数组")),
        },
        FieldCheck::NamedAppOrNull => match t {
            JsonValue::Null => Ok(()),
            _ => app_entry_check(raw, t, "playerFollowerApplication", "playerFollowerApplication 必须是对象或 null"),
        },
        FieldCheck::ProviderItems => match t {
            JsonValue::Array(items) => {
                let ghost f = |item: JsonValue| provider_entry_outcome(item);
                let mut i: usize = 0;
                assert(items@.subrange(0, items@.len() as int) == items@);
                while i < items.len()
                    invariant
                        i <= items@.len(),
                        first_failure(items@, f) == first_failure(
                            items@.subrange(i as int, items@.len() as int),
                            f,
                        ),
                    decreases items@.len() - i,
                {
                    let ghost rest = items@.subrange(i as int, items@.len() as int);
                    assert(rest[0] == items@[i as int]);
                    match provider_entry_check(raw, &items[i]) {
                        Err(e) => {
                            return Err(e);
                        },
                        Ok(_) => {},
                    }
                    proof {
                        lemma_first_failure_step(items@, f, i as int);
                    }
                    i = i + 1;
                }
                assert(items@.subrange(i as int, items@.len() as int).len() == 0);
                Ok(())
            },
            _ => Err(error_at_key(raw, "providers", "providers 必须是数组")),
        },
        FieldCheck::NonBlank => match t {
            JsonValue::String(s) => {
                let trimmed = crate::text::trim_str(s.as_str());
                if trimmed.len() == 0 {
                    Err(keyed_error(raw, key, " 不能为空"))
                } else {
                    Ok(())
                }
            },
            _ => Err(keyed_error(raw, key, " 必须是字符串")),
        },
        FieldCheck::Color => match t {
            JsonValue::String(s) => if crate::config::is_supported_color(s.as_str()) {
                Ok(())
            } else {
                Err(keyed_error(raw, key, " 不是有效颜色"))
            },
            _ => Err(keyed_error(raw, key, " 必须是颜色字符串")),
        },
        FieldCheck::Keys(allowed) => {
            let allowed = split_chars(&chars_of(allowed), ',');
            check_keys_in(t, raw, &allowed)
        },
        FieldCheck::KeysEach(allowed) => match t {
            JsonValue::Array(items) => {
                let allowed_keys = split_chars(&chars_of(allowed), ',');
                let ghost f = |item: JsonValue| check_keys_spec(item, split_spec(allowed@, ','));
                let mut i: usize = 0;
                assert(items@.subrange(0, items@.len() as int) == items@);
                while i < items.len()
                    invariant
                        i <= items@.len(),
                        first_failure(items@, f) == first_failure(
                            items@.subrange(i as int, items@.len() as int),
                            f,
                        ),
                    decreases items@.len() - i,
                {
                    let ghost rest = items@.subrange(i as int, items@.len() as int);
                    assert(rest[0] == items@[i as int]);
                    match check_keys_in(&items[i], raw, &allowed_keys) {
                        Err(e) => {
                            return Err(e);
                        },
                        Ok(_) => {},
                    }
                    proof {
                        lemma_first_failure_step(items@, f, i as int);
                    }
                    i = i + 1;
                }
                assert(items@.subrange(i as int, items@.len() as int).len() == 0);
                Ok(())
            },
            _ => Ok(()),
        },
    }
}

} // verus!
