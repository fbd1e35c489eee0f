use vstd::prelude::*;

use crate::laboratory::LaboratoryThemeInfo;
use crate::lyrics::strings_view;
use crate::placement::{chars_lt, text_lt};
use crate::text::{chars_of, str_eq, string_from_chars, to_lowercase, trim_spec, trim_str, unicode_lowercase};

verus! {

/// A component of a path, as `std::path::Path::components` classifies it.
#[derive(Debug, Clone, Copy, PartialEq, Eq, Structural)]
pub enum PathPart {
    Prefix,
    RootDir,
    CurDir,
    ParentDir,
    Normal,
}

/// What `std::path::Path::components` gives for a path, component by
/// component.
pub uninterp spec fn path_parts(path: Seq<char>) -> Seq<PathPart>;

/// What `std::path::Path::is_absolute` says of a path.
pub uninterp spec fn path_is_absolute(path: Seq<char>) -> bool;

/// Splits a path with `std::path::Path::components`, keeping the kind of
/// each component. The result depends on the path alone.
#[verifier::external_body]
fn path_components(path: &str) -> (r: Vec<PathPart>)
    ensures
        r@ == path_parts(path@),
{
    let mut out = Vec::new();
    for part in std::path::Path::new(path).components() {
        out.push(
            match part {
                std::path::Component::Prefix(_) => PathPart::Prefix,
                std::path::Component::RootDir => PathPart::RootDir,
                std::path::Component::CurDir => PathPart::CurDir,
                std::path::Component::ParentDir => PathPart::ParentDir,
                std::path::Component::Normal(_) => PathPart::Normal,
            },
        );
    }
    out
}

/// Asks `std::path::Path::is_absolute` whether a path is absolute.
#[verifier::external_body]
fn is_absolute_path(path: &str) -> (r: bool)
    ensures
        r == path_is_absolute(path@),
{
    std::path::Path::new(path).is_absolute()
}

/// A theme id names exactly one directory.
pub open spec fn safe_theme_id(id: Seq<char>) -> bool {
    path_parts(id).len() == 1 && path_parts(id)[0] == PathPart::Normal
}

/// A theme file is named by a relative path made of plain names only: no
/// root, no `.` or `..` component.
pub open spec fn safe_relative_path(path: Seq<char>) -> bool {
    !path_is_absolute(path) && forall|i: int|
        0 <= i < path_parts(path).len() ==> #[trigger] path_parts(path)[i] == PathPart::Normal
}

/// Whether a theme id names exactly one directory.
pub fn is_safe_theme_id(value: &str) -> (r: bool)
    ensures
        r == safe_theme_id(value@),
{
    let parts = path_components(value);
    parts.len() == 1 && parts[0] == PathPart::Normal
}

/// Whether a path inside a theme is relative and made of plain names only.
pub fn is_safe_relative_path(path: &str) -> (r: bool)
    ensures
        r == safe_relative_path(path@),
{
    if is_absolute_path(path) {
        return false;
    }
    let parts = path_components(path);
    let mut i: usize = 0;
    while i < parts.len()
        invariant
            i <= parts@.len(),
            parts@ == path_parts(path@),
            !path_is_absolute(path@),
            forall|k: int| 0 <= k < i ==> #[trigger] parts@[k] == PathPart::Normal,
        decreases parts@.len() - i,
    {
        if parts[i] != PathPart::Normal {
            return false;
        }
        i = i + 1;
    }
    true
}

/// The fields of a theme's manifest.
#[derive(Debug, Clone)]
pub struct ThemeManifest {
    pub id: String,
    pub name: String,
    pub version: String,
    pub entry: String,
    pub sdk_version: String,
}

/// A manifest fills in its id, name, version and SDK version (white space
/// alone does not count).
pub open spec fn manifest_complete(m: ThemeManifest) -> bool {
    &&& trim_spec(m.id@).len() > 0
    &&& trim_spec(m.name@).len() > 0
    &&& trim_spec(m.version@).len() > 0
    &&& trim_spec(m.sdk_version@).len() > 0
}

/// Whether a text is among a list of strings.
fn contains_str(list: &Vec<String>, s: &str) -> (r: bool)
    ensures
        r == strings_view(list@).contains(s@),
{
    let mut i: usize = 0;
    while i < list.len()
        invariant
            i <= list@.len(),
            forall|k: int| 0 <= k < i ==> #[trigger] list@[k]@ != s@,
        decreases list@.len() - i,
    {
        if str_eq(list[i].as_str(), s) {
            assert(strings_view(list@)[i as int] == s@);
            return true;
        }
        i = i + 1;
    }
    assert forall|k: int| 0 <= k < strings_view(list@).len() implies strings_view(list@)[k] != s@ by {
        assert(strings_view(list@)[k] == list@[k]@);
    }
    false
}

/// A manifest whose fields are filled in, whose trimmed id names a single
/// directory and whose trimmed entry is a relative path of plain names.
pub open spec fn theme_candidate_spec(m: ThemeManifest) -> bool {
    &&& manifest_complete(m)
    &&& safe_theme_id(trim_spec(m.id@))
    &&& safe_relative_path(trim_spec(m.entry@))
}

/// A theme that can be listed: a candidate whose entry file was found in its
/// folder.
pub open spec fn theme_acceptable(m: ThemeManifest, entry_found: bool) -> bool {
    theme_candidate_spec(m) && entry_found
}

/// Checks a manifest before its entry file is looked for: returns its
/// trimmed id and entry when it is a candidate.
pub fn theme_candidate(manifest: &ThemeManifest) -> (r: Option<(String, String)>)
    ensures
        match r {
            Some((i, e)) => theme_candidate_spec(*manifest) && i@ == trim_spec(manifest.id@) && e@
                == trim_spec(manifest.entry@),
            None => !theme_candidate_spec(*manifest),
        },
{
    let id_chars = trim_str(manifest.id.as_str());
    if id_chars.len() == 0 || trim_str(manifest.name.as_str()).len() == 0 || trim_str(
        manifest.version.as_str(),
    ).len() == 0 || trim_str(manifest.sdk_version.as_str()).len() == 0 {
        return None;
    }
    let id = string_from_chars(&id_chars);
    let entry = string_from_chars(&trim_str(manifest.entry.as_str()));
    if !is_safe_theme_id(id.as_str()) || !is_safe_relative_path(entry.as_str()) {
        return None;
    }
    Some((id, entry))
}

/// Decides a manifest while the themes directory is scanned, given whether
/// its entry file was found: a candidate whose entry was found is accepted
/// unless an accepted theme already has its trimmed id, and only an accepted
/// theme claims its id. On success, returns the trimmed id and entry.
pub fn accept_theme_manifest(manifest: &ThemeManifest, entry_found: bool, seen_ids: &mut Vec<String>) -> (r:
    Option<(String, String)>)
    ensures
        ({
            let id = trim_spec(manifest.id@);
            let accepted = theme_acceptable(*manifest, entry_found) && !strings_view(
                old(seen_ids)@,
            ).contains(id);
            &&& strings_view(final(seen_ids)@) == if accepted {
                strings_view(old(seen_ids)@).push(id)
            } else {
                strings_view(old(seen_ids)@)
            }
            &&& match r {
                Some((i, e)) => accepted && i@ == id && e@ == trim_spec(manifest.entry@),
                None => !accepted,
            }
        }),
{
    if !entry_found {
        return None;
    }
    let (id, entry) = match theme_candidate(manifest) {
        Some(c) => c,
        None => return None,
    };
    if contains_str(seen_ids, id.as_str()) {
        return None;
    }
    let ghost before = seen_ids@;
    seen_ids.push(string_from_chars(&chars_of(id.as_str())));
    assert(strings_view(seen_ids@) == strings_view(before).push(id@)) by {
        assert(strings_view(seen_ids@) =~= strings_view(before).push(id@));
    }
    Some((id, entry))
}

/// The ids that a scan has claimed after the first `n` manifests: those of
/// the themes it accepted.
pub open spec fn claimed_ids(found: Seq<(ThemeManifest, bool)>, n: int) -> Seq<Seq<char>>
    decreases n,
{
    if n <= 0 {
        seq![]
    } else {
        let before = claimed_ids(found, n - 1);
        let m = found[n - 1].0;
        if theme_acceptable(m, found[n - 1].1) && !before.contains(trim_spec(m.id@)) {
            before.push(trim_spec(m.id@))
        } else {
            before
        }
    }
}

/// Whether the `i`-th manifest of a scan is accepted: it can be listed and
/// no theme accepted before it has its id.
pub open spec fn scan_accepts(found: Seq<(ThemeManifest, bool)>, i: int) -> bool {
    &&& theme_acceptable(found[i].0, found[i].1)
    &&& !claimed_ids(found, i).contains(trim_spec(found[i].0.id@))
}

/// Decides the manifests of a scan in order, each with whether its entry
/// file was found, as `accept_theme_manifest` does one by one: for each,
/// the trimmed id and entry when it is accepted.
pub fn select_theme_manifests(found: &Vec<(ThemeManifest, bool)>) -> (r: Vec<Option<(String, String)>>)
    ensures
        r@.len() == found@.len(),
        forall|i: int|
            0 <= i < r@.len() ==> match #[trigger] r@[i] {
                Some((id, entry)) => scan_accepts(found@, i) && id@ == trim_spec(found@[i].0.id@)
                    && entry@ == trim_spec(found@[i].0.entry@),
                None => !scan_accepts(found@, i),
            },
{
    let mut seen: Vec<String> = Vec::new();
    let mut out: Vec<Option<(String, String)>> = Vec::new();
    let mut i: usize = 0;
    while i < found.len()
        invariant
            i <= found@.len(),
            out@.len() == i,
            strings_view(seen@) == claimed_ids(found@, i as int),
            forall|k: int|
                0 <= k < i ==> match #[trigger] out@[k] {
                    Some((id, entry)) => scan_accepts(found@, k) && id@ == trim_spec(
                        found@[k].0.id@,
                    ) && entry@ == trim_spec(found@[k].0.entry@),
                    None => !scan_accepts(found@, k),
                },
        decreases found@.len() - i,
    {
        let r = accept_theme_manifest(&found[i].0, found[i].1, &mut seen);
        out.push(r);
        i = i + 1;
    }
    out
}

proof fn lemma_claimed_ids_grow(found: Seq<(ThemeManifest, bool)>, i: int, j: int, id: Seq<char>)
    requires
        0 <= i <= j,
        claimed_ids(found, i).contains(id),
    ensures
        claimed_ids(found, j).contains(id),
    decreases j - i,
{
    if i < j {
        lemma_claimed_ids_grow(found, i, j - 1, id);
        let before = claimed_ids(found, j - 1);
        let w = choose|k: int| 0 <= k < before.len() && before[k] == id;
        let m = found[j - 1].0;
        if theme_acceptable(m, found[j - 1].1) && !before.contains(trim_spec(m.id@)) {
            assert(claimed_ids(found, j)[w] == id);
        }
    }
}

/// Every claimed id is the id of a theme the scan accepted before.
proof fn lemma_claimed_ids_accepted(found: Seq<(ThemeManifest, bool)>, n: int, id: Seq<char>)
    requires
        0 <= n <= found.len(),
        claimed_ids(found, n).contains(id),
    ensures
        exists|j: int| 0 <= j < n && scan_accepts(found, j) && trim_spec(found[j].0.id@) == id,
    decreases n,
{
    if n > 0 {
        let before = claimed_ids(found, n - 1);
        let m = found[n - 1].0;
        if before.contains(id) {
            lemma_claimed_ids_accepted(found, n - 1, id);
            let j = choose|j: int| 0 <= j < n - 1 && scan_accepts(found, j) && trim_spec(found[j].0.id@) == id;
            assert(0 <= j < n && scan_accepts(found, j) && trim_spec(found[j].0.id@) == id);
        } else {
            assert(theme_acceptable(m, found[n - 1].1) && !before.contains(trim_spec(m.id@)));
            let after = before.push(trim_spec(m.id@));
            let w = choose|k: int| 0 <= k < after.len() && after[k] == id;
            assert(w == before.len());
            assert(scan_accepts(found, n - 1));
        }
    }
}

/// No two themes that a scan accepts share an id.
pub proof fn scanned_theme_ids_are_unique(found: Seq<(ThemeManifest, bool)>, i: int, j: int)
    requires
        0 <= i < j < found.len(),
        scan_accepts(found, i),
        scan_accepts(found, j),
    ensures
        trim_spec(found[i].0.id@) != trim_spec(found[j].0.id@),
{
    let id = trim_spec(found[i].0.id@);
    let after = claimed_ids(found, i + 1);
    assert(after == claimed_ids(found, i).push(id));
    assert(after[after.len() - 1] == id);
    lemma_claimed_ids_grow(found, i + 1, j, id);
}

/// A theme that can be listed is listed unless a theme accepted before it
/// has its id; a theme that cannot be listed claims nothing, so it never
/// keeps a later theme out.
pub proof fn scan_lists_every_valid_theme(found: Seq<(ThemeManifest, bool)>, i: int)
    requires
        0 <= i < found.len(),
        theme_acceptable(found[i].0, found[i].1),
        forall|j: int|
            0 <= j < i && #[trigger] scan_accepts(found, j) ==> trim_spec(found[j].0.id@) != trim_spec(
                found[i].0.id@,
            ),
    ensures
        scan_accepts(found, i),
{
    if claimed_ids(found, i).contains(trim_spec(found[i].0.id@)) {
        lemma_claimed_ids_accepted(found, i, trim_spec(found[i].0.id@));
    }
}

/// The theme a manifest describes, under its trimmed id and entry; a theme
/// without a name is named by its id.
pub fn theme_info(manifest: ThemeManifest, id: String, entry: String) -> (r: LaboratoryThemeInfo)
    ensures
        r.id@ == id@,
        r.entry@ == entry@,
        r.version@ == manifest.version@,
        r.sdk_version@ == manifest.sdk_version@,
        r.name@ == if trim_spec(manifest.name@).len() == 0 {
            id@
        } else {
            manifest.name@
        },
{
    let name = if trim_str(manifest.name.as_str()).len() == 0 {
        string_from_chars(&chars_of(id.as_str()))
    } else {
        manifest.name
    };
    LaboratoryThemeInfo { id, name, version: manifest.version, entry, sdk_version: manifest.sdk_version }
}

/// Themes are listed by name, compared in lower case.
pub open spec fn theme_key(t: LaboratoryThemeInfo) -> Seq<char> {
    unicode_lowercase(t.name@)
}

/// `x` inserted into a sorted list after every theme that does not come
/// after it.
pub open spec fn insert_theme(sorted: Seq<LaboratoryThemeInfo>, x: LaboratoryThemeInfo) -> Seq<
    LaboratoryThemeInfo,
>
    decreases sorted.len(),
{
    if sorted.len() == 0 {
        seq![x]
    } else if text_lt(theme_key(x), theme_key(sorted.last())) {
        insert_theme(sorted.drop_last(), x).push(sorted.last())
    } else {
        sorted.push(x)
    }
}

/// The themes ordered by their lower-case names, themes whose names tie
/// keeping their order (a stable sort).
pub open spec fn sort_themes_spec(s: Seq<LaboratoryThemeInfo>) -> Seq<LaboratoryThemeInfo>
    decreases s.len(),
{
    if s.len() == 0 {
        seq![]
    } else {
        insert_theme(sort_themes_spec(s.drop_last()), s.last())
    }
}

proof fn lemma_insert_theme_split(sorted: Seq<LaboratoryThemeInfo>, x: LaboratoryThemeInfo, j: int)
    requires
        0 <= j <= sorted.len(),
        forall|k: int| j <= k < sorted.len() ==> text_lt(theme_key(x), theme_key(#[trigger] sorted[k])),
    ensures
        insert_theme(sorted, x) == insert_theme(sorted.take(j), x) + sorted.skip(j),
    decreases sorted.len() - j,
{
    if j < sorted.len() {
        let t = sorted.drop_last();
        assert forall|k: int| j <= k < t.len() implies text_lt(theme_key(x), theme_key(#[trigger] t[k])) by {
            assert(t[k] == sorted[k]);
        }
        lemma_insert_theme_split(t, x, j);
        assert(t.take(j) == sorted.take(j));
        assert(t.skip(j).push(sorted.last()) == sorted.skip(j));
    } else {
        assert(sorted.take(j) == sorted);
        assert(sorted.skip(j) == Seq::<LaboratoryThemeInfo>::empty());
    }
}

/// Orders the themes by their lower-case names, stably.
pub fn sort_themes(themes: Vec<LaboratoryThemeInfo>) -> (r: Vec<LaboratoryThemeInfo>)
    ensures
        r@ == sort_themes_spec(themes@),
{
    let ghost all = themes@;
    let n: usize = themes.len();
    let mut rest = themes;
    let mut out: Vec<LaboratoryThemeInfo> = Vec::new();
    let mut keys: Vec<Vec<char>> = Vec::new();
    let mut i: usize = 0;
    assert(all.take(0) == Seq::<LaboratoryThemeInfo>::empty());
    assert(all.skip(0) == all);
    while rest.len() > 0
        invariant
            i <= all.len(),
            all.len() == n,
            rest@ == all.skip(i as int),
            out@ == sort_themes_spec(all.take(i as int)),
            keys@.len() == out@.len(),
            forall|k: int| 0 <= k < out@.len() ==> (#[trigger] keys@[k])@ == theme_key(out@[k]),
        decreases rest@.len(),
    {
        let ghost t = all.take(i + 1);
        assert(t.drop_last() == all.take(i as int));
        assert(rest@[0] == all[i as int]);
        assert(t.last() == all[i as int]);
        let x = rest.remove(0);
        assert(rest@ == all.skip(i + 1));
        let key = to_lowercase(&chars_of(x.name.as_str()));
        let mut j: usize = out.len();
        while j > 0 && chars_lt(&key, &keys[j - 1])
            invariant
                j <= out@.len(),
                keys@.len() == out@.len(),
                forall|k: int| 0 <= k < out@.len() ==> (#[trigger] keys@[k])@ == theme_key(out@[k]),
                key@ == theme_key(x),
                forall|k: int| j <= k < out@.len() ==> text_lt(theme_key(x), theme_key(#[trigger] out@[k])),
            decreases j,
        {
            assert(keys@[j - 1]@ == theme_key(out@[j - 1]));
            j = j - 1;
        }
        proof {
            lemma_insert_theme_split(out@, x, j as int);
            let tk = out@.take(j as int);
            if tk.len() > 0 {
                assert(tk.last() == out@[j - 1]);
                assert(keys@[j - 1]@ == theme_key(out@[j - 1]));
            }
        }
        let ghost before = out@;
        let ghost before_keys = keys@;
        out.insert(j, x);
        keys.insert(j, key);
        assert(out@ == before.take(j as int).push(x) + before.skip(j as int));
        assert forall|k: int| 0 <= k < out@.len() implies (#[trigger] keys@[k])@ == theme_key(out@[k]) by {
            if k < j {
                assert(keys@[k] == before_keys[k]);
                assert(out@[k] == before[k]);
            } else if k > j {
                assert(keys@[k] == before_keys[k - 1]);
                assert(out@[k] == before[k - 1]);
            }
        }
        i = i + 1;
    }
    assert(all.take(i as int) == all) by {
        assert(all.skip(i as int).len() == 0);
    }
    out
}

} // verus!

verus! {

proof fn lemma_text_lt_irreflexive(a: Seq<char>)
    ensures
        !text_lt(a, a),
    decreases a.len(),
{
    if a.len() > 0 {
        lemma_text_lt_irreflexive(a.drop_first());
    }
}

proof fn lemma_text_lt_total(a: Seq<char>, b: Seq<char>)
    ensures
        a == b || text_lt(a, b) || text_lt(b, a),
    decreases a.len(),
{
    if a.len() > 0 && b.len() > 0 && a[0] == b[0] {
        lemma_text_lt_total(a.drop_first(), b.drop_first());
        if a.drop_first() == b.drop_first() {
            assert(a == seq![a[0]] + a.drop_first());
            assert(b == seq![b[0]] + b.drop_first());
        }
    } else if a.len() == 0 && b.len() == 0 {
        assert(a == b);
    } else if a.len() > 0 && b.len() > 0 {
        if (a[0] as u32) == (b[0] as u32) {
            vstd::utf8::char_u32_cast(a[0], a[0] as u32);
            vstd::utf8::char_u32_cast(b[0], b[0] as u32);
        }
    }
}

proof fn lemma_text_lt_transitive(a: Seq<char>, b: Seq<char>, c: Seq<char>)
    requires
        text_lt(a, b),
        text_lt(b, c),
    ensures
        text_lt(a, c),
    decreases a.len(),
{
    if a.len() > 0 && b.len() > 0 && c.len() > 0 && a[0] == b[0] && b[0] == c[0] {
        lemma_text_lt_transitive(a.drop_first(), b.drop_first(), c.drop_first());
    }
}

/// Not coming before is transitive.
proof fn lemma_not_lt_transitive(a: Seq<char>, b: Seq<char>, c: Seq<char>)
    requires
        !text_lt(b, a),
        !text_lt(c, b),
    ensures
        !text_lt(c, a),
{
    lemma_text_lt_total(a, b);
    lemma_text_lt_total(b, c);
    if text_lt(c, a) {
        if a == b {
            assert(text_lt(c, b));
        } else if b == c {
            assert(text_lt(b, a));
        } else {
            lemma_text_lt_transitive(a, b, c);
            lemma_text_lt_transitive(c, a, b);
            lemma_text_lt_irreflexive(c);
            lemma_text_lt_transitive(c, b, c);
        }
    }
}

/// Themes in order of their lower-case names.
pub open spec fn themes_ordered(s: Seq<LaboratoryThemeInfo>) -> bool {
    forall|i: int, j: int|
        0 <= i < j < s.len() ==> !text_lt(theme_key(#[trigger] s[j]), theme_key(#[trigger] s[i]))
}

proof fn lemma_insert_theme_ordered(sorted: Seq<LaboratoryThemeInfo>, x: LaboratoryThemeInfo)
    requires
        themes_ordered(sorted),
    ensures
        themes_ordered(insert_theme(sorted, x)),
        insert_theme(sorted, x).len() == sorted.len() + 1,
        forall|k: int|
            0 <= k < insert_theme(sorted, x).len() ==> #[trigger] insert_theme(sorted, x)[k] == x
                || sorted.contains(insert_theme(sorted, x)[k]),
    decreases sorted.len(),
{
    let r = insert_theme(sorted, x);
    if sorted.len() == 0 {
        assert(r == seq![x]);
    } else if text_lt(theme_key(x), theme_key(sorted.last())) {
        let d = sorted.drop_last();
        assert(themes_ordered(d)) by {
            assert forall|i: int, j: int| 0 <= i < j < d.len() implies !text_lt(
                theme_key(#[trigger] d[j]),
                theme_key(#[trigger] d[i]),
            ) by {
                assert(d[i] == sorted[i] && d[j] == sorted[j]);
            }
        }
        lemma_insert_theme_ordered(d, x);
        let inner = insert_theme(d, x);
        let l = sorted.last();
        assert(r == inner.push(l));
        assert forall|k: int| 0 <= k < r.len() implies #[trigger] r[k] == x || sorted.contains(r[k]) by {
            if k < inner.len() {
                assert(r[k] == inner[k]);
                if r[k] != x {
                    let m = choose|m: int| 0 <= m < d.len() && d[m] == inner[k];
                    assert(sorted[m] == d[m]);
                }
            } else {
                assert(sorted[sorted.len() - 1] == l);
            }
        }
        assert forall|i: int, j: int| 0 <= i < j < r.len() implies !text_lt(
            theme_key(#[trigger] r[j]),
            theme_key(#[trigger] r[i]),
        ) by {
            if j < inner.len() {
                assert(r[i] == inner[i] && r[j] == inner[j]);
            } else {
                assert(r[j] == l);
                assert(r[i] == inner[i]);
                if inner[i] == x {
                    lemma_text_lt_total(theme_key(x), theme_key(l));
                    if text_lt(theme_key(l), theme_key(x)) {
                        lemma_text_lt_transitive(theme_key(x), theme_key(l), theme_key(x));
                        lemma_text_lt_irreflexive(theme_key(x));
                    }
                } else {
                    let m = choose|m: int| 0 <= m < d.len() && d[m] == inner[i];
                    assert(sorted[m] == d[m]);
                    assert(sorted[sorted.len() - 1] == l);
                }
            }
        }
    } else {
        assert(r == sorted.push(x));
        assert forall|k: int| 0 <= k < r.len() implies #[trigger] r[k] == x || sorted.contains(r[k]) by {
            if k < sorted.len() {
                assert(r[k] == sorted[k]);
            }
        }
        assert forall|i: int, j: int| 0 <= i < j < r.len() implies !text_lt(
            theme_key(#[trigger] r[j]),
            theme_key(#[trigger] r[i]),
        ) by {
            assert(r[i] == sorted[i]);
            if j < sorted.len() {
                assert(r[j] == sorted[j]);
            } else {
                assert(r[j] == x);
                let l = sorted.last();
                assert(sorted[sorted.len() - 1] == l);
                if i < sorted.len() - 1 {
                    lemma_not_lt_transitive(theme_key(sorted[i]), theme_key(l), theme_key(x));
                }
            }
        }
    }
}

/// Sorting lists the themes in order of their lower-case names; the result
/// holds as many themes as the input, each one of the input's.
pub proof fn sorted_themes_are_ordered(s: Seq<LaboratoryThemeInfo>)
    ensures
        themes_ordered(sort_themes_spec(s)),
        sort_themes_spec(s).len() == s.len(),
        forall|k: int| 0 <= k < s.len() ==> s.contains(#[trigger] sort_themes_spec(s)[k]),
    decreases s.len(),
{
    if s.len() > 0 {
        let d = s.drop_last();
        sorted_themes_are_ordered(d);
        let sd = sort_themes_spec(d);
        lemma_insert_theme_ordered(sd, s.last());
        let r = sort_themes_spec(s);
        assert forall|k: int| 0 <= k < s.len() implies s.contains(#[trigger] r[k]) by {
            if r[k] == s.last() {
                assert(s[s.len() - 1] == s.last());
            } else {
                let m = choose|m: int| 0 <= m < sd.len() && sd[m] == r[k];
                let n = choose|n: int| 0 <= n < d.len() && d[n] == sd[m];
                assert(s[n] == d[n]);
            }
        }
    }
}

} // verus!
