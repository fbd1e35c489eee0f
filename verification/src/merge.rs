use vstd::prelude::*;

use crate::json::JsonValue;
use crate::text::str_eq;

verus! {

/// A JSON document as a mathematical value.
pub enum JsonTree {
    Null,
    Bool(bool),
    Number(Option<u64>, Seq<char>),
    Str(Seq<char>),
    Array(Seq<JsonTree>),
    Object(Seq<(Seq<char>, JsonTree)>),
}

/// The mathematical value of a JSON document.
pub open spec fn tree(v: JsonValue) -> JsonTree
    decreases v,
{
    match v {
        JsonValue::Null => JsonTree::Null,
        JsonValue::Bool(b) => JsonTree::Bool(b),
        JsonValue::Number(n) => JsonTree::Number(n.unsigned, n.text@),
        JsonValue::String(s) => JsonTree::Str(s@),
        JsonValue::Array(items) => JsonTree::Array(items_tree(items@)),
        JsonValue::Object(members) => JsonTree::Object(members_tree(members@)),
    }
}

/// The values of the items of an array.
pub open spec fn items_tree(items: Seq<JsonValue>) -> Seq<JsonTree>
    decreases items,
{
    if items.len() == 0 {
        seq![]
    } else {
        items_tree(items.drop_last()).push(tree(items.last()))
    }
}

/// The members of an object, each key by its text and each value by its
/// mathematical value.
pub open spec fn members_tree(members: Seq<(String, JsonValue)>) -> Seq<(Seq<char>, JsonTree)>
    decreases members,
{
    if members.len() == 0 {
        seq![]
    } else {
        members_tree(members.drop_last()).push((members.last().0@, tree(members.last().1)))
    }
}

/// The position of the first member with this key.
pub open spec fn first_member(members: Seq<(Seq<char>, JsonTree)>, key: Seq<char>) -> Option<int>
    decreases members.len(),
{
    if members.len() == 0 {
        None
    } else if members[0].0 == key {
        Some(0)
    } else {
        match first_member(members.drop_first(), key) {
            Some(i) => Some(i + 1),
            None => None,
        }
    }
}

/// `over` laid over `base`: two objects merge member by member, the
/// members of `over` in their order, each merged into the first member of
/// `base` with its key or else added at the end; anything else is replaced
/// by `over`.
pub open spec fn merge_spec(base: JsonTree, over: JsonTree) -> JsonTree
    decreases over,
{
    match (base, over) {
        (JsonTree::Object(b), JsonTree::Object(o)) => JsonTree::Object(merge_members(b, o)),
        _ => over,
    }
}

/// The members of `o`, in order, merged into `b`.
pub open spec fn merge_members(b: Seq<(Seq<char>, JsonTree)>, o: Seq<(Seq<char>, JsonTree)>) -> Seq<
    (Seq<char>, JsonTree),
>
    decreases o,
{
    if o.len() == 0 {
        b
    } else {
        merge_member(merge_members(b, o.drop_last()), o.last())
    }
}

/// One member merged into a list of members.
pub open spec fn merge_member(m: Seq<(Seq<char>, JsonTree)>, kv: (Seq<char>, JsonTree)) -> Seq<
    (Seq<char>, JsonTree),
>
    decreases kv,
{
    match first_member(m, kv.0) {
        Some(j) => if 0 <= j < m.len() {
            m.update(j, (m[j].0, merge_spec(m[j].1, kv.1)))
        } else {
            m
        },
        None => m.push(kv),
    }
}

proof fn lemma_members_tree_index(members: Seq<(String, JsonValue)>)
    ensures
        members_tree(members).len() == members.len(),
        forall|i: int|
            0 <= i < members.len() ==> #[trigger] members_tree(members)[i] == (
                members[i].0@,
                tree(members[i].1),
            ),
    decreases members.len(),
{
    if members.len() > 0 {
        lemma_members_tree_index(members.drop_last());
        assert forall|i: int| 0 <= i < members.len() implies #[trigger] members_tree(members)[i] == (
            members[i].0@,
            tree(members[i].1),
        ) by {
            if i < members.len() - 1 {
                assert(members.drop_last()[i] == members[i]);
            }
        }
    }
}

proof fn lemma_first_member_bounds(m: Seq<(Seq<char>, JsonTree)>, key: Seq<char>)
    ensures
        first_member(m, key) matches Some(i) ==> 0 <= i < m.len() && m[i].0 == key && forall|k: int|
            0 <= k < i ==> (#[trigger] m[k]).0 != key,
        first_member(m, key) is None ==> forall|k: int| 0 <= k < m.len() ==> (#[trigger] m[k]).0 != key,
    decreases m.len(),
{
    if m.len() > 0 {
        lemma_first_member_bounds(m.drop_first(), key);
        assert forall|k: int| 0 < k < m.len() implies #[trigger] m[k] == m.drop_first()[k - 1] by {}
    }
}

proof fn lemma_first_member_at(m: Seq<(Seq<char>, JsonTree)>, key: Seq<char>, i: int)
    requires
        0 <= i < m.len(),
        m[i].0 == key,
        forall|k: int| 0 <= k < i ==> (#[trigger] m[k]).0 != key,
    ensures
        first_member(m, key) == Some(i),
    decreases i,
{
    if i > 0 {
        let t = m.drop_first();
        assert forall|k: int| 0 <= k < i - 1 implies (#[trigger] t[k]).0 != key by {
            assert(t[k] == m[k + 1]);
        }
        lemma_first_member_at(t, key, i - 1);
    }
}

/// Finds the first member with this key.
fn find_key(members: &Vec<(String, JsonValue)>, key: &str) -> (r: Option<usize>)
    ensures
        match r {
            Some(i) => first_member(members_tree(members@), key@) == Some(i as int),
            None => first_member(members_tree(members@), key@) is None,
        },
{
    proof {
        lemma_members_tree_index(members@);
        lemma_first_member_bounds(members_tree(members@), key@);
    }
    let ghost m = members_tree(members@);
    let mut i: usize = 0;
    while i < members.len()
        invariant
            i <= members@.len(),
            m == members_tree(members@),
            m.len() == members@.len(),
            forall|k: int| 0 <= k < members@.len() ==> #[trigger] m[k] == (members@[k].0@, tree(members@[k].1)),
            forall|k: int| 0 <= k < i ==> (#[trigger] m[k]).0 != key@,
            first_member(m, key@) matches Some(f) ==> 0 <= f < m.len() && m[f].0 == key@,
        decreases members@.len() - i,
    {
        if str_eq(members[i].0.as_str(), key) {
            assert(m[i as int].0 == key@);
            proof {
                lemma_first_member_at(m, key@, i as int);
            }
            return Some(i);
        }
        assert(m[i as int].0 != key@);
        i = i + 1;
    }
    proof {
        if first_member(m, key@) is Some {
            let f = first_member(m, key@)->0;
            assert(m[f].0 != key@);
        }
    }
    None
}

/// Lays `over` over `base`: objects merge member by member (a member of
/// `over` merges into the first member of `base` with its key, or is added
/// at the end); anything else is replaced by `over`.
pub fn merge_json(base: &mut JsonValue, over: JsonValue)
    ensures
        tree(*final(base)) == merge_spec(tree(*old(base)), tree(over)),
{
    let mut current = JsonValue::Null;
    std::mem::swap(base, &mut current);
    *base = merged(current, over);
}

fn merged(base: JsonValue, over: JsonValue) -> (r: JsonValue)
    ensures
        tree(r) == merge_spec(tree(base), tree(over)),
    decreases over, 1nat,
{
    match base {
        JsonValue::Object(b) => {
            match over {
                JsonValue::Object(o) => JsonValue::Object(merge_all(b, o)),
                other => other,
            }
        },
        _ => over,
    }
}

fn merge_all(b: Vec<(String, JsonValue)>, o: Vec<(String, JsonValue)>) -> (r: Vec<(String, JsonValue)>)
    ensures
        members_tree(r@) == merge_members(members_tree(b@), members_tree(o@)),
    decreases o, 0nat,
{
    let ghost all = o@;
    let ghost whole = o;
    let ghost bt = members_tree(b@);
    let n: usize = o.len();
    let mut rest = o;
    let mut cur = b;
    let mut i: usize = 0;
    proof {
        lemma_members_tree_index(all);
        assert(all.take(0) == Seq::<(String, JsonValue)>::empty());
        assert(members_tree(all.take(0)) == Seq::<(Seq<char>, JsonTree)>::empty());
    }
    assert(all.skip(0) == all);
    while rest.len() > 0
        invariant
            all.len() == n,
            i <= n,
            rest@ == all.skip(i as int),
            members_tree(cur@) == merge_members(bt, members_tree(all.take(i as int))),
            whole@ == all,
            whole == o,
        decreases rest@.len(),
    {
        assert(rest@[0] == all[i as int]);
        let ghost t = all.take(i + 1);
        assert(t.drop_last() == all.take(i as int));
        assert(t.last() == all[i as int]);
        assert(members_tree(t) == members_tree(all.take(i as int)).push((all[i as int].0@, tree(all[i as int].1))));
        let (key, value) = rest.remove(0);
        assert(rest@ == all.skip(i + 1));
        let ghost before = cur@;
        proof {
            lemma_members_tree_index(before);
        }
        match find_key(&cur, key.as_str()) {
            Some(j) => {
                proof {
                    lemma_first_member_bounds(members_tree(before), key@);
                }
                let (k, existing) = cur.remove(j);
                proof {
                    assert(whole@[i as int].1 == value);
                    assert(decreases_to!(whole, 0nat => value, 1nat));
                }
                let inner = merged(existing, value);
                cur.insert(j, (k, inner));
                proof {
                    lemma_members_tree_index(cur@);
                    assert(members_tree(cur@) =~= members_tree(before).update(
                        j as int,
                        (members_tree(before)[j as int].0, merge_spec(members_tree(before)[j as int].1, tree(value))),
                    ));
                }
            },
            None => {
                cur.push((key, value));
                proof {
                    lemma_members_tree_index(cur@);
                    assert(members_tree(cur@) =~= members_tree(before).push((key@, tree(value))));
                }
            },
        }
        proof {
            let pre = members_tree(all.take(i as int));
            assert(members_tree(t).drop_last() == pre);
            assert(members_tree(t).last() == (key@, tree(value)));
            assert(merge_members(bt, members_tree(t)) == merge_member(merge_members(bt, pre), (key@, tree(value))));
        }
        i = i + 1;
    }
    assert(all.take(i as int) == all) by {
        assert(all.skip(i as int).len() == 0);
    }
    cur
}

} // verus!
