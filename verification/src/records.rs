use vstd::prelude::*;

use crate::laboratory::{LaboratoryClientRecord, LaboratoryServerRecord};
use crate::player::clone_opt_string;
use crate::text::{chars_of, str_eq, string_from_chars, trim_spec, trim_str};

verus! {

/// How many servers the client remembers.
pub const MAX_SERVER_RECORDS: usize = 32;

/// `a` was connected to less recently than `b`; a server never connected to
/// comes last.
pub open spec fn connected_before(a: Option<u64>, b: Option<u64>) -> bool {
    match (a, b) {
        (None, Some(_)) => true,
        (Some(x), Some(y)) => x < y,
        _ => false,
    }
}

fn connected_before_exec(a: Option<u64>, b: Option<u64>) -> (r: bool)
    ensures
        r == connected_before(a, b),
{
    match (a, b) {
        (None, Some(_)) => true,
        (Some(x), Some(y)) => x < y,
        _ => false,
    }
}

/// `x` inserted into a list ordered from the most recent connection down,
/// after every record connected at least as recently.
pub open spec fn insert_by_recency(sorted: Seq<LaboratoryServerRecord>, x: LaboratoryServerRecord) -> Seq<
    LaboratoryServerRecord,
>
    decreases sorted.len(),
{
    if sorted.len() == 0 {
        seq![x]
    } else if connected_before(sorted.last().last_connected_at_ms, x.last_connected_at_ms) {
        insert_by_recency(sorted.drop_last(), x).push(sorted.last())
    } else {
        sorted.push(x)
    }
}

/// The records ordered from the most recent connection down; records that
/// tie keep their order (a stable sort).
pub open spec fn sort_by_recency(s: Seq<LaboratoryServerRecord>) -> Seq<LaboratoryServerRecord>
    decreases s.len(),
{
    if s.len() == 0 {
        seq![]
    } else {
        insert_by_recency(sort_by_recency(s.drop_last()), s.last())
    }
}

/// A copy of a server record.
pub fn copy_server_record(r: &LaboratoryServerRecord) -> (c: LaboratoryServerRecord)
    ensures
        c == *r,
{
    LaboratoryServerRecord {
        server_id: r.server_id.clone(),
        name: r.name.clone(),
        address: r.address.clone(),
        port: r.port,
        protocol_version: r.protocol_version,
        requires_password: r.requires_password,
        web_available: r.web_available,
        last_connected_at_ms: r.last_connected_at_ms,
        discovered: r.discovered,
    }
}

/// A copy of a client record.
pub fn copy_client_record(r: &LaboratoryClientRecord) -> (c: LaboratoryClientRecord)
    ensures
        c == *r,
{
    LaboratoryClientRecord {
        client_id: r.client_id.clone(),
        name: r.name.clone(),
        online: r.online,
        last_connected_at_ms: r.last_connected_at_ms,
    }
}

proof fn lemma_insert_split(sorted: Seq<LaboratoryServerRecord>, x: LaboratoryServerRecord, j: int)
    requires
        0 <= j <= sorted.len(),
        forall|k: int| j <= k < sorted.len() ==> connected_before(
            (#[trigger] sorted[k]).last_connected_at_ms,
            x.last_connected_at_ms,
        ),
    ensures
        insert_by_recency(sorted, x) == insert_by_recency(sorted.take(j), x) + sorted.skip(j),
    decreases sorted.len() - j,
{
    if j < sorted.len() {
        let t = sorted.drop_last();
        assert forall|k: int| j <= k < t.len() implies connected_before(
            (#[trigger] t[k]).last_connected_at_ms,
            x.last_connected_at_ms,
        ) by {
            assert(t[k] == sorted[k]);
        }
        lemma_insert_split(t, x, j);
        assert(t.take(j) == sorted.take(j));
        assert(t.skip(j).push(sorted.last()) == sorted.skip(j));
    } else {
        assert(sorted.take(j) == sorted);
        assert(sorted.skip(j) == Seq::<LaboratoryServerRecord>::empty());
    }
}

fn insert_record(out: &mut Vec<LaboratoryServerRecord>, x: LaboratoryServerRecord)
    ensures
        final(out)@ == insert_by_recency(old(out)@, x),
{
    let mut j: usize = out.len();
    while j > 0 && connected_before_exec(out[j - 1].last_connected_at_ms, x.last_connected_at_ms)
        invariant
            j <= out@.len(),
            out@ == old(out)@,
            forall|k: int| j <= k < out@.len() ==> connected_before(
                (#[trigger] out@[k]).last_connected_at_ms,
                x.last_connected_at_ms,
            ),
        decreases j,
    {
        j = j - 1;
    }
    proof {
        lemma_insert_split(out@, x, j as int);
        let t = out@.take(j as int);
        if t.len() > 0 {
            assert(t.last() == out@[j - 1]);
        }
        assert(insert_by_recency(t, x) == t.push(x));
    }
    let ghost before = out@;
    out.insert(j, x);
    assert(out@ == before.take(j as int).push(x) + before.skip(j as int));
}

/// Orders server records from the most recent connection down, stably.
pub fn sort_server_records(records: &Vec<LaboratoryServerRecord>) -> (r: Vec<LaboratoryServerRecord>)
    ensures
        r@ == sort_by_recency(records@),
{
    let mut out: Vec<LaboratoryServerRecord> = Vec::new();
    let mut i: usize = 0;
    assert(records@.take(0) == Seq::<LaboratoryServerRecord>::empty());
    while i < records.len()
        invariant
            i <= records@.len(),
            out@ == sort_by_recency(records@.take(i as int)),
        decreases records@.len() - i,
    {
        let ghost t = records@.take(i + 1);
        assert(t.drop_last() == records@.take(i as int));
        assert(t.last() == records@[i as int]);
        insert_record(&mut out, copy_server_record(&records[i]));
        i = i + 1;
    }
    assert(records@.take(records@.len() as int) == records@);
    out
}

/// The first at most `n` elements.
pub open spec fn keep_first<T>(s: Seq<T>, n: int) -> Seq<T> {
    if s.len() <= n {
        s
    } else {
        s.take(n)
    }
}

/// The index of the first record of this server.
pub open spec fn server_index(records: Seq<LaboratoryServerRecord>, id: Seq<char>) -> Option<int>
    decreases records.len(),
{
    if records.len() == 0 {
        None
    } else if records[0].server_id@ == id {
        Some(0)
    } else {
        match server_index(records.drop_first(), id) {
            Some(i) => Some(i + 1),
            None => None,
        }
    }
}

proof fn lemma_server_index(records: Seq<LaboratoryServerRecord>, id: Seq<char>)
    ensures
        server_index(records, id) matches Some(i) ==> 0 <= i < records.len() && records[i].server_id@
            == id && forall|j: int| 0 <= j < i ==> (#[trigger] records[j]).server_id@ != id,
        server_index(records, id) is None ==> forall|j: int|
            0 <= j < records.len() ==> (#[trigger] records[j]).server_id@ != id,
    decreases records.len(),
{
    if records.len() > 0 {
        lemma_server_index(records.drop_first(), id);
        assert forall|j: int| 1 <= j < records.len() implies records[j] == records.drop_first()[j
            - 1] by {}
    }
}

pub(crate) proof fn lemma_server_index_at(records: Seq<LaboratoryServerRecord>, id: Seq<char>, i: int)
    requires
        0 <= i < records.len(),
        records[i].server_id@ == id,
        forall|j: int| 0 <= j < i ==> (#[trigger] records[j]).server_id@ != id,
    ensures
        server_index(records, id) == Some(i),
    decreases i,
{
    if i > 0 {
        assert forall|j: int| 0 <= j < i - 1 implies (#[trigger] records.drop_first()[j]).server_id@
            != id by {
            assert(records.drop_first()[j] == records[j + 1]);
        }
        lemma_server_index_at(records.drop_first(), id, i - 1);
    }
}

pub(crate) proof fn lemma_server_index_none(records: Seq<LaboratoryServerRecord>, id: Seq<char>)
    requires
        forall|j: int| 0 <= j < records.len() ==> (#[trigger] records[j]).server_id@ != id,
    ensures
        server_index(records, id) is None,
    decreases records.len(),
{
    if records.len() > 0 {
        assert forall|j: int| 0 <= j < records.len() - 1 implies (
        #[trigger] records.drop_first()[j]).server_id@ != id by {
            assert(records.drop_first()[j] == records[j + 1]);
        }
        lemma_server_index_none(records.drop_first(), id);
    }
}

/// The remembered servers after `record` was saved: it replaces the first
/// record of the same server (keeping the older connection time when it
/// brings none) or joins the list; the list is then ordered by recency and
/// cut to its first 32 records.
pub open spec fn saved_servers(records: Seq<LaboratoryServerRecord>, record: LaboratoryServerRecord) -> Seq<
    LaboratoryServerRecord,
> {
    let merged = match server_index(records, record.server_id@) {
        Some(i) => records.update(
            i,
            LaboratoryServerRecord {
                last_connected_at_ms: match record.last_connected_at_ms {
                    Some(t) => Some(t),
                    None => records[i].last_connected_at_ms,
                },
                ..record
            },
        ),
        None => records.push(record),
    };
    keep_first(sort_by_recency(merged), MAX_SERVER_RECORDS as int)
}

fn truncate_records(v: &mut Vec<LaboratoryServerRecord>)
    ensures
        final(v)@ == keep_first(old(v)@, MAX_SERVER_RECORDS as int),
{
    if v.len() > MAX_SERVER_RECORDS {
        v.truncate(MAX_SERVER_RECORDS);
    }
}

/// Saves a server record into the list of remembered servers.
#[verifier::loop_isolation(false)]
pub fn save_server_record(records: &Vec<LaboratoryServerRecord>, record: LaboratoryServerRecord) -> (r:
    Vec<LaboratoryServerRecord>)
    ensures
        r@ == saved_servers(records@, record),
{
    let mut merged: Vec<LaboratoryServerRecord> = Vec::new();
    let mut found: bool = false;
    let mut i: usize = 0;
    let ghost idx = server_index(records@, record.server_id@);
    proof {
        lemma_server_index(records@, record.server_id@);
    }
    while i < records.len()
        invariant
            i <= records@.len(),
            idx == server_index(records@, record.server_id@),
            found == (idx matches Some(k) && k < i),
            !found ==> forall|j: int| 0 <= j < i ==> (#[trigger] records@[j]).server_id@
                != record.server_id@,
            merged@.len() == i,
            forall|j: int|
                0 <= j < i ==> (#[trigger] merged@[j]) == if idx == Some(j) {
                    LaboratoryServerRecord {
                        last_connected_at_ms: match record.last_connected_at_ms {
                            Some(t) => Some(t),
                            None => records@[j].last_connected_at_ms,
                        },
                        ..record
                    }
                } else {
                    records@[j]
                },
        decreases records@.len() - i,
    {
        let same = str_eq(records[i].server_id.as_str(), record.server_id.as_str());
        if same && !found {
            proof {
                lemma_server_index_at(records@, record.server_id@, i as int);
            }
            let mut updated = copy_server_record(&record);
            updated.last_connected_at_ms = match record.last_connected_at_ms {
                Some(t) => Some(t),
                None => records[i].last_connected_at_ms,
            };
            merged.push(updated);
            found = true;
        } else {
            merged.push(copy_server_record(&records[i]));
        }
        i = i + 1;
    }
    if !found {
        merged.push(record);
        assert(merged@ == records@.push(record));
    } else {
        assert(merged@ == records@.update(
            idx->0,
            LaboratoryServerRecord {
                last_connected_at_ms: match record.last_connected_at_ms {
                    Some(t) => Some(t),
                    None => records@[idx->0].last_connected_at_ms,
                },
                ..record
            },
        ));
    }
    let mut sorted = sort_server_records(&merged);
    truncate_records(&mut sorted);
    sorted
}

/// The index of the first record of this client.
pub open spec fn client_index(records: Seq<LaboratoryClientRecord>, id: Seq<char>) -> Option<int>
    decreases records.len(),
{
    if records.len() == 0 {
        None
    } else if records[0].client_id@ == id {
        Some(0)
    } else {
        match client_index(records.drop_first(), id) {
            Some(i) => Some(i + 1),
            None => None,
        }
    }
}

proof fn lemma_client_index(records: Seq<LaboratoryClientRecord>, id: Seq<char>)
    ensures
        client_index(records, id) matches Some(i) ==> 0 <= i < records.len() && records[i].client_id@
            == id && forall|j: int| 0 <= j < i ==> (#[trigger] records[j]).client_id@ != id,
        client_index(records, id) is None ==> forall|j: int|
            0 <= j < records.len() ==> (#[trigger] records[j]).client_id@ != id,
    decreases records.len(),
{
    if records.len() > 0 {
        lemma_client_index(records.drop_first(), id);
        assert forall|j: int| 1 <= j < records.len() implies records[j] == records.drop_first()[j
            - 1] by {}
    }
}

/// The name a client record keeps when a new one is offered: a non-blank
/// name replaces it, trimmed.
pub open spec fn renamed(current: Seq<char>, name: Option<Seq<char>>) -> Seq<char> {
    match name {
        Some(n) if trim_spec(n).len() > 0 => trim_spec(n),
        _ => current,
    }
}

/// The record of a client after it connected (`online`) or left, at time
/// `now_ms`.
pub open spec fn touched_client(
    r: LaboratoryClientRecord,
    online: bool,
    name: Option<Seq<char>>,
    now_ms: u64,
) -> LaboratoryClientRecord {
    LaboratoryClientRecord {
        online,
        last_connected_at_ms: if online {
            Some(now_ms)
        } else {
            r.last_connected_at_ms
        },
        ..r
    }
}

/// The client list after a client connected or left: its first record is
/// updated, or a record is added for a client seen for the first time.
pub open spec fn updated_clients(
    records: Seq<LaboratoryClientRecord>,
    client_id: Seq<char>,
    online: bool,
    name: Option<Seq<char>>,
    now_ms: u64,
    result: Seq<LaboratoryClientRecord>,
) -> bool {
    match client_index(records, client_id) {
        Some(i) => {
            &&& result.len() == records.len()
            &&& forall|j: int| 0 <= j < records.len() && j != i ==> result[j] == records[j]
            &&& result[i] == (LaboratoryClientRecord {
                name: result[i].name,
                ..touched_client(records[i], online, name, now_ms)
            })
            &&& result[i].name@ == renamed(records[i].name@, name)
        },
        None => {
            &&& result.len() == records.len() + 1
            &&& result.take(records.len() as int) == records
            &&& result.last().client_id@ == client_id
            &&& result.last().name@ == match name {
                Some(n) => n,
                None => "Lyrics Plus 客户端"@,
            }
            &&& result.last().online == online
            &&& result.last().last_connected_at_ms == if online {
                Some(now_ms)
            } else {
                None
            }
        },
    }
}

/// Records that a client connected or left at `now_ms`.
#[verifier::loop_isolation(false)]
pub fn update_client_record(
    records: &Vec<LaboratoryClientRecord>,
    client_id: &str,
    online: bool,
    name: Option<&str>,
    now_ms: u64,
) -> (r: Vec<LaboratoryClientRecord>)
    ensures
        updated_clients(
            records@,
            client_id@,
            online,
            match name {
                Some(n) => Some(n@),
                None => None,
            },
            now_ms,
            r@,
        ),
{
    proof {
        lemma_client_index(records@, client_id@);
    }
    let ghost idx = client_index(records@, client_id@);
    let mut out: Vec<LaboratoryClientRecord> = Vec::new();
    let mut found: bool = false;
    let mut i: usize = 0;
    while i < records.len()
        invariant
            i <= records@.len(),
            out@.len() == i,
            found == (idx matches Some(k) && k < i),
            forall|j: int| 0 <= j < i && idx != Some(j) ==> (#[trigger] out@[j]) == records@[j],
            forall|k: int| idx == Some(k) && k < i ==> #[trigger] out@[k] == (LaboratoryClientRecord {
                name: out@[k].name,
                ..touched_client(
                    records@[k],
                    online,
                    match name {
                        Some(n) => Some(n@),
                        None => None,
                    },
                    now_ms,
                )
            }) && out@[k].name@ == renamed(
                records@[k].name@,
                match name {
                    Some(n) => Some(n@),
                    None => None,
                },
            ),
        decreases records@.len() - i,
    {
        let same = str_eq(records[i].client_id.as_str(), client_id);
        if same && !found {
            let mut updated = copy_client_record(&records[i]);
            updated.online = online;
            if let Some(n) = name {
                let t = trim_str(n);
                if t.len() > 0 {
                    updated.name = string_from_chars(&t);
                }
            }
            if online {
                updated.last_connected_at_ms = Some(now_ms);
            }
            out.push(updated);
            found = true;
        } else {
            out.push(copy_client_record(&records[i]));
        }
        i = i + 1;
    }
    if !found {
        let n = match name {
            Some(n) => string_from_chars(&chars_of(n)),
            None => string_from_chars(&chars_of("Lyrics Plus 客户端")),
        };
        let ghost before = out@;
        out.push(
            LaboratoryClientRecord {
                client_id: string_from_chars(&chars_of(client_id)),
                name: n,
                online,
                last_connected_at_ms: if online {
                    Some(now_ms)
                } else {
                    None
                },
            },
        );
        assert(before == records@);
        assert(out@.take(records@.len() as int) == before);
    }
    out
}

/// Marks every client offline, and says whether any was online.
pub fn mark_clients_offline(records: &Vec<LaboratoryClientRecord>) -> (r: (
    Vec<LaboratoryClientRecord>,
    bool,
))
    ensures
        r.0@.len() == records@.len(),
        forall|j: int|
            0 <= j < records@.len() ==> (#[trigger] r.0@[j]) == (LaboratoryClientRecord {
                online: false,
                ..records@[j]
            }),
        r.1 == exists|j: int| 0 <= j < records@.len() && (#[trigger] records@[j]).online,
{
    let mut out: Vec<LaboratoryClientRecord> = Vec::new();
    let mut changed = false;
    let mut i: usize = 0;
    while i < records.len()
        invariant
            i <= records@.len(),
            out@.len() == i,
            forall|j: int|
                0 <= j < i ==> (#[trigger] out@[j]) == (LaboratoryClientRecord {
                    online: false,
                    ..records@[j]
                }),
            changed == exists|j: int| 0 <= j < i && (#[trigger] records@[j]).online,
        decreases records@.len() - i,
    {
        let mut c = copy_client_record(&records[i]);
        if c.online {
            changed = true;
        }
        c.online = false;
        out.push(c);
        i = i + 1;
    }
    (out, changed)
}

/// The records other than those of two servers, in order.
pub open spec fn without_servers(records: Seq<LaboratoryServerRecord>, a: Seq<char>, b: Seq<char>) -> Seq<
    LaboratoryServerRecord,
>
    decreases records.len(),
{
    if records.len() == 0 {
        seq![]
    } else {
        let rest = without_servers(records.drop_last(), a, b);
        if records.last().server_id@ != a && records.last().server_id@ != b {
            rest.push(records.last())
        } else {
            rest
        }
    }
}

/// When a server announces a stable identifier different from the one the
/// client knew it by, the record takes the new identifier and the current
/// time, replaces every record of either identifier, and the list is ordered
/// by recency and cut to 32. Returns the old identifier and the new list; a
/// blank or unchanged identifier changes nothing.
pub fn promote_server_record(
    records: &Vec<LaboratoryServerRecord>,
    record: &mut LaboratoryServerRecord,
    server_id: &str,
    now_ms: u64,
) -> (r: Option<(String, Vec<LaboratoryServerRecord>)>)
    ensures
        (trim_spec(server_id@).len() == 0 || old(record).server_id@ == trim_spec(server_id@)) ==> r
            is None && *final(record) == *old(record),
        !(trim_spec(server_id@).len() == 0 || old(record).server_id@ == trim_spec(server_id@)) ==> {
            &&& *final(record) == (LaboratoryServerRecord {
                server_id: final(record).server_id,
                last_connected_at_ms: Some(now_ms),
                ..*old(record)
            })
            &&& final(record).server_id@ == trim_spec(server_id@)
            &&& r matches Some((previous, list)) && previous@ == old(record).server_id@ && list@
                == keep_first(
                sort_by_recency(
                    without_servers(records@, old(record).server_id@, trim_spec(server_id@)).push(
                        *final(record),
                    ),
                ),
                MAX_SERVER_RECORDS as int,
            )
        },
{
    let id = trim_str(server_id);
    if id.len() == 0 || crate::text::str_eq_chars(record.server_id.as_str(), &id) {
        return None;
    }
    let previous = record.server_id.clone();
    record.server_id = string_from_chars(&id);
    record.last_connected_at_ms = Some(now_ms);
    let mut kept: Vec<LaboratoryServerRecord> = Vec::new();
    let mut i: usize = 0;
    let ghost a = previous@;
    let ghost b = id@;
    assert(records@.take(0) == Seq::<LaboratoryServerRecord>::empty());
    while i < records.len()
        invariant
            i <= records@.len(),
            a == previous@,
            b == id@,
            kept@ == without_servers(records@.take(i as int), a, b),
        decreases records@.len() - i,
    {
        let ghost t = records@.take(i + 1);
        assert(t.drop_last() == records@.take(i as int));
        let keep = !str_eq(records[i].server_id.as_str(), previous.as_str())
            && !crate::text::str_eq_chars(records[i].server_id.as_str(), &id);
        if keep {
            kept.push(copy_server_record(&records[i]));
        }
        i = i + 1;
    }
    assert(records@.take(records@.len() as int) == records@);
    kept.push(copy_server_record(record));
    let mut sorted = sort_server_records(&kept);
    truncate_records(&mut sorted);
    Some((previous, sorted))
}

/// No record comes after one connected to less recently.
pub open spec fn recency_sorted(s: Seq<LaboratoryServerRecord>) -> bool {
    forall|i: int, j: int|
        0 <= i < j < s.len() ==> !connected_before(
            (#[trigger] s[i]).last_connected_at_ms,
            (#[trigger] s[j]).last_connected_at_ms,
        )
}

proof fn lemma_insert_members(sorted: Seq<LaboratoryServerRecord>, x: LaboratoryServerRecord)
    ensures
        insert_by_recency(sorted, x).len() == sorted.len() + 1,
        forall|k: int|
            0 <= k < insert_by_recency(sorted, x).len() ==> #[trigger] insert_by_recency(sorted, x)[k]
                == x || sorted.contains(insert_by_recency(sorted, x)[k]),
    decreases sorted.len(),
{
    if sorted.len() > 0 && connected_before(sorted.last().last_connected_at_ms, x.last_connected_at_ms) {
        let t = sorted.drop_last();
        lemma_insert_members(t, x);
        let r = insert_by_recency(sorted, x);
        assert forall|k: int| 0 <= k < r.len() implies #[trigger] r[k] == x || sorted.contains(r[k]) by {
            if k < r.len() - 1 {
                assert(r[k] == insert_by_recency(t, x)[k]);
                if r[k] != x {
                    let i = choose|i: int| 0 <= i < t.len() && t[i] == r[k];
                    assert(sorted[i] == t[i]);
                }
            } else {
                assert(r[k] == sorted[sorted.len() - 1]);
            }
        }
    } else if sorted.len() > 0 {
        let r = insert_by_recency(sorted, x);
        assert forall|k: int| 0 <= k < r.len() implies #[trigger] r[k] == x || sorted.contains(r[k]) by {
            if k < sorted.len() {
                assert(r[k] == sorted[k]);
            }
        }
    }
}

proof fn lemma_insert_sorted(sorted: Seq<LaboratoryServerRecord>, x: LaboratoryServerRecord)
    requires
        recency_sorted(sorted),
    ensures
        recency_sorted(insert_by_recency(sorted, x)),
    decreases sorted.len(),
{
    if sorted.len() == 0 {
    } else if connected_before(sorted.last().last_connected_at_ms, x.last_connected_at_ms) {
        let t = sorted.drop_last();
        assert(recency_sorted(t)) by {
            assert forall|i: int, j: int| 0 <= i < j < t.len() implies !connected_before(
                (#[trigger] t[i]).last_connected_at_ms,
                (#[trigger] t[j]).last_connected_at_ms,
            ) by {
                assert(t[i] == sorted[i] && t[j] == sorted[j]);
            }
        }
        lemma_insert_sorted(t, x);
        lemma_insert_members(t, x);
        let rt = insert_by_recency(t, x);
        let r = insert_by_recency(sorted, x);
        assert forall|i: int, j: int| 0 <= i < j < r.len() implies !connected_before(
            (#[trigger] r[i]).last_connected_at_ms,
            (#[trigger] r[j]).last_connected_at_ms,
        ) by {
            if j < r.len() - 1 {
                assert(r[i] == rt[i] && r[j] == rt[j]);
            } else {
                assert(r[j] == sorted.last());
                assert(r[i] == rt[i]);
                if rt[i] != x {
                    let w = choose|w: int| 0 <= w < t.len() && t[w] == rt[i];
                    assert(sorted[w] == t[w]);
                    assert(sorted[sorted.len() - 1] == sorted.last());
                }
            }
        }
    } else {
        let r = insert_by_recency(sorted, x);
        assert forall|i: int, j: int| 0 <= i < j < r.len() implies !connected_before(
            (#[trigger] r[i]).last_connected_at_ms,
            (#[trigger] r[j]).last_connected_at_ms,
        ) by {
            assert(r[i] == sorted[i]);
            if j < r.len() - 1 {
                assert(r[j] == sorted[j]);
            } else {
                assert(sorted[sorted.len() - 1] == sorted.last());
                if i < sorted.len() - 1 {
                    assert(!connected_before(sorted[i].last_connected_at_ms, sorted[sorted.len() - 1].last_connected_at_ms));
                }
            }
        }
    }
}

proof fn lemma_sort_props(s: Seq<LaboratoryServerRecord>)
    ensures
        recency_sorted(sort_by_recency(s)),
        sort_by_recency(s).len() == s.len(),
        forall|k: int| 0 <= k < s.len() ==> s.contains(#[trigger] sort_by_recency(s)[k]),
    decreases s.len(),
{
    if s.len() > 0 {
        let t = s.drop_last();
        lemma_sort_props(t);
        let st = sort_by_recency(t);
        lemma_insert_sorted(st, s.last());
        lemma_insert_members(st, s.last());
        let r = sort_by_recency(s);
        assert forall|k: int| 0 <= k < s.len() implies s.contains(#[trigger] r[k]) by {
            if r[k] == s.last() {
                assert(s[s.len() - 1] == s.last());
            } else {
                let w = choose|w: int| 0 <= w < st.len() && st[w] == r[k];
                assert(t.contains(st[w]));
                let v = choose|v: int| 0 <= v < t.len() && t[v] == st[w];
                assert(s[v] == t[v]);
            }
        }
    }
}

/// The list of remembered servers never holds more than 32 records, and it
/// is ordered from the most recent connection down.
pub proof fn saved_servers_are_bounded_and_ordered(
    records: Seq<LaboratoryServerRecord>,
    record: LaboratoryServerRecord,
)
    ensures
        saved_servers(records, record).len() <= MAX_SERVER_RECORDS,
        recency_sorted(saved_servers(records, record)),
{
    let merged = match server_index(records, record.server_id@) {
        Some(i) => records.update(
            i,
            LaboratoryServerRecord {
                last_connected_at_ms: match record.last_connected_at_ms {
                    Some(t) => Some(t),
                    None => records[i].last_connected_at_ms,
                },
                ..record
            },
        ),
        None => records.push(record),
    };
    lemma_sort_props(merged);
    let sorted = sort_by_recency(merged);
    let kept = keep_first(sorted, MAX_SERVER_RECORDS as int);
    assert forall|i: int, j: int| 0 <= i < j < kept.len() implies !connected_before(
        (#[trigger] kept[i]).last_connected_at_ms,
        (#[trigger] kept[j]).last_connected_at_ms,
    ) by {
        assert(kept[i] == sorted[i] && kept[j] == sorted[j]);
    }
}

proof fn lemma_without_members(records: Seq<LaboratoryServerRecord>, a: Seq<char>, b: Seq<char>)
    ensures
        forall|k: int|
            0 <= k < without_servers(records, a, b).len() ==> (#[trigger] without_servers(
                records,
                a,
                b,
            )[k]).server_id@ != a && without_servers(records, a, b)[k].server_id@ != b,
    decreases records.len(),
{
    if records.len() > 0 {
        lemma_without_members(records.drop_last(), a, b);
    }
}

/// After a server is promoted to a new identifier, no remembered record keeps
/// its old identifier.
pub proof fn promoted_server_forgets_old_identifier(
    records: Seq<LaboratoryServerRecord>,
    promoted: LaboratoryServerRecord,
    previous: Seq<char>,
)
    requires
        promoted.server_id@ != previous,
    ensures
        forall|k: int|
            0 <= k < keep_first(
                sort_by_recency(
                    without_servers(records, previous, promoted.server_id@).push(promoted),
                ),
                MAX_SERVER_RECORDS as int,
            ).len() ==> (#[trigger] keep_first(
                sort_by_recency(
                    without_servers(records, previous, promoted.server_id@).push(promoted),
                ),
                MAX_SERVER_RECORDS as int,
            )[k]).server_id@ != previous,
{
    let w = without_servers(records, previous, promoted.server_id@);
    let m = w.push(promoted);
    lemma_without_members(records, previous, promoted.server_id@);
    lemma_sort_props(m);
    let sorted = sort_by_recency(m);
    let kept = keep_first(sorted, MAX_SERVER_RECORDS as int);
    assert forall|k: int| 0 <= k < kept.len() implies (#[trigger] kept[k]).server_id@ != previous by {
        assert(kept[k] == sorted[k]);
        assert(m.contains(sorted[k]));
        let v = choose|v: int| 0 <= v < m.len() && m[v] == sorted[k];
        if v < w.len() {
            assert(m[v] == w[v]);
        }
    }
}

} // verus!

verus! {

/// No two records name the same server.
pub open spec fn distinct_server_ids(s: Seq<LaboratoryServerRecord>) -> bool {
    forall|i: int, j: int|
        0 <= i < j < s.len() ==> (#[trigger] s[i]).server_id@ != (#[trigger] s[j]).server_id@
}

/// Takes an answer to a discovery into the servers found so far: an answer
/// of the current protocol replaces any earlier answer of the same server
/// and comes last; an answer of another protocol is ignored.
pub fn note_discovered(found: &mut Vec<LaboratoryServerRecord>, record: LaboratoryServerRecord)
    ensures
        record.protocol_version != crate::laboratory::PROTOCOL_VERSION ==> final(found)@ == old(
            found,
        )@,
        record.protocol_version == crate::laboratory::PROTOCOL_VERSION ==> final(found)@
            == without_servers(old(found)@, record.server_id@, record.server_id@).push(record),
{
    if record.protocol_version != crate::laboratory::PROTOCOL_VERSION {
        return;
    }
    let ghost all = found@;
    let ghost a = record.server_id@;
    let n: usize = found.len();
    let mut kept: Vec<LaboratoryServerRecord> = Vec::new();
    let mut i: usize = 0;
    assert(all.take(0) == Seq::<LaboratoryServerRecord>::empty());
    while i < n
        invariant
            i <= n,
            n == found@.len(),
            found@ == all,
            a == record.server_id@,
            kept@ == without_servers(all.take(i as int), a, a),
        decreases n - i,
    {
        let ghost t = all.take(i + 1);
        assert(t.drop_last() == all.take(i as int));
        if !str_eq(found[i].server_id.as_str(), record.server_id.as_str()) {
            kept.push(copy_server_record(&found[i]));
        }
        i = i + 1;
    }
    assert(all.take(n as int) == all);
    kept.push(record);
    *found = kept;
}

proof fn lemma_without_servers_members(s: Seq<LaboratoryServerRecord>, a: Seq<char>, b: Seq<char>)
    ensures
        forall|k: int|
            0 <= k < without_servers(s, a, b).len() ==> s.contains(
                #[trigger] without_servers(s, a, b)[k],
            ) && without_servers(s, a, b)[k].server_id@ != a && without_servers(s, a, b)[k].server_id@
                != b,
        distinct_server_ids(s) ==> distinct_server_ids(without_servers(s, a, b)),
    decreases s.len(),
{
    if s.len() > 0 {
        let d = s.drop_last();
        lemma_without_servers_members(d, a, b);
        let w = without_servers(s, a, b);
        let wd = without_servers(d, a, b);
        assert forall|k: int| 0 <= k < w.len() implies s.contains(#[trigger] w[k]) && w[k].server_id@
            != a && w[k].server_id@ != b by {
            if k < wd.len() {
                assert(w[k] == wd[k]);
                let m = choose|m: int| 0 <= m < d.len() && d[m] == wd[k];
                assert(s[m] == d[m]);
            } else {
                assert(w[k] == s.last());
                assert(s[s.len() - 1] == s.last());
            }
        }
        if distinct_server_ids(s) {
            assert(distinct_server_ids(d)) by {
                assert forall|i: int, j: int| 0 <= i < j < d.len() implies (#[trigger] d[i]).server_id@
                    != (#[trigger] d[j]).server_id@ by {
                    assert(d[i] == s[i] && d[j] == s[j]);
                }
            }
            assert forall|i: int, j: int| 0 <= i < j < w.len() implies (#[trigger] w[i]).server_id@
                != (#[trigger] w[j]).server_id@ by {
                if j < wd.len() {
                    assert(w[i] == wd[i] && w[j] == wd[j]);
                } else {
                    assert(w[i] == wd[i]);
                    assert(w[j] == s.last());
                    let m = choose|m: int| 0 <= m < d.len() && d[m] == wd[i];
                    assert(s[m] == d[m]);
                    assert(s[s.len() - 1] == s.last());
                }
            }
        }
    }
}

/// A discovery keeps at most one answer per server.
pub proof fn discovered_servers_stay_distinct(
    found: Seq<LaboratoryServerRecord>,
    record: LaboratoryServerRecord,
)
    requires
        distinct_server_ids(found),
    ensures
        distinct_server_ids(without_servers(found, record.server_id@, record.server_id@).push(record)),
{
    let w = without_servers(found, record.server_id@, record.server_id@);
    lemma_without_servers_members(found, record.server_id@, record.server_id@);
    let p = w.push(record);
    assert forall|i: int, j: int| 0 <= i < j < p.len() implies (#[trigger] p[i]).server_id@
        != (#[trigger] p[j]).server_id@ by {
        assert(p[i] == w[i]);
        if j < w.len() {
            assert(p[j] == w[j]);
        } else {
            assert(p[j] == record);
        }
    }
}

} // verus!
