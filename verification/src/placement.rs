use vstd::prelude::*;

use crate::overlay::ToolbarPlacement;
use crate::text::str_eq;

verus! {

/// One display as the lyrics window placement remembers it.
#[derive(Debug, Clone)]
pub struct MonitorTopologyEntry {
    pub id: String,
    pub x: i32,
    pub y: i32,
    pub width: u32,
    pub height: u32,
    pub work_x: i32,
    pub work_y: i32,
    pub work_width: u32,
    pub work_height: u32,
    pub scale_factor_bits: u64,
}

/// A copy of an entry.
pub fn copy_entry(e: &MonitorTopologyEntry) -> (r: MonitorTopologyEntry)
    ensures
        r == *e,
{
    MonitorTopologyEntry {
        id: e.id.clone(),
        x: e.x,
        y: e.y,
        width: e.width,
        height: e.height,
        work_x: e.work_x,
        work_y: e.work_y,
        work_width: e.work_width,
        work_height: e.work_height,
        scale_factor_bits: e.scale_factor_bits,
    }
}

/// Two entries describe the same display the same way.
pub open spec fn same_entry(a: MonitorTopologyEntry, b: MonitorTopologyEntry) -> bool {
    &&& a.id@ == b.id@
    &&& a.x == b.x
    &&& a.y == b.y
    &&& a.width == b.width
    &&& a.height == b.height
    &&& a.work_x == b.work_x
    &&& a.work_y == b.work_y
    &&& a.work_width == b.work_width
    &&& a.work_height == b.work_height
    &&& a.scale_factor_bits == b.scale_factor_bits
}

/// Two lists describe the same displays in the same order.
pub open spec fn same_topology(a: Seq<MonitorTopologyEntry>, b: Seq<MonitorTopologyEntry>) -> bool {
    a.len() == b.len() && forall|i: int| 0 <= i < a.len() ==> same_entry(#[trigger] a[i], b[i])
}

fn same_topology_exec(a: &Vec<MonitorTopologyEntry>, b: &Vec<MonitorTopologyEntry>) -> (r: bool)
    ensures
        r == same_topology(a@, b@),
{
    if a.len() != b.len() {
        return false;
    }
    let mut i: usize = 0;
    while i < a.len()
        invariant
            i <= a@.len(),
            a@.len() == b@.len(),
            forall|j: int| 0 <= j < i ==> same_entry(#[trigger] a@[j], b@[j]),
        decreases a@.len() - i,
    {
        let x = &a[i];
        let y = &b[i];
        if !(str_eq(x.id.as_str(), y.id.as_str()) && x.x == y.x && x.y == y.y && x.width == y.width
            && x.height == y.height && x.work_x == y.work_x && x.work_y == y.work_y && x.work_width
            == y.work_width && x.work_height == y.work_height && x.scale_factor_bits
            == y.scale_factor_bits) {
            assert(!same_entry(a@[i as int], b@[i as int]));
            return false;
        }
        i = i + 1;
    }
    true
}

/// Where the lyrics window stands between moves: the displays it knows, the
/// toolbar side, and the move the application itself asked for, if any, with
/// the time it was asked for (in milliseconds).
#[derive(Debug, Clone)]
pub struct PlacementTracker {
    pub preferred_monitor: Option<String>,
    pub topology: Vec<MonitorTopologyEntry>,
    pub toolbar_placement: ToolbarPlacement,
    pub expected_position: Option<(i32, i32)>,
    pub move_started_ms: Option<u64>,
}

/// How long after asking for a move the window's own position events are
/// not saved.
pub const PROGRAMMATIC_MOVE_SUPPRESSION_MS: u64 = 2000;

/// Two coordinates are within two pixels.
pub open spec fn close(a: i32, b: i32) -> bool {
    -2 <= a - b <= 2
}

impl PlacementTracker {
    /// Nothing known yet.
    pub fn new() -> (r: Self)
        ensures
            r.preferred_monitor is None,
            r.topology@.len() == 0,
            r.toolbar_placement == ToolbarPlacement::Top,
            r.expected_position is None,
            r.move_started_ms is None,
    {
        PlacementTracker {
            preferred_monitor: None,
            topology: Vec::new(),
            toolbar_placement: ToolbarPlacement::Top,
            expected_position: None,
            move_started_ms: None,
        }
    }

    /// Records the displays now attached. The first list is only remembered;
    /// a later different list also drops a pending programmatic move and
    /// reports the change.
    pub fn update_topology(&mut self, next: Vec<MonitorTopologyEntry>) -> (changed: bool)
        ensures
            final(self).topology@ == next@,
            final(self).preferred_monitor == old(self).preferred_monitor,
            final(self).toolbar_placement == old(self).toolbar_placement,
            changed == (old(self).topology@.len() > 0 && !same_topology(old(self).topology@, next@)),
            changed ==> final(self).expected_position is None && final(self).move_started_ms
                is None,
            !changed ==> final(self).expected_position == old(self).expected_position
                && final(self).move_started_ms == old(self).move_started_ms,
    {
        if self.topology.len() == 0 {
            self.topology = next;
            return false;
        }
        if same_topology_exec(&self.topology, &next) {
            self.topology = next;
            return false;
        }
        self.topology = next;
        self.expected_position = None;
        self.move_started_ms = None;
        true
    }

    /// Records that the application itself moves the window to `position`
    /// at `now_ms`.
    pub fn mark_programmatic_move(&mut self, position: (i32, i32), now_ms: u64)
        ensures
            final(self).expected_position == Some(position),
            final(self).move_started_ms == Some(now_ms),
            final(self).topology == old(self).topology,
            final(self).toolbar_placement == old(self).toolbar_placement,
            final(self).preferred_monitor == old(self).preferred_monitor,
    {
        self.expected_position = Some(position);
        self.move_started_ms = Some(now_ms);
    }

    /// Whether a move event is the one the application asked for (within two
    /// pixels); the expectation is used up either way.
    pub fn consume_programmatic_move(&mut self, position: (i32, i32)) -> (r: bool)
        ensures
            r == (old(self).expected_position matches Some(e) && close(e.0, position.0) && close(
                e.1,
                position.1,
            )),
            final(self).expected_position is None,
            final(self).move_started_ms is None,
            final(self).topology == old(self).topology,
            final(self).toolbar_placement == old(self).toolbar_placement,
            final(self).preferred_monitor == old(self).preferred_monitor,
    {
        let expected = self.expected_position;
        self.expected_position = None;
        self.move_started_ms = None;
        match expected {
            None => false,
            Some(e) => {
                let dx: i64 = e.0 as i64 - position.0 as i64;
                let dy: i64 = e.1 as i64 - position.1 as i64;
                -2 <= dx && dx <= 2 && -2 <= dy && dy <= 2
            },
        }
    }

    /// Whether position events are still not saved at `now_ms` because a
    /// programmatic move began less than two seconds before; once that time
    /// is over, the pending move is dropped.
    pub fn suppress_persistence(&mut self, now_ms: u64) -> (r: bool)
        ensures
            r == (old(self).move_started_ms matches Some(t) && (if now_ms >= t {
                now_ms - t
            } else {
                0
            }) <= PROGRAMMATIC_MOVE_SUPPRESSION_MS),
            r ==> *final(self) == *old(self),
            !r ==> final(self).expected_position is None && final(self).move_started_ms is None
                && final(self).topology == old(self).topology && final(self).toolbar_placement
                == old(self).toolbar_placement && final(self).preferred_monitor == old(
                self,
            ).preferred_monitor,
    {
        let active = match self.move_started_ms {
            Some(t) => {
                let elapsed = if now_ms >= t {
                    now_ms - t
                } else {
                    0
                };
                elapsed <= PROGRAMMATIC_MOVE_SUPPRESSION_MS
            },
            None => false,
        };
        if !active {
            self.expected_position = None;
            self.move_started_ms = None;
        }
        active
    }

    /// Sets the toolbar side and says whether it changed.
    pub fn set_toolbar_placement(&mut self, placement: ToolbarPlacement) -> (changed: bool)
        ensures
            final(self).toolbar_placement == placement,
            changed == (old(self).toolbar_placement != placement),
            final(self).topology == old(self).topology,
            final(self).expected_position == old(self).expected_position,
            final(self).move_started_ms == old(self).move_started_ms,
            final(self).preferred_monitor == old(self).preferred_monitor,
    {
        if self.toolbar_placement == placement {
            false
        } else {
            self.toolbar_placement = placement;
            true
        }
    }
}

/// `a` comes before `b` in the order of Unicode scalar values, compared
/// character by character (the order of their UTF-8 bytes).
pub open spec fn text_lt(a: Seq<char>, b: Seq<char>) -> bool
    decreases a.len(),
{
    if b.len() == 0 {
        false
    } else if a.len() == 0 {
        true
    } else if (a[0] as u32) < (b[0] as u32) {
        true
    } else if a[0] == b[0] {
        text_lt(a.drop_first(), b.drop_first())
    } else {
        false
    }
}

fn text_lt_exec(a: &str, b: &str) -> (r: bool)
    ensures
        r == text_lt(a@, b@),
{
    let x = crate::text::chars_of(a);
    let y = crate::text::chars_of(b);
    chars_lt(&x, &y)
}

/// Compares two texts in the order of `text_lt`.
pub fn chars_lt(x: &Vec<char>, y: &Vec<char>) -> (r: bool)
    ensures
        r == text_lt(x@, y@),
{
    let ghost a = x@;
    let ghost b = y@;
    let mut i: usize = 0;
    assert(x@.skip(0) == x@);
    assert(y@.skip(0) == y@);
    while i < x.len() && i < y.len() && x[i] == y[i]
        invariant
            i <= x@.len(),
            i <= y@.len(),
            text_lt(a, b) == text_lt(x@.skip(i as int), y@.skip(i as int)),
            x@ == a,
            y@ == b,
        decreases x@.len() - i,
    {
        assert(x@.skip(i as int).drop_first() == x@.skip(i + 1));
        assert(y@.skip(i as int).drop_first() == y@.skip(i + 1));
        i = i + 1;
    }
    if i == y.len() {
        assert(y@.skip(i as int).len() == 0);
        return false;
    }
    if i == x.len() {
        assert(x@.skip(i as int).len() == 0);
        return true;
    }
    assert(x@.skip(i as int)[0] == x@[i as int]);
    assert(y@.skip(i as int)[0] == y@[i as int]);
    (x[i] as u32) < (y[i] as u32)
}

/// Displays are ordered by identifier, then position, then size.
pub open spec fn entry_lt(a: MonitorTopologyEntry, b: MonitorTopologyEntry) -> bool {
    if text_lt(a.id@, b.id@) {
        true
    } else if a.id@ != b.id@ {
        false
    } else if a.x != b.x {
        a.x < b.x
    } else if a.y != b.y {
        a.y < b.y
    } else if a.width != b.width {
        a.width < b.width
    } else {
        a.height < b.height
    }
}

fn entry_lt_exec(a: &MonitorTopologyEntry, b: &MonitorTopologyEntry) -> (r: bool)
    ensures
        r == entry_lt(*a, *b),
{
    if text_lt_exec(a.id.as_str(), b.id.as_str()) {
        true
    } else if !str_eq(a.id.as_str(), b.id.as_str()) {
        false
    } else if a.x != b.x {
        a.x < b.x
    } else if a.y != b.y {
        a.y < b.y
    } else if a.width != b.width {
        a.width < b.width
    } else {
        a.height < b.height
    }
}

/// `x` inserted into a sorted list after every entry that does not come after
/// it.
pub open spec fn insert_entry(sorted: Seq<MonitorTopologyEntry>, x: MonitorTopologyEntry) -> Seq<
    MonitorTopologyEntry,
>
    decreases sorted.len(),
{
    if sorted.len() == 0 {
        seq![x]
    } else if entry_lt(x, sorted.last()) {
        insert_entry(sorted.drop_last(), x).push(sorted.last())
    } else {
        sorted.push(x)
    }
}

/// The displays in order, entries that tie keeping their order (a stable
/// sort).
pub open spec fn sort_entries(s: Seq<MonitorTopologyEntry>) -> Seq<MonitorTopologyEntry>
    decreases s.len(),
{
    if s.len() == 0 {
        seq![]
    } else {
        insert_entry(sort_entries(s.drop_last()), s.last())
    }
}

proof fn lemma_insert_entry_split(sorted: Seq<MonitorTopologyEntry>, x: MonitorTopologyEntry, j: int)
    requires
        0 <= j <= sorted.len(),
        forall|k: int| j <= k < sorted.len() ==> entry_lt(x, #[trigger] sorted[k]),
    ensures
        insert_entry(sorted, x) == insert_entry(sorted.take(j), x) + sorted.skip(j),
    decreases sorted.len() - j,
{
    if j < sorted.len() {
        let t = sorted.drop_last();
        assert forall|k: int| j <= k < t.len() implies entry_lt(x, #[trigger] t[k]) by {
            assert(t[k] == sorted[k]);
        }
        lemma_insert_entry_split(t, x, j);
        assert(t.take(j) == sorted.take(j));
        assert(t.skip(j).push(sorted.last()) == sorted.skip(j));
    } else {
        assert(sorted.take(j) == sorted);
        assert(sorted.skip(j) == Seq::<MonitorTopologyEntry>::empty());
    }
}

/// Orders the displays by identifier, position and size, stably.
pub fn sort_topology(entries: &Vec<MonitorTopologyEntry>) -> (r: Vec<MonitorTopologyEntry>)
    ensures
        r@ == sort_entries(entries@),
{
    let mut out: Vec<MonitorTopologyEntry> = Vec::new();
    let mut i: usize = 0;
    assert(entries@.take(0) == Seq::<MonitorTopologyEntry>::empty());
    while i < entries.len()
        invariant
            i <= entries@.len(),
            out@ == sort_entries(entries@.take(i as int)),
        decreases entries@.len() - i,
    {
        let ghost t = entries@.take(i + 1);
        assert(t.drop_last() == entries@.take(i as int));
        assert(t.last() == entries@[i as int]);
        let x = copy_entry(&entries[i]);
        let mut j: usize = out.len();
        while j > 0 && entry_lt_exec(&x, &out[j - 1])
            invariant
                j <= out@.len(),
                forall|k: int| j <= k < out@.len() ==> entry_lt(x, #[trigger] out@[k]),
            decreases j,
        {
            j = j - 1;
        }
        proof {
            lemma_insert_entry_split(out@, x, j as int);
            let tk = out@.take(j as int);
            if tk.len() > 0 {
                assert(tk.last() == out@[j - 1]);
            }
        }
        let ghost before = out@;
        out.insert(j, x);
        assert(out@ == before.take(j as int).push(x) + before.skip(j as int));
        i = i + 1;
    }
    assert(entries@.take(entries@.len() as int) == entries@);
    out
}

} // verus!
