//! The breakpoint table: maps a patched address to the original code word it
//! overwrote and a monotonically assigned, 1-based id.
//!
//! Policy (made explicit): entries are never dropped automatically.  Restoring
//! after a hit marks the entry inactive — the patch is gone and the address
//! may be patched again under a fresh id — while the historical entry stays
//! until an explicit `clear`.  A duplicate insert is rejected only while an
//! *active* (still patched) entry covers the address, so the true original
//! word is never lost.

use vstd::prelude::*;

verus! {

/// One planted trap: the patched address, the full machine word that occupied
/// it before patching, the display id, and whether the patch is still in the
/// target's text segment.
#[derive(Clone, Copy, Debug, PartialEq, Eq, Structural)]
pub struct Breakpoint {
    pub addr: u64,
    pub original_data: u64,
    pub id: usize,
    pub active: bool,
}

/// There is at most one active entry per address, and ids grow strictly in
/// insertion order, all in `1 ..= next_id - 1`.
pub open spec fn entries_wf(s: Seq<Breakpoint>, next_id: int) -> bool {
    &&& 1 <= next_id
    &&& forall|i: int| 0 <= i < s.len() ==> 1 <= #[trigger] s[i].id < next_id
    &&& forall|i: int, j: int| 0 <= i < j < s.len() ==> #[trigger] s[i].id < #[trigger] s[j].id
    &&& forall|i: int, j: int|
        0 <= i < j < s.len() && #[trigger] s[i].active && #[trigger] s[j].active ==> s[i].addr
            != s[j].addr
}

/// A live (still patched) breakpoint covers `addr`.
pub open spec fn contains_active(s: Seq<Breakpoint>, addr: u64) -> bool {
    exists|i: int| 0 <= i < s.len() && #[trigger] s[i].active && s[i].addr == addr
}

/// The index of the live entry at `addr` (meaningful only when one exists;
/// well-formedness makes it unique).
pub open spec fn active_index(s: Seq<Breakpoint>, addr: u64) -> int {
    choose|i: int| 0 <= i < s.len() && #[trigger] s[i].active && s[i].addr == addr
}

/// The original word recorded for the live entry at `addr`.
pub open spec fn active_data(s: Seq<Breakpoint>, addr: u64) -> u64 {
    s[active_index(s, addr)].original_data
}

/// The entries after a successful insert of `addr` with original word `data`
/// under id `next_id`.
pub open spec fn entries_inserted(s: Seq<Breakpoint>, next_id: int, addr: u64, data: u64) -> Seq<
    Breakpoint,
> {
    s.push(Breakpoint { addr, original_data: data, id: next_id as usize, active: true })
}

/// The entries after the live entry at `addr` is marked inactive.
pub open spec fn entries_deactivated(s: Seq<Breakpoint>, addr: u64) -> Seq<Breakpoint> {
    let i = active_index(s, addr);
    s.update(i, Breakpoint { active: false, ..s[i] })
}

/// Insertion-ordered table of breakpoints.  `next_id` is the id the next
/// insert will take; ids are assigned in insertion order and never reused.
pub struct BreakpointTable {
    pub entries: Vec<Breakpoint>,
    pub next_id: usize,
}

impl BreakpointTable {
    pub open spec fn wf(self) -> bool {
        entries_wf(self.entries@, self.next_id as int)
    }

    pub open spec fn spec_contains_active(self, addr: u64) -> bool {
        contains_active(self.entries@, addr)
    }

    pub open spec fn spec_active_data(self, addr: u64) -> u64 {
        active_data(self.entries@, addr)
    }

    pub fn new() -> (r: BreakpointTable)
        ensures
            r.wf(),
            r.entries@ == Seq::<Breakpoint>::empty(),
            r.next_id == 1,
    {
        BreakpointTable { entries: Vec::new(), next_id: 1 }
    }

    pub fn len(&self) -> (r: usize)
        ensures
            r == self.entries@.len(),
    {
        self.entries.len()
    }

    /// Looks up the live breakpoint at `addr`: its original word and its id.
    pub fn find_active(&self, addr: u64) -> (r: Option<(u64, usize)>)
        requires
            self.wf(),
        ensures
            match r {
                Some((data, id)) => {
                    &&& self.spec_contains_active(addr)
                    &&& data == self.spec_active_data(addr)
                    &&& id == self.entries@[active_index(self.entries@, addr)].id
                },
                None => !self.spec_contains_active(addr),
            },
    {
        let n = self.entries.len();
        let mut k: usize = 0;
        while k < n
            invariant
                self.wf(),
                n == self.entries@.len(),
                k <= n,
                forall|i: int|
                    0 <= i < k ==> !(#[trigger] self.entries@[i].active && self.entries@[i].addr
                        == addr),
            decreases n - k,
        {
            let e = &self.entries[k];
            if e.active && e.addr == addr {
                proof {
                    let s = self.entries@;
                    assert(contains_active(s, addr));
                    let w = active_index(s, addr);
                    assert(s[w].active && s[w].addr == addr);
                    if w != k as int {
                        assert(false);
                    }
                }
                return Some((e.original_data, e.id));
            }
            k = k + 1;
        }
        None
    }

    /// Records a fresh live breakpoint.  The caller has already ruled out a
    /// live duplicate, so the recorded original word of every older entry is
    /// untouched.
    pub fn insert(&mut self, addr: u64, data: u64) -> (id: usize)
        requires
            old(self).wf(),
            !old(self).spec_contains_active(addr),
            old(self).next_id < usize::MAX,
        ensures
            final(self).wf(),
            final(self).entries@ == entries_inserted(
                old(self).entries@,
                old(self).next_id as int,
                addr,
                data,
            ),
            final(self).next_id == old(self).next_id + 1,
            id == old(self).next_id,
            final(self).spec_contains_active(addr),
            final(self).spec_active_data(addr) == data,
    {
        let id = self.next_id;
        self.entries.push(Breakpoint { addr, original_data: data, id, active: true });
        self.next_id = self.next_id + 1;
        proof {
            let s = self.entries@;
            let last = s.len() - 1;
            assert(s[last].active && s[last].addr == addr);
            let w = active_index(s, addr);
            if w != last {
                assert(old(self).entries@[w] == s[w]);
                assert(old(self).spec_contains_active(addr));
            }
        }
        id
    }

    /// Marks the live breakpoint at `addr` inactive and hands back the word
    /// to write over the patch.  `None` exactly when no live breakpoint
    /// covers `addr`, and then nothing changes.
    pub fn deactivate(&mut self, addr: u64) -> (r: Option<u64>)
        requires
            old(self).wf(),
        ensures
            final(self).wf(),
            final(self).next_id == old(self).next_id,
            match r {
                Some(data) => {
                    &&& old(self).spec_contains_active(addr)
                    &&& data == old(self).spec_active_data(addr)
                    &&& final(self).entries@ == entries_deactivated(old(self).entries@, addr)
                    &&& !final(self).spec_contains_active(addr)
                },
                None => {
                    &&& !old(self).spec_contains_active(addr)
                    &&& final(self).entries@ == old(self).entries@
                },
            },
    {
        let n = self.entries.len();
        let mut k: usize = 0;
        while k < n
            invariant
                *self == *old(self),
                self.wf(),
                n == self.entries@.len(),
                k <= n,
                forall|i: int|
                    0 <= i < k ==> !(#[trigger] self.entries@[i].active && self.entries@[i].addr
                        == addr),
            decreases n - k,
        {
            let e = &self.entries[k];
            if e.active && e.addr == addr {
                let data = e.original_data;
                let stale = Breakpoint { active: false, ..self.entries[k] };
                self.entries.set(k, stale);
                proof {
                    let prev = old(self).entries@;
                    assert(prev[k as int].active && prev[k as int].addr == addr);
                    let w = active_index(prev, addr);
                    if w != k as int {
                        assert(false);
                    }
                    assert forall|i: int|
                        0 <= i < self.entries@.len() && #[trigger] self.entries@[i].active
                            && self.entries@[i].addr == addr implies false by {
                        assert(prev[i].active && prev[i].addr == addr);
                    }
                }
                return Some(data);
            }
            k = k + 1;
        }
        None
    }

    /// Explicitly empties the table; ids are still never reused.
    pub fn clear(&mut self)
        requires
            old(self).wf(),
        ensures
            final(self).wf(),
            final(self).entries@ == Seq::<Breakpoint>::empty(),
            final(self).next_id == old(self).next_id,
    {
        self.entries.clear();
    }
}

/// Law: planting a breakpoint at `a` and then, with the process stopped
/// exactly at `a + TRAP_WIDTH`, correcting the program counter back by the
/// trap width finds that same breakpoint, hands back a word bit-identical to
/// the pre-insert word, and leaves the corrected program counter equal to `a`.
pub proof fn lemma_insert_then_restore(s: Seq<Breakpoint>, next_id: int, a: u64, w: u64)
    requires
        entries_wf(s, next_id),
        !contains_active(s, a),
        next_id < usize::MAX,
        a + crate::arch::TRAP_WIDTH <= u64::MAX,
    ensures
        ({
            let s1 = entries_inserted(s, next_id, a, w);
            let stopped_pc = (a + crate::arch::TRAP_WIDTH) as u64;
            let corrected = (stopped_pc - crate::arch::TRAP_WIDTH) as u64;
            &&& corrected == a
            &&& contains_active(s1, a)
            &&& active_data(s1, a) == w
            &&& !contains_active(entries_deactivated(s1, a), a)
        }),
{
    let s1 = entries_inserted(s, next_id, a, w);
    let last = s1.len() - 1;
    assert(s1[last].active && s1[last].addr == a);
    let i = active_index(s1, a);
    assert(s1[i].active && s1[i].addr == a);
    if i != last {
        assert(s[i] == s1[i]);
        assert(contains_active(s, a));
    }
    let s2 = entries_deactivated(s1, a);
    assert forall|j: int|
        0 <= j < s2.len() && #[trigger] s2[j].active && s2[j].addr == a implies false by {
        assert(s1[j].active && s1[j].addr == a);
    }
}

/// Law: after a breakpoint is planted at `a` with original word `w1`, the
/// address has a live breakpoint and the word recorded for it is exactly
/// `w1` — so a second insert at `a` without an intervening restore must take
/// the duplicate-error path, whose contract leaves the table, and with it the
/// recorded original word, unchanged.
pub proof fn lemma_duplicate_insert_rejected(s: Seq<Breakpoint>, next_id: int, a: u64, w1: u64)
    requires
        entries_wf(s, next_id),
        !contains_active(s, a),
        next_id < usize::MAX,
    ensures
        contains_active(entries_inserted(s, next_id, a, w1), a),
        active_data(entries_inserted(s, next_id, a, w1), a) == w1,
{
    let s1 = entries_inserted(s, next_id, a, w1);
    let last = s1.len() - 1;
    assert(s1[last].active && s1[last].addr == a);
    let i = active_index(s1, a);
    assert(s1[i].active && s1[i].addr == a);
    if i != last {
        assert(s[i] == s1[i]);
        assert(contains_active(s, a));
    }
}

} // verus!
