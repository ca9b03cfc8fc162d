//! Bounded undo/redo history: a sequence of full-content snapshots with a
//! cursor splitting the undoable past from the redoable future.

use vstd::prelude::*;

verus! {

/// What recording a new snapshot does to the snapshot sequence and cursor:
/// everything at or after the cursor is discarded, the snapshot is appended
/// and the cursor advances; if the sequence would exceed `cap`, the oldest
/// entry is dropped and the cursor is pulled back by one to compensate.
pub open spec fn spec_record<C>(snaps: Seq<C>, cur: int, cap: int, snap: C) -> (Seq<C>, int)
    recommends
        0 <= cur <= snaps.len(),
        cur <= cap,
{
    let truncated = snaps.take(cur);
    if cur < cap {
        (truncated.push(snap), cur + 1)
    } else {
        (truncated.skip(1).push(snap), cur)
    }
}

/// What an undo does: the entry just before the cursor is handed out for
/// restoration, the live content takes its slot (becoming a redo target),
/// and the cursor steps back.
pub open spec fn spec_undo<C>(snaps: Seq<C>, cur: int, live: C) -> (Seq<C>, int, C)
    recommends
        0 < cur <= snaps.len(),
{
    (snaps.update(cur - 1, live), cur - 1, snaps[cur - 1])
}

/// What a redo does: the entry at the cursor is handed out for restoration,
/// the live content takes its slot (becoming an undo target), and the
/// cursor steps forward.
pub open spec fn spec_redo<C>(snaps: Seq<C>, cur: int, live: C) -> (Seq<C>, int, C)
    recommends
        0 <= cur < snaps.len(),
{
    (snaps.update(cur, live), cur + 1, snaps[cur])
}

/// Undo directly after redo (no intervening edit) hands back exactly the
/// live content from immediately before the redo, and leaves the snapshot
/// sequence and cursor as they were.
pub proof fn lemma_undo_after_redo<C>(snaps: Seq<C>, cur: int, live: C)
    requires
        0 <= cur < snaps.len(),
    ensures
        ({
            let (s1, c1, r1) = spec_redo(snaps, cur, live);
            let (s2, c2, r2) = spec_undo(s1, c1, r1);
            r2 == live && s2 == snaps && c2 == cur
        }),
{
    let (s1, c1, r1) = spec_redo(snaps, cur, live);
    let (s2, c2, r2) = spec_undo(s1, c1, r1);
    assert(s2 =~= snaps);
}

/// Redo directly after undo (no intervening edit) hands back exactly the
/// live content from immediately before the undo, and leaves the snapshot
/// sequence and cursor as they were.
pub proof fn lemma_redo_after_undo<C>(snaps: Seq<C>, cur: int, live: C)
    requires
        0 < cur <= snaps.len(),
    ensures
        ({
            let (s1, c1, r1) = spec_undo(snaps, cur, live);
            let (s2, c2, r2) = spec_redo(s1, c1, r1);
            r2 == live && s2 == snaps && c2 == cur
        }),
{
    let (s1, c1, r1) = spec_undo(snaps, cur, live);
    let (s2, c2, r2) = spec_redo(s1, c1, r1);
    assert(s2 =~= snaps);
}

/// Recording while the cursor sits strictly before the end discards every
/// entry from the cursor onward: no stale redo branch survives a new edit.
pub proof fn lemma_record_discards_future<C>(snaps: Seq<C>, cur: int, cap: int, snap: C)
    requires
        0 <= cur <= snaps.len(),
        cur < cap,
    ensures
        ({
            let (s, c) = spec_record(snaps, cur, cap, snap);
            &&& s.len() == cur + 1
            &&& forall|i: int| 0 <= i < cur ==> s[i] == snaps[i]
            &&& s[cur] == snap
            &&& c == cur + 1
        }),
{
}

/// Recording never grows the history beyond its bound; recording into a
/// full history drops the oldest entry, keeps the rest shifted down by one,
/// and the cursor is decremented by exactly one to compensate for the
/// eviction (so it still points at the same logical position).
pub proof fn lemma_record_bounded<C>(snaps: Seq<C>, cur: int, cap: int, snap: C)
    requires
        0 <= cur <= snaps.len(),
        snaps.len() <= cap,
        cur <= cap,
        1 <= cap,
    ensures
        ({
            let (s, c) = spec_record(snaps, cur, cap, snap);
            &&& s.len() <= cap
            &&& 0 <= c <= s.len()
            &&& cur == cap ==> {
                &&& s.len() == cap
                &&& c == cur + 1 - 1
                &&& forall|i: int| 0 <= i < cap - 1 ==> s[i] == snaps[i + 1]
                &&& s[cap - 1] == snap
            }
        }),
{
    let (s, c) = spec_record(snaps, cur, cap, snap);
    if cur == cap {
        assert(snaps.take(cur) =~= snaps);
    }
}

/// A bounded sequence of snapshots with a cursor in `[0, length]`; entries
/// before the cursor are undoable past states, entries at or after it are
/// redoable future states.
pub struct History<C> {
    snapshots: Vec<C>,
    current: usize,
    bound: usize,
}

impl<C> History<C> {
    /// The stored snapshots, oldest first.
    pub closed spec fn snaps(&self) -> Seq<C> {
        self.snapshots@
    }

    /// The cursor splitting past from future.
    pub closed spec fn cur(&self) -> int {
        self.current as int
    }

    /// The configured bound on the number of snapshots.
    pub closed spec fn cap(&self) -> int {
        self.bound as int
    }

    /// The history invariant: the cursor stays in `[0, length]` and the
    /// length never exceeds the bound.
    pub open spec fn wf(&self) -> bool {
        &&& 0 <= self.cur() <= self.snaps().len()
        &&& self.snaps().len() <= self.cap()
        &&& self.cap() >= 1
    }

    pub fn new(bound: usize) -> (r: Self)
        requires
            bound >= 1,
        ensures
            r.snaps() == Seq::<C>::empty(),
            r.cur() == 0,
            r.cap() == bound,
            r.wf(),
    {
        History { snapshots: Vec::new(), current: 0, bound }
    }

    pub fn len(&self) -> (r: usize)
        ensures
            r == self.snaps().len(),
    {
        self.snapshots.len()
    }

    pub fn current(&self) -> (r: usize)
        ensures
            r == self.cur(),
    {
        self.current
    }

    pub fn can_undo(&self) -> (r: bool)
        ensures
            r == (self.cur() > 0),
    {
        self.current > 0
    }

    pub fn can_redo(&self) -> (r: bool)
        ensures
            r == (self.cur() < self.snaps().len()),
    {
        self.current < self.snapshots.len()
    }

    /// Truncates the redoable future, appends `snap`, advances the cursor,
    /// and evicts the oldest entry if the bound would be exceeded.
    pub fn record(&mut self, snap: C)
        requires
            old(self).wf(),
        ensures
            ({
                let (s, c) = spec_record(old(self).snaps(), old(self).cur(), old(self).cap(), snap);
                &&& final(self).snaps() == s
                &&& final(self).cur() == c
            }),
            final(self).cap() == old(self).cap(),
            final(self).cur() == final(self).snaps().len(),
            final(self).wf(),
    {
        self.snapshots.truncate(self.current);
        self.snapshots.push(snap);
        if self.snapshots.len() > self.bound {
            let ghost pre = self.snapshots@;
            self.snapshots.remove(0);
            proof {
                assert(self.snapshots@ =~= pre.skip(1));
            }
        }
        self.current = self.snapshots.len();
        proof {
            let (s, c) = spec_record(old(self).snaps(), old(self).cur(), old(self).cap(), snap);
            assert(self.snapshots@ =~= s);
        }
    }

    /// Hands out the snapshot just before the cursor, stores `live` in its
    /// slot as the redo target, and steps the cursor back.
    pub fn undo(&mut self, live: C) -> (r: C)
        requires
            old(self).wf(),
            old(self).cur() > 0,
        ensures
            ({
                let (s, c, restored) = spec_undo(old(self).snaps(), old(self).cur(), live);
                &&& final(self).snaps() == s
                &&& final(self).cur() == c
                &&& r == restored
            }),
            final(self).cap() == old(self).cap(),
            final(self).wf(),
    {
        self.current = self.current - 1;
        let mut slot = live;
        core::mem::swap(&mut self.snapshots[self.current], &mut slot);
        slot
    }

    /// Hands out the snapshot at the cursor, stores `live` in its slot as
    /// the undo target, and steps the cursor forward.
    pub fn redo(&mut self, live: C) -> (r: C)
        requires
            old(self).wf(),
            old(self).cur() < old(self).snaps().len(),
        ensures
            ({
                let (s, c, restored) = spec_redo(old(self).snaps(), old(self).cur(), live);
                &&& final(self).snaps() == s
                &&& final(self).cur() == c
                &&& r == restored
            }),
            final(self).cap() == old(self).cap(),
            final(self).wf(),
    {
        let mut slot = live;
        core::mem::swap(&mut self.snapshots[self.current], &mut slot);
        self.current = self.current + 1;
        slot
    }

    /// Drops the newest snapshot, but only when the cursor sits at the end
    /// of a non-empty history (the state right after a recording); the
    /// cursor steps back with it. Used to retract a provisional snapshot.
    pub fn drop_newest(&mut self)
        requires
            old(self).wf(),
        ensures
            final(self).cap() == old(self).cap(),
            if old(self).cur() == old(self).snaps().len() && old(self).snaps().len() > 0 {
                &&& final(self).snaps() == old(self).snaps().drop_last()
                &&& final(self).cur() == old(self).cur() - 1
            } else {
                *final(self) == *old(self)
            },
            final(self).wf(),
    {
        if self.current == self.snapshots.len() && self.snapshots.len() > 0 {
            let ghost pre = self.snapshots@;
            self.snapshots.truncate(self.snapshots.len() - 1);
            self.current = self.current - 1;
            proof {
                assert(self.snapshots@ =~= pre.drop_last());
            }
        }
    }
}

} // verus!

