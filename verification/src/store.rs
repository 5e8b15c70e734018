//! The state snapshot store: the snapshots of the most recent frames, held
//! in a bounded ring of capacity `window`, with entries older than the
//! window evicted automatically as new frames are recorded.

use vstd::prelude::*;

use crate::sim::Snapshot;

verus! {

/// Machine bound on frame numbers: keeps every index and counter far from
/// `usize` overflow.
pub const MAX_FRAME: usize = 0x4000_0000;

/// Snapshots of consecutive recent frames.  The store keeps at most
/// `window` entries: recording a new frame evicts the oldest entry once the
/// window is full.
pub struct SnapshotStore {
    window: usize,
    base: usize,
    snaps: Vec<Snapshot>,
}

impl SnapshotStore {
    /// The capacity: how many consecutive frames stay restorable.
    pub closed spec fn win(self) -> int {
        self.window as int
    }

    /// The oldest retained frame index.
    pub closed spec fn lo(self) -> int {
        self.base as int
    }

    /// One past the newest retained frame index.
    pub closed spec fn hi(self) -> int {
        self.base + self.snaps@.len()
    }

    /// The snapshot retained for frame `k` (meaningful for `lo() <= k < hi()`).
    pub closed spec fn entry(self, k: int) -> Snapshot {
        self.snaps@[k - self.base]
    }

    pub closed spec fn wf(self) -> bool {
        &&& 1 <= self.window
        &&& self.snaps@.len() <= self.window
        &&& self.base + self.snaps@.len() <= MAX_FRAME
    }

    /// Consequences of well-formedness callers may rely on.
    pub proof fn lemma_bounds(self)
        requires
            self.wf(),
        ensures
            0 <= self.lo() <= self.hi() <= MAX_FRAME,
            self.hi() - self.lo() <= self.win(),
            1 <= self.win(),
    {
    }

    /// An empty store of capacity `window`.
    pub fn new(window: usize) -> (s: Self)
        requires
            1 <= window,
        ensures
            s.wf(),
            s.win() == window,
            s.lo() == 0,
            s.hi() == 0,
    {
        SnapshotStore { window, base: 0, snaps: Vec::new() }
    }

    /// The retained snapshot for `frame`, or `None` when `frame` is outside
    /// the retained range.
    pub fn get(&self, frame: usize) -> (r: Option<Snapshot>)
        requires
            self.wf(),
        ensures
            r is Some <==> self.lo() <= frame < self.hi(),
            r is Some ==> r.unwrap() == self.entry(frame as int),
    {
        if frame >= self.base && frame - self.base < self.snaps.len() {
            Some(self.snaps[frame - self.base])
        } else {
            None
        }
    }

    /// Record the snapshot of the next frame, index `hi()`, evicting the
    /// oldest entry when the window is full.
    pub fn put(&mut self, snap: Snapshot)
        requires
            old(self).wf(),
            old(self).hi() < MAX_FRAME,
        ensures
            final(self).wf(),
            final(self).win() == old(self).win(),
            final(self).hi() == old(self).hi() + 1,
            final(self).lo() == (if old(self).hi() - old(self).lo() == old(self).win() {
                old(self).lo() + 1
            } else {
                old(self).lo()
            }),
            forall|k: int|
                final(self).lo() <= k < final(self).hi() ==> final(self).entry(k) == (if k
                    == old(self).hi() {
                    snap
                } else {
                    old(self).entry(k)
                }),
    {
        if self.snaps.len() == self.window {
            self.snaps.remove(0);
            self.base = self.base + 1;
        }
        self.snaps.push(snap);
    }

    /// Replace the retained snapshot for `frame` during a resimulation.
    pub fn overwrite(&mut self, frame: usize, snap: Snapshot)
        requires
            old(self).wf(),
            old(self).lo() <= frame < old(self).hi(),
        ensures
            final(self).wf(),
            final(self).win() == old(self).win(),
            final(self).lo() == old(self).lo(),
            final(self).hi() == old(self).hi(),
            forall|k: int|
                final(self).lo() <= k < final(self).hi() ==> final(self).entry(k) == (if k
                    == frame {
                    snap
                } else {
                    old(self).entry(k)
                }),
    {
        let i = frame - self.base;
        self.snaps[i] = snap;
    }
}

} // verus!
