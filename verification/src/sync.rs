//! The frame synchronization ring: K independent slots cycled once per
//! displayed frame, each with a CPU-visible completion marker.
//!
//! The GPU-side handles live outside the library; here each slot carries what
//! the CPU knows about its completion marker, and the ring enforces the two
//! rules that make reuse safe: the active slot walks `0, 1, .., K-1, 0, ..`,
//! and a marker is reset only when it was most recently observed signaled.

use vstd::prelude::*;
use vstd::arithmetic::div_mod::{lemma_add_mod_noop, lemma_small_mod, lemma_mod_self_0};

verus! {

/// What the CPU last learned about a slot's completion marker.
#[derive(Clone, Copy, Debug, PartialEq, Eq, Structural)]
pub enum MarkerObs {
    /// The marker was observed signaled (fresh slots start this way).
    Signaled,
    /// The marker was reset for reuse and has not been observed since.
    Reset,
}

/// The slot that follows `current` on a ring of `k` slots.
pub open spec fn spec_next_slot(current: nat, k: nat) -> nat
    recommends
        k >= 1,
{
    ((current as int + 1) % (k as int)) as nat
}

/// The active slot after `m` frame advances, starting from slot 0.
pub open spec fn spec_slot_after(k: nat, m: nat) -> nat
    recommends
        k >= 1,
    decreases m,
{
    if m == 0 {
        0
    } else {
        spec_next_slot(spec_slot_after(k, (m - 1) as nat), k)
    }
}

/// Law: for all K >= 1, the active slot index after M completed frames equals
/// M mod K.
pub proof fn lemma_slot_after_frames(k: nat, m: nat)
    requires
        k >= 1,
    ensures
        spec_slot_after(k, m) == m as int % (k as int),
    decreases m,
{
    if m == 0 {
        lemma_small_mod(0, k);
    } else {
        lemma_slot_after_frames(k, (m - 1) as nat);
        let prev = spec_slot_after(k, (m - 1) as nat);
        lemma_add_mod_noop((m - 1) as int, 1, k as int);
        if k == 1 {
            lemma_mod_self_0(1);
        } else {
            lemma_small_mod(1, k);
        }
        assert((prev as int + 1) % (k as int) == ((m as int - 1) % (k as int) + 1int % (k as int))
            % (k as int));
    }
}

/// A fixed-size ring of K synchronization slots, cycled independently of the
/// image chain's image count.
pub struct SyncRing {
    /// One marker observation per slot; length is K.
    pub slots: Vec<MarkerObs>,
    /// The active slot index.
    pub current: usize,
    /// How many frames completed since the ring was (re)created.
    pub completed: Ghost<nat>,
}

impl SyncRing {
    /// The ring invariant: at least one slot, the active index in range and
    /// always equal to the completed-frame count modulo K.
    pub open spec fn wf(self) -> bool {
        &&& self.slots.len() >= 1
        &&& self.current < self.slots.len()
        &&& self.current as int == self.completed@ as int % (self.slots.len() as int)
    }

    /// Create a ring of `k` slots, every completion marker starting in the
    /// signaled state so the first frame using it does not block.
    pub fn new(k: usize) -> (ring: SyncRing)
        requires
            k >= 1,
        ensures
            ring.wf(),
            ring.slots.len() == k,
            ring.current == 0,
            ring.completed@ == 0,
            forall|i: int| 0 <= i < k ==> ring.slots@[i] == MarkerObs::Signaled,
    {
        let mut slots: Vec<MarkerObs> = Vec::new();
        let mut i: usize = 0;
        while i < k
            invariant
                0 <= i <= k,
                slots@.len() == i,
                forall|j: int| 0 <= j < i ==> slots@[j] == MarkerObs::Signaled,
            decreases k - i,
        {
            slots.push(MarkerObs::Signaled);
            i += 1;
        }
        proof {
            lemma_small_mod(0, k as nat);
        }
        SyncRing { slots, current: 0, completed: Ghost(0) }
    }

    /// How many slots the ring holds (K, the number of frames in flight).
    pub fn frames_in_flight(&self) -> (k: usize)
        ensures
            k == self.slots.len(),
    {
        self.slots.len()
    }

    /// Record that the active slot's completion marker was observed signaled.
    pub fn observe_current_signaled(&mut self)
        requires
            old(self).wf(),
        ensures
            final (self).wf(),
            final (self).slots@ == old(self).slots@.update(
                old(self).current as int,
                MarkerObs::Signaled,
            ),
            final (self).current == old(self).current,
            final (self).completed == old(self).completed,
    {
        let c = self.current;
        self.slots.set(c, MarkerObs::Signaled);
    }

    /// Reset the active slot's completion marker for reuse.
    ///
    /// Law: a marker is never reset unless it was most recently observed
    /// signaled; the precondition makes a reset-before-signal race impossible
    /// for every caller of this ring.
    pub fn reset_current(&mut self)
        requires
            old(self).wf(),
            old(self).slots@[old(self).current as int] == MarkerObs::Signaled,
        ensures
            final (self).wf(),
            final (self).slots@ == old(self).slots@.update(
                old(self).current as int,
                MarkerObs::Reset,
            ),
            final (self).current == old(self).current,
            final (self).completed == old(self).completed,
    {
        let c = self.current;
        self.slots.set(c, MarkerObs::Reset);
    }

    /// Advance to the next frame: the active slot steps to `(current + 1)
    /// mod K` and one more frame counts as completed.
    pub fn advance(&mut self)
        requires
            old(self).wf(),
        ensures
            final (self).wf(),
            final (self).slots@ == old(self).slots@,
            final (self).completed@ == old(self).completed@ + 1,
            final (self).current as nat == spec_next_slot(
                old(self).current as nat,
                old(self).slots.len() as nat,
            ),
    {
        let k = self.slots.len();
        let next = if self.current + 1 == k {
            0
        } else {
            self.current + 1
        };
        proof {
            let ki = k as int;
            let c = self.completed@ as int;
            lemma_add_mod_noop(c, 1, ki);
            if k == 1 {
                lemma_mod_self_0(1);
            } else {
                lemma_small_mod(1, k as nat);
            }
            if self.current + 1 < k {
                lemma_small_mod((self.current + 1) as nat, k as nat);
            } else {
                lemma_mod_self_0(ki);
            }
        }
        self.current = next;
        self.completed = Ghost(self.completed@ + 1);
    }

    /// Rebuild the ring wholesale: the same K fresh slots, every marker
    /// signaled again, and the active index back at 0.
    pub fn rebuild(&mut self)
        requires
            old(self).wf(),
        ensures
            final (self).wf(),
            final (self).slots.len() == old(self).slots.len(),
            final (self).current == 0,
            final (self).completed@ == 0,
            forall|i: int|
                0 <= i < final (self).slots.len() ==> final (self).slots@[i]
                    == MarkerObs::Signaled,
    {
        let k = self.slots.len();
        let fresh = SyncRing::new(k);
        self.slots = fresh.slots;
        self.current = 0;
        self.completed = Ghost(0);
        proof {
            lemma_small_mod(0, k as nat);
        }
    }
}

} // verus!
