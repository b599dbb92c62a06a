//! The one store both tasks touch: three channel levels and the frame rate.
//!
//! Each operation reads or replaces a whole field-group in one call; there is
//! no operation that touches part of the level triple. The caller is expected
//! to hold the store under mutual exclusion (the surrounding program keeps it
//! behind a lock), so an interleaving of the two tasks is a sequence of whole
//! operations — `lemma_levels_never_torn` below states what that buys.

use vstd::prelude::*;
use crate::LEVELS;

verus! {

/// Frame rate the store starts with.
pub const DEFAULT_FRAME_RATE: u64 = 100;

/// The shared record: one level per channel and the target frame rate.
pub struct SharedState {
    levels: [u32; 3],
    frame_rate: u64,
}

/// One whole-record write, the only kind of mutation the store offers.
pub enum SharedOp {
    WriteLevels([u32; 3]),
    WriteFrequency(u64),
}

/// The store a single operation leaves behind.
pub closed spec fn apply_op(s: SharedState, op: SharedOp) -> SharedState {
    match op {
        SharedOp::WriteLevels(v) => SharedState { levels: v, frame_rate: s.frame_rate },
        SharedOp::WriteFrequency(f) => SharedState { levels: s.levels, frame_rate: f },
    }
}

/// The store a sequence of operations leaves behind, applied front to back.
pub open spec fn apply_ops(s: SharedState, ops: Seq<SharedOp>) -> SharedState
    decreases ops.len(),
{
    if ops.len() == 0 {
        s
    } else {
        apply_ops(apply_op(s, ops[0]), ops.drop_first())
    }
}

impl SharedState {
    /// The stored channel levels.
    pub closed spec fn levels(&self) -> [u32; 3] {
        self.levels
    }

    /// The stored frame rate.
    pub closed spec fn frequency(&self) -> u64 {
        self.frame_rate
    }

    /// Create the store with its defaults: every channel at the top level,
    /// the frame rate at `DEFAULT_FRAME_RATE`.
    pub fn new() -> (s: SharedState)
        ensures
            s.levels()@ =~= seq![(LEVELS - 1) as u32, (LEVELS - 1) as u32, (LEVELS - 1) as u32],
            s.frequency() == DEFAULT_FRAME_RATE,
    {
        SharedState { levels: [LEVELS - 1, LEVELS - 1, LEVELS - 1], frame_rate: DEFAULT_FRAME_RATE }
    }

    /// Return the complete level triple as of this call.
    pub fn read_levels(&self) -> (levels: [u32; 3])
        ensures
            levels == self.levels(),
    {
        self.levels
    }

    /// Return the frame rate as of this call.
    pub fn read_frequency(&self) -> (frame_rate: u64)
        ensures
            frame_rate == self.frequency(),
    {
        self.frame_rate
    }

    /// Replace the level triple with what `f` makes of the current one, in
    /// one step; the frame rate is untouched.
    pub fn modify_levels<F: FnOnce([u32; 3]) -> [u32; 3]>(&mut self, f: F)
        requires
            call_requires(f, (old(self).levels(),)),
        ensures
            call_ensures(f, (old(self).levels(),), final(self).levels()),
            final(self).frequency() == old(self).frequency(),
    {
        self.levels = f(self.levels);
    }

    /// Replace the frame rate with what `f` makes of the current one, in one
    /// step; the levels are untouched.
    pub fn modify_frequency<F: FnOnce(u64) -> u64>(&mut self, f: F)
        requires
            call_requires(f, (old(self).frequency(),)),
        ensures
            call_ensures(f, (old(self).frequency(),), final(self).frequency()),
            final(self).levels() == old(self).levels(),
    {
        self.frame_rate = f(self.frame_rate);
    }
}

/// Unfolding of `apply_op`: a write replaces its whole field-group and leaves
/// the other untouched.
pub proof fn lemma_apply_op(s: SharedState, op: SharedOp)
    ensures
        op matches SharedOp::WriteLevels(v) ==> apply_op(s, op).levels() == v
            && apply_op(s, op).frequency() == s.frequency(),
        op matches SharedOp::WriteFrequency(f) ==> apply_op(s, op).frequency() == f
            && apply_op(s, op).levels() == s.levels(),
{
}

/// Law: under any interleaving of whole-record operations, a reader of the
/// level triple sees either the initial triple or exactly the triple of one
/// `WriteLevels` — never one channel from before and another from after a
/// write.
pub proof fn lemma_levels_never_torn(init: SharedState, ops: Seq<SharedOp>)
    ensures
        apply_ops(init, ops).levels() == init.levels() || exists|i: int|
            0 <= i < ops.len() && (#[trigger] ops[i]) is WriteLevels && apply_ops(init, ops).levels()
                == ops[i]->WriteLevels_0,
    decreases ops.len(),
{
    if ops.len() == 0 {
    } else {
        let s1 = apply_op(init, ops[0]);
        let rest = ops.drop_first();
        lemma_levels_never_torn(s1, rest);
        if apply_ops(s1, rest).levels() == s1.levels() {
            if ops[0] is WriteLevels {
                assert(apply_ops(init, ops).levels() == ops[0]->WriteLevels_0);
            } else {
                assert(apply_ops(init, ops).levels() == init.levels());
            }
        } else {
            let j = choose|j: int|
                0 <= j < rest.len() && (#[trigger] rest[j]) is WriteLevels && apply_ops(s1, rest).levels()
                    == rest[j]->WriteLevels_0;
            assert(ops[j + 1] == rest[j]);
            assert(0 <= j + 1 < ops.len() && ops[j + 1] is WriteLevels && apply_ops(init, ops).levels()
                == ops[j + 1]->WriteLevels_0);
        }
    }
}

} // verus!
