//! CPU/GPU synchronization through a monotonically completed fence.
//!
//! A fence pairs two counters: `signaled`, the highest value the command
//! queue has asked the GPU to mark on completion of submitted work, and
//! `completed`, the highest value the GPU has confirmed reaching.  The GPU
//! executes asynchronously; its progress is observable only through
//! `completed`, which never decreases and never runs ahead of `signaled`.
//! Blocking waits are modelled by advancing `completed` up to the awaited
//! value, which is sound exactly when that value has been signaled — so a
//! verified caller can never wait on a value no submission will ever reach.

use vstd::prelude::*;

verus! {

/// Outcome of a fence wait: the awaited value was reached, or the timeout
/// elapsed first.
#[derive(Clone, Copy, PartialEq, Eq, Structural, Debug)]
pub enum WaitStatus {
    Reached,
    TimedOut,
}

/// The synchronization primitive: a pair of monotone counters.
pub struct Fence {
    /// Highest value the GPU has confirmed reaching.
    pub completed: u64,
    /// Highest value scheduled to be marked once submitted work finishes.
    pub signaled: u64,
}

impl Fence {
    /// The GPU never confirms a value nothing has scheduled.
    pub open spec fn well_formed(self) -> bool {
        self.completed <= self.signaled
    }

    pub fn new() -> (r: Self)
        ensures
            r.completed == 0,
            r.signaled == 0,
            r.well_formed(),
    {
        Fence { completed: 0, signaled: 0 }
    }

    /// A fence whose counter starts at `value`, as when recreating the
    /// synchronization state at an already-reached point.
    pub fn new_with_value(value: u64) -> (r: Self)
        ensures
            r.completed == value,
            r.signaled == value,
            r.well_formed(),
    {
        Fence { completed: value, signaled: value }
    }

    /// The last value the GPU has confirmed reaching; never blocks.
    pub fn get_value(&self) -> (r: u64)
        ensures
            r == self.completed,
    {
        self.completed
    }

    /// Asks the queue to mark `value` reached once all work submitted up to
    /// this point has finished.  Callers pass non-decreasing values per
    /// queue; distinct frames use strictly increasing ones.
    pub fn signal(&mut self, value: u64)
        requires
            old(self).well_formed(),
            value >= old(self).signaled,
        ensures
            final(self).well_formed(),
            final(self).signaled == value,
            final(self).completed == old(self).completed,
    {
        self.signaled = value;
    }

    /// Observed GPU progress: the completed counter advances to `value`.
    /// Progress is bounded by what has been signaled and never moves
    /// backwards.
    pub fn complete_to(&mut self, value: u64)
        requires
            old(self).well_formed(),
            old(self).completed <= value,
            value <= old(self).signaled,
        ensures
            final(self).completed == value,
            final(self).signaled == old(self).signaled,
            final(self).well_formed(),
    {
        self.completed = value;
    }

    /// Blocks until the fence reaches `value`, or returns at once when the
    /// timeout has already elapsed (`timed_out`, an outside condition).  If
    /// the value is already reached, the call succeeds immediately and
    /// changes nothing.  A blocking wait is allowed only for values some
    /// submission will signal, so it cannot block forever.
    pub fn wait_with_timeout(&mut self, value: u64, timed_out: bool) -> (r: WaitStatus)
        requires
            old(self).well_formed(),
            !timed_out && old(self).completed < value ==> value <= old(self).signaled,
        ensures
            final(self).well_formed(),
            final(self).signaled == old(self).signaled,
            final(self).completed >= old(self).completed,
            old(self).completed >= value ==> r == WaitStatus::Reached && *final(self) == *old(self),
            old(self).completed < value && timed_out ==> r == WaitStatus::TimedOut && *final(self)
                == *old(self),
            old(self).completed < value && !timed_out ==> r == WaitStatus::Reached
                && final(self).completed == value,
    {
        if self.completed >= value {
            WaitStatus::Reached
        } else if timed_out {
            WaitStatus::TimedOut
        } else {
            self.completed = value;
            WaitStatus::Reached
        }
    }

    /// Blocks until the fence reaches `value`; immediate and state-preserving
    /// when the value is already reached.
    pub fn wait(&mut self, value: u64) -> (r: WaitStatus)
        requires
            old(self).well_formed(),
            old(self).completed < value ==> value <= old(self).signaled,
        ensures
            final(self).well_formed(),
            final(self).signaled == old(self).signaled,
            final(self).completed >= old(self).completed,
            final(self).completed >= value,
            r == WaitStatus::Reached,
            old(self).completed >= value ==> *final(self) == *old(self),
            old(self).completed < value ==> final(self).completed == value,
    {
        self.wait_with_timeout(value, false)
    }
}

/// One step of the fence protocol, as seen by its owner: the queue signals
/// a value, the GPU is observed to have progressed, or the CPU waits.
pub enum FenceOp {
    Signal(u64),
    CompleteTo(u64),
    Wait(u64),
}

/// Whether one step may be taken from fence state `(completed, signaled)`:
/// the preconditions of the corresponding operations.
pub open spec fn fence_op_enabled(completed: u64, signaled: u64, op: FenceOp) -> bool {
    completed <= signaled && match op {
        FenceOp::Signal(v) => v >= signaled,
        FenceOp::CompleteTo(v) => completed <= v <= signaled,
        FenceOp::Wait(v) => completed < v ==> v <= signaled,
    }
}

pub open spec fn fence_op_step(completed: u64, signaled: u64, op: FenceOp) -> (u64, u64) {
    match op {
        FenceOp::Signal(v) => (completed, v),
        FenceOp::CompleteTo(v) => (v, signaled),
        FenceOp::Wait(v) => (if completed >= v {
            completed
        } else {
            v
        }, signaled),
    }
}

pub open spec fn fence_ops_valid(completed: u64, signaled: u64, ops: Seq<FenceOp>) -> bool
    decreases ops.len(),
{
    if ops.len() == 0 {
        true
    } else {
        fence_op_enabled(completed, signaled, ops[0]) && {
            let next = fence_op_step(completed, signaled, ops[0]);
            fence_ops_valid(next.0, next.1, ops.drop_first())
        }
    }
}

/// The completed counter after a sequence of fence operations.
pub open spec fn fence_ops_completed(completed: u64, signaled: u64, ops: Seq<FenceOp>) -> u64
    decreases ops.len(),
{
    if ops.len() == 0 {
        completed
    } else {
        let next = fence_op_step(completed, signaled, ops[0]);
        fence_ops_completed(next.0, next.1, ops.drop_first())
    }
}

/// Fence monotonicity: across any valid sequence of signal, observed-progress
/// and wait operations, the value read by `get_value` never decreases.
pub proof fn lemma_fence_monotonic(completed: u64, signaled: u64, ops: Seq<FenceOp>)
    requires
        completed <= signaled,
        fence_ops_valid(completed, signaled, ops),
    ensures
        fence_ops_completed(completed, signaled, ops) >= completed,
    decreases ops.len(),
{
    if ops.len() > 0 {
        let next = fence_op_step(completed, signaled, ops[0]);
        lemma_fence_monotonic(next.0, next.1, ops.drop_first());
    }
}

} // verus!
