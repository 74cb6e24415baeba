use vstd::prelude::*;

verus! {

/// One hundred milliseconds, in nanoseconds.
pub const DEFAULT_TIME_SLICE_NANOS: u128 = 100_000_000;

/// Round-robin scheduler: a time slice, and the position of the agent whose
/// turn it is.
pub struct RoundRobinScheduler {
    time_slice: u128,
    current_index: usize,
}

impl RoundRobinScheduler {
    /// The time slice, in nanoseconds.
    pub closed spec fn spec_time_slice(&self) -> u128 {
        self.time_slice
    }

    /// The position of the agent whose turn it is.
    pub closed spec fn spec_current_index(&self) -> usize {
        self.current_index
    }

    /// A scheduler with the given time slice (in nanoseconds), at position 0.
    pub fn new(time_slice: u128) -> (s: Self)
        ensures
            s.spec_time_slice() == time_slice,
            s.spec_current_index() == 0,
    {
        RoundRobinScheduler { time_slice, current_index: 0 }
    }

    /// The time slice, in nanoseconds.
    pub fn time_slice(&self) -> (t: u128)
        ensures
            t == self.spec_time_slice(),
    {
        self.time_slice
    }

    /// The position of the agent whose turn it is.
    pub fn current_index(&self) -> (i: usize)
        ensures
            i == self.spec_current_index(),
    {
        self.current_index
    }

    /// Advance to the next position.
    pub fn next(&mut self)
        requires
            old(self).spec_current_index() < usize::MAX,
        ensures
            final(self).spec_current_index() == old(self).spec_current_index() + 1,
            final(self).spec_time_slice() == old(self).spec_time_slice(),
    {
        self.current_index = self.current_index + 1;
    }

    /// Go back to position 0.
    pub fn reset(&mut self)
        ensures
            final(self).spec_current_index() == 0,
            final(self).spec_time_slice() == old(self).spec_time_slice(),
    {
        self.current_index = 0;
    }
}

impl Default for RoundRobinScheduler {
    /// A 100 millisecond time slice, at position 0.
    fn default() -> (s: Self)
        ensures
            s.spec_time_slice() == DEFAULT_TIME_SLICE_NANOS,
            s.spec_current_index() == 0,
    {
        RoundRobinScheduler::new(DEFAULT_TIME_SLICE_NANOS)
    }
}

/// A call on a round-robin scheduler, as the laws over sequences of calls
/// see it.
pub enum RoundRobinCall {
    /// `next`.
    Next,
    /// `reset`.
    Reset,
}

/// The time slice and position after `calls`, made one after another on a
/// scheduler with time slice `slice` at position `index`.
pub open spec fn round_robin_after(slice: u128, index: int, calls: Seq<RoundRobinCall>) -> (u128, int)
    decreases calls.len(),
{
    if calls.len() == 0 {
        (slice, index)
    } else {
        let before = round_robin_after(slice, index, calls.drop_last());
        match calls.last() {
            RoundRobinCall::Next => (before.0, before.1 + 1),
            RoundRobinCall::Reset => (before.0, 0),
        }
    }
}

/// How many `next` calls come after the last `reset` in `calls` (all of them
/// when there is no `reset`).
pub open spec fn nexts_since_reset(calls: Seq<RoundRobinCall>) -> int
    decreases calls.len(),
{
    if calls.len() == 0 {
        0
    } else {
        match calls.last() {
            RoundRobinCall::Next => nexts_since_reset(calls.drop_last()) + 1,
            RoundRobinCall::Reset => 0,
        }
    }
}

/// Over any sequence of calls on a new scheduler, the time slice is the one
/// it was made with, and the position is the number of `next` calls since the
/// last `reset`.
pub proof fn law_time_slice_kept(slice: u128, calls: Seq<RoundRobinCall>)
    ensures
        round_robin_after(slice, 0, calls).0 == slice,
        round_robin_after(slice, 0, calls).1 == nexts_since_reset(calls),
    decreases calls.len(),
{
    if calls.len() > 0 {
        law_time_slice_kept(slice, calls.drop_last());
    }
}

} // verus!
