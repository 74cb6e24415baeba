use vstd::arithmetic::power::lemma_pow0;
use vstd::arithmetic::power2::{lemma_pow2_unfold, pow2};
use vstd::prelude::*;

verus! {

/// One second, in nanoseconds.
pub const ONE_SECOND_NANOS: u128 = 1_000_000_000;

/// The delay that follows `current`: twice `current`, but no more than `max`.
pub open spec fn doubled_within(current: int, max: int) -> int {
    if current * 2 <= max {
        current * 2
    } else {
        max
    }
}

/// The `k`-th delay handed out by a fresh back-off that starts at `initial`
/// and is capped at `max` (the first one is `k == 0`).
pub open spec fn delay_sequence(initial: int, max: int, k: nat) -> int
    decreases k,
{
    if k == 0 {
        initial
    } else {
        doubled_within(delay_sequence(initial, max, (k - 1) as nat), max)
    }
}

/// Exponential back-off: each delay handed out is twice the one before, capped
/// at a maximum. Delays are in nanoseconds.
pub struct ExponentialBackoff {
    current_delay: u128,
    max_delay: u128,
    retries: u32,
}

impl ExponentialBackoff {
    /// The delay that the next call of `next_delay` hands out.
    pub closed spec fn current_delay(&self) -> u128 {
        self.current_delay
    }

    /// The cap on the delays.
    pub closed spec fn max_delay(&self) -> u128 {
        self.max_delay
    }

    /// How many delays have been handed out since creation or the last reset.
    pub closed spec fn retry_count(&self) -> u32 {
        self.retries
    }

    /// A back-off that starts at `initial_delay` and is capped at `max_delay`.
    pub fn new(initial_delay: u128, max_delay: u128) -> (b: Self)
        ensures
            b.current_delay() == initial_delay,
            b.max_delay() == max_delay,
            b.retry_count() == 0,
    {
        ExponentialBackoff { current_delay: initial_delay, max_delay, retries: 0 }
    }

    /// Hand out the current delay, double it for next time (but no further
    /// than the cap), and count one more retry.
    pub fn next_delay(&mut self) -> (delay: u128)
        requires
            old(self).retry_count() < u32::MAX,
        ensures
            delay == old(self).current_delay(),
            final(self).current_delay() == doubled_within(
                old(self).current_delay() as int,
                old(self).max_delay() as int,
            ),
            final(self).max_delay() == old(self).max_delay(),
            final(self).retry_count() == old(self).retry_count() + 1,
    {
        let delay = self.current_delay;
        if self.current_delay <= self.max_delay / 2 {
            self.current_delay = self.current_delay * 2;
        } else {
            self.current_delay = self.max_delay;
        }
        self.retries = self.retries + 1;
        delay
    }

    /// Start over from a one-second delay and no retries; the cap stays.
    pub fn reset(&mut self)
        ensures
            final(self).current_delay() == ONE_SECOND_NANOS,
            final(self).max_delay() == old(self).max_delay(),
            final(self).retry_count() == 0,
    {
        self.current_delay = ONE_SECOND_NANOS;
        self.retries = 0;
    }

    /// How many delays have been handed out since creation or the last reset.
    pub fn retries(&self) -> (n: u32)
        ensures
            n == self.retry_count(),
    {
        self.retries
    }
}

impl Default for ExponentialBackoff {
    /// Starts at one second, capped at sixty seconds.
    fn default() -> (b: Self)
        ensures
            b.current_delay() == ONE_SECOND_NANOS,
            b.max_delay() == 60 * ONE_SECOND_NANOS,
            b.retry_count() == 0,
    {
        ExponentialBackoff::new(ONE_SECOND_NANOS, 60 * ONE_SECOND_NANOS)
    }
}

/// Once a delay is within the cap, the delays never shrink and never pass
/// the cap.
pub proof fn law_delays_grow_within_cap(current: int, max: int)
    requires
        0 <= current <= max,
    ensures
        current <= doubled_within(current, max) <= max,
{
}

/// Whatever the current delay, the next one is within the cap.
pub proof fn law_next_delay_within_cap(current: int, max: int)
    requires
        0 <= max,
    ensures
        doubled_within(current, max) <= max,
{
}

/// From the second delay on, a fresh back-off hands out the initial delay
/// times two to the power of the number of earlier delays, capped at the
/// maximum.
pub proof fn law_delay_sequence_closed_form(initial: int, max: int, k: nat)
    requires
        0 <= initial,
        0 <= max,
        k >= 1,
    ensures
        delay_sequence(initial, max, k) == (if initial * pow2(k) <= max {
            initial * pow2(k)
        } else {
            max
        }),
    decreases k,
{
    lemma_pow2_unfold(k);
    let p = pow2((k - 1) as nat) as int;
    assert(initial * pow2(k) == 2 * (initial * p)) by (nonlinear_arith)
        requires
            pow2(k) == 2 * p,
    ;
    if k == 1 {
        lemma_pow0(2);
        assert(delay_sequence(initial, max, 0) == initial);
        assert(initial * p == initial) by (nonlinear_arith)
            requires
                p == 1,
        ;
    } else {
        law_delay_sequence_closed_form(initial, max, (k - 1) as nat);
        assert(delay_sequence(initial, max, k) == doubled_within(
            delay_sequence(initial, max, (k - 1) as nat),
            max,
        ));
        assert(initial * p >= 0) by (nonlinear_arith)
            requires
                0 <= initial,
                0 <= p,
        ;
    }
}

} // verus!
