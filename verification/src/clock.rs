use vstd::prelude::*;

verus! {

/// `std::time::Instant`, a point on the monotonic clock; opaque here.
#[verifier::external_type_specification]
#[verifier::external_body]
pub struct ExInstant(std::time::Instant);

/// The current instant, from `std::time::Instant::now`.
///
/// Trusted: the value depends on the clock, so nothing is stated of it.
#[verifier::external_body]
pub(crate) fn now() -> (t: std::time::Instant) {
    std::time::Instant::now()
}

/// The time since `start` in nanoseconds, from `std::time::Instant::elapsed`
/// and `Duration::as_nanos`.
///
/// Trusted: the value depends on the clock, so nothing is stated of it.
#[verifier::external_body]
pub(crate) fn nanos_since(start: &std::time::Instant) -> (n: u128) {
    start.elapsed().as_nanos()
}

} // verus!
