use vstd::prelude::*;

verus! {

/// A point in time from the monotonic system clock; opaque here.
#[verifier::external_type_specification]
#[verifier::external_body]
pub struct ExInstant(std::time::Instant);

/// Relies on std's `Instant::now`: reads the monotonic clock. Nothing is
/// known of the value.
pub assume_specification[ std::time::Instant::now ]() -> std::time::Instant;

/// Relies on std's `Instant::elapsed`: the time since the instant, read from
/// the clock. Nothing is known of the value.
pub assume_specification[ std::time::Instant::elapsed ](i: &std::time::Instant) -> core::time::Duration;

/// Relies on `Duration::as_secs`: the whole seconds of a duration.
pub assume_specification[ core::time::Duration::as_secs ](d: &core::time::Duration) -> u64;

/// Whole seconds since `start`, as the clock reads them now.
pub(crate) fn seconds_since(start: &std::time::Instant) -> u64 {
    start.elapsed().as_secs()
}

} // verus!
