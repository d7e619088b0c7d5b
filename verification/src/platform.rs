//! Timing and pausing primitives used by the blocking wait operation.
//!
//! The clock readings are opaque: no contract anywhere depends on what the
//! clock returns, and the wait operation's postconditions hold for every
//! reading.  Only the bounded-timeout exit of a wait consults them.

use std::time::Duration;
use std::time::Instant;
use vstd::prelude::*;

verus! {

#[verifier::external_type_specification]
#[verifier::external_body]
pub struct ExInstant(Instant);

/// Relies on `std::time::Instant::now`: a reading of the monotonic clock.
/// Nothing is promised of the reading.
#[verifier::external_body]
pub(crate) fn monotonic_now() -> Instant {
    Instant::now()
}

/// Relies on `std::time::Instant::elapsed`: the time since `start` was
/// taken, saturating to zero.  Nothing is promised of the amount.
#[verifier::external_body]
pub(crate) fn elapsed_since(start: &Instant) -> Duration {
    start.elapsed()
}

/// Relies on `std::time::Duration::as_nanos`: the duration as a count of
/// whole nanoseconds.
#[verifier::external_body]
pub(crate) fn duration_nanos(d: &Duration) -> u128 {
    d.as_nanos()
}

/// Relies on `core::hint::spin_loop`: a processor pause inside a
/// busy-wait loop.  It computes nothing.
#[verifier::external_body]
pub(crate) fn spin_pause() {
    core::hint::spin_loop()
}

} // verus!
