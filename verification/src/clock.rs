//! Reading the monotonic clock.
//!
//! The supervisor measures restart windows and uptime on `std::time::Instant`.
//! What the clock shows depends on when it is read, so nothing is promised of
//! the readings; the verified code takes them as arguments.

use vstd::prelude::*;

verus! {

/// `std::time::Instant`, carried through the library as an opaque value.
#[verifier::external_type_specification]
#[verifier::external_body]
pub struct ExInstant(std::time::Instant);

/// Reads the clock: calls `std::time::Instant::now`.
/// Nothing is claimed of the instant that comes back.
#[verifier::external_body]
pub(crate) fn instant_now() -> std::time::Instant {
    std::time::Instant::now()
}

/// Calls `Instant::elapsed` on `origin`.
/// Nothing is claimed of the result: it depends on when the clock is read.
#[verifier::external_body]
pub(crate) fn elapsed_since(origin: &std::time::Instant) -> std::time::Duration {
    origin.elapsed()
}

/// Calls `Duration::as_nanos`. The duration is opaque here, so nothing is
/// claimed of the number.
#[verifier::external_body]
pub(crate) fn duration_as_nanos(d: &std::time::Duration) -> u128 {
    d.as_nanos()
}

/// Calls `Duration::as_secs`. The duration is opaque here, so nothing is
/// claimed of the number.
#[verifier::external_body]
pub(crate) fn duration_as_secs(d: &std::time::Duration) -> u64 {
    d.as_secs()
}

/// Nanoseconds elapsed since `origin`, read from the clock.
pub(crate) fn nanos_since(origin: &std::time::Instant) -> u128 {
    let d = elapsed_since(origin);
    duration_as_nanos(&d)
}

/// Whole seconds elapsed since `origin`, read from the clock.
pub(crate) fn secs_since(origin: &std::time::Instant) -> u64 {
    let d = elapsed_since(origin);
    duration_as_secs(&d)
}

} // verus!
