//! The monotonic clock of the standard library.
//!
//! A reading of the clock depends on when it is taken, so these contracts
//! promise nothing about the values that come back.

use std::time::{Duration, Instant};
use vstd::prelude::*;

verus! {

/// Declares `std::time::Instant`, a reading of the clock, as an opaque type.
#[verifier::external_type_specification]
#[verifier::external_body]
pub struct ExInstant(std::time::Instant);

/// Trusted: `Instant::now` reads the clock. Any instant may come back.
#[verifier::external_body]
pub(crate) fn now() -> Instant {
    Instant::now()
}

/// Trusted: `Instant::elapsed` gives the time that has passed since
/// `start`. Any span may come back.
#[verifier::external_body]
pub(crate) fn elapsed_since(start: &Instant) -> Duration {
    start.elapsed()
}

/// Trusted: `Duration::as_nanos` gives the span in whole nanoseconds. A
/// `Duration` is opaque here, so nothing is said of the number.
#[verifier::external_body]
pub(crate) fn as_nanos(span: &Duration) -> u128 {
    span.as_nanos()
}

/// The time that has passed since `start`, in whole nanoseconds.
pub(crate) fn nanos_since(start: &Instant) -> u128 {
    let span = elapsed_since(start);
    as_nanos(&span)
}

} // verus!
