//! Trusted access to the monotonic wall clock.
//!
//! The timer anchors each running stretch to an opaque [`std::time::Instant`]
//! and asks how many milliseconds have passed since the anchor was recorded.
//! Nothing can be promised about what the clock returns, so the wrappers
//! below carry no postconditions: every caller must be correct for any
//! elapsed reading.

use vstd::prelude::*;

use std::time::Instant;

verus! {

#[verifier::external_type_specification]
#[verifier::external_body]
pub struct ExInstant(Instant);

/// Relies on std::time::Instant::now: reads the monotonic clock.
#[verifier::external_body]
pub(crate) fn monotonic_now() -> Instant {
    Instant::now()
}

/// Relies on std::time::Instant::elapsed and Duration::as_millis: the whole
/// milliseconds that have passed since the instant was recorded.
#[verifier::external_body]
pub(crate) fn millis_since(earlier: &Instant) -> u128 {
    earlier.elapsed().as_millis()
}

} // verus!
