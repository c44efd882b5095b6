//! The monotonic clock of the standard library, read as nanoseconds since a
//! fixed origin.

use vstd::prelude::*;
use std::time::{Duration, Instant};

verus! {

/// `std::time::Instant`, a point on the monotonic clock. Nothing is known of
/// its inside.
#[verifier::external_type_specification]
#[verifier::external_body]
pub struct ExInstant(std::time::Instant);

/// `Instant::now` reads the clock. Nothing is claimed of the instant returned.
pub assume_specification[ Instant::now ]() -> (now: Instant);

/// `Instant::elapsed` is the time from the instant to the present. Nothing
/// is claimed of the duration returned.
pub assume_specification[ Instant::elapsed ](instant: &Instant) -> (elapsed: Duration);

/// `Duration::as_nanos` is the length of a duration in nanoseconds. Nothing
/// is claimed of the number returned.
pub assume_specification[ Duration::as_nanos ](duration: &Duration) -> (nanos: u128);

/// A clock that counts nanoseconds from the moment it was started.
pub(crate) struct MonotonicClock {
    origin: Instant,
}

impl MonotonicClock {
    /// A clock whose origin is the present.
    pub(crate) fn start() -> MonotonicClock {
        MonotonicClock { origin: Instant::now() }
    }

    /// The present reading. Readings depend on the time at which they are
    /// taken, so nothing is promised of one.
    pub(crate) fn now(&self) -> u128 {
        self.origin.elapsed().as_nanos()
    }
}

} // verus!
