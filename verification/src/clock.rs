//! The monotonic clock that a connection measures silence with.

use std::time::Duration;
use std::time::Instant;
use vstd::prelude::*;

use crate::state::Nanos;

verus! {

/// `std::time::Instant`: a reading of the monotonic clock, carried as it is.
#[verifier::external_type_specification]
#[verifier::external_body]
pub struct ExInstant(std::time::Instant);

/// `Instant::now`: the current reading of the system's monotonic clock.
/// Nothing is claimed of the value.
#[verifier::external_body]
fn instant_now() -> Instant {
    Instant::now()
}

/// `Instant::elapsed`: the time that has passed since `origin` was read.
/// Nothing is claimed of the value.
#[verifier::external_body]
fn instant_elapsed(origin: &Instant) -> Duration {
    origin.elapsed()
}

/// `Duration::as_nanos`: the whole span in nanoseconds. Nothing is claimed
/// of the value.
#[verifier::external_body]
fn duration_as_nanos(span: &Duration) -> Nanos {
    span.as_nanos()
}

/// A clock that counts nanoseconds from the moment it was started.
pub struct Clock {
    origin: Instant,
}

impl Clock {
    /// Starts a clock at the present moment.
    pub fn start() -> Clock {
        Clock { origin: instant_now() }
    }

    /// Nanoseconds since the clock was started. The reading comes from the
    /// system, so no two readings are related by contract.
    pub fn now(&self) -> Nanos {
        let span = instant_elapsed(&self.origin);
        duration_as_nanos(&span)
    }
}

} // verus!
