//! Millisecond readings of the process's monotonic clock.

use std::time::{Duration, Instant};
use vstd::prelude::*;

verus! {

#[verifier::external_type_specification]
#[verifier::external_body]
pub struct ExInstant(Instant);

/// Relies on std::time::Instant::now: a reading of the monotonic clock, of
/// which nothing is known in advance.
pub assume_specification[ Instant::now ]() -> Instant;

/// Relies on std::time::Instant::elapsed: the time since the reading, of which
/// nothing is known in advance.
pub assume_specification[ Instant::elapsed ](this: &Instant) -> Duration;

/// Relies on std::time::Duration::as_millis: the whole milliseconds of a
/// duration, whose contents are not modelled here.
pub assume_specification[ Duration::as_millis ](this: &Duration) -> u128;

/// A clock that counts milliseconds from the moment it was started.
pub struct Clock {
    origin: Instant,
}

impl Clock {
    /// Starts a clock at the present moment.
    pub fn start() -> Clock {
        Clock { origin: Instant::now() }
    }

    /// Milliseconds since the clock was started, saturated at `u64::MAX`.
    pub fn now(&self) -> u64 {
        let millis = self.origin.elapsed().as_millis();
        if millis > u64::MAX as u128 {
            u64::MAX
        } else {
            millis as u64
        }
    }
}

} // verus!
