//! The clock that follows the machine's monotonic timer.

use crate::clock::{Clock, InstantHandle, Suspension, Time};
use crate::cursor::OverflowError;
use std::time::{Duration, Instant};
use vstd::prelude::*;

verus! {

/// `std::time::Instant`, a reading of the monotonic timer. Nothing of what it
/// holds is visible here.
#[verifier::external_type_specification]
#[verifier::external_body]
pub struct ExInstant(Instant);

/// Calls `Instant::now`: the current reading of the monotonic timer. Trusted,
/// and nothing is claimed of the reading.
#[verifier::external_body]
fn timer_reading() -> (reading: Instant) {
    Instant::now()
}

/// Calls `Instant::elapsed`: the time that has passed since the reading was
/// taken. Trusted, and nothing is claimed of the amount.
#[verifier::external_body]
fn since_reading(reading: &Instant) -> (elapsed: Duration) {
    reading.elapsed()
}

/// An instant captured on the real clock.
#[derive(Debug, Clone, Copy)]
pub struct RealTime(Instant);

impl Time for RealTime {
    open spec fn is_virtual(&self) -> bool {
        false
    }

    fn elapsed(&self) -> (elapsed: Duration) {
        since_reading(&self.0)
    }
}

/// The real clock.
#[derive(Debug, Clone, Copy)]
pub struct RealClock;

impl Clock for RealClock {
    open spec fn is_virtual(&self) -> bool {
        false
    }

    fn now(&self) -> (instant: InstantHandle) {
        InstantHandle::Real(RealTime(timer_reading()))
    }

    fn delay_for(&self, duration: Duration) -> (outcome: Result<Suspension, OverflowError>) {
        Ok(Suspension::Sleep(duration))
    }
}

} // verus!
