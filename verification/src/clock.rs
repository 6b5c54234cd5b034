//! The capability that both clocks offer: capture an instant, and let a
//! duration pass.

use crate::cursor::{FakeTime, OverflowError};
use crate::real_clock::RealTime;
use crate::span::{is_whole_millis, whole_millis};
use std::time::Duration;
use vstd::prelude::*;

verus! {

/// What the caller still has to do for a delay to be over.
#[derive(Debug, Clone, Copy, PartialEq, Eq)]
pub enum Suspension {
    /// Nothing: the duration has already passed on the clock that was asked.
    Ready,
    /// Suspend for this long on the runtime's timer.
    Sleep(Duration),
}

/// A captured instant of one clock.
pub trait Time {
    /// Whether the instant was captured on a clock whose time passes only when
    /// it is told to.
    spec fn is_virtual(&self) -> bool;

    /// How far the clock has run since this instant was captured. On a virtual
    /// clock that is a whole number of milliseconds.
    fn elapsed(&self) -> (elapsed: Duration)
        ensures
            self.is_virtual() ==> is_whole_millis(elapsed),
    ;
}

/// An instant of either clock.
#[derive(Debug, Clone, Copy)]
pub enum InstantHandle {
    /// A reading of the monotonic timer.
    Real(RealTime),
    /// A reading of the virtual cursor.
    Virtual(FakeTime),
}

impl Time for InstantHandle {
    open spec fn is_virtual(&self) -> bool {
        match self {
            InstantHandle::Real(instant) => instant.is_virtual(),
            InstantHandle::Virtual(instant) => instant.is_virtual(),
        }
    }

    fn elapsed(&self) -> (elapsed: Duration) {
        match self {
            InstantHandle::Real(instant) => instant.elapsed(),
            InstantHandle::Virtual(instant) => instant.elapsed(),
        }
    }
}

/// A source of time.
pub trait Clock {
    /// Whether time on this clock passes only when it is told to.
    spec fn is_virtual(&self) -> bool;

    /// Captures the current instant of this clock.
    fn now(&self) -> (instant: InstantHandle)
        ensures
            instant.is_virtual() == self.is_virtual(),
    ;

    /// Lets `duration` pass on this clock. A virtual clock moves its cursor and
    /// is done at once, unless the cursor cannot hold the sum; any other clock
    /// hands the whole duration back for the caller to sleep through. A
    /// duration of no whole millisecond passes on every clock.
    fn delay_for(&self, duration: Duration) -> (outcome: Result<Suspension, OverflowError>)
        ensures
            whole_millis(duration) == 0 ==> outcome is Ok,
            self.is_virtual() ==> (outcome is Ok ==> outcome == Ok::<Suspension, OverflowError>(
                Suspension::Ready,
            )),
            !self.is_virtual() ==> outcome == Ok::<Suspension, OverflowError>(
                Suspension::Sleep(duration),
            ),
    ;
}

} // verus!
