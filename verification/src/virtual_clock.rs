//! The clock that follows the virtual cursor of the `fake_clock` crate: one
//! cursor for every clock and instant on a thread, moved only by `delay_for`.

use crate::clock::{Clock, InstantHandle, Suspension, Time};
use crate::cursor::{FakeTime, OverflowError, VirtualCursor};
use crate::span::{lemma_millis_exact, millis_of, whole_millis};
use std::time::Duration;
use vstd::prelude::*;

verus! {

/// Calls `fake_clock::FakeClock::time`: the reading of the cursor that the
/// calling thread shares. Trusted, and nothing is claimed of the reading: it is
/// whatever earlier calls on this thread have left.
#[verifier::external_body]
fn cursor_reading() -> (millis: u64) {
    fake_clock::FakeClock::time()
}

/// Calls `fake_clock::FakeClock::set_time`: the cursor that the calling thread
/// shares reads `millis` from now on. Trusted; the call returns nothing.
#[verifier::external_body]
fn move_cursor(millis: u64) {
    fake_clock::FakeClock::set_time(millis)
}

impl Time for FakeTime {
    open spec fn is_virtual(&self) -> bool {
        true
    }

    fn elapsed(&self) -> (elapsed: Duration) {
        let cursor = VirtualCursor::at(cursor_reading());
        let elapsed = self.elapsed_at(&cursor);
        proof {
            lemma_millis_exact(elapsed, crate::cursor::elapsed_between(self@, cursor@));
        }
        elapsed
    }
}

/// The virtual clock. It holds nothing: every virtual clock of a thread reads
/// and moves the same cursor.
#[derive(Debug, Clone, Copy)]
pub struct FakeClock;

impl Clock for FakeClock {
    open spec fn is_virtual(&self) -> bool {
        true
    }

    fn now(&self) -> (instant: InstantHandle) {
        let cursor = VirtualCursor::at(cursor_reading());
        InstantHandle::Virtual(cursor.now())
    }

    /// Moves the shared cursor forward by the whole milliseconds of `duration`.
    /// Whether there is room for them depends on where the cursor stands; a
    /// duration of no whole millisecond always passes, and one of more
    /// milliseconds than a cursor can hold never does.
    fn delay_for(&self, duration: Duration) -> (outcome: Result<Suspension, OverflowError>)
        ensures
            whole_millis(duration) > u64::MAX ==> outcome is Err,
    {
        let by: u128 = millis_of(&duration);
        let mut cursor = VirtualCursor::at(cursor_reading());
        match cursor.advance(by) {
            Ok(()) => {
                move_cursor(cursor.millis());
                Ok(Suspension::Ready)
            },
            Err(overflow) => Err(overflow),
        }
    }
}

} // verus!
