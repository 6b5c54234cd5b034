//! The virtual cursor as a plain value: a count of whole milliseconds that only
//! ever moves forward, the instants captured from it, and the arithmetic of
//! advancing it.

use crate::span::is_millis;
use std::time::Duration;
use vstd::prelude::*;

verus! {

/// An advance would carry the cursor past the largest value it can hold.
#[derive(Debug, Clone, Copy, PartialEq, Eq, Structural)]
pub struct OverflowError;

/// Where a cursor that reads `cursor` stands after `by` more milliseconds, or
/// `None` when that is more than a cursor can hold.
pub open spec fn advanced(cursor: nat, by: nat) -> Option<nat> {
    if cursor + by <= u64::MAX {
        Some(cursor + by)
    } else {
        None
    }
}

/// The milliseconds between an instant captured at `captured` and a cursor that
/// reads `cursor`; nothing when the cursor stands before the instant.
pub open spec fn elapsed_between(captured: nat, cursor: nat) -> nat {
    if cursor >= captured {
        (cursor - captured) as nat
    } else {
        0
    }
}

/// A reading of the virtual cursor, in whole milliseconds since its first use.
#[derive(Debug, Clone, Copy)]
pub struct VirtualCursor {
    millis: u64,
}

/// An instant captured on the virtual clock: the cursor's reading at that
/// moment.
#[derive(Debug, Clone, Copy)]
pub struct FakeTime {
    captured: u64,
}

impl View for VirtualCursor {
    type V = nat;

    closed spec fn view(&self) -> nat {
        self.millis as nat
    }
}

impl View for FakeTime {
    type V = nat;

    closed spec fn view(&self) -> nat {
        self.captured as nat
    }
}

impl VirtualCursor {
    /// The cursor that reads `millis`.
    pub fn at(millis: u64) -> (cursor: VirtualCursor)
        ensures
            cursor@ == millis,
    {
        VirtualCursor { millis }
    }

    /// The reading, in milliseconds.
    pub fn millis(&self) -> (millis: u64)
        ensures
            millis == self@,
    {
        self.millis
    }

    /// Captures the instant at which the cursor stands.
    pub fn now(&self) -> (instant: FakeTime)
        ensures
            instant@ == self@,
    {
        FakeTime { captured: self.millis }
    }

    /// Moves the cursor forward by exactly `by` milliseconds, or fails and
    /// leaves it where it was when the sum is more than it can hold.
    pub fn advance(&mut self, by: u128) -> (outcome: Result<(), OverflowError>)
        ensures
            match advanced(old(self)@, by as nat) {
                Some(next) => outcome == Ok::<(), OverflowError>(()) && final(self)@ == next,
                None => outcome == Err::<(), OverflowError>(OverflowError) && final(self)@ == old(
                    self,
                )@,
            },
    {
        let room: u64 = u64::MAX - self.millis;
        if by <= room as u128 {
            self.millis = self.millis + by as u64;
            Ok(())
        } else {
            Err(OverflowError)
        }
    }
}

impl FakeTime {
    /// How far a cursor that reads `cursor` has run since this instant was
    /// captured.
    pub fn elapsed_at(&self, cursor: &VirtualCursor) -> (elapsed: Duration)
        ensures
            is_millis(elapsed, elapsed_between(self@, cursor@)),
    {
        if cursor.millis >= self.captured {
            Duration::from_millis(cursor.millis - self.captured)
        } else {
            Duration::from_millis(0)
        }
    }
}

/// An advance never moves the cursor back.
pub proof fn lemma_advance_moves_forward(cursor: VirtualCursor, by: nat)
    ensures
        advanced(cursor@, by) matches Some(next) ==> next >= cursor@,
{
}

/// What an instant reports as elapsed never shrinks while the cursor only
/// moves forward.
pub proof fn lemma_elapsed_monotonic(instant: FakeTime, earlier: VirtualCursor, later: VirtualCursor)
    requires
        earlier@ <= later@,
    ensures
        elapsed_between(instant@, earlier@) <= elapsed_between(instant@, later@),
{
}

/// An instant captured where the cursor stands reports, after one advance,
/// exactly the milliseconds of that advance.
pub proof fn lemma_elapsed_after_advance(cursor: VirtualCursor, by: nat)
    ensures
        advanced(cursor@, by) matches Some(next) ==> elapsed_between(cursor@, next) == by,
{
}

/// Every instant captured before an advance reports exactly the milliseconds
/// of that advance more than it did before, whichever clock made the advance.
pub proof fn lemma_advance_adds_to_elapsed(instant: FakeTime, cursor: VirtualCursor, by: nat)
    requires
        instant@ <= cursor@,
    ensures
        advanced(cursor@, by) matches Some(next) ==> elapsed_between(instant@, next)
            == elapsed_between(instant@, cursor@) + by,
{
}

/// Two advances in a row are one advance by the sum: they end at the same
/// reading, and one of them fails exactly when the single advance would.
pub proof fn lemma_advance_additive(cursor: VirtualCursor, first: nat, second: nat)
    ensures
        advanced(cursor@, first + second) == match advanced(cursor@, first) {
            Some(between) => advanced(between, second),
            None => None,
        },
        advanced(cursor@, first + second) matches Some(end) ==> end == cursor@ + first + second,
{
}

/// An advance by nothing succeeds and changes neither the cursor nor what any
/// instant reports as elapsed.
pub proof fn lemma_advance_by_zero(instant: FakeTime, cursor: VirtualCursor)
    ensures
        advanced(cursor@, 0) == Some(cursor@),
        advanced(cursor@, 0) matches Some(next) && elapsed_between(instant@, next)
            == elapsed_between(instant@, cursor@),
{
}

} // verus!
