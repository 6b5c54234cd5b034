//! What this library reads of a `std::time::Duration`, and the conversion
//! between durations and whole milliseconds, the unit of the virtual cursor.

use std::time::Duration;
use vstd::prelude::*;

verus! {

/// The whole seconds that a duration holds: what `Duration::as_secs` returns.
pub uninterp spec fn duration_secs(duration: Duration) -> u64;

/// The part of a duration below one second, in nanoseconds: what
/// `Duration::subsec_nanos` returns.
pub uninterp spec fn duration_subsec_nanos(duration: Duration) -> u32;

/// Milliseconds in one second.
pub const MILLIS_PER_SEC: u64 = 1_000;

/// Nanoseconds in one millisecond.
pub const NANOS_PER_MILLI: u32 = 1_000_000;

/// The whole milliseconds that a duration holds. What lies below one
/// millisecond is cut off, never rounded up.
pub open spec fn whole_millis(duration: Duration) -> nat {
    (duration_secs(duration) * MILLIS_PER_SEC + duration_subsec_nanos(duration)
        / NANOS_PER_MILLI) as nat
}

/// Whether a duration is a whole number of milliseconds.
pub open spec fn is_whole_millis(duration: Duration) -> bool {
    duration_subsec_nanos(duration) % NANOS_PER_MILLI == 0
}

/// Whether a duration is exactly `millis` milliseconds long.
pub open spec fn is_millis(duration: Duration, millis: nat) -> bool {
    &&& duration_secs(duration) == millis / (MILLIS_PER_SEC as nat)
    &&& duration_subsec_nanos(duration) == (millis % (MILLIS_PER_SEC as nat)) * NANOS_PER_MILLI
}

/// `Duration::as_secs`: the number of whole seconds in the duration. Trusted:
/// the result is given the name `duration_secs`.
pub assume_specification[ Duration::as_secs ](duration: &Duration) -> (secs: u64)
    ensures
        secs == duration_secs(*duration),
;

/// `Duration::subsec_nanos`: the fractional part of the duration in
/// nanoseconds. Trusted: the result is given the name `duration_subsec_nanos`.
pub assume_specification[ Duration::subsec_nanos ](duration: &Duration) -> (nanos: u32)
    ensures
        nanos == duration_subsec_nanos(*duration),
;

/// `Duration::from_millis`: the duration of that many milliseconds. Trusted:
/// its whole seconds are the thousands of `millis`, and what is left of
/// `millis` makes up the part below one second.
pub assume_specification[ Duration::from_millis ](millis: u64) -> (duration: Duration)
    ensures
        is_millis(duration, millis as nat),
;

/// The whole milliseconds of `duration`, with what lies below one millisecond
/// cut off.
pub fn millis_of(duration: &Duration) -> (millis: u128)
    ensures
        millis == whole_millis(*duration),
{
    let secs: u64 = duration.as_secs();
    let nanos: u32 = duration.subsec_nanos();
    assert(secs * MILLIS_PER_SEC == secs * 1_000);
    let from_secs: u128 = secs as u128 * MILLIS_PER_SEC as u128;
    let below: u32 = nanos / NANOS_PER_MILLI;
    from_secs + below as u128
}

/// A duration of exactly `millis` milliseconds holds `millis` whole
/// milliseconds and nothing below.
pub proof fn lemma_millis_exact(duration: Duration, millis: nat)
    requires
        is_millis(duration, millis),
    ensures
        whole_millis(duration) == millis,
        is_whole_millis(duration),
{
}

} // verus!
