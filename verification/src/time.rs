//! What the rules need to know of `std::time::Duration`.
//!
//! The verifier sees nothing inside a `Duration`. The few facts below are
//! taken on trust from the standard library's documentation; nothing here
//! proves them.

use vstd::prelude::*;
use std::time::Duration;

verus! {

/// The whole length of a `Duration`, in nanoseconds.
pub uninterp spec fn duration_nanos(d: Duration) -> nat;

/// The whole milliseconds a `Duration` holds.
pub open spec fn duration_millis(d: Duration) -> nat {
    duration_nanos(d) / 1_000_000
}

/// The whole seconds a `Duration` holds.
pub open spec fn duration_secs(d: Duration) -> nat {
    duration_nanos(d) / 1_000_000_000
}

/// `Duration::as_millis` gives the number of whole milliseconds in the
/// duration: its length in nanoseconds, divided by a million and rounded
/// down.
pub assume_specification[Duration::as_millis](d: &Duration) -> (millis: u128)
    ensures
        millis == duration_millis(*d),
;

/// `Duration::as_secs` gives the number of whole seconds in the duration.
pub assume_specification[Duration::as_secs](d: &Duration) -> (secs: u64)
    ensures
        secs == duration_secs(*d),
;

/// `Duration`'s `>`: durations are ordered by their length.
#[verifier::external_body]
pub(crate) fn is_longer(a: &Duration, b: &Duration) -> (longer: bool)
    ensures
        longer == (duration_nanos(*a) > duration_nanos(*b)),
{
    a > b
}

/// No duration is longer than `d`.
pub open spec fn is_longest(d: Duration) -> bool {
    forall|e: Duration| #[trigger] duration_nanos(e) <= duration_nanos(d)
}

/// `Duration::MAX`, the maximum duration: no duration is longer.
#[verifier::external_body]
pub(crate) fn longest_duration() -> (longest: Duration)
    ensures
        is_longest(longest),
{
    Duration::MAX
}

} // verus!
