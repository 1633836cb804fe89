//! The few facts about `std::time` that the transfer statistics rest on.
use std::time::{Duration, Instant};
use vstd::prelude::*;

verus! {

#[verifier::external_type_specification]
#[verifier::external_body]
pub struct ExInstant(Instant);

/// The whole length of a duration in nanoseconds, as `Duration::as_nanos`
/// returns it.
pub uninterp spec fn duration_nanos(d: Duration) -> nat;

/// The nanoseconds from `earlier` to `later` that `later - earlier`
/// (`Instant::duration_since`) measures.
pub uninterp spec fn nanos_between(later: Instant, earlier: Instant) -> nat;

/// `Duration::as_nanos`: the whole length in nanoseconds.
#[verifier::external_body]
pub fn duration_as_nanos(d: Duration) -> (n: u128)
    ensures
        n == duration_nanos(d),
{
    d.as_nanos()
}

/// `Duration::from_nanos`: a duration of exactly `n` nanoseconds.
#[verifier::external_body]
pub fn duration_from_nanos(n: u64) -> (d: Duration)
    ensures
        duration_nanos(d) == n,
{
    Duration::from_nanos(n)
}

/// `Duration - Duration`, which panics when the result would be negative.
#[verifier::external_body]
pub fn duration_sub(a: Duration, b: Duration) -> (d: Duration)
    requires
        duration_nanos(b) <= duration_nanos(a),
    ensures
        duration_nanos(d) == duration_nanos(a) - duration_nanos(b),
{
    a - b
}

/// `Instant - Instant`: the time elapsed from `earlier` to `later`.
#[verifier::external_body]
pub fn instant_since(later: Instant, earlier: Instant) -> (d: Duration)
    ensures
        duration_nanos(d) == nanos_between(later, earlier),
{
    later - earlier
}

} // verus!
