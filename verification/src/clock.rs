//! The system clock and freshly seeded hashers: where request parameters
//! take values from the time and from chance.

use vstd::prelude::*;

use std::collections::hash_map::{DefaultHasher, RandomState};
use std::time::{Duration, SystemTime, SystemTimeError};

verus! {

/// A reading of the system clock.
#[verifier::external_type_specification]
#[verifier::external_body]
pub struct ExSystemTime(SystemTime);

/// The error of a clock reading taken before the Unix epoch.
#[verifier::external_type_specification]
#[verifier::external_body]
pub struct ExSystemTimeError(SystemTimeError);

/// `SystemTime::now`: the clock's current reading. Nothing is stated of it.
#[verifier::external_body]
pub(crate) fn clock_now() -> (t: SystemTime) {
    SystemTime::now()
}

/// `SystemTime::duration_since` the Unix epoch: the time elapsed since then,
/// or an error for a reading before it. Nothing is stated of which.
#[verifier::external_body]
pub(crate) fn since_epoch(t: &SystemTime) -> (r: Result<Duration, SystemTimeError>) {
    t.duration_since(std::time::UNIX_EPOCH)
}

/// `Duration::as_millis`: the whole milliseconds of a duration.
#[verifier::external_body]
pub(crate) fn whole_millis(d: &Duration) -> (r: u128) {
    d.as_millis()
}

/// `Duration::as_nanos`: the whole nanoseconds of a duration.
#[verifier::external_body]
pub(crate) fn whole_nanos(d: &Duration) -> (r: u128) {
    d.as_nanos()
}

/// `RandomState::new`: a hasher builder with fresh random keys.
#[verifier::external_body]
pub(crate) fn fresh_random_state() -> (s: RandomState) {
    RandomState::new()
}

/// `BuildHasher::build_hasher` of a `RandomState`: a hasher keyed by the
/// builder's random keys. Nothing is stated of its state, which rests on
/// those keys.
#[verifier::external_body]
pub(crate) fn keyed_hasher(s: &RandomState) -> (h: DefaultHasher) {
    std::hash::BuildHasher::build_hasher(s)
}

} // verus!
