//! The monotonic clock, read through std: instants and elapsed time.
//! What the clock returns depends on when it is read, so nothing is
//! stated of it; the logic that uses it holds whatever it returns.
use vstd::prelude::*;
use std::time::{Duration, Instant};

verus! {

/// The monotonic clock's instant type, carried as an opaque value.
#[verifier::external_type_specification]
#[verifier::external_body]
pub struct ExInstant(Instant);

/// Calls `Instant::now`; nothing is known of the instant it returns.
#[verifier::external_body]
pub(crate) fn instant_now() -> (r: Instant) {
    Instant::now()
}

/// Calls `Instant::elapsed`: the time since `since`, as the clock reads
/// it now; nothing is stated of it.
#[verifier::external_body]
pub(crate) fn elapsed_since(since: &Instant) -> (r: Duration) {
    since.elapsed()
}

/// Calls `Duration::as_nanos`: the whole nanoseconds of `d`, of which
/// nothing is stated since a duration is opaque here.
#[verifier::external_body]
pub(crate) fn nanos_of(d: &Duration) -> (r: u128) {
    d.as_nanos()
}

} // verus!
