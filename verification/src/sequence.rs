//! The shared counters that number requests, so that an answer to an
//! older request can be told from the latest one.
use vstd::prelude::*;
use std::sync::atomic::{AtomicU64, Ordering};

verus! {

/// Draws the next number of the shared counter `sequence`: one past the
/// number it held, wrapping after the last.  Other threads draw from the
/// same counter, so nothing is known here of the number drawn.
pub fn next_generation(sequence: &AtomicU64) -> u64 {
    let previous = sequence.fetch_add(1, Ordering::SeqCst);
    previous.wrapping_add(1)
}

/// Whether the answer to request `request_id` is still wanted, the last
/// number drawn being `latest`: only the latest request is answered.
pub fn answers_latest(latest: u64, request_id: u64) -> (r: bool)
    ensures
        r == (latest == request_id),
{
    latest == request_id
}

/// Whether the answer to request `request_id` is still wanted: no later
/// number was drawn from `sequence`.  Other threads draw from the same
/// counter, so nothing is known here of the number read; `answers_latest`
/// decides for a given one.
pub fn request_current(sequence: &AtomicU64, request_id: u64) -> bool {
    let latest = sequence.load(Ordering::SeqCst);
    answers_latest(latest, request_id)
}

} // verus!
