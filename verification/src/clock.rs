//! Wall-clock measurement of a stage's duration.

use std::time::{Duration, Instant};
use vstd::prelude::*;

verus! {

/// A point in time of the monotonic clock.
#[verifier::external_type_specification]
#[verifier::external_body]
pub struct ExInstant(Instant);

/// `Instant::now` reads the monotonic clock. Nothing is claimed of the
/// reading.
pub assume_specification[ Instant::now ]() -> (t: Instant);

/// `Instant::elapsed` gives the time since the instant. Nothing is claimed
/// of it.
pub assume_specification[ Instant::elapsed ](start: &Instant) -> (d: Duration);

/// `Duration::as_millis` gives the whole milliseconds of a duration. Nothing
/// is claimed of their number.
pub assume_specification[ Duration::as_millis ](d: &Duration) -> (ms: u128);

/// A count of milliseconds reduced to 64 bits: its remainder modulo `2^64`,
/// which is the count itself wherever it fits.
pub open spec fn low_64_bits(ms: u128) -> u64 {
    (ms % 0x1_0000_0000_0000_0000) as u64
}

/// Reduces a count of milliseconds to 64 bits.
pub fn reduce_millis(ms: u128) -> (reduced: u64)
    ensures
        reduced == low_64_bits(ms),
        ms <= u64::MAX ==> reduced == ms,
{
    (ms % 0x1_0000_0000_0000_0000) as u64
}

/// The whole milliseconds since `start`, reduced to 64 bits.
///
/// The count is whatever the clock gave, so nothing is promised of it.
pub(crate) fn elapsed_ms(start: &Instant) -> u64 {
    reduce_millis(start.elapsed().as_millis())
}

} // verus!
