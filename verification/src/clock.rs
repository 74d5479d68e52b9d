//! What the verifier is told about the clocks of `std::time`.
//!
//! None of this is proved. A clock reading depends on when it is taken, so
//! almost nothing is claimed: the declarations below only let verified code
//! take readings and pull the two integer fields out of a `Duration`.

use std::time::{Duration, Instant, SystemTime, SystemTimeError, UNIX_EPOCH};
use vstd::prelude::*;

verus! {

/// `std::time::Instant`, a reading of the monotonic clock. Its contents are
/// hidden from the verifier.
#[verifier::external_type_specification]
#[verifier::external_body]
pub struct ExInstant(Instant);

/// `std::time::SystemTime`, a reading of the wall clock. Its contents are
/// hidden from the verifier.
#[verifier::external_type_specification]
#[verifier::external_body]
pub struct ExSystemTime(SystemTime);

/// `std::time::SystemTimeError`, returned when one wall-clock reading is
/// asked for its distance from a later one. Its contents are hidden from the
/// verifier.
#[verifier::external_type_specification]
#[verifier::external_body]
pub struct ExSystemTimeError(SystemTimeError);

/// `Instant::now` reads the monotonic clock. Nothing is claimed of the
/// reading.
pub assume_specification[ Instant::now ]() -> Instant;

/// `Instant::elapsed` measures the time since `start` was read. Nothing is
/// claimed of the measurement.
pub assume_specification[ Instant::elapsed ](start: &Instant) -> Duration;

/// `Duration::as_secs` returns the whole seconds of `duration`. Nothing is
/// claimed of the count.
pub assume_specification[ Duration::as_secs ](duration: &Duration) -> u64;

/// `Duration::subsec_nanos` returns the part of `duration` beyond its whole
/// seconds, in nanoseconds. The claim is that this part is less than one
/// second.
pub assume_specification[ Duration::subsec_nanos ](duration: &Duration) -> (nanos: u32)
    ensures
        nanos < 1_000_000_000,
;

/// `SystemTime::now` reads the wall clock. Nothing is claimed of the reading.
pub assume_specification[ SystemTime::now ]() -> SystemTime;

/// Calls `SystemTime::duration_since` with `std::time::UNIX_EPOCH` as the
/// earlier time: how far `time` lies after the Unix epoch, or an error when
/// it lies before. Nothing is claimed of the outcome.
#[verifier::external_body]
pub(crate) fn since_unix_epoch(time: &SystemTime) -> Result<Duration, SystemTimeError> {
    time.duration_since(UNIX_EPOCH)
}

} // verus!
