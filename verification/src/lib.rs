//! Elapsed-time measurement and exact conversion between time units.
//!
//! A [`Timer`] remembers a reading of the monotonic clock and reports how
//! long ago it was taken: as whole milliseconds, in any [`units::TimeUnit`],
//! or as text. [`current_time_millis`] and [`current_time`] report the wall
//! clock's distance from the Unix epoch.
//!
//! Arithmetic on 64-bit counts wraps around. Conversions are exact on the
//! range that [`units::representable`] describes.

mod arith;
pub mod clock;
pub mod format;
pub mod units;

use std::time::{Instant, SystemTime};
use vstd::prelude::*;

use crate::clock::since_unix_epoch;
use crate::format::{format_millis, format_spec};
use crate::units::{convert, convert_spec, wrap_modulus, TimeUnit};

verus! {

/// The whole milliseconds in a duration of `secs` seconds and `subsec_nanos`
/// further nanoseconds, reduced modulo 2^64. The nanoseconds are truncated
/// to milliseconds, not rounded.
pub open spec fn whole_millis_spec(secs: nat, subsec_nanos: nat) -> nat {
    (secs * 1000 + subsec_nanos / 1_000_000) % wrap_modulus()
}

/// Computes the whole milliseconds in a duration given as its seconds and
/// the nanoseconds beyond them.
pub fn whole_millis(secs: u64, subsec_nanos: u32) -> (millis: u64)
    ensures
        millis == whole_millis_spec(secs as nat, subsec_nanos as nat),
        ({
            let unwrapped = secs * 1000 + subsec_nanos / 1_000_000;
            unwrapped <= u64::MAX ==> millis == unwrapped
        }),
{
    let beyond: u64 = (subsec_nanos / 1_000_000) as u64;
    secs.wrapping_mul(1000).wrapping_add(beyond)
}

/// Dropping the fraction of a millisecond keeps durations in order: while
/// nothing wraps, a duration that is no shorter has no fewer whole
/// milliseconds. Read twice against a clock that does not run backward, a
/// timer therefore never reports less the second time.
pub proof fn lemma_whole_millis_monotonic(
    secs: u64,
    subsec_nanos: u32,
    later_secs: u64,
    later_subsec_nanos: u32,
)
    requires
        subsec_nanos < 1_000_000_000,
        later_subsec_nanos < 1_000_000_000,
        secs < later_secs || (secs == later_secs && subsec_nanos <= later_subsec_nanos),
        later_secs * 1000 + later_subsec_nanos / 1_000_000 <= u64::MAX,
    ensures
        whole_millis_spec(secs as nat, subsec_nanos as nat) <= whole_millis_spec(
            later_secs as nat,
            later_subsec_nanos as nat,
        ),
{
}

/// A stopwatch: a reading of the monotonic clock against which elapsed time
/// is measured.
pub struct Timer {
    /// The reading that elapsed time is measured from.
    pub time: Instant,
}

impl Timer {
    /// Starts a timer at the present reading of the monotonic clock.
    pub fn new() -> Timer {
        Timer::started_at(Instant::now())
    }

    /// The time since the timer was started or last reset, in `unit`: the
    /// elapsed milliseconds put through [`convert`].
    pub fn get_elapsed(&self, unit: TimeUnit) -> (elapsed: u64)
        ensures
            exists|millis: u64|
                elapsed == #[trigger] convert_spec(TimeUnit::Millisecond, unit, millis as nat),
    {
        let millis = self.elapsed_millis();
        convert(TimeUnit::Millisecond, unit, millis)
    }

    /// The whole milliseconds since the timer was started or last reset:
    /// one measurement of the monotonic clock put through [`whole_millis`].
    pub fn elapsed_millis(&self) -> (millis: u64)
        ensures
            exists|secs: u64, subsec_nanos: u32|
                subsec_nanos < 1_000_000_000 && millis == #[trigger] whole_millis_spec(
                    secs as nat,
                    subsec_nanos as nat,
                ),
    {
        let elapsed = self.time.elapsed();
        whole_millis(elapsed.as_secs(), elapsed.subsec_nanos())
    }

    /// Restarts the timer at the present reading of the monotonic clock.
    pub fn reset(&mut self) {
        self.reset_to(Instant::now());
    }

    /// The time since the timer was started or last reset, rendered by
    /// [`format_millis`].
    pub fn format(&self) -> (text: String)
        ensures
            exists|millis: u64| text@ == #[trigger] format_spec(millis as nat),
    {
        let millis = self.elapsed_millis();
        format_millis(millis)
    }
}

/// Why the wall clock could not be read as a time since the Unix epoch.
#[derive(Debug, Clone, Copy, PartialEq, Eq)]
pub enum ClockError {
    /// The wall clock is set to a time before the Unix epoch.
    BeforeEpoch,
}

/// The whole milliseconds from the Unix epoch to the present reading of the
/// wall clock: one measurement of that distance put through
/// [`millis_since_epoch`]. Fails when the wall clock is set before the epoch.
pub fn current_time_millis() -> (now: Result<u64, ClockError>)
    ensures
        now matches Ok(millis) ==> exists|secs: u64, subsec_nanos: u32|
            subsec_nanos < 1_000_000_000 && millis == #[trigger] whole_millis_spec(
                secs as nat,
                subsec_nanos as nat,
            ),
{
    let distance = match since_unix_epoch(&SystemTime::now()) {
        Ok(since_epoch) => Some((since_epoch.as_secs(), since_epoch.subsec_nanos())),
        Err(_) => None,
    };
    millis_since_epoch(distance)
}

/// The time from the Unix epoch to the present reading of the wall clock, in
/// `unit`: one reading of [`current_time_millis`] put through
/// [`reading_in_unit`].
pub fn current_time(unit: TimeUnit) -> (now: Result<u64, ClockError>)
    ensures
        now matches Ok(amount) ==> exists|millis: u64|
            amount == #[trigger] convert_spec(TimeUnit::Millisecond, unit, millis as nat),
{
    let reading = current_time_millis();
    reading_in_unit(unit, reading)
}

impl Timer {
    /// A timer that measures elapsed time from the reading `time`.
    pub fn started_at(time: Instant) -> (timer: Timer)
        ensures
            timer.time == time,
    {
        Timer { time }
    }

    /// Makes the timer measure elapsed time from the reading `time`, whatever
    /// it measured from before.
    pub fn reset_to(&mut self, time: Instant)
        ensures
            final(self).time == time,
    {
        self.time = time;
    }
}

/// Turns a measurement of the wall clock's distance from the Unix epoch into
/// whole milliseconds. `distance` holds the seconds and the nanoseconds
/// beyond them where the clock stands at or after the epoch, and nothing
/// where it stands before: then, and only then, the result is an error.
pub fn millis_since_epoch(distance: Option<(u64, u32)>) -> (now: Result<u64, ClockError>)
    ensures
        match distance {
            Some((secs, subsec_nanos)) => now matches Ok(millis) && millis == whole_millis_spec(
                secs as nat,
                subsec_nanos as nat,
            ),
            None => now == Err::<u64, ClockError>(ClockError::BeforeEpoch),
        },
{
    match distance {
        Some((secs, subsec_nanos)) => Ok(whole_millis(secs, subsec_nanos)),
        None => Err(ClockError::BeforeEpoch),
    }
}

/// Expresses a reading of [`current_time_millis`] in `unit`: milliseconds
/// are put through [`convert`], an error is handed on as it is.
pub fn reading_in_unit(
    unit: TimeUnit,
    reading: Result<u64, ClockError>,
) -> (now: Result<u64, ClockError>)
    ensures
        match reading {
            Ok(millis) => now matches Ok(amount) && amount == convert_spec(
                TimeUnit::Millisecond,
                unit,
                millis as nat,
            ),
            Err(_) => now == reading,
        },
{
    match reading {
        Ok(millis) => Ok(convert(TimeUnit::Millisecond, unit, millis)),
        Err(error) => Err(error),
    }
}

} // verus!
