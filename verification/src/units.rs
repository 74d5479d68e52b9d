//! Discrete time units and integer conversion between them.
//!
//! Every conversion goes through nanoseconds: a quantity is first scaled up
//! to a nanosecond count and then divided down to the target unit. The
//! nanosecond count is a 64-bit unsigned integer and wraps around when the
//! quantity is too large for it; [`representable`] describes the range on
//! which nothing wraps.

use vstd::arithmetic::div_mod::lemma_small_mod;
use vstd::prelude::*;

use crate::arith::{
    lemma_divide_in_steps, lemma_multiply_in_steps, lemma_scale_and_undo,
    lemma_scale_down_by_ratio, lemma_scale_there_and_back, lemma_scale_up_by_ratio,
    lemma_whole_parts,
};

verus! {

/// The units of time this library converts between.
#[derive(Debug, Copy, Clone)]
pub enum TimeUnit {
    /// One billionth of a second.
    Nanosecond,
    /// One thousandth of a second.
    Millisecond,
    /// One full second.
    Second,
    /// 60 seconds.
    Minute,
    /// 60 minutes.
    Hour,
    /// 24 hours.
    Day,
    /// 7 days.
    Week,
    /// 52 weeks.
    Year,
}

/// The number of nanoseconds in one `unit`.
pub open spec fn nanos_per(unit: TimeUnit) -> nat {
    match unit {
        TimeUnit::Nanosecond => 1,
        TimeUnit::Millisecond => 1_000_000,
        TimeUnit::Second => 1_000_000_000,
        TimeUnit::Minute => 60_000_000_000,
        TimeUnit::Hour => 3_600_000_000_000,
        TimeUnit::Day => 86_400_000_000_000,
        TimeUnit::Week => 604_800_000_000_000,
        TimeUnit::Year => 31_449_600_000_000_000,
    }
}

/// How many `fine` units make up one `coarse` unit. Meant for a `fine` that
/// is no coarser than `coarse`, where the ratio is whole.
pub open spec fn units_in(coarse: TimeUnit, fine: TimeUnit) -> nat {
    nanos_per(coarse) / nanos_per(fine)
}

/// One more than the largest count a 64-bit unsigned integer holds.
pub open spec fn wrap_modulus() -> nat {
    0x1_0000_0000_0000_0000
}

/// Whether `value` counted in `unit` is a nanosecond count that fits in 64
/// bits. Conversions are exact on this range and wrap around outside it.
pub open spec fn representable(unit: TimeUnit, value: nat) -> bool {
    value * nanos_per(unit) <= u64::MAX
}

/// The nanosecond count of `value` counted in `from`, reduced modulo 2^64.
pub open spec fn to_nano_spec(from: TimeUnit, value: nat) -> nat {
    (value * nanos_per(from)) % wrap_modulus()
}

/// The whole number of `to` units contained in `nanos` nanoseconds.
pub open spec fn from_nano_spec(to: TimeUnit, nanos: nat) -> nat {
    nanos / nanos_per(to)
}

/// `value` counted in `from`, expressed in `to`: scaled up to nanoseconds
/// modulo 2^64, then divided down with truncation toward zero.
pub open spec fn convert_spec(from: TimeUnit, to: TimeUnit, value: nat) -> nat {
    from_nano_spec(to, to_nano_spec(from, value))
}

/// `value` counted in `from`, expressed in `to`, over the unbounded naturals:
/// what a conversion yields when nothing wraps.
pub open spec fn exact_convert_spec(from: TimeUnit, to: TimeUnit, value: nat) -> nat {
    (value * nanos_per(from)) / nanos_per(to)
}

/// Whether `value` counted in `from` is a whole number of `to` units, so that
/// converting it to `to` drops no remainder.
pub open spec fn converts_evenly(from: TimeUnit, to: TimeUnit, value: nat) -> bool {
    (value * nanos_per(from)) % nanos_per(to) == 0
}

/// Scales `value` counted in `from` up to nanoseconds, one rung of the unit
/// ladder at a time. Each product wraps around at 2^64, so the result is the
/// full product reduced modulo 2^64.
pub fn to_nano(from: TimeUnit, value: u64) -> (nanos: u64)
    ensures
        nanos == to_nano_spec(from, value as nat),
        representable(from, value as nat) ==> nanos == value * nanos_per(from),
    decreases nanos_per(from),
{
    match from {
        TimeUnit::Nanosecond => value,
        TimeUnit::Millisecond => value.wrapping_mul(1_000_000),
        TimeUnit::Second => {
            proof {
                lemma_multiply_in_steps(
                    value as nat,
                    1000,
                    nanos_per(TimeUnit::Millisecond),
                    wrap_modulus(),
                );
            }
            to_nano(TimeUnit::Millisecond, value.wrapping_mul(1000))
        },
        TimeUnit::Minute => {
            proof {
                lemma_multiply_in_steps(
                    value as nat,
                    60,
                    nanos_per(TimeUnit::Second),
                    wrap_modulus(),
                );
            }
            to_nano(TimeUnit::Second, value.wrapping_mul(60))
        },
        TimeUnit::Hour => {
            proof {
                lemma_multiply_in_steps(
                    value as nat,
                    60,
                    nanos_per(TimeUnit::Minute),
                    wrap_modulus(),
                );
            }
            to_nano(TimeUnit::Minute, value.wrapping_mul(60))
        },
        TimeUnit::Day => {
            proof {
                lemma_multiply_in_steps(
                    value as nat,
                    24,
                    nanos_per(TimeUnit::Hour),
                    wrap_modulus(),
                );
            }
            to_nano(TimeUnit::Hour, value.wrapping_mul(24))
        },
        TimeUnit::Week => {
            proof {
                lemma_multiply_in_steps(
                    value as nat,
                    7,
                    nanos_per(TimeUnit::Day),
                    wrap_modulus(),
                );
            }
            to_nano(TimeUnit::Day, value.wrapping_mul(7))
        },
        TimeUnit::Year => {
            proof {
                lemma_multiply_in_steps(
                    value as nat,
                    52,
                    nanos_per(TimeUnit::Week),
                    wrap_modulus(),
                );
            }
            to_nano(TimeUnit::Week, value.wrapping_mul(52))
        },
    }
}

/// Divides a nanosecond count down to `to`, one rung of the unit ladder at a
/// time. Each step truncates toward zero, and so does the result.
pub fn from_nano(to: TimeUnit, value: u64) -> (amount: u64)
    ensures
        amount == from_nano_spec(to, value as nat),
    decreases nanos_per(to),
{
    match to {
        TimeUnit::Nanosecond => value,
        TimeUnit::Millisecond => value / 1_000_000,
        TimeUnit::Second => {
            proof {
                lemma_divide_in_steps(value as nat, 1000, nanos_per(TimeUnit::Millisecond));
            }
            from_nano(TimeUnit::Millisecond, value / 1000)
        },
        TimeUnit::Minute => {
            proof {
                lemma_divide_in_steps(value as nat, 60, nanos_per(TimeUnit::Second));
            }
            from_nano(TimeUnit::Second, value / 60)
        },
        TimeUnit::Hour => {
            proof {
                lemma_divide_in_steps(value as nat, 60, nanos_per(TimeUnit::Minute));
            }
            from_nano(TimeUnit::Minute, value / 60)
        },
        TimeUnit::Day => {
            proof {
                lemma_divide_in_steps(value as nat, 24, nanos_per(TimeUnit::Hour));
            }
            from_nano(TimeUnit::Hour, value / 24)
        },
        TimeUnit::Week => {
            proof {
                lemma_divide_in_steps(value as nat, 7, nanos_per(TimeUnit::Day));
            }
            from_nano(TimeUnit::Day, value / 7)
        },
        TimeUnit::Year => {
            proof {
                lemma_divide_in_steps(value as nat, 52, nanos_per(TimeUnit::Week));
            }
            from_nano(TimeUnit::Week, value / 52)
        },
    }
}

/// Converts `value` counted in `from` into the unit `to`.
///
/// On the [`representable`] range the result is the exact quotient of the
/// nanosecond counts: toward a finer unit nothing is rounded, toward a
/// coarser unit the remainder is dropped. Outside that range the nanosecond
/// count wraps around at 2^64 before it is divided.
pub fn convert(from: TimeUnit, to: TimeUnit, value: u64) -> (amount: u64)
    ensures
        amount == convert_spec(from, to, value as nat),
        representable(from, value as nat) ==> amount == exact_convert_spec(from, to, value as nat),
{
    from_nano(to, to_nano(from, value))
}

impl TimeUnit {
    /// Converts `amount` counted in this unit into the unit `to`, as
    /// [`convert`] does.
    pub fn to(&self, to: TimeUnit, amount: u64) -> (converted: u64)
        ensures
            converted == convert_spec(*self, to, amount as nat),
            representable(*self, amount as nat) ==> converted == exact_convert_spec(
                *self,
                to,
                amount as nat,
            ),
    {
        convert(*self, to, amount)
    }
}

/// The unit ladder: a millisecond is 1,000,000 nanoseconds, a second 1000
/// milliseconds, a minute 60 seconds, an hour 60 minutes, a day 24 hours, a
/// week 7 days, and a year 52 weeks.
pub proof fn lemma_unit_ladder()
    ensures
        nanos_per(TimeUnit::Nanosecond) == 1,
        nanos_per(TimeUnit::Millisecond) == 1_000_000 * nanos_per(TimeUnit::Nanosecond),
        nanos_per(TimeUnit::Second) == 1000 * nanos_per(TimeUnit::Millisecond),
        nanos_per(TimeUnit::Minute) == 60 * nanos_per(TimeUnit::Second),
        nanos_per(TimeUnit::Hour) == 60 * nanos_per(TimeUnit::Minute),
        nanos_per(TimeUnit::Day) == 24 * nanos_per(TimeUnit::Hour),
        nanos_per(TimeUnit::Week) == 7 * nanos_per(TimeUnit::Day),
        nanos_per(TimeUnit::Year) == 52 * nanos_per(TimeUnit::Week),
{
}

/// Every unit holds at least one nanosecond.
pub proof fn lemma_nanos_per_positive(unit: TimeUnit)
    ensures
        0 < nanos_per(unit),
{
}

/// Of two units, the count of nanoseconds in the finer one divides that in
/// the coarser one: every rung of the unit ladder is a whole ratio.
pub proof fn lemma_finer_divides_coarser(fine: TimeUnit, coarse: TimeUnit)
    requires
        nanos_per(fine) <= nanos_per(coarse),
    ensures
        nanos_per(coarse) % nanos_per(fine) == 0,
{
    match fine {
        TimeUnit::Nanosecond => {},
        TimeUnit::Millisecond => match coarse {
            TimeUnit::Millisecond => assert(1_000_000nat % 1_000_000 == 0),
            TimeUnit::Second => assert(1_000_000_000nat % 1_000_000 == 0),
            TimeUnit::Minute => assert(60_000_000_000nat % 1_000_000 == 0),
            TimeUnit::Hour => assert(3_600_000_000_000nat % 1_000_000 == 0),
            TimeUnit::Day => assert(86_400_000_000_000nat % 1_000_000 == 0),
            TimeUnit::Week => assert(604_800_000_000_000nat % 1_000_000 == 0),
            TimeUnit::Year => assert(31_449_600_000_000_000nat % 1_000_000 == 0),
            _ => {},
        },
        TimeUnit::Second => match coarse {
            TimeUnit::Second => assert(1_000_000_000nat % 1_000_000_000 == 0),
            TimeUnit::Minute => assert(60_000_000_000nat % 1_000_000_000 == 0),
            TimeUnit::Hour => assert(3_600_000_000_000nat % 1_000_000_000 == 0),
            TimeUnit::Day => assert(86_400_000_000_000nat % 1_000_000_000 == 0),
            TimeUnit::Week => assert(604_800_000_000_000nat % 1_000_000_000 == 0),
            TimeUnit::Year => assert(31_449_600_000_000_000nat % 1_000_000_000 == 0),
            _ => {},
        },
        TimeUnit::Minute => match coarse {
            TimeUnit::Minute => assert(60_000_000_000nat % 60_000_000_000 == 0),
            TimeUnit::Hour => assert(3_600_000_000_000nat % 60_000_000_000 == 0),
            TimeUnit::Day => assert(86_400_000_000_000nat % 60_000_000_000 == 0),
            TimeUnit::Week => assert(604_800_000_000_000nat % 60_000_000_000 == 0),
            TimeUnit::Year => assert(31_449_600_000_000_000nat % 60_000_000_000 == 0),
            _ => {},
        },
        TimeUnit::Hour => match coarse {
            TimeUnit::Hour => assert(3_600_000_000_000nat % 3_600_000_000_000 == 0),
            TimeUnit::Day => assert(86_400_000_000_000nat % 3_600_000_000_000 == 0),
            TimeUnit::Week => assert(604_800_000_000_000nat % 3_600_000_000_000 == 0),
            TimeUnit::Year => assert(31_449_600_000_000_000nat % 3_600_000_000_000 == 0),
            _ => {},
        },
        TimeUnit::Day => match coarse {
            TimeUnit::Day => assert(86_400_000_000_000nat % 86_400_000_000_000 == 0),
            TimeUnit::Week => assert(604_800_000_000_000nat % 86_400_000_000_000 == 0),
            TimeUnit::Year => assert(31_449_600_000_000_000nat % 86_400_000_000_000 == 0),
            _ => {},
        },
        TimeUnit::Week => match coarse {
            TimeUnit::Week => assert(604_800_000_000_000nat % 604_800_000_000_000 == 0),
            TimeUnit::Year => assert(31_449_600_000_000_000nat % 604_800_000_000_000 == 0),
            _ => {},
        },
        TimeUnit::Year => match coarse {
            TimeUnit::Year => assert(31_449_600_000_000_000nat % 31_449_600_000_000_000 == 0),
            _ => {},
        },
    }
}

/// Converting a quantity into its own unit returns it unchanged, and does so
/// exactly when the quantity is representable.
pub proof fn lemma_convert_same_unit(unit: TimeUnit, value: u64)
    ensures
        convert_spec(unit, unit, value as nat) == value <==> representable(unit, value as nat),
{
    lemma_nanos_per_positive(unit);
    lemma_scale_and_undo(value as nat, nanos_per(unit), wrap_modulus());
}

/// Converting a quantity to another unit and back returns it unchanged
/// exactly when it is representable and the forward conversion drops no
/// remainder.
pub proof fn lemma_convert_round_trip(from: TimeUnit, to: TimeUnit, value: u64)
    ensures
        convert_spec(to, from, convert_spec(from, to, value as nat)) == value <==> representable(
            from,
            value as nat,
        ) && converts_evenly(from, to, value as nat),
{
    lemma_nanos_per_positive(from);
    lemma_nanos_per_positive(to);
    lemma_scale_there_and_back(value as nat, nanos_per(from), nanos_per(to), wrap_modulus());
}

/// Toward a coarser unit a quantity converts evenly exactly when it is a
/// whole multiple of the ratio between the two units.
pub proof fn lemma_converts_evenly_to_coarser(from: TimeUnit, to: TimeUnit, value: u64)
    requires
        nanos_per(from) <= nanos_per(to),
    ensures
        converts_evenly(from, to, value as nat) <==> value as nat % units_in(to, from) == 0,
{
    lemma_nanos_per_positive(from);
    lemma_finer_divides_coarser(from, to);
    lemma_whole_parts(value as nat, nanos_per(from), nanos_per(to));
}

/// Toward a finer unit nothing is rounded: a representable quantity is
/// multiplied by the whole ratio between the two units, and converts evenly.
pub proof fn lemma_convert_to_finer(from: TimeUnit, to: TimeUnit, value: u64)
    requires
        nanos_per(to) <= nanos_per(from),
        representable(from, value as nat),
    ensures
        convert_spec(from, to, value as nat) == value * units_in(from, to),
        converts_evenly(from, to, value as nat),
{
    lemma_nanos_per_positive(to);
    lemma_finer_divides_coarser(to, from);
    lemma_small_mod(value as nat * nanos_per(from), wrap_modulus());
    lemma_scale_up_by_ratio(value as nat, nanos_per(from), nanos_per(to));
}

/// Toward a coarser unit the remainder is dropped: a representable quantity
/// is divided by the whole ratio between the two units, truncating toward
/// zero.
pub proof fn lemma_convert_to_coarser(from: TimeUnit, to: TimeUnit, value: u64)
    requires
        nanos_per(from) <= nanos_per(to),
        representable(from, value as nat),
    ensures
        convert_spec(from, to, value as nat) == value as nat / units_in(to, from),
{
    lemma_nanos_per_positive(from);
    lemma_finer_divides_coarser(from, to);
    lemma_small_mod(value as nat * nanos_per(from), wrap_modulus());
    lemma_scale_down_by_ratio(value as nat, nanos_per(from), nanos_per(to));
}

} // verus!
