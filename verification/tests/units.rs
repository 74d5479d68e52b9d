use chroniker::units::{convert, from_nano, to_nano, TimeUnit};

const ALL_UNITS: [TimeUnit; 8] = [
    TimeUnit::Nanosecond,
    TimeUnit::Millisecond,
    TimeUnit::Second,
    TimeUnit::Minute,
    TimeUnit::Hour,
    TimeUnit::Day,
    TimeUnit::Week,
    TimeUnit::Year,
];

const NANOS_PER_UNIT: [u64; 8] = [
    1,
    1_000_000,
    1_000_000_000,
    60_000_000_000,
    3_600_000_000_000,
    86_400_000_000_000,
    604_800_000_000_000,
    31_449_600_000_000_000,
];

#[test]
fn test_convert() {
    assert!(convert(TimeUnit::Millisecond, TimeUnit::Second, 3000) == 3);
    assert!(convert(TimeUnit::Millisecond, TimeUnit::Nanosecond, 1) == 1_000_000);
    assert!(convert(TimeUnit::Minute, TimeUnit::Nanosecond, 2) == 120_000_000_000);
    assert!(convert(TimeUnit::Day, TimeUnit::Minute, 5) == 7200);
    assert!(convert(TimeUnit::Day, TimeUnit::Nanosecond, 5) == (4.32e+14) as u64);
}

#[test]
fn test_timeunit_impl() {
    assert!(TimeUnit::Millisecond.to(TimeUnit::Second, 3000) == 3);
    assert!(TimeUnit::Millisecond.to(TimeUnit::Nanosecond, 1) == 1_000_000);
    assert!(TimeUnit::Minute.to(TimeUnit::Nanosecond, 2) == 120_000_000_000);
    assert!(TimeUnit::Day.to(TimeUnit::Minute, 5) == 7200);
    assert!(TimeUnit::Day.to(TimeUnit::Nanosecond, 5) == (4.32e+14) as u64);
}

#[test]
fn test_to_nano() {
    //Convert Units
    assert!(to_nano(TimeUnit::Millisecond, 1) == 1_000_000);
    assert!(to_nano(TimeUnit::Second, 1) == 1_000_000_000);
    assert!(to_nano(TimeUnit::Minute, 1) == 60_000_000_000);

    //Handles a non-one input
    assert!(to_nano(TimeUnit::Millisecond, 5) == 5_000_000);
    assert!(to_nano(TimeUnit::Second, 10) == 10_000_000_000);
    assert!(to_nano(TimeUnit::Minute, 2) == 120_000_000_000);
}

#[test]
fn test_from_nano() {
    //Convert Units
    assert!(from_nano(TimeUnit::Millisecond, 1_000_000) == 1);
    assert!(from_nano(TimeUnit::Second, 1_000_000_000) == 1);
    assert!(from_nano(TimeUnit::Minute, 60_000_000_000) == 1);

    //Handles a non-one input
    assert!(from_nano(TimeUnit::Millisecond, 5_000_000) == 5);
    assert!(from_nano(TimeUnit::Second, 10_000_000_000) == 10);
    assert!(from_nano(TimeUnit::Minute, 120_000_000_000) == 2);
}

#[test]
fn day_to_nanoseconds_is_exact() {
    assert_eq!(convert(TimeUnit::Day, TimeUnit::Nanosecond, 5), 432_000_000_000_000);
}

#[test]
fn one_of_each_unit_in_nanoseconds() {
    for index in 0..8 {
        assert_eq!(to_nano(ALL_UNITS[index], 1), NANOS_PER_UNIT[index]);
        assert_eq!(convert(ALL_UNITS[index], TimeUnit::Nanosecond, 1), NANOS_PER_UNIT[index]);
        assert_eq!(from_nano(ALL_UNITS[index], NANOS_PER_UNIT[index]), 1);
        assert_eq!(from_nano(ALL_UNITS[index], NANOS_PER_UNIT[index] - 1), 0);
    }
}

#[test]
fn each_rung_of_the_ladder() {
    assert_eq!(convert(TimeUnit::Millisecond, TimeUnit::Nanosecond, 1), 1_000_000);
    assert_eq!(convert(TimeUnit::Second, TimeUnit::Millisecond, 1), 1000);
    assert_eq!(convert(TimeUnit::Minute, TimeUnit::Second, 1), 60);
    assert_eq!(convert(TimeUnit::Hour, TimeUnit::Minute, 1), 60);
    assert_eq!(convert(TimeUnit::Day, TimeUnit::Hour, 1), 24);
    assert_eq!(convert(TimeUnit::Week, TimeUnit::Day, 1), 7);
    assert_eq!(convert(TimeUnit::Year, TimeUnit::Week, 1), 52);
}

#[test]
fn same_unit_returns_the_value() {
    for index in 0..8 {
        let largest = u64::MAX / NANOS_PER_UNIT[index];
        for value in [0, 1, 59, 1000, 123_456, largest] {
            if value <= largest {
                assert_eq!(convert(ALL_UNITS[index], ALL_UNITS[index], value), value);
            }
        }
    }
    assert_eq!(convert(TimeUnit::Nanosecond, TimeUnit::Nanosecond, u64::MAX), u64::MAX);
}

#[test]
fn same_unit_beyond_the_range_wraps() {
    // 1000 years are more nanoseconds than 64 bits hold.
    assert_eq!(convert(TimeUnit::Year, TimeUnit::Year, 1000), 413);
    let largest = u64::MAX / 31_449_600_000_000_000;
    assert_eq!(largest, 586);
    assert_eq!(convert(TimeUnit::Year, TimeUnit::Year, largest), largest);
    assert!(convert(TimeUnit::Year, TimeUnit::Year, largest + 1) != largest + 1);
}

#[test]
fn there_and_back_when_nothing_is_dropped() {
    // Finer to coarser and back, on whole multiples.
    let seconds = convert(TimeUnit::Millisecond, TimeUnit::Second, 3000);
    assert_eq!(seconds, 3);
    assert_eq!(convert(TimeUnit::Second, TimeUnit::Millisecond, seconds), 3000);
    let weeks = convert(TimeUnit::Hour, TimeUnit::Week, 336);
    assert_eq!(weeks, 2);
    assert_eq!(convert(TimeUnit::Week, TimeUnit::Hour, weeks), 336);
    // Coarser to finer and back never drops anything.
    for from in 0..8 {
        for to in 0..=from {
            for value in [0, 1, 7, 500] {
                let there = convert(ALL_UNITS[from], ALL_UNITS[to], value);
                assert_eq!(there, value * (NANOS_PER_UNIT[from] / NANOS_PER_UNIT[to]));
                assert_eq!(convert(ALL_UNITS[to], ALL_UNITS[from], there), value);
            }
        }
    }
}

#[test]
fn there_and_back_loses_the_remainder() {
    let seconds = convert(TimeUnit::Millisecond, TimeUnit::Second, 3500);
    assert_eq!(seconds, 3);
    assert_eq!(convert(TimeUnit::Second, TimeUnit::Millisecond, seconds), 3000);
}

#[test]
fn there_and_back_beyond_the_range_fails() {
    // 1000 * 2^54 milliseconds are a whole number of seconds, but their
    // nanosecond count does not fit in 64 bits.
    let millis: u64 = 1000 << 54;
    let seconds = convert(TimeUnit::Millisecond, TimeUnit::Second, millis);
    assert_eq!(seconds, 9_223_372_036);
    assert_eq!(
        convert(TimeUnit::Second, TimeUnit::Millisecond, seconds),
        9_223_372_036_000
    );
}

#[test]
fn coarser_unit_truncates_toward_zero() {
    assert_eq!(convert(TimeUnit::Millisecond, TimeUnit::Second, 2999), 2);
    assert_eq!(convert(TimeUnit::Millisecond, TimeUnit::Second, 999), 0);
    assert_eq!(convert(TimeUnit::Second, TimeUnit::Minute, 119), 1);
    assert_eq!(convert(TimeUnit::Day, TimeUnit::Week, 13), 1);
    assert_eq!(convert(TimeUnit::Week, TimeUnit::Year, 103), 1);
    assert_eq!(convert(TimeUnit::Nanosecond, TimeUnit::Year, u64::MAX), 586);
}

#[test]
fn to_nano_wraps_at_64_bits() {
    assert_eq!(to_nano(TimeUnit::Nanosecond, u64::MAX), u64::MAX);
    assert_eq!(to_nano(TimeUnit::Millisecond, u64::MAX), u64::MAX.wrapping_mul(1_000_000));
    assert_eq!(to_nano(TimeUnit::Year, 587), 587u64.wrapping_mul(31_449_600_000_000_000));
    assert_eq!(to_nano(TimeUnit::Second, 1 << 63), 0);
    assert_eq!(to_nano(TimeUnit::Year, 586), 18_429_465_600_000_000_000);
}

#[test]
fn units_are_plain_values() {
    let unit = TimeUnit::Hour;
    let copy = unit;
    assert_eq!(unit.to(TimeUnit::Minute, 2), copy.to(TimeUnit::Minute, 2));
    assert_eq!(format!("{:?}", unit.clone()), "Hour");
}
