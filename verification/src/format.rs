//! Rendering of an elapsed millisecond count for people to read.
//!
//! The rendering is `M:SS.f` once a full minute has passed and `S.f` before
//! that. `f` is the fraction of the current second: its three millisecond
//! digits with trailing zeros dropped, of which at least one digit is always
//! written, so a whole second ends in `.0`.

use vstd::prelude::*;
use vstd::string::*;

verus! {

/// The character that writes a single decimal digit.
pub open spec fn digit_char(digit: nat) -> char
    recommends
        digit < 10,
{
    seq!['0', '1', '2', '3', '4', '5', '6', '7', '8', '9'][digit as int]
}

/// The decimal numeral of `number`, without leading zeros.
pub open spec fn decimal(number: nat) -> Seq<char>
    decreases number,
{
    if number < 10 {
        seq![digit_char(number)]
    } else {
        decimal(number / 10).push(digit_char(number % 10))
    }
}

/// The digits after the decimal point for `millis` thousandths of a second:
/// hundreds, tens and ones, cut after the last digit that is not zero, but
/// never shorter than one digit.
pub open spec fn fraction_digits(millis: nat) -> Seq<char>
    recommends
        millis < 1000,
{
    let tenths = digit_char(millis / 100);
    let hundredths = digit_char(millis / 10 % 10);
    let thousandths = digit_char(millis % 10);
    if millis % 10 != 0 {
        seq![tenths, hundredths, thousandths]
    } else if millis % 100 != 0 {
        seq![tenths, hundredths]
    } else {
        seq![tenths]
    }
}

/// The seconds field: plain before the first full minute, padded to two
/// digits after it.
pub open spec fn seconds_digits(minutes: nat, seconds: nat) -> Seq<char> {
    if minutes > 0 && seconds < 10 {
        seq!['0'] + decimal(seconds)
    } else {
        decimal(seconds)
    }
}

/// The rendering of `millis` elapsed milliseconds.
pub open spec fn format_spec(millis: nat) -> Seq<char> {
    let minutes = millis / 60_000;
    let seconds = millis / 1000 % 60;
    let tail = seconds_digits(minutes, seconds) + seq!['.'] + fraction_digits(millis % 1000);
    if minutes > 0 {
        decimal(minutes) + seq![':'] + tail
    } else {
        tail
    }
}

/// Appends the character of one decimal digit to `text`.
fn push_digit(text: &mut String, digit: u64)
    requires
        digit < 10,
    ensures
        final(text)@ == old(text)@.push(digit_char(digit as nat)),
{
    proof {
        reveal_strlit("0");
        reveal_strlit("1");
        reveal_strlit("2");
        reveal_strlit("3");
        reveal_strlit("4");
        reveal_strlit("5");
        reveal_strlit("6");
        reveal_strlit("7");
        reveal_strlit("8");
        reveal_strlit("9");
    }
    let numeral = match digit {
        0 => "0",
        1 => "1",
        2 => "2",
        3 => "3",
        4 => "4",
        5 => "5",
        6 => "6",
        7 => "7",
        8 => "8",
        _ => "9",
    };
    assert(numeral@ =~= seq![digit_char(digit as nat)]);
    text.append(numeral);
}

/// Appends the decimal numeral of `number` to `text`.
fn push_decimal(text: &mut String, number: u64)
    ensures
        final(text)@ == old(text)@ + decimal(number as nat),
    decreases number,
{
    if number >= 10 {
        push_decimal(text, number / 10);
    }
    push_digit(text, number % 10);
}

/// Appends the fraction digits of `millis` thousandths of a second to `text`.
fn push_fraction(text: &mut String, millis: u64)
    requires
        millis < 1000,
    ensures
        final(text)@ == old(text)@ + fraction_digits(millis as nat),
{
    push_digit(text, millis / 100);
    if millis % 100 != 0 {
        push_digit(text, millis / 10 % 10);
    }
    if millis % 10 != 0 {
        push_digit(text, millis % 10);
    }
}

/// Renders `millis` elapsed milliseconds as `M:SS.f`, or as `S.f` while no
/// full minute has passed.
pub fn format_millis(millis: u64) -> (text: String)
    ensures
        text@ == format_spec(millis as nat),
{
    proof {
        reveal_strlit(":");
        reveal_strlit(".");
    }
    let minutes: u64 = millis / 60_000;
    let seconds: u64 = millis / 1000 % 60;
    let mut text = String::new();
    if minutes > 0 {
        push_decimal(&mut text, minutes);
        text.append(":");
        if seconds < 10 {
            push_digit(&mut text, 0);
        }
    }
    push_decimal(&mut text, seconds);
    text.append(".");
    push_fraction(&mut text, millis % 1000);
    text
}

} // verus!
