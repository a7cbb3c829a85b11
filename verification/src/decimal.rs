//! Whole numbers written in decimal, for the messages of errors.

use crate::timestamp::digit_char;
use vstd::prelude::*;
use vstd::string::StringExecFns;

verus! {

/// The digits of a number that is not negative, without leading zeros.
pub open spec fn digits(n: nat) -> Seq<char>
    decreases n,
{
    if n < 10 {
        seq![digit_char(n as int)]
    } else {
        digits(n / 10) + seq![digit_char((n % 10) as int)]
    }
}

/// A whole number in decimal: its digits, after a minus sign where it lies
/// below zero.
pub open spec fn decimal_text(value: int) -> Seq<char> {
    if value < 0 {
        seq!['-'] + digits((-value) as nat)
    } else {
        digits(value as nat)
    }
}

/// The digit for a number from 0 to 9, as a text of one character.
fn digit_text(d: u32) -> (text: &'static str)
    requires
        d <= 9,
    ensures
        text@ == seq![digit_char(d as int)],
{
    proof {
        reveal_strlit("0");
        reveal_strlit("1");
        reveal_strlit("2");
        reveal_strlit("3");
        reveal_strlit("4");
        reveal_strlit("5");
        reveal_strlit("6");
        reveal_strlit("7");
        reveal_strlit("8");
        reveal_strlit("9");
    }
    let text = if d == 0 {
        "0"
    } else if d == 1 {
        "1"
    } else if d == 2 {
        "2"
    } else if d == 3 {
        "3"
    } else if d == 4 {
        "4"
    } else if d == 5 {
        "5"
    } else if d == 6 {
        "6"
    } else if d == 7 {
        "7"
    } else if d == 8 {
        "8"
    } else {
        "9"
    };
    assert(text@ =~= seq![digit_char(d as int)]);
    text
}

/// Appends the digits of `n` to `text`.
fn push_digits(text: &mut String, n: u32)
    ensures
        final(text)@ == old(text)@ + digits(n as nat),
    decreases n,
{
    if n >= 10 {
        push_digits(text, n / 10);
    }
    text.append(digit_text(n % 10));
}

/// Appends `value` in decimal to `text`.
pub fn push_decimal(text: &mut String, value: i16)
    ensures
        final(text)@ == old(text)@ + decimal_text(value as int),
{
    let wide: i32 = value as i32;
    if wide < 0 {
        proof {
            reveal_strlit("-");
        }
        text.append("-");
        assert("-"@ =~= seq!['-']);
        push_digits(text, (-wide) as u32);
        assert(final(text)@ =~= old(text)@ + decimal_text(value as int));
    } else {
        push_digits(text, wide as u32);
    }
}

} // verus!
