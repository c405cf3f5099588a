//! Decimal digits and the text that writes them.

use vstd::prelude::*;
use vstd::string::*;

verus! {

/// A digit can be from 0 to 9.
pub type Digit = u16;

/// Whether every element of `s` is a decimal digit.
pub open spec fn all_digits(s: Seq<Digit>) -> bool {
    forall|i: int| 0 <= i < s.len() ==> s[i] <= 9
}

/// The character that writes the digit `d`.
pub open spec fn digit_char(d: int) -> char {
    ('0' as int + d) as char
}

/// The digit that the character `c` writes, if it writes one.
pub open spec fn digit_value(c: char) -> Option<Digit> {
    if '0' <= c <= '9' {
        Some((c as int - '0' as int) as Digit)
    } else {
        None
    }
}

/// The characters of `digits`, one for each digit and in the same order.
pub open spec fn digit_chars(digits: Seq<Digit>) -> Seq<char> {
    Seq::new(digits.len(), |i: int| digit_char(digits[i] as int))
}

/// The decimal numeral of `n`, without leading zeros.
pub open spec fn decimal(n: nat) -> Seq<char>
    decreases n,
{
    if n < 10 {
        seq![digit_char(n as int)]
    } else {
        decimal(n / 10).push(digit_char((n % 10) as int))
    }
}

/// Reads one character as a decimal digit.
pub fn to_digit(c: char) -> (r: Option<Digit>)
    ensures
        r == digit_value(c),
{
    if '0' <= c && c <= '9' {
        Some((c as u32 - '0' as u32) as Digit)
    } else {
        None
    }
}

/// The one-character text of a digit.
pub fn digit_str(d: Digit) -> (s: &'static str)
    requires
        d <= 9,
    ensures
        s@ == seq![digit_char(d as int)],
{
    proof {
        reveal_strlit("0");
        reveal_strlit("1");
        reveal_strlit("2");
        reveal_strlit("3");
        reveal_strlit("4");
        reveal_strlit("5");
        reveal_strlit("6");
        reveal_strlit("7");
        reveal_strlit("8");
        reveal_strlit("9");
    }
    match d {
        0 => "0",
        1 => "1",
        2 => "2",
        3 => "3",
        4 => "4",
        5 => "5",
        6 => "6",
        7 => "7",
        8 => "8",
        _ => "9",
    }
}

/// Appends the decimal numeral of `n` to `out`.
pub fn push_decimal(out: &mut String, n: u64)
    ensures
        final(out)@ == old(out)@ + decimal(n as nat),
    decreases n,
{
    if n >= 10 {
        push_decimal(out, n / 10);
    }
    out.append(digit_str((n % 10) as Digit));
}

} // verus!
