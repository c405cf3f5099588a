//! Identifiers given as one unsigned integer.

use crate::digit::{all_digits, Digit};
use crate::error::{agrees, Reason, ValidationError};
use vstd::prelude::*;

verus! {

/// The least integer that needs more than ten decimal digits.
pub const LIMIT: u64 = 10_000_000_000;

/// The value of the decimal place at `index`, counted from the most
/// significant of ten.
pub open spec fn place(index: int) -> int {
    if index == 0 {
        1_000_000_000
    } else if index == 1 {
        100_000_000
    } else if index == 2 {
        10_000_000
    } else if index == 3 {
        1_000_000
    } else if index == 4 {
        100_000
    } else if index == 5 {
        10_000
    } else if index == 6 {
        1_000
    } else if index == 7 {
        100
    } else if index == 8 {
        10
    } else {
        1
    }
}

/// The ten decimal digits of `value`, most significant first, with leading
/// zeros where it is short.
pub open spec fn integer_digits(value: u64) -> Seq<Digit> {
    Seq::new(10, |i: int| ((value as int / place(i)) % 10) as Digit)
}

/// The ten digits that an integer spells, unless it needs more than ten.
pub open spec fn split(value: u64) -> Result<Seq<Digit>, Reason> {
    if value >= LIMIT {
        Err(Reason::Magnitude { value })
    } else {
        Ok(integer_digits(value))
    }
}

/// Splits an integer into the ten digits of an identifier.
pub fn split_integer(value: u64) -> (r: Result<[Digit; 10], ValidationError>)
    ensures
        agrees(r, split(value)),
        r matches Ok(digits) ==> all_digits(digits@),
{
    if value >= LIMIT {
        return Err(ValidationError::because(Reason::Magnitude { value }));
    }
    let mut digits: [Digit; 10] = [0;10];
    let mut idx: usize = 0;
    let mut div: u64 = 1_000_000_000;
    while idx < 10
        invariant
            idx <= 10,
            idx < 10 ==> div == place(idx as int),
            forall|i: int| 0 <= i < idx ==> digits[i] == integer_digits(value)[i],
        decreases 10 - idx,
    {
        digits[idx] = ((value / div) % 10) as Digit;
        div = div / 10;
        idx = idx + 1;
    }
    assert(digits@ =~= integer_digits(value));
    Ok(digits)
}

} // verus!
