//! The "Modulus 11" check digit.
//!
//! Nine digits are weighted 10, 9, ..., 2 from the most significant one, the
//! products are summed, and the check digit is what the sum lacks to the next
//! multiple of eleven. Where it lacks ten, the nine digits have no check digit.

use crate::digit::{all_digits, Digit};
use crate::error::{Reason, ValidationError};
use vstd::prelude::*;

verus! {

/// The weighted sum of the first `n` digits: the digit at index `i` counts
/// `10 - i` times.
pub open spec fn weighted_prefix(digits: Seq<Digit>, n: nat) -> int
    decreases n,
{
    if n == 0 {
        0
    } else {
        weighted_prefix(digits, (n - 1) as nat) + (10 - (n - 1)) * digits[n - 1]
    }
}

/// The weighted sum of nine digits: the weights run 10, 9, ..., 2.
pub open spec fn weighted_sum(digits: Seq<Digit>) -> int {
    10 * digits[0] + 9 * digits[1] + 8 * digits[2] + 7 * digits[3] + 6 * digits[4] + 5
        * digits[5] + 4 * digits[6] + 3 * digits[7] + 2 * digits[8]
}

/// Over nine digits the two sums are one.
pub proof fn lemma_weighted_prefix_whole(digits: Seq<Digit>)
    ensures
        weighted_prefix(digits, 9) == weighted_sum(digits),
{
    reveal_with_fuel(weighted_prefix, 10);
}

/// The check digit of nine digits, where they have one.
pub open spec fn check_digit_of(digits: Seq<Digit>) -> Option<Digit> {
    let candidate = 11 - weighted_sum(digits) % 11;
    if candidate == 11 {
        Some(0)
    } else if candidate == 10 {
        None
    } else {
        Some(candidate as Digit)
    }
}

/// Whether `id` is a whole identifier: ten decimal digits, the last of which
/// is the check digit of the nine before it.
pub open spec fn valid(id: Seq<Digit>) -> bool {
    &&& id.len() == 10
    &&& all_digits(id)
    &&& check_digit_of(id.take(9)) == Some(id[9])
}

/// The identifier made of nine digits and their check digit.
pub open spec fn construct(digits: Seq<Digit>) -> Result<Seq<Digit>, Reason> {
    match check_digit_of(digits) {
        Some(c) => Ok(digits.push(c)),
        None => Err(Reason::ChecksumDomain),
    }
}

/// The identifier that ten digits spell, once the tenth has been held against
/// the check digit of the first nine.
pub open spec fn verify(digits: Seq<Digit>) -> Result<Seq<Digit>, Reason> {
    match check_digit_of(digits.take(9)) {
        Some(c) => if c == digits[9] {
            Ok(digits)
        } else {
            Err(Reason::ChecksumMismatch { given: digits[9], actual: c })
        },
        None => Err(Reason::ChecksumDomain),
    }
}

/// The weighted sum of `n <= 10` decimal digits lies between 0 and `90 * n`.
pub proof fn lemma_weighted_prefix_bounds(digits: Seq<Digit>, n: nat)
    requires
        n <= 10,
        n <= digits.len(),
        all_digits(digits),
    ensures
        0 <= weighted_prefix(digits, n) <= 90 * n,
    decreases n,
{
    if n > 0 {
        lemma_weighted_prefix_bounds(digits, (n - 1) as nat);
        let w: int = 10 - (n - 1);
        let d: int = digits[n - 1] as int;
        assert(0 <= w * d <= 90) by (nonlinear_arith)
            requires
                0 <= w <= 10,
                0 <= d <= 9,
        ;
    }
}

/// A check digit is a decimal digit.
pub proof fn lemma_check_digit_is_digit(digits: Seq<Digit>)
    requires
        digits.len() == 9,
        all_digits(digits),
    ensures
        check_digit_of(digits) matches Some(c) ==> c <= 9,
        check_digit_of(digits) is None <==> weighted_sum(digits) % 11 == 1,
{
    lemma_weighted_prefix_bounds(digits, 9);
    lemma_weighted_prefix_whole(digits);
}

/// Nine decimal digits make an identifier exactly when their weighted sum
/// does not leave 1 on division by eleven, and what they make is valid and
/// begins with them. The same digits always make the same identifier.
pub proof fn lemma_construct(digits: Seq<Digit>)
    requires
        digits.len() == 9,
        all_digits(digits),
    ensures
        construct(digits) is Ok <==> weighted_sum(digits) % 11 != 1,
        construct(digits) is Err ==> construct(digits) == Err::<Seq<Digit>, Reason>(
            Reason::ChecksumDomain,
        ),
        construct(digits) matches Ok(id) ==> valid(id) && id.take(9) == digits,
{
    lemma_check_digit_is_digit(digits);
    if let Ok(id) = construct(digits) {
        assert(id.take(9) =~= digits);
    }
}

/// Ten digits are accepted exactly when they are a valid identifier, and
/// then they are what is returned.
pub proof fn lemma_verify(id: Seq<Digit>)
    requires
        id.len() == 10,
        all_digits(id),
    ensures
        verify(id) is Ok <==> valid(id),
        verify(id) is Ok ==> verify(id) == Ok::<Seq<Digit>, Reason>(id),
{
}

/// Nine digits followed by their own check digit are accepted, and give the
/// identifier that the nine digits make.
pub proof fn lemma_verify_accepts_own_check_digit(digits: Seq<Digit>)
    requires
        digits.len() == 9,
        all_digits(digits),
        weighted_sum(digits) % 11 != 1,
    ensures
        construct(digits) is Ok,
        verify(construct(digits).unwrap()) == construct(digits),
{
    lemma_construct(digits);
}

/// Nine digits followed by any other digit than their check digit are
/// refused, and the refusal names both.
pub proof fn lemma_verify_refuses_other_check_digit(digits: Seq<Digit>, control: Digit)
    requires
        digits.len() == 9,
        all_digits(digits),
        weighted_sum(digits) % 11 != 1,
        Some(control) != check_digit_of(digits),
    ensures
        verify(digits.push(control)) == Err::<Seq<Digit>, Reason>(
            Reason::ChecksumMismatch {
                given: control,
                actual: check_digit_of(digits).unwrap(),
            },
        ),
{
    lemma_check_digit_is_digit(digits);
    assert(digits.push(control).take(9) =~= digits);
}

/// Computes the check digit of nine digits.
pub fn check_digit(digits: &[Digit; 9]) -> (r: Result<Digit, ValidationError>)
    requires
        all_digits(digits@),
    ensures
        match check_digit_of(digits@) {
            Some(c) => r == Ok::<Digit, ValidationError>(c),
            None => r matches Err(e) && e.states(Reason::ChecksumDomain),
        },
{
    let mut sum: u16 = 0;
    let mut idx: usize = 0;
    while idx < 9
        invariant
            idx <= 9,
            all_digits(digits@),
            sum == weighted_prefix(digits@, idx as nat),
            sum <= 90 * idx,
        decreases 9 - idx,
    {
        let weight: u16 = 10 - idx as u16;
        let digit: u16 = digits[idx];
        assert(weight * digit <= 90) by (nonlinear_arith)
            requires
                weight <= 10,
                digit <= 9,
        ;
        sum = sum + weight * digit;
        idx = idx + 1;
    }
    proof {
        lemma_weighted_prefix_whole(digits@);
    }
    let candidate: u16 = 11 - sum % 11;
    if candidate == 11 {
        Ok(0)
    } else if candidate == 10 {
        Err(ValidationError::because(Reason::ChecksumDomain))
    } else {
        Ok(candidate)
    }
}

} // verus!
