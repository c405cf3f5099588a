//! A generic identifier of 9 digits plus a check digit.

use crate::digit::{all_digits, digit_chars};
use crate::error::{agrees, Reason, ValidationError};
use crate::integer::{integer_digits, split, split_integer, LIMIT};
use crate::modulus11::lemma_check_digit_is_digit;
use crate::modulus11::{check_digit, check_digit_of, construct, valid, verify};
use crate::text::{glyph_of, read_digits, scan, write_digits, written, Format, Glyph};
use crate::text::{lemma_digits_in_digit_chars, lemma_scan_passes_over_space, lemma_scan_written};
use vstd::prelude::*;

verus! {

/// A digit can be from 0 to 9.
pub type Digit = crate::digit::Digit;

/// The identifier that a text spells.
pub open spec fn parse(text: Seq<char>) -> Result<Seq<Digit>, Reason> {
    match scan(text) {
        Ok(digits) => verify(digits),
        Err(reason) => Err(reason),
    }
}

/// The identifier that an integer spells.
pub open spec fn parse_integer(value: u64) -> Result<Seq<Digit>, Reason> {
    match split(value) {
        Ok(digits) => verify(digits),
        Err(reason) => Err(reason),
    }
}

/// Reading a valid identifier back from its text, in either layout, gives
/// the identifier.
pub proof fn lemma_parse_written(id: Seq<Digit>, format: Format)
    requires
        valid(id),
    ensures
        parse(written(id, format)) == Ok::<Seq<Digit>, Reason>(id),
{
    lemma_scan_written(id, format);
}

/// Whitespace does not change what a text spells, wherever it stands.
pub proof fn lemma_parse_passes_over_space(a: Seq<char>, c: char, b: Seq<char>)
    requires
        glyph_of(c) == Glyph::Space,
    ensures
        parse(a + seq![c] + b) == parse(a + b),
{
    lemma_scan_passes_over_space(a, c, b);
}

/// An integer reads as its ten-digit numeral does.
pub proof fn lemma_parse_integer_as_text(value: u64)
    requires
        value < LIMIT,
    ensures
        parse(digit_chars(integer_digits(value))) == parse_integer(value),
{
    lemma_digits_in_digit_chars(integer_digits(value));
}

/// The nine significant digits of ten: all but the last.
pub fn significant(value: &[Digit; 10]) -> (digits: [Digit; 9])
    ensures
        digits@ == value@.take(9),
{
    let mut digits: [Digit; 9] = [0;9];
    let mut idx: usize = 0;
    while idx < 9
        invariant
            idx <= 9,
            forall|i: int| 0 <= i < idx ==> digits[i] == value[i],
        decreases 9 - idx,
    {
        digits[idx] = value[idx];
        idx = idx + 1;
    }
    assert(digits@ =~= value@.take(9));
    digits
}

/// Nine significant digits and the check digit that belongs to them.
///
/// A `Number` cannot be built in any other state: its digits are decimal and
/// its check digit is the one its other digits call for.
#[derive(PartialEq, Eq, Clone, Copy, Debug)]
pub struct Number {
    digits: [Digit; 9],
    checkdigit: Digit,
}

impl View for Number {
    type V = Seq<Digit>;

    /// The ten digits, most significant first, the check digit last.
    closed spec fn view(&self) -> Seq<Digit> {
        self.digits@.push(self.checkdigit)
    }
}

impl Number {
    /// What holds of every `Number`.
    #[verifier::type_invariant]
    pub open spec fn wf(self) -> bool {
        valid(self@)
    }

    /// Two numbers with the same digits are the same number.
    pub proof fn lemma_view_injective(self, other: Number)
        requires
            self@ == other@,
        ensures
            self == other,
    {
        assert(self.checkdigit == self@[9]);
        assert(other.checkdigit == other@[9]);
        assert forall|i: int| 0 <= i < 9 implies self.digits[i] == other.digits[i] by {
            assert(self.digits[i] == self@[i]);
            assert(other.digits[i] == other@[i]);
        }
        assert(self.digits =~= other.digits);
    }

    /// Creates a new Number from the main 9 digits.
    pub fn new(digits: [Digit; 9]) -> (r: Result<Self, ValidationError>)
        requires
            all_digits(digits@),
        ensures
            agrees(r, construct(digits@)),
    {
        match check_digit(&digits) {
            Ok(checkdigit) => {
                proof {
                    lemma_check_digit_is_digit(digits@);
                    assert(digits@.push(checkdigit).take(9) =~= digits@);
                }
                Ok(Number { digits, checkdigit })
            },
            Err(e) => Err(e),
        }
    }

    /// Converts ten digits into a [`Number`], holding the tenth against the
    /// check digit of the first nine.
    pub fn from_digits(value: &[Digit; 10]) -> (r: Result<Self, ValidationError>)
        requires
            all_digits(value@.take(9)),
        ensures
            agrees(r, verify(value@)),
    {
        let control: Digit = value[9];
        match Number::new(significant(value)) {
            Ok(number) => {
                assert(number.checkdigit == number@[9]);
                if number.checkdigit != control {
                    Err(
                        ValidationError::because(
                            Reason::ChecksumMismatch { given: control, actual: number.checkdigit },
                        ),
                    )
                } else {
                    assert(number@ =~= value@);
                    Ok(number)
                }
            },
            Err(e) => Err(e),
        }
    }

    /// Converts a string slice of 10 digits into a [`Number`]. Whitespace
    /// between the digits is passed over.
    pub fn from_str(s: &str) -> (r: Result<Self, ValidationError>)
        ensures
            agrees(r, parse(s@)),
    {
        match read_digits(s) {
            Ok(digits) => Number::from_digits(&digits),
            Err(e) => Err(e),
        }
    }

    /// Converts a string of 10 digits into a [`Number`].
    pub fn from_string(value: String) -> (r: Result<Self, ValidationError>)
        ensures
            agrees(r, parse(value@)),
    {
        Number::from_str(value.as_str())
    }

    /// Converts an unsigned integer into a [`Number`].
    pub fn from_integer(value: u64) -> (r: Result<Self, ValidationError>)
        ensures
            agrees(r, parse_integer(value)),
    {
        match split_integer(value) {
            Ok(digits) => Number::from_digits(&digits),
            Err(e) => Err(e),
        }
    }

    /// Writes the number in the given layout.
    pub fn display(&self, format: Format) -> (s: String)
        ensures
            s@ == written(self@, format),
    {
        proof {
            use_type_invariant(self);
            assert(all_digits(self.digits@)) by {
                assert forall|i: int| 0 <= i < 9 implies self.digits@[i] <= 9 by {
                    assert(self.digits@[i] == self@[i]);
                }
            }
            assert(self.checkdigit == self@[9]);
        }
        write_digits(&self.digits, self.checkdigit, format)
    }

    /// The check digit.
    pub fn checkdigit(&self) -> (c: &Digit)
        ensures
            *c == self@[9],
            Some(*c) == check_digit_of(self@.take(9)),
    {
        proof {
            use_type_invariant(self);
        }
        &self.checkdigit
    }

    /// The nine significant digits.
    pub fn digits(&self) -> (d: &[Digit; 9])
        ensures
            d@ == self@.take(9),
            all_digits(d@),
    {
        proof {
            use_type_invariant(self);
            assert(self.digits@ =~= self@.take(9));
        }
        &self.digits
    }
}

} // verus!
