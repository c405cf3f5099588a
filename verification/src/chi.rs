//! The CHI Number (Community Health Index) is a unique number allocated to
//! every patient registered with the NHS in Scotland.
//!
//! A CHI Number is always 10 digits long. The first 6 digits are the date of
//! birth as `DDMMYY`. The next 2 digits are random between 0 and 9. The 9th
//! digit is random as well but it is always even for females and odd for males.
//!
//! The last digit of the number is the "check digit" to aid in integrity checks.

use crate::digit::all_digits;
use crate::error::{agrees, Reason, ValidationError};
use crate::integer::{split, split_integer};
use crate::modulus11;
use crate::number;
use crate::number::significant;
use crate::text::{glyph_of, read_digits, scan, written, Format, Glyph};
use crate::text::{lemma_scan_passes_over_space, lemma_scan_written};
use vstd::prelude::*;

verus! {

/// A digit can be from 0 to 9.
pub type Digit = crate::digit::Digit;

/// The day of birth that the digits begin with.
pub open spec fn day(digits: Seq<Digit>) -> int {
    digits[0] * 10 + digits[1]
}

/// The month of birth that follows the day.
pub open spec fn month(digits: Seq<Digit>) -> int {
    digits[2] * 10 + digits[3]
}

/// Whether the day lies in 1..=31 and the month in 1..=12. No calendar is
/// asked whether that month has that day.
pub open spec fn date_in_bounds(digits: Seq<Digit>) -> bool {
    1 <= day(digits) <= 31 && 1 <= month(digits) <= 12
}

/// Whether `id` is a whole CHI Number: a valid identifier that begins with a
/// date in bounds.
pub open spec fn valid(id: Seq<Digit>) -> bool {
    modulus11::valid(id) && date_in_bounds(id)
}

/// The CHI Number made of nine digits and their check digit. The date is
/// looked at first.
pub open spec fn construct(digits: Seq<Digit>) -> Result<Seq<Digit>, Reason> {
    if date_in_bounds(digits) {
        modulus11::construct(digits)
    } else {
        Err(Reason::DateRange)
    }
}

/// The CHI Number that ten digits spell. The date is looked at first, the
/// check digit after it.
pub open spec fn verify(digits: Seq<Digit>) -> Result<Seq<Digit>, Reason> {
    if date_in_bounds(digits) {
        modulus11::verify(digits)
    } else {
        Err(Reason::DateRange)
    }
}

/// The CHI Number that a text spells.
pub open spec fn parse(text: Seq<char>) -> Result<Seq<Digit>, Reason> {
    match scan(text) {
        Ok(digits) => verify(digits),
        Err(reason) => Err(reason),
    }
}

/// The CHI Number that an integer spells.
pub open spec fn parse_integer(value: u64) -> Result<Seq<Digit>, Reason> {
    match split(value) {
        Ok(digits) => verify(digits),
        Err(reason) => Err(reason),
    }
}

/// A date out of bounds is refused whatever the other digits are, and so
/// whether or not they have a check digit.
pub proof fn lemma_date_comes_first(digits: Seq<Digit>)
    requires
        !date_in_bounds(digits),
    ensures
        construct(digits) == Err::<Seq<Digit>, Reason>(Reason::DateRange),
        verify(digits) == Err::<Seq<Digit>, Reason>(Reason::DateRange),
{
}

/// Ten digits are accepted exactly when they are a valid CHI Number, and
/// then they are what is returned.
pub proof fn lemma_verify(id: Seq<Digit>)
    requires
        id.len() == 10,
        all_digits(id),
    ensures
        verify(id) is Ok <==> valid(id),
        verify(id) is Ok ==> verify(id) == Ok::<Seq<Digit>, Reason>(id),
{
}

/// Reading a valid CHI Number back from its text gives the number.
pub proof fn lemma_parse_written(id: Seq<Digit>)
    requires
        valid(id),
    ensures
        parse(written(id, Format::Compact)) == Ok::<Seq<Digit>, Reason>(id),
{
    lemma_scan_written(id, Format::Compact);
}

/// Whitespace does not change what a text spells, wherever it stands.
pub proof fn lemma_parse_passes_over_space(a: Seq<char>, c: char, b: Seq<char>)
    requires
        glyph_of(c) == Glyph::Space,
    ensures
        parse(a + seq![c] + b) == parse(a + b),
{
    lemma_scan_passes_over_space(a, c, b);
}

/// Checks the date boundaries.
///
/// The check is coarse: it knows neither the length of each month nor leap
/// years.
pub fn validate(digits: &[Digit; 9]) -> (r: Result<(), ValidationError>)
    requires
        all_digits(digits@),
    ensures
        date_in_bounds(digits@) ==> r is Ok,
        !date_in_bounds(digits@) ==> (r matches Err(e) && e.states(Reason::DateRange)),
{
    let day: u16 = digits[0] * 10 + digits[1];
    let month: u16 = digits[2] * 10 + digits[3];
    if day == 0 || day > 31 || month == 0 || month > 12 {
        return Err(ValidationError::because(Reason::DateRange));
    }
    Ok(())
}

/// A CHI Number: nine digits that begin with a date of birth, and their
/// check digit.
#[derive(PartialEq, Eq, Clone, Copy, Debug)]
pub struct Number(number::Number);

impl View for Number {
    type V = Seq<Digit>;

    /// The ten digits, most significant first, the check digit last.
    closed spec fn view(&self) -> Seq<Digit> {
        self.0@
    }
}

impl Number {
    /// What holds of every CHI `Number`.
    #[verifier::type_invariant]
    pub open spec fn wf(self) -> bool {
        valid(self@)
    }

    /// Two numbers with the same digits are the same number.
    pub proof fn lemma_view_injective(self, other: Number)
        requires
            self@ == other@,
        ensures
            self == other,
    {
        self.0.lemma_view_injective(other.0);
    }

    /// Creates a new Number from the main 9 digits.
    pub fn new(digits: [Digit; 9]) -> (r: Result<Self, ValidationError>)
        requires
            all_digits(digits@),
        ensures
            agrees(r, construct(digits@)),
    {
        match validate(&digits) {
            Ok(()) => {},
            Err(e) => {
                return Err(e);
            },
        }
        match number::Number::new(digits) {
            Ok(number) => {
                proof {
                    use_type_invariant(number);
                }
                Ok(Number(number))
            },
            Err(e) => Err(e),
        }
    }

    /// Converts ten digits into a [`Number`], holding the tenth against the
    /// check digit of the first nine.
    pub fn from_digits(value: &[Digit; 10]) -> (r: Result<Self, ValidationError>)
        requires
            all_digits(value@.take(9)),
        ensures
            agrees(r, verify(value@)),
    {
        match validate(&significant(value)) {
            Ok(()) => {},
            Err(e) => {
                return Err(e);
            },
        }
        match number::Number::from_digits(value) {
            Ok(number) => {
                proof {
                    use_type_invariant(number);
                }
                Ok(Number(number))
            },
            Err(e) => Err(e),
        }
    }

    /// Converts a string slice of 10 digits into a [`Number`]. Whitespace
    /// between the digits is passed over.
    pub fn from_str(s: &str) -> (r: Result<Self, ValidationError>)
        ensures
            agrees(r, parse(s@)),
    {
        match read_digits(s) {
            Ok(digits) => Number::from_digits(&digits),
            Err(e) => Err(e),
        }
    }

    /// Converts a string of 10 digits into a [`Number`].
    pub fn from_string(value: String) -> (r: Result<Self, ValidationError>)
        ensures
            agrees(r, parse(value@)),
    {
        Number::from_str(value.as_str())
    }

    /// Converts an unsigned integer into a [`Number`].
    pub fn from_integer(value: u64) -> (r: Result<Self, ValidationError>)
        ensures
            agrees(r, parse_integer(value)),
    {
        match split_integer(value) {
            Ok(digits) => Number::from_digits(&digits),
            Err(e) => Err(e),
        }
    }

    /// Writes the ten digits with nothing between them: a CHI Number has no
    /// other layout.
    pub fn display(&self) -> (s: String)
        ensures
            s@ == written(self@, Format::Compact),
    {
        self.0.display(Format::Compact)
    }

    /// The check digit.
    pub fn checkdigit(&self) -> (c: &Digit)
        ensures
            *c == self@[9],
            Some(*c) == modulus11::check_digit_of(self@.take(9)),
    {
        self.0.checkdigit()
    }

    /// The nine significant digits.
    pub fn digits(&self) -> (d: &[Digit; 9])
        ensures
            d@ == self@.take(9),
            all_digits(d@),
            date_in_bounds(d@),
    {
        proof {
            use_type_invariant(self);
        }
        self.0.digits()
    }
}

} // verus!
