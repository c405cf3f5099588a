//! The NHS Number is a unique number allocated to every patient registered with
//! the NHS in England, Wales and the Isle of Man.
//!
//! In short, an NHS Number is always 10 digits long sometimes formatted in a
//! 3-3-4 manner. For example, `6541003238` can be presented as `654 100 3238`.
//!
//! The last digit of the number is the "check digit" to aid in integrity checks.

use crate::digit::all_digits;
use crate::error::{agrees, Reason, ValidationError};
use crate::modulus11::{check_digit_of, construct, lemma_construct, valid, verify};
use crate::number;
use crate::number::{parse, parse_integer};
use crate::source::{DigitSource, ThreadDigits};
use crate::text::{written, Format};
use vstd::prelude::*;

verus! {

/// A digit can be from 0 to 9.
pub type Digit = crate::digit::Digit;

/// How many times nine digits are drawn before a lottery gives up.
pub const ATTEMPTS: usize = 100;

/// Represents an NHS Number as a list of 9 digits (`Number.digits()`) plus 1
/// check digit (`Number.checkdigit()`).
#[derive(PartialEq, Eq, Clone, Copy, Debug)]
pub struct Number(number::Number);

impl View for Number {
    type V = Seq<Digit>;

    /// The ten digits, most significant first, the check digit last.
    closed spec fn view(&self) -> Seq<Digit> {
        self.0@
    }
}

impl Number {
    /// What holds of every NHS `Number`.
    #[verifier::type_invariant]
    pub open spec fn wf(self) -> bool {
        valid(self@)
    }

    /// Two numbers with the same digits are the same number.
    pub proof fn lemma_view_injective(self, other: Number)
        requires
            self@ == other@,
        ensures
            self == other,
    {
        self.0.lemma_view_injective(other.0);
    }

    /// Creates a new Number from the main 9 digits.
    pub fn new(digits: [Digit; 9]) -> (r: Result<Self, ValidationError>)
        requires
            all_digits(digits@),
        ensures
            agrees(r, construct(digits@)),
    {
        match number::Number::new(digits) {
            Ok(number) => {
                proof {
                    use_type_invariant(number);
                }
                Ok(Number(number))
            },
            Err(e) => Err(e),
        }
    }

    /// Converts ten digits into a [`Number`], holding the tenth against the
    /// check digit of the first nine.
    pub fn from_digits(value: &[Digit; 10]) -> (r: Result<Self, ValidationError>)
        requires
            all_digits(value@.take(9)),
        ensures
            agrees(r, verify(value@)),
    {
        match number::Number::from_digits(value) {
            Ok(number) => {
                proof {
                    use_type_invariant(number);
                }
                Ok(Number(number))
            },
            Err(e) => Err(e),
        }
    }

    /// Converts a string slice of 10 digits into a [`Number`]. Whitespace
    /// between the digits is passed over.
    pub fn from_str(s: &str) -> (r: Result<Self, ValidationError>)
        ensures
            agrees(r, parse(s@)),
    {
        match number::Number::from_str(s) {
            Ok(number) => {
                proof {
                    use_type_invariant(number);
                }
                Ok(Number(number))
            },
            Err(e) => Err(e),
        }
    }

    /// Converts a string of 10 digits into a [`Number`].
    pub fn from_string(value: String) -> (r: Result<Self, ValidationError>)
        ensures
            agrees(r, parse(value@)),
    {
        Number::from_str(value.as_str())
    }

    /// Converts an unsigned integer into a [`Number`].
    pub fn from_integer(value: u64) -> (r: Result<Self, ValidationError>)
        ensures
            agrees(r, parse_integer(value)),
    {
        match number::Number::from_integer(value) {
            Ok(number) => {
                proof {
                    use_type_invariant(number);
                }
                Ok(Number(number))
            },
            Err(e) => Err(e),
        }
    }

    /// Writes the number in the given layout.
    pub fn display(&self, format: Format) -> (s: String)
        ensures
            s@ == written(self@, format),
    {
        self.0.display(format)
    }

    /// The check digit.
    pub fn checkdigit(&self) -> (c: &Digit)
        ensures
            *c == self@[9],
            Some(*c) == check_digit_of(self@.take(9)),
    {
        self.0.checkdigit()
    }

    /// The nine significant digits.
    pub fn digits(&self) -> (d: &[Digit; 9])
        ensures
            d@ == self@.take(9),
            all_digits(d@),
    {
        self.0.digits()
    }
}

/// What a lottery yields from the digits `tape`, drawn nine at a time in at
/// most `attempts` draws: the first identifier that nine of them make, or a
/// failure once every draw has failed. `None` where the tape ends before
/// that is settled.
pub open spec fn drawn(tape: Seq<Digit>, attempts: nat) -> Option<Result<Seq<Digit>, Reason>>
    decreases attempts,
{
    if attempts == 0 {
        Some(Err(Reason::ChecksumDomain))
    } else if tape.len() < 9 {
        None
    } else {
        match construct(tape.take(9)) {
            Ok(id) => Some(Ok(id)),
            Err(_) => drawn(tape.skip(9), (attempts - 1) as nat),
        }
    }
}

/// What a lottery leaves of the digits `tape`: it draws nine at a time, and
/// nothing more once nine of them have made an identifier or its `attempts`
/// are spent. Where the tape ends before that, what is left of it is not
/// told apart from the draw that it could not fill.
pub open spec fn undrawn(tape: Seq<Digit>, attempts: nat) -> Seq<Digit>
    decreases attempts,
{
    if attempts == 0 || tape.len() < 9 {
        tape
    } else {
        match construct(tape.take(9)) {
            Ok(_) => tape.skip(9),
            Err(_) => undrawn(tape.skip(9), (attempts - 1) as nat),
        }
    }
}

/// Draws nine digits.
pub fn draw<S: DigitSource>(source: &mut S) -> (digits: [Digit; 9])
    ensures
        all_digits(digits@),
        old(source).foreseen().len() >= 9 ==> digits@ == old(source).foreseen().take(9),
        old(source).foreseen().len() > 9 ==> final(source).foreseen() == old(
            source,
        ).foreseen().skip(9),
{
    let ghost tape = source.foreseen();
    let mut digits: [Digit; 9] = [0;9];
    let mut idx: usize = 0;
    while idx < 9
        invariant
            idx <= 9,
            forall|i: int| 0 <= i < idx ==> digits[i] <= 9,
            tape.len() >= 9 ==> forall|i: int| 0 <= i < idx ==> digits[i] == tape[i],
            tape.len() >= 9 && idx < 9 ==> source.foreseen() == tape.skip(idx as int),
            tape.len() > 9 ==> source.foreseen() == tape.skip(idx as int),
        decreases 9 - idx,
    {
        let ghost before = source.foreseen();
        let d = source.next_digit();
        digits[idx] = d;
        proof {
            if tape.len() >= 9 {
                assert(before[0] == tape[idx as int]);
                assert(before.drop_first() =~= tape.skip(idx + 1));
            }
        }
        idx = idx + 1;
    }
    proof {
        if tape.len() >= 9 {
            assert(digits@ =~= tape.take(9));
        }
    }
    digits
}

/// Returns the first NHS Number that nine digits drawn from `source` make.
///
/// Nine digits in eleven draws have no check digit; such a draw is thrown away
/// and nine new digits are drawn, up to [`ATTEMPTS`] times. Whatever the source
/// yields, a number that is returned is the one its nine digits make, and a
/// failure reports that the draws had no check digit. Where the source
/// foresees its digits, the outcome is the one that [`drawn`] gives, and the
/// source is left with the digits that [`undrawn`] gives: no digit is drawn
/// beyond the nine that made the number.
pub fn lottery_with<S: DigitSource>(source: &mut S) -> (r: Result<Number, ValidationError>)
    ensures
        r matches Ok(n) ==> construct(n@.take(9)) == Ok::<Seq<Digit>, Reason>(n@),
        r matches Err(e) ==> e.states(Reason::ChecksumDomain),
        drawn(old(source).foreseen(), ATTEMPTS as nat) matches Some(outcome) ==> agrees(
            r,
            outcome,
        ),
        drawn(old(source).foreseen(), ATTEMPTS as nat) is Some && undrawn(
            old(source).foreseen(),
            ATTEMPTS as nat,
        ).len() > 0 ==> final(source).foreseen() == undrawn(
            old(source).foreseen(),
            ATTEMPTS as nat,
        ),
{
    let ghost settled = drawn(source.foreseen(), ATTEMPTS as nat);
    let ghost rest = undrawn(source.foreseen(), ATTEMPTS as nat);
    let mut attempt: usize = 0;
    while attempt < ATTEMPTS
        invariant
            attempt <= ATTEMPTS,
            settled == drawn(old(source).foreseen(), ATTEMPTS as nat),
            rest == undrawn(old(source).foreseen(), ATTEMPTS as nat),
            settled is Some ==> drawn(source.foreseen(), (ATTEMPTS - attempt) as nat) == settled,
            settled is Some && rest.len() > 0 ==> undrawn(
                source.foreseen(),
                (ATTEMPTS - attempt) as nat,
            ) == rest,
        decreases ATTEMPTS - attempt,
    {
        let ghost tape = source.foreseen();
        let digits = draw(source);
        match Number::new(digits) {
            Ok(number) => {
                proof {
                    lemma_construct(digits@);
                }
                return Ok(number);
            },
            Err(_) => {},
        }
        proof {
            if settled is Some {
                let togo = (ATTEMPTS - attempt - 1) as nat;
                assert(drawn(tape, togo + 1) == drawn(tape.skip(9), togo));
                assert(undrawn(tape, togo + 1) == undrawn(tape.skip(9), togo));
                if tape.len() == 9 && togo > 0 {
                    assert(drawn(tape.skip(9), togo) is None);
                }
            }
        }
        attempt = attempt + 1;
    }
    Err(ValidationError::because(Reason::ChecksumDomain))
}

/// Returns a random NHS Number.
///
/// If the result is not valid (e.g. the modulus 11 is 10) it will generate a
/// new one, up to [`ATTEMPTS`] times.
pub fn lottery() -> (r: Result<Number, ValidationError>)
    ensures
        r matches Ok(n) ==> construct(n@.take(9)) == Ok::<Seq<Digit>, Reason>(n@),
        r matches Err(e) ==> e.states(Reason::ChecksumDomain),
{
    let mut source = ThreadDigits::new();
    lottery_with(&mut source)
}

} // verus!
