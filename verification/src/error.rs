//! Why an input is not a valid identifier.

use crate::digit::{decimal, push_decimal, Digit};
use vstd::prelude::*;
use vstd::string::*;

verus! {

/// The distinct ways in which validation fails.
#[derive(Clone, Copy, Debug, PartialEq, Eq, Structural)]
pub enum Reason {
    /// The input does not hold exactly ten decimal digits.
    Length,
    /// The input holds a character that is neither a digit nor whitespace.
    Format,
    /// The nine significant digits call for a check digit of 10, which no
    /// identifier can have.
    ChecksumDomain,
    /// The check digit that was given is not the one the other digits call for.
    ChecksumMismatch { given: Digit, actual: Digit },
    /// The day or the month at the start of a CHI Number is out of bounds.
    DateRange,
    /// The integer needs more than ten decimal digits.
    Magnitude { value: u64 },
    /// A failure known only by its message.
    Other,
}

impl Reason {
    /// The message that explains this reason to a person.
    pub open spec fn text(self) -> Seq<char> {
        match self {
            Reason::Length => "NHS Numbers must be of ten-digit long"@,
            Reason::Format => "Numbers must hold only digits and whitespace"@,
            Reason::ChecksumDomain => "Modulus 11 numbers cannot have a check digit of 10"@,
            Reason::ChecksumMismatch { given, actual } => "The given check digit "@ + decimal(
                given as nat,
            ) + " does not match the actual check digit "@ + decimal(actual as nat),
            Reason::DateRange => "Invalid CHI number"@,
            Reason::Magnitude { value } => "The given number "@ + decimal(value as nat)
                + " has more than 10 digits."@,
            Reason::Other => "Invalid number"@,
        }
    }
}

/// Represents an error after validating the integrity of a number.
#[derive(PartialEq, Eq, Debug, Clone)]
pub struct ValidationError {
    reason: Reason,
    message: String,
}

impl ValidationError {
    /// The reason this error was raised for.
    pub closed spec fn spec_reason(&self) -> Reason {
        self.reason
    }

    /// The characters of this error's message.
    pub closed spec fn text(&self) -> Seq<char> {
        self.message@
    }

    /// Whether this error reports `reason`, in the words of [`Reason::text`].
    pub open spec fn states(&self, reason: Reason) -> bool {
        self.reason() == reason && self.text() == reason.text()
    }

    /// An error that carries only a message.
    pub fn new(msg: &str) -> (e: Self)
        ensures
            e.reason() == Reason::Other,
            e.text() == msg@,
    {
        ValidationError { reason: Reason::Other, message: String::from_str(msg) }
    }

    /// The error that reports `reason`.
    pub fn because(reason: Reason) -> (e: Self)
        ensures
            e.states(reason),
    {
        let mut message = String::new();
        match reason {
            Reason::Length => {
                message.append("NHS Numbers must be of ten-digit long");
            },
            Reason::Format => {
                message.append("Numbers must hold only digits and whitespace");
            },
            Reason::ChecksumDomain => {
                message.append("Modulus 11 numbers cannot have a check digit of 10");
            },
            Reason::ChecksumMismatch { given, actual } => {
                message.append("The given check digit ");
                push_decimal(&mut message, given as u64);
                message.append(" does not match the actual check digit ");
                push_decimal(&mut message, actual as u64);
            },
            Reason::DateRange => {
                message.append("Invalid CHI number");
            },
            Reason::Magnitude { value } => {
                message.append("The given number ");
                push_decimal(&mut message, value);
                message.append(" has more than 10 digits.");
            },
            Reason::Other => {
                message.append("Invalid number");
            },
        }
        ValidationError { reason, message }
    }

    /// The reason this error was raised for.
    #[verifier::when_used_as_spec(spec_reason)]
    pub fn reason(&self) -> (r: Reason)
        ensures
            r == self.spec_reason(),
    {
        self.reason
    }

    /// The message, as it is shown to a person.
    pub fn message(&self) -> (m: &str)
        ensures
            m@ == self.text(),
    {
        self.message.as_str()
    }
}

/// Whether a result is the one that was called for: on success a value whose
/// digits are the expected ones, on failure an error that states the expected
/// reason.
pub open spec fn agrees<T: View<V = Seq<Digit>>>(
    r: Result<T, ValidationError>,
    expected: Result<Seq<Digit>, Reason>,
) -> bool {
    match expected {
        Ok(id) => r matches Ok(n) && n@ == id,
        Err(reason) => r matches Err(e) && e.states(reason),
    }
}

} // verus!
