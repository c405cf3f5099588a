//! Health identifiers protected by a "Modulus 11" check digit.
//!
//! An identifier is ten decimal digits long: nine significant digits followed
//! by one check digit computed from them. The NHS Number (England, Wales and
//! the Isle of Man) and the CHI Number (Scotland) share that scheme and differ
//! in what the nine digits mean.
//!
//! Every function states what it computes against a small mathematical model:
//! digits are a `Seq<Digit>`, text is a `Seq<char>`, and a failure is a
//! [`error::Reason`].

pub mod digit;
pub mod error;
pub mod modulus11;
pub mod number;
pub mod text;
pub mod integer;
pub mod chi;
pub mod nhs;
pub mod source;

pub use crate::digit::Digit;
pub use crate::error::{Reason, ValidationError};
pub use crate::modulus11::check_digit;
pub use crate::number::Number;
pub use crate::text::Format;
