use heidi::error::{Reason, ValidationError};
use heidi::modulus11::check_digit;
use heidi::number::Number;
use heidi::text::Format;

#[test]
fn number_valid_checkdigit() -> Result<(), ValidationError> {
    assert_eq!(3, check_digit(&[8, 9, 3, 1, 7, 7, 4, 5, 8])?);
    assert_eq!(3, check_digit(&[9, 7, 0, 9, 6, 3, 8, 5, 1])?);

    Ok(())
}

#[test]
fn number_valid_number() {
    assert!(Number::new([8, 9, 3, 1, 7, 7, 4, 5, 8]).is_ok());
}

#[test]
fn number_valid_number_from_slice10() {
    assert!(Number::from_digits(&[8, 9, 3, 1, 7, 7, 4, 5, 8, 3]).is_ok());
}

#[test]
fn number_display_compact() -> Result<(), ValidationError> {
    let n = "893 177 4583";
    let number = Number::from_str(n)?;
    let expected = "8931774583";

    assert_eq!(number.display(Format::Compact), expected.to_string());

    Ok(())
}

#[test]
fn valid_usize() -> Result<(), ValidationError> {
    let n = 893_177_4583;
    let number = Number::from_integer(n)?;

    assert_eq!(*number.checkdigit(), 3);

    Ok(())
}

#[test]
fn check_digit_known_vectors() {
    assert_eq!(*Number::new([8, 9, 3, 1, 7, 7, 4, 5, 8]).unwrap().checkdigit(), 3);
    assert_eq!(*Number::new([9, 7, 0, 9, 6, 3, 8, 5, 1]).unwrap().checkdigit(), 3);
    assert_eq!(*Number::new([0, 1, 0, 1, 9, 9, 0, 0, 1]).unwrap().checkdigit(), 4);
    assert_eq!(*Number::new([3, 7, 8, 3, 9, 5, 5, 6, 0]).unwrap().checkdigit(), 2);
}

#[test]
fn check_digit_weights_run_from_ten_to_two() {
    // A single 1 at index i weighs 10 - i, so the check digit is 11 - (10 - i).
    assert_eq!(check_digit(&[1, 0, 0, 0, 0, 0, 0, 0, 0]), Ok(1));
    assert_eq!(check_digit(&[0, 1, 0, 0, 0, 0, 0, 0, 0]), Ok(2));
    assert_eq!(check_digit(&[0, 0, 1, 0, 0, 0, 0, 0, 0]), Ok(3));
    assert_eq!(check_digit(&[0, 0, 0, 1, 0, 0, 0, 0, 0]), Ok(4));
    assert_eq!(check_digit(&[0, 0, 0, 0, 1, 0, 0, 0, 0]), Ok(5));
    assert_eq!(check_digit(&[0, 0, 0, 0, 0, 1, 0, 0, 0]), Ok(6));
    assert_eq!(check_digit(&[0, 0, 0, 0, 0, 0, 1, 0, 0]), Ok(7));
    assert_eq!(check_digit(&[0, 0, 0, 0, 0, 0, 0, 1, 0]), Ok(8));
    assert_eq!(check_digit(&[0, 0, 0, 0, 0, 0, 0, 0, 1]), Ok(9));
}

#[test]
fn check_digit_of_a_multiple_of_eleven_is_zero() {
    // All zeros sum to 0; 9 * 54 = 486 leaves 2; 2 at index 0 and 1 at index 8 sum to 22.
    assert_eq!(check_digit(&[0, 0, 0, 0, 0, 0, 0, 0, 0]), Ok(0));
    assert_eq!(check_digit(&[9, 9, 9, 9, 9, 9, 9, 9, 9]), Ok(9));
    assert_eq!(check_digit(&[2, 0, 0, 0, 0, 0, 0, 0, 1]), Ok(0));
}

#[test]
fn check_digit_of_ten_is_refused() {
    // 6 at index 8 sums to 12, which leaves 1: the check digit would be 10.
    let digits = [0, 0, 0, 0, 0, 0, 0, 0, 6];
    let error = check_digit(&digits).unwrap_err();
    assert_eq!(error.reason(), Reason::ChecksumDomain);
    assert_eq!(error.message(), "Modulus 11 numbers cannot have a check digit of 10");
    assert_eq!(Number::new(digits).unwrap_err().reason(), Reason::ChecksumDomain);
    assert_eq!(
        Number::from_digits(&[0, 0, 0, 0, 0, 0, 0, 0, 6, 0]).unwrap_err().reason(),
        Reason::ChecksumDomain
    );
}

#[test]
fn construction_is_reproducible() {
    let digits = [6, 5, 4, 1, 0, 0, 3, 2, 3];
    let first = Number::new(digits).unwrap();
    let second = Number::new(digits).unwrap();
    assert_eq!(first, second);
    assert_eq!(first.digits(), &digits);
    assert_eq!(*first.checkdigit(), 8);
}

#[test]
fn own_check_digit_is_accepted() {
    let digits = [6, 5, 4, 1, 0, 0, 3, 2, 3];
    let made = Number::new(digits).unwrap();
    let mut ten = [0u16; 10];
    ten[..9].copy_from_slice(&digits);
    ten[9] = *made.checkdigit();
    assert_eq!(Number::from_digits(&ten), Ok(made));
}

#[test]
fn every_other_check_digit_is_refused() {
    let digits = [6, 5, 4, 1, 0, 0, 3, 2, 3];
    for control in 0..10u16 {
        if control == 8 {
            continue;
        }
        let mut ten = [0u16; 10];
        ten[..9].copy_from_slice(&digits);
        ten[9] = control;
        let error = Number::from_digits(&ten).unwrap_err();
        assert_eq!(error.reason(), Reason::ChecksumMismatch { given: control, actual: 8 });
        assert_eq!(
            error.message(),
            format!(
                "The given check digit {} does not match the actual check digit {}",
                control, 8
            )
        );
    }
}

#[test]
fn text_round_trip() {
    let number = Number::new([8, 9, 3, 1, 7, 7, 4, 5, 8]).unwrap();
    assert_eq!(Number::from_str(&number.display(Format::Compact)), Ok(number));
    assert_eq!(Number::from_str(&number.display(Format::Official)), Ok(number));
    assert_eq!(Number::from_string(number.display(Format::Compact)), Ok(number));
}

#[test]
fn text_of_wrong_length() {
    for text in ["", "   ", "893177458", "89317745833", "893 177 458"] {
        let error = Number::from_str(text).unwrap_err();
        assert_eq!(error.reason(), Reason::Length);
        assert_eq!(error.message(), "NHS Numbers must be of ten-digit long");
    }
}

#[test]
fn text_with_a_stray_character() {
    for text in ["893-177-4583", "893177458x", "a", "8931774583.", "+8931774583", "\u{668}931774583"] {
        let error = Number::from_str(text).unwrap_err();
        assert_eq!(error.reason(), Reason::Format);
        assert_eq!(error.message(), "Numbers must hold only digits and whitespace");
    }
}

#[test]
fn stray_character_counts_before_length() {
    assert_eq!(Number::from_str("12a").unwrap_err().reason(), Reason::Format);
    assert_eq!(Number::from_str("89317745833x").unwrap_err().reason(), Reason::Format);
}

#[test]
fn whitespace_of_any_kind_is_passed_over() {
    let plain = Number::from_str("8931774583").unwrap();
    assert_eq!(Number::from_str(" 893\t177\n4583 "), Ok(plain));
    assert_eq!(Number::from_str("8 9 3 1 7 7 4 5 8 3"), Ok(plain));
    assert_eq!(Number::from_str("893\u{a0}177\u{2003}4583"), Ok(plain));
}

#[test]
fn letter_in_the_last_place_is_refused_for_its_format() {
    let error = Number::from_str("893177458X").unwrap_err();
    assert_eq!(error.reason(), Reason::Format);
}

#[test]
fn whitespace_is_the_white_space_set() {
    // One character set into a valid number: whitespace leaves it valid, a
    // digit makes it too long, anything else spoils it.
    let white_space = |c: char| {
        matches!(
            c,
            '\u{9}'..='\u{d}'
                | ' '
                | '\u{85}'
                | '\u{a0}'
                | '\u{1680}'
                | '\u{2000}'..='\u{200a}'
                | '\u{2028}'
                | '\u{2029}'
                | '\u{202f}'
                | '\u{205f}'
                | '\u{3000}'
        )
    };
    let plain = Number::from_str("8931774583").unwrap();
    let mut seen = 0;
    for code in 0..=0x10ffffu32 {
        let c = match char::from_u32(code) {
            Some(c) => c,
            None => continue,
        };
        let text = format!("893{}1774583", c);
        let result = Number::from_str(&text);
        if white_space(c) {
            seen += 1;
            assert_eq!(result, Ok(plain), "U+{:04X}", code);
        } else if c.is_ascii_digit() {
            assert_eq!(result.unwrap_err().reason(), Reason::Length, "U+{:04X}", code);
        } else {
            assert_eq!(result.unwrap_err().reason(), Reason::Format, "U+{:04X}", code);
        }
    }
    assert_eq!(seen, 25);
}

#[test]
fn text_with_wrong_check_digit() {
    let error = Number::from_str("8931774584").unwrap_err();
    assert_eq!(error.reason(), Reason::ChecksumMismatch { given: 4, actual: 3 });
    assert_eq!(
        error.message(),
        "The given check digit 4 does not match the actual check digit 3"
    );
}

#[test]
fn integer_and_text_agree() {
    let from_integer = Number::from_integer(6541003238).unwrap();
    let from_text = Number::from_str("6541003238").unwrap();
    assert_eq!(from_integer, from_text);
    assert_eq!(*from_integer.checkdigit(), 8);
    assert_eq!(from_integer.digits(), &[6, 5, 4, 1, 0, 0, 3, 2, 3]);
}

#[test]
fn short_integer_is_padded_with_zeros() {
    // 0101990014 is the identifier with digits 010199001 and check digit 4.
    let number = Number::from_integer(101990014).unwrap();
    assert_eq!(number.digits(), &[0, 1, 0, 1, 9, 9, 0, 0, 1]);
    assert_eq!(*number.checkdigit(), 4);
    assert_eq!(number.display(Format::Compact), "0101990014");
    assert_eq!(Number::from_integer(0).unwrap().display(Format::Compact), "0000000000");
}

#[test]
fn integer_of_more_than_ten_digits() {
    for value in [10_000_000_000u64, 18_931_774_583, 108_931_774_583, u64::MAX] {
        let error = Number::from_integer(value).unwrap_err();
        assert_eq!(error.reason(), Reason::Magnitude { value });
        assert_eq!(
            error.message(),
            format!("The given number {} has more than 10 digits.", value)
        );
    }
    assert!(Number::from_integer(9_999_999_999).is_ok());
}

#[test]
fn integer_with_wrong_check_digit() {
    assert_eq!(
        Number::from_integer(8931774580).unwrap_err().reason(),
        Reason::ChecksumMismatch { given: 0, actual: 3 }
    );
}

#[test]
fn error_from_a_message() {
    let error = ValidationError::new("something else");
    assert_eq!(error.reason(), Reason::Other);
    assert_eq!(error.message(), "something else");
    assert_eq!(ValidationError::because(Reason::Other).message(), "Invalid number");
}
