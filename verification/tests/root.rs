use heidi::{check_digit, Number, ValidationError};

#[test]
fn lib_valid_checkdigit() -> Result<(), ValidationError> {
    assert_eq!(3, check_digit(&[8, 9, 3, 1, 7, 7, 4, 5, 8])?);
    assert_eq!(3, check_digit(&[9, 7, 0, 9, 6, 3, 8, 5, 1])?);

    Ok(())
}

#[test]
fn lib_valid_number() {
    assert!(Number::new([8, 9, 3, 1, 7, 7, 4, 5, 8]).is_ok());
}

#[test]
fn lib_valid_number_from_slice10() {
    assert!(Number::from_digits(&[8, 9, 3, 1, 7, 7, 4, 5, 8, 3]).is_ok());
}
