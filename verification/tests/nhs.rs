use heidi::error::{Reason, ValidationError};
use heidi::nhs::{lottery, lottery_with, Number, ATTEMPTS};
use heidi::source::{DigitSource, Replay, ThreadDigits};
use heidi::text::Format;

#[test]
fn valid_formatted_string() -> Result<(), ValidationError> {
    let f = Number::from_str("893 177 4583")?;
    let u = Number::from_str("8931774583")?;

    assert_eq!(f.checkdigit(), u.checkdigit());
    assert_eq!(f.digits(), u.digits());

    Ok(())
}

#[test]
fn nhs_display_compact() -> Result<(), ValidationError> {
    let n = "893 177 4583";
    let number = Number::from_str(n)?;
    let expected = "8931774583";

    assert_eq!(number.display(Format::Compact), expected.to_string());

    Ok(())
}

#[test]
fn display_alternate() -> Result<(), ValidationError> {
    let n = String::from("893 177 4583");
    let number = Number::from_str(&n)?;

    assert_eq!(number.display(Format::Official), n);

    Ok(())
}

#[test]
fn nhs_from_every_kind_of_input() {
    let expected = Number::new([6, 5, 4, 1, 0, 0, 3, 2, 3]).unwrap();
    assert_eq!(*expected.checkdigit(), 8);
    assert_eq!(Number::from_str("6541003238"), Ok(expected));
    assert_eq!(Number::from_string(String::from("6541003238")), Ok(expected));
    assert_eq!(Number::from_digits(&[6, 5, 4, 1, 0, 0, 3, 2, 3, 8]), Ok(expected));
    assert_eq!(Number::from_integer(6541003238), Ok(expected));
    assert_eq!(*Number::new([3, 7, 8, 3, 9, 5, 5, 6, 0]).unwrap().checkdigit(), 2);
}

#[test]
fn nhs_whitespace_tolerance() {
    let grouped = Number::from_str("893 177 4583").unwrap();
    let plain = Number::from_str("8931774583").unwrap();
    assert_eq!(grouped, plain);
    assert_eq!(*grouped.checkdigit(), 3);
    assert_eq!(*plain.checkdigit(), 3);
}

#[test]
fn nhs_round_trip() {
    let number = Number::from_str("6541003238").unwrap();
    assert_eq!(number.display(Format::Official), "654 100 3238");
    assert_eq!(Number::from_str(&number.display(Format::Compact)), Ok(number));
    assert_eq!(Number::from_str(&number.display(Format::Official)), Ok(number));
}

#[test]
fn nhs_errors() {
    assert_eq!(Number::from_str("654100323").unwrap_err().reason(), Reason::Length);
    assert_eq!(Number::from_str("654-100-3238").unwrap_err().reason(), Reason::Format);
    assert_eq!(
        Number::from_str("6541003237").unwrap_err().reason(),
        Reason::ChecksumMismatch { given: 7, actual: 8 }
    );
    assert_eq!(
        Number::new([0, 0, 0, 0, 0, 0, 0, 0, 6]).unwrap_err().reason(),
        Reason::ChecksumDomain
    );
    assert_eq!(
        Number::from_integer(65_410_032_380).unwrap_err().reason(),
        Reason::Magnitude { value: 65_410_032_380 }
    );
    // A date out of bounds means nothing to an NHS Number.
    assert!(Number::new([3, 2, 1, 3, 0, 0, 0, 0, 0]).is_ok());
}

#[test]
fn lottery_result_verifies() {
    for _ in 0..200 {
        let number = lottery().unwrap();
        let again = Number::new(*number.digits()).unwrap();
        assert_eq!(again, number);
        assert_eq!(again.checkdigit(), number.checkdigit());
        assert!(number.digits().iter().all(|d| *d <= 9));
        assert_eq!(Number::from_str(&number.display(Format::Official)), Ok(number));
    }
}

#[test]
fn lottery_results_differ() {
    let first = lottery().unwrap();
    let mut differs = false;
    for _ in 0..50 {
        if lottery().unwrap() != first {
            differs = true;
        }
    }
    assert!(differs);
}

#[test]
fn thread_digits_are_digits_and_vary() {
    let mut source = ThreadDigits::new();
    let mut seen = [false; 10];
    for _ in 0..2000 {
        let d = source.next_digit();
        assert!(d <= 9);
        seen[d as usize] = true;
    }
    assert!(seen.iter().all(|s| *s));
}

#[test]
fn lottery_from_a_fixed_run() {
    let mut source = Replay::new(vec![8, 9, 3, 1, 7, 7, 4, 5, 8]).unwrap();
    let number = lottery_with(&mut source).unwrap();
    assert_eq!(number.display(Format::Compact), "8931774583");
}

#[test]
fn lottery_throws_away_a_draw_without_check_digit() {
    // The first nine digits call for a check digit of 10, the next nine do not.
    let mut tape = vec![0, 0, 0, 0, 0, 0, 0, 0, 6];
    tape.extend([6, 5, 4, 1, 0, 0, 3, 2, 3]);
    let mut source = Replay::new(tape).unwrap();
    let number = lottery_with(&mut source).unwrap();
    assert_eq!(number.display(Format::Compact), "6541003238");
    // The source went on to its third run of nine, which is its first again.
    assert_eq!(source.next_digit(), 0);
}

#[test]
fn lottery_gives_up_after_its_attempts() {
    let mut source = Replay::new(vec![0, 0, 0, 0, 0, 0, 0, 0, 6]).unwrap();
    let error = lottery_with(&mut source).unwrap_err();
    assert_eq!(error.reason(), Reason::ChecksumDomain);
    assert_eq!(ATTEMPTS, 100);
}

#[test]
fn lottery_on_the_last_attempt() {
    let mut tape: Vec<u16> = Vec::new();
    for _ in 0..ATTEMPTS - 1 {
        tape.extend([0, 0, 0, 0, 0, 0, 0, 0, 6]);
    }
    tape.extend([9, 7, 0, 9, 6, 3, 8, 5, 1]);
    let mut source = Replay::new(tape).unwrap();
    assert_eq!(
        lottery_with(&mut source).unwrap().display(Format::Compact),
        "9709638513"
    );
}

#[test]
fn replay_yields_its_digits_in_order_and_again() {
    let mut source = Replay::new(vec![1, 2, 3]).unwrap();
    let drawn: Vec<u16> = (0..7).map(|_| source.next_digit()).collect();
    assert_eq!(drawn, vec![1, 2, 3, 1, 2, 3, 1]);
}

#[test]
fn replay_needs_decimal_digits() {
    assert!(Replay::new(vec![]).is_none());
    assert!(Replay::new(vec![1, 10, 3]).is_none());
    assert!(Replay::new(vec![9]).is_some());
}
