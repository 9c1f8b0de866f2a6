use number_wizard::game::Game;
use number_wizard::input::parse_guess;
use number_wizard::input::InputError;

#[test]
fn parses_plain_numerals() {
    assert_eq!(parse_guess("0", 0, 99), Ok(0));
    assert_eq!(parse_guess("7", 0, 99), Ok(7));
    assert_eq!(parse_guess("42", 0, 99), Ok(42));
    assert_eq!(parse_guess("99", 0, 99), Ok(99));
}

#[test]
fn leading_zeros_are_accepted() {
    assert_eq!(parse_guess("007", 0, 99), Ok(7));
    assert_eq!(parse_guess("00", 0, 99), Ok(0));
}

#[test]
fn one_leading_plus_sign_is_accepted() {
    assert_eq!(parse_guess("+5", 0, 99), Ok(5));
    assert_eq!(parse_guess("+42", 0, 99), Ok(42));
    assert_eq!(parse_guess("+0", 0, 99), Ok(0));
    assert_eq!(parse_guess("+007", 0, 99), Ok(7));
    assert_eq!(parse_guess("+100", 0, 99), Err(InputError::RangeError));
}

#[test]
fn a_plus_sign_without_digits_is_a_parse_error() {
    assert_eq!(parse_guess("+", 0, 99), Err(InputError::ParseError));
    assert_eq!(parse_guess("++5", 0, 99), Err(InputError::ParseError));
    assert_eq!(parse_guess("+ 5", 0, 99), Err(InputError::ParseError));
    assert_eq!(parse_guess("5+", 0, 99), Err(InputError::ParseError));
    assert_eq!(parse_guess("+abc", 0, 99), Err(InputError::ParseError));
}

#[test]
fn non_numerals_are_parse_errors() {
    assert_eq!(parse_guess("abc", 0, 99), Err(InputError::ParseError));
    assert_eq!(parse_guess("", 0, 99), Err(InputError::ParseError));
    assert_eq!(parse_guess("4x2", 0, 99), Err(InputError::ParseError));
    assert_eq!(parse_guess("-5", 0, 99), Err(InputError::ParseError));
    assert_eq!(parse_guess(" 5", 0, 99), Err(InputError::ParseError));
    assert_eq!(parse_guess("5 ", 0, 99), Err(InputError::ParseError));
}

#[test]
fn word_sized_values_parse_and_overflow_does_not() {
    assert_eq!(parse_guess("4294967295", 0, u32::MAX), Ok(u32::MAX));
    assert_eq!(
        parse_guess("4294967296", 0, u32::MAX),
        Err(InputError::ParseError)
    );
    assert_eq!(
        parse_guess("99999999999999999999", 0, u32::MAX),
        Err(InputError::ParseError)
    );
}

#[test]
fn out_of_bounds_numerals_are_range_errors() {
    assert_eq!(parse_guess("100", 0, 99), Err(InputError::RangeError));
    assert_eq!(parse_guess("3", 5, 9), Err(InputError::RangeError));
    assert_eq!(parse_guess("10", 5, 9), Err(InputError::RangeError));
    assert_eq!(parse_guess("5", 5, 9), Ok(5));
    assert_eq!(parse_guess("9", 5, 9), Ok(9));
}

#[test]
fn rejected_input_leaves_the_session_untouched() {
    // The driver only submits a guess once parsing succeeds, so a parse
    // error consumes no attempt and mutates nothing.
    let mut g = Game::with_target(50, 0, 99, 10);
    let r = parse_guess("abc", 0, 99);
    assert_eq!(r, Err(InputError::ParseError));
    assert_eq!(g.attempts, 0);
    assert!(g.guesses.is_empty());
    assert_eq!(g.attempts_left(), 10);
    // A valid line afterwards is accepted as usual.
    let v = parse_guess("17", 0, 99).unwrap();
    g.make_guess(v).unwrap();
    assert_eq!(g.attempts, 1);
}
