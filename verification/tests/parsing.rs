//! The integer grammar behind text-parsing resolution: signs, leading zeros,
//! range limits, and the exact failure messages.

use explicon::{ExpliconError, Sourced, VarError};

fn resolve_i32(text: &str) -> Result<i32, ExpliconError> {
    let sourced = Sourced::<i32>::Env("TEST_PARSING".to_string());
    sourced.resolve(Ok(text.to_string()))
}

#[test]
fn parses_negative_numbers() {
    assert_eq!(resolve_i32("-123").unwrap(), -123);
}

#[test]
fn parses_explicit_plus_sign() {
    assert_eq!(resolve_i32("+7").unwrap(), 7);
}

#[test]
fn parses_leading_zeros() {
    assert_eq!(resolve_i32("00123").unwrap(), 123);
}

#[test]
fn parses_zero() {
    assert_eq!(resolve_i32("0").unwrap(), 0);
}

#[test]
fn parses_extreme_values() {
    assert_eq!(resolve_i32("2147483647").unwrap(), i32::MAX);
    assert_eq!(resolve_i32("-2147483648").unwrap(), i32::MIN);
}

#[test]
fn rejects_values_out_of_range() {
    for text in ["2147483648", "-2147483649", "99999999999999999999999"] {
        match resolve_i32(text) {
            Err(ExpliconError::Other(m)) => {
                assert_eq!(m, "number out of range for an i32");
            }
            other => panic!("expected a range failure for {text:?}, got {other:?}"),
        }
    }
}

#[test]
fn rejects_empty_text() {
    match resolve_i32("") {
        Err(ExpliconError::Other(m)) => {
            assert_eq!(m, "cannot parse integer from empty string");
        }
        other => panic!("expected an empty-string failure, got {other:?}"),
    }
}

#[test]
fn rejects_malformed_text() {
    for text in ["+", "-", " 5", "5 ", "1_000", "12a3", "--4", "0x10"] {
        match resolve_i32(text) {
            Err(ExpliconError::Other(m)) => {
                assert_eq!(m, "invalid digit found in string", "for input {text:?}");
            }
            other => panic!("expected a parse failure for {text:?}, got {other:?}"),
        }
    }
}

#[test]
fn error_messages_name_the_lookup_failure() {
    let missing = ExpliconError::Var(VarError::NotPresent);
    assert_eq!(
        missing.message(),
        "Error while resolving env var: environment variable not found"
    );
    let garbled = ExpliconError::Var(VarError::NotUnicode);
    assert_eq!(
        garbled.message(),
        "Error while resolving env var: environment variable was not valid unicode"
    );
    let other = ExpliconError::Other("boom".to_string());
    assert_eq!(other.message(), "boom");
}

#[test]
fn validation_failure_message_is_fixed() {
    let sourced = Sourced::<i32>::Value(3);
    match sourced.resolve_and_validate(Err(VarError::NotPresent), |v| *v > 10) {
        Err(ExpliconError::Other(m)) => assert_eq!(m, "Validation failed"),
        other => panic!("expected a validation failure, got {other:?}"),
    }
}
