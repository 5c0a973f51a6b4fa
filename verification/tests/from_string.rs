//! The string-construction resolution family: direct conversion from
//! environment text, with fallback and validation.

use explicon::{ExpliconError, Sourced, VarError};

#[test]
fn resolve_from_string_value_identity() {
    let sourced = Sourced::<String>::Value("direct".to_string());
    let result = sourced.resolve_from_string(Err(VarError::NotPresent)).unwrap();
    assert_eq!(result, "direct");
}

#[test]
fn resolve_from_string_env_success() {
    let sourced = Sourced::<String>::Env("TEST_FROM_STRING".to_string());
    let result = sourced.resolve_from_string(Ok("raw secret".to_string())).unwrap();
    assert_eq!(result, "raw secret");
}

#[test]
fn resolve_from_string_env_missing() {
    let sourced = Sourced::<String>::Env("NON_EXISTENT_FROM_STRING".to_string());
    let result = sourced.resolve_from_string(Err(VarError::NotPresent));
    assert!(matches!(result, Err(ExpliconError::Var(VarError::NotPresent))));
}

#[test]
fn resolve_from_string_env_branch_never_reports_other() {
    // Any retrieved text converts, however unparseable it would be elsewhere;
    // only the lookup itself can fail.
    for text in ["", "abc", "123", "not unicode text at all \u{fffd}"] {
        let sourced = Sourced::<String>::Env("TEST_FROM_STRING_ANY".to_string());
        let result = sourced.resolve_from_string(Ok(text.to_string()));
        assert_eq!(result.unwrap(), text);
    }
    let sourced = Sourced::<String>::Env("TEST_FROM_STRING_ANY".to_string());
    for lookup in [Err(VarError::NotPresent), Err(VarError::NotUnicode)] {
        let result = sourced.resolve_from_string(lookup);
        assert!(matches!(result, Err(ExpliconError::Var(_))));
    }
}

#[test]
fn resolve_from_string_or_fallback_on_missing() {
    let sourced = Sourced::<String>::Env("NON_EXISTENT_FROM_STRING_OR".to_string());
    let result = sourced.resolve_from_string_or(Err(VarError::NotPresent), "fallback".to_string());
    assert_eq!(result, "fallback");
}

#[test]
fn resolve_from_string_or_value_on_success() {
    let sourced = Sourced::<String>::Env("TEST_FROM_STRING_OR".to_string());
    let result = sourced.resolve_from_string_or(Ok("found".to_string()), "fallback".to_string());
    assert_eq!(result, "found");
}

#[test]
fn resolve_from_string_and_validate_accepts() {
    let sourced = Sourced::<String>::Env("TEST_FROM_STRING_VALIDATE".to_string());
    let result = sourced
        .resolve_from_string_and_validate(Ok("long enough".to_string()), |v: &String| v.len() > 5)
        .unwrap();
    assert_eq!(result, "long enough");
}

#[test]
fn resolve_from_string_and_validate_rejects() {
    let sourced = Sourced::<String>::Env("TEST_FROM_STRING_VALIDATE_SHORT".to_string());
    let result =
        sourced.resolve_from_string_and_validate(Ok("no".to_string()), |v: &String| v.len() > 5);
    match result {
        Err(ExpliconError::Other(m)) => assert_eq!(m, "Validation failed"),
        other => panic!("expected a validation failure, got {other:?}"),
    }
}

#[test]
fn resolve_from_string_and_validate_env_missing() {
    let sourced = Sourced::<String>::Env("NON_EXISTENT_FROM_STRING_VALIDATE".to_string());
    let result = sourced.resolve_from_string_and_validate(Err(VarError::NotPresent), |_| true);
    assert!(matches!(result, Err(ExpliconError::Var(VarError::NotPresent))));
}
