use soroban_testkit::base::error::TestkitError;

#[test]
fn assertion_failed_message() {
    let err = TestkitError::AssertionFailed("deposited != withdrawn".into());
    assert_eq!(err.to_string(), "assertion failed: deposited != withdrawn");
}

#[test]
fn decode_failed_message() {
    let err = TestkitError::DecodeFailed("expected i128, got Symbol".into());
    assert_eq!(
        err.to_string(),
        "failed to decode value: expected i128, got Symbol"
    );
}

#[test]
fn misuse_message() {
    let err = TestkitError::Misuse("events were never captured".into());
    assert_eq!(
        err.to_string(),
        "misuse of testkit API: events were never captured"
    );
}

#[test]
fn each_variant_has_its_documented_code() {
    assert_eq!(
        TestkitError::AssertionFailed("x".into()).code(),
        "TESTKIT_ASSERTION_FAILED"
    );
    assert_eq!(
        TestkitError::DecodeFailed("x".into()).code(),
        "TESTKIT_DECODE_FAILED"
    );
    assert_eq!(TestkitError::Misuse("x".into()).code(), "TESTKIT_MISUSE");
}

#[test]
fn codes_are_unique_across_variants() {
    let codes = [
        TestkitError::AssertionFailed(String::new()).code(),
        TestkitError::DecodeFailed(String::new()).code(),
        TestkitError::Misuse(String::new()).code(),
    ];
    for i in 0..codes.len() {
        for j in (i + 1)..codes.len() {
            assert_ne!(codes[i], codes[j]);
        }
    }
}

#[test]
fn code_does_not_depend_on_the_message() {
    assert_eq!(
        TestkitError::Misuse(String::new()).code(),
        TestkitError::Misuse("a much longer, different message".into()).code()
    );
}

#[test]
fn codes_are_screaming_snake_case() {
    let errors = [
        TestkitError::AssertionFailed(String::new()),
        TestkitError::DecodeFailed(String::new()),
        TestkitError::Misuse(String::new()),
    ];
    for err in &errors {
        let code = err.code();
        assert!(!code.is_empty());
        assert!(
            code.chars().all(|c| c.is_ascii_uppercase() || c == '_'),
            "code {code:?} is not SCREAMING_SNAKE_CASE"
        );
    }
}

#[test]
fn code_is_not_added_to_the_display_message() {
    let err = TestkitError::Misuse("boom".into());
    assert!(!err.to_string().contains(err.code()));
}

#[test]
fn display_message_is_prefix_then_detail_for_every_kind() {
    let detail = "something odd";
    let cases = [
        (TestkitError::AssertionFailed(detail.into()), "assertion failed: "),
        (TestkitError::DecodeFailed(detail.into()), "failed to decode value: "),
        (TestkitError::Misuse(detail.into()), "misuse of testkit API: "),
    ];
    for (err, prefix) in &cases {
        assert_eq!(err.to_string(), format!("{prefix}{detail}"));
    }
}
