use soroban_sdk::{IntoVal, Symbol, Val};
use soroban_testkit::base::env::TestEnv;
use soroban_testkit::ttl::expiry::bump_verdict;
use soroban_testkit::ttl::StorageKind;

#[test]
fn instance_ttl_decreases_as_ledgers_advance() {
    let env = TestEnv::new();
    let token = env.token();
    let key: Val = Symbol::new(env.env(), "ignored").into_val(env.env());

    let before = env.ttl_of(&token.address(), StorageKind::Instance, &key).unwrap();
    env.advance_ledgers(10);
    let after = env.ttl_of(&token.address(), StorageKind::Instance, &key).unwrap();

    assert!(after < before, "expected {after} < {before}");
    assert_eq!(before - after, 10);
}

#[test]
fn assert_bumps_ttl_fails_when_nothing_extends_it() {
    let env = TestEnv::new();
    let token = env.token();
    let key: Val = Symbol::new(env.env(), "ignored").into_val(env.env());
    let err = env
        .assert_bumps_ttl(&token.address(), StorageKind::Instance, &key, || {})
        .unwrap_err();
    let message = err.to_string();
    assert!(
        message.starts_with("assertion failed: expected the call to extend the Instance TTL beyond "),
        "{message}"
    );
}

#[test]
fn bump_verdict_passes_only_on_a_strict_increase() {
    bump_verdict(StorageKind::Persistent, 10, 11).unwrap();
    assert_eq!(
        bump_verdict(StorageKind::Persistent, 10, 10).unwrap_err().to_string(),
        "assertion failed: expected the call to extend the Persistent TTL beyond 10, but it was 10 afterward"
    );
    assert!(bump_verdict(StorageKind::Temporary, 10, 3).is_err());
}

#[test]
fn ttl_of_a_missing_entry_is_none() {
    let env = TestEnv::new();
    let token = env.token();
    let key: Val = Symbol::new(env.env(), "absent").into_val(env.env());
    assert_eq!(env.ttl_of(&token.address(), StorageKind::Persistent, &key), None);
    assert_eq!(env.ttl_of(&env.address(), StorageKind::Instance, &key), None);
}

#[test]
fn assert_bumps_ttl_reports_an_entry_it_cannot_read() {
    let env = TestEnv::new();
    let token = env.token();
    let key: Val = Symbol::new(env.env(), "absent").into_val(env.env());
    let mut ran = false;
    let err = env
        .assert_bumps_ttl(&token.address(), StorageKind::Temporary, &key, || ran = true)
        .unwrap_err();
    assert!(!ran);
    assert_eq!(
        err.to_string(),
        "misuse of testkit API: there is no live Temporary entry at this contract and key, so its TTL cannot be read"
    );
}
