use soroban_sdk::{IntoVal, Symbol, TryFromVal, Val};
use soroban_testkit::base::env::TestEnv;

#[test]
fn empty_log_reports_empty() {
    let env = TestEnv::new();
    let log = env.events();
    assert!(log.is_empty());
    assert_eq!(log.len(), 0);
}

#[test]
fn from_and_with_topic_return_new_empty_logs_on_no_match() {
    let env = TestEnv::new();
    let contract = env.address();
    assert!(env.events().from(&contract).is_empty());
    let nope: Val = Symbol::new(env.env(), "nope").into_val(env.env());
    assert!(env.events().with_topic(nope).is_empty());
}

#[test]
fn assertions_on_an_empty_log_render_it_as_empty() {
    let env = TestEnv::new();
    let transfer: Val = Symbol::new(env.env(), "transfer").into_val(env.env());
    let log = env.events();
    assert_eq!(log.render(), "captured events: (none)");
    assert_eq!(
        log.assert_emitted(transfer).unwrap_err().to_string(),
        "assertion failed: expected an event with the given topic, but none was found\ncaptured events: (none)"
    );
    log.assert_emitted_times(transfer, 0).unwrap();
    assert_eq!(
        log.assert_emitted_times(transfer, 2).unwrap_err().to_string(),
        "assertion failed: expected 2 event(s) with the given topic, found 0\ncaptured events: (none)"
    );
    log.assert_none(transfer).unwrap();
}

#[test]
#[should_panic(expected = "decode_one requires exactly one event, but this log is empty")]
fn decode_one_panics_on_empty_log() {
    let env = TestEnv::new();
    let _ = env.events().decode_one().unwrap();
}

#[test]
fn events_during_returns_the_closures_result() {
    let env = TestEnv::new();
    let (doubled, log) = env.events_during(|| 21 * 2);
    assert_eq!(doubled, 42);
    assert!(log.is_empty());
}

fn mint_symbol(env: &TestEnv) -> Val {
    Symbol::new(env.env(), "mint").into_val(env.env())
}

#[test]
fn a_token_mint_is_captured_and_filterable() {
    let env = TestEnv::new();
    let mut token = env.token();
    let alice = env.address();
    token.mint_raw(&alice, 10).unwrap();

    let log = env.events();
    assert_eq!(log.len(), 1);
    assert_eq!(log.from(&token.address()).len(), 1);
    assert!(log.from(&alice).is_empty());
    assert_eq!(log.with_topic(mint_symbol(&env)).len(), 1);
    log.assert_emitted(mint_symbol(&env)).unwrap();
    log.assert_emitted_times(mint_symbol(&env), 1).unwrap();
    let transfer: Val = Symbol::new(env.env(), "transfer").into_val(env.env());
    log.assert_none(transfer).unwrap();
    assert!(log.render().starts_with("captured events (1):\n  [0] contract="));
}

#[test]
fn filters_compose_in_either_order() {
    let env = TestEnv::new();
    let mut token = env.token();
    let alice = env.address();
    token.mint_raw(&alice, 10).unwrap();

    let log = env.events();
    let a = log.from(&token.address()).with_topic(mint_symbol(&env)).len();
    let b = log.with_topic(mint_symbol(&env)).from(&token.address()).len();
    assert_eq!(a, b);
    assert_eq!(a, 1);
}

#[test]
fn decode_one_returns_the_single_events_payload() {
    let env = TestEnv::new();
    let mut token = env.token();
    let alice = env.address();
    token.mint_raw(&alice, 555).unwrap();

    let data = env.events().with_topic(mint_symbol(&env)).decode_one().unwrap();
    assert_eq!(i128::try_from_val(env.env(), &data).unwrap(), 555);
}

#[test]
fn assert_none_lists_the_matching_events() {
    let env = TestEnv::new();
    let mut token = env.token();
    let alice = env.address();
    token.mint_raw(&alice, 1).unwrap();

    let message = env.events().assert_none(mint_symbol(&env)).unwrap_err().to_string();
    assert!(
        message.starts_with(
            "assertion failed: expected no events with the given topic, found 1\ncaptured events (1):\n  [0] contract="
        ),
        "{message}"
    );
}

#[test]
fn the_encoded_topic_verdicts_judge_the_given_encoding() {
    let env = TestEnv::new();
    let mut token = env.token();
    let alice = env.address();
    token.mint_raw(&alice, 3).unwrap();

    let log = env.events();
    assert!(log.with_encoded_topic(&None).is_empty());
    assert!(log.emitted_verdict(&None).is_err());
    log.none_verdict(&None).unwrap();
    log.emitted_times_verdict(&None, 0).unwrap();
    assert!(log.with_encoded_topic(&Some(vec![0, 1, 2])).is_empty());
}

#[test]
fn published_by_key_keeps_only_the_keyed_contract() {
    let env = TestEnv::new();
    let mut token = env.token();
    let alice = env.address();
    token.mint_raw(&alice, 3).unwrap();

    let log = env.events();
    assert!(log.published_by_key(&String::new()).is_empty());
    let key = soroban_sdk::xdr::ScAddress::from(&token.address()).to_string();
    assert_eq!(log.published_by_key(&key).len(), 1);
}

#[test]
fn decode_one_as_decodes_the_single_payload() {
    let env = TestEnv::new();
    let mut token = env.token();
    let alice = env.address();
    token.mint_raw(&alice, 555).unwrap();

    let log = env.events().with_topic(mint_symbol(&env));
    let amount: i128 = log
        .decode_one_as(|v| i128::try_from_val(env.env(), &v).ok())
        .unwrap();
    assert_eq!(amount, 555);
    let err = log
        .decode_one_as(|v| Symbol::try_from_val(env.env(), &v).ok())
        .unwrap_err()
        .to_string();
    assert!(
        err.starts_with("failed to decode value: failed to decode event data as the requested type\ncaptured events (1):"),
        "{err}"
    );
}

#[test]
fn decode_one_as_reports_an_empty_log() {
    let env = TestEnv::new();
    let err = env.events().decode_one_as(|v| i128::try_from_val(env.env(), &v).ok()).unwrap_err();
    assert_eq!(
        err.to_string(),
        "assertion failed: decode_one requires exactly one event, but this log is empty\ncaptured events: (none)"
    );
}
