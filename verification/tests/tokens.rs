use soroban_sdk::testutils::{MockAuth, MockAuthInvoke};
use soroban_sdk::token::TokenClient;
use soroban_sdk::IntoVal;
use soroban_testkit::base::env::TestEnv;

#[test]
fn token_is_immediately_usable_for_transfers() {
    let env = TestEnv::new();
    let mut token = env.token();
    let alice = env.address();
    let bob = env.address();
    token.mint_raw(&alice, 100).unwrap();

    TokenClient::new(env.env(), &token.address())
        .mock_auths(&[MockAuth {
            address: &alice,
            invoke: &MockAuthInvoke {
                contract: &token.address(),
                fn_name: "transfer",
                args: (alice.clone(), bob.clone(), 30_i128).into_val(env.env()),
                sub_invokes: &[],
            },
        }])
        .transfer(&alice, soroban_sdk::MuxedAddress::from(bob.clone()), &30);

    token.assert_balance(&alice, 70).unwrap();
    token.assert_balance(&bob, 30).unwrap();
}

#[test]
fn mint_converts_whole_units_at_seven_decimals() {
    let env = TestEnv::new();
    let mut token = env.token();
    let alice = env.address();
    token.mint(&alice, 100).unwrap();
    token.assert_balance(&alice, 1_000_000_000).unwrap();
}

#[test]
fn mint_and_mint_raw_disagree_by_exactly_ten_pow_decimals() {
    let env = TestEnv::new();
    let mut token = env.token();
    let a = env.address();
    let b = env.address();

    token.mint(&a, 1).unwrap();
    token.mint_raw(&b, 1).unwrap();

    assert_eq!(token.balance(&a).unwrap(), token.balance(&b).unwrap() * 10i128.pow(7));
}

#[test]
#[should_panic(expected = "token_with_decimals(6)")]
fn token_with_decimals_rejects_non_seven() {
    let env = TestEnv::new();
    let _ = env.token_with_decimals(6).unwrap();
}

#[test]
fn total_tracked_sums_every_mint() {
    let env = TestEnv::new();
    let mut token = env.token();
    token.mint_raw(&env.address(), 10).unwrap();
    token.mint(&env.address(), 1).unwrap();
    assert_eq!(token.total_tracked(), 10 + 10i128.pow(7));
}

#[test]
fn token_with_seven_decimals_is_a_standard_token() {
    let env = TestEnv::new();
    let token = env.token_with_decimals(7).unwrap();
    assert_eq!(token.decimals(), 7);
    assert_eq!(token.total_tracked(), 0);
}

#[test]
fn mint_overflowing_base_units_is_refused_and_mints_nothing() {
    let env = TestEnv::new();
    let mut token = env.token();
    let alice = env.address();
    let err = token.mint(&alice, i128::MAX / 1_000).unwrap_err();
    assert_eq!(err.code(), "TESTKIT_MISUSE");
    assert_eq!(
        err.to_string(),
        format!(
            "misuse of testkit API: mint({}) overflows i128 once converted to base units at 7 decimals; use mint_raw for amounts already in base units",
            i128::MAX / 1_000
        )
    );
    assert_eq!(token.balance(&alice).unwrap(), 0);
    assert_eq!(token.total_tracked(), 0);
}

#[test]
fn assert_balance_reports_both_balances() {
    let env = TestEnv::new();
    let mut token = env.token();
    let alice = env.address();
    token.mint_raw(&alice, 5).unwrap();
    let message = token.assert_balance(&alice, 6).unwrap_err().to_string();
    assert!(message.starts_with("assertion failed: expected balance of "), "{message}");
    assert!(message.ends_with(" to be 6, found 5"), "{message}");
}
