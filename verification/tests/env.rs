use soroban_sdk::testutils::Ledger;
use soroban_testkit::base::env::{mix_seed, TestEnv};

#[test]
fn new_twice_produces_independent_environments() {
    let a = TestEnv::new();
    let b = TestEnv::new();
    a.env().ledger().set_sequence_number(12_345);
    assert_ne!(
        a.env().ledger().get().sequence_number,
        b.env().ledger().get().sequence_number
    );
}

#[test]
fn with_seed_is_reproducible_across_runs() {
    let a = TestEnv::with_seed(42);
    let b = TestEnv::with_seed(42);
    assert_eq!(a.seed(), b.seed());
    assert_eq!(a.address(), b.address());
}

#[test]
fn addresses_returns_n_distinct_addresses() {
    let env = TestEnv::new();
    let addrs = env.addresses(5);
    assert_eq!(addrs.len(), 5);
    for i in 0..addrs.len() {
        for j in (i + 1)..addrs.len() {
            assert_ne!(addrs[i], addrs[j]);
        }
    }
}

#[test]
fn clone_config_carries_the_seed() {
    let original = TestEnv::with_seed(42);
    assert_eq!(original.clone_config().seed(), 42);
}

#[test]
fn clone_config_carries_the_close_interval() {
    let original = TestEnv::new().with_ledger_close_interval(2);
    assert_eq!(original.clone_config().ledger_close_interval(), 2);
}

#[test]
fn clone_config_keeps_an_unset_close_interval_unset() {
    let clone = TestEnv::new().clone_config();
    assert_eq!(clone.close_interval_override(), None);
}

#[test]
fn clone_config_does_not_carry_the_clock_position() {
    let original = TestEnv::new();
    original.advance_ledgers(25);
    let pristine = TestEnv::new();

    let clone = original.clone_config();
    assert_eq!(
        (clone.now(), clone.sequence()),
        (pristine.now(), pristine.sequence())
    );
    assert_ne!(clone.sequence(), original.sequence());
}

#[test]
fn clone_config_matches_a_freshly_built_environment() {
    let original = TestEnv::with_seed(42);
    original.addresses(3);
    assert_eq!(
        original.clone_config().address(),
        TestEnv::with_seed(42).address()
    );
}

#[test]
fn clone_config_is_isolated_from_the_original() {
    let original = TestEnv::new();
    let clone = original.clone_config();
    let (original_before, clone_before) = (original.sequence(), clone.sequence());

    clone.env().ledger().set_sequence_number(9_000);
    assert_eq!(original.sequence(), original_before);

    original.env().ledger().set_sequence_number(7_000);
    assert_eq!(clone.sequence(), 9_000);
    assert_ne!(clone.sequence(), clone_before);
}

#[test]
fn clone_config_of_a_clone_keeps_the_configuration() {
    let original = TestEnv::with_seed(5).with_ledger_close_interval(3);
    let second = original.clone_config().clone_config();
    assert_eq!(second.seed(), 5);
    assert_eq!(second.ledger_close_interval(), 3);
}

#[test]
fn clone_config_does_not_change_the_original() {
    let original = TestEnv::with_seed(5).with_ledger_close_interval(3);
    original.advance_ledgers(4);
    let (now, sequence) = (original.now(), original.sequence());

    let _ = original.clone_config();
    assert_eq!((original.now(), original.sequence()), (now, sequence));
    assert_eq!(original.seed(), 5);
    assert_eq!(original.ledger_close_interval(), 3);
}

#[test]
fn reset_returns_the_clock_to_the_starting_ledger() {
    let pristine = TestEnv::new();
    let mut env = TestEnv::new();
    env.advance_ledgers(50);
    assert_ne!(env.sequence(), pristine.sequence());

    env.reset();
    assert_eq!(
        (env.now(), env.sequence()),
        (pristine.now(), pristine.sequence())
    );
}

#[test]
fn reset_keeps_the_seed_and_the_close_interval() {
    let mut env = TestEnv::with_seed(42).with_ledger_close_interval(2);
    env.advance_ledgers(10);

    env.reset();
    assert_eq!(env.seed(), 42);
    assert_eq!(env.ledger_close_interval(), 2);
}

#[test]
fn reset_keeps_an_unset_close_interval_unset() {
    let mut env = TestEnv::new();
    env.reset();
    assert_eq!(env.close_interval_override(), None);
}

#[test]
fn reset_issues_addresses_from_the_start_again() {
    let mut env = TestEnv::with_seed(42);
    env.addresses(4);

    env.reset();
    assert_eq!(env.address(), TestEnv::with_seed(42).address());
}

#[test]
fn reset_leaves_earlier_handles_on_the_discarded_environment() {
    let mut env = TestEnv::new();
    env.advance_ledgers(3);
    let (now, sequence) = (env.now(), env.sequence());
    let stale = env.env().clone();

    env.reset();
    assert_eq!(stale.ledger().timestamp(), now);
    assert_eq!(stale.ledger().sequence(), sequence);
    assert_ne!(env.sequence(), sequence);
}

#[test]
fn reset_environment_is_independent_of_the_discarded_one() {
    let mut env = TestEnv::new();
    let stale = env.env().clone();
    env.reset();

    let stale_before = stale.ledger().sequence();
    env.advance_ledgers(8);
    assert_eq!(stale.ledger().sequence(), stale_before);
}

#[test]
fn reset_on_a_pristine_environment_changes_nothing_observable() {
    let mut env = TestEnv::with_seed(9);
    let (now, sequence) = (env.now(), env.sequence());

    env.reset();
    assert_eq!((env.now(), env.sequence()), (now, sequence));
    assert_eq!(env.seed(), 9);
}

#[test]
fn reset_twice_is_the_same_as_reset_once() {
    let mut env = TestEnv::new().with_ledger_close_interval(4);
    env.advance_ledgers(6);

    env.reset();
    let once = (env.now(), env.sequence(), env.ledger_close_interval());
    env.reset();
    assert_eq!(
        (env.now(), env.sequence(), env.ledger_close_interval()),
        once
    );
}

#[test]
fn reset_environment_is_fully_usable() {
    let mut env = TestEnv::new();
    env.advance_ledgers(2);
    env.reset();

    let before = env.sequence();
    env.advance_ledgers(5);
    assert_eq!(env.sequence(), before + 5);
    assert_ne!(env.address(), env.address());
}

#[test]
fn default_environment_uses_the_default_close_interval() {
    let env = TestEnv::default();
    assert_eq!(env.close_interval_override(), None);
    assert_eq!(env.ledger_close_interval(), 5);
}

#[test]
fn seeds_mix_the_clock_with_a_spread_word() {
    assert_eq!(mix_seed(0, 1), 0x9E37_79B9_7F4A_7C15);
    assert_eq!(mix_seed(5, 0), 5);
    assert_eq!(mix_seed(0, 2), 0x9E37_79B9_7F4A_7C15u64.wrapping_mul(2));
}
