use std::time::Duration;

use soroban_testkit::base::env::TestEnv;
use soroban_testkit::ledger::clock::{
    advance_position, advance_position_by_ledgers, calendar_secs, warp_distance, LedgerPosition,
    SECS_PER_DAY,
};
use soroban_testkit::ledger::LEDGER_CLOSE_TIME_SECS;

#[test]
fn advance_moves_timestamp_by_exact_duration() {
    let env = TestEnv::new();
    let before = env.now();
    env.advance(Duration::from_secs(60)).unwrap();
    assert_eq!(env.now(), before + 60);
}

#[test]
fn advance_moves_sequence_consistently_with_close_time() {
    let env = TestEnv::new();
    let before = env.sequence();
    env.advance(Duration::from_secs(LEDGER_CLOSE_TIME_SECS * 10)).unwrap();
    assert_eq!(env.sequence(), before + 10);
}

#[test]
fn advance_ledgers_moves_sequence_by_exactly_n() {
    let env = TestEnv::new();
    let before = env.sequence();
    env.advance_ledgers(7);
    assert_eq!(env.sequence(), before + 7);
}

#[test]
#[should_panic(expected = "warp_to")]
fn warp_to_past_timestamp_panics() {
    let env = TestEnv::new();
    env.advance(Duration::from_secs(100)).unwrap();
    env.warp_to(0).unwrap();
}

#[test]
fn warp_to_future_timestamp_sets_now() {
    let env = TestEnv::new();
    env.warp_to(500).unwrap();
    assert_eq!(env.now(), 500);
}

#[test]
#[should_panic(expected = "overflows ledger arithmetic")]
fn advance_rejects_a_ledger_count_that_wraps_u32_to_zero() {
    let env = TestEnv::new();
    let wrapping_secs = (u64::from(u32::MAX) + 1) * LEDGER_CLOSE_TIME_SECS;
    env.advance(Duration::from_secs(wrapping_secs)).unwrap();
}

#[test]
#[should_panic(expected = "overflows ledger arithmetic")]
fn advance_rejects_the_maximum_duration() {
    let env = TestEnv::new();
    env.advance(Duration::from_secs(u64::MAX)).unwrap();
}

#[test]
#[should_panic(expected = "overflows ledger arithmetic")]
fn advance_rejects_sequence_overflow_instead_of_saturating() {
    let env = TestEnv::new();
    env.advance_ledgers(u32::MAX);
    env.advance(Duration::from_secs(LEDGER_CLOSE_TIME_SECS)).unwrap();
}

#[test]
#[should_panic(expected = "overflows ledger arithmetic")]
fn advance_rejects_timestamp_overflow_instead_of_saturating() {
    let env = TestEnv::new();
    soroban_sdk::testutils::Ledger::set_timestamp(&env.env().ledger(), u64::MAX - 10);
    env.advance(Duration::from_secs(60)).unwrap();
}

#[test]
fn advance_accepts_a_duration_landing_exactly_on_the_sequence_limit() {
    let env = TestEnv::new();
    let room = u64::from(u32::MAX - env.sequence());
    env.advance(Duration::from_secs(room * LEDGER_CLOSE_TIME_SECS)).unwrap();
    assert_eq!(env.sequence(), u32::MAX);
}

#[test]
#[should_panic(expected = "overflows ledger arithmetic")]
fn advance_rejects_a_duration_one_second_past_the_sequence_limit() {
    let env = TestEnv::new();
    let room = u64::from(u32::MAX - env.sequence());
    env.advance(Duration::from_secs(room * LEDGER_CLOSE_TIME_SECS + 1)).unwrap();
}

#[test]
fn rejected_advance_leaves_the_clock_untouched() {
    let env = TestEnv::new();
    env.advance(Duration::from_secs(100)).unwrap();
    let (now, sequence) = (env.now(), env.sequence());
    let result = env.advance(Duration::from_secs(u64::MAX));
    assert!(result.is_err());
    assert_eq!(env.now(), now);
    assert_eq!(env.sequence(), sequence);
}

#[test]
fn overflow_message_names_the_offending_duration() {
    let env = TestEnv::new();
    let message = env
        .advance(Duration::from_secs(u64::MAX))
        .unwrap_err()
        .to_string();
    assert!(message.contains("misuse of testkit API"), "{message}");
    assert!(message.contains(&u64::MAX.to_string()), "{message}");
}

#[test]
#[should_panic(expected = "overflows ledger arithmetic")]
fn warp_to_rejects_a_jump_that_overflows_ledger_arithmetic() {
    let env = TestEnv::new();
    env.warp_to(u64::MAX).unwrap();
}

#[test]
fn default_close_interval_is_the_crate_constant() {
    assert_eq!(
        TestEnv::new().ledger_close_interval(),
        LEDGER_CLOSE_TIME_SECS
    );
}

#[test]
fn custom_interval_changes_how_advance_maps_time_to_ledgers() {
    let env = TestEnv::new().with_ledger_close_interval(2);
    let (now, sequence) = (env.now(), env.sequence());
    env.advance(Duration::from_secs(20)).unwrap();
    assert_eq!(env.now(), now + 20);
    assert_eq!(env.sequence(), sequence + 10);
}

#[test]
fn custom_interval_changes_how_advance_ledgers_maps_ledgers_to_time() {
    let env = TestEnv::new().with_ledger_close_interval(2);
    let (now, sequence) = (env.now(), env.sequence());
    env.advance_ledgers(10);
    assert_eq!(env.sequence(), sequence + 10);
    assert_eq!(env.now(), now + 20);
}

#[test]
fn custom_interval_applies_to_warp_to() {
    let env = TestEnv::new().with_ledger_close_interval(10);
    let sequence = env.sequence();
    env.warp_to(100).unwrap();
    assert_eq!(env.now(), 100);
    assert_eq!(env.sequence(), sequence + 10);
}

#[test]
fn advance_rounds_up_to_a_whole_ledger_for_a_custom_interval() {
    let env = TestEnv::new().with_ledger_close_interval(3);
    let sequence = env.sequence();
    env.advance(Duration::from_secs(7)).unwrap();
    assert_eq!(env.sequence(), sequence + 3);
}

#[test]
fn advance_by_zero_moves_nothing_for_any_interval() {
    let env = TestEnv::new().with_ledger_close_interval(1);
    let (now, sequence) = (env.now(), env.sequence());
    env.advance(Duration::ZERO).unwrap();
    assert_eq!((env.now(), env.sequence()), (now, sequence));
}

#[test]
fn a_one_second_interval_maps_seconds_to_ledgers_one_to_one() {
    let env = TestEnv::new().with_ledger_close_interval(1);
    let sequence = env.sequence();
    env.advance(Duration::from_secs(42)).unwrap();
    assert_eq!(env.sequence(), sequence + 42);
}

#[test]
fn a_huge_interval_still_advances_at_least_one_ledger() {
    let env = TestEnv::new().with_ledger_close_interval(u64::MAX);
    let sequence = env.sequence();
    env.advance(Duration::from_secs(60)).unwrap();
    assert_eq!(env.sequence(), sequence + 1);
}

#[test]
fn close_interval_is_per_environment() {
    let fast = TestEnv::new().with_ledger_close_interval(1);
    let default = TestEnv::new();
    assert_eq!(fast.ledger_close_interval(), 1);
    assert_eq!(default.ledger_close_interval(), LEDGER_CLOSE_TIME_SECS);
}

#[test]
fn configuring_the_interval_does_not_move_the_clock_or_change_the_seed() {
    let plain = TestEnv::with_seed(7);
    let (now, sequence) = (plain.now(), plain.sequence());
    let configured = TestEnv::with_seed(7).with_ledger_close_interval(2);
    assert_eq!((configured.now(), configured.sequence()), (now, sequence));
    assert_eq!(configured.seed(), 7);
}

#[test]
fn advance_minutes_moves_timestamp_by_sixty_seconds_each() {
    let env = TestEnv::new();
    let before = env.now();
    env.advance_minutes(3).unwrap();
    assert_eq!(env.now(), before + 180);
}

#[test]
fn advance_hours_moves_timestamp_by_3600_seconds_each() {
    let env = TestEnv::new();
    let before = env.now();
    env.advance_hours(2).unwrap();
    assert_eq!(env.now(), before + 7_200);
}

#[test]
fn advance_days_moves_timestamp_and_sequence_together() {
    let env = TestEnv::new();
    let (now, sequence) = (env.now(), env.sequence());
    env.advance_days(1).unwrap();
    assert_eq!(env.now(), now + 86_400);
    assert_eq!(
        env.sequence(),
        sequence + (86_400 / LEDGER_CLOSE_TIME_SECS) as u32
    );
}

#[test]
fn calendar_helpers_agree_with_each_other_and_with_advance() {
    let by_minutes = TestEnv::new();
    let by_hours = TestEnv::new();
    let by_days = TestEnv::new();
    let by_duration = TestEnv::new();
    by_minutes.advance_minutes(24 * 60).unwrap();
    by_hours.advance_hours(24).unwrap();
    by_days.advance_days(1).unwrap();
    by_duration.advance(Duration::from_secs(86_400)).unwrap();
    for env in [&by_minutes, &by_hours, &by_days] {
        assert_eq!(env.now(), by_duration.now());
        assert_eq!(env.sequence(), by_duration.sequence());
    }
}

#[test]
fn calendar_helpers_accept_zero_and_move_nothing() {
    let env = TestEnv::new();
    let (now, sequence) = (env.now(), env.sequence());
    env.advance_minutes(0).unwrap();
    env.advance_hours(0).unwrap();
    env.advance_days(0).unwrap();
    assert_eq!((env.now(), env.sequence()), (now, sequence));
}

#[test]
fn calendar_helpers_respect_a_custom_close_interval() {
    let env = TestEnv::new().with_ledger_close_interval(60);
    let sequence = env.sequence();
    env.advance_hours(1).unwrap();
    assert_eq!(env.sequence(), sequence + 60);
}

#[test]
fn calendar_helpers_accumulate() {
    let env = TestEnv::new();
    let before = env.now();
    env.advance_days(1).unwrap();
    env.advance_hours(1).unwrap();
    env.advance_minutes(1).unwrap();
    assert_eq!(env.now(), before + 86_400 + 3_600 + 60);
}

#[test]
#[should_panic(expected = "advance_minutes(18446744073709551615) overflows ledger arithmetic")]
fn advance_minutes_rejects_a_count_that_overflows_seconds() {
    TestEnv::new().advance_minutes(u64::MAX).unwrap();
}

#[test]
#[should_panic(expected = "advance_hours(18446744073709551615) overflows ledger arithmetic")]
fn advance_hours_rejects_a_count_that_overflows_seconds() {
    TestEnv::new().advance_hours(u64::MAX).unwrap();
}

#[test]
#[should_panic(expected = "advance_days(18446744073709551615) overflows ledger arithmetic")]
fn advance_days_rejects_a_count_that_overflows_seconds() {
    TestEnv::new().advance_days(u64::MAX).unwrap();
}

#[test]
#[should_panic(expected = "overflows ledger arithmetic")]
fn advance_days_rejects_seconds_that_fit_u64_but_not_the_sequence() {
    TestEnv::new().advance_days(u64::MAX / SECS_PER_DAY).unwrap();
}

#[test]
fn rejected_calendar_advance_leaves_the_clock_untouched() {
    let env = TestEnv::new();
    env.advance_minutes(5).unwrap();
    let (now, sequence) = (env.now(), env.sequence());
    let result = env.advance_days(u64::MAX);
    assert!(result.is_err());
    assert_eq!((env.now(), env.sequence()), (now, sequence));
}

#[test]
fn advance_position_reports_the_full_overflow_message() {
    let pos = LedgerPosition { timestamp: 100, sequence: u32::MAX };
    let err = advance_position(pos, 5, 5).unwrap_err();
    assert_eq!(
        err.to_string(),
        format!(
            "misuse of testkit API: advancing the ledger clock by 5s overflows ledger arithmetic: \
             at 5s per ledger that is 1 ledgers, but the clock is at sequence {} (a u32) and \
             timestamp 100 (a u64); use a shorter duration",
            u32::MAX
        )
    );
}

#[test]
fn advance_position_rounds_partial_ledgers_up() {
    let pos = LedgerPosition { timestamp: 10, sequence: 3 };
    assert_eq!(
        advance_position(pos, 7, 3).unwrap(),
        LedgerPosition { timestamp: 17, sequence: 6 }
    );
    assert_eq!(advance_position(pos, 0, 3).unwrap(), pos);
}

#[test]
fn ledger_advance_saturates_at_the_type_limits() {
    let pos = LedgerPosition { timestamp: u64::MAX - 3, sequence: u32::MAX - 1 };
    assert_eq!(
        advance_position_by_ledgers(pos, 5, 10),
        LedgerPosition { timestamp: u64::MAX, sequence: u32::MAX }
    );
}

#[test]
fn calendar_secs_names_the_helper_when_it_overflows() {
    assert_eq!(calendar_secs("advance_hours", 2, 3_600).unwrap(), 7_200);
    let err = calendar_secs("advance_weeks", u64::MAX, 2).unwrap_err();
    assert_eq!(err.code(), "TESTKIT_MISUSE");
    assert!(err.to_string().starts_with(
        "misuse of testkit API: advance_weeks(18446744073709551615) overflows ledger arithmetic: 18446744073709551615 * 2s"
    ));
}

#[test]
fn warp_distance_refuses_to_run_backwards() {
    assert_eq!(warp_distance(10, 25).unwrap(), 15);
    assert_eq!(
        warp_distance(100, 0).unwrap_err().to_string(),
        "misuse of testkit API: warp_to(0) is before the current ledger time (100); the ledger clock cannot run backwards"
    );
}
