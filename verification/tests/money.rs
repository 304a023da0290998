use std::cell::Cell;

use soroban_testkit::base::env::TestEnv;
use soroban_testkit::base::render::{i128_text, u128_text};
use soroban_testkit::money::{
    adversarial_amounts, amounts_in, assert_conserved_over, bps_values, overflow_edge_triples,
    Conservation,
};

#[test]
fn adversarial_amounts_includes_every_documented_boundary() {
    let amounts = adversarial_amounts();
    let stroop = 10_i128.pow(7);
    for expected in [
        0,
        1,
        -1,
        i128::MAX,
        i128::MIN,
        i128::MAX - 1,
        stroop,
        stroop - 1,
        stroop + 1,
    ] {
        assert!(
            amounts.contains(&expected),
            "adversarial_amounts() is missing {expected}"
        );
    }
    assert_eq!(amounts.len(), 13);
}

#[test]
fn amounts_in_stays_within_bounds() {
    let env = TestEnv::with_seed(1);
    let amounts = amounts_in(&env, -50, 50, 200);
    assert_eq!(amounts.len(), 200);
    assert!(amounts.iter().all(|a| (-50..=50).contains(a)));
}

#[test]
fn amounts_in_is_reproducible_for_same_seed() {
    let a = amounts_in(&TestEnv::with_seed(99), 0, 1_000_000, 20);
    let b = amounts_in(&TestEnv::with_seed(99), 0, 1_000_000, 20);
    assert_eq!(a, b);
}

#[test]
fn amounts_in_handles_full_i128_range() {
    let env = TestEnv::with_seed(3);
    let amounts = amounts_in(&env, i128::MIN, i128::MAX, 10);
    assert_eq!(amounts.len(), 10);
}

#[test]
fn amounts_in_with_a_single_point_range_returns_that_point() {
    let env = TestEnv::with_seed(11);
    assert_eq!(amounts_in(&env, 42, 42, 5), vec![42; 5]);
    assert!(amounts_in(&env, 0, 10, 0).is_empty());
}

#[test]
fn amounts_in_first_draw_matches_the_splitmix_formula() {
    // Seed 0: the generator state starts at 0xD1B5_4A32_D192_ED03 and each
    // draw combines two SplitMix64 outputs, low word first.
    fn mix(mut z: u64) -> u64 {
        z = (z ^ (z >> 30)).wrapping_mul(0xBF58_476D_1CE4_E5B9);
        z = (z ^ (z >> 27)).wrapping_mul(0x94D0_49BB_1331_11EB);
        z ^ (z >> 31)
    }
    let start: u64 = 0xD1B5_4A32_D192_ED03;
    let low = mix(start.wrapping_add(0x9E37_79B9_7F4A_7C15)) as u128;
    let high = mix(start.wrapping_add(0x9E37_79B9_7F4A_7C15).wrapping_add(0x9E37_79B9_7F4A_7C15)) as u128;
    let draw = low | (high << 64);
    let expected = (draw % 1_001) as i128;
    assert_eq!(amounts_in(&TestEnv::with_seed(0), 0, 1_000, 1), vec![expected]);
}

#[test]
fn overflow_edge_triples_brackets_the_overflow_boundary() {
    let triples = overflow_edge_triples();
    let overflowing = triples
        .iter()
        .any(|&(_, duration, rate)| (duration as i128).checked_mul(rate).is_none());
    assert!(
        overflowing,
        "overflow_edge_triples() should include at least one triple whose rate * duration overflows i128"
    );
}

#[test]
fn overflow_edge_triples_are_exactly_the_documented_seven() {
    let rate: i128 = 1 << 64;
    let boundary = (i128::MAX / rate) as u64;
    assert_eq!(
        overflow_edge_triples(),
        vec![
            (0, 0, 0),
            (1, 1, 1),
            (i128::MAX, 0, 0),
            (i128::MAX, 1, 1),
            (1, u64::MAX, i128::MAX),
            (10_000_000, boundary, rate),
            (10_000_000, boundary + 1, rate),
        ]
    );
}

#[test]
fn bps_values_includes_every_documented_boundary() {
    let values = bps_values();
    for expected in [0, 1, 9_999, 10_000] {
        assert!(values.contains(&expected));
    }
    assert!(values.iter().any(|&v| v > 10_000));
}

#[test]
fn assert_holds_passes_when_conserved() {
    Conservation {
        deposited: 100,
        withdrawn: 60,
        refunded: 10,
        remaining: 30,
    }
    .assert_holds()
    .unwrap();
}

#[test]
#[should_panic(
    expected = "conservation violated: deposited=100 withdrawn=60 refunded=10 remaining=25 delta=5"
)]
fn assert_holds_panics_with_full_diff_when_leaking() {
    Conservation {
        deposited: 100,
        withdrawn: 60,
        refunded: 10,
        remaining: 25,
    }
    .assert_holds()
    .unwrap();
}

#[test]
fn assert_within_allows_documented_tolerance() {
    Conservation {
        deposited: 100,
        withdrawn: 60,
        refunded: 10,
        remaining: 29,
    }
    .assert_within(1)
    .unwrap();
}

#[test]
#[should_panic(expected = "tolerance=1")]
fn assert_within_still_rejects_beyond_tolerance() {
    Conservation {
        deposited: 100,
        withdrawn: 60,
        refunded: 10,
        remaining: 20,
    }
    .assert_within(1)
    .unwrap();
}

#[test]
fn assert_conserved_over_runs_every_step() {
    let env = TestEnv::new();
    let calls = Cell::new(0);
    assert_conserved_over(&env, 4, |_env, step| {
        calls.set(calls.get() + 1);
        let withdrawn = step as i128 * 25;
        Conservation {
            deposited: 100,
            withdrawn,
            refunded: 0,
            remaining: 100 - withdrawn,
        }
    })
    .unwrap();
    assert_eq!(calls.get(), 4);
}

#[test]
#[should_panic(expected = "conservation violated")]
fn assert_conserved_over_panics_on_first_leaking_step() {
    let env = TestEnv::new();
    assert_conserved_over(&env, 3, |_env, step| Conservation {
        deposited: 100,
        withdrawn: step as i128,
        refunded: 0,
        remaining: 0,
    })
    .unwrap();
}

#[test]
fn assert_conserved_over_stops_at_the_first_leaking_step() {
    let env = TestEnv::new();
    let calls = Cell::new(0);
    let result = assert_conserved_over(&env, 5, |_env, step| {
        calls.set(calls.get() + 1);
        Conservation {
            deposited: 10,
            withdrawn: if step == 2 { 9 } else { 10 },
            refunded: 0,
            remaining: 0,
        }
    });
    assert!(result.is_err());
    assert_eq!(calls.get(), 3);
}

#[test]
fn negative_tolerance_counts_by_its_magnitude() {
    Conservation {
        deposited: 100,
        withdrawn: 60,
        refunded: 10,
        remaining: 31,
    }
    .assert_within(-1)
    .unwrap();
}

#[test]
fn overflowing_sum_is_reported_not_wrapped() {
    let err = Conservation {
        deposited: 0,
        withdrawn: i128::MAX,
        refunded: 1,
        remaining: -1,
    }
    .assert_holds()
    .unwrap_err();
    assert_eq!(
        err.to_string(),
        format!(
            "assertion failed: conservation check overflowed summing withdrawn ({}) + refunded (1) + remaining (-1)",
            i128::MAX
        )
    );
    assert_eq!(err.code(), "TESTKIT_ASSERTION_FAILED");
}

#[test]
fn overflowing_delta_is_reported_not_wrapped() {
    let err = Conservation {
        deposited: i128::MIN,
        withdrawn: 1,
        refunded: 0,
        remaining: 0,
    }
    .assert_holds()
    .unwrap_err();
    assert_eq!(
        err.to_string(),
        format!(
            "assertion failed: conservation check overflowed computing deposited ({}) - accounted (1)",
            i128::MIN
        )
    );
}

#[test]
fn integer_rendering_matches_display() {
    for v in [0, 1, -1, 9, 10, -10, 12_345, i128::MAX, i128::MIN] {
        assert_eq!(i128_text(v), v.to_string());
    }
    for v in [0u128, 7, 100, u128::MAX] {
        assert_eq!(u128_text(v), v.to_string());
    }
}

#[test]
fn overflow_edge_triples_hold_a_pair_on_either_side_of_the_boundary() {
    let triples = overflow_edge_triples();
    let bracketed = triples.windows(2).any(|w| {
        let ((a0, d0, r0), (a1, d1, r1)) = (w[0], w[1]);
        a0 == a1
            && r0 == r1
            && d1 == d0 + 1
            && (d0 as i128).checked_mul(r0).is_some()
            && (d1 as i128).checked_mul(r1).is_none()
    });
    assert!(bracketed);
}
