//! Adversarial value generation for money math.
use vstd::prelude::*;

use crate::base::env::TestEnv;

verus! {

/// The number of base units in one whole unit of a Stellar asset (`10^7`).
pub const STROOP: i128 = 10_000_000;

/// The amounts [`adversarial_amounts`] returns, in order.
pub open spec fn adversarial_amount_list() -> Seq<i128> {
    seq![
        0i128,
        1i128,
        -1i128,
        i128::MAX,
        i128::MIN,
        (i128::MAX - 1) as i128,
        (i128::MIN + 1) as i128,
        STROOP,
        (STROOP - 1) as i128,
        (STROOP + 1) as i128,
        (i128::MAX / 2) as i128,
        (i128::MAX / 2 + 1) as i128,
        (i128::MIN / 2) as i128,
    ]
}

/// Values chosen to break money math: `0`, `1`, `-1`, the extremes of
/// `i128` and their neighbours, stroop boundaries (`10^7`), and values
/// around the midpoint of the range, where naive `amount * rate`
/// multiplications tend to overflow first.
pub fn adversarial_amounts() -> (r: Vec<i128>)
    ensures
        r@ == adversarial_amount_list(),
{
    let r = vec![
        0,
        1,
        -1,
        i128::MAX,
        i128::MIN,
        i128::MAX - 1,
        i128::MIN + 1,
        STROOP,
        STROOP - 1,
        STROOP + 1,
        i128::MAX / 2,
        i128::MAX / 2 + 1,
        i128::MIN / 2,
    ];
    assert(r@ =~= adversarial_amount_list());
    r
}

/// The accrual rate of the bracketing pair in [`overflow_edge_triples`]:
/// `2^64`. A `u64` duration can reach the point where `rate * duration`
/// overflows `i128` only for a rate above `2^63`; at this one the boundary
/// and the duration just past it both fit.
pub const EDGE_RATE: i128 = 18_446_744_073_709_551_616;

/// The largest duration at which `EDGE_RATE * duration` still fits in
/// `i128`: `i128::MAX / EDGE_RATE`, which is `2^63 - 1`.
pub const EDGE_BOUNDARY: u64 = 9_223_372_036_854_775_807;

/// The triples [`overflow_edge_triples`] returns, in order.
pub open spec fn overflow_edge_list() -> Seq<(i128, u64, i128)> {
    seq![
        (0i128, 0u64, 0i128),
        (1i128, 1u64, 1i128),
        (i128::MAX, 0u64, 0i128),
        (i128::MAX, 1u64, 1i128),
        (1i128, u64::MAX, i128::MAX),
        (STROOP, EDGE_BOUNDARY, EDGE_RATE),
        (STROOP, (EDGE_BOUNDARY + 1) as u64, EDGE_RATE),
    ]
}

/// Triples `k` and `k + 1` of `s` bracket the overflow point: they differ
/// only in a duration one larger, and `rate * duration` fits in `i128` at
/// the first and overflows at the second.
pub open spec fn brackets_overflow(s: Seq<(i128, u64, i128)>, k: int) -> bool {
    &&& 0 <= k && k + 1 < s.len()
    &&& s[k].0 == s[k + 1].0 && s[k].2 == s[k + 1].2
    &&& s[k + 1].1 == s[k].1 + 1
    &&& s[k].1 as int * s[k].2 as int <= i128::MAX
    &&& s[k + 1].1 as int * s[k + 1].2 as int > i128::MAX
}

/// Amount/duration/rate triples where `rate * duration` sits at or just past
/// the point where it would overflow `i128` — the pattern used by interest
/// and streaming-payout accrual math. Two neighbours bracket that point
/// exactly: one at the last duration that fits, one just past it.
pub fn overflow_edge_triples() -> (r: Vec<(i128, u64, i128)>)
    ensures
        r@ == overflow_edge_list(),
        exists|k: int| #[trigger] brackets_overflow(r@, k),
{
    let r = vec![
        (0, 0, 0),
        (1, 1, 1),
        (i128::MAX, 0, 0),
        (i128::MAX, 1, 1),
        (1, u64::MAX, i128::MAX),
        (STROOP, EDGE_BOUNDARY, EDGE_RATE),
        (STROOP, EDGE_BOUNDARY + 1, EDGE_RATE),
    ];
    assert(r@ =~= overflow_edge_list());
    assert(EDGE_BOUNDARY as int * EDGE_RATE as int <= i128::MAX);
    assert((EDGE_BOUNDARY + 1) as int * EDGE_RATE as int > i128::MAX);
    assert(brackets_overflow(r@, 5));
    r
}

/// The basis-point values [`bps_values`] returns, in order.
pub open spec fn bps_list() -> Seq<u32> {
    seq![0u32, 1, 9_999, 10_000, 10_001, u32::MAX]
}

/// Basis-point values worth testing: `0`, `1`, `9999`, `10000` (100%), and
/// values past the valid range that a contract should reject.
pub fn bps_values() -> (r: Vec<u32>)
    ensures
        r@ == bps_list(),
        exists|k: int| 0 <= k < r@.len() && #[trigger] r@[k] > 10_000,
{
    let r = vec![0, 1, 9_999, 10_000, 10_001, u32::MAX];
    assert(r@ =~= bps_list());
    assert(r@[4] > 10_000);
    r
}

/// The additive step of the SplitMix64 generator.
pub const GOLDEN_GAMMA: u64 = 0x9E37_79B9_7F4A_7C15;

/// The output SplitMix64 derives from an already advanced state.
pub open spec fn splitmix_mix(s: u64) -> u64 {
    let z1 = (s ^ (s >> 30u64)).wrapping_mul(0xBF58_476D_1CE4_E5B9);
    let z2 = (z1 ^ (z1 >> 27u64)).wrapping_mul(0x94D0_49BB_1331_11EB);
    z2 ^ (z2 >> 31u64)
}

/// One step of SplitMix64: advance the state by the golden gamma
/// (wrapping), and mix the new state into an output word.
pub fn splitmix64(state: &mut u64) -> (out: u64)
    ensures
        *final(state) == old(state).wrapping_add(GOLDEN_GAMMA),
        out == splitmix_mix(*final(state)),
{
    *state = state.wrapping_add(GOLDEN_GAMMA);
    let s = *state;
    let z1 = (s ^ (s >> 30u64)).wrapping_mul(0xBF58_476D_1CE4_E5B9);
    let z2 = (z1 ^ (z1 >> 27u64)).wrapping_mul(0x94D0_49BB_1331_11EB);
    z2 ^ (z2 >> 31u64)
}

/// The value the generator state starts from for a given environment seed.
pub open spec fn initial_state(seed: u64) -> u64 {
    seed ^ 0xD1B5_4A32_D192_ED03u64
}

/// The generator state after `k` steps from `s`.
pub open spec fn state_after(s: u64, k: nat) -> u64
    decreases k,
{
    if k == 0 {
        s
    } else {
        state_after(s, (k - 1) as nat).wrapping_add(GOLDEN_GAMMA)
    }
}

/// The width of `[min, max]` minus one, as the wrapping `u128` difference
/// the generator uses.
pub open spec fn span_of(min: i128, max: i128) -> u128 {
    (max as u128).wrapping_sub(min as u128)
}

/// The 128-bit draw for amount number `i`: two consecutive generator
/// outputs, low word first.
pub open spec fn draw_of(seed: u64, i: nat) -> u128 {
    let s0 = initial_state(seed);
    let low = splitmix_mix(state_after(s0, 2 * i + 1)) as u128;
    let high = splitmix_mix(state_after(s0, 2 * i + 2)) as u128;
    low | ((high << 64u128) as u128)
}

/// Amount number `i` of [`amounts_in`] for a given seed and range.
pub open spec fn amount_at(seed: u64, min: i128, max: i128, i: nat) -> i128 {
    let span = span_of(min, max);
    let draw = draw_of(seed, i);
    let offset = if span == u128::MAX { draw } else { (draw % ((span + 1) as u128)) as u128 };
    ((min as u128).wrapping_add(offset)) as i128
}

proof fn lemma_offset_stays_in_range(min: i128, max: i128, offset: u128)
    requires
        min <= max,
        offset as int <= max - min,
    ensures
        span_of(min, max) as int == max - min,
        ((min as u128).wrapping_add(offset)) as i128 as int == min + offset,
{
    assert(span_of(min, max) as int == max - min) by (bit_vector)
        requires
            min <= max,
    ;
    assert(((min as u128).wrapping_add(offset)) as i128 as int == min + offset) by (bit_vector)
        requires
            min <= max,
            offset as int <= max - min,
    ;
}

/// Every amount [`amounts_in`] produces lies in `[min, max]`.
pub proof fn lemma_amounts_in_range(seed: u64, min: i128, max: i128, i: nat)
    requires
        min <= max,
    ensures
        min <= amount_at(seed, min, max, i) <= max,
{
    let span = span_of(min, max);
    let draw = draw_of(seed, i);
    lemma_offset_stays_in_range(min, max, 0);
    let offset: u128 = if span == u128::MAX { draw } else { (draw % ((span + 1) as u128)) as u128 };
    assert(offset as int <= max - min);
    lemma_offset_stays_in_range(min, max, offset);
}

/// The generated amounts depend on the seed alone: two environments built
/// with the same seed produce the same amounts for the same range and count.
pub proof fn lemma_amounts_reproducible(e1: &TestEnv, e2: &TestEnv, min: i128, max: i128, i: nat)
    requires
        e1.configured_seed() == e2.configured_seed(),
    ensures
        amount_at(e1.configured_seed(), min, max, i) == amount_at(e2.configured_seed(), min, max, i),
{
}

/// Random amounts in `[min, max]`, seeded from `env` so that a test using
/// [`TestEnv::with_seed`] gets the same amounts on every run.
pub fn amounts_in(env: &TestEnv, min: i128, max: i128, n: usize) -> (r: Vec<i128>)
    requires
        min <= max,
    ensures
        r.len() == n,
        forall|i: int| 0 <= i < n ==> #[trigger] r@[i] == amount_at(env.configured_seed(), min, max, i as nat),
        forall|i: int| 0 <= i < n ==> min <= #[trigger] r@[i] <= max,
{
    let seed = env.seed();
    let mut state: u64 = seed ^ 0xD1B5_4A32_D192_ED03u64;
    let span: u128 = (max as u128).wrapping_sub(min as u128);
    let mut out: Vec<i128> = Vec::new();
    let mut k: usize = 0;
    while k < n
        invariant
            k <= n,
            out.len() == k,
            seed == env.configured_seed(),
            span == span_of(min, max),
            state == state_after(initial_state(seed), 2 * k as nat),
            forall|i: int| 0 <= i < k ==> #[trigger] out@[i] == amount_at(seed, min, max, i as nat),
        decreases n - k,
    {
        let low = splitmix64(&mut state) as u128;
        let high = splitmix64(&mut state) as u128;
        let draw: u128 = low | (high << 64u128);
        let offset: u128 = if span == u128::MAX {
            draw
        } else {
            draw % (span + 1)
        };
        let amount = (min as u128).wrapping_add(offset) as i128;
        proof {
            assert(draw == draw_of(seed, k as nat));
        }
        out.push(amount);
        k = k + 1;
    }
    proof {
        assert forall|i: int| 0 <= i < n implies min <= #[trigger] out@[i] <= max by {
            lemma_amounts_in_range(seed, min, max, i as nat);
        }
    }
    out
}

} // verus!
