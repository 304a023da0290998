//! The `limits` subcommand: finding a contract function's resource ceiling
//! by ramping one parameter, and planning the arguments of each attempt.
use vstd::prelude::*;

use crate::base::render::{debug_quoted, debug_str};
use crate::cli::args::CliError;

verus! {

/// How many base units the admin is funded with for an [`ArgPlan::FundedToken`]
/// argument: half of `i128::MAX`, enough for any transfer a probe makes
/// while leaving room for the contract's own arithmetic.
pub const FUNDING_AMOUNT: i128 = 85_070_591_730_234_615_865_843_651_857_942_052_863;

/// The largest ramp value the search tries: once doubling passes it, the
/// search stops and reports the last success.
pub const RAMP_CAP: u32 = 16_777_216;

/// `probe` answers like a function whose ceiling is `t`: every value up to
/// `t` succeeds and every value above it fails, with no errors.
pub open spec fn threshold_oracle<F: Fn(u32) -> Result<bool, CliError>>(probe: F, t: nat) -> bool {
    forall|v: u32, res: Result<bool, CliError>|
        #[trigger] call_ensures(probe, (v,), res) ==> res == Ok::<bool, CliError>(v <= t)
}

/// The ceiling the search reports against a threshold oracle with ceiling
/// `t >= 1`: `t` itself, capped at [`RAMP_CAP`].
pub open spec fn capped(t: nat) -> nat {
    if t < RAMP_CAP {
        t
    } else {
        RAMP_CAP as nat
    }
}

/// `2^k`.
pub open spec fn power_of_two(k: nat) -> nat
    decreases k,
{
    if k == 0 {
        1
    } else {
        2 * power_of_two((k - 1) as nat)
    }
}

/// Every power of two below `2^k` was seen to succeed.
pub open spec fn all_ok_below<F: Fn(u32) -> Result<bool, CliError>>(probe: F, k: nat) -> bool {
    forall|j: nat| j < k ==> call_ensures(probe, (#[trigger] power_of_two(j) as u32,), Ok::<bool, CliError>(true))
}

/// `best` lies where the doubling phase stopped: every power of two below
/// `2^k` succeeded, `best` is at least `2^(k-1)`, and either `2^k` (within
/// the cap) failed and `best` is below it, or doubling passed the cap and
/// `best` is the cap.
pub open spec fn doubling_bracket<F: Fn(u32) -> Result<bool, CliError>>(probe: F, k: nat, best: u32) -> bool {
    &&& 1 <= k
    &&& all_ok_below(probe, k)
    &&& power_of_two((k - 1) as nat) <= best
    &&& if power_of_two(k) <= RAMP_CAP {
        &&& best < power_of_two(k)
        &&& call_ensures(probe, (power_of_two(k) as u32,), Ok::<bool, CliError>(false))
    } else {
        best == RAMP_CAP
    }
}

/// `best` lies where the doubling phase stopped, for some `k`.
pub open spec fn ceiling_bracketed<F: Fn(u32) -> Result<bool, CliError>>(probe: F, best: u32) -> bool {
    exists|k: nat| #[trigger] doubling_bracket(probe, k, best)
}

/// The message reported when even the smallest ramp value fails.
pub open spec fn start_failure_text(function: Seq<char>, ramp: Seq<char>) -> Seq<char> {
    debug_quoted(function) + " failed even at the smallest ramp value (1) for parameter "@
        + debug_quoted(ramp)
}

/// Where the search for a ceiling stands.
#[derive(Debug, Clone, Copy, PartialEq, Eq, Structural)]
pub enum CeilingSearch {
    /// Doubling: `low` is probed next; `last_ok` is the last value that
    /// succeeded, if any.
    Doubling { low: u32, last_ok: Option<u32> },
    /// Bisecting between the success `lo` and the failure `hi`.
    Bisecting { lo: u32, hi: u32 },
    /// The search ended with this ceiling.
    Found(u32),
    /// Even the smallest ramp value failed.
    StartFailed,
}

/// The state every search starts in: doubling from `1`.
pub open spec fn search_start() -> CeilingSearch {
    CeilingSearch::Doubling { low: 1, last_ok: None }
}

/// A state the search can be in: doubling within the cap from a power of
/// two, or bisecting a bracket within the cap.
pub open spec fn search_valid(s: CeilingSearch) -> bool {
    match s {
        CeilingSearch::Doubling { low, last_ok } => {
            &&& 1 <= low <= RAMP_CAP
            &&& low & ((low - 1) as u32) == 0
            &&& last_ok matches Some(l) ==> low == 2 * l
            &&& last_ok is None ==> low == 1
        },
        CeilingSearch::Bisecting { lo, hi } => 1 <= lo && lo + 1 < hi <= RAMP_CAP,
        CeilingSearch::Found(b) => 1 <= b <= RAMP_CAP,
        CeilingSearch::StartFailed => true,
    }
}

/// The value probed next, or `None` once the search has ended.
pub open spec fn next_probe_of(s: CeilingSearch) -> Option<u32> {
    match s {
        CeilingSearch::Doubling { low, .. } => Some(low),
        CeilingSearch::Bisecting { lo, hi } => Some((lo + (hi - lo) / 2) as u32),
        _ => None,
    }
}

/// Bisection between the success `lo` and the failure `hi`, or its end
/// once they are neighbours.
pub open spec fn bracket(lo: u32, hi: u32) -> CeilingSearch {
    if lo + 1 < hi {
        CeilingSearch::Bisecting { lo, hi }
    } else {
        CeilingSearch::Found(lo)
    }
}

/// The state after the probe of `next_probe_of(s)` answered `ok`: doubling
/// goes on while values succeed (ending at the cap), a failure starts the
/// bisection below it (or ends the search when nothing succeeded), and
/// bisection halves the bracket.
pub open spec fn step_of(s: CeilingSearch, ok: bool) -> CeilingSearch {
    match s {
        CeilingSearch::Doubling { low, last_ok } => if ok {
            if low > RAMP_CAP / 2 {
                CeilingSearch::Found(low)
            } else {
                CeilingSearch::Doubling { low: (2 * low) as u32, last_ok: Some(low) }
            }
        } else {
            match last_ok {
                None => CeilingSearch::StartFailed,
                Some(l) => bracket(l, low),
            }
        },
        CeilingSearch::Bisecting { lo, hi } => {
            let mid = (lo + (hi - lo) / 2) as u32;
            if ok {
                bracket(mid, hi)
            } else {
                bracket(lo, mid)
            }
        },
        _ => s,
    }
}

/// A measure that every step of an unfinished search decreases.
pub open spec fn search_measure(s: CeilingSearch) -> nat {
    match s {
        CeilingSearch::Doubling { low, .. } => (3 * RAMP_CAP + 1 - low) as nat,
        CeilingSearch::Bisecting { lo, hi } => (hi - lo) as nat,
        _ => 0,
    }
}

/// Start a search.
pub fn search_begin() -> (s: CeilingSearch)
    ensures
        s == search_start(),
        search_valid(s),
{
    assert(1u32 & 0u32 == 0) by (bit_vector);
    CeilingSearch::Doubling { low: 1, last_ok: None }
}

/// The value to probe next in `s`, or `None` once the search has ended.
pub fn next_probe(s: &CeilingSearch) -> (r: Option<u32>)
    requires
        search_valid(*s),
    ensures
        r == next_probe_of(*s),
        r matches Some(v) ==> 1 <= v <= RAMP_CAP,
{
    match s {
        CeilingSearch::Doubling { low, .. } => Some(*low),
        CeilingSearch::Bisecting { lo, hi } => Some(*lo + (*hi - *lo) / 2),
        _ => None,
    }
}

/// Advance `s` by the answer `ok` to the probe of [`next_probe`].
pub fn search_step(s: CeilingSearch, ok: bool) -> (r: CeilingSearch)
    requires
        search_valid(s),
    ensures
        r == step_of(s, ok),
        search_valid(r),
        next_probe_of(s) is Some ==> search_measure(r) < search_measure(s),
{
    match s {
        CeilingSearch::Doubling { low, last_ok } => if ok {
            if low > RAMP_CAP / 2 {
                CeilingSearch::Found(low)
            } else {
                assert(low & ((low - 1) as u32) == 0 && 1 <= low <= RAMP_CAP / 2 ==> ((2 * low) as u32) & (
                ((2 * low) as u32 - 1) as u32) == 0) by (bit_vector);
                CeilingSearch::Doubling { low: 2 * low, last_ok: Some(low) }
            }
        } else {
            match last_ok {
                None => CeilingSearch::StartFailed,
                Some(l) => if l + 1 < low {
                    CeilingSearch::Bisecting { lo: l, hi: low }
                } else {
                    CeilingSearch::Found(l)
                },
            }
        },
        CeilingSearch::Bisecting { lo, hi } => {
            let mid = lo + (hi - lo) / 2;
            let (a, b) = if ok {
                (mid, hi)
            } else {
                (lo, mid)
            };
            if a + 1 < b {
                CeilingSearch::Bisecting { lo: a, hi: b }
            } else {
                CeilingSearch::Found(a)
            }
        },
        _ => s,
    }
}

/// What the search knows in state `s` about `probe`, with `2^k` the next
/// power of two the doubling phase reaches.
pub open spec fn search_inv<F: Fn(u32) -> Result<bool, CliError>>(probe: F, s: CeilingSearch, k: nat) -> bool {
    let all_fail_at_one = forall|res: Result<bool, CliError>|
        call_ensures(probe, (1u32,), res) ==> res == Ok::<bool, CliError>(false);
    match s {
        CeilingSearch::Doubling { low, last_ok } => {
            &&& low == power_of_two(k)
            &&& all_ok_below(probe, k)
            &&& (k == 0 <==> last_ok is None)
            &&& last_ok matches Some(l) ==> l == power_of_two((k - 1) as nat)
            &&& all_fail_at_one ==> last_ok is None
            &&& forall|t: nat| #[trigger] threshold_oracle(probe, t) ==> (last_ok matches Some(l) ==> l <= t)
        },
        CeilingSearch::Bisecting { lo, hi } => {
            &&& k >= 1
            &&& all_ok_below(probe, k)
            &&& power_of_two((k - 1) as nat) <= lo
            &&& hi <= power_of_two(k) <= RAMP_CAP
            &&& call_ensures(probe, (power_of_two(k) as u32,), Ok::<bool, CliError>(false))
            &&& call_ensures(probe, (lo,), Ok::<bool, CliError>(true))
            &&& call_ensures(probe, (hi,), Ok::<bool, CliError>(false))
            &&& forall|t: nat| #[trigger] threshold_oracle(probe, t) ==> lo <= t < hi
        },
        CeilingSearch::Found(best) => {
            &&& ceiling_bracketed(probe, best)
            &&& call_ensures(probe, (best,), Ok::<bool, CliError>(true))
            &&& best == RAMP_CAP || call_ensures(probe, ((best + 1) as u32,), Ok::<bool, CliError>(false))
            &&& !all_fail_at_one
            &&& forall|t: nat| #[trigger] threshold_oracle(probe, t) ==> t > 0 && best == capped(t)
        },
        CeilingSearch::StartFailed => {
            &&& call_ensures(probe, (1u32,), Ok::<bool, CliError>(false))
            &&& forall|t: nat| #[trigger] threshold_oracle(probe, t) ==> t == 0
        },
    }
}

/// One step keeps what the search knows: after probing `next_probe_of(s)`
/// and seeing `ok`, the knowledge holds of the next state (with the
/// returned doubling exponent).
proof fn lemma_step_keeps_inv<F: Fn(u32) -> Result<bool, CliError>>(probe: F, s: CeilingSearch, k: nat, ok: bool) -> (k2: nat)
    requires
        search_valid(s),
        search_inv(probe, s, k),
        next_probe_of(s) matches Some(v) && call_ensures(probe, (v,), Ok::<bool, CliError>(ok)),
    ensures
        search_inv(probe, step_of(s, ok), k2),
{
    assert(power_of_two(0) == 1);
    match s {
        CeilingSearch::Doubling { low, last_ok } => {
            if ok {
                assert forall|j: nat| j < k + 1 implies call_ensures(probe, (#[trigger] power_of_two(j) as u32,), Ok::<bool, CliError>(true)) by {
                    if j < k {
                        assert(all_ok_below(probe, k));
                    }
                }
                assert(all_ok_below(probe, k + 1));
                if low > RAMP_CAP / 2 {
                    assert(low & ((low - 1) as u32) == 0 && 1 <= low <= RAMP_CAP && low > RAMP_CAP / 2 ==> low == RAMP_CAP) by (bit_vector);
                    assert(doubling_bracket(probe, k + 1, low));
                    assert(ceiling_bracketed(probe, low));
                    k + 1
                } else {
                    k + 1
                }
            } else {
                match last_ok {
                    None => k,
                    Some(l) => {
                        if l + 1 < low {
                        } else {
                            assert(doubling_bracket(probe, k, l));
                            assert(ceiling_bracketed(probe, l));
                        }
                        k
                    },
                }
            }
        },
        CeilingSearch::Bisecting { lo, hi } => {
            let mid = (lo + (hi - lo) / 2) as u32;
            if ok {
                if !(mid + 1 < hi) {
                    assert(doubling_bracket(probe, k, mid));
                    assert(ceiling_bracketed(probe, mid));
                }
            } else {
                if !(lo + 1 < mid) {
                    assert(doubling_bracket(probe, k, lo));
                    assert(ceiling_bracketed(probe, lo));
                }
            }
            k
        },
        _ => k,
    }
}

/// The state a fresh search reaches after the answers `answers`.
pub open spec fn replay(answers: Seq<bool>) -> CeilingSearch
    decreases answers.len(),
{
    if answers.len() == 0 {
        search_start()
    } else {
        step_of(replay(answers.drop_last()), answers.last())
    }
}

/// `probed` are the values the search probes while it receives `answers`:
/// each is the next probe of the state the answers before it lead to.
pub open spec fn follows_machine(probed: Seq<u32>, answers: Seq<bool>) -> bool {
    &&& answers.len() <= probed.len() <= answers.len() + 1
    &&& forall|i: int| 0 <= i < probed.len() ==> next_probe_of(replay(answers.take(i))) == Some(#[trigger] probed[i])
}

/// `r` is the outcome of a search of `probe` that probed `probed` and
/// received `answers`: it followed the state machine, each answer is one
/// the probe can give, and either a probe error ended it (the last value
/// got no answer) or the machine finished and `r` is its verdict.
pub open spec fn traced_run<F: Fn(u32) -> Result<bool, CliError>>(
    probe: F,
    probed: Seq<u32>,
    answers: Seq<bool>,
    r: Result<u32, CliError>,
) -> bool {
    &&& follows_machine(probed, answers)
    &&& forall|i: int| 0 <= i < answers.len() ==> call_ensures(probe, (#[trigger] probed[i],), Ok::<bool, CliError>(answers[i]))
    &&& if probed.len() == answers.len() {
        &&& finished(replay(answers))
        &&& replay(answers) matches CeilingSearch::Found(b) ==> r == Ok::<u32, CliError>(b)
        &&& replay(answers) is StartFailed ==> r is Err
    } else {
        r matches Err(e) && call_ensures(probe, (probed.last(),), Err::<bool, CliError>(e))
    }
}

/// Some answers make `probed` and `r` a traced run of `probe`.
pub open spec fn search_traced<F: Fn(u32) -> Result<bool, CliError>>(probe: F, probed: Seq<u32>, r: Result<u32, CliError>) -> bool {
    exists|answers: Seq<bool>| #[trigger] traced_run(probe, probed, answers, r)
}

proof fn lemma_replay_push(answers: Seq<bool>, b: bool)
    ensures
        replay(answers.push(b)) == step_of(replay(answers), b),
{
    assert(answers.push(b).drop_last() =~= answers);
}

proof fn lemma_follows_push(probed: Seq<u32>, answers: Seq<bool>, v: u32)
    requires
        probed.len() == answers.len(),
        follows_machine(probed, answers),
        next_probe_of(replay(answers)) == Some(v),
    ensures
        follows_machine(probed.push(v), answers),
{
    assert(answers.take(answers.len() as int) =~= answers);
    assert forall|i: int| 0 <= i < probed.push(v).len() implies next_probe_of(replay(answers.take(i))) == Some(
        #[trigger] probed.push(v)[i],
    ) by {
        if i < probed.len() {
            assert(probed.push(v)[i] == probed[i]);
        }
    }
}

proof fn lemma_follows_answered(probed: Seq<u32>, answers: Seq<bool>, v: u32, b: bool)
    requires
        probed.len() == answers.len(),
        follows_machine(probed.push(v), answers),
    ensures
        follows_machine(probed.push(v), answers.push(b)),
{
    assert forall|i: int| 0 <= i < probed.push(v).len() implies next_probe_of(replay(answers.push(b).take(i))) == Some(
        #[trigger] probed.push(v)[i],
    ) by {
        assert(answers.push(b).take(i) =~= answers.take(i));
    }
}

/// Search for the largest ramp value at which `probe` succeeds: double from
/// `1` until a value fails (or doubling passes [`RAMP_CAP`]), then bisect
/// between the last success and the first failure. An error from `probe`
/// stops the search and is returned as it is.
///
/// Every value probed lies in `1..=RAMP_CAP`. The value found succeeded
/// when probed, and the next one up failed unless the cap was reached; for
/// any probe it lies in `[2^(k-1), 2^k)` where `2^k` is the first power of
/// two that failed (or is the cap when none up to the cap failed). A probe
/// whose every answer at `1` is a failure gives the start-failure error.
/// Against a probe that answers like a function with ceiling `t`, the
/// search finds exactly `t` (capped at [`RAMP_CAP`]), or reports that even
/// `1` failed when `t` is `0`. The search is the state machine of
/// [`search_begin`], [`next_probe`] and [`search_step`]; its probe budget
/// is [`lemma_probe_budget`].
pub fn find_ceiling<F: Fn(u32) -> Result<bool, CliError>>(function: &str, ramp: &str, probe: F) -> (out: (
    Result<u32, CliError>,
    Ghost<Seq<u32>>,
))
    requires
        forall|v: u32| 1 <= v <= RAMP_CAP ==> call_requires(probe, (v,)),
    ensures
        out.0 matches Ok(best) ==> ceiling_bracketed(probe, best),
        (forall|res: Result<bool, CliError>| call_ensures(probe, (1u32,), res) ==> res == Ok::<bool, CliError>(false))
            ==> (out.0 matches Err(e) && e.0@ == start_failure_text(function@, ramp@)),
        out.0 matches Ok(best) ==> {
            &&& 1 <= best <= RAMP_CAP
            &&& call_ensures(probe, (best,), Ok::<bool, CliError>(true))
            &&& best == RAMP_CAP || call_ensures(probe, ((best + 1) as u32,), Ok::<bool, CliError>(false))
        },
        out.0 matches Err(e) ==> {
            ||| exists|v: u32| call_ensures(probe, (v,), Err::<bool, CliError>(e))
            ||| e.0@ == start_failure_text(function@, ramp@) && call_ensures(probe, (1u32,), Ok::<bool, CliError>(false))
        },
        forall|t: nat| #[trigger] threshold_oracle(probe, t) ==> {
            &&& t == 0 ==> (out.0 matches Err(e) && e.0@ == start_failure_text(function@, ramp@))
            &&& t > 0 ==> out.0 == Ok::<u32, CliError>(capped(t) as u32)
        },
        search_traced(probe, out.1@, out.0),
        (forall|res: Result<bool, CliError>| call_ensures(probe, (1u32,), res) ==> res == Ok::<bool, CliError>(false))
            ==> out.1@ == seq![1u32],
        forall|t: nat, k: nat| #![trigger threshold_oracle(probe, t), power_of_two(k)] threshold_oracle(probe, t) && 1 <= k <= 24
            && power_of_two((k - 1) as nat) <= t < power_of_two(k) ==> out.1@.len() == 2 * k,
        forall|t: nat| #[trigger] threshold_oracle(probe, t) && t >= RAMP_CAP ==> out.1@.len() == 25,
        forall|t: nat| #[trigger] threshold_oracle(probe, t) && t == 0 ==> out.1@.len() == 1,

{
    let mut s = search_begin();
    let ghost mut k: nat = 0;
    let ghost mut probed: Seq<u32> = Seq::empty();
    let ghost mut answers: Seq<bool> = Seq::empty();
    assert(1u32 & 0u32 == 0) by (bit_vector);
    loop
        invariant
            forall|v: u32| 1 <= v <= RAMP_CAP ==> call_requires(probe, (v,)),
            search_valid(s),
            search_inv(probe, s, k),
            s == replay(answers),
            probed.len() == answers.len(),
            follows_machine(probed, answers),
            forall|i: int| 0 <= i < answers.len() ==> call_ensures(probe, (#[trigger] probed[i],), Ok::<bool, CliError>(answers[i])),
        ensures
            search_valid(s),
            search_inv(probe, s, k),
            next_probe_of(s) is None,
            s == replay(answers),
            probed.len() == answers.len(),
            follows_machine(probed, answers),
            forall|i: int| 0 <= i < answers.len() ==> call_ensures(probe, (#[trigger] probed[i],), Ok::<bool, CliError>(answers[i])),
        decreases search_measure(s),
    {
        let v = match next_probe(&s) {
            Some(v) => v,
            None => break,
        };
        proof {
            lemma_follows_push(probed, answers, v);
        }
        let ok = match probe(v) {
            Ok(b) => b,
            Err(e) => {
                assert(power_of_two(0) == 1);
                let r: Result<u32, CliError> = Err(e);
                let ghost trace = probed.push(v);
                assert(traced_run(probe, trace, answers, r));
                assert(search_traced(probe, trace, r));
                proof {
                    lemma_first_probe(probe, trace, answers);
                }
                return (r, Ghost(trace));
            },
        };
        let ghost before = s;
        s = search_step(s, ok);
        proof {
            k = lemma_step_keeps_inv(probe, before, k, ok);
            lemma_replay_push(answers, ok);
            lemma_follows_answered(probed, answers, v, ok);
            probed = probed.push(v);
            answers = answers.push(ok);
        }
    }
    let r = match s {
        CeilingSearch::Found(best) => Ok(best),
        _ => {
            let mut m = debug_str(function);
            m.append(" failed even at the smallest ramp value (1) for parameter ");
            m.append(debug_str(ramp).as_str());
            Err(CliError(m))
        },
    };
    proof {
        assert(traced_run(probe, probed, answers, r));
        assert(search_traced(probe, probed, r));
        lemma_first_probe(probe, probed, answers);
        assert forall|t: nat, kk: nat| #![trigger threshold_oracle(probe, t), power_of_two(kk)] threshold_oracle(probe, t) && 1 <= kk
            <= 24 && power_of_two((kk - 1) as nat) <= t < power_of_two(kk) implies probed.len() == 2 * kk by {
            lemma_probe_budget(t, kk);
            lemma_trace_length(probe, t, probed, answers, 2 * kk);
        }
        assert forall|t: nat| #[trigger] threshold_oracle(probe, t) && t >= RAMP_CAP implies probed.len() == 25 by {
            lemma_probe_budget(t, 1);
            lemma_trace_length(probe, t, probed, answers, 25);
        }
        assert forall|t: nat| #[trigger] threshold_oracle(probe, t) && t == 0 implies probed.len() == 1 by {
            lemma_probe_budget(t, 1);
            lemma_trace_length(probe, t, probed, answers, 1);
        }
    }
    (r, Ghost(probed))
}

} // verus!

verus! {

/// The numeric parameter types a ramp or a default can fill.
#[derive(Debug, Clone, Copy, PartialEq, Eq, Structural)]
pub enum Numeric {
    /// `u32`
    U32,
    /// `i32`
    I32,
    /// `u64`
    U64,
    /// `i64`
    I64,
    /// `u128`
    U128,
    /// `i128`
    I128,
}

/// The type of a contract function's parameter, as far as the `limits`
/// command distinguishes types.
#[derive(Debug, Clone, Copy, PartialEq, Eq, Structural)]
pub enum ParamType {
    /// One of the integer types.
    Number(Numeric),
    /// `bool`
    Bool,
    /// `Symbol`
    Symbol,
    /// `String`
    Str,
    /// `Bytes`
    Bytes,
    /// `Address`
    Address,
    /// `Vec<T>`; whether `T` is `Address`.
    Vec { of_address: bool },
    /// Any other type (`Map`, `Tuple`, `Option`, a user-defined type, ...).
    Other,
}

/// A contract function's parameter: its name, its type, and the `Debug`
/// rendering of the type from the contract's spec, for error messages.
#[derive(Debug)]
pub struct ParamSpec {
    /// The parameter's name.
    pub name: String,
    /// The parameter's type.
    pub kind: ParamType,
    /// How the contract spec's type renders, for error messages.
    pub type_text: String,
}

/// How one argument of an attempt is filled in.
#[derive(Debug, Clone, Copy, PartialEq, Eq, Structural)]
pub enum ArgPlan {
    /// The ramp value itself, as this integer type.
    Ramp(Numeric),
    /// As many freshly generated addresses as the ramp value.
    RampAddresses,
    /// A deployed Stellar Asset Contract, funded for the generated admin.
    FundedToken,
    /// The generated admin address.
    Admin,
    /// `false`
    False,
    /// The value `1` of this integer type.
    One(Numeric),
    /// The symbol `x`.
    SymbolX,
    /// The empty string.
    EmptyString,
    /// Empty bytes.
    EmptyBytes,
    /// An empty vector.
    EmptyVec,
}

/// How the ramp parameter of type `kind` is filled, if the command can ramp
/// it: integers carry the ramp value, `Vec<Address>` that many addresses.
pub open spec fn ramp_plan_of(kind: ParamType) -> Option<ArgPlan> {
    match kind {
        ParamType::Number(n) => Some(ArgPlan::Ramp(n)),
        ParamType::Vec { of_address: true } => Some(ArgPlan::RampAddresses),
        _ => None,
    }
}

/// How a non-ramp parameter named `name` of type `kind` is filled, if the
/// command can default it. An `Address` parameter literally named `token`
/// gets a funded token contract, by Soroban convention; integers default to
/// `1`, since far more contracts reject a non-positive amount than `1`.
pub open spec fn default_plan_of(name: Seq<char>, kind: ParamType) -> Option<ArgPlan> {
    match kind {
        ParamType::Address => if name == "token"@ {
            Some(ArgPlan::FundedToken)
        } else {
            Some(ArgPlan::Admin)
        },
        ParamType::Bool => Some(ArgPlan::False),
        ParamType::Number(n) => Some(ArgPlan::One(n)),
        ParamType::Symbol => Some(ArgPlan::SymbolX),
        ParamType::Str => Some(ArgPlan::EmptyString),
        ParamType::Bytes => Some(ArgPlan::EmptyBytes),
        ParamType::Vec { .. } => Some(ArgPlan::EmptyVec),
        _ => None,
    }
}

/// The message reported for a ramp parameter of an unsupported type.
pub open spec fn unsupported_ramp_text(type_text: Seq<char>) -> Seq<char> {
    "the ramp parameter's type ("@ + type_text
        + ") isn't supported yet; supported ramp types are u32/i32/u64/i64/u128/i128 and Vec<Address>"@
}

/// The message reported for a parameter whose type cannot be defaulted.
pub open spec fn undefaultable_text(name: Seq<char>, type_text: Seq<char>) -> Seq<char> {
    "parameter "@ + debug_quoted(name) + " has type "@ + type_text
        + ", which this command doesn't know how to default yet; only the --ramp parameter needs a type this command understands today, every other parameter needs a supported default type"@
}

/// How parameter `p` is filled, or the text of the error if it cannot be.
pub open spec fn plan_of(p: ParamSpec, is_ramp: bool) -> Result<ArgPlan, Seq<char>> {
    if is_ramp {
        match ramp_plan_of(p.kind) {
            Some(a) => Ok(a),
            None => Err(unsupported_ramp_text(p.type_text@)),
        }
    } else {
        match default_plan_of(p.name@, p.kind) {
            Some(a) => Ok(a),
            None => Err(undefaultable_text(p.name@, p.type_text@)),
        }
    }
}

fn is_token_name(name: &String) -> (r: bool)
    ensures
        r == (name@ == "token"@),
{
    let token = String::from_str("token");
    *name == token
}

/// Plan how parameter `p` is filled: as the ramp parameter if `is_ramp`,
/// otherwise with a fixed default.
pub fn plan_param(p: &ParamSpec, is_ramp: bool) -> (r: Result<ArgPlan, CliError>)
    ensures
        r matches Ok(a) ==> plan_of(*p, is_ramp) == Ok::<ArgPlan, Seq<char>>(a),
        r matches Err(e) ==> plan_of(*p, is_ramp) == Err::<ArgPlan, Seq<char>>(e.0@),
        forall|n: Numeric| is_ramp && p.kind == ParamType::Number(n) ==> r == Ok::<ArgPlan, CliError>(ArgPlan::Ramp(n)),
        is_ramp && p.kind == (ParamType::Vec { of_address: true }) ==> r == Ok::<ArgPlan, CliError>(ArgPlan::RampAddresses),
        !is_ramp ==> forall|a: ArgPlan| r == Ok::<ArgPlan, CliError>(a) ==> !(a is Ramp || a is RampAddresses),
{
    proof {
        lemma_only_the_ramp_parameter_ramps(*p, is_ramp);
    }
    if is_ramp {
        match p.kind {
            ParamType::Number(n) => Ok(ArgPlan::Ramp(n)),
            ParamType::Vec { of_address: true } => Ok(ArgPlan::RampAddresses),
            _ => {
                let mut m = String::from_str("the ramp parameter's type (");
                m.append(p.type_text.as_str());
                m.append(
                    ") isn't supported yet; supported ramp types are u32/i32/u64/i64/u128/i128 and Vec<Address>",
                );
                Err(CliError(m))
            },
        }
    } else {
        match p.kind {
            ParamType::Address => if is_token_name(&p.name) {
                Ok(ArgPlan::FundedToken)
            } else {
                Ok(ArgPlan::Admin)
            },
            ParamType::Bool => Ok(ArgPlan::False),
            ParamType::Number(n) => Ok(ArgPlan::One(n)),
            ParamType::Symbol => Ok(ArgPlan::SymbolX),
            ParamType::Str => Ok(ArgPlan::EmptyString),
            ParamType::Bytes => Ok(ArgPlan::EmptyBytes),
            ParamType::Vec { .. } => Ok(ArgPlan::EmptyVec),
            ParamType::Other => {
                let mut m = String::from_str("parameter ");
                m.append(debug_str(p.name.as_str()).as_str());
                m.append(" has type ");
                m.append(p.type_text.as_str());
                m.append(
                    ", which this command doesn't know how to default yet; only the --ramp parameter needs a type this command understands today, every other parameter needs a supported default type",
                );
                Err(CliError(m))
            },
        }
    }
}

/// Plan every argument of an attempt: the parameter at `ramp_index` carries
/// the ramp value and every other one a fixed default. Fails with the error
/// of the first parameter, in order, that cannot be filled.
pub fn plan_args(params: &Vec<ParamSpec>, ramp_index: usize) -> (r: Result<Vec<ArgPlan>, CliError>)
    ensures
        r matches Ok(plans) ==> plans.len() == params.len() && forall|i: int|
            0 <= i < params.len() ==> plan_of(#[trigger] params@[i], i == ramp_index)
                == Ok::<ArgPlan, Seq<char>>(plans@[i]),
        r matches Err(e) ==> exists|k: int|
            0 <= k < params.len() && plan_of(#[trigger] params@[k], k == ramp_index) == Err::<
                ArgPlan,
                Seq<char>,
            >(e.0@) && forall|i: int| 0 <= i < k ==> plan_of(#[trigger] params@[i], i == ramp_index) is Ok,
        r is Ok <==> forall|i: int| 0 <= i < params.len() ==> plan_of(#[trigger] params@[i], i == ramp_index) is Ok,
        r matches Ok(plans) ==> (ramp_index < params.len() && params@[ramp_index as int].kind is Number ==> plans@[ramp_index as int]
            == ArgPlan::Ramp(params@[ramp_index as int].kind->Number_0)),
        r matches Ok(plans) ==> forall|i: int| 0 <= i < params.len() && i != ramp_index ==> !(#[trigger] plans@[i] is Ramp
            || plans@[i] is RampAddresses),
{
    let mut plans: Vec<ArgPlan> = Vec::new();
    let mut i: usize = 0;
    while i < params.len()
        invariant
            i <= params.len(),
            plans.len() == i,
            forall|j: int|
                0 <= j < i ==> plan_of(#[trigger] params@[j], j == ramp_index) == Ok::<
                    ArgPlan,
                    Seq<char>,
                >(plans@[j]),
        decreases params.len() - i,
    {
        match plan_param(&params[i], i == ramp_index) {
            Ok(a) => plans.push(a),
            Err(e) => {
                assert(plan_of(params@[i as int], i as int == ramp_index) is Err);
                return Err(e);
            },
        }
        i = i + 1;
    }
    proof {
        if ramp_index < params.len() {
            lemma_only_the_ramp_parameter_ramps(params@[ramp_index as int], true);
        }
        assert forall|k: int| 0 <= k < params.len() && k != ramp_index implies !(#[trigger] plans@[k] is Ramp
            || plans@[k] is RampAddresses) by {
            lemma_only_the_ramp_parameter_ramps(params@[k], false);
        }
    }
    Ok(plans)
}

/// Whether a spec entry is the function named `wanted`.
pub open spec fn entry_named(entry: Option<String>, wanted: Seq<char>) -> bool {
    match entry {
        Some(n) => n@ == wanted,
        None => false,
    }
}

/// The position of the first entry of `names` that is `Some(wanted)`, or
/// `None` if there is none. Contract specs list functions and other
/// entries; `names` holds the function names in spec order, `None` for the
/// entries that are not functions.
pub fn find_entry(names: &Vec<Option<String>>, wanted: &str) -> (r: Option<usize>)
    ensures
        r matches Some(i) ==> i < names.len() && entry_named(names@[i as int], wanted@),
        r matches Some(i) ==> forall|j: int|
            0 <= j < i ==> !entry_named(#[trigger] names@[j], wanted@),
        r is None ==> forall|j: int|
            0 <= j < names.len() ==> !entry_named(#[trigger] names@[j], wanted@),
{
    let target = String::from_str(wanted);
    let mut i: usize = 0;
    while i < names.len()
        invariant
            i <= names.len(),
            target@ == wanted@,
            forall|j: int| 0 <= j < i ==> !entry_named(#[trigger] names@[j], wanted@),
        decreases names.len() - i,
    {
        match &names[i] {
            Some(n) => {
                if *n == target {
                    return Some(i);
                }
            },
            None => {},
        }
        i = i + 1;
    }
    None
}

/// The message reported when the contract has no function of that name;
/// `contract` is how the contract's path displays.
pub open spec fn missing_function_text(function: Seq<char>, contract: Seq<char>) -> Seq<char> {
    "no function named "@ + debug_quoted(function) + " in "@ + contract + "'s spec"@
}

/// The message reported when the function has no parameter of the ramp's
/// name.
pub open spec fn missing_param_text(function: Seq<char>, ramp: Seq<char>) -> Seq<char> {
    debug_quoted(function) + " has no parameter named "@ + debug_quoted(ramp)
}

/// Locate `function` among the spec entries `entries` (function names in
/// spec order, `None` for other entries) of the contract that displays as
/// `contract`.
pub fn locate_function(entries: &Vec<Option<String>>, function: &str, contract: &str) -> (r: Result<
    usize,
    CliError,
>)
    ensures
        r matches Ok(i) ==> i < entries.len() && entry_named(entries@[i as int], function@),
        r matches Ok(i) ==> forall|j: int|
            0 <= j < i ==> !entry_named(#[trigger] entries@[j], function@),
        r is Err <==> forall|j: int|
            0 <= j < entries.len() ==> !entry_named(#[trigger] entries@[j], function@),
        r matches Err(e) ==> e.0@ == missing_function_text(function@, contract@),
{
    match find_entry(entries, function) {
        Some(i) => Ok(i),
        None => {
            let mut m = String::from_str("no function named ");
            m.append(debug_str(function).as_str());
            m.append(" in ");
            m.append(contract);
            m.append("'s spec");
            Err(CliError(m))
        },
    }
}

/// Locate the ramp parameter `ramp` among the parameters of `function`.
pub fn locate_param(params: &Vec<ParamSpec>, function: &str, ramp: &str) -> (r: Result<usize, CliError>)
    ensures
        r matches Ok(i) ==> i < params.len() && params@[i as int].name@ == ramp@,
        r matches Ok(i) ==> forall|j: int| 0 <= j < i ==> (#[trigger] params@[j]).name@ != ramp@,
        r is Err <==> forall|j: int| 0 <= j < params.len() ==> (#[trigger] params@[j]).name@ != ramp@,
        r matches Err(e) ==> e.0@ == missing_param_text(function@, ramp@),
{
    let target = String::from_str(ramp);
    let mut i: usize = 0;
    while i < params.len()
        invariant
            i <= params.len(),
            target@ == ramp@,
            forall|j: int| 0 <= j < i ==> (#[trigger] params@[j]).name@ != ramp@,
        decreases params.len() - i,
    {
        if params[i].name == target {
            return Ok(i);
        }
        i = i + 1;
    }
    let mut m = debug_str(function);
    m.append(" has no parameter named ");
    m.append(debug_str(ramp).as_str());
    Err(CliError(m))
}

} // verus!

verus! {

/// The search from `s` after `n` probes answered as a function with
/// ceiling `t` answers them (a value succeeds exactly when it is at most
/// `t`); a finished search stays as it is.
pub open spec fn run_against(s: CeilingSearch, t: nat, n: nat) -> CeilingSearch
    decreases n,
{
    if n == 0 {
        s
    } else {
        let p = run_against(s, t, (n - 1) as nat);
        match next_probe_of(p) {
            Some(v) => step_of(p, v <= t),
            None => p,
        }
    }
}

/// Whether the search has ended.
pub open spec fn finished(s: CeilingSearch) -> bool {
    next_probe_of(s) is None
}

proof fn lemma_power_of_two_monotone(a: nat, b: nat)
    requires
        a <= b,
    ensures
        1 <= power_of_two(a) <= power_of_two(b),
    decreases b,
{
    if b > 0 {
        if a < b {
            lemma_power_of_two_monotone(a, (b - 1) as nat);
        } else {
            lemma_power_of_two_monotone((b - 1) as nat, (b - 1) as nat);
        }
    }
}

proof fn lemma_cap_is_a_power_of_two()
    ensures
        power_of_two(24) == RAMP_CAP,
        power_of_two(23) == RAMP_CAP / 2,
{
    reveal_with_fuel(power_of_two, 25);
}

proof fn lemma_run_composes(s: CeilingSearch, t: nat, a: nat, b: nat)
    ensures
        run_against(s, t, a + b) == run_against(run_against(s, t, a), t, b),
    decreases b,
{
    if b > 0 {
        lemma_run_composes(s, t, a, (b - 1) as nat);
        assert((a + b - 1) as nat == a + (b - 1) as nat);
    }
}

/// The state of the doubling phase after `j` successes.
pub open spec fn doubling_at(j: nat) -> CeilingSearch {
    CeilingSearch::Doubling {
        low: power_of_two(j) as u32,
        last_ok: if j == 0 {
            None
        } else {
            Some(power_of_two((j - 1) as nat) as u32)
        },
    }
}

proof fn lemma_doubling_phase(t: nat, k: nat, j: nat)
    requires
        j <= k <= 24,
        k >= 1 ==> power_of_two((k - 1) as nat) <= t,
    ensures
        run_against(search_start(), t, j) == doubling_at(j),
    decreases j,
{
    if j > 0 {
        lemma_doubling_phase(t, k, (j - 1) as nat);
        lemma_power_of_two_monotone((j - 1) as nat, (k - 1) as nat);
        lemma_power_of_two_monotone((j - 1) as nat, 23);
        lemma_cap_is_a_power_of_two();
        let low = power_of_two((j - 1) as nat);
        assert(low <= t);
        assert(low <= RAMP_CAP / 2);
        assert(power_of_two(j) == 2 * low);
    }
}

proof fn lemma_bisection_phase(lo: u32, hi: u32, t: nat, m: nat)
    requires
        m >= 1,
        1 <= lo,
        hi <= RAMP_CAP,
        hi - lo == power_of_two(m),
        lo <= t < hi,
    ensures
        run_against(CeilingSearch::Bisecting { lo, hi }, t, m) == CeilingSearch::Found(t as u32),
        forall|n: nat| n < m ==> !finished(#[trigger] run_against(CeilingSearch::Bisecting { lo, hi }, t, n)),
    decreases m,
{
    let s = CeilingSearch::Bisecting { lo, hi };
    let half = power_of_two((m - 1) as nat);
    lemma_power_of_two_monotone(0, (m - 1) as nat);
    assert((hi - lo) / 2 == half);
    let mid = (lo + half) as u32;
    let s1 = step_of(s, mid <= t);
    assert(run_against(s, t, 1) == s1) by {
        assert(run_against(s, t, 0) == s);
    }
    if m == 1 {
        assert(half == 1);
        assert forall|n: nat| n < m implies !finished(#[trigger] run_against(s, t, n)) by {
            assert(n == 0);
        }
    } else {
        let (a, b) = if mid <= t {
            (mid, hi)
        } else {
            (lo, mid)
        };
        assert(s1 == CeilingSearch::Bisecting { lo: a, hi: b });
        lemma_bisection_phase(a, b, t, (m - 1) as nat);
        lemma_run_composes(s, t, 1, (m - 1) as nat);
        assert forall|n: nat| n < m implies !finished(#[trigger] run_against(s, t, n)) by {
            if n > 0 {
                lemma_run_composes(s, t, 1, (n - 1) as nat);
                assert(1 + (n - 1) as nat == n);
                assert(!finished(run_against(s1, t, (n - 1) as nat)));
            }
        }
    }
}

/// The probe budget of the search: against a probe answering like a
/// function whose ceiling `t` lies in `[2^(k-1), 2^k)` with `2^k` within the
/// cap, the search ends after exactly `2k` probes (`k + 1` doubling,
/// `k - 1` bisecting) and reports `t`; with `t` at or past the cap it ends
/// after exactly 25 probes and reports the cap; with `t` zero it ends after
/// one probe, having failed at the smallest value. Every probed value lies
/// in `1..=RAMP_CAP` (see [`next_probe`]).
pub proof fn lemma_probe_budget(t: nat, k: nat)
    ensures
        1 <= k <= 24 && power_of_two((k - 1) as nat) <= t < power_of_two(k) ==> {
            &&& run_against(search_start(), t, 2 * k) == CeilingSearch::Found(t as u32)
            &&& forall|n: nat| n < 2 * k ==> !finished(#[trigger] run_against(search_start(), t, n))
        },
        t >= RAMP_CAP ==> {
            &&& run_against(search_start(), t, 25) == CeilingSearch::Found(RAMP_CAP)
            &&& forall|n: nat| n < 25 ==> !finished(#[trigger] run_against(search_start(), t, n))
        },
        t == 0 ==> run_against(search_start(), t, 1) == CeilingSearch::StartFailed,
{
    lemma_cap_is_a_power_of_two();
    assert(power_of_two(0) == 1);
    if 1 <= k <= 24 && power_of_two((k - 1) as nat) <= t < power_of_two(k) {
        lemma_doubling_phase(t, k, k);
        lemma_power_of_two_monotone(k, 24);
        let lo = power_of_two((k - 1) as nat);
        let hi = power_of_two(k);
        assert(hi == 2 * lo);
        let after = run_against(search_start(), t, k + 1);
        assert(after == bracket(lo as u32, hi as u32));
        assert forall|n: nat| n <= k implies !finished(#[trigger] run_against(search_start(), t, n)) by {
            lemma_doubling_phase(t, k, n);
        }
        if k == 1 {
            assert(after == CeilingSearch::Found(t as u32));
            assert(2 * k == k + 1);
        } else {
            lemma_power_of_two_monotone(1, (k - 1) as nat);
            lemma_bisection_phase(lo as u32, hi as u32, t, (k - 1) as nat);
            lemma_run_composes(search_start(), t, k + 1, (k - 1) as nat);
            assert(k + 1 + (k - 1) as nat == 2 * k);
            assert forall|n: nat| n < 2 * k implies !finished(#[trigger] run_against(search_start(), t, n)) by {
                if n > k {
                    lemma_run_composes(search_start(), t, k + 1, (n - k - 1) as nat);
                    assert(k + 1 + (n - k - 1) as nat == n);
                    assert(!finished(run_against(after, t, (n - k - 1) as nat)));
                } else {
                    lemma_doubling_phase(t, k, n);
                }
            }
        }
    }
    if t >= RAMP_CAP {
        lemma_doubling_phase(t, 24, 24);
        assert forall|n: nat| n < 25 implies !finished(#[trigger] run_against(search_start(), t, n)) by {
            lemma_doubling_phase(t, 24, n);
        }
        assert(run_against(search_start(), t, 25) == CeilingSearch::Found(RAMP_CAP));
    }
    if t == 0 {
        assert(run_against(search_start(), t, 0) == search_start());
    }
}


/// A search whose probe fails at `1` on every answer probes `1` and
/// nothing more.
proof fn lemma_first_probe<F: Fn(u32) -> Result<bool, CliError>>(probe: F, probed: Seq<u32>, answers: Seq<bool>)
    requires
        follows_machine(probed, answers),
        probed.len() >= 1,
        forall|i: int| 0 <= i < answers.len() ==> call_ensures(probe, (#[trigger] probed[i],), Ok::<bool, CliError>(answers[i])),
        probed.len() == answers.len() ==> finished(replay(answers)),
    ensures
        (forall|res: Result<bool, CliError>| call_ensures(probe, (1u32,), res) ==> res == Ok::<bool, CliError>(false))
            ==> probed == seq![1u32],
{
    if forall|res: Result<bool, CliError>| call_ensures(probe, (1u32,), res) ==> res == Ok::<bool, CliError>(false) {
        assert(answers.take(0) =~= Seq::<bool>::empty());
        assert(probed[0] == 1);
        if answers.len() >= 1 {
            assert(call_ensures(probe, (probed[0],), Ok::<bool, CliError>(answers[0])));
            assert(answers.take(1) =~= seq![false]);
            assert(seq![false].drop_last() =~= Seq::<bool>::empty());
        }
        assert(probed.len() == 1) by {
            if probed.len() >= 2 {
                assert(next_probe_of(replay(answers.take(1))) == Some(probed[1]));
            }
        }
        assert(probed =~= seq![1u32]);
    }
}

/// Against a probe with ceiling `t`, the answers a search receives are the
/// threshold's, so its states are those of [`run_against`].
proof fn lemma_trace_is_threshold_run<F: Fn(u32) -> Result<bool, CliError>>(
    probe: F,
    t: nat,
    probed: Seq<u32>,
    answers: Seq<bool>,
    n: nat,
)
    requires
        threshold_oracle(probe, t),
        follows_machine(probed, answers),
        forall|i: int| 0 <= i < answers.len() ==> call_ensures(probe, (#[trigger] probed[i],), Ok::<bool, CliError>(answers[i])),
        n <= answers.len(),
    ensures
        replay(answers.take(n as int)) == run_against(search_start(), t, n),
    decreases n,
{
    if n == 0 {
        assert(answers.take(0) =~= Seq::<bool>::empty());
    } else {
        let m = (n - 1) as nat;
        lemma_trace_is_threshold_run(probe, t, probed, answers, m);
        let v = probed[m as int];
        assert(next_probe_of(replay(answers.take(m as int))) == Some(v));
        assert(call_ensures(probe, (v,), Ok::<bool, CliError>(answers[m as int])));
        assert(answers[m as int] == (v <= t));
        assert(answers.take(n as int).drop_last() =~= answers.take(m as int));
        assert(answers.take(n as int).last() == answers[m as int]);
    }
}

/// Against a probe with ceiling `t`, a finished search ran exactly as many
/// probes as the machine needs: `n`, when the machine finishes at `n` and
/// not before.
proof fn lemma_trace_length<F: Fn(u32) -> Result<bool, CliError>>(
    probe: F,
    t: nat,
    probed: Seq<u32>,
    answers: Seq<bool>,
    n: nat,
)
    requires
        threshold_oracle(probe, t),
        follows_machine(probed, answers),
        forall|i: int| 0 <= i < answers.len() ==> call_ensures(probe, (#[trigger] probed[i],), Ok::<bool, CliError>(answers[i])),
        probed.len() == answers.len(),
        finished(replay(answers)),
        finished(run_against(search_start(), t, n)),
        forall|j: nat| j < n ==> !finished(#[trigger] run_against(search_start(), t, j)),
    ensures
        probed.len() == n,
{
    let len = answers.len();
    assert(answers.take(len as int) =~= answers);
    if len < n {
        lemma_trace_is_threshold_run(probe, t, probed, answers, len);
        assert(!finished(run_against(search_start(), t, len)));
    } else if len > n {
        lemma_trace_is_threshold_run(probe, t, probed, answers, n);
        assert(next_probe_of(replay(answers.take(n as int))) == Some(probed[n as int]));
    }
}


/// Only the ramp parameter carries the ramp: an integer ramp parameter is
/// filled with the ramp value itself at its own type (never a fixed
/// default), a `Vec<Address>` ramp parameter with that many addresses, and
/// no other parameter is ever filled with the ramp value.
pub proof fn lemma_only_the_ramp_parameter_ramps(p: ParamSpec, is_ramp: bool)
    ensures
        forall|n: Numeric| is_ramp && p.kind == ParamType::Number(n) ==> plan_of(p, is_ramp) == Ok::<ArgPlan, Seq<char>>(
            ArgPlan::Ramp(n),
        ),
        is_ramp && p.kind == (ParamType::Vec { of_address: true }) ==> plan_of(p, is_ramp) == Ok::<ArgPlan, Seq<char>>(
            ArgPlan::RampAddresses,
        ),
        forall|n: Numeric| plan_of(p, is_ramp) == Ok::<ArgPlan, Seq<char>>(ArgPlan::Ramp(n)) ==> is_ramp && p.kind
            == ParamType::Number(n),
        plan_of(p, is_ramp) == Ok::<ArgPlan, Seq<char>>(ArgPlan::RampAddresses) ==> is_ramp && p.kind == (ParamType::Vec {
            of_address: true,
        }),
{
}

} // verus!
