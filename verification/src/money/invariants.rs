//! Conservation of value: what came in equals what went out plus what is
//! left.
use vstd::prelude::*;

use crate::base::env::TestEnv;
use crate::base::error::TestkitError;
use crate::base::render::{i128_text, int_text};

verus! {

/// A snapshot of value flows through a contract that streams or vests
/// money: what came in, what went out through each channel, and what is
/// left. Conservation means `deposited == withdrawn + refunded + remaining`.
#[derive(Debug, Clone, Copy, PartialEq, Eq)]
pub struct Conservation {
    /// Total value deposited into the contract.
    pub deposited: i128,
    /// Total value withdrawn by its intended recipient(s).
    pub withdrawn: i128,
    /// Total value refunded back to the depositor.
    pub refunded: i128,
    /// Value still held by the contract, not yet moved anywhere.
    pub remaining: i128,
}

/// Whether `v` fits the `i128` range.
pub open spec fn fits_i128(v: int) -> bool {
    i128::MIN <= v <= i128::MAX
}

/// The magnitude of an integer.
pub open spec fn magnitude(v: int) -> int {
    if v < 0 {
        -v
    } else {
        v
    }
}

impl Conservation {
    /// The value accounted for by the outflows and what is left.
    pub open spec fn accounted(self) -> int {
        self.withdrawn + self.refunded + self.remaining
    }

    /// How much value was leaked (positive) or minted (negative).
    pub open spec fn delta(self) -> int {
        self.deposited - self.accounted()
    }

    /// The two checked additions that sum the outflows stay in range.
    pub open spec fn sum_fits(self) -> bool {
        fits_i128(self.withdrawn + self.refunded) && fits_i128(self.accounted())
    }

    /// Conservation holds within `tolerance`: the sums are representable and
    /// the discrepancy is no larger than the tolerance's magnitude.
    pub open spec fn holds_within(self, tolerance: i128) -> bool {
        &&& self.sum_fits()
        &&& fits_i128(self.delta())
        &&& magnitude(self.delta()) <= magnitude(tolerance as int)
    }

    /// The failure message when summing the outflows overflows.
    pub open spec fn sum_overflow_text(self) -> Seq<char> {
        "conservation check overflowed summing withdrawn ("@ + int_text(self.withdrawn as int)
            + ") + refunded ("@ + int_text(self.refunded as int) + ") + remaining ("@ + int_text(
            self.remaining as int,
        ) + ")"@
    }

    /// The failure message when computing the discrepancy overflows.
    pub open spec fn delta_overflow_text(self) -> Seq<char> {
        "conservation check overflowed computing deposited ("@ + int_text(self.deposited as int)
            + ") - accounted ("@ + int_text(self.accounted()) + ")"@
    }

    /// The failure message when the discrepancy exceeds the tolerance.
    pub open spec fn violation_text(self, tolerance: i128) -> Seq<char> {
        "conservation violated: deposited="@ + int_text(self.deposited as int) + " withdrawn="@
            + int_text(self.withdrawn as int) + " refunded="@ + int_text(self.refunded as int)
            + " remaining="@ + int_text(self.remaining as int) + " delta="@ + int_text(
            self.delta(),
        ) + " (tolerance="@ + int_text(tolerance as int) + ")"@
    }

    /// The detail of the error reported for a snapshot that does not hold
    /// within `tolerance`.
    pub open spec fn failure_text(self, tolerance: i128) -> Seq<char> {
        if !self.sum_fits() {
            self.sum_overflow_text()
        } else if !fits_i128(self.delta()) {
            self.delta_overflow_text()
        } else {
            self.violation_text(tolerance)
        }
    }

    /// Check that value is exactly conserved: `deposited == withdrawn +
    /// refunded + remaining`.
    ///
    /// Returns a [`TestkitError::AssertionFailed`] showing all four values
    /// and the delta between them if conservation does not hold.
    pub fn assert_holds(&self) -> (r: Result<(), TestkitError>)
        ensures
            r is Ok <==> self.holds_within(0),
            fits_i128(self.withdrawn + self.refunded) ==> (r is Ok <==> self.deposited
                == self.accounted()),
            r matches Err(e) ==> e is AssertionFailed && e.detail() == self.failure_text(0),
    {
        self.assert_within(0)
    }

    /// Check that value is conserved within `tolerance`. Use only where a
    /// documented rounding tolerance is specified behaviour.
    ///
    /// Returns a [`TestkitError::AssertionFailed`] showing all four values
    /// and the delta if the discrepancy exceeds `tolerance`, or if summing
    /// the values would overflow `i128`.
    pub fn assert_within(&self, tolerance: i128) -> (r: Result<(), TestkitError>)
        ensures
            r is Ok <==> self.holds_within(tolerance),
            r matches Err(e) ==> e is AssertionFailed && e.detail() == self.failure_text(
                tolerance,
            ),
    {
        let partial = self.withdrawn.checked_add(self.refunded);
        let accounted = match partial {
            Some(p) => p.checked_add(self.remaining),
            None => None,
        };
        let accounted = match accounted {
            Some(a) => a,
            None => {
                let mut m = String::from_str("conservation check overflowed summing withdrawn (");
                m.append(i128_text(self.withdrawn).as_str());
                m.append(") + refunded (");
                m.append(i128_text(self.refunded).as_str());
                m.append(") + remaining (");
                m.append(i128_text(self.remaining).as_str());
                m.append(")");
                return Err(TestkitError::AssertionFailed(m));
            },
        };
        let delta = match self.deposited.checked_sub(accounted) {
            Some(d) => d,
            None => {
                let mut m = String::from_str("conservation check overflowed computing deposited (");
                m.append(i128_text(self.deposited).as_str());
                m.append(") - accounted (");
                m.append(i128_text(accounted).as_str());
                m.append(")");
                return Err(TestkitError::AssertionFailed(m));
            },
        };
        let delta_mag: u128 = if delta < 0 {
            ((-(delta + 1)) as u128) + 1
        } else {
            delta as u128
        };
        let tolerance_mag: u128 = if tolerance < 0 {
            ((-(tolerance + 1)) as u128) + 1
        } else {
            tolerance as u128
        };
        if delta_mag > tolerance_mag {
            let mut m = String::from_str("conservation violated: deposited=");
            m.append(i128_text(self.deposited).as_str());
            m.append(" withdrawn=");
            m.append(i128_text(self.withdrawn).as_str());
            m.append(" refunded=");
            m.append(i128_text(self.refunded).as_str());
            m.append(" remaining=");
            m.append(i128_text(self.remaining).as_str());
            m.append(" delta=");
            m.append(i128_text(delta).as_str());
            m.append(" (tolerance=");
            m.append(i128_text(tolerance).as_str());
            m.append(")");
            return Err(TestkitError::AssertionFailed(m));
        }
        Ok(())
    }
}

/// Some snapshot that `f` may return at step `i` conserves value exactly.
pub open spec fn step_conserved<F: Fn(&TestEnv, usize) -> Conservation>(
    f: F,
    env: &TestEnv,
    i: usize,
) -> bool {
    exists|c: Conservation| #[trigger] call_ensures(f, (env, i), c) && c.holds_within(0)
}

/// Drive a lifecycle across `steps` points and check conservation at every
/// one. `f` is called once per step, in order, with the environment and the
/// step index, and returns the snapshot at that point.
///
/// Stops at the first step whose snapshot does not hold and returns its
/// error.
pub fn assert_conserved_over<F>(env: &TestEnv, steps: usize, f: F) -> (r: Result<
    (),
    TestkitError,
>) where F: Fn(&TestEnv, usize) -> Conservation
    requires
        forall|i: usize| i < steps ==> call_requires(f, (env, i)),
    ensures
        r is Ok ==> forall|i: usize| i < steps ==> #[trigger] step_conserved(f, env, i),
        r matches Err(e) ==> exists|i: usize, c: Conservation|
            i < steps && #[trigger] call_ensures(f, (env, i), c) && !c.holds_within(0)
                && e.detail() == c.failure_text(0),
{
    let mut step: usize = 0;
    while step < steps
        invariant
            step <= steps,
            forall|i: usize| i < steps ==> call_requires(f, (env, i)),
            forall|i: usize| i < step ==> #[trigger] step_conserved(f, env, i),
        decreases steps - step,
    {
        let snapshot = f(env, step);
        match snapshot.assert_holds() {
            Ok(()) => {},
            Err(e) => {
                return Err(e);
            },
        }
        step = step + 1;
    }
    Ok(())
}

} // verus!

verus! {

/// Widening the tolerance never turns a passing snapshot into a failing
/// one.
pub proof fn lemma_tolerance_is_monotone(c: Conservation, narrow: i128, wide: i128)
    requires
        c.holds_within(narrow),
        magnitude(narrow as int) <= magnitude(wide as int),
    ensures
        c.holds_within(wide),
{
}

/// An exactly conserving snapshot whose sums are representable passes
/// within every tolerance, and a snapshot passes with zero tolerance only
/// if it conserves exactly.
pub proof fn lemma_exact_conservation_passes(c: Conservation, tolerance: i128)
    ensures
        c.sum_fits() && c.deposited == c.accounted() ==> c.holds_within(tolerance),
        c.holds_within(0) ==> c.deposited == c.accounted(),
{
}

} // verus!
