//! Ledger time control: advancing and warping the clock so that `timestamp`
//! and `sequence` move together, without reasoning about their relationship
//! by hand.
use soroban_sdk::testutils::Ledger as _;
use std::time::Duration;

use soroban_sdk::Env;
use vstd::prelude::*;

use crate::base::env::TestEnv;
use crate::base::error::TestkitError;
use crate::base::render::{nat_text, u64_text};

verus! {

/// Stellar's observed average ledger close time, in seconds: the close
/// interval every [`TestEnv`] starts with. It is a network characteristic,
/// not a protocol constant; override it per environment with
/// [`TestEnv::with_ledger_close_interval`].
pub const LEDGER_CLOSE_TIME_SECS: u64 = 5;

/// Seconds in a minute.
pub const SECS_PER_MINUTE: u64 = 60;

/// Seconds in an hour.
pub const SECS_PER_HOUR: u64 = 3_600;

/// Seconds in a day.
pub const SECS_PER_DAY: u64 = 86_400;

/// A point on the ledger clock: a unix timestamp and a sequence number.
#[derive(Debug, Clone, Copy, PartialEq, Eq)]
pub struct LedgerPosition {
    /// The ledger timestamp, in unix seconds.
    pub timestamp: u64,
    /// The ledger sequence number.
    pub sequence: u32,
}

/// `a / b` rounded up.
pub open spec fn ceil_div(a: nat, b: nat) -> nat {
    if a % b == 0 {
        a / b
    } else {
        a / b + 1
    }
}

/// The number of ledgers that `secs` seconds span at `interval` seconds per
/// ledger: a partial ledger counts as a whole one.
pub open spec fn ledgers_for(secs: u64, interval: u64) -> nat {
    ceil_div(secs as nat, interval as nat)
}

/// Whether advancing `pos` by `secs` seconds stays within the sequence
/// number's `u32` range and the timestamp's `u64` range.
pub open spec fn advance_fits(pos: LedgerPosition, secs: u64, interval: u64) -> bool {
    &&& pos.sequence + ledgers_for(secs, interval) <= u32::MAX
    &&& pos.timestamp + secs <= u64::MAX
}

/// Where advancing `pos` by `secs` seconds lands, when it fits.
pub open spec fn advanced(pos: LedgerPosition, secs: u64, interval: u64) -> LedgerPosition {
    LedgerPosition {
        timestamp: (pos.timestamp + secs) as u64,
        sequence: (pos.sequence + ledgers_for(secs, interval)) as u32,
    }
}

/// The message reported when an advance does not fit.
pub open spec fn advance_overflow_text(pos: LedgerPosition, secs: u64, interval: u64) -> Seq<
    char,
> {
    "advancing the ledger clock by "@ + nat_text(secs as nat)
        + "s overflows ledger arithmetic: at "@ + nat_text(interval as nat)
        + "s per ledger that is "@ + nat_text(ledgers_for(secs, interval))
        + " ledgers, but the clock is at sequence "@ + nat_text(pos.sequence as nat)
        + " (a u32) and timestamp "@ + nat_text(pos.timestamp as nat)
        + " (a u64); use a shorter duration"@
}

/// Advance `pos` by `secs` seconds and the matching number of ledgers at
/// `interval` seconds per ledger. Both new values are checked before either
/// is produced, so a rejected advance reports a [`TestkitError::Misuse`]
/// and moves nothing.
pub fn advance_position(pos: LedgerPosition, secs: u64, interval: u64) -> (r: Result<
    LedgerPosition,
    TestkitError,
>)
    requires
        interval > 0,
    ensures
        r is Ok <==> advance_fits(pos, secs, interval),
        r matches Ok(p) ==> p == advanced(pos, secs, interval),
        r matches Err(e) ==> e is Misuse && e.detail() == advance_overflow_text(pos, secs, interval),
{
    let ledgers: u64 = if secs % interval == 0 {
        secs / interval
    } else {
        assert(interval >= 2 ==> secs / interval <= secs / 2) by (nonlinear_arith)
            requires interval > 0;
        secs / interval + 1
    };
    assert(ledgers as nat == ledgers_for(secs, interval));
    let target_sequence: Option<u32> = if ledgers <= u32::MAX as u64 {
        pos.sequence.checked_add(ledgers as u32)
    } else {
        None
    };
    let target_timestamp = pos.timestamp.checked_add(secs);
    match (target_sequence, target_timestamp) {
        (Some(sequence), Some(timestamp)) => Ok(LedgerPosition { timestamp, sequence }),
        _ => {
            let mut m = String::from_str("advancing the ledger clock by ");
            m.append(u64_text(secs).as_str());
            m.append("s overflows ledger arithmetic: at ");
            m.append(u64_text(interval).as_str());
            m.append("s per ledger that is ");
            m.append(u64_text(ledgers).as_str());
            m.append(" ledgers, but the clock is at sequence ");
            m.append(u64_text(pos.sequence as u64).as_str());
            m.append(" (a u32) and timestamp ");
            m.append(u64_text(pos.timestamp).as_str());
            m.append(" (a u64); use a shorter duration");
            Err(TestkitError::Misuse(m))
        },
    }
}

/// Where advancing `pos` by exactly `n` ledgers lands: the sequence moves by
/// `n` and the timestamp by `n * interval`, each saturating at its type's
/// maximum.
pub open spec fn advanced_by_ledgers(pos: LedgerPosition, n: u32, interval: u64) -> LedgerPosition {
    let secs = n as nat * interval as nat;
    LedgerPosition {
        timestamp: if pos.timestamp + secs > u64::MAX {
            u64::MAX
        } else {
            (pos.timestamp + secs) as u64
        },
        sequence: if pos.sequence + n > u32::MAX {
            u32::MAX
        } else {
            (pos.sequence + n) as u32
        },
    }
}

/// Advance `pos` by exactly `n` ledgers, moving the timestamp by
/// `n * interval` seconds; both saturate rather than overflow.
pub fn advance_position_by_ledgers(pos: LedgerPosition, n: u32, interval: u64) -> (r:
    LedgerPosition)
    ensures
        r == advanced_by_ledgers(pos, n, interval),
{
    let secs: u64 = match (n as u64).checked_mul(interval) {
        Some(s) => s,
        None => u64::MAX,
    };
    LedgerPosition {
        timestamp: pos.timestamp.saturating_add(secs),
        sequence: pos.sequence.saturating_add(n),
    }
}

/// The message reported when a calendar helper's count of units does not
/// fit a `u64` number of seconds.
pub open spec fn calendar_overflow_text(helper: Seq<char>, count: u64, unit: u64) -> Seq<char> {
    helper + "("@ + nat_text(count as nat) + ") overflows ledger arithmetic: "@ + nat_text(
        count as nat,
    ) + " * "@ + nat_text(unit as nat) + "s does not fit in a u64 number of seconds"@
}

/// Convert `count` calendar units of `unit` seconds each into seconds,
/// reporting a [`TestkitError::Misuse`] that names `helper` if the product
/// does not fit in a `u64`.
pub fn calendar_secs(helper: &str, count: u64, unit: u64) -> (r: Result<u64, TestkitError>)
    ensures
        r is Ok <==> count * unit <= u64::MAX,
        r matches Ok(s) ==> s == count * unit,
        r matches Err(e) ==> e is Misuse && e.detail() == calendar_overflow_text(helper@, count, unit),
{
    match count.checked_mul(unit) {
        Some(s) => Ok(s),
        None => {
            let mut m = String::from_str(helper);
            m.append("(");
            m.append(u64_text(count).as_str());
            m.append(") overflows ledger arithmetic: ");
            m.append(u64_text(count).as_str());
            m.append(" * ");
            m.append(u64_text(unit).as_str());
            m.append("s does not fit in a u64 number of seconds");
            Err(TestkitError::Misuse(m))
        },
    }
}

/// The message reported when a warp target lies in the past.
pub open spec fn warp_backwards_text(target: u64, now: u64) -> Seq<char> {
    "warp_to("@ + nat_text(target as nat) + ") is before the current ledger time ("@ + nat_text(
        now as nat,
    ) + "); the ledger clock cannot run backwards"@
}

/// The number of seconds to advance from `now` to reach `target`, or a
/// [`TestkitError::Misuse`] if `target` is in the past: the ledger clock
/// cannot run backwards.
pub fn warp_distance(now: u64, target: u64) -> (r: Result<u64, TestkitError>)
    ensures
        r is Ok <==> now <= target,
        r matches Ok(s) ==> s == target - now,
        r matches Err(e) ==> e is Misuse && e.detail() == warp_backwards_text(target, now),
{
    if target < now {
        let mut m = String::from_str("warp_to(");
        m.append(u64_text(target).as_str());
        m.append(") is before the current ledger time (");
        m.append(u64_text(now).as_str());
        m.append("); the ledger clock cannot run backwards");
        Err(TestkitError::Misuse(m))
    } else {
        Ok(target - now)
    }
}

/// The close interval in effect for a configured override: the override if
/// one was set, [`LEDGER_CLOSE_TIME_SECS`] otherwise.
pub open spec fn effective_interval(configured: Option<u64>) -> u64 {
    match configured {
        Some(s) => s,
        None => LEDGER_CLOSE_TIME_SECS,
    }
}

/// Read the current ledger timestamp of `env` (`env.ledger().timestamp()`).
/// Nothing is stated of the result: it is host state.
#[verifier::external_body]
fn read_timestamp(env: &Env) -> u64 {
    env.ledger().timestamp()
}

/// Read the current ledger sequence number of `env`
/// (`env.ledger().sequence()`). Nothing is stated of the result: it is host
/// state.
#[verifier::external_body]
fn read_sequence(env: &Env) -> u32 {
    env.ledger().sequence()
}

/// Set the ledger timestamp of `env` (`Ledger::set_timestamp`). The host
/// state it changes is not modelled.
#[verifier::external_body]
fn write_timestamp(env: &Env, timestamp: u64) {
    env.ledger().set_timestamp(timestamp)
}

/// Set the ledger sequence number of `env` (`Ledger::set_sequence_number`).
/// The host state it changes is not modelled.
#[verifier::external_body]
fn write_sequence(env: &Env, sequence: u32) {
    env.ledger().set_sequence_number(sequence)
}

impl TestEnv {
    /// Configure how many seconds each ledger takes to close in this
    /// environment, returning it so fixtures can chain it onto construction.
    /// The setting is per environment and does not move the clock. The
    /// interval must be at least one second: a zero interval cannot map
    /// elapsed time onto ledger sequence numbers.
    pub fn with_ledger_close_interval(self, secs: u64) -> (r: Self)
        requires
            secs > 0,
        ensures
            r.configured_interval() == Some(secs),
            r.configured_seed() == self.configured_seed(),
            r.sdk_env() == self.sdk_env(),
    {
        let mut env = self;
        env.set_close_interval_override(secs);
        env
    }

    /// The number of seconds each ledger takes to close in this environment:
    /// [`LEDGER_CLOSE_TIME_SECS`] unless overridden.
    pub fn ledger_close_interval(&self) -> (r: u64)
        ensures
            r == effective_interval(self.configured_interval()),
            r > 0,
    {
        match self.close_interval_override() {
            Some(s) => s,
            None => LEDGER_CLOSE_TIME_SECS,
        }
    }

    /// The current ledger timestamp (unix seconds).
    pub fn now(&self) -> u64 {
        read_timestamp(self.env())
    }

    /// The current ledger sequence number.
    pub fn sequence(&self) -> u32 {
        read_sequence(self.env())
    }

    /// The current position of the ledger clock.
    pub fn position(&self) -> LedgerPosition {
        LedgerPosition { timestamp: self.now(), sequence: self.sequence() }
    }

    /// Move the timestamp forward by `secs` and the sequence by the matching
    /// ledger count for this environment's close interval. Both values are
    /// computed with overflow checks before either is written, so a rejected
    /// advance leaves the clock untouched; the outcome is what
    /// [`advance_position`] reports for the position the clock was at.
    fn advance_secs(&self, secs: u64) -> (r: Result<(), TestkitError>)
        ensures
            exists|start: LedgerPosition| #[trigger]
                advance_reported(start, secs, effective_interval(self.configured_interval()), r),
    {
        let start = self.position();
        let r = self.advance_from(start, secs);
        assert(advance_reported(start, secs, effective_interval(self.configured_interval()), r));
        r
    }

    /// Move the clock, read as `start`, forward by `secs` and the matching
    /// ledger count: what [`advance_position`] reports for `start`, written
    /// only when it fits.
    fn advance_from(&self, start: LedgerPosition, secs: u64) -> (r: Result<(), TestkitError>)
        ensures
            advance_reported(start, secs, effective_interval(self.configured_interval()), r),
    {
        let interval = self.ledger_close_interval();
        match advance_position(start, secs, interval) {
            Ok(target) => {
                write_timestamp(self.env(), target.timestamp);
                write_sequence(self.env(), target.sequence);
                Ok(())
            },
            Err(e) => Err(e),
        }
    }

    /// Advance the ledger clock by a wall-clock duration, moving the sequence
    /// proportionally. Only whole seconds are applied; any sub-second part
    /// is ignored, because ledger timestamps are whole unix seconds.
    ///
    /// Reports a [`TestkitError::Misuse`], leaving the clock unchanged, if
    /// the advance would overflow ledger arithmetic: the matching ledger
    /// count does not fit the `u32` sequence number, or the new sequence
    /// number or timestamp would pass its type's maximum.
    pub fn advance(&self, duration: Duration) -> (r: Result<(), TestkitError>)
        ensures
            exists|start: LedgerPosition| #[trigger]
                advance_reported(start, duration_secs(duration), effective_interval(self.configured_interval()), r),
    {
        self.advance_secs(whole_seconds(&duration))
    }

    /// Advance by `count` units of `unit` seconds each, naming `helper` in
    /// the error if the count overflows a `u64` number of seconds.
    fn advance_calendar(&self, helper: &str, count: u64, unit: u64) -> (r: Result<(), TestkitError>)
        ensures
            count * unit > u64::MAX ==> (r matches Err(e) && e is Misuse && e.detail()
                == calendar_overflow_text(helper@, count, unit)),
            count * unit <= u64::MAX ==> exists|start: LedgerPosition| #[trigger]
                advance_reported(start, (count * unit) as u64, effective_interval(self.configured_interval()), r),
    {
        match calendar_secs(helper, count, unit) {
            Ok(secs) => {
                let r = self.advance_secs(secs);
                assert(secs == (count * unit) as u64);
                r
            },
            Err(e) => Err(e),
        }
    }

    /// Advance the ledger clock by `minutes` minutes (60 seconds each, plain
    /// unix-time arithmetic). Reports a [`TestkitError::Misuse`], leaving
    /// the clock unchanged, if `minutes` overflows a `u64` number of seconds
    /// or the advance overflows ledger arithmetic.
    pub fn advance_minutes(&self, minutes: u64) -> (r: Result<(), TestkitError>)
        ensures
            minutes * SECS_PER_MINUTE > u64::MAX ==> (r matches Err(e) && e is Misuse && e.detail()
                == calendar_overflow_text("advance_minutes"@, minutes, SECS_PER_MINUTE)),
            minutes * SECS_PER_MINUTE <= u64::MAX ==> exists|start: LedgerPosition| #[trigger]
                advance_reported(start, (minutes * SECS_PER_MINUTE) as u64, effective_interval(self.configured_interval()), r),
    {
        self.advance_calendar("advance_minutes", minutes, SECS_PER_MINUTE)
    }

    /// Advance the ledger clock by `hours` hours (3,600 seconds each, plain
    /// unix-time arithmetic). Reports a [`TestkitError::Misuse`], leaving
    /// the clock unchanged, if `hours` overflows a `u64` number of seconds
    /// or the advance overflows ledger arithmetic.
    pub fn advance_hours(&self, hours: u64) -> (r: Result<(), TestkitError>)
        ensures
            hours * SECS_PER_HOUR > u64::MAX ==> (r matches Err(e) && e is Misuse && e.detail()
                == calendar_overflow_text("advance_hours"@, hours, SECS_PER_HOUR)),
            hours * SECS_PER_HOUR <= u64::MAX ==> exists|start: LedgerPosition| #[trigger]
                advance_reported(start, (hours * SECS_PER_HOUR) as u64, effective_interval(self.configured_interval()), r),
    {
        self.advance_calendar("advance_hours", hours, SECS_PER_HOUR)
    }

    /// Advance the ledger clock by `days` days (86,400 seconds each, with no
    /// leap seconds or time zones). Reports a [`TestkitError::Misuse`],
    /// leaving the clock unchanged, if `days` overflows a `u64` number of
    /// seconds or the advance overflows ledger arithmetic.
    pub fn advance_days(&self, days: u64) -> (r: Result<(), TestkitError>)
        ensures
            days * SECS_PER_DAY > u64::MAX ==> (r matches Err(e) && e is Misuse && e.detail()
                == calendar_overflow_text("advance_days"@, days, SECS_PER_DAY)),
            days * SECS_PER_DAY <= u64::MAX ==> exists|start: LedgerPosition| #[trigger]
                advance_reported(start, (days * SECS_PER_DAY) as u64, effective_interval(self.configured_interval()), r),
    {
        self.advance_calendar("advance_days", days, SECS_PER_DAY)
    }

    /// Advance by exactly `n` ledgers, moving the timestamp forward by
    /// `n * `[`TestEnv::ledger_close_interval`]; both saturate at their
    /// type's maximum.
    pub fn advance_ledgers(&self, n: u32) {
        let target = advance_position_by_ledgers(self.position(), n, self.ledger_close_interval());
        write_sequence(self.env(), target.sequence);
        write_timestamp(self.env(), target.timestamp);
    }

    /// Jump to an absolute unix timestamp, advancing the sequence in
    /// proportion to the elapsed time. Reports a [`TestkitError::Misuse`] if
    /// `timestamp` is before the current time — the ledger clock cannot run
    /// backwards — or if the jump would overflow ledger arithmetic.
    pub fn warp_to(&self, timestamp: u64) -> (r: Result<(), TestkitError>)
        ensures
            exists|now: u64| #[trigger] warp_reported(now, timestamp, effective_interval(self.configured_interval()), r),
    {
        let start = self.position();
        let now = start.timestamp;
        match warp_distance(now, timestamp) {
            Ok(secs) => {
                let r = self.advance_from(start, secs);
                assert(advance_reported(start, (timestamp - now) as u64, effective_interval(self.configured_interval()), r));
                assert(warp_reported(now, timestamp, effective_interval(self.configured_interval()), r));
                r
            },
            Err(e) => {
                let r = Err(e);
                assert(warp_reported(now, timestamp, effective_interval(self.configured_interval()), r));
                r
            },
        }
    }
}

/// `r` is what advancing a clock at `start` by `secs` at `interval` seconds
/// per ledger reports: success exactly when the advance fits, and otherwise
/// a [`TestkitError::Misuse`] describing the overflow.
pub open spec fn advance_reported(
    start: LedgerPosition,
    secs: u64,
    interval: u64,
    r: Result<(), TestkitError>,
) -> bool {
    &&& r is Ok <==> advance_fits(start, secs, interval)
    &&& r matches Err(e) ==> e is Misuse && e.detail() == advance_overflow_text(start, secs, interval)
}

/// `r` is what warping a clock that reads `now` to `target` reports: a
/// [`TestkitError::Misuse`] if the target is in the past, and otherwise the
/// outcome of advancing, from the position the clock is at (whose
/// timestamp is `now`), by the distance `target - now`.
pub open spec fn warp_reported(now: u64, target: u64, interval: u64, r: Result<(), TestkitError>) -> bool {
    if target < now {
        r matches Err(e) && e is Misuse && e.detail() == warp_backwards_text(target, now)
    } else {
        exists|start: LedgerPosition|
            start.timestamp == now && #[trigger] advance_reported(start, (target - now) as u64, interval, r)
    }
}

/// The whole seconds of a duration, as `Duration::as_secs` gives them: a
/// function of the duration alone.
pub uninterp spec fn duration_secs(d: Duration) -> u64;

/// The whole seconds of a duration (`Duration::as_secs`), which depend on
/// the duration alone.
#[verifier::external_body]
fn whole_seconds(d: &Duration) -> (r: u64)
    ensures
        r == duration_secs(*d),
{
    d.as_secs()
}

} // verus!

verus! {

/// Advancing by zero seconds moves nothing, for any close interval.
pub proof fn lemma_zero_advance_moves_nothing(pos: LedgerPosition, interval: u64)
    requires
        interval > 0,
    ensures
        advance_fits(pos, 0, interval),
        advanced(pos, 0, interval) == pos,
{
    assert(0nat % (interval as nat) == 0) by (nonlinear_arith)
        requires
            interval > 0,
    ;
    assert(0nat / (interval as nat) == 0) by (nonlinear_arith)
        requires
            interval > 0,
    ;
}

/// Any positive advance moves the sequence by at least one ledger, however
/// long the close interval, and by no more ledgers than seconds.
pub proof fn lemma_positive_advance_moves_at_least_one_ledger(secs: u64, interval: u64)
    requires
        interval > 0,
        secs > 0,
    ensures
        1 <= ledgers_for(secs, interval) <= secs,
{
    assert(1 <= ceil_div(secs as nat, interval as nat) <= secs) by (nonlinear_arith)
        requires
            interval > 0,
            secs > 0,
    {
        let a = secs as nat;
        let b = interval as nat;
        assert(a == b * (a / b) + a % b);
        assert(a / b <= a);
        if a % b == 0 {
            assert(a / b >= 1);
        } else {
            assert(a / b < a);
        }
    }
}

/// At a one-second interval, seconds map to ledgers one to one; at the
/// interval itself, `n * interval` seconds map to exactly `n` ledgers.
pub proof fn lemma_whole_ledgers_map_exactly(n: nat, interval: u64)
    requires
        interval > 0,
        n * interval <= u64::MAX,
    ensures
        ledgers_for((n * interval) as u64, interval) == n,
{
    assert(ceil_div(n * (interval as nat), interval as nat) == n) by (nonlinear_arith)
        requires
            interval > 0,
    {
        let b = interval as nat;
        assert((n * b) % b == 0);
        assert((n * b) / b == n);
    }
}

/// Warping lands exactly on the target: advancing from `pos` by the warp
/// distance to a later `target` sets the timestamp to `target` whenever it
/// fits.
pub proof fn lemma_warp_lands_on_target(pos: LedgerPosition, target: u64, interval: u64)
    requires
        interval > 0,
        pos.timestamp <= target,
        advance_fits(pos, (target - pos.timestamp) as u64, interval),
    ensures
        advanced(pos, (target - pos.timestamp) as u64, interval).timestamp == target,
{
}

/// Timestamps accumulate: advancing by `a` and then by `b` seconds moves
/// the timestamp exactly as far as advancing by `a + b` does.
pub proof fn lemma_advances_accumulate(pos: LedgerPosition, a: u64, b: u64, interval: u64)
    requires
        interval > 0,
        advance_fits(pos, a, interval),
        advance_fits(advanced(pos, a, interval), b, interval),
        a + b <= u64::MAX,
    ensures
        advanced(advanced(pos, a, interval), b, interval).timestamp == advanced(
            pos,
            (a + b) as u64,
            interval,
        ).timestamp,
{
}

/// The calendar helpers agree with each other: `d` days, `24 * d` hours and
/// `1440 * d` minutes are the same number of seconds, and each fits in a
/// `u64` exactly when the others do.
pub proof fn lemma_calendar_units_agree(days: nat)
    ensures
        days * SECS_PER_DAY == (24 * days) * SECS_PER_HOUR,
        days * SECS_PER_DAY == (1440 * days) * SECS_PER_MINUTE,
{
}

/// Advancing by exactly `n` ledgers, when nothing saturates, moves the
/// sequence by `n` and the timestamp by `n * interval`.
pub proof fn lemma_ledger_advance_is_exact(pos: LedgerPosition, n: u32, interval: u64)
    requires
        pos.sequence + n <= u32::MAX,
        pos.timestamp + n * interval <= u64::MAX,
    ensures
        advanced_by_ledgers(pos, n, interval).sequence == pos.sequence + n,
        advanced_by_ledgers(pos, n, interval).timestamp == pos.timestamp + n * interval,
{
}


/// A warp that succeeds lands exactly on its target: the clock read `now`
/// no later than the target, advanced by the distance `target - now`, and
/// that advance fits and ends at timestamp `target`. A warp to a time
/// before `now` always fails.
pub proof fn lemma_successful_warp_lands_on_target(now: u64, target: u64, interval: u64, r: Result<(), TestkitError>)
    requires
        interval > 0,
        warp_reported(now, target, interval, r),
    ensures
        target < now ==> r is Err,
        r is Ok ==> now <= target && exists|start: LedgerPosition|
            start.timestamp == now && #[trigger] advance_fits(start, (target - now) as u64, interval)
                && advanced(start, (target - now) as u64, interval).timestamp == target,
{
    if r is Ok && now <= target {
        let start = choose|start: LedgerPosition|
            start.timestamp == now && #[trigger] advance_reported(start, (target - now) as u64, interval, r);
        assert(advance_fits(start, (target - now) as u64, interval));
    }
}

} // verus!
