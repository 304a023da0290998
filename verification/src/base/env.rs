//! [`TestEnv`]: a Soroban test environment together with the testkit's own
//! configuration (the generator seed and the ledger close interval).
use std::collections::hash_map::RandomState;
use std::hash::BuildHasher;
use std::time::{Duration, SystemTime, UNIX_EPOCH};

use soroban_sdk::testutils::Address as _;
use soroban_sdk::{Address, Env};
use vstd::prelude::*;

verus! {

/// The Soroban test environment, carried through as an opaque handle.
#[verifier::external_type_specification]
#[verifier::external_body]
pub struct ExEnv(Env);

/// A Soroban address, carried through as an opaque handle.
#[verifier::external_type_specification]
#[verifier::external_body]
pub struct ExAddress(Address);

/// Build a fresh Soroban test environment that writes no snapshot file when
/// dropped: a call of `Env::new_with_config`. Nothing is stated of the
/// result; it is a new, independent host.
#[verifier::external_body]
fn new_sdk_env() -> Env {
    Env::new_with_config(soroban_sdk::testutils::EnvTestConfig { capture_snapshot_at_drop: false })
}

/// Build a fresh Soroban test environment, as [`new_sdk_env`] does, while
/// `existing` is alive. `Env::new_with_config` allocates a new host and
/// new shared state, so the result is a different environment from
/// `existing`: nothing more is stated of it.
#[verifier::external_body]
fn new_sdk_env_besides(existing: &Env) -> (r: Env)
    ensures
        r != *existing,
{
    let _ = existing;
    Env::new_with_config(soroban_sdk::testutils::EnvTestConfig { capture_snapshot_at_drop: false })
}

/// Generate the next address of `env`: a call of the SDK's test utility
/// `Address::generate`. Nothing is stated of the result; which address
/// comes out depends on how many the host has generated before.
#[verifier::external_body]
fn generate_address(env: &Env) -> Address {
    <Address as soroban_sdk::testutils::Address>::generate(env)
}

/// Another handle to the same host (`Env::clone`). `Env`'s `Clone` is
/// derived, and every field clones into a copy of the same value or a
/// second `Rc` to the same host, so the clone equals the original.
#[verifier::external_body]
pub(crate) fn share_env(env: &Env) -> (r: Env)
    ensures
        r == *env,
{
    env.clone()
}

/// A copy of an address handle (`Address::clone`). `Address`'s `Clone` is
/// derived from its environment handle and its host object handle, so the
/// copy equals the original.
#[verifier::external_body]
pub(crate) fn copy_address(a: &Address) -> (r: Address)
    ensures
        r == *a,
{
    a.clone()
}

/// A point in wall-clock time, carried through opaquely.
#[verifier::external_type_specification]
#[verifier::external_body]
pub struct ExSystemTime(SystemTime);

/// The current wall-clock time (`SystemTime::now`). Nothing is stated of
/// the result: it depends on the time.
#[verifier::external_body]
fn wall_clock_now() -> SystemTime {
    SystemTime::now()
}

/// How long after the unix epoch `t` is (`SystemTime::duration_since`), or
/// `None` if `t` is before it. Nothing is stated of the result.
#[verifier::external_body]
fn since_unix_epoch(t: &SystemTime) -> Option<Duration> {
    t.duration_since(UNIX_EPOCH).ok()
}

/// The whole nanoseconds of a duration (`Duration::as_nanos`). Nothing is
/// stated of the result, since a `Duration` is carried through opaquely.
#[verifier::external_body]
fn duration_nanos(d: &Duration) -> u128 {
    d.as_nanos()
}

/// A freshly, randomly keyed hasher builder (`RandomState::new`). Nothing
/// is stated of the result: it depends on chance.
#[verifier::external_body]
fn fresh_random_state() -> RandomState {
    RandomState::new()
}

/// The hash of zero under `state` (`BuildHasher::hash_one`). Nothing is
/// stated of the result: the keys of `state` are random.
#[verifier::external_body]
fn hash_of_zero(state: &RandomState) -> u64 {
    state.hash_one(0u64)
}

/// The golden-ratio multiplier that spreads a word over all 64 bits.
pub const SEED_MULTIPLIER: u64 = 0x9E37_79B9_7F4A_7C15;

/// The seed mixed from a clock reading `nanos` and a word `word`: `nanos`
/// xor `word * SEED_MULTIPLIER`, wrapping at 64 bits.
pub open spec fn mixed_seed(nanos: u64, word: u64) -> u64 {
    nanos ^ (((word as nat * SEED_MULTIPLIER as nat) % 0x1_0000_0000_0000_0000nat) as u64)
}

/// Mix a clock reading and a word into a seed.
pub fn mix_seed(nanos: u64, word: u64) -> (r: u64)
    ensures
        r == mixed_seed(nanos, word),
{
    nanos ^ word.wrapping_mul(SEED_MULTIPLIER)
}

/// A non-reproducible seed, mixed by [`mix_seed`] from the wall clock
/// (nanoseconds since the unix epoch, truncated to 64 bits, or `0` before
/// the epoch) and a word of fresh randomness.
pub fn random_seed() -> (r: u64)
    ensures
        exists|nanos: u64, word: u64| r == #[trigger] mixed_seed(nanos, word),
{
    let now = wall_clock_now();
    let nanos: u64 = match since_unix_epoch(&now) {
        Some(d) => duration_nanos(&d) as u64,
        None => 0,
    };
    let word = hash_of_zero(&fresh_random_state());
    mix_seed(nanos, word)
}

/// A wrapper around the Soroban test environment that carries testkit
/// configuration alongside it.
///
/// Every other module extends `TestEnv` with methods (ledger control, event
/// capture, token doubles, and so on), so a single `TestEnv` drives a whole
/// test.
pub struct TestEnv {
    env: Env,
    seed: u64,
    close_interval_secs: Option<u64>,
}

impl TestEnv {
    /// A configured close interval is never zero.
    #[verifier::type_invariant]
    spec fn interval_is_positive(&self) -> bool {
        match self.close_interval_secs {
            Some(s) => s > 0,
            None => true,
        }
    }

    /// The seed this environment was configured with.
    pub closed spec fn configured_seed(&self) -> u64 {
        self.seed
    }

    /// The close interval this environment was configured with, if any.
    pub closed spec fn configured_interval(&self) -> Option<u64> {
        self.close_interval_secs
    }

    /// Create a fresh environment with a non-reproducible seed; use
    /// [`TestEnv::with_seed`] when a test must be reproducible.
    pub fn new() -> (r: Self)
        ensures
            r.configured_interval() is None,
    {
        Self::with_seed(random_seed())
    }

    /// Create an environment whose generator seed is fixed, so that property
    /// tests using this crate's generators are reproducible.
    pub fn with_seed(seed: u64) -> (r: Self)
        ensures
            r.configured_seed() == seed,
            r.configured_interval() is None,
    {
        TestEnv { env: new_sdk_env(), seed, close_interval_secs: None }
    }

    /// Create a new, isolated environment that carries this one's
    /// configuration (seed and close interval, set or unset) but none of its
    /// state: the clock position, contracts and addresses start afresh.
    pub fn clone_config(&self) -> (r: Self)
        ensures
            r.configured_seed() == self.configured_seed(),
            r.configured_interval() == self.configured_interval(),
            r.sdk_env() != self.sdk_env(),
    {
        proof {
            use_type_invariant(self);
        }
        TestEnv { env: new_sdk_env_besides(&self.env), seed: self.seed, close_interval_secs: self.close_interval_secs }
    }

    /// Discard all state and return to the condition [`TestEnv::with_seed`]
    /// would have built, keeping the configuration.
    pub fn reset(&mut self)
        ensures
            final(self).configured_seed() == old(self).configured_seed(),
            final(self).configured_interval() == old(self).configured_interval(),
            final(self).sdk_env() != old(self).sdk_env(),
    {
        proof {
            use_type_invariant(&*self);
        }
        self.env = new_sdk_env_besides(&self.env);
    }

    /// Escape hatch to the underlying SDK environment.
    pub fn env(&self) -> (r: &Env)
        ensures
            *r == self.sdk_env(),
    {
        &self.env
    }

    /// The underlying SDK environment.
    pub closed spec fn sdk_env(&self) -> Env {
        self.env
    }

    /// Generate a fresh address.
    pub fn address(&self) -> Address {
        generate_address(&self.env)
    }

    /// Generate `n` fresh addresses.
    pub fn addresses(&self, n: usize) -> (r: Vec<Address>)
        ensures
            r.len() == n,
    {
        let mut out: Vec<Address> = Vec::new();
        let mut i: usize = 0;
        while i < n
            invariant
                i <= n,
                out.len() == i,
            decreases n - i,
        {
            out.push(generate_address(&self.env));
            i = i + 1;
        }
        out
    }

    /// The seed this environment was constructed with, for use by the
    /// generators.
    pub fn seed(&self) -> (r: u64)
        ensures
            r == self.configured_seed(),
    {
        self.seed
    }

    /// The ledger close interval configured for this environment, if any.
    pub fn close_interval_override(&self) -> (r: Option<u64>)
        ensures
            r == self.configured_interval(),
            r matches Some(s) ==> s > 0,
    {
        proof {
            use_type_invariant(self);
        }
        self.close_interval_secs
    }

    /// Record a ledger close interval for this environment.
    pub(crate) fn set_close_interval_override(&mut self, secs: u64)
        requires
            secs > 0,
        ensures
            final(self).configured_interval() == Some(secs),
            final(self).configured_seed() == old(self).configured_seed(),
            final(self).sdk_env() == old(self).sdk_env(),
    {
        self.close_interval_secs = Some(secs);
    }
}

impl Default for TestEnv {
    fn default() -> (r: Self)
        ensures
            r.configured_interval() is None,
    {
        Self::new()
    }
}

} // verus!
