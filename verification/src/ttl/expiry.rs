//! Ledger-entry TTL inspection and expiry simulation.
use soroban_sdk::testutils::storage::{Instance as _, Persistent as _, Temporary as _};
use soroban_sdk::testutils::Ledger as _;
use soroban_sdk::xdr::ScAddress;
use soroban_sdk::{Address, Env, Val};
use vstd::prelude::*;

use crate::base::env::TestEnv;
use crate::base::error::TestkitError;
use crate::base::render::{nat_text, u64_text};

verus! {

/// A Soroban value handle, carried through opaquely.
#[verifier::external_type_specification]
#[verifier::external_body]
pub struct ExVal(Val);

/// Which of Soroban's three storage kinds an entry lives in.
#[derive(Debug, Clone, Copy, PartialEq, Eq, Structural)]
pub enum StorageKind {
    /// Cheapest, expires soonest, and once gone is gone.
    Temporary,
    /// Long-lived, rent-paying storage; expired entries can be restored.
    Persistent,
    /// The contract's own instance data plus its code: one entry per
    /// contract, so [`TestEnv::ttl_of`] ignores the key for this kind.
    Instance,
}

/// The name of a storage kind, as failure messages print it.
pub open spec fn kind_text(kind: StorageKind) -> Seq<char> {
    match kind {
        StorageKind::Temporary => "Temporary"@,
        StorageKind::Persistent => "Persistent"@,
        StorageKind::Instance => "Instance"@,
    }
}

/// The name of a storage kind, as failure messages print it.
pub fn kind_name(kind: StorageKind) -> (s: &'static str)
    ensures
        s@ == kind_text(kind),
{
    match kind {
        StorageKind::Temporary => "Temporary",
        StorageKind::Persistent => "Persistent",
        StorageKind::Instance => "Instance",
    }
}

/// The message reported when a call did not extend a TTL.
pub open spec fn no_bump_text(kind: StorageKind, before: u32, after: u32) -> Seq<char> {
    "expected the call to extend the "@ + kind_text(kind) + " TTL beyond "@ + nat_text(
        before as nat,
    ) + ", but it was "@ + nat_text(after as nat) + " afterward"@
}

/// Judge a TTL observed before and after a call: the call extended it
/// exactly when the later TTL is strictly greater.
pub fn bump_verdict(kind: StorageKind, before: u32, after: u32) -> (r: Result<(), TestkitError>)
    ensures
        r is Ok <==> after > before,
        r matches Err(e) ==> e is AssertionFailed && e.detail() == no_bump_text(kind, before, after),
{
    if after <= before {
        let mut m = String::from_str("expected the call to extend the ");
        m.append(kind_name(kind));
        m.append(" TTL beyond ");
        m.append(u64_text(before as u64).as_str());
        m.append(", but it was ");
        m.append(u64_text(after as u64).as_str());
        m.append(" afterward");
        Err(TestkitError::AssertionFailed(m))
    } else {
        Ok(())
    }
}

/// How many ledgers [`TestEnv::expire`] advances for a network whose
/// `max_entry_ttl` is `max_entry_ttl`: one past it, saturating.
pub open spec fn expiry_distance(max_entry_ttl: u32) -> u32 {
    if max_entry_ttl == u32::MAX {
        u32::MAX
    } else {
        (max_entry_ttl + 1) as u32
    }
}

/// Read the network's maximum entry TTL from the ledger info of `env`
/// (`env.ledger().get().max_entry_ttl`). Nothing is stated of the result:
/// it is host state.
#[verifier::external_body]
fn read_max_entry_ttl(env: &Env) -> u32 {
    env.ledger().get().max_entry_ttl
}

/// The TTL, in ledgers, of the temporary entry `key` of `contract`: the
/// SDK's test utility `get_ttl` on temporary storage, run inside the
/// contract's frame by `Env::try_as_contract`, which turns a failure inside
/// the frame (no such entry) into an error. `None` when `contract` is not
/// a contract address or the read fails. Nothing more is stated of the
/// result, which is host state.
#[verifier::external_body]
fn read_temporary_ttl(env: &Env, contract: &Address, key: &Val) -> Option<u32> {
    match ScAddress::from(contract) {
        ScAddress::Contract(_) => env
            .try_as_contract::<u32, soroban_sdk::Error>(contract, || env.storage().temporary().get_ttl(key))
            .ok(),
        _ => None,
    }
}

/// The TTL, in ledgers, of the persistent entry `key` of `contract`, read
/// as [`read_temporary_ttl`] reads a temporary one. `None` when `contract`
/// is not a contract address or the read fails (no such entry, or it has
/// expired). Nothing more is stated of the result, which is host state.
#[verifier::external_body]
fn read_persistent_ttl(env: &Env, contract: &Address, key: &Val) -> Option<u32> {
    match ScAddress::from(contract) {
        ScAddress::Contract(_) => env
            .try_as_contract::<u32, soroban_sdk::Error>(contract, || env.storage().persistent().get_ttl(key))
            .ok(),
        _ => None,
    }
}

/// The TTL, in ledgers, of the instance entry of `contract`: `get_ttl` on
/// instance storage inside the contract's frame, run by
/// `Env::try_as_contract`. `None` when `contract` is not a contract address
/// or the read fails. Nothing more is stated of the result, which is host
/// state.
#[verifier::external_body]
fn read_instance_ttl(env: &Env, contract: &Address) -> Option<u32> {
    match ScAddress::from(contract) {
        ScAddress::Contract(_) => env
            .try_as_contract::<u32, soroban_sdk::Error>(contract, || env.storage().instance().get_ttl())
            .ok(),
        _ => None,
    }
}

/// The TTL of the entry at `contract`/`kind`/`key`, or `None` where it
/// cannot be read; the key is ignored for the instance entry.
fn read_entry_ttl(env: &Env, contract: &Address, kind: StorageKind, key: &Val) -> Option<u32> {
    match kind {
        StorageKind::Temporary => read_temporary_ttl(env, contract, key),
        StorageKind::Persistent => read_persistent_ttl(env, contract, key),
        StorageKind::Instance => read_instance_ttl(env, contract),
    }
}

/// The message reported when a TTL cannot be read.
pub open spec fn missing_entry_text(kind: StorageKind) -> Seq<char> {
    "there is no live "@ + kind_text(kind)
        + " entry at this contract and key, so its TTL cannot be read"@
}

/// The error reported when a TTL cannot be read.
fn missing_entry(kind: StorageKind) -> (e: TestkitError)
    ensures
        e is Misuse && e.detail() == missing_entry_text(kind),
{
    let mut m = String::from_str("there is no live ");
    m.append(kind_name(kind));
    m.append(" entry at this contract and key, so its TTL cannot be read");
    TestkitError::Misuse(m)
}

impl TestEnv {
    /// The current TTL of a storage entry, in ledgers, or `None` if there is
    /// no live entry to read (or `contract` is not a contract). The key is
    /// ignored for [`StorageKind::Instance`].
    pub fn ttl_of(&self, contract: &Address, kind: StorageKind, key: &Val) -> Option<u32> {
        read_entry_ttl(self.env(), contract, kind, key)
    }

    /// Advance the ledger far enough that every entry, of any kind, expires:
    /// one ledger past the network's `max_entry_ttl` as the ledger info
    /// reports it at run time. `kind` documents intent at the call site; it
    /// does not change the distance.
    pub fn expire(&self, kind: StorageKind) {
        let max_entry_ttl = read_max_entry_ttl(self.env());
        let distance = expiry_ledgers(max_entry_ttl);
        self.advance_ledgers(distance);
    }

    /// Check that running `f` extends the TTL of the entry at
    /// `contract`/`kind`/`key` beyond what it was before `f` ran, reporting
    /// a [`TestkitError::AssertionFailed`] with both TTLs if it did not, and
    /// a [`TestkitError::Misuse`] if the TTL cannot be read before or after
    /// (`f` does not run when it cannot be read before).
    pub fn assert_bumps_ttl<F: FnOnce()>(
        &self,
        contract: &Address,
        kind: StorageKind,
        key: &Val,
        f: F,
    ) -> (r: Result<(), TestkitError>)
        requires
            call_requires(f, ()),
        ensures
            exists|before: Option<u32>, after: Option<u32>| #[trigger] bump_reported(kind, before, after, r),
    {
        let before = read_entry_ttl(self.env(), contract, kind, key);
        match before {
            None => {
                let r = Err(missing_entry(kind));
                assert(bump_reported(kind, before, None, r));
                r
            },
            Some(b) => {
                f();
                let after = read_entry_ttl(self.env(), contract, kind, key);
                let r = match after {
                    None => Err(missing_entry(kind)),
                    Some(a) => bump_verdict(kind, b, a),
                };
                assert(bump_reported(kind, before, after, r));
                r
            },
        }
    }
}

/// How many ledgers [`TestEnv::expire`] advances when the network's
/// `max_entry_ttl` is `max_entry_ttl`: one past it, saturating at
/// `u32::MAX`. The storage kind plays no part.
pub fn expiry_ledgers(max_entry_ttl: u32) -> (r: u32)
    ensures
        r == expiry_distance(max_entry_ttl),
        max_entry_ttl < u32::MAX ==> r > max_entry_ttl,
{
    max_entry_ttl.saturating_add(1)
}

/// `r` is the verdict on a TTL that read `before` and then `after`
/// (`None` where it could not be read).
pub open spec fn bump_reported(
    kind: StorageKind,
    before: Option<u32>,
    after: Option<u32>,
    r: Result<(), TestkitError>,
) -> bool {
    match (before, after) {
        (Some(b), Some(a)) => {
            &&& r is Ok <==> a > b
            &&& r matches Err(e) ==> e is AssertionFailed && e.detail() == no_bump_text(kind, b, a)
        },
        _ => r matches Err(e) && e is Misuse && e.detail() == missing_entry_text(kind),
    }
}

} // verus!
