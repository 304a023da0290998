//! Stellar Asset Contract test doubles with one-line mint and balance
//! helpers.
use soroban_sdk::testutils::{MockAuth, MockAuthInvoke, StellarAssetContract};
use soroban_sdk::token::{StellarAssetClient, TokenClient};
use soroban_sdk::{Address, Env, IntoVal};
use vstd::prelude::*;

use crate::base::env::{copy_address, share_env, TestEnv};
use crate::base::error::TestkitError;
use crate::base::render::{i128_text, int_text, nat_text, u64_text};

verus! {

/// The decimal precision every Stellar Asset Contract uses, fixed by the
/// protocol: a deployer cannot choose another.
pub const SAC_DECIMALS: u32 = 7;

/// The number of base units in one whole unit at [`SAC_DECIMALS`] (`10^7`).
pub const SAC_SCALE: i128 = 10_000_000;

/// A deployed Stellar Asset Contract, carried through opaquely.
#[verifier::external_type_specification]
#[verifier::external_body]
pub struct ExStellarAssetContract(StellarAssetContract);

/// Deploy a Stellar Asset Contract administered by `admin` into `env`
/// (`Env::register_stellar_asset_contract_v2`). Nothing is stated of the
/// result.
#[verifier::external_body]
fn deploy_sac(env: &Env, admin: Address) -> StellarAssetContract {
    env.register_stellar_asset_contract_v2(admin)
}

/// The address of a deployed Stellar Asset Contract
/// (`StellarAssetContract::address`). Nothing is stated of the result.
#[verifier::external_body]
fn sac_address(sac: &StellarAssetContract) -> Address {
    sac.address()
}

/// Mint `amount` base units of the token at `token` to `to`, authorised as
/// `admin` for exactly that call (`StellarAssetClient::try_mint` under
/// `mock_auths`). `true` when the mint went through; `false` when the
/// contract rejected it (for example a balance that would pass
/// `i128::MAX`, a negative amount, or a holder without a trustline). The
/// balance it changes is host state and is not modelled.
#[verifier::external_body]
fn sac_mint(env: &Env, token: &Address, admin: &Address, to: &Address, amount: i128) -> bool {
    let auth = MockAuth {
        address: admin,
        invoke: &MockAuthInvoke {
            contract: token,
            fn_name: "mint",
            args: (to.clone(), amount).into_val(env),
            sub_invokes: &[],
        },
    };
    matches!(StellarAssetClient::new(env, token).mock_auths(&[auth]).try_mint(to, &amount), Ok(Ok(())))
}

/// The base-unit balance of `of` in the token at `token`
/// (`TokenClient::try_balance`), or `None` when the contract rejects the
/// read (for example an account without a trustline). Nothing more is
/// stated of the result: it is host state.
#[verifier::external_body]
fn sac_balance(env: &Env, token: &Address, of: &Address) -> Option<i128> {
    match TokenClient::new(env, token).try_balance(of) {
        Ok(Ok(b)) => Some(b),
        _ => None,
    }
}

/// The `Debug` rendering of an address (`format!("{:?}")`), for failure
/// messages. Nothing is stated of the result.
#[verifier::external_body]
pub(crate) fn address_debug_text(a: &Address) -> String {
    format!("{:?}", a)
}

/// A deployed Stellar Asset Contract test double.
pub struct TestToken {
    env: Env,
    address: Address,
    admin: Address,
    total_tracked: i128,
}

/// The message reported when whole units overflow once scaled to base
/// units.
pub open spec fn mint_overflow_text(amount: i128) -> Seq<char> {
    "mint("@ + int_text(amount as int) + ") overflows i128 once converted to base units at "@
        + nat_text(SAC_DECIMALS as nat)
        + " decimals; use mint_raw for amounts already in base units"@
}

/// The message reported when a balance differs from the expected one;
/// `who` is the rendering of the holder.
pub open spec fn balance_mismatch_text(who: Seq<char>, expected: i128, actual: i128) -> Seq<char> {
    "expected balance of "@ + who + " to be "@ + int_text(expected as int) + ", found "@
        + int_text(actual as int)
}

/// Judge an observed balance against the expected one.
pub fn balance_verdict(who: &str, expected: i128, actual: i128) -> (r: Result<(), TestkitError>)
    ensures
        r is Ok <==> actual == expected,
        r matches Err(e) ==> e is AssertionFailed && e.detail() == balance_mismatch_text(
            who@,
            expected,
            actual,
        ),
{
    if actual != expected {
        let mut m = String::from_str("expected balance of ");
        m.append(who);
        m.append(" to be ");
        m.append(i128_text(expected).as_str());
        m.append(", found ");
        m.append(i128_text(actual).as_str());
        Err(TestkitError::AssertionFailed(m))
    } else {
        Ok(())
    }
}

/// The message reported when the token contract rejects a mint.
pub open spec fn mint_rejected_text(amount: i128) -> Seq<char> {
    "mint_raw("@ + int_text(amount as int) + ") was rejected by the token contract"@
}

/// `r` reports a mint of `amount` base units that moved the tracked total
/// from `before` to `after`: either it succeeded and the total grew by
/// `amount`, or the token contract rejected it and nothing changed.
pub open spec fn mint_reported(amount: i128, before: i128, after: i128, r: Result<(), TestkitError>) -> bool {
    ||| r is Ok && after == before + amount
    ||| r matches Err(e) && e is Misuse && e.detail() == mint_rejected_text(amount) && after == before
}

/// `r` is the verdict on a balance of the holder rendered as `who` that
/// read `actual` (`None` where it could not be read).
pub open spec fn balance_reported(who: Seq<char>, expected: i128, actual: Option<i128>, r: Result<(), TestkitError>) -> bool {
    match actual {
        Some(a) => {
            &&& r is Ok <==> a == expected
            &&& r matches Err(e) ==> e is AssertionFailed && e.detail() == balance_mismatch_text(who, expected, a)
        },
        None => r matches Err(e) && e is Misuse && e.detail() == "the balance of "@ + who
            + " cannot be read from the token contract"@,
    }
}

/// The message reported when a precision other than the SAC's is asked
/// for.
pub open spec fn decimals_mismatch_text(decimals: u32) -> Seq<char> {
    "token_with_decimals("@ + nat_text(decimals as nat)
        + "): Stellar Asset Contracts fix decimals at 7 and cannot be deployed with a different precision; use token() for the standard 7-decimal token"@
}

impl TestToken {
    /// Total base units minted through this token.
    pub closed spec fn minted_total(&self) -> i128 {
        self.total_tracked
    }

    /// The environment the token was deployed into.
    pub closed spec fn host(&self) -> Env {
        self.env
    }

    /// The token contract's address.
    pub closed spec fn token_address(&self) -> Address {
        self.address
    }

    /// The address that administers the token and authorises its mints.
    pub closed spec fn admin(&self) -> Address {
        self.admin
    }

    fn new(env: &Env, admin: Address) -> (r: Self)
        ensures
            r.minted_total() == 0,
            r.host() == *env,
            r.admin() == admin,
    {
        let sac = deploy_sac(env, copy_address(&admin));
        let address = sac_address(&sac);
        TestToken { env: share_env(env), address, admin, total_tracked: 0 }
    }

    /// The token contract's address.
    pub fn address(&self) -> (r: Address)
        ensures
            r == self.token_address(),
    {
        copy_address(&self.address)
    }

    /// The token's decimal precision: always 7.
    pub fn decimals(&self) -> (r: u32)
        ensures
            r == SAC_DECIMALS,
    {
        SAC_DECIMALS
    }

    /// Mint `amount` whole units to `to`, converted to base units
    /// (`amount * 10^7`). Reports a [`TestkitError::Misuse`], minting
    /// nothing, if the conversion overflows `i128`; use
    /// [`TestToken::mint_raw`] for amounts already in base units. Otherwise
    /// the outcome is that of [`TestToken::mint_raw`] on the converted
    /// amount.
    pub fn mint(&mut self, to: &Address, amount: i128) -> (r: Result<(), TestkitError>)
        requires
            amount >= 0,
            amount * SAC_SCALE <= i128::MAX ==> old(self).minted_total() + amount * SAC_SCALE
                <= i128::MAX,
        ensures
            amount * SAC_SCALE > i128::MAX ==> (r matches Err(e) && e is Misuse && e.detail()
                == mint_overflow_text(amount) && final(self).minted_total() == old(self).minted_total()),
            amount * SAC_SCALE <= i128::MAX ==> mint_reported(
                (amount * SAC_SCALE) as i128,
                old(self).minted_total(),
                final(self).minted_total(),
                r,
            ),
            final(self).host() == old(self).host(),
            final(self).token_address() == old(self).token_address(),
            final(self).admin() == old(self).admin(),
    {
        match amount.checked_mul(SAC_SCALE) {
            Some(raw) => self.mint_raw(to, raw),
            None => {
                let mut m = String::from_str("mint(");
                m.append(i128_text(amount).as_str());
                m.append(") overflows i128 once converted to base units at ");
                m.append(u64_text(SAC_DECIMALS as u64).as_str());
                m.append(" decimals; use mint_raw for amounts already in base units");
                Err(TestkitError::Misuse(m))
            },
        }
    }

    /// Mint `amount` base units (stroops) to `to`, with no unit conversion.
    /// The tracked total grows by `amount` exactly when the token contract
    /// accepts the mint; a rejected mint reports a [`TestkitError::Misuse`]
    /// and changes nothing.
    pub fn mint_raw(&mut self, to: &Address, amount: i128) -> (r: Result<(), TestkitError>)
        requires
            amount >= 0,
            old(self).minted_total() + amount <= i128::MAX,
        ensures
            mint_reported(amount, old(self).minted_total(), final(self).minted_total(), r),
            final(self).host() == old(self).host(),
            final(self).token_address() == old(self).token_address(),
            final(self).admin() == old(self).admin(),
    {
        if sac_mint(&self.env, &self.address, &self.admin, to, amount) {
            self.total_tracked = self.total_tracked + amount;
            Ok(())
        } else {
            let mut m = String::from_str("mint_raw(");
            m.append(i128_text(amount).as_str());
            m.append(") was rejected by the token contract");
            Err(TestkitError::Misuse(m))
        }
    }

    /// The base-unit balance of `of`, or `None` when the token contract
    /// cannot report one (for example an account without a trustline).
    pub fn balance(&self, of: &Address) -> Option<i128> {
        sac_balance(&self.env, &self.address, of)
    }

    /// Check that `of`'s base-unit balance equals `expected`, reporting a
    /// [`TestkitError::AssertionFailed`] with both balances if it does not,
    /// and a [`TestkitError::Misuse`] if the balance cannot be read.
    pub fn assert_balance(&self, of: &Address, expected: i128) -> (r: Result<(), TestkitError>)
        ensures
            exists|who: Seq<char>, actual: Option<i128>| #[trigger] balance_reported(who, expected, actual, r),
    {
        let actual = self.balance(of);
        let who = address_debug_text(of);
        let r = match actual {
            Some(a) => balance_verdict(who.as_str(), expected, a),
            None => {
                let mut m = String::from_str("the balance of ");
                m.append(who.as_str());
                m.append(" cannot be read from the token contract");
                Err(TestkitError::Misuse(m))
            },
        };
        assert(balance_reported(who@, expected, actual, r));
        r
    }

    /// Total base units minted through this token, across every recipient.
    pub fn total_tracked(&self) -> (r: i128)
        ensures
            r == self.minted_total(),
    {
        self.total_tracked
    }
}

impl TestEnv {
    /// Deploy a Stellar Asset Contract with the standard 7 decimals,
    /// administered by a fresh address.
    pub fn token(&self) -> (r: TestToken)
        ensures
            r.minted_total() == 0,
            r.host() == self.sdk_env(),
    {
        let admin = self.address();
        TestToken::new(self.env(), admin)
    }

    /// Deploy a Stellar Asset Contract, checking it uses `decimals`: SACs
    /// fix their precision at 7, so any other value reports a
    /// [`TestkitError::Misuse`] and deploys nothing.
    pub fn token_with_decimals(&self, decimals: u32) -> (r: Result<TestToken, TestkitError>)
        ensures
            r is Ok <==> decimals == SAC_DECIMALS,
            r matches Ok(t) ==> t.minted_total() == 0 && t.host() == self.sdk_env(),
            r matches Err(e) ==> e is Misuse && e.detail() == decimals_mismatch_text(decimals),
    {
        if decimals != SAC_DECIMALS {
            let mut m = String::from_str("token_with_decimals(");
            m.append(u64_text(decimals as u64).as_str());
            m.append(
                "): Stellar Asset Contracts fix decimals at 7 and cannot be deployed with a different precision; use token() for the standard 7-decimal token",
            );
            return Err(TestkitError::Misuse(m));
        }
        Ok(self.token())
    }
}

} // verus!
