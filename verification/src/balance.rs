//! Balances and currency identifiers of the test chains.

use vstd::prelude::*;

verus! {

/// An amount of some currency, in its smallest unit.
pub type Balance = u128;

/// Identifier of a currency on the parachain.
pub type CurrencyId = u32;

/// The native currency of Heiko.
pub const HKO: CurrencyId = 0;

/// The relay currency of Kusama.
pub const KSM: CurrencyId = 100;

/// The relay currency of Polkadot.
pub const DOT: CurrencyId = 101;

/// Liquid staking derivative of KSM.
pub const XKSM: CurrencyId = 1000;

/// Liquid staking derivative of DOT.
pub const XDOT: CurrencyId = 1001;

/// Smallest units in one DOT: 10^10.
pub const DOT_DECIMAL: Balance = 10_000_000_000;

/// `micros` millionths of a DOT in the smallest unit: the amount is scaled by
/// `DOT_DECIMAL` and divided back by a million.
pub fn dot_from_micros(micros: u128) -> (b: Balance)
    requires
        micros * DOT_DECIMAL <= u128::MAX,
    ensures
        b == micros * DOT_DECIMAL / 1_000_000,
        b == micros * 10_000,
{
    micros * DOT_DECIMAL / 1_000_000
}

/// Errors a dispatch can fail with.
#[derive(Clone, Copy, Debug, PartialEq, Eq, Structural)]
pub enum DispatchError {
    Other,
    CannotLookup,
    BadOrigin,
    ConsumerRemaining,
    NoProviders,
    TooManyConsumers,
}

/// Conversion of gifted native balances into asset balances: nothing is gifted
/// on the test chains.
pub struct GiftConvert;

impl GiftConvert {
    /// Every balance converts to an asset balance of zero.
    pub fn to_asset_balance(_balance: Balance, _asset_id: CurrencyId) -> (r: Result<
        Balance,
        DispatchError,
    >)
        ensures
            r == Ok::<Balance, DispatchError>(0),
    {
        Ok(0)
    }
}

} // verus!
