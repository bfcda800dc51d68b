//! Parameters of the crowdloans test runtime: limits, deposits, identities of
//! the test parachains and the accounts its pallets hold funds in.

use vstd::prelude::*;

use crate::accounts::{
    alice, alice_bytes, bob, bob_bytes, pallet_type_id, para_account, zero_padded, AccountId, PalletId, ParaId,
};
use crate::balance::{Balance, CurrencyId, DOT_DECIMAL, HKO};
use crate::weights::Weight;

verus! {

/// Block numbers of the test chains.
pub type BlockNumber = u32;

/// Weight of one second of execution.
pub const WEIGHT_PER_SECOND: Weight = 1_000_000_000_000;

/// Weight reserved for inbound cross-chain messages from siblings.
pub const RESERVED_XCMP_WEIGHT: Weight = WEIGHT_PER_SECOND / 4;

/// Weight reserved for downward messages from the relay chain.
pub const RESERVED_DMP_WEIGHT: Weight = WEIGHT_PER_SECOND / 4;

/// Weight of one XCM instruction.
pub const UNIT_WEIGHT_COST: Weight = 1;

/// Instructions an XCM message may hold.
pub const MAX_INSTRUCTIONS: u32 = 100;

/// Base weight of a token transfer over XCM.
pub const BASE_XCM_WEIGHT: Weight = 100_000_000;

/// Assets one XCM transfer may carry.
pub const MAX_ASSETS_FOR_TRANSFER: usize = 2;

/// The currency fees are paid in.
pub const NATIVE_CURRENCY_ID: CurrencyId = HKO;

/// Block hashes the system pallet keeps.
pub const BLOCK_HASH_COUNT: u32 = 250;

/// Address format prefix.
pub const SS58_PREFIX: u8 = 42;

/// Consumers an account may have.
pub const MAX_CONSUMERS: u32 = 16;

/// Smallest balance an account may hold.
pub const EXISTENTIAL_DEPOSIT: Balance = 1;

/// Locks an account may hold.
pub const MAX_LOCKS: u32 = 50;

/// Smallest crowdloan contribution.
pub const MIN_CONTRIBUTION: Balance = 0;

/// Keys migrated per crowdloan migration call.
pub const MIGRATE_KEYS_LIMIT: u32 = 10;

/// Keys removed per crowdloan dissolution call.
pub const REMOVE_KEYS_LIMIT: u32 = 1000;

/// Blocks after which an unanswered XCM request times out.
pub const NOTIFY_TIMEOUT: BlockNumber = 100;

/// Pending XCM version discoveries.
pub const VERSION_DISCOVERY_QUEUE_SIZE: u32 = 100;

/// Deposit for creating an asset: one DOT.
pub const ASSET_DEPOSIT: Balance = DOT_DECIMAL;

/// Deposit for an approval.
pub const APPROVAL_DEPOSIT: Balance = 0;

/// Deposit for an asset account.
pub const ASSET_ACCOUNT_DEPOSIT: Balance = 0;

/// Longest asset name or symbol.
pub const ASSETS_STRING_LIMIT: u32 = 50;

/// Base deposit for asset metadata.
pub const METADATA_DEPOSIT_BASE: Balance = 0;

/// Deposit per byte of asset metadata.
pub const METADATA_DEPOSIT_PER_BYTE: Balance = 0;

/// The parachain under test.
pub fn para_a_id() -> (p: ParaId)
    ensures
        p == ParaId(1),
{
    ParaId(1)
}

/// A parathread of the test relay chain.
pub fn parathread_id() -> (p: ParaId)
    ensures
        p == ParaId(2001),
{
    ParaId(2001)
}

/// `b"crwloans"`.
pub open spec fn crowdloans_pallet_id_bytes() -> Seq<u8> {
    seq![0x63u8, 0x72u8, 0x77u8, 0x6cu8, 0x6fu8, 0x61u8, 0x6eu8, 0x73u8]
}

/// `b"par/fees"`.
pub open spec fn xcm_helper_pallet_id_bytes() -> Seq<u8> {
    seq![0x70u8, 0x61u8, 0x72u8, 0x2fu8, 0x66u8, 0x65u8, 0x65u8, 0x73u8]
}

/// `b"par/gift"`.
pub open spec fn gift_pallet_id_bytes() -> Seq<u8> {
    seq![0x70u8, 0x61u8, 0x72u8, 0x2fu8, 0x67u8, 0x69u8, 0x66u8, 0x74u8]
}

/// Identifier of the crowdloans pallet.
pub fn crowdloans_pallet_id() -> (p: PalletId)
    ensures
        p.0@ == crowdloans_pallet_id_bytes(),
{
    let p = PalletId([0x63u8, 0x72u8, 0x77u8, 0x6cu8, 0x6fu8, 0x61u8, 0x6eu8, 0x73u8]);
    assert(p.0@ =~= crowdloans_pallet_id_bytes());
    p
}

/// Identifier of the XCM helper pallet, which pays XCM fees.
pub fn xcm_helper_pallet_id() -> (p: PalletId)
    ensures
        p.0@ == xcm_helper_pallet_id_bytes(),
{
    let p = PalletId([0x70u8, 0x61u8, 0x72u8, 0x2fu8, 0x66u8, 0x65u8, 0x65u8, 0x73u8]);
    assert(p.0@ =~= xcm_helper_pallet_id_bytes());
    p
}

/// The account gifts of native currency would be paid from: the account of
/// the pallet id `b"par/gift"`.
pub fn gift_account() -> (a: AccountId)
    ensures
        a@ == zero_padded(pallet_type_id() + gift_pallet_id_bytes()),
{
    let p = PalletId([0x70u8, 0x61u8, 0x72u8, 0x2fu8, 0x67u8, 0x69u8, 0x66u8, 0x74u8]);
    assert(p.0@ =~= gift_pallet_id_bytes());
    p.into_account()
}

/// Where crowdloan refunds go: the relay chain account of the parachain
/// under test.
pub fn refund_location() -> (a: AccountId)
    ensures
        a@ == para_account(ParaId(1)),
{
    para_a_id().into_account()
}

/// The members allowed to create, update and dissolve vaults: Alice only.
pub struct AliceOrigin;

impl AliceOrigin {
    pub fn sorted_members() -> (members: Vec<AccountId>)
        ensures
            members@.len() == 1,
            members@[0]@ == alice_bytes(),
    {
        let mut members: Vec<AccountId> = Vec::new();
        members.push(alice());
        members
    }
}

/// The members allowed to report auction failures and expired slots: Bob
/// only.
pub struct BobOrigin;

impl BobOrigin {
    pub fn sorted_members() -> (members: Vec<AccountId>)
        ensures
            members@.len() == 1,
            members@[0]@ == bob_bytes(),
    {
        let mut members: Vec<AccountId> = Vec::new();
        members.push(bob());
        members
    }
}

/// The relay chain block number as the parachain last saw it.
pub struct RelayChainBlockNumberProvider;

impl RelayChainBlockNumberProvider {
    /// The relay parent number of the current validation data, or zero
    /// before any validation data was set.
    pub fn current_block_number(relay_parent_number: Option<BlockNumber>) -> (n: BlockNumber)
        ensures
            n == match relay_parent_number {
                Some(m) => m,
                None => 0,
            },
    {
        match relay_parent_number {
            Some(m) => m,
            None => 0,
        }
    }
}

} // verus!
