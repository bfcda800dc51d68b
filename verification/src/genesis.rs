//! Genesis setups of the test chains: the steps that build a parachain or the
//! relay chain before a test runs.

use vstd::prelude::*;

use crate::accounts::{alice, alice_bytes, pallet_type_id, para_account, zero_padded, AccountId, ParaId};
use crate::balance::{dot_from_micros, Balance, CurrencyId, DOT, DOT_DECIMAL, XDOT};
use crate::config::{para_a_id, xcm_helper_pallet_id, xcm_helper_pallet_id_bytes, BlockNumber};
use crate::weights::Weight;

verus! {

/// Calls the XCM helper pallet sends to the relay chain.
#[derive(Clone, Copy, Debug, PartialEq, Eq, Structural)]
pub enum XcmCall {
    Bond,
    BondExtra,
    Unbond,
    Rebond,
    WithdrawUnbonded,
    Nominate,
    Contribute,
    Withdraw,
    AddMemo,
}

/// Weight and fee charged for one kind of XCM call.
#[derive(Clone, Copy, Debug, PartialEq, Eq, Structural)]
pub struct XcmWeightFeeMisc {
    pub weight: Weight,
    pub fee: Balance,
}

/// One step of building a test chain's genesis.
#[derive(Clone, Copy, Debug, PartialEq, Eq)]
pub enum GenesisStep {
    /// The parachain-info pallet records `para_id` as this chain's id.
    SetParachainId(ParaId),
    /// The balances pallet starts `who` with `amount` of the native currency.
    EndowBalance { who: AccountId, amount: Balance },
    /// The relay chain's host configuration limits validation code to
    /// `max_code_size` bytes; every other setting keeps its default.
    SetMaxCodeSize(u32),
    /// The system pallet moves to block `n`.
    SetBlockNumber(BlockNumber),
    /// Root creates asset `id` owned by `owner`.
    ForceCreateAsset { id: CurrencyId, owner: AccountId, is_sufficient: bool, min_balance: Balance },
    /// `issuer` mints `amount` of asset `id` to `beneficiary`.
    MintAsset { id: CurrencyId, issuer: AccountId, beneficiary: AccountId, amount: Balance },
    /// Root sets the weight and fee of XCM call `call`.
    UpdateXcmWeightFee { call: XcmCall, misc: XcmWeightFeeMisc },
}

/// The account of the XCM helper pallet, which holds the fees for XCM calls.
pub open spec fn xcm_helper_account() -> Seq<u8> {
    zero_padded(pallet_type_id() + xcm_helper_pallet_id_bytes())
}

/// `n` whole DOT in the smallest unit.
pub open spec fn whole_dots(n: int) -> int {
    n * DOT_DECIMAL
}

/// A whole DOT is 10^10 of the smallest unit.
pub proof fn lemma_whole_dots(n: int)
    ensures
        whole_dots(n) == n * 10_000_000_000,
{
}

/// `step` creates asset `id`, owned by `owner`, with the given sufficiency and
/// minimum balance.
pub open spec fn creates(step: GenesisStep, id: CurrencyId, owner: Seq<u8>, min_balance: int) -> bool {
    step matches GenesisStep::ForceCreateAsset { id: a, owner: o, is_sufficient: s, min_balance: m }
        && a == id && o@ == owner && s && m == min_balance
}

/// `step` mints `amount` of asset `id` from `issuer` to `beneficiary`.
pub open spec fn mints(
    step: GenesisStep,
    id: CurrencyId,
    issuer: Seq<u8>,
    beneficiary: Seq<u8>,
    amount: int,
) -> bool {
    step matches GenesisStep::MintAsset { id: a, issuer: i, beneficiary: b, amount: x } && a == id
        && i@ == issuer && b@ == beneficiary && x == amount
}

/// `step` charges `weight` and `fee` for attaching a memo over XCM.
pub open spec fn prices_add_memo(step: GenesisStep, weight: int, fee: int) -> bool {
    step matches GenesisStep::UpdateXcmWeightFee { call, misc } && call == XcmCall::AddMemo
        && misc.weight == weight && misc.fee == fee
}

/// Every asset is minted only after a step before it created the asset.
pub open spec fn mints_follow_creation(plan: Seq<GenesisStep>) -> bool {
    forall|i: int|
        #![trigger plan[i]]
        0 <= i < plan.len() ==> (plan[i] matches GenesisStep::MintAsset { id, .. } ==> exists|j: int|
            0 <= j < i && (#[trigger] plan[j] matches GenesisStep::ForceCreateAsset { id: c, .. }
                && c == id))
}

/// The asset steps every test parachain starts with: DOT and xDOT owned by
/// Alice, `alice_dot` DOT and 100 xDOT minted to her, 30 DOT to the XCM helper
/// pallet for fees, and memos over XCM priced at weight 3_000_000_000 and a
/// fee of 10 DOT.
fn push_asset_steps(plan: &mut Vec<GenesisStep>, alice_dot_micros: u128)
    requires
        alice_dot_micros <= 1_000_000_000_000,
    ensures
        final(plan)@.len() == old(plan)@.len() + 6,
        forall|k: int| 0 <= k < old(plan)@.len() ==> final(plan)@[k] == old(plan)@[k],
        creates(final(plan)@[old(plan)@.len() as int], DOT, alice_bytes(), 1),
        creates(final(plan)@[old(plan)@.len() + 1int], XDOT, alice_bytes(), 1),
        mints(
            final(plan)@[old(plan)@.len() + 2int],
            DOT,
            alice_bytes(),
            alice_bytes(),
            alice_dot_micros * 10_000,
        ),
        mints(final(plan)@[old(plan)@.len() + 3int], XDOT, alice_bytes(), alice_bytes(), whole_dots(100)),
        mints(
            final(plan)@[old(plan)@.len() + 4int],
            DOT,
            alice_bytes(),
            xcm_helper_account(),
            whole_dots(30),
        ),
        prices_add_memo(final(plan)@[old(plan)@.len() + 5int], 3_000_000_000, whole_dots(10)),
{
    let helper = xcm_helper_pallet_id().into_account();
    plan.push(GenesisStep::ForceCreateAsset { id: DOT, owner: alice(), is_sufficient: true, min_balance: 1 });
    plan.push(GenesisStep::ForceCreateAsset { id: XDOT, owner: alice(), is_sufficient: true, min_balance: 1 });
    plan.push(GenesisStep::MintAsset {
        id: DOT,
        issuer: alice(),
        beneficiary: alice(),
        amount: dot_from_micros(alice_dot_micros),
    });
    plan.push(GenesisStep::MintAsset {
        id: XDOT,
        issuer: alice(),
        beneficiary: alice(),
        amount: dot_from_micros(100_000_000),
    });
    plan.push(GenesisStep::MintAsset {
        id: DOT,
        issuer: alice(),
        beneficiary: helper,
        amount: dot_from_micros(30_000_000),
    });
    plan.push(GenesisStep::UpdateXcmWeightFee {
        call: XcmCall::AddMemo,
        misc: XcmWeightFeeMisc { weight: 3_000_000_000, fee: dot_from_micros(10_000_000) },
    });
}

/// The creation steps at `dot_at` and `xdot_at` precede every mint of a plan
/// whose only mints are of DOT and xDOT at indices above both.
proof fn lemma_mints_follow_creation(plan: Seq<GenesisStep>, dot_at: int, xdot_at: int, first_mint: int)
    requires
        0 <= dot_at < first_mint,
        0 <= xdot_at < first_mint,
        plan[dot_at] matches GenesisStep::ForceCreateAsset { id, .. } && id == DOT,
        plan[xdot_at] matches GenesisStep::ForceCreateAsset { id, .. } && id == XDOT,
        forall|i: int|
            0 <= i < plan.len() && (#[trigger] plan[i] matches GenesisStep::MintAsset { .. }) ==> i
                >= first_mint,
        forall|i: int|
            0 <= i < plan.len() ==> (#[trigger] plan[i] matches GenesisStep::MintAsset { id, .. } ==> (
            id == DOT || id == XDOT)),
    ensures
        mints_follow_creation(plan),
{
    assert forall|i: int|
        #![trigger plan[i]]
        0 <= i < plan.len() && (plan[i] matches GenesisStep::MintAsset { .. }) implies exists|j: int|
        0 <= j < i && (#[trigger] plan[j] matches GenesisStep::ForceCreateAsset { id: c, .. } && c
            == plan[i]->MintAsset_id) by {
        if plan[i]->MintAsset_id == DOT {
            assert(plan[dot_at] matches GenesisStep::ForceCreateAsset { id: c, .. } && c == DOT);
        } else {
            assert(plan[xdot_at] matches GenesisStep::ForceCreateAsset { id: c, .. } && c == XDOT);
        }
    }
}

/// Genesis of a parachain for unit tests: the asset steps, with 100 DOT for
/// Alice.
pub fn new_test_ext() -> (plan: Vec<GenesisStep>)
    ensures
        plan@.len() == 6,
        creates(plan@[0], DOT, alice_bytes(), 1),
        creates(plan@[1], XDOT, alice_bytes(), 1),
        mints(plan@[2], DOT, alice_bytes(), alice_bytes(), whole_dots(100)),
        mints(plan@[3], XDOT, alice_bytes(), alice_bytes(), whole_dots(100)),
        mints(plan@[4], DOT, alice_bytes(), xcm_helper_account(), whole_dots(30)),
        prices_add_memo(plan@[5], 3_000_000_000, whole_dots(10)),
        mints_follow_creation(plan@),
{
    let mut plan: Vec<GenesisStep> = Vec::new();
    push_asset_steps(&mut plan, 100_000_000);
    proof {
        lemma_mints_follow_creation(plan@, 0, 1, 2);
    }
    plan
}

/// Genesis of parachain `para_id` in the simulated network: the chain learns
/// its id, moves to block 1 and takes the asset steps, with 100_000 DOT for
/// Alice.
pub fn para_ext(para_id: u32) -> (plan: Vec<GenesisStep>)
    ensures
        plan@.len() == 8,
        plan@[0] == GenesisStep::SetParachainId(ParaId(para_id)),
        plan@[1] == GenesisStep::SetBlockNumber(1),
        creates(plan@[2], DOT, alice_bytes(), 1),
        creates(plan@[3], XDOT, alice_bytes(), 1),
        mints(plan@[4], DOT, alice_bytes(), alice_bytes(), whole_dots(100_000)),
        mints(plan@[5], XDOT, alice_bytes(), alice_bytes(), whole_dots(100)),
        mints(plan@[6], DOT, alice_bytes(), xcm_helper_account(), whole_dots(30)),
        prices_add_memo(plan@[7], 3_000_000_000, whole_dots(10)),
        mints_follow_creation(plan@),
{
    let mut plan: Vec<GenesisStep> = Vec::new();
    plan.push(GenesisStep::SetParachainId(ParaId(para_id)));
    plan.push(GenesisStep::SetBlockNumber(1));
    push_asset_steps(&mut plan, 100_000_000_000);
    proof {
        lemma_mints_follow_creation(plan@, 2, 3, 4);
    }
    plan
}

/// Genesis of the relay chain in the simulated network: Alice holds 100_000
/// DOT and the sovereign account of the parachain under test 1_000_000 DOT,
/// validation code is limited to 1024 bytes, and the chain moves to block 1.
pub fn relay_ext() -> (plan: Vec<GenesisStep>)
    ensures
        plan@.len() == 4,
        plan@[0] matches GenesisStep::EndowBalance { who, amount } && who@ == alice_bytes()
            && amount == whole_dots(100_000),
        plan@[1] matches GenesisStep::EndowBalance { who, amount } && who@ == para_account(ParaId(1))
            && amount == whole_dots(1_000_000),
        plan@[2] == GenesisStep::SetMaxCodeSize(1024),
        plan@[3] == GenesisStep::SetBlockNumber(1),
{
    let mut plan: Vec<GenesisStep> = Vec::new();
    plan.push(GenesisStep::EndowBalance { who: alice(), amount: dot_from_micros(100_000_000_000) });
    plan.push(GenesisStep::EndowBalance {
        who: para_a_id().into_account(),
        amount: dot_from_micros(1_000_000_000_000),
    });
    plan.push(GenesisStep::SetMaxCodeSize(1024));
    plan.push(GenesisStep::SetBlockNumber(1));
    plan
}

} // verus!
