use lib::accounts::{ParaId, PalletId};
use lib::balance::{dot_from_micros, GiftConvert, DispatchError, DOT, DOT_DECIMAL, XDOT};
use lib::config::{
    RelayChainBlockNumberProvider, ASSET_DEPOSIT, RESERVED_DMP_WEIGHT, RESERVED_XCMP_WEIGHT,
    WEIGHT_PER_SECOND,
};
use lib::genesis::{new_test_ext, para_ext, relay_ext, GenesisStep, XcmCall, XcmWeightFeeMisc};

const ALICE: [u8; 32] = [1u8; 32];

fn helper() -> [u8; 32] {
    PalletId(*b"par/fees").into_account()
}

#[test]
fn dot_amounts() {
    assert_eq!(DOT_DECIMAL, 10_000_000_000);
    assert_eq!(dot_from_micros(100_000_000), 1_000_000_000_000);
    assert_eq!(dot_from_micros(9_950_000), 99_500_000_000);
    assert_eq!(dot_from_micros(1), 10_000);
    assert_eq!(dot_from_micros(0), 0);
    assert_eq!(dot_from_micros(u128::MAX / DOT_DECIMAL), u128::MAX / DOT_DECIMAL * 10_000);
}

#[test]
fn gift_conversion_is_zero() {
    assert_eq!(GiftConvert::to_asset_balance(1_000, DOT), Ok::<u128, DispatchError>(0));
    assert_eq!(GiftConvert::to_asset_balance(u128::MAX, 7), Ok::<u128, DispatchError>(0));
}

#[test]
fn relay_block_number() {
    assert_eq!(RelayChainBlockNumberProvider::current_block_number(Some(10)), 10);
    assert_eq!(RelayChainBlockNumberProvider::current_block_number(None), 0);
}

#[test]
fn parameters() {
    assert_eq!(RESERVED_XCMP_WEIGHT, 250_000_000_000);
    assert_eq!(RESERVED_DMP_WEIGHT, WEIGHT_PER_SECOND / 4);
    assert_eq!(ASSET_DEPOSIT, DOT_DECIMAL);
}

fn asset_steps(alice_dot: u128) -> Vec<GenesisStep> {
    vec![
        GenesisStep::ForceCreateAsset { id: DOT, owner: ALICE, is_sufficient: true, min_balance: 1 },
        GenesisStep::ForceCreateAsset { id: XDOT, owner: ALICE, is_sufficient: true, min_balance: 1 },
        GenesisStep::MintAsset { id: DOT, issuer: ALICE, beneficiary: ALICE, amount: alice_dot * DOT_DECIMAL },
        GenesisStep::MintAsset { id: XDOT, issuer: ALICE, beneficiary: ALICE, amount: 100 * DOT_DECIMAL },
        GenesisStep::MintAsset { id: DOT, issuer: ALICE, beneficiary: helper(), amount: 30 * DOT_DECIMAL },
        GenesisStep::UpdateXcmWeightFee {
            call: XcmCall::AddMemo,
            misc: XcmWeightFeeMisc { weight: 3_000_000_000, fee: 10 * DOT_DECIMAL },
        },
    ]
}

#[test]
fn unit_test_genesis() {
    assert_eq!(new_test_ext(), asset_steps(100));
}

#[test]
fn parachain_genesis() {
    let mut expected = vec![GenesisStep::SetParachainId(ParaId(1)), GenesisStep::SetBlockNumber(1)];
    expected.extend(asset_steps(100_000));
    assert_eq!(para_ext(1), expected);
    assert_eq!(para_ext(2001)[0], GenesisStep::SetParachainId(ParaId(2001)));
}

#[test]
fn genesis_mints_only_created_assets() {
    for plan in [new_test_ext(), para_ext(1)] {
        for (i, step) in plan.iter().enumerate() {
            if let GenesisStep::MintAsset { id, .. } = step {
                assert!(plan[..i].iter().any(|s| matches!(
                    s,
                    GenesisStep::ForceCreateAsset { id: c, .. } if c == id
                )));
            }
        }
    }
}

#[test]
fn relay_genesis() {
    assert_eq!(
        relay_ext(),
        vec![
            GenesisStep::EndowBalance { who: ALICE, amount: 100_000 * DOT_DECIMAL },
            GenesisStep::EndowBalance { who: ParaId(1).into_account(), amount: 1_000_000 * DOT_DECIMAL },
            GenesisStep::SetMaxCodeSize(1024),
            GenesisStep::SetBlockNumber(1),
        ]
    );
}
