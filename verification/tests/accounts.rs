use lib::accounts::{alice, bob, PalletId, ParaId};
use lib::config::{
    crowdloans_pallet_id, gift_account, para_a_id, parathread_id, refund_location,
    xcm_helper_pallet_id, AliceOrigin, BobOrigin,
};

fn padded(prefix: &[u8]) -> [u8; 32] {
    let mut a = [0u8; 32];
    a[..prefix.len()].copy_from_slice(prefix);
    a
}

#[test]
fn test_accounts() {
    assert_eq!(alice(), [1u8; 32]);
    assert_eq!(bob(), [2u8; 32]);
    assert_ne!(alice(), bob());
}

#[test]
fn test_para_ids() {
    assert_eq!(para_a_id(), ParaId(1));
    assert_eq!(parathread_id(), ParaId(2001));
}

#[test]
fn para_sovereign_accounts() {
    assert_eq!(ParaId(1).into_account(), padded(b"para\x01\x00\x00\x00"));
    assert_eq!(ParaId(2001).into_account(), padded(b"para\xd1\x07\x00\x00"));
    assert_eq!(ParaId(0x0102_0304).into_account(), padded(b"para\x04\x03\x02\x01"));
    assert_eq!(ParaId(u32::MAX).into_account(), padded(b"para\xff\xff\xff\xff"));
    assert_ne!(ParaId(1).into_account(), ParaId(256).into_account());
}

#[test]
fn pallet_accounts() {
    assert_eq!(PalletId(*b"crwloans").into_account(), padded(b"modlcrwloans"));
    assert_eq!(crowdloans_pallet_id().0, *b"crwloans");
    assert_eq!(xcm_helper_pallet_id().0, *b"par/fees");
    assert_eq!(xcm_helper_pallet_id().into_account(), padded(b"modlpar/fees"));
    assert_eq!(gift_account(), padded(b"modlpar/gift"));
    assert_ne!(PalletId(*b"para\x01\x00\x00\x00").into_account(), ParaId(1).into_account());
}

#[test]
fn refund_goes_to_parachain_sovereign_account() {
    assert_eq!(refund_location(), padded(b"para\x01\x00\x00\x00"));
    assert_eq!(refund_location(), para_a_id().into_account());
}

#[test]
fn privileged_members() {
    assert_eq!(AliceOrigin::sorted_members(), vec![[1u8; 32]]);
    assert_eq!(BobOrigin::sorted_members(), vec![[2u8; 32]]);
}
