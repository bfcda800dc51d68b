use lib::accounts::ParaId;
use lib::balance::{CurrencyId, DOT, HKO, KSM, XDOT, XKSM};
use lib::location::{
    ancestry, dot_per_second, relay_network, self_location, AccountIdToMultiLocation, AssetId,
    AssetInstance, Convert, CurrencyIdConvert, Fungibility, Junction, MultiAsset, MultiLocation,
    NetworkId,
};

fn xdot_of(para: u32) -> MultiLocation {
    MultiLocation::new(1, vec![Junction::Parachain(para), Junction::GeneralKey(b"xDOT".to_vec())])
}

const PARA_A: CurrencyIdConvert = CurrencyIdConvert { para_id: ParaId(1) };

#[test]
fn currency_to_location() {
    let dot: Option<MultiLocation> = PARA_A.convert(DOT);
    assert_eq!(dot, Some(MultiLocation::parent()));
    assert_eq!(MultiLocation::parent(), MultiLocation { parents: 1, interior: vec![] });
    let xdot: Option<MultiLocation> = PARA_A.convert(XDOT);
    assert_eq!(xdot, Some(xdot_of(1)));
    for other in [HKO, KSM, XKSM, 0, 102, u32::MAX] {
        let r: Option<MultiLocation> = PARA_A.convert(other);
        assert_eq!(r, None);
    }
}

#[test]
fn location_to_currency() {
    let r: Option<CurrencyId> = PARA_A.convert(MultiLocation::parent());
    assert_eq!(r, Some(DOT));
    let r: Option<CurrencyId> = PARA_A.convert(xdot_of(1));
    assert_eq!(r, Some(XDOT));
    let r: Option<CurrencyId> = PARA_A.convert(xdot_of(2));
    assert_eq!(r, None);
    let other_key = MultiLocation::new(
        1,
        vec![Junction::Parachain(1), Junction::GeneralKey(b"xKSM".to_vec())],
    );
    let r: Option<CurrencyId> = PARA_A.convert(other_key);
    assert_eq!(r, None);
    let longer_key = MultiLocation::new(
        1,
        vec![Junction::Parachain(1), Junction::GeneralKey(b"xDOTx".to_vec())],
    );
    let r: Option<CurrencyId> = PARA_A.convert(longer_key);
    assert_eq!(r, None);
    let r: Option<CurrencyId> = PARA_A.convert(MultiLocation::new(0, vec![]));
    assert_eq!(r, None);
    let r: Option<CurrencyId> = PARA_A.convert(MultiLocation::new(2, vec![]));
    assert_eq!(r, None);
    let swapped = MultiLocation::new(
        1,
        vec![Junction::GeneralKey(b"xDOT".to_vec()), Junction::Parachain(1)],
    );
    let r: Option<CurrencyId> = PARA_A.convert(swapped);
    assert_eq!(r, None);
    let three = MultiLocation::new(
        1,
        vec![Junction::Parachain(1), Junction::GeneralKey(b"xDOT".to_vec()), Junction::OnlyChild],
    );
    let r: Option<CurrencyId> = PARA_A.convert(three);
    assert_eq!(r, None);
    let r: Option<CurrencyId> = PARA_A.convert(self_location(ParaId(1)));
    assert_eq!(r, None);
}

#[test]
fn roundtrip_between_currencies_and_locations() {
    for para in [0u32, 1, 2001, u32::MAX] {
        let c = CurrencyIdConvert { para_id: ParaId(para) };
        for id in [DOT, XDOT] {
            let l: Option<MultiLocation> = c.convert(id);
            let back: Option<CurrencyId> = c.convert(l.unwrap());
            assert_eq!(back, Some(id));
        }
    }
}

#[test]
fn asset_to_currency() {
    let dot = MultiAsset { id: AssetId::Concrete(MultiLocation::parent()), fun: Fungibility::Fungible(10) };
    let r: Option<CurrencyId> = PARA_A.convert(dot);
    assert_eq!(r, Some(DOT));
    let xdot = MultiAsset {
        id: AssetId::Concrete(xdot_of(1)),
        fun: Fungibility::NonFungible(AssetInstance::Index(3)),
    };
    let r: Option<CurrencyId> = PARA_A.convert(xdot);
    assert_eq!(r, Some(XDOT));
    let abs = MultiAsset { id: AssetId::Abstract(b"DOT".to_vec()), fun: Fungibility::Fungible(1) };
    let r: Option<CurrencyId> = PARA_A.convert(abs);
    assert_eq!(r, None);
}

#[test]
fn account_to_location() {
    let l = AccountIdToMultiLocation.convert([7u8; 32]);
    assert_eq!(
        l,
        MultiLocation {
            parents: 0,
            interior: vec![Junction::AccountId32 { network: NetworkId::Any, id: [7u8; 32] }],
        }
    );
    let r: Option<CurrencyId> = PARA_A.convert(l);
    assert_eq!(r, None);
}

#[test]
fn parameter_locations() {
    assert_eq!(relay_network(), NetworkId::Kusama);
    assert_eq!(self_location(ParaId(1)), MultiLocation { parents: 1, interior: vec![Junction::Parachain(1)] });
    assert_eq!(ancestry(ParaId(2001)), MultiLocation { parents: 0, interior: vec![Junction::Parachain(2001)] });
    let (asset, per_second) = dot_per_second();
    assert_eq!(asset, AssetId::Concrete(MultiLocation::parent()));
    assert_eq!(per_second, 1);
}
