//! Cross-consensus locations and assets, and the conversions between them and
//! the parachain's currencies and accounts.

use vstd::prelude::*;

use crate::accounts::{AccountId, ParaId};
use crate::balance::{CurrencyId, DOT, XDOT};

verus! {

/// A consensus network.
#[derive(Clone, Debug, PartialEq, Eq)]
pub enum NetworkId {
    Any,
    Named(Vec<u8>),
    Polkadot,
    Kusama,
}

/// One step of a location's interior path.
#[derive(Clone, Debug, PartialEq, Eq)]
pub enum Junction {
    Parachain(u32),
    AccountId32 { network: NetworkId, id: AccountId },
    AccountIndex64 { network: NetworkId, index: u64 },
    PalletInstance(u8),
    GeneralIndex(u128),
    GeneralKey(Vec<u8>),
    OnlyChild,
}

/// A location relative to the current consensus system: `parents` steps
/// up, then down the `interior` junctions.
#[derive(Clone, Debug, PartialEq, Eq)]
pub struct MultiLocation {
    pub parents: u8,
    pub interior: Vec<Junction>,
}

/// What an asset is identified by.
#[derive(Clone, Debug, PartialEq, Eq)]
pub enum AssetId {
    Concrete(MultiLocation),
    Abstract(Vec<u8>),
}

/// One instance of a non-fungible asset class.
#[derive(Clone, Debug, PartialEq, Eq)]
pub enum AssetInstance {
    Undefined,
    Index(u128),
    Array4([u8; 4]),
    Array8([u8; 8]),
    Array16([u8; 16]),
    Array32([u8; 32]),
    Blob(Vec<u8>),
}

/// How much of an asset, or which instance of it.
#[derive(Clone, Debug, PartialEq, Eq)]
pub enum Fungibility {
    Fungible(u128),
    NonFungible(AssetInstance),
}

/// An amount or instance of an identified asset.
#[derive(Clone, Debug, PartialEq, Eq)]
pub struct MultiAsset {
    pub id: AssetId,
    pub fun: Fungibility,
}

/// The model of a network.
#[verifier::ext_equal]
pub enum NetworkModel {
    Any,
    Named(Seq<u8>),
    Polkadot,
    Kusama,
}

/// The model of a junction.
#[verifier::ext_equal]
pub enum JunctionModel {
    Parachain(u32),
    AccountId32 { network: NetworkModel, id: Seq<u8> },
    AccountIndex64 { network: NetworkModel, index: u64 },
    PalletInstance(u8),
    GeneralIndex(u128),
    GeneralKey(Seq<u8>),
    OnlyChild,
}

/// The model of a location.
#[verifier::ext_equal]
pub struct LocationModel {
    pub parents: u8,
    pub interior: Seq<JunctionModel>,
}

impl View for NetworkId {
    type V = NetworkModel;

    open spec fn view(&self) -> NetworkModel {
        match self {
            NetworkId::Any => NetworkModel::Any,
            NetworkId::Named(name) => NetworkModel::Named(name@),
            NetworkId::Polkadot => NetworkModel::Polkadot,
            NetworkId::Kusama => NetworkModel::Kusama,
        }
    }
}

impl View for Junction {
    type V = JunctionModel;

    open spec fn view(&self) -> JunctionModel {
        match self {
            Junction::Parachain(id) => JunctionModel::Parachain(*id),
            Junction::AccountId32 { network, id } => JunctionModel::AccountId32 {
                network: network@,
                id: id@,
            },
            Junction::AccountIndex64 { network, index } => JunctionModel::AccountIndex64 {
                network: network@,
                index: *index,
            },
            Junction::PalletInstance(i) => JunctionModel::PalletInstance(*i),
            Junction::GeneralIndex(i) => JunctionModel::GeneralIndex(*i),
            Junction::GeneralKey(key) => JunctionModel::GeneralKey(key@),
            Junction::OnlyChild => JunctionModel::OnlyChild,
        }
    }
}

impl View for MultiLocation {
    type V = LocationModel;

    open spec fn view(&self) -> LocationModel {
        LocationModel {
            parents: self.parents,
            interior: self.interior@.map_values(|j: Junction| j@),
        }
    }
}

impl MultiLocation {
    /// A location has at most eight interior junctions.
    pub open spec fn wf(&self) -> bool {
        self.interior@.len() <= 8
    }

    /// The location `parents` steps up and then down `interior`.
    pub fn new(parents: u8, interior: Vec<Junction>) -> (l: MultiLocation)
        requires
            interior@.len() <= 8,
        ensures
            l.wf(),
            l.parents == parents,
            l.interior@ == interior@,
    {
        MultiLocation { parents, interior }
    }

    /// The parent consensus system, here the relay chain.
    pub fn parent() -> (l: MultiLocation)
        ensures
            l.wf(),
            l@ == parent_location(),
    {
        let l = MultiLocation { parents: 1, interior: Vec::new() };
        assert(l@ =~= parent_location());
        l
    }
}

/// The relay chain, seen from the parachain.
pub open spec fn parent_location() -> LocationModel {
    LocationModel { parents: 1, interior: Seq::empty() }
}

/// The general key under which the parachain issues xDOT: `b"xDOT"`.
pub open spec fn xdot_key() -> Seq<u8> {
    seq![0x78u8, 0x44u8, 0x4fu8, 0x54u8]
}

/// Where xDOT of parachain `para` lives, seen from a sibling or from `para`
/// itself.
pub open spec fn xdot_location(para: ParaId) -> LocationModel {
    LocationModel {
        parents: 1,
        interior: seq![JunctionModel::Parachain(para.0), JunctionModel::GeneralKey(xdot_key())],
    }
}

/// The location of currency `id` on parachain `para`, where it has one.
pub open spec fn currency_location(id: CurrencyId, para: ParaId) -> Option<LocationModel> {
    if id == DOT {
        Some(parent_location())
    } else if id == XDOT {
        Some(xdot_location(para))
    } else {
        None
    }
}

/// The currency of parachain `para` found at location `l`, where there is one.
pub open spec fn location_currency(l: LocationModel, para: ParaId) -> Option<CurrencyId> {
    if l == parent_location() {
        Some(DOT)
    } else if l == xdot_location(para) {
        Some(XDOT)
    } else {
        None
    }
}

/// The location of the account `id`, on any network, inside the current
/// consensus system.
pub open spec fn account_location(id: Seq<u8>) -> LocationModel {
    LocationModel {
        parents: 0,
        interior: seq![JunctionModel::AccountId32 { network: NetworkModel::Any, id }],
    }
}

/// Whether two byte strings are equal.
fn bytes_eq(a: &[u8], b: &[u8]) -> (r: bool)
    ensures
        r == (a@ == b@),
{
    if a.len() != b.len() {
        return false;
    }
    let n = a.len();
    let mut k: usize = 0;
    while k < n
        invariant
            n == a@.len(),
            n == b@.len(),
            k <= n,
            forall|j: int| 0 <= j < k ==> a@[j] == b@[j],
        decreases n - k,
    {
        if a[k] != b[k] {
            return false;
        }
        k = k + 1;
    }
    assert(a@ =~= b@);
    true
}

/// Conversion of `A` values into `B` values.
pub trait Convert<A, B> {
    fn convert(&self, a: A) -> B;
}

/// Converts between the parachain's relay currencies and their locations; it
/// knows the id of the parachain it runs on.
#[derive(Clone, Copy, Debug)]
pub struct CurrencyIdConvert {
    pub para_id: ParaId,
}

impl Convert<CurrencyId, Option<MultiLocation>> for CurrencyIdConvert {
    /// DOT lives on the relay chain and xDOT under the general key `b"xDOT"`
    /// of this parachain; no other currency has a location.
    fn convert(&self, id: CurrencyId) -> (r: Option<MultiLocation>)
        ensures
            match r {
                Some(l) => l.wf() && currency_location(id, self.para_id) == Some(l@),
                None => currency_location(id, self.para_id) is None,
            },
    {
        if id == DOT {
            Some(MultiLocation::parent())
        } else if id == XDOT {
            let mut interior: Vec<Junction> = Vec::new();
            interior.push(Junction::Parachain(self.para_id.0));
            interior.push(Junction::GeneralKey(vec![0x78u8, 0x44u8, 0x4fu8, 0x54u8]));
            let l = MultiLocation::new(1, interior);
            assert(l@ =~= xdot_location(self.para_id));
            Some(l)
        } else {
            None
        }
    }
}

impl Convert<MultiLocation, Option<CurrencyId>> for CurrencyIdConvert {
    /// The relay chain holds DOT and this parachain's `b"xDOT"` key holds
    /// xDOT; no other location holds a currency.
    fn convert(&self, location: MultiLocation) -> (r: Option<CurrencyId>)
        ensures
            r == location_currency(location@, self.para_id),
    {
        let ghost l = location@;
        if location.parents != 1 {
            return None;
        }
        let n = location.interior.len();
        if n == 0 {
            assert(l =~= parent_location());
            return Some(DOT);
        }
        if n != 2 {
            assert(l.interior.len() != parent_location().interior.len());
            assert(l.interior.len() != xdot_location(self.para_id).interior.len());
            return None;
        }
        assert(l != parent_location()) by {
            assert(l.interior.len() != parent_location().interior.len());
        }
        let on_this_chain = match &location.interior[0] {
            Junction::Parachain(id) => *id == self.para_id.0,
            _ => false,
        };
        if !on_this_chain {
            assert(l.interior[0] != xdot_location(self.para_id).interior[0]);
            return None;
        }
        let is_xdot_key = match &location.interior[1] {
            Junction::GeneralKey(key) => bytes_eq(
                key.as_slice(),
                [0x78u8, 0x44u8, 0x4fu8, 0x54u8].as_slice(),
            ),
            _ => false,
        };
        if !is_xdot_key {
            assert(l.interior[1] != xdot_location(self.para_id).interior[1]);
            return None;
        }
        assert(l =~= xdot_location(self.para_id));
        Some(XDOT)
    }
}

impl Convert<MultiAsset, Option<CurrencyId>> for CurrencyIdConvert {
    /// An asset identified by a location is the currency at that location;
    /// an abstractly identified asset is none of the parachain's currencies.
    fn convert(&self, a: MultiAsset) -> (r: Option<CurrencyId>)
        ensures
            r == match a.id {
                AssetId::Concrete(l) => location_currency(l@, self.para_id),
                AssetId::Abstract(_) => None,
            },
    {
        match a.id {
            AssetId::Concrete(l) => <Self as Convert<MultiLocation, Option<CurrencyId>>>::convert(
                self,
                l,
            ),
            AssetId::Abstract(_) => None,
        }
    }
}

/// Converts accounts of the parachain into locations.
#[derive(Clone, Copy, Debug)]
pub struct AccountIdToMultiLocation;

impl Convert<AccountId, MultiLocation> for AccountIdToMultiLocation {
    /// The account becomes the single junction of a location inside the
    /// current system, on any network.
    fn convert(&self, account_id: AccountId) -> (r: MultiLocation)
        ensures
            r.wf(),
            r@ == account_location(account_id@),
    {
        let mut interior: Vec<Junction> = Vec::new();
        interior.push(Junction::AccountId32 { network: NetworkId::Any, id: account_id });
        let r = MultiLocation::new(0, interior);
        assert(r@ =~= account_location(account_id@));
        r
    }
}

/// The network of the relay chain the test parachain attaches to.
pub fn relay_network() -> (n: NetworkId)
    ensures
        n@ == NetworkModel::Kusama,
{
    NetworkId::Kusama
}

/// The parachain `para` seen from its relay chain's other parachains.
pub fn self_location(para: ParaId) -> (l: MultiLocation)
    ensures
        l.wf(),
        l@ == (LocationModel { parents: 1, interior: seq![JunctionModel::Parachain(para.0)] }),
{
    let mut interior: Vec<Junction> = Vec::new();
    interior.push(Junction::Parachain(para.0));
    let l = MultiLocation::new(1, interior);
    assert(l@ =~= (LocationModel { parents: 1, interior: seq![JunctionModel::Parachain(para.0)] }));
    l
}

/// The parachain `para` seen from its relay chain.
pub fn ancestry(para: ParaId) -> (l: MultiLocation)
    ensures
        l.wf(),
        l@ == (LocationModel { parents: 0, interior: seq![JunctionModel::Parachain(para.0)] }),
{
    let mut interior: Vec<Junction> = Vec::new();
    interior.push(Junction::Parachain(para.0));
    let l = MultiLocation::new(0, interior);
    assert(l@ =~= (LocationModel { parents: 0, interior: seq![JunctionModel::Parachain(para.0)] }));
    l
}

/// The price of execution on the test chains: one unit of the relay
/// currency per second of weight.
pub fn dot_per_second() -> (p: (AssetId, u128))
    ensures
        p.1 == 1,
        match p.0 {
            AssetId::Concrete(l) => l@ == parent_location(),
            AssetId::Abstract(_) => false,
        },
{
    (AssetId::Concrete(MultiLocation::parent()), 1)
}

/// Converting a currency to its location and back gives the same currency.
pub proof fn lemma_currency_location_roundtrip(id: CurrencyId, para: ParaId)
    ensures
        currency_location(id, para) matches Some(l) ==> location_currency(l, para) == Some(id),
{
    if id == XDOT {
        assert(xdot_location(para) != parent_location()) by {
            assert(xdot_location(para).interior.len() != parent_location().interior.len());
        }
    }
}

/// Converting a location to its currency and back gives the same location.
pub proof fn lemma_location_currency_roundtrip(l: LocationModel, para: ParaId)
    ensures
        location_currency(l, para) matches Some(id) ==> currency_location(id, para) == Some(l),
{
}

/// Exactly DOT and xDOT have locations.
pub proof fn lemma_located_currencies(id: CurrencyId, para: ParaId)
    ensures
        currency_location(id, para) is Some <==> (id == DOT || id == XDOT),
{
}

/// The location of an account never holds a currency.
pub proof fn lemma_account_location_holds_no_currency(id: Seq<u8>, para: ParaId)
    ensures
        location_currency(account_location(id), para) is None,
{
}

/// xDOT issued by one parachain is not taken for xDOT by another.
pub proof fn lemma_xdot_is_chain_specific(issuer: ParaId, holder: ParaId)
    requires
        issuer != holder,
    ensures
        location_currency(xdot_location(issuer), holder) is None,
{
    assert(xdot_location(issuer) != parent_location()) by {
        assert(xdot_location(issuer).interior.len() != parent_location().interior.len());
    }
    assert(xdot_location(issuer) != xdot_location(holder)) by {
        assert(xdot_location(issuer).interior[0] != xdot_location(holder).interior[0]);
    }
}

/// The relay chain, one step up with no junctions, holds DOT on every
/// parachain, and DOT is found there whatever the parachain's id.
pub proof fn lemma_relay_chain_holds_dot(para: ParaId)
    ensures
        location_currency(LocationModel { parents: 1, interior: Seq::empty() }, para) == Some(DOT),
        currency_location(DOT, para) == Some(LocationModel { parents: 1, interior: Seq::empty() }),
{
}

/// xDOT lives one step up, under the parachain's own id and the general key
/// `b"xDOT"`, for every parachain id; and that location converts back to
/// xDOT.
pub proof fn lemma_xdot_under_own_parachain(para: ParaId)
    ensures
        currency_location(XDOT, para) == Some(
            LocationModel {
                parents: 1,
                interior: seq![
                    JunctionModel::Parachain(para.0),
                    JunctionModel::GeneralKey(seq![0x78u8, 0x44u8, 0x4fu8, 0x54u8]),
                ],
            },
        ),
        location_currency(
            LocationModel {
                parents: 1,
                interior: seq![
                    JunctionModel::Parachain(para.0),
                    JunctionModel::GeneralKey(seq![0x78u8, 0x44u8, 0x4fu8, 0x54u8]),
                ],
            },
            para,
        ) == Some(XDOT),
{
    let x = LocationModel {
        parents: 1,
        interior: seq![
            JunctionModel::Parachain(para.0),
            JunctionModel::GeneralKey(seq![0x78u8, 0x44u8, 0x4fu8, 0x54u8]),
        ],
    };
    assert(x =~= xdot_location(para));
    assert(x != parent_location()) by {
        assert(x.interior.len() != parent_location().interior.len());
    }
}

/// What a location holds, in terms of its shape alone: DOT exactly at one step
/// up with no junctions; xDOT exactly at one step up followed by this
/// parachain and the key `b"xDOT"`; nothing anywhere else.
pub proof fn lemma_location_currency_shape(l: LocationModel, para: ParaId)
    ensures
        location_currency(l, para) == Some(DOT) <==> (l.parents == 1 && l.interior.len() == 0),
        location_currency(l, para) == Some(XDOT) <==> (l.parents == 1 && l.interior.len() == 2
            && l.interior[0] == JunctionModel::Parachain(para.0) && l.interior[1]
            == JunctionModel::GeneralKey(seq![0x78u8, 0x44u8, 0x4fu8, 0x54u8])),
        location_currency(l, para) is Some ==> l.parents == 1,
        l.parents != 1 ==> location_currency(l, para) is None,
{
    if l.parents == 1 && l.interior.len() == 0 {
        assert(l =~= parent_location());
    }
    if l.parents == 1 && l.interior.len() == 2 && l.interior[0] == JunctionModel::Parachain(para.0)
        && l.interior[1] == JunctionModel::GeneralKey(seq![0x78u8, 0x44u8, 0x4fu8, 0x54u8]) {
        assert(l =~= xdot_location(para));
    }
    if l == xdot_location(para) {
        assert(l.interior.len() == 2);
    }
}

/// The parent is one step up with no junctions.
pub proof fn lemma_parent_location_shape()
    ensures
        parent_location().parents == 1,
        parent_location().interior.len() == 0,
{
}

/// Only DOT and xDOT have locations, and each lies one step up: the currency
/// side of the conversion never points inside the parachain itself.
pub proof fn lemma_currency_locations_are_one_step_up(id: CurrencyId, para: ParaId)
    ensures
        currency_location(id, para) matches Some(l) ==> l.parents == 1,
        (id != DOT && id != XDOT) ==> currency_location(id, para) is None,
{
}

/// An account's location is the account itself as the only junction, on any
/// network, with no step up.
pub proof fn lemma_account_location_shape(id: Seq<u8>)
    ensures
        account_location(id).parents == 0,
        account_location(id).interior.len() == 1,
        account_location(id).interior[0] == (JunctionModel::AccountId32 {
            network: NetworkModel::Any,
            id,
        }),
{
}

} // verus!
