//! Accounts of the test chains and the accounts derived from pallet and
//! parachain identifiers.

use vstd::prelude::*;

verus! {

/// A 32-byte account identifier.
pub type AccountId = [u8; 32];

/// Identifier of a parachain.
#[derive(Clone, Copy, Debug, PartialEq, Eq, Structural)]
pub struct ParaId(pub u32);

/// Identifier of a pallet, from which its own account is derived.
#[derive(Clone, Copy, Debug)]
pub struct PalletId(pub [u8; 8]);

/// `bytes` decoded as an account: its first 32 bytes, followed by zeros where
/// it is shorter.
pub open spec fn zero_padded(bytes: Seq<u8>) -> Seq<u8> {
    Seq::new(32, |i: int| if i < bytes.len() { bytes[i] } else { 0u8 })
}

/// Little-endian encoding of a `u32`.
pub open spec fn u32_le_bytes(x: u32) -> Seq<u8> {
    seq![
        (x % 256) as u8,
        ((x / 256) % 256) as u8,
        ((x / 65536) % 256) as u8,
        (x / 16777216) as u8,
    ]
}

/// Type tag of accounts derived from a parachain id: `b"para"`.
pub open spec fn para_type_id() -> Seq<u8> {
    seq![0x70u8, 0x61u8, 0x72u8, 0x61u8]
}

/// Type tag of accounts derived from a pallet id: `b"modl"`.
pub open spec fn pallet_type_id() -> Seq<u8> {
    seq![0x6du8, 0x6fu8, 0x64u8, 0x6cu8]
}

/// The sovereign account of parachain `id` on its relay chain.
pub open spec fn para_account(id: ParaId) -> Seq<u8> {
    zero_padded(para_type_id() + u32_le_bytes(id.0))
}

/// The account that pallet `id` holds funds in.
pub open spec fn pallet_account(id: PalletId) -> Seq<u8> {
    zero_padded(pallet_type_id() + id.0@)
}

/// The account whose bytes are `type_id` followed by `payload`, zero padded.
fn account_from_parts(type_id: [u8; 4], payload: &[u8]) -> (a: AccountId)
    requires
        payload@.len() <= 28,
    ensures
        a@ == zero_padded(type_id@ + payload@),
{
    let mut a = [0u8; 32];
    a[0] = type_id[0];
    a[1] = type_id[1];
    a[2] = type_id[2];
    a[3] = type_id[3];
    let n = payload.len();
    let mut k: usize = 0;
    while k < n
        invariant
            n == payload@.len(),
            n <= 28,
            k <= n,
            forall|j: int| 0 <= j < 4 ==> a@[j] == type_id@[j],
            forall|j: int| 0 <= j < k ==> a@[4 + j] == payload@[j],
            forall|j: int| 4 + k <= j < 32 ==> a@[j] == 0u8,
        decreases n - k,
    {
        a[4 + k] = payload[k];
        k = k + 1;
    }
    assert(a@ =~= zero_padded(type_id@ + payload@));
    a
}

impl ParaId {
    /// The sovereign account of this parachain: `b"para"` followed by the
    /// little-endian id, zero padded.
    pub fn into_account(&self) -> (a: AccountId)
        ensures
            a@ == para_account(*self),
    {
        let x = self.0;
        let le: [u8; 4] = [
            (x % 256) as u8,
            ((x / 256) % 256) as u8,
            ((x / 65536) % 256) as u8,
            (x / 16777216) as u8,
        ];
        assert(le@ =~= u32_le_bytes(x));
        account_from_parts([0x70u8, 0x61u8, 0x72u8, 0x61u8], le.as_slice())
    }
}

impl PalletId {
    /// The account of this pallet: `b"modl"` followed by the id, zero padded.
    pub fn into_account(&self) -> (a: AccountId)
        ensures
            a@ == pallet_account(*self),
    {
        account_from_parts([0x6du8, 0x6fu8, 0x64u8, 0x6cu8], self.0.as_slice())
    }
}

/// Byte layout of a parachain's sovereign account: `b"para"`, the id's four
/// bytes least significant first, then zeros up to 32 bytes.
pub proof fn lemma_para_account_bytes(id: ParaId)
    ensures
        para_account(id).len() == 32,
        para_account(id)[0] == 0x70u8 && para_account(id)[1] == 0x61u8 && para_account(id)[2]
            == 0x72u8 && para_account(id)[3] == 0x61u8,
        para_account(id)[4] == id.0 % 256,
        para_account(id)[5] == (id.0 / 256) % 256,
        para_account(id)[6] == (id.0 / 65536) % 256,
        para_account(id)[7] == id.0 / 16777216,
        id.0 == para_account(id)[4] + 256 * para_account(id)[5] + 65536 * para_account(id)[6]
            + 16777216 * para_account(id)[7],
        forall|k: int| 8 <= k < 32 ==> para_account(id)[k] == 0u8,
{
    let x = id.0;
    assert(x == (x % 256) + 256 * ((x / 256) % 256) + 65536 * ((x / 65536) % 256) + 16777216 * (
    x / 16777216));
}

/// Byte layout of a pallet's account: `b"modl"`, the eight id bytes, then
/// zeros up to 32 bytes.
pub proof fn lemma_pallet_account_bytes(id: PalletId)
    ensures
        pallet_account(id).len() == 32,
        pallet_account(id)[0] == 0x6du8 && pallet_account(id)[1] == 0x6fu8 && pallet_account(id)[2]
            == 0x64u8 && pallet_account(id)[3] == 0x6cu8,
        forall|k: int| 0 <= k < 8 ==> pallet_account(id)[4 + k] == id.0@[k],
        forall|k: int| 12 <= k < 32 ==> pallet_account(id)[k] == 0u8,
{
    assert(id.0@.len() == 8);
    assert forall|k: int| 0 <= k < 8 implies pallet_account(id)[4 + k] == id.0@[k] by {
        assert((pallet_type_id() + id.0@)[4 + k] == id.0@[k]);
    }
}

/// Distinct parachains have distinct sovereign accounts.
pub proof fn lemma_para_account_injective(a: ParaId, b: ParaId)
    requires
        para_account(a) == para_account(b),
    ensures
        a == b,
{
    let sa = para_account(a);
    let sb = para_account(b);
    assert(sa[4] == sb[4] && sa[5] == sb[5] && sa[6] == sb[6] && sa[7] == sb[7]);
    let x = a.0;
    let y = b.0;
    assert(x == (x % 256) + 256 * ((x / 256) % 256) + 65536 * ((x / 65536) % 256) + 16777216 * (
    x / 16777216));
    assert(y == (y % 256) + 256 * ((y / 256) % 256) + 65536 * ((y / 65536) % 256) + 16777216 * (
    y / 16777216));
}

/// Distinct pallets have distinct accounts.
pub proof fn lemma_pallet_account_injective(a: PalletId, b: PalletId)
    requires
        pallet_account(a) == pallet_account(b),
    ensures
        a.0@ == b.0@,
{
    assert(a.0@.len() == 8 && b.0@.len() == 8);
    assert forall|j: int| 0 <= j < 8 implies a.0@[j] == b.0@[j] by {
        assert((pallet_type_id() + a.0@)[4 + j] == a.0@[j]);
        assert((pallet_type_id() + b.0@)[4 + j] == b.0@[j]);
        assert((pallet_type_id() + a.0@).len() == 12);
        assert(pallet_account(a)[4 + j] == (pallet_type_id() + a.0@)[4 + j]);
        assert(pallet_account(b)[4 + j] == (pallet_type_id() + b.0@)[4 + j]);
    }
    assert(a.0@ =~= b.0@);
}

/// A pallet account never coincides with a parachain's sovereign account.
pub proof fn lemma_pallet_and_para_accounts_differ(p: PalletId, q: ParaId)
    ensures
        pallet_account(p) != para_account(q),
{
    assert(pallet_account(p)[0] != para_account(q)[0]);
}

/// Alice's account: 32 bytes of 1.
pub open spec fn alice_bytes() -> Seq<u8> {
    Seq::new(32, |i: int| 1u8)
}

/// Bob's account: 32 bytes of 2.
pub open spec fn bob_bytes() -> Seq<u8> {
    Seq::new(32, |i: int| 2u8)
}

/// Alice's and Bob's accounts are 32 bytes of 1 and of 2.
pub proof fn lemma_test_accounts_bytes()
    ensures
        alice_bytes().len() == 32,
        bob_bytes().len() == 32,
        forall|k: int| 0 <= k < 32 ==> alice_bytes()[k] == 1u8 && bob_bytes()[k] == 2u8,
{
}

/// Alice, the privileged account of the test chains.
pub fn alice() -> (a: AccountId)
    ensures
        a@ == alice_bytes(),
{
    let a = [1u8; 32];
    assert(a@ =~= alice_bytes());
    a
}

/// Bob, the second account of the test chains.
pub fn bob() -> (a: AccountId)
    ensures
        a@ == bob_bytes(),
{
    let a = [2u8; 32];
    assert(a@ =~= bob_bytes());
    a
}

} // verus!
