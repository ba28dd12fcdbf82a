//! The names and accounts that the chain and its pallets go by.

use crate::bounds::STRING_LIMIT;
use frame_support::traits::ConstU32;
use frame_support::BoundedVec;
use sp_runtime::traits::AccountIdConversion;
use sp_runtime::AccountId32;
use vstd::prelude::*;

verus! {

/// The prefix of addresses of the chain, the generic one of Substrate chains.
pub struct SS58Prefix;

impl SS58Prefix {
    /// The prefix.
    pub fn get() -> (prefix: u16)
        ensures
            prefix == 42,
    {
        42
    }
}

/// The index of the treasury among the pallets, which is its location within the
/// chain.
pub struct TreasuryInteriorLocation;

impl TreasuryInteriorLocation {
    /// The index.
    pub fn get() -> (index: u8)
        ensures
            index == 13,
    {
        13
    }
}

/// How many levels up the payees of benchmarked treasury spends are.
pub struct LocationParents;

impl LocationParents {
    /// The number of levels.
    pub fn get() -> (parents: u8)
        ensures
            parents == 1,
    {
        1
    }
}

/// The chain that benchmarked treasury spends go to.
pub struct BenchmarkParaId;

impl BenchmarkParaId {
    /// The identity of the chain.
    pub fn get() -> (id: u8)
        ensures
            id == 0,
    {
        0
    }
}

/// The bytes of a text in ASCII.
pub open spec fn ascii(text: Seq<char>) -> Seq<u8> {
    text.map_values(|c: char| c as u8)
}

/// What the account of a pallet derives from.
#[derive(Clone, Copy, Debug)]
pub struct PalletId {
    pub bytes: [u8; 8],
}

impl View for PalletId {
    type V = Seq<u8>;

    open spec fn view(&self) -> Seq<u8> {
        self.bytes@
    }
}

/// The identity of the collators' rewards: `PotStake`.
pub struct PotId;

impl PotId {
    /// The eight bytes.
    pub open spec fn bytes() -> Seq<u8> {
        ascii("PotStake"@)
    }

    /// The identity.
    pub fn get() -> (id: PalletId)
        ensures
            id@ == Self::bytes(),
    {
        proof {
            reveal_strlit("PotStake");
        }
        PalletId { bytes: [80, 111, 116, 83, 116, 97, 107, 101] }
    }
}

/// The identity of the treasury: `py/trsry`.
pub struct TreasuryPalletId;

impl TreasuryPalletId {
    /// The eight bytes.
    pub open spec fn bytes() -> Seq<u8> {
        ascii("py/trsry"@)
    }

    /// The identity.
    pub fn get() -> (id: PalletId)
        ensures
            id@ == Self::bytes(),
    {
        proof {
            reveal_strlit("py/trsry");
        }
        PalletId { bytes: [112, 121, 47, 116, 114, 115, 114, 121] }
    }
}

/// The identity of NFT fractionalization: `fraction`.
pub struct NftFractionalizationPalletId;

impl NftFractionalizationPalletId {
    /// The eight bytes.
    pub open spec fn bytes() -> Seq<u8> {
        ascii("fraction"@)
    }

    /// The identity.
    pub fn get() -> (id: PalletId)
        ensures
            id@ == Self::bytes(),
    {
        proof {
            reveal_strlit("fraction");
        }
        PalletId { bytes: [102, 114, 97, 99, 116, 105, 111, 110] }
    }
}

/// The identity of community projects: `py/cmprj`.
pub struct CommunityProjectPalletId;

impl CommunityProjectPalletId {
    /// The eight bytes.
    pub open spec fn bytes() -> Seq<u8> {
        ascii("py/cmprj"@)
    }

    /// The identity.
    pub fn get() -> (id: PalletId)
        ensures
            id@ == Self::bytes(),
    {
        proof {
            reveal_strlit("py/cmprj");
        }
        PalletId { bytes: [112, 121, 47, 99, 109, 112, 114, 106] }
    }
}

/// The identity of the property marketplace: `py/nftxc`.
pub struct NftMarketplacePalletId;

impl NftMarketplacePalletId {
    /// The eight bytes.
    pub open spec fn bytes() -> Seq<u8> {
        ascii("py/nftxc"@)
    }

    /// The identity.
    pub fn get() -> (id: PalletId)
        ensures
            id@ == Self::bytes(),
    {
        proof {
            reveal_strlit("py/nftxc");
        }
        PalletId { bytes: [112, 121, 47, 110, 102, 116, 120, 99] }
    }
}

/// The identity of property management: `py/ppmmt`.
pub struct PropertyManagementPalletId;

impl PropertyManagementPalletId {
    /// The eight bytes.
    pub open spec fn bytes() -> Seq<u8> {
        ascii("py/ppmmt"@)
    }

    /// The identity.
    pub fn get() -> (id: PalletId)
        ensures
            id@ == Self::bytes(),
    {
        proof {
            reveal_strlit("py/ppmmt");
        }
        PalletId { bytes: [112, 121, 47, 112, 112, 109, 109, 116] }
    }
}

/// The identity of property governance: `py/gvrnc`.
pub struct PropertyGovernancePalletId;

impl PropertyGovernancePalletId {
    /// The eight bytes.
    pub open spec fn bytes() -> Seq<u8> {
        ascii("py/gvrnc"@)
    }

    /// The identity.
    pub fn get() -> (id: PalletId)
        ensures
            id@ == Self::bytes(),
    {
        proof {
            reveal_strlit("py/gvrnc");
        }
        PalletId { bytes: [112, 121, 47, 103, 118, 114, 110, 99] }
    }
}

/// The identity of the game: `py/rlxdl`.
pub struct GamePalletId;

impl GamePalletId {
    /// The eight bytes.
    pub open spec fn bytes() -> Seq<u8> {
        ascii("py/rlxdl"@)
    }

    /// The identity.
    pub fn get() -> (id: PalletId)
        ensures
            id@ == Self::bytes(),
    {
        proof {
            reveal_strlit("py/rlxdl");
        }
        PalletId { bytes: [112, 121, 47, 114, 108, 120, 100, 108] }
    }
}

/// All identities of pallets.
pub open spec fn pallet_ids() -> Seq<Seq<u8>> {
    seq![
        PotId::bytes(),
        TreasuryPalletId::bytes(),
        NftFractionalizationPalletId::bytes(),
        CommunityProjectPalletId::bytes(),
        NftMarketplacePalletId::bytes(),
        PropertyManagementPalletId::bytes(),
        PropertyGovernancePalletId::bytes(),
        GamePalletId::bytes(),
    ]
}

/// The account of a pallet: `modl`, its identity, and zeros.
pub open spec fn account_of(id: Seq<u8>) -> Seq<u8> {
    ascii("modl"@) + id + Seq::new(20, |i: int| 0u8)
}

/// `sp_runtime::traits::AccountIdConversion::into_account_truncating` of a
/// `frame_support::PalletId`, into 32 bytes: the type identifier `modl`, the
/// identity of the pallet, and zeros for the rest.
#[verifier::external_body]
pub(crate) fn pallet_account(id: PalletId) -> (account: [u8; 32])
    ensures
        account@ == account_of(id@),
{
    let account: AccountId32 = frame_support::PalletId(id.bytes).into_account_truncating();
    account.into()
}

/// The account of the treasury.
pub struct TreasuryAccount;

impl TreasuryAccount {
    /// The account.
    pub fn get() -> (account: [u8; 32])
        ensures
            account@ == account_of(TreasuryPalletId::bytes()),
    {
        pallet_account(TreasuryPalletId::get())
    }
}

/// No two pallets have the same identity.
pub proof fn law_pallet_ids_are_distinct(i: int, j: int)
    requires
        0 <= i < j < pallet_ids().len(),
    ensures
        pallet_ids()[i] != pallet_ids()[j],
{
    reveal_strlit("PotStake");
    reveal_strlit("py/trsry");
    reveal_strlit("fraction");
    reveal_strlit("py/cmprj");
    reveal_strlit("py/nftxc");
    reveal_strlit("py/ppmmt");
    reveal_strlit("py/gvrnc");
    reveal_strlit("py/rlxdl");
    // The last two bytes tell all of them apart.
    let a = pallet_ids()[i];
    let b = pallet_ids()[j];
    assert(a.len() == 8 && b.len() == 8);
    assert(a[6] != b[6] || a[7] != b[7]);
}

/// Pallets with different identities have different accounts.
pub proof fn law_pallet_accounts_are_distinct(a: Seq<u8>, b: Seq<u8>)
    requires
        a.len() == 8,
        b.len() == 8,
        a != b,
    ensures
        account_of(a) != account_of(b),
{
    reveal_strlit("modl");
    if account_of(a) == account_of(b) {
        assert(account_of(a).subrange(4, 12) =~= a);
        assert(account_of(b).subrange(4, 12) =~= b);
    }
}

/// The account of a pallet is 32 bytes long: `modl`, which is 109, 111, 100 and 108,
/// then the identity of the pallet as it is, then nothing but zeros.
pub proof fn law_pallet_accounts_hold_the_identity(id: Seq<u8>, i: int)
    requires
        id.len() == 8,
        0 <= i < 32,
    ensures
        account_of(id).len() == 32,
        account_of(id)[0] == 109,
        account_of(id)[1] == 111,
        account_of(id)[2] == 100,
        account_of(id)[3] == 108,
        4 <= i < 12 ==> account_of(id)[i] == id[i - 4],
        12 <= i ==> account_of(id)[i] == 0,
{
    reveal_strlit("modl");
}

/// `frame_support::BoundedVec::try_from`: the bytes, if there are at most `LIMIT`.
#[verifier::external_body]
pub(crate) fn bounded<const LIMIT: u32>(bytes: Vec<u8>) -> (kept: Option<Vec<u8>>)
    ensures
        kept is Some <==> bytes@.len() <= LIMIT,
        kept is Some ==> kept->0@ == bytes@,
{
    let kept: Option<BoundedVec<u8, ConstU32<LIMIT>>> = bytes.try_into().ok();
    kept.map(|kept| kept.into_inner())
}

/// The symbol of the asset that the fractions of an NFT are.
pub struct NewAssetSymbol;

impl NewAssetSymbol {
    /// `BRIX`.
    pub fn get() -> (symbol: Vec<u8>)
        ensures
            symbol@ == ascii("BRIX"@),
            symbol@.len() <= STRING_LIMIT,
    {
        proof {
            reveal_strlit("BRIX");
        }
        bounded::<STRING_LIMIT>(vec![66, 82, 73, 88]).unwrap()
    }
}

/// The name of the asset that the fractions of an NFT are.
pub struct NewAssetName;

impl NewAssetName {
    /// `Brix`.
    pub fn get() -> (name: Vec<u8>)
        ensures
            name@ == ascii("Brix"@),
            name@.len() <= STRING_LIMIT,
    {
        proof {
            reveal_strlit("Brix");
        }
        bounded::<STRING_LIMIT>(vec![66, 114, 105, 120]).unwrap()
    }
}

} // verus!
