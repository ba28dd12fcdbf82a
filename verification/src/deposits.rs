//! Deposits, fees and other amounts of the native currency.

use vstd::prelude::*;

verus! {

/// The units of the native currency, in its smallest unit.
#[derive(Clone, Copy, PartialEq, Eq, Structural, Debug)]
pub struct Currency {
    pub microcents: u128,
    pub cents: u128,
    pub dollars: u128,
    pub grand: u128,
    /// The balance that an account needs to exist.
    pub existential_deposit: u128,
}

/// The deposit for noting a preimage, whatever its size.
pub struct PreimageBaseDeposit;

impl PreimageBaseDeposit {
    /// What `deposit` asks for 2 storage items and 64 bytes.
    pub fn get<F: Fn(u32, u32) -> u128>(deposit: F) -> (amount: u128)
        requires
            deposit.requires((2u32, 64u32)),
        ensures
            deposit.ensures((2u32, 64u32), amount),
    {
        deposit(2, 64)
    }
}

/// The deposit for each byte of a preimage.
pub struct PreimageByteDeposit;

impl PreimageByteDeposit {
    /// What `deposit` asks for no storage items and 1 byte.
    pub fn get<F: Fn(u32, u32) -> u128>(deposit: F) -> (amount: u128)
        requires
            deposit.requires((0u32, 1u32)),
        ensures
            deposit.ensures((0u32, 1u32), amount),
    {
        deposit(0, 1)
    }
}

/// The deposit for having proxies at all.
pub struct ProxyDepositBase;

impl ProxyDepositBase {
    /// What `deposit` asks for 1 storage item and 40 bytes.
    pub fn get<F: Fn(u32, u32) -> u128>(deposit: F) -> (amount: u128)
        requires
            deposit.requires((1u32, 40u32)),
        ensures
            deposit.ensures((1u32, 40u32), amount),
    {
        deposit(1, 40)
    }
}

/// The deposit for each proxy.
pub struct ProxyDepositFactor;

impl ProxyDepositFactor {
    /// What `deposit` asks for no storage items and 33 bytes.
    pub fn get<F: Fn(u32, u32) -> u128>(deposit: F) -> (amount: u128)
        requires
            deposit.requires((0u32, 33u32)),
        ensures
            deposit.ensures((0u32, 33u32), amount),
    {
        deposit(0, 33)
    }
}

/// The deposit for having announcements at all.
pub struct AnnouncementDepositBase;

impl AnnouncementDepositBase {
    /// What `deposit` asks for 1 storage item and 48 bytes.
    pub fn get<F: Fn(u32, u32) -> u128>(deposit: F) -> (amount: u128)
        requires
            deposit.requires((1u32, 48u32)),
        ensures
            deposit.ensures((1u32, 48u32), amount),
    {
        deposit(1, 48)
    }
}

/// The deposit for each announcement.
pub struct AnnouncementDepositFactor;

impl AnnouncementDepositFactor {
    /// What `deposit` asks for no storage items and 66 bytes.
    pub fn get<F: Fn(u32, u32) -> u128>(deposit: F) -> (amount: u128)
        requires
            deposit.requires((0u32, 66u32)),
        ensures
            deposit.ensures((0u32, 66u32), amount),
    {
        deposit(0, 66)
    }
}

/// The deposit for an account that holds an asset.
pub struct AssetAccountDeposit;

impl AssetAccountDeposit {
    /// What `deposit` asks for 1 storage item and 16 bytes.
    pub fn get<F: Fn(u32, u32) -> u128>(deposit: F) -> (amount: u128)
        requires
            deposit.requires((1u32, 16u32)),
        ensures
            deposit.ensures((1u32, 16u32), amount),
    {
        deposit(1, 16)
    }
}

/// The deposit for having metadata at all.
pub struct MetadataDepositBase;

impl MetadataDepositBase {
    /// What `deposit` asks for 1 storage item and 68 bytes.
    pub fn get<F: Fn(u32, u32) -> u128>(deposit: F) -> (amount: u128)
        requires
            deposit.requires((1u32, 68u32)),
        ensures
            deposit.ensures((1u32, 68u32), amount),
    {
        deposit(1, 68)
    }
}

/// The deposit for each byte of metadata.
pub struct MetadataDepositPerByte;

impl MetadataDepositPerByte {
    /// What `deposit` asks for no storage items and 1 byte.
    pub fn get<F: Fn(u32, u32) -> u128>(deposit: F) -> (amount: u128)
        requires
            deposit.requires((0u32, 1u32)),
        ensures
            deposit.ensures((0u32, 1u32), amount),
    {
        deposit(0, 1)
    }
}

/// The deposit for a multisig call in progress: one storage item with a key of 32
/// bytes and a value of 4 + 4 + 16 + 32 = 56 bytes.
pub struct DepositBase;

impl DepositBase {
    /// What `deposit` asks for 1 storage item and 88 bytes.
    pub fn get<F: Fn(u32, u32) -> u128>(deposit: F) -> (amount: u128)
        requires
            deposit.requires((1u32, 88u32)),
        ensures
            deposit.ensures((1u32, 88u32), amount),
    {
        deposit(1, 88)
    }
}

/// The deposit for each approval of a multisig call: 32 more bytes.
pub struct DepositFactor;

impl DepositFactor {
    /// What `deposit` asks for no storage items and 32 bytes.
    pub fn get<F: Fn(u32, u32) -> u128>(deposit: F) -> (amount: u128)
        requires
            deposit.requires((0u32, 32u32)),
        ensures
            deposit.ensures((0u32, 32u32), amount),
    {
        deposit(0, 32)
    }
}

/// The balance that an account needs to exist.
pub struct ExistentialDeposit;

impl ExistentialDeposit {
    /// The balance.
    pub open spec fn amount(currency: Currency) -> nat {
        currency.existential_deposit as nat
    }

    /// The balance.
    pub fn get(currency: &Currency) -> (balance: u128)
        ensures
            balance == Self::amount(*currency),
            balance == currency.existential_deposit,
    {
        currency.existential_deposit
    }
}

/// The deposit for creating an asset.
pub struct AssetDeposit;

impl AssetDeposit {
    /// The deposit.
    pub open spec fn amount(currency: Currency) -> nat {
        10 * currency.cents as nat
    }

    /// The deposit.
    pub fn get(currency: &Currency) -> (deposit: u128)
        requires
            10 * currency.cents <= u128::MAX,
        ensures
            deposit == Self::amount(*currency),
            deposit == 10 * currency.cents,
    {
        10 * currency.cents
    }
}

/// The deposit for approving a transfer of an asset.
pub struct ApprovalDeposit;

impl ApprovalDeposit {
    /// The deposit.
    pub open spec fn amount(currency: Currency) -> nat {
        currency.existential_deposit as nat
    }

    /// The deposit.
    pub fn get(currency: &Currency) -> (deposit: u128)
        ensures
            deposit == Self::amount(*currency),
            deposit == currency.existential_deposit,
    {
        currency.existential_deposit
    }
}

/// The fee for each byte of a transaction, a tenth of what the relay chain asks.
pub struct TransactionByteFee;

impl TransactionByteFee {
    /// The fee.
    pub open spec fn amount(currency: Currency) -> nat {
        10 * currency.microcents as nat
    }

    /// The fee.
    pub fn get(currency: &Currency) -> (fee: u128)
        requires
            10 * currency.microcents <= u128::MAX,
        ensures
            fee == Self::amount(*currency),
            fee == 10 * currency.microcents,
    {
        10 * currency.microcents
    }
}

/// What the bond for a treasury proposal is raised to before it is capped.
pub struct ProposalBondMinimum;

impl ProposalBondMinimum {
    /// The bond.
    pub open spec fn amount(currency: Currency) -> nat {
        2 * currency.grand as nat
    }

    /// The bond.
    pub fn get(currency: &Currency) -> (bond: u128)
        requires
            2 * currency.grand <= u128::MAX,
        ensures
            bond == Self::amount(*currency),
            bond == 2 * currency.grand,
    {
        2 * currency.grand
    }
}

/// What the bond for a treasury proposal is capped at.
pub struct ProposalBondMaximum;

impl ProposalBondMaximum {
    /// The bond.
    pub open spec fn amount(currency: Currency) -> nat {
        currency.grand as nat
    }

    /// The bond.
    pub fn get(currency: &Currency) -> (bond: u128)
        ensures
            bond == Self::amount(*currency),
            bond == currency.grand,
    {
        currency.grand
    }
}

/// The deposit for creating an NFT collection.
pub struct CollectionDeposit;

impl CollectionDeposit {
    /// The deposit.
    pub open spec fn amount(currency: Currency) -> nat {
        currency.dollars as nat
    }

    /// The deposit.
    pub fn get(currency: &Currency) -> (deposit: u128)
        ensures
            deposit == Self::amount(*currency),
            deposit == currency.dollars,
    {
        currency.dollars
    }
}

/// The deposit for creating an NFT.
pub struct ItemDeposit;

impl ItemDeposit {
    /// The deposit.
    pub open spec fn amount(currency: Currency) -> nat {
        currency.dollars as nat
    }

    /// The deposit.
    pub fn get(currency: &Currency) -> (deposit: u128)
        ensures
            deposit == Self::amount(*currency),
            deposit == currency.dollars,
    {
        currency.dollars
    }
}

/// The deposit for dividing an NFT into fractions.
pub struct Deposit;

impl Deposit {
    /// The deposit.
    pub open spec fn amount(currency: Currency) -> nat {
        currency.dollars as nat
    }

    /// The deposit.
    pub fn get(currency: &Currency) -> (deposit: u128)
        ensures
            deposit == Self::amount(*currency),
            deposit == currency.dollars,
    {
        currency.dollars
    }
}

/// The deposit of a letting agent.
pub struct MinimumStakingAmount;

impl MinimumStakingAmount {
    /// The deposit.
    pub open spec fn amount(currency: Currency) -> nat {
        100 * currency.dollars as nat
    }

    /// The deposit.
    pub fn get(currency: &Currency) -> (deposit: u128)
        requires
            100 * currency.dollars <= u128::MAX,
        ensures
            deposit == Self::amount(*currency),
            deposit == 100 * currency.dollars,
    {
        100 * currency.dollars
    }
}

/// The reserve that is kept for a property.
pub struct PropertyReserves;

impl PropertyReserves {
    /// The reserve.
    pub open spec fn amount(currency: Currency) -> nat {
        1000 * currency.dollars as nat
    }

    /// The reserve.
    pub fn get(currency: &Currency) -> (reserve: u128)
        requires
            1000 * currency.dollars <= u128::MAX,
        ensures
            reserve == Self::amount(*currency),
            reserve == 1000 * currency.dollars,
    {
        1000 * currency.dollars
    }
}

/// The factor between amounts as users enter them and balances.
pub struct PolkadotJsMultiply;

impl PolkadotJsMultiply {
    /// The factor.
    pub open spec fn amount(currency: Currency) -> nat {
        currency.cents as nat
    }

    /// The factor.
    pub fn get(currency: &Currency) -> (factor: u128)
        ensures
            factor == Self::amount(*currency),
            factor == currency.cents,
    {
        currency.cents
    }
}

/// The least that is slashed.
pub struct MinimumSlashingAmount;

impl MinimumSlashingAmount {
    /// The amount.
    pub open spec fn amount(currency: Currency) -> nat {
        10 * currency.dollars as nat
    }

    /// The amount.
    pub fn get(currency: &Currency) -> (amount: u128)
        requires
            10 * currency.dollars <= u128::MAX,
        ensures
            amount == Self::amount(*currency),
            amount == 10 * currency.dollars,
    {
        10 * currency.dollars
    }
}

/// The amount below which a proposal of property governance counts as low.
pub struct LowProposal;

impl LowProposal {
    /// The amount.
    pub open spec fn amount(currency: Currency) -> nat {
        500 * currency.cents as nat
    }

    /// The amount.
    pub fn get(currency: &Currency) -> (amount: u128)
        requires
            Self::amount(*currency) <= u128::MAX,
        ensures
            amount == Self::amount(*currency),
            amount == 500 * currency.cents,
    {
        500 * currency.cents
    }
}

/// The amount above which a proposal of property governance counts as high.
pub struct HighProposal;

impl HighProposal {
    /// The amount.
    pub open spec fn amount(currency: Currency) -> nat {
        10_000 * currency.cents as nat
    }

    /// The amount.
    pub fn get(currency: &Currency) -> (amount: u128)
        requires
            Self::amount(*currency) <= u128::MAX,
        ensures
            amount == Self::amount(*currency),
            amount == 10_000 * currency.cents,
    {
        10_000 * currency.cents
    }
}

/// A high amount is above a low one, whatever a cent is worth.
pub proof fn law_high_proposals_are_above_low_ones(currency: Currency)
    requires
        currency.cents > 0,
    ensures
        LowProposal::amount(currency) < HighProposal::amount(currency),
{
}

/// The base fee for delivering a message to a sibling chain.
pub struct ToSiblingBaseDeliveryFee;

impl ToSiblingBaseDeliveryFee {
    /// The fee.
    pub open spec fn amount(currency: Currency) -> nat {
        if 3 * currency.cents <= u128::MAX {
            3 * currency.cents as nat
        } else {
            u128::MAX as nat
        }
    }

    /// Three cents, or the largest amount where that is more than can be expressed.
    pub fn get(currency: &Currency) -> (fee: u128)
        ensures
            fee == Self::amount(*currency),
            3 * currency.cents <= u128::MAX ==> fee == 3 * currency.cents,
            3 * currency.cents > u128::MAX ==> fee == u128::MAX,
    {
        match currency.cents.checked_mul(3) {
            Some(fee) => fee,
            None => u128::MAX,
        }
    }
}

/// Amounts in cents: users count in single ones, ten are the deposit for an asset,
/// fifty of these deposits are a low proposal, and twenty low proposals a high one.
/// The fee for a delivery is three cents wherever that can be expressed, and never
/// more.
pub proof fn law_amounts_in_cents(currency: Currency)
    ensures
        PolkadotJsMultiply::amount(currency) == currency.cents,
        AssetDeposit::amount(currency) == 10 * PolkadotJsMultiply::amount(currency),
        LowProposal::amount(currency) == 50 * AssetDeposit::amount(currency),
        HighProposal::amount(currency) == 20 * LowProposal::amount(currency),
        ToSiblingBaseDeliveryFee::amount(currency) <= 3 * currency.cents,
        ToSiblingBaseDeliveryFee::amount(currency) <= u128::MAX,
        ToSiblingBaseDeliveryFee::amount(currency) == 3 * currency.cents
            || ToSiblingBaseDeliveryFee::amount(currency) == u128::MAX,
{
}

/// Amounts in dollars: an NFT, its collection and its division take one each as a
/// deposit, ten are the least that is slashed, a letting agent stakes ten times
/// that, and the reserve of a property is ten times the stake.
pub proof fn law_amounts_in_dollars(currency: Currency)
    ensures
        CollectionDeposit::amount(currency) == currency.dollars,
        ItemDeposit::amount(currency) == currency.dollars,
        Deposit::amount(currency) == currency.dollars,
        MinimumSlashingAmount::amount(currency) == 10 * ItemDeposit::amount(currency),
        MinimumStakingAmount::amount(currency) == 10 * MinimumSlashingAmount::amount(currency),
        PropertyReserves::amount(currency) == 10 * MinimumStakingAmount::amount(currency),
{
}

/// The bond for a treasury proposal is raised to twice what it is capped at, which
/// is one grand.
pub proof fn law_bond_minimum_is_twice_the_maximum(currency: Currency)
    ensures
        ProposalBondMaximum::amount(currency) == currency.grand,
        ProposalBondMinimum::amount(currency) == 2 * ProposalBondMaximum::amount(currency),
{
}

/// An approval takes what an account needs to exist, and ten bytes of a transaction
/// cost a hundred microcents.
pub proof fn law_small_amounts(currency: Currency)
    ensures
        ExistentialDeposit::amount(currency) == currency.existential_deposit,
        ApprovalDeposit::amount(currency) == ExistentialDeposit::amount(currency),
        10 * TransactionByteFee::amount(currency) == 100 * currency.microcents,
{
}

/// The least that can be transferred with a vesting schedule.
pub struct MinVestedTransfer;

impl MinVestedTransfer {
    /// The amount.
    pub fn get() -> (amount: u64)
        ensures
            amount == 512,
    {
        256 * 2
    }
}

} // verus!
