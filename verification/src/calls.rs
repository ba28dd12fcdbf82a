//! The calls that the filters tell apart.

use vstd::prelude::*;

verus! {

/// The calls of the proxy pallet, without their arguments.
#[derive(Clone, Copy, PartialEq, Eq, Structural, Debug)]
pub enum ProxyCall {
    /// Dispatches a call on behalf of another account.
    Proxy,
    /// Registers a proxy account for the sender.
    AddProxy,
    /// Unregisters one proxy account of the sender.
    RemoveProxy,
    /// Unregisters all proxy accounts of the sender.
    RemoveProxies,
    /// Spawns a fresh account that only its creator has a proxy for.
    CreatePure,
    /// Removes an account that was spawned so.
    KillPure,
    /// Publishes the hash of a call that is to be proxied later.
    Announce,
    /// Takes an own announcement back.
    RemoveAnnouncement,
    /// Turns the announcement of a delegate down.
    RejectAnnouncement,
    /// Dispatches a call that was announced.
    ProxyAnnounced,
}

/// The calls of the balances pallet, without their arguments.
#[derive(Clone, Copy, PartialEq, Eq, Structural, Debug)]
pub enum BalancesCall {
    /// Transfers balance, even if that closes the sender's account.
    TransferAllowDeath,
    /// Transfers balance out of an account that is not the sender's.
    ForceTransfer,
    /// Transfers balance, unless that closes the sender's account.
    TransferKeepAlive,
    /// Transfers all balance that can be.
    TransferAll,
    /// Frees reserved balance of an account.
    ForceUnreserve,
    /// Brings the records of accounts up to the current layout.
    UpgradeAccounts,
    /// Sets the balance of an account.
    ForceSetBalance,
    /// Adjusts the recorded total of all balances.
    ForceAdjustTotalIssuance,
}

/// The calls of the assets pallet, without their arguments.
#[derive(Clone, Copy, PartialEq, Eq, Structural, Debug)]
pub enum AssetsCall {
    /// Creates an asset.
    Create,
    /// Creates an asset without a deposit.
    ForceCreate,
    /// Starts the removal of an asset.
    StartDestroy,
    /// Removes accounts of an asset that is being removed.
    DestroyAccounts,
    /// Removes approvals of an asset that is being removed.
    DestroyApprovals,
    /// Finishes the removal of an asset.
    FinishDestroy,
    /// Issues units of an asset.
    Mint,
    /// Takes units of an asset out of existence.
    Burn,
    /// Transfers units, even if that closes the sender's account.
    Transfer,
    /// Transfers units, unless that closes the sender's account.
    TransferKeepAlive,
    /// Transfers units between two accounts at the word of the asset's admin.
    ForceTransfer,
    /// Stops one account from sending an asset.
    Freeze,
    /// Lets one account send an asset again.
    Thaw,
    /// Stops all accounts from sending an asset.
    FreezeAsset,
    /// Lets all accounts send an asset again.
    ThawAsset,
    /// Makes another account the owner of an asset class.
    TransferOwnership,
    /// Sets the issuer, admin and freezer of an asset.
    SetTeam,
    /// Sets the name, symbol and decimals of an asset.
    SetMetadata,
    /// Clears the name, symbol and decimals of an asset.
    ClearMetadata,
    /// Sets metadata without a deposit.
    ForceSetMetadata,
    /// Clears metadata that is not the sender's.
    ForceClearMetadata,
    /// Overrides the attributes of an asset.
    ForceAssetStatus,
    /// Lets a delegate transfer some units later.
    ApproveTransfer,
    /// Takes such an approval back.
    CancelApproval,
    /// Takes such an approval of another account back.
    ForceCancelApproval,
    /// Transfers units that a delegate was approved for.
    TransferApproved,
    /// Opens an account for an asset.
    Touch,
    /// Closes an account for an asset and returns its deposit.
    Refund,
    /// Sets the least balance of an asset.
    SetMinBalance,
    /// Opens an account for an asset on behalf of someone else.
    TouchOther,
    /// Returns the deposit for an account of someone else.
    RefundOther,
    /// Stops an account from sending and receiving an asset.
    Block,
}

/// The calls of the NFTs pallet, without their arguments.
#[derive(Clone, Copy, PartialEq, Eq, Structural, Debug)]
pub enum NftsCall {
    /// Creates a collection.
    Create,
    /// Creates a collection without a deposit.
    ForceCreate,
    /// Removes a collection.
    Destroy,
    /// Creates an item.
    Mint,
    /// Creates an item with a given configuration.
    ForceMint,
    /// Removes an item.
    Burn,
    /// Transfers an item.
    Transfer,
    /// Evaluates the deposits of items anew.
    Redeposit,
    /// Stops transfers of an item.
    LockItemTransfer,
    /// Lets an item be transferred again.
    UnlockItemTransfer,
    /// Locks settings of a collection.
    LockCollection,
    /// Makes another account the owner of a collection.
    TransferOwnership,
    /// Sets the issuer, admin and freezer of a collection.
    SetTeam,
    /// Overrides the owner of a collection.
    ForceCollectionOwner,
    /// Overrides the configuration of a collection.
    ForceCollectionConfig,
    /// Lets a delegate transfer an item later.
    ApproveTransfer,
    /// Takes such an approval back.
    CancelApproval,
    /// Takes all such approvals of an item back.
    ClearAllTransferApprovals,
    /// Locks the metadata or attributes of an item.
    LockItemProperties,
    /// Sets an attribute.
    SetAttribute,
    /// Sets an attribute without a deposit.
    ForceSetAttribute,
    /// Clears an attribute.
    ClearAttribute,
    /// Lets a delegate set attributes of an item.
    ApproveItemAttributes,
    /// Takes such an approval back.
    CancelItemAttributesApproval,
    /// Sets the metadata of an item.
    SetMetadata,
    /// Clears the metadata of an item.
    ClearMetadata,
    /// Sets the metadata of a collection.
    SetCollectionMetadata,
    /// Clears the metadata of a collection.
    ClearCollectionMetadata,
    /// Agrees to become the owner of a collection.
    SetAcceptOwnership,
    /// Sets how many items a collection can have.
    SetCollectionMaxSupply,
    /// Sets who can create items of a collection.
    UpdateMintSettings,
    /// Puts an item up for sale.
    SetPrice,
    /// Buys an item that is up for sale.
    BuyItem,
    /// Pays tips to other accounts.
    PayTips,
    /// Offers to swap an item.
    CreateSwap,
    /// Takes such an offer back.
    CancelSwap,
    /// Accepts such an offer.
    ClaimSwap,
    /// Creates an item that its creator signed off.
    MintPreSigned,
    /// Sets attributes that their author signed off.
    SetAttributesPreSigned,
}

/// The calls of the vesting pallet, without their arguments.
#[derive(Clone, Copy, PartialEq, Eq, Structural, Debug)]
pub enum VestingCall {
    /// Unlocks what has vested of the sender's balance.
    Vest,
    /// Unlocks what has vested of someone else's balance.
    VestOther,
    /// Transfers balance that vests by a schedule.
    VestedTransfer,
    /// Transfers balance that vests by a schedule, out of an account that is not the
    /// sender's.
    ForceVestedTransfer,
    /// Merges two vesting schedules.
    MergeSchedules,
    /// Removes a vesting schedule.
    ForceRemoveVestingSchedule,
}

/// A call to the runtime, as far as the filters look into it: the pallet that it
/// goes to, and for pallets with calls that are told apart which of these it is.
#[derive(Clone, Copy, PartialEq, Eq, Structural, Debug)]
pub enum RuntimeCall {
    /// A call of the balances pallet.
    Balances(BalancesCall),
    /// A call of an assets pallet, of whichever instance.
    Assets(AssetsCall),
    /// A call of the NFTs pallet.
    Nfts(NftsCall),
    /// A call of the vesting pallet.
    Vesting(VestingCall),
    /// Any call of the multisig pallet.
    Multisig,
    /// Any call of the collator selection pallet.
    CollatorSelection,
    /// A call of the proxy pallet.
    Proxy(ProxyCall),
    /// A transfer call of any other pallet, such as one that sends assets to
    /// another chain.
    OtherTransfer,
    /// Any call of any other pallet that is not a transfer call.
    Other,
}

impl RuntimeCall {
    /// The transfer calls: those by which balance, units of an asset or items are
    /// given from one account to another.
    ///
    /// To approve a later transfer, to trade an item for its price or for another
    /// item, and to hand a whole asset class or collection to a new owner is not
    /// a transfer.
    pub open spec fn is_transfer(self) -> bool {
        match self {
            RuntimeCall::Balances(call) => {
                ||| call is TransferAllowDeath
                ||| call is TransferKeepAlive
                ||| call is TransferAll
                ||| call is ForceTransfer
            },
            RuntimeCall::Assets(call) => {
                ||| call is Transfer
                ||| call is TransferKeepAlive
                ||| call is ForceTransfer
                ||| call is TransferApproved
            },
            RuntimeCall::Nfts(call) => call is Transfer || call is PayTips,
            RuntimeCall::Vesting(call) => call is VestedTransfer || call is ForceVestedTransfer,
            RuntimeCall::OtherTransfer => true,
            _ => false,
        }
    }

    /// Whether this is a transfer call.
    pub fn transfers(&self) -> (transfer: bool)
        ensures
            transfer == self.is_transfer(),
    {
        match self {
            RuntimeCall::Balances(call) => matches!(
                call,
                BalancesCall::TransferAllowDeath
                    | BalancesCall::TransferKeepAlive
                    | BalancesCall::TransferAll
                    | BalancesCall::ForceTransfer
            ),
            RuntimeCall::Assets(call) => matches!(
                call,
                AssetsCall::Transfer
                    | AssetsCall::TransferKeepAlive
                    | AssetsCall::ForceTransfer
                    | AssetsCall::TransferApproved
            ),
            RuntimeCall::Nfts(call) => matches!(call, NftsCall::Transfer | NftsCall::PayTips),
            RuntimeCall::Vesting(call) => matches!(
                call,
                VestingCall::VestedTransfer | VestingCall::ForceVestedTransfer
            ),
            RuntimeCall::OtherTransfer => true,
            _ => false,
        }
    }
}

/// The calls of the balances pallet that are no transfer calls only free, upgrade or
/// set balances, or adjust what is issued.
pub proof fn law_other_balances_calls(call: BalancesCall)
    ensures
        !RuntimeCall::Balances(call).is_transfer() <==> {
            ||| call is ForceUnreserve
            ||| call is UpgradeAccounts
            ||| call is ForceSetBalance
            ||| call is ForceAdjustTotalIssuance
        },
{
}

/// The calls of the assets pallet that are no transfer calls create, destroy, mint,
/// burn, freeze, hand over, describe, approve, or keep accounts.
pub proof fn law_other_assets_calls(call: AssetsCall)
    ensures
        !RuntimeCall::Assets(call).is_transfer() <==> {
            ||| call is Create
            ||| call is ForceCreate
            ||| call is StartDestroy
            ||| call is DestroyAccounts
            ||| call is DestroyApprovals
            ||| call is FinishDestroy
            ||| call is Mint
            ||| call is Burn
            ||| call is Freeze
            ||| call is Thaw
            ||| call is FreezeAsset
            ||| call is ThawAsset
            ||| call is TransferOwnership
            ||| call is SetTeam
            ||| call is SetMetadata
            ||| call is ClearMetadata
            ||| call is ForceSetMetadata
            ||| call is ForceClearMetadata
            ||| call is ForceAssetStatus
            ||| call is ApproveTransfer
            ||| call is CancelApproval
            ||| call is ForceCancelApproval
            ||| call is Touch
            ||| call is Refund
            ||| call is SetMinBalance
            ||| call is TouchOther
            ||| call is RefundOther
            ||| call is Block
        },
{
}

/// The calls of the NFTs pallet that are no transfer calls create, destroy, mint,
/// burn, lock, hand over, describe, approve, price, trade or swap.
pub proof fn law_other_nfts_calls(call: NftsCall)
    ensures
        !RuntimeCall::Nfts(call).is_transfer() <==> {
            ||| call is Create
            ||| call is ForceCreate
            ||| call is Destroy
            ||| call is Mint
            ||| call is ForceMint
            ||| call is Burn
            ||| call is Redeposit
            ||| call is LockItemTransfer
            ||| call is UnlockItemTransfer
            ||| call is LockCollection
            ||| call is TransferOwnership
            ||| call is SetTeam
            ||| call is ForceCollectionOwner
            ||| call is ForceCollectionConfig
            ||| call is ApproveTransfer
            ||| call is CancelApproval
            ||| call is ClearAllTransferApprovals
            ||| call is LockItemProperties
            ||| call is SetAttribute
            ||| call is ForceSetAttribute
            ||| call is ClearAttribute
            ||| call is ApproveItemAttributes
            ||| call is CancelItemAttributesApproval
            ||| call is SetMetadata
            ||| call is ClearMetadata
            ||| call is SetCollectionMetadata
            ||| call is ClearCollectionMetadata
            ||| call is SetAcceptOwnership
            ||| call is SetCollectionMaxSupply
            ||| call is UpdateMintSettings
            ||| call is SetPrice
            ||| call is BuyItem
            ||| call is CreateSwap
            ||| call is CancelSwap
            ||| call is ClaimSwap
            ||| call is MintPreSigned
            ||| call is SetAttributesPreSigned
        },
{
}

/// The calls of the vesting pallet that are no transfer calls release what is vested,
/// or merge or remove schedules.
pub proof fn law_other_vesting_calls(call: VestingCall)
    ensures
        !RuntimeCall::Vesting(call).is_transfer() <==> {
            ||| call is Vest
            ||| call is VestOther
            ||| call is MergeSchedules
            ||| call is ForceRemoveVestingSchedule
        },
{
}

/// Calls of the multisig, collator selection and proxy pallets are no transfer
/// calls. Of the pallets that are not told apart, a call is one exactly if it is
/// said to be.
pub proof fn law_other_pallets_do_not_transfer(call: RuntimeCall)
    requires
        !(call is Balances),
        !(call is Assets),
        !(call is Nfts),
        !(call is Vesting),
    ensures
        !call.is_transfer() <==> {
            ||| call is Multisig
            ||| call is CollatorSelection
            ||| call is Proxy
            ||| call is Other
        },
{
}

} // verus!
