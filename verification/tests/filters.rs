use runtime_configs::calls::{
    AssetsCall, BalancesCall, NftsCall, ProxyCall, RuntimeCall, VestingCall,
};
use runtime_configs::filters::{NormalFilter, ProxyType};

const PROXY_CALLS: [ProxyCall; 10] = [
    ProxyCall::Proxy,
    ProxyCall::AddProxy,
    ProxyCall::RemoveProxy,
    ProxyCall::RemoveProxies,
    ProxyCall::CreatePure,
    ProxyCall::KillPure,
    ProxyCall::Announce,
    ProxyCall::RemoveAnnouncement,
    ProxyCall::RejectAnnouncement,
    ProxyCall::ProxyAnnounced,
];

const BALANCES_CALLS: [BalancesCall; 8] = [
    BalancesCall::TransferAllowDeath,
    BalancesCall::ForceTransfer,
    BalancesCall::TransferKeepAlive,
    BalancesCall::TransferAll,
    BalancesCall::ForceUnreserve,
    BalancesCall::UpgradeAccounts,
    BalancesCall::ForceSetBalance,
    BalancesCall::ForceAdjustTotalIssuance,
];

const ASSETS_CALLS: [AssetsCall; 32] = [
    AssetsCall::Create,
    AssetsCall::ForceCreate,
    AssetsCall::StartDestroy,
    AssetsCall::DestroyAccounts,
    AssetsCall::DestroyApprovals,
    AssetsCall::FinishDestroy,
    AssetsCall::Mint,
    AssetsCall::Burn,
    AssetsCall::Transfer,
    AssetsCall::TransferKeepAlive,
    AssetsCall::ForceTransfer,
    AssetsCall::Freeze,
    AssetsCall::Thaw,
    AssetsCall::FreezeAsset,
    AssetsCall::ThawAsset,
    AssetsCall::TransferOwnership,
    AssetsCall::SetTeam,
    AssetsCall::SetMetadata,
    AssetsCall::ClearMetadata,
    AssetsCall::ForceSetMetadata,
    AssetsCall::ForceClearMetadata,
    AssetsCall::ForceAssetStatus,
    AssetsCall::ApproveTransfer,
    AssetsCall::CancelApproval,
    AssetsCall::ForceCancelApproval,
    AssetsCall::TransferApproved,
    AssetsCall::Touch,
    AssetsCall::Refund,
    AssetsCall::SetMinBalance,
    AssetsCall::TouchOther,
    AssetsCall::RefundOther,
    AssetsCall::Block,
];

const NFTS_CALLS: [NftsCall; 39] = [
    NftsCall::Create,
    NftsCall::ForceCreate,
    NftsCall::Destroy,
    NftsCall::Mint,
    NftsCall::ForceMint,
    NftsCall::Burn,
    NftsCall::Transfer,
    NftsCall::Redeposit,
    NftsCall::LockItemTransfer,
    NftsCall::UnlockItemTransfer,
    NftsCall::LockCollection,
    NftsCall::TransferOwnership,
    NftsCall::SetTeam,
    NftsCall::ForceCollectionOwner,
    NftsCall::ForceCollectionConfig,
    NftsCall::ApproveTransfer,
    NftsCall::CancelApproval,
    NftsCall::ClearAllTransferApprovals,
    NftsCall::LockItemProperties,
    NftsCall::SetAttribute,
    NftsCall::ForceSetAttribute,
    NftsCall::ClearAttribute,
    NftsCall::ApproveItemAttributes,
    NftsCall::CancelItemAttributesApproval,
    NftsCall::SetMetadata,
    NftsCall::ClearMetadata,
    NftsCall::SetCollectionMetadata,
    NftsCall::ClearCollectionMetadata,
    NftsCall::SetAcceptOwnership,
    NftsCall::SetCollectionMaxSupply,
    NftsCall::UpdateMintSettings,
    NftsCall::SetPrice,
    NftsCall::BuyItem,
    NftsCall::PayTips,
    NftsCall::CreateSwap,
    NftsCall::CancelSwap,
    NftsCall::ClaimSwap,
    NftsCall::MintPreSigned,
    NftsCall::SetAttributesPreSigned,
];

const VESTING_CALLS: [VestingCall; 6] = [
    VestingCall::Vest,
    VestingCall::VestOther,
    VestingCall::VestedTransfer,
    VestingCall::ForceVestedTransfer,
    VestingCall::MergeSchedules,
    VestingCall::ForceRemoveVestingSchedule,
];

const PROXY_TYPES: [ProxyType; 4] =
    [ProxyType::Any, ProxyType::NonTransfer, ProxyType::CancelProxy, ProxyType::Collator];

fn all_calls() -> Vec<RuntimeCall> {
    let mut calls =
        vec![RuntimeCall::Multisig, RuntimeCall::CollatorSelection, RuntimeCall::Other];
    calls.extend(PROXY_CALLS.map(RuntimeCall::Proxy));
    calls.extend(BALANCES_CALLS.map(RuntimeCall::Balances));
    calls.extend(ASSETS_CALLS.map(RuntimeCall::Assets));
    calls.extend(NFTS_CALLS.map(RuntimeCall::Nfts));
    calls.extend(VESTING_CALLS.map(RuntimeCall::Vesting));
    calls.push(RuntimeCall::OtherTransfer);
    calls
}

/// Every transfer call, and nothing else.
const TRANSFERS: [RuntimeCall; 13] = [
    RuntimeCall::Balances(BalancesCall::TransferAllowDeath),
    RuntimeCall::Balances(BalancesCall::ForceTransfer),
    RuntimeCall::Balances(BalancesCall::TransferKeepAlive),
    RuntimeCall::Balances(BalancesCall::TransferAll),
    RuntimeCall::Assets(AssetsCall::Transfer),
    RuntimeCall::Assets(AssetsCall::TransferKeepAlive),
    RuntimeCall::Assets(AssetsCall::ForceTransfer),
    RuntimeCall::Assets(AssetsCall::TransferApproved),
    RuntimeCall::Nfts(NftsCall::Transfer),
    RuntimeCall::Nfts(NftsCall::PayTips),
    RuntimeCall::Vesting(VestingCall::VestedTransfer),
    RuntimeCall::Vesting(VestingCall::ForceVestedTransfer),
    RuntimeCall::OtherTransfer,
];

fn covers(a: ProxyType, b: ProxyType) -> bool {
    all_calls().iter().all(|call| !b.filter(call) || a.filter(call))
}

#[test]
fn anonymous_proxies_are_stopped() {
    assert!(!NormalFilter::contains(&RuntimeCall::Proxy(ProxyCall::CreatePure)));
    assert!(!NormalFilter::contains(&RuntimeCall::Proxy(ProxyCall::KillPure)));
    assert!(!NormalFilter::contains(&RuntimeCall::Proxy(ProxyCall::RemoveProxies)));
}

#[test]
fn all_other_calls_pass() {
    let stopped: Vec<RuntimeCall> =
        all_calls().into_iter().filter(|call| !NormalFilter::contains(call)).collect();
    assert_eq!(
        stopped,
        vec![
            RuntimeCall::Proxy(ProxyCall::RemoveProxies),
            RuntimeCall::Proxy(ProxyCall::CreatePure),
            RuntimeCall::Proxy(ProxyCall::KillPure),
        ]
    );
}

#[test]
fn any_allows_every_call() {
    assert!(all_calls().iter().all(|call| ProxyType::Any.filter(call)));
}

#[test]
fn transfer_calls_are_told_apart() {
    let transfers: Vec<RuntimeCall> =
        all_calls().into_iter().filter(|call| call.transfers()).collect();
    assert_eq!(transfers, TRANSFERS.to_vec());
}

#[test]
fn non_transfer_allows_all_but_transfers() {
    for call in all_calls() {
        assert_eq!(ProxyType::NonTransfer.filter(&call), !TRANSFERS.contains(&call));
    }
}

#[test]
fn non_transfer_allows_balances_calls_that_transfer_nothing() {
    let allows = |call| ProxyType::NonTransfer.filter(&RuntimeCall::Balances(call));
    assert!(allows(BalancesCall::UpgradeAccounts));
    assert!(allows(BalancesCall::ForceUnreserve));
    assert!(!allows(BalancesCall::TransferAllowDeath));
}

#[test]
fn non_transfer_stops_transfers_of_assets_and_items() {
    let allows = |call| ProxyType::NonTransfer.filter(&call);
    assert!(!allows(RuntimeCall::Assets(AssetsCall::Transfer)));
    assert!(allows(RuntimeCall::Assets(AssetsCall::ApproveTransfer)));
    assert!(!allows(RuntimeCall::Nfts(NftsCall::Transfer)));
    assert!(allows(RuntimeCall::Nfts(NftsCall::BuyItem)));
    assert!(!allows(RuntimeCall::Vesting(VestingCall::VestedTransfer)));
    assert!(allows(RuntimeCall::Vesting(VestingCall::Vest)));
}

#[test]
fn cancel_proxy_allows_rejections_and_multisig() {
    let allowed: Vec<RuntimeCall> =
        all_calls().into_iter().filter(|call| ProxyType::CancelProxy.filter(call)).collect();
    assert_eq!(
        allowed,
        vec![RuntimeCall::Multisig, RuntimeCall::Proxy(ProxyCall::RejectAnnouncement)]
    );
}

#[test]
fn collator_allows_collator_selection_and_multisig() {
    let allowed: Vec<RuntimeCall> =
        all_calls().into_iter().filter(|call| ProxyType::Collator.filter(call)).collect();
    assert_eq!(allowed, vec![RuntimeCall::Multisig, RuntimeCall::CollatorSelection]);
}

#[test]
fn default_proxy_is_unrestricted() {
    assert_eq!(ProxyType::default(), ProxyType::Any);
}

#[test]
fn proxy_types_are_ordered_as_declared() {
    assert!(PROXY_TYPES.windows(2).all(|pair| pair[0] < pair[1]));
}

#[test]
fn proxy_types_cover_each_other_as_a_tree() {
    for a in PROXY_TYPES {
        for b in PROXY_TYPES {
            let expected = a == b
                || a == ProxyType::Any
                || (a == ProxyType::NonTransfer && b != ProxyType::Any);
            assert_eq!(covers(a, b), expected);
        }
    }
}

#[test]
fn only_unrestricted_proxies_transfer() {
    for proxy_type in PROXY_TYPES {
        for call in TRANSFERS {
            assert_eq!(proxy_type.filter(&call), proxy_type == ProxyType::Any);
        }
    }
}

#[test]
fn narrow_proxies_share_multisig() {
    for call in all_calls() {
        let both = ProxyType::CancelProxy.filter(&call) && ProxyType::Collator.filter(&call);
        assert_eq!(both, call == RuntimeCall::Multisig);
    }
}

#[test]
fn calls_of_narrow_proxies_pass() {
    for call in all_calls() {
        if ProxyType::CancelProxy.filter(&call) || ProxyType::Collator.filter(&call) {
            assert!(NormalFilter::contains(&call));
        }
    }
}

#[test]
fn only_proxy_calls_are_stopped() {
    for call in all_calls() {
        if !NormalFilter::contains(&call) {
            assert!(matches!(call, RuntimeCall::Proxy(_)));
        }
    }
}
