use runtime_configs::bounds::{
    ApprovalsLimit, GameStringLimit, HeapSize, ItemAttributesApprovalsLimit, KeyLimit,
    LeaderLimit, MaxAdmin, MaxApprovals, MaxAttributesPerCall, MaxAuthorities, MaxCandidates,
    MaxConsumers, MaxFreezes, MaxInboundSuspended, MaxInvulnerables, MaxLettingAgent,
    MaxLocation, MaxLocks, MaxNftTokens, MaxOngoingGame, MaxPending, MaxProperties, MaxProperty,
    MaxProxies, MaxReserves, MaxScheduledRuntimeCallsPerBlock, MaxSignatories, MaxStale,
    MaxTips, MaxVestingSchedules, MaxVoteForBlock, MaxWhitelistUsers, MaximumVoter,
    MinEligibleCollators, Postcode, RemoveItemsLimit, StringLimit, UserStringLimit, ValueLimit,
};

#[test]
fn limits_that_the_pallets_are_given() {
    assert_eq!(StringLimit::get(), 50);
    assert_eq!(MaxConsumers::get(), 16);
    assert_eq!(MaxVestingSchedules::get(), 10);
    assert_eq!(MaxScheduledRuntimeCallsPerBlock::get(), 50);
    assert_eq!(MaxProxies::get(), 32);
    assert_eq!(MaxPending::get(), 32);
    assert_eq!(MaxFreezes::get(), 0);
    assert_eq!(MaxLocks::get(), 50);
    assert_eq!(MaxReserves::get(), 50);
    assert_eq!(RemoveItemsLimit::get(), 1000);
    assert_eq!(HeapSize::get(), 65_536);
    assert_eq!(MaxStale::get(), 8);
    assert_eq!(MaxInboundSuspended::get(), 1000);
    assert_eq!(MaxSignatories::get(), 100);
    assert_eq!(MaxAuthorities::get(), 100_000);
    assert_eq!(MaxCandidates::get(), 100);
    assert_eq!(MaxInvulnerables::get(), 20);
    assert_eq!(MinEligibleCollators::get(), 4);
    assert_eq!(MaxApprovals::get(), 100);
    assert_eq!(MaxAttributesPerCall::get(), 10);
    assert_eq!(KeyLimit::get(), 32);
    assert_eq!(ValueLimit::get(), 256);
    assert_eq!(ApprovalsLimit::get(), 20);
    assert_eq!(ItemAttributesApprovalsLimit::get(), 20);
    assert_eq!(MaxTips::get(), 10);
    assert_eq!(UserStringLimit::get(), 5);
    assert_eq!(MaxWhitelistUsers::get(), 1000);
    assert_eq!(MaxNftTokens::get(), 250);
    assert_eq!(Postcode::get(), 10);
    assert_eq!(MaxProperty::get(), 1000);
    assert_eq!(MaxLettingAgent::get(), 100);
    assert_eq!(MaxLocation::get(), 100);
    assert_eq!(MaxVoteForBlock::get(), 100);
    assert_eq!(MaximumVoter::get(), 100);
    assert_eq!(MaxOngoingGame::get(), 200);
    assert_eq!(LeaderLimit::get(), 10);
    assert_eq!(MaxAdmin::get(), 10);
    assert_eq!(GameStringLimit::get(), 500);
    assert_eq!(MaxProperties::get(), 100);
}

#[test]
fn max_properties_is_a_plain_value() {
    let limit = MaxProperties;
    assert_eq!(limit, limit.clone());
}
