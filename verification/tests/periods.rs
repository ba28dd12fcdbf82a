use runtime_configs::periods::{
    AllowMultipleBlocksPerSlot, BlockTimes, BuildFlags, CheckAssociatedRelayNumber,
    MaxDeadlineDuration, MinimumPeriod, Offset, PayoutSpendPeriod, Period, PropertyVotingTime,
    RelayNumberCheck, RequestLimits, SessionLength, SlotDuration, SpendPeriod,
};

const TIMES: BlockTimes = BlockTimes { hours: 300, days: 7_200, slot_duration: 12_001 };

#[test]
fn periods_in_blocks() {
    assert_eq!(Period::get(&TIMES), 1_800);
    assert_eq!(Offset::get(), 0);
    assert_eq!(SessionLength::get(&TIMES), 1_800);
    assert_eq!(SpendPeriod::get(&TIMES), 43_200);
    assert_eq!(PayoutSpendPeriod::get(&TIMES), 216_000);
    assert_eq!(MaxDeadlineDuration::get(&TIMES), 2_592_000);
    assert_eq!(PropertyVotingTime::get(), 20);
    assert_eq!(RequestLimits::get(), 100_800);
    assert_eq!(SlotDuration::get(&TIMES), 12_001);
}

#[test]
fn offset_is_within_period() {
    assert!(Offset::get() < Period::get(&TIMES));
}

#[test]
fn kick_threshold_is_whole_sessions() {
    assert_eq!(Period::get(&TIMES) % SessionLength::get(&TIMES), 0);
}

#[test]
fn minimum_period_is_half_a_slot() {
    let ordinary = BuildFlags { async_backing: false, experimental: false };
    assert_eq!(MinimumPeriod::get(&TIMES, &ordinary), 6_000);
    let experimental = BuildFlags { async_backing: false, experimental: true };
    assert_eq!(MinimumPeriod::get(&TIMES, &experimental), 0);
}

#[test]
fn relay_block_reuse_needs_multiple_blocks() {
    let synchronous = BuildFlags { async_backing: false, experimental: false };
    assert!(!AllowMultipleBlocksPerSlot::get(&synchronous));
    assert_eq!(
        CheckAssociatedRelayNumber::get(&synchronous),
        RelayNumberCheck::StrictlyIncreases
    );
    let asynchronous = BuildFlags { async_backing: true, experimental: false };
    assert!(AllowMultipleBlocksPerSlot::get(&asynchronous));
    assert_eq!(
        CheckAssociatedRelayNumber::get(&asynchronous),
        RelayNumberCheck::MonotonicallyIncreases
    );
}
