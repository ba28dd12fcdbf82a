//! How long things take, counted in blocks.

use vstd::prelude::*;

verus! {

/// How many blocks an hour and a day have, and how long the slot of a block is.
#[derive(Clone, Copy, PartialEq, Eq, Structural, Debug)]
pub struct BlockTimes {
    pub hours: u32,
    pub days: u32,
    /// In milliseconds.
    pub slot_duration: u64,
}

/// What the runtime is built with.
#[derive(Clone, Copy, PartialEq, Eq, Structural, Debug)]
pub struct BuildFlags {
    /// Blocks are backed asynchronously.
    pub async_backing: bool,
    /// Time is not held to the slots, for experiments.
    pub experimental: bool,
}

/// The length of a session, and the time after which a collator without blocks is
/// removed.
pub struct Period;

impl Period {
    /// The number of blocks.
    pub open spec fn blocks(times: BlockTimes) -> nat {
        6 * times.hours as nat
    }

    /// Six hours.
    pub fn get(times: &BlockTimes) -> (blocks: u32)
        requires
            Self::blocks(*times) <= u32::MAX,
        ensures
            blocks == Self::blocks(*times),
            blocks == 6 * times.hours,
    {
        6 * times.hours
    }
}

/// The length of the first session.
pub struct Offset;

impl Offset {
    /// The number of blocks.
    pub open spec fn blocks() -> nat {
        0
    }

    /// None: the first session ends at once.
    pub fn get() -> (blocks: u32)
        ensures
            blocks == Self::blocks(),
    {
        0
    }
}

/// The length of a session, as collator selection counts it.
pub struct SessionLength;

impl SessionLength {
    /// The number of blocks.
    pub open spec fn blocks(times: BlockTimes) -> nat {
        6 * times.hours as nat
    }

    /// Six hours.
    pub fn get(times: &BlockTimes) -> (blocks: u32)
        requires
            Self::blocks(*times) <= u32::MAX,
        ensures
            blocks == Self::blocks(*times),
            blocks == 6 * times.hours,
    {
        6 * times.hours
    }
}

/// The first session is shorter than the others, wherever an hour has a block.
pub proof fn law_offset_is_within_period(times: BlockTimes)
    requires
        times.hours > 0,
    ensures
        Offset::blocks() < Period::blocks(times),
{
}

/// The time after which a collator is removed is a whole number of sessions.
pub proof fn law_kick_threshold_is_whole_sessions(times: BlockTimes)
    ensures
        exists|sessions: nat|
            Period::blocks(times) == #[trigger] (sessions * SessionLength::blocks(times)),
{
    assert(Period::blocks(times) == 1nat * SessionLength::blocks(times));
}

/// The time between two payouts of the treasury.
pub struct SpendPeriod;

impl SpendPeriod {
    /// The number of blocks.
    pub open spec fn blocks(times: BlockTimes) -> nat {
        6 * times.days as nat
    }

    /// Six days.
    pub fn get(times: &BlockTimes) -> (blocks: u32)
        requires
            6 * times.days <= u32::MAX,
        ensures
            blocks == Self::blocks(*times),
            blocks == 6 * times.days,
    {
        6 * times.days
    }
}

/// The time within which an approved spend of the treasury has to be claimed.
pub struct PayoutSpendPeriod;

impl PayoutSpendPeriod {
    /// The number of blocks.
    pub open spec fn blocks(times: BlockTimes) -> nat {
        30 * times.days as nat
    }

    /// Thirty days.
    pub fn get(times: &BlockTimes) -> (blocks: u32)
        requires
            30 * times.days <= u32::MAX,
        ensures
            blocks == Self::blocks(*times),
            blocks == 30 * times.days,
    {
        30 * times.days
    }
}

/// The longest that an offer on an NFT can stand.
pub struct MaxDeadlineDuration;

impl MaxDeadlineDuration {
    /// The number of blocks.
    pub open spec fn blocks(times: BlockTimes) -> nat {
        360 * times.days as nat
    }

    /// Twelve months of thirty days.
    pub fn get(times: &BlockTimes) -> (blocks: u32)
        requires
            360 * times.days <= u32::MAX,
        ensures
            blocks == Self::blocks(*times),
            blocks == 360 * times.days,
    {
        12 * 30 * times.days
    }
}

/// A session is six hours long, however many blocks an hour has, and so is the time
/// for which a collator without blocks is kept.
pub proof fn law_sessions_are_six_hours(times: BlockTimes)
    ensures
        Period::blocks(times) == 6 * times.hours,
        SessionLength::blocks(times) == 6 * times.hours,
{
}

/// The longer times are counted in days: a spend period is six of them, five spend
/// periods are the time to claim a spend, and twelve of these the longest deadline.
pub proof fn law_longer_times_are_counted_in_days(times: BlockTimes)
    ensures
        SpendPeriod::blocks(times) == 6 * times.days,
        PayoutSpendPeriod::blocks(times) == 5 * SpendPeriod::blocks(times),
        MaxDeadlineDuration::blocks(times) == 12 * PayoutSpendPeriod::blocks(times),
{
}

/// Where hours and days have as many blocks as those of `a` and of `b` together,
/// every time is as long as that for `a` and that for `b` together.
pub proof fn law_times_add_up(a: BlockTimes, b: BlockTimes, both: BlockTimes)
    requires
        both.hours == a.hours + b.hours,
        both.days == a.days + b.days,
    ensures
        Period::blocks(both) == Period::blocks(a) + Period::blocks(b),
        SessionLength::blocks(both) == SessionLength::blocks(a) + SessionLength::blocks(b),
        SpendPeriod::blocks(both) == SpendPeriod::blocks(a) + SpendPeriod::blocks(b),
        PayoutSpendPeriod::blocks(both) == PayoutSpendPeriod::blocks(a)
            + PayoutSpendPeriod::blocks(b),
        MaxDeadlineDuration::blocks(both) == MaxDeadlineDuration::blocks(a)
            + MaxDeadlineDuration::blocks(b),
{
}

/// The time for which a proposal of property governance can be voted on.
pub struct PropertyVotingTime;

impl PropertyVotingTime {
    /// The number of blocks.
    pub fn get() -> (blocks: u32)
        ensures
            blocks == 20,
    {
        20
    }
}

/// The time after which the game can be asked for tokens again.
pub struct RequestLimits;

impl RequestLimits {
    /// The number of blocks.
    pub fn get() -> (blocks: u32)
        ensures
            blocks == 100_800,
    {
        100_800
    }
}

/// The length of the slot of a block, in milliseconds.
pub struct SlotDuration;

impl SlotDuration {
    /// The length.
    pub open spec fn millis(times: BlockTimes) -> nat {
        times.slot_duration as nat
    }

    /// The length.
    pub fn get(times: &BlockTimes) -> (millis: u64)
        ensures
            millis == Self::millis(*times),
            millis == times.slot_duration,
    {
        times.slot_duration
    }
}

/// The least time between two blocks, in milliseconds.
pub struct MinimumPeriod;

impl MinimumPeriod {
    /// The time.
    pub open spec fn millis(times: BlockTimes, flags: BuildFlags) -> nat {
        if flags.experimental {
            0
        } else {
            times.slot_duration as nat / 2
        }
    }

    /// Half a slot; nothing in an experimental build.
    pub fn get(times: &BlockTimes, flags: &BuildFlags) -> (millis: u64)
        ensures
            millis == Self::millis(*times, *flags),
            flags.experimental ==> millis == 0,
            !flags.experimental ==> millis == times.slot_duration / 2,
    {
        if flags.experimental {
            0
        } else {
            times.slot_duration / 2
        }
    }
}

/// Two least times between blocks make up a slot, but for a millisecond that is
/// left over where it is odd. In an experimental build blocks need no time between
/// them. Asynchronous backing changes neither.
pub proof fn law_two_minimum_periods_make_a_slot(times: BlockTimes, flags: BuildFlags)
    ensures
        SlotDuration::millis(times) == times.slot_duration,
        flags.experimental ==> MinimumPeriod::millis(times, flags) == 0,
        !flags.experimental ==> 2 * MinimumPeriod::millis(times, flags) <= times.slot_duration <= 2
            * MinimumPeriod::millis(times, flags) + 1,
{
}

/// Whether a collator may author more than one block in its slot.
pub struct AllowMultipleBlocksPerSlot;

impl AllowMultipleBlocksPerSlot {
    /// Only with asynchronous backing.
    pub open spec fn allowed(flags: BuildFlags) -> bool {
        flags.async_backing
    }

    /// Only with asynchronous backing.
    pub fn get(flags: &BuildFlags) -> (allowed: bool)
        ensures
            allowed == Self::allowed(*flags),
            allowed == flags.async_backing,
    {
        flags.async_backing
    }
}

/// What a block has to keep of the relay chain block that it builds on.
#[derive(Clone, Copy, PartialEq, Eq, Structural, Debug)]
pub enum RelayNumberCheck {
    /// Its number is above that of the block before.
    StrictlyIncreases,
    /// Its number is not below that of the block before.
    MonotonicallyIncreases,
}

impl RelayNumberCheck {
    /// A block on relay chain block `current` may follow one on `previous`.
    pub open spec fn admits(self, current: nat, previous: nat) -> bool {
        match self {
            RelayNumberCheck::StrictlyIncreases => current > previous,
            RelayNumberCheck::MonotonicallyIncreases => current >= previous,
        }
    }
}

/// The check of relay chain block numbers.
pub struct CheckAssociatedRelayNumber;

impl CheckAssociatedRelayNumber {
    /// Strict, unless blocks are backed asynchronously.
    pub open spec fn check(flags: BuildFlags) -> RelayNumberCheck {
        if flags.async_backing {
            RelayNumberCheck::MonotonicallyIncreases
        } else {
            RelayNumberCheck::StrictlyIncreases
        }
    }

    /// Strict, unless blocks are backed asynchronously.
    pub fn get(flags: &BuildFlags) -> (check: RelayNumberCheck)
        ensures
            check == Self::check(*flags),
            check is MonotonicallyIncreases <==> flags.async_backing,
    {
        if flags.async_backing {
            RelayNumberCheck::MonotonicallyIncreases
        } else {
            RelayNumberCheck::StrictlyIncreases
        }
    }
}

/// Two blocks may build on the same relay chain block exactly if a collator may
/// author more than one block in its slot.
pub proof fn law_relay_block_reuse_needs_multiple_blocks(flags: BuildFlags, number: nat)
    ensures
        CheckAssociatedRelayNumber::check(flags).admits(number, number)
            <==> AllowMultipleBlocksPerSlot::allowed(flags),
{
}

/// Asynchronous backing alone decides whether a collator may author more than one
/// block in its slot, and whether two blocks may build on the same relay chain
/// block. A later relay chain block may always follow, an earlier one never.
pub proof fn law_async_backing_decides_block_reuse(flags: BuildFlags, current: nat, previous: nat)
    ensures
        AllowMultipleBlocksPerSlot::allowed(flags) <==> flags.async_backing,
        current > previous ==> CheckAssociatedRelayNumber::check(flags).admits(current, previous),
        current == previous ==> (CheckAssociatedRelayNumber::check(flags).admits(current, previous)
            <==> flags.async_backing),
        current < previous ==> !CheckAssociatedRelayNumber::check(flags).admits(current, previous),
{
}

/// Builds that differ in nothing but being experimental treat relay chain blocks
/// and slots alike.
pub proof fn law_experiments_keep_block_reuse(a: BuildFlags, b: BuildFlags)
    requires
        a.async_backing == b.async_backing,
    ensures
        AllowMultipleBlocksPerSlot::allowed(a) == AllowMultipleBlocksPerSlot::allowed(b),
        CheckAssociatedRelayNumber::check(a) == CheckAssociatedRelayNumber::check(b),
{
}

} // verus!
