//! How many, and how long: the limits that the pallets are given.

use vstd::prelude::*;

verus! {

/// The number of bytes that names, symbols and other short data can have.
pub const STRING_LIMIT: u32 = 50;

/// The number of bytes that names, symbols and other short data can have.
pub struct StringLimit;

impl StringLimit {
    /// The limit.
    pub fn get() -> (limit: u32)
        ensures
            limit == 50,
    {
        STRING_LIMIT
    }
}

// Limits on accounts.

/// The number of pallets that can depend on one account at once.
pub struct MaxConsumers;

impl MaxConsumers {
    /// The limit.
    pub fn get() -> (limit: u32)
        ensures
            limit == 16,
    {
        16
    }
}

/// The number of vesting schedules of one account.
pub struct MaxVestingSchedules;

impl MaxVestingSchedules {
    /// The limit.
    pub fn get() -> (limit: u32)
        ensures
            limit == 10,
    {
        10
    }
}

// Limits on the scheduler.

/// The number of calls that can be scheduled for one block.
pub struct MaxScheduledRuntimeCallsPerBlock;

impl MaxScheduledRuntimeCallsPerBlock {
    /// The limit.
    pub fn get() -> (limit: u32)
        ensures
            limit == 50,
    {
        50
    }
}

// Limits on proxies.

/// The number of proxies that one account can have.
pub struct MaxProxies;

impl MaxProxies {
    /// The limit.
    pub fn get() -> (limit: u32)
        ensures
            limit == 32,
    {
        32
    }
}

/// The number of announcements that one proxy can have pending.
pub struct MaxPending;

impl MaxPending {
    /// The limit.
    pub fn get() -> (limit: u32)
        ensures
            limit == 32,
    {
        32
    }
}

// Limits on balances.

/// The number of freezes on one account.
pub struct MaxFreezes;

impl MaxFreezes {
    /// The limit.
    pub fn get() -> (limit: u32)
        ensures
            limit == 0,
    {
        0
    }
}

/// The number of locks on one account.
pub struct MaxLocks;

impl MaxLocks {
    /// The limit.
    pub fn get() -> (limit: u32)
        ensures
            limit == 50,
    {
        50
    }
}

/// The number of named reserves on one account.
pub struct MaxReserves;

impl MaxReserves {
    /// The limit.
    pub fn get() -> (limit: u32)
        ensures
            limit == 50,
    {
        50
    }
}

// Limits on assets.

/// The number of accounts or approvals that one call removes when an asset is destroyed.
pub struct RemoveItemsLimit;

impl RemoveItemsLimit {
    /// The limit.
    pub fn get() -> (limit: u32)
        ensures
            limit == 1000,
    {
        1000
    }
}

// Limits on message queues.

/// The number of bytes of a page of queued messages.
pub struct HeapSize;

impl HeapSize {
    /// The limit.
    pub fn get() -> (limit: u32)
        ensures
            limit == 65_536,
    {
        64 * 1024
    }
}

/// The number of stale pages that a queue can have.
pub struct MaxStale;

impl MaxStale {
    /// The limit.
    pub fn get() -> (limit: u32)
        ensures
            limit == 8,
    {
        8
    }
}

/// The number of sibling channels that can be suspended at once.
pub struct MaxInboundSuspended;

impl MaxInboundSuspended {
    /// The limit.
    pub fn get() -> (limit: u32)
        ensures
            limit == 1000,
    {
        1000
    }
}

// Limits on multisig accounts.

/// The number of signatories of one multisig account.
pub struct MaxSignatories;

impl MaxSignatories {
    /// The limit.
    pub fn get() -> (limit: u16)
        ensures
            limit == 100,
    {
        100
    }
}

// Limits on block authoring.

/// The number of block authorities.
pub struct MaxAuthorities;

impl MaxAuthorities {
    /// The limit.
    pub fn get() -> (limit: u32)
        ensures
            limit == 100_000,
    {
        100_000
    }
}

/// The number of collator candidates.
pub struct MaxCandidates;

impl MaxCandidates {
    /// The limit.
    pub fn get() -> (limit: u32)
        ensures
            limit == 100,
    {
        100
    }
}

/// The number of invulnerable collators.
pub struct MaxInvulnerables;

impl MaxInvulnerables {
    /// The limit.
    pub fn get() -> (limit: u32)
        ensures
            limit == 20,
    {
        20
    }
}

/// The number of collators that have to remain eligible.
pub struct MinEligibleCollators;

impl MinEligibleCollators {
    /// The limit.
    pub fn get() -> (limit: u32)
        ensures
            limit == 4,
    {
        4
    }
}

// Limits on the treasury.

/// The number of approved spends that can wait for payment.
pub struct MaxApprovals;

impl MaxApprovals {
    /// The limit.
    pub fn get() -> (limit: u32)
        ensures
            limit == 100,
    {
        100
    }
}

// Limits on NFTs.

/// The number of attributes that one call can set.
pub struct MaxAttributesPerCall;

impl MaxAttributesPerCall {
    /// The limit.
    pub fn get() -> (limit: u32)
        ensures
            limit == 10,
    {
        10
    }
}

/// The number of bytes of the key of an attribute.
pub struct KeyLimit;

impl KeyLimit {
    /// The limit.
    pub fn get() -> (limit: u32)
        ensures
            limit == 32,
    {
        32
    }
}

/// The number of bytes of the value of an attribute.
pub struct ValueLimit;

impl ValueLimit {
    /// The limit.
    pub fn get() -> (limit: u32)
        ensures
            limit == 256,
    {
        256
    }
}

/// The number of approvals of one item.
pub struct ApprovalsLimit;

impl ApprovalsLimit {
    /// The limit.
    pub fn get() -> (limit: u32)
        ensures
            limit == 20,
    {
        20
    }
}

/// The number of accounts that can set the attributes of one item.
pub struct ItemAttributesApprovalsLimit;

impl ItemAttributesApprovalsLimit {
    /// The limit.
    pub fn get() -> (limit: u32)
        ensures
            limit == 20,
    {
        20
    }
}

/// The number of tips that one call can pay.
pub struct MaxTips;

impl MaxTips {
    /// The limit.
    pub fn get() -> (limit: u32)
        ensures
            limit == 10,
    {
        10
    }
}

/// The number of bytes of a string that a user supplies.
pub struct UserStringLimit;

impl UserStringLimit {
    /// The limit.
    pub fn get() -> (limit: u32)
        ensures
            limit == 5,
    {
        5
    }
}

// Limits on the whitelist.

/// The number of users on the whitelist.
pub struct MaxWhitelistUsers;

impl MaxWhitelistUsers {
    /// The limit.
    pub fn get() -> (limit: u32)
        ensures
            limit == 1000,
    {
        1000
    }
}

// Limits on the property marketplace.

/// The number of NFT tokens that the property marketplace allows.
pub struct MaxNftTokens;

impl MaxNftTokens {
    /// The limit.
    pub fn get() -> (limit: u32)
        ensures
            limit == 250,
    {
        250
    }
}

/// The number of bytes of a postcode.
pub struct Postcode;

impl Postcode {
    /// The limit.
    pub fn get() -> (limit: u32)
        ensures
            limit == 10,
    {
        10
    }
}

// Limits on property management.

/// The number of properties that property management allows.
pub struct MaxProperty;

impl MaxProperty {
    /// The limit.
    pub fn get() -> (limit: u32)
        ensures
            limit == 1000,
    {
        1000
    }
}

/// The number of letting agents that property management allows.
pub struct MaxLettingAgent;

impl MaxLettingAgent {
    /// The limit.
    pub fn get() -> (limit: u32)
        ensures
            limit == 100,
    {
        100
    }
}

/// The number of locations that property management allows.
pub struct MaxLocation;

impl MaxLocation {
    /// The limit.
    pub fn get() -> (limit: u32)
        ensures
            limit == 100,
    {
        100
    }
}

// Limits on property governance.

/// The number of votes that property governance allows for one block.
pub struct MaxVoteForBlock;

impl MaxVoteForBlock {
    /// The limit.
    pub fn get() -> (limit: u32)
        ensures
            limit == 100,
    {
        100
    }
}

/// The number of voters that property governance allows.
pub struct MaximumVoter;

impl MaximumVoter {
    /// The limit.
    pub fn get() -> (limit: u32)
        ensures
            limit == 100,
    {
        100
    }
}

// Limits on the game.

/// The number of games that can be going on at once.
pub struct MaxOngoingGame;

impl MaxOngoingGame {
    /// The limit.
    pub fn get() -> (limit: u32)
        ensures
            limit == 200,
    {
        200
    }
}

/// The number of players on the leaderboard.
pub struct LeaderLimit;

impl LeaderLimit {
    /// The limit.
    pub fn get() -> (limit: u32)
        ensures
            limit == 10,
    {
        10
    }
}

/// The number of administrators of the game.
pub struct MaxAdmin;

impl MaxAdmin {
    /// The limit.
    pub fn get() -> (limit: u32)
        ensures
            limit == 10,
    {
        10
    }
}

/// The number of bytes of a string of the game.
pub struct GameStringLimit;

impl GameStringLimit {
    /// The limit.
    pub fn get() -> (limit: u32)
        ensures
            limit == 500,
    {
        500
    }
}

/// The number of properties that can be in the game.
#[derive(Clone, Copy, PartialEq, Eq, Structural, Debug)]
pub struct MaxProperties;

impl MaxProperties {
    /// The limit.
    pub fn get() -> (limit: u32)
        ensures
            limit == 100,
    {
        100
    }
}

} // verus!
