//! Shares and factors that governance and fees go by.

use crate::ratio::{
    percent_from_percent, permill_from_percent, permill_from_perthousand, Percent, Permill,
};
use vstd::prelude::*;

verus! {

/// How many times more an operational transaction pays for its priority.
pub struct OperationalFeeMultiplier;

impl OperationalFeeMultiplier {
    /// The multiplier.
    pub fn get() -> (multiplier: u8)
        ensures
            multiplier == 5,
    {
        5
    }
}

/// The share of a treasury proposal that is bonded: a twentieth.
pub struct ProposalBond;

impl ProposalBond {
    /// The share.
    pub fn get() -> (share: Permill)
        ensures
            share.parts == 50_000,
    {
        permill_from_percent(5)
    }
}

/// The rate at which unspent treasury funds can be burnt: two thousandths.
pub struct Burn;

impl Burn {
    /// The share.
    pub fn get() -> (share: Permill)
        ensures
            share.parts == 2_000,
    {
        permill_from_perthousand(2)
    }
}

/// The share of votes that passes a proposal of property governance.
pub struct VotingThreshold;

impl VotingThreshold {
    /// The share.
    pub fn get() -> (share: Percent)
        ensures
            share.parts == 51,
    {
        percent_from_percent(51)
    }
}

/// The share of votes that passes a proposal of property governance over a high
/// amount.
pub struct HighVotingThreshold;

impl HighVotingThreshold {
    /// The share.
    pub fn get() -> (share: Percent)
        ensures
            share.parts == 67,
    {
        percent_from_percent(67)
    }
}

} // verus!
