//! Two-dimensional weights: computation time and proof size.

use frame_support::weights::Weight as FrameWeight;
use vstd::prelude::*;

verus! {

/// How much of a block something takes, in both of the dimensions that a
/// parachain block is limited in.
#[derive(Clone, Copy, PartialEq, Eq, Structural, Debug)]
pub struct Weight {
    /// Computation time on the reference hardware, in picoseconds.
    pub ref_time: u64,
    /// Size of the storage proof, in bytes.
    pub proof_size: u64,
}

impl Weight {
    /// The weight of nothing.
    pub open spec fn spec_zero() -> Weight {
        Weight { ref_time: 0, proof_size: 0 }
    }

    /// The largest weight there is.
    pub open spec fn spec_max_value() -> Weight {
        Weight { ref_time: u64::MAX, proof_size: u64::MAX }
    }

    /// Strictly above `other` in both dimensions.
    pub open spec fn all_gt(self, other: Weight) -> bool {
        self.ref_time > other.ref_time && self.proof_size > other.proof_size
    }

    /// At most `other` in both dimensions.
    pub open spec fn all_lte(self, other: Weight) -> bool {
        self.ref_time <= other.ref_time && self.proof_size <= other.proof_size
    }

    /// Strictly above the sum of `a` and `b` in both dimensions.
    pub open spec fn exceeds_sum(self, a: Weight, b: Weight) -> bool {
        self.ref_time > a.ref_time + b.ref_time && self.proof_size > a.proof_size + b.proof_size
    }

    /// `self` is the sum of `a` and `b` in both dimensions.
    pub open spec fn is_sum(self, a: Weight, b: Weight) -> bool {
        self.ref_time == a.ref_time + b.ref_time && self.proof_size == a.proof_size + b.proof_size
    }

    /// The larger of the two weights, dimension by dimension.
    pub open spec fn spec_max(self, other: Weight) -> Weight {
        Weight {
            ref_time: if self.ref_time >= other.ref_time { self.ref_time } else { other.ref_time },
            proof_size: if self.proof_size >= other.proof_size {
                self.proof_size
            } else {
                other.proof_size
            },
        }
    }

    /// What is left of `self` without `other`, and nothing where `other` is larger.
    pub open spec fn less(self, other: Weight) -> Weight {
        Weight {
            ref_time: if self.ref_time >= other.ref_time {
                (self.ref_time - other.ref_time) as u64
            } else {
                0
            },
            proof_size: if self.proof_size >= other.proof_size {
                (self.proof_size - other.proof_size) as u64
            } else {
                0
            },
        }
    }

    /// Takes `other` away from `self`.
    pub fn minus(self, other: Weight) -> (rest: Weight)
        requires
            other.all_lte(self),
        ensures
            self.is_sum(rest, other),
            rest.ref_time == self.ref_time - other.ref_time,
            rest.proof_size == self.proof_size - other.proof_size,
    {
        Weight {
            ref_time: self.ref_time - other.ref_time,
            proof_size: self.proof_size - other.proof_size,
        }
    }
}

/// `frame_support::weights::Weight::saturating_div`: divides both dimensions by
/// `scalar` and rounds down. It panics on a zero scalar.
#[verifier::external_body]
pub(crate) fn saturating_div(weight: Weight, scalar: u64) -> (quotient: Weight)
    requires
        scalar > 0,
    ensures
        quotient.ref_time == weight.ref_time as int / scalar as int,
        quotient.proof_size == weight.proof_size as int / scalar as int,
{
    let weight = FrameWeight::from_parts(weight.ref_time, weight.proof_size);
    let quotient = weight.saturating_div(scalar);
    Weight { ref_time: quotient.ref_time(), proof_size: quotient.proof_size() }
}

} // verus!
