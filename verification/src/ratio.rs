//! Fixed-point fractions of one.

use crate::weight::Weight;
use frame_support::weights::Weight as FrameWeight;
use vstd::prelude::*;

verus! {

/// Parts of a billion that make up one.
pub const BILLION: u32 = 1_000_000_000;

/// A fraction of one in parts per billion.
#[derive(Clone, Copy, PartialEq, Eq, Structural, Debug)]
pub struct Perbill {
    pub parts: u32,
}

/// A fraction of one in parts per million.
#[derive(Clone, Copy, PartialEq, Eq, Structural, Debug)]
pub struct Permill {
    pub parts: u32,
}

/// A fraction of one in parts per hundred.
#[derive(Clone, Copy, PartialEq, Eq, Structural, Debug)]
pub struct Percent {
    pub parts: u8,
}

/// `parts` billionths of `whole`, rounded to the nearest integer; a half is
/// rounded down.
pub open spec fn billionths_of(parts: nat, whole: nat) -> nat {
    let product = parts * whole;
    let floor = product / (BILLION as nat);
    if product % (BILLION as nat) > (BILLION as nat) / 2 {
        floor + 1
    } else {
        floor
    }
}

impl Perbill {
    /// A fraction is at most one.
    pub open spec fn wf(self) -> bool {
        self.parts <= BILLION
    }

    /// The share of `weight` that this fraction stands for.
    pub open spec fn share_of(self, weight: Weight) -> Weight {
        Weight {
            ref_time: billionths_of(self.parts as nat, weight.ref_time as nat) as u64,
            proof_size: billionths_of(self.parts as nat, weight.proof_size as nat) as u64,
        }
    }
}

/// A share of a whole is no more than the whole.
pub proof fn lemma_billionths_bounded(parts: nat, whole: nat)
    requires
        parts <= BILLION,
    ensures
        billionths_of(parts, whole) <= whole,
{
    let product = parts * whole;
    let billion = BILLION as nat;
    if parts == BILLION {
        assert(product / billion == whole && product % billion == 0) by (nonlinear_arith)
            requires
                product == billion * whole,
                billion == 1_000_000_000,
        ;
    } else if whole > 0 {
        assert(product < billion * whole) by (nonlinear_arith)
            requires
                product == parts * whole,
                parts < billion,
                whole > 0,
        ;
        assert(product / billion < whole) by (nonlinear_arith)
            requires
                product < billion * whole,
                billion == 1_000_000_000,
        ;
    } else {
        assert(product == 0) by (nonlinear_arith)
            requires
                product == parts * whole,
                whole == 0,
        ;
    }
}

/// A share is the integer nearest to the exact product, and of two that are
/// equally near the lower one.
pub proof fn lemma_billionths_nearest(parts: nat, whole: nat, value: nat)
    ensures
        value == billionths_of(parts, whole) <==> -1_000_000_000 <= 2 * (1_000_000_000 * value
            - parts * whole) < 1_000_000_000,
{
}

/// A share of a weight is no more than the weight.
pub proof fn lemma_share_bounded(ratio: Perbill, weight: Weight)
    requires
        ratio.wf(),
    ensures
        ratio.share_of(weight).all_lte(weight),
        ratio.share_of(weight).ref_time == billionths_of(
            ratio.parts as nat,
            weight.ref_time as nat,
        ),
        ratio.share_of(weight).proof_size == billionths_of(
            ratio.parts as nat,
            weight.proof_size as nat,
        ),
{
    lemma_billionths_bounded(ratio.parts as nat, weight.ref_time as nat);
    lemma_billionths_bounded(ratio.parts as nat, weight.proof_size as nat);
}

/// `sp_runtime::Perbill::from_percent`: the fraction that a percentage stands
/// for; a percentage above a hundred counts as a hundred.
#[verifier::external_body]
pub(crate) fn perbill_from_percent(percent: u32) -> (ratio: Perbill)
    ensures
        ratio.parts == 10_000_000 * if percent <= 100 { percent as int } else { 100 },
{
    Perbill { parts: sp_runtime::Perbill::from_percent(percent).deconstruct() }
}

/// `sp_runtime::Permill::from_percent`: the fraction that a percentage stands
/// for; a percentage above a hundred counts as a hundred.
#[verifier::external_body]
pub(crate) fn permill_from_percent(percent: u32) -> (ratio: Permill)
    ensures
        ratio.parts == 10_000 * if percent <= 100 { percent as int } else { 100 },
{
    Permill { parts: sp_runtime::Permill::from_percent(percent).deconstruct() }
}

/// `sp_runtime::Permill::from_perthousand`: the fraction that a number of
/// thousandths stands for; more than a thousand count as a thousand.
#[verifier::external_body]
pub(crate) fn permill_from_perthousand(thousandths: u32) -> (ratio: Permill)
    ensures
        ratio.parts == 1_000 * if thousandths <= 1_000 { thousandths as int } else { 1_000 },
{
    Permill { parts: sp_runtime::Permill::from_perthousand(thousandths).deconstruct() }
}

/// `sp_runtime::Percent::from_percent`: the fraction that a percentage stands
/// for; a percentage above a hundred counts as a hundred.
#[verifier::external_body]
pub(crate) fn percent_from_percent(percent: u8) -> (ratio: Percent)
    ensures
        ratio.parts == if percent <= 100 { percent as int } else { 100 },
{
    Percent { parts: sp_runtime::Percent::from_percent(percent).deconstruct() }
}

/// `sp_runtime::Perbill * frame_support::weights::Weight`: the share of both
/// dimensions, each rounded to the nearest integer and a half rounded down.
#[verifier::external_body]
pub(crate) fn perbill_of_weight(ratio: Perbill, weight: Weight) -> (share: Weight)
    requires
        ratio.wf(),
    ensures
        share.ref_time == billionths_of(ratio.parts as nat, weight.ref_time as nat),
        share.proof_size == billionths_of(ratio.parts as nat, weight.proof_size as nat),
{
    let share = sp_runtime::Perbill::from_parts(ratio.parts)
        * FrameWeight::from_parts(weight.ref_time, weight.proof_size);
    Weight { ref_time: share.ref_time(), proof_size: share.proof_size() }
}

} // verus!
