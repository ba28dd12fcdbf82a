//! What a block of the chain can hold, and the shares of it that are set aside.

use crate::dispatch::{
    build, max_with_normal_ratio, new_builder, set_base_block, set_base_extrinsic, set_init_cost,
    set_max_total, set_reserved, BlockLength, BlockWeights, DispatchClass, PerDispatchClass,
    WeightsPerClass,
};
use crate::ratio::{perbill_from_percent, perbill_of_weight, Perbill, BILLION};
use crate::weight::{saturating_div, Weight};
use vstd::prelude::*;

verus! {

/// The constants of the chain that its block limits derive from.
#[derive(Clone, Copy, PartialEq, Eq, Structural, Debug)]
pub struct BlockConstants {
    /// The weight that a block is limited to.
    pub maximum_block_weight: Weight,
    /// The length that a block is limited to, in bytes.
    pub max_block_length: u32,
    /// The share of a block that normal extrinsics may take.
    pub normal_dispatch_ratio: Perbill,
    /// The share of a block that its initialization takes on average.
    pub average_on_initialize_ratio: Perbill,
    /// The weight of an empty block.
    pub block_execution_weight: Weight,
    /// The weight of an extrinsic that does nothing.
    pub extrinsic_base_weight: Weight,
}

impl BlockConstants {
    /// The ratios are at most one.
    pub open spec fn wf(self) -> bool {
        &&& self.normal_dispatch_ratio.wf()
        &&& self.average_on_initialize_ratio.wf()
    }

    /// What normal extrinsics may take of a block.
    pub open spec fn normal_weight(self) -> Weight {
        self.normal_dispatch_ratio.share_of(self.maximum_block_weight)
    }

    /// What the initialization of a block takes on average.
    pub open spec fn initialization_weight(self) -> Weight {
        self.average_on_initialize_ratio.share_of(self.maximum_block_weight)
    }

    /// What one extrinsic may weigh at most where its class may take `total` of
    /// a block.
    pub open spec fn extrinsic_room(self, total: Weight) -> Weight {
        total.less(self.initialization_weight()).less(self.extrinsic_base_weight)
    }
}

/// The weight limits of a block.
///
/// Normal extrinsics take at most the normal share of a block. Operational ones
/// may take all of it, and what is above the normal share is reserved for them,
/// so that they are included even if the block is full. Mandatory ones are not
/// limited.
pub struct RuntimeBlockWeights;

impl RuntimeBlockWeights {
    /// The limits that follow from the constants of the chain.
    pub open spec fn limits(constants: BlockConstants) -> BlockWeights {
        let whole = constants.maximum_block_weight;
        let normal = constants.normal_weight();
        let base = constants.extrinsic_base_weight;
        BlockWeights {
            base_block: constants.block_execution_weight,
            max_block: whole,
            per_class: PerDispatchClass {
                normal: WeightsPerClass {
                    base_extrinsic: base,
                    max_extrinsic: Some(constants.extrinsic_room(normal)),
                    max_total: Some(normal),
                    reserved: Some(Weight::spec_zero()),
                },
                operational: WeightsPerClass {
                    base_extrinsic: base,
                    max_extrinsic: Some(constants.extrinsic_room(whole)),
                    max_total: Some(whole),
                    reserved: Some(whole.less(normal)),
                },
                mandatory: WeightsPerClass {
                    base_extrinsic: base,
                    max_extrinsic: None,
                    max_total: None,
                    reserved: None,
                },
            },
        }
    }

    /// A block can be set up with these constants.
    pub open spec fn defined(constants: BlockConstants) -> bool {
        constants.wf() && Self::limits(constants).valid()
    }

    /// The weight limits of a block, or `None` where the constants contradict each
    /// other.
    pub fn checked(constants: &BlockConstants) -> (weights: Option<BlockWeights>)
        ensures
            weights is Some <==> Self::defined(*constants),
            weights is Some ==> weights->0 == Self::limits(*constants),
            weights is Some ==> -1_000_000_000 <= 2 * (1_000_000_000
                * weights->0.per_class.normal.max_total->0.ref_time
                - constants.normal_dispatch_ratio.parts * constants.maximum_block_weight.ref_time)
                < 1_000_000_000,
            weights is Some ==> -1_000_000_000 <= 2 * (1_000_000_000
                * weights->0.per_class.normal.max_total->0.proof_size
                - constants.normal_dispatch_ratio.parts
                * constants.maximum_block_weight.proof_size) < 1_000_000_000,
    {
        let whole = constants.maximum_block_weight;
        let base_block = constants.block_execution_weight;
        let base_extrinsic = constants.extrinsic_base_weight;
        if constants.normal_dispatch_ratio.parts > BILLION
            || constants.average_on_initialize_ratio.parts > BILLION {
            return None;
        }
        if base_extrinsic.ref_time > u64::MAX - base_block.ref_time
            || base_extrinsic.proof_size > u64::MAX - base_block.proof_size {
            return None;
        }
        let normal = perbill_of_weight(constants.normal_dispatch_ratio, whole);
        proof {
            crate::ratio::lemma_share_bounded(constants.normal_dispatch_ratio, whole);
            law_normal_total_is_the_ratio_of_the_block(*constants);
        }
        let builder = set_base_block(new_builder(), base_block);
        let builder = set_base_extrinsic(builder, DispatchClass::Normal, base_extrinsic);
        let builder = set_base_extrinsic(builder, DispatchClass::Operational, base_extrinsic);
        let builder = set_base_extrinsic(builder, DispatchClass::Mandatory, base_extrinsic);
        let builder = set_max_total(builder, DispatchClass::Normal, normal);
        let builder = set_max_total(builder, DispatchClass::Operational, whole);
        let builder = set_reserved(builder, DispatchClass::Operational, whole.minus(normal));
        let builder = set_init_cost(builder, constants.average_on_initialize_ratio);
        build(builder)
    }

    /// The weight limits of a block.
    pub fn get(constants: &BlockConstants) -> (weights: BlockWeights)
        requires
            Self::defined(*constants),
        ensures
            weights == Self::limits(*constants),
            -1_000_000_000 <= 2 * (1_000_000_000
                * weights.per_class.normal.max_total->0.ref_time
                - constants.normal_dispatch_ratio.parts * constants.maximum_block_weight.ref_time)
                < 1_000_000_000,
            -1_000_000_000 <= 2 * (1_000_000_000
                * weights.per_class.normal.max_total->0.proof_size
                - constants.normal_dispatch_ratio.parts
                * constants.maximum_block_weight.proof_size) < 1_000_000_000,
    {
        Self::checked(constants).unwrap()
    }
}

/// The length limits of a block.
pub struct RuntimeBlockLength;

impl RuntimeBlockLength {
    /// The bytes that normal extrinsics may take: the normal share of a block.
    pub open spec fn normal_length(constants: BlockConstants) -> nat {
        crate::ratio::billionths_of(
            constants.normal_dispatch_ratio.parts as nat,
            constants.max_block_length as nat,
        )
    }

    /// The length limits of a block: normal extrinsics may take the normal share
    /// of it, all others may take the whole.
    pub fn get(constants: &BlockConstants) -> (length: BlockLength)
        requires
            constants.normal_dispatch_ratio.wf(),
        ensures
            length.max.normal == Self::normal_length(*constants),
            length.max.operational == constants.max_block_length,
            length.max.mandatory == constants.max_block_length,
            -1_000_000_000 <= 2 * (1_000_000_000 * length.max.normal
                - constants.normal_dispatch_ratio.parts * constants.max_block_length)
                < 1_000_000_000,
    {
        proof {
            law_normal_length_is_the_ratio_of_the_block(*constants);
        }
        max_with_normal_ratio(constants.max_block_length, constants.normal_dispatch_ratio)
    }
}

/// The bytes of normal extrinsics are the normal ratio of the bytes of a block,
/// to within one half: they are the nearest integer, the lower one of two.
pub proof fn law_normal_length_is_the_ratio_of_the_block(constants: BlockConstants)
    ensures
        -1_000_000_000 <= 2 * (1_000_000_000 * RuntimeBlockLength::normal_length(constants)
            - constants.normal_dispatch_ratio.parts * constants.max_block_length) < 1_000_000_000,
{
    crate::ratio::lemma_billionths_nearest(
        constants.normal_dispatch_ratio.parts as nat,
        constants.max_block_length as nat,
        RuntimeBlockLength::normal_length(constants),
    );
}

/// A ratio and its complement share the bytes of a block out: they add up to all
/// of it, but for a half that is rounded down on both sides.
pub proof fn law_complementary_lengths_fill_the_block(a: BlockConstants, b: BlockConstants)
    requires
        a.max_block_length == b.max_block_length,
        a.normal_dispatch_ratio.parts + b.normal_dispatch_ratio.parts == 1_000_000_000,
    ensures
        RuntimeBlockLength::normal_length(a) + RuntimeBlockLength::normal_length(b)
            <= a.max_block_length <= RuntimeBlockLength::normal_length(a)
            + RuntimeBlockLength::normal_length(b) + 1,
{
    let whole = a.max_block_length;
    let (p, q) = (a.normal_dispatch_ratio.parts, b.normal_dispatch_ratio.parts);
    law_normal_length_is_the_ratio_of_the_block(a);
    law_normal_length_is_the_ratio_of_the_block(b);
    assert(p * whole + q * whole == 1_000_000_000 * whole) by (nonlinear_arith)
        requires
            p + q == 1_000_000_000,
    ;
}

/// Normal extrinsics are never given more bytes than a block has.
pub proof fn law_normal_length_fits_the_block(constants: BlockConstants)
    requires
        constants.normal_dispatch_ratio.wf(),
    ensures
        RuntimeBlockLength::normal_length(constants) <= constants.max_block_length,
{
    crate::ratio::lemma_billionths_bounded(
        constants.normal_dispatch_ratio.parts as nat,
        constants.max_block_length as nat,
    );
}

/// What the scheduler may take of a block: four fifths.
pub struct MaximumSchedulerWeight;

impl MaximumSchedulerWeight {
    /// The weight that the scheduler may take of a block.
    pub open spec fn weight(constants: BlockConstants) -> Weight {
        (Perbill { parts: 800_000_000 }).share_of(constants.maximum_block_weight)
    }

    /// The weight that the scheduler may take of a block.
    pub fn get(constants: &BlockConstants) -> (weight: Weight)
        requires
            RuntimeBlockWeights::defined(*constants),
        ensures
            weight == Self::weight(*constants),
            -100 <= 2 * (100 * weight.ref_time - 80 * constants.maximum_block_weight.ref_time)
                < 100,
            -100 <= 2 * (100 * weight.proof_size - 80
                * constants.maximum_block_weight.proof_size) < 100,
    {
        let whole = RuntimeBlockWeights::get(constants).max_block;
        let share = perbill_from_percent(80);
        proof {
            crate::ratio::lemma_share_bounded(share, whole);
            law_service_weights_are_hundredths_of_the_block(*constants);
        }
        perbill_of_weight(share, whole)
    }
}

/// What the message queue may take of a block: seven twentieths.
pub struct MessageQueueServiceWeight;

impl MessageQueueServiceWeight {
    /// The weight that the message queue may take of a block.
    pub open spec fn weight(constants: BlockConstants) -> Weight {
        (Perbill { parts: 350_000_000 }).share_of(constants.maximum_block_weight)
    }

    /// The weight that the message queue may take of a block.
    pub fn get(constants: &BlockConstants) -> (weight: Weight)
        requires
            RuntimeBlockWeights::defined(*constants),
        ensures
            weight == Self::weight(*constants),
            -100 <= 2 * (100 * weight.ref_time - 35 * constants.maximum_block_weight.ref_time)
                < 100,
            -100 <= 2 * (100 * weight.proof_size - 35
                * constants.maximum_block_weight.proof_size) < 100,
    {
        let whole = RuntimeBlockWeights::get(constants).max_block;
        let share = perbill_from_percent(35);
        proof {
            crate::ratio::lemma_share_bounded(share, whole);
            law_service_weights_are_hundredths_of_the_block(*constants);
        }
        perbill_of_weight(share, whole)
    }
}

/// The scheduler is given 80 and the message queue 35 hundredths of a block, in
/// both dimensions and to within one half: the nearest integer, the lower one of
/// two.
pub proof fn law_service_weights_are_hundredths_of_the_block(constants: BlockConstants)
    ensures
        ({
            let whole = constants.maximum_block_weight;
            let scheduler = MaximumSchedulerWeight::weight(constants);
            let queue = MessageQueueServiceWeight::weight(constants);
            &&& -100 <= 2 * (100 * scheduler.ref_time - 80 * whole.ref_time) < 100
            &&& -100 <= 2 * (100 * scheduler.proof_size - 80 * whole.proof_size) < 100
            &&& -100 <= 2 * (100 * queue.ref_time - 35 * whole.ref_time) < 100
            &&& -100 <= 2 * (100 * queue.proof_size - 35 * whole.proof_size) < 100
        }),
{
    crate::ratio::lemma_share_bounded(
        Perbill { parts: 800_000_000 },
        constants.maximum_block_weight,
    );
    crate::ratio::lemma_share_bounded(
        Perbill { parts: 350_000_000 },
        constants.maximum_block_weight,
    );
}

/// A quarter of `weight`, rounded down.
pub open spec fn quarter(weight: Weight) -> Weight {
    Weight { ref_time: weight.ref_time / 4, proof_size: weight.proof_size / 4 }
}

/// Four quarters are the whole, but for at most three that are left over in each
/// dimension.
pub proof fn law_quarters_make_up_the_whole(weight: Weight)
    ensures
        4 * quarter(weight).ref_time <= weight.ref_time < 4 * quarter(weight).ref_time + 4,
        4 * quarter(weight).proof_size <= weight.proof_size < 4 * quarter(weight).proof_size + 4,
{
}

/// What is set aside for messages from sibling chains.
pub struct ReservedXcmpWeight;

impl ReservedXcmpWeight {
    /// A quarter of a block.
    pub fn get(constants: &BlockConstants) -> (weight: Weight)
        ensures
            weight == quarter(constants.maximum_block_weight),
            4 * weight.ref_time <= constants.maximum_block_weight.ref_time < 4 * weight.ref_time
                + 4,
            4 * weight.proof_size <= constants.maximum_block_weight.proof_size < 4
                * weight.proof_size + 4,
    {
        saturating_div(constants.maximum_block_weight, 4)
    }
}

/// What is set aside for messages from the relay chain.
pub struct ReservedDmpWeight;

impl ReservedDmpWeight {
    /// A quarter of a block.
    pub fn get(constants: &BlockConstants) -> (weight: Weight)
        ensures
            weight == quarter(constants.maximum_block_weight),
            4 * weight.ref_time <= constants.maximum_block_weight.ref_time < 4 * weight.ref_time
                + 4,
            4 * weight.proof_size <= constants.maximum_block_weight.proof_size < 4
                * weight.proof_size + 4,
    {
        saturating_div(constants.maximum_block_weight, 4)
    }
}

/// Normal extrinsics and the space reserved for operational ones make up a
/// block: whatever the ratio, nothing of it is lost and nothing counted twice.
pub proof fn law_normal_share_and_reserve_fill_the_block(constants: BlockConstants)
    requires
        constants.normal_dispatch_ratio.wf(),
    ensures
        RuntimeBlockWeights::limits(constants).max_block.is_sum(
            RuntimeBlockWeights::limits(constants).per_class.normal.max_total->0,
            RuntimeBlockWeights::limits(constants).per_class.operational.reserved->0,
        ),
{
    crate::ratio::lemma_share_bounded(
        constants.normal_dispatch_ratio,
        constants.maximum_block_weight,
    );
}

/// A block can be set up exactly if an average block has room for a normal
/// extrinsic, the normal share is above the cost of an empty block, a block has
/// room for an extrinsic on top of its own cost, and the reserve of operational
/// extrinsics is empty or has room for one.
pub proof fn law_block_weights_defined(constants: BlockConstants)
    requires
        constants.wf(),
    ensures
        RuntimeBlockWeights::defined(constants) <==> {
            let whole = constants.maximum_block_weight;
            let normal = constants.normal_weight();
            let base = constants.extrinsic_base_weight;
            &&& normal.exceeds_sum(constants.initialization_weight(), base)
            &&& normal.all_gt(constants.block_execution_weight)
            &&& whole.exceeds_sum(base, constants.block_execution_weight)
            &&& normal == whole || whole.less(normal).all_gt(base)
        },
{
    crate::ratio::lemma_share_bounded(
        constants.normal_dispatch_ratio,
        constants.maximum_block_weight,
    );
    crate::ratio::lemma_share_bounded(
        constants.average_on_initialize_ratio,
        constants.maximum_block_weight,
    );
}

/// The total of normal extrinsics is the normal ratio of the weight of a block, in
/// both dimensions and to within one half: the nearest integer, the lower one of
/// two.
pub proof fn law_normal_total_is_the_ratio_of_the_block(constants: BlockConstants)
    requires
        constants.normal_dispatch_ratio.parts <= 1_000_000_000,
    ensures
        ({
            let total = RuntimeBlockWeights::limits(constants).per_class.normal.max_total;
            let parts = constants.normal_dispatch_ratio.parts;
            let whole = constants.maximum_block_weight;
            &&& total is Some
            &&& -1_000_000_000 <= 2 * (1_000_000_000 * total->0.ref_time - parts
                * whole.ref_time) < 1_000_000_000
            &&& -1_000_000_000 <= 2 * (1_000_000_000 * total->0.proof_size - parts
                * whole.proof_size) < 1_000_000_000
        }),
{
    let ratio = constants.normal_dispatch_ratio;
    let whole = constants.maximum_block_weight;
    let share = ratio.share_of(whole);
    let parts = ratio.parts as nat;
    crate::ratio::lemma_share_bounded(ratio, whole);
    crate::ratio::lemma_billionths_nearest(parts, whole.ref_time as nat, share.ref_time as nat);
    crate::ratio::lemma_billionths_nearest(parts, whole.proof_size as nat, share.proof_size as nat);
}

/// Twice the weight of a block is twice the total of normal extrinsics, to within
/// rounding.
pub proof fn law_normal_total_grows_with_the_block(a: BlockConstants, b: BlockConstants)
    requires
        a.normal_dispatch_ratio.parts <= 1_000_000_000,
        b.normal_dispatch_ratio.parts == a.normal_dispatch_ratio.parts,
        b.maximum_block_weight.ref_time == 2 * a.maximum_block_weight.ref_time,
        b.maximum_block_weight.proof_size == 2 * a.maximum_block_weight.proof_size,
    ensures
        ({
            let once = RuntimeBlockWeights::limits(a).per_class.normal.max_total->0;
            let twice = RuntimeBlockWeights::limits(b).per_class.normal.max_total->0;
            &&& -1 <= twice.ref_time - 2 * once.ref_time <= 1
            &&& -1 <= twice.proof_size - 2 * once.proof_size <= 1
        }),
{
    law_normal_total_is_the_ratio_of_the_block(a);
    law_normal_total_is_the_ratio_of_the_block(b);
    let parts = a.normal_dispatch_ratio.parts;
    let (time, size) = (a.maximum_block_weight.ref_time, a.maximum_block_weight.proof_size);
    assert(parts * (2 * time) == 2 * (parts * time)) by (nonlinear_arith);
    assert(parts * (2 * size) == 2 * (parts * size)) by (nonlinear_arith);
}

/// What a class is given is what the constants say: base costs as they are, all
/// of the block for operational extrinsics and what is above the normal total in
/// reserve for them, no reserve for normal extrinsics and no limit for mandatory
/// ones.
pub proof fn law_classes_are_limited_by_the_constants(constants: BlockConstants)
    requires
        constants.normal_dispatch_ratio.parts <= 1_000_000_000,
    ensures
        ({
            let limits = RuntimeBlockWeights::limits(constants);
            let whole = constants.maximum_block_weight;
            let normal = limits.per_class.normal;
            let operational = limits.per_class.operational;
            let mandatory = limits.per_class.mandatory;
            &&& limits.base_block == constants.block_execution_weight
            &&& limits.max_block == whole
            &&& normal.base_extrinsic == constants.extrinsic_base_weight
            &&& operational.base_extrinsic == constants.extrinsic_base_weight
            &&& mandatory.base_extrinsic == constants.extrinsic_base_weight
            &&& normal.reserved == Some(Weight { ref_time: 0, proof_size: 0 })
            &&& operational.max_total == Some(whole)
            &&& operational.reserved is Some
            &&& normal.max_total->0.ref_time + operational.reserved->0.ref_time == whole.ref_time
            &&& normal.max_total->0.proof_size + operational.reserved->0.proof_size
                == whole.proof_size
            &&& mandatory.max_extrinsic is None
            &&& mandatory.max_total is None
            &&& mandatory.reserved is None
        }),
{
    crate::ratio::lemma_share_bounded(
        constants.normal_dispatch_ratio,
        constants.maximum_block_weight,
    );
}

/// A block can be set up exactly if, with `normal` the normal ratio and `start` the
/// initialization ratio of a block to the nearest integer, the following holds in
/// both dimensions: a normal extrinsic and the initialization fit into `normal`, an
/// empty block takes less than `normal`, an extrinsic fits into a block on top of
/// its own cost, and what is left above `normal` is nothing or has room for an
/// extrinsic.
///
/// Then the largest extrinsic of a class, its base cost and `start` make up the
/// total of the class.
pub proof fn law_block_weights_by_arithmetic(
    constants: BlockConstants,
    normal: Weight,
    start: Weight,
)
    requires
        constants.normal_dispatch_ratio.parts <= 1_000_000_000,
        constants.average_on_initialize_ratio.parts <= 1_000_000_000,
        -1_000_000_000 <= 2 * (1_000_000_000 * normal.ref_time
            - constants.normal_dispatch_ratio.parts * constants.maximum_block_weight.ref_time)
            < 1_000_000_000,
        -1_000_000_000 <= 2 * (1_000_000_000 * normal.proof_size
            - constants.normal_dispatch_ratio.parts * constants.maximum_block_weight.proof_size)
            < 1_000_000_000,
        -1_000_000_000 <= 2 * (1_000_000_000 * start.ref_time
            - constants.average_on_initialize_ratio.parts
            * constants.maximum_block_weight.ref_time) < 1_000_000_000,
        -1_000_000_000 <= 2 * (1_000_000_000 * start.proof_size
            - constants.average_on_initialize_ratio.parts
            * constants.maximum_block_weight.proof_size) < 1_000_000_000,
    ensures
        RuntimeBlockWeights::defined(constants) <==> {
            let whole = constants.maximum_block_weight;
            let empty = constants.block_execution_weight;
            let base = constants.extrinsic_base_weight;
            &&& start.ref_time + base.ref_time < normal.ref_time
            &&& start.proof_size + base.proof_size < normal.proof_size
            &&& empty.ref_time < normal.ref_time
            &&& empty.proof_size < normal.proof_size
            &&& empty.ref_time + base.ref_time < whole.ref_time
            &&& empty.proof_size + base.proof_size < whole.proof_size
            &&& {
                ||| whole == normal
                ||| {
                    &&& base.ref_time < whole.ref_time - normal.ref_time
                    &&& base.proof_size < whole.proof_size - normal.proof_size
                }
            }
        },
        RuntimeBlockWeights::defined(constants) ==> {
            let whole = constants.maximum_block_weight;
            let base = constants.extrinsic_base_weight;
            let per_class = RuntimeBlockWeights::limits(constants).per_class;
            &&& per_class.normal.max_total == Some(normal)
            &&& per_class.normal.max_extrinsic is Some
            &&& per_class.normal.max_extrinsic->0.ref_time + base.ref_time + start.ref_time
                == normal.ref_time
            &&& per_class.normal.max_extrinsic->0.proof_size + base.proof_size + start.proof_size
                == normal.proof_size
            &&& per_class.operational.max_extrinsic is Some
            &&& per_class.operational.max_extrinsic->0.ref_time + base.ref_time + start.ref_time
                == whole.ref_time
            &&& per_class.operational.max_extrinsic->0.proof_size + base.proof_size
                + start.proof_size == whole.proof_size
        },
{
    let whole = constants.maximum_block_weight;
    let (ratio, init) = (constants.normal_dispatch_ratio, constants.average_on_initialize_ratio);
    let (time, size) = (whole.ref_time as nat, whole.proof_size as nat);
    crate::ratio::lemma_share_bounded(ratio, whole);
    crate::ratio::lemma_share_bounded(init, whole);
    crate::ratio::lemma_billionths_nearest(ratio.parts as nat, time, normal.ref_time as nat);
    crate::ratio::lemma_billionths_nearest(ratio.parts as nat, size, normal.proof_size as nat);
    crate::ratio::lemma_billionths_nearest(init.parts as nat, time, start.ref_time as nat);
    crate::ratio::lemma_billionths_nearest(init.parts as nat, size, start.proof_size as nat);
    assert(normal == constants.normal_weight());
    assert(start == constants.initialization_weight());
    law_block_weights_defined(constants);
}

/// No block can be set up with a ratio above one.
pub proof fn law_ratios_above_one_are_refused(constants: BlockConstants)
    requires
        constants.normal_dispatch_ratio.parts > 1_000_000_000
            || constants.average_on_initialize_ratio.parts > 1_000_000_000,
    ensures
        !RuntimeBlockWeights::defined(constants),
{
}

/// Neither the scheduler nor the message queue is given more than a block, the
/// scheduler is given at least as much as the message queue, and the messages of
/// the relay chain and of sibling chains are given at most half a block together.
pub proof fn law_set_aside_weights_fit_the_block(constants: BlockConstants)
    ensures
        MaximumSchedulerWeight::weight(constants).all_lte(constants.maximum_block_weight),
        MessageQueueServiceWeight::weight(constants).all_lte(
            MaximumSchedulerWeight::weight(constants),
        ),
        2 * (quarter(constants.maximum_block_weight).ref_time + quarter(
            constants.maximum_block_weight,
        ).ref_time) <= constants.maximum_block_weight.ref_time,
        2 * (quarter(constants.maximum_block_weight).proof_size + quarter(
            constants.maximum_block_weight,
        ).proof_size) <= constants.maximum_block_weight.proof_size,
{
    let whole = constants.maximum_block_weight;
    crate::ratio::lemma_share_bounded(Perbill { parts: 800_000_000 }, whole);
    crate::ratio::lemma_share_bounded(Perbill { parts: 350_000_000 }, whole);
}

} // verus!
