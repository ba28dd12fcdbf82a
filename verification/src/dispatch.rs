//! Dispatch classes and the limits kept for each of them.

use crate::ratio::Perbill;
use crate::weight::Weight;
use frame_support::dispatch::DispatchClass as FrameClass;
use frame_support::weights::Weight as FrameWeight;
use frame_system::limits::{
    BlockLength as FrameBlockLength, BlockWeights as FrameBlockWeights, BlockWeightsBuilder,
};
use vstd::prelude::*;

verus! {

/// The classes that extrinsics are dispatched in.
#[derive(Clone, Copy, PartialEq, Eq, Structural, Debug)]
pub enum DispatchClass {
    /// Ordinary user transactions.
    Normal,
    /// Transactions that keep the chain running.
    Operational,
    /// Inherents, which every block has to hold.
    Mandatory,
}

/// One value for each dispatch class.
#[derive(Clone, Copy, PartialEq, Eq, Structural, Debug)]
pub struct PerDispatchClass<T> {
    pub normal: T,
    pub operational: T,
    pub mandatory: T,
}

impl<T> PerDispatchClass<T> {
    /// The value kept for `class`.
    pub open spec fn at(self, class: DispatchClass) -> T {
        match class {
            DispatchClass::Normal => self.normal,
            DispatchClass::Operational => self.operational,
            DispatchClass::Mandatory => self.mandatory,
        }
    }

    /// The same values, but `value` for `class`.
    pub open spec fn with(self, class: DispatchClass, value: T) -> PerDispatchClass<T> {
        match class {
            DispatchClass::Normal => PerDispatchClass { normal: value, ..self },
            DispatchClass::Operational => PerDispatchClass { operational: value, ..self },
            DispatchClass::Mandatory => PerDispatchClass { mandatory: value, ..self },
        }
    }
}

/// Weight limits of one dispatch class.
#[derive(Clone, Copy, PartialEq, Eq, Structural, Debug)]
pub struct WeightsPerClass {
    /// What every extrinsic of the class costs on top of its own weight.
    pub base_extrinsic: Weight,
    /// The largest single extrinsic, `base_extrinsic` not counted; `None` is no limit.
    pub max_extrinsic: Option<Weight>,
    /// What all extrinsics of the class may take of a block; `None` is no limit.
    pub max_total: Option<Weight>,
    /// What the class may take of a block that is already full; `None` is no limit.
    pub reserved: Option<Weight>,
}

impl WeightsPerClass {
    /// The limits that a builder starts a class with.
    pub open spec fn initial(total: Option<Weight>) -> WeightsPerClass {
        WeightsPerClass {
            base_extrinsic: Weight { ref_time: 124_414_000, proof_size: 0 },
            max_extrinsic: None,
            max_total: total,
            reserved: total,
        }
    }
}

/// Weight limits of a block.
#[derive(Clone, Copy, PartialEq, Eq, Structural, Debug)]
pub struct BlockWeights {
    /// What an empty block costs.
    pub base_block: Weight,
    /// What all extrinsics together may take, reserved space not counted.
    pub max_block: Weight,
    pub per_class: PerDispatchClass<WeightsPerClass>,
}

/// Length limits of a block, in bytes.
#[derive(Clone, Copy, PartialEq, Eq, Structural, Debug)]
pub struct BlockLength {
    /// What the extrinsics of each class may take.
    pub max: PerDispatchClass<u32>,
}

/// `limit`, or the largest weight where there is none.
pub open spec fn or_unlimited(limit: Option<Weight>) -> Weight {
    match limit {
        Some(weight) => weight,
        None => Weight::spec_max_value(),
    }
}

/// `limit`, or no weight where there is none.
pub open spec fn or_nothing(limit: Option<Weight>) -> Weight {
    match limit {
        Some(weight) => weight,
        None => Weight::spec_zero(),
    }
}

impl BlockWeights {
    /// The limits of one class make sense within the limits of the block.
    pub open spec fn class_valid(self, class: WeightsPerClass) -> bool {
        let total = or_unlimited(class.max_total);
        let reserved = or_unlimited(class.reserved);
        let base = class.base_extrinsic;
        // The class is closed, or has room for more than the base costs.
        &&& total == Weight::spec_zero() || (total.all_gt(self.base_block) && total.all_gt(base))
        // A single extrinsic fits the class and is allowed to have a weight.
        &&& or_nothing(class.max_extrinsic).all_lte(total.less(base))
        &&& or_unlimited(class.max_extrinsic).all_gt(Weight::spec_zero())
        // The reserve is empty, or has room for an extrinsic.
        &&& reserved == Weight::spec_zero() || reserved.all_gt(base)
        // The block has room for the class, and for one extrinsic.
        &&& or_nothing(class.max_total).all_lte(self.max_block)
        &&& self.max_block.exceeds_sum(base, self.base_block)
    }

    /// The limits of every class make sense within the limits of the block.
    pub open spec fn valid(self) -> bool {
        &&& self.class_valid(self.per_class.normal)
        &&& self.class_valid(self.per_class.operational)
        &&& self.class_valid(self.per_class.mandatory)
    }
}

/// What has been set so far of the limits of a block.
pub struct BuilderState {
    pub base_block: Weight,
    pub per_class: PerDispatchClass<WeightsPerClass>,
    /// The share of a block that its initialization takes on average.
    pub init_cost: Option<Perbill>,
}

impl BuilderState {
    /// The largest limit that a class has on its total.
    pub open spec fn max_block(self) -> Weight {
        or_nothing(self.per_class.normal.max_total).spec_max(
            or_nothing(self.per_class.operational.max_total),
        ).spec_max(or_nothing(self.per_class.mandatory.max_total))
    }

    /// The limits of `class`; where a single extrinsic has no limit of its own,
    /// it is what an average block has left for the class.
    pub open spec fn finished_class(self, class: WeightsPerClass) -> WeightsPerClass {
        match (self.init_cost, class.max_extrinsic, class.max_total) {
            (Some(ratio), None, Some(total)) => WeightsPerClass {
                max_extrinsic: Some(
                    total.less(ratio.share_of(self.max_block())).less(class.base_extrinsic),
                ),
                ..class
            },
            _ => class,
        }
    }

    /// The limits of a block with everything derived that was not set.
    pub open spec fn finished(self) -> BlockWeights {
        BlockWeights {
            base_block: self.base_block,
            max_block: self.max_block(),
            per_class: PerDispatchClass {
                normal: self.finished_class(self.per_class.normal),
                operational: self.finished_class(self.per_class.operational),
                mandatory: self.finished_class(self.per_class.mandatory),
            },
        }
    }

    /// The base costs of a block with one extrinsic in it can be added up.
    pub open spec fn base_costs_fit(self, class: WeightsPerClass) -> bool {
        &&& class.base_extrinsic.ref_time + self.base_block.ref_time <= u64::MAX
        &&& class.base_extrinsic.proof_size + self.base_block.proof_size <= u64::MAX
    }

    /// The base costs can be added up for every class.
    pub open spec fn all_base_costs_fit(self) -> bool {
        &&& self.base_costs_fit(self.per_class.normal)
        &&& self.base_costs_fit(self.per_class.operational)
        &&& self.base_costs_fit(self.per_class.mandatory)
    }
}

/// `frame_system::limits::BlockWeightsBuilder`, a table of limits by dispatch
/// class that is filled entry by entry.
#[verifier::external_type_specification]
#[verifier::external_body]
pub struct ExBlockWeightsBuilder(BlockWeightsBuilder);

/// What the table of a builder holds, and what was set for the block as a whole.
pub uninterp spec fn builder_state(builder: BlockWeightsBuilder) -> BuilderState;

/// `frame_system::limits::BlockWeights::builder`: a builder in which mandatory
/// extrinsics are not limited and all others are not allowed. Its base costs
/// are the reference values of `frame_support::weights::constants`.
#[verifier::external_body]
pub(crate) fn new_builder() -> (builder: BlockWeightsBuilder)
    ensures
        builder_state(builder) == (BuilderState {
            base_block: Weight { ref_time: 390_584_000, proof_size: 0 },
            per_class: PerDispatchClass {
                normal: WeightsPerClass::initial(Some(Weight::spec_zero())),
                operational: WeightsPerClass::initial(Some(Weight::spec_zero())),
                mandatory: WeightsPerClass::initial(None),
            },
            init_cost: None,
        }),
{
    FrameBlockWeights::builder()
}

/// `BlockWeightsBuilder::base_block`: sets what an empty block costs.
#[verifier::external_body]
pub(crate) fn set_base_block(
    builder: BlockWeightsBuilder,
    weight: Weight,
) -> (next: BlockWeightsBuilder)
    ensures
        builder_state(next) == (BuilderState { base_block: weight, ..builder_state(builder) }),
{
    builder.base_block(FrameWeight::from_parts(weight.ref_time, weight.proof_size))
}

/// `BlockWeightsBuilder::avg_block_initialization`: sets the share of a block
/// that its initialization takes on average.
#[verifier::external_body]
pub(crate) fn set_init_cost(
    builder: BlockWeightsBuilder,
    ratio: Perbill,
) -> (next: BlockWeightsBuilder)
    requires
        ratio.wf(),
    ensures
        builder_state(next) == (BuilderState { init_cost: Some(ratio), ..builder_state(builder) }),
{
    builder.avg_block_initialization(sp_runtime::Perbill::from_parts(ratio.parts))
}

/// `BlockWeightsBuilder::for_class` with an action that assigns `base_extrinsic`: sets
/// what every extrinsic of one class costs and leaves everything else.
#[verifier::external_body]
pub(crate) fn set_base_extrinsic(
    builder: BlockWeightsBuilder,
    class: DispatchClass,
    weight: Weight,
) -> (next: BlockWeightsBuilder)
    ensures
        builder_state(next) == (BuilderState {
            per_class: builder_state(builder).per_class.with(
                class,
                WeightsPerClass {
                    base_extrinsic: weight,
                    ..builder_state(builder).per_class.at(class)
                },
            ),
            ..builder_state(builder)
        }),
{
    let class = match class {
        DispatchClass::Normal => FrameClass::Normal,
        DispatchClass::Operational => FrameClass::Operational,
        DispatchClass::Mandatory => FrameClass::Mandatory,
    };
    let weight = FrameWeight::from_parts(weight.ref_time, weight.proof_size);
    builder.for_class(class, |limits| limits.base_extrinsic = weight)
}

/// `BlockWeightsBuilder::for_class` with an action that assigns `max_total`: sets
/// what all extrinsics of one class may take and leaves everything else.
#[verifier::external_body]
pub(crate) fn set_max_total(
    builder: BlockWeightsBuilder,
    class: DispatchClass,
    weight: Weight,
) -> (next: BlockWeightsBuilder)
    ensures
        builder_state(next) == (BuilderState {
            per_class: builder_state(builder).per_class.with(
                class,
                WeightsPerClass {
                    max_total: Some(weight),
                    ..builder_state(builder).per_class.at(class)
                },
            ),
            ..builder_state(builder)
        }),
{
    let class = match class {
        DispatchClass::Normal => FrameClass::Normal,
        DispatchClass::Operational => FrameClass::Operational,
        DispatchClass::Mandatory => FrameClass::Mandatory,
    };
    let weight = FrameWeight::from_parts(weight.ref_time, weight.proof_size);
    builder.for_class(class, |limits| limits.max_total = Some(weight))
}

/// `BlockWeightsBuilder::for_class` with an action that assigns `reserved`: sets
/// the reserved space of one class and leaves everything else.
#[verifier::external_body]
pub(crate) fn set_reserved(
    builder: BlockWeightsBuilder,
    class: DispatchClass,
    weight: Weight,
) -> (next: BlockWeightsBuilder)
    ensures
        builder_state(next) == (BuilderState {
            per_class: builder_state(builder).per_class.with(
                class,
                WeightsPerClass {
                    reserved: Some(weight),
                    ..builder_state(builder).per_class.at(class)
                },
            ),
            ..builder_state(builder)
        }),
{
    let class = match class {
        DispatchClass::Normal => FrameClass::Normal,
        DispatchClass::Operational => FrameClass::Operational,
        DispatchClass::Mandatory => FrameClass::Mandatory,
    };
    let weight = FrameWeight::from_parts(weight.ref_time, weight.proof_size);
    builder.for_class(class, |limits| limits.reserved = Some(weight))
}

/// `BlockWeightsBuilder::build`: derives the limits that were not set and checks
/// the result; there is one exactly if the limits make sense. It adds the base
/// costs of each class up, which must not overflow.
#[verifier::external_body]
pub(crate) fn build(builder: BlockWeightsBuilder) -> (weights: Option<BlockWeights>)
    requires
        builder_state(builder).all_base_costs_fit(),
    ensures
        weights is Some <==> builder_state(builder).finished().valid(),
        weights is Some ==> weights->0 == builder_state(builder).finished(),
{
    let built = builder.build().ok()?;
    let plain = |w: FrameWeight| Weight { ref_time: w.ref_time(), proof_size: w.proof_size() };
    let class = |class: FrameClass| WeightsPerClass {
        base_extrinsic: plain(built.get(class).base_extrinsic),
        max_extrinsic: built.get(class).max_extrinsic.map(plain),
        max_total: built.get(class).max_total.map(plain),
        reserved: built.get(class).reserved.map(plain),
    };
    let (base_block, max_block) = (plain(built.base_block), plain(built.max_block));
    let normal = class(FrameClass::Normal);
    let operational = class(FrameClass::Operational);
    let mandatory = class(FrameClass::Mandatory);
    let per_class = PerDispatchClass { normal, operational, mandatory };
    Some(BlockWeights { base_block, max_block, per_class })
}

/// `frame_system::limits::BlockLength::max_with_normal_ratio`: normal extrinsics
/// may take their share of `max`, rounded to the nearest integer and a half
/// rounded down; all others may take `max`.
#[verifier::external_body]
pub(crate) fn max_with_normal_ratio(max: u32, normal: Perbill) -> (length: BlockLength)
    requires
        normal.wf(),
    ensures
        length.max.normal == crate::ratio::billionths_of(normal.parts as nat, max as nat),
        length.max.operational == max,
        length.max.mandatory == max,
{
    let length = FrameBlockLength::max_with_normal_ratio(
        max,
        sp_runtime::Perbill::from_parts(normal.parts),
    );
    let normal = *length.max.get(FrameClass::Normal);
    let operational = *length.max.get(FrameClass::Operational);
    let mandatory = *length.max.get(FrameClass::Mandatory);
    BlockLength { max: PerDispatchClass { normal, operational, mandatory } }
}

} // verus!
