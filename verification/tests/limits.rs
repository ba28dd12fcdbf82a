use runtime_configs::dispatch::{BlockLength, BlockWeights, PerDispatchClass, WeightsPerClass};
use runtime_configs::limits::{
    BlockConstants, MaximumSchedulerWeight, MessageQueueServiceWeight, ReservedDmpWeight,
    ReservedXcmpWeight, RuntimeBlockLength, RuntimeBlockWeights,
};
use runtime_configs::ratio::Perbill;
use runtime_configs::weight::Weight;

fn weight(ref_time: u64, proof_size: u64) -> Weight {
    Weight { ref_time, proof_size }
}

fn constants() -> BlockConstants {
    BlockConstants {
        maximum_block_weight: weight(500_000_000_000, 5_242_880),
        max_block_length: 5_242_880,
        normal_dispatch_ratio: Perbill { parts: 750_000_000 },
        average_on_initialize_ratio: Perbill { parts: 50_000_000 },
        block_execution_weight: weight(453_383_000, 0),
        extrinsic_base_weight: weight(114_756_000, 0),
    }
}

#[test]
fn block_weights_of_a_typical_chain() {
    let base_extrinsic = weight(114_756_000, 0);
    let expected = BlockWeights {
        base_block: weight(453_383_000, 0),
        max_block: weight(500_000_000_000, 5_242_880),
        per_class: PerDispatchClass {
            normal: WeightsPerClass {
                base_extrinsic,
                max_extrinsic: Some(weight(349_885_244_000, 3_670_016)),
                max_total: Some(weight(375_000_000_000, 3_932_160)),
                reserved: Some(weight(0, 0)),
            },
            operational: WeightsPerClass {
                base_extrinsic,
                max_extrinsic: Some(weight(474_885_244_000, 4_980_736)),
                max_total: Some(weight(500_000_000_000, 5_242_880)),
                reserved: Some(weight(125_000_000_000, 1_310_720)),
            },
            mandatory: WeightsPerClass {
                base_extrinsic,
                max_extrinsic: None,
                max_total: None,
                reserved: None,
            },
        },
    };
    assert_eq!(RuntimeBlockWeights::get(&constants()), expected);
    assert_eq!(RuntimeBlockWeights::checked(&constants()), Some(expected));
}

#[test]
fn block_weights_do_not_fall_back_to_reference_costs() {
    let free = BlockConstants {
        block_execution_weight: weight(7, 3),
        extrinsic_base_weight: weight(5, 2),
        ..constants()
    };
    let weights = RuntimeBlockWeights::get(&free);
    assert_eq!(weights.base_block, weight(7, 3));
    assert_eq!(weights.per_class.normal.base_extrinsic, weight(5, 2));
    assert_eq!(weights.per_class.operational.base_extrinsic, weight(5, 2));
    assert_eq!(weights.per_class.mandatory.base_extrinsic, weight(5, 2));
}

#[test]
fn normal_share_and_reserve_fill_the_block() {
    for parts in [500_000_000, 600_000_001, 750_000_000, 1_000_000_000] {
        let chain =
            BlockConstants { normal_dispatch_ratio: Perbill { parts }, ..constants() };
        let weights = RuntimeBlockWeights::get(&chain);
        let normal = weights.per_class.normal.max_total.unwrap();
        let reserved = weights.per_class.operational.reserved.unwrap();
        assert_eq!(normal.ref_time + reserved.ref_time, weights.max_block.ref_time);
        assert_eq!(normal.proof_size + reserved.proof_size, weights.max_block.proof_size);
    }
}

#[test]
fn a_ratio_above_one_is_refused() {
    let normal =
        BlockConstants { normal_dispatch_ratio: Perbill { parts: 1_000_000_001 }, ..constants() };
    assert_eq!(RuntimeBlockWeights::checked(&normal), None);
    let initialize = BlockConstants {
        average_on_initialize_ratio: Perbill { parts: 1_000_000_001 },
        ..constants()
    };
    assert_eq!(RuntimeBlockWeights::checked(&initialize), None);
}

#[test]
fn base_costs_that_overflow_are_refused() {
    let time =
        BlockConstants { block_execution_weight: weight(u64::MAX, 0), ..constants() };
    assert_eq!(RuntimeBlockWeights::checked(&time), None);
    let size = BlockConstants {
        block_execution_weight: weight(0, 1),
        extrinsic_base_weight: weight(0, u64::MAX),
        ..constants()
    };
    assert_eq!(RuntimeBlockWeights::checked(&size), None);
}

#[test]
fn a_block_without_room_for_normal_extrinsics_is_refused() {
    let closed =
        BlockConstants { normal_dispatch_ratio: Perbill { parts: 0 }, ..constants() };
    assert_eq!(RuntimeBlockWeights::checked(&closed), None);
    let busy = BlockConstants {
        average_on_initialize_ratio: Perbill { parts: 750_000_000 },
        ..constants()
    };
    assert_eq!(RuntimeBlockWeights::checked(&busy), None);
    let heavy = BlockConstants {
        block_execution_weight: weight(375_000_000_000, 0),
        ..constants()
    };
    assert_eq!(RuntimeBlockWeights::checked(&heavy), None);
}

#[test]
fn a_reserve_is_empty_or_has_room_for_an_extrinsic() {
    let sliver =
        BlockConstants { normal_dispatch_ratio: Perbill { parts: 999_999_999 }, ..constants() };
    assert_eq!(RuntimeBlockWeights::checked(&sliver), None);
    let none =
        BlockConstants { normal_dispatch_ratio: Perbill { parts: 1_000_000_000 }, ..constants() };
    let weights = RuntimeBlockWeights::checked(&none).unwrap();
    assert_eq!(weights.per_class.operational.reserved, Some(weight(0, 0)));
}

#[test]
fn block_length_of_a_typical_chain() {
    assert_eq!(
        RuntimeBlockLength::get(&constants()),
        BlockLength {
            max: PerDispatchClass {
                normal: 3_932_160,
                operational: 5_242_880,
                mandatory: 5_242_880,
            },
        }
    );
}

#[test]
fn shares_are_rounded_to_the_nearest_and_halves_down() {
    let normal = |parts: u32, max_block_length: u32| {
        let chain = BlockConstants {
            max_block_length,
            normal_dispatch_ratio: Perbill { parts },
            ..constants()
        };
        RuntimeBlockLength::get(&chain).max.normal
    };
    assert_eq!(normal(500_000_000, 3), 1);
    assert_eq!(normal(500_000_000, 5), 2);
    assert_eq!(normal(500_000_001, 3), 2);
    assert_eq!(normal(340_000_000, 10), 3);
    assert_eq!(normal(360_000_000, 10), 4);
    assert_eq!(normal(0, u32::MAX), 0);
    assert_eq!(normal(1_000_000_000, u32::MAX), u32::MAX);
    assert_eq!(normal(999_999_999, u32::MAX), 4_294_967_291);
}

#[test]
fn normal_length_fits_the_block() {
    for parts in [0, 1, 499_999_999, 999_999_999, 1_000_000_000] {
        for max_block_length in [0, 1, 2, 3, u32::MAX] {
            let chain = BlockConstants {
                max_block_length,
                normal_dispatch_ratio: Perbill { parts },
                ..constants()
            };
            assert!(RuntimeBlockLength::get(&chain).max.normal <= max_block_length);
        }
    }
}

#[test]
fn weights_that_are_set_aside() {
    assert_eq!(
        MaximumSchedulerWeight::get(&constants()),
        weight(400_000_000_000, 4_194_304)
    );
    assert_eq!(
        MessageQueueServiceWeight::get(&constants()),
        weight(175_000_000_000, 1_835_008)
    );
    assert_eq!(ReservedXcmpWeight::get(&constants()), weight(125_000_000_000, 1_310_720));
    assert_eq!(ReservedDmpWeight::get(&constants()), weight(125_000_000_000, 1_310_720));
}

#[test]
fn quarters_are_rounded_down() {
    let odd = BlockConstants { maximum_block_weight: weight(7, u64::MAX), ..constants() };
    assert_eq!(ReservedXcmpWeight::get(&odd), weight(1, 4_611_686_018_427_387_903));
    assert_eq!(ReservedDmpWeight::get(&odd), weight(1, 4_611_686_018_427_387_903));
}

#[test]
fn set_aside_weights_fit_the_block() {
    let whole = constants().maximum_block_weight;
    let scheduler = MaximumSchedulerWeight::get(&constants());
    let queue = MessageQueueServiceWeight::get(&constants());
    assert!(queue.ref_time <= scheduler.ref_time && scheduler.ref_time <= whole.ref_time);
    assert!(queue.proof_size <= scheduler.proof_size && scheduler.proof_size <= whole.proof_size);
    let siblings = ReservedXcmpWeight::get(&constants());
    let relay = ReservedDmpWeight::get(&constants());
    assert!(2 * (siblings.ref_time + relay.ref_time) <= whole.ref_time);
    assert!(2 * (siblings.proof_size + relay.proof_size) <= whole.proof_size);
}

#[test]
fn the_rest_of_a_weight() {
    assert_eq!(weight(10, 8).minus(weight(4, 8)), weight(6, 0));
}
