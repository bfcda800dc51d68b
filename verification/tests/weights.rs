use lib::weights::frame_system::WeightInfo as SystemWeights;
use lib::weights::pallet_streaming::WeightInfo as StreamingWeights;
use lib::weights::{saturating_add, saturating_mul, RuntimeDbWeight};

const ROCKS_DB: RuntimeDbWeight = RuntimeDbWeight { read: 25_000_000, write: 100_000_000 };

#[test]
fn saturating_mul_multiplies_and_caps() {
    assert_eq!(saturating_mul(847_000, 3), 2_541_000);
    assert_eq!(saturating_mul(0, u64::MAX), 0);
    assert_eq!(saturating_mul(u64::MAX / 2 + 1, 2), u64::MAX);
    assert_eq!(saturating_mul(u64::MAX, u64::MAX), u64::MAX);
}

#[test]
fn saturating_add_adds_and_caps() {
    assert_eq!(saturating_add(1_683_000, 17), 1_683_017);
    assert_eq!(saturating_add(u64::MAX, 1), u64::MAX);
    assert_eq!(saturating_add(u64::MAX - 1, 1), u64::MAX);
}

#[test]
fn db_weight_reads_and_writes() {
    assert_eq!(ROCKS_DB.reads(12), 300_000_000);
    assert_eq!(ROCKS_DB.writes(11), 1_100_000_000);
    assert_eq!(ROCKS_DB.reads(0), 0);
    let huge = RuntimeDbWeight { read: u64::MAX, write: u64::MAX };
    assert_eq!(huge.reads(2), u64::MAX);
    assert_eq!(huge.writes(1), u64::MAX);
}

#[test]
fn system_weights_on_rocks_db() {
    let w = SystemWeights { db_weight: ROCKS_DB };
    assert_eq!(w.remark(0), 1_683_000);
    assert_eq!(w.remark(u32::MAX), 1_683_000);
    assert_eq!(w.remark_with_event(3), 3_000);
    assert_eq!(w.remark_with_event(u32::MAX), 1_000 * u32::MAX as u64);
    assert_eq!(w.set_heap_pages(), 102_418_000);
    assert_eq!(w.set_storage(0), 0);
    assert_eq!(w.set_storage(2), 201_694_000);
    assert_eq!(w.kill_storage(0), 798_000);
    assert_eq!(w.kill_storage(3), 302_727_000);
    assert_eq!(w.kill_prefix(0), 11_012_000);
    assert_eq!(w.kill_prefix(4), 415_348_000);
}

#[test]
fn system_weights_saturate() {
    let w = SystemWeights { db_weight: RuntimeDbWeight { read: 0, write: u64::MAX / 2 + 1 } };
    assert_eq!(w.set_heap_pages(), u64::MAX / 2 + 1 + 2_418_000);
    assert_eq!(w.set_storage(2), u64::MAX);
    assert_eq!(w.kill_storage(2), u64::MAX);
    assert_eq!(w.kill_prefix(u32::MAX), u64::MAX);
    let w = SystemWeights { db_weight: RuntimeDbWeight { read: 0, write: u64::MAX } };
    assert_eq!(w.set_heap_pages(), u64::MAX);
    assert_eq!(w.kill_storage(1), u64::MAX);
    assert_eq!(w.set_storage(0), 0);
}

#[test]
fn system_weights_grow_with_items() {
    let w = SystemWeights { db_weight: ROCKS_DB };
    let mut last = 0;
    for i in [0u32, 1, 2, 10, 1_000, u32::MAX] {
        let k = w.kill_storage(i);
        assert!(k >= last);
        last = k;
    }
    assert_eq!(w.kill_prefix(6) - w.kill_prefix(5), 1_084_000 + 100_000_000);
    assert_eq!(w.set_storage(6) - w.set_storage(5), 847_000 + 100_000_000);
    assert_eq!(w.kill_storage(6) - w.kill_storage(5), 643_000 + 100_000_000);
}

#[test]
fn streaming_weights_on_rocks_db() {
    let w = StreamingWeights { db_weight: ROCKS_DB };
    assert_eq!(w.create(), 1_567_116_000);
    assert_eq!(w.cancel(), 1_200_095_000);
    assert_eq!(w.withdraw(), 908_003_000);
    assert_eq!(w.set_minimum_deposit(), 260_267_000);
}

#[test]
fn streaming_weights_without_storage_cost() {
    let w = StreamingWeights { db_weight: RuntimeDbWeight { read: 0, write: 0 } };
    assert_eq!(w.create(), 167_116_000);
    assert_eq!(w.cancel(), 175_095_000);
    assert_eq!(w.withdraw(), 133_003_000);
    assert_eq!(w.set_minimum_deposit(), 35_267_000);
}

#[test]
fn streaming_weights_saturate() {
    let w = StreamingWeights { db_weight: RuntimeDbWeight { read: u64::MAX / 4, write: 0 } };
    assert_eq!(w.create(), u64::MAX);
    assert_eq!(w.set_minimum_deposit(), u64::MAX / 4 + 35_267_000);
    let w = StreamingWeights { db_weight: RuntimeDbWeight { read: 0, write: u64::MAX / 4 } };
    assert_eq!(w.cancel(), u64::MAX);
    assert_eq!(w.set_minimum_deposit(), 2 * (u64::MAX / 4) + 35_267_000);
}

#[test]
fn costlier_storage_never_lowers_weights() {
    let cheap = RuntimeDbWeight { read: 1_000, write: 2_000 };
    let w1 = SystemWeights { db_weight: cheap };
    let w2 = SystemWeights { db_weight: ROCKS_DB };
    assert!(w1.kill_prefix(9) <= w2.kill_prefix(9));
    assert!(w1.set_heap_pages() <= w2.set_heap_pages());
    let s1 = StreamingWeights { db_weight: cheap };
    let s2 = StreamingWeights { db_weight: ROCKS_DB };
    assert!(s1.create() <= s2.create());
    assert!(s1.withdraw() >= 133_003_000);
}
