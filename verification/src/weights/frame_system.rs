//! Benchmarked weights of the system pallet's calls on the Heiko runtime.

use vstd::prelude::*;

use super::{
    lemma_saturate_add, lemma_saturate_monotone, saturate, saturating_add, saturating_mul,
    RuntimeDbWeight, Weight,
};

verus! {

/// Weight of `set_heap_pages`.
pub open spec fn set_heap_pages_weight(db: RuntimeDbWeight) -> int {
    saturate(2_418_000 + db.write)
}

/// Weight of `set_storage` with `i` items.
pub open spec fn set_storage_weight(db: RuntimeDbWeight, i: u32) -> int {
    saturate(847_000 * i + db.write * i)
}

/// Weight of `kill_storage` with `i` keys.
pub open spec fn kill_storage_weight(db: RuntimeDbWeight, i: u32) -> int {
    saturate(798_000 + 643_000 * i + db.write * i)
}

/// Weight of `kill_prefix` with `p` subkeys.
pub open spec fn kill_prefix_weight(db: RuntimeDbWeight, p: u32) -> int {
    saturate(11_012_000 + 1_084_000 * p + db.write * p)
}

/// Weight functions of the system pallet, for a runtime whose storage
/// accesses cost `db_weight`.
pub struct WeightInfo {
    pub db_weight: RuntimeDbWeight,
}

impl WeightInfo {
    pub fn remark(&self, _b: u32) -> (w: Weight)
        ensures
            w == 1_683_000,
    {
        1_683_000
    }

    pub fn remark_with_event(&self, b: u32) -> (w: Weight)
        ensures
            w == 1_000 * b,
    {
        saturating_add(0, saturating_mul(1_000, b as u64))
    }

    pub fn set_heap_pages(&self) -> (w: Weight)
        ensures
            w == set_heap_pages_weight(self.db_weight),
    {
        saturating_add(2_418_000, self.db_weight.writes(1))
    }

    pub fn set_storage(&self, i: u32) -> (w: Weight)
        ensures
            w == set_storage_weight(self.db_weight, i),
    {
        let items = saturating_add(0, saturating_mul(847_000, i as u64));
        let w = saturating_add(items, self.db_weight.writes(saturating_mul(1, i as u64)));
        proof {
            lemma_saturate_add(847_000 * i, self.db_weight.write * i);
        }
        w
    }

    pub fn kill_storage(&self, i: u32) -> (w: Weight)
        ensures
            w == kill_storage_weight(self.db_weight, i),
    {
        let items = saturating_add(798_000, saturating_mul(643_000, i as u64));
        let w = saturating_add(items, self.db_weight.writes(saturating_mul(1, i as u64)));
        proof {
            lemma_saturate_add(798_000 + 643_000 * i, self.db_weight.write * i);
        }
        w
    }

    pub fn kill_prefix(&self, p: u32) -> (w: Weight)
        ensures
            w == kill_prefix_weight(self.db_weight, p),
    {
        let items = saturating_add(11_012_000, saturating_mul(1_084_000, p as u64));
        let w = saturating_add(items, self.db_weight.writes(saturating_mul(1, p as u64)));
        proof {
            lemma_saturate_add(11_012_000 + 1_084_000 * p, self.db_weight.write * p);
        }
        w
    }
}

/// Item-dependent calls never get cheaper with more items: for `i <= j` the
/// weights of `set_storage`, `kill_storage` and `kill_prefix` at `i` are at
/// most those at `j`.
pub proof fn lemma_item_weights_monotone(db: RuntimeDbWeight, i: u32, j: u32)
    requires
        i <= j,
    ensures
        set_storage_weight(db, i) <= set_storage_weight(db, j),
        kill_storage_weight(db, i) <= kill_storage_weight(db, j),
        kill_prefix_weight(db, i) <= kill_prefix_weight(db, j),
{
    assert(db.write * i <= db.write * j) by (nonlinear_arith)
        requires
            i <= j,
            0 <= db.write,
    ;
    lemma_saturate_monotone(847_000 * i + db.write * i, 847_000 * j + db.write * j);
    lemma_saturate_monotone(
        798_000 + 643_000 * i + db.write * i,
        798_000 + 643_000 * j + db.write * j,
    );
    lemma_saturate_monotone(
        11_012_000 + 1_084_000 * i + db.write * i,
        11_012_000 + 1_084_000 * j + db.write * j,
    );
}

/// Below the cap each item adds a fixed cost: the benchmarked time per item
/// plus one storage write.
pub proof fn lemma_item_weights_linear(db: RuntimeDbWeight, i: u32)
    requires
        i < u32::MAX,
        11_012_000 + (1_084_000 + db.write) * (i + 1) <= u64::MAX,
    ensures
        set_storage_weight(db, (i + 1) as u32) == set_storage_weight(db, i) + 847_000 + db.write,
        kill_storage_weight(db, (i + 1) as u32) == kill_storage_weight(db, i) + 643_000 + db.write,
        kill_prefix_weight(db, (i + 1) as u32) == kill_prefix_weight(db, i) + 1_084_000 + db.write,
{
    assert(db.write * (i + 1) == db.write * i + db.write) by (nonlinear_arith);
    assert((1_084_000 + db.write) * (i + 1) == 1_084_000 * (i + 1) + db.write * (i + 1))
        by (nonlinear_arith);
    assert(0 <= db.write * i) by (nonlinear_arith)
        requires
            0 <= db.write,
            0 <= i,
    ;
}

/// A runtime with costlier storage writes never makes a system call cheaper.
pub proof fn lemma_weights_monotone_in_db(db1: RuntimeDbWeight, db2: RuntimeDbWeight, i: u32)
    requires
        db1.write <= db2.write,
    ensures
        set_heap_pages_weight(db1) <= set_heap_pages_weight(db2),
        set_storage_weight(db1, i) <= set_storage_weight(db2, i),
        kill_storage_weight(db1, i) <= kill_storage_weight(db2, i),
        kill_prefix_weight(db1, i) <= kill_prefix_weight(db2, i),
{
    assert(db1.write * i <= db2.write * i) by (nonlinear_arith)
        requires
            db1.write <= db2.write,
            0 <= i,
    ;
}

/// While nothing overflows, every system call weighs exactly its benchmarked
/// fixed time, plus its per-item time for each item, plus one storage write for
/// `set_heap_pages` and one per item for the item-dependent calls; storage
/// reads cost nothing.
pub proof fn lemma_system_weights_exact(db: RuntimeDbWeight, i: u32)
    requires
        2_418_000 + db.write <= u64::MAX,
        11_012_000 + (1_084_000 + db.write) * i <= u64::MAX,
    ensures
        set_heap_pages_weight(db) == 2_418_000 + db.write,
        set_storage_weight(db, i) == 847_000 * i + db.write * i,
        kill_storage_weight(db, i) == 798_000 + 643_000 * i + db.write * i,
        kill_prefix_weight(db, i) == 11_012_000 + 1_084_000 * i + db.write * i,
{
    assert((1_084_000 + db.write) * i == 1_084_000 * i + db.write * i) by (nonlinear_arith);
    assert(0 <= db.write * i) by (nonlinear_arith)
        requires
            0 <= db.write,
            0 <= i,
    ;
}

/// The fixed part of each weight does not depend on what storage costs: with no
/// items, `set_storage` is free, `kill_storage` weighs 798_000 and
/// `kill_prefix` 11_012_000 on every runtime, and `set_heap_pages` exceeds
/// one storage write by exactly 2_418_000 wherever that fits.
pub proof fn lemma_fixed_weights_independent_of_db(db: RuntimeDbWeight)
    ensures
        set_storage_weight(db, 0) == 0,
        kill_storage_weight(db, 0) == 798_000,
        kill_prefix_weight(db, 0) == 11_012_000,
        db.write + 2_418_000 <= u64::MAX ==> set_heap_pages_weight(db) - db.write == 2_418_000,
        db.write + 2_418_000 > u64::MAX ==> set_heap_pages_weight(db) == u64::MAX,
{
}

/// Two runtimes with the same write cost give every system call the same
/// weight, whatever their read costs.
pub proof fn lemma_system_weights_ignore_reads(db1: RuntimeDbWeight, db2: RuntimeDbWeight, i: u32)
    requires
        db1.write == db2.write,
    ensures
        set_heap_pages_weight(db1) == set_heap_pages_weight(db2),
        set_storage_weight(db1, i) == set_storage_weight(db2, i),
        kill_storage_weight(db1, i) == kill_storage_weight(db2, i),
        kill_prefix_weight(db1, i) == kill_prefix_weight(db2, i),
{
}

/// Each extra item costs the same everywhere below the cap: the weight at
/// `i` items is the weight at none plus `i` times the per-item time and one
/// write.
pub proof fn lemma_item_weights_from_empty(db: RuntimeDbWeight, i: u32)
    requires
        11_012_000 + (1_084_000 + db.write) * i <= u64::MAX,
    ensures
        set_storage_weight(db, i) - set_storage_weight(db, 0) == (847_000 + db.write) * i,
        kill_storage_weight(db, i) - kill_storage_weight(db, 0) == (643_000 + db.write) * i,
        kill_prefix_weight(db, i) - kill_prefix_weight(db, 0) == (1_084_000 + db.write) * i,
{
    assert((1_084_000 + db.write) * i == 1_084_000 * i + db.write * i) by (nonlinear_arith);
    assert((847_000 + db.write) * i == 847_000 * i + db.write * i) by (nonlinear_arith);
    assert((643_000 + db.write) * i == 643_000 * i + db.write * i) by (nonlinear_arith);
    assert(0 <= db.write * i) by (nonlinear_arith)
        requires
            0 <= db.write,
            0 <= i,
    ;
}

} // verus!
