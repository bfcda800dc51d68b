//! Benchmarked weights of the streaming pallet's calls on the Vanilla runtime.

use vstd::prelude::*;

use super::{lemma_saturate_add, saturate, saturating_add, RuntimeDbWeight, Weight};

verus! {

/// A benchmarked weight: a fixed execution time plus `reads` storage reads
/// and `writes` storage writes, saturating at the largest weight.
pub open spec fn storage_weight(db: RuntimeDbWeight, base: int, reads: int, writes: int) -> int {
    saturate(base + db.read * reads + db.write * writes)
}

/// Weight functions of the streaming pallet, for a runtime whose storage
/// accesses cost `db_weight`.
pub struct WeightInfo {
    pub db_weight: RuntimeDbWeight,
}

impl WeightInfo {
    /// `base + reads(r) + writes(w)` with every step saturating.
    fn benchmarked(&self, base: Weight, r: Weight, w: Weight) -> (res: Weight)
        ensures
            res == storage_weight(self.db_weight, base as int, r as int, w as int),
    {
        let with_reads = saturating_add(base, self.db_weight.reads(r));
        let res = saturating_add(with_reads, self.db_weight.writes(w));
        proof {
            let rd = self.db_weight.read * r;
            let wr = self.db_weight.write * w;
            assert(0 <= rd && 0 <= wr) by (nonlinear_arith)
                requires
                    rd == self.db_weight.read * r,
                    wr == self.db_weight.write * w,
            ;
            lemma_saturate_add(base as int, rd);
            lemma_saturate_add(base + rd, wr);
        }
        res
    }

    pub fn create(&self) -> (w: Weight)
        ensures
            w == storage_weight(self.db_weight, 167_116_000, 12, 11),
    {
        self.benchmarked(167_116_000, 12, 11)
    }

    pub fn cancel(&self) -> (w: Weight)
        ensures
            w == storage_weight(self.db_weight, 175_095_000, 9, 8),
    {
        self.benchmarked(175_095_000, 9, 8)
    }

    pub fn withdraw(&self) -> (w: Weight)
        ensures
            w == storage_weight(self.db_weight, 133_003_000, 7, 6),
    {
        self.benchmarked(133_003_000, 7, 6)
    }

    pub fn set_minimum_deposit(&self) -> (w: Weight)
        ensures
            w == storage_weight(self.db_weight, 35_267_000, 1, 2),
    {
        self.benchmarked(35_267_000, 1, 2)
    }
}

/// A call never weighs less on a runtime whose reads and writes both cost at
/// least as much.
pub proof fn lemma_storage_weight_monotone_in_db(
    db1: RuntimeDbWeight,
    db2: RuntimeDbWeight,
    base: int,
    reads: int,
    writes: int,
)
    requires
        db1.read <= db2.read,
        db1.write <= db2.write,
        0 <= reads,
        0 <= writes,
    ensures
        storage_weight(db1, base, reads, writes) <= storage_weight(db2, base, reads, writes),
{
    assert(db1.read * reads <= db2.read * reads) by (nonlinear_arith)
        requires
            db1.read <= db2.read,
            0 <= reads,
    ;
    assert(db1.write * writes <= db2.write * writes) by (nonlinear_arith)
        requires
            db1.write <= db2.write,
            0 <= writes,
    ;
}

/// Every streaming call weighs at least its fixed execution time, and
/// exactly its fixed time plus its storage accesses while that sum fits.
pub proof fn lemma_storage_weight_bounds(db: RuntimeDbWeight, base: int, reads: int, writes: int)
    requires
        0 <= base <= u64::MAX,
        0 <= reads,
        0 <= writes,
    ensures
        base <= storage_weight(db, base, reads, writes) <= u64::MAX,
        base + db.read * reads + db.write * writes <= u64::MAX ==> storage_weight(
            db,
            base,
            reads,
            writes,
        ) == base + db.read * reads + db.write * writes,
{
    assert(0 <= db.read * reads && 0 <= db.write * writes) by (nonlinear_arith)
        requires
            0 <= reads,
            0 <= writes,
    ;
}

/// While nothing overflows, each streaming call weighs exactly its fixed time
/// plus its storage reads and writes: `create` 12 reads and 11 writes over
/// 167_116_000, `cancel` 9 and 8 over 175_095_000, `withdraw` 7 and 6 over
/// 133_003_000, `set_minimum_deposit` 1 and 2 over 35_267_000.
pub proof fn lemma_streaming_weights_exact(db: RuntimeDbWeight)
    requires
        175_095_000 + 12 * db.read + 11 * db.write <= u64::MAX,
    ensures
        storage_weight(db, 167_116_000, 12, 11) == 167_116_000 + 12 * db.read + 11 * db.write,
        storage_weight(db, 175_095_000, 9, 8) == 175_095_000 + 9 * db.read + 8 * db.write,
        storage_weight(db, 133_003_000, 7, 6) == 133_003_000 + 7 * db.read + 6 * db.write,
        storage_weight(db, 35_267_000, 1, 2) == 35_267_000 + db.read + 2 * db.write,
{
}

/// With free storage each streaming call weighs exactly its fixed time.
pub proof fn lemma_streaming_weights_without_storage(db: RuntimeDbWeight)
    requires
        db.read == 0,
        db.write == 0,
    ensures
        storage_weight(db, 167_116_000, 12, 11) == 167_116_000,
        storage_weight(db, 175_095_000, 9, 8) == 175_095_000,
        storage_weight(db, 133_003_000, 7, 6) == 133_003_000,
        storage_weight(db, 35_267_000, 1, 2) == 35_267_000,
{
}

} // verus!
