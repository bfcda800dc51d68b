//! Saturating weight arithmetic shared by the benchmarked weight tables.

use vstd::prelude::*;

pub mod frame_system;
pub mod pallet_streaming;

verus! {

/// A dispatch weight: picoseconds of reference execution time.
pub type Weight = u64;

/// `x` clamped to the largest weight; every weight formula saturates there.
pub open spec fn saturate(x: int) -> int {
    if x > u64::MAX as int {
        u64::MAX as int
    } else {
        x
    }
}

/// `a * b`, or the largest weight where the product does not fit.
pub fn saturating_mul(a: u64, b: u64) -> (r: u64)
    ensures
        r == saturate(a * b),
{
    match a.checked_mul(b) {
        Some(v) => v,
        None => u64::MAX,
    }
}

/// `a + b`, or the largest weight where the sum does not fit.
pub fn saturating_add(a: u64, b: u64) -> (r: u64)
    ensures
        r == saturate(a + b),
{
    a.saturating_add(b)
}

/// The weight of one storage read and of one storage write.
#[derive(Clone, Copy, Debug)]
pub struct RuntimeDbWeight {
    pub read: Weight,
    pub write: Weight,
}

impl RuntimeDbWeight {
    /// The weight of `r` storage reads.
    pub fn reads(&self, r: Weight) -> (w: Weight)
        ensures
            w == saturate(self.read * r),
    {
        saturating_mul(self.read, r)
    }

    /// The weight of `w` storage writes.
    pub fn writes(&self, w: Weight) -> (res: Weight)
        ensures
            res == saturate(self.write * w),
    {
        saturating_mul(self.write, w)
    }
}

/// Saturating after every step gives the same weight as saturating once at the
/// end: for non-negative terms, `sat(sat(a) + sat(b)) == sat(a + b)`.
pub proof fn lemma_saturate_add(a: int, b: int)
    requires
        0 <= a,
        0 <= b,
    ensures
        saturate(saturate(a) + saturate(b)) == saturate(a + b),
{
}

/// Saturation keeps every weight that fits and caps every other one at the
/// largest weight.
pub proof fn lemma_saturate_exact(x: int)
    ensures
        0 <= x <= u64::MAX ==> saturate(x) == x,
        x > u64::MAX ==> saturate(x) == u64::MAX,
        saturate(x) <= u64::MAX,
{
}

/// Saturation never lowers a larger weight below a smaller one.
pub proof fn lemma_saturate_monotone(a: int, b: int)
    requires
        a <= b,
    ensures
        saturate(a) <= saturate(b),
{
}

} // verus!
