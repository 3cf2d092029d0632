//! Fixed limits that every plan is clamped to.

use vstd::prelude::*;

verus! {

/// Fewest workers a pool ever runs.
pub const WORKER_MIN: usize = 1;

/// Most workers a pool ever runs.
pub const WORKER_MAX: usize = 1024;

/// Smallest capacity of a queue.
pub const QUEUE_MIN: usize = 1;

/// Largest capacity of a queue.
pub const QUEUE_MAX: usize = 2048;

/// Most cores the core-to-queue table has an entry for; callers on a core
/// beyond it use the fallback queue.
pub const CORE_LIMIT: usize = 1024;

/// Number of keys or outcomes a batch holds without a heap allocation.
pub const BATCH_INLINE: usize = 1;

/// `x` brought into the range from `lo` to `hi`.
pub open spec fn clamped(x: int, lo: int, hi: int) -> int {
    if x < lo {
        lo
    } else if x > hi {
        hi
    } else {
        x
    }
}

/// Brings `x` into the range from `lo` to `hi`.
pub fn clamp(x: usize, lo: usize, hi: usize) -> (r: usize)
    requires
        lo <= hi,
    ensures
        r == clamped(x as int, lo as int, hi as int),
{
    if x < lo {
        lo
    } else if x > hi {
        hi
    } else {
        x
    }
}

} // verus!
