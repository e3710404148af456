//! How many workers process the targets.

use vstd::prelude::*;

verus! {

/// Work is dominated by network and disk waits, so there are more workers than cores.
pub const THREADS_FACTOR: usize = 2;

/// The most workers: the available parallelism (at least one) times the factor,
/// saturating at the largest `usize`.
pub open spec fn max_threads(available: usize) -> int {
    let a = if available == 0 { 1int } else { available as int };
    if a * THREADS_FACTOR > usize::MAX { usize::MAX as int } else { a * THREADS_FACTOR }
}

/// The number of workers: the requested number, or the most where none is requested,
/// clamped between one and the most.
pub fn num_threads(threads: Option<usize>, available: usize) -> (r: usize)
    ensures
        r as int == match threads {
            Some(t) => if t < 1 { 1 } else if t > max_threads(available) { max_threads(available) } else { t as int },
            None => max_threads(available),
        },
        1 <= r,
{
    let a: usize = if available == 0 { 1 } else { available };
    let max: usize = if a > usize::MAX / THREADS_FACTOR { usize::MAX } else { a * THREADS_FACTOR };
    match threads {
        Some(t) => if t < 1 {
            1
        } else if t > max {
            max
        } else {
            t
        },
        None => max,
    }
}

} // verus!
