//! How many threads the node's runtime is given.

use vstd::prelude::*;

verus! {

/// The number of worker threads for a machine that offers `threads`: one
/// is set aside for the chain task where there are at least four.
pub open spec fn spec_worker_threads(threads: usize) -> usize {
    if threads >= 4 {
        (threads - 1) as usize
    } else {
        threads
    }
}

/// The number of worker threads for a machine that offers `threads`.
pub fn worker_threads(threads: usize) -> (workers: usize)
    ensures
        workers == spec_worker_threads(threads),
{
    if threads >= 4 {
        threads - 1
    } else {
        threads
    }
}

/// The number of blocking threads: the number configured, or every thread
/// that the machine offers where none is, since the blocking tasks are bound
/// by the processor.
pub fn blocking_threads(threads: usize, configured: Option<usize>) -> (blocking: usize)
    ensures
        blocking == (match configured {
            Some(number) => number,
            None => threads,
        }),
{
    match configured {
        Some(number) => number,
        None => threads,
    }
}

} // verus!
