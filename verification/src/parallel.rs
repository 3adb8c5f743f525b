//! The one call into rayon.

use rayon::iter::{IntoParallelIterator, ParallelIterator};
use vstd::prelude::*;
use crate::terrain::Rgba;

verus! {

/// Builds `count` columns on rayon's thread pool, by
/// `(0..count).into_par_iter().map(build).collect()`.
///
/// Believed of rayon, not proved: the result holds one item for each number
/// below `count`, in the order of the numbers, and the item at `i` is what a
/// call of `build` with `i` returned. That is what rayon documents of `map`
/// (every item of the range goes through the closure) and of `collect` into a
/// `Vec` from an indexed iterator such as a range (the items keep the
/// iterator's order).
#[verifier::external_body]
pub(crate) fn columns_in_parallel<F: Fn(usize) -> Vec<Rgba> + Sync + Send>(
    count: usize,
    build: F,
) -> (stacks: Vec<Vec<Rgba>>)
    requires
        forall|i: usize| i < count ==> call_requires(build, (i,)),
    ensures
        stacks.len() == count,
        forall|i: int| 0 <= i < count ==> call_ensures(build, (i as usize,), #[trigger] stacks[i]),
{
    (0..count).into_par_iter().map(build).collect()
}

} // verus!
