//! Work spread over the processor cores.
use rayon::iter::{IntoParallelIterator, ParallelIterator};
use vstd::prelude::*;

verus! {

/// Rayon's `into_par_iter().map(f).collect()` on a vector: `f` is called on each
/// item, and the results stand in the order of the items.
#[verifier::external_body]
pub(crate) fn par_map<A: Send, B: Send, F: Fn(A) -> B + Sync + Send>(
    items: Vec<A>,
    f: F,
) -> (results: Vec<B>)
    requires
        forall|i: int| 0 <= i < items@.len() ==> call_requires(f, (#[trigger] items@[i],)),
    ensures
        results@.len() == items@.len(),
        forall|i: int|
            0 <= i < items@.len() ==> call_ensures(f, (items@[i],), #[trigger] results@[i]),
{
    items.into_par_iter().map(f).collect()
}

} // verus!
