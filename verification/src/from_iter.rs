//! The fixed-length collector: drain a sequence of values and produce an
//! array of exactly `N` of them, or nothing when the count differs.

use crate::storage::make_storage;
use crate::storage::Array;
use crate::storage::Storage;
use vstd::prelude::*;

verus! {

/// Collect a sequence of values into an array of exactly `N` elements.
///
/// Each value in turn is paired with the next unwritten slot. When a value
/// and a free slot both exist, the value is written and draining continues;
/// a value with no free slot left, or a free slot with no value left, is a
/// length mismatch and yields `None`; when both run out together the array
/// is finalized. Any count other than exactly `N` fails: there is no
/// partial or truncating mode. On failure the partially written block is
/// abandoned, its prefix never torn down element by element: see
/// `Storage::abandon`.
#[verifier::loop_isolation(false)]
pub fn collect_exact<T, const N: usize>(source: Vec<T>) -> (r: Option<Array<T, N>>)
    ensures
        source@.len() == N ==> (r matches Some(arr) && arr@ == source@),
        source@.len() != N ==> r is None,
{
    let ghost all = source@;
    let mut source = source;
    let mut storage: Storage<T, N> = make_storage();
    let mut taken: usize = 0;
    loop
        invariant
            taken <= N,
            taken <= all.len(),
            storage@ == all.take(taken as int),
            source@ == all.skip(taken as int),
        decreases all.len() - taken,
    {
        let item_left = source.len() > 0;
        let slot_left = taken < N;
        if item_left && slot_left {
            let item = source.remove(0);
            storage.write_next(item);
            taken += 1;
        } else if item_left || slot_left {
            // The sequence and the slots ran out at different times: the
            // source held more than `N` values, or fewer. The values left
            // in the source are dropped normally; the written prefix is
            // abandoned without per-element teardown.
            storage.abandon();
            return None;
        } else {
            return Some(storage.finalize());
        }
    }
}

/// A wrapper type holding the outcome of collecting a sequence of values
/// into an array of exactly `N` of them.
///
/// A sequence carries no compile-time information about its length, so
/// collecting fails — the field holds `None` — unless the sequence yields
/// exactly `N` values.
pub struct ArrayFromIter<T, const N: usize>(pub Option<Array<T, N>>);

impl<T, const N: usize> ArrayFromIter<T, N> {
    /// Collect the values of `source`, via [`collect_exact`].
    pub fn from_vec(source: Vec<T>) -> (r: Self)
        ensures
            source@.len() == N ==> (r.0 matches Some(arr) && arr@ == source@),
            source@.len() != N ==> r.0 is None,
    {
        ArrayFromIter(collect_exact(source))
    }
}

} // verus!
