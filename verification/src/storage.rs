//! The storage primitive: a fixed-length block of slots under construction,
//! and the finalized array it becomes once every slot is written.

use vstd::prelude::*;

verus! {

/// A block of `N` slots being written in strictly increasing index order.
///
/// The view of a `Storage` is the sequence of values written so far, in the
/// order they were written: slots `[0, k)` hold the written prefix, slots
/// `[k, N)` hold nothing yet. A slot carries no validity tag of its own;
/// which slots are written is tracked entirely by the contracts of
/// [`Storage::write_next`] and [`Storage::finalize`].
#[derive(Debug)]
pub struct Storage<T, const N: usize> {
    written: Vec<T>,
}

/// A fully written block of exactly `N` values of `T`.
///
/// Every function of this crate that hands out an `Array<T, N>` ensures that
/// its view has length `N`; operations that consume one ask for that same
/// fact in return.
#[derive(Debug)]
pub struct Array<T, const N: usize> {
    elems: Vec<T>,
}

impl<T, const N: usize> View for Storage<T, N> {
    type V = Seq<T>;

    closed spec fn view(&self) -> Seq<T> {
        self.written@
    }
}

impl<T, const N: usize> View for Array<T, N> {
    type V = Seq<T>;

    closed spec fn view(&self) -> Seq<T> {
        self.elems@
    }
}

/// Create storage for `N` values with no slot written yet.
///
/// There is no per-slot initialization: a fresh `Storage` holds nothing,
/// and costs nothing beyond the block itself.
pub fn make_storage<T, const N: usize>() -> (storage: Storage<T, N>)
    ensures
        storage@ == Seq::<T>::empty(),
{
    Storage { written: Vec::new() }
}

impl<T, const N: usize> Storage<T, N> {
    /// How many slots have been written so far.
    pub fn written(&self) -> (count: usize)
        ensures
            count == self@.len(),
    {
        self.written.len()
    }

    /// Write the next unwritten slot, in index order.
    ///
    /// Each slot is written exactly once: the call appends to the written
    /// prefix and never revisits an earlier index.
    pub fn write_next(&mut self, value: T)
        requires
            old(self)@.len() < N,
        ensures
            final(self)@ == old(self)@.push(value),
    {
        self.written.push(value);
    }

    /// Abandon a partially written block on failure.
    ///
    /// The already-written prefix is left in place: its values are never
    /// torn down one by one, at the cost of leaking whatever resources they
    /// hold. A slot carries no validity tag, so a block abandoned mid-way
    /// must never treat its slots as live values subject to normal
    /// teardown; this deliberate trade-off is part of the disposal
    /// contract, not an oversight to repair.
    ///
    /// Relies on std::mem::forget: the value handed to it is discarded
    /// without running its teardown.
    #[verifier::external_body]
    pub(crate) fn abandon(self) {
        std::mem::forget(self);
    }

    /// Declare every slot written and hand the block out as an array.
    ///
    /// The one hard obligation of the whole system — all `N` slots written
    /// exactly once before any slot is treated as a valid value — is the
    /// `requires` clause here, discharged statically by every caller rather
    /// than trusted at runtime.
    pub fn finalize(self) -> (arr: Array<T, N>)
        requires
            self@.len() == N,
        ensures
            arr@ == self@,
            arr@.len() == N,
    {
        Array { elems: self.written }
    }
}

impl<T, const N: usize> Array<T, N> {
    /// The number of elements, always `N`.
    pub fn len(&self) -> (n: usize)
        ensures
            n == self@.len(),
    {
        self.elems.len()
    }

    /// Borrow the element at index `i`.
    pub fn get(&self, i: usize) -> (elem: &T)
        requires
            i < self@.len(),
        ensures
            *elem == self@[i as int],
    {
        &self.elems[i]
    }

    /// Give the elements up as a vector, in index order.
    pub fn into_vec(self) -> (v: Vec<T>)
        ensures
            v@ == self@,
    {
        self.elems
    }
}

} // verus!
