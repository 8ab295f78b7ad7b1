//! Array transformers: apply a per-element function to an existing,
//! fully valid array, in increasing index order, with the same
//! short-circuiting variants as the indexed builders.

use crate::storage::make_storage;
use crate::storage::Array;
use crate::storage::Storage;
use vstd::prelude::*;

verus! {

/// What [`Array::map`] promises of its result: each output element is a
/// value the per-element function can return for the source element at the
/// same index.
pub open spec fn map_post<T, S, F: Fn(T) -> S, const N: usize>(
    src: Seq<T>,
    f: F,
    arr: Array<S, N>,
) -> bool {
    &&& arr@.len() == N
    &&& forall|i: int| 0 <= i < N ==> call_ensures(f, (src[i],), #[trigger] arr@[i])
}

/// What [`UnarrayArrayExt::map_result`] promises of its result: on success
/// each output element is an `Ok` value the per-element function can return
/// for the source element at the same index; on failure the error is an
/// `Err` value it can return for some source element.
pub open spec fn map_result_post<T, S, E, F: Fn(T) -> Result<S, E>, const N: usize>(
    src: Seq<T>,
    f: F,
    r: Result<Array<S, N>, E>,
) -> bool {
    match r {
        Ok(arr) => {
            &&& arr@.len() == N
            &&& forall|i: int| 0 <= i < N ==> call_ensures(f, (src[i],), Ok(#[trigger] arr@[i]))
        },
        Err(e) => exists|j: int, e2: E|
            0 <= j < N && e == e2 && #[trigger] call_ensures(f, (src[j],), Err(e2)),
    }
}

/// What [`UnarrayArrayExt::map_option`] promises of its result, in the same
/// shape as [`map_result_post`] with absence in place of error.
pub open spec fn map_option_post<T, S, F: Fn(T) -> Option<S>, const N: usize>(
    src: Seq<T>,
    f: F,
    r: Option<Array<S, N>>,
) -> bool {
    match r {
        Some(arr) => {
            &&& arr@.len() == N
            &&& forall|i: int| 0 <= i < N ==> call_ensures(f, (src[i],), Some(#[trigger] arr@[i]))
        },
        None => exists|j: int| 0 <= j < N && #[trigger] call_ensures(f, (src[j],), None::<S>),
    }
}

/// An extension trait for element-wise transformation of a fixed-length
/// array, consuming it, with short-circuiting on the first error or
/// absence. Implemented by [`Array`].
pub trait UnarrayArrayExt<T, const N: usize>: View<V = Seq<T>> + Sized {
    /// Maps an array, short-circuiting if any element produces an `Err`.
    ///
    /// `f` visits the elements in increasing index order. On the first
    /// element whose call returns an error, that error is returned at once
    /// and no later element is visited; the source elements not yet reached
    /// stay valid and are dropped normally, while the block of already
    /// mapped values is abandoned without per-element teardown (see
    /// `Storage::abandon`). Otherwise the array of mapped elements is
    /// returned.
    fn map_result<S, E, F: Fn(T) -> Result<S, E>>(self, f: F) -> (r: Result<Array<S, N>, E>)
        requires
            self@.len() == N,
            forall|i: int| 0 <= i < N ==> call_requires(f, (#[trigger] self@[i],)),
        ensures
            map_result_post::<T, S, E, F, N>(self@, f, r),
    ;

    /// Maps an array, short-circuiting if any element produces a `None`.
    ///
    /// The same traversal as [`UnarrayArrayExt::map_result`], with absence
    /// in place of error; the two share one traversal, absence being
    /// carried as a throwaway error token that the failure path discards.
    fn map_option<S, F: Fn(T) -> Option<S>>(self, f: F) -> (r: Option<Array<S, N>>)
        requires
            self@.len() == N,
            forall|i: int| 0 <= i < N ==> call_requires(f, (#[trigger] self@[i],)),
        ensures
            map_option_post::<T, S, F, N>(self@, f, r),
    ;
}

impl<T, const N: usize> Array<T, N> {
    /// Apply `f` to every element in increasing index order, consuming the
    /// array and producing the array of results. Total: no failure path.
    pub fn map<S, F: Fn(T) -> S>(self, f: F) -> (arr: Array<S, N>)
        requires
            self@.len() == N,
            forall|i: int| 0 <= i < N ==> call_requires(f, (#[trigger] self@[i],)),
        ensures
            map_post::<T, S, F, N>(self@, f, arr),
    {
        let ghost src = self@;
        let mut remaining = self.into_vec();
        let mut storage: Storage<S, N> = make_storage();
        let mut idx: usize = 0;
        while idx < N
            invariant
                src == self@,
                src.len() == N,
                forall|i: int| 0 <= i < N ==> call_requires(f, (#[trigger] src[i],)),
                idx <= N,
                storage@.len() == idx,
                remaining@ == src.skip(idx as int),
                forall|i: int| 0 <= i < idx ==> call_ensures(f, (src[i],), #[trigger] storage@[i]),
            decreases N - idx,
        {
            let element = remaining.remove(0);
            let value = f(element);
            storage.write_next(value);
            idx += 1;
        }
        storage.finalize()
    }
}

impl<T, const N: usize> UnarrayArrayExt<T, N> for Array<T, N> {
    fn map_result<S, E, F: Fn(T) -> Result<S, E>>(self, f: F) -> (r: Result<Array<S, N>, E>) {
        let ghost src = self@;
        let mut remaining = self.into_vec();
        let mut storage: Storage<S, N> = make_storage();
        let mut idx: usize = 0;
        while idx < N
            invariant
                src == self@,
                src.len() == N,
                forall|i: int| 0 <= i < N ==> call_requires(f, (#[trigger] src[i],)),
                idx <= N,
                storage@.len() == idx,
                remaining@ == src.skip(idx as int),
                forall|i: int|
                    0 <= i < idx ==> call_ensures(f, (src[i],), Ok(#[trigger] storage@[i])),
            decreases N - idx,
        {
            let element = remaining.remove(0);
            match f(element) {
                Ok(value) => storage.write_next(value),
                Err(e) => {
                    storage.abandon();
                    return Err(e);
                },
            }
            idx += 1;
        }
        Ok(storage.finalize())
    }

    fn map_option<S, F: Fn(T) -> Option<S>>(self, f: F) -> (r: Option<Array<S, N>>) {
        let f_ref = &f;
        let via_result = |element: T| -> (out: Result<S, ()>)
            requires
                call_requires(f_ref, (element,)),
            ensures
                out matches Ok(s) ==> call_ensures(f_ref, (element,), Some(s)),
                out is Err ==> call_ensures(f_ref, (element,), None::<S>),
            {
                match f_ref(element) {
                    Some(s) => Ok(s),
                    None => Err(()),
                }
            };
        match self.map_result::<S, (), _>(via_result) {
            Ok(arr) => Some(arr),
            Err(()) => None,
        }
    }
}

/// Totality preserved under success: when every value the fallible
/// per-element function can return, on any element of the source, is a
/// success whose payload the total per-element function can also return,
/// [`UnarrayArrayExt::map_result`] must succeed, and its array satisfies
/// exactly what [`Array::map`] promises of the total function.
pub proof fn lemma_map_result_totality<
    T,
    S,
    E,
    FR: Fn(T) -> Result<S, E>,
    FT: Fn(T) -> S,
    const N: usize,
>(src: Seq<T>, f: FR, g: FT, r: Result<Array<S, N>, E>)
    requires
        src.len() == N,
        map_result_post::<T, S, E, FR, N>(src, f, r),
        forall|i: int, ret: Result<S, E>|
            0 <= i < N && #[trigger] call_ensures(f, (src[i],), ret) ==> ret is Ok && call_ensures(
                g,
                (src[i],),
                ret->Ok_0,
            ),
    ensures
        (r matches Ok(arr) && map_post::<T, S, FT, N>(src, g, arr)),
{
}

/// Totality preserved under success: when every value the absence-prone
/// per-element function can return, on any element of the source, is a
/// presence whose payload the total per-element function can also return,
/// [`UnarrayArrayExt::map_option`] must succeed, and its array satisfies
/// exactly what [`Array::map`] promises of the total function.
pub proof fn lemma_map_option_totality<
    T,
    S,
    FO: Fn(T) -> Option<S>,
    FT: Fn(T) -> S,
    const N: usize,
>(src: Seq<T>, f: FO, g: FT, r: Option<Array<S, N>>)
    requires
        src.len() == N,
        map_option_post::<T, S, FO, N>(src, f, r),
        forall|i: int, ret: Option<S>|
            0 <= i < N && #[trigger] call_ensures(f, (src[i],), ret) ==> ret is Some
                && call_ensures(g, (src[i],), ret->Some_0),
    ensures
        (r matches Some(arr) && map_post::<T, S, FT, N>(src, g, arr)),
{
}

} // verus!
