//! Indexed builders: construct an array of length `N` by calling a
//! per-index function once per slot, in strictly increasing index order,
//! short-circuiting on the first error or absence.

use crate::storage::make_storage;
use crate::storage::Array;
use crate::storage::Storage;
use vstd::prelude::*;

verus! {

/// What [`build`] promises of its result: every element is a value the
/// per-index function can return for that index.
pub open spec fn build_post<T, F: Fn(usize) -> T, const N: usize>(f: F, arr: Array<T, N>) -> bool {
    &&& arr@.len() == N
    &&& forall|i: int| 0 <= i < N ==> call_ensures(f, ((i as usize),), #[trigger] arr@[i])
}

/// What [`build_result`] promises of its result: on success every element
/// is an `Ok` value the per-index function can return for that index; on
/// failure the error is an `Err` value it can return for some index.
pub open spec fn build_result_post<T, E, F: Fn(usize) -> Result<T, E>, const N: usize>(
    f: F,
    r: Result<Array<T, N>, E>,
) -> bool {
    match r {
        Ok(arr) => {
            &&& arr@.len() == N
            &&& forall|i: int| 0 <= i < N ==> call_ensures(f, ((i as usize),), Ok(#[trigger] arr@[i]))
        },
        Err(e) => exists|j: usize, e2: E|
            j < N && e == e2 && #[trigger] call_ensures(f, (j,), Err(e2)),
    }
}

/// What [`build_option`] promises of its result, in the same shape as
/// [`build_result_post`] with absence in place of error.
pub open spec fn build_option_post<T, F: Fn(usize) -> Option<T>, const N: usize>(
    f: F,
    r: Option<Array<T, N>>,
) -> bool {
    match r {
        Some(arr) => {
            &&& arr@.len() == N
            &&& forall|i: int|
                0 <= i < N ==> call_ensures(f, ((i as usize),), Some(#[trigger] arr@[i]))
        },
        None => exists|j: usize| j < N && #[trigger] call_ensures(f, (j,), None::<T>),
    }
}

/// Build an array by calling `f` once per index, `0` up to `N - 1`, writing
/// each result into the corresponding slot. Total: no failure path.
pub fn build<T, F: Fn(usize) -> T, const N: usize>(f: F) -> (arr: Array<T, N>)
    requires
        forall|i: usize| i < N ==> call_requires(f, (i,)),
    ensures
        build_post(f, arr),
{
    let mut storage: Storage<T, N> = make_storage();
    let mut idx: usize = 0;
    while idx < N
        invariant
            forall|i: usize| i < N ==> call_requires(f, (i,)),
            idx <= N,
            storage@.len() == idx,
            forall|i: int| 0 <= i < idx ==> call_ensures(f, ((i as usize),), #[trigger] storage@[i]),
        decreases N - idx,
    {
        let value = f(idx);
        storage.write_next(value);
        idx += 1;
    }
    storage.finalize()
}

/// Build an array by calling `f` once per index, `0` up to `N - 1`, stopping
/// at the first index whose call returns an error; `f` is never called for
/// greater indices, and that first error is returned. On full success the
/// finalized array is returned.
///
/// On failure the partially written block is abandoned, its prefix never
/// torn down element by element: see `Storage::abandon`.
pub fn build_result<T, E, F: Fn(usize) -> Result<T, E>, const N: usize>(f: F) -> (r: Result<
    Array<T, N>,
    E,
>)
    requires
        forall|i: usize| i < N ==> call_requires(f, (i,)),
    ensures
        build_result_post(f, r),
{
    let mut storage: Storage<T, N> = make_storage();
    let mut idx: usize = 0;
    while idx < N
        invariant
            forall|i: usize| i < N ==> call_requires(f, (i,)),
            idx <= N,
            storage@.len() == idx,
            forall|i: int|
                0 <= i < idx ==> call_ensures(f, ((i as usize),), Ok(#[trigger] storage@[i])),
        decreases N - idx,
    {
        match f(idx) {
            Ok(value) => storage.write_next(value),
            Err(e) => {
                storage.abandon();
                return Err(e);
            },
        }
        idx += 1;
    }
    Ok(storage.finalize())
}

/// Build an array by calling `f` once per index, `0` up to `N - 1`, stopping
/// at the first index whose call returns nothing; `f` is never called for
/// greater indices. On full success the finalized array is returned.
///
/// This is a thin re-expression of [`build_result`], with absence carried
/// as a throwaway error token that the failure path discards: the two
/// builders share one traversal rather than duplicating it.
pub fn build_option<T, F: Fn(usize) -> Option<T>, const N: usize>(f: F) -> (r: Option<
    Array<T, N>,
>)
    requires
        forall|i: usize| i < N ==> call_requires(f, (i,)),
    ensures
        build_option_post(f, r),
{
    let f_ref = &f;
    let via_result = |i: usize| -> (out: Result<T, ()>)
        requires
            call_requires(f_ref, (i,)),
        ensures
            out matches Ok(t) ==> call_ensures(f_ref, (i,), Some(t)),
            out is Err ==> call_ensures(f_ref, (i,), None::<T>),
        {
            match f_ref(i) {
                Some(t) => Ok(t),
                None => Err(()),
            }
        };
    match build_result::<T, (), _, N>(via_result) {
        Ok(arr) => Some(arr),
        Err(()) => None,
    }
}

/// Index determinism: when every value the per-index function can return
/// at an index is one fixed value for that index, the whole result of
/// [`build`] is pinned, element by element — the array holds exactly the
/// value for `0`, then the value for `1`, and so on up to `N - 1`.
pub proof fn lemma_build_index_determinism<T, F: Fn(usize) -> T, const N: usize>(
    f: F,
    arr: Array<T, N>,
    values: spec_fn(int) -> T,
)
    requires
        build_post::<T, F, N>(f, arr),
        forall|i: usize, t: T|
            i < N && #[trigger] call_ensures(f, (i,), t) ==> t == values(i as int),
    ensures
        arr@ =~= Seq::new(N as nat, values),
{
}

/// First failure wins: a per-index function whose every possible outcome at
/// some index `j` is an error forces [`build_result`] to return an error,
/// whatever the function does at the other indices.
pub proof fn lemma_build_result_short_circuits<
    T,
    E,
    F: Fn(usize) -> Result<T, E>,
    const N: usize,
>(f: F, r: Result<Array<T, N>, E>, j: usize)
    requires
        j < N,
        forall|ret: Result<T, E>| #[trigger] call_ensures(f, (j,), ret) ==> ret is Err,
        build_result_post::<T, E, F, N>(f, r),
    ensures
        r is Err,
{
    match r {
        Ok(arr) => {
            assert(call_ensures(f, (j,), Ok(arr@[j as int])));
        },
        Err(_) => {},
    }
}

/// First failure wins: a per-index function whose every possible outcome at
/// some index `j` is an absence forces [`build_option`] to return `None`,
/// whatever the function does at the other indices.
pub proof fn lemma_build_option_short_circuits<T, F: Fn(usize) -> Option<T>, const N: usize>(
    f: F,
    r: Option<Array<T, N>>,
    j: usize,
)
    requires
        j < N,
        forall|ret: Option<T>| #[trigger] call_ensures(f, (j,), ret) ==> ret is None,
        build_option_post::<T, F, N>(f, r),
    ensures
        r is None,
{
    match r {
        Some(arr) => {
            assert(call_ensures(f, (j,), Some(arr@[j as int])));
        },
        None => {},
    }
}

/// Totality preserved under success: when every value the fallible
/// per-index function can return is a success whose payload the total
/// per-index function can also return, [`build_result`] must succeed, and
/// its array satisfies exactly what [`build`] promises of the total
/// function.
pub proof fn lemma_build_result_totality<
    T,
    E,
    FR: Fn(usize) -> Result<T, E>,
    FT: Fn(usize) -> T,
    const N: usize,
>(f: FR, g: FT, r: Result<Array<T, N>, E>)
    requires
        build_result_post::<T, E, FR, N>(f, r),
        forall|i: usize, ret: Result<T, E>|
            i < N && #[trigger] call_ensures(f, (i,), ret) ==> ret is Ok && call_ensures(
                g,
                (i,),
                ret->Ok_0,
            ),
    ensures
        (r matches Ok(arr) && build_post::<T, FT, N>(g, arr)),
{
}

/// Totality preserved under success: when every value the absence-prone
/// per-index function can return is a presence whose payload the total
/// per-index function can also return, [`build_option`] must succeed, and
/// its array satisfies exactly what [`build`] promises of the total
/// function.
pub proof fn lemma_build_option_totality<
    T,
    FO: Fn(usize) -> Option<T>,
    FT: Fn(usize) -> T,
    const N: usize,
>(f: FO, g: FT, r: Option<Array<T, N>>)
    requires
        build_option_post::<T, FO, N>(f, r),
        forall|i: usize, ret: Option<T>|
            i < N && #[trigger] call_ensures(f, (i,), ret) ==> ret is Some && call_ensures(
                g,
                (i,),
                ret->Some_0,
            ),
    ensures
        (r matches Some(arr) && build_post::<T, FT, N>(g, arr)),
{
}

} // verus!
