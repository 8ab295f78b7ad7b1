//! Utilities for building fixed-length arrays element by element.
//!
//! A fixed-length array normally has to hold a valid value in every slot
//! before it can exist at all, which clashes with "compute each element one
//! at a time, possibly failing part-way through". This crate bridges that
//! gap with a pair of primitives and a family of safe operations on top of
//! them:
//!
//! - [`Storage`] is a block of `N` slots filled strictly in increasing index
//!   order, and [`Array`] is its fully written form. The transition between
//!   the two, [`Storage::finalize`], demands that every slot has been
//!   written, and that demand is checked statically rather than trusted.
//! - [`build`], [`build_result`] and [`build_option`] construct an array by
//!   calling a per-index function once per slot, short-circuiting on the
//!   first error or absence.
//! - [`UnarrayArrayExt`] transforms an existing array element-wise,
//!   consuming it, with the same short-circuiting variants; the total
//!   transformation is [`Array::map`].
//! - [`collect_exact`] drains a sequence of values and succeeds exactly
//!   when it holds `N` of them.
//!
//! A builder or the collector that fails part-way abandons the written
//! prefix without tearing its values down one by one — a deliberate
//! trade-off, documented at `Storage::abandon`, that leaks their resources
//! rather than ever treating an unwritten slot as live.

pub mod builders;
pub mod from_iter;
pub mod map;
pub mod storage;

pub use builders::build;
pub use builders::build_option;
pub use builders::build_result;
pub use from_iter::collect_exact;
pub use from_iter::ArrayFromIter;
pub use map::UnarrayArrayExt;
pub use storage::make_storage;
pub use storage::Array;
pub use storage::Storage;
