//! A lazily driven producer of values whose results are cached by index.
mod bounds;
mod memo_iter;
pub mod laws;

pub use bounds::{IndexBound, SliceBounds};
pub use memo_iter::{end_index, saturated_total, slice_of, start_index, MemoIter};
