//! A fixed-length, exclusively owned array with explicit two-phase
//! construction: slots are allocated first, written, and only then is the
//! array converted to its initialized state.

mod array;
mod into_iter;
mod uninit;

pub use array::{layout_fits, slice_view, lemma_clone_independent, lemma_parts_round_trip, DynArray};
pub use into_iter::{lemma_drain, IntoIter};
pub use uninit::MaybeUninit;
