//! A zero-copy adapter that exposes a flat, shape-tagged tensor buffer
//! through strided, rank-checked views.
//!
//! The buffer side carries its own runtime-ranked shape metadata; the
//! view side asks for a fixed or dynamic target rank. Construction
//! reconciles the two, and the views then read and write the buffer in
//! row-major order without copying it.

mod buffer;
mod index;
mod shape;
mod tensor;

pub use buffer::TensorBuf;
pub use buffer::TensorType;
pub use index::flat_index;
pub use index::flat_offset;
pub use index::valid_index;
pub use shape::extent_product;
pub use shape::reconcile;
pub use shape::spec_reconcile;
pub use shape::lemma_rank_match_keeps_extents;
pub use shape::ShapeError;
pub use shape::TargetRank;
pub use tensor::lemma_matching_rank_keeps_extents;
pub use tensor::lemma_read_view_coercion;
pub use tensor::lemma_reclaim_round_trip;
pub use tensor::lemma_reclaimed_len;
pub use tensor::NdTensor;
pub use tensor::TensorView;
pub use tensor::TensorViewMut;
