//! N-dimensional arrays with lazily materialized fills and copy-on-write
//! dense storage shared between cheap handle clones.
//!
//! A [`Rearray`] starts out as a description ("all zeros", "all this value")
//! and turns into a stored [`DenseRearray`] the first time a view of its
//! memory is requested. Clones of a dense handle share one buffer until one
//! of them asks for a mutable view.

pub mod array;
pub mod dense;
pub mod index;
pub mod laws;
pub mod layout;
pub mod linalg;
pub mod zero;

pub use array::{Rearray, Scalar};
pub use dense::{DenseRearray, DenseRearrayView, DenseRearrayViewMut};
pub use index::IndexNd;
pub use layout::{Dense, Layout, View, ViewMut};
pub use zero::ZeroBits;
