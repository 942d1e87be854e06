//! Ownership-safe bindings to a native solid-modeling kernel: the typed,
//! verified half of the bridge (status codes, validated scalar parameters,
//! kernel argument encodings and bounds-checked collection access).

pub mod collection;
pub mod error;
pub mod fill_rule;
pub mod manifold;
pub mod types;

pub use error::{check_error, Error, ManifoldErrorExt};
pub use fill_rule::FillRule;
pub use manifold::{BooleanOperation, EdgeSplitCount, EdgeSplitCountError};
