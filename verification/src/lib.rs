//! Batch image filtering: pure decision logic for filtering a directory of
//! images by resolution and aspect ratio, optionally cropping each image to
//! the largest exact-ratio size that fits, and tallying per-file outcomes.
//!
//! The library holds the verified core: ratio arithmetic, the filter
//! evaluator, per-file outcome classification, and result aggregation.
//! File-system traversal, the image codec and the terminal front end live
//! outside and feed this core plain values.

pub mod filter;
pub mod geometry;
pub mod outcome;
pub mod pipeline;
pub mod ratio_math;

pub use geometry::Ratio;
pub use geometry::Resolution;
