//! Savitzky-Golay filtering: the exact, integer side of the filter.
//!
//! The filter smooths or differentiates a uniformly sampled signal by fitting a
//! polynomial inside a sliding window. Everything about it that is decided over
//! integers lives here: which requests are admissible, what linear system yields
//! the interior kernel, how the full convolution is cut back to the signal's
//! length, and which output positions belong to the two edges.

pub mod convolution;
pub mod edges;
pub mod error;
pub mod factorial;
pub mod input;
pub mod kernel;
pub mod output;
pub mod polynomial;

pub use crate::error::SavGolError;
pub use crate::factorial::factorial;
pub use crate::input::SavGolInput;
