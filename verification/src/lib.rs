//! Index, shape, mask and parameter logic for baseline correction of
//! one-dimensional signals and row-major two-dimensional surfaces.

pub mod data;
pub mod error;
pub mod fit;

pub use data::{MatrixLayout, MatrixShape};
pub use error::BaselineError;
pub mod simple;
pub mod classification;
pub mod misc;
pub mod morphology;
pub mod smoothing;
pub mod linalg;
pub mod polynomial;
pub mod spline;
pub mod two_d;
pub mod api;
pub mod backend;
pub mod optimizers;
pub mod whittaker;
pub mod workspace;
