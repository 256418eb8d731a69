//! Penalized spline baseline algorithms.

pub mod corner;

pub use corner::CornerCuttingParams;
