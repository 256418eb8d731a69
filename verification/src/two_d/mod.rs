//! Two-dimensional baseline support: window geometry, polynomial surface
//! terms and eigenspace parameter checks.

pub mod morphology;
pub mod optimizers;
pub mod polynomial;
pub mod whittaker_eigen;
