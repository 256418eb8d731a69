//! Execution backends.

pub mod cpu;
pub mod cubecl_wgpu;
