//! Method-chain builders: a borrowed input together with the parameters of
//! one algorithm, adjusted one setting at a time.

pub mod one_d;
pub mod two_d;
