//! Device-resident linear algebra: matrices addressed by stable handles,
//! kernel registration, and verified dispatch planning.

pub mod calculator;
pub mod err;
pub mod matrix;
pub mod memory;
