//! Statistics support types.  The numeric statistics themselves (summaries,
//! distributions, the t-test) compute over floating-point samples and live in
//! the host-side shell.

pub mod t_test;
