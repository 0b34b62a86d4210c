//! A scientific computing collection built around a device-resident
//! linear-algebra execution engine.
//!
//! The heart of the crate is [`linalg`]: a fixed-capacity table of
//! device-resident matrix buffers addressed by stable integer handles, a
//! registry of compute kernels, and a calculator that validates shapes and
//! plans kernel dispatches.  All bookkeeping, shape validation and dispatch
//! geometry is verified; the compute device itself (an OpenCL queue driven by
//! an unverified shell) performs the kernel launches and hands the raw
//! element words back through [`linalg::calculator::Calculator::complete_dispatch`].
//!
//! The companion modules hold the host-side pieces of the collection that do
//! not touch the device: plotting styles ([`plot`]) and statistics support
//! types ([`err`], [`stats`]).

pub mod err;
pub mod linalg;
pub mod plot;
pub mod stats;
