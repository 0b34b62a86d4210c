//! Support types for the single-sample t-test.  The test itself integrates a
//! floating-point distribution, so it lives in the host-side shell.

use vstd::prelude::*;

verus! {

/// Which tail of the distribution a t-test examines.
#[derive(Clone, Copy, Debug)]
pub enum TTestType {
    /// Test whether the population mean is less than the test mean.
    TestLess,
    /// Test whether the population mean is greater than the test mean.
    TestGreater,
    /// Test whether the population mean differs from the test mean.
    TestNotEqual,
}

} // verus!
