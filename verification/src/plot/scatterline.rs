//! Support types for the scatterline figure.  The figure itself plots
//! floating-point series and writes SVG files, so it lives in the host-side
//! shell.

use vstd::prelude::*;

verus! {

/// Where a figure's legend is placed.
#[derive(Clone, Copy, Debug)]
pub enum Location {
    Northwest,
}

} // verus!
