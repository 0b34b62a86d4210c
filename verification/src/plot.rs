//! Plot styling support: colors and stroke/fill parameter sets.
//!
//! Figure rendering itself (scatterlines, bars, histograms) works over
//! floating-point data and writes SVG files, so it lives in the unverified
//! host-side shell; the style values it consumes are defined and checked
//! here.

use vstd::prelude::*;
use vstd::string::StringExecFns;

pub mod err;
pub mod scatterline;
pub mod style;
pub mod svgfigure;
pub mod svgstyle;

verus! {

/// A plotting color: one of the named colors, no color at all, or an
/// arbitrary hex code.
#[derive(Clone, Debug)]
pub enum Color {
    Red,
    Green,
    Blue,
    Pink,
    Black,
    Gray,
    LightGray,
    NoColor,
    Hex(String),
}

impl Color {
    /// The SVG color string this color renders as.
    pub open spec fn code_spec(&self) -> Seq<char> {
        match self {
            Color::Red => "#FF0000"@,
            Color::Green => "#00FF00"@,
            Color::Blue => "#0000FF"@,
            Color::Pink => "#FF00FF"@,
            Color::Black => "#000000"@,
            Color::Gray => "#777777"@,
            Color::LightGray => "#D3D3D3"@,
            Color::NoColor => "none"@,
            Color::Hex(hex_code) => hex_code@,
        }
    }

    /// Renders the color as the string an SVG attribute takes.
    pub fn code(&self) -> (r: String)
        ensures
            r@ == self.code_spec(),
    {
        match self {
            Color::Red => String::from_str("#FF0000"),
            Color::Green => String::from_str("#00FF00"),
            Color::Blue => String::from_str("#0000FF"),
            Color::Pink => String::from_str("#FF00FF"),
            Color::Black => String::from_str("#000000"),
            Color::Gray => String::from_str("#777777"),
            Color::LightGray => String::from_str("#D3D3D3"),
            Color::NoColor => String::from_str("none"),
            Color::Hex(hex_code) => hex_code.clone(),
        }
    }
}

} // verus!
