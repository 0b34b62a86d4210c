//! Stroke, fill and marker parameters of an SVG figure's data series.

use vstd::prelude::*;

use crate::plot::Color;

verus! {

/// Plotting parameters of one data series in an SVG figure.
#[derive(Clone, Debug)]
pub struct SVGStyle {
    pub stroke_color: Color,
    pub stroke_width: i32,
    pub fill_color: Color,
    pub has_markers: bool,
}

impl Default for SVGStyle {
    /// A black two-unit stroke with no fill and no markers.
    fn default() -> (d: SVGStyle)
        ensures
            d.stroke_color is Black,
            d.stroke_width == 2,
            d.fill_color is NoColor,
            !d.has_markers,
    {
        SVGStyle {
            stroke_color: Color::Black,
            stroke_width: 2,
            fill_color: Color::NoColor,
            has_markers: false,
        }
    }
}

/// The style of a scatter series: markers only, in the given color, with no
/// connecting stroke.
pub fn scatter_style(color: Color) -> (s: SVGStyle)
    ensures
        s.stroke_color == color,
        s.stroke_width == 0,
        s.fill_color is NoColor,
        s.has_markers,
{
    SVGStyle { stroke_color: color, stroke_width: 0, fill_color: Color::NoColor, has_markers: true }
}

} // verus!
