use oscirs::plot::err::PlotError;
use oscirs::plot::scatterline::Location;
use oscirs::plot::style::{scatter_style, PlotStyle};
use oscirs::plot::svgstyle::SVGStyle;
use oscirs::plot::Color;

#[test]
fn color_codes() {
    assert_eq!(Color::Red.code(), "#FF0000");
    assert_eq!(Color::Green.code(), "#00FF00");
    assert_eq!(Color::Blue.code(), "#0000FF");
    assert_eq!(Color::Pink.code(), "#FF00FF");
    assert_eq!(Color::Black.code(), "#000000");
    assert_eq!(Color::Gray.code(), "#777777");
    assert_eq!(Color::LightGray.code(), "#D3D3D3");
    assert_eq!(Color::NoColor.code(), "none");
    assert_eq!(Color::Hex(String::from("#123456")).code(), "#123456");
}

#[test]
fn plot_style_default() {
    let style = PlotStyle::default();
    assert!(matches!(style.stroke_color, Color::Black));
    assert_eq!(style.stroke_width, 2);
    assert!(matches!(style.fill_color, Color::NoColor));
    assert!(!style.has_markers);
}

#[test]
fn plot_scatter_style() {
    let style = scatter_style(Color::Blue);
    assert!(matches!(style.stroke_color, Color::Blue));
    assert_eq!(style.stroke_width, 0);
    assert!(matches!(style.fill_color, Color::NoColor));
    assert!(style.has_markers);
}

#[test]
fn svg_style_default_and_scatter() {
    let style = SVGStyle::default();
    assert!(matches!(style.stroke_color, Color::Black));
    assert_eq!(style.stroke_width, 2);
    assert!(matches!(style.fill_color, Color::NoColor));
    assert!(!style.has_markers);

    let scatter = oscirs::plot::svgstyle::scatter_style(Color::Red);
    assert!(matches!(scatter.stroke_color, Color::Red));
    assert_eq!(scatter.stroke_width, 0);
    assert!(scatter.has_markers);
}

#[test]
fn legend_locations() {
    assert!(matches!(Location::Northwest, Location::Northwest));
    assert!(matches!(
        oscirs::plot::svgfigure::Location::Northwest,
        oscirs::plot::svgfigure::Location::Northwest
    ));
}

#[test]
fn plot_error_messages() {
    assert_eq!(PlotError::BoundsError.message(), "Data out of bounds for chart type");
    assert_eq!(
        PlotError::ChartTypeError.message(),
        "Incompatible chart type for requested operation"
    );
    assert_eq!(PlotError::DataLengthError.message(), "Input data lengths are not equal");
    assert_eq!(PlotError::OtherError(String::from("oops")).message(), "oops");
}
