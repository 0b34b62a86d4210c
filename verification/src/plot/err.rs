//! Error type for the plotting modules.

use vstd::prelude::*;
use vstd::string::StringExecFns;

verus! {

/// Every failure the plotting modules can report.
#[derive(Debug)]
pub enum PlotError {
    /// Data lay out of bounds for the chart type.
    BoundsError,
    /// The chart type cannot perform the requested operation.
    ChartTypeError,
    /// Input data series had unequal lengths.
    DataLengthError,
    /// Any other failure, described in text.
    OtherError(String),
}

impl PlotError {
    /// The human-readable description of this error.
    pub open spec fn message_spec(&self) -> Seq<char> {
        match self {
            PlotError::BoundsError => "Data out of bounds for chart type"@,
            PlotError::ChartTypeError => "Incompatible chart type for requested operation"@,
            PlotError::DataLengthError => "Input data lengths are not equal"@,
            PlotError::OtherError(text) => text@,
        }
    }

    /// Renders the description of this error.
    pub fn message(&self) -> (r: String)
        ensures
            r@ == self.message_spec(),
    {
        match self {
            PlotError::BoundsError => String::from_str("Data out of bounds for chart type"),
            PlotError::ChartTypeError => String::from_str(
                "Incompatible chart type for requested operation",
            ),
            PlotError::DataLengthError => String::from_str("Input data lengths are not equal"),
            PlotError::OtherError(text) => text.clone(),
        }
    }
}

} // verus!
