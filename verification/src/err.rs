//! Error type shared by the collection's numeric routines.

use vstd::prelude::*;
use vstd::string::StringExecFns;

verus! {

/// Every failure the collection's numeric routines can report.
#[derive(Debug)]
pub enum SciError {
    /// Dimensions not valid for the requested operation.
    DimensionsError,
    /// A value lay outside the range of the given vector.
    RangeError,
    /// Input vector lengths not valid for the requested operation.
    VectorLengthsError,
    /// Any other failure, described in text.
    OtherError(String),
}

impl SciError {
    /// The human-readable description of this error.
    pub open spec fn message_spec(&self) -> Seq<char> {
        match self {
            SciError::DimensionsError => "Given dimensions not valid for requested operation"@,
            SciError::RangeError => "Given value is not in range of given vector"@,
            SciError::VectorLengthsError => "Input vector lengths not valid for requested operation"@,
            SciError::OtherError(text) => text@,
        }
    }

    /// Renders the description of this error.
    pub fn message(&self) -> (r: String)
        ensures
            r@ == self.message_spec(),
    {
        match self {
            SciError::DimensionsError => String::from_str(
                "Given dimensions not valid for requested operation",
            ),
            SciError::RangeError => String::from_str("Given value is not in range of given vector"),
            SciError::VectorLengthsError => String::from_str(
                "Input vector lengths not valid for requested operation",
            ),
            SciError::OtherError(text) => text.clone(),
        }
    }
}

} // verus!
