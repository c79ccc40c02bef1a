//! Error taxonomy for the columnar distance operation.

use vstd::prelude::*;

verus! {

/// Why a columnar invocation was rejected. All failures are surfaced to
/// the caller synchronously; no partial output is ever produced.
#[derive(Clone, Copy, Debug, PartialEq, Eq, Structural)]
pub enum UdfError {
    /// The four input columns do not all have the same length.
    LengthMismatch,
    /// An input could not be read as a column of 64-bit float values.
    /// The verified driver never produces this; the host boundary maps
    /// its array-conversion failures onto it.
    InputConversion,
}

impl UdfError {
    /// A short human-readable description of the failure.
    pub fn message(&self) -> (r: &'static str)
        ensures
            (*self is LengthMismatch) ==> r@ == "input columns have mismatched lengths"@,
            (*self is InputConversion) ==> r@ == "input could not be read as a float64 column"@,
    {
        match self {
            UdfError::LengthMismatch => "input columns have mismatched lengths",
            UdfError::InputConversion => "input could not be read as a float64 column",
        }
    }
}

} // verus!
