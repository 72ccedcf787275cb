//! The ways a filter request can fail.

use vstd::prelude::*;

verus! {

/// Why a filter request was turned down, or why one of its numerical steps failed.
///
/// Every failure is final: the same request fails the same way again, and no
/// partial output accompanies it.
#[derive(Clone, Debug, PartialEq, Eq)]
pub enum SavGolError {
    /// The polynomial order is not below the window length.
    InvalidParameter,
    /// The window is longer than the signal.
    WindowTooLarge,
    /// The window length is even, so the window has no centre sample.
    EvenWindowUnsupported,
    /// A sample has no representation as a real number.
    ElementConversion { detail: String },
    /// The least-squares solve for the interior kernel failed.
    LeastSquaresSolve { detail: String },
    /// The polynomial fit at one edge of the signal failed.
    PolynomialFit { detail: String },
}

impl SavGolError {
    /// The text of [`SavGolError::message`].
    pub open spec fn spec_message(&self) -> Seq<char> {
        match self {
            SavGolError::InvalidParameter => "poly_order must be less than window_length."@,
            SavGolError::WindowTooLarge => "window_length must be less than or equal to the size of the input data"@,
            SavGolError::EvenWindowUnsupported => "window_length must be odd"@,
            SavGolError::ElementConversion { detail } => detail@,
            SavGolError::LeastSquaresSolve { detail } => detail@,
            SavGolError::PolynomialFit { detail } => detail@,
        }
    }

    /// A sentence for the person who made the request. The three failures that
    /// carry a detail report that detail unchanged.
    pub fn message(&self) -> (text: String)
        ensures
            text@ == self.spec_message(),
    {
        match self {
            SavGolError::InvalidParameter => "poly_order must be less than window_length.".to_owned(),
            SavGolError::WindowTooLarge => "window_length must be less than or equal to the size of the input data".to_owned(),
            SavGolError::EvenWindowUnsupported => "window_length must be odd".to_owned(),
            SavGolError::ElementConversion { detail } => detail.clone(),
            SavGolError::LeastSquaresSolve { detail } => detail.clone(),
            SavGolError::PolynomialFit { detail } => detail.clone(),
        }
    }
}

} // verus!
