//! The failure kinds that fraction construction and the mediant search can
//! surface. All of them abort the current computation; none is retried.

use vstd::prelude::*;

verus! {

/// Everything that can go wrong while building fractions or running the
/// mediant search.
#[derive(Clone, Copy, Debug, PartialEq, Eq, Structural)]
pub enum FareyError {
    /// A fraction was asked to be constructed with a zero denominator.
    DivisionByZero,
    /// A numerator or denominator sum of a mediant step would exceed the
    /// unsigned 64-bit range.
    ArithmeticOverflow,
    /// The search target is negative, not finite, or its integer part does
    /// not fit in an unsigned 64-bit integer.
    InvalidInput,
    /// The search ran for its full iteration budget without the convergence
    /// test firing.
    NonConvergence,
}

impl FareyError {
    /// A human-readable description of the failure, for the caller's
    /// `Error: <message>` line.
    pub fn message(&self) -> (r: &'static str)
        ensures
            self is DivisionByZero ==> r@ == "division by zero: denominator cannot be zero"@,
            self is ArithmeticOverflow ==> r@ == "arithmetic overflow: mediant sums exceed the 64-bit range"@,
            self is InvalidInput ==> r@ == "invalid input: target must be finite, non-negative, with integer part below 2^64"@,
            self is NonConvergence ==> r@ == "no convergence: iteration budget exhausted before the target was matched"@,
    {
        match self {
            FareyError::DivisionByZero => "division by zero: denominator cannot be zero",
            FareyError::ArithmeticOverflow => "arithmetic overflow: mediant sums exceed the 64-bit range",
            FareyError::InvalidInput => "invalid input: target must be finite, non-negative, with integer part below 2^64",
            FareyError::NonConvergence => "no convergence: iteration budget exhausted before the target was matched",
        }
    }
}

} // verus!
