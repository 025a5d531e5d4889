//! Errors of the multilinear-polynomial operations.

use vstd::prelude::*;

verus! {

/// Why an operation on a multilinear polynomial was refused.
#[derive(Debug, Clone, Copy, PartialEq, Eq, Structural)]
pub enum MLEError {
    /// evals length is not a power of two
    NotPowerOfTwo(usize),
    /// point length differs from the number of variables
    PointLenMismatch { point: usize, vars: usize },
    /// two polynomials have different numbers of variables
    NumVarsMismatch { lhs: usize, rhs: usize },
    /// cannot fix variable on a constant polynomial (0 variables)
    NoVariables,
}

} // verus!
