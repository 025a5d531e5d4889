//! Univariate polynomials over the BLS12-381 scalar field, stored as
//! coefficient vectors, with arithmetic, Horner evaluation and Lagrange
//! interpolation.

pub mod algebra;
pub mod polynomial;
pub mod roots;
