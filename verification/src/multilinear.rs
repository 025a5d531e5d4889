//! Multilinear polynomials stored as their evaluations over the boolean
//! hypercube, and the sumcheck protocol on them.

pub mod utils;
pub mod error;
pub mod dense;
pub mod sumcheck;
