//! Cryptographic primitives built from first principles and on top of the
//! arkworks BLS12-381 implementation: prime-field and elliptic-curve
//! arithmetic with toy ECDSA, BLS signatures, Pedersen commitments,
//! univariate and multilinear polynomials, and the sumcheck protocol.

pub mod ecc;
pub mod curve;
pub mod bls;
pub mod pedersen;
pub mod multilinear;
pub mod univariate;
