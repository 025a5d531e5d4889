//! Elliptic-curve cryptography over small prime fields, written without any
//! outside cryptographic code.

pub mod field;
pub mod modular;
pub mod point;
pub mod scalar;
pub mod ecdsa;
pub mod group_laws;
pub mod closure;
pub mod multiples;
pub mod lucas;
