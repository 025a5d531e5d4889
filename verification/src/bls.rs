//! BLS signatures on BLS12-381: keys, signing, pairing-based verification and
//! aggregation.

pub mod signature;
pub mod aggregate;
