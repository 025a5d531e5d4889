//! The BLS12-381 pairing-friendly curve, through arkworks: its scalar field
//! `F_r`, the groups G1, G2 and GT of prime order `r`, and SHA-256.

pub mod scalar;
pub mod group;
pub mod hash;
pub mod modulus_prime;
