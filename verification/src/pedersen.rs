//! Pedersen commitments `C = v G + r H` on G1 of BLS12-381, their additive
//! homomorphism, and confidential accounts built on them.

pub mod generator;
pub mod commit;
pub mod homomorphic;
pub mod confidential;
