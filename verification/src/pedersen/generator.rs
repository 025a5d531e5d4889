//! The two generators of the commitment scheme: the standard generator `G`
//! of G1 and `H`, derived by hashing so that nobody knows its logarithm.

use vstd::prelude::*;
use crate::curve::scalar::{Scalar, fr_modulus, le_bytes_value};
use crate::curve::group::G1Point;
use crate::curve::hash::{sha256, sha256_digest};

verus! {

/// The ASCII bytes of the nothing-up-my-sleeve string `pedersen_h_generator`.
pub open spec fn h_seed() -> Seq<u8> {
    seq![112u8, 101, 100, 101, 114, 115, 101, 110, 95, 104, 95, 103, 101, 110, 101, 114, 97, 116, 111, 114]
}

/// The logarithm of `H`: the SHA-256 digest of the seed string read as a
/// little-endian integer modulo `r`.
pub open spec fn h_log() -> nat {
    le_bytes_value(sha256_digest(h_seed())) % fr_modulus()
}

/// Creates generator G — the standard BLS12-381 G1 generator.
///
/// This is a well-known, fixed point on the curve.
/// Everyone uses the same G — it's part of the curve specification.
pub fn generator_g() -> (r: G1Point)
    ensures
        r@ == 1,
{
    G1Point::generator()
}

/// Derives `H = h G` where `h` is the SHA-256 digest of
/// `pedersen_h_generator` reduced modulo `r`; since SHA-256 cannot be
/// reversed, the discrete log relationship between `G` and `H` is unknown.
pub fn generator_h() -> (r: G1Point)
    ensures
        r@ == h_log(),
{
    // 1. Hash a nothing-up-my-sleeve string
    let seed: Vec<u8> = vec![112u8, 101, 100, 101, 114, 115, 101, 110, 95, 104, 95, 103, 101, 110, 101, 114, 97, 116, 111, 114];
    assert(seed@ =~= h_seed());
    let hash_bytes = sha256(seed.as_slice());

    // 2. Convert hash output to a scalar (element of Fr), reduced mod r
    let h_scalar = Scalar::from_le_bytes_mod_order(hash_bytes.as_slice());

    // 3. Multiply G by this scalar to get H = h_scalar * G
    let g = G1Point::generator();
    let r = g.mul(&h_scalar);
    proof {
        vstd::arithmetic::div_mod::lemma_small_mod(h_log(), fr_modulus());
    }
    r
}

} // verus!
