//! BLS key generation, signing and verification.
//!
//! Private key `sk` is a scalar, public key `pk = sk * G2`, and the signature
//! of a message is `sk * H(m)` in G1; verification checks
//! `e(sig, G2) == e(H(m), pk)`.

use vstd::prelude::*;
use vstd::arithmetic::div_mod::lemma_small_mod;
use crate::curve::modulus_prime::lemma_fr_modulus_prime;
use crate::ecc::modular::lemma_no_zero_divisors;
use crate::curve::scalar::{Scalar, fr_modulus, le_bytes_value, fr_test_rng_draws};
use crate::curve::group::{G1Point, G2Point, pairing};
use crate::curve::hash::{sha256, sha256_digest};

verus! {

// In BLS:
// Private Key = Scalar (Fr)
// Public Key  = Point in G2
// Signature   = Point in G1
pub type PrivateKey = Scalar;

pub type PublicKey = G2Point;

pub type Signature = G1Point;

/// The discrete logarithm of `H(m)`: the SHA-256 digest of the message read
/// as a little-endian integer and reduced modulo `r`.
pub open spec fn hash_to_scalar(message: Seq<u8>) -> nat {
    le_bytes_value(sha256_digest(message)) % fr_modulus()
}

/// The logarithm of the signature of `message` under the private key `sk`.
pub open spec fn sign_spec(sk: nat, message: Seq<u8>) -> nat {
    (hash_to_scalar(message) * sk) % fr_modulus()
}

/// `e(sig, G2) == e(H(m), pk)`, stated on logarithms.
pub open spec fn verify_spec(pk: nat, message: Seq<u8>, sig: nat) -> bool {
    sig == (hash_to_scalar(message) * pk) % fr_modulus()
}

/// A fresh key pair: a private scalar drawn from the test generator and its
/// public key `sk * G2`.
pub fn keygen() -> (r: (PrivateKey, PublicKey))
    ensures
        r.1@ == r.0@,
        r.0@ < fr_modulus(),
{
    // sk = random scalar
    let (sk, _) = fr_test_rng_draws();

    // pk = sk * G2_generator
    let g2 = G2Point::generator();
    let pk = g2.mul(&sk);
    (sk, pk)
}

/// Hashes a message to the point `h G1` of G1, where `h` is its SHA-256 digest
/// read as a little-endian integer modulo `r`.
pub fn hash_message_to_g1(message: &[u8]) -> (r: G1Point)
    ensures
        r@ == hash_to_scalar(message@),
{
    // 1. Hash the message bytes using SHA-256
    let hash_result = sha256(message);
    // 2. Convert the 32-byte hash into a field element (scalar in Fr)
    let scalar = Scalar::from_le_bytes_mod_order(hash_result.as_slice());
    // 3. Multiply the G1 generator by this scalar to get a pseudo-random curve point
    let g1 = G1Point::generator();
    let r = g1.mul(&scalar);
    proof {
        lemma_small_mod(hash_to_scalar(message@), fr_modulus());
    }
    r
}

/// Signs a message: `sk * H(m)`.
pub fn sign(sk: &PrivateKey, message: &[u8]) -> (r: Signature)
    ensures
        r@ == sign_spec(sk@, message@),
{
    // 1. Hash message to a G1 point: H(m)
    let hm = hash_message_to_g1(message);
    // 2. Signature is just the private key times that point: sigma = sk * H(m)
    hm.mul(sk)
}

/// Verifies a signature: `e(sig, G2) == e(H(m), pk)`.
pub fn verify(pk: &PublicKey, message: &[u8], sig: &Signature) -> (r: bool)
    ensures
        r == verify_spec(pk@, message@, sig@),
{
    // 1. Hash the message back to the same G1 point: H(m)
    let hm = hash_message_to_g1(message);
    // 2. The pairing check: e(sigma, G2) == e(H(m), pk)
    let g2 = G2Point::generator();
    let lhs = pairing(sig, &g2);
    let rhs = pairing(&hm, pk);
    proof {
        lemma_small_mod(sig@, fr_modulus());
    }
    lhs.equals(&rhs)
}

/// A signature made with a private key verifies under the matching public key.
pub proof fn lemma_sign_then_verify(sk: nat, message: Seq<u8>)
    ensures
        verify_spec(sk, message, sign_spec(sk, message)),
{
}

/// For a message whose hash is not zero modulo `r`, a signature made with
/// one private key does not verify under the public key of a different
/// private key: `r` is prime, so `h a = h b` forces `a = b`.
pub proof fn lemma_wrong_key_fails(sk: nat, other_sk: nat, message: Seq<u8>)
    requires
        sk < fr_modulus(),
        other_sk < fr_modulus(),
        sk != other_sk,
        hash_to_scalar(message) != 0,
    ensures
        !verify_spec(other_sk, message, sign_spec(sk, message)),
{
    let h = hash_to_scalar(message) as int;
    let r = fr_modulus() as int;
    let (a, b) = if sk > other_sk { (sk as int, other_sk as int) } else { (other_sk as int, sk as int) };
    if (h * a) % r == (h * b) % r {
        lemma_fr_modulus_prime();
        vstd::arithmetic::div_mod::lemma_mod_bound(le_bytes_value(sha256_digest(message)) as int, r);
        lemma_no_zero_divisors(h, a - b, r);
        vstd::arithmetic::div_mod::lemma_sub_mod_noop(h * a, h * b, r);
        lemma_small_mod(0, fr_modulus());
        assert(h * a - h * b == h * (a - b)) by (nonlinear_arith);
        assert(false);
    }
}

} // verus!
