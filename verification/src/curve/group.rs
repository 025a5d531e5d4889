//! The prime-order groups G1, G2 and GT of BLS12-381 and the pairing
//! `e: G1 x G2 -> GT`, computed by arkworks.
//!
//! Each group is cyclic of prime order `r` with a fixed generator (for GT, the
//! pairing of the generators of G1 and G2), so each element is `k` times the
//! generator for exactly one `k` in `[0, r)`, its discrete logarithm. An
//! element is held as its canonical uncompressed encoding, and its view is
//! that logarithm: the group operations add and multiply logarithms modulo
//! `r`, and the pairing multiplies the logarithms of its arguments.

use vstd::prelude::*;
use ark_bls12_381::{Bls12_381, Fr, G1Projective, G2Projective};
use ark_ec::pairing::{Pairing, PairingOutput};
use ark_ec::PrimeGroup;
use ark_ff::{BigInt, Field, PrimeField, Zero};
use ark_serialize::{CanonicalDeserialize, CanonicalSerialize};
use crate::curve::scalar::{Scalar, fr_modulus, lemma_canonical_bound};

verus! {

/// The uncompressed arkworks encoding of `k` times the generator of G1.
pub uninterp spec fn g1_encoding(k: nat) -> Seq<u8>;

/// The uncompressed arkworks encoding of `k` times the generator of G2.
pub uninterp spec fn g2_encoding(k: nat) -> Seq<u8>;

/// The uncompressed arkworks encoding of `e(G1, G2)^k`, for the generators of G1 and G2.
pub uninterp spec fn gt_encoding(k: nat) -> Seq<u8>;

/// A point of G1.
#[derive(Debug)]
pub struct G1Point {
    bytes: Vec<u8>,
}

/// A point of G2.
#[derive(Debug)]
pub struct G2Point {
    bytes: Vec<u8>,
}

/// An element of the target group GT of the pairing.
#[derive(Debug)]
pub struct GtElem {
    bytes: Vec<u8>,
}

impl G1Point {
    /// The bytes are the 96-byte encoding of a multiple of the generator.
    #[verifier::type_invariant]
    spec fn encodes_element(self) -> bool {
        &&& self.bytes@.len() == 96
        &&& exists|k: nat| k < fr_modulus() && #[trigger] g1_encoding(k) == self.bytes@
    }
}

impl G2Point {
    /// The bytes encode a multiple of the generator.
    #[verifier::type_invariant]
    spec fn encodes_element(self) -> bool {
        exists|k: nat| k < fr_modulus() && #[trigger] g2_encoding(k) == self.bytes@
    }
}

impl GtElem {
    /// The bytes encode a power of `e(G1, G2)`.
    #[verifier::type_invariant]
    spec fn encodes_element(self) -> bool {
        exists|k: nat| k < fr_modulus() && #[trigger] gt_encoding(k) == self.bytes@
    }
}

impl Clone for G1Point {
    fn clone(&self) -> (r: Self)
        ensures
            r@ == self@,
    {
        proof {
            use_type_invariant(self);
        }
        let bytes = self.bytes.clone();
        assert(bytes@ == self.bytes@);
        G1Point { bytes }
    }
}

impl View for G1Point {
    type V = nat;

    /// The discrete logarithm of the point to the base of the generator.
    closed spec fn view(&self) -> nat {
        choose|k: nat| k < fr_modulus() && #[trigger] g1_encoding(k) == self.bytes@
    }
}

impl Clone for G2Point {
    fn clone(&self) -> (r: Self)
        ensures
            r@ == self@,
    {
        proof {
            use_type_invariant(self);
        }
        let bytes = self.bytes.clone();
        assert(bytes@ == self.bytes@);
        G2Point { bytes }
    }
}

impl View for G2Point {
    type V = nat;

    /// The discrete logarithm of the point to the base of the generator.
    closed spec fn view(&self) -> nat {
        choose|k: nat| k < fr_modulus() && #[trigger] g2_encoding(k) == self.bytes@
    }
}

impl Clone for GtElem {
    fn clone(&self) -> (r: Self)
        ensures
            r@ == self@,
    {
        proof {
            use_type_invariant(self);
        }
        let bytes = self.bytes.clone();
        assert(bytes@ == self.bytes@);
        GtElem { bytes }
    }
}

impl View for GtElem {
    type V = nat;

    /// The discrete logarithm of the element to the base `e(G1, G2)`.
    closed spec fn view(&self) -> nat {
        choose|k: nat| k < fr_modulus() && #[trigger] gt_encoding(k) == self.bytes@
    }
}

/// Wraps `G1Projective::generator()`: the generator, logarithm one; its
/// uncompressed encoding is 96 bytes, as for every point of G1.
#[verifier::external_body]
fn g1_generator() -> (r: G1Point)
    ensures
        r.bytes@.len() == 96,
        r.bytes@ == g1_encoding(1),
        r@ == 1,
{
    let mut bytes = Vec::new();
    G1Projective::generator().serialize_uncompressed(&mut bytes).unwrap();
    G1Point { bytes }
}

/// Wraps `G1Projective::default()`: the identity, logarithm zero, in 96 bytes.
#[verifier::external_body]
fn g1_identity() -> (r: G1Point)
    ensures
        r.bytes@.len() == 96,
        r.bytes@ == g1_encoding(0),
        r@ == 0,
{
    let mut bytes = Vec::new();
    G1Projective::default().serialize_uncompressed(&mut bytes).unwrap();
    G1Point { bytes }
}

/// Wraps `G1Projective + G1Projective`: the logarithms add modulo `r`; the
/// sum is encoded in 96 bytes.
#[verifier::external_body]
fn g1_add(a: &G1Point, b: &G1Point) -> (r: G1Point)
    ensures
        r.bytes@.len() == 96,
        r.bytes@ == g1_encoding(((a@ + b@) % fr_modulus()) as nat),
        r@ == (a@ + b@) % fr_modulus(),
{
    let p = G1Projective::deserialize_uncompressed_unchecked(&a.bytes[..]).unwrap();
    let q = G1Projective::deserialize_uncompressed_unchecked(&b.bytes[..]).unwrap();
    let mut bytes = Vec::new();
    (p + q).serialize_uncompressed(&mut bytes).unwrap();
    G1Point { bytes }
}

/// Wraps `G1Projective - G1Projective`: the logarithms subtract modulo `r`;
/// the difference is encoded in 96 bytes.
#[verifier::external_body]
fn g1_sub(a: &G1Point, b: &G1Point) -> (r: G1Point)
    ensures
        r.bytes@.len() == 96,
        r.bytes@ == g1_encoding(((a@ - b@) % (fr_modulus() as int)) as nat),
        r@ == (a@ - b@) % (fr_modulus() as int),
{
    let p = G1Projective::deserialize_uncompressed_unchecked(&a.bytes[..]).unwrap();
    let q = G1Projective::deserialize_uncompressed_unchecked(&b.bytes[..]).unwrap();
    let mut bytes = Vec::new();
    (p - q).serialize_uncompressed(&mut bytes).unwrap();
    G1Point { bytes }
}

/// Wraps `G1Projective * Fr`: the logarithm is multiplied by the scalar
/// modulo `r`; the product is encoded in 96 bytes.
#[verifier::external_body]
fn g1_mul(a: &G1Point, s: &Scalar) -> (r: G1Point)
    ensures
        r.bytes@.len() == 96,
        r.bytes@ == g1_encoding(((a@ * s@) % fr_modulus()) as nat),
        r@ == (a@ * s@) % fr_modulus(),
{
    let p = G1Projective::deserialize_uncompressed_unchecked(&a.bytes[..]).unwrap();
    let k = Fr::from_bigint(BigInt::new(s.limbs)).unwrap();
    let mut bytes = Vec::new();
    (p * k).serialize_uncompressed(&mut bytes).unwrap();
    G1Point { bytes }
}

/// Wraps `G2Projective::generator()`: the generator, logarithm one.
#[verifier::external_body]
fn g2_generator() -> (r: G2Point)
    ensures
        r.bytes@ == g2_encoding(1),
        r@ == 1,
{
    let mut bytes = Vec::new();
    G2Projective::generator().serialize_uncompressed(&mut bytes).unwrap();
    G2Point { bytes }
}

/// Wraps `G2Projective::default()`: the identity, logarithm zero.
#[verifier::external_body]
fn g2_identity() -> (r: G2Point)
    ensures
        r.bytes@ == g2_encoding(0),
        r@ == 0,
{
    let mut bytes = Vec::new();
    G2Projective::default().serialize_uncompressed(&mut bytes).unwrap();
    G2Point { bytes }
}

/// Wraps `G2Projective + G2Projective`: the logarithms add modulo `r`.
#[verifier::external_body]
fn g2_add(a: &G2Point, b: &G2Point) -> (r: G2Point)
    ensures
        r.bytes@ == g2_encoding(((a@ + b@) % fr_modulus()) as nat),
        r@ == (a@ + b@) % fr_modulus(),
{
    let p = G2Projective::deserialize_uncompressed_unchecked(&a.bytes[..]).unwrap();
    let q = G2Projective::deserialize_uncompressed_unchecked(&b.bytes[..]).unwrap();
    let mut bytes = Vec::new();
    (p + q).serialize_uncompressed(&mut bytes).unwrap();
    G2Point { bytes }
}

/// Wraps `G2Projective * Fr`: the logarithm is multiplied by the scalar modulo `r`.
#[verifier::external_body]
fn g2_mul(a: &G2Point, s: &Scalar) -> (r: G2Point)
    ensures
        r.bytes@ == g2_encoding(((a@ * s@) % fr_modulus()) as nat),
        r@ == (a@ * s@) % fr_modulus(),
{
    let p = G2Projective::deserialize_uncompressed_unchecked(&a.bytes[..]).unwrap();
    let k = Fr::from_bigint(BigInt::new(s.limbs)).unwrap();
    let mut bytes = Vec::new();
    (p * k).serialize_uncompressed(&mut bytes).unwrap();
    G2Point { bytes }
}

/// Wraps `Bls12_381::pairing`: the pairing is bilinear and non-degenerate, so
/// `e(a G1, b G2) = e(G1, G2)^(a b)`.
#[verifier::external_body]
fn bls12_pairing(p: &G1Point, q: &G2Point) -> (r: GtElem)
    ensures
        r.bytes@ == gt_encoding(((p@ * q@) % fr_modulus()) as nat),
        r@ == (p@ * q@) % fr_modulus(),
{
    let a = G1Projective::deserialize_uncompressed_unchecked(&p.bytes[..]).unwrap();
    let b = G2Projective::deserialize_uncompressed_unchecked(&q.bytes[..]).unwrap();
    let mut bytes = Vec::new();
    Bls12_381::pairing(a, b).serialize_uncompressed(&mut bytes).unwrap();
    GtElem { bytes }
}

/// Wraps `PairingOutput::zero()`: the identity of GT (the field's one),
/// logarithm zero.
#[verifier::external_body]
fn gt_identity() -> (r: GtElem)
    ensures
        r.bytes@ == gt_encoding(0),
        r@ == 0,
{
    let mut bytes = Vec::new();
    PairingOutput::<Bls12_381>::zero().serialize_uncompressed(&mut bytes).unwrap();
    GtElem { bytes }
}

/// Wraps `Field::pow` on the target field: raising to the power `s`
/// multiplies the logarithm by `s` modulo `r`.
#[verifier::external_body]
fn gt_pow(a: &GtElem, s: &Scalar) -> (r: GtElem)
    ensures
        r.bytes@ == gt_encoding(((a@ * s@) % fr_modulus()) as nat),
        r@ == (a@ * s@) % fr_modulus(),
{
    let x = PairingOutput::<Bls12_381>::deserialize_uncompressed_unchecked(&a.bytes[..]).unwrap();
    let k = Fr::from_bigint(BigInt::new(s.limbs)).unwrap();
    let mut bytes = Vec::new();
    PairingOutput::<Bls12_381>(x.0.pow(k.into_bigint())).serialize_uncompressed(&mut bytes).unwrap();
    GtElem { bytes }
}

/// Byte-wise equality of two encodings.
fn bytes_equal(a: &Vec<u8>, b: &Vec<u8>) -> (r: bool)
    ensures
        r == (a@ == b@),
{
    if a.len() != b.len() {
        return false;
    }
    let mut i: usize = 0;
    while i < a.len()
        invariant
            a.len() == b.len(),
            i <= a.len(),
            forall|j: int| 0 <= j < i ==> a@[j] == b@[j],
        decreases a.len() - i,
    {
        if a[i] != b[i] {
            return false;
        }
        i = i + 1;
    }
    assert(a@ =~= b@);
    true
}

impl G1Point {
    /// The generator of G1.
    pub fn generator() -> (r: G1Point)
        ensures
            r@ == 1,
    {
        g1_generator()
    }

    /// The identity of G1 (the point at infinity).
    pub fn identity() -> (r: G1Point)
        ensures
            r@ == 0,
    {
        g1_identity()
    }

    /// `self + other`.
    pub fn add(&self, other: &G1Point) -> (r: G1Point)
        ensures
            r@ == (self@ + other@) % fr_modulus(),
            self@ < fr_modulus(),
            other@ < fr_modulus(),
    {
        proof {
            use_type_invariant(self);
            use_type_invariant(other);
        }
        g1_add(self, other)
    }

    /// `self - other`.
    pub fn sub(&self, other: &G1Point) -> (r: G1Point)
        ensures
            r@ == (self@ - other@) % (fr_modulus() as int),
            self@ < fr_modulus(),
            other@ < fr_modulus(),
    {
        proof {
            use_type_invariant(self);
            use_type_invariant(other);
        }
        g1_sub(self, other)
    }

    /// `self * s`.
    pub fn mul(&self, s: &Scalar) -> (r: G1Point)
        ensures
            r@ == (self@ * s@) % fr_modulus(),
            self@ < fr_modulus(),
            s@ < fr_modulus(),
    {
        proof {
            use_type_invariant(self);
            use_type_invariant(s);
            lemma_canonical_bound(*s);
        }
        g1_mul(self, s)
    }

    /// Equality of points.
    pub fn equals(&self, other: &G1Point) -> (r: bool)
        ensures
            r == (self@ == other@),
    {
        proof {
            use_type_invariant(self);
            use_type_invariant(other);
        }
        bytes_equal(&self.bytes, &other.bytes)
    }

    /// The canonical uncompressed encoding of the point.
    pub fn to_bytes(&self) -> (r: Vec<u8>)
        ensures
            r@ == g1_encoding(self@),
            r@.len() == 96,
    {
        proof {
            use_type_invariant(self);
        }
        self.bytes.clone()
    }
}

impl G2Point {
    /// The generator of G2.
    pub fn generator() -> (r: G2Point)
        ensures
            r@ == 1,
    {
        g2_generator()
    }

    /// The identity of G2 (the point at infinity).
    pub fn identity() -> (r: G2Point)
        ensures
            r@ == 0,
    {
        g2_identity()
    }

    /// `self + other`.
    pub fn add(&self, other: &G2Point) -> (r: G2Point)
        ensures
            r@ == (self@ + other@) % fr_modulus(),
            self@ < fr_modulus(),
            other@ < fr_modulus(),
    {
        proof {
            use_type_invariant(self);
            use_type_invariant(other);
        }
        g2_add(self, other)
    }

    /// `self * s`.
    pub fn mul(&self, s: &Scalar) -> (r: G2Point)
        ensures
            r@ == (self@ * s@) % fr_modulus(),
            self@ < fr_modulus(),
            s@ < fr_modulus(),
    {
        proof {
            use_type_invariant(self);
            use_type_invariant(s);
            lemma_canonical_bound(*s);
        }
        g2_mul(self, s)
    }

    /// Equality of points.
    pub fn equals(&self, other: &G2Point) -> (r: bool)
        ensures
            r == (self@ == other@),
    {
        proof {
            use_type_invariant(self);
            use_type_invariant(other);
        }
        bytes_equal(&self.bytes, &other.bytes)
    }
}

impl GtElem {
    /// The identity of GT.
    pub fn identity() -> (r: GtElem)
        ensures
            r@ == 0,
    {
        gt_identity()
    }

    /// `self^s`: in GT, written multiplicatively, scalar multiplication is
    /// exponentiation.
    pub fn pow(&self, s: &Scalar) -> (r: GtElem)
        ensures
            r@ == (self@ * s@) % fr_modulus(),
            self@ < fr_modulus(),
            s@ < fr_modulus(),
    {
        proof {
            use_type_invariant(self);
            lemma_canonical_bound(*s);
        }
        gt_pow(self, s)
    }

    /// Equality in the target group.
    pub fn equals(&self, other: &GtElem) -> (r: bool)
        ensures
            r == (self@ == other@),
    {
        proof {
            use_type_invariant(self);
            use_type_invariant(other);
        }
        bytes_equal(&self.bytes, &other.bytes)
    }
}

/// The pairing `e(p, q)`.
pub fn pairing(p: &G1Point, q: &G2Point) -> (r: GtElem)
    ensures
        r@ == (p@ * q@) % fr_modulus(),
        p@ < fr_modulus(),
        q@ < fr_modulus(),
{
    proof {
        use_type_invariant(p);
        use_type_invariant(q);
    }
    bls12_pairing(p, q)
}

/// Scalar multiplication distributes over the sum of scalars:
/// `a P + b P = (a + b) P`, on logarithms.
pub proof fn lemma_scalar_mul_distributes(p: nat, a: nat, b: nat)
    ensures
        ((p * a) % fr_modulus() + (p * b) % fr_modulus()) % fr_modulus()
            == (p * ((a + b) % fr_modulus())) % fr_modulus(),
{
    let m = fr_modulus() as int;
    vstd::arithmetic::div_mod::lemma_add_mod_noop((p * a) as int, (p * b) as int, m);
    vstd::arithmetic::div_mod::lemma_mul_mod_noop_right(p as int, (a + b) as int, m);
    assert(p * a + p * b == p * (a + b)) by (nonlinear_arith);
}

/// The pairing is bilinear: `e(a P, b Q) = e(P, Q)^(a b) = e((a b) P, Q)`,
/// on logarithms.
pub proof fn lemma_pairing_bilinear(p: nat, q: nat, a: nat, b: nat)
    ensures
        (((p * a) % fr_modulus()) * ((q * b) % fr_modulus())) % fr_modulus()
            == (((p * q) % fr_modulus()) * ((a * b) % fr_modulus())) % fr_modulus(),
        (((p * a) % fr_modulus()) * ((q * b) % fr_modulus())) % fr_modulus()
            == (((p * ((a * b) % fr_modulus())) % fr_modulus()) * q) % fr_modulus(),
{
    let m = fr_modulus() as int;
    let (pa, qb, pq, ab) = ((p * a) as int, (q * b) as int, (p * q) as int, (a * b) as int);
    vstd::arithmetic::div_mod::lemma_mul_mod_noop(pa, qb, m);
    vstd::arithmetic::div_mod::lemma_mul_mod_noop(pq, ab, m);
    vstd::arithmetic::div_mod::lemma_mul_mod_noop_right(p as int, ab, m);
    vstd::arithmetic::div_mod::lemma_mul_mod_noop_left((p * ((a * b) % fr_modulus())) as int, q as int, m);
    vstd::arithmetic::div_mod::lemma_mul_mod_noop_left((p * (a * b)) as int, q as int, m);
    assert(pa * qb == pq * ab) by (nonlinear_arith)
        requires
            pa == p * a, qb == q * b, pq == p * q, ab == a * b,
    ;
    assert(pa * qb == (p * (a * b)) * q) by (nonlinear_arith)
        requires
            pa == p * a, qb == q * b,
    ;
}

/// The identity is neutral and a point minus itself is the identity, on
/// logarithms.
pub proof fn lemma_identity_laws(p: nat)
    requires
        p < fr_modulus(),
    ensures
        (p + 0) % fr_modulus() == p,
        (p - p) % (fr_modulus() as int) == 0,
        (p * 0) % fr_modulus() == 0,
{
    vstd::arithmetic::div_mod::lemma_small_mod(p, fr_modulus());
    vstd::arithmetic::div_mod::lemma_small_mod(0, fr_modulus());
}

} // verus!
