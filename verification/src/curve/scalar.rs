//! Elements of the BLS12-381 scalar field `F_r`, held as canonical limbs and
//! computed on by arkworks' `Fr`.

use vstd::prelude::*;
use vstd::arithmetic::div_mod::{lemma_fundamental_div_mod_converse_mod, lemma_fundamental_div_mod_converse_div};
use ark_bls12_381::Fr;
use ark_ff::{BigInt, Field, PrimeField};
use ark_std::UniformRand;

verus! {

/// The order `r` of the BLS12-381 groups, the modulus of the scalar field.
pub open spec fn fr_modulus() -> nat {
    52435875175126190479447740508185965837690552500527637822603658699938581184513nat
}

pub open spec fn limb_base() -> nat {
    0x1_0000_0000_0000_0000nat
}

/// The integer with little-endian 64-bit limbs `l`.
pub open spec fn limbs_value(l: Seq<u64>) -> nat {
    (l[0] + limb_base() * (l[1] + limb_base() * (l[2] + limb_base() * l[3]))) as nat
}

/// The integer with little-endian bytes `b`.
pub open spec fn le_bytes_value(b: Seq<u8>) -> nat
    decreases b.len(),
{
    if b.len() == 0 {
        0
    } else {
        (b[0] + 256 * le_bytes_value(b.drop_first())) as nat
    }
}

/// The sum modulo `r` of a sequence, added from the front.
pub open spec fn sum_mod(s: Seq<nat>) -> nat
    decreases s.len(),
{
    if s.len() == 0 {
        0
    } else {
        (sum_mod(s.drop_last()) + s.last()) % fr_modulus()
    }
}

/// An element of `F_r`, the integers modulo the group order `r`.
#[derive(Debug, Clone, Copy)]
pub struct Scalar {
    pub(crate) limbs: [u64; 4],
}

impl Scalar {
    /// The limbs hold the canonical representative, below `r`.
    #[verifier::type_invariant]
    pub(crate) closed spec fn canonical(self) -> bool {
        limbs_value(self.limbs@) < fr_modulus()
    }
}

/// The integers that a sequence of field elements stands for.
pub open spec fn scalars_view(s: Seq<Scalar>) -> Seq<nat> {
    s.map_values(|x: Scalar| x@)
}

/// The integer that a field element stands for lies below `r`.
pub proof fn lemma_canonical_bound(s: Scalar)
    ensures
        s@ < fr_modulus(),
{
}

/// Every integer of a sequence of field elements lies below `r`.
pub proof fn lemma_scalars_bound(s: Seq<Scalar>)
    ensures
        forall|i: int| 0 <= i < s.len() ==> #[trigger] scalars_view(s)[i] < fr_modulus(),
{
    assert forall|i: int| 0 <= i < s.len() implies #[trigger] scalars_view(s)[i] < fr_modulus() by {
        lemma_canonical_bound(s[i]);
    }
}

impl View for Scalar {
    type V = nat;

    /// The integer in `[0, r)` that the element stands for: its limbs'
    /// value, which the type invariant keeps below `r`.
    closed spec fn view(&self) -> nat {
        limbs_value(self.limbs@) % fr_modulus()
    }
}

/// The element `x`, whose canonical limbs are `[x, 0, 0, 0]` (every `u64`
/// is below `r`).
fn fr_from_u64(x: u64) -> (r: Scalar)
    ensures
        r@ == x,
{
    let limbs: [u64; 4] = [x, 0, 0, 0];
    proof {
        assert(limbs@ =~= seq![x, 0u64, 0u64, 0u64]);
        assert(limbs_value(limbs@) == x);
        vstd::arithmetic::div_mod::lemma_small_mod(x as nat, fr_modulus());
    }
    Scalar { limbs }
}

/// Wraps `Fr + Fr`: the sum modulo `r`.
#[verifier::external_body]
fn fr_add(a: &Scalar, b: &Scalar) -> (r: Scalar)
    ensures
        r@ == (a@ + b@) % fr_modulus(),
{
    let x = Fr::from_bigint(BigInt::new(a.limbs)).unwrap();
    let y = Fr::from_bigint(BigInt::new(b.limbs)).unwrap();
    Scalar { limbs: (x + y).into_bigint().0 }
}

/// Wraps `Fr - Fr`: the difference modulo `r`.
#[verifier::external_body]
fn fr_sub(a: &Scalar, b: &Scalar) -> (r: Scalar)
    ensures
        r@ == (a@ - b@) % (fr_modulus() as int),
{
    let x = Fr::from_bigint(BigInt::new(a.limbs)).unwrap();
    let y = Fr::from_bigint(BigInt::new(b.limbs)).unwrap();
    Scalar { limbs: (x - y).into_bigint().0 }
}

/// Wraps `Fr * Fr`: the product modulo `r`.
#[verifier::external_body]
fn fr_mul(a: &Scalar, b: &Scalar) -> (r: Scalar)
    ensures
        r@ == (a@ * b@) % fr_modulus(),
{
    let x = Fr::from_bigint(BigInt::new(a.limbs)).unwrap();
    let y = Fr::from_bigint(BigInt::new(b.limbs)).unwrap();
    Scalar { limbs: (x * y).into_bigint().0 }
}

/// Wraps `-Fr`: the additive inverse modulo `r`.
#[verifier::external_body]
fn fr_neg(a: &Scalar) -> (r: Scalar)
    ensures
        r@ == (fr_modulus() - a@) % (fr_modulus() as int),
{
    let x = Fr::from_bigint(BigInt::new(a.limbs)).unwrap();
    Scalar { limbs: (-x).into_bigint().0 }
}

/// Wraps `Field::inverse`: `None` for zero, and otherwise the element whose
/// product with `a` is one modulo `r`.
#[verifier::external_body]
fn fr_inverse(a: &Scalar) -> (r: Option<Scalar>)
    ensures
        r is None <==> a@ == 0,
        r matches Some(v) ==> (a@ * v@) % fr_modulus() == 1,
{
    let x = Fr::from_bigint(BigInt::new(a.limbs)).unwrap();
    x.inverse().map(|v| Scalar { limbs: v.into_bigint().0 })
}

/// Wraps `PrimeField::from_le_bytes_mod_order`: the little-endian integer of
/// `bytes` reduced modulo `r`.
#[verifier::external_body]
fn fr_from_le_bytes_mod_order(bytes: &[u8]) -> (r: Scalar)
    ensures
        r@ == le_bytes_value(bytes@) % fr_modulus(),
{
    Scalar { limbs: Fr::from_le_bytes_mod_order(bytes).into_bigint().0 }
}

/// Wraps `ark_std::test_rng` and `UniformRand::rand` on `Fr`: the first two
/// elements drawn from a fresh test generator (one wrapper for both, since
/// the generator's type is an unnameable `impl Rng`). The generator is seeded
/// or, depending on the environment and the crate's features, random, so
/// nothing is stated of the elements but that they are field elements.
#[verifier::external_body]
pub(crate) fn fr_test_rng_draws() -> (r: (Scalar, Scalar)) {
    let mut rng = ark_std::test_rng();
    let first = Fr::rand(&mut rng);
    let second = Fr::rand(&mut rng);
    (Scalar { limbs: first.into_bigint().0 }, Scalar { limbs: second.into_bigint().0 })
}

impl Scalar {
    /// The element `x`.
    pub fn from_u64(x: u64) -> (r: Scalar)
        ensures
            r@ == x,
    {
        fr_from_u64(x)
    }

    /// The additive identity.
    pub fn zero() -> (r: Scalar)
        ensures
            r@ == 0,
    {
        fr_from_u64(0)
    }

    /// The multiplicative identity.
    pub fn one() -> (r: Scalar)
        ensures
            r@ == 1,
    {
        fr_from_u64(1)
    }

    /// `self + other` in `F_r`.
    pub fn add(&self, other: &Scalar) -> (r: Scalar)
        ensures
            r@ == (self@ + other@) % fr_modulus(),
        self@ < fr_modulus(),
        other@ < fr_modulus(),
    {
        proof {
            use_type_invariant(self);
            use_type_invariant(other);
        }
        fr_add(self, other)
    }

    /// `self - other` in `F_r`.
    pub fn sub(&self, other: &Scalar) -> (r: Scalar)
        ensures
            r@ == (self@ - other@) % (fr_modulus() as int),
        self@ < fr_modulus(),
        other@ < fr_modulus(),
    {
        proof {
            use_type_invariant(self);
            use_type_invariant(other);
        }
        fr_sub(self, other)
    }

    /// `self * other` in `F_r`.
    pub fn mul(&self, other: &Scalar) -> (r: Scalar)
        ensures
            r@ == (self@ * other@) % fr_modulus(),
        self@ < fr_modulus(),
        other@ < fr_modulus(),
    {
        proof {
            use_type_invariant(self);
            use_type_invariant(other);
        }
        fr_mul(self, other)
    }

    /// `-self` in `F_r`.
    pub fn neg(&self) -> (r: Scalar)
        ensures
            r@ == (fr_modulus() - self@) % (fr_modulus() as int),
        self@ < fr_modulus(),
    {
        proof {
            use_type_invariant(self);
        }
        fr_neg(self)
    }

    /// The multiplicative inverse; `None` for zero.
    pub fn inverse(&self) -> (r: Option<Scalar>)
        ensures
            r is None <==> self@ == 0,
            r matches Some(v) ==> (self@ * v@) % fr_modulus() == 1,
    {
        fr_inverse(self)
    }

    /// Reads `bytes` as a little-endian integer and reduces it modulo `r`.
    pub fn from_le_bytes_mod_order(bytes: &[u8]) -> (r: Scalar)
        ensures
            r@ == le_bytes_value(bytes@) % fr_modulus(),
    {
        fr_from_le_bytes_mod_order(bytes)
    }

    /// Equality of field elements.
    pub fn equals(&self, other: &Scalar) -> (r: bool)
        ensures
            r == (self@ == other@),
            self@ < fr_modulus(),
            other@ < fr_modulus(),
    {
        proof {
            use_type_invariant(self);
            use_type_invariant(other);
        }
        let r = self.limbs[0] == other.limbs[0] && self.limbs[1] == other.limbs[1]
            && self.limbs[2] == other.limbs[2] && self.limbs[3] == other.limbs[3];
        proof {
            vstd::arithmetic::div_mod::lemma_small_mod(limbs_value(self.limbs@), fr_modulus());
            vstd::arithmetic::div_mod::lemma_small_mod(limbs_value(other.limbs@), fr_modulus());
            if self@ == other@ {
                lemma_limbs_injective(self.limbs@, other.limbs@);
            }
        }
        r
    }
}

impl PartialEq for Scalar {
    fn eq(&self, other: &Scalar) -> (r: bool) {
        self.equals(other)
    }
}

impl vstd::std_specs::cmp::PartialEqSpecImpl for Scalar {
    open spec fn obeys_eq_spec() -> bool {
        true
    }

    open spec fn eq_spec(&self, other: &Scalar) -> bool {
        self@ == other@
    }
}

impl Eq for Scalar {
}

/// Limbs below `2^64` are determined by the integer they encode.
proof fn lemma_limbs_injective(a: Seq<u64>, b: Seq<u64>)
    requires
        a.len() == 4,
        b.len() == 4,
        limbs_value(a) == limbs_value(b),
    ensures
        a == b,
{
    let base = limb_base() as int;
    let ha = a[1] + base * (a[2] + base * a[3]);
    let hb = b[1] + base * (b[2] + base * b[3]);
    let ma = a[2] + base * a[3];
    let mb = b[2] + base * b[3];
    assert(ha >= 0 && hb >= 0 && ma >= 0 && mb >= 0) by (nonlinear_arith)
        requires
            base > 0,
            a[1] >= 0, a[2] >= 0, a[3] >= 0, b[1] >= 0, b[2] >= 0, b[3] >= 0,
            ha == a[1] + base * (a[2] + base * a[3]),
            hb == b[1] + base * (b[2] + base * b[3]),
            ma == a[2] + base * a[3],
            mb == b[2] + base * b[3],
    {
    }
    let v = a[0] + base * ha;
    assert(v == ha * base + a[0]) by (nonlinear_arith)
        requires
            v == a[0] + base * ha,
    {
    }
    assert(v == hb * base + b[0]) by (nonlinear_arith)
        requires
            v == b[0] + base * hb,
    {
    }
    lemma_fundamental_div_mod_converse_mod(v, base, ha, a[0] as int);
    lemma_fundamental_div_mod_converse_mod(v, base, hb, b[0] as int);
    lemma_fundamental_div_mod_converse_div(v, base, ha, a[0] as int);
    lemma_fundamental_div_mod_converse_div(v, base, hb, b[0] as int);
    assert(ha == ma * base + a[1]) by (nonlinear_arith)
        requires
            ha == a[1] + base * ma,
    {
    }
    assert(ha == mb * base + b[1]) by (nonlinear_arith)
        requires
            ha == hb,
            hb == b[1] + base * mb,
    {
    }
    lemma_fundamental_div_mod_converse_mod(ha, base, ma, a[1] as int);
    lemma_fundamental_div_mod_converse_mod(ha, base, mb, b[1] as int);
    lemma_fundamental_div_mod_converse_div(ha, base, ma, a[1] as int);
    lemma_fundamental_div_mod_converse_div(ha, base, mb, b[1] as int);
    assert(ma == a[3] * base + a[2]) by (nonlinear_arith)
        requires
            ma == a[2] + base * a[3],
    {
    }
    assert(ma == b[3] * base + b[2]) by (nonlinear_arith)
        requires
            ma == mb,
            mb == b[2] + base * b[3],
    {
    }
    lemma_fundamental_div_mod_converse_mod(ma, base, a[3] as int, a[2] as int);
    lemma_fundamental_div_mod_converse_mod(ma, base, b[3] as int, b[2] as int);
    lemma_fundamental_div_mod_converse_div(ma, base, a[3] as int, a[2] as int);
    lemma_fundamental_div_mod_converse_div(ma, base, b[3] as int, b[2] as int);
    assert(a =~= b);
}

} // verus!
