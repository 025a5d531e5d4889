//! A toy ECDSA over the curves of `point`: key generation, signing with a
//! caller-chosen nonce, and verification.

use vstd::prelude::*;
use crate::ecc::point::{Point, lemma_add_defined_prime};
use crate::ecc::scalar::{scalar_mul, scalar_mul_defined, lemma_scalar_mul_defined};
use crate::ecc::field::small_modulus;
use crate::ecc::multiples::{
    prime_curve_point, addition_associative, plus, repeated_add, lemma_repeated_add_same_curve,
    lemma_repeated_add_distributes, lemma_repeated_add_mul, lemma_repeated_add_mod_order,
    lemma_scalar_mul_is_repeated_add,
};
use crate::ecc::closure::{
    lemma_cong_of_mod, lemma_cong_reduced, lemma_cong_add, lemma_cong_mul, lemma_cong_trans,
    lemma_cong_sym, lemma_cong_refl,
};
use crate::ecc::modular::{
    gcd, is_prime, is_inverse, euclid_inv, lemma_euclid_init, lemma_euclid_step_bounds,
    lemma_euclid_step, lemma_euclid_final, lemma_gcd_swap, lemma_inverse_unique, lemma_inverse_exists,
};

verus! {

/// ECDSA Signature containing components R and S
#[derive(Debug, Clone, Copy, PartialEq, Eq, Structural)]
pub struct Signature {
    pub r: u128,
    pub s: u128,
}

/// A simplified ECDSA implementation for educational purposes.
pub struct Ecdsa<H> {
    pub generator: Point,
    pub order: u128,
    /// The message digest, simulated by a function returning a `u128` directly.
    pub hash_fn: H,
}

/// The inverse of `a` among the residues modulo `m`.
pub open spec fn mod_inv(a: int, m: int) -> int {
    (choose|v: u128| #[trigger] is_inverse(a, v as int, m)) as int
}

/// The `r` component: the x-coordinate of `nonce * G`, reduced modulo the order.
pub open spec fn sign_r(generator: Point, order: u128, nonce: u128) -> int {
    scalar_mul(nonce as nat, generator).x->0.num as int % order as int
}

/// `r * d mod n`, the private-key term of `s`.
pub open spec fn sign_r_term(generator: Point, order: u128, private_key: u128, nonce: u128) -> int {
    (sign_r(generator, order, nonce) * private_key) % order as int
}

/// The signature of digest `z`: `r` as above and `s = k^-1 (z + r d) mod n`.
pub open spec fn sign_spec(z: u128, generator: Point, order: u128, private_key: u128, nonce: u128) -> Signature {
    let n = order as int;
    let r = sign_r(generator, order, nonce);
    let z_plus_r_term = (z + sign_r_term(generator, order, private_key, nonce)) % n;
    let s = (mod_inv(nonce as int, n) * z_plus_r_term) % n;
    Signature { r: r as u128, s: s as u128 }
}

/// Signing digest `z` runs without failing: the sum `z + r d mod n` and its
/// product with `k^-1` fit, and `s` is non-zero.
pub open spec fn sign_digest_ok(z: u128, generator: Point, order: u128, private_key: u128, nonce: u128) -> bool {
    let n = order as int;
    &&& z + sign_r_term(generator, order, private_key, nonce) <= u128::MAX
    &&& mod_inv(nonce as int, n) * ((z + sign_r_term(generator, order, private_key, nonce)) % n) <= u128::MAX
    &&& sign_spec(z, generator, order, private_key, nonce).s != 0
}

/// The checks of verification: both components in `(0, n)` with `s` invertible,
/// and the x-coordinate of `u1 G + u2 Q` reduced modulo `n` equal to `r`, where
/// `w = s^-1`, `u1 = z w` and `u2 = r w` modulo `n`.
pub open spec fn verify_spec(z: u128, generator: Point, order: u128, signature: Signature, public_key: Point) -> bool {
    let n = order as int;
    let (r, s) = (signature.r, signature.s);
    if r == 0 || r >= order || s == 0 || s >= order {
        false
    } else if gcd(s as nat, order as nat) != 1 {
        false
    } else {
        let p = verification_point(z, generator, order, signature, public_key);
        p.x is Some && p.x->0.num as int % n == r
    }
}

/// The point `u1 G + u2 Q` with `w = s^-1`, `u1 = z w` and `u2 = r w` modulo `n`.
#[verifier::opaque]
pub open spec fn verification_point(z: u128, generator: Point, order: u128, signature: Signature, public_key: Point) -> Point {
    let n = order as int;
    let w = mod_inv(signature.s as int, n);
    let u1 = (z * w) % n;
    let u2 = (signature.r * w) % n;
    scalar_mul(u1 as nat, generator).add_points(scalar_mul(u2 as nat, public_key))
}

/// Both components lie in `(0, n)`.
pub open spec fn signature_in_range(order: u128, signature: Signature) -> bool {
    0 < signature.r < order && 0 < signature.s < order
}

/// Verifying digest `z` runs without failing: once the components are in
/// range and `s` is invertible, `z w` and `r w` fit in a `u128` and the
/// multiplications and the sum that give `u1 G + u2 Q` are defined.
pub open spec fn verify_defined(z: u128, generator: Point, order: u128, signature: Signature, public_key: Point) -> bool {
    let n = order as int;
    let (r, s) = (signature.r, signature.s);
    (0 < r < order && 0 < s < order && gcd(s as nat, order as nat) == 1) ==> {
        let w = mod_inv(s as int, n);
        let u1 = (z * w) % n;
        let u2 = (r * w) % n;
        &&& z * w <= u128::MAX
        &&& r * w <= u128::MAX
        &&& scalar_mul_defined(u1 as nat, generator)
        &&& scalar_mul_defined(u2 as nat, public_key)
        &&& scalar_mul(u1 as nat, generator).add_defined(scalar_mul(u2 as nat, public_key))
    }
}

/// On a curve over a prime field with more than three elements, with an order
/// whose residues multiply within a `u128`, verification is defined for every
/// digest whose product with `s^-1` fits.
pub proof fn lemma_verify_defined_prime(z: u128, generator: Point, order: u128, signature: Signature, public_key: Point)
    requires
        small_modulus(order),
        generator.wf(),
        public_key.wf(),
        public_key.a == generator.a,
        public_key.b == generator.b,
        is_prime(generator.modulus() as nat),
        generator.modulus() > 3,
        (0 < signature.r < order && 0 < signature.s < order && gcd(signature.s as nat, order as nat) == 1)
            ==> z * mod_inv(signature.s as int, order as int) <= u128::MAX,
    ensures
        verify_defined(z, generator, order, signature, public_key),
{
    let n = order as int;
    let (r, s) = (signature.r, signature.s);
    if 0 < r < order && 0 < s < order && gcd(s as nat, order as nat) == 1 {
        let w = mod_inv(s as int, n);
        crate::ecc::modular::lemma_inverse_exists(s as int, n);
        assert(is_inverse(s as int, w, n));
        assert(r * w <= u128::MAX) by (nonlinear_arith)
            requires
                r < order,
                0 <= w < order,
                (order - 1) * (order - 1) <= u128::MAX,
        {
        }
        let u1 = (z * w) % n;
        let u2 = (r * w) % n;
        lemma_scalar_mul_defined(u1 as nat, generator);
        lemma_scalar_mul_defined(u2 as nat, public_key);
        lemma_add_defined_prime(scalar_mul(u1 as nat, generator), scalar_mul(u2 as nat, public_key));
    }
}

/// The components of a signature made with nonce `k` and private key `d`
/// on digest `z`: `r` is the x-coordinate of `k G` reduced modulo `n`, and
/// `s` is the residue below `n` with `s k = z + r d (mod n)`.
pub proof fn lemma_signature_equation(z: u128, generator: Point, order: u128, private_key: u128, nonce: u128)
    requires
        0 < nonce < order,
        gcd(nonce as nat, order as nat) == 1,
    ensures
        sign_spec(z, generator, order, private_key, nonce).r as int
            == scalar_mul(nonce as nat, generator).x->0.num as int % order as int,
        sign_spec(z, generator, order, private_key, nonce).s < order,
        (sign_spec(z, generator, order, private_key, nonce).s as int * nonce) % order as int
            == (z + sign_spec(z, generator, order, private_key, nonce).r as int * private_key) % order as int,
{
    let n = order as int;
    let d = private_key as int;
    let k = nonce as int;
    let sig = sign_spec(z, generator, order, private_key, nonce);
    let r = sign_r(generator, order, nonce);
    let rt = sign_r_term(generator, order, private_key, nonce);
    let zt = (z + rt) % n;
    let kinv = mod_inv(k, n);
    let s = (kinv * zt) % n;
    vstd::arithmetic::div_mod::lemma_mod_bound(scalar_mul(nonce as nat, generator).x->0.num as int, n);
    vstd::arithmetic::div_mod::lemma_mod_bound(kinv * zt, n);
    assert(sig.r as int == r);
    assert(sig.s as int == s);
    lemma_inverse_exists(k, n);
    assert(is_inverse(k, kinv, n));
    lemma_cong_reduced(rt, r * d, n);
    lemma_cong_reduced(zt, z + rt, n);
    lemma_cong_refl(z as int, n);
    lemma_cong_add(z as int, z as int, rt, r * d, n);
    lemma_cong_trans(zt, z + rt, z + r * d, n);
    lemma_cong_reduced(s, kinv * zt, n);
    lemma_cong_refl(k, n);
    lemma_cong_mul(s, kinv * zt, k, k, n);
    assert((kinv * zt) * k == (k * kinv) * zt) by (nonlinear_arith);
    lemma_cong_of_mod(k * kinv, 1, n);
    lemma_cong_refl(zt, n);
    lemma_cong_mul(k * kinv, 1, zt, zt, n);
    lemma_cong_trans(s * k, (k * kinv) * zt, zt, n);
    lemma_cong_trans(s * k, zt, z + r * d, n);
    lemma_cong_of_mod(s * k, z + r * d, n);
}

/// What verification checks: both components lie in `(0, n)`, `s` is
/// invertible modulo `n`, and with `w = s^-1`, `u1 = z w` and `u2 = r w`
/// modulo `n`, the point `u1 G + u2 Q` is finite and its x-coordinate reduced
/// modulo `n` is `r`.
pub proof fn lemma_verify_checks_x_coordinate(z: u128, generator: Point, order: u128, signature: Signature, public_key: Point)
    ensures
        verify_spec(z, generator, order, signature, public_key) <==> {
            let n = order as int;
            let w = mod_inv(signature.s as int, n);
            let u1 = (z * w) % n;
            let u2 = (signature.r * w) % n;
            let p = scalar_mul(u1 as nat, generator).add_points(scalar_mul(u2 as nat, public_key));
            &&& 0 < signature.r < order
            &&& 0 < signature.s < order
            &&& gcd(signature.s as nat, order as nat) == 1
            &&& p.x is Some
            &&& p.x->0.num as int % n == signature.r
        },
{
    reveal(verification_point);
}

/// Where the nonce `k` and `s` are invertible modulo the order `n`, the
/// scalars that verification computes from an honest signature recombine to
/// the nonce: with `w = s^-1`, `u1 = z w` and
/// `u2 = r w` modulo `n`, `u1 + u2 d = k (mod n)`. So `u1 G + u2 (d G)` is
/// `k G` wherever scalar multiplication is a homomorphism from the residues
/// modulo `n` onto the multiples of `G`.
pub proof fn lemma_verify_scalars_recover_nonce(z: u128, generator: Point, order: u128, private_key: u128, nonce: u128)
    requires
        0 < nonce < order,
        gcd(nonce as nat, order as nat) == 1,
        gcd(sign_spec(z, generator, order, private_key, nonce).s as nat, order as nat) == 1,
    ensures
        ({
            let sig = sign_spec(z, generator, order, private_key, nonce);
            let n = order as int;
            let w = mod_inv(sig.s as int, n);
            let u1 = (z * w) % n;
            let u2 = (sig.r * w) % n;
            (u1 + u2 * private_key) % n == nonce
        }),
{
    let n = order as int;
    let d = private_key as int;
    let k = nonce as int;
    let sig = sign_spec(z, generator, order, private_key, nonce);
    let r = sign_r(generator, order, nonce);
    let rt = sign_r_term(generator, order, private_key, nonce);
    let zt = (z + rt) % n;
    let kinv = mod_inv(k, n);
    let s = (kinv * zt) % n;
    assert(sig.r as int == r);
    assert(sig.s as int == s);
    lemma_inverse_exists(k, n);
    assert(is_inverse(k, kinv, n));
    lemma_inverse_exists(s, n);
    let w = mod_inv(s, n);
    assert(is_inverse(s, w, n));
    let u1 = (z * w) % n;
    let u2 = (r * w) % n;
    // zt = z + r d and s k = zt.
    lemma_cong_reduced(rt, r * d, n);
    lemma_cong_reduced(zt, z + rt, n);
    lemma_cong_refl(z as int, n);
    lemma_cong_add(z as int, z as int, rt, r * d, n);
    lemma_cong_trans(zt, z + rt, z + r * d, n);
    lemma_cong_reduced(s, kinv * zt, n);
    lemma_cong_refl(k, n);
    lemma_cong_mul(s, kinv * zt, k, k, n);
    assert((kinv * zt) * k == (k * kinv) * zt) by (nonlinear_arith);
    lemma_cong_of_mod(k * kinv, 1, n);
    lemma_cong_refl(zt, n);
    lemma_cong_mul(k * kinv, 1, zt, zt, n);
    lemma_cong_trans(s * k, (k * kinv) * zt, zt, n);
    // u1 + u2 d = w (z + r d) = w zt = w s k = k.
    lemma_cong_reduced(u1, z * w, n);
    lemma_cong_reduced(u2, r * w, n);
    lemma_cong_refl(d, n);
    lemma_cong_mul(u2, r * w, d, d, n);
    lemma_cong_add(u1, z * w, u2 * d, (r * w) * d, n);
    assert(z * w + (r * w) * d == w * (z + r * d)) by (nonlinear_arith);
    lemma_cong_refl(w, n);
    lemma_cong_sym(zt, z + r * d, n);
    lemma_cong_mul(w, w, z + r * d, zt, n);
    lemma_cong_trans(u1 + u2 * d, w * (z + r * d), w * zt, n);
    lemma_cong_sym(s * k, zt, n);
    lemma_cong_mul(w, w, zt, s * k, n);
    lemma_cong_trans(u1 + u2 * d, w * zt, w * (s * k), n);
    assert(w * (s * k) == (s * w) * k) by (nonlinear_arith);
    lemma_cong_of_mod(s * w, 1, n);
    lemma_cong_mul(s * w, 1, k, k, n);
    lemma_cong_trans(u1 + u2 * d, (s * w) * k, k, n);
    lemma_cong_of_mod(u1 + u2 * d, k, n);
    vstd::arithmetic::div_mod::lemma_small_mod(nonce as nat, order as nat);
}

/// A signature made with the private key `d` verifies under the public key
/// `d G`, for a point `G` with `n G` at infinity on a curve over a prime
/// field with more than three elements, for every nonce and digest that
/// signing accepts, and where `s` is invertible modulo `n` (always so for a
/// prime `n`). Associativity of point addition on the curve is a
/// hypothesis here: this library proves that sums stay on the curve, the
/// identity and inverse laws and commutativity, but not associativity.
pub proof fn lemma_sign_then_verify(z: u128, generator: Point, order: u128, private_key: u128, nonce: u128)
    requires
        prime_curve_point(generator),
        addition_associative(generator.a, generator.b),
        scalar_mul(order as nat, generator) == Point::infinity_spec(generator.a, generator.b),
        0 < nonce < order,
        gcd(nonce as nat, order as nat) == 1,
        scalar_mul(nonce as nat, generator).x is Some,
        sign_r(generator, order, nonce) != 0,
        sign_spec(z, generator, order, private_key, nonce).s != 0,
        gcd(sign_spec(z, generator, order, private_key, nonce).s as nat, order as nat) == 1,
    ensures
        verify_spec(
            z,
            generator,
            order,
            sign_spec(z, generator, order, private_key, nonce),
            scalar_mul(private_key as nat, generator),
        ),
{
    let g = generator;
    let n = order as int;
    let d = private_key as nat;
    let sig = sign_spec(z, g, order, private_key, nonce);
    let q = scalar_mul(d, g);
    // Both components are in range and s is invertible.
    assert(sig.r as int == sign_r(g, order, nonce));
    // The verification point is (u1 + u2 d) G = k G.
    let w = mod_inv(sig.s as int, n);
    let u1 = ((z * w) % n) as nat;
    let u2 = ((sig.r * w) % n) as nat;
    lemma_verify_scalars_recover_nonce(z, g, order, private_key, nonce);
    lemma_scalar_mul_is_repeated_add(d, g);
    lemma_scalar_mul_is_repeated_add(u1, g);
    lemma_scalar_mul_is_repeated_add(order as nat, g);
    lemma_scalar_mul_is_repeated_add(nonce as nat, g);
    lemma_repeated_add_same_curve(d, g, g);
    assert(prime_curve_point(q));
    lemma_scalar_mul_is_repeated_add(u2, q);
    lemma_repeated_add_mul(u2, d, g);
    lemma_repeated_add_distributes(u1, u2 * d, g);
    lemma_repeated_add_mod_order(u1 + u2 * d, order as nat, g);
    assert(verification_point(z, g, order, sig, q) == plus(repeated_add(u1, g), repeated_add(u2 * d, g))) by {
        reveal(verification_point);
        reveal(plus);
    }
    assert(verification_point(z, g, order, sig, q) == scalar_mul(nonce as nat, g));
}

impl<H: Fn(&[u8]) -> u128> Ecdsa<H> {
    pub fn new(generator: Point, order: u128, hash_fn: H) -> (r: Self)
        ensures
            r.generator == generator,
            r.order == order,
            r.hash_fn == hash_fn,
    {
        Self { generator, order, hash_fn }
    }

    /// Generate a Keypair from a given secret integer.
    /// (Private Key, Public Key)
    pub fn generate_keypair(&self, secret_key: u128) -> (r: (u128, Point))
        requires
            0 < secret_key < self.order,
            scalar_mul_defined(secret_key as nat, self.generator),
        ensures
            r.0 == secret_key,
            r.1 == scalar_mul(secret_key as nat, self.generator),
    {
        let public_key = secret_key * self.generator;
        (secret_key, public_key)
    }

    /// Modular inverse using the Extended Euclidean Algorithm (works for non-primes)
    fn mod_inverse(num: u128, modulo: u128) -> (r: Option<u128>)
        requires
            num < modulo,
            modulo <= i128::MAX,
        ensures
            r is Some <==> gcd(num as nat, modulo as nat) == 1,
            r matches Some(v) ==> is_inverse(num as int, v as int, modulo as int),
    {
        let mut t = 0i128;
        let mut newt = 1i128;
        let mut r = modulo as i128;
        let mut newr = num as i128;
        let ghost mut s: int = 1;
        let ghost mut news: int = 0;
        proof {
            lemma_euclid_init(modulo as int, num as int);
        }

        while newr != 0
            invariant
                euclid_inv(modulo as int, num as int, t as int, newt as int, r as int, newr as int, s, news),
                modulo <= i128::MAX,
            decreases newr,
        {
            let ghost (t0, newt0, r0, newr0) = (t as int, newt as int, r as int, newr as int);
            proof {
                lemma_euclid_step_bounds(modulo as int, num as int, t0, newt0, r0, newr0, s, news);
            }
            let quotient = r / newr;

            let temp_t = t - quotient * newt;
            t = newt;
            newt = temp_t;

            let temp_r = r - quotient * newr;
            r = newr;
            newr = temp_r;
            proof {
                let q = r0 / newr0;
                lemma_euclid_step(modulo as int, num as int, t0, newt0, r0, newr0, s, news);
                let s2 = s - q * news;
                s = news;
                news = s2;
            }
        }

        proof {
            lemma_gcd_swap(num as nat, modulo as nat);
            assert(gcd(r as nat, 0) == r);
        }
        if r > 1 {
            return None; // Not coprime
        }

        proof {
            lemma_euclid_final(modulo as int, num as int, t as int, r as int, s);
        }
        if t < 0 {
            t += modulo as i128;
        }

        Some(t as u128)
    }

    /// Signs a message using the given private key and a random nonce `k`.
    ///
    /// Note: In a real implementation this `k` must be strictly randomly generated per-message
    /// and NEVER reused. Reusing `k` compromises the private key immediately.
    pub fn sign(&self, message: &[u8], private_key: u128, nonce: u128) -> (sig: Signature)
        requires
            0 < nonce < self.order,
            self.order <= i128::MAX,
            call_requires(self.hash_fn, (message,)),
            scalar_mul_defined(nonce as nat, self.generator),
            scalar_mul(nonce as nat, self.generator).x is Some,
            sign_r(self.generator, self.order, nonce) != 0,
            gcd(nonce as nat, self.order as nat) == 1,
            sign_r(self.generator, self.order, nonce) * private_key <= u128::MAX,
            forall|z: u128| call_ensures(self.hash_fn, (message,), z) ==>
                sign_digest_ok(z, self.generator, self.order, private_key, nonce),
        ensures
            exists|z: u128| call_ensures(self.hash_fn, (message,), z)
                && sig == sign_spec(z, self.generator, self.order, private_key, nonce),
            sig.r as int == scalar_mul(nonce as nat, self.generator).x->0.num as int % self.order as int,
            sig.s < self.order,
    {
        let order = self.order;
        // 1. Calculate the hash of the message (z)
        let z = (self.hash_fn)(message);
        proof {
            assert(sign_digest_ok(z, self.generator, order, private_key, nonce));
        }

        // 2. Calculate the random point R = k * G
        let r_point = nonce * self.generator;

        // 3. Extract the x-coordinate of R, modulo the order (r)
        let r = r_point.x.unwrap().num % order;

        // 4. Calculate s = k^-1 * (z + r * private_key) mod order
        // The arithmetic for 's' happens in the scalar field F_order, whose
        // order is not necessarily prime.
        let k_inv_opt = Self::mod_inverse(nonce, order);
        let k_inv = k_inv_opt.unwrap();
        proof {
            let c = mod_inv(nonce as int, order as int);
            assert(is_inverse(nonce as int, k_inv as int, order as int));
            assert(is_inverse(nonce as int, c, order as int));
            lemma_inverse_unique(nonce as int, c, k_inv as int, order as int);
        }
        let r_term = (r * private_key) % order;
        let z_plus_r_term = (z + r_term) % order;
        let s = (k_inv * z_plus_r_term) % order;

        let sig = Signature { r, s };
        assert(sig == sign_spec(z, self.generator, order, private_key, nonce));
        proof {
            lemma_signature_equation(z, self.generator, order, private_key, nonce);
        }
        sig
    }

    /// Verifies a signature against the public key and message.
    pub fn verify(&self, message: &[u8], signature: Signature, public_key: Point) -> (ok: bool)
        requires
            self.order <= i128::MAX,
            call_requires(self.hash_fn, (message,)),
            forall|z: u128| call_ensures(self.hash_fn, (message,), z) ==>
                verify_defined(z, self.generator, self.order, signature, public_key),
        ensures
            !signature_in_range(self.order, signature) ==> !ok,
            signature_in_range(self.order, signature) ==> exists|z: u128|
                call_ensures(self.hash_fn, (message,), z)
                && ok == verify_spec(z, self.generator, self.order, signature, public_key),
    {
        let order = self.order;
        let r = signature.r;
        let s = signature.s;

        // Signature components must be within the valid scalar field range
        if r == 0 || r >= order || s == 0 || s >= order {
            return false;
        }

        // 1. Calculate the hash of the message (z)
        let z = (self.hash_fn)(message);
        proof {
            assert(verify_defined(z, self.generator, order, signature, public_key));
        }

        // 2. Calculate w = s^-1 mod order
        let w = match Self::mod_inverse(s, order) {
            Some(inv) => inv,
            None => {
                assert(!verify_spec(z, self.generator, order, signature, public_key));
                return false; // Signature 's' is invalid if it has no inverse
            },
        };
        proof {
            let c = mod_inv(s as int, order as int);
            assert(is_inverse(s as int, c, order as int));
            lemma_inverse_unique(s as int, c, w as int, order as int);
        }

        // 3. Calculate u1 = z * w mod order
        let u1 = (z * w) % order;

        // 4. Calculate u2 = r * w mod order
        let u2 = (r * w) % order;

        // 5. Calculate validation point P = u1 * G + u2 * PublicKey
        let u1_g = u1 * self.generator;
        let u2_pub = u2 * public_key;
        let p = u1_g + u2_pub;
        assert(p == verification_point(z, self.generator, order, signature, public_key)) by {
            reveal(verification_point);
        }

        proof {
            assert(gcd(s as nat, order as nat) == 1);
            assert(signature_in_range(order, signature));
        }
        if p.x.is_none() {
            assert(!verify_spec(z, self.generator, order, signature, public_key));
            return false;
        }

        // 6. Verification succeeds if x-coordinate of P modulo order == r
        let p_x = p.x.unwrap().num % order;
        assert((p_x == r) == verify_spec(z, self.generator, order, signature, public_key));
        p_x == r
    }
}

} // verus!
