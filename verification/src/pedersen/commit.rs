//! Committing to a value and opening the commitment.

use vstd::prelude::*;
use vstd::arithmetic::div_mod::{lemma_add_mod_noop, lemma_small_mod, lemma_mod_twice};
use crate::curve::scalar::{Scalar, fr_modulus, le_bytes_value};
use crate::curve::group::G1Point;
use crate::curve::hash::sha256_digest;
use crate::curve::modulus_prime::lemma_fr_modulus_prime;
use crate::ecc::modular::{lemma_no_zero_divisors, lemma_prime_inverse};
use crate::ecc::closure::{lemma_cong_of_mod, lemma_cong_reduced, lemma_cong_add, lemma_cong_mul, lemma_cong_trans, lemma_cong_refl};
use crate::pedersen::generator::{generator_g, generator_h, h_log, h_seed};

verus! {

/// The logarithm of `v G + r H`.
pub open spec fn commit_spec(v: nat, r: nat) -> nat {
    (v + h_log() * r) % fr_modulus()
}

/// Commits to a value `v` with blinding factor `r`.
///
/// C = v·G + r·H
///
/// - `v` is your secret value (what you're committing to)
/// - `r` is a random blinding factor (hides the value)
/// - Returns a curve point — the commitment
pub fn commit(v: &Scalar, r: &Scalar) -> (c: G1Point)
    ensures
        c@ == commit_spec(v@, r@),
        c@ == (v@ + h_log() * r@) % fr_modulus(),
{
    let g = generator_g();
    let h = generator_h();

    // C = v*G + r*H
    let vg = g.mul(v);
    let rh = h.mul(r);
    let c = vg.add(&rh);
    proof {
        lemma_small_mod(v@, fr_modulus());
        lemma_mod_twice((h_log() * r@) as int, fr_modulus() as int);
        lemma_add_mod_noop(v@ as int, (h_log() * r@) as int, fr_modulus() as int);
        lemma_small_mod(v@, fr_modulus());
    }
    c
}

/// A commitment is built from the two generators: committing to 1 with
/// blinding 0 gives `G` (logarithm 1), committing to 0 with blinding 1 gives
/// `H` (the logarithm of `generator_h`), and `Commit(v, r)` is `v` times the
/// first plus `r` times the second.
pub proof fn lemma_commit_basis(v: nat, r: nat)
    ensures
        commit_spec(1, 0) == 1,
        commit_spec(0, 1) == h_log(),
        commit_spec(v, r) == (v * commit_spec(1, 0) + r * commit_spec(0, 1)) % fr_modulus(),
{
    lemma_small_mod(1, fr_modulus());
    vstd::arithmetic::div_mod::lemma_mod_bound(le_bytes_value(sha256_digest(h_seed())) as int, fr_modulus() as int);
    lemma_small_mod(h_log(), fr_modulus());
    assert(h_log() * 0 == 0 && h_log() * 1 == h_log());
    assert(v * 1 == v);
    assert(r * h_log() == h_log() * r) by (nonlinear_arith);
}

/// `c` is the commitment to `v` with blinding `r`.
pub open spec fn opens(v: nat, r: nat, c: nat) -> bool {
    c == commit_spec(v, r)
}

/// Opens a commitment: `true` exactly when `c` commits to `v` with blinding `r`.
pub fn verify(v: &Scalar, r: &Scalar, c: &G1Point) -> (ok: bool)
    ensures
        ok == opens(v@, r@, c@),
{
    let expected = commit(v, r);
    expected.equals(c)
}

/// A commitment opens to the value and blinding it was made with.
pub proof fn lemma_commitment_opens(v: nat, r: nat)
    ensures
        opens(v, r, commit_spec(v, r)),
{
}

/// Binding in the blinding factor: where `H` is not the identity (its
/// logarithm is not zero), one value committed with two blinding factors
/// below `r` gives two different commitments.
pub proof fn lemma_commit_blinding_unique(v: nat, r1: nat, r2: nat)
    requires
        h_log() != 0,
        r1 < fr_modulus(),
        r2 < fr_modulus(),
        commit_spec(v, r1) == commit_spec(v, r2),
    ensures
        r1 == r2,
{
    let m = fr_modulus() as int;
    let h = h_log() as int;
    let (a, b) = if r1 > r2 { (r1 as int, r2 as int) } else { (r2 as int, r1 as int) };
    if a != b {
        lemma_fr_modulus_prime();
        vstd::arithmetic::div_mod::lemma_mod_bound(le_bytes_value(sha256_digest(h_seed())) as int, m);
        lemma_no_zero_divisors(h, a - b, m);
        vstd::arithmetic::div_mod::lemma_sub_mod_noop(v + h * a, v + h * b, m);
        vstd::arithmetic::div_mod::lemma_small_mod(0, fr_modulus());
        assert((v + h * a) - (v + h * b) == h * (a - b)) by (nonlinear_arith);
        assert(false);
    }
}

/// Hiding: where `H` is not the identity, every value opens every
/// commitment with some blinding factor below `r`, so a commitment says
/// nothing of its value.
pub proof fn lemma_commit_hiding(c: nat, v: nat)
    requires
        h_log() != 0,
        c < fr_modulus(),
    ensures
        exists|r: nat| r < fr_modulus() && #[trigger] commit_spec(v, r) == c,
{
    let m = fr_modulus() as int;
    let h = h_log() as int;
    lemma_fr_modulus_prime();
    vstd::arithmetic::div_mod::lemma_mod_bound(le_bytes_value(sha256_digest(h_seed())) as int, m);
    let t = lemma_prime_inverse(h, m);
    let d = c - v;
    let r = (d * t) % m;
    vstd::arithmetic::div_mod::lemma_mod_bound(d * t, m);
    lemma_cong_reduced(r, d * t, m);
    lemma_cong_refl(h, m);
    lemma_cong_mul(h, h, r, d * t, m);
    assert(h * (d * t) == (h * t) * d) by (nonlinear_arith);
    vstd::arithmetic::div_mod::lemma_small_mod(1, fr_modulus());
    lemma_cong_of_mod(h * t, 1, m);
    lemma_cong_refl(d, m);
    lemma_cong_mul(h * t, 1, d, d, m);
    lemma_cong_trans(h * r, (h * t) * d, d, m);
    lemma_cong_refl(v as int, m);
    lemma_cong_add(v as int, v as int, h * r, d, m);
    lemma_cong_of_mod(v + h * r, c as int, m);
    vstd::arithmetic::div_mod::lemma_small_mod(c, fr_modulus());
    assert(commit_spec(v, r as nat) == c);
}

} // verus!
