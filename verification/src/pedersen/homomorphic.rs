//! The additive homomorphism of Pedersen commitments:
//! `C1 + C2 = Commit(v1 + v2, r1 + r2)` and `C1 - C2 = Commit(v1 - v2, r1 - r2)`.

use vstd::prelude::*;
use vstd::arithmetic::div_mod::{lemma_add_mod_noop, lemma_sub_mod_noop, lemma_mul_mod_noop_right, lemma_mod_bound};
use vstd::arithmetic::mul::{lemma_mul_is_distributive_add, lemma_mul_is_distributive_sub};
use crate::curve::scalar::fr_modulus;
use crate::pedersen::commit::commit_spec;
use crate::pedersen::generator::h_log;

verus! {

/// Adding two commitments commits to the sum of the values with the sum of
/// the blinding factors.
pub proof fn lemma_commit_add(v1: nat, r1: nat, v2: nat, r2: nat)
    ensures
        (commit_spec(v1, r1) + commit_spec(v2, r2)) % fr_modulus()
            == commit_spec((v1 + v2) % fr_modulus(), (r1 + r2) % fr_modulus()),
{
    let m = fr_modulus() as int;
    let h = h_log() as int;
    let (a1, b1, a2, b2) = (v1 as int, r1 as int, v2 as int, r2 as int);
    // left: ((a1 + h b1) % m + (a2 + h b2) % m) % m == (a1 + h b1 + a2 + h b2) % m
    lemma_add_mod_noop(a1 + h * b1, a2 + h * b2, m);
    // right: ((a1 + a2) % m + h ((b1 + b2) % m)) % m
    lemma_mul_mod_noop_right(h, b1 + b2, m);
    lemma_add_mod_noop(a1 + a2, h * ((b1 + b2) % m), m);
    lemma_add_mod_noop(a1 + a2, h * (b1 + b2), m);
    lemma_mod_bound(a1 + a2, m);
    lemma_mod_bound(h * ((b1 + b2) % m), m);
    vstd::arithmetic::div_mod::lemma_mod_twice(a1 + a2, m);
    vstd::arithmetic::div_mod::lemma_mod_twice(h * (b1 + b2), m);
    lemma_mul_is_distributive_add(h, b1, b2);
    assert(a1 + h * b1 + (a2 + h * b2) == a1 + a2 + h * (b1 + b2));
}

/// Subtracting two commitments commits to the difference of the values with
/// the difference of the blinding factors.
pub proof fn lemma_commit_sub(v1: nat, r1: nat, v2: nat, r2: nat)
    ensures
        (commit_spec(v1, r1) - commit_spec(v2, r2)) % (fr_modulus() as int)
            == commit_spec(((v1 - v2) % (fr_modulus() as int)) as nat, ((r1 - r2) % (fr_modulus() as int)) as nat),
{
    let m = fr_modulus() as int;
    let h = h_log() as int;
    let (a1, b1, a2, b2) = (v1 as int, r1 as int, v2 as int, r2 as int);
    lemma_sub_mod_noop(a1 + h * b1, a2 + h * b2, m);
    lemma_mod_bound(a1 - a2, m);
    lemma_mod_bound(b1 - b2, m);
    lemma_mul_mod_noop_right(h, b1 - b2, m);
    lemma_add_mod_noop(a1 - a2, h * ((b1 - b2) % m), m);
    lemma_add_mod_noop(a1 - a2, h * (b1 - b2), m);
    vstd::arithmetic::div_mod::lemma_mod_twice(a1 - a2, m);
    vstd::arithmetic::div_mod::lemma_mod_twice(h * (b1 - b2), m);
    lemma_mul_is_distributive_sub(h, b1, b2);
    assert(a1 + h * b1 - (a2 + h * b2) == a1 - a2 + h * (b1 - b2));
}

} // verus!
