//! Roots of polynomials over `F_r`: a polynomial with fewer coefficients
//! than it has distinct roots is zero, so the polynomial through given
//! points is unique.

use vstd::prelude::*;
use vstd::arithmetic::div_mod::{lemma_mod_bound, lemma_small_mod};
use crate::curve::scalar::fr_modulus;
use crate::curve::modulus_prime::lemma_fr_modulus_prime;
use crate::ecc::modular::lemma_no_zero_divisors;
use crate::ecc::closure::{
    cong, lemma_cong_of_mod, lemma_cong_reduced, lemma_cong_add, lemma_cong_mul, lemma_cong_trans, lemma_cong_refl,
    lemma_cong_sym,
};
use crate::univariate::algebra::{poly_eval, trimmed, coeff_at, neg_coeffs, sub_coeffs, lemma_poly_eval_sub, lemma_trimmed_prefix};

verus! {

/// The quotient of `s` by `x - a`: coefficient `j` is the value at `a` of
/// the coefficients of `s` above `j`.
pub open spec fn quotient(s: Seq<nat>, a: nat) -> Seq<nat> {
    Seq::new((s.len() - 1) as nat, |j: int| poly_eval(s.subrange(j + 1, s.len() as int), a))
}

proof fn lemma_poly_eval_bound(s: Seq<nat>, x: nat)
    ensures
        poly_eval(s, x) < fr_modulus(),
{
    if s.len() > 0 {
        lemma_mod_bound((s[0] + x * poly_eval(s.drop_first(), x)) as int, fr_modulus() as int);
    }
}

/// `s(x) = (x - a) q(x) + s(a)` modulo `r`, for the quotient `q` of `s` by `x - a`.
pub proof fn lemma_quotient_eval(s: Seq<nat>, a: nat, x: nat)
    requires
        s.len() > 0,
    ensures
        cong(poly_eval(s, x) as int, (x - a) * poly_eval(quotient(s, a), x) + poly_eval(s, a), fr_modulus() as int),
    decreases s.len(),
{
    let m = fr_modulus() as int;
    let t = s.drop_first();
    let q = quotient(s, a);
    if s.len() == 1 {
        assert(t.len() == 0);
        assert(q.len() == 0);
        assert(poly_eval(t, x) == 0 && poly_eval(t, a) == 0 && poly_eval(q, x) == 0);
        assert(x * 0 == 0 && a * 0 == 0 && (x - a) * 0 == 0);
        assert(poly_eval(s, x) == poly_eval(s, a));
        lemma_cong_refl(poly_eval(s, x) as int, m);
    } else {
        lemma_quotient_eval(t, a, x);
        let sx = poly_eval(s, x) as int;
        let tx = poly_eval(t, x) as int;
        let ta = poly_eval(t, a) as int;
        let sa = poly_eval(s, a) as int;
        let qx = poly_eval(q, x) as int;
        let eq = poly_eval(quotient(t, a), x) as int;
        let s0 = s[0] as int;
        assert(s.subrange(1, s.len() as int) =~= t);
        assert(q[0] == ta);
        assert(q.drop_first() =~= quotient(t, a)) by {
            assert forall|j: int| 0 <= j < q.len() - 1 implies #[trigger] q.drop_first()[j] == quotient(t, a)[j] by {
                assert(s.subrange(j + 2, s.len() as int) =~= t.subrange(j + 1, t.len() as int));
            }
        }
        // s(x) = s0 + x t(x), t(x) = (x - a) eq + t(a)
        lemma_cong_reduced(sx, s0 + x * tx, m);
        lemma_cong_refl(s0, m);
        lemma_cong_refl(x as int, m);
        lemma_cong_mul(x as int, x as int, tx, (x - a) * eq + ta, m);
        lemma_cong_add(s0, s0, x * tx, x * ((x - a) * eq + ta), m);
        lemma_cong_trans(sx, s0 + x * tx, s0 + x * ((x - a) * eq + ta), m);
        // q(x) = t(a) + x eq, s(a) = s0 + a t(a)
        lemma_cong_reduced(qx, ta + x * eq, m);
        lemma_cong_reduced(sa, s0 + a * ta, m);
        lemma_cong_refl(x - a, m);
        lemma_cong_mul(x - a, x - a, qx, ta + x * eq, m);
        lemma_cong_add((x - a) * qx, (x - a) * (ta + x * eq), sa, s0 + a * ta, m);
        assert(s0 + x * ((x - a) * eq + ta) == (x - a) * (ta + x * eq) + (s0 + a * ta)) by (nonlinear_arith);
        lemma_cong_sym((x - a) * qx + sa, (x - a) * (ta + x * eq) + (s0 + a * ta), m);
        lemma_cong_trans(sx, s0 + x * ((x - a) * eq + ta), (x - a) * qx + sa, m);
    }
}

/// The quotient's coefficient `k - 1` is `s[k] + a` times coefficient `k`.
proof fn lemma_quotient_step(s: Seq<nat>, a: nat, k: int)
    requires
        0 <= k < s.len(),
    ensures
        poly_eval(s.subrange(k, s.len() as int), a)
            == (s[k] + a * poly_eval(s.subrange(k + 1, s.len() as int), a)) % fr_modulus(),
{
    let u = s.subrange(k, s.len() as int);
    assert(u.drop_first() =~= s.subrange(k + 1, s.len() as int));
    assert(u[0] == s[k]);
}

/// A polynomial with no more coefficients than it has distinct roots below
/// `r` has only zero coefficients.
pub proof fn lemma_vanishing(d: Seq<nat>, xs: Seq<nat>)
    requires
        forall|k: int| 0 <= k < d.len() ==> #[trigger] d[k] < fr_modulus(),
        forall|i: int| 0 <= i < xs.len() ==> #[trigger] xs[i] < fr_modulus(),
        forall|i: int, j: int| 0 <= i < xs.len() && 0 <= j < xs.len() && i != j ==> #[trigger] xs[i] != #[trigger] xs[j],
        d.len() <= xs.len(),
        forall|i: int| 0 <= i < xs.len() ==> #[trigger] poly_eval(d, xs[i]) == 0,
    ensures
        forall|k: int| 0 <= k < d.len() ==> #[trigger] d[k] == 0,
    decreases d.len(),
{
    if d.len() > 0 {
        let m = fr_modulus() as int;
        let n = d.len() as int;
        let a = xs[0];
        let q = quotient(d, a);
        let rest = xs.drop_first();
        assert(poly_eval(d, xs[0]) == 0);
        // The quotient vanishes at the other points.
        assert forall|i: int| 0 <= i < rest.len() implies #[trigger] poly_eval(q, rest[i]) == 0 by {
            let x = rest[i];
            assert(x == xs[i + 1]);
            assert(xs[i + 1] != xs[0]);
            assert(poly_eval(d, xs[i + 1]) == 0);
            lemma_quotient_eval(d, a, x);
            let qx = poly_eval(q, x) as int;
            lemma_poly_eval_bound(q, x);
            if qx != 0 {
                let u = (x - a) % m;
                lemma_mod_bound(x - a, m);
                if u == 0 {
                    crate::ecc::modular::lemma_mod_is_zero_small(x - a, m);
                }
                lemma_fr_modulus_prime();
                lemma_no_zero_divisors(u, qx, m);
                lemma_cong_reduced(u, x - a, m);
                lemma_cong_refl(qx, m);
                lemma_cong_mul(u, x - a, qx, qx, m);
                lemma_small_mod(0, fr_modulus());
                assert((x - a) * qx + 0 == (x - a) * qx);
                lemma_cong_sym(0, (x - a) * qx + 0, m);
                lemma_cong_trans(u * qx, (x - a) * qx, 0, m);
                lemma_cong_of_mod(u * qx, 0, m);
                assert(false);
            }
        }
        assert forall|k: int| 0 <= k < q.len() implies #[trigger] q[k] < fr_modulus() by {
            lemma_poly_eval_bound(d.subrange(k + 1, n), a);
        }
        assert forall|i: int, j: int| 0 <= i < rest.len() && 0 <= j < rest.len() && i != j implies #[trigger] rest[i] != #[trigger] rest[j] by {
            assert(rest[i] == xs[i + 1] && rest[j] == xs[j + 1]);
        }
        assert forall|i: int| 0 <= i < rest.len() implies #[trigger] rest[i] < fr_modulus() by {
            assert(rest[i] == xs[i + 1]);
        }
        lemma_vanishing(q, rest);
        // Then every coefficient is zero, from the top down.
        assert forall|k: int| 0 <= k < n implies #[trigger] d[k] == 0 by {
            lemma_quotient_step(d, a, k);
            let above = poly_eval(d.subrange(k + 1, n), a);
            if k + 1 < n {
                assert(q[k] == above);
            } else {
                assert(d.subrange(k + 1, n).len() == 0);
            }
            assert(above == 0);
            if k == 0 {
                assert(d.subrange(0, n) =~= d);
            } else {
                assert(q[k - 1] == poly_eval(d.subrange(k, n), a));
            }
            assert(a * 0 == 0);
            lemma_small_mod(d[k], fr_modulus());
        }
    }
}

/// Two trimmed polynomials with no more coefficients than there are
/// distinct points, that agree at every point, are the same polynomial.
pub proof fn lemma_agreeing_polynomials_equal(p: Seq<nat>, q: Seq<nat>, xs: Seq<nat>)
    requires
        trimmed(p) == p,
        trimmed(q) == q,
        forall|k: int| 0 <= k < p.len() ==> #[trigger] p[k] < fr_modulus(),
        forall|k: int| 0 <= k < q.len() ==> #[trigger] q[k] < fr_modulus(),
        p.len() <= xs.len(),
        q.len() <= xs.len(),
        forall|i: int| 0 <= i < xs.len() ==> #[trigger] xs[i] < fr_modulus(),
        forall|i: int, j: int| 0 <= i < xs.len() && 0 <= j < xs.len() && i != j ==> #[trigger] xs[i] != #[trigger] xs[j],
        forall|i: int| 0 <= i < xs.len() ==> #[trigger] poly_eval(p, xs[i]) == poly_eval(q, xs[i]),
    ensures
        p == q,
{
    let m = fr_modulus() as int;
    let d = sub_coeffs(p, q);
    assert forall|i: int| 0 <= i < xs.len() implies #[trigger] poly_eval(d, xs[i]) == 0 by {
        let x = xs[i];
        lemma_poly_eval_sub(p, q, x);
        let v = poly_eval(p, x) as int;
        lemma_poly_eval_bound(p, x);
        if v == 0 {
            lemma_small_mod(0, fr_modulus());
        } else {
            lemma_small_mod((m - v) as nat, fr_modulus());
            vstd::arithmetic::div_mod::lemma_mod_self_0(m);
        }
    }
    assert forall|k: int| 0 <= k < d.len() implies #[trigger] d[k] < fr_modulus() by {
        lemma_mod_bound((coeff_at(p, k) + coeff_at(neg_coeffs(q), k)) as int, m);
    }
    lemma_vanishing(d, xs);
    // Every coefficient agrees.
    assert forall|k: int| 0 <= k < d.len() implies #[trigger] coeff_at(p, k) == coeff_at(q, k) by {
        assert(d[k] == 0);
        let cp = coeff_at(p, k) as int;
        let cq = coeff_at(q, k) as int;
        let nq = coeff_at(neg_coeffs(q), k) as int;
        if cq == 0 {
            lemma_small_mod(0, fr_modulus());
            assert(nq == 0);
            lemma_small_mod(cp as nat, fr_modulus());
        } else {
            lemma_small_mod((m - cq) as nat, fr_modulus());
            assert(nq == m - cq);
            if cp != cq {
                if cp > cq {
                    lemma_mod_bound(cp - cq, m);
                    vstd::arithmetic::div_mod::lemma_mod_add_multiples_vanish(cp - cq, m);
                    lemma_small_mod((cp - cq) as nat, fr_modulus());
                } else {
                    lemma_small_mod((m + cp - cq) as nat, fr_modulus());
                }
            }
        }
    }
    lemma_trimmed_prefix(p);
    lemma_trimmed_prefix(q);
    if p.len() > q.len() {
        assert(coeff_at(p, p.len() - 1) == coeff_at(q, p.len() - 1));
        assert(p.last() == p[p.len() - 1]);
    } else if q.len() > p.len() {
        assert(coeff_at(p, q.len() - 1) == coeff_at(q, q.len() - 1));
        assert(q.last() == q[q.len() - 1]);
    }
    assert forall|k: int| 0 <= k < p.len() implies p[k] == q[k] by {
        assert(coeff_at(p, k) == coeff_at(q, k));
    }
    assert(p =~= q);
}

} // verus!
