//! Lucas's primality test: `n` is prime when some `a` has order exactly
//! `n - 1` modulo `n`, shown by `a^(n-1) = 1` and `a^((n-1)/q) != 1` for
//! each prime factor `q` of `n - 1`.

use vstd::prelude::*;
use vstd::arithmetic::power::{pow, lemma_pow0, lemma_pow1, lemma_pow_adds};
use vstd::arithmetic::div_mod::{lemma_mul_mod_noop, lemma_small_mod, lemma_mod_bound, lemma_fundamental_div_mod};
use vstd::set_lib::{set_int_range, lemma_int_range, lemma_map_size, lemma_subset_equality};
use vstd::relations::injective_on;
use crate::ecc::modular::{gcd, is_prime, lemma_gcd_pos, lemma_gcd_divides, lemma_divisor_le, lemma_euclid_init, lemma_euclid_run, lemma_euclid_final};
use crate::ecc::closure::{cong, lemma_cong_of_mod, lemma_cong_reduced, lemma_cong_mul, lemma_cong_trans, lemma_cong_refl, lemma_cong_cancel, lemma_cong_sym};

verus! {

/// `b^e mod m`.
pub open spec fn pm(b: int, e: nat, m: int) -> int {
    pow(b, e) % m
}

/// The product of a list of numbers.
pub open spec fn list_prod(qs: Seq<nat>) -> nat
    decreases qs.len(),
{
    if qs.len() == 0 {
        1
    } else {
        qs[0] * list_prod(qs.drop_first())
    }
}

/// A certificate that `n` is prime: a witness `a` and the prime factors
/// `qs` of `n - 1`, with repetition, such that `a^(n-1) = 1` and
/// `a^((n-1)/q) != 1` modulo `n` for each of them.
pub open spec fn lucas_certificate(n: int, a: int, qs: Seq<nat>) -> bool {
    &&& n > 2
    &&& 0 < a < n
    &&& list_prod(qs) == n - 1
    &&& pm(a, (n - 1) as nat, n) == 1
    &&& forall|i: int| 0 <= i < qs.len() ==> is_prime(#[trigger] qs[i])
    &&& forall|i: int| 0 <= i < qs.len() ==> (n - 1) % (qs[i] as int) == 0
        && pm(a, ((n - 1) / (qs[i] as int)) as nat, n) != 1
}

proof fn lemma_pm_bound(b: int, e: nat, m: int)
    requires
        m > 0,
    ensures
        0 <= pm(b, e, m) < m,
{
    lemma_mod_bound(pow(b, e), m);
}

/// `b^1 = b` for a residue `b`.
pub proof fn lemma_pm_one(b: int, m: int)
    requires
        0 <= b < m,
    ensures
        pm(b, 1, m) == b,
{
    lemma_pow1(b);
    lemma_small_mod(b as nat, m as nat);
}

/// Squaring: `b^(2e) = (b^e)^2` modulo `m`.
pub proof fn lemma_pm_double(b: int, e: nat, m: int)
    requires
        m > 0,
    ensures
        pm(b, e + e, m) == (pm(b, e, m) * pm(b, e, m)) % m,
{
    lemma_pow_adds(b, e, e);
    lemma_mul_mod_noop(pow(b, e), pow(b, e), m);
}

/// One more factor: `b^(e+1) = b^e b` modulo `m`, for a residue `b`.
pub proof fn lemma_pm_succ(b: int, e: nat, m: int)
    requires
        0 <= b < m,
    ensures
        pm(b, e + 1, m) == (pm(b, e, m) * b) % m,
{
    lemma_pow_adds(b, e, 1);
    lemma_pow1(b);
    lemma_mul_mod_noop(pow(b, e), b, m);
    lemma_small_mod(b as nat, m as nat);
}

/// The product of a list from entry `k` on is that entry times the product
/// of the rest.
pub proof fn lemma_list_prod_front(qs: Seq<nat>, k: int, x: nat, y: nat)
    requires
        0 <= k < qs.len(),
        qs[k] == x,
        list_prod(qs.subrange(k + 1, qs.len() as int)) == y,
    ensures
        list_prod(qs.subrange(k, qs.len() as int)) == x * y,
{
    let s = qs.subrange(k, qs.len() as int);
    assert(s.drop_first() =~= qs.subrange(k + 1, qs.len() as int));
    assert(s[0] == qs[k]);
}

/// `b^(x+y) = b^x b^y` modulo `m`.
proof fn lemma_pm_adds(b: int, x: nat, y: nat, m: int)
    requires
        m > 0,
    ensures
        pm(b, x + y, m) == (pm(b, x, m) * pm(b, y, m)) % m,
{
    lemma_pow_adds(b, x, y);
    lemma_mul_mod_noop(pow(b, x), pow(b, y), m);
}

/// `b^0 = 1` modulo `m > 1`.
proof fn lemma_pm_zero(b: int, m: int)
    requires
        m > 1,
    ensures
        pm(b, 0, m) == 1,
{
    lemma_pow0(b);
    lemma_small_mod(1, m as nat);
}

/// Where `b^d = 1`, every power `b^(d k)` is 1 too.
proof fn lemma_pm_multiple(b: int, d: nat, k: nat, m: int)
    requires
        m > 1,
        pm(b, d, m) == 1,
    ensures
        pm(b, d * k, m) == 1,
    decreases k,
{
    if k == 0 {
        assert(d * k == 0);
        lemma_pm_zero(b, m);
    } else {
        lemma_pm_multiple(b, d, (k - 1) as nat, m);
        assert(d * k == d * (k - 1) + d) by (nonlinear_arith);
        lemma_pm_adds(b, d * ((k - 1) as nat), d, m);
        lemma_small_mod(1, m as nat);
    }
}

/// Some positive `d <= k` has `b^d = 1` and no smaller positive exponent does.
proof fn lemma_min_order(b: int, k: nat, m: int) -> (d: nat)
    requires
        k > 0,
        pm(b, k, m) == 1,
    ensures
        0 < d <= k,
        pm(b, d, m) == 1,
        forall|j: nat| 0 < j < d ==> #[trigger] pm(b, j, m) != 1,
    decreases k,
{
    if exists|j: nat| 0 < j < k && #[trigger] pm(b, j, m) == 1 {
        let j = choose|j: nat| 0 < j < k && #[trigger] pm(b, j, m) == 1;
        lemma_min_order(b, j, m)
    } else {
        k
    }
}

/// A number of at least 2 that divides a product of primes is divided by
/// one of them.
proof fn lemma_prime_factor_in_list(m: int, qs: Seq<nat>)
    requires
        m >= 2,
        (list_prod(qs) as int) % m == 0,
        forall|i: int| 0 <= i < qs.len() ==> is_prime(#[trigger] qs[i]),
    ensures
        exists|i: int| 0 <= i < qs.len() && m % (#[trigger] qs[i] as int) == 0,
    decreases qs.len(),
{
    if qs.len() == 0 {
        lemma_small_mod(1, m as nat);
    } else {
        let q = qs[0] as int;
        let rest = qs.drop_first();
        let p = list_prod(rest) as int;
        assert(is_prime(qs[0]));
        if m % q != 0 {
            // q and m are coprime, so q is invertible modulo m and m divides p.
            let g = gcd(q as nat, m as nat);
            lemma_gcd_pos(q as nat, m as nat);
            lemma_gcd_divides(q as nat, m as nat);
            lemma_divisor_le(q as nat, g);
            if g != 1 {
                if g < q {
                    assert((q as nat) % g != 0);
                }
                assert(false);
            }
            let a = q % m;
            lemma_mod_bound(q, m);
            assert(gcd(m as nat, a as nat) == 1);
            lemma_euclid_init(m, a);
            let res = lemma_euclid_run(m, a, 0, 1, m, a, 1, 0);
            lemma_euclid_final(m, a, res.0, res.2, res.3);
            let t = if res.0 < 0 { res.0 + m } else { res.0 };
            lemma_small_mod(1, m as nat);
            lemma_cong_of_mod(a * t, 1, m);
            lemma_cong_reduced(a, q, m);
            lemma_cong_refl(t, m);
            lemma_cong_sym(a, q, m);
            lemma_cong_mul(q, a, t, t, m);
            lemma_cong_trans(q * t, a * t, 1, m);
            assert(p * q == q * p) by (nonlinear_arith);
            lemma_small_mod(0, m as nat);
            lemma_cong_of_mod(p * q, 0, m);
            lemma_cong_cancel(p, q, t, m);
            lemma_cong_of_mod(p, 0, m);
            lemma_prime_factor_in_list(m, rest);
            let i = choose|i: int| 0 <= i < rest.len() && m % (#[trigger] rest[i] as int) == 0;
            assert(qs[i + 1] == rest[i]);
        } else {
            assert(qs[0] == q);
        }
    }
}

/// Lucas's test: a certificate shows that `n` is prime.
pub proof fn lemma_lucas(n: int, a: int, qs: Seq<nat>)
    requires
        lucas_certificate(n, a, qs),
    ensures
        is_prime(n as nat),
{
    let n1 = (n - 1) as nat;
    let d = lemma_min_order(a, n1, n);
    // The order d divides n - 1.
    let k = n1 / d;
    let t = n1 % d;
    lemma_fundamental_div_mod(n1 as int, d as int);
    lemma_mod_bound(n1 as int, d as int);
    assert(n1 == d * k + t);
    lemma_pm_multiple(a, d, k, n);
    lemma_pm_adds(a, d * k, t, n);
    lemma_pm_bound(a, t, n);
    lemma_small_mod(pm(a, t, n) as nat, n as nat);
    assert(pm(a, t, n) == 1);
    assert(t == 0);
    // The order is n - 1: otherwise a prime factor q of (n-1)/d gives a^((n-1)/q) = 1.
    if d < n1 {
        assert(k >= 2) by (nonlinear_arith)
            requires
                n1 == d * k,
                d < n1,
                d > 0,
        ;
        assert((list_prod(qs) as int) % (k as int) == 0) by {
            assert(list_prod(qs) as int == (k as int) * (d as int)) by (nonlinear_arith)
                requires
                    list_prod(qs) == n1,
                    n1 == d * k,
            ;
            vstd::arithmetic::div_mod::lemma_mod_multiples_basic(d as int, k as int);
        }
        lemma_prime_factor_in_list(k as int, qs);
        let i = choose|i: int| 0 <= i < qs.len() && (k as int) % (#[trigger] qs[i] as int) == 0;
        let q = qs[i] as int;
        assert(is_prime(qs[i]));
        let k2 = (k as int) / q;
        lemma_fundamental_div_mod(k as int, q);
        assert(n1 == q * (d * k2)) by (nonlinear_arith)
            requires
                n1 == d * k,
                k == q * k2,
        ;
        assert((n1 as int) / q == d * k2) by {
            vstd::arithmetic::div_mod::lemma_div_multiples_vanish(d * k2, q);
        }
        assert(k2 >= 0) by (nonlinear_arith)
            requires
                k == q * k2,
                q > 1,
        ;
        lemma_pm_multiple(a, d, k2 as nat, n);
        assert(false);
    }
    assert(d == n1);
    lemma_powers_cover(n, a);
}

/// Where `a` has order exactly `n - 1` modulo `n`, its powers run through
/// every non-zero residue, each of them is invertible, and so `n` is prime.
proof fn lemma_powers_cover(n: int, a: int)
    requires
        n > 2,
        pm(a, (n - 1) as nat, n) == 1,
        forall|j: nat| 0 < j < n - 1 ==> #[trigger] pm(a, j, n) != 1,
    ensures
        is_prime(n as nat),
{
    let n1 = (n - 1) as nat;
    let f = |i: int| pm(a, i as nat, n);
    let dom = set_int_range(0, n - 1);
    let img = dom.map(f);
    // Distinct powers.
    assert forall|i: int, j: int| dom.contains(i) && dom.contains(j) && #[trigger] f(i) == #[trigger] f(j) implies i == j by {
        if i != j {
            let (lo, hi) = if i < j { (i, j) } else { (j, i) };
            lemma_pm_adds(a, lo as nat, (n - 1 - hi) as nat, n);
            lemma_pm_adds(a, hi as nat, (n - 1 - hi) as nat, n);
            assert(pm(a, (lo + (n - 1 - hi)) as nat, n) == 1);
            assert(false);
        }
    }
    lemma_int_range(0, n - 1);
    lemma_map_size(dom, img, f);
    let nonzero = set_int_range(1, n);
    lemma_int_range(1, n);
    assert forall|v: int| img.contains(v) implies nonzero.contains(v) by {
        let i = choose|i: int| dom.contains(i) && f(i) == v;
        lemma_pm_bound(a, i as nat, n);
        lemma_pm_adds(a, i as nat, (n - 1 - i) as nat, n);
        if v == 0 {
            lemma_small_mod(0, n as nat);
            assert(false);
        }
    }
    lemma_subset_equality(img, nonzero);
    // Every u in (1, n) is some a^i, invertible, so it cannot divide n.
    assert forall|u: nat| 1 < u < n implies #[trigger] ((n as nat) % u) != 0 by {
        assert(nonzero.contains(u as int));
        assert(img.contains(u as int));
        let i = choose|i: int| dom.contains(i) && f(i) == u as int;
        lemma_pm_adds(a, i as nat, (n - 1 - i) as nat, n);
        let w = pm(a, (n - 1 - i) as nat, n);
        assert((u * w) % n == 1);
        if (n as nat) % u == 0 {
            lemma_fundamental_div_mod(u * w, n);
            lemma_fundamental_div_mod(n, u as int);
            let c = (u * w) / n;
            let v = n / (u as int);
            assert(u * (w - v * c) == 1) by (nonlinear_arith)
                requires
                    u * w == n * c + 1,
                    n == u * v,
            ;
            assert(false) by (nonlinear_arith)
                requires
                    u * (w - v * c) == 1,
                    u > 1,
            ;
        }
    }
}

} // verus!
