//! The sumcheck protocol for one multilinear polynomial: the prover convinces
//! the verifier that `sum_{x in {0,1}^n} f(x) = C`, one variable per round.

use vstd::prelude::*;
use vstd::arithmetic::power2::{pow2, lemma_pow2_unfold};
use crate::curve::scalar::{Scalar, fr_modulus, sum_mod, scalars_view};
use crate::multilinear::error::MLEError;
use crate::univariate::algebra::{poly_eval, int_eval, as_ints, xpow, lemma_poly_eval_int};
use crate::multilinear::dense::{DenseMLEPolynomial, fold_entry, fold_once, fold_table, mle_eval, evens, odds};

verus! {

/// The sum of a table's entries at even indices, where variable 0 is 0.
pub open spec fn even_sum(t: Seq<nat>) -> nat {
    sum_mod(evens(t))
}

/// The sum of a table's entries at odd indices, where variable 0 is 1.
pub open spec fn odd_sum(t: Seq<nat>) -> nat {
    sum_mod(odds(t))
}

/// The coefficients of the line through `(0, s0)` and `(1, s1)`.
pub open spec fn line_coeffs(s0: nat, s1: nat) -> Seq<nat> {
    seq![s0, ((s1 - s0) % (fr_modulus() as int)) as nat]
}

/// The round polynomial that the honest prover sends for a table: the line
/// through the sums of its even-index and odd-index entries.
pub open spec fn round_coeffs(t: Seq<nat>) -> Seq<nat> {
    line_coeffs(even_sum(t), odd_sum(t))
}

/// The round polynomials of an honest proof for the table `t` and the
/// challenges `rs`: round `i` works on the table with `i` variables fixed.
pub open spec fn honest_rounds(t: Seq<nat>, rs: Seq<nat>) -> Seq<Seq<nat>> {
    Seq::new(rs.len(), |i: int| round_coeffs(fold_table(t, rs.take(i))))
}

/// `s(0) + s(1)` modulo `r`.
pub open spec fn sum_at_0_and_1_spec(cs: Seq<nat>) -> nat {
    (poly_eval(cs, 0) + poly_eval(cs, 1)) % fr_modulus()
}

/// What the verifier expects round `k` to sum to: the claim, then the value
/// of the previous round polynomial at the previous challenge.
pub open spec fn expected_at(claimed: nat, rounds: Seq<Seq<nat>>, rs: Seq<nat>, k: int) -> nat {
    if k == 0 {
        claimed
    } else {
        poly_eval(rounds[k - 1], rs[k - 1])
    }
}

/// Whether the verifier accepts a proof (claim, round polynomials, challenges,
/// final value) for the table `t` in `n` variables.
pub open spec fn sumcheck_accepts(
    claimed: nat,
    rounds: Seq<Seq<nat>>,
    rs: Seq<nat>,
    final_eval: nat,
    t: Seq<nat>,
    n: nat,
) -> bool {
    &&& rounds.len() == n
    &&& rs.len() == n
    &&& forall|k: int| 0 <= k < n ==> #[trigger] sum_at_0_and_1_spec(rounds[k]) == expected_at(claimed, rounds, rs, k)
    &&& expected_at(claimed, rounds, rs, n as int) == final_eval
    &&& final_eval == mle_eval(t, rs)
}

/// A univariate polynomial stored as coefficients: `coeffs[i]` is the
/// coefficient of `t^i`, so `[3, 5]` is `3 + 5t`.
#[derive(Debug, Clone, PartialEq, Eq)]
pub struct UnivariatePoly {
    pub coeffs: Vec<Scalar>,
}

/// The coefficients of each round polynomial, as integers modulo `r`.
pub open spec fn rounds_view(ps: Seq<UnivariatePoly>) -> Seq<Seq<nat>> {
    ps.map_values(|p: UnivariatePoly| scalars_view(p.coeffs@))
}

impl UnivariatePoly {
    /// The coefficients as integers modulo `r`.
    pub open spec fn coeffs_view(&self) -> Seq<nat> {
        scalars_view(self.coeffs@)
    }

    /// Creates the polynomial with the given coefficients.
    pub fn new(coeffs: Vec<Scalar>) -> (r: Self)
        ensures
            r.coeffs@ == coeffs@,
    {
        Self { coeffs }
    }

    /// The value at `t`, by Horner's rule `c0 + t (c1 + t (c2 + ...))`.
    pub fn eval(&self, t: Scalar) -> (r: Scalar)
        ensures
            r@ == poly_eval(self.coeffs_view(), t@),
    {
        let cs = &self.coeffs;
        let ghost v = scalars_view(cs@);
        let mut acc = Scalar::zero();
        let mut i: usize = cs.len();
        proof {
            assert(v.subrange(cs.len() as int, cs.len() as int) =~= Seq::<nat>::empty());
        }
        while i > 0
            invariant
                i <= cs.len(),
                v == scalars_view(cs@),
                acc@ == poly_eval(v.subrange(i as int, cs.len() as int), t@),
            decreases i,
        {
            let c = cs[i - 1];
            let prod = acc.mul(&t);
            let next = prod.add(&c);
            proof {
                let tail = v.subrange(i as int, cs.len() as int);
                let s = v.subrange(i - 1, cs.len() as int);
                assert(s.drop_first() =~= tail);
                assert(s[0] == c@);
                let m = fr_modulus() as int;
                vstd::arithmetic::div_mod::lemma_add_mod_noop((acc@ * t@) as int, c@ as int, m);
                vstd::arithmetic::div_mod::lemma_mod_twice((acc@ * t@) as int, m);
                vstd::arithmetic::div_mod::lemma_small_mod(c@, fr_modulus());
                assert(acc@ * t@ == t@ * acc@) by (nonlinear_arith);
            }
            acc = next;
            i = i - 1;
        }
        proof {
            assert(v.subrange(0, cs.len() as int) =~= v);
        }
        acc
    }

    /// The line with `s(0) = s0` and `s(1) = s1`: coefficients `[s0, s1 - s0]`.
    pub fn from_evals_at_01(s0: Scalar, s1: Scalar) -> (r: Self)
        ensures
            r.coeffs_view() == line_coeffs(s0@, s1@),
    {
        let d = s1.sub(&s0);
        let coeffs = vec![s0, d];
        proof {
            assert(scalars_view(coeffs@) =~= line_coeffs(s0@, s1@));
        }
        Self { coeffs }
    }

    /// `s(0) + s(1)`, which the verifier checks against the running claim.
    pub fn sum_at_0_and_1(&self) -> (r: Scalar)
        ensures
            r@ == sum_at_0_and_1_spec(self.coeffs_view()),
            r@ == (poly_eval(self.coeffs_view(), 0) + poly_eval(self.coeffs_view(), 1)) % fr_modulus(),
    {
        let zero = Scalar::zero();
        let one = Scalar::one();
        let a = self.eval(zero);
        let b = self.eval(one);
        a.add(&b)
    }

    /// The degree: one less than the number of coefficients, and 0 for none.
    pub fn degree(&self) -> (r: usize)
        ensures
            r == (if self.coeffs.len() == 0 { 0 } else { self.coeffs.len() - 1 }),
    {
        self.coeffs.len().saturating_sub(1)
    }
}

/// `1^k = 1`.
proof fn lemma_xpow_one(k: nat)
    ensures
        xpow(1, k) == 1,
    decreases k,
{
    if k > 0 {
        lemma_xpow_one((k - 1) as nat);
    }
}

/// The value at 1 of a polynomial is the sum of its coefficients.
proof fn lemma_int_eval_at_one(cs: Seq<nat>)
    ensures
        int_eval(as_ints(cs), 1) == sum_int(cs),
    decreases cs.len(),
{
    if cs.len() > 0 {
        assert(as_ints(cs).drop_last() =~= as_ints(cs.drop_last()));
        lemma_int_eval_at_one(cs.drop_last());
        lemma_xpow_one((cs.len() - 1) as nat);
        assert(as_ints(cs).last() == cs.last() as int);
    }
}

/// `s(0) + s(1)` is the constant coefficient plus the sum of all
/// coefficients, modulo `r`: `2 c0 + c1 + c2 + ...`.
pub proof fn lemma_sum_at_0_and_1_coefficients(cs: Seq<nat>)
    requires
        cs.len() > 0,
    ensures
        sum_at_0_and_1_spec(cs) == (cs[0] + sum_mod(cs)) % fr_modulus(),
{
    let m = fr_modulus() as int;
    lemma_poly_eval_int(cs, 1);
    lemma_int_eval_at_one(cs);
    lemma_sum_mod_is_sum_int(cs);
    assert(poly_eval(cs, 1) == sum_mod(cs));
    let t = cs.drop_first();
    assert(0 * poly_eval(t, 0) == 0);
    assert(poly_eval(cs, 0) == cs[0] % fr_modulus());
    vstd::arithmetic::div_mod::lemma_add_mod_noop(cs[0] as int, sum_mod(cs) as int, m);
    vstd::arithmetic::div_mod::lemma_mod_twice(sum_mod(cs) as int, m);
    vstd::arithmetic::div_mod::lemma_small_mod(sum_mod(cs), fr_modulus());
}

/// A sumcheck proof: the claimed sum, one round polynomial and one challenge
/// per variable, and the value of the polynomial at the challenge point.
#[derive(Debug, Clone)]
pub struct SumcheckProof {
    /// The claimed sum over the hypercube.
    pub claimed_sum: Scalar,
    /// One univariate polynomial per round.
    pub round_polys: Vec<UnivariatePoly>,
    /// The verifier's challenges, one per round.
    pub challenges: Vec<Scalar>,
    /// The value of the polynomial at the challenge point.
    pub final_eval: Scalar,
}

/// The plain integer sum of a sequence.
spec fn sum_int(s: Seq<nat>) -> int
    decreases s.len(),
{
    if s.len() == 0 {
        0
    } else {
        sum_int(s.drop_last()) + s.last()
    }
}

/// Integers that differ by a multiple of `m` agree modulo `m`.
proof fn lemma_mod_congruent(a: int, b: int, k: int, m: int)
    requires
        m > 0,
        a == b + m * k,
    ensures
        a % m == b % m,
{
    vstd::arithmetic::div_mod::lemma_mod_multiples_vanish(k, b, m);
}

/// Adding modulo `r` as we go is adding and reducing once.
proof fn lemma_sum_mod_is_sum_int(s: Seq<nat>)
    ensures
        sum_mod(s) == sum_int(s) % (fr_modulus() as int),
        sum_mod(s) < fr_modulus(),
    decreases s.len(),
{
    let m = fr_modulus() as int;
    if s.len() > 0 {
        lemma_sum_mod_is_sum_int(s.drop_last());
        vstd::arithmetic::div_mod::lemma_add_mod_noop(sum_int(s.drop_last()), s.last() as int, m);
        vstd::arithmetic::div_mod::lemma_mod_twice(sum_int(s.drop_last()), m);
        vstd::arithmetic::div_mod::lemma_add_mod_noop(sum_mod(s.drop_last()) as int, s.last() as int, m);
        vstd::arithmetic::div_mod::lemma_mod_twice(s.last() as int, m);
    }
}

/// The sum of a concatenation is the sum of the sums.
proof fn lemma_sum_int_concat(a: Seq<nat>, b: Seq<nat>)
    ensures
        sum_int(a + b) == sum_int(a) + sum_int(b),
    decreases b.len(),
{
    if b.len() > 0 {
        assert((a + b).drop_last() =~= a + b.drop_last());
        lemma_sum_int_concat(a, b.drop_last());
    }
}

/// Summing the pointwise interpolations of two sequences interpolates their sums.
proof fn lemma_sum_int_interpolate(a: Seq<nat>, b: Seq<nat>, r: nat)
    requires
        a.len() == b.len(),
    ensures
        sum_int(Seq::new(a.len(), |q: int| fold_entry(a[q], b[q], r))) % (fr_modulus() as int)
            == (sum_int(a) + r * (sum_int(b) - sum_int(a))) % (fr_modulus() as int),
    decreases a.len(),
{
    let m = fr_modulus() as int;
    let f = Seq::new(a.len(), |q: int| fold_entry(a[q], b[q], r));
    if a.len() > 0 {
        let a1 = a.drop_last();
        let b1 = b.drop_last();
        let f1 = Seq::new(a1.len(), |q: int| fold_entry(a1[q], b1[q], r));
        assert(f.drop_last() =~= f1);
        lemma_sum_int_interpolate(a1, b1, r);
        let x1 = sum_int(a1) + r * (sum_int(b1) - sum_int(a1));
        let e = a.last() + r * (b.last() - a.last());
        vstd::arithmetic::div_mod::lemma_mod_bound(e, m);
        assert(f.last() as int == e % m);
        assert(sum_int(f) == sum_int(f1) + f.last());
        vstd::arithmetic::div_mod::lemma_add_mod_noop(sum_int(f1), f.last() as int, m);
        vstd::arithmetic::div_mod::lemma_mod_twice(e, m);
        vstd::arithmetic::div_mod::lemma_add_mod_noop(x1, e, m);
        assert(sum_int(f1) % m == x1 % m);
        assert(sum_int(f) % m == ((sum_int(f1) % m) + (e % m)) % m);
        assert(sum_int(f) % m == (x1 + e) % m);
        assert(x1 + e == sum_int(a) + r * (sum_int(b) - sum_int(a))) by (nonlinear_arith)
            requires
                x1 == sum_int(a1) + r * (sum_int(b1) - sum_int(a1)),
                e == a.last() + r * (b.last() - a.last()),
                sum_int(a) == sum_int(a1) + a.last(),
                sum_int(b) == sum_int(b1) + b.last(),
        {
        }
        assert(sum_int(f) % m == (sum_int(a) + r * (sum_int(b) - sum_int(a))) % m);
    } else {
        assert(sum_int(f) == 0);
        assert(sum_int(a) == 0 && sum_int(b) == 0);
        assert(r * (sum_int(b) - sum_int(a)) == 0) by (nonlinear_arith)
            requires
                sum_int(a) == 0 && sum_int(b) == 0,
        {
        }
    }
}

/// A table of even length sums to its even-index entries plus its odd-index
/// entries.
proof fn lemma_sum_int_evens_odds(t: Seq<nat>)
    requires
        t.len() % 2 == 0,
    ensures
        sum_int(t) == sum_int(evens(t)) + sum_int(odds(t)),
    decreases t.len(),
{
    if t.len() > 0 {
        let n = t.len() as int;
        let t1 = t.drop_last();
        let t2 = t1.drop_last();
        assert(evens(t).drop_last() =~= evens(t2));
        assert(odds(t).drop_last() =~= odds(t2));
        assert(evens(t).last() == t[n - 2]);
        assert(odds(t).last() == t[n - 1]);
        assert(t1.last() == t[n - 2]);
        lemma_sum_int_evens_odds(t2);
        assert(sum_int(t) == sum_int(t1) + t[n - 1]);
        assert(sum_int(t1) == sum_int(t2) + t[n - 2]);
        assert(sum_int(evens(t)) == sum_int(evens(t2)) + t[n - 2]);
        assert(sum_int(odds(t)) == sum_int(odds(t2)) + t[n - 1]);
    } else {
        assert(evens(t).len() == 0 && odds(t).len() == 0);
        assert(sum_int(t) == 0 && sum_int(evens(t)) == 0 && sum_int(odds(t)) == 0);
    }
}

/// The sum of a table of even length is the sum of the sums over variable 0
/// fixed to 0 and to 1.
proof fn lemma_sum_even_odd(t: Seq<nat>)
    requires
        t.len() % 2 == 0,
    ensures
        sum_mod(t) == (even_sum(t) + odd_sum(t)) % fr_modulus(),
{
    let m = fr_modulus() as int;
    let lo = evens(t);
    let hi = odds(t);
    lemma_sum_int_evens_odds(t);
    lemma_sum_mod_is_sum_int(t);
    lemma_sum_mod_is_sum_int(lo);
    lemma_sum_mod_is_sum_int(hi);
    vstd::arithmetic::div_mod::lemma_add_mod_noop(sum_int(lo), sum_int(hi), m);
}

/// Fixing variable 0 to `r` turns the sum into the value at `r` of the line
/// through the sums of the even-index and odd-index entries.
proof fn lemma_sum_fold_once(t: Seq<nat>, r: nat)
    ensures
        sum_mod(fold_once(t, r)) == (even_sum(t) + r * (odd_sum(t) - even_sum(t))) % (fr_modulus() as int),
{
    let m = fr_modulus() as int;
    let lo = evens(t);
    let hi = odds(t);
    let f = Seq::new(lo.len(), |q: int| fold_entry(lo[q], hi[q], r));
    assert(f =~= fold_once(t, r));
    lemma_sum_int_interpolate(lo, hi, r);
    lemma_sum_mod_is_sum_int(f);
    lemma_sum_mod_is_sum_int(lo);
    lemma_sum_mod_is_sum_int(hi);
    let x = sum_int(lo);
    let y = sum_int(hi);
    vstd::arithmetic::div_mod::lemma_fundamental_div_mod(x, m);
    vstd::arithmetic::div_mod::lemma_fundamental_div_mod(y, m);
    let qx = x / m;
    let qy = y / m;
    assert((x % m) + r * ((y % m) - (x % m)) == (x + r * (y - x)) + m * (r * qx - qx - r * qy)) by (nonlinear_arith)
        requires
            x == m * qx + x % m,
            y == m * qy + y % m,
    {
    }
    lemma_mod_congruent((x % m) + r * ((y % m) - (x % m)), x + r * (y - x), r * qx - qx - r * qy, m);
}

/// The line through `(0, s0)` and `(1, s1)` sums to `s0 + s1` at 0 and 1,
/// and takes the value `s0 + x (s1 - s0)` at `x`.
proof fn lemma_line(s0: nat, s1: nat, x: nat)
    requires
        s0 < fr_modulus(),
    ensures
        sum_at_0_and_1_spec(line_coeffs(s0, s1)) == (s0 + s1) % fr_modulus(),
        poly_eval(line_coeffs(s0, s1), x) == (s0 + x * (s1 - s0)) % (fr_modulus() as int),
{
    let m = fr_modulus() as int;
    let cs = line_coeffs(s0, s1);
    let d = (s1 - s0) % m;
    vstd::arithmetic::div_mod::lemma_mod_bound(s1 - s0, m);
    assert(cs.drop_first().drop_first() =~= Seq::<nat>::empty());
    assert(cs.drop_first() =~= seq![d as nat]);
    vstd::arithmetic::div_mod::lemma_small_mod(d as nat, fr_modulus());
    let single = seq![d as nat];
    assert(single.drop_first() =~= Seq::<nat>::empty());
    assert(poly_eval(Seq::<nat>::empty(), x) == 0);
    assert(poly_eval(single, x) == (d as nat + x * 0) % fr_modulus());
    assert(poly_eval(single, x) == d % m);
    assert(poly_eval(cs, x) == (s0 + x * d) % m);
    vstd::arithmetic::div_mod::lemma_small_mod(s0, fr_modulus());
    assert(poly_eval(cs, 0) == s0);
    assert(poly_eval(Seq::<nat>::empty(), 1) == 0);
    assert(poly_eval(single, 1) == (d as nat + 1 * 0) % fr_modulus());
    assert(poly_eval(cs.drop_first(), 1) == d);
    assert(poly_eval(cs, 1) == (s0 + 1 * d) % m);
    assert(poly_eval(cs, 1) == (s0 + d) % m);
    vstd::arithmetic::div_mod::lemma_add_mod_noop(s0 as int, s0 + d, m);
    vstd::arithmetic::div_mod::lemma_mod_twice(s0 + d, m);
    vstd::arithmetic::div_mod::lemma_fundamental_div_mod(s1 - s0, m);
    let q = (s1 - s0) / m;
    assert(s0 + (s0 + d) == (s0 + s1) + m * (-q));
    lemma_mod_congruent(s0 + (s0 + d), (s0 + s1) as int, -q, m);
    assert(s0 + x * d == (s0 + x * (s1 - s0)) + m * (-(x * q))) by (nonlinear_arith)
        requires
            s1 - s0 == m * q + d,
    {
    }
    lemma_mod_congruent(s0 + x * d, s0 + x * (s1 - s0), -(x * q), m);
}

/// A sequence of one entry below `r` sums to that entry.
proof fn lemma_sum_single(s: Seq<nat>)
    requires
        s.len() == 1,
        s[0] < fr_modulus(),
    ensures
        sum_mod(s) == s[0],
{
    assert(s.drop_last() =~= Seq::<nat>::empty());
    assert(sum_mod(s.drop_last()) == 0);
    assert(s.last() == s[0]);
    vstd::arithmetic::div_mod::lemma_small_mod(s[0], fr_modulus());
}

/// The table of round `k`: the table with the first `k` challenges fixed.
pub open spec fn round_table(t: Seq<nat>, rs: Seq<nat>, k: int) -> Seq<nat> {
    fold_table(t, rs.take(k))
}

/// The honest round polynomial of round `k` sums at 0 and 1 to the sum of
/// the round's table.
proof fn lemma_round_sum(t: Seq<nat>, rs: Seq<nat>, n: nat, k: int)
    requires
        t.len() == pow2(n),
        rs.len() == n,
        0 <= k < n,
    ensures
        sum_at_0_and_1_spec(round_coeffs(round_table(t, rs, k))) == sum_mod(round_table(t, rs, k)),
{
    let tk = round_table(t, rs, k);
    crate::multilinear::dense::lemma_fold_table_len(t, rs.take(k), n);
    lemma_pow2_unfold((n - k) as nat);
    lemma_sum_mod_is_sum_int(evens(tk));
    lemma_line(even_sum(tk), odd_sum(tk), 0);
    lemma_sum_even_odd(tk);
}

/// What the verifier expects in round `k` of an honest proof is the sum of
/// the round's table.
proof fn lemma_expected(t: Seq<nat>, rs: Seq<nat>, n: nat, k: int)
    requires
        t.len() == pow2(n),
        rs.len() == n,
        0 <= k <= n,
    ensures
        expected_at(sum_mod(t), honest_rounds(t, rs), rs, k) == sum_mod(round_table(t, rs, k)),
{
    if k == 0 {
        assert(rs.take(0) =~= Seq::<nat>::empty());
    } else {
        let prev = round_table(t, rs, k - 1);
        let r = rs[k - 1];
        assert(honest_rounds(t, rs)[k - 1] == round_coeffs(prev));
        lemma_sum_mod_is_sum_int(evens(prev));
        lemma_line(even_sum(prev), odd_sum(prev), r);
        lemma_sum_fold_once(prev, r);
        assert(rs.take(k) =~= rs.take(k - 1).push(r));
        crate::multilinear::dense::lemma_fold_table_push(t, rs.take(k - 1), r);
    }
}

/// Completeness of sumcheck: the honest proof for a table of `2^n` field
/// elements and `n` challenges is accepted by the verifier.
pub proof fn lemma_sumcheck_complete(t: Seq<nat>, rs: Seq<nat>, n: nat)
    requires
        t.len() == pow2(n),
        rs.len() == n,
        forall|i: int| 0 <= i < t.len() ==> #[trigger] t[i] < fr_modulus(),
    ensures
        sumcheck_accepts(sum_mod(t), honest_rounds(t, rs), rs, mle_eval(t, rs), t, n),
{
    let rounds = honest_rounds(t, rs);
    assert forall|k: int| 0 <= k < n implies #[trigger] sum_at_0_and_1_spec(rounds[k])
        == expected_at(sum_mod(t), rounds, rs, k) by {
        lemma_round_sum(t, rs, n, k);
        lemma_expected(t, rs, n, k);
    }
    lemma_expected(t, rs, n, n as int);
    assert(rs.take(n as int) =~= rs);
    let last = fold_table(t, rs);
    crate::multilinear::dense::lemma_fold_table_len(t, rs, n);
    vstd::arithmetic::power2::lemma2_to64();
    if n == 0 {
        assert(rs =~= Seq::<nat>::empty());
        assert(last == t);
    } else {
        let prev = round_table(t, rs, n - 1);
        assert(rs =~= rs.take(n - 1).push(rs[n - 1]));
        crate::multilinear::dense::lemma_fold_table_push(t, rs.take(n - 1), rs[n - 1]);
        assert(last == fold_once(prev, rs[n - 1]));
    }
    lemma_sum_single(last);
}

/// Runs the honest sumcheck prover for `sum_{x in {0,1}^n} f(x)` with the
/// verifier's challenges, one per variable: round `i` sends the line through
/// the sums of the table's even-index and odd-index entries, then fixes
/// the next variable, from variable 0 up, to the challenge.
pub fn prove(poly: &DenseMLEPolynomial, challenges: &[Scalar]) -> (r: Result<SumcheckProof, MLEError>)
    requires
        poly.wf(),
        challenges.len() == poly.num_vars,
    ensures
        r is Ok,
        r matches Ok(p) ==> {
            &&& p.claimed_sum@ == sum_mod(poly.table())
            &&& rounds_view(p.round_polys@) == honest_rounds(poly.table(), scalars_view(challenges@))
            &&& p.challenges@ == challenges@
            &&& p.final_eval@ == mle_eval(poly.table(), scalars_view(challenges@))
            &&& sumcheck_accepts(p.claimed_sum@, rounds_view(p.round_polys@), scalars_view(p.challenges@),
                p.final_eval@, poly.table(), poly.num_vars as nat)
        },
{
    let n = poly.num_vars;
    let ghost t = poly.table();
    let ghost rs = scalars_view(challenges@);
    let claimed_sum = poly.sum_over_hypercube();
    let mut current = DenseMLEPolynomial {
        num_vars: n,
        evals: crate::multilinear::dense::copy_scalars(poly.evals.as_slice()),
    };
    let mut round_polys: Vec<UnivariatePoly> = Vec::new();
    let mut j: usize = 0;
    proof {
        assert(rs.take(0) =~= Seq::<nat>::empty());
        assert(rounds_view(round_polys@) =~= honest_rounds(t, rs).take(0));
    }
    while j < n
        invariant
            n == poly.num_vars,
            challenges.len() == n,
            t == poly.table(),
            rs == scalars_view(challenges@),
            j <= n,
            current.wf(),
            current.num_vars == n - j,
            current.table() == fold_table(t, rs.take(j as int)),
            rounds_view(round_polys@) == honest_rounds(t, rs).take(j as int),
        decreases n - j,
    {
        let r = challenges[j];
        let sums = current.sumcheck_round();
        let s0 = sums[0];
        let s1 = sums[1];
        let round = UnivariatePoly::from_evals_at_01(s0, s1);
        let ghost before = round_polys@;
        round_polys.push(round);
        proof {
            let ct = current.table();
            assert(ct.len() == current.evals.len());
            assert(s0@ == even_sum(ct));
            assert(s1@ == odd_sum(ct));
            assert(round.coeffs_view() == round_coeffs(ct));
            assert(honest_rounds(t, rs)[j as int] == round_coeffs(ct));
            assert(rounds_view(before).len() == j);
            assert(before.len() == j);
            assert(round_polys@[j as int] == round);
            assert(rounds_view(round_polys@)[j as int] == round.coeffs_view());
            assert forall|q: int| 0 <= q < j implies #[trigger] rounds_view(round_polys@)[q] == rounds_view(before)[q] by {
                assert(round_polys@[q] == before[q]);
            }
            assert(rounds_view(round_polys@) =~= honest_rounds(t, rs).take(j + 1));
        }
        let next = match current.fix_variable(r) {
            Ok(p) => p,
            Err(e) => {
                return Err(e);
            },
        };
        proof {
            assert(rs.take(j + 1) =~= rs.take(j as int).push(r@));
            crate::multilinear::dense::lemma_fold_table_push(t, rs.take(j as int), r@);
        }
        current = next;
        j = j + 1;
    }
    proof {
        assert(rs.take(n as int) =~= rs);
        assert(honest_rounds(t, rs).take(n as int) =~= honest_rounds(t, rs));
        vstd::arithmetic::power2::lemma2_to64();
        assert(scalars_view(current.evals@)[0] == current.evals@[0]@);
    }
    let final_eval = current.evals[0];
    proof {
        crate::curve::scalar::lemma_scalars_bound(poly.evals@);
        lemma_sumcheck_complete(t, rs, n as nat);
    }
    Ok(SumcheckProof {
        claimed_sum,
        round_polys,
        challenges: crate::multilinear::dense::copy_scalars(challenges),
        final_eval,
    })
}

/// What acceptance means, round by round: there is one round polynomial and
/// one challenge per variable; round 0 sums at 0 and 1 to the claim; every
/// later round `k` sums at 0 and 1 to the value of round `k - 1` at its
/// challenge; the last round's value at its challenge (the claim itself when
/// there are no variables) is the final value; and the final value is the
/// polynomial's own value at the challenge point.
pub proof fn lemma_accepts_every_round(
    claimed: nat,
    rounds: Seq<Seq<nat>>,
    rs: Seq<nat>,
    final_eval: nat,
    t: Seq<nat>,
    n: nat,
)
    ensures
        sumcheck_accepts(claimed, rounds, rs, final_eval, t, n) <==> {
            &&& rounds.len() == n
            &&& rs.len() == n
            &&& n > 0 ==> (poly_eval(rounds[0], 0) + poly_eval(rounds[0], 1)) % fr_modulus() == claimed
            &&& forall|k: int| 1 <= k < n ==> (poly_eval(#[trigger] rounds[k], 0) + poly_eval(rounds[k], 1))
                % fr_modulus() == poly_eval(rounds[k - 1], rs[k - 1])
            &&& n > 0 ==> poly_eval(rounds[n - 1], rs[n - 1]) == final_eval
            &&& n == 0 ==> claimed == final_eval
            &&& final_eval == mle_eval(t, rs)
        },
{
    if sumcheck_accepts(claimed, rounds, rs, final_eval, t, n) {
        if n > 0 {
            assert(sum_at_0_and_1_spec(rounds[0]) == expected_at(claimed, rounds, rs, 0));
        }
        assert forall|k: int| 1 <= k < n implies (poly_eval(#[trigger] rounds[k], 0) + poly_eval(rounds[k], 1))
            % fr_modulus() == poly_eval(rounds[k - 1], rs[k - 1]) by {
            assert(sum_at_0_and_1_spec(rounds[k]) == expected_at(claimed, rounds, rs, k));
        }
    }
    if {
        &&& rounds.len() == n
        &&& rs.len() == n
        &&& n > 0 ==> (poly_eval(rounds[0], 0) + poly_eval(rounds[0], 1)) % fr_modulus() == claimed
        &&& forall|k: int| 1 <= k < n ==> (poly_eval(#[trigger] rounds[k], 0) + poly_eval(rounds[k], 1))
            % fr_modulus() == poly_eval(rounds[k - 1], rs[k - 1])
        &&& n > 0 ==> poly_eval(rounds[n - 1], rs[n - 1]) == final_eval
        &&& n == 0 ==> claimed == final_eval
        &&& final_eval == mle_eval(t, rs)
    } {
        assert forall|k: int| 0 <= k < n implies #[trigger] sum_at_0_and_1_spec(rounds[k])
            == expected_at(claimed, rounds, rs, k) by {
            if k >= 1 {
                assert((poly_eval(rounds[k], 0) + poly_eval(rounds[k], 1)) % fr_modulus()
                    == poly_eval(rounds[k - 1], rs[k - 1]));
            }
        }
    }
}

/// The verifier accepts at most one claimed sum for given round polynomials,
/// challenges and final value: changing the claim of an accepted proof gets
/// it rejected.
pub proof fn lemma_claimed_sum_determined(
    c1: nat,
    c2: nat,
    rounds: Seq<Seq<nat>>,
    rs: Seq<nat>,
    final_eval: nat,
    t: Seq<nat>,
    n: nat,
)
    requires
        sumcheck_accepts(c1, rounds, rs, final_eval, t, n),
    ensures
        sumcheck_accepts(c2, rounds, rs, final_eval, t, n) <==> c1 == c2,
{
    if sumcheck_accepts(c2, rounds, rs, final_eval, t, n) && n > 0 {
        assert(sum_at_0_and_1_spec(rounds[0]) == expected_at(c1, rounds, rs, 0));
        assert(sum_at_0_and_1_spec(rounds[0]) == expected_at(c2, rounds, rs, 0));
    }
    if c1 == c2 {
        assert(sumcheck_accepts(c2, rounds, rs, final_eval, t, n));
    }
}

/// Checks a sumcheck proof against the polynomial: each round polynomial must
/// sum at 0 and 1 to what the previous round gave, and the last value must be
/// the polynomial's own value at the challenge point. A proof with the wrong
/// number of rounds or challenges is rejected.
pub fn verify(proof: &SumcheckProof, poly: &DenseMLEPolynomial) -> (r: Result<bool, MLEError>)
    requires
        poly.wf(),
    ensures
        r == Ok::<bool, MLEError>(sumcheck_accepts(
            proof.claimed_sum@,
            rounds_view(proof.round_polys@),
            scalars_view(proof.challenges@),
            proof.final_eval@,
            poly.table(),
            poly.num_vars as nat,
        )),
{
    let n = poly.num_vars;
    let ghost rounds = rounds_view(proof.round_polys@);
    let ghost rs = scalars_view(proof.challenges@);
    let ghost claimed = proof.claimed_sum@;
    if proof.round_polys.len() != n {
        return Ok(false);
    }
    if proof.challenges.len() != n {
        return Ok(false);
    }
    let mut expected = proof.claimed_sum;
    let mut k: usize = 0;
    while k < n
        invariant
            n == poly.num_vars,
            proof.round_polys.len() == n,
            proof.challenges.len() == n,
            rounds == rounds_view(proof.round_polys@),
            rs == scalars_view(proof.challenges@),
            claimed == proof.claimed_sum@,
            k <= n,
            expected@ == expected_at(claimed, rounds, rs, k as int),
            forall|q: int| 0 <= q < k ==> #[trigger] sum_at_0_and_1_spec(rounds[q])
                == expected_at(claimed, rounds, rs, q),
        decreases n - k,
    {
        let round_poly = &proof.round_polys[k];
        let r = proof.challenges[k];
        proof {
            assert(rounds[k as int] == round_poly.coeffs_view());
            assert(rs[k as int] == r@);
        }
        let s = round_poly.sum_at_0_and_1();
        if !s.equals(&expected) {
            return Ok(false);
        }
        expected = round_poly.eval(r);
        k = k + 1;
    }
    let oracle_val = match poly.evaluate(proof.challenges.as_slice()) {
        Ok(v) => v,
        Err(e) => {
            return Err(e);
        },
    };
    Ok(expected.equals(&proof.final_eval) && proof.final_eval.equals(&oracle_val))
}

} // verus!
