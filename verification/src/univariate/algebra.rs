//! The coefficient sequences of polynomials modulo `r`, the operations on
//! them, and how evaluation treats each operation.

use vstd::prelude::*;
use crate::curve::scalar::fr_modulus;
use crate::ecc::modular::lemma_no_zero_divisors;
use crate::curve::modulus_prime::lemma_fr_modulus_prime;

verus! {

/// `x^n` over the integers.
pub open spec fn xpow(x: int, n: nat) -> int
    decreases n,
{
    if n == 0 {
        1
    } else {
        x * xpow(x, (n - 1) as nat)
    }
}

/// The value at `t` modulo `r` of the polynomial with coefficients `cs`
/// (`cs[i]` that of `t^i`), in Horner's form `c0 + t (c1 + t (c2 + ...))`.
pub open spec fn poly_eval(cs: Seq<nat>, t: nat) -> nat
    decreases cs.len(),
{
    if cs.len() == 0 {
        0
    } else {
        (cs[0] + t * poly_eval(cs.drop_first(), t)) % fr_modulus()
    }
}

/// The value over the integers of the polynomial with coefficients `cs`:
/// `sum_i cs[i] x^i`.
pub open spec fn int_eval(cs: Seq<int>, x: int) -> int
    decreases cs.len(),
{
    if cs.len() == 0 {
        0
    } else {
        int_eval(cs.drop_last(), x) + cs.last() * xpow(x, (cs.len() - 1) as nat)
    }
}

/// A coefficient sequence seen as integers.
pub open spec fn as_ints(cs: Seq<nat>) -> Seq<int> {
    cs.map_values(|c: nat| c as int)
}

/// The sequence without its trailing zeros.
pub open spec fn trimmed(s: Seq<nat>) -> Seq<nat>
    decreases s.len(),
{
    if s.len() > 0 && s.last() == 0 {
        trimmed(s.drop_last())
    } else {
        s
    }
}

/// Coefficient `i`, and zero past the end.
pub open spec fn coeff_at(s: Seq<nat>, i: int) -> nat {
    if 0 <= i < s.len() {
        s[i]
    } else {
        0
    }
}

/// Coefficient-wise sum modulo `r`, the shorter padded with zeros.
pub open spec fn add_coeffs(a: Seq<nat>, b: Seq<nat>) -> Seq<nat> {
    let n = if a.len() >= b.len() { a.len() } else { b.len() };
    Seq::new(n, |i: int| (coeff_at(a, i) + coeff_at(b, i)) % fr_modulus())
}

/// Coefficient-wise negation modulo `r`.
pub open spec fn neg_coeffs(a: Seq<nat>) -> Seq<nat> {
    Seq::new(a.len(), |i: int| ((fr_modulus() - a[i]) % (fr_modulus() as int)) as nat)
}

/// Every coefficient times `c`, modulo `r`.
pub open spec fn scale_coeffs(a: Seq<nat>, c: nat) -> Seq<nat> {
    Seq::new(a.len(), |i: int| (a[i] * c) % fr_modulus())
}

/// The contribution of coefficient `i` of `a` to coefficient `k` of the
/// product with `b`.
pub open spec fn mul_term(a: Seq<nat>, b: Seq<nat>, i: int, k: int) -> nat {
    if i <= k < i + b.len() {
        (a[i] * b[k - i]) % fr_modulus()
    } else {
        0
    }
}

/// Coefficient `k` of the product with `b` of the first `i` coefficients of
/// `a`, summed modulo `r` row by row.
pub open spec fn row_sum(a: Seq<nat>, b: Seq<nat>, i: nat, k: int) -> nat
    decreases i,
{
    if i == 0 {
        0
    } else {
        (row_sum(a, b, (i - 1) as nat, k) + mul_term(a, b, i - 1, k)) % fr_modulus()
    }
}

/// The product's coefficients, `sum_{i + j = k} a[i] b[j]` modulo `r`; empty
/// when either factor is.
pub open spec fn mul_coeffs(a: Seq<nat>, b: Seq<nat>) -> Seq<nat> {
    if a.len() == 0 || b.len() == 0 {
        Seq::empty()
    } else {
        Seq::new((a.len() + b.len() - 1) as nat, |k: int| row_sum(a, b, a.len(), k))
    }
}

// ---------------------------------------------------------------------------
// Evaluation over the integers
// ---------------------------------------------------------------------------

/// Horner's form reduces the integer value.
pub proof fn lemma_poly_eval_int(cs: Seq<nat>, x: nat)
    ensures
        poly_eval(cs, x) == int_eval(as_ints(cs), x as int) % (fr_modulus() as int),
    decreases cs.len(),
{
    let m = fr_modulus() as int;
    if cs.len() > 0 {
        lemma_poly_eval_int(cs.drop_first(), x);
        assert(as_ints(cs.drop_first()) =~= as_ints(cs).drop_first());
        lemma_int_eval_front(as_ints(cs), x as int);
        let e = int_eval(as_ints(cs.drop_first()), x as int);
        vstd::arithmetic::div_mod::lemma_mul_mod_noop_right(x as int, e, m);
        vstd::arithmetic::div_mod::lemma_add_mod_noop(cs[0] as int, x * (e % m), m);
        vstd::arithmetic::div_mod::lemma_add_mod_noop(cs[0] as int, x * e, m);
        vstd::arithmetic::div_mod::lemma_mod_twice(x * (e % m), m);
        vstd::arithmetic::div_mod::lemma_mod_twice(x * e, m);
    }
}

/// The integer value peeled from the front: `c0 + x (c1 + c2 x + ...)`.
pub proof fn lemma_int_eval_front(cs: Seq<int>, x: int)
    requires
        cs.len() > 0,
    ensures
        int_eval(cs, x) == cs[0] + x * int_eval(cs.drop_first(), x),
    decreases cs.len(),
{
    if cs.len() == 1 {
        assert(cs.drop_first() =~= Seq::<int>::empty());
        assert(cs.drop_last() =~= Seq::<int>::empty());
        assert(xpow(x, 0) == 1);
    } else {
        let d = cs.drop_last();
        lemma_int_eval_front(d, x);
        assert(cs.drop_first().drop_last() =~= d.drop_first());
        let n = (cs.len() - 1) as nat;
        assert(xpow(x, n) == x * xpow(x, (n - 1) as nat));
        let e = int_eval(d.drop_first(), x);
        let l = cs.last();
        assert(x * (e + l * xpow(x, (n - 1) as nat)) == x * e + l * (x * xpow(x, (n - 1) as nat)))
            by (nonlinear_arith);
    }
}


/// Sequences that agree modulo `r` coefficient by coefficient have values
/// that agree modulo `r`.
pub proof fn lemma_int_eval_congruent(s: Seq<int>, t: Seq<int>, x: int)
    requires
        s.len() == t.len(),
        forall|i: int| 0 <= i < s.len() ==> #[trigger] s[i] % (fr_modulus() as int) == t[i] % (fr_modulus() as int),
    ensures
        int_eval(s, x) % (fr_modulus() as int) == int_eval(t, x) % (fr_modulus() as int),
    decreases s.len(),
{
    let m = fr_modulus() as int;
    if s.len() > 0 {
        let k = (s.len() - 1) as nat;
        lemma_int_eval_congruent(s.drop_last(), t.drop_last(), x);
        let p = xpow(x, k);
        let es = int_eval(s.drop_last(), x);
        let et = int_eval(t.drop_last(), x);
        assert(s.last() % m == t.last() % m);
        vstd::arithmetic::div_mod::lemma_mul_mod_noop_left(s.last(), p, m);
        vstd::arithmetic::div_mod::lemma_mul_mod_noop_left(t.last(), p, m);
        vstd::arithmetic::div_mod::lemma_add_mod_noop(es, s.last() * p, m);
        vstd::arithmetic::div_mod::lemma_add_mod_noop(et, t.last() * p, m);
    }
}

/// Values of sums are sums of values.
pub proof fn lemma_int_eval_add(f: Seq<int>, g: Seq<int>, x: int)
    requires
        f.len() == g.len(),
    ensures
        int_eval(Seq::new(f.len(), |i: int| f[i] + g[i]), x) == int_eval(f, x) + int_eval(g, x),
    decreases f.len(),
{
    let h = Seq::new(f.len(), |i: int| f[i] + g[i]);
    if f.len() > 0 {
        let f1 = f.drop_last();
        let g1 = g.drop_last();
        assert(h.drop_last() =~= Seq::new(f1.len(), |i: int| f1[i] + g1[i]));
        lemma_int_eval_add(f1, g1, x);
        let p = xpow(x, (f.len() - 1) as nat);
        assert((f.last() + g.last()) * p == f.last() * p + g.last() * p) by (nonlinear_arith);
    }
}

/// Scaling the coefficients scales the value.
pub proof fn lemma_int_eval_scale(f: Seq<int>, c: int, x: int)
    ensures
        int_eval(Seq::new(f.len(), |i: int| c * f[i]), x) == c * int_eval(f, x),
    decreases f.len(),
{
    let h = Seq::new(f.len(), |i: int| c * f[i]);
    if f.len() > 0 {
        let f1 = f.drop_last();
        assert(h.drop_last() =~= Seq::new(f1.len(), |i: int| c * f1[i]));
        lemma_int_eval_scale(f1, c, x);
        let p = xpow(x, (f.len() - 1) as nat);
        let e = int_eval(f1, x);
        assert(c * e + (c * f.last()) * p == c * (e + f.last() * p)) by (nonlinear_arith);
    }
}

/// Trailing zeros add nothing to the value.
pub proof fn lemma_int_eval_trimmed(s: Seq<nat>, x: int)
    ensures
        int_eval(as_ints(trimmed(s)), x) == int_eval(as_ints(s), x),
    decreases s.len(),
{
    if s.len() > 0 && s.last() == 0 {
        lemma_int_eval_trimmed(s.drop_last(), x);
        assert(as_ints(s).drop_last() =~= as_ints(s.drop_last()));
        assert(as_ints(s).last() == 0);
        assert(int_eval(as_ints(s), x) == int_eval(as_ints(s.drop_last()), x) + 0 * xpow(x, (s.len() - 1) as nat));
        assert(trimmed(s) == trimmed(s.drop_last()));
    }
}

/// Trailing zeros do not change the value modulo `r`.
pub proof fn lemma_poly_eval_trimmed(s: Seq<nat>, x: nat)
    ensures
        poly_eval(trimmed(s), x) == poly_eval(s, x),
{
    lemma_poly_eval_int(s, x);
    lemma_poly_eval_int(trimmed(s), x);
    lemma_int_eval_trimmed(s, x as int);
}

/// `x^(a + b) = x^a x^b`.
pub proof fn lemma_xpow_add(x: int, a: nat, b: nat)
    ensures
        xpow(x, a + b) == xpow(x, a) * xpow(x, b),
    decreases b,
{
    if b > 0 {
        lemma_xpow_add(x, a, (b - 1) as nat);
        assert(xpow(x, a + b) == x * xpow(x, (a + b - 1) as nat));
        assert(x * (xpow(x, a) * xpow(x, (b - 1) as nat)) == xpow(x, a) * (x * xpow(x, (b - 1) as nat)))
            by (nonlinear_arith);
    }
}

/// Zeros past the end add nothing to the value.
pub proof fn lemma_int_eval_padded(s: Seq<nat>, len: nat, x: int)
    requires
        len >= s.len(),
    ensures
        int_eval(Seq::new(len, |i: int| coeff_at(s, i) as int), x) == int_eval(as_ints(s), x),
    decreases len,
{
    let p = Seq::new(len, |i: int| coeff_at(s, i) as int);
    if len == s.len() {
        assert(p =~= as_ints(s));
    } else {
        assert(p.drop_last() =~= Seq::new((len - 1) as nat, |i: int| coeff_at(s, i) as int));
        lemma_int_eval_padded(s, (len - 1) as nat, x);
        assert(p.last() == 0);
        assert(int_eval(p, x) == int_eval(p.drop_last(), x) + 0 * xpow(x, (len - 1) as nat));
    }
}

/// `b` shifted up by `d` places: the value is `x^d` times that of the part
/// of `b` that fits below `len`.
pub proof fn lemma_int_eval_shifted(b: Seq<int>, d: nat, len: nat, x: int)
    ensures
        int_eval(Seq::new(len, |k: int| if d <= k < d + b.len() { b[k - d] } else { 0 }), x)
            == xpow(x, d) * int_eval(b.take(
                if len <= d { 0 } else if len - d >= b.len() { b.len() as int } else { len - d }), x),
    decreases len,
{
    let t = Seq::new(len, |k: int| if d <= k < d + b.len() { b[k - d] } else { 0 });
    let kept = if len <= d { 0 } else if len - d >= b.len() { b.len() as int } else { len - d };
    if len == 0 {
        assert(b.take(0) =~= Seq::<int>::empty());
    } else {
        let l1 = (len - 1) as nat;
        let kept1 = if l1 <= d { 0 } else if l1 - d >= b.len() { b.len() as int } else { l1 - d };
        assert(t.drop_last() =~= Seq::new(l1, |k: int| if d <= k < d + b.len() { b[k - d] } else { 0 }));
        lemma_int_eval_shifted(b, d, l1, x);
        let pd = xpow(x, d);
        assert(int_eval(t, x) == int_eval(t.drop_last(), x) + t.last() * xpow(x, l1));
        if l1 < d || l1 >= d + b.len() {
            assert(t.last() == 0);
            assert(kept == kept1);
            assert(int_eval(t, x) == int_eval(t.drop_last(), x) + 0 * xpow(x, l1));
        } else {
            let j = (l1 - d) as nat;
            assert(kept1 == j);
            assert(kept == j + 1);
            assert(b.take((j + 1) as int).drop_last() =~= b.take(j as int));
            assert(t.last() == b[j as int]);
            lemma_xpow_add(x, d, j);
            assert(d + j == l1);
            let e = int_eval(b.take(j as int), x);
            assert(pd * (e + b[j as int] * xpow(x, j)) == pd * e + b[j as int] * (pd * xpow(x, j)))
                by (nonlinear_arith);
        }
    }
}

/// Row sums over the integers, without reduction.
pub open spec fn row_sum_int(a: Seq<nat>, b: Seq<nat>, i: nat, k: int) -> int
    decreases i,
{
    if i == 0 {
        0
    } else {
        row_sum_int(a, b, (i - 1) as nat, k) + (if i - 1 <= k < i - 1 + b.len() { a[i - 1] * b[k - (i - 1)] } else { 0 })
    }
}

/// Reducing each row as it is added agrees with summing over the integers.
proof fn lemma_row_sum_congruent(a: Seq<nat>, b: Seq<nat>, i: nat, k: int)
    requires
        i <= a.len(),
    ensures
        row_sum(a, b, i, k) as int % (fr_modulus() as int) == row_sum_int(a, b, i, k) % (fr_modulus() as int),
        row_sum(a, b, i, k) < fr_modulus(),
    decreases i,
{
    let m = fr_modulus() as int;
    if i > 0 {
        let i1 = (i - 1) as nat;
        lemma_row_sum_congruent(a, b, i1, k);
        let e: int = if i - 1 <= k < i - 1 + b.len() { (a[i - 1] * b[k - (i - 1)]) as int } else { 0 };
        assert(mul_term(a, b, i - 1, k) as int == e % m);
        vstd::arithmetic::div_mod::lemma_add_mod_noop(row_sum(a, b, i1, k) as int, e % m, m);
        vstd::arithmetic::div_mod::lemma_mod_twice(e, m);
        vstd::arithmetic::div_mod::lemma_add_mod_noop(row_sum(a, b, i1, k) as int, e, m);
        vstd::arithmetic::div_mod::lemma_add_mod_noop(row_sum_int(a, b, i1, k), e, m);
        vstd::arithmetic::div_mod::lemma_mod_twice((row_sum(a, b, i1, k) + mul_term(a, b, i - 1, k)) as int, m);
    } else {
        vstd::arithmetic::div_mod::lemma_small_mod(0, fr_modulus());
    }
}

/// A table of zeros is worth zero.
proof fn lemma_int_eval_zeros(len: nat, x: int)
    ensures
        int_eval(Seq::new(len, |k: int| 0int), x) == 0,
    decreases len,
{
    if len > 0 {
        let z = Seq::new(len, |k: int| 0int);
        assert(z.drop_last() =~= Seq::new((len - 1) as nat, |k: int| 0int));
        lemma_int_eval_zeros((len - 1) as nat, x);
        assert(z.last() == 0);
        assert(int_eval(z, x) == int_eval(z.drop_last(), x) + 0 * xpow(x, (len - 1) as nat));
    }
}

/// The first `i` rows of the product are worth the first `i` coefficients
/// of `a` times `b`.
proof fn lemma_rows_eval(a: Seq<nat>, b: Seq<nat>, i: nat, len: nat, x: int)
    requires
        i <= a.len(),
        a.len() + b.len() <= len + 1,
    ensures
        int_eval(Seq::new(len, |k: int| row_sum_int(a, b, i, k)), x)
            == int_eval(as_ints(a).take(i as int), x) * int_eval(as_ints(b), x),
    decreases i,
{
    let rows = Seq::new(len, |k: int| row_sum_int(a, b, i, k));
    let eb = int_eval(as_ints(b), x);
    if i == 0 {
        assert(rows =~= Seq::new(len, |k: int| 0int));
        lemma_int_eval_zeros(len, x);
        assert(as_ints(a).take(0) =~= Seq::<int>::empty());
    } else {
        let d = (i - 1) as nat;
        let prev = Seq::new(len, |k: int| row_sum_int(a, b, d, k));
        let ib = as_ints(b);
        let shifted = Seq::new(len, |k: int| if d <= k < d + ib.len() { ib[k - d] } else { 0 });
        let c = a[d as int] as int;
        let term = Seq::new(len, |k: int| c * shifted[k]);
        lemma_rows_eval(a, b, d, len, x);
        lemma_int_eval_add(prev, term, x);
        assert(Seq::new(prev.len(), |k: int| prev[k] + term[k]) =~= rows);
        lemma_int_eval_scale(shifted, c, x);
        lemma_int_eval_shifted(ib, d, len, x);
        assert(ib.take(ib.len() as int) =~= ib);
        let ea = int_eval(as_ints(a).take(d as int), x);
        assert(as_ints(a).take(i as int).drop_last() =~= as_ints(a).take(d as int));
        assert(int_eval(as_ints(a).take(i as int), x) == ea + c * xpow(x, d));
        assert(ea * eb + c * (xpow(x, d) * eb) == (ea + c * xpow(x, d)) * eb) by (nonlinear_arith);
    }
}

/// Evaluation turns sums of coefficient sequences into sums of values.
pub proof fn lemma_poly_eval_add(a: Seq<nat>, b: Seq<nat>, x: nat)
    ensures
        poly_eval(add_coeffs(a, b), x) == (poly_eval(a, x) + poly_eval(b, x)) % fr_modulus(),
{
    let m = fr_modulus() as int;
    let s = add_coeffs(a, b);
    let len = s.len();
    let pa = Seq::new(len, |i: int| coeff_at(a, i) as int);
    let pb = Seq::new(len, |i: int| coeff_at(b, i) as int);
    let h = Seq::new(pa.len(), |i: int| pa[i] + pb[i]);
    lemma_int_eval_add(pa, pb, x as int);
    lemma_int_eval_padded(a, len, x as int);
    lemma_int_eval_padded(b, len, x as int);
    assert forall|i: int| 0 <= i < len implies #[trigger] as_ints(s)[i] % m == h[i] % m by {
        vstd::arithmetic::div_mod::lemma_mod_twice(h[i], m);
    }
    lemma_int_eval_congruent(as_ints(s), h, x as int);
    lemma_poly_eval_int(s, x);
    lemma_poly_eval_int(a, x);
    lemma_poly_eval_int(b, x);
    let ea = int_eval(as_ints(a), x as int);
    let eb = int_eval(as_ints(b), x as int);
    vstd::arithmetic::div_mod::lemma_add_mod_noop(ea, eb, m);
}

/// Evaluation turns negated coefficients into the negated value.
pub proof fn lemma_poly_eval_neg(a: Seq<nat>, x: nat)
    ensures
        poly_eval(neg_coeffs(a), x) == (fr_modulus() - poly_eval(a, x)) % (fr_modulus() as int),
{
    let m = fr_modulus() as int;
    let s = neg_coeffs(a);
    let ia = as_ints(a);
    let h = Seq::new(ia.len(), |i: int| -1 * ia[i]);
    lemma_int_eval_scale(ia, -1, x as int);
    assert forall|i: int| 0 <= i < a.len() implies #[trigger] as_ints(s)[i] % m == h[i] % m by {
        vstd::arithmetic::div_mod::lemma_mod_twice(m - a[i], m);
        lemma_mod_congruent_by(m - a[i], -1 * ia[i], 1, m);
    }
    lemma_int_eval_congruent(as_ints(s), h, x as int);
    lemma_poly_eval_int(s, x);
    lemma_poly_eval_int(a, x);
    let ea = int_eval(ia, x as int);
    vstd::arithmetic::div_mod::lemma_fundamental_div_mod(ea, m);
    lemma_mod_congruent_by(m - ea % m, -ea, 1 + ea / m, m);
}

/// Evaluation turns scaled coefficients into the scaled value.
pub proof fn lemma_poly_eval_scale(a: Seq<nat>, c: nat, x: nat)
    ensures
        poly_eval(scale_coeffs(a, c), x) == (c * poly_eval(a, x)) % fr_modulus(),
{
    let m = fr_modulus() as int;
    let s = scale_coeffs(a, c);
    let ia = as_ints(a);
    let h = Seq::new(ia.len(), |i: int| c * ia[i]);
    lemma_int_eval_scale(ia, c as int, x as int);
    assert forall|i: int| 0 <= i < a.len() implies #[trigger] as_ints(s)[i] % m == h[i] % m by {
        vstd::arithmetic::div_mod::lemma_mod_twice((a[i] * c) as int, m);
        assert(a[i] * c == c * ia[i]) by (nonlinear_arith)
            requires
                ia[i] == a[i],
        ;
    }
    lemma_int_eval_congruent(as_ints(s), h, x as int);
    lemma_poly_eval_int(s, x);
    lemma_poly_eval_int(a, x);
    let ea = int_eval(ia, x as int);
    vstd::arithmetic::div_mod::lemma_mul_mod_noop_right(c as int, ea, m);
}

/// Evaluation turns products of coefficient sequences into products of
/// values.
pub proof fn lemma_poly_eval_mul(a: Seq<nat>, b: Seq<nat>, x: nat)
    ensures
        poly_eval(mul_coeffs(a, b), x) == (poly_eval(a, x) * poly_eval(b, x)) % fr_modulus(),
{
    let m = fr_modulus() as int;
    lemma_poly_eval_int(a, x);
    lemma_poly_eval_int(b, x);
    let ea = int_eval(as_ints(a), x as int);
    let eb = int_eval(as_ints(b), x as int);
    if a.len() == 0 || b.len() == 0 {
        if a.len() == 0 {
            assert(poly_eval(a, x) == 0);
            assert(0 * poly_eval(b, x) == 0);
        } else {
            assert(poly_eval(b, x) == 0);
            assert(poly_eval(a, x) * 0 == 0);
        }
        assert(poly_eval(mul_coeffs(a, b), x) == 0);
    } else {
        let s = mul_coeffs(a, b);
        let len = s.len();
        let rows = Seq::new(len, |k: int| row_sum_int(a, b, a.len(), k));
        lemma_rows_eval(a, b, a.len(), len, x as int);
        assert(as_ints(a).take(a.len() as int) =~= as_ints(a));
        assert forall|k: int| 0 <= k < len implies #[trigger] as_ints(s)[k] % m == rows[k] % m by {
            lemma_row_sum_congruent(a, b, a.len(), k);
        }
        lemma_int_eval_congruent(as_ints(s), rows, x as int);
        lemma_poly_eval_int(s, x);
        vstd::arithmetic::div_mod::lemma_mul_mod_noop(ea, eb, m);
        assert(int_eval(rows, x as int) == ea * eb);
        assert(poly_eval(s, x) == (ea * eb) % m);
        assert(poly_eval(a, x) == ea % m);
        assert(poly_eval(b, x) == eb % m);
    }
}

/// Integers that differ by a multiple of `m` agree modulo `m`.
pub proof fn lemma_mod_congruent_by(a: int, b: int, k: int, m: int)
    requires
        m > 0,
        a == b + m * k,
    ensures
        a % m == b % m,
{
    vstd::arithmetic::div_mod::lemma_mod_multiples_vanish(k, b, m);
}

/// `a - b` coefficient-wise: `a` plus the negation of `b`.
pub open spec fn sub_coeffs(a: Seq<nat>, b: Seq<nat>) -> Seq<nat> {
    add_coeffs(a, neg_coeffs(b))
}

/// Trimming keeps a prefix, drops only zeros, and leaves no zero at the end.
pub proof fn lemma_trimmed_prefix(s: Seq<nat>)
    ensures
        trimmed(s).len() <= s.len(),
        trimmed(s) == s.take(trimmed(s).len() as int),
        forall|i: int| trimmed(s).len() <= i < s.len() ==> #[trigger] s[i] == 0,
        trimmed(s).len() == 0 || trimmed(s).last() != 0,
        trimmed(trimmed(s)) == trimmed(s),
    decreases s.len(),
{
    if s.len() > 0 && s.last() == 0 {
        let d = s.drop_last();
        lemma_trimmed_prefix(d);
        assert(s.take(trimmed(d).len() as int) =~= d.take(trimmed(d).len() as int));
        assert forall|i: int| trimmed(s).len() <= i < s.len() implies #[trigger] s[i] == 0 by {
            if i < d.len() {
                assert(s[i] == d[i]);
            }
        }
    } else {
        assert(s.take(s.len() as int) =~= s);
    }
}

/// Zeros appended to a sequence disappear when it is trimmed.
pub proof fn lemma_trimmed_zero_extension(s1: Seq<nat>, s2: Seq<nat>)
    requires
        s2.len() >= s1.len(),
        forall|i: int| 0 <= i < s1.len() ==> #[trigger] s2[i] == s1[i],
        forall|i: int| s1.len() <= i < s2.len() ==> #[trigger] s2[i] == 0,
    ensures
        trimmed(s2) == trimmed(s1),
    decreases s2.len(),
{
    if s2.len() == s1.len() {
        assert(s2 =~= s1);
    } else {
        let d = s2.drop_last();
        lemma_trimmed_zero_extension(s1, d);
    }
}

/// Subtracting a trimmed sequence or the untrimmed one gives the same
/// trimmed result.
pub proof fn lemma_sub_trimmed(a: Seq<nat>, b: Seq<nat>)
    ensures
        trimmed(add_coeffs(a, trimmed(neg_coeffs(b)))) == trimmed(sub_coeffs(a, b)),
{
    let n = neg_coeffs(b);
    let tn = trimmed(n);
    lemma_trimmed_prefix(n);
    let s1 = add_coeffs(a, tn);
    let s2 = add_coeffs(a, n);
    assert forall|i: int| 0 <= i < s1.len() implies #[trigger] s2[i] == s1[i] by {
        if i < tn.len() {
            assert(tn[i] == n[i]);
        }
    }
    assert forall|i: int| s1.len() <= i < s2.len() implies #[trigger] s2[i] == 0 by {
        assert(n[i] == 0);
        vstd::arithmetic::div_mod::lemma_small_mod(0, fr_modulus());
    }
    lemma_trimmed_zero_extension(s1, s2);
}

/// Evaluation turns differences of coefficient sequences into differences
/// of values.
pub proof fn lemma_poly_eval_sub(a: Seq<nat>, b: Seq<nat>, x: nat)
    ensures
        poly_eval(sub_coeffs(a, b), x)
            == (poly_eval(a, x) + (fr_modulus() - poly_eval(b, x)) % (fr_modulus() as int)) % (fr_modulus() as int),
{
    lemma_poly_eval_add(a, neg_coeffs(b), x);
    lemma_poly_eval_neg(b, x);
}

/// Rows before the last one contribute nothing to the top coefficient.
proof fn lemma_top_row_sum(a: Seq<nat>, b: Seq<nat>, i: nat)
    requires
        a.len() > 0,
        b.len() > 0,
        i < a.len(),
    ensures
        row_sum(a, b, i, a.len() + b.len() - 2) == 0,
    decreases i,
{
    if i > 0 {
        lemma_top_row_sum(a, b, (i - 1) as nat);
        vstd::arithmetic::div_mod::lemma_small_mod(0, fr_modulus());
    }
}

/// The product's last coefficient is the product of the last coefficients,
/// so where that is non-zero modulo `r` the product has degree
/// `deg a + deg b` and is already trimmed.
pub proof fn lemma_mul_degree(a: Seq<nat>, b: Seq<nat>)
    requires
        a.len() > 0,
        b.len() > 0,
        (a.last() * b.last()) % fr_modulus() != 0,
    ensures
        mul_coeffs(a, b).len() == a.len() + b.len() - 1,
        mul_coeffs(a, b).last() == (a.last() * b.last()) % fr_modulus(),
        trimmed(mul_coeffs(a, b)) == mul_coeffs(a, b),
{
    let k = a.len() + b.len() - 2;
    let la = a.len();
    lemma_top_row_sum(a, b, (la - 1) as nat);
    assert(mul_term(a, b, la - 1, k) == (a.last() * b.last()) % fr_modulus());
    vstd::arithmetic::div_mod::lemma_mod_twice((a.last() * b.last()) as int, fr_modulus() as int);
    assert(row_sum(a, b, la, k) == (a.last() * b.last()) % fr_modulus());
}

/// The product of two trimmed coefficient sequences is zero (empty once
/// trimmed) exactly when one of them is, and otherwise has degree
/// `deg a + deg b`: the leading coefficients multiply to a non-zero residue,
/// since `r` is prime.
pub proof fn lemma_mul_zero_and_degree(a: Seq<nat>, b: Seq<nat>)
    requires
        trimmed(a) == a,
        trimmed(b) == b,
        forall|i: int| 0 <= i < a.len() ==> #[trigger] a[i] < fr_modulus(),
        forall|i: int| 0 <= i < b.len() ==> #[trigger] b[i] < fr_modulus(),
    ensures
        trimmed(mul_coeffs(a, b)).len() == 0 <==> (a.len() == 0 || b.len() == 0),
        (a.len() > 0 && b.len() > 0) ==> trimmed(mul_coeffs(a, b)).len() == a.len() + b.len() - 1,
{
    if a.len() == 0 || b.len() == 0 {
        assert(mul_coeffs(a, b).len() == 0);
    } else {
        lemma_trimmed_prefix(a);
        lemma_trimmed_prefix(b);
        assert(a.last() == a[a.len() - 1]);
        assert(b.last() == b[b.len() - 1]);
        lemma_fr_modulus_prime();
        lemma_no_zero_divisors(a.last() as int, b.last() as int, fr_modulus() as int);
        lemma_mul_degree(a, b);
    }
}

} // verus!
