//! The chord-and-tangent sum of two points of a curve lies on the curve.
//!
//! The line through the summands (the tangent, for a double) meets the cubic
//! `x^3 + a x + b` in a third point whose x-coordinate is `x3`; the cubic
//! minus the square of the line is then `(x - x1)(x - x2)(x - x3)` up to a
//! linear rest, which vanishes because it vanishes at `x1` and `x2` (or
//! doubly at `x1`).

use vstd::prelude::*;
use vstd::arithmetic::power::pow;
use vstd::arithmetic::div_mod::{
    lemma_add_mod_noop, lemma_sub_mod_noop, lemma_mul_mod_noop_right, lemma_fundamental_div_mod,
    lemma_mod_multiples_vanish, lemma_small_mod,
};
use crate::ecc::field::{FieldElement, small_modulus, lemma_fe_closed, lemma_inv_wf, lemma_pow_wf};
use crate::ecc::point::{Point, chord, tangent, curve_equation};
use crate::ecc::scalar::{double_and_add, double_and_add_defined, scalar_mul, scalar_mul_defined};

verus! {

/// `a` and `b` are congruent modulo `p`.
pub open spec fn cong(a: int, b: int, p: int) -> bool {
    (a - b) % p == 0
}

pub(crate) proof fn lemma_cong_of_mod(a: int, b: int, p: int)
    requires
        p > 0,
    ensures
        (a % p == b % p) <==> cong(a, b, p),
{
    lemma_sub_mod_noop(a, b, p);
    lemma_small_mod(0, p as nat);
    lemma_fundamental_div_mod(a - b, p);
    if cong(a, b, p) {
        let k = (a - b) / p;
        lemma_mod_multiples_vanish(k, b, p);
        assert(a == p * k + b);
    }
}

/// A number is congruent to its reduction.
pub(crate) proof fn lemma_cong_reduced(a: int, b: int, p: int)
    requires
        p > 0,
        a == b % p,
    ensures
        cong(a, b, p),
{
    vstd::arithmetic::div_mod::lemma_mod_twice(b, p);
    lemma_cong_of_mod(a, b, p);
}

pub(crate) proof fn lemma_cong_add(a: int, b: int, c: int, d: int, p: int)
    requires
        p > 0,
        cong(a, b, p),
        cong(c, d, p),
    ensures
        cong(a + c, b + d, p),
{
    lemma_add_mod_noop(a - b, c - d, p);
    lemma_small_mod(0, p as nat);
    assert((a + c) - (b + d) == (a - b) + (c - d));
}

pub(crate) proof fn lemma_cong_neg(a: int, b: int, p: int)
    requires
        p > 0,
        cong(a, b, p),
    ensures
        cong(-a, -b, p),
{
    lemma_sub_mod_noop(0, a - b, p);
    lemma_small_mod(0, p as nat);
    assert(-a - -b == 0 - (a - b));
}

pub(crate) proof fn lemma_cong_mul(a: int, b: int, c: int, d: int, p: int)
    requires
        p > 0,
        cong(a, b, p),
        cong(c, d, p),
    ensures
        cong(a * c, b * d, p),
{
    lemma_mul_mod_noop_right(a, c - d, p);
    lemma_mul_mod_noop_right(d, a - b, p);
    lemma_small_mod(0, p as nat);
    assert(a * 0 == 0 && d * 0 == 0);
    lemma_add_mod_noop(a * (c - d), d * (a - b), p);
    assert(a * c - b * d == a * (c - d) + d * (a - b)) by (nonlinear_arith);
}

pub(crate) proof fn lemma_cong_trans(a: int, b: int, c: int, p: int)
    requires
        p > 0,
        cong(a, b, p),
        cong(b, c, p),
    ensures
        cong(a, c, p),
{
    lemma_cong_add(a, b, b, c, p);
    assert((a + b) - (b + c) == a - c);
}

pub(crate) proof fn lemma_cong_sym(a: int, b: int, p: int)
    requires
        p > 0,
        cong(a, b, p),
    ensures
        cong(b, a, p),
{
    lemma_cong_neg(a, b, p);
    assert(-a - -b == b - a);
}

pub(crate) proof fn lemma_cong_refl(a: int, p: int)
    requires
        p > 0,
    ensures
        cong(a, a, p),
{
    lemma_small_mod(0, p as nat);
}

/// A multiple of an invertible residue that vanishes has a vanishing factor.
pub(crate) proof fn lemma_cong_cancel(a: int, d: int, w: int, p: int)
    requires
        p > 0,
        cong(a * d, 0, p),
        cong(d * w, 1, p),
    ensures
        cong(a, 0, p),
{
    lemma_cong_refl(a, p);
    lemma_cong_mul(a, a, d * w, 1, p);
    lemma_cong_refl(w, p);
    lemma_cong_mul(a * d, 0, w, w, p);
    assert(a * (d * w) == (a * d) * w) by (nonlinear_arith);
    assert(a * 1 == a && 0 * w == 0);
    lemma_cong_sym(a * (d * w), a, p);
    lemma_cong_trans(a, a * (d * w), 0, p);
}

/// The cubic minus the square of the line through `(x1, y1)` of slope `s`.
pub open spec fn residual(x: int, x1: int, y1: int, a: int, b: int, s: int) -> int {
    x * x * x + a * x + b - (y1 + s * (x - x1)) * (y1 + s * (x - x1))
}

/// The quotient of `residual(x) - residual(x1)` by `x - x1`.
pub open spec fn residual_quotient(x: int, x1: int, y1: int, a: int, s: int) -> int {
    x * x + x * x1 + x1 * x1 + a - s * (2 * y1 + s * (x - x1))
}

/// `residual(x) = residual(x1) + (x - x1) g(x)`.
proof fn lemma_residual_split(x: int, x1: int, y1: int, a: int, b: int, s: int)
    ensures
        residual(x, x1, y1, a, b, s)
            == residual(x1, x1, y1, a, b, s) + (x - x1) * residual_quotient(x, x1, y1, a, s),
{
    let d = x - x1;
    let line = y1 + s * d;
    let pp = x * x + x * x1 + x1 * x1;
    let q = s * (2 * y1 + s * d);
    assert(x * x * x - x1 * x1 * x1 == d * pp) by (nonlinear_arith)
        requires
            d == x - x1,
            pp == x * x + x * x1 + x1 * x1,
    ;
    assert(line * line - y1 * y1 == d * q) by (nonlinear_arith)
        requires
            line == y1 + s * d,
            q == s * (2 * y1 + s * d),
    ;
    assert(a * x - a * x1 == d * a) by (nonlinear_arith)
        requires
            d == x - x1,
    ;
    assert(d * pp + d * a - d * q == d * (pp + a - q)) by (nonlinear_arith);
    assert(s * (x1 - x1) == 0) by (nonlinear_arith);
    assert(residual(x1, x1, y1, a, b, s) == x1 * x1 * x1 + a * x1 + b - y1 * y1);
}

/// With `x3 = s^2 - x1 - v`, the quotient takes the same value at `x3` as at
/// `v`.
proof fn lemma_quotient_third(x1: int, y1: int, a: int, s: int, v: int)
    ensures
        residual_quotient(s * s - x1 - v, x1, y1, a, s) == residual_quotient(v, x1, y1, a, s),
{
    let ss = s * s;
    let x3 = ss - x1 - v;
    let e = x3 - v;
    assert(x3 * x3 - v * v == e * (x3 + v)) by (nonlinear_arith)
        requires
            e == x3 - v,
    ;
    assert(x3 * x1 - v * x1 == e * x1) by (nonlinear_arith)
        requires
            e == x3 - v,
    ;
    assert(s * (2 * y1 + s * (x3 - x1)) - s * (2 * y1 + s * (v - x1)) == e * ss) by (nonlinear_arith)
        requires
            e == x3 - v,
            ss == s * s,
    ;
    assert(e * (x3 + v) + e * x1 - e * ss == e * (x3 + v + x1 - ss)) by (nonlinear_arith);
    assert(x3 + v + x1 - ss == 0);
    assert(e * 0 == 0);
}

/// The residual at the third point vanishes once the quotient does there.
proof fn lemma_residual_third_vanishes(x1: int, y1: int, a: int, b: int, s: int, v: int, p: int)
    requires
        p > 0,
        cong(residual(x1, x1, y1, a, b, s), 0, p),
        cong(residual_quotient(v, x1, y1, a, s), 0, p),
    ensures
        cong(residual(s * s - x1 - v, x1, y1, a, b, s), 0, p),
{
    let x3 = s * s - x1 - v;
    lemma_residual_split(x3, x1, y1, a, b, s);
    lemma_quotient_third(x1, y1, a, s, v);
    lemma_cong_refl(x3 - x1, p);
    lemma_cong_mul(x3 - x1, x3 - x1, residual_quotient(x3, x1, y1, a, s), 0, p);
    assert((x3 - x1) * 0 == 0);
    lemma_cong_add(residual(x1, x1, y1, a, b, s), 0, (x3 - x1) * residual_quotient(x3, x1, y1, a, s), 0, p);
}

/// The third point of the chord through two points of the curve lies on it.
proof fn lemma_chord_on_curve(x1: FieldElement, y1: FieldElement, x2: FieldElement, y2: FieldElement,
    a: FieldElement, b: FieldElement)
    requires
        x1.wf(), y1.wf(), x2.wf(), y2.wf(), a.wf(), b.wf(),
        x1.prime == y1.prime, x1.prime == x2.prime, x1.prime == y2.prime,
        x1.prime == a.prime, a.prime == b.prime,
        small_modulus(x1.prime),
        x2.fe_sub(x1).inv_req(),
        curve_equation(x1.num as int, y1.num as int, a.num as int, b.num as int, a.prime as int),
        curve_equation(x2.num as int, y2.num as int, a.num as int, b.num as int, a.prime as int),
    ensures
        curve_equation(chord(x1, y1, x2, y2).0.num as int, chord(x1, y1, x2, y2).1.num as int,
            a.num as int, b.num as int, a.prime as int),
{
    let p = a.prime as int;
    let (xi, yi, xj, yj, ai, bi) = (x1.num as int, y1.num as int, x2.num as int, y2.num as int, a.num as int, b.num as int);
    lemma_fe_closed(y2, y1);
    lemma_fe_closed(x2, x1);
    let d = x2.fe_sub(x1);
    lemma_inv_wf(d);
    let w = d.fe_inv().num as int;
    let s = y2.fe_sub(y1).fe_mul(d.fe_inv());
    lemma_fe_closed(y2.fe_sub(y1), d.fe_inv());
    let si = s.num as int;
    // The slope: s (x2 - x1) = y2 - y1 and (x2 - x1) w = 1.
    lemma_cong_reduced(d.num as int, xj - xi, p);
    lemma_cong_reduced(y2.fe_sub(y1).num as int, yj - yi, p);
    lemma_cong_of_mod(d.num * w, 1, p);
    lemma_cong_refl(w, p);
    lemma_cong_sym(d.num as int, xj - xi, p);
    lemma_cong_mul(xj - xi, d.num as int, w, w, p);
    lemma_cong_trans((xj - xi) * w, d.num * w, 1, p);
    lemma_cong_reduced(si, y2.fe_sub(y1).num * w, p);
    lemma_cong_mul(si, y2.fe_sub(y1).num * w, xj - xi, xj - xi, p);
    lemma_cong_refl(xj - xi, p);
    // s (x2 - x1) = n w (x2 - x1) = n = y2 - y1.
    lemma_cong_refl(y2.fe_sub(y1).num as int, p);
    lemma_cong_mul(y2.fe_sub(y1).num as int, y2.fe_sub(y1).num as int, (xj - xi) * w, 1, p);
    assert(y2.fe_sub(y1).num * w * (xj - xi) == y2.fe_sub(y1).num * ((xj - xi) * w)) by (nonlinear_arith);
    assert(y2.fe_sub(y1).num * 1 == y2.fe_sub(y1).num);
    lemma_cong_trans(si * (xj - xi), y2.fe_sub(y1).num * ((xj - xi) * w), y2.fe_sub(y1).num as int, p);
    lemma_cong_trans(si * (xj - xi), y2.fe_sub(y1).num as int, yj - yi, p);
    // The residual vanishes at x1 (the curve equation at x1) and at x2.
    assert(residual(xi, xi, yi, ai, bi, si) == xi * xi * xi + ai * xi + bi - yi * yi) by (nonlinear_arith);
    lemma_cong_of_mod(yi * yi, xi * xi * xi + ai * xi + bi, p);
    lemma_cong_neg(yi * yi, xi * xi * xi + ai * xi + bi, p);
    lemma_cong_refl(xi * xi * xi + ai * xi + bi, p);
    lemma_cong_add(xi * xi * xi + ai * xi + bi, xi * xi * xi + ai * xi + bi, -(yi * yi), -(xi * xi * xi + ai * xi + bi), p);
    let line2 = yi + si * (xj - xi);
    lemma_cong_refl(yi, p);
    lemma_cong_add(yi, yi, si * (xj - xi), yj - yi, p);
    lemma_cong_mul(line2, yj, line2, yj, p);
    lemma_cong_of_mod(yj * yj, xj * xj * xj + ai * xj + bi, p);
    lemma_cong_trans(line2 * line2, yj * yj, xj * xj * xj + ai * xj + bi, p);
    lemma_cong_neg(line2 * line2, xj * xj * xj + ai * xj + bi, p);
    lemma_cong_refl(xj * xj * xj + ai * xj + bi, p);
    lemma_cong_add(xj * xj * xj + ai * xj + bi, xj * xj * xj + ai * xj + bi, -(line2 * line2), -(xj * xj * xj + ai * xj + bi), p);
    assert(residual(xj, xi, yi, ai, bi, si) == xj * xj * xj + ai * xj + bi + -(line2 * line2));
    // residual(x2) = residual(x1) + (x2 - x1) g(x2): so (x2 - x1) g(x2) and g(x2) vanish.
    lemma_residual_split(xj, xi, yi, ai, bi, si);
    let g2 = residual_quotient(xj, xi, yi, ai, si);
    lemma_cong_neg(residual(xi, xi, yi, ai, bi, si), 0, p);
    lemma_cong_add(residual(xj, xi, yi, ai, bi, si), 0, -residual(xi, xi, yi, ai, bi, si), 0, p);
    assert(residual(xj, xi, yi, ai, bi, si) + -residual(xi, xi, yi, ai, bi, si) == (xj - xi) * g2);
    assert((xj - xi) * g2 == g2 * (xj - xi)) by (nonlinear_arith);
    lemma_cong_cancel(g2, xj - xi, w, p);
    lemma_residual_third_vanishes(xi, yi, ai, bi, si, xj, p);
    // The computed x-coordinate is congruent to x3.
    let big_x3 = si * si - xi - xj;
    lemma_pow_wf(s, 2);
    let s2 = s.fe_pow(2);
    assert(pow(si, 2) == si * si) by {
        reveal_with_fuel(pow, 3);
    }
    lemma_cong_reduced(s2.num as int, si * si, p);
    lemma_fe_closed(s2, x1);
    lemma_fe_closed(s2.fe_sub(x1), x2);
    let x3 = s2.fe_sub(x1).fe_sub(x2);
    lemma_cong_reduced(s2.fe_sub(x1).num as int, s2.num - xi, p);
    lemma_cong_reduced(x3.num as int, s2.fe_sub(x1).num - xj, p);
    lemma_cong_refl(xi, p);
    lemma_cong_refl(xj, p);
    lemma_cong_neg(xi, xi, p);
    lemma_cong_neg(xj, xj, p);
    lemma_cong_add(s2.num as int, si * si, -xi, -xi, p);
    lemma_cong_trans(s2.fe_sub(x1).num as int, s2.num - xi, si * si - xi, p);
    lemma_cong_add(s2.fe_sub(x1).num as int, si * si - xi, -xj, -xj, p);
    lemma_cong_trans(x3.num as int, s2.fe_sub(x1).num - xj, big_x3, p);
    lemma_on_curve_from_residual(s, x1, y1, x2, a, b, big_x3, chord(x1, y1, x2, y2).0, chord(x1, y1, x2, y2).1);
}

/// With `x3` congruent to `s^2 - u - v` and `y3` to `s (x1 - x3) - y1`, a
/// vanishing residual at `s^2 - u - v` puts `(x3, y3)` on the curve.
proof fn lemma_on_curve_from_residual(s: FieldElement, x1: FieldElement, y1: FieldElement, x2: FieldElement,
    a: FieldElement, b: FieldElement, big_x3: int, x3: FieldElement, y3: FieldElement)
    requires
        s.wf(), x1.wf(), y1.wf(), x2.wf(), a.wf(), b.wf(),
        s.prime == x1.prime, x1.prime == y1.prime, x1.prime == x2.prime, x1.prime == a.prime, a.prime == b.prime,
        small_modulus(x1.prime),
        cong(residual(big_x3, x1.num as int, y1.num as int, a.num as int, b.num as int, s.num as int), 0, a.prime as int),
        cong(x3.num as int, big_x3, a.prime as int),
        y3 == s.fe_mul(x1.fe_sub(x3)).fe_sub(y1),
        x3.wf(),
        x3.prime == x1.prime,
    ensures
        curve_equation(x3.num as int, y3.num as int, a.num as int, b.num as int, a.prime as int),
{
    let p = a.prime as int;
    let (si, xi, yi, ai, bi) = (s.num as int, x1.num as int, y1.num as int, a.num as int, b.num as int);
    let (x3n, y3n) = (x3.num as int, y3.num as int);
    lemma_fe_closed(x1, x3);
    lemma_fe_closed(s, x1.fe_sub(x3));
    lemma_fe_closed(s.fe_mul(x1.fe_sub(x3)), y1);
    // y3 = s (x1 - x3) - y1 = -(y1 + s (X3 - x1)).
    let t = x1.fe_sub(x3);
    let m = s.fe_mul(t);
    lemma_cong_reduced(t.num as int, xi - x3n, p);
    lemma_cong_reduced(m.num as int, si * t.num, p);
    lemma_cong_reduced(y3n, m.num - yi, p);
    lemma_cong_refl(si, p);
    lemma_cong_refl(xi, p);
    lemma_cong_neg(x3n, big_x3, p);
    lemma_cong_add(xi, xi, -x3n, -big_x3, p);
    lemma_cong_trans(t.num as int, xi - x3n, xi - big_x3, p);
    lemma_cong_mul(si, si, t.num as int, xi - big_x3, p);
    lemma_cong_trans(m.num as int, si * t.num, si * (xi - big_x3), p);
    lemma_cong_refl(yi, p);
    lemma_cong_neg(yi, yi, p);
    lemma_cong_add(m.num as int, si * (xi - big_x3), -yi, -yi, p);
    lemma_cong_trans(y3n, m.num - yi, si * (xi - big_x3) - yi, p);
    let line = yi + si * (big_x3 - xi);
    assert(si * (xi - big_x3) - yi == -line) by (nonlinear_arith)
        requires
            line == yi + si * (big_x3 - xi),
    ;
    // Squares: y3^2 = line^2 = X3^3 + a X3 + b = x3^3 + a x3 + b.
    lemma_cong_mul(y3n, -line, y3n, -line, p);
    assert((-line) * (-line) == line * line) by (nonlinear_arith);
    let cubic_big = big_x3 * big_x3 * big_x3 + ai * big_x3 + bi;
    assert(residual(big_x3, xi, yi, ai, bi, si) == cubic_big - line * line);
    lemma_cong_refl(line * line, p);
    lemma_cong_add(cubic_big - line * line, 0, line * line, line * line, p);
    assert(cubic_big - line * line + line * line == cubic_big);
    assert(0 + line * line == line * line);
    lemma_cong_sym(cubic_big, line * line, p);
    lemma_cong_trans(y3n * y3n, line * line, cubic_big, p);
    lemma_cong_mul(x3n, big_x3, x3n, big_x3, p);
    lemma_cong_mul(x3n * x3n, big_x3 * big_x3, x3n, big_x3, p);
    lemma_cong_refl(ai, p);
    lemma_cong_mul(ai, ai, x3n, big_x3, p);
    lemma_cong_add(x3n * x3n * x3n, big_x3 * big_x3 * big_x3, ai * x3n, ai * big_x3, p);
    lemma_cong_refl(bi, p);
    lemma_cong_add(x3n * x3n * x3n + ai * x3n, big_x3 * big_x3 * big_x3 + ai * big_x3, bi, bi, p);
    lemma_cong_sym(x3n * x3n * x3n + ai * x3n + bi, cubic_big, p);
    lemma_cong_trans(y3n * y3n, cubic_big, x3n * x3n * x3n + ai * x3n + bi, p);
    lemma_cong_of_mod(y3n * y3n, x3n * x3n * x3n + ai * x3n + bi, p);
}

/// On the curve, the residual vanishes at the point itself.
proof fn lemma_residual_at_point(x1: int, y1: int, a: int, b: int, s: int, p: int)
    requires
        p > 0,
        curve_equation(x1, y1, a, b, p),
    ensures
        cong(residual(x1, x1, y1, a, b, s), 0, p),
{
    assert(s * (x1 - x1) == 0) by (nonlinear_arith);
    assert(residual(x1, x1, y1, a, b, s) == x1 * x1 * x1 + a * x1 + b - y1 * y1);
    lemma_cong_of_mod(y1 * y1, x1 * x1 * x1 + a * x1 + b, p);
    lemma_cong_sym(y1 * y1, x1 * x1 * x1 + a * x1 + b, p);
}

/// The third point of the tangent at a point of the curve lies on it.
proof fn lemma_tangent_on_curve(x1: FieldElement, y1: FieldElement, a: FieldElement, b: FieldElement)
    requires
        x1.wf(), y1.wf(), a.wf(), b.wf(),
        x1.prime == y1.prime, x1.prime == a.prime, a.prime == b.prime,
        small_modulus(x1.prime),
        3 < x1.prime,
        (FieldElement { num: 2, prime: x1.prime }).fe_mul(y1).inv_req(),
        curve_equation(x1.num as int, y1.num as int, a.num as int, b.num as int, a.prime as int),
    ensures
        curve_equation(tangent(x1, y1, a).0.num as int, tangent(x1, y1, a).1.num as int,
            a.num as int, b.num as int, a.prime as int),
{
    let p = a.prime as int;
    let (xi, yi, ai, bi) = (x1.num as int, y1.num as int, a.num as int, b.num as int);
    let three = FieldElement { num: 3, prime: x1.prime };
    let two = FieldElement { num: 2, prime: x1.prime };
    lemma_pow_wf(x1, 2);
    let xx = x1.fe_pow(2);
    assert(pow(xi, 2) == xi * xi) by {
        reveal_with_fuel(pow, 3);
    }
    lemma_fe_closed(three, xx);
    lemma_fe_closed(three.fe_mul(xx), a);
    lemma_fe_closed(two, y1);
    let num = three.fe_mul(xx).fe_add(a);
    let den = two.fe_mul(y1);
    lemma_inv_wf(den);
    let w = den.fe_inv().num as int;
    lemma_fe_closed(num, den.fe_inv());
    let s = num.fe_mul(den.fe_inv());
    let si = s.num as int;
    // num = 3 x1^2 + a and den = 2 y1, modulo p.
    lemma_cong_reduced(xx.num as int, xi * xi, p);
    lemma_cong_reduced(three.fe_mul(xx).num as int, 3 * xx.num, p);
    lemma_cong_refl(3, p);
    lemma_cong_mul(3, 3, xx.num as int, xi * xi, p);
    lemma_cong_trans(three.fe_mul(xx).num as int, 3 * xx.num, 3 * (xi * xi), p);
    lemma_cong_reduced(num.num as int, three.fe_mul(xx).num + ai, p);
    lemma_cong_refl(ai, p);
    lemma_cong_add(three.fe_mul(xx).num as int, 3 * (xi * xi), ai, ai, p);
    lemma_cong_trans(num.num as int, three.fe_mul(xx).num + ai, 3 * (xi * xi) + ai, p);
    lemma_cong_reduced(den.num as int, 2 * yi, p);
    // s (2 y1) = num w den = num.
    lemma_cong_reduced(si, num.num * w, p);
    lemma_cong_of_mod(den.num * w, 1, p);
    lemma_cong_refl(si, p);
    lemma_cong_sym(den.num as int, 2 * yi, p);
    lemma_cong_mul(si, si, 2 * yi, den.num as int, p);
    lemma_cong_refl(den.num as int, p);
    lemma_cong_mul(si, num.num * w, den.num as int, den.num as int, p);
    lemma_cong_trans(si * (2 * yi), si * den.num, num.num * w * den.num, p);
    lemma_cong_refl(num.num as int, p);
    lemma_cong_mul(num.num as int, num.num as int, den.num * w, 1, p);
    assert(num.num * w * den.num == num.num * (den.num * w)) by (nonlinear_arith);
    assert(num.num * 1 == num.num);
    lemma_cong_trans(si * (2 * yi), num.num * (den.num * w), num.num as int, p);
    lemma_cong_trans(si * (2 * yi), num.num as int, 3 * (xi * xi) + ai, p);
    // So the quotient vanishes at x1: g(x1) = 3 x1^2 + a - 2 s y1.
    assert(residual_quotient(xi, xi, yi, ai, si) == 3 * (xi * xi) + ai - si * (2 * yi)) by (nonlinear_arith);
    lemma_cong_sym(si * (2 * yi), 3 * (xi * xi) + ai, p);
    lemma_cong_neg(si * (2 * yi), 3 * (xi * xi) + ai, p);
    lemma_cong_refl(3 * (xi * xi) + ai, p);
    lemma_cong_add(3 * (xi * xi) + ai, 3 * (xi * xi) + ai, -(si * (2 * yi)), -(3 * (xi * xi) + ai), p);
    lemma_residual_at_point(xi, yi, ai, bi, si, p);
    lemma_residual_third_vanishes(xi, yi, ai, bi, si, xi, p);
    // The computed x-coordinate is congruent to s^2 - 2 x1.
    let big_x3 = si * si - xi - xi;
    lemma_pow_wf(s, 2);
    let s2 = s.fe_pow(2);
    assert(pow(si, 2) == si * si) by {
        reveal_with_fuel(pow, 3);
    }
    lemma_cong_reduced(s2.num as int, si * si, p);
    lemma_fe_closed(two, x1);
    lemma_fe_closed(s2, two.fe_mul(x1));
    let x3 = s2.fe_sub(two.fe_mul(x1));
    lemma_cong_reduced(two.fe_mul(x1).num as int, 2 * xi, p);
    lemma_cong_reduced(x3.num as int, s2.num - two.fe_mul(x1).num, p);
    lemma_cong_neg(two.fe_mul(x1).num as int, 2 * xi, p);
    lemma_cong_add(s2.num as int, si * si, -(two.fe_mul(x1).num as int), -(2 * xi), p);
    lemma_cong_trans(x3.num as int, s2.num - two.fe_mul(x1).num, big_x3, p);
    lemma_on_curve_from_residual(s, x1, y1, x1, a, b, big_x3, tangent(x1, y1, a).0, tangent(x1, y1, a).1);
}

/// The chord-and-tangent sum of two points of a curve lies on the curve.
pub proof fn lemma_add_on_curve(p: Point, q: Point)
    requires
        p.add_defined(q),
        p.on_curve(),
        q.on_curve(),
    ensures
        p.add_points(q).on_curve(),
{
    if p.x is Some && q.x is Some {
        let (x1, y1, x2, y2) = (p.x->0, p.y->0, q.x->0, q.y->0);
        if x1 != x2 {
            lemma_chord_on_curve(x1, y1, x2, y2, p.a, p.b);
        } else if y1 == y2 && y1.num != 0 {
            lemma_tangent_on_curve(x1, y1, p.a, p.b);
        }
    }
}

/// Double-and-add on points of the curve stays on the curve.
proof fn lemma_double_and_add_on_curve(k: nat, cur: Point, acc: Point)
    requires
        double_and_add_defined(k, cur, acc),
        cur.on_curve(),
        acc.on_curve(),
    ensures
        double_and_add(k, cur, acc).on_curve(),
    decreases k,
{
    if k > 0 {
        lemma_add_on_curve(cur, cur);
        if k % 2 == 1 {
            lemma_add_on_curve(acc, cur);
        }
        lemma_double_and_add_on_curve(
            k / 2,
            cur.add_points(cur),
            if k % 2 == 1 { acc.add_points(cur) } else { acc },
        );
    }
}

/// A multiple of a point of the curve lies on the curve.
pub proof fn lemma_scalar_mul_on_curve(k: nat, p: Point)
    requires
        scalar_mul_defined(k, p),
        p.on_curve(),
    ensures
        scalar_mul(k, p).on_curve(),
{
    lemma_double_and_add_on_curve(k, p, Point::infinity_spec(p.a, p.b));
}

} // verus!
