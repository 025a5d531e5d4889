//! Laws of the chord-and-tangent addition: the point at infinity is its
//! identity, a point and its mirror image add up to it, and the order of
//! the summands does not matter.

use vstd::prelude::*;
use vstd::arithmetic::div_mod::{
    lemma_mul_mod_noop_left, lemma_mul_mod_noop_right, lemma_sub_mod_noop,
    lemma_mod_twice, lemma_small_mod, lemma_mod_bound, lemma_mod_multiples_vanish,
};
use crate::ecc::field::{FieldElement, lemma_fe_closed, lemma_inv_wf, lemma_pow_wf};
use crate::ecc::modular::lemma_inverse_unique;
use crate::ecc::point::{Point, chord};

verus! {

/// The mirror image `(x, -y)` of a point; the point at infinity is its own.
pub open spec fn point_neg(p: Point) -> Point {
    match p.y {
        None => p,
        Some(y) => Point {
            y: Some(FieldElement { num: ((y.prime - y.num) % (y.prime as int)) as u128, prime: y.prime }),
            ..p
        },
    }
}

/// The point at infinity is a left identity.
pub proof fn lemma_add_identity_left(p: Point)
    requires
        p.wf(),
    ensures
        Point::infinity_spec(p.a, p.b).add_points(p) == p,
{
}

/// The point at infinity is a right identity.
pub proof fn lemma_add_identity_right(p: Point)
    requires
        p.wf(),
    ensures
        p.add_points(Point::infinity_spec(p.a, p.b)) == p,
{
}

/// A point plus its mirror image is the point at infinity, over a field of
/// odd characteristic.
pub proof fn lemma_add_inverse(p: Point)
    requires
        p.wf(),
        p.modulus() % 2 == 1,
    ensures
        p.add_points(point_neg(p)) == Point::infinity_spec(p.a, p.b),
{
    if p.x is Some {
        let y = p.y->0;
        let m = y.prime as int;
        let ny = point_neg(p).y->0;
        if y.num == 0 {
            vstd::arithmetic::div_mod::lemma_mod_self_0(m);
            assert(ny == y);
        } else {
            lemma_small_mod((m - y.num) as nat, m as nat);
            assert(ny.num != y.num);
        }
    }
}

/// Integers congruent modulo `m` stay congruent under products.
proof fn lemma_cong_mul(a: int, b: int, c: int, d: int, m: int)
    requires
        m > 0,
        a % m == c % m,
        b % m == d % m,
    ensures
        (a * b) % m == (c * d) % m,
{
    lemma_mul_mod_noop_left(a, b, m);
    lemma_mul_mod_noop_right(a % m, b, m);
    lemma_mul_mod_noop_left(c, d, m);
    lemma_mul_mod_noop_right(c % m, d, m);
}

/// Integers congruent modulo `m` stay congruent under differences.
proof fn lemma_cong_sub(a: int, b: int, c: int, d: int, m: int)
    requires
        m > 0,
        a % m == c % m,
        b % m == d % m,
    ensures
        (a - b) % m == (c - d) % m,
{
    lemma_sub_mod_noop(a, b, m);
    lemma_sub_mod_noop(c, d, m);
}

/// The number of `x - y` is congruent to the integer difference.
proof fn lemma_sub_num(x: FieldElement, y: FieldElement)
    requires
        x.wf(), y.wf(),
        x.prime == y.prime,
        crate::ecc::field::small_modulus(x.prime),
    ensures
        (x.fe_sub(y).num as int) % (x.prime as int) == (x.num - y.num) % (x.prime as int),
        x.fe_sub(y).wf(),
        x.fe_sub(y).prime == x.prime,
{
    lemma_fe_closed(x, y);
    lemma_small_mod(x.fe_sub(y).num as nat, x.prime as nat);
    lemma_mod_twice(x.num - y.num, x.prime as int);
}

/// Slopes are symmetric: `(y1 - y2) / (x1 - x2) = (y2 - y1) / (x2 - x1)`.
proof fn lemma_slope_symmetric(x1: FieldElement, y1: FieldElement, x2: FieldElement, y2: FieldElement)
    requires
        x1.wf(), y1.wf(), x2.wf(), y2.wf(),
        x1.prime == y1.prime, x1.prime == x2.prime, x1.prime == y2.prime,
        crate::ecc::field::small_modulus(x1.prime),
        x2.fe_sub(x1).inv_req(),
        x1.fe_sub(x2).inv_req(),
    ensures
        y2.fe_sub(y1).fe_mul(x2.fe_sub(x1).fe_inv()) == y1.fe_sub(y2).fe_mul(x1.fe_sub(x2).fe_inv()),
        (y2.fe_sub(y1).fe_mul(x2.fe_sub(x1).fe_inv()).num * (x2.num - x1.num)) % (x1.prime as int)
            == (y2.num - y1.num) % (x1.prime as int),
{
    let m = x1.prime as int;
    lemma_fe_closed(x2, x1);
    lemma_fe_closed(x1, x2);
    lemma_fe_closed(y2, y1);
    lemma_fe_closed(y1, y2);
    let d1 = x2.fe_sub(x1);
    let d2 = x1.fe_sub(x2);
    let n1 = y2.fe_sub(y1);
    let n2 = y1.fe_sub(y2);
    lemma_inv_wf(d1);
    lemma_inv_wf(d2);
    let r1 = d1.fe_inv().num as int;
    let r2 = d2.fe_inv().num as int;
    // `-r1` is an inverse of `d2 = -d1`, so it is `r2`.
    let nr1 = (m - r1) % m;
    lemma_mod_bound(m - r1, m);
    lemma_mod_multiples_vanish(1, -r1, m);
    assert(nr1 == (-r1) % m);
    lemma_mod_multiples_vanish(0, 0, m);
    lemma_sub_num(x2, x1);
    lemma_sub_num(x1, x2);
    lemma_cong_sub(0, d1.num as int, 0, x2.num - x1.num, m);
    lemma_small_mod(d1.num as nat, m as nat);
    lemma_small_mod(d2.num as nat, m as nat);
    assert((d2.num as int) % m == (-(d1.num as int)) % m);
    lemma_mod_twice(-r1, m);
    lemma_cong_mul(d2.num as int, nr1, -(d1.num as int), -r1, m);
    assert((-(d1.num as int)) * (-r1) == d1.num * r1) by (nonlinear_arith);
    lemma_inverse_unique(d2.num as int, r2, nr1, m);
    // Hence `n2 r2 = (-n1)(-r1) = n1 r1`.
    lemma_sub_num(y2, y1);
    lemma_sub_num(y1, y2);
    lemma_cong_sub(0, n1.num as int, 0, y2.num - y1.num, m);
    lemma_small_mod(n1.num as nat, m as nat);
    lemma_small_mod(n2.num as nat, m as nat);
    assert((n2.num as int) % m == (-(n1.num as int)) % m);
    lemma_cong_mul(n2.num as int, r2, -(n1.num as int), -r1, m);
    assert((-(n1.num as int)) * (-r1) == n1.num * r1) by (nonlinear_arith);
    // The slope times the run is the rise.
    let s = (n1.num * r1) % m;
    lemma_mod_twice(n1.num * r1, m);
    lemma_cong_mul(s, x2.num - x1.num, n1.num * r1, d1.num as int, m);
    assert((n1.num * r1) * d1.num == n1.num * (d1.num * r1)) by (nonlinear_arith);
    lemma_cong_mul(n1.num as int, d1.num * r1, n1.num as int, 1, m);
}

/// `(a - b) - c` and `(a - c) - b` agree as field elements.
proof fn lemma_sub_swap(a: FieldElement, b: FieldElement, c: FieldElement)
    requires
        a.wf(), b.wf(), c.wf(),
        a.prime == b.prime, a.prime == c.prime,
        crate::ecc::field::small_modulus(a.prime),
    ensures
        a.fe_sub(b).fe_sub(c) == a.fe_sub(c).fe_sub(b),
{
    let m = a.prime as int;
    lemma_fe_closed(a, b);
    lemma_fe_closed(a, c);
    lemma_fe_closed(a.fe_sub(b), c);
    lemma_fe_closed(a.fe_sub(c), b);
    lemma_small_mod(c.num as nat, m as nat);
    lemma_small_mod(b.num as nat, m as nat);
    lemma_sub_num(a, b);
    lemma_sub_num(a, c);
    lemma_sub_num(a.fe_sub(b), c);
    lemma_sub_num(a.fe_sub(c), b);
    lemma_cong_sub(a.fe_sub(b).num as int, c.num as int, a.num - b.num, c.num as int, m);
    lemma_cong_sub(a.fe_sub(c).num as int, b.num as int, a.num - c.num, b.num as int, m);
    lemma_small_mod(a.fe_sub(b).num as nat, m as nat);
    lemma_small_mod(a.fe_sub(c).num as nat, m as nat);
}

/// The chord through two points gives the same sum in either order.
proof fn lemma_chord_symmetric(x1: FieldElement, y1: FieldElement, x2: FieldElement, y2: FieldElement)
    requires
        x1.wf(), y1.wf(), x2.wf(), y2.wf(),
        x1.prime == y1.prime, x1.prime == x2.prime, x1.prime == y2.prime,
        crate::ecc::field::small_modulus(x1.prime),
        x2.fe_sub(x1).inv_req(),
        x1.fe_sub(x2).inv_req(),
    ensures
        chord(x1, y1, x2, y2) == chord(x2, y2, x1, y1),
{
    let m = x1.prime as int;
    lemma_slope_symmetric(x1, y1, x2, y2);
    lemma_fe_closed(y2, y1);
    lemma_fe_closed(x2, x1);
    lemma_inv_wf(x2.fe_sub(x1));
    let s = y2.fe_sub(y1).fe_mul(x2.fe_sub(x1).fe_inv());
    lemma_fe_closed(y2.fe_sub(y1), x2.fe_sub(x1).fe_inv());
    lemma_pow_wf(s, 2);
    let s2 = s.fe_pow(2);
    lemma_sub_swap(s2, x1, x2);
    let x3 = s2.fe_sub(x1).fe_sub(x2);
    lemma_fe_closed(s2, x1);
    lemma_fe_closed(s2.fe_sub(x1), x2);
    // y3: s (x1 - x3) - y1 = s (x2 - x3) - y2, since s (x2 - x1) = y2 - y1.
    lemma_fe_closed(x1, x3);
    lemma_fe_closed(x2, x3);
    lemma_fe_closed(s, x1.fe_sub(x3));
    lemma_fe_closed(s, x2.fe_sub(x3));
    let l = s.fe_mul(x1.fe_sub(x3));
    let r = s.fe_mul(x2.fe_sub(x3));
    lemma_fe_closed(l, y1);
    lemma_fe_closed(r, y2);
    let sv = s.num as int;
    lemma_small_mod(s.num as nat, m as nat);
    lemma_sub_num(x1, x3);
    lemma_sub_num(x2, x3);
    lemma_cong_mul(sv, x1.fe_sub(x3).num as int, sv, x1.num - x3.num, m);
    lemma_cong_mul(sv, x2.fe_sub(x3).num as int, sv, x2.num - x3.num, m);
    lemma_small_mod(y1.num as nat, m as nat);
    lemma_small_mod(y2.num as nat, m as nat);
    lemma_small_mod(l.num as nat, m as nat);
    lemma_small_mod(r.num as nat, m as nat);
    lemma_cong_sub(l.num as int, y1.num as int, sv * (x1.num - x3.num), y1.num as int, m);
    lemma_cong_sub(r.num as int, y2.num as int, sv * (x2.num - x3.num), y2.num as int, m);
    lemma_mod_twice(sv * (x1.num - x3.num), m);
    lemma_mod_twice(sv * (x2.num - x3.num), m);
    // The two integers differ by `(y2 - y1) - s (x2 - x1)`, a multiple of `m`.
    let lhs = sv * (x1.num - x3.num) - y1.num;
    let rhs = sv * (x2.num - x3.num) - y2.num;
    assert(lhs - rhs == (y2.num - y1.num) - sv * (x2.num - x1.num)) by (nonlinear_arith)
        requires
            lhs == sv * (x1.num - x3.num) - y1.num,
            rhs == sv * (x2.num - x3.num) - y2.num,
    ;
    lemma_cong_sub(y2.num - y1.num, sv * (x2.num - x1.num), y2.num - y1.num, y2.num - y1.num, m);
    assert((y2.num - y1.num - (y2.num - y1.num)) == 0);
    lemma_small_mod(0, m as nat);
    vstd::arithmetic::div_mod::lemma_fundamental_div_mod(lhs - rhs, m);
    lemma_mod_multiples_vanish((lhs - rhs) / m, rhs, m);
    lemma_small_mod(l.fe_sub(y1).num as nat, m as nat);
    lemma_small_mod(r.fe_sub(y2).num as nat, m as nat);
}

/// Addition is commutative wherever both orders are defined.
pub proof fn lemma_add_commutative(p: Point, q: Point)
    requires
        p.add_defined(q),
        q.add_defined(p),
    ensures
        p.add_points(q) == q.add_points(p),
{
    if p.x is Some && q.x is Some {
        let (x1, y1, x2, y2) = (p.x->0, p.y->0, q.x->0, q.y->0);
        if x1 != x2 {
            lemma_chord_symmetric(x1, y1, x2, y2);
        }
    }
}

} // verus!
