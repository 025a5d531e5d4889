//! Multiples of a point as repeated addition, and the rules they follow on a
//! curve whose point addition is associative.

use vstd::prelude::*;
use crate::ecc::point::{Point, lemma_add_wf, lemma_add_defined_prime};
use crate::ecc::scalar::{double_and_add, scalar_mul};
use crate::ecc::closure::lemma_add_on_curve;
use crate::ecc::group_laws::{lemma_add_identity_left, lemma_add_identity_right, lemma_add_commutative};
use crate::ecc::modular::is_prime;

verus! {

/// A well-formed point on a curve over a prime field with more than three
/// elements: there every sum of two of its points is defined.
pub open spec fn prime_curve_point(g: Point) -> bool {
    &&& g.wf()
    &&& g.on_curve()
    &&& is_prime(g.modulus() as nat)
    &&& g.modulus() > 3
}

/// `q` is a well-formed point of the same curve as `g`.
pub open spec fn same_curve(q: Point, g: Point) -> bool {
    &&& q.wf()
    &&& q.on_curve()
    &&& q.a == g.a
    &&& q.b == g.b
}

/// Point addition is associative on the curve with coefficients `a` and `b`.
pub open spec fn addition_associative(a: crate::ecc::field::FieldElement, b: crate::ecc::field::FieldElement) -> bool {
    forall|p: Point, q: Point, r: Point|
        p.wf() && q.wf() && r.wf() && p.on_curve() && q.on_curve() && r.on_curve()
            && p.a == a && p.b == b && q.a == a && q.b == b && r.a == a && r.b == b
            ==> #[trigger] p.add_points(q).add_points(r) == p.add_points(q.add_points(r))
}

/// `p + q`, with its definition hidden from the proofs below, which need only
/// the group laws of the helper lemmas.
#[verifier::opaque]
pub open spec fn plus(p: Point, q: Point) -> Point {
    p.add_points(q)
}

/// `k P`: the point `P` added to the point at infinity `k` times.
pub open spec fn repeated_add(k: nat, p: Point) -> Point
    decreases k,
{
    if k == 0 {
        Point::infinity_spec(p.a, p.b)
    } else {
        plus(repeated_add((k - 1) as nat, p), p)
    }
}

/// The sum of two points of the curve of `g` is a point of that curve, and
/// it does not depend on their order.
proof fn lemma_plus_same_curve(p: Point, q: Point, g: Point)
    requires
        prime_curve_point(g),
        same_curve(p, g),
        same_curve(q, g),
    ensures
        same_curve(plus(p, q), g),
        plus(p, q) == plus(q, p),
{
    reveal(plus);
    lemma_add_defined_prime(p, q);
    lemma_add_defined_prime(q, p);
    lemma_add_wf(p, q);
    lemma_add_on_curve(p, q);
    lemma_add_commutative(p, q);
}

proof fn lemma_plus_assoc(p: Point, q: Point, r: Point, g: Point)
    requires
        addition_associative(g.a, g.b),
        same_curve(p, g),
        same_curve(q, g),
        same_curve(r, g),
    ensures
        plus(plus(p, q), r) == plus(p, plus(q, r)),
{
    reveal(plus);
    assert(p.add_points(q).add_points(r) == p.add_points(q.add_points(r)));
}

proof fn lemma_plus_identity(p: Point)
    requires
        p.wf(),
    ensures
        plus(Point::infinity_spec(p.a, p.b), p) == p,
        plus(p, Point::infinity_spec(p.a, p.b)) == p,
{
    reveal(plus);
    lemma_add_identity_left(p);
    lemma_add_identity_right(p);
}

/// Every multiple of a point of a prime curve lies on that curve.
pub proof fn lemma_repeated_add_same_curve(k: nat, p: Point, g: Point)
    requires
        prime_curve_point(g),
        same_curve(p, g),
    ensures
        same_curve(repeated_add(k, p), g),
    decreases k,
{
    if k > 0 {
        lemma_repeated_add_same_curve((k - 1) as nat, p, g);
        lemma_plus_same_curve(repeated_add((k - 1) as nat, p), p, g);
    }
}

/// `(j + k) P = j P + k P` on a curve whose addition is associative.
pub proof fn lemma_repeated_add_distributes(j: nat, k: nat, p: Point)
    requires
        prime_curve_point(p),
        addition_associative(p.a, p.b),
    ensures
        repeated_add(j + k, p) == plus(repeated_add(j, p), repeated_add(k, p)),
    decreases k,
{
    lemma_repeated_add_same_curve(j, p, p);
    if k == 0 {
        lemma_plus_identity(repeated_add(j, p));
    } else {
        let k1 = (k - 1) as nat;
        lemma_repeated_add_distributes(j, k1, p);
        lemma_repeated_add_same_curve(k1, p, p);
        assert((j + k1 + 1) as nat == j + k);
        lemma_plus_assoc(repeated_add(j, p), repeated_add(k1, p), p, p);
    }
}

/// `a (b P) = (a b) P` on a curve whose addition is associative.
pub proof fn lemma_repeated_add_mul(a: nat, b: nat, p: Point)
    requires
        prime_curve_point(p),
        addition_associative(p.a, p.b),
    ensures
        repeated_add(a, repeated_add(b, p)) == repeated_add(a * b, p),
    decreases a,
{
    lemma_repeated_add_same_curve(b, p, p);
    if a == 0 {
        assert(a * b == 0);
    } else {
        let a1 = (a - 1) as nat;
        lemma_repeated_add_mul(a1, b, p);
        assert(a1 * b + b == a * b) by (nonlinear_arith)
            requires
                a1 == a - 1,
        ;
        lemma_repeated_add_distributes(a1 * b, b, p);
    }
}

/// Multiples of the point at infinity are the point at infinity.
proof fn lemma_repeated_add_infinity(k: nat, o: Point)
    requires
        o == Point::infinity_spec(o.a, o.b),
    ensures
        repeated_add(k, o) == o,
    decreases k,
{
    if k > 0 {
        lemma_repeated_add_infinity((k - 1) as nat, o);
        reveal(plus);
    }
}

/// Where `n P` is the point at infinity, `k P = (k mod n) P`.
pub proof fn lemma_repeated_add_mod_order(k: nat, n: nat, p: Point)
    requires
        prime_curve_point(p),
        addition_associative(p.a, p.b),
        n > 0,
        repeated_add(n, p) == Point::infinity_spec(p.a, p.b),
    ensures
        repeated_add(k, p) == repeated_add(k % n, p),
{
    let q = k / n;
    let r = k % n;
    vstd::arithmetic::div_mod::lemma_fundamental_div_mod(k as int, n as int);
    assert(q * n + r == k) by (nonlinear_arith)
        requires
            k == n * q + r,
    ;
    lemma_repeated_add_distributes(q * n, r, p);
    lemma_repeated_add_mul(q, n, p);
    lemma_repeated_add_infinity(q, repeated_add(n, p));
    lemma_repeated_add_same_curve(r, p, p);
    lemma_plus_identity(repeated_add(r, p));
}

/// Double-and-add adds `k cur` to `acc`, on a curve whose addition is
/// associative.
proof fn lemma_double_and_add_is_repeated(k: nat, cur: Point, acc: Point, g: Point)
    requires
        prime_curve_point(g),
        addition_associative(g.a, g.b),
        same_curve(cur, g),
        same_curve(acc, g),
    ensures
        double_and_add(k, cur, acc) == plus(acc, repeated_add(k, cur)),
    decreases k,
{
    lemma_repeated_add_same_curve(k, cur, g);
    if k == 0 {
        lemma_plus_identity(acc);
    } else {
        let h = k / 2;
        let cur2 = plus(cur, cur);
        let acc2 = if k % 2 == 1 { plus(acc, cur) } else { acc };
        assert(double_and_add(k, cur, acc) == double_and_add(h, cur2, acc2)) by {
            reveal(plus);
        }
        lemma_plus_same_curve(cur, cur, g);
        lemma_plus_same_curve(acc, cur, g);
        lemma_double_and_add_is_repeated(h, cur2, acc2, g);
        // cur + cur is 2 cur, so h (cur + cur) is (2 h) cur.
        lemma_plus_identity(cur);
        assert(repeated_add(0, cur) == Point::infinity_spec(cur.a, cur.b));
        assert(repeated_add(1, cur) == plus(repeated_add(0, cur), cur));
        assert(repeated_add(1, cur) == cur);
        assert(repeated_add(2, cur) == plus(repeated_add(1, cur), cur));
        assert(repeated_add(2, cur) == cur2);
        lemma_repeated_add_mul(h, 2, cur);
        let m = h * 2;
        lemma_repeated_add_same_curve(m, cur, g);
        if k % 2 == 1 {
            lemma_plus_assoc(acc, cur, repeated_add(m, cur), g);
            lemma_plus_same_curve(cur, repeated_add(m, cur), g);
            assert((m + 1) as nat == k);
            assert(repeated_add(k, cur) == plus(repeated_add(m, cur), cur));
        } else {
            assert(m == k);
        }
    }
}

/// On a curve whose addition is associative, double-and-add computes `P`
/// added `k` times.
pub proof fn lemma_scalar_mul_is_repeated_add(k: nat, p: Point)
    requires
        prime_curve_point(p),
        addition_associative(p.a, p.b),
    ensures
        scalar_mul(k, p) == repeated_add(k, p),
{
    let o = Point::infinity_spec(p.a, p.b);
    lemma_double_and_add_is_repeated(k, p, o, p);
    lemma_repeated_add_same_curve(k, p, p);
    lemma_plus_identity(repeated_add(k, p));
}

/// `(j + k) P = j P + k P` for scalar multiplication, on a curve whose
/// addition is associative.
pub proof fn lemma_scalar_mul_distributes(j: nat, k: nat, p: Point)
    requires
        prime_curve_point(p),
        addition_associative(p.a, p.b),
    ensures
        scalar_mul(j + k, p) == scalar_mul(j, p).add_points(scalar_mul(k, p)),
{
    lemma_scalar_mul_is_repeated_add(j + k, p);
    lemma_scalar_mul_is_repeated_add(j, p);
    lemma_scalar_mul_is_repeated_add(k, p);
    lemma_repeated_add_distributes(j, k, p);
    reveal(plus);
}

} // verus!
