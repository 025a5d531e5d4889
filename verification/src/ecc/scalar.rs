//! Scalar multiplication `k * P` by double-and-add.

use vstd::prelude::*;
use crate::ecc::point::{Point, lemma_add_wf, lemma_add_defined_prime};
use crate::ecc::modular::is_prime;

verus! {

/// Double-and-add on the bits of `k` from the lowest: for each set bit the
/// current power-of-two multiple `cur` is added to `acc`, and `cur` is doubled
/// after every bit.
pub open spec fn double_and_add(k: nat, cur: Point, acc: Point) -> Point
    decreases k,
{
    if k == 0 {
        acc
    } else {
        double_and_add(
            k / 2,
            cur.add_points(cur),
            if k % 2 == 1 { acc.add_points(cur) } else { acc },
        )
    }
}

/// Every addition performed by double-and-add is defined.
pub open spec fn double_and_add_defined(k: nat, cur: Point, acc: Point) -> bool
    decreases k,
{
    k == 0 || {
        &&& cur.add_defined(cur)
        &&& (k % 2 == 1 ==> acc.add_defined(cur))
        &&& double_and_add_defined(
            k / 2,
            cur.add_points(cur),
            if k % 2 == 1 { acc.add_points(cur) } else { acc },
        )
    }
}

/// `k * P`: the sum of the multiples `2^i P` over the set bits `i` of `k`,
/// starting from the point at infinity.
pub open spec fn scalar_mul(k: nat, p: Point) -> Point {
    double_and_add(k, p, Point::infinity_spec(p.a, p.b))
}

/// `k * P` runs without failing.
pub open spec fn scalar_mul_defined(k: nat, p: Point) -> bool {
    double_and_add_defined(k, p, Point::infinity_spec(p.a, p.b))
}

/// Scalar multiplication: k * P
/// Uses the Double-and-Add algorithm which works in O(log k) time.
impl core::ops::Mul<Point> for u128 {
    type Output = Point;

    fn mul(self, point: Point) -> (r: Point)
        ensures
            r == scalar_mul(self as nat, point),
    {
        let mut k = self;
        let mut current_point = point;
        let mut result = Point::infinity(point.a, point.b);

        while k > 0
            invariant
                double_and_add(k as nat, current_point, result) == scalar_mul(self as nat, point),
                double_and_add_defined(k as nat, current_point, result),
            decreases k,
        {
            // "Add" step: if the least significant bit is 1, add the current point to the result
            if k % 2 == 1 {
                result = result + current_point;
            }
            // "Double" step: double the current point for the next bit
            current_point = current_point + current_point;

            // Shift right to process the next bit
            k = k / 2;
        }

        result
    }
}

impl vstd::std_specs::ops::MulSpecImpl<Point> for u128 {
    open spec fn obeys_mul_spec() -> bool {
        true
    }

    open spec fn mul_req(self, rhs: Point) -> bool {
        scalar_mul_defined(self as nat, rhs)
    }

    open spec fn mul_spec(self, rhs: Point) -> Point {
        scalar_mul(self as nat, rhs)
    }
}

/// Over a prime field with more than three elements, double-and-add is
/// defined for every well-formed point of the curve.
pub proof fn lemma_double_and_add_defined(k: nat, cur: Point, acc: Point)
    requires
        cur.wf(),
        acc.wf(),
        cur.a == acc.a,
        cur.b == acc.b,
        is_prime(cur.modulus() as nat),
        cur.modulus() > 3,
    ensures
        double_and_add_defined(k, cur, acc),
    decreases k,
{
    if k > 0 {
        lemma_add_defined_prime(cur, cur);
        lemma_add_defined_prime(acc, cur);
        lemma_add_wf(cur, cur);
        lemma_add_wf(acc, cur);
        lemma_double_and_add_defined(
            k / 2,
            cur.add_points(cur),
            if k % 2 == 1 { acc.add_points(cur) } else { acc },
        );
    }
}

/// Scalar multiplication is defined for every well-formed point of a curve
/// over a prime field with more than three elements.
pub proof fn lemma_scalar_mul_defined(k: nat, p: Point)
    requires
        p.wf(),
        is_prime(p.modulus() as nat),
        p.modulus() > 3,
    ensures
        scalar_mul_defined(k, p),
        scalar_mul(k, p).wf(),
        scalar_mul(k, p).a == p.a,
        scalar_mul(k, p).b == p.b,
{
    lemma_double_and_add_defined(k, p, Point::infinity_spec(p.a, p.b));
    lemma_double_and_add_wf(k, p, Point::infinity_spec(p.a, p.b));
}

/// Double-and-add yields a well-formed point of the curve.
pub proof fn lemma_double_and_add_wf(k: nat, cur: Point, acc: Point)
    requires
        double_and_add_defined(k, cur, acc),
        acc.wf(),
    ensures
        double_and_add(k, cur, acc).wf(),
        double_and_add(k, cur, acc).a == acc.a,
        double_and_add(k, cur, acc).b == acc.b,
    decreases k,
{
    if k > 0 {
        lemma_add_wf(cur, cur);
        if k % 2 == 1 {
            lemma_add_wf(acc, cur);
        }
        lemma_double_and_add_wf(
            k / 2,
            cur.add_points(cur),
            if k % 2 == 1 { acc.add_points(cur) } else { acc },
        );
    }
}

/// `0 * P` is the point at infinity.
pub proof fn lemma_scalar_mul_zero(p: Point)
    ensures
        scalar_mul(0, p) == Point::infinity_spec(p.a, p.b),
{
}

/// `1 * P = P`.
pub proof fn lemma_scalar_mul_one(p: Point)
    ensures
        scalar_mul(1, p) == p,
{
    reveal_with_fuel(double_and_add, 2);
}

/// `2 * P = P + P`.
pub proof fn lemma_scalar_mul_two(p: Point)
    requires
        p.wf(),
    ensures
        scalar_mul(2, p) == p.add_points(p),
{
    reveal_with_fuel(double_and_add, 3);
}

} // verus!
