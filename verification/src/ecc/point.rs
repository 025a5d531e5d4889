//! Points of the elliptic curve `y^2 = x^3 + a x + b` over a prime field, with
//! the chord-and-tangent group law.

use vstd::prelude::*;
use crate::ecc::field::{FieldElement, small_modulus, lemma_ops_fit, lemma_fe_closed, lemma_inv_wf, lemma_pow_wf};
use crate::ecc::modular::{is_prime, lemma_gcd_prime, lemma_gcd_swap, lemma_mod_is_zero_small};
use vstd::arithmetic::power::pow;
use vstd::arithmetic::div_mod::{lemma_add_mod_noop, lemma_mod_bound, lemma_small_mod, lemma_mod_twice, lemma_fundamental_div_mod, lemma_mod_multiples_basic};

verus! {

/// A point of the curve `y^2 = x^3 + a x + b`; both coordinates are `None`
/// for the point at infinity (the identity element).
#[derive(Debug, Clone, Copy, PartialEq, Eq, Structural)]
pub struct Point {
    /// x-coordinate. If None, this represents the Point at Infinity (Identity element)
    pub x: Option<FieldElement>,
    /// y-coordinate. If None, this represents the Point at Infinity (Identity element)
    pub y: Option<FieldElement>,
    /// Curve coefficient 'a'
    pub a: FieldElement,
    /// Curve coefficient 'b'
    pub b: FieldElement,
}

/// `y^2 = x^3 + a x + b (mod p)`.
pub open spec fn curve_equation(x: int, y: int, a: int, b: int, p: int) -> bool {
    (y * y) % p == (x * x * x + a * x + b) % p
}

/// The chord through two points with distinct x-coordinates meets the curve in
/// a third point; the sum is its mirror image.
pub open spec fn chord(x1: FieldElement, y1: FieldElement, x2: FieldElement, y2: FieldElement) -> (FieldElement, FieldElement) {
    let s = y2.fe_sub(y1).fe_mul(x2.fe_sub(x1).fe_inv());
    let x3 = s.fe_pow(2).fe_sub(x1).fe_sub(x2);
    let y3 = s.fe_mul(x1.fe_sub(x3)).fe_sub(y1);
    (x3, y3)
}

/// The tangent at a point with non-zero y-coordinate meets the curve again;
/// the double is the mirror image of that point.
pub open spec fn tangent(x1: FieldElement, y1: FieldElement, a: FieldElement) -> (FieldElement, FieldElement) {
    let three = FieldElement { num: 3, prime: x1.prime };
    let two = FieldElement { num: 2, prime: x1.prime };
    let s = three.fe_mul(x1.fe_pow(2)).fe_add(a).fe_mul(two.fe_mul(y1).fe_inv());
    let x3 = s.fe_pow(2).fe_sub(two.fe_mul(x1));
    let y3 = s.fe_mul(x1.fe_sub(x3)).fe_sub(y1);
    (x3, y3)
}

impl Point {
    /// The modulus of the field the curve is defined over.
    pub open spec fn modulus(self) -> u128 {
        self.a.prime
    }

    pub open spec fn coord_ok(self, c: Option<FieldElement>) -> bool {
        c matches Some(v) ==> v.wf() && v.prime == self.a.prime
    }

    /// Coordinates and coefficients are reduced elements of one field whose
    /// products fit in a `u128`, and the point is either at infinity or has
    /// both coordinates.
    pub open spec fn wf(self) -> bool {
        &&& self.a.wf()
        &&& self.b.wf()
        &&& self.a.prime == self.b.prime
        &&& small_modulus(self.a.prime)
        &&& self.x.is_none() == self.y.is_none()
        &&& self.coord_ok(self.x)
        &&& self.coord_ok(self.y)
    }

    pub open spec fn is_infinity(self) -> bool {
        self.x is None
    }

    /// The point lies on its curve (the point at infinity always does).
    pub open spec fn on_curve(self) -> bool {
        self.is_infinity() || curve_equation(
            self.x->0.num as int,
            self.y->0.num as int,
            self.a.num as int,
            self.b.num as int,
            self.a.prime as int,
        )
    }

    /// The point at infinity of the curve with coefficients `a`, `b`.
    pub open spec fn infinity_spec(a: FieldElement, b: FieldElement) -> Point {
        Point { x: None, y: None, a, b }
    }

    /// The chord-and-tangent sum of two points of one curve.
    pub open spec fn add_points(self, other: Point) -> Point {
        if self.x is None {
            other
        } else if other.x is None {
            self
        } else {
            let (x1, y1, x2, y2) = (self.x->0, self.y->0, other.x->0, other.y->0);
            if x1 == x2 && y1 != y2 {
                Self::infinity_spec(self.a, self.b)
            } else if x1 != x2 {
                let (x3, y3) = chord(x1, y1, x2, y2);
                Point { x: Some(x3), y: Some(y3), a: self.a, b: self.b }
            } else if y1.num == 0 {
                Self::infinity_spec(self.a, self.b)
            } else {
                let (x3, y3) = tangent(x1, y1, self.a);
                Point { x: Some(x3), y: Some(y3), a: self.a, b: self.b }
            }
        }
    }

    /// `self + other` runs without failing: both points are well formed and on
    /// one curve, and the slope it needs is defined: the difference of the
    /// x-coordinates (for distinct x) or `2 y` (for doubling, where the field
    /// must also hold 3) is invertible.
    pub open spec fn add_defined(self, other: Point) -> bool {
        &&& self.wf()
        &&& other.wf()
        &&& self.a == other.a
        &&& self.b == other.b
        &&& (self.x is Some && other.x is Some) ==> {
            let (x1, y1, x2, y2) = (self.x->0, self.y->0, other.x->0, other.y->0);
            &&& x1 != x2 ==> x2.fe_sub(x1).inv_req()
            &&& (x1 == x2 && y1 == y2 && y1.num != 0) ==> {
                &&& 3 < self.modulus()
                &&& FieldElement { num: 2, prime: x1.prime }.fe_mul(y1).inv_req()
            }
        }
    }

    /// Create a new point on the elliptic curve y^2 = x^3 + ax + b
    pub fn new(x: Option<FieldElement>, y: Option<FieldElement>, a: FieldElement, b: FieldElement) -> (r: Self)
        requires
            x.is_none() == y.is_none(),
            x is Some ==> {
                let p = Point { x, y, a, b };
                &&& p.wf()
                &&& p.on_curve()
            },
        ensures
            r == (Point { x, y, a, b }),
    {
        // Point at infinity
        if x.is_none() && y.is_none() {
            return Self { x, y, a, b };
        }

        let x_val = x.unwrap();
        let y_val = y.unwrap();

        // Verify the point is actually on the curve: y^2 = x^3 + ax + b
        let y_squared = y_val.pow(2);
        let x_cubed = x_val.pow(3);
        proof {
            lemma_ops_fit(a, x_val);
            lemma_ops_fit(x_cubed, a.fe_mul(x_val));
        }
        let ax = a * x_val;
        let right_side = x_cubed + ax + b;
        proof {
            lemma_curve_equation_computed(x_val, y_val, a, b);
        }
        assert(y_squared == right_side);
        Self { x, y, a, b }
    }

    /// Helper to create a point at infinity for a given curve
    pub fn infinity(a: FieldElement, b: FieldElement) -> (r: Self)
        ensures
            r == Self::infinity_spec(a, b),
    {
        Self { x: None, y: None, a, b }
    }
}

impl core::ops::Add for Point {
    type Output = Point;

    fn add(self, other: Point) -> (r: Point)
        ensures
            r == self.add_points(other),
    {
        // self is the Point at Infinity
        if self.x.is_none() {
            return other;
        }
        // other is the Point at Infinity
        if other.x.is_none() {
            return self;
        }

        let x1 = self.x.unwrap();
        let y1 = self.y.unwrap();
        let x2 = other.x.unwrap();
        let y2 = other.y.unwrap();

        // Points are additive inverses (same x, different y)
        if x1 == x2 && y1 != y2 {
            return Self::infinity(self.a, self.b);
        }

        // Points are distinct (x1 != x2)
        if x1 != x2 {
            // Slope (s) = (y2 - y1) / (x2 - x1)
            proof {
                lemma_fe_closed(y2, y1);
                lemma_fe_closed(x2, x1);
            }
            let dy = y2 - y1;
            let dx = x2 - x1;
            let dx_inv = dx.inv();
            proof {
                lemma_fe_closed(dy, dx_inv);
            }
            let s = dy * dx_inv;
            // x3 = s^2 - x1 - x2
            let s2 = s.pow(2);
            proof {
                lemma_fe_closed(s2, x1);
                lemma_fe_closed(s2.fe_sub(x1), x2);
            }
            let x3 = s2 - x1 - x2;
            // y3 = s(x1 - x3) - y1
            proof {
                lemma_fe_closed(x1, x3);
                lemma_fe_closed(s, x1.fe_sub(x3));
                lemma_fe_closed(s.fe_mul(x1.fe_sub(x3)), y1);
            }
            let y3 = s * (x1 - x3) - y1;
            return Self { x: Some(x3), y: Some(y3), a: self.a, b: self.b };
        }

        // Points are the same (x1 == x2 and y1 == y2) - Point Doubling
        // y coordinate is 0 (tangent line is vertical)
        if y1.num == 0 {
            return Self::infinity(self.a, self.b);
        }

        // Standard point doubling
        // Slope (s) = (3x1^2 + a) / (2y1)
        let three = FieldElement::new(3, x1.prime);
        let two = FieldElement::new(2, x1.prime);
        let xx = x1.pow(2);
        proof {
            lemma_fe_closed(three, xx);
            lemma_fe_closed(three.fe_mul(xx), self.a);
            lemma_fe_closed(two, y1);
        }
        let num = three * xx + self.a;
        let den_inv = (two * y1).inv();
        proof {
            lemma_fe_closed(num, den_inv);
        }
        let s = num * den_inv;
        // x3 = s^2 - 2x1
        let s2 = s.pow(2);
        proof {
            lemma_fe_closed(two, x1);
            lemma_fe_closed(s2, two.fe_mul(x1));
        }
        let x3 = s2 - (two * x1);
        // y3 = s(x1 - x3) - y1
        proof {
            lemma_fe_closed(x1, x3);
            lemma_fe_closed(s, x1.fe_sub(x3));
            lemma_fe_closed(s.fe_mul(x1.fe_sub(x3)), y1);
        }
        let y3 = s * (x1 - x3) - y1;
        Self { x: Some(x3), y: Some(y3), a: self.a, b: self.b }
    }
}

impl vstd::std_specs::ops::AddSpecImpl for Point {
    open spec fn obeys_add_spec() -> bool {
        true
    }

    open spec fn add_req(self, rhs: Point) -> bool {
        self.add_defined(rhs)
    }

    open spec fn add_spec(self, rhs: Point) -> Point {
        self.add_points(rhs)
    }
}

/// The sum of two points of one curve is a well-formed point of that curve.
pub proof fn lemma_add_wf(p: Point, q: Point)
    requires
        p.add_defined(q),
    ensures
        p.add_points(q).wf(),
        p.add_points(q).a == p.a,
        p.add_points(q).b == p.b,
{
    if p.x is Some && q.x is Some {
        let (x1, y1, x2, y2) = (p.x->0, p.y->0, q.x->0, q.y->0);
        if x1 != x2 {
            lemma_fe_closed(y2, y1);
            lemma_fe_closed(x2, x1);
            let s = y2.fe_sub(y1).fe_mul(x2.fe_sub(x1).fe_inv());
            lemma_inv_wf(x2.fe_sub(x1));
            lemma_fe_closed(y2.fe_sub(y1), x2.fe_sub(x1).fe_inv());
            lemma_pow_wf(s, 2);
            lemma_fe_closed(s.fe_pow(2), x1);
            lemma_fe_closed(s.fe_pow(2).fe_sub(x1), x2);
            let x3 = s.fe_pow(2).fe_sub(x1).fe_sub(x2);
            lemma_fe_closed(x1, x3);
            lemma_fe_closed(s, x1.fe_sub(x3));
            lemma_fe_closed(s.fe_mul(x1.fe_sub(x3)), y1);
        } else if y1 == y2 && y1.num != 0 {
            let three = FieldElement { num: 3, prime: x1.prime };
            let two = FieldElement { num: 2, prime: x1.prime };
            lemma_pow_wf(x1, 2);
            lemma_fe_closed(three, x1.fe_pow(2));
            lemma_fe_closed(three.fe_mul(x1.fe_pow(2)), p.a);
            lemma_fe_closed(two, y1);
            lemma_inv_wf(two.fe_mul(y1));
            let num = three.fe_mul(x1.fe_pow(2)).fe_add(p.a);
            lemma_fe_closed(num, two.fe_mul(y1).fe_inv());
            let s = num.fe_mul(two.fe_mul(y1).fe_inv());
            lemma_pow_wf(s, 2);
            lemma_fe_closed(two, x1);
            lemma_fe_closed(s.fe_pow(2), two.fe_mul(x1));
            let x3 = s.fe_pow(2).fe_sub(two.fe_mul(x1));
            lemma_fe_closed(x1, x3);
            lemma_fe_closed(s, x1.fe_sub(x3));
            lemma_fe_closed(s.fe_mul(x1.fe_sub(x3)), y1);
        }
    }
}

/// On a curve over a prime field with more than three elements every sum of
/// two well-formed points is defined.
pub proof fn lemma_add_defined_prime(p: Point, q: Point)
    requires
        p.wf(),
        q.wf(),
        p.a == q.a,
        p.b == q.b,
        is_prime(p.modulus() as nat),
        p.modulus() > 3,
    ensures
        p.add_defined(q),
{
    let m = p.modulus();
    if p.x is Some && q.x is Some {
        let (x1, y1, x2, y2) = (p.x->0, p.y->0, q.x->0, q.y->0);
        lemma_small_modulus_bounds(m);
        if x1 != x2 {
            lemma_fe_closed(x2, x1);
            let d = x2.fe_sub(x1);
            if d.num == 0 {
                lemma_mod_is_zero_small(x2.num - x1.num, m as int);
                assert(false);
            }
            lemma_gcd_prime(d.num as nat, m as nat);
            lemma_gcd_swap(d.num as nat, m as nat);
        }
        if x1 == x2 && y1 == y2 && y1.num != 0 {
            let two = FieldElement { num: 2, prime: x1.prime };
            lemma_fe_closed(two, y1);
            let d = two.fe_mul(y1);
            assert(m % 2 != 0);
            if d.num == 0 {
                lemma_double_not_zero_mod(y1.num as int, m as int);
                assert(false);
            }
            lemma_gcd_prime(d.num as nat, m as nat);
            lemma_gcd_swap(d.num as nat, m as nat);
        }
    }
}

/// Modulo an odd `m`, twice a non-zero residue is non-zero.
proof fn lemma_double_not_zero_mod(y: int, m: int)
    requires
        0 < y < m,
        m % 2 != 0,
    ensures
        (2 * y) % m != 0,
{
    if (2 * y) % m == 0 {
        lemma_fundamental_div_mod(2 * y, m);
        let q = (2 * y) / m;
        assert(2 * y == m * q);
        if q >= 2 {
            assert(m * q >= 2 * m) by (nonlinear_arith)
                requires
                    q >= 2,
                    m > 0,
            {
            }
        } else if q <= 0 {
            assert(m * q <= 0) by (nonlinear_arith)
                requires
                    q <= 0,
                    m > 0,
            {
            }
        } else {
            assert(m * q == m) by (nonlinear_arith)
                requires
                    q == 1,
            {
            }
            assert(m == 2 * y);
            lemma_mod_multiples_basic(y, 2);
        }
    }
}

/// A modulus whose residues multiply within a `u128` also lets two residues be
/// added, and fits in an `i128`.
pub proof fn lemma_small_modulus_bounds(p: u128)
    requires
        small_modulus(p),
    ensures
        2 * (p - 1) <= u128::MAX,
        p <= i128::MAX,
        p <= 0x1_0000_0000_0000_0000,
{
    if p > 0x1_0000_0000_0000_0000 {
        assert((p - 1) * (p - 1) > u128::MAX) by (nonlinear_arith)
            requires
                p > 0x1_0000_0000_0000_0000,
        {
        }
    }
}

/// The field operations that `Point::new` performs on a point of the curve
/// give equal sides.
proof fn lemma_curve_equation_computed(x: FieldElement, y: FieldElement, a: FieldElement, b: FieldElement)
    requires
        x.wf(),
        y.wf(),
        a.wf(),
        b.wf(),
        x.prime == y.prime,
        x.prime == a.prime,
        a.prime == b.prime,
        small_modulus(a.prime),
        curve_equation(x.num as int, y.num as int, a.num as int, b.num as int, a.prime as int),
    ensures
        y.fe_pow(2) == x.fe_pow(3).fe_add(a.fe_mul(x)).fe_add(b),
{
    let p = a.prime as int;
    let (xi, yi, ai, bi) = (x.num as int, y.num as int, a.num as int, b.num as int);
    assert(pow(yi, 2) == yi * yi) by {
        reveal_with_fuel(pow, 3);
    }
    assert(pow(xi, 3) == xi * xi * xi) by {
        reveal_with_fuel(pow, 4);
        assert(xi * (xi * (xi * 1)) == xi * xi * xi) by (nonlinear_arith);
    }
    let c = (xi * xi * xi) % p;
    let ax = (ai * xi) % p;
    lemma_add_mod_noop(xi * xi * xi, ai * xi, p);
    lemma_mod_bound(c + ax, p);
    lemma_add_mod_noop(xi * xi * xi + ai * xi, bi, p);
    lemma_small_mod(bi as nat, p as nat);
    lemma_mod_twice(xi * xi * xi + ai * xi, p);
}

} // verus!
