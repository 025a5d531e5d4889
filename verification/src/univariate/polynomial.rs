//! The univariate polynomial type and its operations.

use vstd::prelude::*;
use core::ops::Neg;
use crate::curve::scalar::{Scalar, fr_modulus, scalars_view};
use crate::univariate::algebra::{
    trimmed, poly_eval, coeff_at, add_coeffs, neg_coeffs, sub_coeffs, scale_coeffs, mul_term, row_sum, mul_coeffs,
    lemma_sub_trimmed, lemma_trimmed_prefix, lemma_poly_eval_trimmed, lemma_poly_eval_mul,
    lemma_poly_eval_scale, lemma_poly_eval_add,
};

verus! {

/// A univariate polynomial over `F_r`: `coeffs[i]` is the coefficient of
/// `x^i`, so `3 + 2x + 5x^2` is `[3, 2, 5]`. `new` and the arithmetic
/// remove trailing zeros, so that the zero polynomial has no coefficients.
#[derive(Debug, Clone, PartialEq, Eq)]
pub struct UnivariatePolynomial {
    pub coeffs: Vec<Scalar>,
}

impl UnivariatePolynomial {
    /// The coefficients as integers modulo `r`.
    pub open spec fn coeffs_view(&self) -> Seq<nat> {
        scalars_view(self.coeffs@)
    }

    /// Creates the polynomial with the given coefficients, trailing zeros
    /// removed.
    pub fn new(coeffs: Vec<Scalar>) -> (r: Self)
        ensures
            r.coeffs_view() == trimmed(scalars_view(coeffs@)),
            r.coeffs@ == coeffs@.take(r.coeffs.len() as int),
    {
        let mut poly = Self { coeffs };
        poly.truncate();
        poly
    }

    /// The zero polynomial (additive identity).
    pub fn zero() -> (r: Self)
        ensures
            r.coeffs@ == Seq::<Scalar>::empty(),
    {
        Self { coeffs: Vec::new() }
    }

    /// Whether there are no coefficients.
    pub fn is_zero(&self) -> (r: bool)
        ensures
            r == (self.coeffs.len() == 0),
    {
        self.coeffs.len() == 0
    }

    /// The index of the last coefficient; `None` for the zero polynomial.
    pub fn degree(&self) -> (r: Option<usize>)
        ensures
            r == (if self.coeffs.len() == 0 { None } else { Some((self.coeffs.len() - 1) as usize) }),
    {
        if self.is_zero() {
            None
        } else {
            Some(self.coeffs.len() - 1)
        }
    }

    /// Removes the trailing zero coefficients.
    pub fn truncate(&mut self)
        ensures
            final(self).coeffs_view() == trimmed(old(self).coeffs_view()),
            final(self).coeffs@ == old(self).coeffs@.take(final(self).coeffs.len() as int),
    {
        let ghost start = self.coeffs@;
        let zero = Scalar::zero();
        let mut done = false;
        proof {
            assert(start.take(start.len() as int) =~= start);
        }
        while !done
            invariant
                zero@ == 0,
                self.coeffs@ == start.take(self.coeffs.len() as int),
                self.coeffs.len() <= start.len(),
                trimmed(scalars_view(self.coeffs@)) == trimmed(scalars_view(start)),
                done ==> (self.coeffs.len() == 0 || scalars_view(self.coeffs@).last() != 0),
            decreases self.coeffs.len() + (if done { 0int } else { 1int }),
        {
            let n = self.coeffs.len();
            if n == 0 {
                done = true;
            } else if self.coeffs[n - 1].equals(&zero) {
                let ghost before = self.coeffs@;
                self.coeffs.pop();
                proof {
                    assert(self.coeffs@ =~= before.drop_last());
                    assert(scalars_view(self.coeffs@) =~= scalars_view(before).drop_last());
                    assert(self.coeffs@ =~= start.take(self.coeffs.len() as int));
                }
            } else {
                done = true;
            }
        }
    }

    /// The value at `x`, by Horner's rule `a0 + x (a1 + x (a2 + ...))`.
    pub fn evaluate(&self, x: &Scalar) -> (r: Scalar)
        ensures
            r@ == poly_eval(self.coeffs_view(), x@),
    {
        if self.is_zero() {
            return Scalar::zero();
        }
        let cs = &self.coeffs;
        let ghost v = scalars_view(cs@);
        let mut result = Scalar::zero();
        let mut i: usize = cs.len();
        proof {
            assert(v.subrange(cs.len() as int, cs.len() as int) =~= Seq::<nat>::empty());
        }
        while i > 0
            invariant
                i <= cs.len(),
                v == scalars_view(cs@),
                result@ == poly_eval(v.subrange(i as int, cs.len() as int), x@),
            decreases i,
        {
            let c = cs[i - 1];
            let prod = result.mul(x);
            let next = prod.add(&c);
            proof {
                let tail = v.subrange(i as int, cs.len() as int);
                let s = v.subrange(i - 1, cs.len() as int);
                assert(s.drop_first() =~= tail);
                assert(s[0] == c@);
                let m = fr_modulus() as int;
                vstd::arithmetic::div_mod::lemma_add_mod_noop((result@ * x@) as int, c@ as int, m);
                vstd::arithmetic::div_mod::lemma_mod_twice((result@ * x@) as int, m);
                vstd::arithmetic::div_mod::lemma_small_mod(c@, fr_modulus());
                assert(result@ * x@ == x@ * result@) by (nonlinear_arith);
            }
            result = next;
            i = i - 1;
        }
        proof {
            assert(v.subrange(0, cs.len() as int) =~= v);
        }
        result
    }

    /// The polynomial with at most `points.len()` coefficients through the
    /// given points, by Lagrange's formula
    /// `p(x) = sum_i y_i prod_{j != i} (x - x_j) / (x_i - x_j)`.
    /// There must be at least one point, and no two with the same `x`.
    pub fn interpolate(points: &[(Scalar, Scalar)]) -> (r: Self)
        requires
            points.len() > 0,
            points.len() < usize::MAX,
            forall|i: int, j: int| 0 <= i < points.len() && 0 <= j < points.len() && i != j
                ==> (#[trigger] points[i]).0@ != (#[trigger] points[j]).0@,
        ensures
            forall|k: int| 0 <= k < points.len()
                ==> #[trigger] poly_eval(r.coeffs_view(), points[k].0@) == points[k].1@,
            r.coeffs.len() <= points.len(),
            r.coeffs_view() == trimmed(r.coeffs_view()),
    {
        let n = points.len();
        let mut result = Self::zero();
        let mut i: usize = 0;
        proof {
            assert(result.coeffs_view() =~= Seq::<nat>::empty());
            assert forall|k: int| 0 <= k < n implies #[trigger] poly_eval(result.coeffs_view(), points[k].0@)
                == (if k < i { points[k].1@ } else { 0 }) by {
            }
        }
        while i < n
            invariant
                n == points.len(),
                n < usize::MAX,
                forall|a: int, b: int| 0 <= a < n && 0 <= b < n && a != b
                    ==> (#[trigger] points[a]).0@ != (#[trigger] points[b]).0@,
                i <= n,
                result.coeffs.len() <= n,
                result.coeffs_view() == trimmed(result.coeffs_view()),
                forall|k: int| 0 <= k < n ==> #[trigger] poly_eval(result.coeffs_view(), points[k].0@)
                    == (if k < i { points[k].1@ } else { 0 }),
            decreases n - i,
        {
            let xi = points[i].0;
            let yi = points[i].1;
            let one = Scalar::one();
            let unit = vec![one];
            proof {
                lemma_eval_one(xi@);
                assert(scalars_view(unit@) =~= seq![1nat]);
                assert(trimmed(seq![1nat]) == seq![1nat]);
            }
            let mut basis = Self::new(unit);
            let mut j: usize = 0;
            while j < n
                invariant
                    n == points.len(),
                    n < usize::MAX,
                    forall|a: int, b: int| 0 <= a < n && 0 <= b < n && a != b
                        ==> (#[trigger] points[a]).0@ != (#[trigger] points[b]).0@,
                    i < n,
                    xi == points[i as int].0,
                    one@ == 1,
                    j <= n,
                    basis.coeffs.len() <= 1 + j - (if i < j { 1int } else { 0int }),
                    poly_eval(basis.coeffs_view(), xi@) == 1,
                    forall|k: int| 0 <= k < j && k != i ==> #[trigger] poly_eval(basis.coeffs_view(), points[k].0@) == 0,
                decreases n - j,
            {
                if i != j {
                    let xj = points[j].0;
                    let denom = xi.sub(&xj);
                    proof {
                        lemma_difference_nonzero(xi@, xj@);
                    }
                    let inv_opt = denom.inverse();
                    let denom_inv = inv_opt.unwrap();
                    let neg_xj = xj.neg();
                    let lin = vec![neg_xj, one];
                    let ghost fs = seq![neg_xj@, 1nat];
                    proof {
                        assert(scalars_view(lin@) =~= fs);
                    }
                    let factor = Self::new(lin);
                    let ghost b0 = basis.coeffs_view();
                    proof {
                        assert(trimmed(fs) == fs);
                        lemma_linear_factor(fs, xj@);
                    }
                    let ghost f = factor.coeffs_view();
                    basis = basis * factor;
                    let ghost b1 = basis.coeffs_view();
                    basis.scale_in_place(&denom_inv);
                    proof {
                        let m = fr_modulus() as int;
                        lemma_trimmed_prefix(mul_coeffs(b0, f));
                        assert forall|x: nat| #[trigger] poly_eval(basis.coeffs_view(), x)
                            == (denom_inv@ * ((poly_eval(b0, x) * poly_eval(f, x)) % fr_modulus())) % fr_modulus() by {
                            lemma_poly_eval_scale(b1, denom_inv@, x);
                            lemma_poly_eval_trimmed(mul_coeffs(b0, f), x);
                            lemma_poly_eval_mul(b0, f, x);
                        }
                        // At `x_i` the new factor is `(x_i - x_j) / (x_i - x_j) = 1`.
                        assert(poly_eval(f, xi@) == denom@);
                        assert((1 * denom@) % fr_modulus() == denom@) by {
                            vstd::arithmetic::div_mod::lemma_small_mod(denom@, fr_modulus());
                        }
                        assert(denom_inv@ * denom@ == denom@ * denom_inv@) by (nonlinear_arith);
                        assert(poly_eval(basis.coeffs_view(), xi@) == 1);
                        // At the other points seen so far, and at `x_j`, it vanishes.
                        assert forall|k: int| 0 <= k < j + 1 && k != i implies #[trigger] poly_eval(basis.coeffs_view(), points[k].0@) == 0 by {
                            let xk = points[k].0@;
                            if k < j {
                                assert(poly_eval(b0, xk) == 0);
                                assert(0 * poly_eval(f, xk) == 0);
                            } else {
                                assert(poly_eval(f, xk) == 0);
                                assert(poly_eval(b0, xk) * 0 == 0);
                            }
                            vstd::arithmetic::div_mod::lemma_small_mod(0, fr_modulus());
                            assert(denom_inv@ * 0 == 0);
                        }
                    }
                }
                j = j + 1;
            }
            let ghost b2 = basis.coeffs_view();
            basis.scale_in_place(&yi);
            let ghost prev = result.coeffs_view();
            let ghost bs = basis.coeffs_view();
            result = result + basis;
            proof {
                lemma_trimmed_prefix(add_coeffs(prev, bs));
                assert forall|k: int| 0 <= k < n implies #[trigger] poly_eval(result.coeffs_view(), points[k].0@)
                    == (if k < i + 1 { points[k].1@ } else { 0 }) by {
                    let xk = points[k].0@;
                    lemma_poly_eval_trimmed(add_coeffs(prev, bs), xk);
                    lemma_poly_eval_add(prev, bs, xk);
                    lemma_poly_eval_scale(b2, yi@, xk);
                    crate::curve::scalar::lemma_canonical_bound(points[k].1);
                    vstd::arithmetic::div_mod::lemma_small_mod(points[k].1@, fr_modulus());
                    vstd::arithmetic::div_mod::lemma_small_mod(0, fr_modulus());
                    if k == i {
                        assert(poly_eval(b2, xk) == 1);
                        assert(yi@ * 1 == yi@);
                    } else {
                        assert(poly_eval(b2, xk) == 0);
                        assert(yi@ * 0 == 0);
                    }
                }
            }
            i = i + 1;
        }
        result
    }

    /// Multiplies every coefficient by `c`, in place.
    fn scale_in_place(&mut self, c: &Scalar)
        ensures
            final(self).coeffs_view() == scale_coeffs(old(self).coeffs_view(), c@),
            final(self).coeffs.len() == old(self).coeffs.len(),
    {
        let ghost start = self.coeffs_view();
        let mut i: usize = 0;
        while i < self.coeffs.len()
            invariant
                start.len() == self.coeffs.len(),
                i <= self.coeffs.len(),
                forall|q: int| 0 <= q < i ==> #[trigger] scalars_view(self.coeffs@)[q] == (start[q] * c@) % fr_modulus(),
                forall|q: int| i <= q < self.coeffs.len() ==> #[trigger] scalars_view(self.coeffs@)[q] == start[q],
            decreases self.coeffs.len() - i,
        {
            let v = self.coeffs[i].mul(c);
            proof {
                assert(scalars_view(self.coeffs@)[i as int] == self.coeffs@[i as int]@);
            }
            let ghost before = self.coeffs@;
            self.coeffs.set(i, v);
            proof {
                assert forall|q: int| 0 <= q < i + 1 implies #[trigger] scalars_view(self.coeffs@)[q]
                    == (start[q] * c@) % fr_modulus() by {
                    if q < i {
                        assert(self.coeffs@[q] == before[q]);
                        assert(scalars_view(before)[q] == before[q]@);
                    }
                }
                assert forall|q: int| i + 1 <= q < self.coeffs.len() implies #[trigger] scalars_view(self.coeffs@)[q]
                    == start[q] by {
                    assert(self.coeffs@[q] == before[q]);
                    assert(scalars_view(before)[q] == before[q]@);
                }
            }
            i = i + 1;
        }
        proof {
            assert(scalars_view(self.coeffs@) =~= scale_coeffs(start, c@));
        }
    }
}

impl core::ops::Add for UnivariatePolynomial {
    type Output = UnivariatePolynomial;

    /// Adds coefficient by coefficient, the shorter padded with zeros.
    fn add(self, other: UnivariatePolynomial) -> (r: UnivariatePolynomial)
        ensures
            r.coeffs_view() == trimmed(add_coeffs(self.coeffs_view(), other.coeffs_view())),
    {
        let la = self.coeffs.len();
        let lb = other.coeffs.len();
        let len = if la >= lb { la } else { lb };
        let ghost a = self.coeffs_view();
        let ghost b = other.coeffs_view();
        let mut result: Vec<Scalar> = Vec::new();
        let mut i: usize = 0;
        while i < len
            invariant
                a == self.coeffs_view(),
                b == other.coeffs_view(),
                la == self.coeffs.len(),
                lb == other.coeffs.len(),
                len == add_coeffs(a, b).len(),
                i <= len,
                result.len() == i,
                scalars_view(result@) == add_coeffs(a, b).take(i as int),
            decreases len - i,
        {
            let x = if i < la { self.coeffs[i] } else { Scalar::zero() };
            let y = if i < lb { other.coeffs[i] } else { Scalar::zero() };
            let s = x.add(&y);
            proof {
                assert(x@ == coeff_at(a, i as int));
                assert(y@ == coeff_at(b, i as int));
            }
            let ghost before = result@;
            result.push(s);
            proof {
                assert forall|q: int| 0 <= q < i implies #[trigger] scalars_view(result@)[q] == scalars_view(before)[q] by {
                    assert(result@[q] == before[q]);
                }
                assert(scalars_view(result@)[i as int] == s@);
                assert(scalars_view(result@) =~= add_coeffs(a, b).take(i + 1));
            }
            i = i + 1;
        }
        proof {
            assert(add_coeffs(a, b).take(len as int) =~= add_coeffs(a, b));
        }
        UnivariatePolynomial::new(result)
    }
}

impl vstd::std_specs::ops::AddSpecImpl for UnivariatePolynomial {
    /// The sum is described by the `ensures` of `add` alone.
    open spec fn obeys_add_spec() -> bool {
        false
    }

    open spec fn add_req(self, rhs: UnivariatePolynomial) -> bool {
        true
    }

    open spec fn add_spec(self, rhs: UnivariatePolynomial) -> UnivariatePolynomial {
        vstd::pervasive::arbitrary()
    }
}

impl core::ops::Neg for UnivariatePolynomial {
    type Output = UnivariatePolynomial;

    /// Negates every coefficient.
    fn neg(self) -> (r: UnivariatePolynomial)
        ensures
            r.coeffs_view() == trimmed(neg_coeffs(self.coeffs_view())),
    {
        let ghost a = self.coeffs_view();
        let mut result: Vec<Scalar> = Vec::new();
        let mut i: usize = 0;
        while i < self.coeffs.len()
            invariant
                a == self.coeffs_view(),
                i <= self.coeffs.len(),
                result.len() == i,
                scalars_view(result@) == neg_coeffs(a).take(i as int),
            decreases self.coeffs.len() - i,
        {
            let c = self.coeffs[i].neg();
            proof {
                assert(scalars_view(self.coeffs@)[i as int] == self.coeffs@[i as int]@);
            }
            let ghost before = result@;
            result.push(c);
            proof {
                assert forall|q: int| 0 <= q < i implies #[trigger] scalars_view(result@)[q] == scalars_view(before)[q] by {
                    assert(result@[q] == before[q]);
                }
                assert(scalars_view(result@)[i as int] == c@);
                assert(scalars_view(result@) =~= neg_coeffs(a).take(i + 1));
            }
            i = i + 1;
        }
        proof {
            assert(neg_coeffs(a).take(self.coeffs.len() as int) =~= neg_coeffs(a));
        }
        UnivariatePolynomial::new(result)
    }
}

impl vstd::std_specs::ops::NegSpecImpl for UnivariatePolynomial {
    /// The negation is described by the `ensures` of `neg` alone.
    open spec fn obeys_neg_spec() -> bool {
        false
    }

    open spec fn neg_req(self) -> bool {
        true
    }

    open spec fn neg_spec(self) -> UnivariatePolynomial {
        vstd::pervasive::arbitrary()
    }
}

impl core::ops::Sub for UnivariatePolynomial {
    type Output = UnivariatePolynomial;

    /// `p - q = p + (-q)`.
    fn sub(self, other: UnivariatePolynomial) -> (r: UnivariatePolynomial)
        ensures
            r.coeffs_view() == trimmed(sub_coeffs(self.coeffs_view(), other.coeffs_view())),
    {
        let ghost a = self.coeffs_view();
        let ghost b = other.coeffs_view();
        let neg_other = other.neg();
        let r = self + neg_other;
        proof {
            lemma_sub_trimmed(a, b);
        }
        r
    }
}

impl vstd::std_specs::ops::SubSpecImpl for UnivariatePolynomial {
    /// The difference is described by the `ensures` of `sub` alone.
    open spec fn obeys_sub_spec() -> bool {
        false
    }

    open spec fn sub_req(self, rhs: UnivariatePolynomial) -> bool {
        true
    }

    open spec fn sub_spec(self, rhs: UnivariatePolynomial) -> UnivariatePolynomial {
        vstd::pervasive::arbitrary()
    }
}

impl core::ops::Mul for UnivariatePolynomial {
    type Output = UnivariatePolynomial;

    /// Multiplies by convolving the coefficients: the product of `a_i x^i`
    /// and `b_j x^j` lands on `x^(i + j)`.
    fn mul(self, other: UnivariatePolynomial) -> (r: UnivariatePolynomial)
        ensures
            r.coeffs_view() == trimmed(mul_coeffs(self.coeffs_view(), other.coeffs_view())),
    {
        if self.is_zero() || other.is_zero() {
            return UnivariatePolynomial::zero();
        }
        let la = self.coeffs.len();
        let lb = other.coeffs.len();
        let ghost a = self.coeffs_view();
        let ghost b = other.coeffs_view();
        let result_len = la - 1 + lb;
        let zero = Scalar::zero();
        let mut result = vec![zero; result_len];
        proof {
            assert forall|k: int| 0 <= k < result_len implies #[trigger] scalars_view(result@)[k] == row_sum(a, b, 0, k) by {
                assert(result@[k] == zero);
            }
        }
        let mut i: usize = 0;
        while i < la
            invariant
                a == self.coeffs_view(),
                b == other.coeffs_view(),
                la == self.coeffs.len(),
                lb == other.coeffs.len(),
                la > 0,
                lb > 0,
                result_len == la + lb - 1,
                result.len() == result_len,
                i <= la,
                forall|k: int| 0 <= k < result_len ==> #[trigger] scalars_view(result@)[k] == row_sum(a, b, i as nat, k),
            decreases la - i,
        {
            let ai = self.coeffs[i];
            proof {
                assert(scalars_view(self.coeffs@)[i as int] == ai@);
            }
            let mut j: usize = 0;
            while j < lb
                invariant
                    a == self.coeffs_view(),
                    b == other.coeffs_view(),
                    la == self.coeffs.len(),
                    lb == other.coeffs.len(),
                    result_len == la + lb - 1,
                    result.len() == result_len,
                    i < la,
                    ai@ == a[i as int],
                    j <= lb,
                    forall|k: int| 0 <= k < result_len ==> #[trigger] scalars_view(result@)[k] == (
                        if i <= k < i + j {
                            (row_sum(a, b, i as nat, k) + mul_term(a, b, i as int, k)) % fr_modulus()
                        } else {
                            row_sum(a, b, i as nat, k)
                        }),
                decreases lb - j,
            {
                let bj = other.coeffs[j];
                let prod = ai.mul(&bj);
                let cur = result[i + j];
                let v = cur.add(&prod);
                proof {
                    assert(scalars_view(other.coeffs@)[j as int] == bj@);
                    assert(scalars_view(result@)[(i + j) as int] == cur@);
                    assert(mul_term(a, b, i as int, (i + j) as int) == (a[i as int] * b[j as int]) % fr_modulus());
                }
                let ghost before = result@;
                result.set(i + j, v);
                proof {
                    assert forall|k: int| 0 <= k < result_len implies #[trigger] scalars_view(result@)[k] == (
                        if i <= k < i + j + 1 {
                            (row_sum(a, b, i as nat, k) + mul_term(a, b, i as int, k)) % fr_modulus()
                        } else {
                            row_sum(a, b, i as nat, k)
                        }) by {
                        if k != i + j {
                            assert(result@[k] == before[k]);
                            assert(scalars_view(before)[k] == before[k]@);
                        }
                    }
                }
                j = j + 1;
            }
            proof {
                assert forall|k: int| 0 <= k < result_len implies #[trigger] scalars_view(result@)[k]
                    == row_sum(a, b, (i + 1) as nat, k) by {
                    if !(i <= k < i + lb) {
                        assert(mul_term(a, b, i as int, k) == 0);
                        lemma_row_sum_small(a, b, i as nat, k);
                        vstd::arithmetic::div_mod::lemma_small_mod(row_sum(a, b, i as nat, k), fr_modulus());
                    }
                }
            }
            i = i + 1;
        }
        proof {
            assert(scalars_view(result@) =~= mul_coeffs(a, b));
        }
        UnivariatePolynomial::new(result)
    }
}

impl vstd::std_specs::ops::MulSpecImpl for UnivariatePolynomial {
    /// The product is described by the `ensures` of `mul` alone.
    open spec fn obeys_mul_spec() -> bool {
        false
    }

    open spec fn mul_req(self, rhs: UnivariatePolynomial) -> bool {
        self.coeffs.len() + rhs.coeffs.len() <= usize::MAX + 1
    }

    open spec fn mul_spec(self, rhs: UnivariatePolynomial) -> UnivariatePolynomial {
        vstd::pervasive::arbitrary()
    }
}

/// Row sums are reduced below `r`.
proof fn lemma_row_sum_small(a: Seq<nat>, b: Seq<nat>, i: nat, k: int)
    ensures
        row_sum(a, b, i, k) < fr_modulus(),
{
}

/// The constant polynomial one is one everywhere.
proof fn lemma_eval_one(x: nat)
    ensures
        poly_eval(seq![1nat], x) == 1,
{
    assert(seq![1nat].drop_first() =~= Seq::<nat>::empty());
    assert(poly_eval(Seq::<nat>::empty(), x) == 0);
    assert(x * 0 == 0);
    vstd::arithmetic::div_mod::lemma_small_mod(1, fr_modulus());
}

/// Distinct elements below `r` have a nonzero difference modulo `r`.
proof fn lemma_difference_nonzero(a: nat, b: nat)
    requires
        a < fr_modulus(),
        b < fr_modulus(),
        a != b,
    ensures
        (a - b) % (fr_modulus() as int) != 0,
{
    let m = fr_modulus() as int;
    if a > b {
        vstd::arithmetic::div_mod::lemma_small_mod((a - b) as nat, fr_modulus());
    } else {
        vstd::arithmetic::div_mod::lemma_small_mod((m + a - b) as nat, fr_modulus());
        crate::univariate::algebra::lemma_mod_congruent_by(a - b + m, a - b, 1, m);
    }
}

/// `x - x_j` as the coefficients `[-x_j, 1]`: its value at `x` is
/// `(x - x_j) mod r`.
proof fn lemma_linear_factor(fs: Seq<nat>, xj: nat)
    requires
        xj < fr_modulus(),
        fs == seq![((fr_modulus() - xj) % (fr_modulus() as int)) as nat, 1nat],
    ensures
        forall|x: nat| x < fr_modulus() ==> #[trigger] poly_eval(fs, x) == (x - xj) % (fr_modulus() as int),
{
    let m = fr_modulus() as int;
    let c0 = ((fr_modulus() - xj) % m) as nat;
    assert forall|x: nat| x < fr_modulus() implies #[trigger] poly_eval(fs, x) == (x - xj) % m by {
        assert(fs.drop_first() =~= seq![1nat]);
        lemma_eval_one(x);
        assert(x * 1 == x);
        vstd::arithmetic::div_mod::lemma_fundamental_div_mod(m - xj, m);
        vstd::arithmetic::div_mod::lemma_mod_bound(m - xj, m);
        let q = (m - xj) / m;
        crate::univariate::algebra::lemma_mod_congruent_by((c0 + x) as int, x - xj, 1 - q, m);
    }
}

/// Evaluating a sum of polynomials gives the sum of their values.
pub proof fn lemma_add_evaluates(a: Seq<nat>, b: Seq<nat>, x: nat)
    ensures
        poly_eval(trimmed(add_coeffs(a, b)), x) == (poly_eval(a, x) + poly_eval(b, x)) % fr_modulus(),
{
    lemma_poly_eval_trimmed(add_coeffs(a, b), x);
    lemma_poly_eval_add(a, b, x);
}

/// Evaluating a difference of polynomials gives the difference of their
/// values.
pub proof fn lemma_sub_evaluates(a: Seq<nat>, b: Seq<nat>, x: nat)
    ensures
        poly_eval(trimmed(sub_coeffs(a, b)), x) == (poly_eval(a, x) - poly_eval(b, x)) % (fr_modulus() as int),
{
    let m = fr_modulus() as int;
    lemma_poly_eval_trimmed(sub_coeffs(a, b), x);
    crate::univariate::algebra::lemma_poly_eval_sub(a, b, x);
    let ea = poly_eval(a, x) as int;
    let eb = poly_eval(b, x) as int;
    let nb = (m - eb) % m;
    vstd::arithmetic::div_mod::lemma_fundamental_div_mod(m - eb, m);
    let q = (m - eb) / m;
    crate::univariate::algebra::lemma_mod_congruent_by(ea + nb, ea - eb, 1 - q, m);
}

/// Evaluating a product of polynomials gives the product of their values.
pub proof fn lemma_mul_evaluates(a: Seq<nat>, b: Seq<nat>, x: nat)
    ensures
        poly_eval(trimmed(mul_coeffs(a, b)), x) == (poly_eval(a, x) * poly_eval(b, x)) % fr_modulus(),
{
    lemma_poly_eval_trimmed(mul_coeffs(a, b), x);
    lemma_poly_eval_mul(a, b, x);
}

/// A polynomial minus itself is the zero polynomial: no coefficients.
pub proof fn lemma_sub_self(a: Seq<nat>)
    requires
        forall|i: int| 0 <= i < a.len() ==> #[trigger] a[i] < fr_modulus(),
    ensures
        trimmed(sub_coeffs(a, a)) == Seq::<nat>::empty(),
{
    let m = fr_modulus() as int;
    let s = sub_coeffs(a, a);
    assert forall|i: int| 0 <= i < s.len() implies #[trigger] s[i] == 0 by {
        if a[i] == 0 {
            vstd::arithmetic::div_mod::lemma_mod_self_0(m);
            vstd::arithmetic::div_mod::lemma_small_mod(0, fr_modulus());
        } else {
            vstd::arithmetic::div_mod::lemma_small_mod((m - a[i]) as nat, fr_modulus());
            vstd::arithmetic::div_mod::lemma_mod_self_0(m);
        }
    }
    crate::univariate::algebra::lemma_trimmed_zero_extension(Seq::<nat>::empty(), s);
}


/// A product of normalized polynomials (no trailing zero coefficient) is
/// zero exactly when a factor is, and otherwise its degree is the sum of
/// the factors' degrees.
pub proof fn lemma_mul_degree_law(p: UnivariatePolynomial, q: UnivariatePolynomial, m: UnivariatePolynomial)
    requires
        trimmed(p.coeffs_view()) == p.coeffs_view(),
        trimmed(q.coeffs_view()) == q.coeffs_view(),
        m.coeffs_view() == trimmed(mul_coeffs(p.coeffs_view(), q.coeffs_view())),
    ensures
        m.coeffs.len() == 0 <==> (p.coeffs.len() == 0 || q.coeffs.len() == 0),
        (p.coeffs.len() > 0 && q.coeffs.len() > 0) ==> m.coeffs.len() == p.coeffs.len() + q.coeffs.len() - 1,
{
    crate::curve::scalar::lemma_scalars_bound(p.coeffs@);
    crate::curve::scalar::lemma_scalars_bound(q.coeffs@);
    crate::univariate::algebra::lemma_mul_zero_and_degree(p.coeffs_view(), q.coeffs_view());
}

/// The polynomial through given points with distinct `x` is unique: two
/// normalized polynomials with no more coefficients than points that pass
/// through all of them are equal. So `interpolate` returns the only such
/// polynomial.
pub proof fn lemma_interpolant_unique(points: Seq<(Scalar, Scalar)>, p: UnivariatePolynomial, q: UnivariatePolynomial)
    requires
        forall|i: int, j: int| 0 <= i < points.len() && 0 <= j < points.len() && i != j
            ==> (#[trigger] points[i]).0@ != (#[trigger] points[j]).0@,
        trimmed(p.coeffs_view()) == p.coeffs_view(),
        trimmed(q.coeffs_view()) == q.coeffs_view(),
        p.coeffs.len() <= points.len(),
        q.coeffs.len() <= points.len(),
        forall|k: int| 0 <= k < points.len() ==> #[trigger] poly_eval(p.coeffs_view(), points[k].0@) == points[k].1@,
        forall|k: int| 0 <= k < points.len() ==> #[trigger] poly_eval(q.coeffs_view(), points[k].0@) == points[k].1@,
    ensures
        p.coeffs_view() == q.coeffs_view(),
{
    let xs = points.map_values(|pt: (Scalar, Scalar)| pt.0@);
    crate::curve::scalar::lemma_scalars_bound(p.coeffs@);
    crate::curve::scalar::lemma_scalars_bound(q.coeffs@);
    assert forall|i: int| 0 <= i < xs.len() implies #[trigger] xs[i] < fr_modulus() by {
        crate::curve::scalar::lemma_canonical_bound(points[i].0);
    }
    assert forall|i: int, j: int| 0 <= i < xs.len() && 0 <= j < xs.len() && i != j implies #[trigger] xs[i] != #[trigger] xs[j] by {
        assert(points[i].0@ != points[j].0@);
    }
    assert forall|i: int| 0 <= i < xs.len() implies #[trigger] poly_eval(p.coeffs_view(), xs[i]) == poly_eval(q.coeffs_view(), xs[i]) by {
        assert(poly_eval(p.coeffs_view(), points[i].0@) == points[i].1@);
        assert(poly_eval(q.coeffs_view(), points[i].0@) == points[i].1@);
    }
    crate::univariate::roots::lemma_agreeing_polynomials_equal(p.coeffs_view(), q.coeffs_view(), xs);
}

} // verus!
