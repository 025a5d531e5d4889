//! Arithmetic in the prime field F_p with the modulus held next to the value.

use vstd::prelude::*;
use vstd::arithmetic::power::*;
use vstd::arithmetic::div_mod::*;
use vstd::arithmetic::mul::*;
use vstd::arithmetic::power2::*;
use crate::ecc::modular::{gcd, euclid_inv, lemma_euclid_init, lemma_euclid_step_bounds, lemma_euclid_step, lemma_euclid_final, lemma_gcd_swap, is_inverse, lemma_inverse_exists, lemma_inverse_unique, lemma_square_and_multiply_step, lemma_pow2_zero, lemma_split_step};

verus! {

/// An element `num` of the field of integers modulo `prime`.
#[derive(Debug, Clone, Copy, PartialEq, Eq, Structural)]
pub struct FieldElement {
    pub num: u128,
    pub prime: u128,
}

/// Products of two reduced residues modulo `prime` fit in a `u128`.
pub open spec fn small_modulus(prime: u128) -> bool {
    prime > 0 && (prime - 1) * (prime - 1) <= u128::MAX
}

impl FieldElement {
    /// The element is reduced: `0 <= num < prime`.
    pub open spec fn wf(self) -> bool {
        self.num < self.prime
    }

    /// The result of `+`: the sum of the numbers reduced modulo `prime`.
    pub open spec fn fe_add(self, rhs: FieldElement) -> FieldElement {
        FieldElement { num: ((self.num + rhs.num) % (self.prime as int)) as u128, prime: self.prime }
    }

    /// The result of `-`: `num - rhs.num`, or `prime - (rhs.num - num)` when that is negative.
    pub open spec fn fe_sub(self, rhs: FieldElement) -> FieldElement {
        FieldElement {
            num: if self.num >= rhs.num {
                (self.num - rhs.num) as u128
            } else {
                (self.prime - (rhs.num - self.num)) as u128
            },
            prime: self.prime,
        }
    }

    /// The result of `*`: the product of the numbers reduced modulo `prime`.
    pub open spec fn fe_mul(self, rhs: FieldElement) -> FieldElement {
        FieldElement { num: ((self.num * rhs.num) % (self.prime as int)) as u128, prime: self.prime }
    }

    /// The result of `pow`: `num^exponent mod prime`, and `1` for the exponent `0`.
    pub open spec fn fe_pow(self, exponent: nat) -> FieldElement {
        FieldElement {
            num: if exponent == 0 { 1 } else { (pow(self.num as int, exponent) % (self.prime as int)) as u128 },
            prime: self.prime,
        }
    }

    /// The inverse of `num` among the residues modulo `prime`.
    pub open spec fn fe_inv(self) -> FieldElement {
        FieldElement {
            num: choose|r: u128| #[trigger] is_inverse(self.num as int, r as int, self.prime as int),
            prime: self.prime,
        }
    }

    /// `inv` is defined: the modulus fits in an `i128` and `num` is coprime to it.
    pub open spec fn inv_req(self) -> bool {
        &&& self.wf()
        &&& self.prime <= i128::MAX
        &&& gcd(self.num as nat, self.prime as nat) == 1
    }

    /// Creates the element `num` of `F_prime`; `num` must already be reduced.
    pub fn new(num: u128, prime: u128) -> (r: Self)
        requires
            num < prime,
        ensures
            r.num == num,
            r.prime == prime,
    {
        FieldElement { num, prime }
    }

    /// Modular exponentiation using the square-and-multiply algorithm.
    pub fn pow(&self, exponent: u128) -> (r: Self)
        requires
            self.wf(),
            small_modulus(self.prime),
        ensures
            r == self.fe_pow(exponent as nat),
            exponent > 0 ==> r.wf(),
    {
        let p = self.prime;
        let mut n = exponent;
        let mut base = self.num;
        let mut result = 1u128;
        let ghost mut k: nat = 0;
        let ghost mut low: nat = 0;
        proof {
            lemma_pow0(self.num as int);
            lemma_pow2_zero();
        }
        while n > 0
            invariant
                self.wf(),
                small_modulus(p),
                p == self.prime,
                base < p,
                exponent == n * pow2(k) + low,
                low < pow2(k),
                low > 0 ==> result < p,
                low == 0 ==> result == 1,
                (result * pow(base as int, n as nat)) % (p as int) == pow(self.num as int, exponent as nat) % (p as int),
            decreases n,
        {
            let ghost old_n = n;
            let ghost old_base = base;
            let ghost old_result = result;
            proof {
                lemma_mul_upper_bound(base as int, (p - 1) as int, base as int, (p - 1) as int);
                if result < p {
                    lemma_mul_upper_bound(result as int, (p - 1) as int, base as int, (p - 1) as int);
                }
            }
            if n % 2 == 1 {
                result = (result * base) % p;
            }
            base = (base * base) % p;
            n = n / 2;
            proof {
                lemma_square_and_multiply_step(old_result as int, old_base as int, old_n as nat, p as int);
                let low_before = low;
                low = low + ((old_n % 2) as nat) * pow2(k);
                lemma_mul_basics(pow2(k) as int);
                lemma_pow2_pos(k);
                lemma_split_step(exponent as nat, old_n as nat, k, low_before, low);
                k = k + 1;
            }
        }
        proof {
            if exponent > 0 {
                assert(n == 0);
                assert(0 * pow2(k) == 0);
                assert(low == exponent);
                assert(result < p);
                lemma_pow0(base as int);
                assert(result * pow(base as int, 0) == result);
                lemma_small_mod(result as nat, p as nat);
                assert(result == pow(self.num as int, exponent as nat) % (p as int));
            } else {
                assert(exponent == 0);
            }
        }
        FieldElement { num: result, prime: p }
    }

    /// Modular inverse using the extended Euclidean algorithm.
    pub fn inv(&self) -> (r: Self)
        requires
            self.inv_req(),
        ensures
            r.prime == self.prime,
            r.wf(),
            (self.num * r.num) % (self.prime as int) == 1int % (self.prime as int),
            r == self.fe_inv(),
    {
        let m = self.prime;
        let a = self.num;
        let mut t = 0i128;
        let mut newt = 1i128;
        let mut r = m as i128;
        let mut newr = a as i128;
        let ghost mut s: int = 1;
        let ghost mut news: int = 0;
        proof {
            lemma_euclid_init(m as int, a as int);
        }

        while newr != 0
            invariant
                euclid_inv(m as int, a as int, t as int, newt as int, r as int, newr as int, s, news),
                m <= i128::MAX,
                a < m,
            decreases newr,
        {
            let ghost (t0, newt0, r0, newr0) = (t as int, newt as int, r as int, newr as int);
            proof {
                lemma_euclid_step_bounds(m as int, a as int, t0, newt0, r0, newr0, s, news);
            }
            let quotient = r / newr;

            let temp_t = t - quotient * newt;
            t = newt;
            newt = temp_t;

            let temp_r = r - quotient * newr;
            r = newr;
            newr = temp_r;
            proof {
                let q = r0 / newr0;
                lemma_euclid_step(m as int, a as int, t0, newt0, r0, newr0, s, news);
                let s2 = s - q * news;
                s = news;
                news = s2;
            }
        }
        proof {
            lemma_gcd_swap(a as nat, m as nat);
            lemma_euclid_final(m as int, a as int, t as int, r as int, s);
        }
        if t < 0 {
            t += m as i128;
        }
        let res = FieldElement { num: t as u128, prime: m };
        proof {
            let c = self.fe_inv().num;
            assert(is_inverse(a as int, res.num as int, m as int));
            assert(is_inverse(a as int, c as int, m as int));
            lemma_inverse_unique(a as int, c as int, res.num as int, m as int);
        }
        res
    }
}

/// Two reduced elements of a field with a small modulus can be added and
/// multiplied without leaving a `u128`.
pub proof fn lemma_ops_fit(x: FieldElement, y: FieldElement)
    requires
        x.wf(),
        y.wf(),
        x.prime == y.prime,
        small_modulus(x.prime),
    ensures
        x.num * y.num <= u128::MAX,
        x.num + y.num <= u128::MAX,
        x.prime <= i128::MAX,
{
    lemma_mul_upper_bound(x.num as int, (x.prime - 1) as int, y.num as int, (x.prime - 1) as int);
    if x.prime > 0x1_0000_0000_0000_0000 {
        assert((x.prime - 1) * (x.prime - 1) > u128::MAX) by (nonlinear_arith)
            requires
                x.prime > 0x1_0000_0000_0000_0000,
        {
        }
    }
}

/// Sums, differences and products of reduced elements of one field are
/// reduced, and computing them stays within a `u128`.
pub proof fn lemma_fe_closed(x: FieldElement, y: FieldElement)
    requires
        x.wf(),
        y.wf(),
        x.prime == y.prime,
        small_modulus(x.prime),
    ensures
        x.num * y.num <= u128::MAX,
        x.num + y.num <= u128::MAX,
        x.prime <= i128::MAX,
        x.fe_add(y).wf(),
        x.fe_sub(y).wf(),
        x.fe_mul(y).wf(),
        x.fe_add(y).prime == x.prime,
        x.fe_sub(y).prime == x.prime,
        x.fe_mul(y).prime == x.prime,
        x.fe_sub(y).num as int == (x.num - y.num) % (x.prime as int),
{
    lemma_ops_fit(x, y);
    lemma_mod_bound(x.num + y.num, x.prime as int);
    lemma_mod_bound(x.num * y.num, x.prime as int);
    let d = x.num - y.num;
    if d >= 0 {
        lemma_small_mod(d as nat, x.prime as nat);
    } else {
        lemma_mod_add_multiples_vanish(d, x.prime as int);
        lemma_small_mod((d + x.prime) as nat, x.prime as nat);
    }
}

/// Subtraction undoes addition and addition undoes subtraction:
/// `(a + b) - b == a` and `(a - b) + b == a` for reduced elements of one field.
pub proof fn lemma_sub_undoes_add(a: FieldElement, b: FieldElement)
    requires
        a.wf(),
        b.wf(),
        a.prime == b.prime,
    ensures
        a.fe_add(b).fe_sub(b) == a,
        a.fe_sub(b).fe_add(b) == a,
{
    let p = a.prime as int;
    let s = a.num + b.num;
    if s < p {
        lemma_small_mod(s as nat, p as nat);
    } else {
        lemma_mod_add_multiples_vanish(s - p, p);
        lemma_small_mod((s - p) as nat, p as nat);
        assert(s % p == s - p);
    }
    if a.num >= b.num {
        lemma_small_mod(a.num as nat, p as nat);
        assert((a.num - b.num) + b.num == a.num);
    } else {
        let t = p - (b.num - a.num);
        assert(t + b.num == a.num + p);
        lemma_mod_add_multiples_vanish(a.num as int, p);
        lemma_small_mod(a.num as nat, p as nat);
    }
}

/// The inverse spec names a reduced element whenever the inverse exists.
pub proof fn lemma_inv_wf(x: FieldElement)
    requires
        x.inv_req(),
    ensures
        x.fe_inv().wf(),
        x.fe_inv().prime == x.prime,
        (x.num * x.fe_inv().num) % (x.prime as int) == 1int % (x.prime as int),
{
    lemma_inverse_exists(x.num as int, x.prime as int);
}

/// A positive power of a reduced element is reduced.
pub proof fn lemma_pow_wf(x: FieldElement, e: nat)
    requires
        x.wf(),
        e > 0,
    ensures
        x.fe_pow(e).wf(),
        x.fe_pow(e).prime == x.prime,
{
    lemma_mod_bound(pow(x.num as int, e), x.prime as int);
}

impl core::ops::Add for FieldElement {
    type Output = FieldElement;

    fn add(self, other: FieldElement) -> (r: FieldElement)
        ensures
            r == self.fe_add(other),
    {
        let num = (self.num + other.num) % self.prime;
        FieldElement { num, prime: self.prime }
    }
}

impl vstd::std_specs::ops::AddSpecImpl for FieldElement {
    open spec fn obeys_add_spec() -> bool {
        true
    }

    open spec fn add_req(self, rhs: FieldElement) -> bool {
        &&& self.prime == rhs.prime
        &&& self.prime > 0
        &&& self.num + rhs.num <= u128::MAX
    }

    open spec fn add_spec(self, rhs: FieldElement) -> FieldElement {
        self.fe_add(rhs)
    }
}

impl core::ops::Sub for FieldElement {
    type Output = FieldElement;

    fn sub(self, other: FieldElement) -> (r: FieldElement)
        ensures
            r == self.fe_sub(other),
    {
        let num = if self.num >= other.num {
            self.num - other.num
        } else {
            self.prime - (other.num - self.num)
        };
        FieldElement { num, prime: self.prime }
    }
}

impl vstd::std_specs::ops::SubSpecImpl for FieldElement {
    open spec fn obeys_sub_spec() -> bool {
        true
    }

    open spec fn sub_req(self, rhs: FieldElement) -> bool {
        &&& self.prime == rhs.prime
        &&& (self.num >= rhs.num || rhs.num - self.num <= self.prime)
    }

    open spec fn sub_spec(self, rhs: FieldElement) -> FieldElement {
        self.fe_sub(rhs)
    }
}

impl core::ops::Mul for FieldElement {
    type Output = FieldElement;

    fn mul(self, other: FieldElement) -> (r: FieldElement)
        ensures
            r == self.fe_mul(other),
    {
        let num = (self.num * other.num) % self.prime;
        FieldElement { num, prime: self.prime }
    }
}

impl vstd::std_specs::ops::MulSpecImpl for FieldElement {
    open spec fn obeys_mul_spec() -> bool {
        true
    }

    open spec fn mul_req(self, rhs: FieldElement) -> bool {
        &&& self.prime == rhs.prime
        &&& self.prime > 0
        &&& self.num * rhs.num <= u128::MAX
    }

    open spec fn mul_spec(self, rhs: FieldElement) -> FieldElement {
        self.fe_mul(rhs)
    }
}

} // verus!
