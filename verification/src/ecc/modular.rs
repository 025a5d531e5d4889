//! Number theory behind the field and signature arithmetic: greatest common
//! divisors, the extended Euclidean algorithm and square-and-multiply.

use vstd::prelude::*;
use vstd::arithmetic::power::*;
use vstd::arithmetic::power2::*;
use vstd::arithmetic::div_mod::*;
use vstd::arithmetic::mul::*;

verus! {

/// Greatest common divisor, by Euclid's recursion `gcd(a, b) = gcd(b, a mod b)`.
pub open spec fn gcd(a: nat, b: nat) -> nat
    decreases b,
{
    if b == 0 {
        a
    } else {
        gcd(b, a % b)
    }
}

pub open spec fn abs(x: int) -> int {
    if x < 0 { -x } else { x }
}

/// The state of the extended Euclidean algorithm run on the modulus `m` and
/// the number `a`: remainders `r > newr`, Bezout coefficients `(s, t)` and
/// `(news, newt)`, and the bound that keeps every coefficient within `m`.
pub open spec fn euclid_inv(m: int, a: int, t: int, newt: int, r: int, newr: int, s: int, news: int) -> bool {
    &&& 0 <= newr < r <= m
    &&& t * newt <= 0
    &&& abs(newt) * r + abs(t) * newr == m
    &&& 2 * abs(t) <= m
    &&& s * m + t * a == r
    &&& news * m + newt * a == newr
    &&& gcd(r as nat, newr as nat) == gcd(m as nat, a as nat)
}

pub proof fn lemma_euclid_init(m: int, a: int)
    requires
        0 <= a < m,
    ensures
        euclid_inv(m, a, 0, 1, m, a, 1, 0),
{
}

/// The quotient and the new coefficients of one step stay within `m`.
pub proof fn lemma_euclid_step_bounds(m: int, a: int, t: int, newt: int, r: int, newr: int, s: int, news: int)
    requires
        euclid_inv(m, a, t, newt, r, newr, s, news),
        newr != 0,
    ensures
        0 <= r / newr <= r,
        (r / newr) * newr <= r,
        abs((r / newr) * newt) <= m,
        abs(t - (r / newr) * newt) <= m,
        abs(newt) <= m,
        abs(t) <= m,
{
    let q = r / newr;
    lemma_fundamental_div_mod(r, newr);
    lemma_div_pos_is_pos(r, newr);
    lemma_div_is_ordered_by_denominator(r, 1, newr);
    assert(r % newr >= 0) by { lemma_mod_bound(r, newr); }
    assert(q * newr <= r) by { lemma_mul_is_commutative(q, newr); }
    assert(abs(newt) * r <= m) by { lemma_mul_nonnegative(abs(t), newr); }
    assert(abs(newt) <= m) by {
        lemma_mul_inequality(1, r, abs(newt));
        lemma_mul_is_commutative(abs(newt), r);
    }
    // |t - q newt| = |t| + q |newt| because t and newt have opposite signs
    lemma_abs_sub_opposite(t, newt, q);
    // |t| newr + q |newt| newr <= |t| newr + |newt| r = m, and newr >= 1
    assert(q * abs(newt) * newr <= abs(newt) * r) by {
        lemma_mul_is_associative(q, abs(newt), newr);
        lemma_mul_is_commutative(abs(newt), newr);
        lemma_mul_is_associative(abs(newt), newr, q);
        lemma_mul_is_commutative(newr, q);
        lemma_mul_inequality(q * newr, r, abs(newt));
        lemma_mul_is_commutative(q * newr, abs(newt));
        lemma_mul_is_commutative(r, abs(newt));
    }
    assert((abs(t) + q * abs(newt)) * newr <= m) by {
        lemma_mul_is_distributive_add_other_way(newr, abs(t), q * abs(newt));
    }
    assert(abs(t) + q * abs(newt) <= m) by {
        lemma_mul_inequality(1, newr, abs(t) + q * abs(newt));
        lemma_mul_is_commutative(abs(t) + q * abs(newt), newr);
        lemma_mul_nonnegative(q, abs(newt));
    }
    lemma_mul_nonnegative(q, abs(newt));
}

/// One step of the extended Euclidean algorithm keeps the state invariant.
pub proof fn lemma_euclid_step(m: int, a: int, t: int, newt: int, r: int, newr: int, s: int, news: int)
    requires
        euclid_inv(m, a, t, newt, r, newr, s, news),
        newr != 0,
    ensures
        euclid_inv(
            m,
            a,
            newt,
            t - (r / newr) * newt,
            newr,
            r - (r / newr) * newr,
            news,
            s - (r / newr) * news,
        ),
{
    let q = r / newr;
    lemma_euclid_step_bounds(m, a, t, newt, r, newr, s, news);
    lemma_fundamental_div_mod(r, newr);
    lemma_mod_bound(r, newr);
    assert(r - q * newr == r % newr) by { lemma_mul_is_commutative(q, newr); }
    let t2 = t - q * newt;
    let r2 = r - q * newr;
    // signs
    assert(newt * t2 <= 0) by (nonlinear_arith)
        requires
            t * newt <= 0,
            q >= 0,
            t2 == t - q * newt,
    {
    }
    lemma_abs_sub_opposite(t, newt, q);
    assert(abs(t2) * newr + abs(newt) * r2 == m) by {
        lemma_mul_is_distributive_add_other_way(newr, abs(t), q * abs(newt));
        lemma_mul_is_distributive_sub(abs(newt), r, q * newr);
        lemma_mul_is_associative(q, abs(newt), newr);
        lemma_mul_is_associative(abs(newt), q, newr);
        lemma_mul_is_commutative(q, abs(newt));
        lemma_mul_is_commutative(abs(t), newr);
    }
    // the coefficient bound: |newt| r <= m and r >= 2
    assert(2 * abs(newt) <= m) by {
        lemma_mul_nonnegative(abs(t), newr);
        lemma_mul_inequality(2, r, abs(newt));
        lemma_mul_is_commutative(abs(newt), r);
    }
    // Bezout relations
    assert((s - q * news) * m + t2 * a == r2) by {
        lemma_mul_is_distributive_sub_other_way(m, s, q * news);
        lemma_mul_is_distributive_sub_other_way(a, t, q * newt);
        lemma_mul_is_associative(q, news, m);
        lemma_mul_is_associative(q, newt, a);
        lemma_mul_is_distributive_add(q, news * m, newt * a);
    }
    // gcd
    assert(gcd(newr as nat, r2 as nat) == gcd(r as nat, newr as nat));
}

/// When the remainder reaches zero with the modulus coprime to `a`, the last
/// coefficient `t` lies in `(-m, m)` and `a t = 1 (mod m)`.
pub proof fn lemma_euclid_final(m: int, a: int, t: int, r: int, s: int)
    requires
        exists|newt: int, news: int| euclid_inv(m, a, t, newt, r, 0, s, news),
        gcd(m as nat, a as nat) == 1,
    ensures
        r == 1,
        -m < t < m,
        t >= 0 ==> t < m && (a * t) % m == 1int % m,
        t < 0 ==> 0 <= t + m < m && (a * (t + m)) % m == 1int % m,
{
    let (newt, news) = choose|newt: int, news: int| euclid_inv(m, a, t, newt, r, 0, s, news);
    assert(gcd(r as nat, 0) == r);
    assert(s * m + t * a == 1);
    assert(m > 0);
    assert(a * t == (-s) * m + 1) by (nonlinear_arith)
        requires
            s * m + t * a == 1,
    {
    }
    assert((a * t) % m == 1int % m) by {
        lemma_mod_sum_factor(-s, 1, m);
    }
    if t < 0 {
        assert((a * (t + m)) % m == 1int % m) by {
            lemma_mul_is_distributive_add(a, t, m);
            lemma_mod_sum_factor(a, a * t, m);
        }
    }
}

/// For coefficients of opposite signs, `|t - q newt| = |t| + q |newt|`.
pub proof fn lemma_abs_sub_opposite(t: int, newt: int, q: int)
    requires
        t * newt <= 0,
        q >= 0,
    ensures
        abs(t - q * newt) == abs(t) + q * abs(newt),
        abs(q * newt) == q * abs(newt),
        q * abs(newt) >= 0,
{
    if newt > 0 {
        assert(t <= 0) by (nonlinear_arith)
            requires
                t * newt <= 0,
                newt > 0,
        {
        }
        assert(q * newt >= 0) by (nonlinear_arith)
            requires
                q >= 0,
                newt > 0,
        {
        }
    } else if newt < 0 {
        assert(t >= 0) by (nonlinear_arith)
            requires
                t * newt <= 0,
                newt < 0,
        {
        }
        assert(q * newt <= 0 && q * (-newt) == -(q * newt)) by (nonlinear_arith)
            requires
                q >= 0,
                newt < 0,
        {
        }
    } else {
        assert(q * newt == 0) by (nonlinear_arith)
            requires
                newt == 0,
        {
        }
    }
}

/// `gcd(a, m) = gcd(m, a)` for `a < m`.
pub proof fn lemma_gcd_swap(a: nat, m: nat)
    requires
        a < m,
    ensures
        gcd(a, m) == gcd(m, a),
{
    lemma_small_mod(a, m);
}

/// `r` is the inverse of `a` among the residues modulo `p`.
pub open spec fn is_inverse(a: int, r: int, p: int) -> bool {
    0 <= r < p && (a * r) % p == 1int % p
}

/// A number has at most one inverse among the residues modulo `p`.
pub proof fn lemma_inverse_unique(a: int, r1: int, r2: int, p: int)
    requires
        p > 0,
        0 <= r1 < p,
        0 <= r2 < p,
        (a * r1) % p == 1int % p,
        (a * r2) % p == 1int % p,
    ensures
        r1 == r2,
{
    if p > 1 {
        lemma_small_mod(1, p as nat);
        lemma_mul_mod_noop_right(r1, a * r2, p);
        lemma_mul_mod_noop_right(r2, a * r1, p);
        assert(r1 * (a * r2) == r2 * (a * r1)) by (nonlinear_arith);
        lemma_small_mod(r1 as nat, p as nat);
        lemma_small_mod(r2 as nat, p as nat);
    }
}

/// Running the extended Euclidean algorithm to its end keeps its invariant.
pub proof fn lemma_euclid_run(m: int, a: int, t: int, newt: int, r: int, newr: int, s: int, news: int) -> (res: (int, int, int, int, int))
    requires
        euclid_inv(m, a, t, newt, r, newr, s, news),
    ensures
        euclid_inv(m, a, res.0, res.1, res.2, 0, res.3, res.4),
    decreases newr,
{
    if newr == 0 {
        (t, newt, r, s, news)
    } else {
        let q = r / newr;
        lemma_euclid_step(m, a, t, newt, r, newr, s, news);
        lemma_fundamental_div_mod(r, newr);
        lemma_mod_bound(r, newr);
        lemma_mul_is_commutative(q, newr);
        lemma_euclid_run(m, a, newt, t - q * newt, newr, r - q * newr, news, s - q * news)
    }
}

/// A residue coprime to the modulus has an inverse.
pub proof fn lemma_inverse_exists(a: int, m: int)
    requires
        0 <= a < m,
        m <= u128::MAX,
        gcd(a as nat, m as nat) == 1,
    ensures
        exists|r: u128| #[trigger] is_inverse(a, r as int, m),
{
    lemma_gcd_swap(a as nat, m as nat);
    lemma_euclid_init(m, a);
    let res = lemma_euclid_run(m, a, 0, 1, m, a, 1, 0);
    lemma_euclid_final(m, a, res.0, res.2, res.3);
    let v = if res.0 < 0 { res.0 + m } else { res.0 };
    assert(is_inverse(a, (v as u128) as int, m));
}

/// Modulo a prime, every non-zero residue has an inverse.
pub proof fn lemma_prime_inverse(x: int, m: int) -> (t: int)
    requires
        is_prime(m as nat),
        0 < x < m,
    ensures
        0 <= t < m,
        (x * t) % m == 1,
{
    lemma_gcd_prime(x as nat, m as nat);
    lemma_euclid_init(m, x);
    let res = lemma_euclid_run(m, x, 0, 1, m, x, 1, 0);
    lemma_euclid_final(m, x, res.0, res.2, res.3);
    lemma_small_mod(1, m as nat);
    if res.0 < 0 { res.0 + m } else { res.0 }
}

/// Modulo a prime, a product of two non-zero residues is non-zero.
pub proof fn lemma_no_zero_divisors(x: int, y: int, m: int)
    requires
        is_prime(m as nat),
        0 < x < m,
        0 < y < m,
    ensures
        (x * y) % m != 0,
{
    let t = lemma_prime_inverse(x, m);
    if (x * y) % m == 0 {
        lemma_mul_mod_noop_left(x * y, t, m);
        lemma_mul_mod_noop_left(x * t, y, m);
        assert((x * y) * t == (x * t) * y) by (nonlinear_arith);
        assert(0int * t == 0);
        lemma_small_mod(0, m as nat);
        assert(((x * t) % m) * y == y);
        lemma_small_mod(y as nat, m as nat);
        assert(false);
    }
}

/// A non-zero number strictly between `-m` and `m` is not a multiple of `m`.
pub proof fn lemma_mod_is_zero_small(d: int, m: int)
    requires
        m > 0,
        -m < d < m,
        d % m == 0,
    ensures
        d == 0,
{
    lemma_fundamental_div_mod(d, m);
    let q = d / m;
    if q >= 1 {
        assert(m * q >= m) by (nonlinear_arith)
            requires
                q >= 1,
                m > 0,
        {
        }
    } else if q <= -1 {
        assert(m * q <= -m) by (nonlinear_arith)
            requires
                q <= -1,
                m > 0,
        {
        }
    } else {
        assert(m * q == 0) by (nonlinear_arith)
            requires
                q == 0,
        {
        }
    }
}

/// `(k m + b) mod m = b mod m`.
pub proof fn lemma_mod_sum_factor(k: int, b: int, m: int)
    requires
        m > 0,
    ensures
        (k * m + b) % m == b % m,
{
    lemma_add_mod_noop(k * m, b, m);
    lemma_mod_multiples_basic(k, m);
    lemma_mod_twice(b, m);
}

/// `gcd(a, m) = 1` for `0 < a < m` with `m` prime.
pub proof fn lemma_gcd_prime(a: nat, m: nat)
    requires
        is_prime(m),
        0 < a < m,
    ensures
        gcd(m, a) == 1,
{
    lemma_gcd_divides(m, a);
    lemma_gcd_pos(m, a);
    let g = gcd(m, a);
    if g != 1 {
        lemma_divisor_le(a, g);
        assert(m % g == 0);
        assert(false);
    }
}

/// A prime number: greater than one, with no divisor strictly between one and itself.
pub open spec fn is_prime(m: nat) -> bool {
    &&& m > 1
    &&& forall|d: nat| 1 < d < m ==> #[trigger] (m % d) != 0
}

pub proof fn lemma_gcd_pos(a: nat, b: nat)
    requires
        a > 0 || b > 0,
    ensures
        gcd(a, b) > 0,
    decreases b,
{
    if b > 0 {
        lemma_gcd_pos(b, a % b);
    }
}

/// The gcd divides both of its arguments.
pub proof fn lemma_gcd_divides(a: nat, b: nat)
    requires
        a > 0 || b > 0,
    ensures
        a % gcd(a, b) == 0,
        b % gcd(a, b) == 0,
    decreases b,
{
    lemma_gcd_pos(a, b);
    if b == 0 {
        assert(gcd(a, b) == a);
        lemma_mod_self_0(a as int);
        lemma_small_mod(0, a);
    } else {
        let g = gcd(a, b);
        let r = a % b;
        assert(g == gcd(b, r));
        lemma_gcd_divides(b, r);
        let q = a / b;
        lemma_fundamental_div_mod(a as int, b as int);
        assert(a == b * q + r);
        lemma_mod_multiples_basic_nat(b, g, q);
        lemma_add_mod_noop((b * q) as int, r as int, g as int);
        lemma_small_mod(0, g);
        assert((a as int) % (g as int) == 0);
    }
}


/// If `g` divides `b` then it divides `b q`.
proof fn lemma_mod_multiples_basic_nat(b: nat, g: nat, q: nat)
    requires
        g > 0,
        b % g == 0,
    ensures
        ((b * q) as int) % (g as int) == 0,
{
    lemma_mul_mod_noop_left(b as int, q as int, g as int);
    lemma_small_mod(0, g);
}

/// A positive multiple of `g` is at least `g`.
pub(crate) proof fn lemma_divisor_le(a: nat, g: nat)
    requires
        g > 0,
        a > 0,
        a % g == 0,
    ensures
        g <= a,
{
    lemma_fundamental_div_mod(a as int, g as int);
    let q = a as int / g as int;
    if q <= 0 {
        assert(g * q <= 0) by (nonlinear_arith)
            requires
                g > 0,
                q <= 0,
        {
        }
        assert(false);
    }
    assert(g <= a) by (nonlinear_arith)
        requires
            a == g * q,
            q >= 1,
            g > 0,
    {
    }
}

/// One round of square-and-multiply keeps `result * base^n (mod p)` unchanged.
pub proof fn lemma_square_and_multiply_step(result: int, base: int, n: nat, p: int)
    requires
        p > 0,
        n > 0,
    ensures
        ({
            let result2 = if n % 2 == 1 { (result * base) % p } else { result };
            let base2 = (base * base) % p;
            (result2 * pow(base2, n / 2)) % p == (result * pow(base, n)) % p
        }),
{
    let h = n / 2;
    let b = n % 2;
    let sq = base * base;
    let base2 = sq % p;
    lemma_fundamental_div_mod(n as int, 2);
    assert(pow(base, 2) == sq) by {
        reveal_with_fuel(pow, 3);
    }
    assert(pow(base, n) == pow(sq, h) * pow(base, b)) by {
        lemma_pow_adds(base, 2 * h, b);
        lemma_pow_multiplies(base, 2, h);
        assert(2 * h + b == n);
    }
    assert(pow(base2, h) % p == pow(sq, h) % p) by {
        lemma_pow_mod_noop(sq, h, p);
    }
    let ph = pow(sq, h);
    let ph2 = pow(base2, h);
    if b == 1 {
        assert(pow(base, b) == base) by {
            reveal_with_fuel(pow, 2);
        }
        let result2 = (result * base) % p;
        // (result2 * ph2) % p == ((result * base) * ph) % p
        lemma_mul_mod_noop(result * base, ph2, p);
        lemma_mod_twice(result * base, p);
        lemma_mul_mod_noop(result * base, ph, p);
        lemma_mul_mod_noop(result2, ph2, p);
        assert((result * base) * ph == result * (ph * base)) by (nonlinear_arith);
    } else {
        assert(pow(base, b) == 1) by {
            reveal(pow);
        }
        lemma_mul_mod_noop(result, ph2, p);
        lemma_mul_mod_noop(result, ph, p);
    }
}

pub proof fn lemma_pow2_zero()
    ensures
        pow2(0) == 1,
{
    reveal(pow);
}

/// Splitting an exponent into its processed low bits and the bits still to come.
pub proof fn lemma_split_step(e: nat, n: nat, k: nat, low_before: nat, low: nat)
    requires
        e == n * pow2(k) + low_before,
        low_before < pow2(k),
        low == low_before + (n % 2) * pow2(k),
    ensures
        e == (n / 2) * pow2(k + 1) + low,
        low < pow2(k + 1),
{
    lemma_pow2_unfold(k + 1);
    lemma_fundamental_div_mod(n as int, 2);
    lemma_mul_is_distributive_add_other_way(pow2(k) as int, 2 * (n as int / 2), n as int % 2);
    lemma_mul_is_associative(n as int / 2, 2, pow2(k) as int);
    lemma_mul_is_commutative(n as int / 2, 2);
    lemma_mul_is_associative(2, n as int / 2, pow2(k) as int);
    lemma_mul_is_commutative(n as int / 2, pow2(k) as int);
    lemma_mul_is_associative(n as int / 2, pow2(k) as int, 2);
    lemma_mul_is_commutative(n as int / 2 * pow2(k) as int, 2);
    assert((n % 2) * pow2(k) <= pow2(k)) by {
        lemma_mul_inequality((n % 2) as int, 1, pow2(k) as int);
    }
}

} // verus!
