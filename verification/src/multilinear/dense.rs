//! Dense multilinear polynomials: the `2^n` evaluations of an `n`-variate
//! multilinear polynomial over the boolean hypercube `{0,1}^n`.

use vstd::prelude::*;
use vstd::arithmetic::power2::{pow2, lemma_pow2_unfold, lemma_pow2_pos};
use crate::curve::scalar::{Scalar, fr_modulus, sum_mod, scalars_view};
use crate::multilinear::error::MLEError;
use crate::multilinear::utils::{two_pow, le_index_from_bits, bits_value, lemma_bits_value_bound};
use crate::ecc::closure::{cong, lemma_cong_of_mod, lemma_cong_reduced, lemma_cong_add, lemma_cong_mul, lemma_cong_trans, lemma_cong_refl, lemma_cong_sym};

verus! {

/// `n` is `2^k` for some `k`.
pub open spec fn is_power_of_two(n: nat) -> bool {
    exists|k: nat| #[trigger] pow2(k) == n
}

/// Interpolating between the values `lo` (at 0) and `hi` (at 1) at `r`:
/// `lo + r (hi - lo) mod r`.
pub open spec fn fold_entry(lo: nat, hi: nat, r: nat) -> nat {
    ((lo + r * (hi - lo)) % (fr_modulus() as int)) as nat
}

/// The entries of a table at even indices, where variable 0 is 0.
pub open spec fn evens(t: Seq<nat>) -> Seq<nat> {
    Seq::new(t.len() / 2, |i: int| t[2 * i])
}

/// The entries of a table at odd indices, where variable 0 is 1.
pub open spec fn odds(t: Seq<nat>) -> Seq<nat> {
    Seq::new(t.len() / 2, |i: int| t[2 * i + 1])
}

/// Fixes variable 0, the least significant index bit, of a table to `r`:
/// entry `i` of the result interpolates between entries `2i` and `2i + 1`.
pub open spec fn fold_once(t: Seq<nat>, r: nat) -> Seq<nat> {
    Seq::new(t.len() / 2, |i: int| fold_entry(t[2 * i], t[2 * i + 1], r))
}

/// Fixes the variables of a table, from variable 0 (the least significant
/// index bit) up, to the values `rs`.
pub open spec fn fold_table(t: Seq<nat>, rs: Seq<nat>) -> Seq<nat>
    decreases rs.len(),
{
    if rs.len() == 0 {
        t
    } else {
        fold_table(fold_once(t, rs[0]), rs.drop_first())
    }
}

/// The value at `point` of the multilinear extension of the table `evals`;
/// `point[i]` is the variable of index bit `i`, the least significant first.
pub open spec fn mle_eval(evals: Seq<nat>, point: Seq<nat>) -> nat {
    fold_table(evals, point)[0]
}

/// A multilinear polynomial in `num_vars` variables, given by its
/// evaluations over `{0,1}^num_vars`.
#[derive(Debug, Clone, PartialEq, Eq)]
pub struct DenseMLEPolynomial {
    /// Number of variables `n`.
    pub num_vars: usize,
    /// 2^n evaluations over {0,1}^n in little-endian index order.
    pub evals: Vec<Scalar>,
}

/// `k` with `2^k == n`, when `n` is a power of two.
fn exact_log2(n: usize) -> (r: Option<usize>)
    ensures
        r is Some <==> is_power_of_two(n as nat),
        r matches Some(k) ==> pow2(k as nat) == n,
{
    if n == 0 {
        proof {
            lemma_zero_not_power_of_two();
        }
        return None;
    }
    let mut m = n;
    let mut k: usize = 0;
    proof {
        lemma_pow2_zero();
    }
    proof {
        lemma_pow2_ge_exponent(0);
    }
    while m % 2 == 0
        invariant
            m > 0,
            n == m * pow2(k as nat),
            k < n,
        decreases m,
    {
        proof {
            lemma_pow2_unfold((k + 1) as nat);
            lemma_pow2_pos(k as nat);
            lemma_pow2_ge_exponent((k + 1) as nat);
            let h = (m / 2) as nat;
            assert(n == h * pow2((k + 1) as nat) && h >= 1) by (nonlinear_arith)
                requires
                    n == m * pow2(k as nat),
                    m % 2 == 0,
                    m > 0,
                    h == m / 2,
                    pow2((k + 1) as nat) == 2 * pow2(k as nat),
            {
            }
            assert(h * pow2((k + 1) as nat) >= pow2((k + 1) as nat)) by (nonlinear_arith)
                requires
                    h >= 1,
                    pow2((k + 1) as nat) > 0,
            {
            }
        }
        m = m / 2;
        k = k + 1;
    }
    if m == 1 {
        Some(k)
    } else {
        proof {
            if is_power_of_two(n as nat) {
                let j = choose|j: nat| #[trigger] pow2(j) == n;
                lemma_odd_factor_of_power(m as nat, k as nat, j);
            }
        }
        None
    }
}

proof fn lemma_pow2_zero()
    ensures
        pow2(0) == 1,
{
    vstd::arithmetic::power2::lemma2_to64();
}

proof fn lemma_zero_not_power_of_two()
    ensures
        !is_power_of_two(0),
{
    if is_power_of_two(0) {
        let j = choose|j: nat| #[trigger] pow2(j) == 0;
        lemma_pow2_pos(j);
    }
}

/// `2^k > k`, so a power of two below `2^64` has an exponent below 64.
proof fn lemma_pow2_ge_exponent(k: nat)
    ensures
        pow2(k) > k,
    decreases k,
{
    lemma_pow2_zero();
    if k > 0 {
        lemma_pow2_ge_exponent((k - 1) as nat);
        lemma_pow2_unfold(k);
        lemma_pow2_pos((k - 1) as nat);
    }
}

/// The only odd number that times a power of two gives a power of two is one.
proof fn lemma_odd_factor_of_power(m: nat, k: nat, j: nat)
    requires
        m % 2 == 1,
        m * pow2(k) == pow2(j),
    ensures
        m == 1,
    decreases k,
{
    lemma_pow2_zero();
    if k == 0 {
        assert(m * pow2(0) == m);
        if j > 0 {
            lemma_pow2_unfold(j);
        }
    } else {
        lemma_pow2_unfold(k);
        if j == 0 {
            lemma_pow2_pos((k - 1) as nat);
            assert(m * pow2(k) >= 2) by (nonlinear_arith)
                requires
                    m >= 1,
                    pow2(k) == 2 * pow2((k - 1) as nat),
                    pow2((k - 1) as nat) > 0,
            {
            }
        } else {
            lemma_pow2_unfold(j);
            assert(m * pow2((k - 1) as nat) == pow2((j - 1) as nat)) by (nonlinear_arith)
                requires
                    m * pow2(k) == pow2(j),
                    pow2(k) == 2 * pow2((k - 1) as nat),
                    pow2(j) == 2 * pow2((j - 1) as nat),
            {
            }
            lemma_odd_factor_of_power(m, (k - 1) as nat, (j - 1) as nat);
        }
    }
}

/// Folding a table of `2^n` entries `k <= n` times leaves `2^(n-k)` entries.
pub proof fn lemma_fold_table_len(t: Seq<nat>, rs: Seq<nat>, n: nat)
    requires
        t.len() == pow2(n),
        rs.len() <= n,
    ensures
        fold_table(t, rs).len() == pow2((n - rs.len()) as nat),
    decreases rs.len(),
{
    if rs.len() > 0 {
        lemma_pow2_unfold(n);
        lemma_fold_table_len(fold_once(t, rs[0]), rs.drop_first(), (n - 1) as nat);
    }
}

/// Folding with one more value folds the result once more: fixing the
/// variables one at a time is fixing them all at once.
pub proof fn lemma_fold_table_push(t: Seq<nat>, rs: Seq<nat>, x: nat)
    ensures
        fold_table(t, rs.push(x)) == fold_once(fold_table(t, rs), x),
    decreases rs.len(),
{
    let rx = rs.push(x);
    if rs.len() == 0 {
        assert(rx.drop_first() =~= Seq::<nat>::empty());
        assert(rx[0] == x);
        assert(fold_table(fold_once(t, x), rx.drop_first()) == fold_once(t, x));
    } else {
        assert(rx.drop_first() =~= rs.drop_first().push(x));
        assert(rx[0] == rs[0]);
        lemma_fold_table_push(fold_once(t, rs[0]), rs.drop_first(), x);
    }
}

/// `l + r (h - l)` computed with field operations is the interpolation.
proof fn lemma_fold_entry_computed(l: nat, h: nat, r: nat)
    requires
        l < fr_modulus(),
        h < fr_modulus(),
        r < fr_modulus(),
    ensures
        ((l + (r * ((h - l) % (fr_modulus() as int))) % (fr_modulus() as int)) % (fr_modulus() as int)) as nat
            == fold_entry(l, h, r),
{
    let m = fr_modulus() as int;
    let d = h - l;
    vstd::arithmetic::div_mod::lemma_mul_mod_noop_right(r as int, d, m);
    vstd::arithmetic::div_mod::lemma_add_mod_noop(l as int, r * (d % m), m);
    vstd::arithmetic::div_mod::lemma_add_mod_noop(l as int, r * d, m);
    vstd::arithmetic::div_mod::lemma_mod_twice(r * d, m);
    vstd::arithmetic::div_mod::lemma_mod_bound(r * (d % m), m);
    vstd::arithmetic::div_mod::lemma_mod_twice(r * (d % m), m);
}

/// `(1 - r) l + r h` computed with field operations is the interpolation.
proof fn lemma_fold_entry_mixed(l: nat, h: nat, r: nat)
    requires
        l < fr_modulus(),
        h < fr_modulus(),
        r < fr_modulus(),
    ensures
        ({
            let m = fr_modulus() as int;
            ((((1 - r) % m) * l) % m + (r * h) as int % m) % m
        }) == fold_entry(l, h, r) as int,
{
    let m = fr_modulus() as int;
    let a = (1 - r) % m;
    let rh = (r * h) as int;
    vstd::arithmetic::div_mod::lemma_mul_mod_noop_left(1 - r, l as int, m);
    vstd::arithmetic::div_mod::lemma_add_mod_noop(a * l, rh, m);
    vstd::arithmetic::div_mod::lemma_add_mod_noop((1 - r) * l, rh, m);
    vstd::arithmetic::div_mod::lemma_mod_twice(a * l, m);
    vstd::arithmetic::div_mod::lemma_mod_twice((1 - r) * l, m);
    vstd::arithmetic::div_mod::lemma_mod_twice(rh, m);
    assert((1 - r) * l + rh == l + r * (h - l)) by (nonlinear_arith)
        requires
            rh == r * h,
    ;
}

/// Fixes the variables from variable 0 up to `challenges`, in place:
/// after `k` challenges the first `2^(n-k)` entries hold the folded table.
fn fold_in_place(table: &mut Vec<Scalar>, challenges: &[Scalar], Ghost(n): Ghost<nat>)
    requires
        old(table).len() == pow2(n),
        challenges.len() <= n,
    ensures
        final(table).len() == old(table).len(),
        scalars_view(final(table)@).take(pow2((n - challenges.len()) as nat) as int)
            == fold_table(scalars_view(old(table)@), scalars_view(challenges@)),
{
    let ghost orig = scalars_view(table@);
    let len = table.len();
    let mut size = len;
    let mut j: usize = 0;
    proof {
        assert(scalars_view(table@).take(size as int) =~= orig);
        assert(scalars_view(challenges@).take(0) =~= Seq::<nat>::empty());
    }
    while j < challenges.len()
        invariant
            table.len() == len,
            len == pow2(n),
            challenges.len() <= n,
            j <= challenges.len(),
            size == pow2((n - j) as nat),
            size <= len,
            orig.len() == len,
            scalars_view(table@).take(size as int) == fold_table(orig, scalars_view(challenges@).take(j as int)),
        decreases challenges.len() - j,
    {
        let r = challenges[j];
        let ghost prev = scalars_view(table@).take(size as int);
        let ghost half_k = (n - j - 1) as nat;
        proof {
            lemma_pow2_unfold((n - j) as nat);
            assert(size >> 1 == size / 2) by (bit_vector);
        }
        size = size >> 1;
        assert(size == pow2(half_k));
        let mut i: usize = 0;
        while i < size
            invariant
                table.len() == len,
                len == pow2(n),
                prev.len() == 2 * size,
                2 * size <= len,
                i <= size,
                forall|q: int| 0 <= q < i ==> #[trigger] scalars_view(table@)[q] == fold_entry(prev[2 * q], prev[2 * q + 1], r@),
                forall|q: int| i <= q < 2 * size ==> #[trigger] scalars_view(table@)[q] == prev[q],
            decreases size - i,
        {
            let lo = table[2 * i];
            let hi = table[2 * i + 1];
            let d = hi.sub(&lo);
            let rd = r.mul(&d);
            let v = lo.add(&rd);
            proof {
                assert(scalars_view(table@)[2 * i] == prev[2 * i]);
                assert(scalars_view(table@)[2 * i + 1] == prev[2 * i + 1]);
                lemma_fold_entry_computed(lo@, hi@, r@);
            }
            let ghost before = table@;
            table.set(i, v);
            proof {
                assert forall|q: int| 0 <= q < i + 1 implies #[trigger] scalars_view(table@)[q]
                    == fold_entry(prev[2 * q], prev[2 * q + 1], r@) by {
                    if q < i {
                        assert(table@[q] == before[q]);
                        assert(scalars_view(before)[q] == before[q]@);
                    }
                }
                assert forall|q: int| i + 1 <= q < 2 * size implies #[trigger] scalars_view(table@)[q]
                    == prev[q] by {
                    assert(table@[q] == before[q]);
                    assert(scalars_view(before)[q] == before[q]@);
                }
            }
            i = i + 1;
        }
        proof {
            let folded = fold_once(prev, r@);
            assert(scalars_view(table@).take(size as int) =~= folded);
            assert(scalars_view(challenges@).take(j + 1) =~= scalars_view(challenges@).take(j as int).push(r@));
            lemma_fold_table_push(orig, scalars_view(challenges@).take(j as int), r@);
        }
        j = j + 1;
    }
    proof {
        assert(scalars_view(challenges@).take(challenges.len() as int) =~= scalars_view(challenges@));
    }
}

/// A copy of a table of field elements.
pub(crate) fn copy_scalars(v: &[Scalar]) -> (r: Vec<Scalar>)
    ensures
        r@ == v@,
{
    let mut r: Vec<Scalar> = Vec::new();
    let mut i: usize = 0;
    while i < v.len()
        invariant
            i <= v.len(),
            r@ == v@.take(i as int),
        decreases v.len() - i,
    {
        r.push(v[i]);
        proof {
            assert(v@.take(i + 1) =~= v@.take(i as int).push(v@[i as int]));
        }
        i = i + 1;
    }
    proof {
        assert(v@.take(v.len() as int) =~= v@);
    }
    r
}

/// A power of two that a `usize` holds has an exponent below the word size.
proof fn lemma_exponent_fits(k: nat, n: usize)
    requires
        pow2(k) == n,
    ensures
        k < usize::BITS,
{
    vstd::layout::unsigned_int_max_values();
    if k >= usize::BITS {
        if k > usize::BITS {
            vstd::arithmetic::power2::lemma_pow2_strictly_increases(usize::BITS as nat, k);
        }
    }
}

impl DenseMLEPolynomial {
    /// The table holds `2^num_vars` evaluations.
    pub open spec fn wf(&self) -> bool {
        self.evals.len() == pow2(self.num_vars as nat)
    }

    /// The evaluations as integers modulo `r`.
    pub open spec fn table(&self) -> Seq<nat> {
        scalars_view(self.evals@)
    }

    /// Creates the polynomial with the given evaluations, whose number must be
    /// a power of two.
    pub fn new(evals: Vec<Scalar>) -> (r: Self)
        requires
            is_power_of_two(evals.len() as nat),
        ensures
            r.evals@ == evals@,
            r.wf(),
    {
        let len = evals.len();
        let num_vars = exact_log2(len).unwrap();
        Self { num_vars, evals }
    }

    /// Like `new`, but refuses a number of evaluations that is not a power of two.
    pub fn try_new(evals: Vec<Scalar>) -> (r: Result<Self, MLEError>)
        ensures
            r is Err <==> !is_power_of_two(evals.len() as nat),
            r matches Err(e) ==> e == MLEError::NotPowerOfTwo(evals.len()),
            r matches Ok(p) ==> p.evals@ == evals@ && p.wf(),
    {
        let len = evals.len();
        match exact_log2(len) {
            None => Err(MLEError::NotPowerOfTwo(len)),
            Some(_) => Ok(Self::new(evals)),
        }
    }

    /// The constant polynomial `c` in `num_vars` variables.
    pub fn constant(c: Scalar, num_vars: usize) -> (r: Self)
        requires
            num_vars <= 63,
            num_vars < usize::BITS,
        ensures
            r.num_vars == num_vars,
            r.wf(),
            r.evals@ == Seq::new(pow2(num_vars as nat), |i: int| c),
    {
        let n = two_pow(num_vars);
        let evals = vec![c; n];
        assert(evals@ =~= Seq::new(pow2(num_vars as nat), |i: int| c));
        Self { num_vars, evals }
    }

    /// The constant polynomial one in `num_vars` variables.
    pub fn one(num_vars: usize) -> (r: Self)
        requires
            num_vars <= 63,
            num_vars < usize::BITS,
        ensures
            r.num_vars == num_vars,
            r.wf(),
            r.table() == Seq::new(pow2(num_vars as nat), |i: int| 1nat),
    {
        let one = Scalar::one();
        let r = Self::constant(one, num_vars);
        assert(r.table() =~= Seq::new(pow2(num_vars as nat), |i: int| 1nat));
        r
    }

    /// Number of evaluations (= 2^num_vars).
    pub fn len(&self) -> (r: usize)
        ensures
            r == self.evals.len(),
    {
        self.evals.len()
    }

    /// Whether there are no evaluations.
    pub fn is_empty(&self) -> (r: bool)
        ensures
            r == (self.evals.len() == 0),
    {
        self.evals.len() == 0
    }

    /// The value of the multilinear extension at `point`, whose length must be
    /// the number of variables; `point[i]` is the variable of index bit `i`,
    /// the least significant first.
    pub fn evaluate(&self, point: &[Scalar]) -> (r: Result<Scalar, MLEError>)
        requires
            self.wf(),
        ensures
            r is Err <==> point.len() != self.num_vars,
            r matches Err(e) ==> e == (MLEError::PointLenMismatch { point: point.len(), vars: self.num_vars }),
            r matches Ok(v) ==> v@ == mle_eval(self.table(), scalars_view(point@)),
    {
        if point.len() != self.num_vars {
            return Err(MLEError::PointLenMismatch { point: point.len(), vars: self.num_vars });
        }
        Ok(self.evaluate_inner(point))
    }

    fn evaluate_inner(&self, point: &[Scalar]) -> (r: Scalar)
        requires
            self.wf(),
            point.len() == self.num_vars,
        ensures
            r@ == mle_eval(self.table(), scalars_view(point@)),
    {
        let mut table = copy_scalars(self.evals.as_slice());
        fold_in_place(&mut table, point, Ghost(self.num_vars as nat));
        proof {
            lemma_pow2_zero();
            lemma_pow2_pos(self.num_vars as nat);
            assert(scalars_view(table@).take(1)[0] == scalars_view(table@)[0]);
        }
        table[0]
    }

    /// The evaluation at a vertex of the hypercube, given by its bits with the
    /// least significant first: `evals[b_0 + 2 b_1 + 4 b_2 + ...]`.
    pub fn evaluate_at_vertex(&self, bits: &[bool]) -> (r: Result<Scalar, MLEError>)
        requires
            self.wf(),
        ensures
            r is Err <==> bits.len() != self.num_vars,
            r matches Err(e) ==> e == (MLEError::PointLenMismatch { point: bits.len(), vars: self.num_vars }),
            r matches Ok(v) ==> bits_value(bits@) < self.evals.len() && v == self.evals@[bits_value(bits@) as int],
    {
        if bits.len() != self.num_vars {
            return Err(MLEError::PointLenMismatch { point: bits.len(), vars: self.num_vars });
        }
        proof {
            lemma_exponent_fits(self.num_vars as nat, self.evals.len());
            lemma_bits_value_bound(bits@);
        }
        let idx = le_index_from_bits(bits);
        Ok(self.evals[idx])
    }

    /// Fixes variable 0, the least significant index bit, to `value`: entry
    /// `i` of the result is `(1 - value) evals[2i] + value evals[2i + 1]`.
    /// A polynomial without variables has none to fix.
    pub fn fix_variable(&self, value: Scalar) -> (r: Result<Self, MLEError>)
        requires
            self.wf(),
        ensures
            r is Err <==> self.num_vars == 0,
            r matches Err(e) ==> e == MLEError::NoVariables,
            r matches Ok(p) ==> p.num_vars == self.num_vars - 1 && p.wf()
                && p.table() == fold_once(self.table(), value@),
    {
        if self.num_vars == 0 {
            return Err(MLEError::NoVariables);
        }
        let len = self.evals.len();
        let half = len >> 1;
        proof {
            lemma_pow2_unfold(self.num_vars as nat);
            assert(half == len / 2) by (bit_vector)
                requires
                    half == len >> 1,
            ;
        }
        let one = Scalar::one();
        let one_minus_r = one.sub(&value);
        let ghost t = self.table();
        let mut new_evals: Vec<Scalar> = Vec::new();
        let mut i: usize = 0;
        while i < half
            invariant
                half == self.evals.len() / 2,
                t == self.table(),
                one_minus_r@ == (1 - value@) % (fr_modulus() as int),
                value@ < fr_modulus(),
                i <= half,
                new_evals.len() == i,
                forall|q: int| 0 <= q < i ==> #[trigger] scalars_view(new_evals@)[q]
                    == fold_entry(t[2 * q], t[2 * q + 1], value@),
            decreases half - i,
        {
            let lo = self.evals[2 * i];
            let hi = self.evals[2 * i + 1];
            let a = one_minus_r.mul(&lo);
            let b = value.mul(&hi);
            let v = a.add(&b);
            proof {
                lemma_fold_entry_mixed(lo@, hi@, value@);
            }
            let ghost before = new_evals@;
            new_evals.push(v);
            proof {
                assert forall|q: int| 0 <= q < i + 1 implies #[trigger] scalars_view(new_evals@)[q]
                    == fold_entry(t[2 * q], t[2 * q + 1], value@) by {
                    if q < i {
                        assert(new_evals@[q] == before[q]);
                        assert(scalars_view(before)[q] == before[q]@);
                    }
                }
            }
            i = i + 1;
        }
        proof {
            assert(scalars_view(new_evals@) =~= fold_once(t, value@));
        }
        Ok(Self { num_vars: self.num_vars - 1, evals: new_evals })
    }

    /// Fixes the first `values.len()` variables, variable `i` to `values[i]`;
    /// there must be no more values than variables.
    pub fn fix_variables(&self, values: &[Scalar]) -> (r: Result<Self, MLEError>)
        requires
            self.wf(),
        ensures
            r is Err <==> values.len() > self.num_vars,
            r matches Err(e) ==> e == (MLEError::PointLenMismatch { point: values.len(), vars: self.num_vars }),
            r matches Ok(p) ==> p.num_vars == self.num_vars - values.len() && p.wf()
                && p.table() == fold_table(self.table(), scalars_view(values@)),
    {
        let k = values.len();
        if k > self.num_vars {
            return Err(MLEError::PointLenMismatch { point: k, vars: self.num_vars });
        }
        let mut table = copy_scalars(self.evals.as_slice());
        fold_in_place(&mut table, values, Ghost(self.num_vars as nat));
        let len = table.len();
        proof {
            lemma_exponent_fits(self.num_vars as nat, len);
            vstd::bits::lemma_usize_shr_is_div(len, k);
            vstd::arithmetic::power2::lemma_pow2_subtracts(k as nat, self.num_vars as nat);
        }
        let new_len = len >> k;
        proof {
            if k > 0 {
                vstd::arithmetic::power2::lemma_pow2_strictly_increases((self.num_vars - k) as nat, self.num_vars as nat);
            }
            assert(new_len == pow2((self.num_vars - k) as nat));
            assert(new_len <= len);
        }
        let ghost before = table@;
        table.truncate(new_len);
        proof {
            assert(scalars_view(table@) =~= scalars_view(before).take(new_len as int));
        }
        Ok(Self { num_vars: self.num_vars - k, evals: table })
    }

    /// The sum of all evaluations.
    pub fn sum_over_hypercube(&self) -> (r: Scalar)
        ensures
            r@ == sum_mod(self.table()),
    {
        let mut acc = Scalar::zero();
        let mut i: usize = 0;
        while i < self.evals.len()
            invariant
                i <= self.evals.len(),
                acc@ == sum_mod(self.table().take(i as int)),
            decreases self.evals.len() - i,
        {
            acc = acc.add(&self.evals[i]);
            proof {
                assert(self.table().take(i + 1).drop_last() =~= self.table().take(i as int));
            }
            i = i + 1;
        }
        proof {
            assert(self.table().take(self.evals.len() as int) =~= self.table());
        }
        acc
    }

    /// The sums of the evaluations with variable 0 fixed to 0 and to 1: the
    /// entries at even and at odd indices.
    pub fn sumcheck_round(&self) -> (r: [Scalar; 2])
        ensures
            r[0]@ == sum_mod(evens(self.table())),
            r[1]@ == sum_mod(odds(self.table())),
    {
        let len = self.evals.len();
        let half = len >> 1;
        let ghost t = self.table();
        let mut s0 = Scalar::zero();
        let mut s1 = Scalar::zero();
        let mut i: usize = 0;
        assert(half == len / 2) by (bit_vector)
            requires
                half == len >> 1,
        ;
        while i < half
            invariant
                half == self.evals.len() / 2,
                t == self.table(),
                i <= half,
                s0@ == sum_mod(evens(t).take(i as int)),
                s1@ == sum_mod(odds(t).take(i as int)),
            decreases half - i,
        {
            s0 = s0.add(&self.evals[2 * i]);
            s1 = s1.add(&self.evals[2 * i + 1]);
            proof {
                assert(evens(t).take(i + 1).drop_last() =~= evens(t).take(i as int));
                assert(odds(t).take(i + 1).drop_last() =~= odds(t).take(i as int));
            }
            i = i + 1;
        }
        proof {
            assert(evens(t).take(half as int) =~= evens(t));
            assert(odds(t).take(half as int) =~= odds(t));
        }
        [s0, s1]
    }
}

/// The field element 0 or 1 for a bit.
pub open spec fn bit_to_field(b: bool) -> nat {
    if b { 1 } else { 0 }
}

/// Fixing variables in two batches is fixing them all at once.
pub proof fn lemma_fold_table_concat(t: Seq<nat>, a: Seq<nat>, b: Seq<nat>)
    ensures
        fold_table(t, a + b) == fold_table(fold_table(t, a), b),
    decreases a.len(),
{
    if a.len() == 0 {
        assert(a + b =~= b);
    } else {
        assert((a + b).drop_first() =~= a.drop_first() + b);
        assert((a + b)[0] == a[0]);
        lemma_fold_table_concat(fold_once(t, a[0]), a.drop_first(), b);
    }
}

/// Evaluating after fixing the first variables to `prefix` is evaluating at
/// `prefix` followed by the rest of the point.
pub proof fn lemma_evaluate_after_fixing(t: Seq<nat>, prefix: Seq<nat>, rest: Seq<nat>)
    ensures
        mle_eval(fold_table(t, prefix), rest) == mle_eval(t, prefix + rest),
{
    lemma_fold_table_concat(t, prefix, rest);
}

/// Evaluating after fixing variable 0 to `r` is evaluating at `r` followed by
/// the rest of the point.
pub proof fn lemma_fix_variable_then_evaluate(t: Seq<nat>, r: nat, rest: Seq<nat>)
    ensures
        mle_eval(fold_once(t, r), rest) == mle_eval(t, seq![r] + rest),
{
    let one = seq![r];
    assert(one.drop_first() =~= Seq::<nat>::empty());
    assert(one[0] == r);
    assert(fold_table(fold_once(t, r), one.drop_first()) == fold_once(t, r));
    assert(fold_table(t, one) == fold_once(t, r));
    lemma_evaluate_after_fixing(t, one, rest);
}

/// The multilinear extension agrees with the table on the hypercube: at a
/// vertex, given by its coordinates from variable 0 up, it is the entry whose
/// index has those coordinates as its bits, the least significant first.
pub proof fn lemma_mle_agrees_on_hypercube(t: Seq<nat>, bits: Seq<bool>)
    requires
        t.len() == pow2(bits.len()),
        forall|i: int| 0 <= i < t.len() ==> #[trigger] t[i] < fr_modulus(),
    ensures
        bits_value(bits) < t.len(),
        mle_eval(t, bits.map_values(|b: bool| bit_to_field(b))) == t[bits_value(bits) as int],
    decreases bits.len(),
{
    let point = bits.map_values(|b: bool| bit_to_field(b));
    lemma_pow2_zero();
    if bits.len() == 0 {
        assert(point =~= Seq::<nat>::empty());
    } else {
        let n = bits.len();
        lemma_pow2_unfold(n);
        let c: int = if bits[0] { 1 } else { 0 };
        let folded = fold_once(t, point[0]);
        assert forall|i: int| 0 <= i < folded.len() implies #[trigger] folded[i] == t[2 * i + c] by {
            vstd::arithmetic::div_mod::lemma_small_mod(t[2 * i], fr_modulus());
            vstd::arithmetic::div_mod::lemma_small_mod(t[2 * i + 1], fr_modulus());
            if bits[0] {
                assert(t[2 * i] + 1 * (t[2 * i + 1] - t[2 * i]) == t[2 * i + 1]);
            } else {
                assert(t[2 * i] + 0 * (t[2 * i + 1] - t[2 * i]) == t[2 * i]);
            }
        }
        let rest = bits.drop_first();
        assert(point.drop_first() =~= rest.map_values(|b: bool| bit_to_field(b)));
        lemma_mle_agrees_on_hypercube(folded, rest);
        assert(mle_eval(t, point) == mle_eval(folded, point.drop_first()));
        assert(bits_value(bits) == c + 2 * bits_value(rest));
        assert(folded[bits_value(rest) as int] == t[2 * bits_value(rest) + c]);
    }
}

/// The entrywise combination `a t1 + b t2` of two tables, modulo `r`.
pub open spec fn lin_comb(a: nat, t1: Seq<nat>, b: nat, t2: Seq<nat>) -> Seq<nat> {
    Seq::new(t1.len(), |i: int| (a * t1[i] + b * t2[i]) % fr_modulus())
}

/// Interpolating combined entries combines the interpolations.
proof fn lemma_fold_entry_linear(a: nat, b: nat, x1: nat, y1: nat, x2: nat, y2: nat, r: nat)
    ensures
        fold_entry((a * x1 + b * x2) % fr_modulus(), (a * y1 + b * y2) % fr_modulus(), r)
            == (a * fold_entry(x1, y1, r) + b * fold_entry(x2, y2, r)) % fr_modulus(),
{
    let m = fr_modulus() as int;
    let lo = ((a * x1 + b * x2) as int) % m;
    let hi = ((a * y1 + b * y2) as int) % m;
    let f1 = (x1 + r * (y1 - x1)) % m;
    let f2 = (x2 + r * (y2 - x2)) % m;
    vstd::arithmetic::div_mod::lemma_mod_bound((a * x1 + b * x2) as int, m);
    vstd::arithmetic::div_mod::lemma_mod_bound((a * y1 + b * y2) as int, m);
    vstd::arithmetic::div_mod::lemma_mod_bound(x1 + r * (y1 - x1), m);
    vstd::arithmetic::div_mod::lemma_mod_bound(x2 + r * (y2 - x2), m);
    vstd::arithmetic::div_mod::lemma_mod_bound(lo + r * (hi - lo), m);
    vstd::arithmetic::div_mod::lemma_mod_bound(a * f1 + b * f2, m);
    // left: lo + r (hi - lo) = X + r (Y - X) with X = a x1 + b x2, Y = a y1 + b y2
    let big_x = (a * x1 + b * x2) as int;
    let big_y = (a * y1 + b * y2) as int;
    lemma_cong_reduced(lo, big_x, m);
    lemma_cong_reduced(hi, big_y, m);
    lemma_cong_refl(r as int, m);
    lemma_cong_sym(lo, big_x, m);
    lemma_cong_sym(hi, big_y, m);
    crate::ecc::closure::lemma_cong_neg(lo, big_x, m);
    lemma_cong_add(hi, big_y, -lo, -big_x, m);
    assert(hi + -lo == hi - lo);
    lemma_cong_mul(r as int, r as int, hi - lo, big_y - big_x, m);
    lemma_cong_add(lo, big_x, r * (hi - lo), r * (big_y - big_x), m);
    // right: a f1 + b f2 = a (x1 + r (y1 - x1)) + b (x2 + r (y2 - x2))
    lemma_cong_reduced(f1, x1 + r * (y1 - x1), m);
    lemma_cong_reduced(f2, x2 + r * (y2 - x2), m);
    lemma_cong_refl(a as int, m);
    lemma_cong_refl(b as int, m);
    lemma_cong_mul(a as int, a as int, f1, x1 + r * (y1 - x1), m);
    lemma_cong_mul(b as int, b as int, f2, x2 + r * (y2 - x2), m);
    lemma_cong_add(a * f1, a * (x1 + r * (y1 - x1)), b * f2, b * (x2 + r * (y2 - x2)), m);
    assert(big_x + r * (big_y - big_x) == a * (x1 + r * (y1 - x1)) + b * (x2 + r * (y2 - x2))) by (nonlinear_arith)
        requires
            big_x == a * x1 + b * x2,
            big_y == a * y1 + b * y2,
    ;
    lemma_cong_sym(a * f1 + b * f2, a * (x1 + r * (y1 - x1)) + b * (x2 + r * (y2 - x2)), m);
    lemma_cong_trans(lo + r * (hi - lo), big_x + r * (big_y - big_x), a * f1 + b * f2, m);
    lemma_cong_of_mod(lo + r * (hi - lo), a * f1 + b * f2, m);
}

/// Fixing a variable commutes with combining tables.
proof fn lemma_fold_once_linear(a: nat, t1: Seq<nat>, b: nat, t2: Seq<nat>, r: nat)
    requires
        t1.len() == t2.len(),
    ensures
        fold_once(lin_comb(a, t1, b, t2), r) == lin_comb(a, fold_once(t1, r), b, fold_once(t2, r)),
{
    let l = lin_comb(a, t1, b, t2);
    assert forall|i: int| 0 <= i < t1.len() / 2 implies #[trigger] fold_once(l, r)[i]
        == lin_comb(a, fold_once(t1, r), b, fold_once(t2, r))[i] by {
        lemma_fold_entry_linear(a, b, t1[2 * i], t1[2 * i + 1], t2[2 * i], t2[2 * i + 1], r);
    }
    assert(fold_once(l, r) =~= lin_comb(a, fold_once(t1, r), b, fold_once(t2, r)));
}

/// Fixing variables commutes with combining tables.
proof fn lemma_fold_table_linear(a: nat, t1: Seq<nat>, b: nat, t2: Seq<nat>, rs: Seq<nat>)
    requires
        t1.len() == t2.len(),
    ensures
        fold_table(lin_comb(a, t1, b, t2), rs) == lin_comb(a, fold_table(t1, rs), b, fold_table(t2, rs)),
        fold_table(t1, rs).len() == fold_table(t2, rs).len(),
    decreases rs.len(),
{
    if rs.len() > 0 {
        lemma_fold_once_linear(a, t1, b, t2, rs[0]);
        lemma_fold_table_linear(a, fold_once(t1, rs[0]), b, fold_once(t2, rs[0]), rs.drop_first());
    }
}

/// The multilinear extension is affine in variable 0: its value at `r` is
/// `(1 - r)` times its value at 0 plus `r` times its value at 1, with the
/// other coordinates fixed.
pub proof fn lemma_mle_affine_in_first_variable(t: Seq<nat>, x: nat, rest: Seq<nat>)
    requires
        t.len() == pow2(rest.len() + 1),
        forall|i: int| 0 <= i < t.len() ==> #[trigger] t[i] < fr_modulus(),
        x < fr_modulus(),
    ensures
        mle_eval(t, seq![x] + rest) == (((1 - x) % (fr_modulus() as int)) as nat * mle_eval(t, seq![0nat] + rest)
            + x * mle_eval(t, seq![1nat] + rest)) % fr_modulus(),
{
    let m = fr_modulus() as int;
    let a = ((1 - x) % m) as nat;
    vstd::arithmetic::div_mod::lemma_mod_bound(1 - x, m);
    lemma_fix_variable_then_evaluate(t, x, rest);
    lemma_fix_variable_then_evaluate(t, 0, rest);
    lemma_fix_variable_then_evaluate(t, 1, rest);
    let e = evens(t);
    let o = odds(t);
    assert forall|i: int| 0 <= i < e.len() implies #[trigger] fold_once(t, 0)[i] == e[i] by {
        vstd::arithmetic::div_mod::lemma_small_mod(t[2 * i], fr_modulus());
        assert(t[2 * i] + 0 * (t[2 * i + 1] - t[2 * i]) == t[2 * i]);
    }
    assert(fold_once(t, 0) =~= e);
    assert forall|i: int| 0 <= i < o.len() implies #[trigger] fold_once(t, 1)[i] == o[i] by {
        vstd::arithmetic::div_mod::lemma_small_mod(t[2 * i + 1], fr_modulus());
        assert(t[2 * i] + 1 * (t[2 * i + 1] - t[2 * i]) == t[2 * i + 1]);
    }
    assert(fold_once(t, 1) =~= o);
    assert forall|i: int| 0 <= i < e.len() implies #[trigger] fold_once(t, x)[i] == lin_comb(a, e, x, o)[i] by {
        lemma_fold_entry_mixed(t[2 * i], t[2 * i + 1], x);
        let lo = t[2 * i] as int;
        let hi = t[2 * i + 1] as int;
        vstd::arithmetic::div_mod::lemma_mul_mod_noop_left(1 - x, lo, m);
        vstd::arithmetic::div_mod::lemma_add_mod_noop(a * lo, (x * hi) as int, m);
        vstd::arithmetic::div_mod::lemma_add_mod_noop(((1 - x) * lo) % m, (x * hi) as int, m);
    }
    assert(fold_once(t, x) =~= lin_comb(a, e, x, o));
    lemma_fold_table_linear(a, e, x, o, rest);
    lemma_pow2_unfold(rest.len() + 1);
    lemma_fold_table_len(e, rest, rest.len());
    lemma_pow2_zero();
}

} // verus!
