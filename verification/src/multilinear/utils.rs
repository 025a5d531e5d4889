//! Index arithmetic for evaluation tables over the boolean hypercube.

use vstd::prelude::*;
use vstd::arithmetic::power2::{pow2, lemma_pow2_unfold, lemma_pow2_pos, lemma2_to64};
use vstd::arithmetic::div_mod::lemma_div_denominator;
use vstd::bits::{lemma_usize_shl_is_mul, lemma_usize_pow2_no_overflow};

verus! {

/// The integer whose binary digits, least significant first, are `bits`.
pub open spec fn bits_value(bits: Seq<bool>) -> nat
    decreases bits.len(),
{
    if bits.len() == 0 {
        0
    } else {
        (if bits[0] { 1nat } else { 0nat }) + 2 * bits_value(bits.drop_first())
    }
}

/// The lowest `k` bits of `x` in reverse order: bit `j` of `x` becomes bit
/// `k - 1 - j` of the result.
pub open spec fn reverse_bits(x: nat, k: nat) -> nat
    decreases k,
{
    if k == 0 {
        0
    } else {
        2 * reverse_bits(x, (k - 1) as nat) + (x / pow2((k - 1) as nat)) % 2
    }
}

/// Returns 2^n; `n` must be at most 63 so that the power fits in a `usize`.
pub fn two_pow(n: usize) -> (r: usize)
    requires
        n <= 63,
        n < usize::BITS,
    ensures
        r == pow2(n as nat),
{
    proof {
        lemma_usize_pow2_no_overflow(n as nat);
        lemma_usize_shl_is_mul(1, n);
    }
    1usize << n
}

/// Shifts `r` left by one and puts the bit `b` in the freed place, as
/// `(r << 1) | b` does: the top bit, which the shift drops, is cleared first
/// so that the shift itself is exact.
fn shift_in_bit(r: usize, b: usize) -> (out: usize)
    requires
        b <= 1,
    ensures
        out == (2 * r + b) % (pow2(usize::BITS as nat) as int),
{
    let ghost w = usize::BITS as nat;
    let ghost half = pow2((w - 1) as nat);
    proof {
        vstd::layout::unsigned_int_max_values();
        lemma_pow2_unfold(w);
        lemma_pow2_pos((w - 1) as nat);
        vstd::bits::lemma_usize_shr_is_div(usize::MAX, 1);
        lemma_pow2_zero_one();
        vstd::arithmetic::div_mod::lemma_fundamental_div_mod_converse_div(
            usize::MAX as int, 2, (half - 1) as int, 1);
        lemma_usize_pow2_no_overflow((w - 1) as nat);
    }
    let mask = usize::MAX >> 1;
    let low = r & mask;
    proof {
        assert(mask == half - 1);
        assert(mask == vstd::bits::low_bits_mask((w - 1) as nat));
        assert(low == r & (vstd::bits::low_bits_mask((w - 1) as nat) as usize));
        vstd::bits::lemma_usize_low_bits_mask_is_mod(r, (w - 1) as nat);
        assert(low == r % (half as usize));
        vstd::arithmetic::div_mod::lemma_mod_bound(r as int, half as int);
        assert(low < half);
        assert(low * pow2(1) <= usize::MAX);
        lemma_usize_shl_is_mul(low, 1);
        assert(low << 1 == 2 * low);
        lemma_or_low_bit(low, b);
        vstd::arithmetic::div_mod::lemma_fundamental_div_mod(r as int, half as int);
        let q = r as int / half as int;
        assert(2 * r + b == q * pow2(w) + (2 * low + b)) by (nonlinear_arith)
            requires
                r as int == half * q + low,
                pow2(w) == 2 * half,
        ;
        vstd::arithmetic::div_mod::lemma_fundamental_div_mod_converse_mod(
            2 * r + b, pow2(w) as int, q, 2 * low + b);
    }
    (low << 1) | b
}

/// Bit-reverse an index of `bits` width.
///
/// Used to convert between little-endian and big-endian variable ordering when
/// interfacing with external libraries that disagree on convention. Wider than
/// a `usize`, the reversal keeps its low word, as shifting left does.
pub fn bit_reverse(x: usize, bits: usize) -> (r: usize)
    ensures
        r == reverse_bits(x as nat, bits as nat) % pow2(usize::BITS as nat),
        bits <= usize::BITS ==> r == reverse_bits(x as nat, bits as nat),
        bits <= usize::BITS ==> r < pow2(bits as nat),
{
    let ghost x0 = x;
    let ghost m = pow2(usize::BITS as nat) as int;
    let mut x = x;
    let mut result: usize = 0;
    let mut i: usize = 0;
    proof {
        lemma_pow2_zero_one();
        lemma_pow2_pos(usize::BITS as nat);
        vstd::arithmetic::div_mod::lemma_small_mod(0, m as nat);
    }
    while i < bits
        invariant
            i <= bits,
            m == pow2(usize::BITS as nat),
            m > 0,
            result == reverse_bits(x0 as nat, i as nat) as int % m,
            x == x0 as nat / pow2(i as nat),
        decreases bits - i,
    {
        let ghost old_result = result;
        let ghost rv = reverse_bits(x0 as nat, i as nat) as int;
        let bit = x & 1;
        proof {
            lemma_shift_in_bit(0, x);
            lemma_pow2_unfold((i + 1) as nat);
            lemma_pow2_pos(i as nat);
            lemma_div_denominator(x0 as int, pow2(i as nat) as int, 2);
            vstd::arithmetic::div_mod::lemma_mul_mod_noop_right(2, rv, m);
            vstd::arithmetic::div_mod::lemma_add_mod_noop(2 * (rv % m), bit as int, m);
            vstd::arithmetic::div_mod::lemma_add_mod_noop(2 * rv, bit as int, m);
            vstd::arithmetic::div_mod::lemma_mod_twice(2 * (rv % m), m);
            vstd::arithmetic::div_mod::lemma_mod_twice(2 * rv, m);
        }
        result = shift_in_bit(result, bit);
        x = x >> 1;
        i = i + 1;
    }
    proof {
        if bits <= usize::BITS {
            lemma_reverse_bits_bound(x0 as nat, bits as nat);
            if bits < usize::BITS {
                vstd::arithmetic::power2::lemma_pow2_strictly_increases(bits as nat, usize::BITS as nat);
            }
            vstd::arithmetic::div_mod::lemma_small_mod(reverse_bits(x0 as nat, bits as nat), m as nat);
        }
    }
    result
}

/// Return the index in the evaluation table for a given binary assignment.
///
/// Encoding (little-endian): index = b_0 + 2*b_1 + 4*b_2 + ...
/// So variable 0 is the *least-significant* bit. With more bits than a
/// `usize` holds, the index keeps its low word, as shifting left does.
pub fn index_from_bits(bits: &[bool]) -> (r: usize)
    ensures
        r == bits_value(bits@) % pow2(usize::BITS as nat),
        bits.len() <= usize::BITS ==> r == bits_value(bits@),
{
    let ghost m = pow2(usize::BITS as nat) as int;
    let mut acc: usize = 0;
    let mut i: usize = bits.len();
    proof {
        lemma_pow2_zero_one();
        lemma_pow2_pos(usize::BITS as nat);
        vstd::arithmetic::div_mod::lemma_small_mod(0, m as nat);
        assert(bits@.subrange(bits.len() as int, bits.len() as int) =~= Seq::<bool>::empty());
    }
    while i > 0
        invariant
            i <= bits.len(),
            m == pow2(usize::BITS as nat),
            m > 0,
            acc == bits_value(bits@.subrange(i as int, bits.len() as int)) as int % m,
        decreases i,
    {
        let b: usize = if bits[i - 1] { 1 } else { 0 };
        proof {
            let tail = bits@.subrange(i as int, bits.len() as int);
            let s = bits@.subrange(i - 1, bits.len() as int);
            assert(s.drop_first() =~= tail);
            let v = bits_value(tail) as int;
            assert(bits_value(s) == b + 2 * v);
            vstd::arithmetic::div_mod::lemma_mul_mod_noop_right(2, v, m);
            vstd::arithmetic::div_mod::lemma_add_mod_noop(2 * (v % m), b as int, m);
            vstd::arithmetic::div_mod::lemma_add_mod_noop(2 * v, b as int, m);
            vstd::arithmetic::div_mod::lemma_mod_twice(2 * (v % m), m);
            vstd::arithmetic::div_mod::lemma_mod_twice(2 * v, m);
        }
        acc = shift_in_bit(acc, b);
        i = i - 1;
    }
    proof {
        assert(bits@.subrange(0, bits.len() as int) =~= bits@);
        if bits.len() <= usize::BITS {
            lemma_bits_value_bound(bits@);
            if bits.len() < usize::BITS {
                vstd::arithmetic::power2::lemma_pow2_strictly_increases(bits.len() as nat, usize::BITS as nat);
            }
            vstd::arithmetic::div_mod::lemma_small_mod(bits_value(bits@), m as nat);
        }
    }
    acc
}

/// True little-endian index: b_0 is bit 0 (LSB). At most as many bits as a
/// `usize` has can be placed in it.
pub fn le_index_from_bits(bits: &[bool]) -> (r: usize)
    requires
        bits.len() <= usize::BITS,
    ensures
        r == bits_value(bits@),
{
    let mut acc: usize = 0;
    let mut i: usize = 0;
    proof {
        lemma_pow2_zero_one();
    }
    while i < bits.len()
        invariant
            i <= bits.len() <= usize::BITS,
            acc == bits_value(bits@.take(i as int)),
            acc < pow2(i as nat),
        decreases bits.len() - i,
    {
        let b: usize = if bits[i] { 1 } else { 0 };
        let ghost old_acc = acc;
        proof {
            lemma_usize_pow2_no_overflow(i as nat);
            lemma_usize_shl_is_mul(b, i);
            lemma_or_disjoint(old_acc, b, i);
            lemma_bits_value_push(bits@.take(i as int), bits@[i as int]);
            assert(bits@.take(i + 1) =~= bits@.take(i as int).push(bits@[i as int]));
            lemma_pow2_unfold((i + 1) as nat);
        }
        acc = acc | (b << i);
        i = i + 1;
    }
    proof {
        assert(bits@.take(bits.len() as int) =~= bits@);
    }
    acc
}

proof fn lemma_pow2_zero_one()
    ensures
        pow2(0) == 1,
        pow2(1) == 2,
{
    lemma2_to64();
}

/// Shifting a word left by one and or-ing in a bit adds the bit to the
/// shifted word.
proof fn lemma_shift_in_bit(r: usize, x: usize)
    ensures
        (r << 1) | (x & 1) == (r << 1) + x % 2,
        x & 1 == x % 2,
        x >> 1 == x / 2,
{
    assert((r << 1usize) | (x & 1usize) == (r << 1usize) + (x & 1usize)) by (bit_vector);
    assert(x & 1usize == x % 2) by (bit_vector);
    assert(x >> 1usize == x / 2) by (bit_vector);
}


/// Or-ing in a bit above all set bits adds it.
proof fn lemma_or_disjoint(acc: usize, b: usize, i: usize)
    requires
        i < usize::BITS,
        b <= 1,
        acc < pow2(i as nat),
    ensures
        acc | (b << i) == acc + (b << i),
{
    lemma_usize_pow2_no_overflow(i as nat);
    lemma_usize_shl_is_mul(1, i);
    assert(acc < (1usize << i));
    assert(acc | (b << i) == acc + (b << i)) by (bit_vector)
        requires
            i < usize::BITS,
            b <= 1,
            acc < (1usize << i),
    ;
}

/// Appending a bit at the most significant end adds its power of two.
pub proof fn lemma_bits_value_push(s: Seq<bool>, b: bool)
    ensures
        bits_value(s.push(b)) == bits_value(s) + (if b { pow2(s.len()) } else { 0 }),
    decreases s.len(),
{
    lemma_pow2_zero_one();
    let t = s.push(b);
    if s.len() > 0 {
        assert(t.drop_first() =~= s.drop_first().push(b));
        lemma_bits_value_push(s.drop_first(), b);
        lemma_pow2_unfold(s.len());
        assert(t[0] == s[0]);
        assert(bits_value(t) == (if s[0] { 1nat } else { 0nat }) + 2 * bits_value(s.drop_first().push(b)));
    } else {
        assert(t.drop_first() =~= Seq::<bool>::empty());
        assert(bits_value(t) == (if b { 1nat } else { 0nat }) + 2 * bits_value(t.drop_first()));
    }
}

/// Or-ing a bit into a word whose low bit is clear adds it.
proof fn lemma_or_low_bit(a: usize, b: usize)
    requires
        b <= 1,
    ensures
        (a << 1usize) | b == (a << 1usize) + b,
{
    assert((a << 1usize) | b == (a << 1usize) + b) by (bit_vector)
        requires
            b <= 1,
    ;
}

/// Reversing `k` bits gives a number below `2^k`.
proof fn lemma_reverse_bits_bound(x: nat, k: nat)
    ensures
        reverse_bits(x, k) < pow2(k),
    decreases k,
{
    lemma_pow2_zero_one();
    if k > 0 {
        lemma_reverse_bits_bound(x, (k - 1) as nat);
        lemma_pow2_unfold(k);
    }
}

/// `k` bits give an index below `2^k`.
pub proof fn lemma_bits_value_bound(bits: Seq<bool>)
    ensures
        bits_value(bits) < pow2(bits.len()),
    decreases bits.len(),
{
    lemma_pow2_zero_one();
    if bits.len() > 0 {
        lemma_bits_value_bound(bits.drop_first());
        lemma_pow2_unfold(bits.len());
    }
}

/// The lowest `k` binary digits of `x`, least significant first.
pub open spec fn low_bits(x: nat, k: nat) -> Seq<bool>
    decreases k,
{
    if k == 0 {
        Seq::empty()
    } else {
        seq![x % 2 == 1] + low_bits(x / 2, (k - 1) as nat)
    }
}

/// The lowest `k` digits of `x` are worth `x mod 2^k`.
proof fn lemma_low_bits_value(x: nat, k: nat)
    ensures
        low_bits(x, k).len() == k,
        bits_value(low_bits(x, k)) == x % pow2(k),
    decreases k,
{
    lemma_pow2_zero_one();
    if k > 0 {
        lemma_low_bits_value(x / 2, (k - 1) as nat);
        let s = low_bits(x, k);
        assert(s.drop_first() =~= low_bits(x / 2, (k - 1) as nat));
        lemma_pow2_unfold(k);
        lemma_pow2_pos((k - 1) as nat);
        vstd::arithmetic::div_mod::lemma_mod_breakdown(x as int, 2, pow2((k - 1) as nat) as int);
    } else {
        vstd::arithmetic::div_mod::lemma_small_mod(0, 1);
        vstd::arithmetic::div_mod::lemma_mod_self_0(1);
        assert(x % 1 == 0) by {
            vstd::arithmetic::div_mod::lemma_mod_bound(x as int, 1);
        }
    }
}

/// The digits of the value of a bit sequence are that sequence.
proof fn lemma_low_bits_of_value(s: Seq<bool>)
    ensures
        low_bits(bits_value(s), s.len()) == s,
    decreases s.len(),
{
    if s.len() > 0 {
        let v = bits_value(s.drop_first());
        let b: nat = if s[0] { 1 } else { 0 };
        assert(bits_value(s) == b + 2 * v);
        assert((b + 2 * v) % 2 == b) by {
            vstd::arithmetic::div_mod::lemma_fundamental_div_mod_converse_mod((b + 2 * v) as int, 2, v as int, b as int);
        }
        assert((b + 2 * v) / 2 == v) by {
            vstd::arithmetic::div_mod::lemma_fundamental_div_mod_converse_div((b + 2 * v) as int, 2, v as int, b as int);
        }
        lemma_low_bits_of_value(s.drop_first());
        assert(low_bits(bits_value(s), s.len()) =~= s);
    } else {
        assert(low_bits(bits_value(s), 0) =~= s);
    }
}

/// The digits of `x` grow at the top: digit `k - 1` is `x / 2^(k-1) mod 2`.
proof fn lemma_low_bits_push(x: nat, k: nat)
    requires
        k > 0,
    ensures
        low_bits(x, k) == low_bits(x, (k - 1) as nat).push((x / pow2((k - 1) as nat)) % 2 == 1),
    decreases k,
{
    lemma_pow2_zero_one();
    if k == 1 {
        assert(low_bits(x, 0) =~= Seq::<bool>::empty());
        assert(low_bits(x / 2, 0) =~= Seq::<bool>::empty());
        assert(low_bits(x, 1) =~= seq![x % 2 == 1]);
        assert(x / pow2(0) == x);
        assert(low_bits(x, 1) =~= low_bits(x, 0).push((x / pow2(0)) % 2 == 1));
    } else {
        lemma_low_bits_push(x / 2, (k - 1) as nat);
        lemma_pow2_pos((k - 2) as nat);
        lemma_div_denominator(x as int, 2, pow2((k - 2) as nat) as int);
        lemma_pow2_unfold((k - 1) as nat);
        let tail = low_bits(x / 2, (k - 2) as nat);
        assert(low_bits(x / 2, (k - 1) as nat) == tail.push(((x / 2) / pow2((k - 2) as nat)) % 2 == 1));
        assert(2 * pow2((k - 2) as nat) == pow2((k - 1) as nat));
        assert((x / 2) / pow2((k - 2) as nat) == x / pow2((k - 1) as nat));
        assert(low_bits(x, (k - 1) as nat) == seq![x % 2 == 1] + tail);
        assert(low_bits(x, k) == seq![x % 2 == 1] + low_bits(x / 2, (k - 1) as nat));
        assert(low_bits(x, k) =~= low_bits(x, (k - 1) as nat).push((x / pow2((k - 1) as nat)) % 2 == 1));
    }
}

/// Reversing the lowest `k` bits is reading the digits backwards.
proof fn lemma_reverse_bits_digits(x: nat, k: nat)
    ensures
        reverse_bits(x, k) == bits_value(low_bits(x, k).reverse()),
    decreases k,
{
    if k == 0 {
        assert(low_bits(x, 0).reverse() =~= Seq::<bool>::empty());
    } else {
        lemma_reverse_bits_digits(x, (k - 1) as nat);
        lemma_low_bits_push(x, k);
        let prev = low_bits(x, (k - 1) as nat);
        let bit = (x / pow2((k - 1) as nat)) % 2 == 1;
        let r = prev.push(bit).reverse();
        assert(r.drop_first() =~= prev.reverse());
        assert(r[0] == bit);
        lemma_pow2_pos((k - 1) as nat);
        vstd::arithmetic::div_mod::lemma_mod_bound((x / pow2((k - 1) as nat)) as int, 2);
    }
}

/// Reversing `k` bits twice gives back the lowest `k` bits: the conversion
/// between the two variable orders is its own inverse.
pub proof fn lemma_reverse_bits_involution(x: nat, k: nat)
    ensures
        reverse_bits(reverse_bits(x, k), k) == x % pow2(k),
{
    let digits = low_bits(x, k);
    lemma_low_bits_value(x, k);
    lemma_reverse_bits_digits(x, k);
    let y = reverse_bits(x, k);
    let r = digits.reverse();
    lemma_low_bits_of_value(r);
    lemma_reverse_bits_digits(y, k);
    assert(r.reverse() =~= digits);
}

/// Digit `i` of the reversal of the lowest `k` bits of `x` is digit
/// `k - 1 - i` of `x`.
pub proof fn lemma_reverse_bits_digit_order(x: nat, k: nat)
    ensures
        low_bits(reverse_bits(x, k), k) == low_bits(x, k).reverse(),
{
    lemma_low_bits_value(x, k);
    lemma_reverse_bits_digits(x, k);
    lemma_low_bits_of_value(low_bits(x, k).reverse());
}

} // verus!
