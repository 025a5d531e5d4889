//! The group order `r` is prime. For each prime involved, a Lucas
//! certificate (a witness of order `p - 1` and the prime factors of `p - 1`)
//! is checked by square-and-multiply on concrete numbers.

use vstd::prelude::*;
use crate::curve::scalar::fr_modulus;
use crate::ecc::modular::is_prime;
use crate::ecc::lucas::{pm, list_prod, lemma_lucas, lemma_pm_one, lemma_pm_double, lemma_pm_succ, lemma_list_prod_front};

verus! {

/// 2 is prime.
proof fn lemma_prime_2()
    ensures
        is_prime(2nat),
{
}

/// `2^2 mod 3`.
proof fn lemma_pow_3_full()
    ensures
        pm(2, 2nat, 3) == 1,
{
    let m: int = 3;
    lemma_pm_one(2, m);
    lemma_pm_double(2, 1nat, m);
    assert(pm(2, 2nat, m) == 1);
}

/// `2^1 mod 3`.
proof fn lemma_pow_3_by_2()
    ensures
        pm(2, 1nat, 3) == 2,
{
    let m: int = 3;
    lemma_pm_one(2, m);
}

/// 3 is prime.
proof fn lemma_prime_3()
    ensures
        is_prime(3nat),
{
    lemma_prime_2();
    lemma_pow_3_full();
    lemma_pow_3_by_2();
    let n: int = 3;
    let qs = Seq::new(1nat, |i: int| { 2nat });
    assert(qs.subrange(1, 1).len() == 0);
    assert(list_prod(qs.subrange(1, 1)) == 1);
    lemma_list_prod_front(qs, 0, 2nat, 1nat);
    assert(qs.subrange(0, 1) =~= qs);
    assert forall|i: int| 0 <= i < qs.len() implies is_prime(#[trigger] qs[i]) by {
        assert(qs[i] == 2);
    }
    assert forall|i: int| 0 <= i < qs.len() implies (n - 1) % (#[trigger] qs[i] as int) == 0
        && pm(2, ((n - 1) / (qs[i] as int)) as nat, n) != 1 by {
        assert(qs[i] == 2);
        assert((n - 1) % 2int == 0);
        assert((n - 1) / 2int == 1int);
    }
    lemma_lucas(n, 2, qs);
}

/// `2^4 mod 5`.
proof fn lemma_pow_5_full()
    ensures
        pm(2, 4nat, 5) == 1,
{
    let m: int = 5;
    lemma_pm_one(2, m);
    lemma_pm_double(2, 1nat, m);
    assert(pm(2, 2nat, m) == 4);
    lemma_pm_double(2, 2nat, m);
    assert(pm(2, 4nat, m) == 1);
}

/// `2^2 mod 5`.
proof fn lemma_pow_5_by_2()
    ensures
        pm(2, 2nat, 5) == 4,
{
    let m: int = 5;
    lemma_pm_one(2, m);
    lemma_pm_double(2, 1nat, m);
    assert(pm(2, 2nat, m) == 4);
}

/// 5 is prime.
proof fn lemma_prime_5()
    ensures
        is_prime(5nat),
{
    lemma_prime_2();
    lemma_pow_5_full();
    lemma_pow_5_by_2();
    let n: int = 5;
    let qs = Seq::new(2nat, |i: int| { 2nat });
    assert(qs.subrange(2, 2).len() == 0);
    assert(list_prod(qs.subrange(2, 2)) == 1);
    lemma_list_prod_front(qs, 1, 2nat, 1nat);
    lemma_list_prod_front(qs, 0, 2nat, 2nat);
    assert(qs.subrange(0, 2) =~= qs);
    assert forall|i: int| 0 <= i < qs.len() implies is_prime(#[trigger] qs[i]) by {
        assert(qs[i] == 2);
    }
    assert forall|i: int| 0 <= i < qs.len() implies (n - 1) % (#[trigger] qs[i] as int) == 0
        && pm(2, ((n - 1) / (qs[i] as int)) as nat, n) != 1 by {
        assert(qs[i] == 2);
        assert((n - 1) % 2int == 0);
        assert((n - 1) / 2int == 2int);
    }
    lemma_lucas(n, 2, qs);
}

/// `2^10 mod 11`.
proof fn lemma_pow_11_full()
    ensures
        pm(2, 10nat, 11) == 1,
{
    let m: int = 11;
    lemma_pm_one(2, m);
    lemma_pm_double(2, 1nat, m);
    assert(pm(2, 2nat, m) == 4);
    lemma_pm_double(2, 2nat, m);
    assert(pm(2, 4nat, m) == 5);
    lemma_pm_succ(2, 4nat, m);
    assert(pm(2, 5nat, m) == 10);
    lemma_pm_double(2, 5nat, m);
    assert(pm(2, 10nat, m) == 1);
}

/// `2^5 mod 11`.
proof fn lemma_pow_11_by_2()
    ensures
        pm(2, 5nat, 11) == 10,
{
    let m: int = 11;
    lemma_pm_one(2, m);
    lemma_pm_double(2, 1nat, m);
    assert(pm(2, 2nat, m) == 4);
    lemma_pm_double(2, 2nat, m);
    assert(pm(2, 4nat, m) == 5);
    lemma_pm_succ(2, 4nat, m);
    assert(pm(2, 5nat, m) == 10);
}

/// `2^2 mod 11`.
proof fn lemma_pow_11_by_5()
    ensures
        pm(2, 2nat, 11) == 4,
{
    let m: int = 11;
    lemma_pm_one(2, m);
    lemma_pm_double(2, 1nat, m);
    assert(pm(2, 2nat, m) == 4);
}

/// 11 is prime.
proof fn lemma_prime_11()
    ensures
        is_prime(11nat),
{
    lemma_prime_2();
    lemma_prime_5();
    lemma_pow_11_full();
    lemma_pow_11_by_2();
    lemma_pow_11_by_5();
    let n: int = 11;
    let qs = Seq::new(2nat, |i: int| if i < 1 { 2nat } else { 5nat });
    assert(qs.subrange(2, 2).len() == 0);
    assert(list_prod(qs.subrange(2, 2)) == 1);
    lemma_list_prod_front(qs, 1, 5nat, 1nat);
    lemma_list_prod_front(qs, 0, 2nat, 5nat);
    assert(qs.subrange(0, 2) =~= qs);
    assert forall|i: int| 0 <= i < qs.len() implies is_prime(#[trigger] qs[i]) by {
        if i < 1 {
            assert(qs[i] == 2);
        } else {
            assert(qs[i] == 5);
        }
    }
    assert forall|i: int| 0 <= i < qs.len() implies (n - 1) % (#[trigger] qs[i] as int) == 0
        && pm(2, ((n - 1) / (qs[i] as int)) as nat, n) != 1 by {
        if i < 1 {
            assert(qs[i] == 2);
            assert((n - 1) % 2int == 0);
            assert((n - 1) / 2int == 5int);
        } else {
            assert(qs[i] == 5);
            assert((n - 1) % 5int == 0);
            assert((n - 1) / 5int == 2int);
        }
    }
    lemma_lucas(n, 2, qs);
}

/// `2^18 mod 19`.
proof fn lemma_pow_19_full()
    ensures
        pm(2, 18nat, 19) == 1,
{
    let m: int = 19;
    lemma_pm_one(2, m);
    lemma_pm_double(2, 1nat, m);
    assert(pm(2, 2nat, m) == 4);
    lemma_pm_double(2, 2nat, m);
    assert(pm(2, 4nat, m) == 16);
    lemma_pm_double(2, 4nat, m);
    assert(pm(2, 8nat, m) == 9);
    lemma_pm_succ(2, 8nat, m);
    assert(pm(2, 9nat, m) == 18);
    lemma_pm_double(2, 9nat, m);
    assert(pm(2, 18nat, m) == 1);
}

/// `2^9 mod 19`.
proof fn lemma_pow_19_by_2()
    ensures
        pm(2, 9nat, 19) == 18,
{
    let m: int = 19;
    lemma_pm_one(2, m);
    lemma_pm_double(2, 1nat, m);
    assert(pm(2, 2nat, m) == 4);
    lemma_pm_double(2, 2nat, m);
    assert(pm(2, 4nat, m) == 16);
    lemma_pm_double(2, 4nat, m);
    assert(pm(2, 8nat, m) == 9);
    lemma_pm_succ(2, 8nat, m);
    assert(pm(2, 9nat, m) == 18);
}

/// `2^6 mod 19`.
proof fn lemma_pow_19_by_3()
    ensures
        pm(2, 6nat, 19) == 7,
{
    let m: int = 19;
    lemma_pm_one(2, m);
    lemma_pm_double(2, 1nat, m);
    assert(pm(2, 2nat, m) == 4);
    lemma_pm_succ(2, 2nat, m);
    assert(pm(2, 3nat, m) == 8);
    lemma_pm_double(2, 3nat, m);
    assert(pm(2, 6nat, m) == 7);
}

/// 19 is prime.
proof fn lemma_prime_19()
    ensures
        is_prime(19nat),
{
    lemma_prime_2();
    lemma_prime_3();
    lemma_pow_19_full();
    lemma_pow_19_by_2();
    lemma_pow_19_by_3();
    let n: int = 19;
    let qs = Seq::new(3nat, |i: int| if i < 1 { 2nat } else { 3nat });
    assert(qs.subrange(3, 3).len() == 0);
    assert(list_prod(qs.subrange(3, 3)) == 1);
    lemma_list_prod_front(qs, 2, 3nat, 1nat);
    lemma_list_prod_front(qs, 1, 3nat, 3nat);
    lemma_list_prod_front(qs, 0, 2nat, 9nat);
    assert(qs.subrange(0, 3) =~= qs);
    assert forall|i: int| 0 <= i < qs.len() implies is_prime(#[trigger] qs[i]) by {
        if i < 1 {
            assert(qs[i] == 2);
        } else {
            assert(qs[i] == 3);
        }
    }
    assert forall|i: int| 0 <= i < qs.len() implies (n - 1) % (#[trigger] qs[i] as int) == 0
        && pm(2, ((n - 1) / (qs[i] as int)) as nat, n) != 1 by {
        if i < 1 {
            assert(qs[i] == 2);
            assert((n - 1) % 2int == 0);
            assert((n - 1) / 2int == 9int);
        } else {
            assert(qs[i] == 3);
            assert((n - 1) % 3int == 0);
            assert((n - 1) / 3int == 6int);
        }
    }
    lemma_lucas(n, 2, qs);
}

/// `2^12 mod 13`.
proof fn lemma_pow_13_full()
    ensures
        pm(2, 12nat, 13) == 1,
{
    let m: int = 13;
    lemma_pm_one(2, m);
    lemma_pm_double(2, 1nat, m);
    assert(pm(2, 2nat, m) == 4);
    lemma_pm_succ(2, 2nat, m);
    assert(pm(2, 3nat, m) == 8);
    lemma_pm_double(2, 3nat, m);
    assert(pm(2, 6nat, m) == 12);
    lemma_pm_double(2, 6nat, m);
    assert(pm(2, 12nat, m) == 1);
}

/// `2^6 mod 13`.
proof fn lemma_pow_13_by_2()
    ensures
        pm(2, 6nat, 13) == 12,
{
    let m: int = 13;
    lemma_pm_one(2, m);
    lemma_pm_double(2, 1nat, m);
    assert(pm(2, 2nat, m) == 4);
    lemma_pm_succ(2, 2nat, m);
    assert(pm(2, 3nat, m) == 8);
    lemma_pm_double(2, 3nat, m);
    assert(pm(2, 6nat, m) == 12);
}

/// `2^4 mod 13`.
proof fn lemma_pow_13_by_3()
    ensures
        pm(2, 4nat, 13) == 3,
{
    let m: int = 13;
    lemma_pm_one(2, m);
    lemma_pm_double(2, 1nat, m);
    assert(pm(2, 2nat, m) == 4);
    lemma_pm_double(2, 2nat, m);
    assert(pm(2, 4nat, m) == 3);
}

/// 13 is prime.
proof fn lemma_prime_13()
    ensures
        is_prime(13nat),
{
    lemma_prime_2();
    lemma_prime_3();
    lemma_pow_13_full();
    lemma_pow_13_by_2();
    lemma_pow_13_by_3();
    let n: int = 13;
    let qs = Seq::new(3nat, |i: int| if i < 2 { 2nat } else { 3nat });
    assert(qs.subrange(3, 3).len() == 0);
    assert(list_prod(qs.subrange(3, 3)) == 1);
    lemma_list_prod_front(qs, 2, 3nat, 1nat);
    lemma_list_prod_front(qs, 1, 2nat, 3nat);
    lemma_list_prod_front(qs, 0, 2nat, 6nat);
    assert(qs.subrange(0, 3) =~= qs);
    assert forall|i: int| 0 <= i < qs.len() implies is_prime(#[trigger] qs[i]) by {
        if i < 2 {
            assert(qs[i] == 2);
        } else {
            assert(qs[i] == 3);
        }
    }
    assert forall|i: int| 0 <= i < qs.len() implies (n - 1) % (#[trigger] qs[i] as int) == 0
        && pm(2, ((n - 1) / (qs[i] as int)) as nat, n) != 1 by {
        if i < 2 {
            assert(qs[i] == 2);
            assert((n - 1) % 2int == 0);
            assert((n - 1) / 2int == 6int);
        } else {
            assert(qs[i] == 3);
            assert((n - 1) % 3int == 0);
            assert((n - 1) / 3int == 4int);
        }
    }
    lemma_lucas(n, 2, qs);
}

/// `2^52 mod 53`.
proof fn lemma_pow_53_full()
    ensures
        pm(2, 52nat, 53) == 1,
{
    let m: int = 53;
    lemma_pm_one(2, m);
    lemma_pm_double(2, 1nat, m);
    assert(pm(2, 2nat, m) == 4);
    lemma_pm_succ(2, 2nat, m);
    assert(pm(2, 3nat, m) == 8);
    lemma_pm_double(2, 3nat, m);
    assert(pm(2, 6nat, m) == 11);
    lemma_pm_double(2, 6nat, m);
    assert(pm(2, 12nat, m) == 15);
    lemma_pm_succ(2, 12nat, m);
    assert(pm(2, 13nat, m) == 30);
    lemma_pm_double(2, 13nat, m);
    assert(pm(2, 26nat, m) == 52);
    lemma_pm_double(2, 26nat, m);
    assert(pm(2, 52nat, m) == 1);
}

/// `2^26 mod 53`.
proof fn lemma_pow_53_by_2()
    ensures
        pm(2, 26nat, 53) == 52,
{
    let m: int = 53;
    lemma_pm_one(2, m);
    lemma_pm_double(2, 1nat, m);
    assert(pm(2, 2nat, m) == 4);
    lemma_pm_succ(2, 2nat, m);
    assert(pm(2, 3nat, m) == 8);
    lemma_pm_double(2, 3nat, m);
    assert(pm(2, 6nat, m) == 11);
    lemma_pm_double(2, 6nat, m);
    assert(pm(2, 12nat, m) == 15);
    lemma_pm_succ(2, 12nat, m);
    assert(pm(2, 13nat, m) == 30);
    lemma_pm_double(2, 13nat, m);
    assert(pm(2, 26nat, m) == 52);
}

/// `2^4 mod 53`.
proof fn lemma_pow_53_by_13()
    ensures
        pm(2, 4nat, 53) == 16,
{
    let m: int = 53;
    lemma_pm_one(2, m);
    lemma_pm_double(2, 1nat, m);
    assert(pm(2, 2nat, m) == 4);
    lemma_pm_double(2, 2nat, m);
    assert(pm(2, 4nat, m) == 16);
}

/// 53 is prime.
proof fn lemma_prime_53()
    ensures
        is_prime(53nat),
{
    lemma_prime_2();
    lemma_prime_13();
    lemma_pow_53_full();
    lemma_pow_53_by_2();
    lemma_pow_53_by_13();
    let n: int = 53;
    let qs = Seq::new(3nat, |i: int| if i < 2 { 2nat } else { 13nat });
    assert(qs.subrange(3, 3).len() == 0);
    assert(list_prod(qs.subrange(3, 3)) == 1);
    lemma_list_prod_front(qs, 2, 13nat, 1nat);
    lemma_list_prod_front(qs, 1, 2nat, 13nat);
    lemma_list_prod_front(qs, 0, 2nat, 26nat);
    assert(qs.subrange(0, 3) =~= qs);
    assert forall|i: int| 0 <= i < qs.len() implies is_prime(#[trigger] qs[i]) by {
        if i < 2 {
            assert(qs[i] == 2);
        } else {
            assert(qs[i] == 13);
        }
    }
    assert forall|i: int| 0 <= i < qs.len() implies (n - 1) % (#[trigger] qs[i] as int) == 0
        && pm(2, ((n - 1) / (qs[i] as int)) as nat, n) != 1 by {
        if i < 2 {
            assert(qs[i] == 2);
            assert((n - 1) % 2int == 0);
            assert((n - 1) / 2int == 26int);
        } else {
            assert(qs[i] == 13);
            assert((n - 1) % 13int == 0);
            assert((n - 1) / 13int == 4int);
        }
    }
    lemma_lucas(n, 2, qs);
}

/// `7^10176 mod 10177`.
proof fn lemma_pow_10177_full()
    ensures
        pm(7, 10176nat, 10177) == 1,
{
    let m: int = 10177;
    lemma_pm_one(7, m);
    lemma_pm_double(7, 1nat, m);
    assert(pm(7, 2nat, m) == 49);
    lemma_pm_double(7, 2nat, m);
    assert(pm(7, 4nat, m) == 2401);
    lemma_pm_double(7, 4nat, m);
    assert(pm(7, 8nat, m) == 4619);
    lemma_pm_succ(7, 8nat, m);
    assert(pm(7, 9nat, m) == 1802);
    lemma_pm_double(7, 9nat, m);
    assert(pm(7, 18nat, m) == 741);
    lemma_pm_succ(7, 18nat, m);
    assert(pm(7, 19nat, m) == 5187);
    lemma_pm_double(7, 19nat, m);
    assert(pm(7, 38nat, m) == 7158);
    lemma_pm_succ(7, 38nat, m);
    assert(pm(7, 39nat, m) == 9398);
    lemma_pm_double(7, 39nat, m);
    assert(pm(7, 78nat, m) == 6398);
    lemma_pm_succ(7, 78nat, m);
    assert(pm(7, 79nat, m) == 4078);
    lemma_pm_double(7, 79nat, m);
    assert(pm(7, 158nat, m) == 866);
    lemma_pm_succ(7, 158nat, m);
    assert(pm(7, 159nat, m) == 6062);
    lemma_pm_double(7, 159nat, m);
    assert(pm(7, 318nat, m) == 8874);
    lemma_pm_double(7, 318nat, m);
    assert(pm(7, 636nat, m) == 8427);
    lemma_pm_double(7, 636nat, m);
    assert(pm(7, 1272nat, m) == 9400);
    lemma_pm_double(7, 1272nat, m);
    assert(pm(7, 2544nat, m) == 3286);
    lemma_pm_double(7, 2544nat, m);
    assert(pm(7, 5088nat, m) == 10176);
    lemma_pm_double(7, 5088nat, m);
    assert(pm(7, 10176nat, m) == 1);
}

/// `7^5088 mod 10177`.
proof fn lemma_pow_10177_by_2()
    ensures
        pm(7, 5088nat, 10177) == 10176,
{
    let m: int = 10177;
    lemma_pm_one(7, m);
    lemma_pm_double(7, 1nat, m);
    assert(pm(7, 2nat, m) == 49);
    lemma_pm_double(7, 2nat, m);
    assert(pm(7, 4nat, m) == 2401);
    lemma_pm_double(7, 4nat, m);
    assert(pm(7, 8nat, m) == 4619);
    lemma_pm_succ(7, 8nat, m);
    assert(pm(7, 9nat, m) == 1802);
    lemma_pm_double(7, 9nat, m);
    assert(pm(7, 18nat, m) == 741);
    lemma_pm_succ(7, 18nat, m);
    assert(pm(7, 19nat, m) == 5187);
    lemma_pm_double(7, 19nat, m);
    assert(pm(7, 38nat, m) == 7158);
    lemma_pm_succ(7, 38nat, m);
    assert(pm(7, 39nat, m) == 9398);
    lemma_pm_double(7, 39nat, m);
    assert(pm(7, 78nat, m) == 6398);
    lemma_pm_succ(7, 78nat, m);
    assert(pm(7, 79nat, m) == 4078);
    lemma_pm_double(7, 79nat, m);
    assert(pm(7, 158nat, m) == 866);
    lemma_pm_succ(7, 158nat, m);
    assert(pm(7, 159nat, m) == 6062);
    lemma_pm_double(7, 159nat, m);
    assert(pm(7, 318nat, m) == 8874);
    lemma_pm_double(7, 318nat, m);
    assert(pm(7, 636nat, m) == 8427);
    lemma_pm_double(7, 636nat, m);
    assert(pm(7, 1272nat, m) == 9400);
    lemma_pm_double(7, 1272nat, m);
    assert(pm(7, 2544nat, m) == 3286);
    lemma_pm_double(7, 2544nat, m);
    assert(pm(7, 5088nat, m) == 10176);
}

/// `7^3392 mod 10177`.
proof fn lemma_pow_10177_by_3()
    ensures
        pm(7, 3392nat, 10177) == 4773,
{
    let m: int = 10177;
    lemma_pm_one(7, m);
    lemma_pm_double(7, 1nat, m);
    assert(pm(7, 2nat, m) == 49);
    lemma_pm_succ(7, 2nat, m);
    assert(pm(7, 3nat, m) == 343);
    lemma_pm_double(7, 3nat, m);
    assert(pm(7, 6nat, m) == 5702);
    lemma_pm_double(7, 6nat, m);
    assert(pm(7, 12nat, m) == 7466);
    lemma_pm_succ(7, 12nat, m);
    assert(pm(7, 13nat, m) == 1377);
    lemma_pm_double(7, 13nat, m);
    assert(pm(7, 26nat, m) == 3207);
    lemma_pm_double(7, 26nat, m);
    assert(pm(7, 52nat, m) == 6079);
    lemma_pm_succ(7, 52nat, m);
    assert(pm(7, 53nat, m) == 1845);
    lemma_pm_double(7, 53nat, m);
    assert(pm(7, 106nat, m) == 4907);
    lemma_pm_double(7, 106nat, m);
    assert(pm(7, 212nat, m) == 10044);
    lemma_pm_double(7, 212nat, m);
    assert(pm(7, 424nat, m) == 7512);
    lemma_pm_double(7, 424nat, m);
    assert(pm(7, 848nat, m) == 8856);
    lemma_pm_double(7, 848nat, m);
    assert(pm(7, 1696nat, m) == 4774);
    lemma_pm_double(7, 1696nat, m);
    assert(pm(7, 3392nat, m) == 4773);
}

/// `7^192 mod 10177`.
proof fn lemma_pow_10177_by_53()
    ensures
        pm(7, 192nat, 10177) == 3616,
{
    let m: int = 10177;
    lemma_pm_one(7, m);
    lemma_pm_double(7, 1nat, m);
    assert(pm(7, 2nat, m) == 49);
    lemma_pm_succ(7, 2nat, m);
    assert(pm(7, 3nat, m) == 343);
    lemma_pm_double(7, 3nat, m);
    assert(pm(7, 6nat, m) == 5702);
    lemma_pm_double(7, 6nat, m);
    assert(pm(7, 12nat, m) == 7466);
    lemma_pm_double(7, 12nat, m);
    assert(pm(7, 24nat, m) == 1727);
    lemma_pm_double(7, 24nat, m);
    assert(pm(7, 48nat, m) == 668);
    lemma_pm_double(7, 48nat, m);
    assert(pm(7, 96nat, m) == 8613);
    lemma_pm_double(7, 96nat, m);
    assert(pm(7, 192nat, m) == 3616);
}

/// 10177 is prime.
proof fn lemma_prime_10177()
    ensures
        is_prime(10177nat),
{
    lemma_prime_2();
    lemma_prime_3();
    lemma_prime_53();
    lemma_pow_10177_full();
    lemma_pow_10177_by_2();
    lemma_pow_10177_by_3();
    lemma_pow_10177_by_53();
    let n: int = 10177;
    let qs = Seq::new(8nat, |i: int| if i < 6 { 2nat } else if i < 7 { 3nat } else { 53nat });
    assert(qs.subrange(8, 8).len() == 0);
    assert(list_prod(qs.subrange(8, 8)) == 1);
    lemma_list_prod_front(qs, 7, 53nat, 1nat);
    lemma_list_prod_front(qs, 6, 3nat, 53nat);
    lemma_list_prod_front(qs, 5, 2nat, 159nat);
    lemma_list_prod_front(qs, 4, 2nat, 318nat);
    lemma_list_prod_front(qs, 3, 2nat, 636nat);
    lemma_list_prod_front(qs, 2, 2nat, 1272nat);
    lemma_list_prod_front(qs, 1, 2nat, 2544nat);
    lemma_list_prod_front(qs, 0, 2nat, 5088nat);
    assert(qs.subrange(0, 8) =~= qs);
    assert forall|i: int| 0 <= i < qs.len() implies is_prime(#[trigger] qs[i]) by {
        if i < 6 {
            assert(qs[i] == 2);
        } else if i < 7 {
            assert(qs[i] == 3);
        } else {
            assert(qs[i] == 53);
        }
    }
    assert forall|i: int| 0 <= i < qs.len() implies (n - 1) % (#[trigger] qs[i] as int) == 0
        && pm(7, ((n - 1) / (qs[i] as int)) as nat, n) != 1 by {
        if i < 6 {
            assert(qs[i] == 2);
            assert((n - 1) % 2int == 0);
            assert((n - 1) / 2int == 5088int);
        } else if i < 7 {
            assert(qs[i] == 3);
            assert((n - 1) % 3int == 0);
            assert((n - 1) / 3int == 3392int);
        } else {
            assert(qs[i] == 53);
            assert((n - 1) % 53int == 0);
            assert((n - 1) / 53int == 192int);
        }
    }
    lemma_lucas(n, 7, qs);
}

/// `5^22 mod 23`.
proof fn lemma_pow_23_full()
    ensures
        pm(5, 22nat, 23) == 1,
{
    let m: int = 23;
    lemma_pm_one(5, m);
    lemma_pm_double(5, 1nat, m);
    assert(pm(5, 2nat, m) == 2);
    lemma_pm_double(5, 2nat, m);
    assert(pm(5, 4nat, m) == 4);
    lemma_pm_succ(5, 4nat, m);
    assert(pm(5, 5nat, m) == 20);
    lemma_pm_double(5, 5nat, m);
    assert(pm(5, 10nat, m) == 9);
    lemma_pm_succ(5, 10nat, m);
    assert(pm(5, 11nat, m) == 22);
    lemma_pm_double(5, 11nat, m);
    assert(pm(5, 22nat, m) == 1);
}

/// `5^11 mod 23`.
proof fn lemma_pow_23_by_2()
    ensures
        pm(5, 11nat, 23) == 22,
{
    let m: int = 23;
    lemma_pm_one(5, m);
    lemma_pm_double(5, 1nat, m);
    assert(pm(5, 2nat, m) == 2);
    lemma_pm_double(5, 2nat, m);
    assert(pm(5, 4nat, m) == 4);
    lemma_pm_succ(5, 4nat, m);
    assert(pm(5, 5nat, m) == 20);
    lemma_pm_double(5, 5nat, m);
    assert(pm(5, 10nat, m) == 9);
    lemma_pm_succ(5, 10nat, m);
    assert(pm(5, 11nat, m) == 22);
}

/// `5^2 mod 23`.
proof fn lemma_pow_23_by_11()
    ensures
        pm(5, 2nat, 23) == 2,
{
    let m: int = 23;
    lemma_pm_one(5, m);
    lemma_pm_double(5, 1nat, m);
    assert(pm(5, 2nat, m) == 2);
}

/// 23 is prime.
proof fn lemma_prime_23()
    ensures
        is_prime(23nat),
{
    lemma_prime_2();
    lemma_prime_11();
    lemma_pow_23_full();
    lemma_pow_23_by_2();
    lemma_pow_23_by_11();
    let n: int = 23;
    let qs = Seq::new(2nat, |i: int| if i < 1 { 2nat } else { 11nat });
    assert(qs.subrange(2, 2).len() == 0);
    assert(list_prod(qs.subrange(2, 2)) == 1);
    lemma_list_prod_front(qs, 1, 11nat, 1nat);
    lemma_list_prod_front(qs, 0, 2nat, 11nat);
    assert(qs.subrange(0, 2) =~= qs);
    assert forall|i: int| 0 <= i < qs.len() implies is_prime(#[trigger] qs[i]) by {
        if i < 1 {
            assert(qs[i] == 2);
        } else {
            assert(qs[i] == 11);
        }
    }
    assert forall|i: int| 0 <= i < qs.len() implies (n - 1) % (#[trigger] qs[i] as int) == 0
        && pm(5, ((n - 1) / (qs[i] as int)) as nat, n) != 1 by {
        if i < 1 {
            assert(qs[i] == 2);
            assert((n - 1) % 2int == 0);
            assert((n - 1) / 2int == 11int);
        } else {
            assert(qs[i] == 11);
            assert((n - 1) % 11int == 0);
            assert((n - 1) / 11int == 2int);
        }
    }
    lemma_lucas(n, 5, qs);
}

/// `5^46 mod 47`.
proof fn lemma_pow_47_full()
    ensures
        pm(5, 46nat, 47) == 1,
{
    let m: int = 47;
    lemma_pm_one(5, m);
    lemma_pm_double(5, 1nat, m);
    assert(pm(5, 2nat, m) == 25);
    lemma_pm_double(5, 2nat, m);
    assert(pm(5, 4nat, m) == 14);
    lemma_pm_succ(5, 4nat, m);
    assert(pm(5, 5nat, m) == 23);
    lemma_pm_double(5, 5nat, m);
    assert(pm(5, 10nat, m) == 12);
    lemma_pm_succ(5, 10nat, m);
    assert(pm(5, 11nat, m) == 13);
    lemma_pm_double(5, 11nat, m);
    assert(pm(5, 22nat, m) == 28);
    lemma_pm_succ(5, 22nat, m);
    assert(pm(5, 23nat, m) == 46);
    lemma_pm_double(5, 23nat, m);
    assert(pm(5, 46nat, m) == 1);
}

/// `5^23 mod 47`.
proof fn lemma_pow_47_by_2()
    ensures
        pm(5, 23nat, 47) == 46,
{
    let m: int = 47;
    lemma_pm_one(5, m);
    lemma_pm_double(5, 1nat, m);
    assert(pm(5, 2nat, m) == 25);
    lemma_pm_double(5, 2nat, m);
    assert(pm(5, 4nat, m) == 14);
    lemma_pm_succ(5, 4nat, m);
    assert(pm(5, 5nat, m) == 23);
    lemma_pm_double(5, 5nat, m);
    assert(pm(5, 10nat, m) == 12);
    lemma_pm_succ(5, 10nat, m);
    assert(pm(5, 11nat, m) == 13);
    lemma_pm_double(5, 11nat, m);
    assert(pm(5, 22nat, m) == 28);
    lemma_pm_succ(5, 22nat, m);
    assert(pm(5, 23nat, m) == 46);
}

/// `5^2 mod 47`.
proof fn lemma_pow_47_by_23()
    ensures
        pm(5, 2nat, 47) == 25,
{
    let m: int = 47;
    lemma_pm_one(5, m);
    lemma_pm_double(5, 1nat, m);
    assert(pm(5, 2nat, m) == 25);
}

/// 47 is prime.
proof fn lemma_prime_47()
    ensures
        is_prime(47nat),
{
    lemma_prime_2();
    lemma_prime_23();
    lemma_pow_47_full();
    lemma_pow_47_by_2();
    lemma_pow_47_by_23();
    let n: int = 47;
    let qs = Seq::new(2nat, |i: int| if i < 1 { 2nat } else { 23nat });
    assert(qs.subrange(2, 2).len() == 0);
    assert(list_prod(qs.subrange(2, 2)) == 1);
    lemma_list_prod_front(qs, 1, 23nat, 1nat);
    lemma_list_prod_front(qs, 0, 2nat, 23nat);
    assert(qs.subrange(0, 2) =~= qs);
    assert forall|i: int| 0 <= i < qs.len() implies is_prime(#[trigger] qs[i]) by {
        if i < 1 {
            assert(qs[i] == 2);
        } else {
            assert(qs[i] == 23);
        }
    }
    assert forall|i: int| 0 <= i < qs.len() implies (n - 1) % (#[trigger] qs[i] as int) == 0
        && pm(5, ((n - 1) / (qs[i] as int)) as nat, n) != 1 by {
        if i < 1 {
            assert(qs[i] == 2);
            assert((n - 1) % 2int == 0);
            assert((n - 1) / 2int == 23int);
        } else {
            assert(qs[i] == 23);
            assert((n - 1) % 23int == 0);
            assert((n - 1) / 23int == 2int);
        }
    }
    lemma_lucas(n, 5, qs);
}

/// `5^72 mod 73`.
proof fn lemma_pow_73_full()
    ensures
        pm(5, 72nat, 73) == 1,
{
    let m: int = 73;
    lemma_pm_one(5, m);
    lemma_pm_double(5, 1nat, m);
    assert(pm(5, 2nat, m) == 25);
    lemma_pm_double(5, 2nat, m);
    assert(pm(5, 4nat, m) == 41);
    lemma_pm_double(5, 4nat, m);
    assert(pm(5, 8nat, m) == 2);
    lemma_pm_succ(5, 8nat, m);
    assert(pm(5, 9nat, m) == 10);
    lemma_pm_double(5, 9nat, m);
    assert(pm(5, 18nat, m) == 27);
    lemma_pm_double(5, 18nat, m);
    assert(pm(5, 36nat, m) == 72);
    lemma_pm_double(5, 36nat, m);
    assert(pm(5, 72nat, m) == 1);
}

/// `5^36 mod 73`.
proof fn lemma_pow_73_by_2()
    ensures
        pm(5, 36nat, 73) == 72,
{
    let m: int = 73;
    lemma_pm_one(5, m);
    lemma_pm_double(5, 1nat, m);
    assert(pm(5, 2nat, m) == 25);
    lemma_pm_double(5, 2nat, m);
    assert(pm(5, 4nat, m) == 41);
    lemma_pm_double(5, 4nat, m);
    assert(pm(5, 8nat, m) == 2);
    lemma_pm_succ(5, 8nat, m);
    assert(pm(5, 9nat, m) == 10);
    lemma_pm_double(5, 9nat, m);
    assert(pm(5, 18nat, m) == 27);
    lemma_pm_double(5, 18nat, m);
    assert(pm(5, 36nat, m) == 72);
}

/// `5^24 mod 73`.
proof fn lemma_pow_73_by_3()
    ensures
        pm(5, 24nat, 73) == 8,
{
    let m: int = 73;
    lemma_pm_one(5, m);
    lemma_pm_double(5, 1nat, m);
    assert(pm(5, 2nat, m) == 25);
    lemma_pm_succ(5, 2nat, m);
    assert(pm(5, 3nat, m) == 52);
    lemma_pm_double(5, 3nat, m);
    assert(pm(5, 6nat, m) == 3);
    lemma_pm_double(5, 6nat, m);
    assert(pm(5, 12nat, m) == 9);
    lemma_pm_double(5, 12nat, m);
    assert(pm(5, 24nat, m) == 8);
}

/// 73 is prime.
proof fn lemma_prime_73()
    ensures
        is_prime(73nat),
{
    lemma_prime_2();
    lemma_prime_3();
    lemma_pow_73_full();
    lemma_pow_73_by_2();
    lemma_pow_73_by_3();
    let n: int = 73;
    let qs = Seq::new(5nat, |i: int| if i < 3 { 2nat } else { 3nat });
    assert(qs.subrange(5, 5).len() == 0);
    assert(list_prod(qs.subrange(5, 5)) == 1);
    lemma_list_prod_front(qs, 4, 3nat, 1nat);
    lemma_list_prod_front(qs, 3, 3nat, 3nat);
    lemma_list_prod_front(qs, 2, 2nat, 9nat);
    lemma_list_prod_front(qs, 1, 2nat, 18nat);
    lemma_list_prod_front(qs, 0, 2nat, 36nat);
    assert(qs.subrange(0, 5) =~= qs);
    assert forall|i: int| 0 <= i < qs.len() implies is_prime(#[trigger] qs[i]) by {
        if i < 3 {
            assert(qs[i] == 2);
        } else {
            assert(qs[i] == 3);
        }
    }
    assert forall|i: int| 0 <= i < qs.len() implies (n - 1) % (#[trigger] qs[i] as int) == 0
        && pm(5, ((n - 1) / (qs[i] as int)) as nat, n) != 1 by {
        if i < 3 {
            assert(qs[i] == 2);
            assert((n - 1) % 2int == 0);
            assert((n - 1) / 2int == 36int);
        } else {
            assert(qs[i] == 3);
            assert((n - 1) % 3int == 0);
            assert((n - 1) / 3int == 24int);
        }
    }
    lemma_lucas(n, 5, qs);
}

/// `5^1606 mod 1607`.
proof fn lemma_pow_1607_full()
    ensures
        pm(5, 1606nat, 1607) == 1,
{
    let m: int = 1607;
    lemma_pm_one(5, m);
    lemma_pm_double(5, 1nat, m);
    assert(pm(5, 2nat, m) == 25);
    lemma_pm_succ(5, 2nat, m);
    assert(pm(5, 3nat, m) == 125);
    lemma_pm_double(5, 3nat, m);
    assert(pm(5, 6nat, m) == 1162);
    lemma_pm_double(5, 6nat, m);
    assert(pm(5, 12nat, m) == 364);
    lemma_pm_double(5, 12nat, m);
    assert(pm(5, 24nat, m) == 722);
    lemma_pm_succ(5, 24nat, m);
    assert(pm(5, 25nat, m) == 396);
    lemma_pm_double(5, 25nat, m);
    assert(pm(5, 50nat, m) == 937);
    lemma_pm_double(5, 50nat, m);
    assert(pm(5, 100nat, m) == 547);
    lemma_pm_double(5, 100nat, m);
    assert(pm(5, 200nat, m) == 307);
    lemma_pm_double(5, 200nat, m);
    assert(pm(5, 400nat, m) == 1043);
    lemma_pm_succ(5, 400nat, m);
    assert(pm(5, 401nat, m) == 394);
    lemma_pm_double(5, 401nat, m);
    assert(pm(5, 802nat, m) == 964);
    lemma_pm_succ(5, 802nat, m);
    assert(pm(5, 803nat, m) == 1606);
    lemma_pm_double(5, 803nat, m);
    assert(pm(5, 1606nat, m) == 1);
}

/// `5^803 mod 1607`.
proof fn lemma_pow_1607_by_2()
    ensures
        pm(5, 803nat, 1607) == 1606,
{
    let m: int = 1607;
    lemma_pm_one(5, m);
    lemma_pm_double(5, 1nat, m);
    assert(pm(5, 2nat, m) == 25);
    lemma_pm_succ(5, 2nat, m);
    assert(pm(5, 3nat, m) == 125);
    lemma_pm_double(5, 3nat, m);
    assert(pm(5, 6nat, m) == 1162);
    lemma_pm_double(5, 6nat, m);
    assert(pm(5, 12nat, m) == 364);
    lemma_pm_double(5, 12nat, m);
    assert(pm(5, 24nat, m) == 722);
    lemma_pm_succ(5, 24nat, m);
    assert(pm(5, 25nat, m) == 396);
    lemma_pm_double(5, 25nat, m);
    assert(pm(5, 50nat, m) == 937);
    lemma_pm_double(5, 50nat, m);
    assert(pm(5, 100nat, m) == 547);
    lemma_pm_double(5, 100nat, m);
    assert(pm(5, 200nat, m) == 307);
    lemma_pm_double(5, 200nat, m);
    assert(pm(5, 400nat, m) == 1043);
    lemma_pm_succ(5, 400nat, m);
    assert(pm(5, 401nat, m) == 394);
    lemma_pm_double(5, 401nat, m);
    assert(pm(5, 802nat, m) == 964);
    lemma_pm_succ(5, 802nat, m);
    assert(pm(5, 803nat, m) == 1606);
}

/// `5^146 mod 1607`.
proof fn lemma_pow_1607_by_11()
    ensures
        pm(5, 146nat, 1607) == 1522,
{
    let m: int = 1607;
    lemma_pm_one(5, m);
    lemma_pm_double(5, 1nat, m);
    assert(pm(5, 2nat, m) == 25);
    lemma_pm_double(5, 2nat, m);
    assert(pm(5, 4nat, m) == 625);
    lemma_pm_double(5, 4nat, m);
    assert(pm(5, 8nat, m) == 124);
    lemma_pm_succ(5, 8nat, m);
    assert(pm(5, 9nat, m) == 620);
    lemma_pm_double(5, 9nat, m);
    assert(pm(5, 18nat, m) == 327);
    lemma_pm_double(5, 18nat, m);
    assert(pm(5, 36nat, m) == 867);
    lemma_pm_double(5, 36nat, m);
    assert(pm(5, 72nat, m) == 1220);
    lemma_pm_succ(5, 72nat, m);
    assert(pm(5, 73nat, m) == 1279);
    lemma_pm_double(5, 73nat, m);
    assert(pm(5, 146nat, m) == 1522);
}

/// `5^22 mod 1607`.
proof fn lemma_pow_1607_by_73()
    ensures
        pm(5, 22nat, 1607) == 286,
{
    let m: int = 1607;
    lemma_pm_one(5, m);
    lemma_pm_double(5, 1nat, m);
    assert(pm(5, 2nat, m) == 25);
    lemma_pm_double(5, 2nat, m);
    assert(pm(5, 4nat, m) == 625);
    lemma_pm_succ(5, 4nat, m);
    assert(pm(5, 5nat, m) == 1518);
    lemma_pm_double(5, 5nat, m);
    assert(pm(5, 10nat, m) == 1493);
    lemma_pm_succ(5, 10nat, m);
    assert(pm(5, 11nat, m) == 1037);
    lemma_pm_double(5, 11nat, m);
    assert(pm(5, 22nat, m) == 286);
}

/// 1607 is prime.
proof fn lemma_prime_1607()
    ensures
        is_prime(1607nat),
{
    lemma_prime_2();
    lemma_prime_11();
    lemma_prime_73();
    lemma_pow_1607_full();
    lemma_pow_1607_by_2();
    lemma_pow_1607_by_11();
    lemma_pow_1607_by_73();
    let n: int = 1607;
    let qs = Seq::new(3nat, |i: int| if i < 1 { 2nat } else if i < 2 { 11nat } else { 73nat });
    assert(qs.subrange(3, 3).len() == 0);
    assert(list_prod(qs.subrange(3, 3)) == 1);
    lemma_list_prod_front(qs, 2, 73nat, 1nat);
    lemma_list_prod_front(qs, 1, 11nat, 73nat);
    lemma_list_prod_front(qs, 0, 2nat, 803nat);
    assert(qs.subrange(0, 3) =~= qs);
    assert forall|i: int| 0 <= i < qs.len() implies is_prime(#[trigger] qs[i]) by {
        if i < 1 {
            assert(qs[i] == 2);
        } else if i < 2 {
            assert(qs[i] == 11);
        } else {
            assert(qs[i] == 73);
        }
    }
    assert forall|i: int| 0 <= i < qs.len() implies (n - 1) % (#[trigger] qs[i] as int) == 0
        && pm(5, ((n - 1) / (qs[i] as int)) as nat, n) != 1 by {
        if i < 1 {
            assert(qs[i] == 2);
            assert((n - 1) % 2int == 0);
            assert((n - 1) / 2int == 803int);
        } else if i < 2 {
            assert(qs[i] == 11);
            assert((n - 1) % 11int == 0);
            assert((n - 1) / 11int == 146int);
        } else {
            assert(qs[i] == 73);
            assert((n - 1) % 73int == 0);
            assert((n - 1) / 73int == 22int);
        }
    }
    lemma_lucas(n, 5, qs);
}

/// `2^906348 mod 906349`.
proof fn lemma_pow_906349_full()
    ensures
        pm(2, 906348nat, 906349) == 1,
{
    let m: int = 906349;
    lemma_pm_one(2, m);
    lemma_pm_double(2, 1nat, m);
    assert(pm(2, 2nat, m) == 4);
    lemma_pm_succ(2, 2nat, m);
    assert(pm(2, 3nat, m) == 8);
    lemma_pm_double(2, 3nat, m);
    assert(pm(2, 6nat, m) == 64);
    lemma_pm_double(2, 6nat, m);
    assert(pm(2, 12nat, m) == 4096);
    lemma_pm_succ(2, 12nat, m);
    assert(pm(2, 13nat, m) == 8192);
    lemma_pm_double(2, 13nat, m);
    assert(pm(2, 26nat, m) == 39038);
    lemma_pm_succ(2, 26nat, m);
    assert(pm(2, 27nat, m) == 78076);
    lemma_pm_double(2, 27nat, m);
    assert(pm(2, 54nat, m) == 664751);
    lemma_pm_succ(2, 54nat, m);
    assert(pm(2, 55nat, m) == 423153);
    lemma_pm_double(2, 55nat, m);
    assert(pm(2, 110nat, m) == 152969);
    lemma_pm_double(2, 110nat, m);
    assert(pm(2, 220nat, m) == 302828);
    lemma_pm_succ(2, 220nat, m);
    assert(pm(2, 221nat, m) == 605656);
    lemma_pm_double(2, 221nat, m);
    assert(pm(2, 442nat, m) == 716707);
    lemma_pm_double(2, 442nat, m);
    assert(pm(2, 884nat, m) == 159844);
    lemma_pm_succ(2, 884nat, m);
    assert(pm(2, 885nat, m) == 319688);
    lemma_pm_double(2, 885nat, m);
    assert(pm(2, 1770nat, m) == 504104);
    lemma_pm_double(2, 1770nat, m);
    assert(pm(2, 3540nat, m) == 522894);
    lemma_pm_double(2, 3540nat, m);
    assert(pm(2, 7080nat, m) == 738755);
    lemma_pm_double(2, 7080nat, m);
    assert(pm(2, 14160nat, m) == 899675);
    lemma_pm_succ(2, 14160nat, m);
    assert(pm(2, 14161nat, m) == 893001);
    lemma_pm_double(2, 14161nat, m);
    assert(pm(2, 28322nat, m) == 524700);
    lemma_pm_succ(2, 28322nat, m);
    assert(pm(2, 28323nat, m) == 143051);
    lemma_pm_double(2, 28323nat, m);
    assert(pm(2, 56646nat, m) == 40879);
    lemma_pm_double(2, 56646nat, m);
    assert(pm(2, 113292nat, m) == 691434);
    lemma_pm_succ(2, 113292nat, m);
    assert(pm(2, 113293nat, m) == 476519);
    lemma_pm_double(2, 113293nat, m);
    assert(pm(2, 226586nat, m) == 23344);
    lemma_pm_succ(2, 226586nat, m);
    assert(pm(2, 226587nat, m) == 46688);
    lemma_pm_double(2, 226587nat, m);
    assert(pm(2, 453174nat, m) == 906348);
    lemma_pm_double(2, 453174nat, m);
    assert(pm(2, 906348nat, m) == 1);
}

/// `2^453174 mod 906349`.
proof fn lemma_pow_906349_by_2()
    ensures
        pm(2, 453174nat, 906349) == 906348,
{
    let m: int = 906349;
    lemma_pm_one(2, m);
    lemma_pm_double(2, 1nat, m);
    assert(pm(2, 2nat, m) == 4);
    lemma_pm_succ(2, 2nat, m);
    assert(pm(2, 3nat, m) == 8);
    lemma_pm_double(2, 3nat, m);
    assert(pm(2, 6nat, m) == 64);
    lemma_pm_double(2, 6nat, m);
    assert(pm(2, 12nat, m) == 4096);
    lemma_pm_succ(2, 12nat, m);
    assert(pm(2, 13nat, m) == 8192);
    lemma_pm_double(2, 13nat, m);
    assert(pm(2, 26nat, m) == 39038);
    lemma_pm_succ(2, 26nat, m);
    assert(pm(2, 27nat, m) == 78076);
    lemma_pm_double(2, 27nat, m);
    assert(pm(2, 54nat, m) == 664751);
    lemma_pm_succ(2, 54nat, m);
    assert(pm(2, 55nat, m) == 423153);
    lemma_pm_double(2, 55nat, m);
    assert(pm(2, 110nat, m) == 152969);
    lemma_pm_double(2, 110nat, m);
    assert(pm(2, 220nat, m) == 302828);
    lemma_pm_succ(2, 220nat, m);
    assert(pm(2, 221nat, m) == 605656);
    lemma_pm_double(2, 221nat, m);
    assert(pm(2, 442nat, m) == 716707);
    lemma_pm_double(2, 442nat, m);
    assert(pm(2, 884nat, m) == 159844);
    lemma_pm_succ(2, 884nat, m);
    assert(pm(2, 885nat, m) == 319688);
    lemma_pm_double(2, 885nat, m);
    assert(pm(2, 1770nat, m) == 504104);
    lemma_pm_double(2, 1770nat, m);
    assert(pm(2, 3540nat, m) == 522894);
    lemma_pm_double(2, 3540nat, m);
    assert(pm(2, 7080nat, m) == 738755);
    lemma_pm_double(2, 7080nat, m);
    assert(pm(2, 14160nat, m) == 899675);
    lemma_pm_succ(2, 14160nat, m);
    assert(pm(2, 14161nat, m) == 893001);
    lemma_pm_double(2, 14161nat, m);
    assert(pm(2, 28322nat, m) == 524700);
    lemma_pm_succ(2, 28322nat, m);
    assert(pm(2, 28323nat, m) == 143051);
    lemma_pm_double(2, 28323nat, m);
    assert(pm(2, 56646nat, m) == 40879);
    lemma_pm_double(2, 56646nat, m);
    assert(pm(2, 113292nat, m) == 691434);
    lemma_pm_succ(2, 113292nat, m);
    assert(pm(2, 113293nat, m) == 476519);
    lemma_pm_double(2, 113293nat, m);
    assert(pm(2, 226586nat, m) == 23344);
    lemma_pm_succ(2, 226586nat, m);
    assert(pm(2, 226587nat, m) == 46688);
    lemma_pm_double(2, 226587nat, m);
    assert(pm(2, 453174nat, m) == 906348);
}

/// `2^302116 mod 906349`.
proof fn lemma_pow_906349_by_3()
    ensures
        pm(2, 302116nat, 906349) == 161246,
{
    let m: int = 906349;
    lemma_pm_one(2, m);
    lemma_pm_double(2, 1nat, m);
    assert(pm(2, 2nat, m) == 4);
    lemma_pm_double(2, 2nat, m);
    assert(pm(2, 4nat, m) == 16);
    lemma_pm_double(2, 4nat, m);
    assert(pm(2, 8nat, m) == 256);
    lemma_pm_succ(2, 8nat, m);
    assert(pm(2, 9nat, m) == 512);
    lemma_pm_double(2, 9nat, m);
    assert(pm(2, 18nat, m) == 262144);
    lemma_pm_double(2, 18nat, m);
    assert(pm(2, 36nat, m) == 95556);
    lemma_pm_double(2, 36nat, m);
    assert(pm(2, 72nat, m) == 389310);
    lemma_pm_succ(2, 72nat, m);
    assert(pm(2, 73nat, m) == 778620);
    lemma_pm_double(2, 73nat, m);
    assert(pm(2, 146nat, m) == 415441);
    lemma_pm_succ(2, 146nat, m);
    assert(pm(2, 147nat, m) == 830882);
    lemma_pm_double(2, 147nat, m);
    assert(pm(2, 294nat, m) == 677322);
    lemma_pm_succ(2, 294nat, m);
    assert(pm(2, 295nat, m) == 448295);
    lemma_pm_double(2, 295nat, m);
    assert(pm(2, 590nat, m) == 17859);
    lemma_pm_double(2, 590nat, m);
    assert(pm(2, 1180nat, m) == 815382);
    lemma_pm_double(2, 1180nat, m);
    assert(pm(2, 2360nat, m) == 28719);
    lemma_pm_double(2, 2360nat, m);
    assert(pm(2, 4720nat, m) == 3371);
    lemma_pm_double(2, 4720nat, m);
    assert(pm(2, 9440nat, m) == 487453);
    lemma_pm_succ(2, 9440nat, m);
    assert(pm(2, 9441nat, m) == 68557);
    lemma_pm_double(2, 9441nat, m);
    assert(pm(2, 18882nat, m) == 642684);
    lemma_pm_double(2, 18882nat, m);
    assert(pm(2, 37764nat, m) == 451227);
    lemma_pm_double(2, 37764nat, m);
    assert(pm(2, 75528nat, m) == 847122);
    lemma_pm_succ(2, 75528nat, m);
    assert(pm(2, 75529nat, m) == 787895);
    lemma_pm_double(2, 75529nat, m);
    assert(pm(2, 151058nat, m) == 161247);
    lemma_pm_double(2, 151058nat, m);
    assert(pm(2, 302116nat, m) == 161246);
}

/// `2^19284 mod 906349`.
proof fn lemma_pow_906349_by_47()
    ensures
        pm(2, 19284nat, 906349) == 69344,
{
    let m: int = 906349;
    lemma_pm_one(2, m);
    lemma_pm_double(2, 1nat, m);
    assert(pm(2, 2nat, m) == 4);
    lemma_pm_double(2, 2nat, m);
    assert(pm(2, 4nat, m) == 16);
    lemma_pm_double(2, 4nat, m);
    assert(pm(2, 8nat, m) == 256);
    lemma_pm_succ(2, 8nat, m);
    assert(pm(2, 9nat, m) == 512);
    lemma_pm_double(2, 9nat, m);
    assert(pm(2, 18nat, m) == 262144);
    lemma_pm_double(2, 18nat, m);
    assert(pm(2, 36nat, m) == 95556);
    lemma_pm_succ(2, 36nat, m);
    assert(pm(2, 37nat, m) == 191112);
    lemma_pm_double(2, 37nat, m);
    assert(pm(2, 74nat, m) == 650891);
    lemma_pm_succ(2, 74nat, m);
    assert(pm(2, 75nat, m) == 395433);
    lemma_pm_double(2, 75nat, m);
    assert(pm(2, 150nat, m) == 302613);
    lemma_pm_double(2, 150nat, m);
    assert(pm(2, 300nat, m) == 750205);
    lemma_pm_succ(2, 300nat, m);
    assert(pm(2, 301nat, m) == 594061);
    lemma_pm_double(2, 301nat, m);
    assert(pm(2, 602nat, m) == 642544);
    lemma_pm_double(2, 602nat, m);
    assert(pm(2, 1204nat, m) == 882758);
    lemma_pm_succ(2, 1204nat, m);
    assert(pm(2, 1205nat, m) == 859167);
    lemma_pm_double(2, 1205nat, m);
    assert(pm(2, 2410nat, m) == 147980);
    lemma_pm_double(2, 2410nat, m);
    assert(pm(2, 4820nat, m) == 688560);
    lemma_pm_succ(2, 4820nat, m);
    assert(pm(2, 4821nat, m) == 470771);
    lemma_pm_double(2, 4821nat, m);
    assert(pm(2, 9642nat, m) == 345216);
    lemma_pm_double(2, 9642nat, m);
    assert(pm(2, 19284nat, m) == 69344);
}

/// `2^564 mod 906349`.
proof fn lemma_pow_906349_by_1607()
    ensures
        pm(2, 564nat, 906349) == 210417,
{
    let m: int = 906349;
    lemma_pm_one(2, m);
    lemma_pm_double(2, 1nat, m);
    assert(pm(2, 2nat, m) == 4);
    lemma_pm_double(2, 2nat, m);
    assert(pm(2, 4nat, m) == 16);
    lemma_pm_double(2, 4nat, m);
    assert(pm(2, 8nat, m) == 256);
    lemma_pm_double(2, 8nat, m);
    assert(pm(2, 16nat, m) == 65536);
    lemma_pm_succ(2, 16nat, m);
    assert(pm(2, 17nat, m) == 131072);
    lemma_pm_double(2, 17nat, m);
    assert(pm(2, 34nat, m) == 23889);
    lemma_pm_succ(2, 34nat, m);
    assert(pm(2, 35nat, m) == 47778);
    lemma_pm_double(2, 35nat, m);
    assert(pm(2, 70nat, m) == 550502);
    lemma_pm_double(2, 70nat, m);
    assert(pm(2, 140nat, m) == 162270);
    lemma_pm_succ(2, 140nat, m);
    assert(pm(2, 141nat, m) == 324540);
    lemma_pm_double(2, 141nat, m);
    assert(pm(2, 282nat, m) == 300659);
    lemma_pm_double(2, 282nat, m);
    assert(pm(2, 564nat, m) == 210417);
}

/// 906349 is prime.
proof fn lemma_prime_906349()
    ensures
        is_prime(906349nat),
{
    lemma_prime_2();
    lemma_prime_3();
    lemma_prime_47();
    lemma_prime_1607();
    lemma_pow_906349_full();
    lemma_pow_906349_by_2();
    lemma_pow_906349_by_3();
    lemma_pow_906349_by_47();
    lemma_pow_906349_by_1607();
    let n: int = 906349;
    let qs = Seq::new(5nat, |i: int| if i < 2 { 2nat } else if i < 3 { 3nat } else if i < 4 { 47nat } else { 1607nat });
    assert(qs.subrange(5, 5).len() == 0);
    assert(list_prod(qs.subrange(5, 5)) == 1);
    lemma_list_prod_front(qs, 4, 1607nat, 1nat);
    lemma_list_prod_front(qs, 3, 47nat, 1607nat);
    lemma_list_prod_front(qs, 2, 3nat, 75529nat);
    lemma_list_prod_front(qs, 1, 2nat, 226587nat);
    lemma_list_prod_front(qs, 0, 2nat, 453174nat);
    assert(qs.subrange(0, 5) =~= qs);
    assert forall|i: int| 0 <= i < qs.len() implies is_prime(#[trigger] qs[i]) by {
        if i < 2 {
            assert(qs[i] == 2);
        } else if i < 3 {
            assert(qs[i] == 3);
        } else if i < 4 {
            assert(qs[i] == 47);
        } else {
            assert(qs[i] == 1607);
        }
    }
    assert forall|i: int| 0 <= i < qs.len() implies (n - 1) % (#[trigger] qs[i] as int) == 0
        && pm(2, ((n - 1) / (qs[i] as int)) as nat, n) != 1 by {
        if i < 2 {
            assert(qs[i] == 2);
            assert((n - 1) % 2int == 0);
            assert((n - 1) / 2int == 453174int);
        } else if i < 3 {
            assert(qs[i] == 3);
            assert((n - 1) % 3int == 0);
            assert((n - 1) / 3int == 302116int);
        } else if i < 4 {
            assert(qs[i] == 47);
            assert((n - 1) % 47int == 0);
            assert((n - 1) / 47int == 19284int);
        } else {
            assert(qs[i] == 1607);
            assert((n - 1) % 1607int == 0);
            assert((n - 1) / 1607int == 564int);
        }
    }
    lemma_lucas(n, 2, qs);
}

/// `3^6 mod 7`.
proof fn lemma_pow_7_full()
    ensures
        pm(3, 6nat, 7) == 1,
{
    let m: int = 7;
    lemma_pm_one(3, m);
    lemma_pm_double(3, 1nat, m);
    assert(pm(3, 2nat, m) == 2);
    lemma_pm_succ(3, 2nat, m);
    assert(pm(3, 3nat, m) == 6);
    lemma_pm_double(3, 3nat, m);
    assert(pm(3, 6nat, m) == 1);
}

/// `3^3 mod 7`.
proof fn lemma_pow_7_by_2()
    ensures
        pm(3, 3nat, 7) == 6,
{
    let m: int = 7;
    lemma_pm_one(3, m);
    lemma_pm_double(3, 1nat, m);
    assert(pm(3, 2nat, m) == 2);
    lemma_pm_succ(3, 2nat, m);
    assert(pm(3, 3nat, m) == 6);
}

/// `3^2 mod 7`.
proof fn lemma_pow_7_by_3()
    ensures
        pm(3, 2nat, 7) == 2,
{
    let m: int = 7;
    lemma_pm_one(3, m);
    lemma_pm_double(3, 1nat, m);
    assert(pm(3, 2nat, m) == 2);
}

/// 7 is prime.
proof fn lemma_prime_7()
    ensures
        is_prime(7nat),
{
    lemma_prime_2();
    lemma_prime_3();
    lemma_pow_7_full();
    lemma_pow_7_by_2();
    lemma_pow_7_by_3();
    let n: int = 7;
    let qs = Seq::new(2nat, |i: int| if i < 1 { 2nat } else { 3nat });
    assert(qs.subrange(2, 2).len() == 0);
    assert(list_prod(qs.subrange(2, 2)) == 1);
    lemma_list_prod_front(qs, 1, 3nat, 1nat);
    lemma_list_prod_front(qs, 0, 2nat, 3nat);
    assert(qs.subrange(0, 2) =~= qs);
    assert forall|i: int| 0 <= i < qs.len() implies is_prime(#[trigger] qs[i]) by {
        if i < 1 {
            assert(qs[i] == 2);
        } else {
            assert(qs[i] == 3);
        }
    }
    assert forall|i: int| 0 <= i < qs.len() implies (n - 1) % (#[trigger] qs[i] as int) == 0
        && pm(3, ((n - 1) / (qs[i] as int)) as nat, n) != 1 by {
        if i < 1 {
            assert(qs[i] == 2);
            assert((n - 1) % 2int == 0);
            assert((n - 1) / 2int == 3int);
        } else {
            assert(qs[i] == 3);
            assert((n - 1) % 3int == 0);
            assert((n - 1) / 3int == 2int);
        }
    }
    lemma_lucas(n, 3, qs);
}

/// `3^78 mod 79`.
proof fn lemma_pow_79_full()
    ensures
        pm(3, 78nat, 79) == 1,
{
    let m: int = 79;
    lemma_pm_one(3, m);
    lemma_pm_double(3, 1nat, m);
    assert(pm(3, 2nat, m) == 9);
    lemma_pm_double(3, 2nat, m);
    assert(pm(3, 4nat, m) == 2);
    lemma_pm_double(3, 4nat, m);
    assert(pm(3, 8nat, m) == 4);
    lemma_pm_succ(3, 8nat, m);
    assert(pm(3, 9nat, m) == 12);
    lemma_pm_double(3, 9nat, m);
    assert(pm(3, 18nat, m) == 65);
    lemma_pm_succ(3, 18nat, m);
    assert(pm(3, 19nat, m) == 37);
    lemma_pm_double(3, 19nat, m);
    assert(pm(3, 38nat, m) == 26);
    lemma_pm_succ(3, 38nat, m);
    assert(pm(3, 39nat, m) == 78);
    lemma_pm_double(3, 39nat, m);
    assert(pm(3, 78nat, m) == 1);
}

/// `3^39 mod 79`.
proof fn lemma_pow_79_by_2()
    ensures
        pm(3, 39nat, 79) == 78,
{
    let m: int = 79;
    lemma_pm_one(3, m);
    lemma_pm_double(3, 1nat, m);
    assert(pm(3, 2nat, m) == 9);
    lemma_pm_double(3, 2nat, m);
    assert(pm(3, 4nat, m) == 2);
    lemma_pm_double(3, 4nat, m);
    assert(pm(3, 8nat, m) == 4);
    lemma_pm_succ(3, 8nat, m);
    assert(pm(3, 9nat, m) == 12);
    lemma_pm_double(3, 9nat, m);
    assert(pm(3, 18nat, m) == 65);
    lemma_pm_succ(3, 18nat, m);
    assert(pm(3, 19nat, m) == 37);
    lemma_pm_double(3, 19nat, m);
    assert(pm(3, 38nat, m) == 26);
    lemma_pm_succ(3, 38nat, m);
    assert(pm(3, 39nat, m) == 78);
}

/// `3^26 mod 79`.
proof fn lemma_pow_79_by_3()
    ensures
        pm(3, 26nat, 79) == 23,
{
    let m: int = 79;
    lemma_pm_one(3, m);
    lemma_pm_double(3, 1nat, m);
    assert(pm(3, 2nat, m) == 9);
    lemma_pm_succ(3, 2nat, m);
    assert(pm(3, 3nat, m) == 27);
    lemma_pm_double(3, 3nat, m);
    assert(pm(3, 6nat, m) == 18);
    lemma_pm_double(3, 6nat, m);
    assert(pm(3, 12nat, m) == 8);
    lemma_pm_succ(3, 12nat, m);
    assert(pm(3, 13nat, m) == 24);
    lemma_pm_double(3, 13nat, m);
    assert(pm(3, 26nat, m) == 23);
}

/// `3^6 mod 79`.
proof fn lemma_pow_79_by_13()
    ensures
        pm(3, 6nat, 79) == 18,
{
    let m: int = 79;
    lemma_pm_one(3, m);
    lemma_pm_double(3, 1nat, m);
    assert(pm(3, 2nat, m) == 9);
    lemma_pm_succ(3, 2nat, m);
    assert(pm(3, 3nat, m) == 27);
    lemma_pm_double(3, 3nat, m);
    assert(pm(3, 6nat, m) == 18);
}

/// 79 is prime.
proof fn lemma_prime_79()
    ensures
        is_prime(79nat),
{
    lemma_prime_2();
    lemma_prime_3();
    lemma_prime_13();
    lemma_pow_79_full();
    lemma_pow_79_by_2();
    lemma_pow_79_by_3();
    lemma_pow_79_by_13();
    let n: int = 79;
    let qs = Seq::new(3nat, |i: int| if i < 1 { 2nat } else if i < 2 { 3nat } else { 13nat });
    assert(qs.subrange(3, 3).len() == 0);
    assert(list_prod(qs.subrange(3, 3)) == 1);
    lemma_list_prod_front(qs, 2, 13nat, 1nat);
    lemma_list_prod_front(qs, 1, 3nat, 13nat);
    lemma_list_prod_front(qs, 0, 2nat, 39nat);
    assert(qs.subrange(0, 3) =~= qs);
    assert forall|i: int| 0 <= i < qs.len() implies is_prime(#[trigger] qs[i]) by {
        if i < 1 {
            assert(qs[i] == 2);
        } else if i < 2 {
            assert(qs[i] == 3);
        } else {
            assert(qs[i] == 13);
        }
    }
    assert forall|i: int| 0 <= i < qs.len() implies (n - 1) % (#[trigger] qs[i] as int) == 0
        && pm(3, ((n - 1) / (qs[i] as int)) as nat, n) != 1 by {
        if i < 1 {
            assert(qs[i] == 2);
            assert((n - 1) % 2int == 0);
            assert((n - 1) / 2int == 39int);
        } else if i < 2 {
            assert(qs[i] == 3);
            assert((n - 1) % 3int == 0);
            assert((n - 1) / 3int == 26int);
        } else {
            assert(qs[i] == 13);
            assert((n - 1) % 13int == 0);
            assert((n - 1) / 13int == 6int);
        }
    }
    lemma_lucas(n, 3, qs);
}

/// `11^2508408 mod 2508409`.
proof fn lemma_pow_2508409_full()
    ensures
        pm(11, 2508408nat, 2508409) == 1,
{
    let m: int = 2508409;
    lemma_pm_one(11, m);
    lemma_pm_double(11, 1nat, m);
    assert(pm(11, 2nat, m) == 121);
    lemma_pm_double(11, 2nat, m);
    assert(pm(11, 4nat, m) == 14641);
    lemma_pm_double(11, 4nat, m);
    assert(pm(11, 8nat, m) == 1144116);
    lemma_pm_succ(11, 8nat, m);
    assert(pm(11, 9nat, m) == 43231);
    lemma_pm_double(11, 9nat, m);
    assert(pm(11, 18nat, m) == 154656);
    lemma_pm_succ(11, 18nat, m);
    assert(pm(11, 19nat, m) == 1701216);
    lemma_pm_double(11, 19nat, m);
    assert(pm(11, 38nat, m) == 1301499);
    lemma_pm_double(11, 38nat, m);
    assert(pm(11, 76nat, m) == 1150209);
    lemma_pm_double(11, 76nat, m);
    assert(pm(11, 152nat, m) == 685719);
    lemma_pm_succ(11, 152nat, m);
    assert(pm(11, 153nat, m) == 17682);
    lemma_pm_double(11, 153nat, m);
    assert(pm(11, 306nat, m) == 1610408);
    lemma_pm_double(11, 306nat, m);
    assert(pm(11, 612nat, m) == 2470681);
    lemma_pm_double(11, 612nat, m);
    assert(pm(11, 1224nat, m) == 1134081);
    lemma_pm_double(11, 1224nat, m);
    assert(pm(11, 2448nat, m) == 659582);
    lemma_pm_succ(11, 2448nat, m);
    assert(pm(11, 2449nat, m) == 2238584);
    lemma_pm_double(11, 2449nat, m);
    assert(pm(11, 4898nat, m) == 1467809);
    lemma_pm_succ(11, 4898nat, m);
    assert(pm(11, 4899nat, m) == 1095445);
    lemma_pm_double(11, 4899nat, m);
    assert(pm(11, 9798nat, m) == 1966515);
    lemma_pm_double(11, 9798nat, m);
    assert(pm(11, 19596nat, m) == 2207651);
    lemma_pm_double(11, 19596nat, m);
    assert(pm(11, 39192nat, m) == 2146024);
    lemma_pm_succ(11, 39192nat, m);
    assert(pm(11, 39193nat, m) == 1030583);
    lemma_pm_double(11, 39193nat, m);
    assert(pm(11, 78386nat, m) == 814745);
    lemma_pm_succ(11, 78386nat, m);
    assert(pm(11, 78387nat, m) == 1436968);
    lemma_pm_double(11, 78387nat, m);
    assert(pm(11, 156774nat, m) == 2403995);
    lemma_pm_succ(11, 156774nat, m);
    assert(pm(11, 156775nat, m) == 1359855);
    lemma_pm_double(11, 156775nat, m);
    assert(pm(11, 313550nat, m) == 1489407);
    lemma_pm_succ(11, 313550nat, m);
    assert(pm(11, 313551nat, m) == 1333023);
    lemma_pm_double(11, 313551nat, m);
    assert(pm(11, 627102nat, m) == 908156);
    lemma_pm_double(11, 627102nat, m);
    assert(pm(11, 1254204nat, m) == 2508408);
    lemma_pm_double(11, 1254204nat, m);
    assert(pm(11, 2508408nat, m) == 1);
}

/// `11^1254204 mod 2508409`.
proof fn lemma_pow_2508409_by_2()
    ensures
        pm(11, 1254204nat, 2508409) == 2508408,
{
    let m: int = 2508409;
    lemma_pm_one(11, m);
    lemma_pm_double(11, 1nat, m);
    assert(pm(11, 2nat, m) == 121);
    lemma_pm_double(11, 2nat, m);
    assert(pm(11, 4nat, m) == 14641);
    lemma_pm_double(11, 4nat, m);
    assert(pm(11, 8nat, m) == 1144116);
    lemma_pm_succ(11, 8nat, m);
    assert(pm(11, 9nat, m) == 43231);
    lemma_pm_double(11, 9nat, m);
    assert(pm(11, 18nat, m) == 154656);
    lemma_pm_succ(11, 18nat, m);
    assert(pm(11, 19nat, m) == 1701216);
    lemma_pm_double(11, 19nat, m);
    assert(pm(11, 38nat, m) == 1301499);
    lemma_pm_double(11, 38nat, m);
    assert(pm(11, 76nat, m) == 1150209);
    lemma_pm_double(11, 76nat, m);
    assert(pm(11, 152nat, m) == 685719);
    lemma_pm_succ(11, 152nat, m);
    assert(pm(11, 153nat, m) == 17682);
    lemma_pm_double(11, 153nat, m);
    assert(pm(11, 306nat, m) == 1610408);
    lemma_pm_double(11, 306nat, m);
    assert(pm(11, 612nat, m) == 2470681);
    lemma_pm_double(11, 612nat, m);
    assert(pm(11, 1224nat, m) == 1134081);
    lemma_pm_double(11, 1224nat, m);
    assert(pm(11, 2448nat, m) == 659582);
    lemma_pm_succ(11, 2448nat, m);
    assert(pm(11, 2449nat, m) == 2238584);
    lemma_pm_double(11, 2449nat, m);
    assert(pm(11, 4898nat, m) == 1467809);
    lemma_pm_succ(11, 4898nat, m);
    assert(pm(11, 4899nat, m) == 1095445);
    lemma_pm_double(11, 4899nat, m);
    assert(pm(11, 9798nat, m) == 1966515);
    lemma_pm_double(11, 9798nat, m);
    assert(pm(11, 19596nat, m) == 2207651);
    lemma_pm_double(11, 19596nat, m);
    assert(pm(11, 39192nat, m) == 2146024);
    lemma_pm_succ(11, 39192nat, m);
    assert(pm(11, 39193nat, m) == 1030583);
    lemma_pm_double(11, 39193nat, m);
    assert(pm(11, 78386nat, m) == 814745);
    lemma_pm_succ(11, 78386nat, m);
    assert(pm(11, 78387nat, m) == 1436968);
    lemma_pm_double(11, 78387nat, m);
    assert(pm(11, 156774nat, m) == 2403995);
    lemma_pm_succ(11, 156774nat, m);
    assert(pm(11, 156775nat, m) == 1359855);
    lemma_pm_double(11, 156775nat, m);
    assert(pm(11, 313550nat, m) == 1489407);
    lemma_pm_succ(11, 313550nat, m);
    assert(pm(11, 313551nat, m) == 1333023);
    lemma_pm_double(11, 313551nat, m);
    assert(pm(11, 627102nat, m) == 908156);
    lemma_pm_double(11, 627102nat, m);
    assert(pm(11, 1254204nat, m) == 2508408);
}

/// `11^836136 mod 2508409`.
proof fn lemma_pow_2508409_by_3()
    ensures
        pm(11, 836136nat, 2508409) == 875787,
{
    let m: int = 2508409;
    lemma_pm_one(11, m);
    lemma_pm_double(11, 1nat, m);
    assert(pm(11, 2nat, m) == 121);
    lemma_pm_succ(11, 2nat, m);
    assert(pm(11, 3nat, m) == 1331);
    lemma_pm_double(11, 3nat, m);
    assert(pm(11, 6nat, m) == 1771561);
    lemma_pm_double(11, 6nat, m);
    assert(pm(11, 12nat, m) == 2355463);
    lemma_pm_double(11, 12nat, m);
    assert(pm(11, 24nat, m) == 1564991);
    lemma_pm_succ(11, 24nat, m);
    assert(pm(11, 25nat, m) == 2164447);
    lemma_pm_double(11, 25nat, m);
    assert(pm(11, 50nat, m) == 746959);
    lemma_pm_succ(11, 50nat, m);
    assert(pm(11, 51nat, m) == 691322);
    lemma_pm_double(11, 51nat, m);
    assert(pm(11, 102nat, m) == 1449323);
    lemma_pm_double(11, 102nat, m);
    assert(pm(11, 204nat, m) == 478547);
    lemma_pm_double(11, 204nat, m);
    assert(pm(11, 408nat, m) == 2031554);
    lemma_pm_double(11, 408nat, m);
    assert(pm(11, 816nat, m) == 906766);
    lemma_pm_double(11, 816nat, m);
    assert(pm(11, 1632nat, m) == 717873);
    lemma_pm_succ(11, 1632nat, m);
    assert(pm(11, 1633nat, m) == 371376);
    lemma_pm_double(11, 1633nat, m);
    assert(pm(11, 3266nat, m) == 281329);
    lemma_pm_double(11, 3266nat, m);
    assert(pm(11, 6532nat, m) == 685473);
    lemma_pm_double(11, 6532nat, m);
    assert(pm(11, 13064nat, m) == 568258);
    lemma_pm_double(11, 13064nat, m);
    assert(pm(11, 26128nat, m) == 2138767);
    lemma_pm_succ(11, 26128nat, m);
    assert(pm(11, 26129nat, m) == 950756);
    lemma_pm_double(11, 26129nat, m);
    assert(pm(11, 52258nat, m) == 1687478);
    lemma_pm_double(11, 52258nat, m);
    assert(pm(11, 104516nat, m) == 985958);
    lemma_pm_succ(11, 104516nat, m);
    assert(pm(11, 104517nat, m) == 811902);
    lemma_pm_double(11, 104517nat, m);
    assert(pm(11, 209034nat, m) == 56494);
    lemma_pm_double(11, 209034nat, m);
    assert(pm(11, 418068nat, m) == 875788);
    lemma_pm_double(11, 418068nat, m);
    assert(pm(11, 836136nat, m) == 875787);
}

/// `11^358344 mod 2508409`.
proof fn lemma_pow_2508409_by_7()
    ensures
        pm(11, 358344nat, 2508409) == 1491919,
{
    let m: int = 2508409;
    lemma_pm_one(11, m);
    lemma_pm_double(11, 1nat, m);
    assert(pm(11, 2nat, m) == 121);
    lemma_pm_double(11, 2nat, m);
    assert(pm(11, 4nat, m) == 14641);
    lemma_pm_succ(11, 4nat, m);
    assert(pm(11, 5nat, m) == 161051);
    lemma_pm_double(11, 5nat, m);
    assert(pm(11, 10nat, m) == 475541);
    lemma_pm_double(11, 10nat, m);
    assert(pm(11, 20nat, m) == 1154513);
    lemma_pm_succ(11, 20nat, m);
    assert(pm(11, 21nat, m) == 157598);
    lemma_pm_double(11, 21nat, m);
    assert(pm(11, 42nat, m) == 1372095);
    lemma_pm_succ(11, 42nat, m);
    assert(pm(11, 43nat, m) == 42591);
    lemma_pm_double(11, 43nat, m);
    assert(pm(11, 86nat, m) == 413574);
    lemma_pm_succ(11, 86nat, m);
    assert(pm(11, 87nat, m) == 2040905);
    lemma_pm_double(11, 87nat, m);
    assert(pm(11, 174nat, m) == 2313846);
    lemma_pm_double(11, 174nat, m);
    assert(pm(11, 348nat, m) == 360750);
    lemma_pm_succ(11, 348nat, m);
    assert(pm(11, 349nat, m) == 1459841);
    lemma_pm_double(11, 349nat, m);
    assert(pm(11, 698nat, m) == 1492517);
    lemma_pm_succ(11, 698nat, m);
    assert(pm(11, 699nat, m) == 1367233);
    lemma_pm_double(11, 699nat, m);
    assert(pm(11, 1398nat, m) == 1996082);
    lemma_pm_succ(11, 1398nat, m);
    assert(pm(11, 1399nat, m) == 1889630);
    lemma_pm_double(11, 1399nat, m);
    assert(pm(11, 2798nat, m) == 1392672);
    lemma_pm_succ(11, 2798nat, m);
    assert(pm(11, 2799nat, m) == 268938);
    lemma_pm_double(11, 2799nat, m);
    assert(pm(11, 5598nat, m) == 182738);
    lemma_pm_succ(11, 5598nat, m);
    assert(pm(11, 5599nat, m) == 2010118);
    lemma_pm_double(11, 5599nat, m);
    assert(pm(11, 11198nat, m) == 1564225);
    lemma_pm_double(11, 11198nat, m);
    assert(pm(11, 22396nat, m) == 2392483);
    lemma_pm_double(11, 22396nat, m);
    assert(pm(11, 44792nat, m) == 1290463);
    lemma_pm_succ(11, 44792nat, m);
    assert(pm(11, 44793nat, m) == 1653048);
    lemma_pm_double(11, 44793nat, m);
    assert(pm(11, 89586nat, m) == 2245246);
    lemma_pm_double(11, 89586nat, m);
    assert(pm(11, 179172nat, m) == 100488);
    lemma_pm_double(11, 179172nat, m);
    assert(pm(11, 358344nat, m) == 1491919);
}

/// `11^31752 mod 2508409`.
proof fn lemma_pow_2508409_by_79()
    ensures
        pm(11, 31752nat, 2508409) == 2251273,
{
    let m: int = 2508409;
    lemma_pm_one(11, m);
    lemma_pm_double(11, 1nat, m);
    assert(pm(11, 2nat, m) == 121);
    lemma_pm_succ(11, 2nat, m);
    assert(pm(11, 3nat, m) == 1331);
    lemma_pm_double(11, 3nat, m);
    assert(pm(11, 6nat, m) == 1771561);
    lemma_pm_succ(11, 6nat, m);
    assert(pm(11, 7nat, m) == 1928308);
    lemma_pm_double(11, 7nat, m);
    assert(pm(11, 14nat, m) == 1560806);
    lemma_pm_succ(11, 14nat, m);
    assert(pm(11, 15nat, m) == 2118412);
    lemma_pm_double(11, 15nat, m);
    assert(pm(11, 30nat, m) == 280294);
    lemma_pm_succ(11, 30nat, m);
    assert(pm(11, 31nat, m) == 574825);
    lemma_pm_double(11, 31nat, m);
    assert(pm(11, 62nat, m) == 1096691);
    lemma_pm_double(11, 62nat, m);
    assert(pm(11, 124nat, m) == 1710570);
    lemma_pm_double(11, 124nat, m);
    assert(pm(11, 248nat, m) == 660036);
    lemma_pm_double(11, 248nat, m);
    assert(pm(11, 496nat, m) == 2096630);
    lemma_pm_double(11, 496nat, m);
    assert(pm(11, 992nat, m) == 1021668);
    lemma_pm_double(11, 992nat, m);
    assert(pm(11, 1984nat, m) == 1332326);
    lemma_pm_double(11, 1984nat, m);
    assert(pm(11, 3968nat, m) == 1890972);
    lemma_pm_succ(11, 3968nat, m);
    assert(pm(11, 3969nat, m) == 733420);
    lemma_pm_double(11, 3969nat, m);
    assert(pm(11, 7938nat, m) == 1670440);
    lemma_pm_double(11, 7938nat, m);
    assert(pm(11, 15876nat, m) == 571546);
    lemma_pm_double(11, 15876nat, m);
    assert(pm(11, 31752nat, m) == 2251273);
}

/// 2508409 is prime.
proof fn lemma_prime_2508409()
    ensures
        is_prime(2508409nat),
{
    lemma_prime_2();
    lemma_prime_3();
    lemma_prime_7();
    lemma_prime_79();
    lemma_pow_2508409_full();
    lemma_pow_2508409_by_2();
    lemma_pow_2508409_by_3();
    lemma_pow_2508409_by_7();
    lemma_pow_2508409_by_79();
    let n: int = 2508409;
    let qs = Seq::new(10nat, |i: int| if i < 3 { 2nat } else if i < 7 { 3nat } else if i < 9 { 7nat } else { 79nat });
    assert(qs.subrange(10, 10).len() == 0);
    assert(list_prod(qs.subrange(10, 10)) == 1);
    lemma_list_prod_front(qs, 9, 79nat, 1nat);
    lemma_list_prod_front(qs, 8, 7nat, 79nat);
    lemma_list_prod_front(qs, 7, 7nat, 553nat);
    lemma_list_prod_front(qs, 6, 3nat, 3871nat);
    lemma_list_prod_front(qs, 5, 3nat, 11613nat);
    lemma_list_prod_front(qs, 4, 3nat, 34839nat);
    lemma_list_prod_front(qs, 3, 3nat, 104517nat);
    lemma_list_prod_front(qs, 2, 2nat, 313551nat);
    lemma_list_prod_front(qs, 1, 2nat, 627102nat);
    lemma_list_prod_front(qs, 0, 2nat, 1254204nat);
    assert(qs.subrange(0, 10) =~= qs);
    assert forall|i: int| 0 <= i < qs.len() implies is_prime(#[trigger] qs[i]) by {
        if i < 3 {
            assert(qs[i] == 2);
        } else if i < 7 {
            assert(qs[i] == 3);
        } else if i < 9 {
            assert(qs[i] == 7);
        } else {
            assert(qs[i] == 79);
        }
    }
    assert forall|i: int| 0 <= i < qs.len() implies (n - 1) % (#[trigger] qs[i] as int) == 0
        && pm(11, ((n - 1) / (qs[i] as int)) as nat, n) != 1 by {
        if i < 3 {
            assert(qs[i] == 2);
            assert((n - 1) % 2int == 0);
            assert((n - 1) / 2int == 1254204int);
        } else if i < 7 {
            assert(qs[i] == 3);
            assert((n - 1) % 3int == 0);
            assert((n - 1) / 3int == 836136int);
        } else if i < 9 {
            assert(qs[i] == 7);
            assert((n - 1) % 7int == 0);
            assert((n - 1) / 7int == 358344int);
        } else {
            assert(qs[i] == 79);
            assert((n - 1) % 79int == 0);
            assert((n - 1) / 79int == 31752int);
        }
    }
    lemma_lucas(n, 11, qs);
}

/// `2^28 mod 29`.
proof fn lemma_pow_29_full()
    ensures
        pm(2, 28nat, 29) == 1,
{
    let m: int = 29;
    lemma_pm_one(2, m);
    lemma_pm_double(2, 1nat, m);
    assert(pm(2, 2nat, m) == 4);
    lemma_pm_succ(2, 2nat, m);
    assert(pm(2, 3nat, m) == 8);
    lemma_pm_double(2, 3nat, m);
    assert(pm(2, 6nat, m) == 6);
    lemma_pm_succ(2, 6nat, m);
    assert(pm(2, 7nat, m) == 12);
    lemma_pm_double(2, 7nat, m);
    assert(pm(2, 14nat, m) == 28);
    lemma_pm_double(2, 14nat, m);
    assert(pm(2, 28nat, m) == 1);
}

/// `2^14 mod 29`.
proof fn lemma_pow_29_by_2()
    ensures
        pm(2, 14nat, 29) == 28,
{
    let m: int = 29;
    lemma_pm_one(2, m);
    lemma_pm_double(2, 1nat, m);
    assert(pm(2, 2nat, m) == 4);
    lemma_pm_succ(2, 2nat, m);
    assert(pm(2, 3nat, m) == 8);
    lemma_pm_double(2, 3nat, m);
    assert(pm(2, 6nat, m) == 6);
    lemma_pm_succ(2, 6nat, m);
    assert(pm(2, 7nat, m) == 12);
    lemma_pm_double(2, 7nat, m);
    assert(pm(2, 14nat, m) == 28);
}

/// `2^4 mod 29`.
proof fn lemma_pow_29_by_7()
    ensures
        pm(2, 4nat, 29) == 16,
{
    let m: int = 29;
    lemma_pm_one(2, m);
    lemma_pm_double(2, 1nat, m);
    assert(pm(2, 2nat, m) == 4);
    lemma_pm_double(2, 2nat, m);
    assert(pm(2, 4nat, m) == 16);
}

/// 29 is prime.
proof fn lemma_prime_29()
    ensures
        is_prime(29nat),
{
    lemma_prime_2();
    lemma_prime_7();
    lemma_pow_29_full();
    lemma_pow_29_by_2();
    lemma_pow_29_by_7();
    let n: int = 29;
    let qs = Seq::new(3nat, |i: int| if i < 2 { 2nat } else { 7nat });
    assert(qs.subrange(3, 3).len() == 0);
    assert(list_prod(qs.subrange(3, 3)) == 1);
    lemma_list_prod_front(qs, 2, 7nat, 1nat);
    lemma_list_prod_front(qs, 1, 2nat, 7nat);
    lemma_list_prod_front(qs, 0, 2nat, 14nat);
    assert(qs.subrange(0, 3) =~= qs);
    assert forall|i: int| 0 <= i < qs.len() implies is_prime(#[trigger] qs[i]) by {
        if i < 2 {
            assert(qs[i] == 2);
        } else {
            assert(qs[i] == 7);
        }
    }
    assert forall|i: int| 0 <= i < qs.len() implies (n - 1) % (#[trigger] qs[i] as int) == 0
        && pm(2, ((n - 1) / (qs[i] as int)) as nat, n) != 1 by {
        if i < 2 {
            assert(qs[i] == 2);
            assert((n - 1) % 2int == 0);
            assert((n - 1) / 2int == 14int);
        } else {
            assert(qs[i] == 7);
            assert((n - 1) % 7int == 0);
            assert((n - 1) / 7int == 4int);
        }
    }
    lemma_lucas(n, 2, qs);
}

/// `2^522 mod 523`.
proof fn lemma_pow_523_full()
    ensures
        pm(2, 522nat, 523) == 1,
{
    let m: int = 523;
    lemma_pm_one(2, m);
    lemma_pm_double(2, 1nat, m);
    assert(pm(2, 2nat, m) == 4);
    lemma_pm_double(2, 2nat, m);
    assert(pm(2, 4nat, m) == 16);
    lemma_pm_double(2, 4nat, m);
    assert(pm(2, 8nat, m) == 256);
    lemma_pm_double(2, 8nat, m);
    assert(pm(2, 16nat, m) == 161);
    lemma_pm_double(2, 16nat, m);
    assert(pm(2, 32nat, m) == 294);
    lemma_pm_double(2, 32nat, m);
    assert(pm(2, 64nat, m) == 141);
    lemma_pm_succ(2, 64nat, m);
    assert(pm(2, 65nat, m) == 282);
    lemma_pm_double(2, 65nat, m);
    assert(pm(2, 130nat, m) == 28);
    lemma_pm_double(2, 130nat, m);
    assert(pm(2, 260nat, m) == 261);
    lemma_pm_succ(2, 260nat, m);
    assert(pm(2, 261nat, m) == 522);
    lemma_pm_double(2, 261nat, m);
    assert(pm(2, 522nat, m) == 1);
}

/// `2^261 mod 523`.
proof fn lemma_pow_523_by_2()
    ensures
        pm(2, 261nat, 523) == 522,
{
    let m: int = 523;
    lemma_pm_one(2, m);
    lemma_pm_double(2, 1nat, m);
    assert(pm(2, 2nat, m) == 4);
    lemma_pm_double(2, 2nat, m);
    assert(pm(2, 4nat, m) == 16);
    lemma_pm_double(2, 4nat, m);
    assert(pm(2, 8nat, m) == 256);
    lemma_pm_double(2, 8nat, m);
    assert(pm(2, 16nat, m) == 161);
    lemma_pm_double(2, 16nat, m);
    assert(pm(2, 32nat, m) == 294);
    lemma_pm_double(2, 32nat, m);
    assert(pm(2, 64nat, m) == 141);
    lemma_pm_succ(2, 64nat, m);
    assert(pm(2, 65nat, m) == 282);
    lemma_pm_double(2, 65nat, m);
    assert(pm(2, 130nat, m) == 28);
    lemma_pm_double(2, 130nat, m);
    assert(pm(2, 260nat, m) == 261);
    lemma_pm_succ(2, 260nat, m);
    assert(pm(2, 261nat, m) == 522);
}

/// `2^174 mod 523`.
proof fn lemma_pow_523_by_3()
    ensures
        pm(2, 174nat, 523) == 462,
{
    let m: int = 523;
    lemma_pm_one(2, m);
    lemma_pm_double(2, 1nat, m);
    assert(pm(2, 2nat, m) == 4);
    lemma_pm_double(2, 2nat, m);
    assert(pm(2, 4nat, m) == 16);
    lemma_pm_succ(2, 4nat, m);
    assert(pm(2, 5nat, m) == 32);
    lemma_pm_double(2, 5nat, m);
    assert(pm(2, 10nat, m) == 501);
    lemma_pm_double(2, 10nat, m);
    assert(pm(2, 20nat, m) == 484);
    lemma_pm_succ(2, 20nat, m);
    assert(pm(2, 21nat, m) == 445);
    lemma_pm_double(2, 21nat, m);
    assert(pm(2, 42nat, m) == 331);
    lemma_pm_succ(2, 42nat, m);
    assert(pm(2, 43nat, m) == 139);
    lemma_pm_double(2, 43nat, m);
    assert(pm(2, 86nat, m) == 493);
    lemma_pm_succ(2, 86nat, m);
    assert(pm(2, 87nat, m) == 463);
    lemma_pm_double(2, 87nat, m);
    assert(pm(2, 174nat, m) == 462);
}

/// `2^18 mod 523`.
proof fn lemma_pow_523_by_29()
    ensures
        pm(2, 18nat, 523) == 121,
{
    let m: int = 523;
    lemma_pm_one(2, m);
    lemma_pm_double(2, 1nat, m);
    assert(pm(2, 2nat, m) == 4);
    lemma_pm_double(2, 2nat, m);
    assert(pm(2, 4nat, m) == 16);
    lemma_pm_double(2, 4nat, m);
    assert(pm(2, 8nat, m) == 256);
    lemma_pm_succ(2, 8nat, m);
    assert(pm(2, 9nat, m) == 512);
    lemma_pm_double(2, 9nat, m);
    assert(pm(2, 18nat, m) == 121);
}

/// 523 is prime.
proof fn lemma_prime_523()
    ensures
        is_prime(523nat),
{
    lemma_prime_2();
    lemma_prime_3();
    lemma_prime_29();
    lemma_pow_523_full();
    lemma_pow_523_by_2();
    lemma_pow_523_by_3();
    lemma_pow_523_by_29();
    let n: int = 523;
    let qs = Seq::new(4nat, |i: int| if i < 1 { 2nat } else if i < 3 { 3nat } else { 29nat });
    assert(qs.subrange(4, 4).len() == 0);
    assert(list_prod(qs.subrange(4, 4)) == 1);
    lemma_list_prod_front(qs, 3, 29nat, 1nat);
    lemma_list_prod_front(qs, 2, 3nat, 29nat);
    lemma_list_prod_front(qs, 1, 3nat, 87nat);
    lemma_list_prod_front(qs, 0, 2nat, 261nat);
    assert(qs.subrange(0, 4) =~= qs);
    assert forall|i: int| 0 <= i < qs.len() implies is_prime(#[trigger] qs[i]) by {
        if i < 1 {
            assert(qs[i] == 2);
        } else if i < 3 {
            assert(qs[i] == 3);
        } else {
            assert(qs[i] == 29);
        }
    }
    assert forall|i: int| 0 <= i < qs.len() implies (n - 1) % (#[trigger] qs[i] as int) == 0
        && pm(2, ((n - 1) / (qs[i] as int)) as nat, n) != 1 by {
        if i < 1 {
            assert(qs[i] == 2);
            assert((n - 1) % 2int == 0);
            assert((n - 1) / 2int == 261int);
        } else if i < 3 {
            assert(qs[i] == 3);
            assert((n - 1) % 3int == 0);
            assert((n - 1) / 3int == 174int);
        } else {
            assert(qs[i] == 29);
            assert((n - 1) % 29int == 0);
            assert((n - 1) / 29int == 18int);
        }
    }
    lemma_lucas(n, 2, qs);
}

/// `3^20920 mod 20921`.
proof fn lemma_pow_20921_full()
    ensures
        pm(3, 20920nat, 20921) == 1,
{
    let m: int = 20921;
    lemma_pm_one(3, m);
    lemma_pm_double(3, 1nat, m);
    assert(pm(3, 2nat, m) == 9);
    lemma_pm_double(3, 2nat, m);
    assert(pm(3, 4nat, m) == 81);
    lemma_pm_succ(3, 4nat, m);
    assert(pm(3, 5nat, m) == 243);
    lemma_pm_double(3, 5nat, m);
    assert(pm(3, 10nat, m) == 17207);
    lemma_pm_double(3, 10nat, m);
    assert(pm(3, 20nat, m) == 6857);
    lemma_pm_double(3, 20nat, m);
    assert(pm(3, 40nat, m) == 8962);
    lemma_pm_double(3, 40nat, m);
    assert(pm(3, 80nat, m) == 1725);
    lemma_pm_succ(3, 80nat, m);
    assert(pm(3, 81nat, m) == 5175);
    lemma_pm_double(3, 81nat, m);
    assert(pm(3, 162nat, m) == 1745);
    lemma_pm_succ(3, 162nat, m);
    assert(pm(3, 163nat, m) == 5235);
    lemma_pm_double(3, 163nat, m);
    assert(pm(3, 326nat, m) == 19636);
    lemma_pm_double(3, 326nat, m);
    assert(pm(3, 652nat, m) == 19387);
    lemma_pm_succ(3, 652nat, m);
    assert(pm(3, 653nat, m) == 16319);
    lemma_pm_double(3, 653nat, m);
    assert(pm(3, 1306nat, m) == 6352);
    lemma_pm_succ(3, 1306nat, m);
    assert(pm(3, 1307nat, m) == 19056);
    lemma_pm_double(3, 1307nat, m);
    assert(pm(3, 2614nat, m) == 5339);
    lemma_pm_succ(3, 2614nat, m);
    assert(pm(3, 2615nat, m) == 16017);
    lemma_pm_double(3, 2615nat, m);
    assert(pm(3, 5230nat, m) == 10987);
    lemma_pm_double(3, 5230nat, m);
    assert(pm(3, 10460nat, m) == 20920);
    lemma_pm_double(3, 10460nat, m);
    assert(pm(3, 20920nat, m) == 1);
}

/// `3^10460 mod 20921`.
proof fn lemma_pow_20921_by_2()
    ensures
        pm(3, 10460nat, 20921) == 20920,
{
    let m: int = 20921;
    lemma_pm_one(3, m);
    lemma_pm_double(3, 1nat, m);
    assert(pm(3, 2nat, m) == 9);
    lemma_pm_double(3, 2nat, m);
    assert(pm(3, 4nat, m) == 81);
    lemma_pm_succ(3, 4nat, m);
    assert(pm(3, 5nat, m) == 243);
    lemma_pm_double(3, 5nat, m);
    assert(pm(3, 10nat, m) == 17207);
    lemma_pm_double(3, 10nat, m);
    assert(pm(3, 20nat, m) == 6857);
    lemma_pm_double(3, 20nat, m);
    assert(pm(3, 40nat, m) == 8962);
    lemma_pm_double(3, 40nat, m);
    assert(pm(3, 80nat, m) == 1725);
    lemma_pm_succ(3, 80nat, m);
    assert(pm(3, 81nat, m) == 5175);
    lemma_pm_double(3, 81nat, m);
    assert(pm(3, 162nat, m) == 1745);
    lemma_pm_succ(3, 162nat, m);
    assert(pm(3, 163nat, m) == 5235);
    lemma_pm_double(3, 163nat, m);
    assert(pm(3, 326nat, m) == 19636);
    lemma_pm_double(3, 326nat, m);
    assert(pm(3, 652nat, m) == 19387);
    lemma_pm_succ(3, 652nat, m);
    assert(pm(3, 653nat, m) == 16319);
    lemma_pm_double(3, 653nat, m);
    assert(pm(3, 1306nat, m) == 6352);
    lemma_pm_succ(3, 1306nat, m);
    assert(pm(3, 1307nat, m) == 19056);
    lemma_pm_double(3, 1307nat, m);
    assert(pm(3, 2614nat, m) == 5339);
    lemma_pm_succ(3, 2614nat, m);
    assert(pm(3, 2615nat, m) == 16017);
    lemma_pm_double(3, 2615nat, m);
    assert(pm(3, 5230nat, m) == 10987);
    lemma_pm_double(3, 5230nat, m);
    assert(pm(3, 10460nat, m) == 20920);
}

/// `3^4184 mod 20921`.
proof fn lemma_pow_20921_by_5()
    ensures
        pm(3, 4184nat, 20921) == 5152,
{
    let m: int = 20921;
    lemma_pm_one(3, m);
    lemma_pm_double(3, 1nat, m);
    assert(pm(3, 2nat, m) == 9);
    lemma_pm_double(3, 2nat, m);
    assert(pm(3, 4nat, m) == 81);
    lemma_pm_double(3, 4nat, m);
    assert(pm(3, 8nat, m) == 6561);
    lemma_pm_double(3, 8nat, m);
    assert(pm(3, 16nat, m) == 12224);
    lemma_pm_double(3, 16nat, m);
    assert(pm(3, 32nat, m) == 8394);
    lemma_pm_double(3, 32nat, m);
    assert(pm(3, 64nat, m) == 18229);
    lemma_pm_succ(3, 64nat, m);
    assert(pm(3, 65nat, m) == 12845);
    lemma_pm_double(3, 65nat, m);
    assert(pm(3, 130nat, m) == 11019);
    lemma_pm_double(3, 130nat, m);
    assert(pm(3, 260nat, m) == 13798);
    lemma_pm_succ(3, 260nat, m);
    assert(pm(3, 261nat, m) == 20473);
    lemma_pm_double(3, 261nat, m);
    assert(pm(3, 522nat, m) == 12415);
    lemma_pm_succ(3, 522nat, m);
    assert(pm(3, 523nat, m) == 16324);
    lemma_pm_double(3, 523nat, m);
    assert(pm(3, 1046nat, m) == 2199);
    lemma_pm_double(3, 1046nat, m);
    assert(pm(3, 2092nat, m) == 2850);
    lemma_pm_double(3, 2092nat, m);
    assert(pm(3, 4184nat, m) == 5152);
}

/// `3^40 mod 20921`.
proof fn lemma_pow_20921_by_523()
    ensures
        pm(3, 40nat, 20921) == 8962,
{
    let m: int = 20921;
    lemma_pm_one(3, m);
    lemma_pm_double(3, 1nat, m);
    assert(pm(3, 2nat, m) == 9);
    lemma_pm_double(3, 2nat, m);
    assert(pm(3, 4nat, m) == 81);
    lemma_pm_succ(3, 4nat, m);
    assert(pm(3, 5nat, m) == 243);
    lemma_pm_double(3, 5nat, m);
    assert(pm(3, 10nat, m) == 17207);
    lemma_pm_double(3, 10nat, m);
    assert(pm(3, 20nat, m) == 6857);
    lemma_pm_double(3, 20nat, m);
    assert(pm(3, 40nat, m) == 8962);
}

/// 20921 is prime.
proof fn lemma_prime_20921()
    ensures
        is_prime(20921nat),
{
    lemma_prime_2();
    lemma_prime_5();
    lemma_prime_523();
    lemma_pow_20921_full();
    lemma_pow_20921_by_2();
    lemma_pow_20921_by_5();
    lemma_pow_20921_by_523();
    let n: int = 20921;
    let qs = Seq::new(5nat, |i: int| if i < 3 { 2nat } else if i < 4 { 5nat } else { 523nat });
    assert(qs.subrange(5, 5).len() == 0);
    assert(list_prod(qs.subrange(5, 5)) == 1);
    lemma_list_prod_front(qs, 4, 523nat, 1nat);
    lemma_list_prod_front(qs, 3, 5nat, 523nat);
    lemma_list_prod_front(qs, 2, 2nat, 2615nat);
    lemma_list_prod_front(qs, 1, 2nat, 5230nat);
    lemma_list_prod_front(qs, 0, 2nat, 10460nat);
    assert(qs.subrange(0, 5) =~= qs);
    assert forall|i: int| 0 <= i < qs.len() implies is_prime(#[trigger] qs[i]) by {
        if i < 3 {
            assert(qs[i] == 2);
        } else if i < 4 {
            assert(qs[i] == 5);
        } else {
            assert(qs[i] == 523);
        }
    }
    assert forall|i: int| 0 <= i < qs.len() implies (n - 1) % (#[trigger] qs[i] as int) == 0
        && pm(3, ((n - 1) / (qs[i] as int)) as nat, n) != 1 by {
        if i < 3 {
            assert(qs[i] == 2);
            assert((n - 1) % 2int == 0);
            assert((n - 1) / 2int == 10460int);
        } else if i < 4 {
            assert(qs[i] == 5);
            assert((n - 1) % 5int == 0);
            assert((n - 1) / 5int == 4184int);
        } else {
            assert(qs[i] == 523);
            assert((n - 1) % 523int == 0);
            assert((n - 1) / 523int == 40int);
        }
    }
    lemma_lucas(n, 3, qs);
}

/// `5^125526 mod 125527`.
proof fn lemma_pow_125527_full()
    ensures
        pm(5, 125526nat, 125527) == 1,
{
    let m: int = 125527;
    lemma_pm_one(5, m);
    lemma_pm_double(5, 1nat, m);
    assert(pm(5, 2nat, m) == 25);
    lemma_pm_succ(5, 2nat, m);
    assert(pm(5, 3nat, m) == 125);
    lemma_pm_double(5, 3nat, m);
    assert(pm(5, 6nat, m) == 15625);
    lemma_pm_succ(5, 6nat, m);
    assert(pm(5, 7nat, m) == 78125);
    lemma_pm_double(5, 7nat, m);
    assert(pm(5, 14nat, m) == 16304);
    lemma_pm_succ(5, 14nat, m);
    assert(pm(5, 15nat, m) == 81520);
    lemma_pm_double(5, 15nat, m);
    assert(pm(5, 30nat, m) == 111020);
    lemma_pm_double(5, 30nat, m);
    assert(pm(5, 60nat, m) == 69797);
    lemma_pm_succ(5, 60nat, m);
    assert(pm(5, 61nat, m) == 97931);
    lemma_pm_double(5, 61nat, m);
    assert(pm(5, 122nat, m) == 92434);
    lemma_pm_double(5, 122nat, m);
    assert(pm(5, 244nat, m) == 49101);
    lemma_pm_succ(5, 244nat, m);
    assert(pm(5, 245nat, m) == 119978);
    lemma_pm_double(5, 245nat, m);
    assert(pm(5, 490nat, m) == 37286);
    lemma_pm_double(5, 490nat, m);
    assert(pm(5, 980nat, m) == 34271);
    lemma_pm_double(5, 980nat, m);
    assert(pm(5, 1960nat, m) == 70829);
    lemma_pm_succ(5, 1960nat, m);
    assert(pm(5, 1961nat, m) == 103091);
    lemma_pm_double(5, 1961nat, m);
    assert(pm(5, 3922nat, m) == 10826);
    lemma_pm_double(5, 3922nat, m);
    assert(pm(5, 7844nat, m) == 85585);
    lemma_pm_succ(5, 7844nat, m);
    assert(pm(5, 7845nat, m) == 51344);
    lemma_pm_double(5, 7845nat, m);
    assert(pm(5, 15690nat, m) == 13809);
    lemma_pm_double(5, 15690nat, m);
    assert(pm(5, 31380nat, m) == 12968);
    lemma_pm_succ(5, 31380nat, m);
    assert(pm(5, 31381nat, m) == 64840);
    lemma_pm_double(5, 31381nat, m);
    assert(pm(5, 62762nat, m) == 75316);
    lemma_pm_succ(5, 62762nat, m);
    assert(pm(5, 62763nat, m) == 125526);
    lemma_pm_double(5, 62763nat, m);
    assert(pm(5, 125526nat, m) == 1);
}

/// `5^62763 mod 125527`.
proof fn lemma_pow_125527_by_2()
    ensures
        pm(5, 62763nat, 125527) == 125526,
{
    let m: int = 125527;
    lemma_pm_one(5, m);
    lemma_pm_double(5, 1nat, m);
    assert(pm(5, 2nat, m) == 25);
    lemma_pm_succ(5, 2nat, m);
    assert(pm(5, 3nat, m) == 125);
    lemma_pm_double(5, 3nat, m);
    assert(pm(5, 6nat, m) == 15625);
    lemma_pm_succ(5, 6nat, m);
    assert(pm(5, 7nat, m) == 78125);
    lemma_pm_double(5, 7nat, m);
    assert(pm(5, 14nat, m) == 16304);
    lemma_pm_succ(5, 14nat, m);
    assert(pm(5, 15nat, m) == 81520);
    lemma_pm_double(5, 15nat, m);
    assert(pm(5, 30nat, m) == 111020);
    lemma_pm_double(5, 30nat, m);
    assert(pm(5, 60nat, m) == 69797);
    lemma_pm_succ(5, 60nat, m);
    assert(pm(5, 61nat, m) == 97931);
    lemma_pm_double(5, 61nat, m);
    assert(pm(5, 122nat, m) == 92434);
    lemma_pm_double(5, 122nat, m);
    assert(pm(5, 244nat, m) == 49101);
    lemma_pm_succ(5, 244nat, m);
    assert(pm(5, 245nat, m) == 119978);
    lemma_pm_double(5, 245nat, m);
    assert(pm(5, 490nat, m) == 37286);
    lemma_pm_double(5, 490nat, m);
    assert(pm(5, 980nat, m) == 34271);
    lemma_pm_double(5, 980nat, m);
    assert(pm(5, 1960nat, m) == 70829);
    lemma_pm_succ(5, 1960nat, m);
    assert(pm(5, 1961nat, m) == 103091);
    lemma_pm_double(5, 1961nat, m);
    assert(pm(5, 3922nat, m) == 10826);
    lemma_pm_double(5, 3922nat, m);
    assert(pm(5, 7844nat, m) == 85585);
    lemma_pm_succ(5, 7844nat, m);
    assert(pm(5, 7845nat, m) == 51344);
    lemma_pm_double(5, 7845nat, m);
    assert(pm(5, 15690nat, m) == 13809);
    lemma_pm_double(5, 15690nat, m);
    assert(pm(5, 31380nat, m) == 12968);
    lemma_pm_succ(5, 31380nat, m);
    assert(pm(5, 31381nat, m) == 64840);
    lemma_pm_double(5, 31381nat, m);
    assert(pm(5, 62762nat, m) == 75316);
    lemma_pm_succ(5, 62762nat, m);
    assert(pm(5, 62763nat, m) == 125526);
}

/// `5^41842 mod 125527`.
proof fn lemma_pow_125527_by_3()
    ensures
        pm(5, 41842nat, 125527) == 5361,
{
    let m: int = 125527;
    lemma_pm_one(5, m);
    lemma_pm_double(5, 1nat, m);
    assert(pm(5, 2nat, m) == 25);
    lemma_pm_double(5, 2nat, m);
    assert(pm(5, 4nat, m) == 625);
    lemma_pm_succ(5, 4nat, m);
    assert(pm(5, 5nat, m) == 3125);
    lemma_pm_double(5, 5nat, m);
    assert(pm(5, 10nat, m) == 100046);
    lemma_pm_double(5, 10nat, m);
    assert(pm(5, 20nat, m) == 55717);
    lemma_pm_double(5, 20nat, m);
    assert(pm(5, 40nat, m) == 101379);
    lemma_pm_double(5, 40nat, m);
    assert(pm(5, 80nat, m) == 52989);
    lemma_pm_succ(5, 80nat, m);
    assert(pm(5, 81nat, m) == 13891);
    lemma_pm_double(5, 81nat, m);
    assert(pm(5, 162nat, m) == 24882);
    lemma_pm_succ(5, 162nat, m);
    assert(pm(5, 163nat, m) == 124410);
    lemma_pm_double(5, 163nat, m);
    assert(pm(5, 326nat, m) == 117946);
    lemma_pm_double(5, 326nat, m);
    assert(pm(5, 652nat, m) == 105722);
    lemma_pm_succ(5, 652nat, m);
    assert(pm(5, 653nat, m) == 26502);
    lemma_pm_double(5, 653nat, m);
    assert(pm(5, 1306nat, m) == 32439);
    lemma_pm_succ(5, 1306nat, m);
    assert(pm(5, 1307nat, m) == 36668);
    lemma_pm_double(5, 1307nat, m);
    assert(pm(5, 2614nat, m) == 22527);
    lemma_pm_succ(5, 2614nat, m);
    assert(pm(5, 2615nat, m) == 112635);
    lemma_pm_double(5, 2615nat, m);
    assert(pm(5, 5230nat, m) == 5916);
    lemma_pm_double(5, 5230nat, m);
    assert(pm(5, 10460nat, m) == 102550);
    lemma_pm_double(5, 10460nat, m);
    assert(pm(5, 20920nat, m) == 101494);
    lemma_pm_succ(5, 20920nat, m);
    assert(pm(5, 20921nat, m) == 5362);
    lemma_pm_double(5, 20921nat, m);
    assert(pm(5, 41842nat, m) == 5361);
}

/// `5^6 mod 125527`.
proof fn lemma_pow_125527_by_20921()
    ensures
        pm(5, 6nat, 125527) == 15625,
{
    let m: int = 125527;
    lemma_pm_one(5, m);
    lemma_pm_double(5, 1nat, m);
    assert(pm(5, 2nat, m) == 25);
    lemma_pm_succ(5, 2nat, m);
    assert(pm(5, 3nat, m) == 125);
    lemma_pm_double(5, 3nat, m);
    assert(pm(5, 6nat, m) == 15625);
}

/// 125527 is prime.
proof fn lemma_prime_125527()
    ensures
        is_prime(125527nat),
{
    lemma_prime_2();
    lemma_prime_3();
    lemma_prime_20921();
    lemma_pow_125527_full();
    lemma_pow_125527_by_2();
    lemma_pow_125527_by_3();
    lemma_pow_125527_by_20921();
    let n: int = 125527;
    let qs = Seq::new(3nat, |i: int| if i < 1 { 2nat } else if i < 2 { 3nat } else { 20921nat });
    assert(qs.subrange(3, 3).len() == 0);
    assert(list_prod(qs.subrange(3, 3)) == 1);
    lemma_list_prod_front(qs, 2, 20921nat, 1nat);
    lemma_list_prod_front(qs, 1, 3nat, 20921nat);
    lemma_list_prod_front(qs, 0, 2nat, 62763nat);
    assert(qs.subrange(0, 3) =~= qs);
    assert forall|i: int| 0 <= i < qs.len() implies is_prime(#[trigger] qs[i]) by {
        if i < 1 {
            assert(qs[i] == 2);
        } else if i < 2 {
            assert(qs[i] == 3);
        } else {
            assert(qs[i] == 20921);
        }
    }
    assert forall|i: int| 0 <= i < qs.len() implies (n - 1) % (#[trigger] qs[i] as int) == 0
        && pm(5, ((n - 1) / (qs[i] as int)) as nat, n) != 1 by {
        if i < 1 {
            assert(qs[i] == 2);
            assert((n - 1) % 2int == 0);
            assert((n - 1) / 2int == 62763int);
        } else if i < 2 {
            assert(qs[i] == 3);
            assert((n - 1) % 3int == 0);
            assert((n - 1) / 3int == 41842int);
        } else {
            assert(qs[i] == 20921);
            assert((n - 1) % 20921int == 0);
            assert((n - 1) / 20921int == 6int);
        }
    }
    lemma_lucas(n, 5, qs);
}

/// `3^16 mod 17`.
proof fn lemma_pow_17_full()
    ensures
        pm(3, 16nat, 17) == 1,
{
    let m: int = 17;
    lemma_pm_one(3, m);
    lemma_pm_double(3, 1nat, m);
    assert(pm(3, 2nat, m) == 9);
    lemma_pm_double(3, 2nat, m);
    assert(pm(3, 4nat, m) == 13);
    lemma_pm_double(3, 4nat, m);
    assert(pm(3, 8nat, m) == 16);
    lemma_pm_double(3, 8nat, m);
    assert(pm(3, 16nat, m) == 1);
}

/// `3^8 mod 17`.
proof fn lemma_pow_17_by_2()
    ensures
        pm(3, 8nat, 17) == 16,
{
    let m: int = 17;
    lemma_pm_one(3, m);
    lemma_pm_double(3, 1nat, m);
    assert(pm(3, 2nat, m) == 9);
    lemma_pm_double(3, 2nat, m);
    assert(pm(3, 4nat, m) == 13);
    lemma_pm_double(3, 4nat, m);
    assert(pm(3, 8nat, m) == 16);
}

/// 17 is prime.
proof fn lemma_prime_17()
    ensures
        is_prime(17nat),
{
    lemma_prime_2();
    lemma_pow_17_full();
    lemma_pow_17_by_2();
    let n: int = 17;
    let qs = Seq::new(4nat, |i: int| { 2nat });
    assert(qs.subrange(4, 4).len() == 0);
    assert(list_prod(qs.subrange(4, 4)) == 1);
    lemma_list_prod_front(qs, 3, 2nat, 1nat);
    lemma_list_prod_front(qs, 2, 2nat, 2nat);
    lemma_list_prod_front(qs, 1, 2nat, 4nat);
    lemma_list_prod_front(qs, 0, 2nat, 8nat);
    assert(qs.subrange(0, 4) =~= qs);
    assert forall|i: int| 0 <= i < qs.len() implies is_prime(#[trigger] qs[i]) by {
        assert(qs[i] == 2);
    }
    assert forall|i: int| 0 <= i < qs.len() implies (n - 1) % (#[trigger] qs[i] as int) == 0
        && pm(3, ((n - 1) / (qs[i] as int)) as nat, n) != 1 by {
        assert(qs[i] == 2);
        assert((n - 1) % 2int == 0);
        assert((n - 1) / 2int == 8int);
    }
    lemma_lucas(n, 3, qs);
}

/// `5^47736 mod 47737`.
proof fn lemma_pow_47737_full()
    ensures
        pm(5, 47736nat, 47737) == 1,
{
    let m: int = 47737;
    lemma_pm_one(5, m);
    lemma_pm_double(5, 1nat, m);
    assert(pm(5, 2nat, m) == 25);
    lemma_pm_double(5, 2nat, m);
    assert(pm(5, 4nat, m) == 625);
    lemma_pm_succ(5, 4nat, m);
    assert(pm(5, 5nat, m) == 3125);
    lemma_pm_double(5, 5nat, m);
    assert(pm(5, 10nat, m) == 27277);
    lemma_pm_succ(5, 10nat, m);
    assert(pm(5, 11nat, m) == 40911);
    lemma_pm_double(5, 11nat, m);
    assert(pm(5, 22nat, m) == 2964);
    lemma_pm_succ(5, 22nat, m);
    assert(pm(5, 23nat, m) == 14820);
    lemma_pm_double(5, 23nat, m);
    assert(pm(5, 46nat, m) == 42200);
    lemma_pm_double(5, 46nat, m);
    assert(pm(5, 92nat, m) == 11215);
    lemma_pm_succ(5, 92nat, m);
    assert(pm(5, 93nat, m) == 8338);
    lemma_pm_double(5, 93nat, m);
    assert(pm(5, 186nat, m) == 17172);
    lemma_pm_double(5, 186nat, m);
    assert(pm(5, 372nat, m) == 6135);
    lemma_pm_double(5, 372nat, m);
    assert(pm(5, 744nat, m) == 21469);
    lemma_pm_succ(5, 744nat, m);
    assert(pm(5, 745nat, m) == 11871);
    lemma_pm_double(5, 745nat, m);
    assert(pm(5, 1490nat, m) == 1017);
    lemma_pm_succ(5, 1490nat, m);
    assert(pm(5, 1491nat, m) == 5085);
    lemma_pm_double(5, 1491nat, m);
    assert(pm(5, 2982nat, m) == 31508);
    lemma_pm_succ(5, 2982nat, m);
    assert(pm(5, 2983nat, m) == 14329);
    lemma_pm_double(5, 2983nat, m);
    assert(pm(5, 5966nat, m) == 3404);
    lemma_pm_succ(5, 5966nat, m);
    assert(pm(5, 5967nat, m) == 17020);
    lemma_pm_double(5, 5967nat, m);
    assert(pm(5, 11934nat, m) == 12284);
    lemma_pm_double(5, 11934nat, m);
    assert(pm(5, 23868nat, m) == 47736);
    lemma_pm_double(5, 23868nat, m);
    assert(pm(5, 47736nat, m) == 1);
}

/// `5^23868 mod 47737`.
proof fn lemma_pow_47737_by_2()
    ensures
        pm(5, 23868nat, 47737) == 47736,
{
    let m: int = 47737;
    lemma_pm_one(5, m);
    lemma_pm_double(5, 1nat, m);
    assert(pm(5, 2nat, m) == 25);
    lemma_pm_double(5, 2nat, m);
    assert(pm(5, 4nat, m) == 625);
    lemma_pm_succ(5, 4nat, m);
    assert(pm(5, 5nat, m) == 3125);
    lemma_pm_double(5, 5nat, m);
    assert(pm(5, 10nat, m) == 27277);
    lemma_pm_succ(5, 10nat, m);
    assert(pm(5, 11nat, m) == 40911);
    lemma_pm_double(5, 11nat, m);
    assert(pm(5, 22nat, m) == 2964);
    lemma_pm_succ(5, 22nat, m);
    assert(pm(5, 23nat, m) == 14820);
    lemma_pm_double(5, 23nat, m);
    assert(pm(5, 46nat, m) == 42200);
    lemma_pm_double(5, 46nat, m);
    assert(pm(5, 92nat, m) == 11215);
    lemma_pm_succ(5, 92nat, m);
    assert(pm(5, 93nat, m) == 8338);
    lemma_pm_double(5, 93nat, m);
    assert(pm(5, 186nat, m) == 17172);
    lemma_pm_double(5, 186nat, m);
    assert(pm(5, 372nat, m) == 6135);
    lemma_pm_double(5, 372nat, m);
    assert(pm(5, 744nat, m) == 21469);
    lemma_pm_succ(5, 744nat, m);
    assert(pm(5, 745nat, m) == 11871);
    lemma_pm_double(5, 745nat, m);
    assert(pm(5, 1490nat, m) == 1017);
    lemma_pm_succ(5, 1490nat, m);
    assert(pm(5, 1491nat, m) == 5085);
    lemma_pm_double(5, 1491nat, m);
    assert(pm(5, 2982nat, m) == 31508);
    lemma_pm_succ(5, 2982nat, m);
    assert(pm(5, 2983nat, m) == 14329);
    lemma_pm_double(5, 2983nat, m);
    assert(pm(5, 5966nat, m) == 3404);
    lemma_pm_succ(5, 5966nat, m);
    assert(pm(5, 5967nat, m) == 17020);
    lemma_pm_double(5, 5967nat, m);
    assert(pm(5, 11934nat, m) == 12284);
    lemma_pm_double(5, 11934nat, m);
    assert(pm(5, 23868nat, m) == 47736);
}

/// `5^15912 mod 47737`.
proof fn lemma_pow_47737_by_3()
    ensures
        pm(5, 15912nat, 47737) == 42905,
{
    let m: int = 47737;
    lemma_pm_one(5, m);
    lemma_pm_double(5, 1nat, m);
    assert(pm(5, 2nat, m) == 25);
    lemma_pm_succ(5, 2nat, m);
    assert(pm(5, 3nat, m) == 125);
    lemma_pm_double(5, 3nat, m);
    assert(pm(5, 6nat, m) == 15625);
    lemma_pm_succ(5, 6nat, m);
    assert(pm(5, 7nat, m) == 30388);
    lemma_pm_double(5, 7nat, m);
    assert(pm(5, 14nat, m) == 6016);
    lemma_pm_succ(5, 14nat, m);
    assert(pm(5, 15nat, m) == 30080);
    lemma_pm_double(5, 15nat, m);
    assert(pm(5, 30nat, m) == 47039);
    lemma_pm_succ(5, 30nat, m);
    assert(pm(5, 31nat, m) == 44247);
    lemma_pm_double(5, 31nat, m);
    assert(pm(5, 62nat, m) == 7165);
    lemma_pm_double(5, 62nat, m);
    assert(pm(5, 124nat, m) == 19950);
    lemma_pm_double(5, 124nat, m);
    assert(pm(5, 248nat, m) == 19131);
    lemma_pm_double(5, 248nat, m);
    assert(pm(5, 496nat, m) == 43319);
    lemma_pm_succ(5, 496nat, m);
    assert(pm(5, 497nat, m) == 25647);
    lemma_pm_double(5, 497nat, m);
    assert(pm(5, 994nat, m) == 486);
    lemma_pm_double(5, 994nat, m);
    assert(pm(5, 1988nat, m) == 45248);
    lemma_pm_succ(5, 1988nat, m);
    assert(pm(5, 1989nat, m) == 35292);
    lemma_pm_double(5, 1989nat, m);
    assert(pm(5, 3978nat, m) == 19197);
    lemma_pm_double(5, 3978nat, m);
    assert(pm(5, 7956nat, m) == 42906);
    lemma_pm_double(5, 7956nat, m);
    assert(pm(5, 15912nat, m) == 42905);
}

/// `5^3672 mod 47737`.
proof fn lemma_pow_47737_by_13()
    ensures
        pm(5, 3672nat, 47737) == 26006,
{
    let m: int = 47737;
    lemma_pm_one(5, m);
    lemma_pm_double(5, 1nat, m);
    assert(pm(5, 2nat, m) == 25);
    lemma_pm_succ(5, 2nat, m);
    assert(pm(5, 3nat, m) == 125);
    lemma_pm_double(5, 3nat, m);
    assert(pm(5, 6nat, m) == 15625);
    lemma_pm_succ(5, 6nat, m);
    assert(pm(5, 7nat, m) == 30388);
    lemma_pm_double(5, 7nat, m);
    assert(pm(5, 14nat, m) == 6016);
    lemma_pm_double(5, 14nat, m);
    assert(pm(5, 28nat, m) == 7610);
    lemma_pm_double(5, 28nat, m);
    assert(pm(5, 56nat, m) == 7119);
    lemma_pm_succ(5, 56nat, m);
    assert(pm(5, 57nat, m) == 35595);
    lemma_pm_double(5, 57nat, m);
    assert(pm(5, 114nat, m) == 16308);
    lemma_pm_double(5, 114nat, m);
    assert(pm(5, 228nat, m) == 8037);
    lemma_pm_succ(5, 228nat, m);
    assert(pm(5, 229nat, m) == 40185);
    lemma_pm_double(5, 229nat, m);
    assert(pm(5, 458nat, m) == 34726);
    lemma_pm_succ(5, 458nat, m);
    assert(pm(5, 459nat, m) == 30419);
    lemma_pm_double(5, 459nat, m);
    assert(pm(5, 918nat, m) == 29290);
    lemma_pm_double(5, 918nat, m);
    assert(pm(5, 1836nat, m) == 22473);
    lemma_pm_double(5, 1836nat, m);
    assert(pm(5, 3672nat, m) == 26006);
}

/// `5^2808 mod 47737`.
proof fn lemma_pow_47737_by_17()
    ensures
        pm(5, 2808nat, 47737) == 23688,
{
    let m: int = 47737;
    lemma_pm_one(5, m);
    lemma_pm_double(5, 1nat, m);
    assert(pm(5, 2nat, m) == 25);
    lemma_pm_double(5, 2nat, m);
    assert(pm(5, 4nat, m) == 625);
    lemma_pm_succ(5, 4nat, m);
    assert(pm(5, 5nat, m) == 3125);
    lemma_pm_double(5, 5nat, m);
    assert(pm(5, 10nat, m) == 27277);
    lemma_pm_double(5, 10nat, m);
    assert(pm(5, 20nat, m) == 5847);
    lemma_pm_succ(5, 20nat, m);
    assert(pm(5, 21nat, m) == 29235);
    lemma_pm_double(5, 21nat, m);
    assert(pm(5, 42nat, m) == 1977);
    lemma_pm_succ(5, 42nat, m);
    assert(pm(5, 43nat, m) == 9885);
    lemma_pm_double(5, 43nat, m);
    assert(pm(5, 86nat, m) == 43323);
    lemma_pm_succ(5, 86nat, m);
    assert(pm(5, 87nat, m) == 25667);
    lemma_pm_double(5, 87nat, m);
    assert(pm(5, 174nat, m) == 24289);
    lemma_pm_succ(5, 174nat, m);
    assert(pm(5, 175nat, m) == 25971);
    lemma_pm_double(5, 175nat, m);
    assert(pm(5, 350nat, m) == 16768);
    lemma_pm_succ(5, 350nat, m);
    assert(pm(5, 351nat, m) == 36103);
    lemma_pm_double(5, 351nat, m);
    assert(pm(5, 702nat, m) == 15561);
    lemma_pm_double(5, 702nat, m);
    assert(pm(5, 1404nat, m) == 22657);
    lemma_pm_double(5, 1404nat, m);
    assert(pm(5, 2808nat, m) == 23688);
}

/// 47737 is prime.
proof fn lemma_prime_47737()
    ensures
        is_prime(47737nat),
{
    lemma_prime_2();
    lemma_prime_3();
    lemma_prime_13();
    lemma_prime_17();
    lemma_pow_47737_full();
    lemma_pow_47737_by_2();
    lemma_pow_47737_by_3();
    lemma_pow_47737_by_13();
    lemma_pow_47737_by_17();
    let n: int = 47737;
    let qs = Seq::new(8nat, |i: int| if i < 3 { 2nat } else if i < 6 { 3nat } else if i < 7 { 13nat } else { 17nat });
    assert(qs.subrange(8, 8).len() == 0);
    assert(list_prod(qs.subrange(8, 8)) == 1);
    lemma_list_prod_front(qs, 7, 17nat, 1nat);
    lemma_list_prod_front(qs, 6, 13nat, 17nat);
    lemma_list_prod_front(qs, 5, 3nat, 221nat);
    lemma_list_prod_front(qs, 4, 3nat, 663nat);
    lemma_list_prod_front(qs, 3, 3nat, 1989nat);
    lemma_list_prod_front(qs, 2, 2nat, 5967nat);
    lemma_list_prod_front(qs, 1, 2nat, 11934nat);
    lemma_list_prod_front(qs, 0, 2nat, 23868nat);
    assert(qs.subrange(0, 8) =~= qs);
    assert forall|i: int| 0 <= i < qs.len() implies is_prime(#[trigger] qs[i]) by {
        if i < 3 {
            assert(qs[i] == 2);
        } else if i < 6 {
            assert(qs[i] == 3);
        } else if i < 7 {
            assert(qs[i] == 13);
        } else {
            assert(qs[i] == 17);
        }
    }
    assert forall|i: int| 0 <= i < qs.len() implies (n - 1) % (#[trigger] qs[i] as int) == 0
        && pm(5, ((n - 1) / (qs[i] as int)) as nat, n) != 1 by {
        if i < 3 {
            assert(qs[i] == 2);
            assert((n - 1) % 2int == 0);
            assert((n - 1) / 2int == 23868int);
        } else if i < 6 {
            assert(qs[i] == 3);
            assert((n - 1) % 3int == 0);
            assert((n - 1) / 3int == 15912int);
        } else if i < 7 {
            assert(qs[i] == 13);
            assert((n - 1) % 13int == 0);
            assert((n - 1) / 13int == 3672int);
        } else {
            assert(qs[i] == 17);
            assert((n - 1) % 17int == 0);
            assert((n - 1) / 17int == 2808int);
        }
    }
    lemma_lucas(n, 5, qs);
}

/// `2^859266 mod 859267`.
proof fn lemma_pow_859267_full()
    ensures
        pm(2, 859266nat, 859267) == 1,
{
    let m: int = 859267;
    lemma_pm_one(2, m);
    lemma_pm_double(2, 1nat, m);
    assert(pm(2, 2nat, m) == 4);
    lemma_pm_succ(2, 2nat, m);
    assert(pm(2, 3nat, m) == 8);
    lemma_pm_double(2, 3nat, m);
    assert(pm(2, 6nat, m) == 64);
    lemma_pm_double(2, 6nat, m);
    assert(pm(2, 12nat, m) == 4096);
    lemma_pm_succ(2, 12nat, m);
    assert(pm(2, 13nat, m) == 8192);
    lemma_pm_double(2, 13nat, m);
    assert(pm(2, 26nat, m) == 86038);
    lemma_pm_double(2, 26nat, m);
    assert(pm(2, 52nat, m) == 811506);
    lemma_pm_double(2, 52nat, m);
    assert(pm(2, 104nat, m) == 618503);
    lemma_pm_double(2, 104nat, m);
    assert(pm(2, 208nat, m) == 292609);
    lemma_pm_succ(2, 208nat, m);
    assert(pm(2, 209nat, m) == 585218);
    lemma_pm_double(2, 209nat, m);
    assert(pm(2, 418nat, m) == 340800);
    lemma_pm_succ(2, 418nat, m);
    assert(pm(2, 419nat, m) == 681600);
    lemma_pm_double(2, 419nat, m);
    assert(pm(2, 838nat, m) == 389644);
    lemma_pm_succ(2, 838nat, m);
    assert(pm(2, 839nat, m) == 779288);
    lemma_pm_double(2, 839nat, m);
    assert(pm(2, 1678nat, m) == 256893);
    lemma_pm_double(2, 1678nat, m);
    assert(pm(2, 3356nat, m) == 589315);
    lemma_pm_double(2, 3356nat, m);
    assert(pm(2, 6712nat, m) == 507301);
    lemma_pm_succ(2, 6712nat, m);
    assert(pm(2, 6713nat, m) == 155335);
    lemma_pm_double(2, 6713nat, m);
    assert(pm(2, 13426nat, m) == 744865);
    lemma_pm_double(2, 13426nat, m);
    assert(pm(2, 26852nat, m) == 321927);
    lemma_pm_double(2, 26852nat, m);
    assert(pm(2, 53704nat, m) == 800459);
    lemma_pm_double(2, 53704nat, m);
    assert(pm(2, 107408nat, m) == 690456);
    lemma_pm_double(2, 107408nat, m);
    assert(pm(2, 214816nat, m) == 422933);
    lemma_pm_double(2, 214816nat, m);
    assert(pm(2, 429632nat, m) == 429633);
    lemma_pm_succ(2, 429632nat, m);
    assert(pm(2, 429633nat, m) == 859266);
    lemma_pm_double(2, 429633nat, m);
    assert(pm(2, 859266nat, m) == 1);
}

/// `2^429633 mod 859267`.
proof fn lemma_pow_859267_by_2()
    ensures
        pm(2, 429633nat, 859267) == 859266,
{
    let m: int = 859267;
    lemma_pm_one(2, m);
    lemma_pm_double(2, 1nat, m);
    assert(pm(2, 2nat, m) == 4);
    lemma_pm_succ(2, 2nat, m);
    assert(pm(2, 3nat, m) == 8);
    lemma_pm_double(2, 3nat, m);
    assert(pm(2, 6nat, m) == 64);
    lemma_pm_double(2, 6nat, m);
    assert(pm(2, 12nat, m) == 4096);
    lemma_pm_succ(2, 12nat, m);
    assert(pm(2, 13nat, m) == 8192);
    lemma_pm_double(2, 13nat, m);
    assert(pm(2, 26nat, m) == 86038);
    lemma_pm_double(2, 26nat, m);
    assert(pm(2, 52nat, m) == 811506);
    lemma_pm_double(2, 52nat, m);
    assert(pm(2, 104nat, m) == 618503);
    lemma_pm_double(2, 104nat, m);
    assert(pm(2, 208nat, m) == 292609);
    lemma_pm_succ(2, 208nat, m);
    assert(pm(2, 209nat, m) == 585218);
    lemma_pm_double(2, 209nat, m);
    assert(pm(2, 418nat, m) == 340800);
    lemma_pm_succ(2, 418nat, m);
    assert(pm(2, 419nat, m) == 681600);
    lemma_pm_double(2, 419nat, m);
    assert(pm(2, 838nat, m) == 389644);
    lemma_pm_succ(2, 838nat, m);
    assert(pm(2, 839nat, m) == 779288);
    lemma_pm_double(2, 839nat, m);
    assert(pm(2, 1678nat, m) == 256893);
    lemma_pm_double(2, 1678nat, m);
    assert(pm(2, 3356nat, m) == 589315);
    lemma_pm_double(2, 3356nat, m);
    assert(pm(2, 6712nat, m) == 507301);
    lemma_pm_succ(2, 6712nat, m);
    assert(pm(2, 6713nat, m) == 155335);
    lemma_pm_double(2, 6713nat, m);
    assert(pm(2, 13426nat, m) == 744865);
    lemma_pm_double(2, 13426nat, m);
    assert(pm(2, 26852nat, m) == 321927);
    lemma_pm_double(2, 26852nat, m);
    assert(pm(2, 53704nat, m) == 800459);
    lemma_pm_double(2, 53704nat, m);
    assert(pm(2, 107408nat, m) == 690456);
    lemma_pm_double(2, 107408nat, m);
    assert(pm(2, 214816nat, m) == 422933);
    lemma_pm_double(2, 214816nat, m);
    assert(pm(2, 429632nat, m) == 429633);
    lemma_pm_succ(2, 429632nat, m);
    assert(pm(2, 429633nat, m) == 859266);
}

/// `2^286422 mod 859267`.
proof fn lemma_pow_859267_by_3()
    ensures
        pm(2, 286422nat, 859267) == 119571,
{
    let m: int = 859267;
    lemma_pm_one(2, m);
    lemma_pm_double(2, 1nat, m);
    assert(pm(2, 2nat, m) == 4);
    lemma_pm_double(2, 2nat, m);
    assert(pm(2, 4nat, m) == 16);
    lemma_pm_double(2, 4nat, m);
    assert(pm(2, 8nat, m) == 256);
    lemma_pm_double(2, 8nat, m);
    assert(pm(2, 16nat, m) == 65536);
    lemma_pm_succ(2, 16nat, m);
    assert(pm(2, 17nat, m) == 131072);
    lemma_pm_double(2, 17nat, m);
    assert(pm(2, 34nat, m) == 544053);
    lemma_pm_double(2, 34nat, m);
    assert(pm(2, 68nat, m) == 244785);
    lemma_pm_succ(2, 68nat, m);
    assert(pm(2, 69nat, m) == 489570);
    lemma_pm_double(2, 69nat, m);
    assert(pm(2, 138nat, m) == 3522);
    lemma_pm_succ(2, 138nat, m);
    assert(pm(2, 139nat, m) == 7044);
    lemma_pm_double(2, 139nat, m);
    assert(pm(2, 278nat, m) == 639717);
    lemma_pm_succ(2, 278nat, m);
    assert(pm(2, 279nat, m) == 420167);
    lemma_pm_double(2, 279nat, m);
    assert(pm(2, 558nat, m) == 465671);
    lemma_pm_succ(2, 558nat, m);
    assert(pm(2, 559nat, m) == 72075);
    lemma_pm_double(2, 559nat, m);
    assert(pm(2, 1118nat, m) == 536610);
    lemma_pm_double(2, 1118nat, m);
    assert(pm(2, 2236nat, m) == 468463);
    lemma_pm_succ(2, 2236nat, m);
    assert(pm(2, 2237nat, m) == 77659);
    lemma_pm_double(2, 2237nat, m);
    assert(pm(2, 4474nat, m) == 584475);
    lemma_pm_succ(2, 4474nat, m);
    assert(pm(2, 4475nat, m) == 309683);
    lemma_pm_double(2, 4475nat, m);
    assert(pm(2, 8950nat, m) == 770619);
    lemma_pm_double(2, 8950nat, m);
    assert(pm(2, 17900nat, m) == 471189);
    lemma_pm_succ(2, 17900nat, m);
    assert(pm(2, 17901nat, m) == 83111);
    lemma_pm_double(2, 17901nat, m);
    assert(pm(2, 35802nat, m) == 650175);
    lemma_pm_double(2, 35802nat, m);
    assert(pm(2, 71604nat, m) == 818771);
    lemma_pm_succ(2, 71604nat, m);
    assert(pm(2, 71605nat, m) == 778275);
    lemma_pm_double(2, 71605nat, m);
    assert(pm(2, 143210nat, m) == 59786);
    lemma_pm_succ(2, 143210nat, m);
    assert(pm(2, 143211nat, m) == 119572);
    lemma_pm_double(2, 143211nat, m);
    assert(pm(2, 286422nat, m) == 119571);
}

/// `2^18 mod 859267`.
proof fn lemma_pow_859267_by_47737()
    ensures
        pm(2, 18nat, 859267) == 262144,
{
    let m: int = 859267;
    lemma_pm_one(2, m);
    lemma_pm_double(2, 1nat, m);
    assert(pm(2, 2nat, m) == 4);
    lemma_pm_double(2, 2nat, m);
    assert(pm(2, 4nat, m) == 16);
    lemma_pm_double(2, 4nat, m);
    assert(pm(2, 8nat, m) == 256);
    lemma_pm_succ(2, 8nat, m);
    assert(pm(2, 9nat, m) == 512);
    lemma_pm_double(2, 9nat, m);
    assert(pm(2, 18nat, m) == 262144);
}

/// 859267 is prime.
proof fn lemma_prime_859267()
    ensures
        is_prime(859267nat),
{
    lemma_prime_2();
    lemma_prime_3();
    lemma_prime_47737();
    lemma_pow_859267_full();
    lemma_pow_859267_by_2();
    lemma_pow_859267_by_3();
    lemma_pow_859267_by_47737();
    let n: int = 859267;
    let qs = Seq::new(4nat, |i: int| if i < 1 { 2nat } else if i < 3 { 3nat } else { 47737nat });
    assert(qs.subrange(4, 4).len() == 0);
    assert(list_prod(qs.subrange(4, 4)) == 1);
    lemma_list_prod_front(qs, 3, 47737nat, 1nat);
    lemma_list_prod_front(qs, 2, 3nat, 47737nat);
    lemma_list_prod_front(qs, 1, 3nat, 143211nat);
    lemma_list_prod_front(qs, 0, 2nat, 429633nat);
    assert(qs.subrange(0, 4) =~= qs);
    assert forall|i: int| 0 <= i < qs.len() implies is_prime(#[trigger] qs[i]) by {
        if i < 1 {
            assert(qs[i] == 2);
        } else if i < 3 {
            assert(qs[i] == 3);
        } else {
            assert(qs[i] == 47737);
        }
    }
    assert forall|i: int| 0 <= i < qs.len() implies (n - 1) % (#[trigger] qs[i] as int) == 0
        && pm(2, ((n - 1) / (qs[i] as int)) as nat, n) != 1 by {
        if i < 1 {
            assert(qs[i] == 2);
            assert((n - 1) % 2int == 0);
            assert((n - 1) / 2int == 429633int);
        } else if i < 3 {
            assert(qs[i] == 3);
            assert((n - 1) % 3int == 0);
            assert((n - 1) / 3int == 286422int);
        } else {
            assert(qs[i] == 47737);
            assert((n - 1) % 47737int == 0);
            assert((n - 1) / 47737int == 18int);
        }
    }
    lemma_lucas(n, 2, qs);
}

/// `3^18328 mod 18329`.
proof fn lemma_pow_18329_full()
    ensures
        pm(3, 18328nat, 18329) == 1,
{
    let m: int = 18329;
    lemma_pm_one(3, m);
    lemma_pm_double(3, 1nat, m);
    assert(pm(3, 2nat, m) == 9);
    lemma_pm_double(3, 2nat, m);
    assert(pm(3, 4nat, m) == 81);
    lemma_pm_double(3, 4nat, m);
    assert(pm(3, 8nat, m) == 6561);
    lemma_pm_double(3, 8nat, m);
    assert(pm(3, 16nat, m) == 10229);
    lemma_pm_succ(3, 16nat, m);
    assert(pm(3, 17nat, m) == 12358);
    lemma_pm_double(3, 17nat, m);
    assert(pm(3, 34nat, m) == 2936);
    lemma_pm_succ(3, 34nat, m);
    assert(pm(3, 35nat, m) == 8808);
    lemma_pm_double(3, 35nat, m);
    assert(pm(3, 70nat, m) == 12536);
    lemma_pm_succ(3, 70nat, m);
    assert(pm(3, 71nat, m) == 950);
    lemma_pm_double(3, 71nat, m);
    assert(pm(3, 142nat, m) == 4379);
    lemma_pm_succ(3, 142nat, m);
    assert(pm(3, 143nat, m) == 13137);
    lemma_pm_double(3, 143nat, m);
    assert(pm(3, 286nat, m) == 13234);
    lemma_pm_double(3, 286nat, m);
    assert(pm(3, 572nat, m) == 5161);
    lemma_pm_double(3, 572nat, m);
    assert(pm(3, 1144nat, m) == 3884);
    lemma_pm_succ(3, 1144nat, m);
    assert(pm(3, 1145nat, m) == 11652);
    lemma_pm_double(3, 1145nat, m);
    assert(pm(3, 2290nat, m) == 6201);
    lemma_pm_succ(3, 2290nat, m);
    assert(pm(3, 2291nat, m) == 274);
    lemma_pm_double(3, 2291nat, m);
    assert(pm(3, 4582nat, m) == 1760);
    lemma_pm_double(3, 4582nat, m);
    assert(pm(3, 9164nat, m) == 18328);
    lemma_pm_double(3, 9164nat, m);
    assert(pm(3, 18328nat, m) == 1);
}

/// `3^9164 mod 18329`.
proof fn lemma_pow_18329_by_2()
    ensures
        pm(3, 9164nat, 18329) == 18328,
{
    let m: int = 18329;
    lemma_pm_one(3, m);
    lemma_pm_double(3, 1nat, m);
    assert(pm(3, 2nat, m) == 9);
    lemma_pm_double(3, 2nat, m);
    assert(pm(3, 4nat, m) == 81);
    lemma_pm_double(3, 4nat, m);
    assert(pm(3, 8nat, m) == 6561);
    lemma_pm_double(3, 8nat, m);
    assert(pm(3, 16nat, m) == 10229);
    lemma_pm_succ(3, 16nat, m);
    assert(pm(3, 17nat, m) == 12358);
    lemma_pm_double(3, 17nat, m);
    assert(pm(3, 34nat, m) == 2936);
    lemma_pm_succ(3, 34nat, m);
    assert(pm(3, 35nat, m) == 8808);
    lemma_pm_double(3, 35nat, m);
    assert(pm(3, 70nat, m) == 12536);
    lemma_pm_succ(3, 70nat, m);
    assert(pm(3, 71nat, m) == 950);
    lemma_pm_double(3, 71nat, m);
    assert(pm(3, 142nat, m) == 4379);
    lemma_pm_succ(3, 142nat, m);
    assert(pm(3, 143nat, m) == 13137);
    lemma_pm_double(3, 143nat, m);
    assert(pm(3, 286nat, m) == 13234);
    lemma_pm_double(3, 286nat, m);
    assert(pm(3, 572nat, m) == 5161);
    lemma_pm_double(3, 572nat, m);
    assert(pm(3, 1144nat, m) == 3884);
    lemma_pm_succ(3, 1144nat, m);
    assert(pm(3, 1145nat, m) == 11652);
    lemma_pm_double(3, 1145nat, m);
    assert(pm(3, 2290nat, m) == 6201);
    lemma_pm_succ(3, 2290nat, m);
    assert(pm(3, 2291nat, m) == 274);
    lemma_pm_double(3, 2291nat, m);
    assert(pm(3, 4582nat, m) == 1760);
    lemma_pm_double(3, 4582nat, m);
    assert(pm(3, 9164nat, m) == 18328);
}

/// `3^632 mod 18329`.
proof fn lemma_pow_18329_by_29()
    ensures
        pm(3, 632nat, 18329) == 8708,
{
    let m: int = 18329;
    lemma_pm_one(3, m);
    lemma_pm_double(3, 1nat, m);
    assert(pm(3, 2nat, m) == 9);
    lemma_pm_double(3, 2nat, m);
    assert(pm(3, 4nat, m) == 81);
    lemma_pm_double(3, 4nat, m);
    assert(pm(3, 8nat, m) == 6561);
    lemma_pm_succ(3, 8nat, m);
    assert(pm(3, 9nat, m) == 1354);
    lemma_pm_double(3, 9nat, m);
    assert(pm(3, 18nat, m) == 416);
    lemma_pm_succ(3, 18nat, m);
    assert(pm(3, 19nat, m) == 1248);
    lemma_pm_double(3, 19nat, m);
    assert(pm(3, 38nat, m) == 17868);
    lemma_pm_succ(3, 38nat, m);
    assert(pm(3, 39nat, m) == 16946);
    lemma_pm_double(3, 39nat, m);
    assert(pm(3, 78nat, m) == 6473);
    lemma_pm_succ(3, 78nat, m);
    assert(pm(3, 79nat, m) == 1090);
    lemma_pm_double(3, 79nat, m);
    assert(pm(3, 158nat, m) == 15044);
    lemma_pm_double(3, 158nat, m);
    assert(pm(3, 316nat, m) == 13773);
    lemma_pm_double(3, 316nat, m);
    assert(pm(3, 632nat, m) == 8708);
}

/// `3^232 mod 18329`.
proof fn lemma_pow_18329_by_79()
    ensures
        pm(3, 232nat, 18329) == 16492,
{
    let m: int = 18329;
    lemma_pm_one(3, m);
    lemma_pm_double(3, 1nat, m);
    assert(pm(3, 2nat, m) == 9);
    lemma_pm_succ(3, 2nat, m);
    assert(pm(3, 3nat, m) == 27);
    lemma_pm_double(3, 3nat, m);
    assert(pm(3, 6nat, m) == 729);
    lemma_pm_succ(3, 6nat, m);
    assert(pm(3, 7nat, m) == 2187);
    lemma_pm_double(3, 7nat, m);
    assert(pm(3, 14nat, m) == 17429);
    lemma_pm_double(3, 14nat, m);
    assert(pm(3, 28nat, m) == 3524);
    lemma_pm_succ(3, 28nat, m);
    assert(pm(3, 29nat, m) == 10572);
    lemma_pm_double(3, 29nat, m);
    assert(pm(3, 58nat, m) == 15271);
    lemma_pm_double(3, 58nat, m);
    assert(pm(3, 116nat, m) == 3574);
    lemma_pm_double(3, 116nat, m);
    assert(pm(3, 232nat, m) == 16492);
}

/// 18329 is prime.
proof fn lemma_prime_18329()
    ensures
        is_prime(18329nat),
{
    lemma_prime_2();
    lemma_prime_29();
    lemma_prime_79();
    lemma_pow_18329_full();
    lemma_pow_18329_by_2();
    lemma_pow_18329_by_29();
    lemma_pow_18329_by_79();
    let n: int = 18329;
    let qs = Seq::new(5nat, |i: int| if i < 3 { 2nat } else if i < 4 { 29nat } else { 79nat });
    assert(qs.subrange(5, 5).len() == 0);
    assert(list_prod(qs.subrange(5, 5)) == 1);
    lemma_list_prod_front(qs, 4, 79nat, 1nat);
    lemma_list_prod_front(qs, 3, 29nat, 79nat);
    lemma_list_prod_front(qs, 2, 2nat, 2291nat);
    lemma_list_prod_front(qs, 1, 2nat, 4582nat);
    lemma_list_prod_front(qs, 0, 2nat, 9164nat);
    assert(qs.subrange(0, 5) =~= qs);
    assert forall|i: int| 0 <= i < qs.len() implies is_prime(#[trigger] qs[i]) by {
        if i < 3 {
            assert(qs[i] == 2);
        } else if i < 4 {
            assert(qs[i] == 29);
        } else {
            assert(qs[i] == 79);
        }
    }
    assert forall|i: int| 0 <= i < qs.len() implies (n - 1) % (#[trigger] qs[i] as int) == 0
        && pm(3, ((n - 1) / (qs[i] as int)) as nat, n) != 1 by {
        if i < 3 {
            assert(qs[i] == 2);
            assert((n - 1) % 2int == 0);
            assert((n - 1) / 2int == 9164int);
        } else if i < 4 {
            assert(qs[i] == 29);
            assert((n - 1) % 29int == 0);
            assert((n - 1) / 29int == 632int);
        } else {
            assert(qs[i] == 79);
            assert((n - 1) % 79int == 0);
            assert((n - 1) / 79int == 232int);
        }
    }
    lemma_lucas(n, 3, qs);
}

/// `2^2529402 mod 2529403`.
proof fn lemma_pow_2529403_full()
    ensures
        pm(2, 2529402nat, 2529403) == 1,
{
    let m: int = 2529403;
    lemma_pm_one(2, m);
    lemma_pm_double(2, 1nat, m);
    assert(pm(2, 2nat, m) == 4);
    lemma_pm_double(2, 2nat, m);
    assert(pm(2, 4nat, m) == 16);
    lemma_pm_double(2, 4nat, m);
    assert(pm(2, 8nat, m) == 256);
    lemma_pm_succ(2, 8nat, m);
    assert(pm(2, 9nat, m) == 512);
    lemma_pm_double(2, 9nat, m);
    assert(pm(2, 18nat, m) == 262144);
    lemma_pm_succ(2, 18nat, m);
    assert(pm(2, 19nat, m) == 524288);
    lemma_pm_double(2, 19nat, m);
    assert(pm(2, 38nat, m) == 94725);
    lemma_pm_double(2, 38nat, m);
    assert(pm(2, 76nat, m) == 1033184);
    lemma_pm_succ(2, 76nat, m);
    assert(pm(2, 77nat, m) == 2066368);
    lemma_pm_double(2, 77nat, m);
    assert(pm(2, 154nat, m) == 1624736);
    lemma_pm_double(2, 154nat, m);
    assert(pm(2, 308nat, m) == 1158000);
    lemma_pm_double(2, 308nat, m);
    assert(pm(2, 616nat, m) == 999550);
    lemma_pm_succ(2, 616nat, m);
    assert(pm(2, 617nat, m) == 1999100);
    lemma_pm_double(2, 617nat, m);
    assert(pm(2, 1234nat, m) == 2246269);
    lemma_pm_succ(2, 1234nat, m);
    assert(pm(2, 1235nat, m) == 1963135);
    lemma_pm_double(2, 1235nat, m);
    assert(pm(2, 2470nat, m) == 1970708);
    lemma_pm_double(2, 2470nat, m);
    assert(pm(2, 4940nat, m) == 1655213);
    lemma_pm_double(2, 4940nat, m);
    assert(pm(2, 9880nat, m) == 2157113);
    lemma_pm_double(2, 9880nat, m);
    assert(pm(2, 19760nat, m) == 1206715);
    lemma_pm_double(2, 19760nat, m);
    assert(pm(2, 39520nat, m) == 1489946);
    lemma_pm_succ(2, 39520nat, m);
    assert(pm(2, 39521nat, m) == 450489);
    lemma_pm_double(2, 39521nat, m);
    assert(pm(2, 79042nat, m) == 1277625);
    lemma_pm_succ(2, 79042nat, m);
    assert(pm(2, 79043nat, m) == 25847);
    lemma_pm_double(2, 79043nat, m);
    assert(pm(2, 158086nat, m) == 305017);
    lemma_pm_succ(2, 158086nat, m);
    assert(pm(2, 158087nat, m) == 610034);
    lemma_pm_double(2, 158087nat, m);
    assert(pm(2, 316174nat, m) == 535378);
    lemma_pm_succ(2, 316174nat, m);
    assert(pm(2, 316175nat, m) == 1070756);
    lemma_pm_double(2, 316175nat, m);
    assert(pm(2, 632350nat, m) == 737308);
    lemma_pm_double(2, 632350nat, m);
    assert(pm(2, 1264700nat, m) == 1264701);
    lemma_pm_succ(2, 1264700nat, m);
    assert(pm(2, 1264701nat, m) == 2529402);
    lemma_pm_double(2, 1264701nat, m);
    assert(pm(2, 2529402nat, m) == 1);
}

/// `2^1264701 mod 2529403`.
proof fn lemma_pow_2529403_by_2()
    ensures
        pm(2, 1264701nat, 2529403) == 2529402,
{
    let m: int = 2529403;
    lemma_pm_one(2, m);
    lemma_pm_double(2, 1nat, m);
    assert(pm(2, 2nat, m) == 4);
    lemma_pm_double(2, 2nat, m);
    assert(pm(2, 4nat, m) == 16);
    lemma_pm_double(2, 4nat, m);
    assert(pm(2, 8nat, m) == 256);
    lemma_pm_succ(2, 8nat, m);
    assert(pm(2, 9nat, m) == 512);
    lemma_pm_double(2, 9nat, m);
    assert(pm(2, 18nat, m) == 262144);
    lemma_pm_succ(2, 18nat, m);
    assert(pm(2, 19nat, m) == 524288);
    lemma_pm_double(2, 19nat, m);
    assert(pm(2, 38nat, m) == 94725);
    lemma_pm_double(2, 38nat, m);
    assert(pm(2, 76nat, m) == 1033184);
    lemma_pm_succ(2, 76nat, m);
    assert(pm(2, 77nat, m) == 2066368);
    lemma_pm_double(2, 77nat, m);
    assert(pm(2, 154nat, m) == 1624736);
    lemma_pm_double(2, 154nat, m);
    assert(pm(2, 308nat, m) == 1158000);
    lemma_pm_double(2, 308nat, m);
    assert(pm(2, 616nat, m) == 999550);
    lemma_pm_succ(2, 616nat, m);
    assert(pm(2, 617nat, m) == 1999100);
    lemma_pm_double(2, 617nat, m);
    assert(pm(2, 1234nat, m) == 2246269);
    lemma_pm_succ(2, 1234nat, m);
    assert(pm(2, 1235nat, m) == 1963135);
    lemma_pm_double(2, 1235nat, m);
    assert(pm(2, 2470nat, m) == 1970708);
    lemma_pm_double(2, 2470nat, m);
    assert(pm(2, 4940nat, m) == 1655213);
    lemma_pm_double(2, 4940nat, m);
    assert(pm(2, 9880nat, m) == 2157113);
    lemma_pm_double(2, 9880nat, m);
    assert(pm(2, 19760nat, m) == 1206715);
    lemma_pm_double(2, 19760nat, m);
    assert(pm(2, 39520nat, m) == 1489946);
    lemma_pm_succ(2, 39520nat, m);
    assert(pm(2, 39521nat, m) == 450489);
    lemma_pm_double(2, 39521nat, m);
    assert(pm(2, 79042nat, m) == 1277625);
    lemma_pm_succ(2, 79042nat, m);
    assert(pm(2, 79043nat, m) == 25847);
    lemma_pm_double(2, 79043nat, m);
    assert(pm(2, 158086nat, m) == 305017);
    lemma_pm_succ(2, 158086nat, m);
    assert(pm(2, 158087nat, m) == 610034);
    lemma_pm_double(2, 158087nat, m);
    assert(pm(2, 316174nat, m) == 535378);
    lemma_pm_succ(2, 316174nat, m);
    assert(pm(2, 316175nat, m) == 1070756);
    lemma_pm_double(2, 316175nat, m);
    assert(pm(2, 632350nat, m) == 737308);
    lemma_pm_double(2, 632350nat, m);
    assert(pm(2, 1264700nat, m) == 1264701);
    lemma_pm_succ(2, 1264700nat, m);
    assert(pm(2, 1264701nat, m) == 2529402);
}

/// `2^843134 mod 2529403`.
proof fn lemma_pow_2529403_by_3()
    ensures
        pm(2, 843134nat, 2529403) == 2159616,
{
    let m: int = 2529403;
    lemma_pm_one(2, m);
    lemma_pm_double(2, 1nat, m);
    assert(pm(2, 2nat, m) == 4);
    lemma_pm_succ(2, 2nat, m);
    assert(pm(2, 3nat, m) == 8);
    lemma_pm_double(2, 3nat, m);
    assert(pm(2, 6nat, m) == 64);
    lemma_pm_double(2, 6nat, m);
    assert(pm(2, 12nat, m) == 4096);
    lemma_pm_double(2, 12nat, m);
    assert(pm(2, 24nat, m) == 1600798);
    lemma_pm_succ(2, 24nat, m);
    assert(pm(2, 25nat, m) == 672193);
    lemma_pm_double(2, 25nat, m);
    assert(pm(2, 50nat, m) == 994941);
    lemma_pm_succ(2, 50nat, m);
    assert(pm(2, 51nat, m) == 1989882);
    lemma_pm_double(2, 51nat, m);
    assert(pm(2, 102nat, m) == 1741604);
    lemma_pm_double(2, 102nat, m);
    assert(pm(2, 204nat, m) == 297306);
    lemma_pm_succ(2, 204nat, m);
    assert(pm(2, 205nat, m) == 594612);
    lemma_pm_double(2, 205nat, m);
    assert(pm(2, 410nat, m) == 949801);
    lemma_pm_succ(2, 410nat, m);
    assert(pm(2, 411nat, m) == 1899602);
    lemma_pm_double(2, 411nat, m);
    assert(pm(2, 822nat, m) == 968156);
    lemma_pm_succ(2, 822nat, m);
    assert(pm(2, 823nat, m) == 1936312);
    lemma_pm_double(2, 823nat, m);
    assert(pm(2, 1646nat, m) == 447280);
    lemma_pm_double(2, 1646nat, m);
    assert(pm(2, 3292nat, m) == 1326921);
    lemma_pm_succ(2, 3292nat, m);
    assert(pm(2, 3293nat, m) == 124439);
    lemma_pm_double(2, 3293nat, m);
    assert(pm(2, 6586nat, m) == 59555);
    lemma_pm_double(2, 6586nat, m);
    assert(pm(2, 13172nat, m) == 575019);
    lemma_pm_succ(2, 13172nat, m);
    assert(pm(2, 13173nat, m) == 1150038);
    lemma_pm_double(2, 13173nat, m);
    assert(pm(2, 26346nat, m) == 513789);
    lemma_pm_succ(2, 26346nat, m);
    assert(pm(2, 26347nat, m) == 1027578);
    lemma_pm_double(2, 26347nat, m);
    assert(pm(2, 52694nat, m) == 2087316);
    lemma_pm_succ(2, 52694nat, m);
    assert(pm(2, 52695nat, m) == 1645229);
    lemma_pm_double(2, 52695nat, m);
    assert(pm(2, 105390nat, m) == 1077066);
    lemma_pm_succ(2, 105390nat, m);
    assert(pm(2, 105391nat, m) == 2154132);
    lemma_pm_double(2, 105391nat, m);
    assert(pm(2, 210782nat, m) == 1282013);
    lemma_pm_succ(2, 210782nat, m);
    assert(pm(2, 210783nat, m) == 34623);
    lemma_pm_double(2, 210783nat, m);
    assert(pm(2, 421566nat, m) == 2344510);
    lemma_pm_succ(2, 421566nat, m);
    assert(pm(2, 421567nat, m) == 2159617);
    lemma_pm_double(2, 421567nat, m);
    assert(pm(2, 843134nat, m) == 2159616);
}

/// `2^109974 mod 2529403`.
proof fn lemma_pow_2529403_by_23()
    ensures
        pm(2, 109974nat, 2529403) == 1307537,
{
    let m: int = 2529403;
    lemma_pm_one(2, m);
    lemma_pm_double(2, 1nat, m);
    assert(pm(2, 2nat, m) == 4);
    lemma_pm_succ(2, 2nat, m);
    assert(pm(2, 3nat, m) == 8);
    lemma_pm_double(2, 3nat, m);
    assert(pm(2, 6nat, m) == 64);
    lemma_pm_double(2, 6nat, m);
    assert(pm(2, 12nat, m) == 4096);
    lemma_pm_succ(2, 12nat, m);
    assert(pm(2, 13nat, m) == 8192);
    lemma_pm_double(2, 13nat, m);
    assert(pm(2, 26nat, m) == 1344386);
    lemma_pm_double(2, 26nat, m);
    assert(pm(2, 52nat, m) == 1450361);
    lemma_pm_succ(2, 52nat, m);
    assert(pm(2, 53nat, m) == 371319);
    lemma_pm_double(2, 53nat, m);
    assert(pm(2, 106nat, m) == 42231);
    lemma_pm_succ(2, 106nat, m);
    assert(pm(2, 107nat, m) == 84462);
    lemma_pm_double(2, 107nat, m);
    assert(pm(2, 214nat, m) == 912984);
    lemma_pm_double(2, 214nat, m);
    assert(pm(2, 428nat, m) == 319636);
    lemma_pm_succ(2, 428nat, m);
    assert(pm(2, 429nat, m) == 639272);
    lemma_pm_double(2, 429nat, m);
    assert(pm(2, 858nat, m) == 635483);
    lemma_pm_succ(2, 858nat, m);
    assert(pm(2, 859nat, m) == 1270966);
    lemma_pm_double(2, 859nat, m);
    assert(pm(2, 1718nat, m) == 1935266);
    lemma_pm_double(2, 1718nat, m);
    assert(pm(2, 3436nat, m) == 350895);
    lemma_pm_double(2, 3436nat, m);
    assert(pm(2, 6872nat, m) == 1021791);
    lemma_pm_succ(2, 6872nat, m);
    assert(pm(2, 6873nat, m) == 2043582);
    lemma_pm_double(2, 6873nat, m);
    assert(pm(2, 13746nat, m) == 920708);
    lemma_pm_double(2, 13746nat, m);
    assert(pm(2, 27492nat, m) == 1629247);
    lemma_pm_succ(2, 27492nat, m);
    assert(pm(2, 27493nat, m) == 729091);
    lemma_pm_double(2, 27493nat, m);
    assert(pm(2, 54986nat, m) == 1940010);
    lemma_pm_succ(2, 54986nat, m);
    assert(pm(2, 54987nat, m) == 1350617);
    lemma_pm_double(2, 54987nat, m);
    assert(pm(2, 109974nat, m) == 1307537);
}

/// `2^138 mod 2529403`.
proof fn lemma_pow_2529403_by_18329()
    ensures
        pm(2, 138nat, 2529403) == 1443810,
{
    let m: int = 2529403;
    lemma_pm_one(2, m);
    lemma_pm_double(2, 1nat, m);
    assert(pm(2, 2nat, m) == 4);
    lemma_pm_double(2, 2nat, m);
    assert(pm(2, 4nat, m) == 16);
    lemma_pm_double(2, 4nat, m);
    assert(pm(2, 8nat, m) == 256);
    lemma_pm_double(2, 8nat, m);
    assert(pm(2, 16nat, m) == 65536);
    lemma_pm_succ(2, 16nat, m);
    assert(pm(2, 17nat, m) == 131072);
    lemma_pm_double(2, 17nat, m);
    assert(pm(2, 34nat, m) == 164008);
    lemma_pm_double(2, 34nat, m);
    assert(pm(2, 68nat, m) == 952562);
    lemma_pm_succ(2, 68nat, m);
    assert(pm(2, 69nat, m) == 1905124);
    lemma_pm_double(2, 69nat, m);
    assert(pm(2, 138nat, m) == 1443810);
}

/// 2529403 is prime.
proof fn lemma_prime_2529403()
    ensures
        is_prime(2529403nat),
{
    lemma_prime_2();
    lemma_prime_3();
    lemma_prime_23();
    lemma_prime_18329();
    lemma_pow_2529403_full();
    lemma_pow_2529403_by_2();
    lemma_pow_2529403_by_3();
    lemma_pow_2529403_by_23();
    lemma_pow_2529403_by_18329();
    let n: int = 2529403;
    let qs = Seq::new(4nat, |i: int| if i < 1 { 2nat } else if i < 2 { 3nat } else if i < 3 { 23nat } else { 18329nat });
    assert(qs.subrange(4, 4).len() == 0);
    assert(list_prod(qs.subrange(4, 4)) == 1);
    lemma_list_prod_front(qs, 3, 18329nat, 1nat);
    lemma_list_prod_front(qs, 2, 23nat, 18329nat);
    lemma_list_prod_front(qs, 1, 3nat, 421567nat);
    lemma_list_prod_front(qs, 0, 2nat, 1264701nat);
    assert(qs.subrange(0, 4) =~= qs);
    assert forall|i: int| 0 <= i < qs.len() implies is_prime(#[trigger] qs[i]) by {
        if i < 1 {
            assert(qs[i] == 2);
        } else if i < 2 {
            assert(qs[i] == 3);
        } else if i < 3 {
            assert(qs[i] == 23);
        } else {
            assert(qs[i] == 18329);
        }
    }
    assert forall|i: int| 0 <= i < qs.len() implies (n - 1) % (#[trigger] qs[i] as int) == 0
        && pm(2, ((n - 1) / (qs[i] as int)) as nat, n) != 1 by {
        if i < 1 {
            assert(qs[i] == 2);
            assert((n - 1) % 2int == 0);
            assert((n - 1) / 2int == 1264701int);
        } else if i < 2 {
            assert(qs[i] == 3);
            assert((n - 1) % 3int == 0);
            assert((n - 1) / 3int == 843134int);
        } else if i < 3 {
            assert(qs[i] == 23);
            assert((n - 1) % 23int == 0);
            assert((n - 1) / 23int == 109974int);
        } else {
            assert(qs[i] == 18329);
            assert((n - 1) % 18329int == 0);
            assert((n - 1) / 18329int == 138int);
        }
    }
    lemma_lucas(n, 2, qs);
}

/// `3^42 mod 43`.
proof fn lemma_pow_43_full()
    ensures
        pm(3, 42nat, 43) == 1,
{
    let m: int = 43;
    lemma_pm_one(3, m);
    lemma_pm_double(3, 1nat, m);
    assert(pm(3, 2nat, m) == 9);
    lemma_pm_double(3, 2nat, m);
    assert(pm(3, 4nat, m) == 38);
    lemma_pm_succ(3, 4nat, m);
    assert(pm(3, 5nat, m) == 28);
    lemma_pm_double(3, 5nat, m);
    assert(pm(3, 10nat, m) == 10);
    lemma_pm_double(3, 10nat, m);
    assert(pm(3, 20nat, m) == 14);
    lemma_pm_succ(3, 20nat, m);
    assert(pm(3, 21nat, m) == 42);
    lemma_pm_double(3, 21nat, m);
    assert(pm(3, 42nat, m) == 1);
}

/// `3^21 mod 43`.
proof fn lemma_pow_43_by_2()
    ensures
        pm(3, 21nat, 43) == 42,
{
    let m: int = 43;
    lemma_pm_one(3, m);
    lemma_pm_double(3, 1nat, m);
    assert(pm(3, 2nat, m) == 9);
    lemma_pm_double(3, 2nat, m);
    assert(pm(3, 4nat, m) == 38);
    lemma_pm_succ(3, 4nat, m);
    assert(pm(3, 5nat, m) == 28);
    lemma_pm_double(3, 5nat, m);
    assert(pm(3, 10nat, m) == 10);
    lemma_pm_double(3, 10nat, m);
    assert(pm(3, 20nat, m) == 14);
    lemma_pm_succ(3, 20nat, m);
    assert(pm(3, 21nat, m) == 42);
}

/// `3^14 mod 43`.
proof fn lemma_pow_43_by_3()
    ensures
        pm(3, 14nat, 43) == 36,
{
    let m: int = 43;
    lemma_pm_one(3, m);
    lemma_pm_double(3, 1nat, m);
    assert(pm(3, 2nat, m) == 9);
    lemma_pm_succ(3, 2nat, m);
    assert(pm(3, 3nat, m) == 27);
    lemma_pm_double(3, 3nat, m);
    assert(pm(3, 6nat, m) == 41);
    lemma_pm_succ(3, 6nat, m);
    assert(pm(3, 7nat, m) == 37);
    lemma_pm_double(3, 7nat, m);
    assert(pm(3, 14nat, m) == 36);
}

/// `3^6 mod 43`.
proof fn lemma_pow_43_by_7()
    ensures
        pm(3, 6nat, 43) == 41,
{
    let m: int = 43;
    lemma_pm_one(3, m);
    lemma_pm_double(3, 1nat, m);
    assert(pm(3, 2nat, m) == 9);
    lemma_pm_succ(3, 2nat, m);
    assert(pm(3, 3nat, m) == 27);
    lemma_pm_double(3, 3nat, m);
    assert(pm(3, 6nat, m) == 41);
}

/// 43 is prime.
proof fn lemma_prime_43()
    ensures
        is_prime(43nat),
{
    lemma_prime_2();
    lemma_prime_3();
    lemma_prime_7();
    lemma_pow_43_full();
    lemma_pow_43_by_2();
    lemma_pow_43_by_3();
    lemma_pow_43_by_7();
    let n: int = 43;
    let qs = Seq::new(3nat, |i: int| if i < 1 { 2nat } else if i < 2 { 3nat } else { 7nat });
    assert(qs.subrange(3, 3).len() == 0);
    assert(list_prod(qs.subrange(3, 3)) == 1);
    lemma_list_prod_front(qs, 2, 7nat, 1nat);
    lemma_list_prod_front(qs, 1, 3nat, 7nat);
    lemma_list_prod_front(qs, 0, 2nat, 21nat);
    assert(qs.subrange(0, 3) =~= qs);
    assert forall|i: int| 0 <= i < qs.len() implies is_prime(#[trigger] qs[i]) by {
        if i < 1 {
            assert(qs[i] == 2);
        } else if i < 2 {
            assert(qs[i] == 3);
        } else {
            assert(qs[i] == 7);
        }
    }
    assert forall|i: int| 0 <= i < qs.len() implies (n - 1) % (#[trigger] qs[i] as int) == 0
        && pm(3, ((n - 1) / (qs[i] as int)) as nat, n) != 1 by {
        if i < 1 {
            assert(qs[i] == 2);
            assert((n - 1) % 2int == 0);
            assert((n - 1) / 2int == 21int);
        } else if i < 2 {
            assert(qs[i] == 3);
            assert((n - 1) % 3int == 0);
            assert((n - 1) / 3int == 14int);
        } else {
            assert(qs[i] == 7);
            assert((n - 1) % 7int == 0);
            assert((n - 1) / 7int == 6int);
        }
    }
    lemma_lucas(n, 3, qs);
}

/// `5^96 mod 97`.
proof fn lemma_pow_97_full()
    ensures
        pm(5, 96nat, 97) == 1,
{
    let m: int = 97;
    lemma_pm_one(5, m);
    lemma_pm_double(5, 1nat, m);
    assert(pm(5, 2nat, m) == 25);
    lemma_pm_succ(5, 2nat, m);
    assert(pm(5, 3nat, m) == 28);
    lemma_pm_double(5, 3nat, m);
    assert(pm(5, 6nat, m) == 8);
    lemma_pm_double(5, 6nat, m);
    assert(pm(5, 12nat, m) == 64);
    lemma_pm_double(5, 12nat, m);
    assert(pm(5, 24nat, m) == 22);
    lemma_pm_double(5, 24nat, m);
    assert(pm(5, 48nat, m) == 96);
    lemma_pm_double(5, 48nat, m);
    assert(pm(5, 96nat, m) == 1);
}

/// `5^48 mod 97`.
proof fn lemma_pow_97_by_2()
    ensures
        pm(5, 48nat, 97) == 96,
{
    let m: int = 97;
    lemma_pm_one(5, m);
    lemma_pm_double(5, 1nat, m);
    assert(pm(5, 2nat, m) == 25);
    lemma_pm_succ(5, 2nat, m);
    assert(pm(5, 3nat, m) == 28);
    lemma_pm_double(5, 3nat, m);
    assert(pm(5, 6nat, m) == 8);
    lemma_pm_double(5, 6nat, m);
    assert(pm(5, 12nat, m) == 64);
    lemma_pm_double(5, 12nat, m);
    assert(pm(5, 24nat, m) == 22);
    lemma_pm_double(5, 24nat, m);
    assert(pm(5, 48nat, m) == 96);
}

/// `5^32 mod 97`.
proof fn lemma_pow_97_by_3()
    ensures
        pm(5, 32nat, 97) == 35,
{
    let m: int = 97;
    lemma_pm_one(5, m);
    lemma_pm_double(5, 1nat, m);
    assert(pm(5, 2nat, m) == 25);
    lemma_pm_double(5, 2nat, m);
    assert(pm(5, 4nat, m) == 43);
    lemma_pm_double(5, 4nat, m);
    assert(pm(5, 8nat, m) == 6);
    lemma_pm_double(5, 8nat, m);
    assert(pm(5, 16nat, m) == 36);
    lemma_pm_double(5, 16nat, m);
    assert(pm(5, 32nat, m) == 35);
}

/// 97 is prime.
proof fn lemma_prime_97()
    ensures
        is_prime(97nat),
{
    lemma_prime_2();
    lemma_prime_3();
    lemma_pow_97_full();
    lemma_pow_97_by_2();
    lemma_pow_97_by_3();
    let n: int = 97;
    let qs = Seq::new(6nat, |i: int| if i < 5 { 2nat } else { 3nat });
    assert(qs.subrange(6, 6).len() == 0);
    assert(list_prod(qs.subrange(6, 6)) == 1);
    lemma_list_prod_front(qs, 5, 3nat, 1nat);
    lemma_list_prod_front(qs, 4, 2nat, 3nat);
    lemma_list_prod_front(qs, 3, 2nat, 6nat);
    lemma_list_prod_front(qs, 2, 2nat, 12nat);
    lemma_list_prod_front(qs, 1, 2nat, 24nat);
    lemma_list_prod_front(qs, 0, 2nat, 48nat);
    assert(qs.subrange(0, 6) =~= qs);
    assert forall|i: int| 0 <= i < qs.len() implies is_prime(#[trigger] qs[i]) by {
        if i < 5 {
            assert(qs[i] == 2);
        } else {
            assert(qs[i] == 3);
        }
    }
    assert forall|i: int| 0 <= i < qs.len() implies (n - 1) % (#[trigger] qs[i] as int) == 0
        && pm(5, ((n - 1) / (qs[i] as int)) as nat, n) != 1 by {
        if i < 5 {
            assert(qs[i] == 2);
            assert((n - 1) % 2int == 0);
            assert((n - 1) / 2int == 48int);
        } else {
            assert(qs[i] == 3);
            assert((n - 1) % 3int == 0);
            assert((n - 1) / 3int == 32int);
        }
    }
    lemma_lucas(n, 5, qs);
}

/// `3^448 mod 449`.
proof fn lemma_pow_449_full()
    ensures
        pm(3, 448nat, 449) == 1,
{
    let m: int = 449;
    lemma_pm_one(3, m);
    lemma_pm_double(3, 1nat, m);
    assert(pm(3, 2nat, m) == 9);
    lemma_pm_succ(3, 2nat, m);
    assert(pm(3, 3nat, m) == 27);
    lemma_pm_double(3, 3nat, m);
    assert(pm(3, 6nat, m) == 280);
    lemma_pm_succ(3, 6nat, m);
    assert(pm(3, 7nat, m) == 391);
    lemma_pm_double(3, 7nat, m);
    assert(pm(3, 14nat, m) == 221);
    lemma_pm_double(3, 14nat, m);
    assert(pm(3, 28nat, m) == 349);
    lemma_pm_double(3, 28nat, m);
    assert(pm(3, 56nat, m) == 122);
    lemma_pm_double(3, 56nat, m);
    assert(pm(3, 112nat, m) == 67);
    lemma_pm_double(3, 112nat, m);
    assert(pm(3, 224nat, m) == 448);
    lemma_pm_double(3, 224nat, m);
    assert(pm(3, 448nat, m) == 1);
}

/// `3^224 mod 449`.
proof fn lemma_pow_449_by_2()
    ensures
        pm(3, 224nat, 449) == 448,
{
    let m: int = 449;
    lemma_pm_one(3, m);
    lemma_pm_double(3, 1nat, m);
    assert(pm(3, 2nat, m) == 9);
    lemma_pm_succ(3, 2nat, m);
    assert(pm(3, 3nat, m) == 27);
    lemma_pm_double(3, 3nat, m);
    assert(pm(3, 6nat, m) == 280);
    lemma_pm_succ(3, 6nat, m);
    assert(pm(3, 7nat, m) == 391);
    lemma_pm_double(3, 7nat, m);
    assert(pm(3, 14nat, m) == 221);
    lemma_pm_double(3, 14nat, m);
    assert(pm(3, 28nat, m) == 349);
    lemma_pm_double(3, 28nat, m);
    assert(pm(3, 56nat, m) == 122);
    lemma_pm_double(3, 56nat, m);
    assert(pm(3, 112nat, m) == 67);
    lemma_pm_double(3, 112nat, m);
    assert(pm(3, 224nat, m) == 448);
}

/// `3^64 mod 449`.
proof fn lemma_pow_449_by_7()
    ensures
        pm(3, 64nat, 449) == 324,
{
    let m: int = 449;
    lemma_pm_one(3, m);
    lemma_pm_double(3, 1nat, m);
    assert(pm(3, 2nat, m) == 9);
    lemma_pm_double(3, 2nat, m);
    assert(pm(3, 4nat, m) == 81);
    lemma_pm_double(3, 4nat, m);
    assert(pm(3, 8nat, m) == 275);
    lemma_pm_double(3, 8nat, m);
    assert(pm(3, 16nat, m) == 193);
    lemma_pm_double(3, 16nat, m);
    assert(pm(3, 32nat, m) == 431);
    lemma_pm_double(3, 32nat, m);
    assert(pm(3, 64nat, m) == 324);
}

/// 449 is prime.
proof fn lemma_prime_449()
    ensures
        is_prime(449nat),
{
    lemma_prime_2();
    lemma_prime_7();
    lemma_pow_449_full();
    lemma_pow_449_by_2();
    lemma_pow_449_by_7();
    let n: int = 449;
    let qs = Seq::new(7nat, |i: int| if i < 6 { 2nat } else { 7nat });
    assert(qs.subrange(7, 7).len() == 0);
    assert(list_prod(qs.subrange(7, 7)) == 1);
    lemma_list_prod_front(qs, 6, 7nat, 1nat);
    lemma_list_prod_front(qs, 5, 2nat, 7nat);
    lemma_list_prod_front(qs, 4, 2nat, 14nat);
    lemma_list_prod_front(qs, 3, 2nat, 28nat);
    lemma_list_prod_front(qs, 2, 2nat, 56nat);
    lemma_list_prod_front(qs, 1, 2nat, 112nat);
    lemma_list_prod_front(qs, 0, 2nat, 224nat);
    assert(qs.subrange(0, 7) =~= qs);
    assert forall|i: int| 0 <= i < qs.len() implies is_prime(#[trigger] qs[i]) by {
        if i < 6 {
            assert(qs[i] == 2);
        } else {
            assert(qs[i] == 7);
        }
    }
    assert forall|i: int| 0 <= i < qs.len() implies (n - 1) % (#[trigger] qs[i] as int) == 0
        && pm(3, ((n - 1) / (qs[i] as int)) as nat, n) != 1 by {
        if i < 6 {
            assert(qs[i] == 2);
            assert((n - 1) % 2int == 0);
            assert((n - 1) / 2int == 224int);
        } else {
            assert(qs[i] == 7);
            assert((n - 1) % 7int == 0);
            assert((n - 1) / 7int == 64int);
        }
    }
    lemma_lucas(n, 3, qs);
}

/// `5^609742 mod 609743`.
proof fn lemma_pow_609743_full()
    ensures
        pm(5, 609742nat, 609743) == 1,
{
    let m: int = 609743;
    lemma_pm_one(5, m);
    lemma_pm_double(5, 1nat, m);
    assert(pm(5, 2nat, m) == 25);
    lemma_pm_double(5, 2nat, m);
    assert(pm(5, 4nat, m) == 625);
    lemma_pm_double(5, 4nat, m);
    assert(pm(5, 8nat, m) == 390625);
    lemma_pm_succ(5, 8nat, m);
    assert(pm(5, 9nat, m) == 123896);
    lemma_pm_double(5, 9nat, m);
    assert(pm(5, 18nat, m) == 548534);
    lemma_pm_double(5, 18nat, m);
    assert(pm(5, 36nat, m) == 280689);
    lemma_pm_succ(5, 36nat, m);
    assert(pm(5, 37nat, m) == 183959);
    lemma_pm_double(5, 37nat, m);
    assert(pm(5, 74nat, m) == 177181);
    lemma_pm_double(5, 74nat, m);
    assert(pm(5, 148nat, m) == 488406);
    lemma_pm_double(5, 148nat, m);
    assert(pm(5, 296nat, m) == 422834);
    lemma_pm_succ(5, 296nat, m);
    assert(pm(5, 297nat, m) == 284941);
    lemma_pm_double(5, 297nat, m);
    assert(pm(5, 594nat, m) == 434573);
    lemma_pm_succ(5, 594nat, m);
    assert(pm(5, 595nat, m) == 343636);
    lemma_pm_double(5, 595nat, m);
    assert(pm(5, 1190nat, m) == 432144);
    lemma_pm_double(5, 1190nat, m);
    assert(pm(5, 2380nat, m) == 9154);
    lemma_pm_succ(5, 2380nat, m);
    assert(pm(5, 2381nat, m) == 45770);
    lemma_pm_double(5, 2381nat, m);
    assert(pm(5, 4762nat, m) == 425695);
    lemma_pm_succ(5, 4762nat, m);
    assert(pm(5, 4763nat, m) == 299246);
    lemma_pm_double(5, 4763nat, m);
    assert(pm(5, 9526nat, m) == 92050);
    lemma_pm_succ(5, 9526nat, m);
    assert(pm(5, 9527nat, m) == 460250);
    lemma_pm_double(5, 9527nat, m);
    assert(pm(5, 19054nat, m) == 466356);
    lemma_pm_double(5, 19054nat, m);
    assert(pm(5, 38108nat, m) == 517295);
    lemma_pm_double(5, 38108nat, m);
    assert(pm(5, 76216nat, m) == 474816);
    lemma_pm_succ(5, 76216nat, m);
    assert(pm(5, 76217nat, m) == 544851);
    lemma_pm_double(5, 76217nat, m);
    assert(pm(5, 152434nat, m) == 86506);
    lemma_pm_succ(5, 152434nat, m);
    assert(pm(5, 152435nat, m) == 432530);
    lemma_pm_double(5, 152435nat, m);
    assert(pm(5, 304870nat, m) == 243897);
    lemma_pm_succ(5, 304870nat, m);
    assert(pm(5, 304871nat, m) == 609742);
    lemma_pm_double(5, 304871nat, m);
    assert(pm(5, 609742nat, m) == 1);
}

/// `5^304871 mod 609743`.
proof fn lemma_pow_609743_by_2()
    ensures
        pm(5, 304871nat, 609743) == 609742,
{
    let m: int = 609743;
    lemma_pm_one(5, m);
    lemma_pm_double(5, 1nat, m);
    assert(pm(5, 2nat, m) == 25);
    lemma_pm_double(5, 2nat, m);
    assert(pm(5, 4nat, m) == 625);
    lemma_pm_double(5, 4nat, m);
    assert(pm(5, 8nat, m) == 390625);
    lemma_pm_succ(5, 8nat, m);
    assert(pm(5, 9nat, m) == 123896);
    lemma_pm_double(5, 9nat, m);
    assert(pm(5, 18nat, m) == 548534);
    lemma_pm_double(5, 18nat, m);
    assert(pm(5, 36nat, m) == 280689);
    lemma_pm_succ(5, 36nat, m);
    assert(pm(5, 37nat, m) == 183959);
    lemma_pm_double(5, 37nat, m);
    assert(pm(5, 74nat, m) == 177181);
    lemma_pm_double(5, 74nat, m);
    assert(pm(5, 148nat, m) == 488406);
    lemma_pm_double(5, 148nat, m);
    assert(pm(5, 296nat, m) == 422834);
    lemma_pm_succ(5, 296nat, m);
    assert(pm(5, 297nat, m) == 284941);
    lemma_pm_double(5, 297nat, m);
    assert(pm(5, 594nat, m) == 434573);
    lemma_pm_succ(5, 594nat, m);
    assert(pm(5, 595nat, m) == 343636);
    lemma_pm_double(5, 595nat, m);
    assert(pm(5, 1190nat, m) == 432144);
    lemma_pm_double(5, 1190nat, m);
    assert(pm(5, 2380nat, m) == 9154);
    lemma_pm_succ(5, 2380nat, m);
    assert(pm(5, 2381nat, m) == 45770);
    lemma_pm_double(5, 2381nat, m);
    assert(pm(5, 4762nat, m) == 425695);
    lemma_pm_succ(5, 4762nat, m);
    assert(pm(5, 4763nat, m) == 299246);
    lemma_pm_double(5, 4763nat, m);
    assert(pm(5, 9526nat, m) == 92050);
    lemma_pm_succ(5, 9526nat, m);
    assert(pm(5, 9527nat, m) == 460250);
    lemma_pm_double(5, 9527nat, m);
    assert(pm(5, 19054nat, m) == 466356);
    lemma_pm_double(5, 19054nat, m);
    assert(pm(5, 38108nat, m) == 517295);
    lemma_pm_double(5, 38108nat, m);
    assert(pm(5, 76216nat, m) == 474816);
    lemma_pm_succ(5, 76216nat, m);
    assert(pm(5, 76217nat, m) == 544851);
    lemma_pm_double(5, 76217nat, m);
    assert(pm(5, 152434nat, m) == 86506);
    lemma_pm_succ(5, 152434nat, m);
    assert(pm(5, 152435nat, m) == 432530);
    lemma_pm_double(5, 152435nat, m);
    assert(pm(5, 304870nat, m) == 243897);
    lemma_pm_succ(5, 304870nat, m);
    assert(pm(5, 304871nat, m) == 609742);
}

/// `5^87106 mod 609743`.
proof fn lemma_pow_609743_by_7()
    ensures
        pm(5, 87106nat, 609743) == 207533,
{
    let m: int = 609743;
    lemma_pm_one(5, m);
    lemma_pm_double(5, 1nat, m);
    assert(pm(5, 2nat, m) == 25);
    lemma_pm_double(5, 2nat, m);
    assert(pm(5, 4nat, m) == 625);
    lemma_pm_succ(5, 4nat, m);
    assert(pm(5, 5nat, m) == 3125);
    lemma_pm_double(5, 5nat, m);
    assert(pm(5, 10nat, m) == 9737);
    lemma_pm_double(5, 10nat, m);
    assert(pm(5, 20nat, m) == 299004);
    lemma_pm_succ(5, 20nat, m);
    assert(pm(5, 21nat, m) == 275534);
    lemma_pm_double(5, 21nat, m);
    assert(pm(5, 42nat, m) == 493969);
    lemma_pm_double(5, 42nat, m);
    assert(pm(5, 84nat, m) == 248450);
    lemma_pm_succ(5, 84nat, m);
    assert(pm(5, 85nat, m) == 22764);
    lemma_pm_double(5, 85nat, m);
    assert(pm(5, 170nat, m) == 527889);
    lemma_pm_double(5, 170nat, m);
    assert(pm(5, 340nat, m) == 221232);
    lemma_pm_double(5, 340nat, m);
    assert(pm(5, 680nat, m) == 136957);
    lemma_pm_double(5, 680nat, m);
    assert(pm(5, 1360nat, m) == 305683);
    lemma_pm_succ(5, 1360nat, m);
    assert(pm(5, 1361nat, m) == 308929);
    lemma_pm_double(5, 1361nat, m);
    assert(pm(5, 2722nat, m) == 152681);
    lemma_pm_double(5, 2722nat, m);
    assert(pm(5, 5444nat, m) == 403128);
    lemma_pm_double(5, 5444nat, m);
    assert(pm(5, 10888nat, m) == 431309);
    lemma_pm_double(5, 10888nat, m);
    assert(pm(5, 21776nat, m) == 351868);
    lemma_pm_double(5, 21776nat, m);
    assert(pm(5, 43552nat, m) == 334302);
    lemma_pm_succ(5, 43552nat, m);
    assert(pm(5, 43553nat, m) == 452024);
    lemma_pm_double(5, 43553nat, m);
    assert(pm(5, 87106nat, m) == 207533);
}

/// `5^6286 mod 609743`.
proof fn lemma_pow_609743_by_97()
    ensures
        pm(5, 6286nat, 609743) == 544069,
{
    let m: int = 609743;
    lemma_pm_one(5, m);
    lemma_pm_double(5, 1nat, m);
    assert(pm(5, 2nat, m) == 25);
    lemma_pm_succ(5, 2nat, m);
    assert(pm(5, 3nat, m) == 125);
    lemma_pm_double(5, 3nat, m);
    assert(pm(5, 6nat, m) == 15625);
    lemma_pm_double(5, 6nat, m);
    assert(pm(5, 12nat, m) == 243425);
    lemma_pm_double(5, 12nat, m);
    assert(pm(5, 24nat, m) == 296142);
    lemma_pm_double(5, 24nat, m);
    assert(pm(5, 48nat, m) == 138731);
    lemma_pm_succ(5, 48nat, m);
    assert(pm(5, 49nat, m) == 83912);
    lemma_pm_double(5, 49nat, m);
    assert(pm(5, 98nat, m) == 521323);
    lemma_pm_double(5, 98nat, m);
    assert(pm(5, 196nat, m) == 581397);
    lemma_pm_double(5, 196nat, m);
    assert(pm(5, 392nat, m) == 464185);
    lemma_pm_double(5, 392nat, m);
    assert(pm(5, 784nat, m) == 391343);
    lemma_pm_succ(5, 784nat, m);
    assert(pm(5, 785nat, m) == 127486);
    lemma_pm_double(5, 785nat, m);
    assert(pm(5, 1570nat, m) == 590274);
    lemma_pm_succ(5, 1570nat, m);
    assert(pm(5, 1571nat, m) == 512398);
    lemma_pm_double(5, 1571nat, m);
    assert(pm(5, 3142nat, m) == 33062);
    lemma_pm_succ(5, 3142nat, m);
    assert(pm(5, 3143nat, m) == 165310);
    lemma_pm_double(5, 3143nat, m);
    assert(pm(5, 6286nat, m) == 544069);
}

/// `5^1358 mod 609743`.
proof fn lemma_pow_609743_by_449()
    ensures
        pm(5, 1358nat, 609743) == 475632,
{
    let m: int = 609743;
    lemma_pm_one(5, m);
    lemma_pm_double(5, 1nat, m);
    assert(pm(5, 2nat, m) == 25);
    lemma_pm_double(5, 2nat, m);
    assert(pm(5, 4nat, m) == 625);
    lemma_pm_succ(5, 4nat, m);
    assert(pm(5, 5nat, m) == 3125);
    lemma_pm_double(5, 5nat, m);
    assert(pm(5, 10nat, m) == 9737);
    lemma_pm_double(5, 10nat, m);
    assert(pm(5, 20nat, m) == 299004);
    lemma_pm_succ(5, 20nat, m);
    assert(pm(5, 21nat, m) == 275534);
    lemma_pm_double(5, 21nat, m);
    assert(pm(5, 42nat, m) == 493969);
    lemma_pm_double(5, 42nat, m);
    assert(pm(5, 84nat, m) == 248450);
    lemma_pm_double(5, 84nat, m);
    assert(pm(5, 168nat, m) == 69895);
    lemma_pm_succ(5, 168nat, m);
    assert(pm(5, 169nat, m) == 349475);
    lemma_pm_double(5, 169nat, m);
    assert(pm(5, 338nat, m) == 33239);
    lemma_pm_succ(5, 338nat, m);
    assert(pm(5, 339nat, m) == 166195);
    lemma_pm_double(5, 339nat, m);
    assert(pm(5, 678nat, m) == 29868);
    lemma_pm_succ(5, 678nat, m);
    assert(pm(5, 679nat, m) == 149340);
    lemma_pm_double(5, 679nat, m);
    assert(pm(5, 1358nat, m) == 475632);
}

/// 609743 is prime.
proof fn lemma_prime_609743()
    ensures
        is_prime(609743nat),
{
    lemma_prime_2();
    lemma_prime_7();
    lemma_prime_97();
    lemma_prime_449();
    lemma_pow_609743_full();
    lemma_pow_609743_by_2();
    lemma_pow_609743_by_7();
    lemma_pow_609743_by_97();
    lemma_pow_609743_by_449();
    let n: int = 609743;
    let qs = Seq::new(4nat, |i: int| if i < 1 { 2nat } else if i < 2 { 7nat } else if i < 3 { 97nat } else { 449nat });
    assert(qs.subrange(4, 4).len() == 0);
    assert(list_prod(qs.subrange(4, 4)) == 1);
    lemma_list_prod_front(qs, 3, 449nat, 1nat);
    lemma_list_prod_front(qs, 2, 97nat, 449nat);
    lemma_list_prod_front(qs, 1, 7nat, 43553nat);
    lemma_list_prod_front(qs, 0, 2nat, 304871nat);
    assert(qs.subrange(0, 4) =~= qs);
    assert forall|i: int| 0 <= i < qs.len() implies is_prime(#[trigger] qs[i]) by {
        if i < 1 {
            assert(qs[i] == 2);
        } else if i < 2 {
            assert(qs[i] == 7);
        } else if i < 3 {
            assert(qs[i] == 97);
        } else {
            assert(qs[i] == 449);
        }
    }
    assert forall|i: int| 0 <= i < qs.len() implies (n - 1) % (#[trigger] qs[i] as int) == 0
        && pm(5, ((n - 1) / (qs[i] as int)) as nat, n) != 1 by {
        if i < 1 {
            assert(qs[i] == 2);
            assert((n - 1) % 2int == 0);
            assert((n - 1) / 2int == 304871int);
        } else if i < 2 {
            assert(qs[i] == 7);
            assert((n - 1) % 7int == 0);
            assert((n - 1) / 7int == 87106int);
        } else if i < 3 {
            assert(qs[i] == 97);
            assert((n - 1) % 97int == 0);
            assert((n - 1) / 97int == 6286int);
        } else {
            assert(qs[i] == 449);
            assert((n - 1) % 449int == 0);
            assert((n - 1) / 449int == 1358int);
        }
    }
    lemma_lucas(n, 5, qs);
}

/// `2^52437898 mod 52437899`.
proof fn lemma_pow_52437899_full()
    ensures
        pm(2, 52437898nat, 52437899) == 1,
{
    let m: int = 52437899;
    lemma_pm_one(2, m);
    lemma_pm_double(2, 1nat, m);
    assert(pm(2, 2nat, m) == 4);
    lemma_pm_succ(2, 2nat, m);
    assert(pm(2, 3nat, m) == 8);
    lemma_pm_double(2, 3nat, m);
    assert(pm(2, 6nat, m) == 64);
    lemma_pm_double(2, 6nat, m);
    assert(pm(2, 12nat, m) == 4096);
    lemma_pm_double(2, 12nat, m);
    assert(pm(2, 24nat, m) == 16777216);
    lemma_pm_succ(2, 24nat, m);
    assert(pm(2, 25nat, m) == 33554432);
    lemma_pm_double(2, 25nat, m);
    assert(pm(2, 50nat, m) == 9244734);
    lemma_pm_double(2, 50nat, m);
    assert(pm(2, 100nat, m) == 36051990);
    lemma_pm_double(2, 100nat, m);
    assert(pm(2, 200nat, m) == 29754985);
    lemma_pm_double(2, 200nat, m);
    assert(pm(2, 400nat, m) == 5339680);
    lemma_pm_double(2, 400nat, m);
    assert(pm(2, 800nat, m) == 18803332);
    lemma_pm_double(2, 800nat, m);
    assert(pm(2, 1600nat, m) == 33523976);
    lemma_pm_double(2, 1600nat, m);
    assert(pm(2, 3200nat, m) == 49795726);
    lemma_pm_double(2, 3200nat, m);
    assert(pm(2, 6400nat, m) == 20668059);
    lemma_pm_succ(2, 6400nat, m);
    assert(pm(2, 6401nat, m) == 41336118);
    lemma_pm_double(2, 6401nat, m);
    assert(pm(2, 12802nat, m) == 27941351);
    lemma_pm_double(2, 12802nat, m);
    assert(pm(2, 25604nat, m) == 5900752);
    lemma_pm_double(2, 25604nat, m);
    assert(pm(2, 51208nat, m) == 4353706);
    lemma_pm_double(2, 51208nat, m);
    assert(pm(2, 102416nat, m) == 28582906);
    lemma_pm_succ(2, 102416nat, m);
    assert(pm(2, 102417nat, m) == 4727913);
    lemma_pm_double(2, 102417nat, m);
    assert(pm(2, 204834nat, m) == 38625647);
    lemma_pm_succ(2, 204834nat, m);
    assert(pm(2, 204835nat, m) == 24813395);
    lemma_pm_double(2, 204835nat, m);
    assert(pm(2, 409670nat, m) == 51155019);
    lemma_pm_succ(2, 409670nat, m);
    assert(pm(2, 409671nat, m) == 49872139);
    lemma_pm_double(2, 409671nat, m);
    assert(pm(2, 819342nat, m) == 18099241);
    lemma_pm_double(2, 819342nat, m);
    assert(pm(2, 1638684nat, m) == 33200737);
    lemma_pm_double(2, 1638684nat, m);
    assert(pm(2, 3277368nat, m) == 42776413);
    lemma_pm_double(2, 3277368nat, m);
    assert(pm(2, 6554736nat, m) == 27221488);
    lemma_pm_succ(2, 6554736nat, m);
    assert(pm(2, 6554737nat, m) == 2005077);
    lemma_pm_double(2, 6554737nat, m);
    assert(pm(2, 13109474nat, m) == 24935397);
    lemma_pm_double(2, 13109474nat, m);
    assert(pm(2, 26218948nat, m) == 26218949);
    lemma_pm_succ(2, 26218948nat, m);
    assert(pm(2, 26218949nat, m) == 52437898);
    lemma_pm_double(2, 26218949nat, m);
    assert(pm(2, 52437898nat, m) == 1);
}

/// `2^26218949 mod 52437899`.
proof fn lemma_pow_52437899_by_2()
    ensures
        pm(2, 26218949nat, 52437899) == 52437898,
{
    let m: int = 52437899;
    lemma_pm_one(2, m);
    lemma_pm_double(2, 1nat, m);
    assert(pm(2, 2nat, m) == 4);
    lemma_pm_succ(2, 2nat, m);
    assert(pm(2, 3nat, m) == 8);
    lemma_pm_double(2, 3nat, m);
    assert(pm(2, 6nat, m) == 64);
    lemma_pm_double(2, 6nat, m);
    assert(pm(2, 12nat, m) == 4096);
    lemma_pm_double(2, 12nat, m);
    assert(pm(2, 24nat, m) == 16777216);
    lemma_pm_succ(2, 24nat, m);
    assert(pm(2, 25nat, m) == 33554432);
    lemma_pm_double(2, 25nat, m);
    assert(pm(2, 50nat, m) == 9244734);
    lemma_pm_double(2, 50nat, m);
    assert(pm(2, 100nat, m) == 36051990);
    lemma_pm_double(2, 100nat, m);
    assert(pm(2, 200nat, m) == 29754985);
    lemma_pm_double(2, 200nat, m);
    assert(pm(2, 400nat, m) == 5339680);
    lemma_pm_double(2, 400nat, m);
    assert(pm(2, 800nat, m) == 18803332);
    lemma_pm_double(2, 800nat, m);
    assert(pm(2, 1600nat, m) == 33523976);
    lemma_pm_double(2, 1600nat, m);
    assert(pm(2, 3200nat, m) == 49795726);
    lemma_pm_double(2, 3200nat, m);
    assert(pm(2, 6400nat, m) == 20668059);
    lemma_pm_succ(2, 6400nat, m);
    assert(pm(2, 6401nat, m) == 41336118);
    lemma_pm_double(2, 6401nat, m);
    assert(pm(2, 12802nat, m) == 27941351);
    lemma_pm_double(2, 12802nat, m);
    assert(pm(2, 25604nat, m) == 5900752);
    lemma_pm_double(2, 25604nat, m);
    assert(pm(2, 51208nat, m) == 4353706);
    lemma_pm_double(2, 51208nat, m);
    assert(pm(2, 102416nat, m) == 28582906);
    lemma_pm_succ(2, 102416nat, m);
    assert(pm(2, 102417nat, m) == 4727913);
    lemma_pm_double(2, 102417nat, m);
    assert(pm(2, 204834nat, m) == 38625647);
    lemma_pm_succ(2, 204834nat, m);
    assert(pm(2, 204835nat, m) == 24813395);
    lemma_pm_double(2, 204835nat, m);
    assert(pm(2, 409670nat, m) == 51155019);
    lemma_pm_succ(2, 409670nat, m);
    assert(pm(2, 409671nat, m) == 49872139);
    lemma_pm_double(2, 409671nat, m);
    assert(pm(2, 819342nat, m) == 18099241);
    lemma_pm_double(2, 819342nat, m);
    assert(pm(2, 1638684nat, m) == 33200737);
    lemma_pm_double(2, 1638684nat, m);
    assert(pm(2, 3277368nat, m) == 42776413);
    lemma_pm_double(2, 3277368nat, m);
    assert(pm(2, 6554736nat, m) == 27221488);
    lemma_pm_succ(2, 6554736nat, m);
    assert(pm(2, 6554737nat, m) == 2005077);
    lemma_pm_double(2, 6554737nat, m);
    assert(pm(2, 13109474nat, m) == 24935397);
    lemma_pm_double(2, 13109474nat, m);
    assert(pm(2, 26218948nat, m) == 26218949);
    lemma_pm_succ(2, 26218948nat, m);
    assert(pm(2, 26218949nat, m) == 52437898);
}

/// `2^1219486 mod 52437899`.
proof fn lemma_pow_52437899_by_43()
    ensures
        pm(2, 1219486nat, 52437899) == 11758757,
{
    let m: int = 52437899;
    lemma_pm_one(2, m);
    lemma_pm_double(2, 1nat, m);
    assert(pm(2, 2nat, m) == 4);
    lemma_pm_double(2, 2nat, m);
    assert(pm(2, 4nat, m) == 16);
    lemma_pm_double(2, 4nat, m);
    assert(pm(2, 8nat, m) == 256);
    lemma_pm_succ(2, 8nat, m);
    assert(pm(2, 9nat, m) == 512);
    lemma_pm_double(2, 9nat, m);
    assert(pm(2, 18nat, m) == 262144);
    lemma_pm_double(2, 18nat, m);
    assert(pm(2, 36nat, m) == 25829046);
    lemma_pm_succ(2, 36nat, m);
    assert(pm(2, 37nat, m) == 51658092);
    lemma_pm_double(2, 37nat, m);
    assert(pm(2, 74nat, m) == 29080445);
    lemma_pm_double(2, 74nat, m);
    assert(pm(2, 148nat, m) == 44115044);
    lemma_pm_double(2, 148nat, m);
    assert(pm(2, 296nat, m) == 27588914);
    lemma_pm_succ(2, 296nat, m);
    assert(pm(2, 297nat, m) == 2739929);
    lemma_pm_double(2, 297nat, m);
    assert(pm(2, 594nat, m) == 43990504);
    lemma_pm_succ(2, 594nat, m);
    assert(pm(2, 595nat, m) == 35543109);
    lemma_pm_double(2, 595nat, m);
    assert(pm(2, 1190nat, m) == 24464875);
    lemma_pm_double(2, 1190nat, m);
    assert(pm(2, 2380nat, m) == 49175099);
    lemma_pm_succ(2, 2380nat, m);
    assert(pm(2, 2381nat, m) == 45912299);
    lemma_pm_double(2, 2381nat, m);
    assert(pm(2, 4762nat, m) == 967474);
    lemma_pm_succ(2, 4762nat, m);
    assert(pm(2, 4763nat, m) == 1934948);
    lemma_pm_double(2, 4763nat, m);
    assert(pm(2, 9526nat, m) == 10212003);
    lemma_pm_succ(2, 9526nat, m);
    assert(pm(2, 9527nat, m) == 20424006);
    lemma_pm_double(2, 9527nat, m);
    assert(pm(2, 19054nat, m) == 47882269);
    lemma_pm_double(2, 19054nat, m);
    assert(pm(2, 38108nat, m) == 50344377);
    lemma_pm_double(2, 38108nat, m);
    assert(pm(2, 76216nat, m) == 22328165);
    lemma_pm_succ(2, 76216nat, m);
    assert(pm(2, 76217nat, m) == 44656330);
    lemma_pm_double(2, 76217nat, m);
    assert(pm(2, 152434nat, m) == 47355713);
    lemma_pm_succ(2, 152434nat, m);
    assert(pm(2, 152435nat, m) == 42273527);
    lemma_pm_double(2, 152435nat, m);
    assert(pm(2, 304870nat, m) == 51035008);
    lemma_pm_succ(2, 304870nat, m);
    assert(pm(2, 304871nat, m) == 49632117);
    lemma_pm_double(2, 304871nat, m);
    assert(pm(2, 609742nat, m) == 15730452);
    lemma_pm_succ(2, 609742nat, m);
    assert(pm(2, 609743nat, m) == 31460904);
    lemma_pm_double(2, 609743nat, m);
    assert(pm(2, 1219486nat, m) == 11758757);
}

/// `2^86 mod 52437899`.
proof fn lemma_pow_52437899_by_609743()
    ensures
        pm(2, 86nat, 52437899) == 27034091,
{
    let m: int = 52437899;
    lemma_pm_one(2, m);
    lemma_pm_double(2, 1nat, m);
    assert(pm(2, 2nat, m) == 4);
    lemma_pm_double(2, 2nat, m);
    assert(pm(2, 4nat, m) == 16);
    lemma_pm_succ(2, 4nat, m);
    assert(pm(2, 5nat, m) == 32);
    lemma_pm_double(2, 5nat, m);
    assert(pm(2, 10nat, m) == 1024);
    lemma_pm_double(2, 10nat, m);
    assert(pm(2, 20nat, m) == 1048576);
    lemma_pm_succ(2, 20nat, m);
    assert(pm(2, 21nat, m) == 2097152);
    lemma_pm_double(2, 21nat, m);
    assert(pm(2, 42nat, m) == 27484075);
    lemma_pm_succ(2, 42nat, m);
    assert(pm(2, 43nat, m) == 2530251);
    lemma_pm_double(2, 43nat, m);
    assert(pm(2, 86nat, m) == 27034091);
}

/// 52437899 is prime.
proof fn lemma_prime_52437899()
    ensures
        is_prime(52437899nat),
{
    lemma_prime_2();
    lemma_prime_43();
    lemma_prime_609743();
    lemma_pow_52437899_full();
    lemma_pow_52437899_by_2();
    lemma_pow_52437899_by_43();
    lemma_pow_52437899_by_609743();
    let n: int = 52437899;
    let qs = Seq::new(3nat, |i: int| if i < 1 { 2nat } else if i < 2 { 43nat } else { 609743nat });
    assert(qs.subrange(3, 3).len() == 0);
    assert(list_prod(qs.subrange(3, 3)) == 1);
    lemma_list_prod_front(qs, 2, 609743nat, 1nat);
    lemma_list_prod_front(qs, 1, 43nat, 609743nat);
    lemma_list_prod_front(qs, 0, 2nat, 26218949nat);
    assert(qs.subrange(0, 3) =~= qs);
    assert forall|i: int| 0 <= i < qs.len() implies is_prime(#[trigger] qs[i]) by {
        if i < 1 {
            assert(qs[i] == 2);
        } else if i < 2 {
            assert(qs[i] == 43);
        } else {
            assert(qs[i] == 609743);
        }
    }
    assert forall|i: int| 0 <= i < qs.len() implies (n - 1) % (#[trigger] qs[i] as int) == 0
        && pm(2, ((n - 1) / (qs[i] as int)) as nat, n) != 1 by {
        if i < 1 {
            assert(qs[i] == 2);
            assert((n - 1) % 2int == 0);
            assert((n - 1) / 2int == 26218949int);
        } else if i < 2 {
            assert(qs[i] == 43);
            assert((n - 1) % 43int == 0);
            assert((n - 1) / 43int == 1219486int);
        } else {
            assert(qs[i] == 609743);
            assert((n - 1) % 609743int == 0);
            assert((n - 1) / 609743int == 86int);
        }
    }
    lemma_lucas(n, 2, qs);
}

/// `3^88 mod 89`.
proof fn lemma_pow_89_full()
    ensures
        pm(3, 88nat, 89) == 1,
{
    let m: int = 89;
    lemma_pm_one(3, m);
    lemma_pm_double(3, 1nat, m);
    assert(pm(3, 2nat, m) == 9);
    lemma_pm_double(3, 2nat, m);
    assert(pm(3, 4nat, m) == 81);
    lemma_pm_succ(3, 4nat, m);
    assert(pm(3, 5nat, m) == 65);
    lemma_pm_double(3, 5nat, m);
    assert(pm(3, 10nat, m) == 42);
    lemma_pm_succ(3, 10nat, m);
    assert(pm(3, 11nat, m) == 37);
    lemma_pm_double(3, 11nat, m);
    assert(pm(3, 22nat, m) == 34);
    lemma_pm_double(3, 22nat, m);
    assert(pm(3, 44nat, m) == 88);
    lemma_pm_double(3, 44nat, m);
    assert(pm(3, 88nat, m) == 1);
}

/// `3^44 mod 89`.
proof fn lemma_pow_89_by_2()
    ensures
        pm(3, 44nat, 89) == 88,
{
    let m: int = 89;
    lemma_pm_one(3, m);
    lemma_pm_double(3, 1nat, m);
    assert(pm(3, 2nat, m) == 9);
    lemma_pm_double(3, 2nat, m);
    assert(pm(3, 4nat, m) == 81);
    lemma_pm_succ(3, 4nat, m);
    assert(pm(3, 5nat, m) == 65);
    lemma_pm_double(3, 5nat, m);
    assert(pm(3, 10nat, m) == 42);
    lemma_pm_succ(3, 10nat, m);
    assert(pm(3, 11nat, m) == 37);
    lemma_pm_double(3, 11nat, m);
    assert(pm(3, 22nat, m) == 34);
    lemma_pm_double(3, 22nat, m);
    assert(pm(3, 44nat, m) == 88);
}

/// `3^8 mod 89`.
proof fn lemma_pow_89_by_11()
    ensures
        pm(3, 8nat, 89) == 64,
{
    let m: int = 89;
    lemma_pm_one(3, m);
    lemma_pm_double(3, 1nat, m);
    assert(pm(3, 2nat, m) == 9);
    lemma_pm_double(3, 2nat, m);
    assert(pm(3, 4nat, m) == 81);
    lemma_pm_double(3, 4nat, m);
    assert(pm(3, 8nat, m) == 64);
}

/// 89 is prime.
proof fn lemma_prime_89()
    ensures
        is_prime(89nat),
{
    lemma_prime_2();
    lemma_prime_11();
    lemma_pow_89_full();
    lemma_pow_89_by_2();
    lemma_pow_89_by_11();
    let n: int = 89;
    let qs = Seq::new(4nat, |i: int| if i < 3 { 2nat } else { 11nat });
    assert(qs.subrange(4, 4).len() == 0);
    assert(list_prod(qs.subrange(4, 4)) == 1);
    lemma_list_prod_front(qs, 3, 11nat, 1nat);
    lemma_list_prod_front(qs, 2, 2nat, 11nat);
    lemma_list_prod_front(qs, 1, 2nat, 22nat);
    lemma_list_prod_front(qs, 0, 2nat, 44nat);
    assert(qs.subrange(0, 4) =~= qs);
    assert forall|i: int| 0 <= i < qs.len() implies is_prime(#[trigger] qs[i]) by {
        if i < 3 {
            assert(qs[i] == 2);
        } else {
            assert(qs[i] == 11);
        }
    }
    assert forall|i: int| 0 <= i < qs.len() implies (n - 1) % (#[trigger] qs[i] as int) == 0
        && pm(3, ((n - 1) / (qs[i] as int)) as nat, n) != 1 by {
        if i < 3 {
            assert(qs[i] == 2);
            assert((n - 1) % 2int == 0);
            assert((n - 1) / 2int == 44int);
        } else {
            assert(qs[i] == 11);
            assert((n - 1) % 11int == 0);
            assert((n - 1) / 11int == 8int);
        }
    }
    lemma_lucas(n, 3, qs);
}

/// `2^178 mod 179`.
proof fn lemma_pow_179_full()
    ensures
        pm(2, 178nat, 179) == 1,
{
    let m: int = 179;
    lemma_pm_one(2, m);
    lemma_pm_double(2, 1nat, m);
    assert(pm(2, 2nat, m) == 4);
    lemma_pm_double(2, 2nat, m);
    assert(pm(2, 4nat, m) == 16);
    lemma_pm_succ(2, 4nat, m);
    assert(pm(2, 5nat, m) == 32);
    lemma_pm_double(2, 5nat, m);
    assert(pm(2, 10nat, m) == 129);
    lemma_pm_succ(2, 10nat, m);
    assert(pm(2, 11nat, m) == 79);
    lemma_pm_double(2, 11nat, m);
    assert(pm(2, 22nat, m) == 155);
    lemma_pm_double(2, 22nat, m);
    assert(pm(2, 44nat, m) == 39);
    lemma_pm_double(2, 44nat, m);
    assert(pm(2, 88nat, m) == 89);
    lemma_pm_succ(2, 88nat, m);
    assert(pm(2, 89nat, m) == 178);
    lemma_pm_double(2, 89nat, m);
    assert(pm(2, 178nat, m) == 1);
}

/// `2^89 mod 179`.
proof fn lemma_pow_179_by_2()
    ensures
        pm(2, 89nat, 179) == 178,
{
    let m: int = 179;
    lemma_pm_one(2, m);
    lemma_pm_double(2, 1nat, m);
    assert(pm(2, 2nat, m) == 4);
    lemma_pm_double(2, 2nat, m);
    assert(pm(2, 4nat, m) == 16);
    lemma_pm_succ(2, 4nat, m);
    assert(pm(2, 5nat, m) == 32);
    lemma_pm_double(2, 5nat, m);
    assert(pm(2, 10nat, m) == 129);
    lemma_pm_succ(2, 10nat, m);
    assert(pm(2, 11nat, m) == 79);
    lemma_pm_double(2, 11nat, m);
    assert(pm(2, 22nat, m) == 155);
    lemma_pm_double(2, 22nat, m);
    assert(pm(2, 44nat, m) == 39);
    lemma_pm_double(2, 44nat, m);
    assert(pm(2, 88nat, m) == 89);
    lemma_pm_succ(2, 88nat, m);
    assert(pm(2, 89nat, m) == 178);
}

/// `2^2 mod 179`.
proof fn lemma_pow_179_by_89()
    ensures
        pm(2, 2nat, 179) == 4,
{
    let m: int = 179;
    lemma_pm_one(2, m);
    lemma_pm_double(2, 1nat, m);
    assert(pm(2, 2nat, m) == 4);
}

/// 179 is prime.
proof fn lemma_prime_179()
    ensures
        is_prime(179nat),
{
    lemma_prime_2();
    lemma_prime_89();
    lemma_pow_179_full();
    lemma_pow_179_by_2();
    lemma_pow_179_by_89();
    let n: int = 179;
    let qs = Seq::new(2nat, |i: int| if i < 1 { 2nat } else { 89nat });
    assert(qs.subrange(2, 2).len() == 0);
    assert(list_prod(qs.subrange(2, 2)) == 1);
    lemma_list_prod_front(qs, 1, 89nat, 1nat);
    lemma_list_prod_front(qs, 0, 2nat, 89nat);
    assert(qs.subrange(0, 2) =~= qs);
    assert forall|i: int| 0 <= i < qs.len() implies is_prime(#[trigger] qs[i]) by {
        if i < 1 {
            assert(qs[i] == 2);
        } else {
            assert(qs[i] == 89);
        }
    }
    assert forall|i: int| 0 <= i < qs.len() implies (n - 1) % (#[trigger] qs[i] as int) == 0
        && pm(2, ((n - 1) / (qs[i] as int)) as nat, n) != 1 by {
        if i < 1 {
            assert(qs[i] == 2);
            assert((n - 1) % 2int == 0);
            assert((n - 1) / 2int == 89int);
        } else {
            assert(qs[i] == 89);
            assert((n - 1) % 89int == 0);
            assert((n - 1) / 89int == 2int);
        }
    }
    lemma_lucas(n, 2, qs);
}

/// `7^358 mod 359`.
proof fn lemma_pow_359_full()
    ensures
        pm(7, 358nat, 359) == 1,
{
    let m: int = 359;
    lemma_pm_one(7, m);
    lemma_pm_double(7, 1nat, m);
    assert(pm(7, 2nat, m) == 49);
    lemma_pm_double(7, 2nat, m);
    assert(pm(7, 4nat, m) == 247);
    lemma_pm_succ(7, 4nat, m);
    assert(pm(7, 5nat, m) == 293);
    lemma_pm_double(7, 5nat, m);
    assert(pm(7, 10nat, m) == 48);
    lemma_pm_succ(7, 10nat, m);
    assert(pm(7, 11nat, m) == 336);
    lemma_pm_double(7, 11nat, m);
    assert(pm(7, 22nat, m) == 170);
    lemma_pm_double(7, 22nat, m);
    assert(pm(7, 44nat, m) == 180);
    lemma_pm_double(7, 44nat, m);
    assert(pm(7, 88nat, m) == 90);
    lemma_pm_succ(7, 88nat, m);
    assert(pm(7, 89nat, m) == 271);
    lemma_pm_double(7, 89nat, m);
    assert(pm(7, 178nat, m) == 205);
    lemma_pm_succ(7, 178nat, m);
    assert(pm(7, 179nat, m) == 358);
    lemma_pm_double(7, 179nat, m);
    assert(pm(7, 358nat, m) == 1);
}

/// `7^179 mod 359`.
proof fn lemma_pow_359_by_2()
    ensures
        pm(7, 179nat, 359) == 358,
{
    let m: int = 359;
    lemma_pm_one(7, m);
    lemma_pm_double(7, 1nat, m);
    assert(pm(7, 2nat, m) == 49);
    lemma_pm_double(7, 2nat, m);
    assert(pm(7, 4nat, m) == 247);
    lemma_pm_succ(7, 4nat, m);
    assert(pm(7, 5nat, m) == 293);
    lemma_pm_double(7, 5nat, m);
    assert(pm(7, 10nat, m) == 48);
    lemma_pm_succ(7, 10nat, m);
    assert(pm(7, 11nat, m) == 336);
    lemma_pm_double(7, 11nat, m);
    assert(pm(7, 22nat, m) == 170);
    lemma_pm_double(7, 22nat, m);
    assert(pm(7, 44nat, m) == 180);
    lemma_pm_double(7, 44nat, m);
    assert(pm(7, 88nat, m) == 90);
    lemma_pm_succ(7, 88nat, m);
    assert(pm(7, 89nat, m) == 271);
    lemma_pm_double(7, 89nat, m);
    assert(pm(7, 178nat, m) == 205);
    lemma_pm_succ(7, 178nat, m);
    assert(pm(7, 179nat, m) == 358);
}

/// `7^2 mod 359`.
proof fn lemma_pow_359_by_179()
    ensures
        pm(7, 2nat, 359) == 49,
{
    let m: int = 359;
    lemma_pm_one(7, m);
    lemma_pm_double(7, 1nat, m);
    assert(pm(7, 2nat, m) == 49);
}

/// 359 is prime.
proof fn lemma_prime_359()
    ensures
        is_prime(359nat),
{
    lemma_prime_2();
    lemma_prime_179();
    lemma_pow_359_full();
    lemma_pow_359_by_2();
    lemma_pow_359_by_179();
    let n: int = 359;
    let qs = Seq::new(2nat, |i: int| if i < 1 { 2nat } else { 179nat });
    assert(qs.subrange(2, 2).len() == 0);
    assert(list_prod(qs.subrange(2, 2)) == 1);
    lemma_list_prod_front(qs, 1, 179nat, 1nat);
    lemma_list_prod_front(qs, 0, 2nat, 179nat);
    assert(qs.subrange(0, 2) =~= qs);
    assert forall|i: int| 0 <= i < qs.len() implies is_prime(#[trigger] qs[i]) by {
        if i < 1 {
            assert(qs[i] == 2);
        } else {
            assert(qs[i] == 179);
        }
    }
    assert forall|i: int| 0 <= i < qs.len() implies (n - 1) % (#[trigger] qs[i] as int) == 0
        && pm(7, ((n - 1) / (qs[i] as int)) as nat, n) != 1 by {
        if i < 1 {
            assert(qs[i] == 2);
            assert((n - 1) % 2int == 0);
            assert((n - 1) / 2int == 179int);
        } else {
            assert(qs[i] == 179);
            assert((n - 1) % 179int == 0);
            assert((n - 1) / 179int == 2int);
        }
    }
    lemma_lucas(n, 7, qs);
}

/// `3^110572 mod 110573`.
proof fn lemma_pow_110573_full()
    ensures
        pm(3, 110572nat, 110573) == 1,
{
    let m: int = 110573;
    lemma_pm_one(3, m);
    lemma_pm_double(3, 1nat, m);
    assert(pm(3, 2nat, m) == 9);
    lemma_pm_succ(3, 2nat, m);
    assert(pm(3, 3nat, m) == 27);
    lemma_pm_double(3, 3nat, m);
    assert(pm(3, 6nat, m) == 729);
    lemma_pm_double(3, 6nat, m);
    assert(pm(3, 12nat, m) == 89149);
    lemma_pm_succ(3, 12nat, m);
    assert(pm(3, 13nat, m) == 46301);
    lemma_pm_double(3, 13nat, m);
    assert(pm(3, 26nat, m) == 103850);
    lemma_pm_double(3, 26nat, m);
    assert(pm(3, 52nat, m) == 84945);
    lemma_pm_succ(3, 52nat, m);
    assert(pm(3, 53nat, m) == 33689);
    lemma_pm_double(3, 53nat, m);
    assert(pm(3, 106nat, m) == 27449);
    lemma_pm_succ(3, 106nat, m);
    assert(pm(3, 107nat, m) == 82347);
    lemma_pm_double(3, 107nat, m);
    assert(pm(3, 214nat, m) == 28611);
    lemma_pm_succ(3, 214nat, m);
    assert(pm(3, 215nat, m) == 85833);
    lemma_pm_double(3, 215nat, m);
    assert(pm(3, 430nat, m) == 46045);
    lemma_pm_succ(3, 430nat, m);
    assert(pm(3, 431nat, m) == 27562);
    lemma_pm_double(3, 431nat, m);
    assert(pm(3, 862nat, m) == 27334);
    lemma_pm_succ(3, 862nat, m);
    assert(pm(3, 863nat, m) == 82002);
    lemma_pm_double(3, 863nat, m);
    assert(pm(3, 1726nat, m) == 52155);
    lemma_pm_succ(3, 1726nat, m);
    assert(pm(3, 1727nat, m) == 45892);
    lemma_pm_double(3, 1727nat, m);
    assert(pm(3, 3454nat, m) == 102306);
    lemma_pm_succ(3, 3454nat, m);
    assert(pm(3, 3455nat, m) == 85772);
    lemma_pm_double(3, 3455nat, m);
    assert(pm(3, 6910nat, m) == 82575);
    lemma_pm_double(3, 6910nat, m);
    assert(pm(3, 13820nat, m) == 36007);
    lemma_pm_succ(3, 13820nat, m);
    assert(pm(3, 13821nat, m) == 108021);
    lemma_pm_double(3, 13821nat, m);
    assert(pm(3, 27642nat, m) == 99470);
    lemma_pm_succ(3, 27642nat, m);
    assert(pm(3, 27643nat, m) == 77264);
    lemma_pm_double(3, 27643nat, m);
    assert(pm(3, 55286nat, m) == 110572);
    lemma_pm_double(3, 55286nat, m);
    assert(pm(3, 110572nat, m) == 1);
}

/// `3^55286 mod 110573`.
proof fn lemma_pow_110573_by_2()
    ensures
        pm(3, 55286nat, 110573) == 110572,
{
    let m: int = 110573;
    lemma_pm_one(3, m);
    lemma_pm_double(3, 1nat, m);
    assert(pm(3, 2nat, m) == 9);
    lemma_pm_succ(3, 2nat, m);
    assert(pm(3, 3nat, m) == 27);
    lemma_pm_double(3, 3nat, m);
    assert(pm(3, 6nat, m) == 729);
    lemma_pm_double(3, 6nat, m);
    assert(pm(3, 12nat, m) == 89149);
    lemma_pm_succ(3, 12nat, m);
    assert(pm(3, 13nat, m) == 46301);
    lemma_pm_double(3, 13nat, m);
    assert(pm(3, 26nat, m) == 103850);
    lemma_pm_double(3, 26nat, m);
    assert(pm(3, 52nat, m) == 84945);
    lemma_pm_succ(3, 52nat, m);
    assert(pm(3, 53nat, m) == 33689);
    lemma_pm_double(3, 53nat, m);
    assert(pm(3, 106nat, m) == 27449);
    lemma_pm_succ(3, 106nat, m);
    assert(pm(3, 107nat, m) == 82347);
    lemma_pm_double(3, 107nat, m);
    assert(pm(3, 214nat, m) == 28611);
    lemma_pm_succ(3, 214nat, m);
    assert(pm(3, 215nat, m) == 85833);
    lemma_pm_double(3, 215nat, m);
    assert(pm(3, 430nat, m) == 46045);
    lemma_pm_succ(3, 430nat, m);
    assert(pm(3, 431nat, m) == 27562);
    lemma_pm_double(3, 431nat, m);
    assert(pm(3, 862nat, m) == 27334);
    lemma_pm_succ(3, 862nat, m);
    assert(pm(3, 863nat, m) == 82002);
    lemma_pm_double(3, 863nat, m);
    assert(pm(3, 1726nat, m) == 52155);
    lemma_pm_succ(3, 1726nat, m);
    assert(pm(3, 1727nat, m) == 45892);
    lemma_pm_double(3, 1727nat, m);
    assert(pm(3, 3454nat, m) == 102306);
    lemma_pm_succ(3, 3454nat, m);
    assert(pm(3, 3455nat, m) == 85772);
    lemma_pm_double(3, 3455nat, m);
    assert(pm(3, 6910nat, m) == 82575);
    lemma_pm_double(3, 6910nat, m);
    assert(pm(3, 13820nat, m) == 36007);
    lemma_pm_succ(3, 13820nat, m);
    assert(pm(3, 13821nat, m) == 108021);
    lemma_pm_double(3, 13821nat, m);
    assert(pm(3, 27642nat, m) == 99470);
    lemma_pm_succ(3, 27642nat, m);
    assert(pm(3, 27643nat, m) == 77264);
    lemma_pm_double(3, 27643nat, m);
    assert(pm(3, 55286nat, m) == 110572);
}

/// `3^15796 mod 110573`.
proof fn lemma_pow_110573_by_7()
    ensures
        pm(3, 15796nat, 110573) == 68842,
{
    let m: int = 110573;
    lemma_pm_one(3, m);
    lemma_pm_double(3, 1nat, m);
    assert(pm(3, 2nat, m) == 9);
    lemma_pm_succ(3, 2nat, m);
    assert(pm(3, 3nat, m) == 27);
    lemma_pm_double(3, 3nat, m);
    assert(pm(3, 6nat, m) == 729);
    lemma_pm_succ(3, 6nat, m);
    assert(pm(3, 7nat, m) == 2187);
    lemma_pm_double(3, 7nat, m);
    assert(pm(3, 14nat, m) == 28330);
    lemma_pm_succ(3, 14nat, m);
    assert(pm(3, 15nat, m) == 84990);
    lemma_pm_double(3, 15nat, m);
    assert(pm(3, 30nat, m) == 8302);
    lemma_pm_double(3, 30nat, m);
    assert(pm(3, 60nat, m) == 36225);
    lemma_pm_succ(3, 60nat, m);
    assert(pm(3, 61nat, m) == 108675);
    lemma_pm_double(3, 61nat, m);
    assert(pm(3, 122nat, m) == 64068);
    lemma_pm_succ(3, 122nat, m);
    assert(pm(3, 123nat, m) == 81631);
    lemma_pm_double(3, 123nat, m);
    assert(pm(3, 246nat, m) == 48889);
    lemma_pm_double(3, 246nat, m);
    assert(pm(3, 492nat, m) == 98926);
    lemma_pm_succ(3, 492nat, m);
    assert(pm(3, 493nat, m) == 75632);
    lemma_pm_double(3, 493nat, m);
    assert(pm(3, 986nat, m) == 36988);
    lemma_pm_succ(3, 986nat, m);
    assert(pm(3, 987nat, m) == 391);
    lemma_pm_double(3, 987nat, m);
    assert(pm(3, 1974nat, m) == 42308);
    lemma_pm_double(3, 1974nat, m);
    assert(pm(3, 3948nat, m) == 11140);
    lemma_pm_succ(3, 3948nat, m);
    assert(pm(3, 3949nat, m) == 33420);
    lemma_pm_double(3, 3949nat, m);
    assert(pm(3, 7898nat, m) == 109100);
    lemma_pm_double(3, 7898nat, m);
    assert(pm(3, 15796nat, m) == 68842);
}

/// `3^10052 mod 110573`.
proof fn lemma_pow_110573_by_11()
    ensures
        pm(3, 10052nat, 110573) == 59068,
{
    let m: int = 110573;
    lemma_pm_one(3, m);
    lemma_pm_double(3, 1nat, m);
    assert(pm(3, 2nat, m) == 9);
    lemma_pm_double(3, 2nat, m);
    assert(pm(3, 4nat, m) == 81);
    lemma_pm_double(3, 4nat, m);
    assert(pm(3, 8nat, m) == 6561);
    lemma_pm_succ(3, 8nat, m);
    assert(pm(3, 9nat, m) == 19683);
    lemma_pm_double(3, 9nat, m);
    assert(pm(3, 18nat, m) == 83270);
    lemma_pm_succ(3, 18nat, m);
    assert(pm(3, 19nat, m) == 28664);
    lemma_pm_double(3, 19nat, m);
    assert(pm(3, 38nat, m) == 67506);
    lemma_pm_succ(3, 38nat, m);
    assert(pm(3, 39nat, m) == 91945);
    lemma_pm_double(3, 39nat, m);
    assert(pm(3, 78nat, m) == 24310);
    lemma_pm_double(3, 78nat, m);
    assert(pm(3, 156nat, m) == 73988);
    lemma_pm_succ(3, 156nat, m);
    assert(pm(3, 157nat, m) == 818);
    lemma_pm_double(3, 157nat, m);
    assert(pm(3, 314nat, m) == 5686);
    lemma_pm_double(3, 314nat, m);
    assert(pm(3, 628nat, m) == 43280);
    lemma_pm_double(3, 628nat, m);
    assert(pm(3, 1256nat, m) == 51780);
    lemma_pm_double(3, 1256nat, m);
    assert(pm(3, 2512nat, m) == 104869);
    lemma_pm_succ(3, 2512nat, m);
    assert(pm(3, 2513nat, m) == 93461);
    lemma_pm_double(3, 2513nat, m);
    assert(pm(3, 5026nat, m) == 23240);
    lemma_pm_double(3, 5026nat, m);
    assert(pm(3, 10052nat, m) == 59068);
}

/// `3^308 mod 110573`.
proof fn lemma_pow_110573_by_359()
    ensures
        pm(3, 308nat, 110573) == 48848,
{
    let m: int = 110573;
    lemma_pm_one(3, m);
    lemma_pm_double(3, 1nat, m);
    assert(pm(3, 2nat, m) == 9);
    lemma_pm_double(3, 2nat, m);
    assert(pm(3, 4nat, m) == 81);
    lemma_pm_double(3, 4nat, m);
    assert(pm(3, 8nat, m) == 6561);
    lemma_pm_succ(3, 8nat, m);
    assert(pm(3, 9nat, m) == 19683);
    lemma_pm_double(3, 9nat, m);
    assert(pm(3, 18nat, m) == 83270);
    lemma_pm_succ(3, 18nat, m);
    assert(pm(3, 19nat, m) == 28664);
    lemma_pm_double(3, 19nat, m);
    assert(pm(3, 38nat, m) == 67506);
    lemma_pm_double(3, 38nat, m);
    assert(pm(3, 76nat, m) == 14987);
    lemma_pm_succ(3, 76nat, m);
    assert(pm(3, 77nat, m) == 44961);
    lemma_pm_double(3, 77nat, m);
    assert(pm(3, 154nat, m) == 106508);
    lemma_pm_double(3, 154nat, m);
    assert(pm(3, 308nat, m) == 48848);
}

/// 110573 is prime.
proof fn lemma_prime_110573()
    ensures
        is_prime(110573nat),
{
    lemma_prime_2();
    lemma_prime_7();
    lemma_prime_11();
    lemma_prime_359();
    lemma_pow_110573_full();
    lemma_pow_110573_by_2();
    lemma_pow_110573_by_7();
    lemma_pow_110573_by_11();
    lemma_pow_110573_by_359();
    let n: int = 110573;
    let qs = Seq::new(5nat, |i: int| if i < 2 { 2nat } else if i < 3 { 7nat } else if i < 4 { 11nat } else { 359nat });
    assert(qs.subrange(5, 5).len() == 0);
    assert(list_prod(qs.subrange(5, 5)) == 1);
    lemma_list_prod_front(qs, 4, 359nat, 1nat);
    lemma_list_prod_front(qs, 3, 11nat, 359nat);
    lemma_list_prod_front(qs, 2, 7nat, 3949nat);
    lemma_list_prod_front(qs, 1, 2nat, 27643nat);
    lemma_list_prod_front(qs, 0, 2nat, 55286nat);
    assert(qs.subrange(0, 5) =~= qs);
    assert forall|i: int| 0 <= i < qs.len() implies is_prime(#[trigger] qs[i]) by {
        if i < 2 {
            assert(qs[i] == 2);
        } else if i < 3 {
            assert(qs[i] == 7);
        } else if i < 4 {
            assert(qs[i] == 11);
        } else {
            assert(qs[i] == 359);
        }
    }
    assert forall|i: int| 0 <= i < qs.len() implies (n - 1) % (#[trigger] qs[i] as int) == 0
        && pm(3, ((n - 1) / (qs[i] as int)) as nat, n) != 1 by {
        if i < 2 {
            assert(qs[i] == 2);
            assert((n - 1) % 2int == 0);
            assert((n - 1) / 2int == 55286int);
        } else if i < 3 {
            assert(qs[i] == 7);
            assert((n - 1) % 7int == 0);
            assert((n - 1) / 7int == 15796int);
        } else if i < 4 {
            assert(qs[i] == 11);
            assert((n - 1) % 11int == 0);
            assert((n - 1) / 11int == 10052int);
        } else {
            assert(qs[i] == 359);
            assert((n - 1) % 359int == 0);
            assert((n - 1) / 359int == 308int);
        }
    }
    lemma_lucas(n, 3, qs);
}

/// `5^2653752 mod 2653753`.
proof fn lemma_pow_2653753_full()
    ensures
        pm(5, 2653752nat, 2653753) == 1,
{
    let m: int = 2653753;
    lemma_pm_one(5, m);
    lemma_pm_double(5, 1nat, m);
    assert(pm(5, 2nat, m) == 25);
    lemma_pm_double(5, 2nat, m);
    assert(pm(5, 4nat, m) == 625);
    lemma_pm_succ(5, 4nat, m);
    assert(pm(5, 5nat, m) == 3125);
    lemma_pm_double(5, 5nat, m);
    assert(pm(5, 10nat, m) == 1804366);
    lemma_pm_double(5, 10nat, m);
    assert(pm(5, 20nat, m) == 1023930);
    lemma_pm_double(5, 20nat, m);
    assert(pm(5, 40nat, m) == 1178425);
    lemma_pm_double(5, 40nat, m);
    assert(pm(5, 80nat, m) == 419502);
    lemma_pm_double(5, 80nat, m);
    assert(pm(5, 160nat, m) == 951562);
    lemma_pm_succ(5, 160nat, m);
    assert(pm(5, 161nat, m) == 2104057);
    lemma_pm_double(5, 161nat, m);
    assert(pm(5, 322nat, m) == 1414577);
    lemma_pm_succ(5, 322nat, m);
    assert(pm(5, 323nat, m) == 1765379);
    lemma_pm_double(5, 323nat, m);
    assert(pm(5, 646nat, m) == 797947);
    lemma_pm_succ(5, 646nat, m);
    assert(pm(5, 647nat, m) == 1335982);
    lemma_pm_double(5, 647nat, m);
    assert(pm(5, 1294nat, m) == 2634102);
    lemma_pm_succ(5, 1294nat, m);
    assert(pm(5, 1295nat, m) == 2555498);
    lemma_pm_double(5, 1295nat, m);
    assert(pm(5, 2590nat, m) == 2345364);
    lemma_pm_succ(5, 2590nat, m);
    assert(pm(5, 2591nat, m) == 1111808);
    lemma_pm_double(5, 2591nat, m);
    assert(pm(5, 5182nat, m) == 1535217);
    lemma_pm_succ(5, 5182nat, m);
    assert(pm(5, 5183nat, m) == 2368579);
    lemma_pm_double(5, 5183nat, m);
    assert(pm(5, 10366nat, m) == 2603344);
    lemma_pm_double(5, 10366nat, m);
    assert(pm(5, 20732nat, m) == 1425660);
    lemma_pm_double(5, 20732nat, m);
    assert(pm(5, 41464nat, m) == 2320406);
    lemma_pm_double(5, 41464nat, m);
    assert(pm(5, 82928nat, m) == 2276793);
    lemma_pm_succ(5, 82928nat, m);
    assert(pm(5, 82929nat, m) == 768953);
    lemma_pm_double(5, 82929nat, m);
    assert(pm(5, 165858nat, m) == 702773);
    lemma_pm_succ(5, 165858nat, m);
    assert(pm(5, 165859nat, m) == 860112);
    lemma_pm_double(5, 165859nat, m);
    assert(pm(5, 331718nat, m) == 621228);
    lemma_pm_succ(5, 331718nat, m);
    assert(pm(5, 331719nat, m) == 452387);
    lemma_pm_double(5, 331719nat, m);
    assert(pm(5, 663438nat, m) == 1873915);
    lemma_pm_double(5, 663438nat, m);
    assert(pm(5, 1326876nat, m) == 2653752);
    lemma_pm_double(5, 1326876nat, m);
    assert(pm(5, 2653752nat, m) == 1);
}

/// `5^1326876 mod 2653753`.
proof fn lemma_pow_2653753_by_2()
    ensures
        pm(5, 1326876nat, 2653753) == 2653752,
{
    let m: int = 2653753;
    lemma_pm_one(5, m);
    lemma_pm_double(5, 1nat, m);
    assert(pm(5, 2nat, m) == 25);
    lemma_pm_double(5, 2nat, m);
    assert(pm(5, 4nat, m) == 625);
    lemma_pm_succ(5, 4nat, m);
    assert(pm(5, 5nat, m) == 3125);
    lemma_pm_double(5, 5nat, m);
    assert(pm(5, 10nat, m) == 1804366);
    lemma_pm_double(5, 10nat, m);
    assert(pm(5, 20nat, m) == 1023930);
    lemma_pm_double(5, 20nat, m);
    assert(pm(5, 40nat, m) == 1178425);
    lemma_pm_double(5, 40nat, m);
    assert(pm(5, 80nat, m) == 419502);
    lemma_pm_double(5, 80nat, m);
    assert(pm(5, 160nat, m) == 951562);
    lemma_pm_succ(5, 160nat, m);
    assert(pm(5, 161nat, m) == 2104057);
    lemma_pm_double(5, 161nat, m);
    assert(pm(5, 322nat, m) == 1414577);
    lemma_pm_succ(5, 322nat, m);
    assert(pm(5, 323nat, m) == 1765379);
    lemma_pm_double(5, 323nat, m);
    assert(pm(5, 646nat, m) == 797947);
    lemma_pm_succ(5, 646nat, m);
    assert(pm(5, 647nat, m) == 1335982);
    lemma_pm_double(5, 647nat, m);
    assert(pm(5, 1294nat, m) == 2634102);
    lemma_pm_succ(5, 1294nat, m);
    assert(pm(5, 1295nat, m) == 2555498);
    lemma_pm_double(5, 1295nat, m);
    assert(pm(5, 2590nat, m) == 2345364);
    lemma_pm_succ(5, 2590nat, m);
    assert(pm(5, 2591nat, m) == 1111808);
    lemma_pm_double(5, 2591nat, m);
    assert(pm(5, 5182nat, m) == 1535217);
    lemma_pm_succ(5, 5182nat, m);
    assert(pm(5, 5183nat, m) == 2368579);
    lemma_pm_double(5, 5183nat, m);
    assert(pm(5, 10366nat, m) == 2603344);
    lemma_pm_double(5, 10366nat, m);
    assert(pm(5, 20732nat, m) == 1425660);
    lemma_pm_double(5, 20732nat, m);
    assert(pm(5, 41464nat, m) == 2320406);
    lemma_pm_double(5, 41464nat, m);
    assert(pm(5, 82928nat, m) == 2276793);
    lemma_pm_succ(5, 82928nat, m);
    assert(pm(5, 82929nat, m) == 768953);
    lemma_pm_double(5, 82929nat, m);
    assert(pm(5, 165858nat, m) == 702773);
    lemma_pm_succ(5, 165858nat, m);
    assert(pm(5, 165859nat, m) == 860112);
    lemma_pm_double(5, 165859nat, m);
    assert(pm(5, 331718nat, m) == 621228);
    lemma_pm_succ(5, 331718nat, m);
    assert(pm(5, 331719nat, m) == 452387);
    lemma_pm_double(5, 331719nat, m);
    assert(pm(5, 663438nat, m) == 1873915);
    lemma_pm_double(5, 663438nat, m);
    assert(pm(5, 1326876nat, m) == 2653752);
}

/// `5^884584 mod 2653753`.
proof fn lemma_pow_2653753_by_3()
    ensures
        pm(5, 884584nat, 2653753) == 2076727,
{
    let m: int = 2653753;
    lemma_pm_one(5, m);
    lemma_pm_double(5, 1nat, m);
    assert(pm(5, 2nat, m) == 25);
    lemma_pm_succ(5, 2nat, m);
    assert(pm(5, 3nat, m) == 125);
    lemma_pm_double(5, 3nat, m);
    assert(pm(5, 6nat, m) == 15625);
    lemma_pm_double(5, 6nat, m);
    assert(pm(5, 12nat, m) == 2649102);
    lemma_pm_succ(5, 12nat, m);
    assert(pm(5, 13nat, m) == 2630498);
    lemma_pm_double(5, 13nat, m);
    assert(pm(5, 26nat, m) == 2083166);
    lemma_pm_double(5, 26nat, m);
    assert(pm(5, 52nat, m) == 1799023);
    lemma_pm_succ(5, 52nat, m);
    assert(pm(5, 53nat, m) == 1033856);
    lemma_pm_double(5, 53nat, m);
    assert(pm(5, 106nat, m) == 825420);
    lemma_pm_succ(5, 106nat, m);
    assert(pm(5, 107nat, m) == 1473347);
    lemma_pm_double(5, 107nat, m);
    assert(pm(5, 214nat, m) == 4680);
    lemma_pm_succ(5, 214nat, m);
    assert(pm(5, 215nat, m) == 23400);
    lemma_pm_double(5, 215nat, m);
    assert(pm(5, 430nat, m) == 886882);
    lemma_pm_succ(5, 430nat, m);
    assert(pm(5, 431nat, m) == 1780657);
    lemma_pm_double(5, 431nat, m);
    assert(pm(5, 862nat, m) == 768460);
    lemma_pm_succ(5, 862nat, m);
    assert(pm(5, 863nat, m) == 1188547);
    lemma_pm_double(5, 863nat, m);
    assert(pm(5, 1726nat, m) == 828002);
    lemma_pm_succ(5, 1726nat, m);
    assert(pm(5, 1727nat, m) == 1486257);
    lemma_pm_double(5, 1727nat, m);
    assert(pm(5, 3454nat, m) == 2410379);
    lemma_pm_succ(5, 3454nat, m);
    assert(pm(5, 3455nat, m) == 1436883);
    lemma_pm_double(5, 3455nat, m);
    assert(pm(5, 6910nat, m) == 2306677);
    lemma_pm_double(5, 6910nat, m);
    assert(pm(5, 13820nat, m) == 2593600);
    lemma_pm_succ(5, 13820nat, m);
    assert(pm(5, 13821nat, m) == 2352988);
    lemma_pm_double(5, 13821nat, m);
    assert(pm(5, 27642nat, m) == 1106714);
    lemma_pm_succ(5, 27642nat, m);
    assert(pm(5, 27643nat, m) == 226064);
    lemma_pm_double(5, 27643nat, m);
    assert(pm(5, 55286nat, m) == 1610575);
    lemma_pm_double(5, 55286nat, m);
    assert(pm(5, 110572nat, m) == 1154480);
    lemma_pm_succ(5, 110572nat, m);
    assert(pm(5, 110573nat, m) == 464894);
    lemma_pm_double(5, 110573nat, m);
    assert(pm(5, 221146nat, m) == 2133163);
    lemma_pm_double(5, 221146nat, m);
    assert(pm(5, 442292nat, m) == 2076728);
    lemma_pm_double(5, 442292nat, m);
    assert(pm(5, 884584nat, m) == 2076727);
}

/// `5^24 mod 2653753`.
proof fn lemma_pow_2653753_by_110573()
    ensures
        pm(5, 24nat, 2653753) == 401777,
{
    let m: int = 2653753;
    lemma_pm_one(5, m);
    lemma_pm_double(5, 1nat, m);
    assert(pm(5, 2nat, m) == 25);
    lemma_pm_succ(5, 2nat, m);
    assert(pm(5, 3nat, m) == 125);
    lemma_pm_double(5, 3nat, m);
    assert(pm(5, 6nat, m) == 15625);
    lemma_pm_double(5, 6nat, m);
    assert(pm(5, 12nat, m) == 2649102);
    lemma_pm_double(5, 12nat, m);
    assert(pm(5, 24nat, m) == 401777);
}

/// 2653753 is prime.
proof fn lemma_prime_2653753()
    ensures
        is_prime(2653753nat),
{
    lemma_prime_2();
    lemma_prime_3();
    lemma_prime_110573();
    lemma_pow_2653753_full();
    lemma_pow_2653753_by_2();
    lemma_pow_2653753_by_3();
    lemma_pow_2653753_by_110573();
    let n: int = 2653753;
    let qs = Seq::new(5nat, |i: int| if i < 3 { 2nat } else if i < 4 { 3nat } else { 110573nat });
    assert(qs.subrange(5, 5).len() == 0);
    assert(list_prod(qs.subrange(5, 5)) == 1);
    lemma_list_prod_front(qs, 4, 110573nat, 1nat);
    lemma_list_prod_front(qs, 3, 3nat, 110573nat);
    lemma_list_prod_front(qs, 2, 2nat, 331719nat);
    lemma_list_prod_front(qs, 1, 2nat, 663438nat);
    lemma_list_prod_front(qs, 0, 2nat, 1326876nat);
    assert(qs.subrange(0, 5) =~= qs);
    assert forall|i: int| 0 <= i < qs.len() implies is_prime(#[trigger] qs[i]) by {
        if i < 3 {
            assert(qs[i] == 2);
        } else if i < 4 {
            assert(qs[i] == 3);
        } else {
            assert(qs[i] == 110573);
        }
    }
    assert forall|i: int| 0 <= i < qs.len() implies (n - 1) % (#[trigger] qs[i] as int) == 0
        && pm(5, ((n - 1) / (qs[i] as int)) as nat, n) != 1 by {
        if i < 3 {
            assert(qs[i] == 2);
            assert((n - 1) % 2int == 0);
            assert((n - 1) / 2int == 1326876int);
        } else if i < 4 {
            assert(qs[i] == 3);
            assert((n - 1) % 3int == 0);
            assert((n - 1) / 3int == 884584int);
        } else {
            assert(qs[i] == 110573);
            assert((n - 1) % 110573int == 0);
            assert((n - 1) / 110573int == 24int);
        }
    }
    lemma_lucas(n, 5, qs);
}

/// `7^63690072 mod 63690073`.
proof fn lemma_pow_63690073_full()
    ensures
        pm(7, 63690072nat, 63690073) == 1,
{
    let m: int = 63690073;
    lemma_pm_one(7, m);
    lemma_pm_double(7, 1nat, m);
    assert(pm(7, 2nat, m) == 49);
    lemma_pm_succ(7, 2nat, m);
    assert(pm(7, 3nat, m) == 343);
    lemma_pm_double(7, 3nat, m);
    assert(pm(7, 6nat, m) == 117649);
    lemma_pm_succ(7, 6nat, m);
    assert(pm(7, 7nat, m) == 823543);
    lemma_pm_double(7, 7nat, m);
    assert(pm(7, 14nat, m) == 51175545);
    lemma_pm_succ(7, 14nat, m);
    assert(pm(7, 15nat, m) == 39778450);
    lemma_pm_double(7, 15nat, m);
    assert(pm(7, 30nat, m) == 57870353);
    lemma_pm_double(7, 30nat, m);
    assert(pm(7, 60nat, m) == 33858460);
    lemma_pm_double(7, 60nat, m);
    assert(pm(7, 120nat, m) == 48811457);
    lemma_pm_succ(7, 120nat, m);
    assert(pm(7, 121nat, m) == 23229834);
    lemma_pm_double(7, 121nat, m);
    assert(pm(7, 242nat, m) == 25792427);
    lemma_pm_double(7, 242nat, m);
    assert(pm(7, 484nat, m) == 45367956);
    lemma_pm_succ(7, 484nat, m);
    assert(pm(7, 485nat, m) == 62815400);
    lemma_pm_double(7, 485nat, m);
    assert(pm(7, 970nat, m) == 7700053);
    lemma_pm_succ(7, 970nat, m);
    assert(pm(7, 971nat, m) == 53900371);
    lemma_pm_double(7, 971nat, m);
    assert(pm(7, 1942nat, m) == 54691397);
    lemma_pm_succ(7, 1942nat, m);
    assert(pm(7, 1943nat, m) == 699341);
    lemma_pm_double(7, 1943nat, m);
    assert(pm(7, 3886nat, m) == 1763714);
    lemma_pm_succ(7, 3886nat, m);
    assert(pm(7, 3887nat, m) == 12345998);
    lemma_pm_double(7, 3887nat, m);
    assert(pm(7, 7774nat, m) == 10701747);
    lemma_pm_double(7, 7774nat, m);
    assert(pm(7, 15548nat, m) == 26963555);
    lemma_pm_succ(7, 15548nat, m);
    assert(pm(7, 15549nat, m) == 61364739);
    lemma_pm_double(7, 15549nat, m);
    assert(pm(7, 31098nat, m) == 18394002);
    lemma_pm_double(7, 31098nat, m);
    assert(pm(7, 62196nat, m) == 63339856);
    lemma_pm_succ(7, 62196nat, m);
    assert(pm(7, 62197nat, m) == 61238554);
    lemma_pm_double(7, 62197nat, m);
    assert(pm(7, 124394nat, m) == 22738935);
    lemma_pm_double(7, 124394nat, m);
    assert(pm(7, 248788nat, m) == 32823726);
    lemma_pm_succ(7, 248788nat, m);
    assert(pm(7, 248789nat, m) == 38695863);
    lemma_pm_double(7, 248789nat, m);
    assert(pm(7, 497578nat, m) == 19806227);
    lemma_pm_double(7, 497578nat, m);
    assert(pm(7, 995156nat, m) == 42896264);
    lemma_pm_succ(7, 995156nat, m);
    assert(pm(7, 995157nat, m) == 45513556);
    lemma_pm_double(7, 995157nat, m);
    assert(pm(7, 1990314nat, m) == 12951235);
    lemma_pm_double(7, 1990314nat, m);
    assert(pm(7, 3980628nat, m) == 57012133);
    lemma_pm_succ(7, 3980628nat, m);
    assert(pm(7, 3980629nat, m) == 16944493);
    lemma_pm_double(7, 3980629nat, m);
    assert(pm(7, 7961258nat, m) == 38591954);
    lemma_pm_succ(7, 7961258nat, m);
    assert(pm(7, 7961259nat, m) == 15383386);
    lemma_pm_double(7, 7961259nat, m);
    assert(pm(7, 15922518nat, m) == 9954225);
    lemma_pm_double(7, 15922518nat, m);
    assert(pm(7, 31845036nat, m) == 63690072);
    lemma_pm_double(7, 31845036nat, m);
    assert(pm(7, 63690072nat, m) == 1);
}

/// `7^31845036 mod 63690073`.
proof fn lemma_pow_63690073_by_2()
    ensures
        pm(7, 31845036nat, 63690073) == 63690072,
{
    let m: int = 63690073;
    lemma_pm_one(7, m);
    lemma_pm_double(7, 1nat, m);
    assert(pm(7, 2nat, m) == 49);
    lemma_pm_succ(7, 2nat, m);
    assert(pm(7, 3nat, m) == 343);
    lemma_pm_double(7, 3nat, m);
    assert(pm(7, 6nat, m) == 117649);
    lemma_pm_succ(7, 6nat, m);
    assert(pm(7, 7nat, m) == 823543);
    lemma_pm_double(7, 7nat, m);
    assert(pm(7, 14nat, m) == 51175545);
    lemma_pm_succ(7, 14nat, m);
    assert(pm(7, 15nat, m) == 39778450);
    lemma_pm_double(7, 15nat, m);
    assert(pm(7, 30nat, m) == 57870353);
    lemma_pm_double(7, 30nat, m);
    assert(pm(7, 60nat, m) == 33858460);
    lemma_pm_double(7, 60nat, m);
    assert(pm(7, 120nat, m) == 48811457);
    lemma_pm_succ(7, 120nat, m);
    assert(pm(7, 121nat, m) == 23229834);
    lemma_pm_double(7, 121nat, m);
    assert(pm(7, 242nat, m) == 25792427);
    lemma_pm_double(7, 242nat, m);
    assert(pm(7, 484nat, m) == 45367956);
    lemma_pm_succ(7, 484nat, m);
    assert(pm(7, 485nat, m) == 62815400);
    lemma_pm_double(7, 485nat, m);
    assert(pm(7, 970nat, m) == 7700053);
    lemma_pm_succ(7, 970nat, m);
    assert(pm(7, 971nat, m) == 53900371);
    lemma_pm_double(7, 971nat, m);
    assert(pm(7, 1942nat, m) == 54691397);
    lemma_pm_succ(7, 1942nat, m);
    assert(pm(7, 1943nat, m) == 699341);
    lemma_pm_double(7, 1943nat, m);
    assert(pm(7, 3886nat, m) == 1763714);
    lemma_pm_succ(7, 3886nat, m);
    assert(pm(7, 3887nat, m) == 12345998);
    lemma_pm_double(7, 3887nat, m);
    assert(pm(7, 7774nat, m) == 10701747);
    lemma_pm_double(7, 7774nat, m);
    assert(pm(7, 15548nat, m) == 26963555);
    lemma_pm_succ(7, 15548nat, m);
    assert(pm(7, 15549nat, m) == 61364739);
    lemma_pm_double(7, 15549nat, m);
    assert(pm(7, 31098nat, m) == 18394002);
    lemma_pm_double(7, 31098nat, m);
    assert(pm(7, 62196nat, m) == 63339856);
    lemma_pm_succ(7, 62196nat, m);
    assert(pm(7, 62197nat, m) == 61238554);
    lemma_pm_double(7, 62197nat, m);
    assert(pm(7, 124394nat, m) == 22738935);
    lemma_pm_double(7, 124394nat, m);
    assert(pm(7, 248788nat, m) == 32823726);
    lemma_pm_succ(7, 248788nat, m);
    assert(pm(7, 248789nat, m) == 38695863);
    lemma_pm_double(7, 248789nat, m);
    assert(pm(7, 497578nat, m) == 19806227);
    lemma_pm_double(7, 497578nat, m);
    assert(pm(7, 995156nat, m) == 42896264);
    lemma_pm_succ(7, 995156nat, m);
    assert(pm(7, 995157nat, m) == 45513556);
    lemma_pm_double(7, 995157nat, m);
    assert(pm(7, 1990314nat, m) == 12951235);
    lemma_pm_double(7, 1990314nat, m);
    assert(pm(7, 3980628nat, m) == 57012133);
    lemma_pm_succ(7, 3980628nat, m);
    assert(pm(7, 3980629nat, m) == 16944493);
    lemma_pm_double(7, 3980629nat, m);
    assert(pm(7, 7961258nat, m) == 38591954);
    lemma_pm_succ(7, 7961258nat, m);
    assert(pm(7, 7961259nat, m) == 15383386);
    lemma_pm_double(7, 7961259nat, m);
    assert(pm(7, 15922518nat, m) == 9954225);
    lemma_pm_double(7, 15922518nat, m);
    assert(pm(7, 31845036nat, m) == 63690072);
}

/// `7^21230024 mod 63690073`.
proof fn lemma_pow_63690073_by_3()
    ensures
        pm(7, 21230024nat, 63690073) == 2527736,
{
    let m: int = 63690073;
    lemma_pm_one(7, m);
    lemma_pm_double(7, 1nat, m);
    assert(pm(7, 2nat, m) == 49);
    lemma_pm_double(7, 2nat, m);
    assert(pm(7, 4nat, m) == 2401);
    lemma_pm_succ(7, 4nat, m);
    assert(pm(7, 5nat, m) == 16807);
    lemma_pm_double(7, 5nat, m);
    assert(pm(7, 10nat, m) == 27714957);
    lemma_pm_double(7, 10nat, m);
    assert(pm(7, 20nat, m) == 1712869);
    lemma_pm_double(7, 20nat, m);
    assert(pm(7, 40nat, m) == 36998416);
    lemma_pm_double(7, 40nat, m);
    assert(pm(7, 80nat, m) == 8779181);
    lemma_pm_double(7, 80nat, m);
    assert(pm(7, 160nat, m) == 50400468);
    lemma_pm_succ(7, 160nat, m);
    assert(pm(7, 161nat, m) == 34352911);
    lemma_pm_double(7, 161nat, m);
    assert(pm(7, 322nat, m) == 23876482);
    lemma_pm_succ(7, 322nat, m);
    assert(pm(7, 323nat, m) == 39755228);
    lemma_pm_double(7, 323nat, m);
    assert(pm(7, 646nat, m) == 11536691);
    lemma_pm_succ(7, 646nat, m);
    assert(pm(7, 647nat, m) == 17066764);
    lemma_pm_double(7, 647nat, m);
    assert(pm(7, 1294nat, m) == 49370139);
    lemma_pm_succ(7, 1294nat, m);
    assert(pm(7, 1295nat, m) == 27140608);
    lemma_pm_double(7, 1295nat, m);
    assert(pm(7, 2590nat, m) == 31812397);
    lemma_pm_succ(7, 2590nat, m);
    assert(pm(7, 2591nat, m) == 31616560);
    lemma_pm_double(7, 2591nat, m);
    assert(pm(7, 5182nat, m) == 23418747);
    lemma_pm_succ(7, 5182nat, m);
    assert(pm(7, 5183nat, m) == 36551083);
    lemma_pm_double(7, 5183nat, m);
    assert(pm(7, 10366nat, m) == 36033500);
    lemma_pm_double(7, 10366nat, m);
    assert(pm(7, 20732nat, m) == 34720756);
    lemma_pm_double(7, 20732nat, m);
    assert(pm(7, 41464nat, m) == 36571623);
    lemma_pm_double(7, 41464nat, m);
    assert(pm(7, 82928nat, m) == 37113254);
    lemma_pm_succ(7, 82928nat, m);
    assert(pm(7, 82929nat, m) == 5032486);
    lemma_pm_double(7, 82929nat, m);
    assert(pm(7, 165858nat, m) == 3642257);
    lemma_pm_succ(7, 165858nat, m);
    assert(pm(7, 165859nat, m) == 25495799);
    lemma_pm_double(7, 165859nat, m);
    assert(pm(7, 331718nat, m) == 41823392);
    lemma_pm_succ(7, 331718nat, m);
    assert(pm(7, 331719nat, m) == 38003452);
    lemma_pm_double(7, 331719nat, m);
    assert(pm(7, 663438nat, m) == 28258228);
    lemma_pm_double(7, 663438nat, m);
    assert(pm(7, 1326876nat, m) == 39307446);
    lemma_pm_double(7, 1326876nat, m);
    assert(pm(7, 2653752nat, m) == 60605549);
    lemma_pm_succ(7, 2653752nat, m);
    assert(pm(7, 2653753nat, m) == 42098405);
    lemma_pm_double(7, 2653753nat, m);
    assert(pm(7, 5307506nat, m) == 2115072);
    lemma_pm_double(7, 5307506nat, m);
    assert(pm(7, 10615012nat, m) == 2527737);
    lemma_pm_double(7, 10615012nat, m);
    assert(pm(7, 21230024nat, m) == 2527736);
}

/// `7^24 mod 63690073`.
proof fn lemma_pow_63690073_by_2653753()
    ensures
        pm(7, 24nat, 63690073) == 36433797,
{
    let m: int = 63690073;
    lemma_pm_one(7, m);
    lemma_pm_double(7, 1nat, m);
    assert(pm(7, 2nat, m) == 49);
    lemma_pm_succ(7, 2nat, m);
    assert(pm(7, 3nat, m) == 343);
    lemma_pm_double(7, 3nat, m);
    assert(pm(7, 6nat, m) == 117649);
    lemma_pm_double(7, 6nat, m);
    assert(pm(7, 12nat, m) == 20541360);
    lemma_pm_double(7, 12nat, m);
    assert(pm(7, 24nat, m) == 36433797);
}

/// 63690073 is prime.
proof fn lemma_prime_63690073()
    ensures
        is_prime(63690073nat),
{
    lemma_prime_2();
    lemma_prime_3();
    lemma_prime_2653753();
    lemma_pow_63690073_full();
    lemma_pow_63690073_by_2();
    lemma_pow_63690073_by_3();
    lemma_pow_63690073_by_2653753();
    let n: int = 63690073;
    let qs = Seq::new(5nat, |i: int| if i < 3 { 2nat } else if i < 4 { 3nat } else { 2653753nat });
    assert(qs.subrange(5, 5).len() == 0);
    assert(list_prod(qs.subrange(5, 5)) == 1);
    lemma_list_prod_front(qs, 4, 2653753nat, 1nat);
    lemma_list_prod_front(qs, 3, 3nat, 2653753nat);
    lemma_list_prod_front(qs, 2, 2nat, 7961259nat);
    lemma_list_prod_front(qs, 1, 2nat, 15922518nat);
    lemma_list_prod_front(qs, 0, 2nat, 31845036nat);
    assert(qs.subrange(0, 5) =~= qs);
    assert forall|i: int| 0 <= i < qs.len() implies is_prime(#[trigger] qs[i]) by {
        if i < 3 {
            assert(qs[i] == 2);
        } else if i < 4 {
            assert(qs[i] == 3);
        } else {
            assert(qs[i] == 2653753);
        }
    }
    assert forall|i: int| 0 <= i < qs.len() implies (n - 1) % (#[trigger] qs[i] as int) == 0
        && pm(7, ((n - 1) / (qs[i] as int)) as nat, n) != 1 by {
        if i < 3 {
            assert(qs[i] == 2);
            assert((n - 1) % 2int == 0);
            assert((n - 1) / 2int == 31845036int);
        } else if i < 4 {
            assert(qs[i] == 3);
            assert((n - 1) % 3int == 0);
            assert((n - 1) / 3int == 21230024int);
        } else {
            assert(qs[i] == 2653753);
            assert((n - 1) % 2653753int == 0);
            assert((n - 1) / 2653753int == 24int);
        }
    }
    lemma_lucas(n, 7, qs);
}

/// `2^254760292 mod 254760293`.
proof fn lemma_pow_254760293_full()
    ensures
        pm(2, 254760292nat, 254760293) == 1,
{
    let m: int = 254760293;
    lemma_pm_one(2, m);
    lemma_pm_double(2, 1nat, m);
    assert(pm(2, 2nat, m) == 4);
    lemma_pm_succ(2, 2nat, m);
    assert(pm(2, 3nat, m) == 8);
    lemma_pm_double(2, 3nat, m);
    assert(pm(2, 6nat, m) == 64);
    lemma_pm_succ(2, 6nat, m);
    assert(pm(2, 7nat, m) == 128);
    lemma_pm_double(2, 7nat, m);
    assert(pm(2, 14nat, m) == 16384);
    lemma_pm_succ(2, 14nat, m);
    assert(pm(2, 15nat, m) == 32768);
    lemma_pm_double(2, 15nat, m);
    assert(pm(2, 30nat, m) == 54700652);
    lemma_pm_double(2, 30nat, m);
    assert(pm(2, 60nat, m) == 159378346);
    lemma_pm_double(2, 60nat, m);
    assert(pm(2, 120nat, m) == 32861211);
    lemma_pm_succ(2, 120nat, m);
    assert(pm(2, 121nat, m) == 65722422);
    lemma_pm_double(2, 121nat, m);
    assert(pm(2, 242nat, m) == 187958919);
    lemma_pm_double(2, 242nat, m);
    assert(pm(2, 484nat, m) == 240651531);
    lemma_pm_succ(2, 484nat, m);
    assert(pm(2, 485nat, m) == 226542769);
    lemma_pm_double(2, 485nat, m);
    assert(pm(2, 970nat, m) == 76667497);
    lemma_pm_succ(2, 970nat, m);
    assert(pm(2, 971nat, m) == 153334994);
    lemma_pm_double(2, 971nat, m);
    assert(pm(2, 1942nat, m) == 64128245);
    lemma_pm_succ(2, 1942nat, m);
    assert(pm(2, 1943nat, m) == 128256490);
    lemma_pm_double(2, 1943nat, m);
    assert(pm(2, 3886nat, m) == 66716817);
    lemma_pm_succ(2, 3886nat, m);
    assert(pm(2, 3887nat, m) == 133433634);
    lemma_pm_double(2, 3887nat, m);
    assert(pm(2, 7774nat, m) == 181437756);
    lemma_pm_double(2, 7774nat, m);
    assert(pm(2, 15548nat, m) == 197431433);
    lemma_pm_succ(2, 15548nat, m);
    assert(pm(2, 15549nat, m) == 140102573);
    lemma_pm_double(2, 15549nat, m);
    assert(pm(2, 31098nat, m) == 158282623);
    lemma_pm_double(2, 31098nat, m);
    assert(pm(2, 62196nat, m) == 146079511);
    lemma_pm_succ(2, 62196nat, m);
    assert(pm(2, 62197nat, m) == 37398729);
    lemma_pm_double(2, 62197nat, m);
    assert(pm(2, 124394nat, m) == 96249988);
    lemma_pm_double(2, 124394nat, m);
    assert(pm(2, 248788nat, m) == 204597954);
    lemma_pm_succ(2, 248788nat, m);
    assert(pm(2, 248789nat, m) == 154435615);
    lemma_pm_double(2, 248789nat, m);
    assert(pm(2, 497578nat, m) == 147872793);
    lemma_pm_double(2, 497578nat, m);
    assert(pm(2, 995156nat, m) == 101340931);
    lemma_pm_succ(2, 995156nat, m);
    assert(pm(2, 995157nat, m) == 202681862);
    lemma_pm_double(2, 995157nat, m);
    assert(pm(2, 1990314nat, m) == 181761341);
    lemma_pm_double(2, 1990314nat, m);
    assert(pm(2, 3980628nat, m) == 213627711);
    lemma_pm_succ(2, 3980628nat, m);
    assert(pm(2, 3980629nat, m) == 172495129);
    lemma_pm_double(2, 3980629nat, m);
    assert(pm(2, 7961258nat, m) == 78214473);
    lemma_pm_succ(2, 7961258nat, m);
    assert(pm(2, 7961259nat, m) == 156428946);
    lemma_pm_double(2, 7961259nat, m);
    assert(pm(2, 15922518nat, m) == 105848654);
    lemma_pm_double(2, 15922518nat, m);
    assert(pm(2, 31845036nat, m) == 221955166);
    lemma_pm_double(2, 31845036nat, m);
    assert(pm(2, 63690072nat, m) == 94575019);
    lemma_pm_succ(2, 63690072nat, m);
    assert(pm(2, 63690073nat, m) == 189150038);
    lemma_pm_double(2, 63690073nat, m);
    assert(pm(2, 127380146nat, m) == 254760292);
    lemma_pm_double(2, 127380146nat, m);
    assert(pm(2, 254760292nat, m) == 1);
}

/// `2^127380146 mod 254760293`.
proof fn lemma_pow_254760293_by_2()
    ensures
        pm(2, 127380146nat, 254760293) == 254760292,
{
    let m: int = 254760293;
    lemma_pm_one(2, m);
    lemma_pm_double(2, 1nat, m);
    assert(pm(2, 2nat, m) == 4);
    lemma_pm_succ(2, 2nat, m);
    assert(pm(2, 3nat, m) == 8);
    lemma_pm_double(2, 3nat, m);
    assert(pm(2, 6nat, m) == 64);
    lemma_pm_succ(2, 6nat, m);
    assert(pm(2, 7nat, m) == 128);
    lemma_pm_double(2, 7nat, m);
    assert(pm(2, 14nat, m) == 16384);
    lemma_pm_succ(2, 14nat, m);
    assert(pm(2, 15nat, m) == 32768);
    lemma_pm_double(2, 15nat, m);
    assert(pm(2, 30nat, m) == 54700652);
    lemma_pm_double(2, 30nat, m);
    assert(pm(2, 60nat, m) == 159378346);
    lemma_pm_double(2, 60nat, m);
    assert(pm(2, 120nat, m) == 32861211);
    lemma_pm_succ(2, 120nat, m);
    assert(pm(2, 121nat, m) == 65722422);
    lemma_pm_double(2, 121nat, m);
    assert(pm(2, 242nat, m) == 187958919);
    lemma_pm_double(2, 242nat, m);
    assert(pm(2, 484nat, m) == 240651531);
    lemma_pm_succ(2, 484nat, m);
    assert(pm(2, 485nat, m) == 226542769);
    lemma_pm_double(2, 485nat, m);
    assert(pm(2, 970nat, m) == 76667497);
    lemma_pm_succ(2, 970nat, m);
    assert(pm(2, 971nat, m) == 153334994);
    lemma_pm_double(2, 971nat, m);
    assert(pm(2, 1942nat, m) == 64128245);
    lemma_pm_succ(2, 1942nat, m);
    assert(pm(2, 1943nat, m) == 128256490);
    lemma_pm_double(2, 1943nat, m);
    assert(pm(2, 3886nat, m) == 66716817);
    lemma_pm_succ(2, 3886nat, m);
    assert(pm(2, 3887nat, m) == 133433634);
    lemma_pm_double(2, 3887nat, m);
    assert(pm(2, 7774nat, m) == 181437756);
    lemma_pm_double(2, 7774nat, m);
    assert(pm(2, 15548nat, m) == 197431433);
    lemma_pm_succ(2, 15548nat, m);
    assert(pm(2, 15549nat, m) == 140102573);
    lemma_pm_double(2, 15549nat, m);
    assert(pm(2, 31098nat, m) == 158282623);
    lemma_pm_double(2, 31098nat, m);
    assert(pm(2, 62196nat, m) == 146079511);
    lemma_pm_succ(2, 62196nat, m);
    assert(pm(2, 62197nat, m) == 37398729);
    lemma_pm_double(2, 62197nat, m);
    assert(pm(2, 124394nat, m) == 96249988);
    lemma_pm_double(2, 124394nat, m);
    assert(pm(2, 248788nat, m) == 204597954);
    lemma_pm_succ(2, 248788nat, m);
    assert(pm(2, 248789nat, m) == 154435615);
    lemma_pm_double(2, 248789nat, m);
    assert(pm(2, 497578nat, m) == 147872793);
    lemma_pm_double(2, 497578nat, m);
    assert(pm(2, 995156nat, m) == 101340931);
    lemma_pm_succ(2, 995156nat, m);
    assert(pm(2, 995157nat, m) == 202681862);
    lemma_pm_double(2, 995157nat, m);
    assert(pm(2, 1990314nat, m) == 181761341);
    lemma_pm_double(2, 1990314nat, m);
    assert(pm(2, 3980628nat, m) == 213627711);
    lemma_pm_succ(2, 3980628nat, m);
    assert(pm(2, 3980629nat, m) == 172495129);
    lemma_pm_double(2, 3980629nat, m);
    assert(pm(2, 7961258nat, m) == 78214473);
    lemma_pm_succ(2, 7961258nat, m);
    assert(pm(2, 7961259nat, m) == 156428946);
    lemma_pm_double(2, 7961259nat, m);
    assert(pm(2, 15922518nat, m) == 105848654);
    lemma_pm_double(2, 15922518nat, m);
    assert(pm(2, 31845036nat, m) == 221955166);
    lemma_pm_double(2, 31845036nat, m);
    assert(pm(2, 63690072nat, m) == 94575019);
    lemma_pm_succ(2, 63690072nat, m);
    assert(pm(2, 63690073nat, m) == 189150038);
    lemma_pm_double(2, 63690073nat, m);
    assert(pm(2, 127380146nat, m) == 254760292);
}

/// `2^4 mod 254760293`.
proof fn lemma_pow_254760293_by_63690073()
    ensures
        pm(2, 4nat, 254760293) == 16,
{
    let m: int = 254760293;
    lemma_pm_one(2, m);
    lemma_pm_double(2, 1nat, m);
    assert(pm(2, 2nat, m) == 4);
    lemma_pm_double(2, 2nat, m);
    assert(pm(2, 4nat, m) == 16);
}

/// 254760293 is prime.
proof fn lemma_prime_254760293()
    ensures
        is_prime(254760293nat),
{
    lemma_prime_2();
    lemma_prime_63690073();
    lemma_pow_254760293_full();
    lemma_pow_254760293_by_2();
    lemma_pow_254760293_by_63690073();
    let n: int = 254760293;
    let qs = Seq::new(3nat, |i: int| if i < 2 { 2nat } else { 63690073nat });
    assert(qs.subrange(3, 3).len() == 0);
    assert(list_prod(qs.subrange(3, 3)) == 1);
    lemma_list_prod_front(qs, 2, 63690073nat, 1nat);
    lemma_list_prod_front(qs, 1, 2nat, 63690073nat);
    lemma_list_prod_front(qs, 0, 2nat, 127380146nat);
    assert(qs.subrange(0, 3) =~= qs);
    assert forall|i: int| 0 <= i < qs.len() implies is_prime(#[trigger] qs[i]) by {
        if i < 2 {
            assert(qs[i] == 2);
        } else {
            assert(qs[i] == 63690073);
        }
    }
    assert forall|i: int| 0 <= i < qs.len() implies (n - 1) % (#[trigger] qs[i] as int) == 0
        && pm(2, ((n - 1) / (qs[i] as int)) as nat, n) != 1 by {
        if i < 2 {
            assert(qs[i] == 2);
            assert((n - 1) % 2int == 0);
            assert((n - 1) / 2int == 127380146int);
        } else {
            assert(qs[i] == 63690073);
            assert((n - 1) % 63690073int == 0);
            assert((n - 1) / 63690073int == 4int);
        }
    }
    lemma_lucas(n, 2, qs);
}

/// `7^52435875175126190479447740508185965837690552500527637822603658699938581184512 mod 52435875175126190479447740508185965837690552500527637822603658699938581184513`.
proof fn lemma_pow_52435875175126190479447740508185965837690552500527637822603658699938581184513_full()
    ensures
        pm(7, 52435875175126190479447740508185965837690552500527637822603658699938581184512nat, fr_modulus() as int) == 1,
{
    let m: int = fr_modulus() as int;
    lemma_pm_one(7, m);
    lemma_pm_double(7, 1nat, m);
    assert(pm(7, 2nat, m) == 49);
    lemma_pm_succ(7, 2nat, m);
    assert(pm(7, 3nat, m) == 343);
    lemma_pm_double(7, 3nat, m);
    assert(pm(7, 6nat, m) == 117649);
    lemma_pm_succ(7, 6nat, m);
    assert(pm(7, 7nat, m) == 823543);
    lemma_pm_double(7, 7nat, m);
    assert(pm(7, 14nat, m) == 678223072849);
    lemma_pm_double(7, 14nat, m);
    assert(pm(7, 28nat, m) == 459986536544739960976801);
    lemma_pm_double(7, 28nat, m);
    assert(pm(7, 56nat, m) == 211587613802425391637729361787678676290060193601);
    lemma_pm_succ(7, 56nat, m);
    assert(pm(7, 57nat, m) == 1481113296616977741464105532513750734030421355207);
    lemma_pm_double(7, 57nat, m);
    assert(pm(7, 114nat, m) == 44713190787204262720740799792212998084068831978051453682388207323031584026412);
    lemma_pm_succ(7, 114nat, m);
    assert(pm(7, 115nat, m) == 50812959634798886647946896004561157400029061343721986663699157761528182262319);
    lemma_pm_double(7, 115nat, m);
    assert(pm(7, 230nat, m) == 36113784790954343303154012399942344496633298260674240394473227770720473104866);
    lemma_pm_succ(7, 230nat, m);
    assert(pm(7, 231nat, m) == 43052992836175641204287124766852548125670877822609131470897959595288986996010);
    lemma_pm_double(7, 231nat, m);
    assert(pm(7, 462nat, m) == 51582253561379468081810542819550822753585510290803939479159552681176774754079);
    lemma_pm_succ(7, 462nat, m);
    assert(pm(7, 463nat, m) == 46460523878899133695987356687739964248955257032461749418494916568605936171475);
    lemma_pm_double(7, 463nat, m);
    assert(pm(7, 926nat, m) == 25339820400101167054695932569943362529319649104193292942383373074582102222972);
    lemma_pm_succ(7, 926nat, m);
    assert(pm(7, 927nat, m) == 20071117275329597944528306465045640192165886227770137128872635422258972007265);
    lemma_pm_double(7, 927nat, m);
    assert(pm(7, 1854nat, m) == 46310834301184855689776880926486663263207947624631662199286124021737585626228);
    lemma_pm_double(7, 1854nat, m);
    assert(pm(7, 3708nat, m) == 46401789713416593632851401385468824381389656236746698877487792706717381792277);
    lemma_pm_succ(7, 3708nat, m);
    assert(pm(7, 3709nat, m) == 10197276943159012553273366649165975643584278654061065206792596747390185438861);
    lemma_pm_double(7, 3709nat, m);
    assert(pm(7, 7418nat, m) == 39372973387941567426663330441454127242454587728413418641973386714441241373172);
    lemma_pm_succ(7, 7418nat, m);
    assert(pm(7, 7419nat, m) == 13431437839960019589404610549249061508729351596255741380795413501395783689639);
    lemma_pm_double(7, 7419nat, m);
    assert(pm(7, 14838nat, m) == 37891154123899018532623533129818841122258047686394048270712783308439375410392);
    lemma_pm_double(7, 14838nat, m);
    assert(pm(7, 29676nat, m) == 24522208671192006471625186509108288179016017618985007283418064773746227203083);
    lemma_pm_succ(7, 29676nat, m);
    assert(pm(7, 29677nat, m) == 14347835172965473863033084039200119740040465831312137516115477316407846868042);
    lemma_pm_double(7, 29677nat, m);
    assert(pm(7, 59354nat, m) == 40680212451408245944033154192387327292049899635685646262345340540839577760327);
    lemma_pm_succ(7, 59354nat, m);
    assert(pm(7, 59355nat, m) == 22582111284226769210993376805781461855896534947161334723399090286184138399724);
    lemma_pm_double(7, 59355nat, m);
    assert(pm(7, 118710nat, m) == 22816540351633602738192130541066621712366663107624345430205656830477168492618);
    lemma_pm_double(7, 118710nat, m);
    assert(pm(7, 237420nat, m) == 48517998814984932252052631119779112868269049494832743230232350566230856660499);
    lemma_pm_succ(7, 237420nat, m);
    assert(pm(7, 237421nat, m) == 25010740654137382887681974789337995051740031460663375676004501763984509516415);
    lemma_pm_double(7, 237421nat, m);
    assert(pm(7, 474842nat, m) == 31535378746210068166376978443802018445901671804246729203715267642439510779338);
    lemma_pm_double(7, 474842nat, m);
    assert(pm(7, 949684nat, m) == 12333807453290692423819548880496570513589846300918924925346028745529403197987);
    lemma_pm_double(7, 949684nat, m);
    assert(pm(7, 1899368nat, m) == 28884137492089036126689147405333072181477983309146455155877190388387769221358);
    lemma_pm_succ(7, 1899368nat, m);
    assert(pm(7, 1899369nat, m) == 44881336919244681448480810312773607757274225662442272623329356618898640995967);
    lemma_pm_double(7, 1899369nat, m);
    assert(pm(7, 3798738nat, m) == 5814152804019988481502099140152987571512510120518563754195579119632869162091);
    lemma_pm_succ(7, 3798738nat, m);
    assert(pm(7, 3798739nat, m) == 40699069628139919370514693981070913000587570843629946279369053837430084134637);
    lemma_pm_double(7, 3798739nat, m);
    assert(pm(7, 7597478nat, m) == 44875964589920517951853016363825895062340634472827811795798107909180464790976);
    lemma_pm_succ(7, 7597478nat, m);
    assert(pm(7, 7597479nat, m) == 51952376253812673265732412005851436247931678807156493457568461864570347614267);
    lemma_pm_double(7, 7597479nat, m);
    assert(pm(7, 15194958nat, m) == 27709021390842213128629326074905577550131738051915234559593492240391079732111);
    lemma_pm_double(7, 15194958nat, m);
    assert(pm(7, 30389916nat, m) == 21809105456658325563968514752414379048147169760002183531309968580878519525463);
    lemma_pm_succ(7, 30389916nat, m);
    assert(pm(7, 30389917nat, m) == 47791987846355897988884122250528721661649083318960009073962462666272474309215);
    lemma_pm_double(7, 30389917nat, m);
    assert(pm(7, 60779834nat, m) == 26931571879365494740192310469584173294560702997338007338003900692018908369379);
    lemma_pm_double(7, 60779834nat, m);
    assert(pm(7, 121559668nat, m) == 25627865270210843094351880550324782783951761483906233594305954079903520066173);
    lemma_pm_succ(7, 121559668nat, m);
    assert(pm(7, 121559669nat, m) == 22087431366097330222119942327715581974590672885760721692330702459508896909672);
    lemma_pm_double(7, 121559669nat, m);
    assert(pm(7, 243119338nat, m) == 32900095547027742790147756438831676050035588852495931795248174319483974918012);
    lemma_pm_double(7, 243119338nat, m);
    assert(pm(7, 486238676nat, m) == 6338257377187619480922960761350821061868224835500540596173938196809178259424);
    lemma_pm_double(7, 486238676nat, m);
    assert(pm(7, 972477352nat, m) == 31835249365351503674905604172207458966289622089829464127871315301251119876059);
    lemma_pm_succ(7, 972477352nat, m);
    assert(pm(7, 972477353nat, m) == 13103244856955763806548267172708349413265144626695697604684572309003514394361);
    lemma_pm_double(7, 972477353nat, m);
    assert(pm(7, 1944954706nat, m) == 22833490621197706462216809926807625351744483703774113205044284032430135378416);
    lemma_pm_succ(7, 1944954706nat, m);
    assert(pm(7, 1944954707nat, m) == 2526808823005373797174447963095479949139728424835878967499012127195204095373);
    lemma_pm_double(7, 1944954707nat, m);
    assert(pm(7, 3889909414nat, m) == 33589990193086100029993441932406533457785957405795203383976668752525674407757);
    lemma_pm_double(7, 3889909414nat, m);
    assert(pm(7, 7779818828nat, m) == 10150605306331240441937819007687316038997203598771093090557901838603731746605);
    lemma_pm_double(7, 7779818828nat, m);
    assert(pm(7, 15559637656nat, m) == 11581989021704929634817565242473410715723619900278197743619289676863515992625);
    lemma_pm_succ(7, 15559637656nat, m);
    assert(pm(7, 15559637657nat, m) == 28638047976808316964275216189127909172374786801419746382731369038106030763862);
    lemma_pm_double(7, 15559637657nat, m);
    assert(pm(7, 31119275314nat, m) == 37100679812520719956698407783306023094283257414602917128225778234092011481356);
    lemma_pm_double(7, 31119275314nat, m);
    assert(pm(7, 62238550628nat, m) == 40295110376537264984204991367118223700583732482987556236369996296238700964182);
    lemma_pm_succ(7, 62238550628nat, m);
    assert(pm(7, 62238550629nat, m) == 19886396760129902492196237028897736715633364878274704541571680573978000826709);
    lemma_pm_double(7, 62238550629nat, m);
    assert(pm(7, 124477101258nat, m) == 50297304383077481868165198493211079897914074961879868443490505621345974652915);
    lemma_pm_double(7, 124477101258nat, m);
    assert(pm(7, 248954202516nat, m) == 24847965371090380337960874254127657045387767484021582603484925518107218967402);
    lemma_pm_double(7, 248954202516nat, m);
    assert(pm(7, 497908405032nat, m) == 33551561035780591262777674121839654341398740623649276211197554933028535833846);
    lemma_pm_succ(7, 497908405032nat, m);
    assert(pm(7, 497908405033nat, m) == 25117426549959376921652756820133717039028974363434382187968249731445426098870);
    lemma_pm_double(7, 497908405033nat, m);
    assert(pm(7, 995816810066nat, m) == 31437344091899782037198669572330529331007185280605800617130008853810341311820);
    lemma_pm_succ(7, 995816810066nat, m);
    assert(pm(7, 995816810067nat, m) == 10317907942793712342599724973569841966288086962130053029495427176918064444688);
    lemma_pm_double(7, 995816810067nat, m);
    assert(pm(7, 1991633620134nat, m) == 29925677593997698923132654374637653498477698703767858753811036595634963234104);
    lemma_pm_double(7, 1991633620134nat, m);
    assert(pm(7, 3983267240268nat, m) == 30984642125362226158170552826376047725164738928651673846415123121306690841492);
    lemma_pm_double(7, 3983267240268nat, m);
    assert(pm(7, 7966534480536nat, m) == 23726291002985173991345921249558392634479421631053028167130167873780982661033);
    lemma_pm_succ(7, 7966534480536nat, m);
    assert(pm(7, 7966534480537nat, m) == 8776411495517646501078227222350850928284293915788283702100199016651135073692);
    lemma_pm_double(7, 7966534480537nat, m);
    assert(pm(7, 15933068961074nat, m) == 17315178463217758253225931001765323585710146804267283204479271177554559989714);
    lemma_pm_succ(7, 15933068961074nat, m);
    assert(pm(7, 15933068961075nat, m) == 16334498892271926813686035995985333424589922628815706786147580843004757558972);
    lemma_pm_double(7, 15933068961075nat, m);
    assert(pm(7, 31866137922150nat, m) == 2380309588817167485396489245359319238329701398889780710463303654564509178420);
    lemma_pm_succ(7, 31866137922150nat, m);
    assert(pm(7, 31866137922151nat, m) == 16662167121720172397775424717515234668307909792228464973243125581951564248940);
    lemma_pm_double(7, 31866137922151nat, m);
    assert(pm(7, 63732275844302nat, m) == 12789856499364335502767009450859331604700211572807240670940040426699461586095);
    lemma_pm_double(7, 63732275844302nat, m);
    assert(pm(7, 127464551688604nat, m) == 4914833714917671776936566307493143960022254268752328533692764738653480540736);
    lemma_pm_succ(7, 127464551688604nat, m);
    assert(pm(7, 127464551688605nat, m) == 34403836004423702438555964152452007720155779881266299735849353170574363785152);
    lemma_pm_double(7, 127464551688605nat, m);
    assert(pm(7, 254929103377210nat, m) == 3017821443302668513410711684817721249974028986540096669949570767226965458417);
    lemma_pm_double(7, 254929103377210nat, m);
    assert(pm(7, 509858206754420nat, m) == 46201662182461257091318253803710512987386495684569048339124536702831078444217);
    lemma_pm_succ(7, 509858206754420nat, m);
    assert(pm(7, 509858206754421nat, m) == 8796384226471656762541333576857795885562154788817511438249804720186062002441);
    lemma_pm_double(7, 509858206754421nat, m);
    assert(pm(7, 1019716413508842nat, m) == 27328233832150853343775106053450515715317253662427506208527454245514188990383);
    lemma_pm_succ(7, 1019716413508842nat, m);
    assert(pm(7, 1019716413508843nat, m) == 33990011299677401968082520849595712494149118135409629991881203618783579379142);
    lemma_pm_double(7, 1019716413508843nat, m);
    assert(pm(7, 2039432827017686nat, m) == 41953783850502062275380087696370247762395685930369957997373012296655209659913);
    lemma_pm_succ(7, 2039432827017686nat, m);
    assert(pm(7, 2039432827017687nat, m) == 31497111077883483530421911333661905148317039009951516868592792576893561696826);
    lemma_pm_double(7, 2039432827017687nat, m);
    assert(pm(7, 4078865654035374nat, m) == 38114153123001674012474138334852983855292907054951084961427547039361353447278);
    lemma_pm_succ(7, 4078865654035374nat, m);
    assert(pm(7, 4078865654035375nat, m) == 4619695985380765690080265803041057798597586882019405616974535775836568208381);
    lemma_pm_double(7, 4078865654035375nat, m);
    assert(pm(7, 8157731308070750nat, m) == 41391883585984179264867249016075272371703700611770513199247570000891209365007);
    lemma_pm_succ(7, 8157731308070750nat, m);
    assert(pm(7, 8157731308070751nat, m) == 27563809226258302456832040571597077413473141779755403281714696506545559632484);
    lemma_pm_double(7, 8157731308070751nat, m);
    assert(pm(7, 16315462616141502nat, m) == 44661102871155277717782349443448644733480483784987523149512827103810545135079);
    lemma_pm_double(7, 16315462616141502nat, m);
    assert(pm(7, 32630925232283004nat, m) == 35730956363075619991854464193788789967724077685335948795253899874002011291758);
    lemma_pm_succ(7, 32630925232283004nat, m);
    assert(pm(7, 32630925232283005nat, m) == 40373193841024578025190287323777666423306333795241090276362664318259754304254);
    lemma_pm_double(7, 32630925232283005nat, m);
    assert(pm(7, 65261850464566010nat, m) == 8793409015524651562977129810873344359790030995341499311913894491807768443663);
    lemma_pm_double(7, 65261850464566010nat, m);
    assert(pm(7, 130523700929132020nat, m) == 26287727043560202948393323263882283635476194759517919720437703215572282503910);
    lemma_pm_succ(7, 130523700929132020nat, m);
    assert(pm(7, 130523700929132021nat, m) == 26706463779542849200410041322618087935261705815042524575252946409190233973831);
    lemma_pm_double(7, 130523700929132021nat, m);
    assert(pm(7, 261047401858264042nat, m) == 20208610612304078104857579435534307978543889498570469963486099926410269801971);
    lemma_pm_double(7, 261047401858264042nat, m);
    assert(pm(7, 522094803716528084nat, m) == 22271208203811712892065603975171476400575243446436565825002129509164270574220);
    lemma_pm_double(7, 522094803716528084nat, m);
    assert(pm(7, 1044189607433056168nat, m) == 10910113048812923853118114585099356133888891633577982599523042133959742541450);
    lemma_pm_succ(7, 1044189607433056168nat, m);
    assert(pm(7, 1044189607433056169nat, m) == 23934916166564276492379061587509527099531688934518240374057636237779616605637);
    lemma_pm_double(7, 1044189607433056169nat, m);
    assert(pm(7, 2088379214866112338nat, m) == 16997562554633069491027547104628413592728860559060324608741804946701517626228);
    lemma_pm_double(7, 2088379214866112338nat, m);
    assert(pm(7, 4176758429732224676nat, m) == 10849406125948736573694375775135659237417726401501653842901790078275768873847);
    lemma_pm_double(7, 4176758429732224676nat, m);
    assert(pm(7, 8353516859464449352nat, m) == 565288174552152271382022056477377743536699998195153647960848897446522389495);
    lemma_pm_double(7, 8353516859464449352nat, m);
    assert(pm(7, 16707033718928898704nat, m) == 6954981720455459529914825488024541800088992844792280731759706829297719119123);
    lemma_pm_double(7, 16707033718928898704nat, m);
    assert(pm(7, 33414067437857797408nat, m) == 4657578438477497526011666404425691202604317455406874705372936749212068589018);
    lemma_pm_double(7, 33414067437857797408nat, m);
    assert(pm(7, 66828134875715594816nat, m) == 47082858439731893032708718751842899146381254763239088474754622466048427965504);
    lemma_pm_succ(7, 66828134875715594816nat, m);
    assert(pm(7, 66828134875715594817nat, m) == 14964758027366108352274588213784498998525468339507792387660405062707508651450);
    lemma_pm_double(7, 66828134875715594817nat, m);
    assert(pm(7, 133656269751431189634nat, m) == 10837365928720576678620747955478108940346449366926325625661013654392020189511);
    lemma_pm_succ(7, 133656269751431189634nat, m);
    assert(pm(7, 133656269751431189635nat, m) == 23425686325917846270897495180160796744734593067956641557023436880805560142064);
    lemma_pm_double(7, 133656269751431189635nat, m);
    assert(pm(7, 267312539502862379270nat, m) == 5053398502294102117630388466461251538804435003181271277742179693191615895625);
    lemma_pm_double(7, 267312539502862379270nat, m);
    assert(pm(7, 534625079005724758540nat, m) == 39943013088723629852982319558761706776467528578223889287145769839448371371264);
    lemma_pm_double(7, 534625079005724758540nat, m);
    assert(pm(7, 1069250158011449517080nat, m) == 25439403247363741581114838941010507220517164517700439205548944576961301465193);
    lemma_pm_succ(7, 1069250158011449517080nat, m);
    assert(pm(7, 1069250158011449517081nat, m) == 20768197206167619629460651062515653030548494122320160971031635938913366702812);
    lemma_pm_double(7, 1069250158011449517081nat, m);
    assert(pm(7, 2138500316022899034162nat, m) == 18491949051586856556136958946833175827571427498695599111384915433588515826340);
    lemma_pm_succ(7, 2138500316022899034162nat, m);
    assert(pm(7, 2138500316022899034163nat, m) == 24571893010855614934063231611460299117618887489813918134487090635242448415354);
    lemma_pm_double(7, 2138500316022899034163nat, m);
    assert(pm(7, 4277000632045798068326nat, m) == 1921065008112394845114692780022855649047464802324335048775994628093095345830);
    lemma_pm_double(7, 4277000632045798068326nat, m);
    assert(pm(7, 8554001264091596136652nat, m) == 20211043734294855002994916478447835319796151361574642952941447308393405313716);
    lemma_pm_double(7, 8554001264091596136652nat, m);
    assert(pm(7, 17108002528183192273304nat, m) == 3173348409247102928281037435514827979910676006033902278321652971179254887608);
    lemma_pm_succ(7, 17108002528183192273304nat, m);
    assert(pm(7, 17108002528183192273305nat, m) == 22213438864729720497967262048603795859374732042237315948251570798254784213256);
    lemma_pm_double(7, 17108002528183192273305nat, m);
    assert(pm(7, 34216005056366384546610nat, m) == 16549799555420816187972429183531473973354540578353948971163400876265448335147);
    lemma_pm_succ(7, 34216005056366384546610nat, m);
    assert(pm(7, 34216005056366384546611nat, m) == 10976846537693332356911523268348386138100679047422367152936488733980975977003);
    lemma_pm_double(7, 34216005056366384546611nat, m);
    assert(pm(7, 68432010112732769093222nat, m) == 50556480661247749824376180121333738400148445019774371746227669729450386675006);
    lemma_pm_succ(7, 68432010112732769093222nat, m);
    assert(pm(7, 68432010112732769093223nat, m) == 39280113577977105893946817800220373774895800135254775287971735906521219617964);
    lemma_pm_double(7, 68432010112732769093223nat, m);
    assert(pm(7, 136864020225465538186446nat, m) == 37167175286514574705811928457362264955584123510870705631336382075456213737660);
    lemma_pm_double(7, 136864020225465538186446nat, m);
    assert(pm(7, 273728040450931076372892nat, m) == 36712270636867509138454966699446650458662825142398861936643824109726493524275);
    lemma_pm_double(7, 273728040450931076372892nat, m);
    assert(pm(7, 547456080901862152745784nat, m) == 32168097752865249378986032761967365609766179633565045260536872888964898797733);
    lemma_pm_succ(7, 547456080901862152745784nat, m);
    assert(pm(7, 547456080901862152745785nat, m) == 15433183569551983735111267301027695917601047432844765533343475422999966846079);
    lemma_pm_double(7, 547456080901862152745785nat, m);
    assert(pm(7, 1094912161803724305491570nat, m) == 44237009105652903468200602680037229571216764219537022594214009443261970983353);
    lemma_pm_succ(7, 1094912161803724305491570nat, m);
    assert(pm(7, 1094912161803724305491571nat, m) == 47479687863939371880165516219330777810064587034120969046479772603140890960906);
    lemma_pm_double(7, 1094912161803724305491571nat, m);
    assert(pm(7, 2189824323607448610983142nat, m) == 50937246372456138579923091596483644034178973736855302127200043319229152861523);
    lemma_pm_succ(7, 2189824323607448610983142nat, m);
    assert(pm(7, 2189824323607448610983143nat, m) == 41945473556435827182775198126269713213109501154821287954778351034972582923583);
    lemma_pm_double(7, 2189824323607448610983143nat, m);
    assert(pm(7, 4379648647214897221966286nat, m) == 20978249366510441623630856408123427597574838307176931582360647538956887640051);
    lemma_pm_double(7, 4379648647214897221966286nat, m);
    assert(pm(7, 8759297294429794443932572nat, m) == 15547057677373299766398282031363863068524907788848339765602764486307255747061);
    lemma_pm_succ(7, 8759297294429794443932572nat, m);
    assert(pm(7, 8759297294429794443932573nat, m) == 3957653391360717405892493203175109804293249520883102714012034004273627860401);
    lemma_pm_double(7, 8759297294429794443932573nat, m);
    assert(pm(7, 17518594588859588887865146nat, m) == 22217938025398064723750782822415355131983439609348233143190159653467115750738);
    lemma_pm_succ(7, 17518594588859588887865146nat, m);
    assert(pm(7, 17518594588859588887865147nat, m) == 50653815827534072107359998740535554248502972264382356357123800174392647886140);
    lemma_pm_double(7, 17518594588859588887865147nat, m);
    assert(pm(7, 35037189177719177775730294nat, m) == 30755038176274359538707700483094758817941076190119439227326562709452047673514);
    lemma_pm_double(7, 35037189177719177775730294nat, m);
    assert(pm(7, 70074378355438355551460588nat, m) == 34214885581098000336948158268434676012155604033277062518785966397810258439228);
    lemma_pm_double(7, 70074378355438355551460588nat, m);
    assert(pm(7, 140148756710876711102921176nat, m) == 38019113707809371032489532029213613753089180651533624521192486947878628947025);
    lemma_pm_double(7, 140148756710876711102921176nat, m);
    assert(pm(7, 280297513421753422205842352nat, m) == 29278592656628395002788119143040239854733453413021109174616804613724436606335);
    lemma_pm_double(7, 280297513421753422205842352nat, m);
    assert(pm(7, 560595026843506844411684704nat, m) == 37935520921000092017666583823337636937716882453404269097902628930753486591623);
    lemma_pm_double(7, 560595026843506844411684704nat, m);
    assert(pm(7, 1121190053687013688823369408nat, m) == 10454702271275726019778020656573353131886920485386831311893670601877760291828);
    lemma_pm_double(7, 1121190053687013688823369408nat, m);
    assert(pm(7, 2242380107374027377646738816nat, m) == 47914997526756992310922113611061941628351932418964410845403981778185161728044);
    lemma_pm_double(7, 2242380107374027377646738816nat, m);
    assert(pm(7, 4484760214748054755293477632nat, m) == 21924769926626552123402783610443962861085399488158233123152277841008357138913);
    lemma_pm_succ(7, 4484760214748054755293477632nat, m);
    assert(pm(7, 4484760214748054755293477633nat, m) == 48601639136133483904924004256735808352216691416052356216858627487181337603365);
    lemma_pm_double(7, 4484760214748054755293477633nat, m);
    assert(pm(7, 8969520429496109510586955266nat, m) == 32967251891899736109226602016829831778896761804446605788042773073206016019764);
    lemma_pm_double(7, 8969520429496109510586955266nat, m);
    assert(pm(7, 17939040858992219021173910532nat, m) == 46128211719031117817636756526063442915821103915037345444815038297954215832686);
    lemma_pm_double(7, 17939040858992219021173910532nat, m);
    assert(pm(7, 35878081717984438042347821064nat, m) == 21835199336475517559214094233420530427943091092922032493258427531138530132224);
    lemma_pm_double(7, 35878081717984438042347821064nat, m);
    assert(pm(7, 71756163435968876084695642128nat, m) == 22911856994951417649797468856834865822935193483496118530613350554390725161612);
    lemma_pm_double(7, 71756163435968876084695642128nat, m);
    assert(pm(7, 143512326871937752169391284256nat, m) == 19808391940299695280421066020666180166280141364439361754570393626483478651576);
    lemma_pm_double(7, 143512326871937752169391284256nat, m);
    assert(pm(7, 287024653743875504338782568512nat, m) == 15348500761666122565476729953358925948367101297482630554562635813521755256813);
    lemma_pm_double(7, 287024653743875504338782568512nat, m);
    assert(pm(7, 574049307487751008677565137024nat, m) == 23278330897705588261350485006070682381231933991218796140719356708354887460247);
    lemma_pm_double(7, 574049307487751008677565137024nat, m);
    assert(pm(7, 1148098614975502017355130274048nat, m) == 10041244370887318612220102227267305388674212280220398473059601371638717711642);
    lemma_pm_succ(7, 1148098614975502017355130274048nat, m);
    assert(pm(7, 1148098614975502017355130274049nat, m) == 17852835421085039806092975082685171883028933461015151488813550901532442796981);
    lemma_pm_double(7, 1148098614975502017355130274049nat, m);
    assert(pm(7, 2296197229951004034710260548098nat, m) == 22595109106074254807980650404784657385676579005013171773178992831804177347804);
    lemma_pm_double(7, 2296197229951004034710260548098nat, m);
    assert(pm(7, 4592394459902008069420521096196nat, m) == 17342184332947129451303380139207664341301261883403338177298215028680260939341);
    lemma_pm_double(7, 4592394459902008069420521096196nat, m);
    assert(pm(7, 9184788919804016138841042192392nat, m) == 20519662163812485633790115689280932102587853942021166858961916659060680942895);
    lemma_pm_succ(7, 9184788919804016138841042192392nat, m);
    assert(pm(7, 9184788919804016138841042192393nat, m) == 38765884796435018477635328808594593042733872593092892367526099213547604231239);
    lemma_pm_double(7, 9184788919804016138841042192393nat, m);
    assert(pm(7, 18369577839608032277682084384786nat, m) == 36653212945767933891537532691741750117656152990906939722581744359861575133525);
    lemma_pm_succ(7, 18369577839608032277682084384786nat, m);
    assert(pm(7, 18369577839608032277682084384787nat, m) == 46828989919870775322971766809448387472830860934238026767657575719276701196623);
    lemma_pm_double(7, 18369577839608032277682084384787nat, m);
    assert(pm(7, 36739155679216064555364168769574nat, m) == 18996739460515147076423455509054172907975932597312516419520789543006076186614);
    lemma_pm_double(7, 36739155679216064555364168769574nat, m);
    assert(pm(7, 73478311358432129110728337539148nat, m) == 3203243121006812993972146889932023772278060392086933127388994120419915911890);
    lemma_pm_succ(7, 73478311358432129110728337539148nat, m);
    assert(pm(7, 73478311358432129110728337539149nat, m) == 22422701847047690957805028229524166405946422744608531891722958842939411383230);
    lemma_pm_double(7, 73478311358432129110728337539149nat, m);
    assert(pm(7, 146956622716864258221456675078298nat, m) == 25299123223245289147113218717549820050761615500983126373233727440569813902068);
    lemma_pm_double(7, 146956622716864258221456675078298nat, m);
    assert(pm(7, 293913245433728516442913350156596nat, m) == 50078837933021526323837054443545530808942362851202042386001403115210381897095);
    lemma_pm_double(7, 293913245433728516442913350156596nat, m);
    assert(pm(7, 587826490867457032885826700313192nat, m) == 25275871616732425965107811431177325292032598799246468719055663389277864501179);
    lemma_pm_double(7, 587826490867457032885826700313192nat, m);
    assert(pm(7, 1175652981734914065771653400626384nat, m) == 40040879725751472037944479397827654051801199806704772980355163624315505239984);
    lemma_pm_double(7, 1175652981734914065771653400626384nat, m);
    assert(pm(7, 2351305963469828131543306801252768nat, m) == 50193560938829652727147393659349161729404651975793687704069263038806139445400);
    lemma_pm_succ(7, 2351305963469828131543306801252768nat, m);
    assert(pm(7, 2351305963469828131543306801252769nat, m) == 36739675521050426213345312566328337079689248827389986992862889072011489010722);
    lemma_pm_double(7, 2351305963469828131543306801252769nat, m);
    assert(pm(7, 4702611926939656263086613602505538nat, m) == 892191106901846930120300344280502903800678200939570079205415183393203122686);
    lemma_pm_succ(7, 4702611926939656263086613602505538nat, m);
    assert(pm(7, 4702611926939656263086613602505539nat, m) == 6245337748312928510842102409963520326604747406576990554437906283752421858802);
    lemma_pm_double(7, 4702611926939656263086613602505539nat, m);
    assert(pm(7, 9405223853879312526173227205011078nat, m) == 22462890907893832408627681453374528479370761299441405328878168798110224952458);
    lemma_pm_succ(7, 9405223853879312526173227205011078nat, m);
    assert(pm(7, 9405223853879312526173227205011079nat, m) == 52368486005004445901498289157249767680214224095034561656939864186894412298180);
    lemma_pm_double(7, 9405223853879312526173227205011079nat, m);
    assert(pm(7, 18810447707758625052346454410022158nat, m) == 44364234066543875755465507402728328427094297462215489386064724593567120324733);
    lemma_pm_double(7, 18810447707758625052346454410022158nat, m);
    assert(pm(7, 37620895415517250104692908820044316nat, m) == 36154141283696179178717501861301328156441424429222393536913389437535964608763);
    lemma_pm_succ(7, 37620895415517250104692908820044316nat, m);
    assert(pm(7, 37620895415517250104692908820044317nat, m) == 43335488285368492333231550996365433744327761002446203467979091262997427523289);
    lemma_pm_double(7, 37620895415517250104692908820044317nat, m);
    assert(pm(7, 75241790831034500209385817640088634nat, m) == 47558907717254980183694347050157955683802946223063397391989944639285286595318);
    lemma_pm_succ(7, 75241790831034500209385817640088634nat, m);
    assert(pm(7, 75241790831034500209385817640088635nat, m) == 18297102970027718409173986301989894760477308558277954808307660275365519060148);
    lemma_pm_double(7, 75241790831034500209385817640088635nat, m);
    assert(pm(7, 150483581662069000418771635280177270nat, m) == 16551347060367486694307856872633941826601203475303021109946213704736829675924);
    lemma_pm_double(7, 150483581662069000418771635280177270nat, m);
    assert(pm(7, 300967163324138000837543270560354540nat, m) == 36580617503158513281670161957128857130056244997215112608402476723808630266959);
    lemma_pm_double(7, 300967163324138000837543270560354540nat, m);
    assert(pm(7, 601934326648276001675086541120709080nat, m) == 38481307787753392522253001223883634391173231415394935813110930167728311917975);
    lemma_pm_double(7, 601934326648276001675086541120709080nat, m);
    assert(pm(7, 1203868653296552003350173082241418160nat, m) == 47244034338990704259138939993488174567834539101069576952382449054083768268074);
    lemma_pm_double(7, 1203868653296552003350173082241418160nat, m);
    assert(pm(7, 2407737306593104006700346164482836320nat, m) == 41140925551034058183149055783148645804836839947613851619060351353197018381850);
    lemma_pm_double(7, 2407737306593104006700346164482836320nat, m);
    assert(pm(7, 4815474613186208013400692328965672640nat, m) == 8664973336800362195803623148547461319629968933861541187976448414297755878975);
    lemma_pm_double(7, 4815474613186208013400692328965672640nat, m);
    assert(pm(7, 9630949226372416026801384657931345280nat, m) == 16154868315698689362488952082761953726183940424043183241619478905724394324651);
    lemma_pm_double(7, 9630949226372416026801384657931345280nat, m);
    assert(pm(7, 19261898452744832053602769315862690560nat, m) == 33141738279433600080001485835528836757742020530204955298853280006581484896351);
    lemma_pm_double(7, 19261898452744832053602769315862690560nat, m);
    assert(pm(7, 38523796905489664107205538631725381120nat, m) == 45897379086254908020573670783429589311133964019731559692936607246681301492273);
    lemma_pm_succ(7, 38523796905489664107205538631725381120nat, m);
    assert(pm(7, 38523796905489664107205538631725381121nat, m) == 6666402553027213267329252434891330151794433134955090914934298527137623338833);
    lemma_pm_double(7, 38523796905489664107205538631725381121nat, m);
    assert(pm(7, 77047593810979328214411077263450762242nat, m) == 31857295956479207882514280800217138382369528144059694274551898867317044048735);
    lemma_pm_double(7, 77047593810979328214411077263450762242nat, m);
    assert(pm(7, 154095187621958656428822154526901524484nat, m) == 7686717667261203550412707947651522828833203483332889781657358838919453186593);
    lemma_pm_succ(7, 154095187621958656428822154526901524484nat, m);
    assert(pm(7, 154095187621958656428822154526901524485nat, m) == 1371148495702234373441215125374693964141871882802590648997853172497591121638);
    lemma_pm_double(7, 154095187621958656428822154526901524485nat, m);
    assert(pm(7, 308190375243917312857644309053803048970nat, m) == 33913643672662842510312388637023901464507392568598081420228447129657978330773);
    lemma_pm_double(7, 308190375243917312857644309053803048970nat, m);
    assert(pm(7, 616380750487834625715288618107606097940nat, m) == 27917618146632443198664659492645875228454307850116968848222551487613457546048);
    lemma_pm_succ(7, 616380750487834625715288618107606097940nat, m);
    assert(pm(7, 616380750487834625715288618107606097941nat, m) == 38115701501048530952309394923963229086108497449235868469746884313478459268797);
    lemma_pm_double(7, 616380750487834625715288618107606097941nat, m);
    assert(pm(7, 1232761500975669251430577236215212195882nat, m) == 40232925649025291659408480353138316243525307884820971063270331056280495534119);
    lemma_pm_double(7, 1232761500975669251430577236215212195882nat, m);
    assert(pm(7, 2465523001951338502861154472430424391764nat, m) == 48056181917030644503554963235681482960331659882972208164770537159563692476408);
    lemma_pm_succ(7, 2465523001951338502861154472430424391764nat, m);
    assert(pm(7, 2465523001951338502861154472430424391765nat, m) == 21778022368457368648198299600654585696178304177639630217771807917314360227778);
    lemma_pm_double(7, 2465523001951338502861154472430424391765nat, m);
    assert(pm(7, 4931046003902677005722308944860848783530nat, m) == 30989928783359158657226969844144457846082663341891768822553165907273738748991);
    lemma_pm_double(7, 4931046003902677005722308944860848783530nat, m);
    assert(pm(7, 9862092007805354011444617889721697567060nat, m) == 34032005521589243953551211807338074720430726273982663774537565802974194160483);
    lemma_pm_double(7, 9862092007805354011444617889721697567060nat, m);
    assert(pm(7, 19724184015610708022889235779443395134120nat, m) == 18843100418731475576638378155514034355736697006793004389653435199156983436479);
    lemma_pm_succ(7, 19724184015610708022889235779443395134120nat, m);
    assert(pm(7, 19724184015610708022889235779443395134121nat, m) == 27029952580867948077573166072226308814775774046495755082366728994221721686327);
    lemma_pm_double(7, 19724184015610708022889235779443395134121nat, m);
    assert(pm(7, 39448368031221416045778471558886790268242nat, m) == 24056870244826170983522519261974000438213089922630292442333179482452618674199);
    lemma_pm_succ(7, 39448368031221416045778471558886790268242nat, m);
    assert(pm(7, 39448368031221416045778471558886790268243nat, m) == 11090466188404625446314413309260105554419971956829133628521280277352587165854);
    lemma_pm_double(7, 39448368031221416045778471558886790268243nat, m);
    assert(pm(7, 78896736062442832091556943117773580536486nat, m) == 27433709137843918922048250139616698433378589090948789965923406942219610624587);
    lemma_pm_succ(7, 78896736062442832091556943117773580536486nat, m);
    assert(pm(7, 78896736062442832091556943117773580536487nat, m) == 34728338439528861015994529452758991520578466135058616293652872495721530818570);
    lemma_pm_double(7, 78896736062442832091556943117773580536487nat, m);
    assert(pm(7, 157793472124885664183113886235547161072974nat, m) == 15200334974922747894890033466671805407067263259926356640465325132353582796834);
    lemma_pm_double(7, 157793472124885664183113886235547161072974nat, m);
    assert(pm(7, 315586944249771328366227772471094322145948nat, m) == 39339506492934229867710741337691335799231048142280555584159997372750340489673);
    lemma_pm_succ(7, 315586944249771328366227772471094322145948nat, m);
    assert(pm(7, 315586944249771328366227772471094322145949nat, m) == 13197169574908656676736486822909521406164574493325699976101688109559477505146);
    lemma_pm_double(7, 315586944249771328366227772471094322145949nat, m);
    assert(pm(7, 631173888499542656732455544942188644291898nat, m) == 40175534478069595836938407211982074255716633114937082273475776957453887968136);
    lemma_pm_succ(7, 631173888499542656732455544942188644291898nat, m);
    assert(pm(7, 631173888499542656732455544942188644291899nat, m) == 19049365470856218461330147942944690601563669301921386801312145202484309854387);
    lemma_pm_double(7, 631173888499542656732455544942188644291899nat, m);
    assert(pm(7, 1262347776999085313464911089884377288583798nat, m) == 40911766211784567164001481855277067047717096882500226956304113527063769208868);
    lemma_pm_succ(7, 1262347776999085313464911089884377288583798nat, m);
    assert(pm(7, 1262347776999085313464911089884377288583799nat, m) == 24202987606861017750771670446009640145566915674863399581110501189753478539511);
    lemma_pm_double(7, 1262347776999085313464911089884377288583799nat, m);
    assert(pm(7, 2524695553998170626929822179768754577167598nat, m) == 52249874974416744234333613254178577474661151677680342675027786784874148663376);
    lemma_pm_succ(7, 2524695553998170626929822179768754577167598nat, m);
    assert(pm(7, 2524695553998170626929822179768754577167599nat, m) == 51133873770160066763648849730134247296484746740596571789572555294487553536554);
    lemma_pm_double(7, 2524695553998170626929822179768754577167599nat, m);
    assert(pm(7, 5049391107996341253859644359537509154335198nat, m) == 10655241698392546056134739068920679681184492800908310873052715336705673748394);
    lemma_pm_double(7, 5049391107996341253859644359537509154335198nat, m);
    assert(pm(7, 10098782215992682507719288719075018308670396nat, m) == 21389147949859988529034517951798068073567064681021484328254686465926882452402);
    lemma_pm_succ(7, 10098782215992682507719288719075018308670396nat, m);
    assert(pm(7, 10098782215992682507719288719075018308670397nat, m) == 44852285298767538744346144646214544839588347766095114652575487861611014797788);
    lemma_pm_double(7, 10098782215992682507719288719075018308670397nat, m);
    assert(pm(7, 20197564431985365015438577438150036617340794nat, m) == 9923931480830567824853864749230261526889586185025689007784253517775255384069);
    lemma_pm_succ(7, 20197564431985365015438577438150036617340794nat, m);
    assert(pm(7, 20197564431985365015438577438150036617340795nat, m) == 17031645190687784294529312736425864850536550794652185231886115924488206503970);
    lemma_pm_double(7, 20197564431985365015438577438150036617340795nat, m);
    assert(pm(7, 40395128863970730030877154876300073234681590nat, m) == 15706582960282018882760856691250972949868973461603787367011306876684012984898);
    lemma_pm_double(7, 40395128863970730030877154876300073234681590nat, m);
    assert(pm(7, 80790257727941460061754309752600146469363180nat, m) == 17978006664629754080732981431670486670988515012295449865482911390106086362707);
    lemma_pm_succ(7, 80790257727941460061754309752600146469363180nat, m);
    assert(pm(7, 80790257727941460061754309752600146469363181nat, m) == 20974296302155897606235389005321475021538500085012873413173062330865442169923);
    lemma_pm_double(7, 80790257727941460061754309752600146469363181nat, m);
    assert(pm(7, 161580515455882920123508619505200292938726362nat, m) == 14144776024585620677430423064124915514613108285936437970715572548592045470351);
    lemma_pm_double(7, 161580515455882920123508619505200292938726362nat, m);
    assert(pm(7, 323161030911765840247017239010400585877452724nat, m) == 18037653401220724315967422734459338926940547296316296077924988742661160742968);
    lemma_pm_double(7, 323161030911765840247017239010400585877452724nat, m);
    assert(pm(7, 646322061823531680494034478020801171754905448nat, m) == 39895946541944950873462034756663464140368640473990631100910754409980791272716);
    lemma_pm_succ(7, 646322061823531680494034478020801171754905448nat, m);
    assert(pm(7, 646322061823531680494034478020801171754905449nat, m) == 17092249917983703716995540755714419794127720815296228593356987370172632986447);
    lemma_pm_double(7, 646322061823531680494034478020801171754905449nat, m);
    assert(pm(7, 1292644123647063360988068956041602343509810898nat, m) == 51574106065580790548125755468898253116846972109562117611201280751990962466264);
    lemma_pm_double(7, 1292644123647063360988068956041602343509810898nat, m);
    assert(pm(7, 2585288247294126721976137912083204687019621796nat, m) == 51085352287425770091026610913705744602335366848435545096609145789671802491262);
    lemma_pm_double(7, 2585288247294126721976137912083204687019621796nat, m);
    assert(pm(7, 5170576494588253443952275824166409374039243592nat, m) == 6210086315688444137981873403238961674389818416097901607478871390694124562031);
    lemma_pm_double(7, 5170576494588253443952275824166409374039243592nat, m);
    assert(pm(7, 10341152989176506887904551648332818748078487184nat, m) == 7277079948485887386689940974511613936714952664303728680670231621864495526842);
    lemma_pm_double(7, 10341152989176506887904551648332818748078487184nat, m);
    assert(pm(7, 20682305978353013775809103296665637496156974368nat, m) == 30932627140072104722580693708995081735056494664331086417833922491968555134840);
    lemma_pm_double(7, 20682305978353013775809103296665637496156974368nat, m);
    assert(pm(7, 41364611956706027551618206593331274992313948736nat, m) == 20405372144233404303069218904579989655160810999593845137460024578571392214326);
    lemma_pm_double(7, 41364611956706027551618206593331274992313948736nat, m);
    assert(pm(7, 82729223913412055103236413186662549984627897472nat, m) == 47163476540804381083505368701468771881957083335813271263922492492553867016915);
    lemma_pm_double(7, 82729223913412055103236413186662549984627897472nat, m);
    assert(pm(7, 165458447826824110206472826373325099969255794944nat, m) == 13263852207060915158847656871423838870474781633145560681147392803409601831794);
    lemma_pm_double(7, 165458447826824110206472826373325099969255794944nat, m);
    assert(pm(7, 330916895653648220412945652746650199938511589888nat, m) == 24028351025198515473383172173362665400020049188077656279633179781274071004498);
    lemma_pm_succ(7, 330916895653648220412945652746650199938511589888nat, m);
    assert(pm(7, 330916895653648220412945652746650199938511589889nat, m) == 10890831651011036875338983688980760287068686814960680489621282369102753477947);
    lemma_pm_double(7, 330916895653648220412945652746650199938511589889nat, m);
    assert(pm(7, 661833791307296440825891305493300399877023179778nat, m) == 45291391690054139224217119448804299865867130408038107664617291782899197523146);
    lemma_pm_double(7, 661833791307296440825891305493300399877023179778nat, m);
    assert(pm(7, 1323667582614592881651782610986600799754046359556nat, m) == 49610254786080597004937303067015075348314978016269953165234703305889908673932);
    lemma_pm_succ(7, 1323667582614592881651782610986600799754046359556nat, m);
    assert(pm(7, 1323667582614592881651782610986600799754046359557nat, m) == 32656532451807036157874678419989732412061531110723845221020970941597873610446);
    lemma_pm_double(7, 1323667582614592881651782610986600799754046359557nat, m);
    assert(pm(7, 2647335165229185763303565221973201599508092719114nat, m) == 34074310212035982277760834957293122389132579520040956672741029118459092147588);
    lemma_pm_succ(7, 2647335165229185763303565221973201599508092719114nat, m);
    assert(pm(7, 2647335165229185763303565221973201599508092719115nat, m) == 28776670783747114026534882668307993373165846638176145418772569029459320295064);
    lemma_pm_double(7, 2647335165229185763303565221973201599508092719115nat, m);
    assert(pm(7, 5294670330458371526607130443946403199016185438230nat, m) == 38567553428934512695426869889388674983957317176462121285275997235948967813032);
    lemma_pm_succ(7, 5294670330458371526607130443946403199016185438230nat, m);
    assert(pm(7, 5294670330458371526607130443946403199016185438231nat, m) == 7793498126910636470749386684790895699248457732596659883913687151949868768659);
    lemma_pm_double(7, 5294670330458371526607130443946403199016185438231nat, m);
    assert(pm(7, 10589340660916743053214260887892806398032370876462nat, m) == 4298302284159980605580205007771446467342497386906492011834602638781893336717);
    lemma_pm_succ(7, 10589340660916743053214260887892806398032370876462nat, m);
    assert(pm(7, 10589340660916743053214260887892806398032370876463nat, m) == 30088115989119864239061435054400125271397481708345444082842218471473253357019);
    lemma_pm_double(7, 10589340660916743053214260887892806398032370876463nat, m);
    assert(pm(7, 21178681321833486106428521775785612796064741752926nat, m) == 50826900956889930451674857299015597996000464275969764485554921061378266494412);
    lemma_pm_succ(7, 21178681321833486106428521775785612796064741752926nat, m);
    assert(pm(7, 21178681321833486106428521775785612796064741752927nat, m) == 41173055647472370285037558043993390945859934928622524463262495230016378353806);
    lemma_pm_double(7, 21178681321833486106428521775785612796064741752927nat, m);
    assert(pm(7, 42357362643666972212857043551571225592129483505854nat, m) == 44716298646063602496339885463682022473362993968986420790905125761032383673502);
    lemma_pm_succ(7, 42357362643666972212857043551571225592129483505854nat, m);
    assert(pm(7, 42357362643666972212857043551571225592129483505855nat, m) == 50834714646814265077140495704844328125088195280266756423317586827533779791949);
    lemma_pm_double(7, 42357362643666972212857043551571225592129483505855nat, m);
    assert(pm(7, 84714725287333944425714087103142451184258967011710nat, m) == 16472952546076505047603097018833594535395318426872348739529609327609553755430);
    lemma_pm_succ(7, 84714725287333944425714087103142451184258967011710nat, m);
    assert(pm(7, 84714725287333944425714087103142451184258967011711nat, m) == 10438917472283154374326198115463230072386123987051165531499947893389713918984);
    lemma_pm_double(7, 84714725287333944425714087103142451184258967011711nat, m);
    assert(pm(7, 169429450574667888851428174206284902368517934023422nat, m) == 30698193553236494888577917738521900854131599325414124793995874125637661408281);
    lemma_pm_succ(7, 169429450574667888851428174206284902368517934023422nat, m);
    assert(pm(7, 169429450574667888851428174206284902368517934023423nat, m) == 5143854172150702302254462136909442628158985275788322267556484079709305119915);
    lemma_pm_double(7, 169429450574667888851428174206284902368517934023423nat, m);
    assert(pm(7, 338858901149335777702856348412569804737035868046846nat, m) == 11750931413315036098026407419748497205681263501833182377890933153631211583201);
    lemma_pm_succ(7, 338858901149335777702856348412569804737035868046846nat, m);
    assert(pm(7, 338858901149335777702856348412569804737035868046847nat, m) == 29820644718079062206737111430053514602078292012304638822632873375479899897894);
    lemma_pm_double(7, 338858901149335777702856348412569804737035868046847nat, m);
    assert(pm(7, 677717802298671555405712696825139609474071736093694nat, m) == 38432978933451115210493367902585777868330028630065412348236009350371701753588);
    lemma_pm_succ(7, 677717802298671555405712696825139609474071736093694nat, m);
    assert(pm(7, 677717802298671555405712696825139609474071736093695nat, m) == 6851476658526854076214872777170615889857437907819697324633771952909006352551);
    lemma_pm_double(7, 677717802298671555405712696825139609474071736093695nat, m);
    assert(pm(7, 1355435604597343110811425393650279218948143472187390nat, m) == 17087986403085198517891429617894429502331037264232337676328465537335309038075);
    lemma_pm_succ(7, 1355435604597343110811425393650279218948143472187390nat, m);
    assert(pm(7, 1355435604597343110811425393650279218948143472187391nat, m) == 14744154471344008666344526308889074840936155848571088089091941361470000897499);
    lemma_pm_double(7, 1355435604597343110811425393650279218948143472187391nat, m);
    assert(pm(7, 2710871209194686221622850787300558437896286944374782nat, m) == 17161848458742943741404615338695249134080082499276069814166591688159330042092);
    lemma_pm_succ(7, 2710871209194686221622850787300558437896286944374782nat, m);
    assert(pm(7, 2710871209194686221622850787300558437896286944374783nat, m) == 15261188860948225230936826354494812263179472493877213053958824417238147925618);
    lemma_pm_double(7, 2710871209194686221622850787300558437896286944374783nat, m);
    assert(pm(7, 5421742418389372443245701574601116875792573888749566nat, m) == 10687963883109711071419320066743020209006410654789506836595045706788219887710);
    lemma_pm_succ(7, 5421742418389372443245701574601116875792573888749566nat, m);
    assert(pm(7, 5421742418389372443245701574601116875792573888749567nat, m) == 22379872006641787020487499959015175625354322082998910033561661247578958029457);
    lemma_pm_double(7, 5421742418389372443245701574601116875792573888749567nat, m);
    assert(pm(7, 10843484836778744886491403149202233751585147777499134nat, m) == 39016403855932743604181232196812371009052640499473305202276592988284738691627);
    lemma_pm_succ(7, 10843484836778744886491403149202233751585147777499134nat, m);
    assert(pm(7, 10843484836778744886491403149202233751585147777499135nat, m) == 10935451115898252832029922836756767874915720993674947302917857418300264918824);
    lemma_pm_double(7, 10843484836778744886491403149202233751585147777499135nat, m);
    assert(pm(7, 21686969673557489772982806298404467503170295554998270nat, m) == 19285419528335126304413131665389294049910208187696107787215746753593161998011);
    lemma_pm_succ(7, 21686969673557489772982806298404467503170295554998270nat, m);
    assert(pm(7, 21686969673557489772982806298404467503170295554998271nat, m) == 30126186348093503171996440641353126673990352312817478865302909875274971617051);
    lemma_pm_double(7, 21686969673557489772982806298404467503170295554998271nat, m);
    assert(pm(7, 43373939347114979545965612596808935006340591109996542nat, m) == 22127622315854843200459329920983835617392452180234416376969667893760890541734);
    lemma_pm_double(7, 43373939347114979545965612596808935006340591109996542nat, m);
    assert(pm(7, 86747878694229959091931225193617870012681182219993084nat, m) == 16162762308014454819406886605677459243719592559484685227792038760845741009232);
    lemma_pm_double(7, 86747878694229959091931225193617870012681182219993084nat, m);
    assert(pm(7, 173495757388459918183862450387235740025362364439986168nat, m) == 23771109298407529529130616319496914000124643828280604841544035847258487422634);
    lemma_pm_succ(7, 173495757388459918183862450387235740025362364439986168nat, m);
    assert(pm(7, 173495757388459918183862450387235740025362364439986169nat, m) == 9090139563474135265571092711920500487800849296381320422997274830993668404899);
    lemma_pm_double(7, 173495757388459918183862450387235740025362364439986169nat, m);
    assert(pm(7, 346991514776919836367724900774471480050724728879972338nat, m) == 25188949360303728673906757346702090696932032749713462208049185911383258370173);
    lemma_pm_double(7, 346991514776919836367724900774471480050724728879972338nat, m);
    assert(pm(7, 693983029553839672735449801548942960101449457759944676nat, m) == 8596329619844419329251241108718711976972135424216360596424244363893478919528);
    lemma_pm_succ(7, 693983029553839672735449801548942960101449457759944676nat, m);
    assert(pm(7, 693983029553839672735449801548942960101449457759944677nat, m) == 7738432163784744825310947252845018001114395468986886352366051847315771252183);
    lemma_pm_double(7, 693983029553839672735449801548942960101449457759944677nat, m);
    assert(pm(7, 1387966059107679345470899603097885920202898915519889354nat, m) == 22093018783009013839996542679397330029798369647183965210156289740350800257951);
    lemma_pm_succ(7, 1387966059107679345470899603097885920202898915519889354nat, m);
    assert(pm(7, 1387966059107679345470899603097885920202898915519889355nat, m) == 49779381130810715921080317739409378533207482529232480825886710782578439436631);
    lemma_pm_double(7, 1387966059107679345470899603097885920202898915519889355nat, m);
    assert(pm(7, 2775932118215358690941799206195771840405797831039778710nat, m) == 52052614916732026438494395807962988545382734338042726186762901359303970799051);
    lemma_pm_double(7, 2775932118215358690941799206195771840405797831039778710nat, m);
    assert(pm(7, 5551864236430717381883598412391543680811595662079557420nat, m) == 19823399502619746605868563994070425400326683403041303256557025237744134099824);
    lemma_pm_succ(7, 5551864236430717381883598412391543680811595662079557420nat, m);
    assert(pm(7, 5551864236430717381883598412391543680811595662079557421nat, m) == 33892046168085845282184466942121046126905678820233847150691859264331776329742);
    lemma_pm_double(7, 5551864236430717381883598412391543680811595662079557421nat, m);
    assert(pm(7, 11103728472861434763767196824783087361623191324159114842nat, m) == 45039186462786825561834924443343358291533764090213572464787944721982944432288);
    lemma_pm_succ(7, 11103728472861434763767196824783087361623191324159114842nat, m);
    assert(pm(7, 11103728472861434763767196824783087361623191324159114843nat, m) == 659054188750636056158028054287713014593033628329180317893660854249123918938);
    lemma_pm_double(7, 11103728472861434763767196824783087361623191324159114843nat, m);
    assert(pm(7, 22207456945722869527534393649566174723246382648318229686nat, m) == 14359608010303302295786847270144701923625255595907165280345197277396695966146);
    lemma_pm_succ(7, 22207456945722869527534393649566174723246382648318229686nat, m);
    assert(pm(7, 22207456945722869527534393649566174723246382648318229687nat, m) == 48081380896996925591060190382826947627686236670822519139812722241838290578509);
    lemma_pm_double(7, 22207456945722869527534393649566174723246382648318229687nat, m);
    assert(pm(7, 44414913891445739055068787299132349446492765296636459374nat, m) == 48281052171371520141383216329938524162418081916935050297062549965126822783543);
    lemma_pm_succ(7, 44414913891445739055068787299132349446492765296636459374nat, m);
    assert(pm(7, 44414913891445739055068787299132349446492765296636459375nat, m) == 23352114148843498112996071260453874110783258415379525143815897556256272377723);
    lemma_pm_double(7, 44414913891445739055068787299132349446492765296636459375nat, m);
    assert(pm(7, 88829827782891478110137574598264698892985530593272918750nat, m) == 33733592594092484511668197009597142421327284256787938011692272392762272010253);
    lemma_pm_succ(7, 88829827782891478110137574598264698892985530593272918750nat, m);
    assert(pm(7, 88829827782891478110137574598264698892985530593272918751nat, m) == 26391647458142629663886417034436133598528779795405014791431271949581579333719);
    lemma_pm_double(7, 88829827782891478110137574598264698892985530593272918751nat, m);
    assert(pm(7, 177659655565782956220275149196529397785971061186545837502nat, m) == 39670626638136823527445988762459582570613273158904273448435835681644544088808);
    lemma_pm_succ(7, 177659655565782956220275149196529397785971061186545837502nat, m);
    assert(pm(7, 177659655565782956220275149196529397785971061186545837503nat, m) == 15515010591326812294883218796287248805840149609691725026032556271818902699091);
    lemma_pm_double(7, 177659655565782956220275149196529397785971061186545837503nat, m);
    assert(pm(7, 355319311131565912440550298393058795571942122373091675006nat, m) == 27300950864775431796075759769615579784403142471945920024955963765253779702280);
    lemma_pm_succ(7, 355319311131565912440550298393058795571942122373091675006nat, m);
    assert(pm(7, 355319311131565912440550298393058795571942122373091675007nat, m) == 33799030528049451134187096862751160977750339802038526706880770256960714362421);
    lemma_pm_double(7, 355319311131565912440550298393058795571942122373091675007nat, m);
    assert(pm(7, 710638622263131824881100596786117591143884244746183350014nat, m) == 39082368008734884005932644695885246669140012649899382712188569858532554295787);
    lemma_pm_succ(7, 710638622263131824881100596786117591143884244746183350014nat, m);
    assert(pm(7, 710638622263131824881100596786117591143884244746183350015nat, m) == 11397200185513235644289810330266897495527326046657489872301695510034974147944);
    lemma_pm_double(7, 710638622263131824881100596786117591143884244746183350015nat, m);
    assert(pm(7, 1421277244526263649762201193572235182287768489492366700030nat, m) == 8222928891071223573713975022275110609390865728325467503580219630708658567528);
    lemma_pm_succ(7, 1421277244526263649762201193572235182287768489492366700030nat, m);
    assert(pm(7, 1421277244526263649762201193572235182287768489492366700031nat, m) == 5124627062372374536550084647739808428045507597750634702457878715022028788183);
    lemma_pm_double(7, 1421277244526263649762201193572235182287768489492366700031nat, m);
    assert(pm(7, 2842554489052527299524402387144470364575536978984733400062nat, m) == 8972182163159280585710768820689105444765793574402337251583361137192289601116);
    lemma_pm_double(7, 2842554489052527299524402387144470364575536978984733400062nat, m);
    assert(pm(7, 5685108978105054599048804774288940729151073957969466800124nat, m) == 31439532351775268475694280875158953298220407220924223056792829858797815259578);
    lemma_pm_succ(7, 5685108978105054599048804774288940729151073957969466800124nat, m);
    assert(pm(7, 5685108978105054599048804774288940729151073957969466800125nat, m) == 10333225761922117412069004093368809736780640544359010107135174211830382078994);
    lemma_pm_double(7, 5685108978105054599048804774288940729151073957969466800125nat, m);
    assert(pm(7, 11370217956210109198097609548577881458302147915938933600250nat, m) == 35494044001505738032480271067530524059517827749788912539455006355067027637165);
    lemma_pm_succ(7, 11370217956210109198097609548577881458302147915938933600250nat, m);
    assert(pm(7, 11370217956210109198097609548577881458302147915938933600251nat, m) == 38714807310035404309570935439969805065862584246411836485770409685714868722103);
    lemma_pm_double(7, 11370217956210109198097609548577881458302147915938933600251nat, m);
    assert(pm(7, 22740435912420218396195219097155762916604295831877867200502nat, m) == 6577666142376612206673896334617788682001633565492996168200254439690836070062);
    lemma_pm_succ(7, 22740435912420218396195219097155762916604295831877867200502nat, m);
    assert(pm(7, 22740435912420218396195219097155762916604295831877867200503nat, m) == 46043662996636285446717274342324520774011434958450973177401781077835852490434);
    lemma_pm_double(7, 22740435912420218396195219097155762916604295831877867200503nat, m);
    assert(pm(7, 45480871824840436792390438194311525833208591663755734401006nat, m) == 42535768273379643989464996081079191951757013512518849520256547066047367028034);
    lemma_pm_succ(7, 45480871824840436792390438194311525833208591663755734401006nat, m);
    assert(pm(7, 45480871824840436792390438194311525833208591663755734401007nat, m) == 35571002038026555529016270026624514473846332084993757528777535962638663273673);
    lemma_pm_double(7, 45480871824840436792390438194311525833208591663755734401007nat, m);
    assert(pm(7, 90961743649680873584780876388623051666417183327511468802014nat, m) == 47541844777404279330439408516291363607018268711639832225451615216889518826956);
    lemma_pm_succ(7, 90961743649680873584780876388623051666417183327511468802014nat, m);
    assert(pm(7, 90961743649680873584780876388623051666417183327511468802015nat, m) == 18177662391072812436389416564923750222984565978312998642539354318595144681614);
    lemma_pm_double(7, 90961743649680873584780876388623051666417183327511468802015nat, m);
    assert(pm(7, 181923487299361747169561752777246103332834366655022937604030nat, m) == 51519111562802309917699829511685663850852431677067703431429873771572581158326);
    lemma_pm_succ(7, 181923487299361747169561752777246103332834366655022937604030nat, m);
    assert(pm(7, 181923487299361747169561752777246103332834366655022937604031nat, m) == 46018529888859026547212363532683851929823706736308097084387164201376581001204);
    lemma_pm_double(7, 181923487299361747169561752777246103332834366655022937604031nat, m);
    assert(pm(7, 363846974598723494339123505554492206665668733310045875208062nat, m) == 36248789635547622428855621676682651620678833054962448317492830860386040131117);
    lemma_pm_succ(7, 363846974598723494339123505554492206665668733310045875208062nat, m);
    assert(pm(7, 363846974598723494339123505554492206665668733310045875208063nat, m) == 43998026748328595084198389704034697993989621382626586932035181222947956179767);
    lemma_pm_double(7, 363846974598723494339123505554492206665668733310045875208063nat, m);
    assert(pm(7, 727693949197446988678247011108984413331337466620091750416126nat, m) == 46636081242024987909137116365761114677253861176128168488267903446483931985840);
    lemma_pm_succ(7, 727693949197446988678247011108984413331337466620091750416126nat, m);
    assert(pm(7, 727693949197446988678247011108984413331337466620091750416127nat, m) == 11837317643417772487273371511212007714633713229731352482253371925756036793802);
    lemma_pm_double(7, 727693949197446988678247011108984413331337466620091750416127nat, m);
    assert(pm(7, 1455387898394893977356494022217968826662674933240183500832254nat, m) == 1747369593967276967547340760426437633703056727623805286568089131435205743851);
    lemma_pm_succ(7, 1455387898394893977356494022217968826662674933240183500832254nat, m);
    assert(pm(7, 1455387898394893977356494022217968826662674933240183500832255nat, m) == 12231587157770938772831385322985063435921397093366637005976623920046440206957);
    lemma_pm_double(7, 1455387898394893977356494022217968826662674933240183500832255nat, m);
    assert(pm(7, 2910775796789787954712988044435937653325349866480367001664510nat, m) == 28953294774764368357091576963196227085916657366209896023681833785685805563987);
    lemma_pm_succ(7, 2910775796789787954712988044435937653325349866480367001664510nat, m);
    assert(pm(7, 2910775796789787954712988044435937653325349866480367001664511nat, m) == 45365437897972007061297817217815692088344944061886358697961860399984895394370);
    lemma_pm_double(7, 2910775796789787954712988044435937653325349866480367001664511nat, m);
    assert(pm(7, 5821551593579575909425976088871875306650699732960734003329022nat, m) == 14312495485901455891974586921565733325054045932926635485368376709231589529842);
    lemma_pm_succ(7, 5821551593579575909425976088871875306650699732960734003329022nat, m);
    assert(pm(7, 5821551593579575909425976088871875306650699732960734003329023nat, m) == 47751593226184000764374367942774167437687769029958810574974978264682545524381);
    lemma_pm_double(7, 5821551593579575909425976088871875306650699732960734003329023nat, m);
    assert(pm(7, 11643103187159151818851952177743750613301399465921468006658046nat, m) == 14063113703478265420392876697590598625108797560470741944038672682583973116745);
    lemma_pm_succ(7, 11643103187159151818851952177743750613301399465921468006658046nat, m);
    assert(pm(7, 11643103187159151818851952177743750613301399465921468006658047nat, m) == 46005920749221667463302396374948224538071030422767555785667050078149230632702);
    lemma_pm_double(7, 11643103187159151818851952177743750613301399465921468006658047nat, m);
    assert(pm(7, 23286206374318303637703904355487501226602798931842936013316094nat, m) == 50317714887695889100383619359639290540804824775643898010080919758742390995011);
    lemma_pm_succ(7, 23286206374318303637703904355487501226602798931842936013316094nat, m);
    assert(pm(7, 23286206374318303637703904355487501226602798931842936013316095nat, m) == 37608753163114080825998892468359238759490458426341459134944486111565249857999);
    lemma_pm_double(7, 23286206374318303637703904355487501226602798931842936013316095nat, m);
    assert(pm(7, 46572412748636607275407808710975002453205597863685872026632190nat, m) == 39568847695686737179374285202880283363582318129080028440466490868447945302078);
    lemma_pm_succ(7, 46572412748636607275407808710975002453205597863685872026632190nat, m);
    assert(pm(7, 46572412748636607275407808710975002453205597863685872026632191nat, m) == 14802557994176207858381293879232154356623464400922009970247142579442711191981);
    lemma_pm_double(7, 46572412748636607275407808710975002453205597863685872026632191nat, m);
    assert(pm(7, 93144825497273214550815617421950004906411195727371744053264382nat, m) == 16541417876173846789230052339609641835804024384418130342797201181361958525641);
    lemma_pm_succ(7, 93144825497273214550815617421950004906411195727371744053264382nat, m);
    assert(pm(7, 93144825497273214550815617421950004906411195727371744053264383nat, m) == 10918174782964546565714885360895561175247065689871636754373090869656547310461);
    lemma_pm_double(7, 93144825497273214550815617421950004906411195727371744053264383nat, m);
    assert(pm(7, 186289650994546429101631234843900009812822391454743488106528766nat, m) == 27513117922689639128081719325075889237389045126916563876547289986178347785239);
    lemma_pm_succ(7, 186289650994546429101631234843900009812822391454743488106528766nat, m);
    assert(pm(7, 186289650994546429101631234843900009812822391454743488106528767nat, m) == 35284199933448902458228813750973327148651658386833033668020053803432690943134);
    lemma_pm_double(7, 186289650994546429101631234843900009812822391454743488106528767nat, m);
    assert(pm(7, 372579301989092858203262469687800019625644782909486976213057534nat, m) == 228206509770762389808303795740617894533927812151776688724073411602769245175);
    lemma_pm_succ(7, 372579301989092858203262469687800019625644782909486976213057534nat, m);
    assert(pm(7, 372579301989092858203262469687800019625644782909486976213057535nat, m) == 1597445568395336728658126570184325261737494685062436821068513881219384716225);
    lemma_pm_double(7, 372579301989092858203262469687800019625644782909486976213057535nat, m);
    assert(pm(7, 745158603978185716406524939375600039251289565818973952426115070nat, m) == 18142346786822998121820660742160418292628090759383240660814289898681646615845);
    lemma_pm_succ(7, 745158603978185716406524939375600039251289565818973952426115070nat, m);
    assert(pm(7, 745158603978185716406524939375600039251289565818973952426115071nat, m) == 22124677157508605893849144178750996373015530314627408980492711890894363941889);
    lemma_pm_double(7, 745158603978185716406524939375600039251289565818973952426115071nat, m);
    assert(pm(7, 1490317207956371432813049878751200078502579131637947904852230142nat, m) == 17520080909130592145673134122315586641249207331879172287406969927706438677107);
    lemma_pm_succ(7, 1490317207956371432813049878751200078502579131637947904852230142nat, m);
    assert(pm(7, 1490317207956371432813049878751200078502579131637947904852230143nat, m) == 17768816013661764060816457839837174813363346322098930366641472094067908370723);
    lemma_pm_double(7, 1490317207956371432813049878751200078502579131637947904852230143nat, m);
    assert(pm(7, 2980634415912742865626099757502400157005158263275895809704460286nat, m) == 6837333869599069541195409084982753956366771212175492793642815045050495594166);
    lemma_pm_succ(7, 2980634415912742865626099757502400157005158263275895809704460286nat, m);
    assert(pm(7, 2980634415912742865626099757502400157005158263275895809704460287nat, m) == 47861337087193486788367863594879277694567398485228449555499705315353469159162);
    lemma_pm_double(7, 2980634415912742865626099757502400157005158263275895809704460287nat, m);
    assert(pm(7, 5961268831825485731252199515004800314010316526551791619408920574nat, m) == 46291347778228694998833289473972545406886161081458276530089830075681886948777);
    lemma_pm_succ(7, 5961268831825485731252199515004800314010316526551791619408920574nat, m);
    assert(pm(7, 5961268831825485731252199515004800314010316526551791619408920575nat, m) == 9424183396843722115146583268692022822059812567042108775006858330141721534361);
    lemma_pm_double(7, 5961268831825485731252199515004800314010316526551791619408920575nat, m);
    assert(pm(7, 11922537663650971462504399030009600628020633053103583238817841150nat, m) == 870503827218617649541693549011690625863033809130266674245282505028135610877);
    lemma_pm_succ(7, 11922537663650971462504399030009600628020633053103583238817841150nat, m);
    assert(pm(7, 11922537663650971462504399030009600628020633053103583238817841151nat, m) == 6093526790530323546791854843081834381041236663911866719716977535196949276139);
    lemma_pm_double(7, 11922537663650971462504399030009600628020633053103583238817841151nat, m);
    assert(pm(7, 23845075327301942925008798060019201256041266106207166477635682302nat, m) == 25848911303881951951677881188029307098159954043774117964752361577744633976914);
    lemma_pm_succ(7, 23845075327301942925008798060019201256041266106207166477635682302nat, m);
    assert(pm(7, 23845075327301942925008798060019201256041266106207166477635682303nat, m) == 23634753601795092223401946791647252174048020804835912285455554944396694284859);
    lemma_pm_double(7, 23845075327301942925008798060019201256041266106207166477635682303nat, m);
    assert(pm(7, 47690150654603885850017596120038402512082532212414332955271364606nat, m) == 4892312525062925271332523429951473651981145989794872166450322267833446768368);
    lemma_pm_succ(7, 47690150654603885850017596120038402512082532212414332955271364606nat, m);
    assert(pm(7, 47690150654603885850017596120038402512082532212414332955271364607nat, m) == 34246187675440476899327664009660315563868021928564105165152255874834127378576);
    lemma_pm_double(7, 47690150654603885850017596120038402512082532212414332955271364607nat, m);
    assert(pm(7, 95380301309207771700035192240076805024165064424828665910542729214nat, m) == 20457195189218295919683210537181101565213747147823698989327195982867675883584);
    lemma_pm_succ(7, 95380301309207771700035192240076805024165064424828665910542729214nat, m);
    assert(pm(7, 95380301309207771700035192240076805024165064424828665910542729215nat, m) == 38328615974275690478886992743895779281115125033710617280083054480196568816062);
    lemma_pm_double(7, 95380301309207771700035192240076805024165064424828665910542729215nat, m);
    assert(pm(7, 190760602618415543400070384480153610048330128849657331821085458430nat, m) == 22399288878259638563369987818042920926231162348968577636097231767689351674377);
    lemma_pm_succ(7, 190760602618415543400070384480153610048330128849657331821085458430nat, m);
    assert(pm(7, 190760602618415543400070384480153610048330128849657331821085458431nat, m) == 51923271797565088984694433709928514808237031441724767807473304973948299351613);
    lemma_pm_double(7, 190760602618415543400070384480153610048330128849657331821085458431nat, m);
    assert(pm(7, 381521205236831086800140768960307220096660257699314663642170916862nat, m) == 32752081923490917387444166696322430890177575812123800757841434761179438050829);
    lemma_pm_succ(7, 381521205236831086800140768960307220096660257699314663642170916862nat, m);
    assert(pm(7, 381521205236831086800140768960307220096660257699314663642170916863nat, m) == 19521072763931659794318204841513152880480820682756054014475408528501741617751);
    lemma_pm_double(7, 381521205236831086800140768960307220096660257699314663642170916863nat, m);
    assert(pm(7, 763042410473662173600281537920614440193320515398629327284341833726nat, m) == 18750642115844045195617460394351033617664650310479722098241162136921345343731);
    lemma_pm_succ(7, 763042410473662173600281537920614440193320515398629327284341833726nat, m);
    assert(pm(7, 763042410473662173600281537920614440193320515398629327284341833727nat, m) == 26382744460655935410426741744085303648271447172302779042480817558572255037091);
    lemma_pm_double(7, 763042410473662173600281537920614440193320515398629327284341833727nat, m);
    assert(pm(7, 1526084820947324347200563075841228880386641030797258654568683667454nat, m) == 8389262214751489982054928546103374360267984954198158597582388691553883182625);
    lemma_pm_succ(7, 1526084820947324347200563075841228880386641030797258654568683667454nat, m);
    assert(pm(7, 1526084820947324347200563075841228880386641030797258654568683667455nat, m) == 6288960328134239394936759314537654684185342178859472360473062140938601093862);
    lemma_pm_double(7, 1526084820947324347200563075841228880386641030797258654568683667455nat, m);
    assert(pm(7, 3052169641894648694401126151682457760773282061594517309137367334910nat, m) == 665989970644916338371915622109689019555622705434238262625332351243323324032);
    lemma_pm_succ(7, 3052169641894648694401126151682457760773282061594517309137367334910nat, m);
    assert(pm(7, 3052169641894648694401126151682457760773282061594517309137367334911nat, m) == 4661929794514414368603409354767823136889358938039667838377326458703263268224);
    lemma_pm_double(7, 3052169641894648694401126151682457760773282061594517309137367334911nat, m);
    assert(pm(7, 6104339283789297388802252303364915521546564123189034618274734669822nat, m) == 50568181350999548820779594299814022868006413903614787618168039700263121585327);
    lemma_pm_succ(7, 6104339283789297388802252303364915521546564123189034618274734669822nat, m);
    assert(pm(7, 6104339283789297388802252303364915521546564123189034618274734669823nat, m) == 39362018406239698868770717049582365049901582322137686391554325702210363990211);
    lemma_pm_double(7, 6104339283789297388802252303364915521546564123189034618274734669823nat, m);
    assert(pm(7, 12208678567578594777604504606729831043093128246378069236549469339646nat, m) == 31425961151177751105920284658370442201903010026056432690229163279963658678169);
    lemma_pm_succ(7, 12208678567578594777604504606729831043093128246378069236549469339646nat, m);
    assert(pm(7, 12208678567578594777604504606729831043093128246378069236549469339647nat, m) == 10238227357739495823651030575849232062558860180284477541189508159991286009131);
    lemma_pm_double(7, 12208678567578594777604504606729831043093128246378069236549469339647nat, m);
    assert(pm(7, 24417357135157189555209009213459662086186256492756138473098938679294nat, m) == 34070893824967080313820779135880760772780807222436853681508667398599787661631);
    lemma_pm_double(7, 24417357135157189555209009213459662086186256492756138473098938679294nat, m);
    assert(pm(7, 48834714270314379110418018426919324172372512985512276946197877358588nat, m) == 20094891866007995289136270587723853997043774683345353712639419774914899074390);
    lemma_pm_double(7, 48834714270314379110418018426919324172372512985512276946197877358588nat, m);
    assert(pm(7, 97669428540628758220836036853838648344745025971024553892395754717176nat, m) == 5660829372603820951332104046316074966592589311213397907344198301300676239643);
    lemma_pm_double(7, 97669428540628758220836036853838648344745025971024553892395754717176nat, m);
    assert(pm(7, 195338857081257516441672073707677296689490051942049107784791509434352nat, m) == 37480612446576615530266821837655054090426372233228960378061628060638903214217);
    lemma_pm_double(7, 195338857081257516441672073707677296689490051942049107784791509434352nat, m);
    assert(pm(7, 390677714162515032883344147415354593378980103884098215569583018868704nat, m) == 15932505959375582308231798849995567447410469395474322018100309999481287547373);
    lemma_pm_double(7, 390677714162515032883344147415354593378980103884098215569583018868704nat, m);
    assert(pm(7, 781355428325030065766688294830709186757960207768196431139166037737408nat, m) == 4541622677469846713471916119560591929733417256448031920623614406126544048514);
    lemma_pm_double(7, 781355428325030065766688294830709186757960207768196431139166037737408nat, m);
    assert(pm(7, 1562710856650060131533376589661418373515920415536392862278332075474816nat, m) == 734830308204920577628633053915970695663549910788964686411700880930222744862);
    lemma_pm_double(7, 1562710856650060131533376589661418373515920415536392862278332075474816nat, m);
    assert(pm(7, 3125421713300120263066753179322836747031840831072785724556664150949632nat, m) == 18596002123094854211120822350746157678791770803088570110573239418060655130524);
    lemma_pm_double(7, 3125421713300120263066753179322836747031840831072785724556664150949632nat, m);
    assert(pm(7, 6250843426600240526133506358645673494063681662145571449113328301899264nat, m) == 52167942466760591552294394977846462646742207006759917080697723404762651336366);
    lemma_pm_double(7, 6250843426600240526133506358645673494063681662145571449113328301899264nat, m);
    assert(pm(7, 12501686853200481052267012717291346988127363324291142898226656603798528nat, m) == 4859563557044021881916617240989566298388494151979623102977292742331120628579);
    lemma_pm_double(7, 12501686853200481052267012717291346988127363324291142898226656603798528nat, m);
    assert(pm(7, 25003373706400962104534025434582693976254726648582285796453313207597056nat, m) == 32468834368094611004052562760214251466632493208153926274007662173556188291130);
    lemma_pm_double(7, 25003373706400962104534025434582693976254726648582285796453313207597056nat, m);
    assert(pm(7, 50006747412801924209068050869165387952509453297164571592906626415194112nat, m) == 1755840822790712607783180844474754741366353396308200820563736496551326485835);
    lemma_pm_double(7, 50006747412801924209068050869165387952509453297164571592906626415194112nat, m);
    assert(pm(7, 100013494825603848418136101738330775905018906594329143185813252830388224nat, m) == 37115000097562964541269718788523040559386243094666416358585267518228781043101);
    lemma_pm_double(7, 100013494825603848418136101738330775905018906594329143185813252830388224nat, m);
    assert(pm(7, 200026989651207696836272203476661551810037813188658286371626505660776448nat, m) == 20439484849038267462774237595151440867617792718791690563928621375157525968123);
    lemma_pm_double(7, 200026989651207696836272203476661551810037813188658286371626505660776448nat, m);
    assert(pm(7, 400053979302415393672544406953323103620075626377316572743253011321552896nat, m) == 15495926509001846844474268026226183818445427694968626800913907911890390421264);
    lemma_pm_double(7, 400053979302415393672544406953323103620075626377316572743253011321552896nat, m);
    assert(pm(7, 800107958604830787345088813906646207240151252754633145486506022643105792nat, m) == 15076889834420168339092859836519192632846122361203618639585008852351569017005);
    lemma_pm_double(7, 800107958604830787345088813906646207240151252754633145486506022643105792nat, m);
    assert(pm(7, 1600215917209661574690177627813292414480302505509266290973012045286211584nat, m) == 22872204467218851938836547481240843888453165451755431061227190987689039608686);
    lemma_pm_double(7, 1600215917209661574690177627813292414480302505509266290973012045286211584nat, m);
    assert(pm(7, 3200431834419323149380355255626584828960605011018532581946024090572423168nat, m) == 39072540533732477250409069030641316533649120504872707460480262653418090977761);
    lemma_pm_double(7, 3200431834419323149380355255626584828960605011018532581946024090572423168nat, m);
    assert(pm(7, 6400863668838646298760710511253169657921210022037065163892048181144846336nat, m) == 32731401973776920074999878620293785439674386180695720638377027142500196583783);
    lemma_pm_double(7, 6400863668838646298760710511253169657921210022037065163892048181144846336nat, m);
    assert(pm(7, 12801727337677292597521421022506339315842420044074130327784096362289692672nat, m) == 39033254847818212395286706435128746857159659164139250548781411570340225835782);
    lemma_pm_double(7, 12801727337677292597521421022506339315842420044074130327784096362289692672nat, m);
    assert(pm(7, 25603454675354585195042842045012678631684840088148260655568192724579385344nat, m) == 49307615728544765012166121802278658070711169839041683575071795236746050763237);
    lemma_pm_double(7, 25603454675354585195042842045012678631684840088148260655568192724579385344nat, m);
    assert(pm(7, 51206909350709170390085684090025357263369680176296521311136385449158770688nat, m) == 22781213702924172180523978385542388841346373992886390990881355510284839737428);
    lemma_pm_double(7, 51206909350709170390085684090025357263369680176296521311136385449158770688nat, m);
    assert(pm(7, 102413818701418340780171368180050714526739360352593042622272770898317541376nat, m) == 4214636447306890335450803789410475782380792963881561516561680164772024173390);
    lemma_pm_double(7, 102413818701418340780171368180050714526739360352593042622272770898317541376nat, m);
    assert(pm(7, 204827637402836681560342736360101429053478720705186085244545541796635082752nat, m) == 36007022166693598376559747923784822035233416720563672082740011604939309541707);
    lemma_pm_double(7, 204827637402836681560342736360101429053478720705186085244545541796635082752nat, m);
    assert(pm(7, 409655274805673363120685472720202858106957441410372170489091083593270165504nat, m) == 47309214877430199588914062438791732591241783999377560080318349803002842391998);
    lemma_pm_double(7, 409655274805673363120685472720202858106957441410372170489091083593270165504nat, m);
    assert(pm(7, 819310549611346726241370945440405716213914882820744340978182167186540331008nat, m) == 31519469946562159605140591558550197856588417350474800936898404023113662197331);
    lemma_pm_double(7, 819310549611346726241370945440405716213914882820744340978182167186540331008nat, m);
    assert(pm(7, 1638621099222693452482741890880811432427829765641488681956364334373080662016nat, m) == 36581797046584068049060372878520385032448812009597153775348195406694427778894);
    lemma_pm_double(7, 1638621099222693452482741890880811432427829765641488681956364334373080662016nat, m);
    assert(pm(7, 3277242198445386904965483781761622864855659531282977363912728668746161324032nat, m) == 14788168760825820622209131888203028446852016562542525606630160374691593895118);
    lemma_pm_double(7, 3277242198445386904965483781761622864855659531282977363912728668746161324032nat, m);
    assert(pm(7, 6554484396890773809930967563523245729711319062565954727825457337492322648064nat, m) == 23674694431658770659612952115660802947967373701506253797663184111817857449850);
    lemma_pm_double(7, 6554484396890773809930967563523245729711319062565954727825457337492322648064nat, m);
    assert(pm(7, 13108968793781547619861935127046491459422638125131909455650914674984645296128nat, m) == 3465144826073652318776269530687742778270252468765361963008);
    lemma_pm_double(7, 13108968793781547619861935127046491459422638125131909455650914674984645296128nat, m);
    assert(pm(7, 26217937587563095239723870254092982918845276250263818911301829349969290592256nat, m) == 52435875175126190479447740508185965837690552500527637822603658699938581184512);
    lemma_pm_double(7, 26217937587563095239723870254092982918845276250263818911301829349969290592256nat, m);
    assert(pm(7, 52435875175126190479447740508185965837690552500527637822603658699938581184512nat, m) == 1);
}

/// `7^26217937587563095239723870254092982918845276250263818911301829349969290592256 mod 52435875175126190479447740508185965837690552500527637822603658699938581184513`.
proof fn lemma_pow_52435875175126190479447740508185965837690552500527637822603658699938581184513_by_2()
    ensures
        pm(7, 26217937587563095239723870254092982918845276250263818911301829349969290592256nat, fr_modulus() as int) == 52435875175126190479447740508185965837690552500527637822603658699938581184512,
{
    let m: int = fr_modulus() as int;
    lemma_pm_one(7, m);
    lemma_pm_double(7, 1nat, m);
    assert(pm(7, 2nat, m) == 49);
    lemma_pm_succ(7, 2nat, m);
    assert(pm(7, 3nat, m) == 343);
    lemma_pm_double(7, 3nat, m);
    assert(pm(7, 6nat, m) == 117649);
    lemma_pm_succ(7, 6nat, m);
    assert(pm(7, 7nat, m) == 823543);
    lemma_pm_double(7, 7nat, m);
    assert(pm(7, 14nat, m) == 678223072849);
    lemma_pm_double(7, 14nat, m);
    assert(pm(7, 28nat, m) == 459986536544739960976801);
    lemma_pm_double(7, 28nat, m);
    assert(pm(7, 56nat, m) == 211587613802425391637729361787678676290060193601);
    lemma_pm_succ(7, 56nat, m);
    assert(pm(7, 57nat, m) == 1481113296616977741464105532513750734030421355207);
    lemma_pm_double(7, 57nat, m);
    assert(pm(7, 114nat, m) == 44713190787204262720740799792212998084068831978051453682388207323031584026412);
    lemma_pm_succ(7, 114nat, m);
    assert(pm(7, 115nat, m) == 50812959634798886647946896004561157400029061343721986663699157761528182262319);
    lemma_pm_double(7, 115nat, m);
    assert(pm(7, 230nat, m) == 36113784790954343303154012399942344496633298260674240394473227770720473104866);
    lemma_pm_succ(7, 230nat, m);
    assert(pm(7, 231nat, m) == 43052992836175641204287124766852548125670877822609131470897959595288986996010);
    lemma_pm_double(7, 231nat, m);
    assert(pm(7, 462nat, m) == 51582253561379468081810542819550822753585510290803939479159552681176774754079);
    lemma_pm_succ(7, 462nat, m);
    assert(pm(7, 463nat, m) == 46460523878899133695987356687739964248955257032461749418494916568605936171475);
    lemma_pm_double(7, 463nat, m);
    assert(pm(7, 926nat, m) == 25339820400101167054695932569943362529319649104193292942383373074582102222972);
    lemma_pm_succ(7, 926nat, m);
    assert(pm(7, 927nat, m) == 20071117275329597944528306465045640192165886227770137128872635422258972007265);
    lemma_pm_double(7, 927nat, m);
    assert(pm(7, 1854nat, m) == 46310834301184855689776880926486663263207947624631662199286124021737585626228);
    lemma_pm_double(7, 1854nat, m);
    assert(pm(7, 3708nat, m) == 46401789713416593632851401385468824381389656236746698877487792706717381792277);
    lemma_pm_succ(7, 3708nat, m);
    assert(pm(7, 3709nat, m) == 10197276943159012553273366649165975643584278654061065206792596747390185438861);
    lemma_pm_double(7, 3709nat, m);
    assert(pm(7, 7418nat, m) == 39372973387941567426663330441454127242454587728413418641973386714441241373172);
    lemma_pm_succ(7, 7418nat, m);
    assert(pm(7, 7419nat, m) == 13431437839960019589404610549249061508729351596255741380795413501395783689639);
    lemma_pm_double(7, 7419nat, m);
    assert(pm(7, 14838nat, m) == 37891154123899018532623533129818841122258047686394048270712783308439375410392);
    lemma_pm_double(7, 14838nat, m);
    assert(pm(7, 29676nat, m) == 24522208671192006471625186509108288179016017618985007283418064773746227203083);
    lemma_pm_succ(7, 29676nat, m);
    assert(pm(7, 29677nat, m) == 14347835172965473863033084039200119740040465831312137516115477316407846868042);
    lemma_pm_double(7, 29677nat, m);
    assert(pm(7, 59354nat, m) == 40680212451408245944033154192387327292049899635685646262345340540839577760327);
    lemma_pm_succ(7, 59354nat, m);
    assert(pm(7, 59355nat, m) == 22582111284226769210993376805781461855896534947161334723399090286184138399724);
    lemma_pm_double(7, 59355nat, m);
    assert(pm(7, 118710nat, m) == 22816540351633602738192130541066621712366663107624345430205656830477168492618);
    lemma_pm_double(7, 118710nat, m);
    assert(pm(7, 237420nat, m) == 48517998814984932252052631119779112868269049494832743230232350566230856660499);
    lemma_pm_succ(7, 237420nat, m);
    assert(pm(7, 237421nat, m) == 25010740654137382887681974789337995051740031460663375676004501763984509516415);
    lemma_pm_double(7, 237421nat, m);
    assert(pm(7, 474842nat, m) == 31535378746210068166376978443802018445901671804246729203715267642439510779338);
    lemma_pm_double(7, 474842nat, m);
    assert(pm(7, 949684nat, m) == 12333807453290692423819548880496570513589846300918924925346028745529403197987);
    lemma_pm_double(7, 949684nat, m);
    assert(pm(7, 1899368nat, m) == 28884137492089036126689147405333072181477983309146455155877190388387769221358);
    lemma_pm_succ(7, 1899368nat, m);
    assert(pm(7, 1899369nat, m) == 44881336919244681448480810312773607757274225662442272623329356618898640995967);
    lemma_pm_double(7, 1899369nat, m);
    assert(pm(7, 3798738nat, m) == 5814152804019988481502099140152987571512510120518563754195579119632869162091);
    lemma_pm_succ(7, 3798738nat, m);
    assert(pm(7, 3798739nat, m) == 40699069628139919370514693981070913000587570843629946279369053837430084134637);
    lemma_pm_double(7, 3798739nat, m);
    assert(pm(7, 7597478nat, m) == 44875964589920517951853016363825895062340634472827811795798107909180464790976);
    lemma_pm_succ(7, 7597478nat, m);
    assert(pm(7, 7597479nat, m) == 51952376253812673265732412005851436247931678807156493457568461864570347614267);
    lemma_pm_double(7, 7597479nat, m);
    assert(pm(7, 15194958nat, m) == 27709021390842213128629326074905577550131738051915234559593492240391079732111);
    lemma_pm_double(7, 15194958nat, m);
    assert(pm(7, 30389916nat, m) == 21809105456658325563968514752414379048147169760002183531309968580878519525463);
    lemma_pm_succ(7, 30389916nat, m);
    assert(pm(7, 30389917nat, m) == 47791987846355897988884122250528721661649083318960009073962462666272474309215);
    lemma_pm_double(7, 30389917nat, m);
    assert(pm(7, 60779834nat, m) == 26931571879365494740192310469584173294560702997338007338003900692018908369379);
    lemma_pm_double(7, 60779834nat, m);
    assert(pm(7, 121559668nat, m) == 25627865270210843094351880550324782783951761483906233594305954079903520066173);
    lemma_pm_succ(7, 121559668nat, m);
    assert(pm(7, 121559669nat, m) == 22087431366097330222119942327715581974590672885760721692330702459508896909672);
    lemma_pm_double(7, 121559669nat, m);
    assert(pm(7, 243119338nat, m) == 32900095547027742790147756438831676050035588852495931795248174319483974918012);
    lemma_pm_double(7, 243119338nat, m);
    assert(pm(7, 486238676nat, m) == 6338257377187619480922960761350821061868224835500540596173938196809178259424);
    lemma_pm_double(7, 486238676nat, m);
    assert(pm(7, 972477352nat, m) == 31835249365351503674905604172207458966289622089829464127871315301251119876059);
    lemma_pm_succ(7, 972477352nat, m);
    assert(pm(7, 972477353nat, m) == 13103244856955763806548267172708349413265144626695697604684572309003514394361);
    lemma_pm_double(7, 972477353nat, m);
    assert(pm(7, 1944954706nat, m) == 22833490621197706462216809926807625351744483703774113205044284032430135378416);
    lemma_pm_succ(7, 1944954706nat, m);
    assert(pm(7, 1944954707nat, m) == 2526808823005373797174447963095479949139728424835878967499012127195204095373);
    lemma_pm_double(7, 1944954707nat, m);
    assert(pm(7, 3889909414nat, m) == 33589990193086100029993441932406533457785957405795203383976668752525674407757);
    lemma_pm_double(7, 3889909414nat, m);
    assert(pm(7, 7779818828nat, m) == 10150605306331240441937819007687316038997203598771093090557901838603731746605);
    lemma_pm_double(7, 7779818828nat, m);
    assert(pm(7, 15559637656nat, m) == 11581989021704929634817565242473410715723619900278197743619289676863515992625);
    lemma_pm_succ(7, 15559637656nat, m);
    assert(pm(7, 15559637657nat, m) == 28638047976808316964275216189127909172374786801419746382731369038106030763862);
    lemma_pm_double(7, 15559637657nat, m);
    assert(pm(7, 31119275314nat, m) == 37100679812520719956698407783306023094283257414602917128225778234092011481356);
    lemma_pm_double(7, 31119275314nat, m);
    assert(pm(7, 62238550628nat, m) == 40295110376537264984204991367118223700583732482987556236369996296238700964182);
    lemma_pm_succ(7, 62238550628nat, m);
    assert(pm(7, 62238550629nat, m) == 19886396760129902492196237028897736715633364878274704541571680573978000826709);
    lemma_pm_double(7, 62238550629nat, m);
    assert(pm(7, 124477101258nat, m) == 50297304383077481868165198493211079897914074961879868443490505621345974652915);
    lemma_pm_double(7, 124477101258nat, m);
    assert(pm(7, 248954202516nat, m) == 24847965371090380337960874254127657045387767484021582603484925518107218967402);
    lemma_pm_double(7, 248954202516nat, m);
    assert(pm(7, 497908405032nat, m) == 33551561035780591262777674121839654341398740623649276211197554933028535833846);
    lemma_pm_succ(7, 497908405032nat, m);
    assert(pm(7, 497908405033nat, m) == 25117426549959376921652756820133717039028974363434382187968249731445426098870);
    lemma_pm_double(7, 497908405033nat, m);
    assert(pm(7, 995816810066nat, m) == 31437344091899782037198669572330529331007185280605800617130008853810341311820);
    lemma_pm_succ(7, 995816810066nat, m);
    assert(pm(7, 995816810067nat, m) == 10317907942793712342599724973569841966288086962130053029495427176918064444688);
    lemma_pm_double(7, 995816810067nat, m);
    assert(pm(7, 1991633620134nat, m) == 29925677593997698923132654374637653498477698703767858753811036595634963234104);
    lemma_pm_double(7, 1991633620134nat, m);
    assert(pm(7, 3983267240268nat, m) == 30984642125362226158170552826376047725164738928651673846415123121306690841492);
    lemma_pm_double(7, 3983267240268nat, m);
    assert(pm(7, 7966534480536nat, m) == 23726291002985173991345921249558392634479421631053028167130167873780982661033);
    lemma_pm_succ(7, 7966534480536nat, m);
    assert(pm(7, 7966534480537nat, m) == 8776411495517646501078227222350850928284293915788283702100199016651135073692);
    lemma_pm_double(7, 7966534480537nat, m);
    assert(pm(7, 15933068961074nat, m) == 17315178463217758253225931001765323585710146804267283204479271177554559989714);
    lemma_pm_succ(7, 15933068961074nat, m);
    assert(pm(7, 15933068961075nat, m) == 16334498892271926813686035995985333424589922628815706786147580843004757558972);
    lemma_pm_double(7, 15933068961075nat, m);
    assert(pm(7, 31866137922150nat, m) == 2380309588817167485396489245359319238329701398889780710463303654564509178420);
    lemma_pm_succ(7, 31866137922150nat, m);
    assert(pm(7, 31866137922151nat, m) == 16662167121720172397775424717515234668307909792228464973243125581951564248940);
    lemma_pm_double(7, 31866137922151nat, m);
    assert(pm(7, 63732275844302nat, m) == 12789856499364335502767009450859331604700211572807240670940040426699461586095);
    lemma_pm_double(7, 63732275844302nat, m);
    assert(pm(7, 127464551688604nat, m) == 4914833714917671776936566307493143960022254268752328533692764738653480540736);
    lemma_pm_succ(7, 127464551688604nat, m);
    assert(pm(7, 127464551688605nat, m) == 34403836004423702438555964152452007720155779881266299735849353170574363785152);
    lemma_pm_double(7, 127464551688605nat, m);
    assert(pm(7, 254929103377210nat, m) == 3017821443302668513410711684817721249974028986540096669949570767226965458417);
    lemma_pm_double(7, 254929103377210nat, m);
    assert(pm(7, 509858206754420nat, m) == 46201662182461257091318253803710512987386495684569048339124536702831078444217);
    lemma_pm_succ(7, 509858206754420nat, m);
    assert(pm(7, 509858206754421nat, m) == 8796384226471656762541333576857795885562154788817511438249804720186062002441);
    lemma_pm_double(7, 509858206754421nat, m);
    assert(pm(7, 1019716413508842nat, m) == 27328233832150853343775106053450515715317253662427506208527454245514188990383);
    lemma_pm_succ(7, 1019716413508842nat, m);
    assert(pm(7, 1019716413508843nat, m) == 33990011299677401968082520849595712494149118135409629991881203618783579379142);
    lemma_pm_double(7, 1019716413508843nat, m);
    assert(pm(7, 2039432827017686nat, m) == 41953783850502062275380087696370247762395685930369957997373012296655209659913);
    lemma_pm_succ(7, 2039432827017686nat, m);
    assert(pm(7, 2039432827017687nat, m) == 31497111077883483530421911333661905148317039009951516868592792576893561696826);
    lemma_pm_double(7, 2039432827017687nat, m);
    assert(pm(7, 4078865654035374nat, m) == 38114153123001674012474138334852983855292907054951084961427547039361353447278);
    lemma_pm_succ(7, 4078865654035374nat, m);
    assert(pm(7, 4078865654035375nat, m) == 4619695985380765690080265803041057798597586882019405616974535775836568208381);
    lemma_pm_double(7, 4078865654035375nat, m);
    assert(pm(7, 8157731308070750nat, m) == 41391883585984179264867249016075272371703700611770513199247570000891209365007);
    lemma_pm_succ(7, 8157731308070750nat, m);
    assert(pm(7, 8157731308070751nat, m) == 27563809226258302456832040571597077413473141779755403281714696506545559632484);
    lemma_pm_double(7, 8157731308070751nat, m);
    assert(pm(7, 16315462616141502nat, m) == 44661102871155277717782349443448644733480483784987523149512827103810545135079);
    lemma_pm_double(7, 16315462616141502nat, m);
    assert(pm(7, 32630925232283004nat, m) == 35730956363075619991854464193788789967724077685335948795253899874002011291758);
    lemma_pm_succ(7, 32630925232283004nat, m);
    assert(pm(7, 32630925232283005nat, m) == 40373193841024578025190287323777666423306333795241090276362664318259754304254);
    lemma_pm_double(7, 32630925232283005nat, m);
    assert(pm(7, 65261850464566010nat, m) == 8793409015524651562977129810873344359790030995341499311913894491807768443663);
    lemma_pm_double(7, 65261850464566010nat, m);
    assert(pm(7, 130523700929132020nat, m) == 26287727043560202948393323263882283635476194759517919720437703215572282503910);
    lemma_pm_succ(7, 130523700929132020nat, m);
    assert(pm(7, 130523700929132021nat, m) == 26706463779542849200410041322618087935261705815042524575252946409190233973831);
    lemma_pm_double(7, 130523700929132021nat, m);
    assert(pm(7, 261047401858264042nat, m) == 20208610612304078104857579435534307978543889498570469963486099926410269801971);
    lemma_pm_double(7, 261047401858264042nat, m);
    assert(pm(7, 522094803716528084nat, m) == 22271208203811712892065603975171476400575243446436565825002129509164270574220);
    lemma_pm_double(7, 522094803716528084nat, m);
    assert(pm(7, 1044189607433056168nat, m) == 10910113048812923853118114585099356133888891633577982599523042133959742541450);
    lemma_pm_succ(7, 1044189607433056168nat, m);
    assert(pm(7, 1044189607433056169nat, m) == 23934916166564276492379061587509527099531688934518240374057636237779616605637);
    lemma_pm_double(7, 1044189607433056169nat, m);
    assert(pm(7, 2088379214866112338nat, m) == 16997562554633069491027547104628413592728860559060324608741804946701517626228);
    lemma_pm_double(7, 2088379214866112338nat, m);
    assert(pm(7, 4176758429732224676nat, m) == 10849406125948736573694375775135659237417726401501653842901790078275768873847);
    lemma_pm_double(7, 4176758429732224676nat, m);
    assert(pm(7, 8353516859464449352nat, m) == 565288174552152271382022056477377743536699998195153647960848897446522389495);
    lemma_pm_double(7, 8353516859464449352nat, m);
    assert(pm(7, 16707033718928898704nat, m) == 6954981720455459529914825488024541800088992844792280731759706829297719119123);
    lemma_pm_double(7, 16707033718928898704nat, m);
    assert(pm(7, 33414067437857797408nat, m) == 4657578438477497526011666404425691202604317455406874705372936749212068589018);
    lemma_pm_double(7, 33414067437857797408nat, m);
    assert(pm(7, 66828134875715594816nat, m) == 47082858439731893032708718751842899146381254763239088474754622466048427965504);
    lemma_pm_succ(7, 66828134875715594816nat, m);
    assert(pm(7, 66828134875715594817nat, m) == 14964758027366108352274588213784498998525468339507792387660405062707508651450);
    lemma_pm_double(7, 66828134875715594817nat, m);
    assert(pm(7, 133656269751431189634nat, m) == 10837365928720576678620747955478108940346449366926325625661013654392020189511);
    lemma_pm_succ(7, 133656269751431189634nat, m);
    assert(pm(7, 133656269751431189635nat, m) == 23425686325917846270897495180160796744734593067956641557023436880805560142064);
    lemma_pm_double(7, 133656269751431189635nat, m);
    assert(pm(7, 267312539502862379270nat, m) == 5053398502294102117630388466461251538804435003181271277742179693191615895625);
    lemma_pm_double(7, 267312539502862379270nat, m);
    assert(pm(7, 534625079005724758540nat, m) == 39943013088723629852982319558761706776467528578223889287145769839448371371264);
    lemma_pm_double(7, 534625079005724758540nat, m);
    assert(pm(7, 1069250158011449517080nat, m) == 25439403247363741581114838941010507220517164517700439205548944576961301465193);
    lemma_pm_succ(7, 1069250158011449517080nat, m);
    assert(pm(7, 1069250158011449517081nat, m) == 20768197206167619629460651062515653030548494122320160971031635938913366702812);
    lemma_pm_double(7, 1069250158011449517081nat, m);
    assert(pm(7, 2138500316022899034162nat, m) == 18491949051586856556136958946833175827571427498695599111384915433588515826340);
    lemma_pm_succ(7, 2138500316022899034162nat, m);
    assert(pm(7, 2138500316022899034163nat, m) == 24571893010855614934063231611460299117618887489813918134487090635242448415354);
    lemma_pm_double(7, 2138500316022899034163nat, m);
    assert(pm(7, 4277000632045798068326nat, m) == 1921065008112394845114692780022855649047464802324335048775994628093095345830);
    lemma_pm_double(7, 4277000632045798068326nat, m);
    assert(pm(7, 8554001264091596136652nat, m) == 20211043734294855002994916478447835319796151361574642952941447308393405313716);
    lemma_pm_double(7, 8554001264091596136652nat, m);
    assert(pm(7, 17108002528183192273304nat, m) == 3173348409247102928281037435514827979910676006033902278321652971179254887608);
    lemma_pm_succ(7, 17108002528183192273304nat, m);
    assert(pm(7, 17108002528183192273305nat, m) == 22213438864729720497967262048603795859374732042237315948251570798254784213256);
    lemma_pm_double(7, 17108002528183192273305nat, m);
    assert(pm(7, 34216005056366384546610nat, m) == 16549799555420816187972429183531473973354540578353948971163400876265448335147);
    lemma_pm_succ(7, 34216005056366384546610nat, m);
    assert(pm(7, 34216005056366384546611nat, m) == 10976846537693332356911523268348386138100679047422367152936488733980975977003);
    lemma_pm_double(7, 34216005056366384546611nat, m);
    assert(pm(7, 68432010112732769093222nat, m) == 50556480661247749824376180121333738400148445019774371746227669729450386675006);
    lemma_pm_succ(7, 68432010112732769093222nat, m);
    assert(pm(7, 68432010112732769093223nat, m) == 39280113577977105893946817800220373774895800135254775287971735906521219617964);
    lemma_pm_double(7, 68432010112732769093223nat, m);
    assert(pm(7, 136864020225465538186446nat, m) == 37167175286514574705811928457362264955584123510870705631336382075456213737660);
    lemma_pm_double(7, 136864020225465538186446nat, m);
    assert(pm(7, 273728040450931076372892nat, m) == 36712270636867509138454966699446650458662825142398861936643824109726493524275);
    lemma_pm_double(7, 273728040450931076372892nat, m);
    assert(pm(7, 547456080901862152745784nat, m) == 32168097752865249378986032761967365609766179633565045260536872888964898797733);
    lemma_pm_succ(7, 547456080901862152745784nat, m);
    assert(pm(7, 547456080901862152745785nat, m) == 15433183569551983735111267301027695917601047432844765533343475422999966846079);
    lemma_pm_double(7, 547456080901862152745785nat, m);
    assert(pm(7, 1094912161803724305491570nat, m) == 44237009105652903468200602680037229571216764219537022594214009443261970983353);
    lemma_pm_succ(7, 1094912161803724305491570nat, m);
    assert(pm(7, 1094912161803724305491571nat, m) == 47479687863939371880165516219330777810064587034120969046479772603140890960906);
    lemma_pm_double(7, 1094912161803724305491571nat, m);
    assert(pm(7, 2189824323607448610983142nat, m) == 50937246372456138579923091596483644034178973736855302127200043319229152861523);
    lemma_pm_succ(7, 2189824323607448610983142nat, m);
    assert(pm(7, 2189824323607448610983143nat, m) == 41945473556435827182775198126269713213109501154821287954778351034972582923583);
    lemma_pm_double(7, 2189824323607448610983143nat, m);
    assert(pm(7, 4379648647214897221966286nat, m) == 20978249366510441623630856408123427597574838307176931582360647538956887640051);
    lemma_pm_double(7, 4379648647214897221966286nat, m);
    assert(pm(7, 8759297294429794443932572nat, m) == 15547057677373299766398282031363863068524907788848339765602764486307255747061);
    lemma_pm_succ(7, 8759297294429794443932572nat, m);
    assert(pm(7, 8759297294429794443932573nat, m) == 3957653391360717405892493203175109804293249520883102714012034004273627860401);
    lemma_pm_double(7, 8759297294429794443932573nat, m);
    assert(pm(7, 17518594588859588887865146nat, m) == 22217938025398064723750782822415355131983439609348233143190159653467115750738);
    lemma_pm_succ(7, 17518594588859588887865146nat, m);
    assert(pm(7, 17518594588859588887865147nat, m) == 50653815827534072107359998740535554248502972264382356357123800174392647886140);
    lemma_pm_double(7, 17518594588859588887865147nat, m);
    assert(pm(7, 35037189177719177775730294nat, m) == 30755038176274359538707700483094758817941076190119439227326562709452047673514);
    lemma_pm_double(7, 35037189177719177775730294nat, m);
    assert(pm(7, 70074378355438355551460588nat, m) == 34214885581098000336948158268434676012155604033277062518785966397810258439228);
    lemma_pm_double(7, 70074378355438355551460588nat, m);
    assert(pm(7, 140148756710876711102921176nat, m) == 38019113707809371032489532029213613753089180651533624521192486947878628947025);
    lemma_pm_double(7, 140148756710876711102921176nat, m);
    assert(pm(7, 280297513421753422205842352nat, m) == 29278592656628395002788119143040239854733453413021109174616804613724436606335);
    lemma_pm_double(7, 280297513421753422205842352nat, m);
    assert(pm(7, 560595026843506844411684704nat, m) == 37935520921000092017666583823337636937716882453404269097902628930753486591623);
    lemma_pm_double(7, 560595026843506844411684704nat, m);
    assert(pm(7, 1121190053687013688823369408nat, m) == 10454702271275726019778020656573353131886920485386831311893670601877760291828);
    lemma_pm_double(7, 1121190053687013688823369408nat, m);
    assert(pm(7, 2242380107374027377646738816nat, m) == 47914997526756992310922113611061941628351932418964410845403981778185161728044);
    lemma_pm_double(7, 2242380107374027377646738816nat, m);
    assert(pm(7, 4484760214748054755293477632nat, m) == 21924769926626552123402783610443962861085399488158233123152277841008357138913);
    lemma_pm_succ(7, 4484760214748054755293477632nat, m);
    assert(pm(7, 4484760214748054755293477633nat, m) == 48601639136133483904924004256735808352216691416052356216858627487181337603365);
    lemma_pm_double(7, 4484760214748054755293477633nat, m);
    assert(pm(7, 8969520429496109510586955266nat, m) == 32967251891899736109226602016829831778896761804446605788042773073206016019764);
    lemma_pm_double(7, 8969520429496109510586955266nat, m);
    assert(pm(7, 17939040858992219021173910532nat, m) == 46128211719031117817636756526063442915821103915037345444815038297954215832686);
    lemma_pm_double(7, 17939040858992219021173910532nat, m);
    assert(pm(7, 35878081717984438042347821064nat, m) == 21835199336475517559214094233420530427943091092922032493258427531138530132224);
    lemma_pm_double(7, 35878081717984438042347821064nat, m);
    assert(pm(7, 71756163435968876084695642128nat, m) == 22911856994951417649797468856834865822935193483496118530613350554390725161612);
    lemma_pm_double(7, 71756163435968876084695642128nat, m);
    assert(pm(7, 143512326871937752169391284256nat, m) == 19808391940299695280421066020666180166280141364439361754570393626483478651576);
    lemma_pm_double(7, 143512326871937752169391284256nat, m);
    assert(pm(7, 287024653743875504338782568512nat, m) == 15348500761666122565476729953358925948367101297482630554562635813521755256813);
    lemma_pm_double(7, 287024653743875504338782568512nat, m);
    assert(pm(7, 574049307487751008677565137024nat, m) == 23278330897705588261350485006070682381231933991218796140719356708354887460247);
    lemma_pm_double(7, 574049307487751008677565137024nat, m);
    assert(pm(7, 1148098614975502017355130274048nat, m) == 10041244370887318612220102227267305388674212280220398473059601371638717711642);
    lemma_pm_succ(7, 1148098614975502017355130274048nat, m);
    assert(pm(7, 1148098614975502017355130274049nat, m) == 17852835421085039806092975082685171883028933461015151488813550901532442796981);
    lemma_pm_double(7, 1148098614975502017355130274049nat, m);
    assert(pm(7, 2296197229951004034710260548098nat, m) == 22595109106074254807980650404784657385676579005013171773178992831804177347804);
    lemma_pm_double(7, 2296197229951004034710260548098nat, m);
    assert(pm(7, 4592394459902008069420521096196nat, m) == 17342184332947129451303380139207664341301261883403338177298215028680260939341);
    lemma_pm_double(7, 4592394459902008069420521096196nat, m);
    assert(pm(7, 9184788919804016138841042192392nat, m) == 20519662163812485633790115689280932102587853942021166858961916659060680942895);
    lemma_pm_succ(7, 9184788919804016138841042192392nat, m);
    assert(pm(7, 9184788919804016138841042192393nat, m) == 38765884796435018477635328808594593042733872593092892367526099213547604231239);
    lemma_pm_double(7, 9184788919804016138841042192393nat, m);
    assert(pm(7, 18369577839608032277682084384786nat, m) == 36653212945767933891537532691741750117656152990906939722581744359861575133525);
    lemma_pm_succ(7, 18369577839608032277682084384786nat, m);
    assert(pm(7, 18369577839608032277682084384787nat, m) == 46828989919870775322971766809448387472830860934238026767657575719276701196623);
    lemma_pm_double(7, 18369577839608032277682084384787nat, m);
    assert(pm(7, 36739155679216064555364168769574nat, m) == 18996739460515147076423455509054172907975932597312516419520789543006076186614);
    lemma_pm_double(7, 36739155679216064555364168769574nat, m);
    assert(pm(7, 73478311358432129110728337539148nat, m) == 3203243121006812993972146889932023772278060392086933127388994120419915911890);
    lemma_pm_succ(7, 73478311358432129110728337539148nat, m);
    assert(pm(7, 73478311358432129110728337539149nat, m) == 22422701847047690957805028229524166405946422744608531891722958842939411383230);
    lemma_pm_double(7, 73478311358432129110728337539149nat, m);
    assert(pm(7, 146956622716864258221456675078298nat, m) == 25299123223245289147113218717549820050761615500983126373233727440569813902068);
    lemma_pm_double(7, 146956622716864258221456675078298nat, m);
    assert(pm(7, 293913245433728516442913350156596nat, m) == 50078837933021526323837054443545530808942362851202042386001403115210381897095);
    lemma_pm_double(7, 293913245433728516442913350156596nat, m);
    assert(pm(7, 587826490867457032885826700313192nat, m) == 25275871616732425965107811431177325292032598799246468719055663389277864501179);
    lemma_pm_double(7, 587826490867457032885826700313192nat, m);
    assert(pm(7, 1175652981734914065771653400626384nat, m) == 40040879725751472037944479397827654051801199806704772980355163624315505239984);
    lemma_pm_double(7, 1175652981734914065771653400626384nat, m);
    assert(pm(7, 2351305963469828131543306801252768nat, m) == 50193560938829652727147393659349161729404651975793687704069263038806139445400);
    lemma_pm_succ(7, 2351305963469828131543306801252768nat, m);
    assert(pm(7, 2351305963469828131543306801252769nat, m) == 36739675521050426213345312566328337079689248827389986992862889072011489010722);
    lemma_pm_double(7, 2351305963469828131543306801252769nat, m);
    assert(pm(7, 4702611926939656263086613602505538nat, m) == 892191106901846930120300344280502903800678200939570079205415183393203122686);
    lemma_pm_succ(7, 4702611926939656263086613602505538nat, m);
    assert(pm(7, 4702611926939656263086613602505539nat, m) == 6245337748312928510842102409963520326604747406576990554437906283752421858802);
    lemma_pm_double(7, 4702611926939656263086613602505539nat, m);
    assert(pm(7, 9405223853879312526173227205011078nat, m) == 22462890907893832408627681453374528479370761299441405328878168798110224952458);
    lemma_pm_succ(7, 9405223853879312526173227205011078nat, m);
    assert(pm(7, 9405223853879312526173227205011079nat, m) == 52368486005004445901498289157249767680214224095034561656939864186894412298180);
    lemma_pm_double(7, 9405223853879312526173227205011079nat, m);
    assert(pm(7, 18810447707758625052346454410022158nat, m) == 44364234066543875755465507402728328427094297462215489386064724593567120324733);
    lemma_pm_double(7, 18810447707758625052346454410022158nat, m);
    assert(pm(7, 37620895415517250104692908820044316nat, m) == 36154141283696179178717501861301328156441424429222393536913389437535964608763);
    lemma_pm_succ(7, 37620895415517250104692908820044316nat, m);
    assert(pm(7, 37620895415517250104692908820044317nat, m) == 43335488285368492333231550996365433744327761002446203467979091262997427523289);
    lemma_pm_double(7, 37620895415517250104692908820044317nat, m);
    assert(pm(7, 75241790831034500209385817640088634nat, m) == 47558907717254980183694347050157955683802946223063397391989944639285286595318);
    lemma_pm_succ(7, 75241790831034500209385817640088634nat, m);
    assert(pm(7, 75241790831034500209385817640088635nat, m) == 18297102970027718409173986301989894760477308558277954808307660275365519060148);
    lemma_pm_double(7, 75241790831034500209385817640088635nat, m);
    assert(pm(7, 150483581662069000418771635280177270nat, m) == 16551347060367486694307856872633941826601203475303021109946213704736829675924);
    lemma_pm_double(7, 150483581662069000418771635280177270nat, m);
    assert(pm(7, 300967163324138000837543270560354540nat, m) == 36580617503158513281670161957128857130056244997215112608402476723808630266959);
    lemma_pm_double(7, 300967163324138000837543270560354540nat, m);
    assert(pm(7, 601934326648276001675086541120709080nat, m) == 38481307787753392522253001223883634391173231415394935813110930167728311917975);
    lemma_pm_double(7, 601934326648276001675086541120709080nat, m);
    assert(pm(7, 1203868653296552003350173082241418160nat, m) == 47244034338990704259138939993488174567834539101069576952382449054083768268074);
    lemma_pm_double(7, 1203868653296552003350173082241418160nat, m);
    assert(pm(7, 2407737306593104006700346164482836320nat, m) == 41140925551034058183149055783148645804836839947613851619060351353197018381850);
    lemma_pm_double(7, 2407737306593104006700346164482836320nat, m);
    assert(pm(7, 4815474613186208013400692328965672640nat, m) == 8664973336800362195803623148547461319629968933861541187976448414297755878975);
    lemma_pm_double(7, 4815474613186208013400692328965672640nat, m);
    assert(pm(7, 9630949226372416026801384657931345280nat, m) == 16154868315698689362488952082761953726183940424043183241619478905724394324651);
    lemma_pm_double(7, 9630949226372416026801384657931345280nat, m);
    assert(pm(7, 19261898452744832053602769315862690560nat, m) == 33141738279433600080001485835528836757742020530204955298853280006581484896351);
    lemma_pm_double(7, 19261898452744832053602769315862690560nat, m);
    assert(pm(7, 38523796905489664107205538631725381120nat, m) == 45897379086254908020573670783429589311133964019731559692936607246681301492273);
    lemma_pm_succ(7, 38523796905489664107205538631725381120nat, m);
    assert(pm(7, 38523796905489664107205538631725381121nat, m) == 6666402553027213267329252434891330151794433134955090914934298527137623338833);
    lemma_pm_double(7, 38523796905489664107205538631725381121nat, m);
    assert(pm(7, 77047593810979328214411077263450762242nat, m) == 31857295956479207882514280800217138382369528144059694274551898867317044048735);
    lemma_pm_double(7, 77047593810979328214411077263450762242nat, m);
    assert(pm(7, 154095187621958656428822154526901524484nat, m) == 7686717667261203550412707947651522828833203483332889781657358838919453186593);
    lemma_pm_succ(7, 154095187621958656428822154526901524484nat, m);
    assert(pm(7, 154095187621958656428822154526901524485nat, m) == 1371148495702234373441215125374693964141871882802590648997853172497591121638);
    lemma_pm_double(7, 154095187621958656428822154526901524485nat, m);
    assert(pm(7, 308190375243917312857644309053803048970nat, m) == 33913643672662842510312388637023901464507392568598081420228447129657978330773);
    lemma_pm_double(7, 308190375243917312857644309053803048970nat, m);
    assert(pm(7, 616380750487834625715288618107606097940nat, m) == 27917618146632443198664659492645875228454307850116968848222551487613457546048);
    lemma_pm_succ(7, 616380750487834625715288618107606097940nat, m);
    assert(pm(7, 616380750487834625715288618107606097941nat, m) == 38115701501048530952309394923963229086108497449235868469746884313478459268797);
    lemma_pm_double(7, 616380750487834625715288618107606097941nat, m);
    assert(pm(7, 1232761500975669251430577236215212195882nat, m) == 40232925649025291659408480353138316243525307884820971063270331056280495534119);
    lemma_pm_double(7, 1232761500975669251430577236215212195882nat, m);
    assert(pm(7, 2465523001951338502861154472430424391764nat, m) == 48056181917030644503554963235681482960331659882972208164770537159563692476408);
    lemma_pm_succ(7, 2465523001951338502861154472430424391764nat, m);
    assert(pm(7, 2465523001951338502861154472430424391765nat, m) == 21778022368457368648198299600654585696178304177639630217771807917314360227778);
    lemma_pm_double(7, 2465523001951338502861154472430424391765nat, m);
    assert(pm(7, 4931046003902677005722308944860848783530nat, m) == 30989928783359158657226969844144457846082663341891768822553165907273738748991);
    lemma_pm_double(7, 4931046003902677005722308944860848783530nat, m);
    assert(pm(7, 9862092007805354011444617889721697567060nat, m) == 34032005521589243953551211807338074720430726273982663774537565802974194160483);
    lemma_pm_double(7, 9862092007805354011444617889721697567060nat, m);
    assert(pm(7, 19724184015610708022889235779443395134120nat, m) == 18843100418731475576638378155514034355736697006793004389653435199156983436479);
    lemma_pm_succ(7, 19724184015610708022889235779443395134120nat, m);
    assert(pm(7, 19724184015610708022889235779443395134121nat, m) == 27029952580867948077573166072226308814775774046495755082366728994221721686327);
    lemma_pm_double(7, 19724184015610708022889235779443395134121nat, m);
    assert(pm(7, 39448368031221416045778471558886790268242nat, m) == 24056870244826170983522519261974000438213089922630292442333179482452618674199);
    lemma_pm_succ(7, 39448368031221416045778471558886790268242nat, m);
    assert(pm(7, 39448368031221416045778471558886790268243nat, m) == 11090466188404625446314413309260105554419971956829133628521280277352587165854);
    lemma_pm_double(7, 39448368031221416045778471558886790268243nat, m);
    assert(pm(7, 78896736062442832091556943117773580536486nat, m) == 27433709137843918922048250139616698433378589090948789965923406942219610624587);
    lemma_pm_succ(7, 78896736062442832091556943117773580536486nat, m);
    assert(pm(7, 78896736062442832091556943117773580536487nat, m) == 34728338439528861015994529452758991520578466135058616293652872495721530818570);
    lemma_pm_double(7, 78896736062442832091556943117773580536487nat, m);
    assert(pm(7, 157793472124885664183113886235547161072974nat, m) == 15200334974922747894890033466671805407067263259926356640465325132353582796834);
    lemma_pm_double(7, 157793472124885664183113886235547161072974nat, m);
    assert(pm(7, 315586944249771328366227772471094322145948nat, m) == 39339506492934229867710741337691335799231048142280555584159997372750340489673);
    lemma_pm_succ(7, 315586944249771328366227772471094322145948nat, m);
    assert(pm(7, 315586944249771328366227772471094322145949nat, m) == 13197169574908656676736486822909521406164574493325699976101688109559477505146);
    lemma_pm_double(7, 315586944249771328366227772471094322145949nat, m);
    assert(pm(7, 631173888499542656732455544942188644291898nat, m) == 40175534478069595836938407211982074255716633114937082273475776957453887968136);
    lemma_pm_succ(7, 631173888499542656732455544942188644291898nat, m);
    assert(pm(7, 631173888499542656732455544942188644291899nat, m) == 19049365470856218461330147942944690601563669301921386801312145202484309854387);
    lemma_pm_double(7, 631173888499542656732455544942188644291899nat, m);
    assert(pm(7, 1262347776999085313464911089884377288583798nat, m) == 40911766211784567164001481855277067047717096882500226956304113527063769208868);
    lemma_pm_succ(7, 1262347776999085313464911089884377288583798nat, m);
    assert(pm(7, 1262347776999085313464911089884377288583799nat, m) == 24202987606861017750771670446009640145566915674863399581110501189753478539511);
    lemma_pm_double(7, 1262347776999085313464911089884377288583799nat, m);
    assert(pm(7, 2524695553998170626929822179768754577167598nat, m) == 52249874974416744234333613254178577474661151677680342675027786784874148663376);
    lemma_pm_succ(7, 2524695553998170626929822179768754577167598nat, m);
    assert(pm(7, 2524695553998170626929822179768754577167599nat, m) == 51133873770160066763648849730134247296484746740596571789572555294487553536554);
    lemma_pm_double(7, 2524695553998170626929822179768754577167599nat, m);
    assert(pm(7, 5049391107996341253859644359537509154335198nat, m) == 10655241698392546056134739068920679681184492800908310873052715336705673748394);
    lemma_pm_double(7, 5049391107996341253859644359537509154335198nat, m);
    assert(pm(7, 10098782215992682507719288719075018308670396nat, m) == 21389147949859988529034517951798068073567064681021484328254686465926882452402);
    lemma_pm_succ(7, 10098782215992682507719288719075018308670396nat, m);
    assert(pm(7, 10098782215992682507719288719075018308670397nat, m) == 44852285298767538744346144646214544839588347766095114652575487861611014797788);
    lemma_pm_double(7, 10098782215992682507719288719075018308670397nat, m);
    assert(pm(7, 20197564431985365015438577438150036617340794nat, m) == 9923931480830567824853864749230261526889586185025689007784253517775255384069);
    lemma_pm_succ(7, 20197564431985365015438577438150036617340794nat, m);
    assert(pm(7, 20197564431985365015438577438150036617340795nat, m) == 17031645190687784294529312736425864850536550794652185231886115924488206503970);
    lemma_pm_double(7, 20197564431985365015438577438150036617340795nat, m);
    assert(pm(7, 40395128863970730030877154876300073234681590nat, m) == 15706582960282018882760856691250972949868973461603787367011306876684012984898);
    lemma_pm_double(7, 40395128863970730030877154876300073234681590nat, m);
    assert(pm(7, 80790257727941460061754309752600146469363180nat, m) == 17978006664629754080732981431670486670988515012295449865482911390106086362707);
    lemma_pm_succ(7, 80790257727941460061754309752600146469363180nat, m);
    assert(pm(7, 80790257727941460061754309752600146469363181nat, m) == 20974296302155897606235389005321475021538500085012873413173062330865442169923);
    lemma_pm_double(7, 80790257727941460061754309752600146469363181nat, m);
    assert(pm(7, 161580515455882920123508619505200292938726362nat, m) == 14144776024585620677430423064124915514613108285936437970715572548592045470351);
    lemma_pm_double(7, 161580515455882920123508619505200292938726362nat, m);
    assert(pm(7, 323161030911765840247017239010400585877452724nat, m) == 18037653401220724315967422734459338926940547296316296077924988742661160742968);
    lemma_pm_double(7, 323161030911765840247017239010400585877452724nat, m);
    assert(pm(7, 646322061823531680494034478020801171754905448nat, m) == 39895946541944950873462034756663464140368640473990631100910754409980791272716);
    lemma_pm_succ(7, 646322061823531680494034478020801171754905448nat, m);
    assert(pm(7, 646322061823531680494034478020801171754905449nat, m) == 17092249917983703716995540755714419794127720815296228593356987370172632986447);
    lemma_pm_double(7, 646322061823531680494034478020801171754905449nat, m);
    assert(pm(7, 1292644123647063360988068956041602343509810898nat, m) == 51574106065580790548125755468898253116846972109562117611201280751990962466264);
    lemma_pm_double(7, 1292644123647063360988068956041602343509810898nat, m);
    assert(pm(7, 2585288247294126721976137912083204687019621796nat, m) == 51085352287425770091026610913705744602335366848435545096609145789671802491262);
    lemma_pm_double(7, 2585288247294126721976137912083204687019621796nat, m);
    assert(pm(7, 5170576494588253443952275824166409374039243592nat, m) == 6210086315688444137981873403238961674389818416097901607478871390694124562031);
    lemma_pm_double(7, 5170576494588253443952275824166409374039243592nat, m);
    assert(pm(7, 10341152989176506887904551648332818748078487184nat, m) == 7277079948485887386689940974511613936714952664303728680670231621864495526842);
    lemma_pm_double(7, 10341152989176506887904551648332818748078487184nat, m);
    assert(pm(7, 20682305978353013775809103296665637496156974368nat, m) == 30932627140072104722580693708995081735056494664331086417833922491968555134840);
    lemma_pm_double(7, 20682305978353013775809103296665637496156974368nat, m);
    assert(pm(7, 41364611956706027551618206593331274992313948736nat, m) == 20405372144233404303069218904579989655160810999593845137460024578571392214326);
    lemma_pm_double(7, 41364611956706027551618206593331274992313948736nat, m);
    assert(pm(7, 82729223913412055103236413186662549984627897472nat, m) == 47163476540804381083505368701468771881957083335813271263922492492553867016915);
    lemma_pm_double(7, 82729223913412055103236413186662549984627897472nat, m);
    assert(pm(7, 165458447826824110206472826373325099969255794944nat, m) == 13263852207060915158847656871423838870474781633145560681147392803409601831794);
    lemma_pm_double(7, 165458447826824110206472826373325099969255794944nat, m);
    assert(pm(7, 330916895653648220412945652746650199938511589888nat, m) == 24028351025198515473383172173362665400020049188077656279633179781274071004498);
    lemma_pm_succ(7, 330916895653648220412945652746650199938511589888nat, m);
    assert(pm(7, 330916895653648220412945652746650199938511589889nat, m) == 10890831651011036875338983688980760287068686814960680489621282369102753477947);
    lemma_pm_double(7, 330916895653648220412945652746650199938511589889nat, m);
    assert(pm(7, 661833791307296440825891305493300399877023179778nat, m) == 45291391690054139224217119448804299865867130408038107664617291782899197523146);
    lemma_pm_double(7, 661833791307296440825891305493300399877023179778nat, m);
    assert(pm(7, 1323667582614592881651782610986600799754046359556nat, m) == 49610254786080597004937303067015075348314978016269953165234703305889908673932);
    lemma_pm_succ(7, 1323667582614592881651782610986600799754046359556nat, m);
    assert(pm(7, 1323667582614592881651782610986600799754046359557nat, m) == 32656532451807036157874678419989732412061531110723845221020970941597873610446);
    lemma_pm_double(7, 1323667582614592881651782610986600799754046359557nat, m);
    assert(pm(7, 2647335165229185763303565221973201599508092719114nat, m) == 34074310212035982277760834957293122389132579520040956672741029118459092147588);
    lemma_pm_succ(7, 2647335165229185763303565221973201599508092719114nat, m);
    assert(pm(7, 2647335165229185763303565221973201599508092719115nat, m) == 28776670783747114026534882668307993373165846638176145418772569029459320295064);
    lemma_pm_double(7, 2647335165229185763303565221973201599508092719115nat, m);
    assert(pm(7, 5294670330458371526607130443946403199016185438230nat, m) == 38567553428934512695426869889388674983957317176462121285275997235948967813032);
    lemma_pm_succ(7, 5294670330458371526607130443946403199016185438230nat, m);
    assert(pm(7, 5294670330458371526607130443946403199016185438231nat, m) == 7793498126910636470749386684790895699248457732596659883913687151949868768659);
    lemma_pm_double(7, 5294670330458371526607130443946403199016185438231nat, m);
    assert(pm(7, 10589340660916743053214260887892806398032370876462nat, m) == 4298302284159980605580205007771446467342497386906492011834602638781893336717);
    lemma_pm_succ(7, 10589340660916743053214260887892806398032370876462nat, m);
    assert(pm(7, 10589340660916743053214260887892806398032370876463nat, m) == 30088115989119864239061435054400125271397481708345444082842218471473253357019);
    lemma_pm_double(7, 10589340660916743053214260887892806398032370876463nat, m);
    assert(pm(7, 21178681321833486106428521775785612796064741752926nat, m) == 50826900956889930451674857299015597996000464275969764485554921061378266494412);
    lemma_pm_succ(7, 21178681321833486106428521775785612796064741752926nat, m);
    assert(pm(7, 21178681321833486106428521775785612796064741752927nat, m) == 41173055647472370285037558043993390945859934928622524463262495230016378353806);
    lemma_pm_double(7, 21178681321833486106428521775785612796064741752927nat, m);
    assert(pm(7, 42357362643666972212857043551571225592129483505854nat, m) == 44716298646063602496339885463682022473362993968986420790905125761032383673502);
    lemma_pm_succ(7, 42357362643666972212857043551571225592129483505854nat, m);
    assert(pm(7, 42357362643666972212857043551571225592129483505855nat, m) == 50834714646814265077140495704844328125088195280266756423317586827533779791949);
    lemma_pm_double(7, 42357362643666972212857043551571225592129483505855nat, m);
    assert(pm(7, 84714725287333944425714087103142451184258967011710nat, m) == 16472952546076505047603097018833594535395318426872348739529609327609553755430);
    lemma_pm_succ(7, 84714725287333944425714087103142451184258967011710nat, m);
    assert(pm(7, 84714725287333944425714087103142451184258967011711nat, m) == 10438917472283154374326198115463230072386123987051165531499947893389713918984);
    lemma_pm_double(7, 84714725287333944425714087103142451184258967011711nat, m);
    assert(pm(7, 169429450574667888851428174206284902368517934023422nat, m) == 30698193553236494888577917738521900854131599325414124793995874125637661408281);
    lemma_pm_succ(7, 169429450574667888851428174206284902368517934023422nat, m);
    assert(pm(7, 169429450574667888851428174206284902368517934023423nat, m) == 5143854172150702302254462136909442628158985275788322267556484079709305119915);
    lemma_pm_double(7, 169429450574667888851428174206284902368517934023423nat, m);
    assert(pm(7, 338858901149335777702856348412569804737035868046846nat, m) == 11750931413315036098026407419748497205681263501833182377890933153631211583201);
    lemma_pm_succ(7, 338858901149335777702856348412569804737035868046846nat, m);
    assert(pm(7, 338858901149335777702856348412569804737035868046847nat, m) == 29820644718079062206737111430053514602078292012304638822632873375479899897894);
    lemma_pm_double(7, 338858901149335777702856348412569804737035868046847nat, m);
    assert(pm(7, 677717802298671555405712696825139609474071736093694nat, m) == 38432978933451115210493367902585777868330028630065412348236009350371701753588);
    lemma_pm_succ(7, 677717802298671555405712696825139609474071736093694nat, m);
    assert(pm(7, 677717802298671555405712696825139609474071736093695nat, m) == 6851476658526854076214872777170615889857437907819697324633771952909006352551);
    lemma_pm_double(7, 677717802298671555405712696825139609474071736093695nat, m);
    assert(pm(7, 1355435604597343110811425393650279218948143472187390nat, m) == 17087986403085198517891429617894429502331037264232337676328465537335309038075);
    lemma_pm_succ(7, 1355435604597343110811425393650279218948143472187390nat, m);
    assert(pm(7, 1355435604597343110811425393650279218948143472187391nat, m) == 14744154471344008666344526308889074840936155848571088089091941361470000897499);
    lemma_pm_double(7, 1355435604597343110811425393650279218948143472187391nat, m);
    assert(pm(7, 2710871209194686221622850787300558437896286944374782nat, m) == 17161848458742943741404615338695249134080082499276069814166591688159330042092);
    lemma_pm_succ(7, 2710871209194686221622850787300558437896286944374782nat, m);
    assert(pm(7, 2710871209194686221622850787300558437896286944374783nat, m) == 15261188860948225230936826354494812263179472493877213053958824417238147925618);
    lemma_pm_double(7, 2710871209194686221622850787300558437896286944374783nat, m);
    assert(pm(7, 5421742418389372443245701574601116875792573888749566nat, m) == 10687963883109711071419320066743020209006410654789506836595045706788219887710);
    lemma_pm_succ(7, 5421742418389372443245701574601116875792573888749566nat, m);
    assert(pm(7, 5421742418389372443245701574601116875792573888749567nat, m) == 22379872006641787020487499959015175625354322082998910033561661247578958029457);
    lemma_pm_double(7, 5421742418389372443245701574601116875792573888749567nat, m);
    assert(pm(7, 10843484836778744886491403149202233751585147777499134nat, m) == 39016403855932743604181232196812371009052640499473305202276592988284738691627);
    lemma_pm_succ(7, 10843484836778744886491403149202233751585147777499134nat, m);
    assert(pm(7, 10843484836778744886491403149202233751585147777499135nat, m) == 10935451115898252832029922836756767874915720993674947302917857418300264918824);
    lemma_pm_double(7, 10843484836778744886491403149202233751585147777499135nat, m);
    assert(pm(7, 21686969673557489772982806298404467503170295554998270nat, m) == 19285419528335126304413131665389294049910208187696107787215746753593161998011);
    lemma_pm_succ(7, 21686969673557489772982806298404467503170295554998270nat, m);
    assert(pm(7, 21686969673557489772982806298404467503170295554998271nat, m) == 30126186348093503171996440641353126673990352312817478865302909875274971617051);
    lemma_pm_double(7, 21686969673557489772982806298404467503170295554998271nat, m);
    assert(pm(7, 43373939347114979545965612596808935006340591109996542nat, m) == 22127622315854843200459329920983835617392452180234416376969667893760890541734);
    lemma_pm_double(7, 43373939347114979545965612596808935006340591109996542nat, m);
    assert(pm(7, 86747878694229959091931225193617870012681182219993084nat, m) == 16162762308014454819406886605677459243719592559484685227792038760845741009232);
    lemma_pm_double(7, 86747878694229959091931225193617870012681182219993084nat, m);
    assert(pm(7, 173495757388459918183862450387235740025362364439986168nat, m) == 23771109298407529529130616319496914000124643828280604841544035847258487422634);
    lemma_pm_succ(7, 173495757388459918183862450387235740025362364439986168nat, m);
    assert(pm(7, 173495757388459918183862450387235740025362364439986169nat, m) == 9090139563474135265571092711920500487800849296381320422997274830993668404899);
    lemma_pm_double(7, 173495757388459918183862450387235740025362364439986169nat, m);
    assert(pm(7, 346991514776919836367724900774471480050724728879972338nat, m) == 25188949360303728673906757346702090696932032749713462208049185911383258370173);
    lemma_pm_double(7, 346991514776919836367724900774471480050724728879972338nat, m);
    assert(pm(7, 693983029553839672735449801548942960101449457759944676nat, m) == 8596329619844419329251241108718711976972135424216360596424244363893478919528);
    lemma_pm_succ(7, 693983029553839672735449801548942960101449457759944676nat, m);
    assert(pm(7, 693983029553839672735449801548942960101449457759944677nat, m) == 7738432163784744825310947252845018001114395468986886352366051847315771252183);
    lemma_pm_double(7, 693983029553839672735449801548942960101449457759944677nat, m);
    assert(pm(7, 1387966059107679345470899603097885920202898915519889354nat, m) == 22093018783009013839996542679397330029798369647183965210156289740350800257951);
    lemma_pm_succ(7, 1387966059107679345470899603097885920202898915519889354nat, m);
    assert(pm(7, 1387966059107679345470899603097885920202898915519889355nat, m) == 49779381130810715921080317739409378533207482529232480825886710782578439436631);
    lemma_pm_double(7, 1387966059107679345470899603097885920202898915519889355nat, m);
    assert(pm(7, 2775932118215358690941799206195771840405797831039778710nat, m) == 52052614916732026438494395807962988545382734338042726186762901359303970799051);
    lemma_pm_double(7, 2775932118215358690941799206195771840405797831039778710nat, m);
    assert(pm(7, 5551864236430717381883598412391543680811595662079557420nat, m) == 19823399502619746605868563994070425400326683403041303256557025237744134099824);
    lemma_pm_succ(7, 5551864236430717381883598412391543680811595662079557420nat, m);
    assert(pm(7, 5551864236430717381883598412391543680811595662079557421nat, m) == 33892046168085845282184466942121046126905678820233847150691859264331776329742);
    lemma_pm_double(7, 5551864236430717381883598412391543680811595662079557421nat, m);
    assert(pm(7, 11103728472861434763767196824783087361623191324159114842nat, m) == 45039186462786825561834924443343358291533764090213572464787944721982944432288);
    lemma_pm_succ(7, 11103728472861434763767196824783087361623191324159114842nat, m);
    assert(pm(7, 11103728472861434763767196824783087361623191324159114843nat, m) == 659054188750636056158028054287713014593033628329180317893660854249123918938);
    lemma_pm_double(7, 11103728472861434763767196824783087361623191324159114843nat, m);
    assert(pm(7, 22207456945722869527534393649566174723246382648318229686nat, m) == 14359608010303302295786847270144701923625255595907165280345197277396695966146);
    lemma_pm_succ(7, 22207456945722869527534393649566174723246382648318229686nat, m);
    assert(pm(7, 22207456945722869527534393649566174723246382648318229687nat, m) == 48081380896996925591060190382826947627686236670822519139812722241838290578509);
    lemma_pm_double(7, 22207456945722869527534393649566174723246382648318229687nat, m);
    assert(pm(7, 44414913891445739055068787299132349446492765296636459374nat, m) == 48281052171371520141383216329938524162418081916935050297062549965126822783543);
    lemma_pm_succ(7, 44414913891445739055068787299132349446492765296636459374nat, m);
    assert(pm(7, 44414913891445739055068787299132349446492765296636459375nat, m) == 23352114148843498112996071260453874110783258415379525143815897556256272377723);
    lemma_pm_double(7, 44414913891445739055068787299132349446492765296636459375nat, m);
    assert(pm(7, 88829827782891478110137574598264698892985530593272918750nat, m) == 33733592594092484511668197009597142421327284256787938011692272392762272010253);
    lemma_pm_succ(7, 88829827782891478110137574598264698892985530593272918750nat, m);
    assert(pm(7, 88829827782891478110137574598264698892985530593272918751nat, m) == 26391647458142629663886417034436133598528779795405014791431271949581579333719);
    lemma_pm_double(7, 88829827782891478110137574598264698892985530593272918751nat, m);
    assert(pm(7, 177659655565782956220275149196529397785971061186545837502nat, m) == 39670626638136823527445988762459582570613273158904273448435835681644544088808);
    lemma_pm_succ(7, 177659655565782956220275149196529397785971061186545837502nat, m);
    assert(pm(7, 177659655565782956220275149196529397785971061186545837503nat, m) == 15515010591326812294883218796287248805840149609691725026032556271818902699091);
    lemma_pm_double(7, 177659655565782956220275149196529397785971061186545837503nat, m);
    assert(pm(7, 355319311131565912440550298393058795571942122373091675006nat, m) == 27300950864775431796075759769615579784403142471945920024955963765253779702280);
    lemma_pm_succ(7, 355319311131565912440550298393058795571942122373091675006nat, m);
    assert(pm(7, 355319311131565912440550298393058795571942122373091675007nat, m) == 33799030528049451134187096862751160977750339802038526706880770256960714362421);
    lemma_pm_double(7, 355319311131565912440550298393058795571942122373091675007nat, m);
    assert(pm(7, 710638622263131824881100596786117591143884244746183350014nat, m) == 39082368008734884005932644695885246669140012649899382712188569858532554295787);
    lemma_pm_succ(7, 710638622263131824881100596786117591143884244746183350014nat, m);
    assert(pm(7, 710638622263131824881100596786117591143884244746183350015nat, m) == 11397200185513235644289810330266897495527326046657489872301695510034974147944);
    lemma_pm_double(7, 710638622263131824881100596786117591143884244746183350015nat, m);
    assert(pm(7, 1421277244526263649762201193572235182287768489492366700030nat, m) == 8222928891071223573713975022275110609390865728325467503580219630708658567528);
    lemma_pm_succ(7, 1421277244526263649762201193572235182287768489492366700030nat, m);
    assert(pm(7, 1421277244526263649762201193572235182287768489492366700031nat, m) == 5124627062372374536550084647739808428045507597750634702457878715022028788183);
    lemma_pm_double(7, 1421277244526263649762201193572235182287768489492366700031nat, m);
    assert(pm(7, 2842554489052527299524402387144470364575536978984733400062nat, m) == 8972182163159280585710768820689105444765793574402337251583361137192289601116);
    lemma_pm_double(7, 2842554489052527299524402387144470364575536978984733400062nat, m);
    assert(pm(7, 5685108978105054599048804774288940729151073957969466800124nat, m) == 31439532351775268475694280875158953298220407220924223056792829858797815259578);
    lemma_pm_succ(7, 5685108978105054599048804774288940729151073957969466800124nat, m);
    assert(pm(7, 5685108978105054599048804774288940729151073957969466800125nat, m) == 10333225761922117412069004093368809736780640544359010107135174211830382078994);
    lemma_pm_double(7, 5685108978105054599048804774288940729151073957969466800125nat, m);
    assert(pm(7, 11370217956210109198097609548577881458302147915938933600250nat, m) == 35494044001505738032480271067530524059517827749788912539455006355067027637165);
    lemma_pm_succ(7, 11370217956210109198097609548577881458302147915938933600250nat, m);
    assert(pm(7, 11370217956210109198097609548577881458302147915938933600251nat, m) == 38714807310035404309570935439969805065862584246411836485770409685714868722103);
    lemma_pm_double(7, 11370217956210109198097609548577881458302147915938933600251nat, m);
    assert(pm(7, 22740435912420218396195219097155762916604295831877867200502nat, m) == 6577666142376612206673896334617788682001633565492996168200254439690836070062);
    lemma_pm_succ(7, 22740435912420218396195219097155762916604295831877867200502nat, m);
    assert(pm(7, 22740435912420218396195219097155762916604295831877867200503nat, m) == 46043662996636285446717274342324520774011434958450973177401781077835852490434);
    lemma_pm_double(7, 22740435912420218396195219097155762916604295831877867200503nat, m);
    assert(pm(7, 45480871824840436792390438194311525833208591663755734401006nat, m) == 42535768273379643989464996081079191951757013512518849520256547066047367028034);
    lemma_pm_succ(7, 45480871824840436792390438194311525833208591663755734401006nat, m);
    assert(pm(7, 45480871824840436792390438194311525833208591663755734401007nat, m) == 35571002038026555529016270026624514473846332084993757528777535962638663273673);
    lemma_pm_double(7, 45480871824840436792390438194311525833208591663755734401007nat, m);
    assert(pm(7, 90961743649680873584780876388623051666417183327511468802014nat, m) == 47541844777404279330439408516291363607018268711639832225451615216889518826956);
    lemma_pm_succ(7, 90961743649680873584780876388623051666417183327511468802014nat, m);
    assert(pm(7, 90961743649680873584780876388623051666417183327511468802015nat, m) == 18177662391072812436389416564923750222984565978312998642539354318595144681614);
    lemma_pm_double(7, 90961743649680873584780876388623051666417183327511468802015nat, m);
    assert(pm(7, 181923487299361747169561752777246103332834366655022937604030nat, m) == 51519111562802309917699829511685663850852431677067703431429873771572581158326);
    lemma_pm_succ(7, 181923487299361747169561752777246103332834366655022937604030nat, m);
    assert(pm(7, 181923487299361747169561752777246103332834366655022937604031nat, m) == 46018529888859026547212363532683851929823706736308097084387164201376581001204);
    lemma_pm_double(7, 181923487299361747169561752777246103332834366655022937604031nat, m);
    assert(pm(7, 363846974598723494339123505554492206665668733310045875208062nat, m) == 36248789635547622428855621676682651620678833054962448317492830860386040131117);
    lemma_pm_succ(7, 363846974598723494339123505554492206665668733310045875208062nat, m);
    assert(pm(7, 363846974598723494339123505554492206665668733310045875208063nat, m) == 43998026748328595084198389704034697993989621382626586932035181222947956179767);
    lemma_pm_double(7, 363846974598723494339123505554492206665668733310045875208063nat, m);
    assert(pm(7, 727693949197446988678247011108984413331337466620091750416126nat, m) == 46636081242024987909137116365761114677253861176128168488267903446483931985840);
    lemma_pm_succ(7, 727693949197446988678247011108984413331337466620091750416126nat, m);
    assert(pm(7, 727693949197446988678247011108984413331337466620091750416127nat, m) == 11837317643417772487273371511212007714633713229731352482253371925756036793802);
    lemma_pm_double(7, 727693949197446988678247011108984413331337466620091750416127nat, m);
    assert(pm(7, 1455387898394893977356494022217968826662674933240183500832254nat, m) == 1747369593967276967547340760426437633703056727623805286568089131435205743851);
    lemma_pm_succ(7, 1455387898394893977356494022217968826662674933240183500832254nat, m);
    assert(pm(7, 1455387898394893977356494022217968826662674933240183500832255nat, m) == 12231587157770938772831385322985063435921397093366637005976623920046440206957);
    lemma_pm_double(7, 1455387898394893977356494022217968826662674933240183500832255nat, m);
    assert(pm(7, 2910775796789787954712988044435937653325349866480367001664510nat, m) == 28953294774764368357091576963196227085916657366209896023681833785685805563987);
    lemma_pm_succ(7, 2910775796789787954712988044435937653325349866480367001664510nat, m);
    assert(pm(7, 2910775796789787954712988044435937653325349866480367001664511nat, m) == 45365437897972007061297817217815692088344944061886358697961860399984895394370);
    lemma_pm_double(7, 2910775796789787954712988044435937653325349866480367001664511nat, m);
    assert(pm(7, 5821551593579575909425976088871875306650699732960734003329022nat, m) == 14312495485901455891974586921565733325054045932926635485368376709231589529842);
    lemma_pm_succ(7, 5821551593579575909425976088871875306650699732960734003329022nat, m);
    assert(pm(7, 5821551593579575909425976088871875306650699732960734003329023nat, m) == 47751593226184000764374367942774167437687769029958810574974978264682545524381);
    lemma_pm_double(7, 5821551593579575909425976088871875306650699732960734003329023nat, m);
    assert(pm(7, 11643103187159151818851952177743750613301399465921468006658046nat, m) == 14063113703478265420392876697590598625108797560470741944038672682583973116745);
    lemma_pm_succ(7, 11643103187159151818851952177743750613301399465921468006658046nat, m);
    assert(pm(7, 11643103187159151818851952177743750613301399465921468006658047nat, m) == 46005920749221667463302396374948224538071030422767555785667050078149230632702);
    lemma_pm_double(7, 11643103187159151818851952177743750613301399465921468006658047nat, m);
    assert(pm(7, 23286206374318303637703904355487501226602798931842936013316094nat, m) == 50317714887695889100383619359639290540804824775643898010080919758742390995011);
    lemma_pm_succ(7, 23286206374318303637703904355487501226602798931842936013316094nat, m);
    assert(pm(7, 23286206374318303637703904355487501226602798931842936013316095nat, m) == 37608753163114080825998892468359238759490458426341459134944486111565249857999);
    lemma_pm_double(7, 23286206374318303637703904355487501226602798931842936013316095nat, m);
    assert(pm(7, 46572412748636607275407808710975002453205597863685872026632190nat, m) == 39568847695686737179374285202880283363582318129080028440466490868447945302078);
    lemma_pm_succ(7, 46572412748636607275407808710975002453205597863685872026632190nat, m);
    assert(pm(7, 46572412748636607275407808710975002453205597863685872026632191nat, m) == 14802557994176207858381293879232154356623464400922009970247142579442711191981);
    lemma_pm_double(7, 46572412748636607275407808710975002453205597863685872026632191nat, m);
    assert(pm(7, 93144825497273214550815617421950004906411195727371744053264382nat, m) == 16541417876173846789230052339609641835804024384418130342797201181361958525641);
    lemma_pm_succ(7, 93144825497273214550815617421950004906411195727371744053264382nat, m);
    assert(pm(7, 93144825497273214550815617421950004906411195727371744053264383nat, m) == 10918174782964546565714885360895561175247065689871636754373090869656547310461);
    lemma_pm_double(7, 93144825497273214550815617421950004906411195727371744053264383nat, m);
    assert(pm(7, 186289650994546429101631234843900009812822391454743488106528766nat, m) == 27513117922689639128081719325075889237389045126916563876547289986178347785239);
    lemma_pm_succ(7, 186289650994546429101631234843900009812822391454743488106528766nat, m);
    assert(pm(7, 186289650994546429101631234843900009812822391454743488106528767nat, m) == 35284199933448902458228813750973327148651658386833033668020053803432690943134);
    lemma_pm_double(7, 186289650994546429101631234843900009812822391454743488106528767nat, m);
    assert(pm(7, 372579301989092858203262469687800019625644782909486976213057534nat, m) == 228206509770762389808303795740617894533927812151776688724073411602769245175);
    lemma_pm_succ(7, 372579301989092858203262469687800019625644782909486976213057534nat, m);
    assert(pm(7, 372579301989092858203262469687800019625644782909486976213057535nat, m) == 1597445568395336728658126570184325261737494685062436821068513881219384716225);
    lemma_pm_double(7, 372579301989092858203262469687800019625644782909486976213057535nat, m);
    assert(pm(7, 745158603978185716406524939375600039251289565818973952426115070nat, m) == 18142346786822998121820660742160418292628090759383240660814289898681646615845);
    lemma_pm_succ(7, 745158603978185716406524939375600039251289565818973952426115070nat, m);
    assert(pm(7, 745158603978185716406524939375600039251289565818973952426115071nat, m) == 22124677157508605893849144178750996373015530314627408980492711890894363941889);
    lemma_pm_double(7, 745158603978185716406524939375600039251289565818973952426115071nat, m);
    assert(pm(7, 1490317207956371432813049878751200078502579131637947904852230142nat, m) == 17520080909130592145673134122315586641249207331879172287406969927706438677107);
    lemma_pm_succ(7, 1490317207956371432813049878751200078502579131637947904852230142nat, m);
    assert(pm(7, 1490317207956371432813049878751200078502579131637947904852230143nat, m) == 17768816013661764060816457839837174813363346322098930366641472094067908370723);
    lemma_pm_double(7, 1490317207956371432813049878751200078502579131637947904852230143nat, m);
    assert(pm(7, 2980634415912742865626099757502400157005158263275895809704460286nat, m) == 6837333869599069541195409084982753956366771212175492793642815045050495594166);
    lemma_pm_succ(7, 2980634415912742865626099757502400157005158263275895809704460286nat, m);
    assert(pm(7, 2980634415912742865626099757502400157005158263275895809704460287nat, m) == 47861337087193486788367863594879277694567398485228449555499705315353469159162);
    lemma_pm_double(7, 2980634415912742865626099757502400157005158263275895809704460287nat, m);
    assert(pm(7, 5961268831825485731252199515004800314010316526551791619408920574nat, m) == 46291347778228694998833289473972545406886161081458276530089830075681886948777);
    lemma_pm_succ(7, 5961268831825485731252199515004800314010316526551791619408920574nat, m);
    assert(pm(7, 5961268831825485731252199515004800314010316526551791619408920575nat, m) == 9424183396843722115146583268692022822059812567042108775006858330141721534361);
    lemma_pm_double(7, 5961268831825485731252199515004800314010316526551791619408920575nat, m);
    assert(pm(7, 11922537663650971462504399030009600628020633053103583238817841150nat, m) == 870503827218617649541693549011690625863033809130266674245282505028135610877);
    lemma_pm_succ(7, 11922537663650971462504399030009600628020633053103583238817841150nat, m);
    assert(pm(7, 11922537663650971462504399030009600628020633053103583238817841151nat, m) == 6093526790530323546791854843081834381041236663911866719716977535196949276139);
    lemma_pm_double(7, 11922537663650971462504399030009600628020633053103583238817841151nat, m);
    assert(pm(7, 23845075327301942925008798060019201256041266106207166477635682302nat, m) == 25848911303881951951677881188029307098159954043774117964752361577744633976914);
    lemma_pm_succ(7, 23845075327301942925008798060019201256041266106207166477635682302nat, m);
    assert(pm(7, 23845075327301942925008798060019201256041266106207166477635682303nat, m) == 23634753601795092223401946791647252174048020804835912285455554944396694284859);
    lemma_pm_double(7, 23845075327301942925008798060019201256041266106207166477635682303nat, m);
    assert(pm(7, 47690150654603885850017596120038402512082532212414332955271364606nat, m) == 4892312525062925271332523429951473651981145989794872166450322267833446768368);
    lemma_pm_succ(7, 47690150654603885850017596120038402512082532212414332955271364606nat, m);
    assert(pm(7, 47690150654603885850017596120038402512082532212414332955271364607nat, m) == 34246187675440476899327664009660315563868021928564105165152255874834127378576);
    lemma_pm_double(7, 47690150654603885850017596120038402512082532212414332955271364607nat, m);
    assert(pm(7, 95380301309207771700035192240076805024165064424828665910542729214nat, m) == 20457195189218295919683210537181101565213747147823698989327195982867675883584);
    lemma_pm_succ(7, 95380301309207771700035192240076805024165064424828665910542729214nat, m);
    assert(pm(7, 95380301309207771700035192240076805024165064424828665910542729215nat, m) == 38328615974275690478886992743895779281115125033710617280083054480196568816062);
    lemma_pm_double(7, 95380301309207771700035192240076805024165064424828665910542729215nat, m);
    assert(pm(7, 190760602618415543400070384480153610048330128849657331821085458430nat, m) == 22399288878259638563369987818042920926231162348968577636097231767689351674377);
    lemma_pm_succ(7, 190760602618415543400070384480153610048330128849657331821085458430nat, m);
    assert(pm(7, 190760602618415543400070384480153610048330128849657331821085458431nat, m) == 51923271797565088984694433709928514808237031441724767807473304973948299351613);
    lemma_pm_double(7, 190760602618415543400070384480153610048330128849657331821085458431nat, m);
    assert(pm(7, 381521205236831086800140768960307220096660257699314663642170916862nat, m) == 32752081923490917387444166696322430890177575812123800757841434761179438050829);
    lemma_pm_succ(7, 381521205236831086800140768960307220096660257699314663642170916862nat, m);
    assert(pm(7, 381521205236831086800140768960307220096660257699314663642170916863nat, m) == 19521072763931659794318204841513152880480820682756054014475408528501741617751);
    lemma_pm_double(7, 381521205236831086800140768960307220096660257699314663642170916863nat, m);
    assert(pm(7, 763042410473662173600281537920614440193320515398629327284341833726nat, m) == 18750642115844045195617460394351033617664650310479722098241162136921345343731);
    lemma_pm_succ(7, 763042410473662173600281537920614440193320515398629327284341833726nat, m);
    assert(pm(7, 763042410473662173600281537920614440193320515398629327284341833727nat, m) == 26382744460655935410426741744085303648271447172302779042480817558572255037091);
    lemma_pm_double(7, 763042410473662173600281537920614440193320515398629327284341833727nat, m);
    assert(pm(7, 1526084820947324347200563075841228880386641030797258654568683667454nat, m) == 8389262214751489982054928546103374360267984954198158597582388691553883182625);
    lemma_pm_succ(7, 1526084820947324347200563075841228880386641030797258654568683667454nat, m);
    assert(pm(7, 1526084820947324347200563075841228880386641030797258654568683667455nat, m) == 6288960328134239394936759314537654684185342178859472360473062140938601093862);
    lemma_pm_double(7, 1526084820947324347200563075841228880386641030797258654568683667455nat, m);
    assert(pm(7, 3052169641894648694401126151682457760773282061594517309137367334910nat, m) == 665989970644916338371915622109689019555622705434238262625332351243323324032);
    lemma_pm_succ(7, 3052169641894648694401126151682457760773282061594517309137367334910nat, m);
    assert(pm(7, 3052169641894648694401126151682457760773282061594517309137367334911nat, m) == 4661929794514414368603409354767823136889358938039667838377326458703263268224);
    lemma_pm_double(7, 3052169641894648694401126151682457760773282061594517309137367334911nat, m);
    assert(pm(7, 6104339283789297388802252303364915521546564123189034618274734669822nat, m) == 50568181350999548820779594299814022868006413903614787618168039700263121585327);
    lemma_pm_succ(7, 6104339283789297388802252303364915521546564123189034618274734669822nat, m);
    assert(pm(7, 6104339283789297388802252303364915521546564123189034618274734669823nat, m) == 39362018406239698868770717049582365049901582322137686391554325702210363990211);
    lemma_pm_double(7, 6104339283789297388802252303364915521546564123189034618274734669823nat, m);
    assert(pm(7, 12208678567578594777604504606729831043093128246378069236549469339646nat, m) == 31425961151177751105920284658370442201903010026056432690229163279963658678169);
    lemma_pm_succ(7, 12208678567578594777604504606729831043093128246378069236549469339646nat, m);
    assert(pm(7, 12208678567578594777604504606729831043093128246378069236549469339647nat, m) == 10238227357739495823651030575849232062558860180284477541189508159991286009131);
    lemma_pm_double(7, 12208678567578594777604504606729831043093128246378069236549469339647nat, m);
    assert(pm(7, 24417357135157189555209009213459662086186256492756138473098938679294nat, m) == 34070893824967080313820779135880760772780807222436853681508667398599787661631);
    lemma_pm_double(7, 24417357135157189555209009213459662086186256492756138473098938679294nat, m);
    assert(pm(7, 48834714270314379110418018426919324172372512985512276946197877358588nat, m) == 20094891866007995289136270587723853997043774683345353712639419774914899074390);
    lemma_pm_double(7, 48834714270314379110418018426919324172372512985512276946197877358588nat, m);
    assert(pm(7, 97669428540628758220836036853838648344745025971024553892395754717176nat, m) == 5660829372603820951332104046316074966592589311213397907344198301300676239643);
    lemma_pm_double(7, 97669428540628758220836036853838648344745025971024553892395754717176nat, m);
    assert(pm(7, 195338857081257516441672073707677296689490051942049107784791509434352nat, m) == 37480612446576615530266821837655054090426372233228960378061628060638903214217);
    lemma_pm_double(7, 195338857081257516441672073707677296689490051942049107784791509434352nat, m);
    assert(pm(7, 390677714162515032883344147415354593378980103884098215569583018868704nat, m) == 15932505959375582308231798849995567447410469395474322018100309999481287547373);
    lemma_pm_double(7, 390677714162515032883344147415354593378980103884098215569583018868704nat, m);
    assert(pm(7, 781355428325030065766688294830709186757960207768196431139166037737408nat, m) == 4541622677469846713471916119560591929733417256448031920623614406126544048514);
    lemma_pm_double(7, 781355428325030065766688294830709186757960207768196431139166037737408nat, m);
    assert(pm(7, 1562710856650060131533376589661418373515920415536392862278332075474816nat, m) == 734830308204920577628633053915970695663549910788964686411700880930222744862);
    lemma_pm_double(7, 1562710856650060131533376589661418373515920415536392862278332075474816nat, m);
    assert(pm(7, 3125421713300120263066753179322836747031840831072785724556664150949632nat, m) == 18596002123094854211120822350746157678791770803088570110573239418060655130524);
    lemma_pm_double(7, 3125421713300120263066753179322836747031840831072785724556664150949632nat, m);
    assert(pm(7, 6250843426600240526133506358645673494063681662145571449113328301899264nat, m) == 52167942466760591552294394977846462646742207006759917080697723404762651336366);
    lemma_pm_double(7, 6250843426600240526133506358645673494063681662145571449113328301899264nat, m);
    assert(pm(7, 12501686853200481052267012717291346988127363324291142898226656603798528nat, m) == 4859563557044021881916617240989566298388494151979623102977292742331120628579);
    lemma_pm_double(7, 12501686853200481052267012717291346988127363324291142898226656603798528nat, m);
    assert(pm(7, 25003373706400962104534025434582693976254726648582285796453313207597056nat, m) == 32468834368094611004052562760214251466632493208153926274007662173556188291130);
    lemma_pm_double(7, 25003373706400962104534025434582693976254726648582285796453313207597056nat, m);
    assert(pm(7, 50006747412801924209068050869165387952509453297164571592906626415194112nat, m) == 1755840822790712607783180844474754741366353396308200820563736496551326485835);
    lemma_pm_double(7, 50006747412801924209068050869165387952509453297164571592906626415194112nat, m);
    assert(pm(7, 100013494825603848418136101738330775905018906594329143185813252830388224nat, m) == 37115000097562964541269718788523040559386243094666416358585267518228781043101);
    lemma_pm_double(7, 100013494825603848418136101738330775905018906594329143185813252830388224nat, m);
    assert(pm(7, 200026989651207696836272203476661551810037813188658286371626505660776448nat, m) == 20439484849038267462774237595151440867617792718791690563928621375157525968123);
    lemma_pm_double(7, 200026989651207696836272203476661551810037813188658286371626505660776448nat, m);
    assert(pm(7, 400053979302415393672544406953323103620075626377316572743253011321552896nat, m) == 15495926509001846844474268026226183818445427694968626800913907911890390421264);
    lemma_pm_double(7, 400053979302415393672544406953323103620075626377316572743253011321552896nat, m);
    assert(pm(7, 800107958604830787345088813906646207240151252754633145486506022643105792nat, m) == 15076889834420168339092859836519192632846122361203618639585008852351569017005);
    lemma_pm_double(7, 800107958604830787345088813906646207240151252754633145486506022643105792nat, m);
    assert(pm(7, 1600215917209661574690177627813292414480302505509266290973012045286211584nat, m) == 22872204467218851938836547481240843888453165451755431061227190987689039608686);
    lemma_pm_double(7, 1600215917209661574690177627813292414480302505509266290973012045286211584nat, m);
    assert(pm(7, 3200431834419323149380355255626584828960605011018532581946024090572423168nat, m) == 39072540533732477250409069030641316533649120504872707460480262653418090977761);
    lemma_pm_double(7, 3200431834419323149380355255626584828960605011018532581946024090572423168nat, m);
    assert(pm(7, 6400863668838646298760710511253169657921210022037065163892048181144846336nat, m) == 32731401973776920074999878620293785439674386180695720638377027142500196583783);
    lemma_pm_double(7, 6400863668838646298760710511253169657921210022037065163892048181144846336nat, m);
    assert(pm(7, 12801727337677292597521421022506339315842420044074130327784096362289692672nat, m) == 39033254847818212395286706435128746857159659164139250548781411570340225835782);
    lemma_pm_double(7, 12801727337677292597521421022506339315842420044074130327784096362289692672nat, m);
    assert(pm(7, 25603454675354585195042842045012678631684840088148260655568192724579385344nat, m) == 49307615728544765012166121802278658070711169839041683575071795236746050763237);
    lemma_pm_double(7, 25603454675354585195042842045012678631684840088148260655568192724579385344nat, m);
    assert(pm(7, 51206909350709170390085684090025357263369680176296521311136385449158770688nat, m) == 22781213702924172180523978385542388841346373992886390990881355510284839737428);
    lemma_pm_double(7, 51206909350709170390085684090025357263369680176296521311136385449158770688nat, m);
    assert(pm(7, 102413818701418340780171368180050714526739360352593042622272770898317541376nat, m) == 4214636447306890335450803789410475782380792963881561516561680164772024173390);
    lemma_pm_double(7, 102413818701418340780171368180050714526739360352593042622272770898317541376nat, m);
    assert(pm(7, 204827637402836681560342736360101429053478720705186085244545541796635082752nat, m) == 36007022166693598376559747923784822035233416720563672082740011604939309541707);
    lemma_pm_double(7, 204827637402836681560342736360101429053478720705186085244545541796635082752nat, m);
    assert(pm(7, 409655274805673363120685472720202858106957441410372170489091083593270165504nat, m) == 47309214877430199588914062438791732591241783999377560080318349803002842391998);
    lemma_pm_double(7, 409655274805673363120685472720202858106957441410372170489091083593270165504nat, m);
    assert(pm(7, 819310549611346726241370945440405716213914882820744340978182167186540331008nat, m) == 31519469946562159605140591558550197856588417350474800936898404023113662197331);
    lemma_pm_double(7, 819310549611346726241370945440405716213914882820744340978182167186540331008nat, m);
    assert(pm(7, 1638621099222693452482741890880811432427829765641488681956364334373080662016nat, m) == 36581797046584068049060372878520385032448812009597153775348195406694427778894);
    lemma_pm_double(7, 1638621099222693452482741890880811432427829765641488681956364334373080662016nat, m);
    assert(pm(7, 3277242198445386904965483781761622864855659531282977363912728668746161324032nat, m) == 14788168760825820622209131888203028446852016562542525606630160374691593895118);
    lemma_pm_double(7, 3277242198445386904965483781761622864855659531282977363912728668746161324032nat, m);
    assert(pm(7, 6554484396890773809930967563523245729711319062565954727825457337492322648064nat, m) == 23674694431658770659612952115660802947967373701506253797663184111817857449850);
    lemma_pm_double(7, 6554484396890773809930967563523245729711319062565954727825457337492322648064nat, m);
    assert(pm(7, 13108968793781547619861935127046491459422638125131909455650914674984645296128nat, m) == 3465144826073652318776269530687742778270252468765361963008);
    lemma_pm_double(7, 13108968793781547619861935127046491459422638125131909455650914674984645296128nat, m);
    assert(pm(7, 26217937587563095239723870254092982918845276250263818911301829349969290592256nat, m) == 52435875175126190479447740508185965837690552500527637822603658699938581184512);
}

/// `7^17478625058375396826482580169395321945896850833509212607534552899979527061504 mod 52435875175126190479447740508185965837690552500527637822603658699938581184513`.
proof fn lemma_pow_52435875175126190479447740508185965837690552500527637822603658699938581184513_by_3()
    ensures
        pm(7, 17478625058375396826482580169395321945896850833509212607534552899979527061504nat, fr_modulus() as int) == 228988810152649578064853576960394133503,
{
    let m: int = fr_modulus() as int;
    lemma_pm_one(7, m);
    lemma_pm_double(7, 1nat, m);
    assert(pm(7, 2nat, m) == 49);
    lemma_pm_double(7, 2nat, m);
    assert(pm(7, 4nat, m) == 2401);
    lemma_pm_double(7, 4nat, m);
    assert(pm(7, 8nat, m) == 5764801);
    lemma_pm_succ(7, 8nat, m);
    assert(pm(7, 9nat, m) == 40353607);
    lemma_pm_double(7, 9nat, m);
    assert(pm(7, 18nat, m) == 1628413597910449);
    lemma_pm_succ(7, 18nat, m);
    assert(pm(7, 19nat, m) == 11398895185373143);
    lemma_pm_double(7, 19nat, m);
    assert(pm(7, 38nat, m) == 129934811447123020117172145698449);
    lemma_pm_double(7, 38nat, m);
    assert(pm(7, 76nat, m) == 16883055225799411425266916330285994919148364119538560494041005601);
    lemma_pm_succ(7, 76nat, m);
    assert(pm(7, 77nat, m) == 118181386580595879976868414312001964434038548836769923458287039207);
    lemma_pm_double(7, 77nat, m);
    assert(pm(7, 154nat, m) == 40764103081196876842556696280259346937554948405502555701329145226261842829405);
    lemma_pm_double(7, 154nat, m);
    assert(pm(7, 308nat, m) == 28000572184285543092420738457933470291787120830524181768660028409605576485280);
    lemma_pm_succ(7, 308nat, m);
    assert(pm(7, 309nat, m) == 38696379764620230208601947680976394529438188312086358912809222767423291843421);
    lemma_pm_double(7, 309nat, m);
    assert(pm(7, 618nat, m) == 37651914751171364865593441535777633995415163884281152330702463465846018058821);
    lemma_pm_double(7, 618nat, m);
    assert(pm(7, 1236nat, m) == 23929294306921414280855325789905854678005186807064497969489144474753853004001);
    lemma_pm_double(7, 1236nat, m);
    assert(pm(7, 2472nat, m) == 46019833485515565294971350326482078671550192046901803527661901196174638376443);
    lemma_pm_succ(7, 2472nat, m);
    assert(pm(7, 2473nat, m) == 7523583347851814188113009236258755674708029325146797758011356173590981528023);
    lemma_pm_double(7, 2473nat, m);
    assert(pm(7, 4946nat, m) == 49937468082556280742379179765933191110061932776005211878586843843511871442789);
    lemma_pm_double(7, 4946nat, m);
    assert(pm(7, 9892nat, m) == 20049465452971651046528391187836578872560926418335813792229865806138144154777);
    lemma_pm_double(7, 9892nat, m);
    assert(pm(7, 19784nat, m) == 12628801734290505112759540602865709234553422458445644886925012964299178759937);
    lemma_pm_succ(7, 19784nat, m);
    assert(pm(7, 19785nat, m) == 35965736964907345309869043711873998804183404708591876385871432050155670135046);
    lemma_pm_double(7, 19785nat, m);
    assert(pm(7, 39570nat, m) == 4179305577167864274523677541897497107666038768132127184056419988583553316255);
    lemma_pm_double(7, 39570nat, m);
    assert(pm(7, 79140nat, m) == 31370229569018201158085175490708869910453801143705575906407872929129848123799);
    lemma_pm_double(7, 79140nat, m);
    assert(pm(7, 158280nat, m) == 48018650309246867962869383604104267796963271524401442381374531674816211476191);
    lemma_pm_double(7, 158280nat, m);
    assert(pm(7, 316560nat, m) == 6238455618374910060851613017386769394050400130567735107169705232807919709493);
    lemma_pm_succ(7, 316560nat, m);
    assert(pm(7, 316561nat, m) == 43669189328624370425961291121707385758352800913974145750187936629655437966451);
    lemma_pm_double(7, 316561nat, m);
    assert(pm(7, 633122nat, m) == 2427487669922030244159525434645492710479677351073041410839368719868271768080);
    lemma_pm_succ(7, 633122nat, m);
    assert(pm(7, 633123nat, m) == 16992413689454211709116678042518448973357741457511289875875581039077902376560);
    lemma_pm_double(7, 633123nat, m);
    assert(pm(7, 1266246nat, m) == 45828794776802351583399773071347091020542502157014674427845246858771109310454);
    lemma_pm_double(7, 1266246nat, m);
    assert(pm(7, 2532492nat, m) == 14523698084937337414512436526174337122022178622470539849690931115377385420557);
    lemma_pm_succ(7, 2532492nat, m);
    assert(pm(7, 2532493nat, m) == 49230011419435171422139315175034394016464697856766141125232859107703116759386);
    lemma_pm_double(7, 2532493nat, m);
    assert(pm(7, 5064986nat, m) == 9555744594361043339382811623499332916067421805804999469632929358684146265873);
    lemma_pm_double(7, 5064986nat, m);
    assert(pm(7, 10129972nat, m) == 27283111408024138775097459690939389138132268737087390526564892823267068316098);
    lemma_pm_double(7, 10129972nat, m);
    assert(pm(7, 20259944nat, m) == 28061505338761516197281045779738524225405346320044792670276427335784980958640);
    lemma_pm_double(7, 20259944nat, m);
    assert(pm(7, 40519888nat, m) == 5262507318492284890823338591305939556303088127130849279976661742173487403635);
    lemma_pm_succ(7, 40519888nat, m);
    assert(pm(7, 40519889nat, m) == 36837551229445994235763370139141576894121616889915944959836632195214411825445);
    lemma_pm_double(7, 40519889nat, m);
    assert(pm(7, 81039778nat, m) == 12048993106978940706453206505277115363365077273947109225574627127735148160921);
    lemma_pm_succ(7, 81039778nat, m);
    assert(pm(7, 81039779nat, m) == 31907076573726394465724705028753841705864988417102126756418731194207455941934);
    lemma_pm_double(7, 81039779nat, m);
    assert(pm(7, 162079558nat, m) == 28351395099213360236377636556571268887128754471404038313130687803361525176188);
    lemma_pm_double(7, 162079558nat, m);
    assert(pm(7, 324159116nat, m) == 39449591289361362869415848566865747289780501671044927197562409232769179663614);
    lemma_pm_succ(7, 324159116nat, m);
    assert(pm(7, 324159117nat, m) == 13967763149898587688672237427130401840010749194676301269918571129691351722733);
    lemma_pm_double(7, 324159117nat, m);
    assert(pm(7, 648318234nat, m) == 19084756588195137600173613032413384081708944924587422437042145487289074073007);
    lemma_pm_succ(7, 648318234nat, m);
    assert(pm(7, 648318235nat, m) == 28721545767113582242319810210521756896581509471056681414087701011146356142023);
    lemma_pm_double(7, 648318235nat, m);
    assert(pm(7, 1296636470nat, m) == 31771254669359167766295390914254786451920425605375907022135853419995355522779);
    lemma_pm_succ(7, 1296636470nat, m);
    assert(pm(7, 1296636471nat, m) == 12655281985009412446276774367039641812680769235520797864536339140213163921401);
    lemma_pm_double(7, 1296636471nat, m);
    assert(pm(7, 2593272942nat, m) == 23292062611970100589597397885336929831348707657376749222178055446502444078530);
    lemma_pm_double(7, 2593272942nat, m);
    assert(pm(7, 5186545884nat, m) == 21729531584612613653045714791960324217862645953923835969509956859540838341173);
    lemma_pm_succ(7, 5186545884nat, m);
    assert(pm(7, 5186545885nat, m) == 47234970742035914612424522527350337849657416676411576141362380616908706019185);
    lemma_pm_double(7, 5186545885nat, m);
    assert(pm(7, 10373091770nat, m) == 39576096002457698942114724674822739786499029953310394489417203246244759001881);
    lemma_pm_succ(7, 10373091770nat, m);
    assert(pm(7, 10373091771nat, m) == 14853296141572940197564370182829349317040447170534572312902129224020407090602);
    lemma_pm_double(7, 10373091771nat, m);
    assert(pm(7, 20746183542nat, m) == 34784005879158654585622743080333945522291473717837614962357596110670368526993);
    lemma_pm_succ(7, 20746183542nat, m);
    assert(pm(7, 20746183543nat, m) == 33744540453605820181568239529593755305278106022752753446088537974938254950899);
    lemma_pm_double(7, 20746183543nat, m);
    assert(pm(7, 41492367086nat, m) == 13201219819916478765755547124712879734731198662277811009748361320430315089349);
    lemma_pm_double(7, 41492367086nat, m);
    assert(pm(7, 82984734172nat, m) == 4396455508512346457149031519576078757278307939784776848223595654661249709729);
    lemma_pm_double(7, 82984734172nat, m);
    assert(pm(7, 165969468344nat, m) == 13993724688753577670922282596543800472052733196447807860188537826518121570692);
    lemma_pm_double(7, 165969468344nat, m);
    assert(pm(7, 331938936688nat, m) == 47820167586875556756166344958568960156781764723777330986050450678208326564787);
    lemma_pm_succ(7, 331938936688nat, m);
    assert(pm(7, 331938936689nat, m) == 20125922057371754416477971660866926071329038063275489966731202547826798846431);
    lemma_pm_double(7, 331938936689nat, m);
    assert(pm(7, 663877873378nat, m) == 21218329182814228568722912735536670224766539803092820607484383435587477253917);
    lemma_pm_double(7, 663877873378nat, m);
    assert(pm(7, 1327755746756nat, m) == 24996612904964615722329971553675081000286976299696549535201019535623879400137);
    lemma_pm_double(7, 1327755746756nat, m);
    assert(pm(7, 2655511493512nat, m) == 11226469268656912149328652124573355061027312854330506810436058175536203161767);
    lemma_pm_double(7, 2655511493512nat, m);
    assert(pm(7, 5311022987024nat, m) == 20927256639224119664286754299819462897122410623334350467429297831504843534143);
    lemma_pm_succ(7, 5311022987024nat, m);
    assert(pm(7, 5311022987025nat, m) == 41619046124316456691111799082364308604475769362285177626797767420656742369975);
    lemma_pm_double(7, 5311022987025nat, m);
    assert(pm(7, 10622045974050nat, m) == 14627301634121049408742325073439694445833099901883232204591366361887398506099);
    lemma_pm_double(7, 10622045974050nat, m);
    assert(pm(7, 21244091948100nat, m) == 316467330286569335614710383319438485069879589428833215850771464316884079282);
    lemma_pm_double(7, 21244091948100nat, m);
    assert(pm(7, 42488183896200nat, m) == 50756525325039419126261150943320608948554563562292952607653341940219878205119);
    lemma_pm_succ(7, 42488183896200nat, m);
    assert(pm(7, 42488183896201nat, m) == 40680426224518791007141613554128467613738629932884841317951441381907660328755);
    lemma_pm_double(7, 42488183896201nat, m);
    assert(pm(7, 84976367792402nat, m) == 13620672110153614055845877755496534081171655823027912193851044257231668869301);
    lemma_pm_succ(7, 84976367792402nat, m);
    assert(pm(7, 84976367792403nat, m) == 42908829595949107911473403780289772730511038260667747534353651100683100900594);
    lemma_pm_double(7, 84976367792403nat, m);
    assert(pm(7, 169952735584806nat, m) == 24367252516836881347431002210254352094148438330896942243467627222600307963871);
    lemma_pm_succ(7, 169952735584806nat, m);
    assert(pm(7, 169952735584807nat, m) == 13263142092479597993673793947222567145967410814695682236462414458386412193558);
    lemma_pm_double(7, 169952735584807nat, m);
    assert(pm(7, 339905471169614nat, m) == 32808107157635577703815927485919885132819453044446394287319229893442351752694);
    lemma_pm_double(7, 339905471169614nat, m);
    assert(pm(7, 679810942339228nat, m) == 9473499802051919840515739070250274779621838554991808811094150484799526566363);
    lemma_pm_succ(7, 679810942339228nat, m);
    assert(pm(7, 679810942339229nat, m) == 13878623439237248404162432983565957619662317384415023855055394693658104780028);
    lemma_pm_double(7, 679810942339229nat, m);
    assert(pm(7, 1359621884678458nat, m) == 21813655681998032091487179196844320746381273136482862200150650658080450041016);
    lemma_pm_double(7, 1359621884678458nat, m);
    assert(pm(7, 2719243769356916nat, m) == 36111105673909396919904743846498899230327428406523517348762514431257126042877);
    lemma_pm_succ(7, 2719243769356916nat, m);
    assert(pm(7, 2719243769356917nat, m) == 43034239016861016521542244892748431261529788843554070150922966219045557562087);
    lemma_pm_double(7, 2719243769356917nat, m);
    assert(pm(7, 5438487538713834nat, m) == 14334358548967353065222141463331899698287566949146577322527000845581115623965);
    lemma_pm_double(7, 5438487538713834nat, m);
    assert(pm(7, 10876975077427668nat, m) == 14303450118628149064749001375929545463847713786795715062718431377680865551197);
    lemma_pm_double(7, 10876975077427668nat, m);
    assert(pm(7, 21753950154855336nat, m) == 5884681451336595076873616172417416728411471300806780351777827462973702464683);
    lemma_pm_double(7, 21753950154855336nat, m);
    assert(pm(7, 43507900309710672nat, m) == 51348287906660993084889631842016520066882171899147905883883785725842232417980);
    lemma_pm_succ(7, 43507900309710672nat, m);
    assert(pm(7, 43507900309710673nat, m) == 44822764295869808717540979844999845442031888290869514251564547881264139818782);
    lemma_pm_double(7, 43507900309710673nat, m);
    assert(pm(7, 87015800619421346nat, m) == 35350870602872068196168358808297689135611366057459107874076604759337084286658);
    lemma_pm_succ(7, 87015800619421346nat, m);
    assert(pm(7, 87015800619421347nat, m) == 37712593519599715455387549625339960598517352400103203828121598515605265268554);
    lemma_pm_double(7, 87015800619421347nat, m);
    assert(pm(7, 174031601238842694nat, m) == 45195329267877070769139223170777240075476644512501512997900197019515152940870);
    lemma_pm_double(7, 174031601238842694nat, m);
    assert(pm(7, 348063202477685388nat, m) == 32144331411340783222684032055087295275215826302437671101029493085551763847613);
    lemma_pm_succ(7, 348063202477685388nat, m);
    assert(pm(7, 348063202477685389nat, m) == 15266819178880720640997262352867203575748574114953146416791816799108022195239);
    lemma_pm_double(7, 348063202477685389nat, m);
    assert(pm(7, 696126404955370778nat, m) == 43306914181486765409972021652645459770981572536184700549987211635897446363142);
    lemma_pm_succ(7, 696126404955370778nat, m);
    assert(pm(7, 696126404955370779nat, m) == 40969023394776405472565449027588389208418245250654714736892187951589218619429);
    lemma_pm_double(7, 696126404955370779nat, m);
    assert(pm(7, 1392252809910741558nat, m) == 18543366683611924338629522789567146387844601873755277826782440572010079190591);
    lemma_pm_double(7, 1392252809910741558nat, m);
    assert(pm(7, 2784505619821483116nat, m) == 4555250305816714024007092808483021890660676829216940169238275695725101836277);
    lemma_pm_succ(7, 2784505619821483116nat, m);
    assert(pm(7, 2784505619821483117nat, m) == 31886752140716998168049649659381153234624737804518581184667929870075712853939);
    lemma_pm_double(7, 2784505619821483117nat, m);
    assert(pm(7, 5569011239642966234nat, m) == 25446423378218258681400089857511634342548407241339226179066642105168220969196);
    lemma_pm_double(7, 5569011239642966234nat, m);
    assert(pm(7, 11138022479285932468nat, m) == 40077416077318525269321702178703608293080464903911455169347652934412687453841);
    lemma_pm_succ(7, 11138022479285932468nat, m);
    assert(pm(7, 11138022479285932469nat, m) == 18362536665598724488013212709995428863110491824741997072415277041195906254322);
    lemma_pm_double(7, 11138022479285932469nat, m);
    assert(pm(7, 22276044958571864938nat, m) == 45571967439565550549404613862878625867271293361159288825520894102326032537536);
    lemma_pm_succ(7, 22276044958571864938nat, m);
    assert(pm(7, 22276044958571864939nat, m) == 4388521026201710969145853991034586044755738524949194843024306516650740655674);
    lemma_pm_double(7, 22276044958571864939nat, m);
    assert(pm(7, 44552089917143729878nat, m) == 11251512553891189706948215355775034993408119762315783847343001224194291239838);
    lemma_pm_double(7, 44552089917143729878nat, m);
    assert(pm(7, 89104179834287459756nat, m) == 27486821755023025411255391876330096536878594342250013944450790991298342052244);
    lemma_pm_double(7, 89104179834287459756nat, m);
    assert(pm(7, 178208359668574919512nat, m) == 28291982765544274328930433118253852019034634300152671453959014140408259580431);
    lemma_pm_succ(7, 178208359668574919512nat, m);
    assert(pm(7, 178208359668574919513nat, m) == 40736253833431348864169810303219066620170782599485786709902122883042073509478);
    lemma_pm_double(7, 178208359668574919513nat, m);
    assert(pm(7, 356416719337149839026nat, m) == 15542808553073356784863967719344395196037646829336293006021610188759662389819);
    lemma_pm_succ(7, 356416719337149839026nat, m);
    assert(pm(7, 356416719337149839027nat, m) == 3927909521261116535152293019038834696882422804298775396943953921440474359707);
    lemma_pm_double(7, 356416719337149839027nat, m);
    assert(pm(7, 712833438674299678054nat, m) == 20028920716659457704587856041134964315001733301112513984788701832905456549059);
    lemma_pm_double(7, 712833438674299678054nat, m);
    assert(pm(7, 1425666877348599356108nat, m) == 47139270950504128748670639466821964844724631669607537673557910473646006673341);
    lemma_pm_double(7, 1425666877348599356108nat, m);
    assert(pm(7, 2851333754697198712216nat, m) == 32043705973071208704821100486661888780677032921433972371780294322929307016156);
    lemma_pm_succ(7, 2851333754697198712216nat, m);
    assert(pm(7, 2851333754697198712217nat, m) == 14562441110993699015956741373889358113977020447927255312047425460750824375040);
    lemma_pm_double(7, 2851333754697198712217nat, m);
    assert(pm(7, 5702667509394397424434nat, m) == 38447455463320162010915927150598999802981327653162305067916629733412541095281);
    lemma_pm_succ(7, 5702667509394397424434nat, m);
    assert(pm(7, 5702667509394397424435nat, m) == 6952812367610181679172787513263169432416531069497946362398114634194881744402);
    lemma_pm_double(7, 5702667509394397424435nat, m);
    assert(pm(7, 11405335018788794848870nat, m) == 31785689909513168387088550804424835826065651448356032417887310652203579102395);
    lemma_pm_double(7, 11405335018788794848870nat, m);
    assert(pm(7, 22810670037577589697740nat, m) == 14300269865518705043008788123988827073663527587583395354528619413105408120601);
    lemma_pm_succ(7, 22810670037577589697740nat, m);
    assert(pm(7, 22810670037577589697741nat, m) == 47666013883504744821613776359735823677954140612556129659096677191799275659694);
    lemma_pm_double(7, 22810670037577589697741nat, m);
    assert(pm(7, 45621340075155179395482nat, m) == 27553038090746318896701195657220616543357086239893074795980292365563461118928);
    lemma_pm_double(7, 45621340075155179395482nat, m);
    assert(pm(7, 91242680150310358790964nat, m) == 3581504944267374117722508737182761289920317422189409719061264937758497686029);
    lemma_pm_double(7, 91242680150310358790964nat, m);
    assert(pm(7, 182485360300620717581928nat, m) == 13240055920533648125017627777403887410741775921812200148641248232361943761173);
    lemma_pm_double(7, 182485360300620717581928nat, m);
    assert(pm(7, 364970720601241435163856nat, m) == 29918599429579253958133023955639822432492699894022912046770330034909991222481);
    lemma_pm_succ(7, 364970720601241435163856nat, m);
    assert(pm(7, 364970720601241435163857nat, m) == 52122570481676206268587946164920859514377241756577470859581334144554195003828);
    lemma_pm_double(7, 364970720601241435163857nat, m);
    assert(pm(7, 729941441202482870327714nat, m) == 21383073205020732014377485992724457885852088347966465916145057788109650492425);
    lemma_pm_double(7, 729941441202482870327714nat, m);
    assert(pm(7, 1459882882404965740655428nat, m) == 9732965118107538010584910636229830208900647071941721894763075664796669422440);
    lemma_pm_double(7, 1459882882404965740655428nat, m);
    assert(pm(7, 2919765764809931481310856nat, m) == 2509224810138127916332935104555713230830285823232248144867497187170538076473);
    lemma_pm_succ(7, 2919765764809931481310856nat, m);
    assert(pm(7, 2919765764809931481310857nat, m) == 17564573670966895414330545731889992615812000762625737014072480310193766535311);
    lemma_pm_double(7, 2919765764809931481310857nat, m);
    assert(pm(7, 5839531529619862962621714nat, m) == 27361503083443113021419789927317628795995272063606253383213009469399334552494);
    lemma_pm_succ(7, 5839531529619862962621714nat, m);
    assert(pm(7, 5839531529619862962621715nat, m) == 34222896058723219711595307966665504058895246943660860214680090185979598313919);
    lemma_pm_double(7, 5839531529619862962621715nat, m);
    assert(pm(7, 11679063059239725925243430nat, m) == 7306881935270385792338591925915052588173398368615509075987730240773198928822);
    lemma_pm_succ(7, 11679063059239725925243430nat, m);
    assert(pm(7, 11679063059239725925243431nat, m) == 51148173546892700546370143481405368117213788580308563531914111685412392501754);
    lemma_pm_double(7, 11679063059239725925243431nat, m);
    assert(pm(7, 23358126118479451850486862nat, m) == 8614382372498693633451545990580324572386249567424366944144887045164350488408);
    lemma_pm_double(7, 23358126118479451850486862nat, m);
    assert(pm(7, 46716252236958903700973724nat, m) == 37170153592624977526682418095228338332215886675671188229829181116937739313417);
    lemma_pm_succ(7, 46716252236958903700973724nat, m);
    assert(pm(7, 46716252236958903700973725nat, m) == 50447574447870080768985964633854504974748996727587766318389633018809850455867);
    lemma_pm_double(7, 46716252236958903700973725nat, m);
    assert(pm(7, 93432504473917807401947450nat, m) == 49694386849178192120473922765818847071927590590252397920473800023374656062183);
    lemma_pm_double(7, 93432504473917807401947450nat, m);
    assert(pm(7, 186865008947835614803894900nat, m) == 47712757062038963867128898154058029750422148160232553854416848994057968462177);
    lemma_pm_succ(7, 186865008947835614803894900nat, m);
    assert(pm(7, 186865008947835614803894901nat, m) == 19374048383515604193215844029290413226811722118462050045295990758774292128161);
    lemma_pm_double(7, 186865008947835614803894901nat, m);
    assert(pm(7, 373730017895671229607789802nat, m) == 49968325209135267161972799794186266654645815252330758573868206104316430431194);
    lemma_pm_double(7, 373730017895671229607789802nat, m);
    assert(pm(7, 747460035791342459215579604nat, m) == 23250869432804653401501238558824821805184376520393376930675928112071787721723);
    lemma_pm_succ(7, 747460035791342459215579604nat, m);
    assert(pm(7, 747460035791342459215579605nat, m) == 5448460504254002372165448387215855123218978141170725046920520684686770498522);
    lemma_pm_double(7, 747460035791342459215579605nat, m);
    assert(pm(7, 1494920071582684918431159210nat, m) == 22803862812963861710220287381047485399706442577639179249239318938451722736617);
    lemma_pm_succ(7, 1494920071582684918431159210nat, m);
    assert(pm(7, 1494920071582684918431159211nat, m) == 2319414165368460533198790142774500284873440541891341276864256469346315602780);
    lemma_pm_double(7, 1494920071582684918431159211nat, m);
    assert(pm(7, 2989840143165369836862318422nat, m) == 1059338690470831589990314999761201648366187070208885164817096591083509581580);
    lemma_pm_double(7, 2989840143165369836862318422nat, m);
    assert(pm(7, 5979680286330739673724636844nat, m) == 50608557605273764028157004184140455595706194799385487687444427503421806007537);
    lemma_pm_double(7, 5979680286330739673724636844nat, m);
    assert(pm(7, 11959360572661479347449273688nat, m) == 6011585381710485568947999951739639284175567488869568441688221073786346342810);
    lemma_pm_double(7, 11959360572661479347449273688nat, m);
    assert(pm(7, 23918721145322958694898547376nat, m) == 37785351062848766883913073655890741322850376082193111389084756881255566203244);
    lemma_pm_double(7, 23918721145322958694898547376nat, m);
    assert(pm(7, 47837442290645917389797094752nat, m) == 37142990860347800493609463307598863219172232192766908030901070402322385973256);
    lemma_pm_double(7, 47837442290645917389797094752nat, m);
    assert(pm(7, 95674884581291834779594189504nat, m) == 18632028826395913687262767903062749688978623662644809627300916096435874954374);
    lemma_pm_double(7, 95674884581291834779594189504nat, m);
    assert(pm(7, 191349769162583669559188379008nat, m) == 17058561483133899917691530702281288781271425502496949275444822457000121110084);
    lemma_pm_double(7, 191349769162583669559188379008nat, m);
    assert(pm(7, 382699538325167339118376758016nat, m) == 51658634547898860859751156986277561373346957654628916691119360472779067746176);
    lemma_pm_double(7, 382699538325167339118376758016nat, m);
    assert(pm(7, 765399076650334678236753516032nat, m) == 51958743418532481552095977294758604826053351438641197630110982646763052161240);
    lemma_pm_double(7, 765399076650334678236753516032nat, m);
    assert(pm(7, 1530798153300669356473507032064nat, m) == 43312446089957556176634859962948506393201636162108541802126983717204674586850);
    lemma_pm_succ(7, 1530798153300669356473507032064nat, m);
    assert(pm(7, 1530798153300669356473507032065nat, m) == 41007746754071940839205317199709715563958690632121603501870592520739816185385);
    lemma_pm_double(7, 1530798153300669356473507032065nat, m);
    assert(pm(7, 3061596306601338712947014064130nat, m) == 21079851704883530562012010622780553330215421382650968633744117812325094164600);
    lemma_pm_succ(7, 3061596306601338712947014064130nat, m);
    assert(pm(7, 3061596306601338712947014064131nat, m) == 42687211583932332975188593343091941636126844677501504791001507286398496783174);
    lemma_pm_double(7, 3061596306601338712947014064131nat, m);
    assert(pm(7, 6123192613202677425894028128262nat, m) == 33033351370148606375557260180358012012377386846506228225506447654033215713622);
    lemma_pm_double(7, 6123192613202677425894028128262nat, m);
    assert(pm(7, 12246385226405354851788056256524nat, m) == 11250359802225149302142802197563234269061269449160775610231152463208385338911);
    lemma_pm_double(7, 12246385226405354851788056256524nat, m);
    assert(pm(7, 24492770452810709703576112513048nat, m) == 26850961623313524628044900606125318939886250760219375240705407286677762960302);
    lemma_pm_succ(7, 24492770452810709703576112513048nat, m);
    assert(pm(7, 24492770452810709703576112513049nat, m) == 30649105837816100957971082718319335066132097819952713217126874906928597168575);
    lemma_pm_double(7, 24492770452810709703576112513049nat, m);
    assert(pm(7, 48985540905621419407152225026098nat, m) == 832365155650240451277402519678105956126699956027932654542722159203028731047);
    lemma_pm_succ(7, 48985540905621419407152225026098nat, m);
    assert(pm(7, 48985540905621419407152225026099nat, m) == 5826556089551683158941817637746741692886899692195528581799055114421201117329);
    lemma_pm_double(7, 48985540905621419407152225026099nat, m);
    assert(pm(7, 97971081811242838814304450052198nat, m) == 10489265266385007180151998618018864090052080060987160091593362902583233353866);
    lemma_pm_double(7, 97971081811242838814304450052198nat, m);
    assert(pm(7, 195942163622485677628608900104396nat, m) == 35750955580351813929941678044230058069462763712325778018975532455426044714473);
    lemma_pm_succ(7, 195942163622485677628608900104396nat, m);
    assert(pm(7, 195942163622485677628608900104397nat, m) == 40513188361957935591800784276866543135477135984169894842414092388227988263259);
    lemma_pm_double(7, 195942163622485677628608900104397nat, m);
    assert(pm(7, 391884327244971355257217800208794nat, m) == 14358822337440947084788312741232451738763296221616046850129769145698372345921);
    lemma_pm_double(7, 391884327244971355257217800208794nat, m);
    assert(pm(7, 783768654489942710514435600417588nat, m) == 18296400196214441319845651901738351342047598205608864225594711918291096061138);
    lemma_pm_succ(7, 783768654489942710514435600417588nat, m);
    assert(pm(7, 783768654489942710514435600417589nat, m) == 23203051023248708280024082295796527718952082438206773933955666028160510058940);
    lemma_pm_double(7, 783768654489942710514435600417589nat, m);
    assert(pm(7, 1567537308979885421028871200835178nat, m) == 50068010693521952602638476466766840837443265014464084186435693321792977318451);
    lemma_pm_succ(7, 1567537308979885421028871200835178nat, m);
    assert(pm(7, 1567537308979885421028871200835179nat, m) == 35860823803896525341782892218252090835959540098082762369427901052919354122079);
    lemma_pm_double(7, 1567537308979885421028871200835179nat, m);
    assert(pm(7, 3135074617959770842057742401670358nat, m) == 32702281121724557504257908800518673096843567930164405368495922673163202160130);
    lemma_pm_succ(7, 3135074617959770842057742401670358nat, m);
    assert(pm(7, 3135074617959770842057742401670359nat, m) == 19172467151567140612014399570886848327142765509040286289056823912388090382858);
    lemma_pm_double(7, 3135074617959770842057742401670359nat, m);
    assert(pm(7, 6270149235919541684115484803340718nat, m) == 918115495302094554807623490827361514952187358133013623541878864912738132360);
    lemma_pm_succ(7, 6270149235919541684115484803340718nat, m);
    assert(pm(7, 6270149235919541684115484803340719nat, m) == 6426808467114661883653364435791530604665311506931095364793152054389166926520);
    lemma_pm_double(7, 6270149235919541684115484803340719nat, m);
    assert(pm(7, 12540298471839083368230969606681438nat, m) == 27996549435833051782996693287258765349986047392113923734788835598903735247388);
    lemma_pm_succ(7, 12540298471839083368230969606681438nat, m);
    assert(pm(7, 12540298471839083368230969606681439nat, m) == 38668220525452791042633631486253459936830674243214552675710873092510403178177);
    lemma_pm_double(7, 12540298471839083368230969606681439nat, m);
    assert(pm(7, 25080596943678166736461939213362878nat, m) == 19110249092591313193072608894978647282121484337092203050471298711303129615974);
    lemma_pm_double(7, 25080596943678166736461939213362878nat, m);
    assert(pm(7, 50161193887356333472923878426725756nat, m) == 9220321859787531546687899715056738446040575479686980295683458912122033604231);
    lemma_pm_double(7, 50161193887356333472923878426725756nat, m);
    assert(pm(7, 100322387774712666945847756853451512nat, m) == 37922997484768780476641392618245625740044461064696480231876684441617833987569);
    lemma_pm_succ(7, 100322387774712666945847756853451512nat, m);
    assert(pm(7, 100322387774712666945847756853451513nat, m) == 3281606517750510939251045786789550991858464950237172510118497591631931990418);
    lemma_pm_double(7, 100322387774712666945847756853451513nat, m);
    assert(pm(7, 200644775549425333891695513706903026nat, m) == 30885041323326746918309055896629705904106859391603372500257655507628589476951);
    lemma_pm_double(7, 200644775549425333891695513706903026nat, m);
    assert(pm(7, 401289551098850667783391027413806052nat, m) == 47455660778261887335633471949298375249272704689361551974332403936834475636304);
    lemma_pm_succ(7, 401289551098850667783391027413806052nat, m);
    assert(pm(7, 401289551098850667783391027413806053nat, m) == 17574374397076068472747860595972831718765617822365036884704875358209842347050);
    lemma_pm_double(7, 401289551098850667783391027413806053nat, m);
    assert(pm(7, 802579102197701335566782054827612106nat, m) == 43538992606881727299497382004239201310601628261357065579000217024226944423109);
    lemma_pm_double(7, 802579102197701335566782054827612106nat, m);
    assert(pm(7, 1605158204395402671133564109655224212nat, m) == 44485527040776315736125417215011570990578866530828956965334907402149775028202);
    lemma_pm_succ(7, 1605158204395402671133564109655224212nat, m);
    assert(pm(7, 1605158204395402671133564109655224213nat, m) == 49219313409803257755639217964151167745599303213164509644326058315355519274849);
    lemma_pm_double(7, 1605158204395402671133564109655224213nat, m);
    assert(pm(7, 3210316408790805342267128219310448426nat, m) == 21169915347860801378904920922895976134322972638443851006268361383372418576057);
    lemma_pm_double(7, 3210316408790805342267128219310448426nat, m);
    assert(pm(7, 6420632817581610684534256438620896852nat, m) == 37490502766056925518480476629513783416248965748762470006121724594561212248922);
    lemma_pm_succ(7, 6420632817581610684534256438620896852nat, m);
    assert(pm(7, 6420632817581610684534256438620896853nat, m) == 254143486767526232124633865666654725289997738699100929833778662235579819889);
    lemma_pm_double(7, 6420632817581610684534256438620896853nat, m);
    assert(pm(7, 12841265635163221369068512877241793706nat, m) == 30564515393671480064837204285676575552199529108358654860517505272806637199420);
    lemma_pm_succ(7, 12841265635163221369068512877241793706nat, m);
    assert(pm(7, 12841265635163221369068512877241793707nat, m) == 4208107055195598536069467966992165514634493756400032733207902109892135657888);
    lemma_pm_double(7, 12841265635163221369068512877241793707nat, m);
    assert(pm(7, 25682531270326442738137025754483587414nat, m) == 16328017782647899880668209650775135892441456020608349177252585188364260107024);
    lemma_pm_double(7, 25682531270326442738137025754483587414nat, m);
    assert(pm(7, 51365062540652885476274051508967174828nat, m) == 21186291875923738416350455434674531468688599554447509109119324084295261222641);
    lemma_pm_double(7, 51365062540652885476274051508967174828nat, m);
    assert(pm(7, 102730125081305770952548103017934349656nat, m) == 2853778554604401742285085316966578375142492726409459790675656408829016335670);
    lemma_pm_double(7, 102730125081305770952548103017934349656nat, m);
    assert(pm(7, 205460250162611541905096206035868699312nat, m) == 31532440719008104756822334808756250908234838669953760092966431941137427959812);
    lemma_pm_succ(7, 205460250162611541905096206035868699312nat, m);
    assert(pm(7, 205460250162611541905096206035868699313nat, m) == 10983584332551971379965381628549893006881660687565769360350388788207670980632);
    lemma_pm_double(7, 205460250162611541905096206035868699313nat, m);
    assert(pm(7, 410920500325223083810192412071737398626nat, m) == 14779460515117900143465618855552752258508742368254291847882208326306600497414);
    lemma_pm_succ(7, 410920500325223083810192412071737398626nat, m);
    assert(pm(7, 410920500325223083810192412071737398627nat, m) == 51020348430699110524811591480683299971870644077252405112571799584207622297385);
    lemma_pm_double(7, 410920500325223083810192412071737398627nat, m);
    assert(pm(7, 821841000650446167620384824143474797254nat, m) == 44206335474663172989055232123154312241886108126000976596201783937491752281771);
    lemma_pm_succ(7, 821841000650446167620384824143474797254nat, m);
    assert(pm(7, 821841000650446167620384824143474797255nat, m) == 47264972447011258526147922321150356504749994379368647060394194062749360049832);
    lemma_pm_double(7, 821841000650446167620384824143474797255nat, m);
    assert(pm(7, 1643682001300892335240769648286949594510nat, m) == 35251174822260592240156807199346190513586838719161338016925940372249041896869);
    lemma_pm_double(7, 1643682001300892335240769648286949594510nat, m);
    assert(pm(7, 3287364002601784670481539296573899189020nat, m) == 51899554861585964847000437268388188899889842002305234119945959327424283784253);
    lemma_pm_double(7, 3287364002601784670481539296573899189020nat, m);
    assert(pm(7, 6574728005203569340963078593147798378040nat, m) == 49094564992653274808695597780783121605927549801323161903617018266237987163256);
    lemma_pm_double(7, 6574728005203569340963078593147798378040nat, m);
    assert(pm(7, 13149456010407138681926157186295596756080nat, m) == 26247990091004644875766167053629976537329193627177755528744985142328347517800);
    lemma_pm_succ(7, 13149456010407138681926157186295596756080nat, m);
    assert(pm(7, 13149456010407138681926157186295596756081nat, m) == 26428305111653942692019947850851938248232697888661375233403919896482689071061);
    lemma_pm_double(7, 13149456010407138681926157186295596756081nat, m);
    assert(pm(7, 26298912020814277363852314372591193512162nat, m) == 50942714654140912529127480887275528861844203627236194132545371184717417768008);
    lemma_pm_double(7, 26298912020814277363852314372591193512162nat, m);
    assert(pm(7, 52597824041628554727704628745182387024324nat, m) == 17819332993889971065351910281453115745727622930780277808311391856380595327850);
    lemma_pm_double(7, 52597824041628554727704628745182387024324nat, m);
    assert(pm(7, 105195648083257109455409257490364774048648nat, m) == 39306640858979276782736946446946517178971769959431164901596330408118538108130);
    lemma_pm_succ(7, 105195648083257109455409257490364774048648nat, m);
    assert(pm(7, 105195648083257109455409257490364774048649nat, m) == 12967110137223985081919922587695791064349627213379965198156019357136860834345);
    lemma_pm_double(7, 105195648083257109455409257490364774048649nat, m);
    assert(pm(7, 210391296166514218910818514980729548097298nat, m) == 15498258294266175176470951666546756694951725150292226584076136966754481059240);
    lemma_pm_succ(7, 210391296166514218910818514980729548097298nat, m);
    assert(pm(7, 210391296166514218910818514980729548097299nat, m) == 3616057709610845276401180649455365189280971050990310443325641367404205045654);
    lemma_pm_double(7, 210391296166514218910818514980729548097299nat, m);
    assert(pm(7, 420782592333028437821637029961459096194598nat, m) == 18830341465240920674666590383393025317697964616244595929750935187008097604852);
    lemma_pm_succ(7, 420782592333028437821637029961459096194598nat, m);
    assert(pm(7, 420782592333028437821637029961459096194599nat, m) == 26940639906434063763770651667379245548504647312656895863049228909179520864938);
    lemma_pm_double(7, 420782592333028437821637029961459096194599nat, m);
    assert(pm(7, 841565184666056875643274059922918192389198nat, m) == 12702841693354868399882577623461720051649432533765257318439104622243316910044);
    lemma_pm_succ(7, 841565184666056875643274059922918192389198nat, m);
    assert(pm(7, 841565184666056875643274059922918192389199nat, m) == 36484016678357888319730302856046074523855475235829163406470073655764637185795);
    lemma_pm_double(7, 841565184666056875643274059922918192389199nat, m);
    assert(pm(7, 1683130369332113751286548119845836384778398nat, m) == 7777078018217659998567797227897929072011237058669915279990530501009833272530);
    lemma_pm_succ(7, 1683130369332113751286548119845836384778398nat, m);
    assert(pm(7, 1683130369332113751286548119845836384778399nat, m) == 2003670952397429510526840087099537666388106910161769137330054807130251723197);
    lemma_pm_double(7, 1683130369332113751286548119845836384778399nat, m);
    assert(pm(7, 3366260738664227502573096239691672769556798nat, m) == 35598884160511711152910146336346125125473744347261677482772191802759120901690);
    lemma_pm_succ(7, 3366260738664227502573096239691672769556798nat, m);
    assert(pm(7, 3366260738664227502573096239691672769556799nat, m) == 39448688423077216152580062321679012527554000428721191088990707819559521573778);
    lemma_pm_double(7, 3366260738664227502573096239691672769556799nat, m);
    assert(pm(7, 6732521477328455005146192479383345539113598nat, m) == 18461620791304023629384260199291990858251314628583402619966119683109646441780);
    lemma_pm_double(7, 6732521477328455005146192479383345539113598nat, m);
    assert(pm(7, 13465042954656910010292384958766691078227196nat, m) == 31867466127289436866482004416332394651132236194236630433431683193025402114240);
    lemma_pm_double(7, 13465042954656910010292384958766691078227196nat, m);
    assert(pm(7, 26930085909313820020584769917533382156454392nat, m) == 23998747808648519631311028776316455406233793874487232739560310104151324056524);
    lemma_pm_succ(7, 26930085909313820020584769917533382156454392nat, m);
    assert(pm(7, 26930085909313820020584769917533382156454393nat, m) == 10683609135161065980833979909657290330564899619827715709111194629243524842129);
    lemma_pm_double(7, 26930085909313820020584769917533382156454393nat, m);
    assert(pm(7, 53860171818627640041169539835066764312908786nat, m) == 36978807814230333559234380635998986124640918679690706953325275501013101633689);
    lemma_pm_succ(7, 53860171818627640041169539835066764312908786nat, m);
    assert(pm(7, 53860171818627640041169539835066764312908787nat, m) == 49108153999107572996849702419249039521724220755724397382862293707337386697771);
    lemma_pm_double(7, 53860171818627640041169539835066764312908787nat, m);
    assert(pm(7, 107720343637255280082339079670133528625817574nat, m) == 29314188188545448849111005626755685389968034449017461687382325357193900023941);
    lemma_pm_double(7, 107720343637255280082339079670133528625817574nat, m);
    assert(pm(7, 215440687274510560164678159340267057251635148nat, m) == 861306102500664799777627451612621697494154240105254447501181141487778613573);
    lemma_pm_succ(7, 215440687274510560164678159340267057251635148nat, m);
    assert(pm(7, 215440687274510560164678159340267057251635149nat, m) == 6029142717504653598443392161288351882459079680736781132508267990414450295011);
    lemma_pm_double(7, 215440687274510560164678159340267057251635149nat, m);
    assert(pm(7, 430881374549021120329356318680534114503270298nat, m) == 14869830568337961726516634243054983096778049416956310179234909053766936559399);
    lemma_pm_succ(7, 430881374549021120329356318680534114503270298nat, m);
    assert(pm(7, 430881374549021120329356318680534114503270299nat, m) == 51652938803239541606168699193198915839755793418166533432040704676429974731280);
    lemma_pm_double(7, 430881374549021120329356318680534114503270299nat, m);
    assert(pm(7, 861762749098042240658712637361068229006540598nat, m) == 13798073461774574469072420382694970740770832642535270634178927148698828549002);
    lemma_pm_double(7, 861762749098042240658712637361068229006540598nat, m);
    assert(pm(7, 1723525498196084481317425274722136458013081196nat, m) == 36136066420947476592590696404041514624423305981801665725564561092778929010847);
    lemma_pm_succ(7, 1723525498196084481317425274722136458013081196nat, m);
    assert(pm(7, 1723525498196084481317425274722136458013081197nat, m) == 43208964246127574230343912795546739020200931870501108788537292849698178337877);
    lemma_pm_double(7, 1723525498196084481317425274722136458013081197nat, m);
    assert(pm(7, 3447050996392168962634850549444272916026162394nat, m) == 26821005871442907644623214597519353647568821079309746939087145326637353805163);
    lemma_pm_double(7, 3447050996392168962634850549444272916026162394nat, m);
    assert(pm(7, 6894101992784337925269701098888545832052324788nat, m) == 7720671080742344437243315786582042591692536382904012932625288285489551419802);
    lemma_pm_succ(7, 6894101992784337925269701098888545832052324788nat, m);
    assert(pm(7, 6894101992784337925269701098888545832052324789nat, m) == 1608822390070220581255469997888332304157202179800452705773359298488278754101);
    lemma_pm_double(7, 6894101992784337925269701098888545832052324789nat, m);
    assert(pm(7, 13788203985568675850539402197777091664104649578nat, m) == 32869229814177083628518592351476297548532683765223311704189976101798321241987);
    lemma_pm_double(7, 13788203985568675850539402197777091664104649578nat, m);
    assert(pm(7, 27576407971137351701078804395554183328209299156nat, m) == 31278520676214480738248217785233205984201144080268016029506493220957561604827);
    lemma_pm_succ(7, 27576407971137351701078804395554183328209299156nat, m);
    assert(pm(7, 27576407971137351701078804395554183328209299157nat, m) == 9206144032996603249946562463888578538645798559765560916130817746948606495737);
    lemma_pm_double(7, 27576407971137351701078804395554183328209299157nat, m);
    assert(pm(7, 55152815942274703402157608791108366656418598314nat, m) == 9621026399605595661764464773845577611230312776155179404405221850292528748498);
    lemma_pm_double(7, 55152815942274703402157608791108366656418598314nat, m);
    assert(pm(7, 110305631884549406804315217582216733312837196628nat, m) == 30682740952647766907228643202076370391526965295438827460131848143156582305547);
    lemma_pm_succ(7, 110305631884549406804315217582216733312837196628nat, m);
    assert(pm(7, 110305631884549406804315217582216733312837196629nat, m) == 5035685968029606432809540381790729389926547065961240930508302202341751400777);
    lemma_pm_double(7, 110305631884549406804315217582216733312837196629nat, m);
    assert(pm(7, 220611263769098813608630435164433466625674393258nat, m) == 41695008672372919178278758165345750839004109949974629500852858847585656659814);
    lemma_pm_succ(7, 220611263769098813608630435164433466625674393258nat, m);
    assert(pm(7, 220611263769098813608630435164433466625674393259nat, m) == 29685684830979481850712604616490426684576007147184217392951718433406690696133);
    lemma_pm_double(7, 220611263769098813608630435164433466625674393259nat, m);
    assert(pm(7, 441222527538197627217260870328866933251348786518nat, m) == 47951849116739843940031328551006387188124212825056194898643821837172775502434);
    lemma_pm_succ(7, 441222527538197627217260870328866933251348786518nat, m);
    assert(pm(7, 441222527538197627217260870328866933251348786519nat, m) == 21047692766421764703532856807928915290726174772227537354884800660577941409960);
    lemma_pm_double(7, 441222527538197627217260870328866933251348786519nat, m);
    assert(pm(7, 882445055076395254434521740657733866502697573038nat, m) == 50213410627833881485633450392213965691798874876317054595822026538533810821700);
    lemma_pm_double(7, 882445055076395254434521740657733866502697573038nat, m);
    assert(pm(7, 1764890110152790508869043481315467733005395146076nat, m) == 29311349026304331744986385858639932122644239714618006047940250925773068966120);
    lemma_pm_succ(7, 1764890110152790508869043481315467733005395146076nat, m);
    assert(pm(7, 1764890110152790508869043481315467733005395146077nat, m) == 47871817658751750776561479485921627345438020500743128867770780380595739209301);
    lemma_pm_double(7, 1764890110152790508869043481315467733005395146077nat, m);
    assert(pm(7, 3529780220305581017738086962630935466010790292154nat, m) == 10067871735701078915991740450406865978658641653488461710446372749058449331422);
    lemma_pm_double(7, 3529780220305581017738086962630935466010790292154nat, m);
    assert(pm(7, 7059560440611162035476173925261870932021580584308nat, m) == 22662897966370064536311298841702159502165521915363098008127646410099302018446);
    lemma_pm_succ(7, 7059560440611162035476173925261870932021580584308nat, m);
    assert(pm(7, 7059560440611162035476173925261870932021580584309nat, m) == 1332660239211880315835870367357219002086995905958772589082548770879370575583);
    lemma_pm_double(7, 7059560440611162035476173925261870932021580584309nat, m);
    assert(pm(7, 14119120881222324070952347850523741864043161168618nat, m) == 6573625522413548236800862071403869946113222275565804759478388972066956587574);
    lemma_pm_double(7, 14119120881222324070952347850523741864043161168618nat, m);
    assert(pm(7, 28238241762444648141904695701047483728086322337236nat, m) == 9633440647595360131291271285246270265377956856187208227313416815153523347280);
    lemma_pm_succ(7, 28238241762444648141904695701047483728086322337236nat, m);
    assert(pm(7, 28238241762444648141904695701047483728086322337237nat, m) == 14998209358041330439591158488537926019955145492782819768590259006136082246447);
    lemma_pm_double(7, 28238241762444648141904695701047483728086322337237nat, m);
    assert(pm(7, 56476483524889296283809391402094967456172644674474nat, m) == 3543195700774057006022139920571515250332428827400308706877885256276831104726);
    lemma_pm_double(7, 56476483524889296283809391402094967456172644674474nat, m);
    assert(pm(7, 112952967049778592567618782804189934912345289348948nat, m) == 10913872526522358816213460551235631955998739629175942793769989144917542159464);
    lemma_pm_succ(7, 112952967049778592567618782804189934912345289348948nat, m);
    assert(pm(7, 112952967049778592567618782804189934912345289348949nat, m) == 23961232510530321234046483350463457854300624903703961733786265314484213931735);
    lemma_pm_double(7, 112952967049778592567618782804189934912345289348949nat, m);
    assert(pm(7, 225905934099557185135237565608379869824690578697898nat, m) == 24460290460758655195186021667120115784043172098090292258364991799677426727627);
    lemma_pm_double(7, 225905934099557185135237565608379869824690578697898nat, m);
    assert(pm(7, 451811868199114370270475131216759739649381157395796nat, m) == 47830523559140240608927320128819906328814197498033355781565218963812720759291);
    lemma_pm_succ(7, 451811868199114370270475131216759739649381157395796nat, m);
    assert(pm(7, 451811868199114370270475131216759739649381157395797nat, m) == 20198413863224541385804797852623549275556067483067663535334580547057558207959);
    lemma_pm_double(7, 451811868199114370270475131216759739649381157395797nat, m);
    assert(pm(7, 903623736398228740540950262433519479298762314791594nat, m) == 33713213825595821617575688117316624468959120754300024011275770055352130281786);
    lemma_pm_double(7, 903623736398228740540950262433519479298762314791594nat, m);
    assert(pm(7, 1807247472796457481081900524867038958597524629583188nat, m) == 27248039451200393706512519823767064234172045125523823835942683365761564113113);
    lemma_pm_succ(7, 1807247472796457481081900524867038958597524629583188nat, m);
    assert(pm(7, 1807247472796457481081900524867038958597524629583189nat, m) == 33428650633024184507244417241811552126132658377083853383787807460515205238252);
    lemma_pm_double(7, 1807247472796457481081900524867038958597524629583189nat, m);
    assert(pm(7, 3614494945592914962163801049734077917195049259166378nat, m) == 31458905431601667633023366592163591411667392390822161572743988233584712248587);
    lemma_pm_double(7, 3614494945592914962163801049734077917195049259166378nat, m);
    assert(pm(7, 7228989891185829924327602099468155834390098518332756nat, m) == 49477144093297877905340792404147850778350046342464709310617177456186685157046);
    lemma_pm_succ(7, 7228989891185829924327602099468155834390098518332756nat, m);
    assert(pm(7, 7228989891185829924327602099468155834390098518332757nat, m) == 31724757602328002460699103779919160422307009394087138238698289993675308992244);
    lemma_pm_double(7, 7228989891185829924327602099468155834390098518332757nat, m);
    assert(pm(7, 14457979782371659848655204198936311668780197036665514nat, m) == 15542649796542259044355529681267861591374271687273400257830815616989679261880);
    lemma_pm_double(7, 14457979782371659848655204198936311668780197036665514nat, m);
    assert(pm(7, 28915959564743319697310408397872623337560394073331028nat, m) == 16421276018080887573074802381072069510810063467266626193605030510766165029136);
    lemma_pm_double(7, 28915959564743319697310408397872623337560394073331028nat, m);
    assert(pm(7, 57831919129486639394620816795745246675120788146662056nat, m) == 27616746877486872828360607186977977233825133575359821739119736270608193745680);
    lemma_pm_double(7, 57831919129486639394620816795745246675120788146662056nat, m);
    assert(pm(7, 115663838258973278789241633591490493350241576293324112nat, m) == 22349245653446896524341315351980169091842762964364925705139506698244803781346);
    lemma_pm_double(7, 115663838258973278789241633591490493350241576293324112nat, m);
    assert(pm(7, 231327676517946557578483267182980986700483152586648224nat, m) == 29832469820255023196039326048938948529327594557672097689746368873601098772991);
    lemma_pm_succ(7, 231327676517946557578483267182980986700483152586648224nat, m);
    assert(pm(7, 231327676517946557578483267182980986700483152586648225nat, m) == 51519663216406590933932060818014742192221504402121770360413606015391947857398);
    lemma_pm_double(7, 231327676517946557578483267182980986700483152586648225nat, m);
    assert(pm(7, 462655353035893115156966534365961973400966305173296450nat, m) == 17023968011005434961232763438599376684036799782636128336601243138273721283489);
    lemma_pm_succ(7, 462655353035893115156966534365961973400966305173296450nat, m);
    assert(pm(7, 462655353035893115156966534365961973400966305173296451nat, m) == 14296025726785663769733863053823705112876493477397622711001384568038886615397);
    lemma_pm_double(7, 462655353035893115156966534365961973400966305173296451nat, m);
    assert(pm(7, 925310706071786230313933068731923946801932610346592902nat, m) == 46022413480722916433647561424929072184676054445471016006777192392947563358008);
    lemma_pm_succ(7, 925310706071786230313933068731923946801932610346592902nat, m);
    assert(pm(7, 925310706071786230313933068731923946801932610346592903nat, m) == 7541643314303272158846486925387710266589066115131285111818394551001456398978);
    lemma_pm_double(7, 925310706071786230313933068731923946801932610346592903nat, m);
    assert(pm(7, 1850621412143572460627866137463847893603865220693185806nat, m) == 11924268708929613408685280408803163306889030893309593801835073419647795830568);
    lemma_pm_succ(7, 1850621412143572460627866137463847893603865220693185806nat, m);
    assert(pm(7, 1850621412143572460627866137463847893603865220693185807nat, m) == 31034005787381103381349222353436177310532663752639518790241855237595989629463);
    lemma_pm_double(7, 1850621412143572460627866137463847893603865220693185807nat, m);
    assert(pm(7, 3701242824287144921255732274927695787207730441386371614nat, m) == 4586893854646385464605033419226396152641997743358390742366417224593396691060);
    lemma_pm_double(7, 3701242824287144921255732274927695787207730441386371614nat, m);
    assert(pm(7, 7402485648574289842511464549855391574415460882772743228nat, m) == 15537748253383063571569250102578955077913755574353266131996811114126389884132);
    lemma_pm_succ(7, 7402485648574289842511464549855391574415460882772743228nat, m);
    assert(pm(7, 7402485648574289842511464549855391574415460882772743229nat, m) == 3892487423429064042089269701680753870015184019417587278770360399007566819898);
    lemma_pm_double(7, 7402485648574289842511464549855391574415460882772743229nat, m);
    assert(pm(7, 14804971297148579685022929099710783148830921765545486458nat, m) == 8053397317250643075400133150191858606146563415429717257315234539574820378689);
    lemma_pm_double(7, 14804971297148579685022929099710783148830921765545486458nat, m);
    assert(pm(7, 29609942594297159370045858199421566297661843531090972916nat, m) == 39124397261284771562348554044866071066603918987221716872765566162596446417082);
    lemma_pm_succ(7, 29609942594297159370045858199421566297661843531090972916nat, m);
    assert(pm(7, 29609942594297159370045858199421566297661843531090972917nat, m) == 11691404953362448539201175773132668277774670407913828996340669638482218997009);
    lemma_pm_double(7, 29609942594297159370045858199421566297661843531090972917nat, m);
    assert(pm(7, 59219885188594318740091716398843132595323687062181945834nat, m) == 33456054570483004481632121586843527782130049524522209573474667437811044250820);
    lemma_pm_double(7, 59219885188594318740091716398843132595323687062181945834nat, m);
    assert(pm(7, 118439770377188637480183432797686265190647374124363891668nat, m) == 1879682492830770744840351782419547803456792653362522143701979342304049569810);
    lemma_pm_succ(7, 118439770377188637480183432797686265190647374124363891668nat, m);
    assert(pm(7, 118439770377188637480183432797686265190647374124363891669nat, m) == 13157777449815395213882462476936834624197548573537655005913855396128346988670);
    lemma_pm_double(7, 118439770377188637480183432797686265190647374124363891669nat, m);
    assert(pm(7, 236879540754377274960366865595372530381294748248727783338nat, m) == 11141194781299981612902600003411187497509704738734768298643677430926958411677);
    lemma_pm_double(7, 236879540754377274960366865595372530381294748248727783338nat, m);
    assert(pm(7, 473759081508754549920733731190745060762589496497455566676nat, m) == 51852413689429306573275696578778256383098140919290399564561778320089124060246);
    lemma_pm_succ(7, 473759081508754549920733731190745060762589496497455566676nat, m);
    assert(pm(7, 473759081508754549920733731190745060762589496497455566677nat, m) == 48351644775248003136243433002331999655543671431866970016310496040992381314644);
    lemma_pm_double(7, 473759081508754549920733731190745060762589496497455566677nat, m);
    assert(pm(7, 947518163017509099841467462381490121525178992994911133354nat, m) == 3823222564864861063775440578124508519755666315169542624904347952088548912808);
    lemma_pm_double(7, 947518163017509099841467462381490121525178992994911133354nat, m);
    assert(pm(7, 1895036326035018199682934924762980243050357985989822266708nat, m) == 39177830529674479369614490634092711970933739303037592453906192491236500809896);
    lemma_pm_double(7, 1895036326035018199682934924762980243050357985989822266708nat, m);
    assert(pm(7, 3790072652070036399365869849525960486100715971979644533416nat, m) == 28010997539154842737580587622572191372289996821935988157994003990764778819153);
    lemma_pm_succ(7, 3790072652070036399365869849525960486100715971979644533416nat, m);
    assert(pm(7, 3790072652070036399365869849525960486100715971979644533417nat, m) == 38769357248705327724720891833447442092958320251969003638147051835537708180532);
    lemma_pm_double(7, 3790072652070036399365869849525960486100715971979644533417nat, m);
    assert(pm(7, 7580145304140072798731739699051920972201431943959289066834nat, m) == 50444239598809609210510254442258921365830613921043709327601321151828596548901);
    lemma_pm_double(7, 7580145304140072798731739699051920972201431943959289066834nat, m);
    assert(pm(7, 15160290608280145597463479398103841944402863887918578133668nat, m) == 35328924379508192627133206171205169628728310491913044224367392819020381878308);
    lemma_pm_succ(7, 15160290608280145597463479398103841944402863887918578133668nat, m);
    assert(pm(7, 15160290608280145597463479398103841944402863887918578133669nat, m) == 37558969956052586472141481165692324050335963441280758280157114933388348410104);
    lemma_pm_double(7, 15160290608280145597463479398103841944402863887918578133669nat, m);
    assert(pm(7, 30320581216560291194926958796207683888805727775837156267338nat, m) == 36078585530459410678557600758557736092321218357324418120004748196896445328964);
    lemma_pm_double(7, 30320581216560291194926958796207683888805727775837156267338nat, m);
    assert(pm(7, 60641162433120582389853917592415367777611455551674312534676nat, m) == 10131251740434693273698388100500687476735408559804985398375608330735986268582);
    lemma_pm_succ(7, 60641162433120582389853917592415367777611455551674312534676nat, m);
    assert(pm(7, 60641162433120582389853917592415367777611455551674312534677nat, m) == 18482887007916662436440976195318846499457307418107259966025599615213322695561);
    lemma_pm_double(7, 60641162433120582389853917592415367777611455551674312534677nat, m);
    assert(pm(7, 121282324866241164779707835184830735555222911103348625069354nat, m) == 21702671400689118685710023211101599930305400633150038305593723002789134881819);
    lemma_pm_double(7, 121282324866241164779707835184830735555222911103348625069354nat, m);
    assert(pm(7, 242564649732482329559415670369661471110445822206697250138708nat, m) == 17225635554339166715449806181339682382323725252808591489134493760910071949034);
    lemma_pm_succ(7, 242564649732482329559415670369661471110445822206697250138708nat, m);
    assert(pm(7, 242564649732482329559415670369661471110445822206697250138709nat, m) == 15707698530121786049253162253005845000884971768604864778734138926493341274212);
    lemma_pm_double(7, 242564649732482329559415670369661471110445822206697250138709nat, m);
    assert(pm(7, 485129299464964659118831340739322942220891644413394500277418nat, m) == 33726691285511229983351540629864252160527803948248040649731612540730150633536);
    lemma_pm_double(7, 485129299464964659118831340739322942220891644413394500277418nat, m);
    assert(pm(7, 970258598929929318237662681478645884441783288826789000554836nat, m) == 51923512768362136121279245336574586179931643420639260825025600660086987999433);
    lemma_pm_succ(7, 970258598929929318237662681478645884441783288826789000554836nat, m);
    assert(pm(7, 970258598929929318237662681478645884441783288826789000554837nat, m) == 48849338327777809972268274306906308233378188941308998839557252420977428888953);
    lemma_pm_double(7, 970258598929929318237662681478645884441783288826789000554837nat, m);
    assert(pm(7, 1940517197859858636475325362957291768883566577653578001109674nat, m) == 36698254376563444657296813273473560779558591948410345413987761474372764986139);
    lemma_pm_double(7, 1940517197859858636475325362957291768883566577653578001109674nat, m);
    assert(pm(7, 3881034395719717272950650725914583537767133155307156002219348nat, m) == 35432493220464974965154007679551630474339107549026583223960308017545227700959);
    lemma_pm_succ(7, 3881034395719717272950650725914583537767133155307156002219348nat, m);
    assert(pm(7, 3881034395719717272950650725914583537767133155307156002219349nat, m) == 38283951842750062838287091724117549969611542841075531277307521323062269168661);
    lemma_pm_double(7, 3881034395719717272950650725914583537767133155307156002219349nat, m);
    assert(pm(7, 7762068791439434545901301451829167075534266310614312004438698nat, m) == 9417899947780681472238017679310350572348020040966823985554632491176662305405);
    lemma_pm_double(7, 7762068791439434545901301451829167075534266310614312004438698nat, m);
    assert(pm(7, 15524137582878869091802602903658334151068532621228624008877396nat, m) == 3033660981605178366640004378591555369421412385874564732681471949013601081566);
    lemma_pm_succ(7, 15524137582878869091802602903658334151068532621228624008877396nat, m);
    assert(pm(7, 15524137582878869091802602903658334151068532621228624008877397nat, m) == 21235626871236248566480030650140887585949886701121953128770303643095207570962);
    lemma_pm_double(7, 15524137582878869091802602903658334151068532621228624008877397nat, m);
    assert(pm(7, 31048275165757738183605205807316668302137065242457248017754794nat, m) == 25983475619303310702798744314769077833075934912307604743654002558138713806603);
    lemma_pm_double(7, 31048275165757738183605205807316668302137065242457248017754794nat, m);
    assert(pm(7, 62096550331515476367210411614633336604274130484914496035509588nat, m) == 29355718460150120858312580663526340784547497277008666014749486972680874970162);
    lemma_pm_succ(7, 62096550331515476367210411614633336604274130484914496035509588nat, m);
    assert(pm(7, 62096550331515476367210411614633336604274130484914496035509589nat, m) == 48182403695672274569844843120126487978760823437477748635435432708950381237595);
    lemma_pm_double(7, 62096550331515476367210411614633336604274130484914496035509589nat, m);
    assert(pm(7, 124193100663030952734420823229266673208548260969828992071019178nat, m) == 31344564491507285569109333365209871494908512418233598937633311193672975937810);
    lemma_pm_double(7, 124193100663030952734420823229266673208548260969828992071019178nat, m);
    assert(pm(7, 248386201326061905468841646458533346417096521939657984142038356nat, m) == 30703825942390687286558510033023550347014135190753446269159032642722570780051);
    lemma_pm_succ(7, 248386201326061905468841646458533346417096521939657984142038356nat, m);
    assert(pm(7, 248386201326061905468841646458533346417096521939657984142038357nat, m) == 5183280896230049088118608198420989078336736333163572593698593699303670722305);
    lemma_pm_double(7, 248386201326061905468841646458533346417096521939657984142038357nat, m);
    assert(pm(7, 496772402652123810937683292917066692834193043879315968284076714nat, m) == 37318415651848407780009528652000348600037318031287624141069315483887606212537);
    lemma_pm_double(7, 496772402652123810937683292917066692834193043879315968284076714nat, m);
    assert(pm(7, 993544805304247621875366585834133385668386087758631936568153428nat, m) == 42554780768081503176977001838608831387051480661032150509725372959039060389101);
    lemma_pm_succ(7, 993544805304247621875366585834133385668386087758631936568153428nat, m);
    assert(pm(7, 993544805304247621875366585834133385668386087758631936568153429nat, m) == 35704089500939569841600310329331990520907602124586864455059317213580516801142);
    lemma_pm_double(7, 993544805304247621875366585834133385668386087758631936568153429nat, m);
    assert(pm(7, 1987089610608495243750733171668266771336772175517263873136306858nat, m) == 33298697247258816170550521280898608796918583119221692104581017192062481467137);
    lemma_pm_double(7, 1987089610608495243750733171668266771336772175517263873136306858nat, m);
    assert(pm(7, 3974179221216990487501466343336533542673544351034527746272613716nat, m) == 13777851291497236115212886597815873709621451936804986909312060010493384996252);
    lemma_pm_succ(7, 3974179221216990487501466343336533542673544351034527746272613716nat, m);
    assert(pm(7, 3974179221216990487501466343336533542673544351034527746272613717nat, m) == 44009083865354462327042465676525150129659611057107270542580761373515113789251);
    lemma_pm_double(7, 3974179221216990487501466343336533542673544351034527746272613717nat, m);
    assert(pm(7, 7948358442433980975002932686673067085347088702069055492545227434nat, m) == 19420657806323502399148546763333719563610060303645002654114973895542225927551);
    lemma_pm_double(7, 7948358442433980975002932686673067085347088702069055492545227434nat, m);
    assert(pm(7, 15896716884867961950005865373346134170694177404138110985090454868nat, m) == 19764443939815637915521709103675764188008895925414821694907606008385544276510);
    lemma_pm_succ(7, 15896716884867961950005865373346134170694177404138110985090454868nat, m);
    assert(pm(7, 15896716884867961950005865373346134170694177404138110985090454869nat, m) == 33479357228457084449756482709358417640681166476848476219145924658821647566544);
    lemma_pm_double(7, 15896716884867961950005865373346134170694177404138110985090454869nat, m);
    assert(pm(7, 31793433769735923900011730746692268341388354808276221970180909738nat, m) == 23766146031766896756218199178804646067402090221712754911875125266367186385765);
    lemma_pm_double(7, 31793433769735923900011730746692268341388354808276221970180909738nat, m);
    assert(pm(7, 63586867539471847800023461493384536682776709616552443940361819476nat, m) == 18626336575748817480542618299279331447929464793451078395868119066934643476374);
    lemma_pm_succ(7, 63586867539471847800023461493384536682776709616552443940361819476nat, m);
    assert(pm(7, 63586867539471847800023461493384536682776709616552443940361819477nat, m) == 25512605679989341404902847078583388460125148553102273125869516068665341965592);
    lemma_pm_double(7, 63586867539471847800023461493384536682776709616552443940361819477nat, m);
    assert(pm(7, 127173735078943695600046922986769073365553419233104887880723638954nat, m) == 24036032063353565976462304960689289592515013206947667872817992417419392860867);
    lemma_pm_double(7, 127173735078943695600046922986769073365553419233104887880723638954nat, m);
    assert(pm(7, 254347470157887391200093845973538146731106838466209775761447277908nat, m) == 43680225413777433472802072863120148734924080071848147830726839578195712049626);
    lemma_pm_succ(7, 254347470157887391200093845973538146731106838466209775761447277908nat, m);
    assert(pm(7, 254347470157887391200093845973538146731106838466209775761447277909nat, m) == 43582202020811081912375807500911211956015798000298845702069583547677078424817);
    lemma_pm_double(7, 254347470157887391200093845973538146731106838466209775761447277909nat, m);
    assert(pm(7, 508694940315774782400187691947076293462213676932419551522894555818nat, m) == 23537434704231198661593524761774049917706312961085917712841323426900686485289);
    lemma_pm_double(7, 508694940315774782400187691947076293462213676932419551522894555818nat, m);
    assert(pm(7, 1017389880631549564800375383894152586924427353864839103045789111636nat, m) == 45373873033973953388204339970303885625190256474231271212837327032864114198096);
    lemma_pm_succ(7, 1017389880631549564800375383894152586924427353864839103045789111636nat, m);
    assert(pm(7, 1017389880631549564800375383894152586924427353864839103045789111637nat, m) == 3001860187060530840743936743011404350188480316453071554239337030417312279594);
    lemma_pm_double(7, 1017389880631549564800375383894152586924427353864839103045789111637nat, m);
    assert(pm(7, 2034779761263099129600750767788305173848854707729678206091578223274nat, m) == 48448635934472714651172428582674612539503929457633676902284256676805288212716);
    lemma_pm_double(7, 2034779761263099129600750767788305173848854707729678206091578223274nat, m);
    assert(pm(7, 4069559522526198259201501535576610347697709415459356412183156446548nat, m) == 33847645068623553260828376766566448878717425237154838859068702036506069569869);
    lemma_pm_succ(7, 4069559522526198259201501535576610347697709415459356412183156446548nat, m);
    assert(pm(7, 4069559522526198259201501535576610347697709415459356412183156446549nat, m) == 27190014779860110908007675333221278800259766657973320723066279455788162251031);
    lemma_pm_double(7, 4069559522526198259201501535576610347697709415459356412183156446549nat, m);
    assert(pm(7, 8139119045052396518403003071153220695395418830918712824366312893098nat, m) == 9057992601140368892227614339262839299920469907975720174224447936153023264916);
    lemma_pm_double(7, 8139119045052396518403003071153220695395418830918712824366312893098nat, m);
    assert(pm(7, 16278238090104793036806006142306441390790837661837425648732625786196nat, m) == 36879404258237287486765430458080208476516144071299001041775438819029341934556);
    lemma_pm_double(7, 16278238090104793036806006142306441390790837661837425648732625786196nat, m);
    assert(pm(7, 32556476180209586073612012284612882781581675323674851297465251572392nat, m) == 51614014806207711333993364919603041334584055250677852201364429884429346542469);
    lemma_pm_double(7, 32556476180209586073612012284612882781581675323674851297465251572392nat, m);
    assert(pm(7, 65112952360419172147224024569225765563163350647349702594930503144784nat, m) == 30962706800634680419995245098811533955305624012197567842114499663726298377837);
    lemma_pm_double(7, 65112952360419172147224024569225765563163350647349702594930503144784nat, m);
    assert(pm(7, 130225904720838344294448049138451531126326701294699405189861006289568nat, m) == 38484569132130653084760755615144405586486091971648584124284757594474346844719);
    lemma_pm_double(7, 130225904720838344294448049138451531126326701294699405189861006289568nat, m);
    assert(pm(7, 260451809441676688588896098276903062252653402589398810379722012579136nat, m) == 1413293868899670293184609502718951815445855030357888361597505138111548312827);
    lemma_pm_double(7, 260451809441676688588896098276903062252653402589398810379722012579136nat, m);
    assert(pm(7, 520903618883353377177792196553806124505306805178797620759444025158272nat, m) == 28440353028386078676701632768938705383238957686259987336167896416267784262186);
    lemma_pm_double(7, 520903618883353377177792196553806124505306805178797620759444025158272nat, m);
    assert(pm(7, 1041807237766706754355584393107612249010613610357595241518888050316544nat, m) == 41332757081913554755898840065145560246523622456106045131260100229538967391399);
    lemma_pm_double(7, 1041807237766706754355584393107612249010613610357595241518888050316544nat, m);
    assert(pm(7, 2083614475533413508711168786215224498021227220715190483037776100633088nat, m) == 41103220087762031413691803136055629414101453561986957545318552810379238142958);
    lemma_pm_double(7, 2083614475533413508711168786215224498021227220715190483037776100633088nat, m);
    assert(pm(7, 4167228951066827017422337572430448996042454441430380966075552201266176nat, m) == 37742434929191925656183256566903154708632572178069227501302548086721206106207);
    lemma_pm_double(7, 4167228951066827017422337572430448996042454441430380966075552201266176nat, m);
    assert(pm(7, 8334457902133654034844675144860897992084908882860761932151104402532352nat, m) == 4607755701008944791118358783898486934964538401713869795557379479076905869684);
    lemma_pm_double(7, 8334457902133654034844675144860897992084908882860761932151104402532352nat, m);
    assert(pm(7, 16668915804267308069689350289721795984169817765721523864302208805064704nat, m) == 2213008001640394256201289373229893725186696823660297249086328338043425356751);
    lemma_pm_double(7, 16668915804267308069689350289721795984169817765721523864302208805064704nat, m);
    assert(pm(7, 33337831608534616139378700579443591968339635531443047728604417610129408nat, m) == 20861377783861809278203843401611250399982927694204517039314720247669726273733);
    lemma_pm_double(7, 33337831608534616139378700579443591968339635531443047728604417610129408nat, m);
    assert(pm(7, 66675663217069232278757401158887183936679271062886095457208835220258816nat, m) == 10869817145219478167028084470371807671575383973928626084084642749768173298884);
    lemma_pm_double(7, 66675663217069232278757401158887183936679271062886095457208835220258816nat, m);
    assert(pm(7, 133351326434138464557514802317774367873358542125772190914417670440517632nat, m) == 1977723906183917909287693762341786945304240358850033904108044483840312262829);
    lemma_pm_double(7, 133351326434138464557514802317774367873358542125772190914417670440517632nat, m);
    assert(pm(7, 266702652868276929115029604635548735746717084251544381828835340881035264nat, m) == 23804455816182006662649600204582885380028382944937158248084614516786877293612);
    lemma_pm_double(7, 266702652868276929115029604635548735746717084251544381828835340881035264nat, m);
    assert(pm(7, 533405305736553858230059209271097471493434168503088763657670681762070528nat, m) == 2930348814390902990825946569645926810460906666190701984230617973971282449545);
    lemma_pm_double(7, 533405305736553858230059209271097471493434168503088763657670681762070528nat, m);
    assert(pm(7, 1066810611473107716460118418542194942986868337006177527315341363524141056nat, m) == 41474649912938177012418414818262991683346208077669367704063320596782302186639);
    lemma_pm_double(7, 1066810611473107716460118418542194942986868337006177527315341363524141056nat, m);
    assert(pm(7, 2133621222946215432920236837084389885973736674012355054630682727048282112nat, m) == 30871040783405754247429360144532851244091896118089421968082746685638939531666);
    lemma_pm_double(7, 2133621222946215432920236837084389885973736674012355054630682727048282112nat, m);
    assert(pm(7, 4267242445892430865840473674168779771947473348024710109261365454096564224nat, m) == 51021120494207804681422904706569631336405724721171241066536531475787535102184);
    lemma_pm_double(7, 4267242445892430865840473674168779771947473348024710109261365454096564224nat, m);
    assert(pm(7, 8534484891784861731680947348337559543894946696049420218522730908193128448nat, m) == 52109714387249898063376609304120777220282830834359188794692815304142943256059);
    lemma_pm_double(7, 8534484891784861731680947348337559543894946696049420218522730908193128448nat, m);
    assert(pm(7, 17068969783569723463361894696675119087789893392098840437045461816386256896nat, m) == 9219652905715014358869811191907146887972286909387817161446305971881591672347);
    lemma_pm_double(7, 17068969783569723463361894696675119087789893392098840437045461816386256896nat, m);
    assert(pm(7, 34137939567139446926723789393350238175579786784197680874090923632772513792nat, m) == 33882587555524821767723304094469190968713571681116464687188745216082371818072);
    lemma_pm_double(7, 34137939567139446926723789393350238175579786784197680874090923632772513792nat, m);
    assert(pm(7, 68275879134278893853447578786700476351159573568395361748181847265545027584nat, m) == 2497059578604103781635468637455186384551418145638870202423657743425936917548);
    lemma_pm_double(7, 68275879134278893853447578786700476351159573568395361748181847265545027584nat, m);
    assert(pm(7, 136551758268557787706895157573400952702319147136790723496363694531090055168nat, m) == 14523644498271706177724810462547033590351717152525063073011389924940790429199);
    lemma_pm_double(7, 136551758268557787706895157573400952702319147136790723496363694531090055168nat, m);
    assert(pm(7, 273103516537115575413790315146801905404638294273581446992727389062180110336nat, m) == 48292846719925436915802691320345855131106585559525359650154842210348411656417);
    lemma_pm_double(7, 273103516537115575413790315146801905404638294273581446992727389062180110336nat, m);
    assert(pm(7, 546207033074231150827580630293603810809276588547162893985454778124360220672nat, m) == 1938287613059936236580854046970806956463274712383860798423605708695236658071);
    lemma_pm_double(7, 546207033074231150827580630293603810809276588547162893985454778124360220672nat, m);
    assert(pm(7, 1092414066148462301655161260587207621618553177094325787970909556248720441344nat, m) == 4186266198148504419708824453540328291717788015598043069687888163754096591647);
    lemma_pm_double(7, 1092414066148462301655161260587207621618553177094325787970909556248720441344nat, m);
    assert(pm(7, 2184828132296924603310322521174415243237106354188651575941819112497440882688nat, m) == 3798686167592715434045102520301072560217020418308266554004973999088170955365);
    lemma_pm_double(7, 2184828132296924603310322521174415243237106354188651575941819112497440882688nat, m);
    assert(pm(7, 4369656264593849206620645042348830486474212708377303151883638224994881765376nat, m) == 15132376222941642752);
    lemma_pm_double(7, 4369656264593849206620645042348830486474212708377303151883638224994881765376nat, m);
    assert(pm(7, 8739312529187698413241290084697660972948425416754606303767276449989763530752nat, m) == 228988810152649578064853576960394133504);
    lemma_pm_double(7, 8739312529187698413241290084697660972948425416754606303767276449989763530752nat, m);
    assert(pm(7, 17478625058375396826482580169395321945896850833509212607534552899979527061504nat, m) == 228988810152649578064853576960394133503);
}

/// `7^4766897743193290043586158228016905985244595681866148892963968972721689198592 mod 52435875175126190479447740508185965837690552500527637822603658699938581184513`.
proof fn lemma_pow_52435875175126190479447740508185965837690552500527637822603658699938581184513_by_11()
    ensures
        pm(7, 4766897743193290043586158228016905985244595681866148892963968972721689198592nat, fr_modulus() as int) == 23018359928796249160281600265894119056554178830089746663447279710197994863834,
{
    let m: int = fr_modulus() as int;
    lemma_pm_one(7, m);
    lemma_pm_double(7, 1nat, m);
    assert(pm(7, 2nat, m) == 49);
    lemma_pm_double(7, 2nat, m);
    assert(pm(7, 4nat, m) == 2401);
    lemma_pm_succ(7, 4nat, m);
    assert(pm(7, 5nat, m) == 16807);
    lemma_pm_double(7, 5nat, m);
    assert(pm(7, 10nat, m) == 282475249);
    lemma_pm_double(7, 10nat, m);
    assert(pm(7, 20nat, m) == 79792266297612001);
    lemma_pm_succ(7, 20nat, m);
    assert(pm(7, 21nat, m) == 558545864083284007);
    lemma_pm_double(7, 21nat, m);
    assert(pm(7, 42nat, m) == 311973482284542371301330321821976049);
    lemma_pm_double(7, 42nat, m);
    assert(pm(7, 84nat, m) == 97327453648743672783790144527749033795901408624680013074608083129650401);
    lemma_pm_double(7, 84nat, m);
    assert(pm(7, 168nat, m) == 5025946391180921861207841965493227990902816468651023429740564727580884899158);
    lemma_pm_double(7, 168nat, m);
    assert(pm(7, 336nat, m) == 23764043465375352932224736251411224056465455347461315087970790347060777513215);
    lemma_pm_succ(7, 336nat, m);
    assert(pm(7, 337nat, m) == 9040678732248899087229932235320670882186529930646292147984556329609699038966);
    lemma_pm_double(7, 337nat, m);
    assert(pm(7, 674nat, m) == 45877277284623360470836033500596396999819702292813700984900760065063377295819);
    lemma_pm_double(7, 674nat, m);
    assert(pm(7, 1348nat, m) == 27102040807761193918042815737192874450524143906251561892650281882014150423260);
    lemma_pm_double(7, 1348nat, m);
    assert(pm(7, 2696nat, m) == 16569317825588454079631120825773549249082247536646454060654528725682480292542);
    lemma_pm_succ(7, 2696nat, m);
    assert(pm(7, 2697nat, m) == 11113474428866797598522364764042913068194627755469902779374383679900199678768);
    lemma_pm_double(7, 2697nat, m);
    assert(pm(7, 5394nat, m) == 11024518851401041105738141198794266489069074709567529908124125980176480601076);
    lemma_pm_succ(7, 5394nat, m);
    assert(pm(7, 5395nat, m) == 24735756784681097260719247883373899585792970466445071534265223161296783023019);
    lemma_pm_double(7, 5395nat, m);
    assert(pm(7, 10790nat, m) == 45615684188892391236090741731065401490257643813324663237036056086121897716761);
    lemma_pm_succ(7, 10790nat, m);
    assert(pm(7, 10791nat, m) == 4694538271489595775948749068342015405660191690106815723630440403221796910249);
    lemma_pm_double(7, 10791nat, m);
    assert(pm(7, 21582nat, m) == 37653714437889160579288128785934179035496952299210724716722884022020804332497);
    lemma_pm_succ(7, 21582nat, m);
    assert(pm(7, 21583nat, m) == 1396625189593171657778198960609424060025903591836883904041894654452724404914);
    lemma_pm_double(7, 21583nat, m);
    assert(pm(7, 43166nat, m) == 13032848030345859392463387358626217157621179481381050475585157684452194146594);
    lemma_pm_succ(7, 43166nat, m);
    assert(pm(7, 43167nat, m) == 38794061037294825267795971002197554265657703869139715506492445091226777841645);
    lemma_pm_double(7, 43167nat, m);
    assert(pm(7, 86334nat, m) == 11821236112950700311826611433006289211216067046010189749878420508169496519978);
    lemma_pm_double(7, 86334nat, m);
    assert(pm(7, 172668nat, m) == 47597036454773644024864387760319115735652627167284600547250157712559644224811);
    lemma_pm_succ(7, 172668nat, m);
    assert(pm(7, 172669nat, m) == 18564004132658365297364271273118015123425075167826376895129151788286022466599);
    lemma_pm_double(7, 172669nat, m);
    assert(pm(7, 345338nat, m) == 85467348483701027512962977421109162637886203120503550047761184459605782329);
    lemma_pm_succ(7, 345338nat, m);
    assert(pm(7, 345339nat, m) == 598271439385907192590740841947764138465203421843524850334328291217240476303);
    lemma_pm_double(7, 345339nat, m);
    assert(pm(7, 690678nat, m) == 40508269324439922993149819027851395723325306226554772219672731188364169754536);
    lemma_pm_succ(7, 690678nat, m);
    assert(pm(7, 690679nat, m) == 21378509395448508554810030654029940874824381083245216424690824818856282359187);
    lemma_pm_double(7, 690679nat, m);
    assert(pm(7, 1381358nat, m) == 22415601836342539616883635834743679216535201780439370435717896766158223804226);
    lemma_pm_succ(7, 1381358nat, m);
    assert(pm(7, 1381359nat, m) == 52037462504145396359289969826833822840365307462020317404817959963230404260556);
    lemma_pm_double(7, 1381359nat, m);
    assert(pm(7, 2762718nat, m) == 42930016775670319568775287242388468778488303310568849876175797660423903728248);
    lemma_pm_succ(7, 2762718nat, m);
    assert(pm(7, 2762719nat, m) == 38330741554061284584188308155789452260965360671343760020212290123274420175171);
    lemma_pm_double(7, 2762719nat, m);
    assert(pm(7, 5525438nat, m) == 13778552932447392984660277905972391367494978645538571442552669035200393936268);
    lemma_pm_succ(7, 5525438nat, m);
    assert(pm(7, 5525439nat, m) == 44013995352005560413174204833620773734774298018242362275265024546464176369363);
    lemma_pm_double(7, 5525439nat, m);
    assert(pm(7, 11050878nat, m) == 4582122086450053432619206161391741461999744998527435688157016485420454325413);
    lemma_pm_succ(7, 11050878nat, m);
    assert(pm(7, 11050879nat, m) == 32074854605150374028334443129742190233998214989692049817099115397943180277891);
    lemma_pm_double(7, 11050879nat, m);
    assert(pm(7, 22101758nat, m) == 33064548865973795213667623124347998864902703677923894544632447461026027675976);
    lemma_pm_double(7, 22101758nat, m);
    assert(pm(7, 44203516nat, m) == 34150176332587854998846023347899833854060743839010887258334580553302105270205);
    lemma_pm_double(7, 44203516nat, m);
    assert(pm(7, 88407032nat, m) == 47865328117738303050660170152452686117028266522570009016750444309048710192251);
    lemma_pm_double(7, 88407032nat, m);
    assert(pm(7, 176814064nat, m) == 6634043839959152819911937102941910532222805582100652282135137297588016887685);
    lemma_pm_double(7, 176814064nat, m);
    assert(pm(7, 353628128nat, m) == 8655621699824622302268519664510126990612808914019553992934747019669511896451);
    lemma_pm_double(7, 353628128nat, m);
    assert(pm(7, 707256256nat, m) == 7442862027181970937917568114158422943973702211695090216188316051470272553273);
    lemma_pm_succ(7, 707256256nat, m);
    assert(pm(7, 707256257nat, m) == 52100034190273796565422976799108960607815915481865631513318212360291907872911);
    lemma_pm_double(7, 707256257nat, m);
    assert(pm(7, 1414512514nat, m) == 15516456408198741255424357691040126565434762777760460536000315248731461562297);
    lemma_pm_double(7, 1414512514nat, m);
    assert(pm(7, 2829025028nat, m) == 1958008070172001195135177129320829954709975667229441211123294301990129060759);
    lemma_pm_double(7, 2829025028nat, m);
    assert(pm(7, 5658050056nat, m) == 8147434332675027285391097171925490061257690476694162813407279891733935736478);
    lemma_pm_succ(7, 5658050056nat, m);
    assert(pm(7, 5658050057nat, m) == 4596165153599000518289939695292464591113280836331501871247300542198968970833);
    lemma_pm_double(7, 5658050057nat, m);
    assert(pm(7, 11316100114nat, m) == 50639318735157732554030956968727427855918621576778202368953365823065918966673);
    lemma_pm_double(7, 11316100114nat, m);
    assert(pm(7, 22632200228nat, m) == 31144984128503795326219845609253577625443989839073509215595059131167591325571);
    lemma_pm_double(7, 22632200228nat, m);
    assert(pm(7, 45264400456nat, m) == 45711662028020449250416502384854093880688552046535267140188795975427640986033);
    lemma_pm_succ(7, 45264400456nat, m);
    assert(pm(7, 45264400457nat, m) == 5366383145386001876229073644862862138676549322581043045699619628361999795153);
    lemma_pm_double(7, 45264400457nat, m);
    assert(pm(7, 90528800914nat, m) == 27923813494183952505621434027660762966238860960016596102496578326513407124494);
    lemma_pm_succ(7, 90528800914nat, m);
    assert(pm(7, 90528800915nat, m) == 38159068933909096101006816669067443250600369218533259249665072185778106317919);
    lemma_pm_double(7, 90528800915nat, m);
    assert(pm(7, 181057601830nat, m) == 28367092275539016010212367486663327352617049503518207851175621327747404531111);
    lemma_pm_double(7, 181057601830nat, m);
    assert(pm(7, 362115203660nat, m) == 5338264690783752346221288340252009139096793352189602474959343726161568153858);
    lemma_pm_double(7, 362115203660nat, m);
    assert(pm(7, 724230407320nat, m) == 23858579797800572910014545077312946874026302457766547157015471318296818328123);
    lemma_pm_succ(7, 724230407320nat, m);
    assert(pm(7, 724230407321nat, m) == 9702433059225438931758594016632730605112459702782916631297323128261984743322);
    lemma_pm_double(7, 724230407321nat, m);
    assert(pm(7, 1448460814642nat, m) == 36299147209649741730814633683332010931781425902305008379546056012436057473472);
    lemma_pm_succ(7, 1448460814642nat, m);
    assert(pm(7, 1448460814643nat, m) == 44350529767043430197911473750580213171707771314024507366407757287298077576252);
    lemma_pm_double(7, 1448460814643nat, m);
    assert(pm(7, 2896921629286nat, m) == 40568837989296183571104693466982527799376105861642737642102186609006202869636);
    lemma_pm_double(7, 2896921629286nat, m);
    assert(pm(7, 5793843258572nat, m) == 4272971691391750660377045400754075201751747307432033542280052386657064139418);
    lemma_pm_double(7, 5793843258572nat, m);
    assert(pm(7, 11587686517144nat, m) == 4438959516891083918636028770085777605252426743234787735753423317833142893212);
    lemma_pm_succ(7, 11587686517144nat, m);
    assert(pm(7, 11587686517145nat, m) == 31072716618237587430452201390600443236766987202643514150273963224832000252484);
    lemma_pm_double(7, 11587686517145nat, m);
    assert(pm(7, 23175373034290nat, m) == 38471446738002372230525993188910556419612247653171759187897968705144480342329);
    lemma_pm_succ(7, 23175373034290nat, m);
    assert(pm(7, 23175373034291nat, m) == 7120751290385653216443249781444065748832971069564125202267487436318456473738);
    lemma_pm_double(7, 23175373034291nat, m);
    assert(pm(7, 46350746068582nat, m) == 8843864692185930541440874341357492833640558316535690343188392753620556890743);
    lemma_pm_succ(7, 46350746068582nat, m);
    assert(pm(7, 46350746068583nat, m) == 9471177670175323310638379881316483997793355715222194579715090575405317050688);
    lemma_pm_double(7, 46350746068583nat, m);
    assert(pm(7, 92701492137166nat, m) == 36395499887434558741638521539022150835122189607223719428832944865333579435079);
    lemma_pm_succ(7, 92701492137166nat, m);
    assert(pm(7, 92701492137167nat, m) == 45024998511537149273678688740411192495093117248455484711415979257580731307501);
    lemma_pm_double(7, 92701492137167nat, m);
    assert(pm(7, 185402984274334nat, m) == 43157634084225709607823620939529693215810120704822691092980926668115758930441);
    lemma_pm_succ(7, 185402984274334nat, m);
    assert(pm(7, 185402984274335nat, m) == 39924062713949014857526644035778023322218082431120648537848193177117406590522);
    lemma_pm_double(7, 185402984274335nat, m);
    assert(pm(7, 370805968548670nat, m) == 19431308080756040427291979744487936142417764569313515253214371940975151076926);
    lemma_pm_double(7, 370805968548670nat, m);
    assert(pm(7, 741611937097340nat, m) == 23044147938859341707804226505460946088139148278628953981449591656591624175566);
    lemma_pm_succ(7, 741611937097340nat, m);
    assert(pm(7, 741611937097341nat, m) == 4001410046636820516286364013668725103902380448819764402336165496325625675423);
    lemma_pm_double(7, 741611937097341nat, m);
    assert(pm(7, 1483223874194682nat, m) == 8454443956547910636598227377845929348953863302103710981429111975573569374877);
    lemma_pm_double(7, 1483223874194682nat, m);
    assert(pm(7, 2966447748389364nat, m) == 9200185443231177079989362537283043962733202484598644842575916676999394845451);
    lemma_pm_double(7, 2966447748389364nat, m);
    assert(pm(7, 5932895496778728nat, m) == 2299635449916605061187756983240652754248857656615219182994093776984207328006);
    lemma_pm_double(7, 5932895496778728nat, m);
    assert(pm(7, 11865790993557456nat, m) == 41567787363556163505149411282312685036519794607746787246106289012637272304890);
    lemma_pm_double(7, 11865790993557456nat, m);
    assert(pm(7, 23731581987114912nat, m) == 13684427926961306472794889272665287516450858928092761162808199127813110613688);
    lemma_pm_double(7, 23731581987114912nat, m);
    assert(pm(7, 47463163974229824nat, m) == 6681636551943153238404295539662864324184617388573151218312164212868589241857);
    lemma_pm_succ(7, 47463163974229824nat, m);
    assert(pm(7, 47463163974229825nat, m) == 46771455863602072668830068777640050269292321720012058528185149490080124692999);
    lemma_pm_double(7, 47463163974229825nat, m);
    assert(pm(7, 94926327948459650nat, m) == 16542344061972050750494686003919010779236754728204616528102483528784701539759);
    lemma_pm_succ(7, 94926327948459650nat, m);
    assert(pm(7, 94926327948459651nat, m) == 10924658083551974294567321011061143779276178096377040051510067301615748409287);
    lemma_pm_double(7, 94926327948459651nat, m);
    assert(pm(7, 189852655896919302nat, m) == 30214435010345859373541401842538923200403118671617554417978551240807546050627);
    lemma_pm_succ(7, 189852655896919302nat, m);
    assert(pm(7, 189852655896919303nat, m) == 1757544371916253696998850865028599052059620699212329635435223885898497616337);
    lemma_pm_double(7, 189852655896919303nat, m);
    assert(pm(7, 379705311793838606nat, m) == 39987202586409643520955779147999093288568894730836108500702168662315331419131);
    lemma_pm_double(7, 379705311793838606nat, m);
    assert(pm(7, 759410623587677212nat, m) == 11034445814003801642999348401632172099131900263595112366609697171764464853649);
    lemma_pm_succ(7, 759410623587677212nat, m);
    assert(pm(7, 759410623587677213nat, m) == 24805245522900421021547698303239238856232749344638148743664221502412672791030);
    lemma_pm_double(7, 759410623587677213nat, m);
    assert(pm(7, 1518821247175354426nat, m) == 23221607604459661997118426406662799607518767086437291501230661030047267668141);
    lemma_pm_succ(7, 1518821247175354426nat, m);
    assert(pm(7, 1518821247175354427nat, m) == 5243627705839062541485763322081699739559712103478127040803651110515130123448);
    lemma_pm_double(7, 1518821247175354427nat, m);
    assert(pm(7, 3037642494350708854nat, m) == 7676587159577274233682703281498066058056774357738617922732905814521340330640);
    lemma_pm_succ(7, 3037642494350708854nat, m);
    assert(pm(7, 3037642494350708855nat, m) == 1300234941914729156331182462300496568706868003642687636526682001710801129967);
    lemma_pm_double(7, 3037642494350708855nat, m);
    assert(pm(7, 6075284988701417710nat, m) == 11739635903686240363526193619650278591108186880606999272234787155236342659944);
    lemma_pm_double(7, 6075284988701417710nat, m);
    assert(pm(7, 12150569977402835420nat, m) == 21170304164682095105902157232040008588662709926585027572815446100130842394116);
    lemma_pm_succ(7, 12150569977402835420nat, m);
    assert(pm(7, 12150569977402835421nat, m) == 43320378802522284782419619607908128445257864485039917364500805301038734389786);
    lemma_pm_double(7, 12150569977402835421nat, m);
    assert(pm(7, 24301139954805670842nat, m) == 43828021271016266021853929904384655307416697300721984558740952775342476401298);
    lemma_pm_double(7, 24301139954805670842nat, m);
    assert(pm(7, 48602279909611341684nat, m) == 45883067097637777200904270844220198678987808938946715487188514364853400685501);
    lemma_pm_succ(7, 48602279909611341684nat, m);
    assert(pm(7, 48602279909611341685nat, m) == 6566218632707297529643452860425595726771347569461181474697648354342317691429);
    lemma_pm_double(7, 48602279909611341685nat, m);
    assert(pm(7, 97204559819222683370nat, m) == 39133665963093895784553286743330284962792085093297058403418669265116831746499);
    lemma_pm_succ(7, 97204559819222683370nat, m);
    assert(pm(7, 97204559819222683371nat, m) == 11756285866026318094634304662382165551091833150441219710912391356124916302928);
    lemma_pm_double(7, 97204559819222683371nat, m);
    assert(pm(7, 194409119638445366742nat, m) == 31547461000766409975376842656793832968321465868578684519354942261812226388509);
    lemma_pm_double(7, 194409119638445366742nat, m);
    assert(pm(7, 388818239276890733484nat, m) == 30303472183144806106659696264182227838083248929448162509766936552495885320923);
    lemma_pm_double(7, 388818239276890733484nat, m);
    assert(pm(7, 777636478553781466968nat, m) == 3012458875105296402606382705763414178486719277316154526553045268716976732211);
    lemma_pm_double(7, 777636478553781466968nat, m);
    assert(pm(7, 1555272957107562933936nat, m) == 36779167705646492979752887148609393777828197118826452569042539655260321585190);
    lemma_pm_double(7, 1555272957107562933936nat, m);
    assert(pm(7, 3110545914215125867872nat, m) == 29756484153862840162781320731203614265791923110987150101895891255275640701686);
    lemma_pm_succ(7, 3110545914215125867872nat, m);
    assert(pm(7, 3110545914215125867873nat, m) == 50987763551661309701126023593867402347471804275327137245460262687113741358263);
    lemma_pm_double(7, 3110545914215125867873nat, m);
    assert(pm(7, 6221091828430251735746nat, m) == 19473542663839233884021551204850507829521883551519363181067711673094572370602);
    lemma_pm_succ(7, 6221091828430251735746nat, m);
    assert(pm(7, 6221091828430251735747nat, m) == 31443048296622256229255377417581623131272079859580266622266664311784844225188);
    lemma_pm_double(7, 6221091828430251735747nat, m);
    assert(pm(7, 12442183656860503471494nat, m) == 4601446721525270887922112465163879631044043628496755550897212214364688502477);
    lemma_pm_succ(7, 12442183656860503471494nat, m);
    assert(pm(7, 12442183656860503471495nat, m) == 32210127050676896215454787256147157417308305399477288856280485500552819517339);
    lemma_pm_double(7, 12442183656860503471495nat, m);
    assert(pm(7, 24884367313721006942990nat, m) == 37839287856987606037660189210401875730700534453763012852134379635078938110054);
    lemma_pm_double(7, 24884367313721006942990nat, m);
    assert(pm(7, 49768734627442013885980nat, m) == 30986022313930354045208103552328511476850123905587180631213252813827759174311);
    lemma_pm_double(7, 49768734627442013885980nat, m);
    assert(pm(7, 99537469254884027771960nat, m) == 4004613600653763673355282643536866106086626953879616013780266437542132106077);
    lemma_pm_succ(7, 99537469254884027771960nat, m);
    assert(pm(7, 99537469254884027771961nat, m) == 28032295204576345713486978504758062742606388677157312096461865062794924742539);
    lemma_pm_double(7, 99537469254884027771961nat, m);
    assert(pm(7, 199074938509768055543922nat, m) == 5900389431834094996444841952067056651164559033392480739930141650635117140052);
    lemma_pm_double(7, 199074938509768055543922nat, m);
    assert(pm(7, 398149877019536111087844nat, m) == 17361320958233384947418471903898734719343076029754213979239924331967703665748);
    lemma_pm_double(7, 398149877019536111087844nat, m);
    assert(pm(7, 796299754039072222175688nat, m) == 19719348001000736567253609233710381312286977413490905600833933275027226608197);
    lemma_pm_double(7, 796299754039072222175688nat, m);
    assert(pm(7, 1592599508078144444351376nat, m) == 19546844444055754184407445094623058215885563582920421914440229825483061203053);
    lemma_pm_succ(7, 1592599508078144444351376nat, m);
    assert(pm(7, 1592599508078144444351377nat, m) == 31956160758137898331956634645989475835817840079387677755874291378504266052345);
    lemma_pm_double(7, 1592599508078144444351377nat, m);
    assert(pm(7, 3185199016156288888702754nat, m) == 35659249229570360402552474312070193930347424542873662456939204768064206976817);
    lemma_pm_double(7, 3185199016156288888702754nat, m);
    assert(pm(7, 6370398032312577777405508nat, m) == 11992269604457196341214813566762822562536515223781850192346064802698147144243);
    lemma_pm_double(7, 6370398032312577777405508nat, m);
    assert(pm(7, 12740796064625155554811016nat, m) == 44009552288033504798543158959649333139577507515712914977536864393591899927904);
    lemma_pm_double(7, 12740796064625155554811016nat, m);
    assert(pm(7, 25481592129250311109622032nat, m) == 13124554061102242366458653768651335878772950731607623115463852724700888569101);
    lemma_pm_double(7, 25481592129250311109622032nat, m);
    assert(pm(7, 50963184258500622219244064nat, m) == 49808754416527923465320463855226131230003946577321481858085012652275554057153);
    lemma_pm_double(7, 50963184258500622219244064nat, m);
    assert(pm(7, 101926368517001244438488128nat, m) == 27724197066128063153620769457986097095725902369584419630176302906154489595303);
    lemma_pm_double(7, 101926368517001244438488128nat, m);
    assert(pm(7, 203852737034002488876976256nat, m) == 31156507867551860354507016631111578248002046175903661305016316815935318113535);
    lemma_pm_double(7, 203852737034002488876976256nat, m);
    assert(pm(7, 407705474068004977753952512nat, m) == 15363642486620663341063508015143749581560653072510439907243534446721072356868);
    lemma_pm_double(7, 407705474068004977753952512nat, m);
    assert(pm(7, 815410948136009955507905024nat, m) == 27455629182014543130494423277749740235205272263110035649770950986013905856134);
    lemma_pm_double(7, 815410948136009955507905024nat, m);
    assert(pm(7, 1630821896272019911015810048nat, m) == 36585236066031263643530842950363709155560208673785618862767029349122089643350);
    lemma_pm_double(7, 1630821896272019911015810048nat, m);
    assert(pm(7, 3261643792544039822031620096nat, m) == 22176836236699132925910440687765505012958752308846883555889713167698983134369);
    lemma_pm_double(7, 3261643792544039822031620096nat, m);
    assert(pm(7, 6523287585088079644063240192nat, m) == 15203465322718491986829097899425666411603649692199729651221479123701964284348);
    lemma_pm_succ(7, 6523287585088079644063240192nat, m);
    assert(pm(7, 6523287585088079644063240193nat, m) == 1552506908777062948908204279607733205844442844342831913343036466036587621410);
    lemma_pm_double(7, 6523287585088079644063240193nat, m);
    assert(pm(7, 13046575170176159288126480386nat, m) == 39548388511566801851240363740423456509432523699917415074153851519497848412290);
    lemma_pm_double(7, 13046575170176159288126480386nat, m);
    assert(pm(7, 26093150340352318576252960772nat, m) == 23973562915630269034531365951205126509497062546999300500262945449648905095949);
    lemma_pm_succ(7, 26093150340352318576252960772nat, m);
    assert(pm(7, 26093150340352318576252960773nat, m) == 10507314884033311803376340133877988053407780327412190034029642047726592118104);
    lemma_pm_double(7, 26093150340352318576252960773nat, m);
    assert(pm(7, 52186300680704637152505921546nat, m) == 45102637871662287697425733766545218754578007179535845924142776870199300402874);
    lemma_pm_succ(7, 52186300680704637152505921546nat, m);
    assert(pm(7, 52186300680704637152505921547nat, m) == 1103214050878871005293693316700736255902735253585094533377485891763615713040);
    lemma_pm_double(7, 52186300680704637152505921547nat, m);
    assert(pm(7, 104372601361409274305011843094nat, m) == 14938745784726791915221984021073092550237208274116668031151443498633454713709);
    lemma_pm_succ(7, 104372601361409274305011843094nat, m);
    assert(pm(7, 104372601361409274305011843095nat, m) == 52135345317961352927106147639325682013969905418289038395456445790495601811450);
    lemma_pm_double(7, 104372601361409274305011843095nat, m);
    assert(pm(7, 208745202722818548610023686190nat, m) == 45112700862873478851970099980672750475871766481136682754184602575321009581456);
    lemma_pm_double(7, 208745202722818548610023686190nat, m);
    assert(pm(7, 417490405445637097220047372380nat, m) == 41054761260630405741403066579772867516967255986112728503392527993859362408831);
    lemma_pm_succ(7, 417490405445637097220047372380nat, m);
    assert(pm(7, 417490405445637097220047372381nat, m) == 25203952948781887792582763517480243430318029400150910410729402457322630939252);
    lemma_pm_double(7, 417490405445637097220047372381nat, m);
    assert(pm(7, 834980810891274194440094744762nat, m) == 13267784943565842604183614294077344293059310649106645339878168190844951433720);
    lemma_pm_succ(7, 834980810891274194440094744762nat, m);
    assert(pm(7, 834980810891274194440094744763nat, m) == 40438619429834707749837559550355444213724622043218879556543518635976078851527);
    lemma_pm_double(7, 834980810891274194440094744763nat, m);
    assert(pm(7, 1669961621782548388880189489526nat, m) == 48985370558324711711785530992359522439433905002683531261827415252780141279550);
    lemma_pm_double(7, 1669961621782548388880189489526nat, m);
    assert(pm(7, 3339923243565096777760378979052nat, m) == 24365165157920296600565241096118920368482700292781310178751742574334002056024);
    lemma_pm_double(7, 3339923243565096777760378979052nat, m);
    assert(pm(7, 6679846487130193555520757958104nat, m) == 24197413089011729959914692064196020611522642617358965537537788135613507887872);
    lemma_pm_double(7, 6679846487130193555520757958104nat, m);
    assert(pm(7, 13359692974260387111041515916208nat, m) == 48448286588006381173822177516155876760923208960663606791218344083293350820551);
    lemma_pm_double(7, 13359692974260387111041515916208nat, m);
    assert(pm(7, 26719385948520774222083031832416nat, m) == 18867521398145220547937651228537447153113023999368643847938507527750876417033);
    lemma_pm_succ(7, 26719385948520774222083031832416nat, m);
    assert(pm(7, 26719385948520774222083031832417nat, m) == 27200899436764162876668077583390198396410062994525231290362235294378972550205);
    lemma_pm_double(7, 26719385948520774222083031832417nat, m);
    assert(pm(7, 53438771897041548444166063664834nat, m) == 40867040259596480801356605017727603336153717591789495398948235630694831687514);
    lemma_pm_succ(7, 53438771897041548444166063664834nat, m);
    assert(pm(7, 53438771897041548444166063664835nat, m) == 23889905941544413212257532583163394164623260639888278679619355915170915890033);
    lemma_pm_double(7, 53438771897041548444166063664835nat, m);
    assert(pm(7, 106877543794083096888332127329670nat, m) == 31339367321148325884615608663850450104028804860401719613754114170001431526346);
    lemma_pm_succ(7, 106877543794083096888332127329670nat, m);
    assert(pm(7, 106877543794083096888332127329671nat, m) == 9632070547533519274518298614209287377439424020701486005864164390255695946370);
    lemma_pm_double(7, 106877543794083096888332127329671nat, m);
    assert(pm(7, 213755087588166193776664254659342nat, m) == 29855274116986634927955403157722513362701560267176346623634155379044713140498);
    lemma_pm_double(7, 213755087588166193776664254659342nat, m);
    assert(pm(7, 427510175176332387553328509318684nat, m) == 17286438844012582000820250891132330759853906405026571201889174205589278264222);
    lemma_pm_succ(7, 427510175176332387553328509318684nat, m);
    assert(pm(7, 427510175176332387553328509318685nat, m) == 16133321557835693046846275221554383643596239834130722768016902039247785480528);
    lemma_pm_double(7, 427510175176332387553328509318685nat, m);
    assert(pm(7, 855020350352664775106657018637370nat, m) == 17061480755093272217486727530223023476991124319732868864500552238288723069363);
    lemma_pm_double(7, 855020350352664775106657018637370nat, m);
    assert(pm(7, 1710040700705329550213314037274740nat, m) == 10645313177177414851844854418712016216752699051155572696995182197929395616069);
    lemma_pm_succ(7, 1710040700705329550213314037274740nat, m);
    assert(pm(7, 1710040700705329550213314037274741nat, m) == 22081317065115713483466240422798147679578340857561371056362616685567188127970);
    lemma_pm_double(7, 1710040700705329550213314037274741nat, m);
    assert(pm(7, 3420081401410659100426628074549482nat, m) == 13662275715525893424927240580534972210483743864687160329600932181221431782043);
    lemma_pm_succ(7, 3420081401410659100426628074549482nat, m);
    assert(pm(7, 3420081401410659100426628074549483nat, m) == 43200054833555063495042943555558839635695654552282484484602866568611441289788);
    lemma_pm_double(7, 3420081401410659100426628074549483nat, m);
    assert(pm(7, 6840162802821318200853256149098966nat, m) == 17432697544698441645756890828581031171638712229749984436861152389048127683421);
    lemma_pm_double(7, 6840162802821318200853256149098966nat, m);
    assert(pm(7, 13680325605642636401706512298197932nat, m) == 34503605081693861728189371370543751337335255489901907900398182945539913849260);
    lemma_pm_succ(7, 13680325605642636401706512298197932nat, m);
    assert(pm(7, 13680325605642636401706512298197933nat, m) == 31781734871352270179534637561062396010584578427202804012372645819025072206768);
    lemma_pm_double(7, 13680325605642636401706512298197933nat, m);
    assert(pm(7, 27360651211285272803413024596395866nat, m) == 49518081313785497037342319743382063053886041351379951249792928179316647401119);
    lemma_pm_succ(7, 27360651211285272803413024596395866nat, m);
    assert(pm(7, 27360651211285272803413024596395867nat, m) == 32011318145741336384709795154558646351058974456493831812928545055585044700755);
    lemma_pm_double(7, 27360651211285272803413024596395867nat, m);
    assert(pm(7, 54721302422570545606826049192791734nat, m) == 20805851155030125503006324964772254260854164480717292503813289451253470815081);
    lemma_pm_double(7, 54721302422570545606826049192791734nat, m);
    assert(pm(7, 109442604845141091213652098385583468nat, m) == 36805823762651356455155988274825869437597969277725880965423184745978555868057);
    lemma_pm_succ(7, 109442604845141091213652098385583468nat, m);
    assert(pm(7, 109442604845141091213652098385583469nat, m) == 47897265638054733268300955891037222712423574941970615467547658422095566338347);
    lemma_pm_double(7, 109442604845141091213652098385583469nat, m);
    assert(pm(7, 218885209690282182427304196771166938nat, m) == 20979496673285228652571405047964595977401482776185694903719905478911475676858);
    lemma_pm_double(7, 218885209690282182427304196771166938nat, m);
    assert(pm(7, 437770419380564364854608393542333876nat, m) == 15299790133572403923010463048333754316781313063361203388131026508049349795466);
    lemma_pm_double(7, 437770419380564364854608393542333876nat, m);
    assert(pm(7, 875540838761128729709216787084667752nat, m) == 12500417185432089714802240251144305346850561467447270427750445107667727304883);
    lemma_pm_double(7, 875540838761128729709216787084667752nat, m);
    assert(pm(7, 1751081677522257459418433574169335504nat, m) == 16833429782047345449042838992279883904023703694832010026768076197315841635902);
    lemma_pm_succ(7, 1751081677522257459418433574169335504nat, m);
    assert(pm(7, 1751081677522257459418433574169335505nat, m) == 12962258124079037184404391929587255652784820862768794542169215981333729082288);
    lemma_pm_double(7, 1751081677522257459418433574169335505nat, m);
    assert(pm(7, 3502163355044514918836867148338671010nat, m) == 38661491268532500683981710460631816773193466792988517013212292803700875520448);
    lemma_pm_succ(7, 3502163355044514918836867148338671010nat, m);
    assert(pm(7, 3502163355044514918836867148338671011nat, m) == 8451063004096552390633270683492888223901505048281429979467756126213222720571);
    lemma_pm_double(7, 3502163355044514918836867148338671011nat, m);
    assert(pm(7, 7004326710089029837673734296677342022nat, m) == 19380820690358616116718905829058997173084993074340403105403024840684389005303);
    lemma_pm_double(7, 7004326710089029837673734296677342022nat, m);
    assert(pm(7, 14008653420178059675347468593354684044nat, m) == 25457662390673369406359460490448427442843854758001392206151538129313715689985);
    lemma_pm_double(7, 14008653420178059675347468593354684044nat, m);
    assert(pm(7, 28017306840356119350694937186709368088nat, m) == 20612028382336597209163430380356810787723760423425129992369816545488648125465);
    lemma_pm_double(7, 28017306840356119350694937186709368088nat, m);
    assert(pm(7, 56034613680712238701389874373418736176nat, m) == 5121331977236141198303193035425709229839759419498626471009262365080118534996);
    lemma_pm_double(7, 56034613680712238701389874373418736176nat, m);
    assert(pm(7, 112069227361424477402779748746837472352nat, m) == 14271892697256006752617846572904301349855665463347349889041427337326216929547);
    lemma_pm_double(7, 112069227361424477402779748746837472352nat, m);
    assert(pm(7, 224138454722848954805559497493674944704nat, m) == 32172483900416382145029741590746697527753673153846450004116814573174545561369);
    lemma_pm_succ(7, 224138454722848954805559497493674944704nat, m);
    assert(pm(7, 224138454722848954805559497493674944705nat, m) == 15463886602409913097417229102483019343513502074814598738403067212467494191531);
    lemma_pm_double(7, 224138454722848954805559497493674944705nat, m);
    assert(pm(7, 448276909445697909611118994987349889410nat, m) == 45859959368741638354259617969962654221374249860149529259574906414768196385884);
    lemma_pm_succ(7, 448276909445697909611118994987349889410nat, m);
    assert(pm(7, 448276909445697909611118994987349889411nat, m) == 6404464530434325603130882740622784523476434017880877881402392703745887594110);
    lemma_pm_double(7, 448276909445697909611118994987349889411nat, m);
    assert(pm(7, 896553818891395819222237989974699778822nat, m) == 39347407507021299381683719644823914089242184722808293347076200760433636202350);
    lemma_pm_succ(7, 896553818891395819222237989974699778822nat, m);
    assert(pm(7, 896553818891395819222237989974699778823nat, m) == 13252476673518143274547334972837569436242530557019864316515111823342547493885);
    lemma_pm_double(7, 896553818891395819222237989974699778823nat, m);
    assert(pm(7, 1793107637782791638444475979949399557646nat, m) == 41989354410392559885689311610883681706299869344619311722322065222508868360395);
    lemma_pm_succ(7, 1793107637782791638444475979949399557646nat, m);
    assert(pm(7, 1793107637782791638444475979949399557647nat, m) == 31746104997116966802586478735255942755646322909696992943236163057869172600200);
    lemma_pm_double(7, 1793107637782791638444475979949399557647nat, m);
    assert(pm(7, 3586215275565583276888951959898799115294nat, m) == 19149436816320997868637496952552259926994176471685014491620357787902619586950);
    lemma_pm_double(7, 3586215275565583276888951959898799115294nat, m);
    assert(pm(7, 7172430551131166553777903919797598230588nat, m) == 43752122822464807192648526372546409958251461239432289914554360559397238992428);
    lemma_pm_succ(7, 7172430551131166553777903919797598230588nat, m);
    assert(pm(7, 7172430551131166553777903919797598230589nat, m) == 44085483881622697951300982066895040519307466173387840288862230416087767024431);
    lemma_pm_double(7, 7172430551131166553777903919797598230589nat, m);
    assert(pm(7, 14344861102262333107555807839595196461178nat, m) == 10180554404814297731089741306936130577712649358732900463377053062440742151313);
    lemma_pm_succ(7, 14344861102262333107555807839595196461178nat, m);
    assert(pm(7, 14344861102262333107555807839595196461179nat, m) == 18828005658573893638180448640366948206297993010602665421035712737146613874678);
    lemma_pm_double(7, 14344861102262333107555807839595196461179nat, m);
    assert(pm(7, 28689722204524666215111615679190392922358nat, m) == 24893053816543998857820105650188097752849474967468490878571729569155431520874);
    lemma_pm_succ(7, 28689722204524666215111615679190392922358nat, m);
    assert(pm(7, 28689722204524666215111615679190392922359nat, m) == 16943751190429420566397518026758786756874667270696522682191130884272277092579);
    lemma_pm_double(7, 28689722204524666215111615679190392922359nat, m);
    assert(pm(7, 57379444409049332430223231358380785844718nat, m) == 9855031414500290706075096699976064298874982788339521302731479542452117866689);
    lemma_pm_double(7, 57379444409049332430223231358380785844718nat, m);
    assert(pm(7, 114758888818098664860446462716761571689436nat, m) == 11997980710902346945388742638272746692088418693613773973021180859420305558071);
    lemma_pm_double(7, 114758888818098664860446462716761571689436nat, m);
    assert(pm(7, 229517777636197329720892925433523143378872nat, m) == 1826089967063334920845291032723837112772023749543593382181848850446595081294);
    lemma_pm_double(7, 229517777636197329720892925433523143378872nat, m);
    assert(pm(7, 459035555272394659441785850867046286757744nat, m) == 11423433881329732256270283209662296927549557715770641074766405073064840527336);
    lemma_pm_succ(7, 459035555272394659441785850867046286757744nat, m);
    assert(pm(7, 459035555272394659441785850867046286757745nat, m) == 27528161994181935314444241959450112655156351509866849700761176811515302506839);
    lemma_pm_double(7, 459035555272394659441785850867046286757745nat, m);
    assert(pm(7, 918071110544789318883571701734092573515490nat, m) == 40092112282661809501165797495852510208575352333173076677374385370257561445909);
    lemma_pm_double(7, 918071110544789318883571701734092573515490nat, m);
    assert(pm(7, 1836142221089578637767143403468185147030980nat, m) == 35501366229685594260038826913382574230208982165453586036775706228036381168526);
    lemma_pm_succ(7, 1836142221089578637767143403468185147030980nat, m);
    assert(pm(7, 1836142221089578637767143403468185147030981nat, m) == 38766062907294397902480826360934156260700665156064550967015308796500343441630);
    lemma_pm_double(7, 1836142221089578637767143403468185147030981nat, m);
    assert(pm(7, 3672284442179157275534286806936370294061962nat, m) == 6578948648695231427087968255469430431268735284873539696763813393816267980263);
    lemma_pm_double(7, 3672284442179157275534286806936370294061962nat, m);
    assert(pm(7, 7344568884358314551068573613872740588123924nat, m) == 47835657319436863131557733882081230368263874305084578434275532449373752404826);
    lemma_pm_succ(7, 7344568884358314551068573613872740588123924nat, m);
    assert(pm(7, 7344568884358314551068573613872740588123925nat, m) == 20234350185300899044217694125452817551703805132426222104306774945984779726704);
    lemma_pm_double(7, 7344568884358314551068573613872740588123925nat, m);
    assert(pm(7, 14689137768716629102137147227745481176247850nat, m) == 50202879422775488174387460001583512598298586000984558713033806464715276368732);
    lemma_pm_succ(7, 14689137768716629102137147227745481176247850nat, m);
    assert(pm(7, 14689137768716629102137147227745481176247851nat, m) == 36804904908671274344025776961968793161946787003726084055614693053375447474046);
    lemma_pm_double(7, 14689137768716629102137147227745481176247851nat, m);
    assert(pm(7, 29378275537433258204274294455490962352495702nat, m) == 678914159569192190853115386760131633402117878324500411971262992897804309361);
    lemma_pm_double(7, 29378275537433258204274294455490962352495702nat, m);
    assert(pm(7, 58756551074866516408548588910981924704991404nat, m) == 18393446432453752911134241151297053322786193690125116755973051027298756026965);
    lemma_pm_double(7, 58756551074866516408548588910981924704991404nat, m);
    assert(pm(7, 117513102149733032817097177821963849409982808nat, m) == 805154545531877350615249502151574191616801397036634251509684415575854986065);
    lemma_pm_double(7, 117513102149733032817097177821963849409982808nat, m);
    assert(pm(7, 235026204299466065634194355643927698819965616nat, m) == 35357685987986590525185517896240890486758143868107306663451503702233941743502);
    lemma_pm_succ(7, 235026204299466065634194355643927698819965616nat, m);
    assert(pm(7, 235026204299466065634194355643927698819965617nat, m) == 37760301215401371758507663240942370056544797074640595353745891115883267466462);
    lemma_pm_double(7, 235026204299466065634194355643927698819965617nat, m);
    assert(pm(7, 470052408598932131268388711287855397639931234nat, m) == 46688458994900179858978160598222216024342795079329137514110305138675680541604);
    lemma_pm_succ(7, 470052408598932131268388711287855397639931234nat, m);
    assert(pm(7, 470052408598932131268388711287855397639931235nat, m) == 12203961913544116136160681138439717144256250552138135663150183771098276684150);
    lemma_pm_double(7, 470052408598932131268388711287855397639931235nat, m);
    assert(pm(7, 940104817197864262536777422575710795279862470nat, m) == 29328733174618547526521773135167350019332678771570790358219967450094331256453);
    lemma_pm_succ(7, 940104817197864262536777422575710795279862470nat, m);
    assert(pm(7, 940104817197864262536777422575710795279862471nat, m) == 47993506696951261247309190421613552622257093899412619039728796050844575241632);
    lemma_pm_double(7, 940104817197864262536777422575710795279862471nat, m);
    assert(pm(7, 1880209634395728525073554845151421590559724942nat, m) == 31300237895047640587777633322986695397824484633160600134110959089272848784690);
    lemma_pm_double(7, 1880209634395728525073554845151421590559724942nat, m);
    assert(pm(7, 3760419268791457050147109690302843181119449884nat, m) == 10457334937130136329889867895759461625977763547012518747638404026626855052107);
    lemma_pm_succ(7, 3760419268791457050147109690302843181119449884nat, m);
    assert(pm(7, 3760419268791457050147109690302843181119449885nat, m) == 20765469384784763829781334762130265544153792328559993410865169486449404180236);
    lemma_pm_double(7, 3760419268791457050147109690302843181119449885nat, m);
    assert(pm(7, 7520838537582914100294219380605686362238899770nat, m) == 32976680855659828514628985722977059803622329433456201332642734299727498870021);
    lemma_pm_double(7, 7520838537582914100294219380605686362238899770nat, m);
    assert(pm(7, 15041677075165828200588438761211372724477799540nat, m) == 2680700831977662430645157003274536745690852617947082109112747126425722228798);
    lemma_pm_double(7, 15041677075165828200588438761211372724477799540nat, m);
    assert(pm(7, 30083354150331656401176877522422745448955599080nat, m) == 22966180731197761405352430313496954686599625680117256226751549466445313523334);
    lemma_pm_double(7, 30083354150331656401176877522422745448955599080nat, m);
    assert(pm(7, 60166708300663312802353755044845490897911198160nat, m) == 37272327620348547327140804903416167529640041738034787953161724197872872020996);
    lemma_pm_succ(7, 60166708300663312802353755044845490897911198160nat, m);
    assert(pm(7, 60166708300663312802353755044845490897911198161nat, m) == 51162792641935069372194672291169309356718082164132964381717434585355779408920);
    lemma_pm_double(7, 60166708300663312802353755044845490897911198161nat, m);
    assert(pm(7, 120333416601326625604707510089690981795822396322nat, m) == 23891626150463233702990372799404025510993812066747606857624353659968200909802);
    lemma_pm_succ(7, 120333416601326625604707510089690981795822396322nat, m);
    assert(pm(7, 120333416601326625604707510089690981795822396323nat, m) == 9933757527864064482589388071270281063885026965650334535559499519961662815075);
    lemma_pm_double(7, 120333416601326625604707510089690981795822396323nat, m);
    assert(pm(7, 240666833202653251209415020179381963591644792646nat, m) == 30481297498041403633566577709990609922390126785370782356507357723569800043501);
    lemma_pm_double(7, 240666833202653251209415020179381963591644792646nat, m);
    assert(pm(7, 481333666405306502418830040358763927183289585292nat, m) == 12805240612427094453219076127064407312940603791526042795504251599125020895487);
    lemma_pm_succ(7, 481333666405306502418830040358763927183289585292nat, m);
    assert(pm(7, 481333666405306502418830040358763927183289585293nat, m) == 37200809111863470693085792381264885352893674040154661745926102493936565083896);
    lemma_pm_double(7, 481333666405306502418830040358763927183289585293nat, m);
    assert(pm(7, 962667332810613004837660080717527854366579170586nat, m) == 45274384728224525656462141554101373538430109522388856413798895707859843070930);
    lemma_pm_succ(7, 962667332810613004837660080717527854366579170586nat, m);
    assert(pm(7, 962667332810613004837660080717527854366579170587nat, m) == 2305442046814536718548547829593819742867451653556167960970317755387414389432);
    lemma_pm_double(7, 962667332810613004837660080717527854366579170587nat, m);
    assert(pm(7, 1925334665621226009675320161435055708733158341174nat, m) == 40075598737143447287612856006619229038794045064929511312563251661772440677579);
    lemma_pm_succ(7, 1925334665621226009675320161435055708733158341174nat, m);
    assert(pm(7, 1925334665621226009675320161435055708733158341175nat, m) == 18349815284373178616051289505404774083105552951868390074924468132714178820488);
    lemma_pm_double(7, 1925334665621226009675320161435055708733158341175nat, m);
    assert(pm(7, 3850669331242452019350640322870111417466316682350nat, m) == 32188882409637080858065922495410476495860432999911163964844853239447075716888);
    lemma_pm_double(7, 3850669331242452019350640322870111417466316682350nat, m);
    assert(pm(7, 7701338662484904038701280645740222834932633364700nat, m) == 30724559222333930120967153119383050239020052485187306011701299841654268162294);
    lemma_pm_succ(7, 7701338662484904038701280645740222834932633364700nat, m);
    assert(pm(7, 7701338662484904038701280645740222834932633364701nat, m) == 5328413855832748928979109802937488322378157394200590791494464091825552398006);
    lemma_pm_double(7, 7701338662484904038701280645740222834932633364701nat, m);
    assert(pm(7, 15402677324969808077402561291480445669865266729402nat, m) == 7830889809699884213029618806836351867132212761883633120716657234087081761938);
    lemma_pm_double(7, 15402677324969808077402561291480445669865266729402nat, m);
    assert(pm(7, 30805354649939616154805122582960891339730533458804nat, m) == 13060360360273525317823697470895694796109202145858628154685384745635905611405);
    lemma_pm_double(7, 30805354649939616154805122582960891339730533458804nat, m);
    assert(pm(7, 61610709299879232309610245165921782679461066917608nat, m) == 47448239062683029675966707860566879030506982464778151195178680192288853646076);
    lemma_pm_double(7, 61610709299879232309610245165921782679461066917608nat, m);
    assert(pm(7, 123221418599758464619220490331843565358922133835216nat, m) == 12410843794398175058495579326714088064198378594548610736669616712087318051695);
    lemma_pm_succ(7, 123221418599758464619220490331843565358922133835216nat, m);
    assert(pm(7, 123221418599758464619220490331843565358922133835217nat, m) == 34440031385661034930021314778812650611698097661312637334083658284672645177352);
    lemma_pm_double(7, 123221418599758464619220490331843565358922133835217nat, m);
    assert(pm(7, 246442837199516929238440980663687130717844267670434nat, m) == 9602615433613206709776432860191145691265485797346389875857211075195734946846);
    lemma_pm_double(7, 246442837199516929238440980663687130717844267670434nat, m);
    assert(pm(7, 492885674399033858476881961327374261435688535340868nat, m) == 39002054797175693938552877271784626566108883071251902442074559038134691994511);
    lemma_pm_succ(7, 492885674399033858476881961327374261435688535340868nat, m);
    assert(pm(7, 492885674399033858476881961327374261435688535340869nat, m) == 10835007704598905172631438361562556774309418996125127981503619767249938039012);
    lemma_pm_double(7, 492885674399033858476881961327374261435688535340869nat, m);
    assert(pm(7, 985771348798067716953763922654748522871377070681738nat, m) == 3889308330750659012795709265544612004297454170683226644045819691542455483804);
    lemma_pm_succ(7, 985771348798067716953763922654748522871377070681738nat, m);
    assert(pm(7, 985771348798067716953763922654748522871377070681739nat, m) == 27225158315254613089569964858812284030082179194782586508320737840797188386628);
    lemma_pm_double(7, 985771348798067716953763922654748522871377070681739nat, m);
    assert(pm(7, 1971542697596135433907527845309497045742754141363478nat, m) == 38594008700767025195361938059864167794201942169388558893349854953736497985087);
    lemma_pm_succ(7, 1971542697596135433907527845309497045742754141363478nat, m);
    assert(pm(7, 1971542697596135433907527845309497045742754141363479nat, m) == 7978685029738223970294863878119345370960832683081723140430691176462579973044);
    lemma_pm_double(7, 1971542697596135433907527845309497045742754141363479nat, m);
    assert(pm(7, 3943085395192270867815055690618994091485508282726958nat, m) == 44375642882136365283343733111292854334827812283215459865912759809870206468669);
    lemma_pm_double(7, 3943085395192270867815055690618994091485508282726958nat, m);
    assert(pm(7, 7886170790384541735630111381237988182971016565453916nat, m) == 46672081495603567609826433208503285340710788863998509184962142002222004699058);
    lemma_pm_double(7, 7886170790384541735630111381237988182971016565453916nat, m);
    assert(pm(7, 15772341580769083471260222762475976365942033130907832nat, m) == 16470523509824608995999978961654763854674143296401521994192335206087874398546);
    lemma_pm_succ(7, 15772341580769083471260222762475976365942033130907832nat, m);
    assert(pm(7, 15772341580769083471260222762475976365942033130907833nat, m) == 10421914218519882013104371715211415307337898073755378314139029042737958420796);
    lemma_pm_double(7, 15772341580769083471260222762475976365942033130907833nat, m);
    assert(pm(7, 31544683161538166942520445524951952731884066261815666nat, m) == 23666531714276464103605719198641520476535876089291915764939658613465829552522);
    lemma_pm_succ(7, 31544683161538166942520445524951952731884066261815666nat, m);
    assert(pm(7, 31544683161538166942520445524951952731884066261815667nat, m) == 8358096474556677286896812865932745822679475123460496886766634194445063314115);
    lemma_pm_double(7, 31544683161538166942520445524951952731884066261815667nat, m);
    assert(pm(7, 63089366323076333885040891049903905463768132523631334nat, m) == 51233933426207453047100924382276317695922658519073647406723453268807807084696);
    lemma_pm_double(7, 63089366323076333885040891049903905463768132523631334nat, m);
    assert(pm(7, 126178732646152667770081782099807810927536265047262668nat, m) == 8317170638892358768903867211012637541688882663095146155754952695126432584495);
    lemma_pm_double(7, 126178732646152667770081782099807810927536265047262668nat, m);
    assert(pm(7, 252357465292305335540163564199615621855072530094525336nat, m) == 38130200310962098280262859108912500851043078919896764047416626784516450273134);
    lemma_pm_succ(7, 252357465292305335540163564199615621855072530094525336nat, m);
    assert(pm(7, 252357465292305335540163564199615621855072530094525337nat, m) == 4732026301103735564601311221457676768848789936639159218898093991922245989373);
    lemma_pm_double(7, 252357465292305335540163564199615621855072530094525337nat, m);
    assert(pm(7, 504714930584610671080327128399231243710145060189050674nat, m) == 43675305647124649112612753687236151678039493130501781747367305219563427589985);
    lemma_pm_double(7, 504714930584610671080327128399231243710145060189050674nat, m);
    assert(pm(7, 1009429861169221342160654256798462487420290120378101348nat, m) == 23860251615318361144978946538104353644217460868467740786900796052653159841097);
    lemma_pm_succ(7, 1009429861169221342160654256798462487420290120378101348nat, m);
    assert(pm(7, 1009429861169221342160654256798462487420290120378101349nat, m) == 9714135781849956576509404242172577996450568577691272040494596268756375334140);
    lemma_pm_double(7, 1009429861169221342160654256798462487420290120378101349nat, m);
    assert(pm(7, 2018859722338442684321308513596924974840580240756202698nat, m) == 3419355184171905782401839489703319582149800621025435084874216725259412746364);
    lemma_pm_double(7, 2018859722338442684321308513596924974840580240756202698nat, m);
    assert(pm(7, 4037719444676885368642617027193849949681160481512405396nat, m) == 24408042984995621676989123511112840107235423744463162254309484246839254060622);
    lemma_pm_succ(7, 4037719444676885368642617027193849949681160481512405396nat, m);
    assert(pm(7, 4037719444676885368642617027193849949681160481512405397nat, m) == 13548675369590780300580643053231983237576308709659222312355413628059034870815);
    lemma_pm_double(7, 4037719444676885368642617027193849949681160481512405397nat, m);
    assert(pm(7, 8075438889353770737285234054387699899362320963024810794nat, m) == 45294807388953512716521018450429854206082873453805782213805675386262783763036);
    lemma_pm_succ(7, 8075438889353770737285234054387699899362320963024810794nat, m);
    assert(pm(7, 8075438889353770737285234054387699899362320963024810795nat, m) == 2448400671917446138960686103893184416436799173474648561017775504207999234174);
    lemma_pm_double(7, 8075438889353770737285234054387699899362320963024810795nat, m);
    assert(pm(7, 16150877778707541474570468108775399798724641926049621590nat, m) == 11997674408802247096873706518185258498054031907780513943045052972887424759698);
    lemma_pm_succ(7, 16150877778707541474570468108775399798724641926049621590nat, m);
    assert(pm(7, 16150877778707541474570468108775399798724641926049621591nat, m) == 31547845686489539198668205119110843648687670853935959778711712110273392133373);
    lemma_pm_double(7, 16150877778707541474570468108775399798724641926049621591nat, m);
    assert(pm(7, 32301755557415082949140936217550799597449283852099243182nat, m) == 2047695825100879436205146671972467810674178099457625755636011040719411710458);
    lemma_pm_double(7, 32301755557415082949140936217550799597449283852099243182nat, m);
    assert(pm(7, 64603511114830165898281872435101599194898567704198486364nat, m) == 34527627838400891244329785769755379569905881702085529763653873649906142992567);
    lemma_pm_succ(7, 64603511114830165898281872435101599194898567704198486364nat, m);
    assert(pm(7, 64603511114830165898281872435101599194898567704198486365nat, m) == 31949894168301476792517538355543793638578961912488157055162480749588676209917);
    lemma_pm_double(7, 64603511114830165898281872435101599194898567704198486365nat, m);
    assert(pm(7, 129207022229660331796563744870203198389797135408396972730nat, m) == 47802248001405405768821656788999576235353816785837683288299239553223437854826);
    lemma_pm_double(7, 129207022229660331796563744870203198389797135408396972730nat, m);
    assert(pm(7, 258414044459320663593127489740406396779594270816793945460nat, m) == 48411562153528950621351671133414826366839819109475585404071946296213282599808);
    lemma_pm_double(7, 258414044459320663593127489740406396779594270816793945460nat, m);
    assert(pm(7, 516828088918641327186254979480812793559188541633587890920nat, m) == 14495792757556982749292665888117343853105427213597814276330665623771685774388);
    lemma_pm_double(7, 516828088918641327186254979480812793559188541633587890920nat, m);
    assert(pm(7, 1033656177837282654372509958961625587118377083267175781840nat, m) == 24491305182744618713395314723182307069730807672673675779554356920416854159636);
    lemma_pm_succ(7, 1033656177837282654372509958961625587118377083267175781840nat, m);
    assert(pm(7, 1033656177837282654372509958961625587118377083267175781841nat, m) == 14131510753833759555423981537718251975043996207132816989069522343102235563913);
    lemma_pm_double(7, 1033656177837282654372509958961625587118377083267175781841nat, m);
    assert(pm(7, 2067312355674565308745019917923251174236754166534351563682nat, m) == 28202406861146660170156160111011656237011285159811736544166927378958881999917);
    lemma_pm_double(7, 2067312355674565308745019917923251174236754166534351563682nat, m);
    assert(pm(7, 4134624711349130617490039835846502348473508333068703127364nat, m) == 25358183686517492515869408053874195098388393872710485763994582464097235636060);
    lemma_pm_double(7, 4134624711349130617490039835846502348473508333068703127364nat, m);
    assert(pm(7, 8269249422698261234980079671693004696947016666137406254728nat, m) == 12506601981821410887679044167323996088393315545976088211843561485147473773912);
    lemma_pm_double(7, 8269249422698261234980079671693004696947016666137406254728nat, m);
    assert(pm(7, 16538498845396522469960159343386009393894033332274812509456nat, m) == 14173528434379518386669280368296606333340148030892584688257234584094805444111);
    lemma_pm_succ(7, 16538498845396522469960159343386009393894033332274812509456nat, m);
    assert(pm(7, 16538498845396522469960159343386009393894033332274812509457nat, m) == 46778823865530438227237222069890278495690483715720454995196983388725056924264);
    lemma_pm_double(7, 16538498845396522469960159343386009393894033332274812509457nat, m);
    assert(pm(7, 33076997690793044939920318686772018787788066664549625018914nat, m) == 22046037545345630836895865777537180792391576984526205210849170345912046809299);
    lemma_pm_double(7, 33076997690793044939920318686772018787788066664549625018914nat, m);
    assert(pm(7, 66153995381586089879840637373544037575576133329099250037828nat, m) == 29463579187958948627103315526240912059290137472978806863843516505716830647005);
    lemma_pm_succ(7, 66153995381586089879840637373544037575576133329099250037828nat, m);
    assert(pm(7, 66153995381586089879840637373544037575576133329099250037829nat, m) == 48937428790334068951379987159128486901959304809268734579093639440202070975496);
    lemma_pm_double(7, 66153995381586089879840637373544037575576133329099250037829nat, m);
    assert(pm(7, 132307990763172179759681274747088075151152266658198500075658nat, m) == 47363748622552452906886368416463833505431718860307562229264625600042980871783);
    lemma_pm_succ(7, 132307990763172179759681274747088075151152266658198500075658nat, m);
    assert(pm(7, 132307990763172179759681274747088075151152266658198500075659nat, m) == 16930989307110027471518135866131039511878717018987108669230427000669378995403);
    lemma_pm_double(7, 132307990763172179759681274747088075151152266658198500075659nat, m);
    assert(pm(7, 264615981526344359519362549494176150302304533316397000151318nat, m) == 23231241185862742020192199714482912846519668133318752609252338007769048074593);
    lemma_pm_succ(7, 264615981526344359519362549494176150302304533316397000151318nat, m);
    assert(pm(7, 264615981526344359519362549494176150302304533316397000151319nat, m) == 5311062775660622703002176476822492412566019431648354796955389954567592968612);
    lemma_pm_double(7, 264615981526344359519362549494176150302304533316397000151319nat, m);
    assert(pm(7, 529231963052688719038725098988352300604609066632794000302638nat, m) == 9925356562720586979515747610446742156188609356155474103122229209996512468738);
    lemma_pm_double(7, 529231963052688719038725098988352300604609066632794000302638nat, m);
    assert(pm(7, 1058463926105377438077450197976704601209218133265588000605276nat, m) == 35084004428564552097375629079309928259145176750600485160816668331722017693521);
    lemma_pm_succ(7, 1058463926105377438077450197976704601209218133265588000605276nat, m);
    assert(pm(7, 1058463926105377438077450197976704601209218133265588000605277nat, m) == 35844530299447102763838441522425634463254027252092844835302043522299799116595);
    lemma_pm_double(7, 1058463926105377438077450197976704601209218133265588000605277nat, m);
    assert(pm(7, 2116927852210754876154900395953409202418436266531176001210554nat, m) == 32057193453967580145082003392627495391462082367680465962160810034235995387070);
    lemma_pm_double(7, 2116927852210754876154900395953409202418436266531176001210554nat, m);
    assert(pm(7, 4233855704421509752309800791906818404836872533062352002421108nat, m) == 47688706686774841793066286252998589842951446777365788715843288047090410720242);
    lemma_pm_double(7, 4233855704421509752309800791906818404836872533062352002421108nat, m);
    assert(pm(7, 8467711408843019504619601583813636809673745066124704004842216nat, m) == 616436281285014917568763484706356638913046671071058981522339911570540682693);
    lemma_pm_double(7, 8467711408843019504619601583813636809673745066124704004842216nat, m);
    assert(pm(7, 16935422817686039009239203167627273619347490132249408009684432nat, m) == 25720131327341706874802996544591811591083630692207376798218608105242867356194);
    lemma_pm_succ(7, 16935422817686039009239203167627273619347490132249408009684432nat, m);
    assert(pm(7, 16935422817686039009239203167627273619347490132249408009684433nat, m) == 22733293766013376685277754287584783624513757343868724119719280636884327939819);
    lemma_pm_double(7, 16935422817686039009239203167627273619347490132249408009684433nat, m);
    assert(pm(7, 33870845635372078018478406335254547238694980264498816019368866nat, m) == 13191212984244705873157947891804080113210342866172594092286045594884542717139);
    lemma_pm_double(7, 33870845635372078018478406335254547238694980264498816019368866nat, m);
    assert(pm(7, 67741691270744156036956812670509094477389960528997632038737732nat, m) == 23134385338969148721050438066459317829327423988212893407179977452846336367248);
    lemma_pm_succ(7, 67741691270744156036956812670509094477389960528997632038737732nat, m);
    assert(pm(7, 67741691270744156036956812670509094477389960528997632038737733nat, m) == 4633071847405469609009844940657327292220310415907340382448866070108611017197);
    lemma_pm_double(7, 67741691270744156036956812670509094477389960528997632038737733nat, m);
    assert(pm(7, 135483382541488312073913625341018188954779921057995264077475466nat, m) == 42074175520768356904757416035852659989031509078321424800196123400225967415229);
    lemma_pm_succ(7, 135483382541488312073913625341018188954779921057995264077475466nat, m);
    assert(pm(7, 135483382541488312073913625341018188954779921057995264077475467nat, m) == 32339852769747545936063209710038790734767801045611784488354570301888865984038);
    lemma_pm_double(7, 135483382541488312073913625341018188954779921057995264077475467nat, m);
    assert(pm(7, 270966765082976624147827250682036377909559842115990528154950934nat, m) == 51825827598504168878305934349365550713280004613425583356292313043607668486959);
    lemma_pm_succ(7, 270966765082976624147827250682036377909559842115990528154950934nat, m);
    assert(pm(7, 270966765082976624147827250682036377909559842115990528154950935nat, m) == 48165542138772039271455097396443059966816717290813256558424239105622192301635);
    lemma_pm_double(7, 270966765082976624147827250682036377909559842115990528154950935nat, m);
    assert(pm(7, 541933530165953248295654501364072755819119684231981056309901870nat, m) == 45414729135801481534790909961576762298996640440929910388906254765242415843988);
    lemma_pm_double(7, 541933530165953248295654501364072755819119684231981056309901870nat, m);
    assert(pm(7, 1083867060331906496591309002728145511638239368463962112619803740nat, m) == 45356122214281653810218707372467186583827238149740015118852476842387243493719);
    lemma_pm_succ(7, 1083867060331906496591309002728145511638239368463962112619803740nat, m);
    assert(pm(7, 1083867060331906496591309002728145511638239368463962112619803741nat, m) == 2877604449214433794844508558154511060647352045014278896345385697079217348955);
    lemma_pm_double(7, 1083867060331906496591309002728145511638239368463962112619803741nat, m);
    assert(pm(7, 2167734120663812993182618005456291023276478736927924225239607482nat, m) == 32541701740604600354615997321672297707585489856138530736532033956304103780362);
    lemma_pm_double(7, 2167734120663812993182618005456291023276478736927924225239607482nat, m);
    assert(pm(7, 4335468241327625986365236010912582046552957473855848450479214964nat, m) == 41410081435110578305150535385257030939241879911484173177277043567900771907613);
    lemma_pm_double(7, 4335468241327625986365236010912582046552957473855848450479214964nat, m);
    assert(pm(7, 8670936482655251972730472021825164093105914947711696900958429928nat, m) == 24694143431927396770467123404510649257084011144539080940124238005654545557738);
    lemma_pm_double(7, 8670936482655251972730472021825164093105914947711696900958429928nat, m);
    assert(pm(7, 17341872965310503945460944043650328186211829895423393801916859856nat, m) == 48166218313923830050686541011854116099227275864083595372441819757932515540509);
    lemma_pm_succ(7, 17341872965310503945460944043650328186211829895423393801916859856nat, m);
    assert(pm(7, 17341872965310503945460944043650328186211829895423393801916859857nat, m) == 22548277146709667478119344033863017668447616045419340671470786105896121676485);
    lemma_pm_double(7, 17341872965310503945460944043650328186211829895423393801916859857nat, m);
    assert(pm(7, 34683745930621007890921888087300656372423659790846787603833719714nat, m) == 5793089397605625209468698023443658580515257301161523743817376774794041793013);
    lemma_pm_double(7, 34683745930621007890921888087300656372423659790846787603833719714nat, m);
    assert(pm(7, 69367491861242015781843776174601312744847319581693575207667439428nat, m) == 14285170702259340715613670712602298201652976393745705658160548511531214509461);
    lemma_pm_succ(7, 69367491861242015781843776174601312744847319581693575207667439428nat, m);
    assert(pm(7, 69367491861242015781843776174601312744847319581693575207667439429nat, m) == 47560319740689194529847954480030121573880282255692301784520180880779920381714);
    lemma_pm_double(7, 69367491861242015781843776174601312744847319581693575207667439429nat, m);
    assert(pm(7, 138734983722484031563687552349202625489694639163387150415334878858nat, m) == 1857280549673558040640827258104429523522428401816456229937445076086242534267);
    lemma_pm_succ(7, 138734983722484031563687552349202625489694639163387150415334878858nat, m);
    assert(pm(7, 138734983722484031563687552349202625489694639163387150415334878859nat, m) == 13000963847714906284485790806731006664656998812715193609562115532603697739869);
    lemma_pm_double(7, 138734983722484031563687552349202625489694639163387150415334878859nat, m);
    assert(pm(7, 277469967444968063127375104698405250979389278326774300830669757718nat, m) == 28218511880840804537304591129246865445379186529704506091448995137393280975765);
    lemma_pm_succ(7, 277469967444968063127375104698405250979389278326774300830669757718nat, m);
    assert(pm(7, 277469967444968063127375104698405250979389278326774300830669757719nat, m) == 40221957640507060322788916380170160604582648206348629172331989861937223276816);
    lemma_pm_double(7, 277469967444968063127375104698405250979389278326774300830669757719nat, m);
    assert(pm(7, 554939934889936126254750209396810501958778556653548601661339515438nat, m) == 37259202634529093569699993115287300592271702630164540154762683946906173849231);
    lemma_pm_double(7, 554939934889936126254750209396810501958778556653548601661339515438nat, m);
    assert(pm(7, 1109879869779872252509500418793621003917557113307097203322679030876nat, m) == 12836739198993369442693422131228902576287318771924757667968929639654976263366);
    lemma_pm_succ(7, 1109879869779872252509500418793621003917557113307097203322679030876nat, m);
    assert(pm(7, 1109879869779872252509500418793621003917557113307097203322679030877nat, m) == 37421299217827395619406214410416352196320678902945665853178848777646252659049);
    lemma_pm_double(7, 1109879869779872252509500418793621003917557113307097203322679030877nat, m);
    assert(pm(7, 2219759739559744505019000837587242007835114226614194406645358061754nat, m) == 46023889946911223947218111433144121214636231606065451900614410429986102605577);
    lemma_pm_double(7, 2219759739559744505019000837587242007835114226614194406645358061754nat, m);
    assert(pm(7, 4439519479119489010038001675174484015670228453228388813290716123508nat, m) == 14567262131823213792886500937270552721393835931232469501922099693024255520810);
    lemma_pm_double(7, 4439519479119489010038001675174484015670228453228388813290716123508nat, m);
    assert(pm(7, 8879038958238978020076003350348968031340456906456777626581432247016nat, m) == 39296069068239117014235141151335548549009124715184904464963385855107285252419);
    lemma_pm_double(7, 8879038958238978020076003350348968031340456906456777626581432247016nat, m);
    assert(pm(7, 17758077916477956040152006700697936062680913812913555253162864494032nat, m) == 44863535509981562108380723577009448605134133942370424548114601113676580221570);
    lemma_pm_double(7, 17758077916477956040152006700697936062680913812913555253162864494032nat, m);
    assert(pm(7, 35516155832955912080304013401395872125361827625827110506325728988064nat, m) == 50608566117761250316953367879947458428420500432267571921535893016386302966371);
    lemma_pm_double(7, 35516155832955912080304013401395872125361827625827110506325728988064nat, m);
    assert(pm(7, 71032311665911824160608026802791744250723655251654221012651457976128nat, m) == 12356826530638065056312275207576036824985920649607608947458232223290689235774);
    lemma_pm_double(7, 71032311665911824160608026802791744250723655251654221012651457976128nat, m);
    assert(pm(7, 142064623331823648321216053605583488501447310503308442025302915952256nat, m) == 15947087989946433392488050854690385066392522055160545823231186565367686062800);
    lemma_pm_double(7, 142064623331823648321216053605583488501447310503308442025302915952256nat, m);
    assert(pm(7, 284129246663647296642432107211166977002894621006616884050605831904512nat, m) == 37640740847785211037539205430939180563080665508080592739849411670498115694156);
    lemma_pm_double(7, 284129246663647296642432107211166977002894621006616884050605831904512nat, m);
    assert(pm(7, 568258493327294593284864214422333954005789242013233768101211663809024nat, m) == 35621495948038454116000163900038244647515201821367287986935583654755300163015);
    lemma_pm_double(7, 568258493327294593284864214422333954005789242013233768101211663809024nat, m);
    assert(pm(7, 1136516986654589186569728428844667908011578484026467536202423327618048nat, m) == 34938777592433837969891640363175872722931562890695703282033929976838351175138);
    lemma_pm_double(7, 1136516986654589186569728428844667908011578484026467536202423327618048nat, m);
    assert(pm(7, 2273033973309178373139456857689335816023156968052935072404846655236096nat, m) == 50349398312206057616641558656152056902727135641447126956452976181452770911150);
    lemma_pm_double(7, 2273033973309178373139456857689335816023156968052935072404846655236096nat, m);
    assert(pm(7, 4546067946618356746278913715378671632046313936105870144809693310472192nat, m) == 6257232828774371687121886645408912006195572016716774822871627571740936069945);
    lemma_pm_double(7, 4546067946618356746278913715378671632046313936105870144809693310472192nat, m);
    assert(pm(7, 9092135893236713492557827430757343264092627872211740289619386620944384nat, m) == 21338353693450982856766871554400046537186365577710896147051525125665558238485);
    lemma_pm_double(7, 9092135893236713492557827430757343264092627872211740289619386620944384nat, m);
    assert(pm(7, 18184271786473426985115654861514686528185255744423480579238773241888768nat, m) == 33704036837979091606441954737330534417538886754476267140273545478128201838685);
    lemma_pm_double(7, 18184271786473426985115654861514686528185255744423480579238773241888768nat, m);
    assert(pm(7, 36368543572946853970231309723029373056370511488846961158477546483777536nat, m) == 30052103677169043976290466420677488006285912124957878670667443272554216399331);
    lemma_pm_double(7, 36368543572946853970231309723029373056370511488846961158477546483777536nat, m);
    assert(pm(7, 72737087145893707940462619446058746112741022977693922316955092967555072nat, m) == 49039168405236218805559071800287156991188142641234652081991300799201455951875);
    lemma_pm_double(7, 72737087145893707940462619446058746112741022977693922316955092967555072nat, m);
    assert(pm(7, 145474174291787415880925238892117492225482045955387844633910185935110144nat, m) == 26124948512992224109387917019617895419623818585901520747513310882398397325793);
    lemma_pm_double(7, 145474174291787415880925238892117492225482045955387844633910185935110144nat, m);
    assert(pm(7, 290948348583574831761850477784234984450964091910775689267820371870220288nat, m) == 43807864729195232776523486879744362423157888628622995745386057832327504957651);
    lemma_pm_double(7, 290948348583574831761850477784234984450964091910775689267820371870220288nat, m);
    assert(pm(7, 581896697167149663523700955568469968901928183821551378535640743740440576nat, m) == 6674577691990217903183280382315150478161809012383826544157168770927441052938);
    lemma_pm_double(7, 581896697167149663523700955568469968901928183821551378535640743740440576nat, m);
    assert(pm(7, 1163793394334299327047401911136939937803856367643102757071281487480881152nat, m) == 46166297550728955761339043208813421657885989415268644925006239992596196669178);
    lemma_pm_double(7, 1163793394334299327047401911136939937803856367643102757071281487480881152nat, m);
    assert(pm(7, 2327586788668598654094803822273879875607712735286205514142562974961762304nat, m) == 47355606276633119999623110914924894538311297223711555292833043204054946681796);
    lemma_pm_double(7, 2327586788668598654094803822273879875607712735286205514142562974961762304nat, m);
    assert(pm(7, 4655173577337197308189607644547759751215425470572411028285125949923524608nat, m) == 15495409736525664580522611881477740845862286936633275966606697212808242960465);
    lemma_pm_double(7, 4655173577337197308189607644547759751215425470572411028285125949923524608nat, m);
    assert(pm(7, 9310347154674394616379215289095519502430850941144822056570251899847049216nat, m) == 9935319159291296225296205061497298425647605022509937155158128779181811084732);
    lemma_pm_double(7, 9310347154674394616379215289095519502430850941144822056570251899847049216nat, m);
    assert(pm(7, 18620694309348789232758430578191039004861701882289644113140503799694098432nat, m) == 49080449055536148111737256649471115077866972762959660630074371989065008719181);
    lemma_pm_double(7, 18620694309348789232758430578191039004861701882289644113140503799694098432nat, m);
    assert(pm(7, 37241388618697578465516861156382078009723403764579288226281007599388196864nat, m) == 5139886641948388820387004882779882243289496835789101000799879800735597001369);
    lemma_pm_double(7, 37241388618697578465516861156382078009723403764579288226281007599388196864nat, m);
    assert(pm(7, 74482777237395156931033722312764156019446807529158576452562015198776393728nat, m) == 37788683374159907079437010243111009917152723319460768445216848321077936706832);
    lemma_pm_double(7, 74482777237395156931033722312764156019446807529158576452562015198776393728nat, m);
    assert(pm(7, 148965554474790313862067444625528312038893615058317152905124030397552787456nat, m) == 12199030715717863602625843733259496153458630852184441396597431917972212168865);
    lemma_pm_double(7, 148965554474790313862067444625528312038893615058317152905124030397552787456nat, m);
    assert(pm(7, 297931108949580627724134889251056624077787230116634305810248060795105574912nat, m) == 44627893851202243146733350719799978439461732974599081217939054332150883485579);
    lemma_pm_double(7, 297931108949580627724134889251056624077787230116634305810248060795105574912nat, m);
    assert(pm(7, 595862217899161255448269778502113248155574460233268611620496121590211149824nat, m) == 7230057121090117390369413396167152541159245226586636237985774780825655486979);
    lemma_pm_double(7, 595862217899161255448269778502113248155574460233268611620496121590211149824nat, m);
    assert(pm(7, 1191724435798322510896539557004226496311148920466537223240992243180422299648nat, m) == 13031947706854310238195868688346941351050418278256494933515810537776406349568);
    lemma_pm_double(7, 1191724435798322510896539557004226496311148920466537223240992243180422299648nat, m);
    assert(pm(7, 2383448871596645021793079114008452992622297840933074446481984486360844599296nat, m) == 5981205868590610036627966575109565283756674324955651741633817132605685398496);
    lemma_pm_double(7, 2383448871596645021793079114008452992622297840933074446481984486360844599296nat, m);
    assert(pm(7, 4766897743193290043586158228016905985244595681866148892963968972721689198592nat, m) == 23018359928796249160281600265894119056554178830089746663447279710197994863834);
}

/// `7^2759782903954010025234091605693998201983713289501454622242297826312556904448 mod 52435875175126190479447740508185965837690552500527637822603658699938581184513`.
proof fn lemma_pow_52435875175126190479447740508185965837690552500527637822603658699938581184513_by_19()
    ensures
        pm(7, 2759782903954010025234091605693998201983713289501454622242297826312556904448nat, fr_modulus() as int) == 33954097614611596975476204725091907054106918505758578373023360834096706151438,
{
    let m: int = fr_modulus() as int;
    lemma_pm_one(7, m);
    lemma_pm_double(7, 1nat, m);
    assert(pm(7, 2nat, m) == 49);
    lemma_pm_succ(7, 2nat, m);
    assert(pm(7, 3nat, m) == 343);
    lemma_pm_double(7, 3nat, m);
    assert(pm(7, 6nat, m) == 117649);
    lemma_pm_double(7, 6nat, m);
    assert(pm(7, 12nat, m) == 13841287201);
    lemma_pm_double(7, 12nat, m);
    assert(pm(7, 24nat, m) == 191581231380566414401);
    lemma_pm_double(7, 24nat, m);
    assert(pm(7, 48nat, m) == 36703368217294125441230211032033660188801);
    lemma_pm_double(7, 48nat, m);
    assert(pm(7, 96nat, m) == 7169370109588224514666326067242483218629163598934389574923453452029754494118);
    lemma_pm_succ(7, 96nat, m);
    assert(pm(7, 97nat, m) == 50185590767117571602664282470697382530404145192540727024464174164208281458826);
    lemma_pm_double(7, 97nat, m);
    assert(pm(7, 194nat, m) == 37321659102651735252028061337552993370873464577852987513276950082941583569400);
    lemma_pm_succ(7, 194nat, m);
    assert(pm(7, 195nat, m) == 51508113018057384846405467330127090245352042042860361302524015780836760247748);
    lemma_pm_double(7, 195nat, m);
    assert(pm(7, 390nat, m) == 8970465535170266181979632953538366781628225532316145376014016490165206341774);
    lemma_pm_double(7, 390nat, m);
    assert(pm(7, 780nat, m) == 33770790563577558599791816820265133539012201547227413191717219384535549177936);
    lemma_pm_double(7, 780nat, m);
    assert(pm(7, 1560nat, m) == 1160148051306279257351930046949266579632481885832959822850383264194100088348);
    lemma_pm_succ(7, 1560nat, m);
    assert(pm(7, 1561nat, m) == 8121036359143954801463510328644866057427373200830718759952682849358700618436);
    lemma_pm_double(7, 1561nat, m);
    assert(pm(7, 3122nat, m) == 23827888201543456312510266910051682336978799245465561665057762833113535938939);
    lemma_pm_succ(7, 3122nat, m);
    assert(pm(7, 3123nat, m) == 9487591885425622749228646845803878845779937216676018187593363731979008019034);
    lemma_pm_double(7, 3123nat, m);
    assert(pm(7, 6246nat, m) == 20113957646100179998263376585492779457629837193300370413836058377880821943879);
    lemma_pm_succ(7, 6246nat, m);
    assert(pm(7, 6247nat, m) == 35925953172448879028948155082077524528027755352047317251645091245288591238127);
    lemma_pm_double(7, 6247nat, m);
    assert(pm(7, 12494nat, m) == 820381189112597489111011739261914938283760358379825651870927107888545917181);
    lemma_pm_succ(7, 12494nat, m);
    assert(pm(7, 12495nat, m) == 5742668323788182423777082174833404567986322508658779563096489755219821420267);
    lemma_pm_double(7, 12495nat, m);
    assert(pm(7, 24990nat, m) == 16323618094242911554128280798145955614909621969959328838833238789859050733417);
    lemma_pm_succ(7, 24990nat, m);
    assert(pm(7, 24991nat, m) == 9393576309447999920002484570649757628986248788660026226625354129136192764893);
    lemma_pm_double(7, 24991nat, m);
    assert(pm(7, 49982nat, m) == 39601544751188419492152005354457490925044949780339434896310552536030508551085);
    lemma_pm_succ(7, 49982nat, m);
    assert(pm(7, 49983nat, m) == 15031437382687984047825334940272607286861885959737855161155574252520653935030);
    lemma_pm_double(7, 49983nat, m);
    assert(pm(7, 99966nat, m) == 24942624738594965603917521790432166924437809329628269397182073113715856329113);
    lemma_pm_double(7, 99966nat, m);
    assert(pm(7, 199932nat, m) == 24142425490657455719397148004408852393750173173238897023398883196943383106546);
    lemma_pm_succ(7, 199932nat, m);
    assert(pm(7, 199933nat, m) == 11689352909223618597436814506304069243179554711089365695981206278787938192283);
    lemma_pm_double(7, 199933nat, m);
    assert(pm(7, 399866nat, m) == 18864003734099647465966386665996971957164082663909441912616061318052918059289);
    lemma_pm_succ(7, 399866nat, m);
    assert(pm(7, 399867nat, m) == 27176275788445151302869225645606872024767473646310817743105111826493264045997);
    lemma_pm_double(7, 399867nat, m);
    assert(pm(7, 799734nat, m) == 4622488838671899417044938571271732149720460145336940748008776465144825863428);
    lemma_pm_double(7, 799734nat, m);
    assert(pm(7, 1599468nat, m) == 46320813731018282264254949235242069638516613447940929348422470897658723527473);
    lemma_pm_succ(7, 1599468nat, m);
    assert(pm(7, 1599469nat, m) == 9630445066370832973098201597578692443472979132420678503335344083979577585233);
    lemma_pm_double(7, 1599469nat, m);
    assert(pm(7, 3198938nat, m) == 12275285834698126271134851424943798489742035320072879966416222096956043391488);
    lemma_pm_double(7, 3198938nat, m);
    assert(pm(7, 6397876nat, m) == 37492319581765562772688284838122950176688227808313611417045851311653045694253);
    lemma_pm_succ(7, 6397876nat, m);
    assert(pm(7, 6397877nat, m) == 266861196727987011579291325930822048364832155557090806302665681878413937206);
    lemma_pm_double(7, 6397877nat, m);
    assert(pm(7, 12795754nat, m) == 46916255956596950576229721209967327186029994013072244514028383213295824275452);
    lemma_pm_double(7, 12795754nat, m);
    assert(pm(7, 25591508nat, m) == 17982619537096174575220025312994763832744944201469717826650993839854642624787);
    lemma_pm_succ(7, 25591508nat, m);
    assert(pm(7, 25591509nat, m) == 21006586409420841067644696174591415153833504409232749141349639479105336004483);
    lemma_pm_double(7, 25591509nat, m);
    assert(pm(7, 51183018nat, m) == 25602070918199930153741158180413513029555891703103350178691838214468975031302);
    lemma_pm_double(7, 51183018nat, m);
    assert(pm(7, 102366036nat, m) == 22625568349874529281948450999774017809817143523675271244345988842957462359698);
    lemma_pm_succ(7, 102366036nat, m);
    assert(pm(7, 102366037nat, m) == 1071352923743133535295935473860227155648347164143985242610945800886492964347);
    lemma_pm_double(7, 102366037nat, m);
    assert(pm(7, 204732074nat, m) == 34491297330007999586815595731547341208768756212952669526161107416881227798155);
    lemma_pm_double(7, 204732074nat, m);
    assert(pm(7, 409464148nat, m) == 9956085577352974223099775214238490008335930983845310292736693148148232561161);
    lemma_pm_double(7, 409464148nat, m);
    assert(pm(7, 818928296nat, m) == 571045043956438918990762893698420525671849156987733320922919567232948334166);
    lemma_pm_succ(7, 818928296nat, m);
    assert(pm(7, 818928297nat, m) == 3997315307695072432935340255888943679702944098914133246460436970630638339162);
    lemma_pm_double(7, 818928297nat, m);
    assert(pm(7, 1637856594nat, m) == 15932209061419829912099226985084537425675195374097483729638031940970543534387);
    lemma_pm_succ(7, 1637856594nat, m);
    assert(pm(7, 1637856595nat, m) == 6653713079686428425799107879219830304345262617627110462258906186916642371683);
    lemma_pm_double(7, 1637856595nat, m);
    assert(pm(7, 3275713190nat, m) == 1567251186091152977700350451876446476403596746966006908640470848855576184091);
    lemma_pm_succ(7, 3275713190nat, m);
    assert(pm(7, 3275713191nat, m) == 10970758302638070843902453163135125334825177228762048360483295941989033288637);
    lemma_pm_double(7, 3275713191nat, m);
    assert(pm(7, 6551426382nat, m) == 41134296827573518574079102219287900570618956262604923454794993745149976558537);
    lemma_pm_double(7, 6551426382nat, m);
    assert(pm(7, 13102852764nat, m) == 717383278098700830108471141563035066776488754775505355933817052960247361119);
    lemma_pm_double(7, 13102852764nat, m);
    assert(pm(7, 26205705528nat, m) == 3292039613502332134320143667701855883560386889865499976386016887462107128327);
    lemma_pm_double(7, 26205705528nat, m);
    assert(pm(7, 52411411056nat, m) == 3538957011204925495346714431896186565034391459827355856911239930663963653664);
    lemma_pm_double(7, 52411411056nat, m);
    assert(pm(7, 104822822112nat, m) == 23948071154326811049469259874527833032835573682637826574365729702694387913743);
    lemma_pm_double(7, 104822822112nat, m);
    assert(pm(7, 209645644224nat, m) == 4532393383157746064089093832089565723221814803831643182370396151083557672072);
    lemma_pm_double(7, 209645644224nat, m);
    assert(pm(7, 419291288448nat, m) == 38026941647737417390804385791414821435261464195283251102246697460328484341975);
    lemma_pm_succ(7, 419291288448nat, m);
    assert(pm(7, 419291288449nat, m) == 4009215658530969338391997998973920858377486864344568602708588722606484471260);
    lemma_pm_double(7, 419291288449nat, m);
    assert(pm(7, 838582576898nat, m) == 38985067067202259038380016409834382529122112175022261182027665825812335226103);
    lemma_pm_double(7, 838582576898nat, m);
    assert(pm(7, 1677165153796nat, m) == 48860024840459299806269164215986142069853147764840636497594530143024697726787);
    lemma_pm_succ(7, 1677165153796nat, m);
    assert(pm(7, 1677165153797nat, m) == 27404922832457955767197706462787199462828719350718628547539758801541396980431);
    lemma_pm_double(7, 1677165153797nat, m);
    assert(pm(7, 3354330307594nat, m) == 43454982603685346253891012404499115342366296126024943923493284847852658512489);
    lemma_pm_double(7, 3354330307594nat, m);
    assert(pm(7, 6708660615188nat, m) == 39711787580830016338979911330397349953049353387414588959423152058310438453228);
    lemma_pm_succ(7, 6708660615188nat, m);
    assert(pm(7, 6708660615189nat, m) == 15803137190179161975620676771851620482892711209263933602943770908480163250031);
    lemma_pm_double(7, 6708660615189nat, m);
    assert(pm(7, 13417321230378nat, m) == 4270709930651827464544125559232530328394074011722248748352012722022115076105);
    lemma_pm_succ(7, 13417321230378nat, m);
    assert(pm(7, 13417321230379nat, m) == 29894969514562792251808878914627712298758518082055741238464089054154805532735);
    lemma_pm_double(7, 13417321230379nat, m);
    assert(pm(7, 26834642460758nat, m) == 20325383199429674271394203373480166687284295047568758068907464411572255103939);
    lemma_pm_succ(7, 26834642460758nat, m);
    assert(pm(7, 26834642460759nat, m) == 37405932045755338940863942597989235135608960331926030837144933481128623358547);
    lemma_pm_double(7, 26834642460759nat, m);
    assert(pm(7, 53669284921518nat, m) == 23695320189722704949518406786632198061317714650403340087290771519953602099223);
    lemma_pm_double(7, 53669284921518nat, m);
    assert(pm(7, 107338569843036nat, m) == 7631375066661085628122511967470633494506781106014755625310265571109078525765);
    lemma_pm_double(7, 107338569843036nat, m);
    assert(pm(7, 214677139686072nat, m) == 8335830496052873236437967400317656590703353967733924308049593838723769188);
    lemma_pm_double(7, 214677139686072nat, m);
    assert(pm(7, 429354279372144nat, m) == 30094219452307329986309583551314133273285411143052731657629996923380144468119);
    lemma_pm_double(7, 429354279372144nat, m);
    assert(pm(7, 858708558744288nat, m) == 2320666421977437686678239434579234554772860220622055151356014051407958129896);
    lemma_pm_succ(7, 858708558744288nat, m);
    assert(pm(7, 858708558744289nat, m) == 16244664953842063806747676042054641883410021544354386059492098359855706909272);
    lemma_pm_double(7, 858708558744289nat, m);
    assert(pm(7, 1717417117488578nat, m) == 50513196426555343034236531267347900346169489907923988497597577015253496969629);
    lemma_pm_succ(7, 1717417117488578nat, m);
    assert(pm(7, 1717417117488579nat, m) == 38977123935130258362969275822319507397043114352302092547561086907142991680325);
    lemma_pm_double(7, 1717417117488579nat, m);
    assert(pm(7, 3434834234977158nat, m) == 47200171089597347525208176450509713792260606861792932551044521977562522553421);
    lemma_pm_double(7, 3434834234977158nat, m);
    assert(pm(7, 6869668469954316nat, m) == 36762844371840055538707101139189666715001891919569532884345433658141553245707);
    lemma_pm_double(7, 6869668469954316nat, m);
    assert(pm(7, 13739336939908632nat, m) == 28230204147408768207826819059990976224126053305581673831594371884054873727671);
    lemma_pm_succ(7, 13739336939908632nat, m);
    assert(pm(7, 13739336939908633nat, m) == 40303803506482806016444511895378936055810715637488803353349627088568372540158);
    lemma_pm_double(7, 13739336939908633nat, m);
    assert(pm(7, 27478673879817266nat, m) == 52403799902783875215253109444968460114675106177587828460795532424047588440346);
    lemma_pm_succ(7, 27478673879817266nat, m);
    assert(pm(7, 27478673879817267nat, m) == 52211348268729983630085323065663425776582428239948972289946774768701631975344);
    lemma_pm_double(7, 27478673879817267nat, m);
    assert(pm(7, 54957347759634534nat, m) == 15731103432368313071802416955664712137545339665633548430927453102853227987546);
    lemma_pm_succ(7, 54957347759634534nat, m);
    assert(pm(7, 54957347759634535nat, m) == 5245973676325810543721437673281053287436272658379563371284854320095433543796);
    lemma_pm_double(7, 54957347759634535nat, m);
    assert(pm(7, 109914695519269070nat, m) == 44902455489930109312021032516283985050139861038191397744943364546375130898703);
    lemma_pm_double(7, 109914695519269070nat, m);
    assert(pm(7, 219829391038538140nat, m) == 2883717165643246165946184278471386335185638911659150733791563231154161757657);
    lemma_pm_double(7, 219829391038538140nat, m);
    assert(pm(7, 439658782077076280nat, m) == 7750576549720571852502986664851613345181892411412969534825091296765520827786);
    lemma_pm_succ(7, 439658782077076280nat, m);
    assert(pm(7, 439658782077076281nat, m) == 1818160672917812488073166145775327578582694379363148921171980377420064609989);
    lemma_pm_double(7, 439658782077076281nat, m);
    assert(pm(7, 879317564154152562nat, m) == 36607467263343246154156194850990525305531519162677030031394099705936682055225);
    lemma_pm_succ(7, 879317564154152562nat, m);
    assert(pm(7, 879317564154152563nat, m) == 46508770142897961161302401924189813787958424136628658929344063141802449648523);
    lemma_pm_double(7, 879317564154152563nat, m);
    assert(pm(7, 1758635128308305126nat, m) == 50923096646425081935582982166711342807580499792823696485154198248866487957762);
    lemma_pm_double(7, 1758635128308305126nat, m);
    assert(pm(7, 3517270256616610252nat, m) == 10672034427027978916912961334583946899148072144426488573894274150841460137282);
    lemma_pm_succ(7, 3517270256616610252nat, m);
    assert(pm(7, 3517270256616610253nat, m) == 22268365814069661938942988833901662456345952510457782194656260355951639776461);
    lemma_pm_double(7, 3517270256616610253nat, m);
    assert(pm(7, 7034540513233220506nat, m) == 27342615729330113228602832733303084383023249696075221075736754416870931576810);
    lemma_pm_succ(7, 7034540513233220506nat, m);
    assert(pm(7, 7034540513233220507nat, m) == 34090684579932221161876607608563693168091090370943634062346304818280777484131);
    lemma_pm_double(7, 7034540513233220507nat, m);
    assert(pm(7, 14069081026466441014nat, m) == 30895300908889194166484761645550592703839351064044329549827674153511619867893);
    lemma_pm_double(7, 14069081026466441014nat, m);
    assert(pm(7, 28138162052932882028nat, m) == 49506266182141635016637000772846585270342892310879529851605936210838512997845);
    lemma_pm_double(7, 28138162052932882028nat, m);
    assert(pm(7, 56276324105865764056nat, m) == 31420982145125650600764944360103914239034214219408873092581924363959528937399);
    lemma_pm_double(7, 56276324105865764056nat, m);
    assert(pm(7, 112552648211731528112nat, m) == 10485966454696271614450518358168230186055804374706892980239135734370862833220);
    lemma_pm_succ(7, 112552648211731528112nat, m);
    assert(pm(7, 112552648211731528113nat, m) == 20965890007747710821705887998991645464700078122420613039070291440657458648027);
    lemma_pm_double(7, 112552648211731528113nat, m);
    assert(pm(7, 225105296423463056226nat, m) == 25688821193262649719609029006478272048453509284977018808461853457536564726867);
    lemma_pm_succ(7, 225105296423463056226nat, m);
    assert(pm(7, 225105296423463056227nat, m) == 22514122827459976598919981520790006826102907493256218191421998102940209534530);
    lemma_pm_double(7, 225105296423463056227nat, m);
    assert(pm(7, 450210592846926112454nat, m) == 27310988589815780183166101272972526702011100367365064587342327748137913154483);
    lemma_pm_succ(7, 450210592846926112454nat, m);
    assert(pm(7, 450210592846926112455nat, m) == 33869294603331889843819487386249789401006045069972538643585318137149648527842);
    lemma_pm_double(7, 450210592846926112455nat, m);
    assert(pm(7, 900421185693852224910nat, m) == 46364846259900948094586417011531772813035085130120484590622834416449652701832);
    lemma_pm_double(7, 900421185693852224910nat, m);
    assert(pm(7, 1800842371387704449820nat, m) == 25409257079921506594269766472680917221560158406720784214521927177803592567298);
    lemma_pm_succ(7, 1800842371387704449820nat, m);
    assert(pm(7, 1800842371387704449821nat, m) == 20557174034071974721545143784208523037849451345462576033842514144809404417547);
    lemma_pm_double(7, 1800842371387704449821nat, m);
    assert(pm(7, 3601684742775408899642nat, m) == 22401739690732901928394081094194895794734348216481875218665864858404699287058);
    lemma_pm_succ(7, 3601684742775408899642nat, m);
    assert(pm(7, 3601684742775408899643nat, m) == 51940427484877932539863086642992338887759332514317850885453736608955732640380);
    lemma_pm_double(7, 3601684742775408899643nat, m);
    assert(pm(7, 7203369485550817799286nat, m) == 28981670212817937744336245532428029910630666928721971943689932857381788123681);
    lemma_pm_double(7, 7203369485550817799286nat, m);
    assert(pm(7, 14406738971101635598572nat, m) == 25477196807708081562212485156704996956579513396675410819361801139825305001331);
    lemma_pm_succ(7, 14406738971101635598572nat, m);
    assert(pm(7, 14406738971101635598573nat, m) == 21032752128577999497144174572377081182984936275144962267721631878961391455778);
    lemma_pm_double(7, 14406738971101635598573nat, m);
    assert(pm(7, 28813477942203271197146nat, m) == 4755148498177521320845575780157826516102025602030481138077874701208120355374);
    lemma_pm_double(7, 28813477942203271197146nat, m);
    assert(pm(7, 57626955884406542394292nat, m) == 48848870215224970764467218514196496392457395170043420519888097382561857277195);
    lemma_pm_succ(7, 57626955884406542394292nat, m);
    assert(pm(7, 57626955884406542394293nat, m) == 27326840455817652474584086550259679721058451187138116703594729478301513833287);
    lemma_pm_double(7, 57626955884406542394293nat, m);
    assert(pm(7, 115253911768813084788586nat, m) == 15999473110782208549409730461792174234704054352632779731754336982909132821020);
    lemma_pm_double(7, 115253911768813084788586nat, m);
    assert(pm(7, 230507823537626169577172nat, m) == 11292313613358991823747608578884091063583727500584648517159770792965272337734);
    lemma_pm_double(7, 230507823537626169577172nat, m);
    assert(pm(7, 461015647075252339154344nat, m) == 31577533794730410399534727397053299889844073024181484837755500094334306120700);
    lemma_pm_succ(7, 461015647075252339154344nat, m);
    assert(pm(7, 461015647075252339154345nat, m) == 11299235862608110878952129746629235878146301167159842573873865860585818106848);
    lemma_pm_double(7, 461015647075252339154345nat, m);
    assert(pm(7, 922031294150504678308690nat, m) == 24138108721014521124187370794717701339255740750322659129395191496334254299435);
    lemma_pm_succ(7, 922031294150504678308690nat, m);
    assert(pm(7, 922031294150504678308691nat, m) == 11659135521723076430968374038466011861718527750675700437955364374524036542506);
    lemma_pm_double(7, 922031294150504678308691nat, m);
    assert(pm(7, 1844062588301009356617382nat, m) == 10192026913803296501633701442524577716994110598153681801084148718984727177410);
    lemma_pm_succ(7, 1844062588301009356617382nat, m);
    assert(pm(7, 1844062588301009356617383nat, m) == 18908313221496885031988169589486078181268221686548134784985382332954509057357);
    lemma_pm_double(7, 1844062588301009356617383nat, m);
    assert(pm(7, 3688125176602018713234766nat, m) == 15971553768502171670137584522286310423820321496428982548182048520901767666637);
    lemma_pm_succ(7, 3688125176602018713234766nat, m);
    assert(pm(7, 3688125176602018713234767nat, m) == 6929126029262820732067610639632241291361145473947602192067022246435211297433);
    lemma_pm_double(7, 3688125176602018713234767nat, m);
    assert(pm(7, 7376250353204037426469534nat, m) == 8436169389079509966500926261045197137637207714748798200337827275389554256421);
    lemma_pm_succ(7, 7376250353204037426469534nat, m);
    assert(pm(7, 7376250353204037426469535nat, m) == 6617310548430379286058743319130414125769901502713949579761132227788298610434);
    lemma_pm_double(7, 7376250353204037426469535nat, m);
    assert(pm(7, 14752500706408074852939070nat, m) == 2349242730857640300272131556846408957690001023046809151591487718051390487174);
    lemma_pm_succ(7, 14752500706408074852939070nat, m);
    assert(pm(7, 14752500706408074852939071nat, m) == 16444699116003482101904920897924862703830007161327664061140414026359733410218);
    lemma_pm_double(7, 14752500706408074852939071nat, m);
    assert(pm(7, 29505001412816149705878142nat, m) == 6319370909353241476243916743794055966273743464748941850786693017853034618566);
    lemma_pm_double(7, 29505001412816149705878142nat, m);
    assert(pm(7, 59010002825632299411756284nat, m) == 4299602101364727746226822371264080536954516925292362048482771304843492859590);
    lemma_pm_double(7, 59010002825632299411756284nat, m);
    assert(pm(7, 118020005651264598823512568nat, m) == 42297738489767545096709137087548449328314748767353266887830704245739975765433);
    lemma_pm_succ(7, 118020005651264598823512568nat, m);
    assert(pm(7, 118020005651264598823512569nat, m) == 33904793552741863279725257071909316109750478868834679101796636220486924435466);
    lemma_pm_double(7, 118020005651264598823512569nat, m);
    assert(pm(7, 236040011302529197647025138nat, m) == 29756511722523151539492964573112029888710866304016654794360256613006780134270);
    lemma_pm_double(7, 236040011302529197647025138nat, m);
    assert(pm(7, 472080022605058395294050276nat, m) == 36488465980378968463618113219643737168994523867957775355356635589171890614646);
    lemma_pm_succ(7, 472080022605058395294050276nat, m);
    assert(pm(7, 472080022605058395294050277nat, m) == 45675761162148017327535830504762296832199457073593876197081814324448909564470);
    lemma_pm_double(7, 472080022605058395294050277nat, m);
    assert(pm(7, 944160045210116790588100554nat, m) == 39893264089728721158941370703108893673261117165014242847598231000332982160885);
    lemma_pm_double(7, 944160045210116790588100554nat, m);
    assert(pm(7, 1888320090420233581176201108nat, m) == 51800067329166390595135049289371173638043087769700378710116049966444001319377);
    lemma_pm_double(7, 1888320090420233581176201108nat, m);
    assert(pm(7, 3776640180840467162352402216nat, m) == 9035969171520695704451810072902816540482654918594149985296418864435241438370);
    lemma_pm_succ(7, 3776640180840467162352402216nat, m);
    assert(pm(7, 3776640180840467162352402217nat, m) == 10815909025518679451714930002133749945688031929631412074471273351108108884077);
    lemma_pm_double(7, 3776640180840467162352402217nat, m);
    assert(pm(7, 7553280361680934324704804434nat, m) == 7726852440331651336259397424600338641883117341842104407833374497184016620539);
    lemma_pm_double(7, 7553280361680934324704804434nat, m);
    assert(pm(7, 15106560723361868649409608868nat, m) == 23189948242053634516146574952853218317664228429140582987995299491463702672403);
    lemma_pm_succ(7, 15106560723361868649409608868nat, m);
    assert(pm(7, 15106560723361868649409608869nat, m) == 5022012168996870174682803145414630710577941502401167448156120340430175153282);
    lemma_pm_double(7, 15106560723361868649409608869nat, m);
    assert(pm(7, 30213121446723737298819217738nat, m) == 1932448980061624608986326656020369031521855836115637091223121493553478808838);
    lemma_pm_double(7, 30213121446723737298819217738nat, m);
    assert(pm(7, 60426242893447474597638435476nat, m) == 30334362571011340496944234552339668753159989705557209601376022219023562182428);
    lemma_pm_double(7, 60426242893447474597638435476nat, m);
    assert(pm(7, 120852485786894949195276870952nat, m) == 1351982923687558552768311732625354849795370935220311283830131557408832585104);
    lemma_pm_double(7, 120852485786894949195276870952nat, m);
    assert(pm(7, 241704971573789898390553741904nat, m) == 13898347074522342681117641819080284250879214234368750856482555597603136627424);
    lemma_pm_succ(7, 241704971573789898390553741904nat, m);
    assert(pm(7, 241704971573789898390553741905nat, m) == 44852554346530208288375752225376023918463947140053618172774230483283375207455);
    lemma_pm_double(7, 241704971573789898390553741905nat, m);
    assert(pm(7, 483409943147579796781107483810nat, m) == 46448719391314696335146118376479664826231142518801413729013826884325059689162);
    lemma_pm_double(7, 483409943147579796781107483810nat, m);
    assert(pm(7, 966819886295159593562214967620nat, m) == 5880480942308800863960462995100579470323098783232524293845747455593813337222);
    lemma_pm_double(7, 966819886295159593562214967620nat, m);
    assert(pm(7, 1933639772590319187124429935240nat, m) == 14164282379808789266127232436432009929730848517927585838101347556229870402355);
    lemma_pm_double(7, 1933639772590319187124429935240nat, m);
    assert(pm(7, 3867279545180638374248859870480nat, m) == 33258075349334657319949807645100985456749744712437416765087067837448192052341);
    lemma_pm_succ(7, 3867279545180638374248859870480nat, m);
    assert(pm(7, 3867279545180638374248859870481nat, m) == 23063026744837839321857691482963034846486002984951366065194840062383019628335);
    lemma_pm_double(7, 3867279545180638374248859870481nat, m);
    assert(pm(7, 7734559090361276748497719740962nat, m) == 38178172747830590512451651471239175258378144361610278814582399693427135267555);
    lemma_pm_succ(7, 7734559090361276748497719740962nat, m);
    assert(pm(7, 7734559090361276748497719740963nat, m) == 5067833359183181189922857757744397620194248028633762589058504354297040950320);
    lemma_pm_double(7, 7734559090361276748497719740963nat, m);
    assert(pm(7, 15469118180722553496995439481926nat, m) == 27138947476595888053505857298788561808373153327025048905650984373074137809862);
    lemma_pm_double(7, 15469118180722553496995439481926nat, m);
    assert(pm(7, 30938236361445106993990878963852nat, m) == 47965288677428018879492500194701579407552051894005274381896301877599827918997);
    lemma_pm_double(7, 30938236361445106993990878963852nat, m);
    assert(pm(7, 61876472722890213987981757927704nat, m) == 49600233914814630002371382464708579841981283543411595217225286895049634032510);
    lemma_pm_double(7, 61876472722890213987981757927704nat, m);
    assert(pm(7, 123752945445780427975963515855408nat, m) == 31946753834969338081932304663623613014256765629087948725487802408196583046742);
    lemma_pm_double(7, 123752945445780427975963515855408nat, m);
    assert(pm(7, 247505890891560855951927031710816nat, m) == 40418387919656184089325446354459396899795179365912437697235873920209755257031);
    lemma_pm_succ(7, 247505890891560855951927031710816nat, m);
    assert(pm(7, 247505890891560855951927031710817nat, m) == 20749339561962336228039421940285949110113493058748874767632823941775380876652);
    lemma_pm_double(7, 247505890891560855951927031710817nat, m);
    assert(pm(7, 495011781783121711903854063421634nat, m) == 901792532441348272658764672922821029505423763345406083353668802959223420956);
    lemma_pm_succ(7, 495011781783121711903854063421634nat, m);
    assert(pm(7, 495011781783121711903854063421635nat, m) == 6312547727089437908611352710459747206537966343417842583475681620714563946692);
    lemma_pm_double(7, 495011781783121711903854063421635nat, m);
    assert(pm(7, 990023563566243423807708126843270nat, m) == 42685824061604263296253864963960866073409704890280908212078159818484544382195);
    lemma_pm_succ(7, 990023563566243423807708126843270nat, m);
    assert(pm(7, 990023563566243423807708126843271nat, m) == 36621392555598890676538352206796233325415171729328168371528825229698904752800);
    lemma_pm_double(7, 990023563566243423807708126843271nat, m);
    assert(pm(7, 1980047127132486847615416253686542nat, m) == 33556168806442864060970167811322589369947968501603102608469718628429761712117);
    lemma_pm_succ(7, 1980047127132486847615416253686542nat, m);
    assert(pm(7, 1980047127132486847615416253686543nat, m) == 25149680944595286509000212646514262238873569509111166968873395599254007246767);
    lemma_pm_double(7, 1980047127132486847615416253686543nat, m);
    assert(pm(7, 3960094254264973695230832507373086nat, m) == 42850254621419560840369418240181172614036418807570781102166565448912467979743);
    lemma_pm_double(7, 3960094254264973695230832507373086nat, m);
    assert(pm(7, 7920188508529947390461665014746172nat, m) == 23330588576831795639588332151043856824132290705459539554880745957796055910374);
    lemma_pm_double(7, 7920188508529947390461665014746172nat, m);
    assert(pm(7, 15840377017059894780923330029492344nat, m) == 36624099532626736427862899939178660675138503602651326142684500895769338521339);
    lemma_pm_double(7, 15840377017059894780923330029492344nat, m);
    assert(pm(7, 31680754034119789561846660058984688nat, m) == 46404758139750175587162246190625922470064576272208381415550668879365182935179);
    lemma_pm_double(7, 31680754034119789561846660058984688nat, m);
    assert(pm(7, 63361508068239579123693320117969376nat, m) == 26065852074270697642126457949124509597428542005728915472350086606533654571656);
    lemma_pm_double(7, 63361508068239579123693320117969376nat, m);
    assert(pm(7, 126723016136479158247386640235938752nat, m) == 24380133321240546597566302640953930360141191430845614065327563097942416264253);
    lemma_pm_succ(7, 126723016136479158247386640235938752nat, m);
    assert(pm(7, 126723016136479158247386640235938753nat, m) == 13353307723305254744620896962119615007916682514336384989481965585781170296232);
    lemma_pm_double(7, 126723016136479158247386640235938753nat, m);
    assert(pm(7, 253446032272958316494773280471877506nat, m) == 9484070743879423131662305751774741405755223236084873541292351846523289178543);
    lemma_pm_succ(7, 253446032272958316494773280471877506nat, m);
    assert(pm(7, 253446032272958316494773280471877507nat, m) == 13952620032029771442188399754237224002596010152066476966442804225724443065288);
    lemma_pm_double(7, 253446032272958316494773280471877507nat, m);
    assert(pm(7, 506892064545916632989546560943755014nat, m) == 6737857515260378928049681544377754374872710007348409008612241538602089703091);
    lemma_pm_double(7, 506892064545916632989546560943755014nat, m);
    assert(pm(7, 1013784129091833265979093121887510028nat, m) == 7038216251364708015412620877276778360635691547167909951697463927503174192147);
    lemma_pm_succ(7, 1013784129091833265979093121887510028nat, m);
    assert(pm(7, 1013784129091833265979093121887510029nat, m) == 49267513759552956107888346140937448524449840830175369661882247492522219345029);
    lemma_pm_double(7, 1013784129091833265979093121887510029nat, m);
    assert(pm(7, 2027568258183666531958186243775020058nat, m) == 32967726868705301799921700444934302553345193419905050771102147367716369522484);
    lemma_pm_succ(7, 2027568258183666531958186243775020058nat, m);
    assert(pm(7, 2027568258183666531958186243775020059nat, m) == 21030587380432350681660941081796254522654143937224804107300396774260261919336);
    lemma_pm_double(7, 2027568258183666531958186243775020059nat, m);
    assert(pm(7, 4055136516367333063916372487550040118nat, m) == 711372076058681394280179089022307448986869799634643052455321988262510404910);
    lemma_pm_double(7, 4055136516367333063916372487550040118nat, m);
    assert(pm(7, 8110273032734666127832744975100080236nat, m) == 13259618666905811021454188890440761301382217702181382673624348776156009755253);
    lemma_pm_double(7, 8110273032734666127832744975100080236nat, m);
    assert(pm(7, 16220546065469332255665489950200160472nat, m) == 26072660912192441869053227861775741156847739465552618278884422745763984800660);
    lemma_pm_double(7, 16220546065469332255665489950200160472nat, m);
    assert(pm(7, 32441092130938664511330979900400320944nat, m) == 8013371579026906513467689414736136223928433164598354568655389052787521496621);
    lemma_pm_double(7, 32441092130938664511330979900400320944nat, m);
    assert(pm(7, 64882184261877329022661959800800641888nat, m) == 36473348676845252282681831992497162270854949351855365910523053597196522712478);
    lemma_pm_double(7, 64882184261877329022661959800800641888nat, m);
    assert(pm(7, 129764368523754658045323919601601283776nat, m) == 29749987273157314433900779077296582682531808165649012054031983237612257442013);
    lemma_pm_succ(7, 129764368523754658045323919601601283776nat, m);
    assert(pm(7, 129764368523754658045323919601601283777nat, m) == 50942285386722629598962232016518181264650999657960170910412906563470058540552);
    lemma_pm_double(7, 129764368523754658045323919601601283777nat, m);
    assert(pm(7, 259528737047509316090647839203202567554nat, m) == 3430262239415779132002899076727243267021867043726148764431862765087451442300);
    lemma_pm_double(7, 259528737047509316090647839203202567554nat, m);
    assert(pm(7, 519057474095018632181295678406405135108nat, m) == 49596376694831428176621197853231759629227543595663549563082068611993683208615);
    lemma_pm_double(7, 519057474095018632181295678406405135108nat, m);
    assert(pm(7, 1038114948190037264362591356812810270216nat, m) == 48721902768743100746909806942480690742337636268502232448433390646601893386152);
    lemma_pm_double(7, 1038114948190037264362591356812810270216nat, m);
    assert(pm(7, 2076229896380074528725182713625620540432nat, m) == 26999688375628368909018873027068101174336528800173495422728187848688697324315);
    lemma_pm_succ(7, 2076229896380074528725182713625620540432nat, m);
    assert(pm(7, 2076229896380074528725182713625620540433nat, m) == 31690193104020010924788889664918810707284044099631554491286338841005137716666);
    lemma_pm_double(7, 2076229896380074528725182713625620540433nat, m);
    assert(pm(7, 4152459792760149057450365427251241080866nat, m) == 10582922411827337189876677726022983766133724276593557297689355836405806441586);
    lemma_pm_succ(7, 4152459792760149057450365427251241080866nat, m);
    assert(pm(7, 4152459792760149057450365427251241080867nat, m) == 21644581707665169849689003573974920525245517435627263261221832154902063906589);
    lemma_pm_double(7, 4152459792760149057450365427251241080867nat, m);
    assert(pm(7, 8304919585520298114900730854502482161734nat, m) == 50918476690892804787465351560695800983296097460497089420087767310784410307648);
    lemma_pm_succ(7, 8304919585520298114900730854502482161734nat, m);
    assert(pm(7, 8304919585520298114900730854502482161735nat, m) == 41814085785492490635571017875754811856929367220313799004992418975859385046458);
    lemma_pm_double(7, 8304919585520298114900730854502482161735nat, m);
    assert(pm(7, 16609839171040596229801461709004964323470nat, m) == 33094519530820914390743097486152831118750511667347324491666336135347791151091);
    lemma_pm_succ(7, 16609839171040596229801461709004964323470nat, m);
    assert(pm(7, 16609839171040596229801461709004964323471nat, m) == 21918136015241638817410720370325954480491371669320720151249718147680213319585);
    lemma_pm_double(7, 16609839171040596229801461709004964323471nat, m);
    assert(pm(7, 33219678342081192459602923418009928646942nat, m) == 18687981293699404972559346225802501516873725549635476097749077920978798886654);
    lemma_pm_double(7, 33219678342081192459602923418009928646942nat, m);
    assert(pm(7, 66439356684162384919205846836019857293884nat, m) == 30303410026868880599462157735478842092179262540541326966818932061810123411528);
    lemma_pm_double(7, 66439356684162384919205846836019857293884nat, m);
    assert(pm(7, 132878713368324769838411693672039714587768nat, m) == 20526778500013052250773880071884462275467860098173429359883463547339433606828);
    lemma_pm_double(7, 132878713368324769838411693672039714587768nat, m);
    assert(pm(7, 265757426736649539676823387344079429175536nat, m) == 21351366649247274109599269292238176426632078467942675699652538508130929157489);
    lemma_pm_double(7, 265757426736649539676823387344079429175536nat, m);
    assert(pm(7, 531514853473299079353646774688158858351072nat, m) == 22001306948375971520258184071953110496034289340800497552644944576518733464744);
    lemma_pm_succ(7, 531514853473299079353646774688158858351072nat, m);
    assert(pm(7, 531514853473299079353646774688158858351073nat, m) == 49137398288379419682911807487299841796858920384548207223307294635753971884182);
    lemma_pm_double(7, 531514853473299079353646774688158858351073nat, m);
    assert(pm(7, 1063029706946598158707293549376317716702146nat, m) == 4667154012699542775787725632205232580082185652796521826487212437914123682996);
    lemma_pm_succ(7, 1063029706946598158707293549376317716702146nat, m);
    assert(pm(7, 1063029706946598158707293549376317716702147nat, m) == 32670078088896799430514079425436628060575299569575652785410487065398865780972);
    lemma_pm_double(7, 1063029706946598158707293549376317716702147nat, m);
    assert(pm(7, 2126059413893196317414587098752635433404294nat, m) == 1432196805827618287099565980888711159826419039709742810728757310561926058469);
    lemma_pm_double(7, 2126059413893196317414587098752635433404294nat, m);
    assert(pm(7, 4252118827786392634829174197505270866808588nat, m) == 31706473934531485703077660373267616715698669383970317022785587745585701565675);
    lemma_pm_double(7, 4252118827786392634829174197505270866808588nat, m);
    assert(pm(7, 8504237655572785269658348395010541733617176nat, m) == 32369185019573718860560380755107112467630348737430674950358086232952082699849);
    lemma_pm_double(7, 8504237655572785269658348395010541733617176nat, m);
    assert(pm(7, 17008475311145570539316696790021083467234352nat, m) == 18528046828517600756343373304444453319122436452734517387688210113658747647824);
    lemma_pm_succ(7, 17008475311145570539316696790021083467234352nat, m);
    assert(pm(7, 17008475311145570539316696790021083467234353nat, m) == 24824577449370824335508132114739241558475950168086346068610153395734071165742);
    lemma_pm_double(7, 17008475311145570539316696790021083467234353nat, m);
    assert(pm(7, 34016950622291141078633393580042166934468706nat, m) == 2684228161878842633799093802429357031298799786218959204141743856327646698468);
    lemma_pm_succ(7, 34016950622291141078633393580042166934468706nat, m);
    assert(pm(7, 34016950622291141078633393580042166934468707nat, m) == 18789597133151898436593656617005499219091598503532714428992206994293526889276);
    lemma_pm_double(7, 34016950622291141078633393580042166934468707nat, m);
    assert(pm(7, 68033901244582282157266787160084333868937414nat, m) == 7043285320216540138537042914482210218536042509048224192293952052007343071569);
    lemma_pm_succ(7, 68033901244582282157266787160084333868937414nat, m);
    assert(pm(7, 68033901244582282157266787160084333868937415nat, m) == 49302997241515780969759300401375471529752297563337569346057664364051401500983);
    lemma_pm_double(7, 68033901244582282157266787160084333868937415nat, m);
    assert(pm(7, 136067802489164564314533574320168667737874830nat, m) == 1289911742544362748917196956228651000625779089712691842951734124686481233588);
    lemma_pm_succ(7, 136067802489164564314533574320168667737874830nat, m);
    assert(pm(7, 136067802489164564314533574320168667737874831nat, m) == 9029382197810539242420378693600557004380453627988842900662138872805368635116);
    lemma_pm_double(7, 136067802489164564314533574320168667737874831nat, m);
    assert(pm(7, 272135604978329128629067148640337335475749662nat, m) == 36655500970548601244239431603662127375628212155442257190415974238172970255360);
    lemma_pm_double(7, 272135604978329128629067148640337335475749662nat, m);
    assert(pm(7, 544271209956658257258134297280674670951499324nat, m) == 45813751787787727042634188052881511662715845288846647498525524718936726392144);
    lemma_pm_succ(7, 544271209956658257258134297280674670951499324nat, m);
    assert(pm(7, 544271209956658257258134297280674670951499325nat, m) == 6081011463756946421752873321054786612867602018760705554056720832925597637930);
    lemma_pm_double(7, 544271209956658257258134297280674670951499325nat, m);
    assert(pm(7, 1088542419913316514516268594561349341902998650nat, m) == 37335501708729512954855470655415237916948433504704978029027691599911721323648);
    lemma_pm_double(7, 1088542419913316514516268594561349341902998650nat, m);
    assert(pm(7, 2177084839826633029032537189122698683805997300nat, m) == 40842166002773644606830223776876748777576768705929955664149559329048750826131);
    lemma_pm_succ(7, 2177084839826633029032537189122698683805997300nat, m);
    assert(pm(7, 2177084839826633029032537189122698683805997301nat, m) == 23715786143784559850572863897207412254584618438871500536028621803648349860352);
    lemma_pm_double(7, 2177084839826633029032537189122698683805997301nat, m);
    assert(pm(7, 4354169679653266058065074378245397367611994602nat, m) == 29931255438737519546730511487548743597517450830765714650387375400705007614216);
    lemma_pm_succ(7, 4354169679653266058065074378245397367611994602nat, m);
    assert(pm(7, 4354169679653266058065074378245397367611994603nat, m) == 52211162545784065388770358888283307669550498313777089084900651705119309745973);
    lemma_pm_double(7, 4354169679653266058065074378245397367611994603nat, m);
    assert(pm(7, 8708339359306532116130148756490794735223989206nat, m) == 47585490861137458415552824268990037247067177295782312518130349298762223421602);
    lemma_pm_succ(7, 8708339359306532116130148756490794735223989206nat, m);
    assert(pm(7, 8708339359306532116130148756490794735223989207nat, m) == 18483184977205066032183326833814465703326926067310360691290492891704076844136);
    lemma_pm_double(7, 8708339359306532116130148756490794735223989207nat, m);
    assert(pm(7, 17416678718613064232260297512981589470447978414nat, m) == 6561030191826351513704975521864519918105500239470834015453661035026952128005);
    lemma_pm_succ(7, 17416678718613064232260297512981589470447978414nat, m);
    assert(pm(7, 17416678718613064232260297512981589470447978415nat, m) == 45927211342784460595934828653051639426738501676295838108175627245188664896035);
    lemma_pm_double(7, 17416678718613064232260297512981589470447978415nat, m);
    assert(pm(7, 34833357437226128464520595025963178940895956830nat, m) == 12084716524663542079264132098992171128527191346873547595786668672274811326293);
    lemma_pm_double(7, 34833357437226128464520595025963178940895956830nat, m);
    assert(pm(7, 69666714874452256929041190051926357881791913660nat, m) == 9555547039155391460334878400834446621373360608190087564286563821971085407519);
    lemma_pm_double(7, 69666714874452256929041190051926357881791913660nat, m);
    assert(pm(7, 139333429748904513858082380103852715763583827320nat, m) == 17738765991460616209127870494415820836309185125920622538221697737240647967549);
    lemma_pm_succ(7, 139333429748904513858082380103852715763583827320nat, m);
    assert(pm(7, 139333429748904513858082380103852715763583827321nat, m) == 19299611589971932504999612444538814178783190880389082122344566760807373403817);
    lemma_pm_double(7, 139333429748904513858082380103852715763583827321nat, m);
    assert(pm(7, 278666859497809027716164760207705431527167654642nat, m) == 4832844204427397358460573667721836239025316372811627983409744925234592107429);
    lemma_pm_succ(7, 278666859497809027716164760207705431527167654642nat, m);
    assert(pm(7, 278666859497809027716164760207705431527167654643nat, m) == 33829909430991781509224015674052853673177214609681395883868214476642144752003);
    lemma_pm_double(7, 278666859497809027716164760207705431527167654643nat, m);
    assert(pm(7, 557333718995618055432329520415410863054335309286nat, m) == 29898574662837928196316757165675526399806933807496774001964272365159673047782);
    lemma_pm_succ(7, 557333718995618055432329520415410863054335309286nat, m);
    assert(pm(7, 557333718995618055432329520415410863054335309287nat, m) == 51982397114486925935874078635170787285576879150894504545938930456301967780935);
    lemma_pm_double(7, 557333718995618055432329520415410863054335309287nat, m);
    assert(pm(7, 1114667437991236110864659040830821726108670618574nat, m) == 40658145028348842352111582867117985138865404273811377799495606822895806569339);
    lemma_pm_succ(7, 1114667437991236110864659040830821726108670618574nat, m);
    assert(pm(7, 1114667437991236110864659040830821726108670618575nat, m) == 22427639322810944067542377528896066783605067414041455483450954260577740062808);
    lemma_pm_double(7, 1114667437991236110864659040830821726108670618575nat, m);
    assert(pm(7, 2229334875982472221729318081661643452217341237150nat, m) == 45118805723814971417701776593761865697484185126890410812793242693017663391577);
    lemma_pm_double(7, 2229334875982472221729318081661643452217341237150nat, m);
    assert(pm(7, 4458669751964944443458636163323286904434682474300nat, m) == 49964819389282754585692252757040214704419569031440199822161068317510993556421);
    lemma_pm_double(7, 4458669751964944443458636163323286904434682474300nat, m);
    assert(pm(7, 8917339503929888886917272326646573808869364948600nat, m) == 44083041841973662929201446592406658087497261345902030978923342251377981358323);
    lemma_pm_succ(7, 8917339503929888886917272326646573808869364948600nat, m);
    assert(pm(7, 8917339503929888886917272326646573808869364948601nat, m) == 46401917018184688107171423605916777424028066918676027739445102259952963585696);
    lemma_pm_double(7, 8917339503929888886917272326646573808869364948601nat, m);
    assert(pm(7, 17834679007859777773834544653293147617738729897202nat, m) == 27126335143728986159383917992054729458507858603856667199381691904689235729422);
    lemma_pm_double(7, 17834679007859777773834544653293147617738729897202nat, m);
    assert(pm(7, 35669358015719555547669089306586295235477459794404nat, m) == 44466891619326694147952695354260638129997445682830531568769487193681044752057);
    lemma_pm_succ(7, 35669358015719555547669089306586295235477459794404nat, m);
    assert(pm(7, 35669358015719555547669089306586295235477459794405nat, m) == 49088865459655906638430164938894637721529357277175531868368116856074407341834);
    lemma_pm_double(7, 35669358015719555547669089306586295235477459794405nat, m);
    assert(pm(7, 71338716031439111095338178613172590470954919588810nat, m) == 15319052746242148667699622249340546768329428709888349158507956453377004933207);
    lemma_pm_double(7, 71338716031439111095338178613172590470954919588810nat, m);
    assert(pm(7, 142677432062878222190676357226345180941909839177620nat, m) == 2559291867218825432253323146630597005857310213007384041999556984812850719013);
    lemma_pm_double(7, 142677432062878222190676357226345180941909839177620nat, m);
    assert(pm(7, 285354864125756444381352714452690361883819678355240nat, m) == 46468154198517768169190344961364477600557720927984171931899554049490303285799);
    lemma_pm_double(7, 285354864125756444381352714452690361883819678355240nat, m);
    assert(pm(7, 570709728251512888762705428905380723767639356710480nat, m) == 51512279657254563143930757579195958385795769569692255962666096812673944679512);
    lemma_pm_double(7, 570709728251512888762705428905380723767639356710480nat, m);
    assert(pm(7, 1141419456503025777525410857810761447535278713420960nat, m) == 212540355359885067027838254479382293331179100594717169564906261149950033422);
    lemma_pm_succ(7, 1141419456503025777525410857810761447535278713420960nat, m);
    assert(pm(7, 1141419456503025777525410857810761447535278713420961nat, m) == 1487782487519195469194867781355676053318253704163020186954343828049650233954);
    lemma_pm_double(7, 1141419456503025777525410857810761447535278713420961nat, m);
    assert(pm(7, 2282838913006051555050821715621522895070557426841922nat, m) == 48824342916303391837972250068618697421833409338168052129667531931788084132961);
    lemma_pm_succ(7, 2282838913006051555050821715621522895070557426841922nat, m);
    assert(pm(7, 2282838913006051555050821715621522895070557426841923nat, m) == 27155149363366599989119307431215086926690550364010537972050771322885101823649);
    lemma_pm_double(7, 2282838913006051555050821715621522895070557426841923nat, m);
    assert(pm(7, 4565677826012103110101643431243045790141114853683846nat, m) == 50753335501997792784829391829518661260618580394909443772548956397869800078889);
    lemma_pm_double(7, 4565677826012103110101643431243045790141114853683846nat, m);
    assert(pm(7, 9131355652024206220203286862486091580282229707367692nat, m) == 40322430943388690774801251518481706766125985509877155786467406038384905759931);
    lemma_pm_succ(7, 9131355652024206220203286862486091580282229707367692nat, m);
    assert(pm(7, 9131355652024206220203286862486091580282229707367693nat, m) == 20077640728089883026370058088442118174429136066501901392253548769001434396952);
    lemma_pm_double(7, 9131355652024206220203286862486091580282229707367693nat, m);
    assert(pm(7, 18262711304048412440406573724972183160564459414735386nat, m) == 1094973101085865932599295622647025179631699067291219992603904812525990112157);
    lemma_pm_double(7, 18262711304048412440406573724972183160564459414735386nat, m);
    assert(pm(7, 36525422608096824880813147449944366321128918829470772nat, m) == 1733625716536199054959056320870958053593372420374171187204674879932349653026);
    lemma_pm_double(7, 36525422608096824880813147449944366321128918829470772nat, m);
    assert(pm(7, 73050845216193649761626294899888732642257837658941544nat, m) == 28777399453779761394353115412649027299013405602123006661264978238580610759693);
    lemma_pm_succ(7, 73050845216193649761626294899888732642257837658941544nat, m);
    assert(pm(7, 73050845216193649761626294899888732642257837658941545nat, m) == 44134170651079758322128586363985293580022181713278133161043871570248531764312);
    lemma_pm_double(7, 73050845216193649761626294899888732642257837658941545nat, m);
    assert(pm(7, 146101690432387299523252589799777465284515675317883090nat, m) == 3526334759265641033477440321463232022119989383435073420998567441686802932230);
    lemma_pm_double(7, 146101690432387299523252589799777465284515675317883090nat, m);
    assert(pm(7, 292203380864774599046505179599554930569031350635766180nat, m) == 6246222462086345844746154839829242342050611942972327565020079185794967108578);
    lemma_pm_double(7, 292203380864774599046505179599554930569031350635766180nat, m);
    assert(pm(7, 584406761729549198093010359199109861138062701271532360nat, m) == 50056950374798092645002557332030142939537851833060376576138278794767386343672);
    lemma_pm_double(7, 584406761729549198093010359199109861138062701271532360nat, m);
    assert(pm(7, 1168813523459098396186020718398219722276125402543064720nat, m) == 936167757234061910410807252891719918853001097327123950272004316134752604989);
    lemma_pm_double(7, 1168813523459098396186020718398219722276125402543064720nat, m);
    assert(pm(7, 2337627046918196792372041436796439444552250805086129440nat, m) == 41068251994249187545888486059527931243063611378294862578362512730206434045864);
    lemma_pm_double(7, 2337627046918196792372041436796439444552250805086129440nat, m);
    assert(pm(7, 4675254093836393584744082873592878889104501610172258880nat, m) == 28928809234502380850076662744262798636604257780583500936772730634273702634812);
    lemma_pm_succ(7, 4675254093836393584744082873592878889104501610172258880nat, m);
    assert(pm(7, 4675254093836393584744082873592878889104501610172258881nat, m) == 45194039116138094512193417685281692943158146962501593089598138340100174890145);
    lemma_pm_double(7, 4675254093836393584744082873592878889104501610172258881nat, m);
    assert(pm(7, 9350508187672787169488165747185757778209003220344517762nat, m) == 20366319750359983435640150139817581213337231141863092582048756779519553221929);
    lemma_pm_succ(7, 9350508187672787169488165747185757778209003220344517762nat, m);
    assert(pm(7, 9350508187672787169488165747185757778209003220344517763nat, m) == 37692487902267503090585569962351136817979512991986372429133980056759710184477);
    lemma_pm_double(7, 9350508187672787169488165747185757778209003220344517763nat, m);
    assert(pm(7, 18701016375345574338976331494371515556418006440689035526nat, m) == 28251754225993648940514608726941836136556053189549657068141471324414808451342);
    lemma_pm_double(7, 18701016375345574338976331494371515556418006440689035526nat, m);
    assert(pm(7, 37402032750691148677952662988743031112836012881378071052nat, m) == 48497936635227156029942668224325561516969694600089498801350826198209779465119);
    lemma_pm_succ(7, 37402032750691148677952662988743031112836012881378071052nat, m);
    assert(pm(7, 37402032750691148677952662988743031112836012881378071053nat, m) == 24870305395832949332912234521163135592644547197460664673833831187836969148755);
    lemma_pm_double(7, 37402032750691148677952662988743031112836012881378071053nat, m);
    assert(pm(7, 74804065501382297355905325977486062225672025762756142106nat, m) == 51747696371171057847554686273394724733192109573175173528051056638785863001363);
    lemma_pm_double(7, 74804065501382297355905325977486062225672025762756142106nat, m);
    assert(pm(7, 149608131002764594711810651954972124451344051525512284212nat, m) == 28836308290487935656260713440900319861977653898208995449643511997571234455879);
    lemma_pm_succ(7, 149608131002764594711810651954972124451344051525512284212nat, m);
    assert(pm(7, 149608131002764594711810651954972124451344051525512284213nat, m) == 44546532508036978155481772561744341520771919785880054679693607883182897637614);
    lemma_pm_double(7, 149608131002764594711810651954972124451344051525512284213nat, m);
    assert(pm(7, 299216262005529189423621303909944248902688103051024568426nat, m) == 21112266670981168132909366434820059096799711642977438607031675455885265145648);
    lemma_pm_succ(7, 299216262005529189423621303909944248902688103051024568426nat, m);
    assert(pm(7, 299216262005529189423621303909944248902688103051024568427nat, m) == 42914116346615795971470084027368482002216876499786794604014410791319693650510);
    lemma_pm_double(7, 299216262005529189423621303909944248902688103051024568427nat, m);
    assert(pm(7, 598432524011058378847242607819888497805376206102049136854nat, m) == 42834836523560018736906876020612964622097655729201081813004705027295840639234);
    lemma_pm_succ(7, 598432524011058378847242607819888497805376206102049136854nat, m);
    assert(pm(7, 598432524011058378847242607819888497805376206102049136855nat, m) == 37664479789289178761109429603360923166230827601769383578014641691377978552073);
    lemma_pm_double(7, 598432524011058378847242607819888497805376206102049136855nat, m);
    assert(pm(7, 1196865048022116757694485215639776995610752412204098273710nat, m) == 28991043092575935161429877372999857176803343753758950257909501382623583508525);
    lemma_pm_double(7, 1196865048022116757694485215639776995610752412204098273710nat, m);
    assert(pm(7, 2393730096044233515388970431279553991221504824408196547420nat, m) == 40020618081937755163630890427468763123992981506293419199758512556573782608638);
    lemma_pm_succ(7, 2393730096044233515388970431279553991221504824408196547420nat, m);
    assert(pm(7, 2393730096044233515388970431279553991221504824408196547421nat, m) == 17964950697933333748177530451351512679498108041415745285291294396323572337901);
    lemma_pm_double(7, 2393730096044233515388970431279553991221504824408196547421nat, m);
    assert(pm(7, 4787460192088467030777940862559107982443009648816393094842nat, m) == 34838945849735549558554779895450904294111445149290577968141594663311139050512);
    lemma_pm_double(7, 4787460192088467030777940862559107982443009648816393094842nat, m);
    assert(pm(7, 9574920384176934061555881725118215964886019297632786189684nat, m) == 34753427251131083893830603210455562975894721614282120272894142965773572707447);
    lemma_pm_succ(7, 9574920384176934061555881725118215964886019297632786189684nat, m);
    assert(pm(7, 9574920384176934061555881725118215964886019297632786189685nat, m) == 33530490057412825339023260440445077480500841297864290619844365960660684214077);
    lemma_pm_double(7, 9574920384176934061555881725118215964886019297632786189685nat, m);
    assert(pm(7, 19149840768353868123111763450236431929772038595265572379370nat, m) == 7736142001324848240454115183144949723784556130006607929906730071001180378410);
    lemma_pm_succ(7, 19149840768353868123111763450236431929772038595265572379370nat, m);
    assert(pm(7, 19149840768353868123111763450236431929772038595265572379371nat, m) == 1717118834147747203731065773828682228801340409518617686743451797069681464357);
    lemma_pm_double(7, 19149840768353868123111763450236431929772038595265572379371nat, m);
    assert(pm(7, 38299681536707736246223526900472863859544077190531144758742nat, m) == 10215786303998651842768602935996698225457242509626698672176294686998214130082);
    lemma_pm_succ(7, 38299681536707736246223526900472863859544077190531144758742nat, m);
    assert(pm(7, 38299681536707736246223526900472863859544077190531144758743nat, m) == 19074628952864372419932480043790921740510145066859252882630404109048917726061);
    lemma_pm_double(7, 38299681536707736246223526900472863859544077190531144758743nat, m);
    assert(pm(7, 76599363073415472492447053800945727719088154381062289517486nat, m) == 33497356238942757041051343025375772604572807823972659542250062920246279271310);
    lemma_pm_succ(7, 76599363073415472492447053800945727719088154381062289517486nat, m);
    assert(pm(7, 76599363073415472492447053800945727719088154381062289517487nat, m) == 24737992972094537369568439144886544881247444765698065505335805641969630161118);
    lemma_pm_double(7, 76599363073415472492447053800945727719088154381062289517487nat, m);
    assert(pm(7, 153198726146830944984894107601891455438176308762124579034974nat, m) == 43857240384047776194760011506146162755389883089692451769775827835554399654133);
    lemma_pm_double(7, 153198726146830944984894107601891455438176308762124579034974nat, m);
    assert(pm(7, 306397452293661889969788215203782910876352617524249158069948nat, m) == 17617182299184194127596052448383687585596004448555764108996727072204579155085);
    lemma_pm_double(7, 306397452293661889969788215203782910876352617524249158069948nat, m);
    assert(pm(7, 612794904587323779939576430407565821752705235048498316139896nat, m) == 33000860166857850106396399844248871732903724108216845321146922748997927821738);
    lemma_pm_succ(7, 612794904587323779939576430407565821752705235048498316139896nat, m);
    assert(pm(7, 612794904587323779939576430407565821752705235048498316139897nat, m) == 21262520467500188826983836876998238779563858755407365957613824443231170014114);
    lemma_pm_double(7, 612794904587323779939576430407565821752705235048498316139897nat, m);
    assert(pm(7, 1225589809174647559879152860815131643505410470096996632279794nat, m) == 14168101366934521753962828981347980560660881809840616276116476114571617240184);
    lemma_pm_double(7, 1225589809174647559879152860815131643505410470096996632279794nat, m);
    assert(pm(7, 2451179618349295119758305721630263287010820940193993264559588nat, m) == 5550041859049840891562924978159555259287460523433316052812359338425779025297);
    lemma_pm_succ(7, 2451179618349295119758305721630263287010820940193993264559588nat, m);
    assert(pm(7, 2451179618349295119758305721630263287010820940193993264559589nat, m) == 38850293013348886240940474847116886815012223664033212369686515368980453177079);
    lemma_pm_double(7, 2451179618349295119758305721630263287010820940193993264559589nat, m);
    assert(pm(7, 4902359236698590239516611443260526574021641880387986529119178nat, m) == 1621824159646707732443837716490445651218022853702300237902419284525881773066);
    lemma_pm_double(7, 4902359236698590239516611443260526574021641880387986529119178nat, m);
    assert(pm(7, 9804718473397180479033222886521053148043283760775973058238356nat, m) == 39510075661801624412297991408335681417620189566066320416724187137249814488402);
    lemma_pm_double(7, 9804718473397180479033222886521053148043283760775973058238356nat, m);
    assert(pm(7, 19609436946794360958066445773042106296086567521551946116476712nat, m) == 30977741144366881937117109577343378269349636962522204616223592909285474495321);
    lemma_pm_double(7, 19609436946794360958066445773042106296086567521551946116476712nat, m);
    assert(pm(7, 39218873893588721916132891546084212592173135043103892232953424nat, m) == 50201557306325817854623874656355318932586622420140187193158287725148683556782);
    lemma_pm_double(7, 39218873893588721916132891546084212592173135043103892232953424nat, m);
    assert(pm(7, 78437747787177443832265783092168425184346270086207784465906848nat, m) == 34484705572034415695797405401811966801074938353193756597176007251286639185532);
    lemma_pm_succ(7, 78437747787177443832265783092168425184346270086207784465906848nat, m);
    assert(pm(7, 78437747787177443832265783092168425184346270086207784465906849nat, m) == 31649438303736147952790875779939904256762358470245744889817415959252149560672);
    lemma_pm_double(7, 78437747787177443832265783092168425184346270086207784465906849nat, m);
    assert(pm(7, 156875495574354887664531566184336850368692540172415568931813698nat, m) == 1907006076207823631486106661919922026101470648078823073733235465106971724293);
    lemma_pm_succ(7, 156875495574354887664531566184336850368692540172415568931813698nat, m);
    assert(pm(7, 156875495574354887664531566184336850368692540172415568931813699nat, m) == 13349042533454765420402746633439454182710294536551761516132648255748802070051);
    lemma_pm_double(7, 156875495574354887664531566184336850368692540172415568931813699nat, m);
    assert(pm(7, 313750991148709775329063132368673700737385080344831137863627398nat, m) == 43955687634153576750465902589814947301283351907523035270151700019957261873447);
    lemma_pm_double(7, 313750991148709775329063132368673700737385080344831137863627398nat, m);
    assert(pm(7, 627501982297419550658126264737347401474770160689662275727254796nat, m) == 4956825510202297468331532016014126356606780304977021556440873723737382586343);
    lemma_pm_succ(7, 627501982297419550658126264737347401474770160689662275727254796nat, m);
    assert(pm(7, 627501982297419550658126264737347401474770160689662275727254797nat, m) == 34697778571416082278320724112098884496247462134839150895086116066161678104401);
    lemma_pm_double(7, 627501982297419550658126264737347401474770160689662275727254797nat, m);
    assert(pm(7, 1255003964594839101316252529474694802949540321379324551454509594nat, m) == 12257468901958642705756558400895023859985904876377395782666455827159280168951);
    lemma_pm_double(7, 1255003964594839101316252529474694802949540321379324551454509594nat, m);
    assert(pm(7, 2510007929189678202632505058949389605899080642758649102909019188nat, m) == 1818113814091784095672825750703112588785303134751555939621551772254746192615);
    lemma_pm_succ(7, 2510007929189678202632505058949389605899080642758649102909019188nat, m);
    assert(pm(7, 2510007929189678202632505058949389605899080642758649102909019189nat, m) == 12726796698642488669709780254921788121497121943260891577350862405783223348305);
    lemma_pm_double(7, 2510007929189678202632505058949389605899080642758649102909019189nat, m);
    assert(pm(7, 5020015858379356405265010117898779211798161285517298205818038378nat, m) == 23778044737267035585980498603536020019646108103979241918300805026870240109672);
    lemma_pm_succ(7, 5020015858379356405265010117898779211798161285517298205818038378nat, m);
    assert(pm(7, 5020015858379356405265010117898779211798161285517298205818038379nat, m) == 9138687635490677663520268700194242624451099226271779960294659088275937214165);
    lemma_pm_double(7, 5020015858379356405265010117898779211798161285517298205818038379nat, m);
    assert(pm(7, 10040031716758712810530020235797558423596322571034596411636076758nat, m) == 43515758911991753934444128138422660929137683807577928340163923585850611744864);
    lemma_pm_succ(7, 10040031716758712810530020235797558423596322571034596411636076758nat, m);
    assert(pm(7, 10040031716758712810530020235797558423596322571034596411636076759nat, m) == 42430936508311325143870194428028797315511024150407309268129171601261376291483);
    lemma_pm_double(7, 10040031716758712810530020235797558423596322571034596411636076759nat, m);
    assert(pm(7, 20080063433517425621060040471595116847192645142069192823272153518nat, m) == 3578536655793955785515498679565763782841621511687589957638118397061890630228);
    lemma_pm_succ(7, 20080063433517425621060040471595116847192645142069192823272153518nat, m);
    assert(pm(7, 20080063433517425621060040471595116847192645142069192823272153519nat, m) == 25049756590557690498608490756960346479891350581813129703466828779433234411596);
    lemma_pm_double(7, 20080063433517425621060040471595116847192645142069192823272153519nat, m);
    assert(pm(7, 40160126867034851242120080943190233694385290284138385646544307038nat, m) == 7229612948080530879112080274470734653683296507029917863180070959375647610273);
    lemma_pm_double(7, 40160126867034851242120080943190233694385290284138385646544307038nat, m);
    assert(pm(7, 80320253734069702484240161886380467388770580568276771293088614076nat, m) == 27724794575879773656109703781742589719536746138864789739946486886711553033019);
    lemma_pm_double(7, 80320253734069702484240161886380467388770580568276771293088614076nat, m);
    assert(pm(7, 160640507468139404968480323772760934777541161136553542586177228152nat, m) == 8061851303388890292644042223144391547995273487134046227017621755926762837125);
    lemma_pm_succ(7, 160640507468139404968480323772760934777541161136553542586177228152nat, m);
    assert(pm(7, 160640507468139404968480323772760934777541161136553542586177228153nat, m) == 3997083948596041569060555053824774998276361909410685766519693591548758675362);
    lemma_pm_double(7, 160640507468139404968480323772760934777541161136553542586177228153nat, m);
    assert(pm(7, 321281014936278809936960647545521869555082322273107085172354456306nat, m) == 9885507315596215661110421400067487942453507631555909570586964132590420092812);
    lemma_pm_double(7, 321281014936278809936960647545521869555082322273107085172354456306nat, m);
    assert(pm(7, 642562029872557619873921295091043739110164644546214170344708912612nat, m) == 39153363177323136881064488196010606892444840563093631796684750564054541776214);
    lemma_pm_succ(7, 642562029872557619873921295091043739110164644546214170344708912612nat, m);
    assert(pm(7, 642562029872557619873921295091043739110164644546214170344708912613nat, m) == 11894166365631005770212714831144419058661121439017233463774960448688886510933);
    lemma_pm_double(7, 642562029872557619873921295091043739110164644546214170344708912613nat, m);
    assert(pm(7, 1285124059745115239747842590182087478220329289092428340689417825226nat, m) == 14513470002673444605166536140606599409900468891414980974406113585697754889599);
    lemma_pm_double(7, 1285124059745115239747842590182087478220329289092428340689417825226nat, m);
    assert(pm(7, 2570248119490230479495685180364174956440658578184856681378835650452nat, m) == 33461805866682696076645663189806821939662037202762033167713540900793613210316);
    lemma_pm_double(7, 2570248119490230479495685180364174956440658578184856681378835650452nat, m);
    assert(pm(7, 5140496238980460958991370360728349912881317156369713362757671300904nat, m) == 18434951831206172461200049001103839750782225310100117501597397986407621435247);
    lemma_pm_double(7, 5140496238980460958991370360728349912881317156369713362757671300904nat, m);
    assert(pm(7, 10280992477960921917982740721456699825762634312739426725515342601808nat, m) == 6384089300771234650869124262872465029809880820932698457559965791112270926906);
    lemma_pm_double(7, 10280992477960921917982740721456699825762634312739426725515342601808nat, m);
    assert(pm(7, 20561984955921843835965481442913399651525268625478853451030685203616nat, m) == 5580091407334870321263234625180693218971191246424721108770230613738882843167);
    lemma_pm_double(7, 20561984955921843835965481442913399651525268625478853451030685203616nat, m);
    assert(pm(7, 41123969911843687671930962885826799303050537250957706902061370407232nat, m) == 20770035376051407673506097580048150450734371734155153658561087867942005703453);
    lemma_pm_double(7, 41123969911843687671930962885826799303050537250957706902061370407232nat, m);
    assert(pm(7, 82247939823687375343861925771653598606101074501915413804122740814464nat, m) == 29198646032589298079824304285358116068150593920815534670241312249831144251262);
    lemma_pm_double(7, 82247939823687375343861925771653598606101074501915413804122740814464nat, m);
    assert(pm(7, 164495879647374750687723851543307197212202149003830827608245481628928nat, m) == 12005034215746964105665445845327238738114966269913816351712934580473490459473);
    lemma_pm_double(7, 164495879647374750687723851543307197212202149003830827608245481628928nat, m);
    assert(pm(7, 328991759294749501375447703086614394424404298007661655216490963257856nat, m) == 21363092904321447778744325618201697700047666318914253211906565659302145959167);
    lemma_pm_double(7, 328991759294749501375447703086614394424404298007661655216490963257856nat, m);
    assert(pm(7, 657983518589499002750895406173228788848808596015323310432981926515712nat, m) == 28367911456090546489213574469640544136288520754159290682366562625676304272831);
    lemma_pm_double(7, 657983518589499002750895406173228788848808596015323310432981926515712nat, m);
    assert(pm(7, 1315967037178998005501790812346457577697617192030646620865963853031424nat, m) == 10495824916325311077992673414725025367882656871586337922164735698128257673224);
    lemma_pm_double(7, 1315967037178998005501790812346457577697617192030646620865963853031424nat, m);
    assert(pm(7, 2631934074357996011003581624692915155395234384061293241731927706062848nat, m) == 36588305008609582851403914751831769617146305842458784072186599279793198184875);
    lemma_pm_double(7, 2631934074357996011003581624692915155395234384061293241731927706062848nat, m);
    assert(pm(7, 5263868148715992022007163249385830310790468768122586483463855412125696nat, m) == 14870102007779019928496644884958178131437327838726431991092088592259531843173);
    lemma_pm_double(7, 5263868148715992022007163249385830310790468768122586483463855412125696nat, m);
    assert(pm(7, 10527736297431984044014326498771660621580937536245172966927710824251392nat, m) == 48044374784672068207074341412523093124311138692953167268387275839988986013563);
    lemma_pm_double(7, 10527736297431984044014326498771660621580937536245172966927710824251392nat, m);
    assert(pm(7, 21055472594863968088028652997543321243161875072490345933855421648502784nat, m) == 8220110194663851744769155021128857136393743689013036827903377517509892760907);
    lemma_pm_double(7, 21055472594863968088028652997543321243161875072490345933855421648502784nat, m);
    assert(pm(7, 42110945189727936176057305995086642486323750144980691867710843297005568nat, m) == 48493770763993261771425817176265414739319268528728845497053806108287918502336);
    lemma_pm_double(7, 42110945189727936176057305995086642486323750144980691867710843297005568nat, m);
    assert(pm(7, 84221890379455872352114611990173284972647500289961383735421686594011136nat, m) == 48072748115987762075435545352463022987182737749695538334810149442745454470173);
    lemma_pm_double(7, 84221890379455872352114611990173284972647500289961383735421686594011136nat, m);
    assert(pm(7, 168443780758911744704229223980346569945295000579922767470843373188022272nat, m) == 36850102724538088071899381388781178120308499901503417945980890300620831804196);
    lemma_pm_double(7, 168443780758911744704229223980346569945295000579922767470843373188022272nat, m);
    assert(pm(7, 336887561517823489408458447960693139890590001159845534941686746376044544nat, m) == 33990981790565009121680992086410938749730402208207534345729439774633266155017);
    lemma_pm_double(7, 336887561517823489408458447960693139890590001159845534941686746376044544nat, m);
    assert(pm(7, 673775123035646978816916895921386279781180002319691069883373492752089088nat, m) == 26632125769041126498928726402794370013917148254177010598066901980510255533171);
    lemma_pm_double(7, 673775123035646978816916895921386279781180002319691069883373492752089088nat, m);
    assert(pm(7, 1347550246071293957633833791842772559562360004639382139766746985504178176nat, m) == 19638873812218620864816840832641072300213387255619605012245166951478130635686);
    lemma_pm_double(7, 1347550246071293957633833791842772559562360004639382139766746985504178176nat, m);
    assert(pm(7, 2695100492142587915267667583685545119124720009278764279533493971008356352nat, m) == 15894375040559312620832810295338262312038655286381969319673127869205092941336);
    lemma_pm_double(7, 2695100492142587915267667583685545119124720009278764279533493971008356352nat, m);
    assert(pm(7, 5390200984285175830535335167371090238249440018557528559066987942016712704nat, m) == 41961165532887200716990447554840932582130759573038539008253901670517811659732);
    lemma_pm_double(7, 5390200984285175830535335167371090238249440018557528559066987942016712704nat, m);
    assert(pm(7, 10780401968570351661070670334742180476498880037115057118133975884033425408nat, m) == 11619249760557102374065851087160383310033168531862396892732852324370725730985);
    lemma_pm_double(7, 10780401968570351661070670334742180476498880037115057118133975884033425408nat, m);
    assert(pm(7, 21560803937140703322141340669484360952997760074230114236267951768066850816nat, m) == 35258937794695233968073856387624781387798832940179881388375423426525912158432);
    lemma_pm_double(7, 21560803937140703322141340669484360952997760074230114236267951768066850816nat, m);
    assert(pm(7, 43121607874281406644282681338968721905995520148460228472535903536133701632nat, m) == 19549558892661143694233860900726587467239102089235635926237058237589421144314);
    lemma_pm_double(7, 43121607874281406644282681338968721905995520148460228472535903536133701632nat, m);
    assert(pm(7, 86243215748562813288565362677937443811991040296920456945071807072267403264nat, m) == 8226062630416573255584191448443041273402636781609828850198757168394787562660);
    lemma_pm_double(7, 86243215748562813288565362677937443811991040296920456945071807072267403264nat, m);
    assert(pm(7, 172486431497125626577130725355874887623982080593840913890143614144534806528nat, m) == 27627977208065243354610748491386085528355469542846511872242381003412356430139);
    lemma_pm_double(7, 172486431497125626577130725355874887623982080593840913890143614144534806528nat, m);
    assert(pm(7, 344972862994251253154261450711749775247964161187681827780287228289069613056nat, m) == 39312046154427171115869896807489634766777018680485800814935002421353738437385);
    lemma_pm_double(7, 344972862994251253154261450711749775247964161187681827780287228289069613056nat, m);
    assert(pm(7, 689945725988502506308522901423499550495928322375363655560574456578139226112nat, m) == 36659397594087471896073202964958763902039004224291668440353428779562688077798);
    lemma_pm_double(7, 689945725988502506308522901423499550495928322375363655560574456578139226112nat, m);
    assert(pm(7, 1379891451977005012617045802846999100991856644750727311121148913156278452224nat, m) == 24326639571649506998464223905864006639904230207045872206082847450392487521528);
    lemma_pm_double(7, 1379891451977005012617045802846999100991856644750727311121148913156278452224nat, m);
    assert(pm(7, 2759782903954010025234091605693998201983713289501454622242297826312556904448nat, m) == 33954097614611596975476204725091907054106918505758578373023360834096706151438);
}

/// `7^5152390210781781515127025695999407078479959958782316775336902692339449856 mod 52435875175126190479447740508185965837690552500527637822603658699938581184513`.
proof fn lemma_pow_52435875175126190479447740508185965837690552500527637822603658699938581184513_by_10177()
    ensures
        pm(7, 5152390210781781515127025695999407078479959958782316775336902692339449856nat, fr_modulus() as int) == 12994404728900834985293533771030346015740262791642084609331205164292017613753,
{
    let m: int = fr_modulus() as int;
    lemma_pm_one(7, m);
    lemma_pm_double(7, 1nat, m);
    assert(pm(7, 2nat, m) == 49);
    lemma_pm_double(7, 2nat, m);
    assert(pm(7, 4nat, m) == 2401);
    lemma_pm_succ(7, 4nat, m);
    assert(pm(7, 5nat, m) == 16807);
    lemma_pm_double(7, 5nat, m);
    assert(pm(7, 10nat, m) == 282475249);
    lemma_pm_succ(7, 10nat, m);
    assert(pm(7, 11nat, m) == 1977326743);
    lemma_pm_double(7, 11nat, m);
    assert(pm(7, 22nat, m) == 3909821048582988049);
    lemma_pm_succ(7, 22nat, m);
    assert(pm(7, 23nat, m) == 27368747340080916343);
    lemma_pm_double(7, 23nat, m);
    assert(pm(7, 46nat, m) == 749048330965186233494494102694564493649);
    lemma_pm_double(7, 46nat, m);
    assert(pm(7, 92nat, m) == 36714650370469268813188803881852499398740711335687585826477165234505949490071);
    lemma_pm_succ(7, 92nat, m);
    assert(pm(7, 93nat, m) == 47259051892780119774530665140223632440422769347702549494925521841787321692445);
    lemma_pm_double(7, 93nat, m);
    assert(pm(7, 186nat, m) == 31531909956563063814209270941541252520827088151306297758813558940198242293234);
    lemma_pm_double(7, 186nat, m);
    assert(pm(7, 372nat, m) == 16595822455391395602950079050972814256673715553492339546077006390722882708377);
    lemma_pm_succ(7, 372nat, m);
    assert(pm(7, 373nat, m) == 11299006837487388261755072340437768121334903873391101177331727335183016589613);
    lemma_pm_double(7, 373nat, m);
    assert(pm(7, 746nat, m) == 52350126211298202544761186838990608239350326899034153174525704269183734636661);
    lemma_pm_double(7, 746nat, m);
    assert(pm(7, 1492nat, m) == 51254708198304511094604017038125999725369383085624057984105741449408345579098);
    lemma_pm_succ(7, 1492nat, m);
    assert(pm(7, 1493nat, m) == 44167706337374434785541676217766203051442366596202578953118237946226931946608);
    lemma_pm_double(7, 1493nat, m);
    assert(pm(7, 2986nat, m) == 11264346428878307030482792481118715820865279266609016824818017313104430616190);
    lemma_pm_double(7, 2986nat, m);
    assert(pm(7, 5972nat, m) == 36584647174085897328326859561847328338986162310011062840737192577071886582430);
    lemma_pm_double(7, 5972nat, m);
    assert(pm(7, 11944nat, m) == 2051119812275690599517821565037892086642974889974600848326914701288668854438);
    lemma_pm_double(7, 11944nat, m);
    assert(pm(7, 23888nat, m) == 20957278837747486347816349270943822414992994401889732035010821364052343825664);
    lemma_pm_succ(7, 23888nat, m);
    assert(pm(7, 23889nat, m) == 41829201513980023475818963880234825229569855812172848599868432148489244410622);
    lemma_pm_double(7, 23889nat, m);
    assert(pm(7, 47778nat, m) == 29948760437589990609977302022641988702232046389515178340234220231454170561023);
    lemma_pm_double(7, 47778nat, m);
    assert(pm(7, 95556nat, m) == 22584865823848962128487413213188584415401056964184472798509513110859059187673);
    lemma_pm_double(7, 95556nat, m);
    assert(pm(7, 191112nat, m) == 18173234988211345064777017556119089832032860067044201756090184386051816406029);
    lemma_pm_double(7, 191112nat, m);
    assert(pm(7, 382224nat, m) == 9240267871708669147206407604597889741753195099101612235872118067666883473477);
    lemma_pm_succ(7, 382224nat, m);
    assert(pm(7, 382225nat, m) == 12245999926834493550997112723999262354581813193183647828501167773729603129826);
    lemma_pm_double(7, 382225nat, m);
    assert(pm(7, 764450nat, m) == 28189095479852470447299751720617761646476085058768514278280587868484873363660);
    lemma_pm_succ(7, 764450nat, m);
    assert(pm(7, 764451nat, m) == 40016042833588721692755040519766434012260937909796686480153138979578369992081);
    lemma_pm_double(7, 764451nat, m);
    assert(pm(7, 1528902nat, m) == 26628723902082090403649691966416289366825519913905800422434868339887249858370);
    lemma_pm_double(7, 1528902nat, m);
    assert(pm(7, 3057804nat, m) == 10722001847337796594217010573851436187489244811208405903590443343590835402791);
    lemma_pm_double(7, 3057804nat, m);
    assert(pm(7, 6115608nat, m) == 26646176230670664816527542247073113547512590491719464688153467255215982939139);
    lemma_pm_double(7, 6115608nat, m);
    assert(pm(7, 12231216nat, m) == 20451609608768586971422612658954791941771178325368077959661422375442625677966);
    lemma_pm_succ(7, 12231216nat, m);
    assert(pm(7, 12231217nat, m) == 38289516911127727841062807596311611917017143276521270072422639228221217376736);
    lemma_pm_double(7, 12231217nat, m);
    assert(pm(7, 24462434nat, m) == 14938548304178372192476337430556160899230510709012993946086431510262541581860);
    lemma_pm_succ(7, 24462434nat, m);
    assert(pm(7, 24462435nat, m) == 52133962954122414867886621505707160456923022462563319800001361871899209888507);
    lemma_pm_double(7, 24462435nat, m);
    assert(pm(7, 48924870nat, m) == 9255635783535708183894062536894352030541308341501023261417985009791856016872);
    lemma_pm_double(7, 48924870nat, m);
    assert(pm(7, 97849740nat, m) == 31365746773432524644900085281773201359616550365630499973648296382746668814380);
    lemma_pm_double(7, 97849740nat, m);
    assert(pm(7, 195699480nat, m) == 1404263549900872698986300332120709075199706637639891439928698687368024622113);
    lemma_pm_succ(7, 195699480nat, m);
    assert(pm(7, 195699481nat, m) == 9829844849306108892904102324844963526397946463479240079500890811576172354791);
    lemma_pm_double(7, 195699481nat, m);
    assert(pm(7, 391398962nat, m) == 40953489719657080786892163190230544208858496368717973543642280990274508945513);
    lemma_pm_double(7, 391398962nat, m);
    assert(pm(7, 782797924nat, m) == 13812571888916208081730656400799604165123876758383202781504186166731461970257);
    lemma_pm_double(7, 782797924nat, m);
    assert(pm(7, 1565595848nat, m) == 51910548793731287101838765961975725328834380013309293380354308382616885774836);
    lemma_pm_succ(7, 1565595848nat, m);
    assert(pm(7, 1565595849nat, m) == 48758590505361866836184918684714282275697345089999226726858206478686713316774);
    lemma_pm_double(7, 1565595849nat, m);
    assert(pm(7, 3131191698nat, m) == 11054172068371943539241317737798654945598222461469761652254896562764514667095);
    lemma_pm_succ(7, 3131191698nat, m);
    assert(pm(7, 3131191699nat, m) == 24943329303477414295241483656404618781497004729760693743180617239413021485152);
    lemma_pm_double(7, 3131191699nat, m);
    assert(pm(7, 6262383398nat, m) == 42653400139871042211541938003315162545249833811816126756823913465534711718084);
    lemma_pm_double(7, 6262383398nat, m);
    assert(pm(7, 12524766796nat, m) == 52140894190858417337219837289366226640902259481449209030665090353475741310623);
    lemma_pm_double(7, 12524766796nat, m);
    assert(pm(7, 25049533592nat, m) == 4253589545946991552164043121456699012866962039116405565218213901255278728833);
    lemma_pm_succ(7, 25049533592nat, m);
    assert(pm(7, 25049533593nat, m) == 29775126821628940865148301850196893090068734273814838956527497308786951101831);
    lemma_pm_double(7, 25049533593nat, m);
    assert(pm(7, 50099067186nat, m) == 40831531030756373742269550829689746960117117204539817598402122389407558316315);
    lemma_pm_double(7, 50099067186nat, m);
    assert(pm(7, 100198134372nat, m) == 37477749020707048009166596665109332532696283528292837528022877840948535507968);
    lemma_pm_double(7, 100198134372nat, m);
    assert(pm(7, 200396268744nat, m) == 15640875045931165827845200678072744620611472345469555416013114722381837605715);
    lemma_pm_double(7, 200396268744nat, m);
    assert(pm(7, 400792537488nat, m) == 30429092738414600406915074331505048360603400108614414420215090808559979620343);
    lemma_pm_succ(7, 400792537488nat, m);
    assert(pm(7, 400792537489nat, m) == 3260148468397440930614558287791475173461590758190349651091000860165532604349);
    lemma_pm_double(7, 400792537489nat, m);
    assert(pm(7, 801585074978nat, m) == 49229660952965166292807848767333690562033095445794131348964905216831964970002);
    lemma_pm_succ(7, 801585074978nat, m);
    assert(pm(7, 801585074979nat, m) == 29992375619999021172968498322220038908088353117393092507132384318192267682936);
    lemma_pm_double(7, 801585074979nat, m);
    assert(pm(7, 1603170149958nat, m) == 45234219956996603335411319225822646851934621250975256602108121983828463317416);
    lemma_pm_succ(7, 1603170149958nat, m);
    assert(pm(7, 1603170149959nat, m) == 2024288648219080471192791531642732937399033753660969279134901687167756114834);
    lemma_pm_double(7, 1603170149959nat, m);
    assert(pm(7, 3206340299918nat, m) == 20394017966207118807834910118640002360101380920639462635771760650397761773070);
    lemma_pm_succ(7, 3206340299918nat, m);
    assert(pm(7, 3206340299919nat, m) == 37886375413197450695948889814108084845328561443420962805195007152907170042464);
    lemma_pm_double(7, 3206340299919nat, m);
    assert(pm(7, 6412680599838nat, m) == 37566459706087539497573535485389894908956664992897568280197556743934026498245);
    lemma_pm_succ(7, 6412680599838nat, m);
    assert(pm(7, 6412680599839nat, m) == 785842066981824085776045856799435174243892447644788848364603707845279565150);
    lemma_pm_double(7, 6412680599839nat, m);
    assert(pm(7, 12825361199678nat, m) == 10741439424920038952240519914524590723788856099676224613743256241487890417375);
    lemma_pm_double(7, 12825361199678nat, m);
    assert(pm(7, 25650722399356nat, m) == 42912379331261034664943264120212141368982838190429453472934064234375571177640);
    lemma_pm_succ(7, 25650722399356nat, m);
    assert(pm(7, 25650722399357nat, m) == 38207279443196290257364146300555160394427104830367985197520156140936092320915);
    lemma_pm_double(7, 25650722399357nat, m);
    assert(pm(7, 51301444798714nat, m) == 9042551771732835508426247276004927137716672603799168138229620291690677055865);
    lemma_pm_succ(7, 51301444798714nat, m);
    assert(pm(7, 51301444798715nat, m) == 10861987227003658079535990423848524126326155726066539145003683341896158206542);
    lemma_pm_double(7, 51301444798715nat, m);
    assert(pm(7, 102602889597430nat, m) == 20647629514036246200111065369858658812465456588593323713975134312206119919287);
    lemma_pm_succ(7, 102602889597430nat, m);
    assert(pm(7, 102602889597431nat, m) == 39661656248001342441881976572638680011877091119097990352618622785565677065983);
    lemma_pm_double(7, 102602889597431nat, m);
    assert(pm(7, 205205779194862nat, m) == 28149890326996717740099783521817252335770953990390070062861601000818508691334);
    lemma_pm_double(7, 205205779194862nat, m);
    assert(pm(7, 410411558389724nat, m) == 39497582510606985037377701028046613891870326098523935669576032557795676518703);
    lemma_pm_double(7, 410411558389724nat, m);
    assert(pm(7, 820823116779448nat, m) == 35410934614763701076585026477316232876840172183566923641116821799664607112299);
    lemma_pm_double(7, 820823116779448nat, m);
    assert(pm(7, 1641646233558896nat, m) == 26568457549150511189491879036417376360598906716383055123790102936153322230918);
    lemma_pm_succ(7, 1641646233558896nat, m);
    assert(pm(7, 1641646233558897nat, m) == 28671577318675006888099931730363737011120689513098472398719744453257512062887);
    lemma_pm_double(7, 1641646233558897nat, m);
    assert(pm(7, 3283292467117794nat, m) == 25656233003119036088616571108615727469994777154962096557444228467171886576057);
    lemma_pm_double(7, 3283292467117794nat, m);
    assert(pm(7, 6566584934235588nat, m) == 11628931467997230260003640664812342022915780871106064556299394725511143916452);
    lemma_pm_succ(7, 6566584934235588nat, m);
    assert(pm(7, 6566584934235589nat, m) == 28966645100854421340577744145500428322719913597214814071492104378639426230651);
    lemma_pm_double(7, 6566584934235589nat, m);
    assert(pm(7, 13133169868471178nat, m) == 31268862210027847959429963376110015267153886039418752959205822612456122854093);
    lemma_pm_succ(7, 13133169868471178nat, m);
    assert(pm(7, 13133169868471179nat, m) == 9138534769690173798218781600026243519314992273820719424026123487438535240599);
    lemma_pm_double(7, 13133169868471179nat, m);
    assert(pm(7, 26266339736942358nat, m) == 35929816662438039763850653866903291043677261962404279801674777583549921805703);
    lemma_pm_double(7, 26266339736942358nat, m);
    assert(pm(7, 52532679473884716nat, m) == 16252715421484154446215864344794139324098986404340030090576337994923046531018);
    lemma_pm_double(7, 52532679473884716nat, m);
    assert(pm(7, 105065358947769432nat, m) == 19744621107924234516395235952844801745980886901833249729285116975363862121813);
    lemma_pm_double(7, 105065358947769432nat, m);
    assert(pm(7, 210130717895538864nat, m) == 30847651314356273636288673124260538275321070277652566774309474652087076129094);
    lemma_pm_succ(7, 210130717895538864nat, m);
    assert(pm(7, 210130717895538865nat, m) == 6190058499989153536229749837079904576485281941457416129751687764855208165606);
    lemma_pm_double(7, 210130717895538865nat, m);
    assert(pm(7, 420261435791077730nat, m) == 28922763051660434126952091476504162865513132053068876886202552155096648928307);
    lemma_pm_double(7, 420261435791077730nat, m);
    assert(pm(7, 840522871582155460nat, m) == 3541423056774902097851726616486160766138851376978915356949434584014383412106);
    lemma_pm_succ(7, 840522871582155460nat, m);
    assert(pm(7, 840522871582155461nat, m) == 24789961397424314684962086315403125362971959638852407498646042088100683884742);
    lemma_pm_double(7, 840522871582155461nat, m);
    assert(pm(7, 1681045743164310922nat, m) == 16809839761658919323281263309244741875281312499125159353042312602496818928027);
    lemma_pm_succ(7, 1681045743164310922nat, m);
    assert(pm(7, 1681045743164310923nat, m) == 12797127981360054304073362148341261451588082492820839826088870817600570127163);
    lemma_pm_double(7, 1681045743164310923nat, m);
    assert(pm(7, 3362091486328621846nat, m) == 11159636763874834649533031989929022434778611579490147246031516082101088143676);
    lemma_pm_succ(7, 3362091486328621846nat, m);
    assert(pm(7, 3362091486328621847nat, m) == 25681582171997652067283483421317191205759728555903392899616953874769035821219);
    lemma_pm_double(7, 3362091486328621847nat, m);
    assert(pm(7, 6724182972657243694nat, m) == 44202765678105117736901161067521745691745872617291677570677136032419494514641);
    lemma_pm_succ(7, 6724182972657243694nat, m);
    assert(pm(7, 6724182972657243695nat, m) == 47239983871104871761069424931722390653768345818403553881721658727243555679922);
    lemma_pm_double(7, 6724182972657243695nat, m);
    assert(pm(7, 13448365945314487390nat, m) == 42867357314675949506774386117149732208918207163541104408510876870013923061592);
    lemma_pm_succ(7, 13448365945314487390nat, m);
    assert(pm(7, 13448365945314487391nat, m) == 37892125327100694150182000279118296273974687642149541746557844590404555508579);
    lemma_pm_double(7, 13448365945314487391nat, m);
    assert(pm(7, 26896731890628974782nat, m) == 4342017003654270018009331844516994680803371651129664145806058948260021702864);
    lemma_pm_succ(7, 26896731890628974782nat, m);
    assert(pm(7, 26896731890628974783nat, m) == 30394119025579890126065322911618962765623601557907649020642412637820151920048);
    lemma_pm_double(7, 26896731890628974783nat, m);
    assert(pm(7, 53793463781257949566nat, m) == 48726994708804362361150628218355191699415771552620607234223774697735847461551);
    lemma_pm_succ(7, 53793463781257949566nat, m);
    assert(pm(7, 53793463781257949567nat, m) == 26473711910873393651367954479370546869767085865178423703944470684519445123779);
    lemma_pm_double(7, 53793463781257949567nat, m);
    assert(pm(7, 107586927562515899134nat, m) == 9074039462520975995679810913289810729587182120441976270232098140105803095240);
    lemma_pm_double(7, 107586927562515899134nat, m);
    assert(pm(7, 215173855125031798268nat, m) == 45165023430725853612610431789025864976157745133641617675204061729757016168480);
    lemma_pm_double(7, 215173855125031798268nat, m);
    assert(pm(7, 430347710250063596536nat, m) == 46916168187254394892320090963108365732741229608418489502865116569987507687727);
    lemma_pm_succ(7, 430347710250063596536nat, m);
    assert(pm(7, 430347710250063596537nat, m) == 13797926260023621369554193692642765103045292255763599584433863790281066707011);
    lemma_pm_double(7, 430347710250063596537nat, m);
    assert(pm(7, 860695420500127193074nat, m) == 17841339959363172875073197421354115807262814905534309820977906311137911841080);
    lemma_pm_succ(7, 860695420500127193074nat, m);
    assert(pm(7, 860695420500127193075nat, m) == 20017629365289829166616900933106878975458599337684893101638026778088220518534);
    lemma_pm_double(7, 860695420500127193075nat, m);
    assert(pm(7, 1721390841000254386150nat, m) == 19754810834828820120650989623593422165399040207714912045579416486877125842003);
    lemma_pm_succ(7, 1721390841000254386150nat, m);
    assert(pm(7, 1721390841000254386151nat, m) == 33411925493549359885661446348782023482412176452949108673848598008262718524995);
    lemma_pm_double(7, 1721390841000254386151nat, m);
    assert(pm(7, 3442781682000508772302nat, m) == 923922489267774761502678261867738185859341868753272938457264042314434895667);
    lemma_pm_succ(7, 3442781682000508772302nat, m);
    assert(pm(7, 3442781682000508772303nat, m) == 6467457424874423330518747833074167301015393081272910569200848296201044269669);
    lemma_pm_double(7, 3442781682000508772303nat, m);
    assert(pm(7, 6885563364001017544606nat, m) == 26699480637454833299396914356575021036195817953597934445152833082520607510581);
    lemma_pm_double(7, 6885563364001017544606nat, m);
    assert(pm(7, 13771126728002035089212nat, m) == 44096887101421265345623692765110812825097522466054141881491468461538943138791);
    lemma_pm_succ(7, 13771126728002035089212nat, m);
    assert(pm(7, 13771126728002035089213nat, m) == 46498833834317905022127146814845860587229894759740804057421985731079696048972);
    lemma_pm_double(7, 13771126728002035089213nat, m);
    assert(pm(7, 27542253456004070178426nat, m) == 12201450958990915573314895007348420392802825037582646327869584247088799653324);
    lemma_pm_double(7, 27542253456004070178426nat, m);
    assert(pm(7, 55084506912008140356852nat, m) == 26263213743493403205580174837698759391366554763690498416034317674708787575349);
    lemma_pm_double(7, 55084506912008140356852nat, m);
    assert(pm(7, 110169013824016280713704nat, m) == 39230298950276473184698131590588396930782119164085356453714683725545590173710);
    lemma_pm_double(7, 110169013824016280713704nat, m);
    assert(pm(7, 220338027648032561427408nat, m) == 16864095154148021433517187431773708605160454442750794388838875005468416773432);
    lemma_pm_double(7, 220338027648032561427408nat, m);
    assert(pm(7, 440676055296065122854816nat, m) == 20527428568259893637608736723334535936668577927903879057112932338492349007695);
    lemma_pm_succ(7, 440676055296065122854816nat, m);
    assert(pm(7, 440676055296065122854817nat, m) == 38820249627566874504365676046969819881298940494271877754583208969569280684839);
    lemma_pm_double(7, 440676055296065122854817nat, m);
    assert(pm(7, 881352110592130245709634nat, m) == 16381918128246266347875851481885317885652697773661373276964338536374351829908);
    lemma_pm_double(7, 881352110592130245709634nat, m);
    assert(pm(7, 1762704221184260491419268nat, m) == 50059349031282772908711155140961555607080401781733815363602340537299796946210);
    lemma_pm_succ(7, 1762704221184260491419268nat, m);
    assert(pm(7, 1762704221184260491419269nat, m) == 35800192168222267484291642937615094223419497468970880609594431561467091516392);
    lemma_pm_double(7, 1762704221184260491419269nat, m);
    assert(pm(7, 3525408442368520982838538nat, m) == 45385794557876269794729518604331039166644292958117593499469017715590540803980);
    lemma_pm_succ(7, 3525408442368520982838538nat, m);
    assert(pm(7, 3525408442368520982838539nat, m) == 3085310854376745686420187181201479140366735703657327560661171809502298520782);
    lemma_pm_double(7, 3525408442368520982838539nat, m);
    assert(pm(7, 7050816884737041965677078nat, m) == 8563143485634655184071362025272267081888743971237858350145257956837452897121);
    lemma_pm_succ(7, 7050816884737041965677078nat, m);
    assert(pm(7, 7050816884737041965677079nat, m) == 7506129224316395809051793668719903735530655298137370628413146997923589095334);
    lemma_pm_double(7, 7050816884737041965677079nat, m);
    assert(pm(7, 14101633769474083931354158nat, m) == 51880844282085893795340191601645396320697389243984428689232821756174684804644);
    lemma_pm_succ(7, 14101633769474083931354158nat, m);
    assert(pm(7, 14101633769474083931354159nat, m) == 48550658923844113690694898162401979218738409704725173889007800093591306525430);
    lemma_pm_double(7, 14101633769474083931354159nat, m);
    assert(pm(7, 28203267538948167862708318nat, m) == 32313437633841212927204972448848565587562742049612250127203888167677407863560);
    lemma_pm_succ(7, 28203267538948167862708318nat, m);
    assert(pm(7, 28203267538948167862708319nat, m) == 16450562736383728572643845109196095762176984345175199600012582373987530306868);
    lemma_pm_double(7, 28203267538948167862708319nat, m);
    assert(pm(7, 56406535077896335725416638nat, m) == 33840082408647395012272915111474858114817537583382043159294767288434750994803);
    lemma_pm_succ(7, 56406535077896335725416638nat, m);
    assert(pm(7, 56406535077896335725416639nat, m) == 27137076160027003168119443747580143452960553081563750824648736219288932225569);
    lemma_pm_double(7, 56406535077896335725416639nat, m);
    assert(pm(7, 112813070155792671450833278nat, m) == 17960203654472817682671038439132216298254432843588791419327621432331322346538);
    lemma_pm_double(7, 112813070155792671450833278nat, m);
    assert(pm(7, 225626140311585342901666556nat, m) == 25158062374412534560503469656025552027939305585063904282198087382115638845854);
    lemma_pm_double(7, 225626140311585342901666556nat, m);
    assert(pm(7, 451252280623170685803333112nat, m) == 52023296841078518690070284415868704971628055721345615756271850977660963299134);
    lemma_pm_succ(7, 451252280623170685803333112nat, m);
    assert(pm(7, 451252280623170685803333113nat, m) == 49547826836792487953805547861965139775253075046253483358281004643995255986860);
    lemma_pm_double(7, 451252280623170685803333113nat, m);
    assert(pm(7, 902504561246341371606666226nat, m) == 9715637237033904130934973403596842856578897088874092244603780813529096621451);
    lemma_pm_succ(7, 902504561246341371606666226nat, m);
    assert(pm(7, 902504561246341371606666227nat, m) == 15573585484111138437097073316991934158361727121591007889622806994765095165644);
    lemma_pm_double(7, 902504561246341371606666227nat, m);
    assert(pm(7, 1805009122492682743213332454nat, m) == 12074470823001393922111294982109671339943856160055401152913701886278724463654);
    lemma_pm_double(7, 1805009122492682743213332454nat, m);
    assert(pm(7, 3610018244985365486426664908nat, m) == 48537598492153536253524527256878076778603624928335699123851638483256238859806);
    lemma_pm_double(7, 3610018244985365486426664908nat, m);
    assert(pm(7, 7220036489970730972853329816nat, m) == 21260389549004230978132104114414160076194752182104376146984828646505152845207);
    lemma_pm_double(7, 7220036489970730972853329816nat, m);
    assert(pm(7, 14440072979941461945706659632nat, m) == 9837952080265864470105437310769313380477944830792943264858783645249015131249);
    lemma_pm_double(7, 14440072979941461945706659632nat, m);
    assert(pm(7, 28880145959882923891413319264nat, m) == 14059510451070988592589096778649692388471931866582863439430968280058479921159);
    lemma_pm_double(7, 28880145959882923891413319264nat, m);
    assert(pm(7, 57760291919765847782826638528nat, m) == 11118669827455356222976362115327940811204502199545247778875223290363357912781);
    lemma_pm_succ(7, 57760291919765847782826638528nat, m);
    assert(pm(7, 57760291919765847782826638529nat, m) == 25394813617061303081386794299109619840740962896289096629522904332604924204954);
    lemma_pm_double(7, 57760291919765847782826638529nat, m);
    assert(pm(7, 115520583839531695565653277058nat, m) == 19811874970669826605102875697454007501248129564389320247564242628054902958847);
    lemma_pm_double(7, 115520583839531695565653277058nat, m);
    assert(pm(7, 231041167679063391131306554116nat, m) == 52084571947305368791244808438572194176166879734227574098035513114459966275479);
    lemma_pm_succ(7, 231041167679063391131306554116nat, m);
    assert(pm(7, 231041167679063391131306554117nat, m) == 49976752580380438662027216020889564207024843136427191750626639601588276821275);
    lemma_pm_double(7, 231041167679063391131306554117nat, m);
    assert(pm(7, 462082335358126782262613108234nat, m) == 4013803030557607100318414171355754220856599240706198537991785520745816301133);
    lemma_pm_double(7, 462082335358126782262613108234nat, m);
    assert(pm(7, 924164670716253564525226216468nat, m) == 20621500117266515030022251120871593513882037775747339295801243774313145807728);
    lemma_pm_succ(7, 924164670716253564525226216468nat, m);
    assert(pm(7, 924164670716253564525226216469nat, m) == 39478750470613224251260276829729222921793159429176099425401389020314858285070);
    lemma_pm_double(7, 924164670716253564525226216469nat, m);
    assert(pm(7, 1848329341432507129050452432938nat, m) == 51142940435510933815372769789624269285155073064912710846746575126104235034878);
    lemma_pm_succ(7, 1848329341432507129050452432938nat, m);
    assert(pm(7, 1848329341432507129050452432939nat, m) == 43385331997819393830922945478254089969942196451223148991604073683098158137068);
    lemma_pm_double(7, 1848329341432507129050452432939nat, m);
    assert(pm(7, 3696658682865014258100904865878nat, m) == 17688102169296133968912749974542941218059978280347955104540763624210319657948);
    lemma_pm_double(7, 3696658682865014258100904865878nat, m);
    assert(pm(7, 7393317365730028516201809731756nat, m) == 20313373266366483286164055920194003858501489232097374815122377872685351230046);
    lemma_pm_double(7, 7393317365730028516201809731756nat, m);
    assert(pm(7, 14786634731460057032403619463512nat, m) == 47679772956893348485764579217718240178051808087886633975002656894248770435655);
    lemma_pm_succ(7, 14786634731460057032403619463512nat, m);
    assert(pm(7, 14786634731460057032403619463513nat, m) == 19143159647496296523665611474911886220219341612040610889396646060109905942507);
    lemma_pm_double(7, 14786634731460057032403619463513nat, m);
    assert(pm(7, 29573269462920114064807238927026nat, m) == 37176722429256034016276657820443100003341855880643078167229483662647582097505);
    lemma_pm_succ(7, 29573269462920114064807238927026nat, m);
    assert(pm(7, 29573269462920114064807238927027nat, m) == 50493556304287476196145642710357836672630781162390995880191750838778749944483);
    lemma_pm_double(7, 29573269462920114064807238927027nat, m);
    assert(pm(7, 59146538925840228129614477854054nat, m) == 2053945847272584741839699777838714176487711098084217149895142260449842462102);
    lemma_pm_double(7, 59146538925840228129614477854054nat, m);
    assert(pm(7, 118293077851680456259228955708108nat, m) == 22503904149765481277022461234564937990505375382912588857754677691598946532278);
    lemma_pm_double(7, 118293077851680456259228955708108nat, m);
    assert(pm(7, 236586155703360912518457911416216nat, m) == 1801491082071617675239760639220175006010185898620394634006320777531256511114);
    lemma_pm_double(7, 236586155703360912518457911416216nat, m);
    assert(pm(7, 473172311406721825036915822832432nat, m) == 49711434393783735541854540883151834917790876464884295124647239583827557973782);
    lemma_pm_succ(7, 473172311406721825036915822832432nat, m);
    assert(pm(7, 473172311406721825036915822832433nat, m) == 33364789705729005916295343132947049398392820251024238936908724887161418709396);
    lemma_pm_double(7, 473172311406721825036915822832433nat, m);
    assert(pm(7, 946344622813443650073831645664866nat, m) == 12893195326143903475341150883202127833262192112364900197886339839008668436185);
    lemma_pm_double(7, 946344622813443650073831645664866nat, m);
    assert(pm(7, 1892689245626887300147663291329732nat, m) == 7369632478425612920035586554378106714629544608666443636759939922822310013454);
    lemma_pm_double(7, 1892689245626887300147663291329732nat, m);
    assert(pm(7, 3785378491253774600295326582659464nat, m) == 43525716300580547750650162963592448580868151031788853661753394069335683048021);
    lemma_pm_succ(7, 3785378491253774600295326582659464nat, m);
    assert(pm(7, 3785378491253774600295326582659465nat, m) == 42500638228432881857312438204217310877624294719883786519255464985656875413582);
    lemma_pm_double(7, 3785378491253774600295326582659465nat, m);
    assert(pm(7, 7570756982507549200590653165318930nat, m) == 12754523271001308187506608727981443601000079161543193130818339043377125716595);
    lemma_pm_succ(7, 7570756982507549200590653165318930nat, m);
    assert(pm(7, 7570756982507549200590653165318931nat, m) == 36845787721882966833098520587684139369310001630274714093124714603701298831652);
    lemma_pm_double(7, 7570756982507549200590653165318931nat, m);
    assert(pm(7, 15141513965015098401181306330637862nat, m) == 21480886782798059219376608582991660980887332863873657780781464306105149125374);
    lemma_pm_double(7, 15141513965015098401181306330637862nat, m);
    assert(pm(7, 30283027930030196802362612661275724nat, m) == 4317896735485387158069231068748968523700903487181442507748417270565778369293);
    lemma_pm_double(7, 30283027930030196802362612661275724nat, m);
    assert(pm(7, 60566055860060393604725225322551448nat, m) == 2259586517486588101325267718648350648787530051048276917989157466967414502914);
    lemma_pm_succ(7, 60566055860060393604725225322551448nat, m);
    assert(pm(7, 60566055860060393604725225322551449nat, m) == 15817105622406116709276874030538454541512710357337938425924102268771901520398);
    lemma_pm_double(7, 60566055860060393604725225322551449nat, m);
    assert(pm(7, 121132111720120787209450450645102898nat, m) == 30388302565439866781886385641377318585520446117929753799028967630904667168624);
    lemma_pm_double(7, 121132111720120787209450450645102898nat, m);
    assert(pm(7, 242264223440241574418900901290205796nat, m) == 51912190477518345675311859227609963237775506266531823547817249988004651743976);
    lemma_pm_double(7, 242264223440241574418900901290205796nat, m);
    assert(pm(7, 484528446880483148837801802580411592nat, m) == 39550625595470566769969824306996391584965542973821458605641427987874565206351);
    lemma_pm_succ(7, 484528446880483148837801802580411592nat, m);
    assert(pm(7, 484528446880483148837801802580411593nat, m) == 14675003292663014992550067608044911906306038314112021126471702415429050521892);
    lemma_pm_double(7, 484528446880483148837801802580411593nat, m);
    assert(pm(7, 969056893760966297675603605160823186nat, m) == 41277632148922745458550762645695530336420033547008421181795776734028901773090);
    lemma_pm_double(7, 969056893760966297675603605160823186nat, m);
    assert(pm(7, 1938113787521932595351207210321646372nat, m) == 47684060518303817590204008399186038849843126892626114943395660151998538480680);
    lemma_pm_double(7, 1938113787521932595351207210321646372nat, m);
    assert(pm(7, 3876227575043865190702414420643292744nat, m) == 19641537113907569772552813763742308682628932787313911876235566440528621092964);
    lemma_pm_succ(7, 3876227575043865190702414420643292744nat, m);
    assert(pm(7, 3876227575043865190702414420643292745nat, m) == 32619009447100607448974215329824229103021424510142107488441647683823185281722);
    lemma_pm_double(7, 3876227575043865190702414420643292745nat, m);
    assert(pm(7, 7752455150087730381404828841286585490nat, m) == 33443985530883254928423970749143657035635121601403135727459384491571179105387);
    lemma_pm_double(7, 7752455150087730381404828841286585490nat, m);
    assert(pm(7, 15504910300175460762809657682573170980nat, m) == 43331945650123066096890099829859156421271494744519486561632298553234946682275);
    lemma_pm_double(7, 15504910300175460762809657682573170980nat, m);
    assert(pm(7, 31009820600350921525619315365146341960nat, m) == 52206169914960043226068355806514444293699300645435321232209545267263767951458);
    lemma_pm_succ(7, 31009820600350921525619315365146341960nat, m);
    assert(pm(7, 31009820600350921525619315365146341961nat, m) == 50827938353963159705792047596485315029751789514881421689844864671214888553128);
    lemma_pm_double(7, 31009820600350921525619315365146341961nat, m);
    assert(pm(7, 62019641200701843051238630730292683922nat, m) == 26650705205064847098722667296825951847860558492563781345144010668120352462411);
    lemma_pm_succ(7, 62019641200701843051238630730292683922nat, m);
    assert(pm(7, 62019641200701843051238630730292683923nat, m) == 29247310910075358252715449553223765421952251946363555948197098577026723683338);
    lemma_pm_double(7, 62019641200701843051238630730292683923nat, m);
    assert(pm(7, 124039282401403686102477261460585367846nat, m) == 43030127679729699704402264706369220324031265974578216714986783321235017990679);
    lemma_pm_succ(7, 124039282401403686102477261460585367846nat, m);
    assert(pm(7, 124039282401403686102477261460585367847nat, m) == 39031517882476945533577150403654713079766099319409327891889189748952220012188);
    lemma_pm_double(7, 124039282401403686102477261460585367847nat, m);
    assert(pm(7, 248078564802807372204954522921170735694nat, m) == 40254901064548515726618582835136202526007809986530790078055310624371711291243);
    lemma_pm_double(7, 248078564802807372204954522921170735694nat, m);
    assert(pm(7, 496157129605614744409909045842341471388nat, m) == 24680496696638377118476457604495295892607397548565636104200576729537723136357);
    lemma_pm_succ(7, 496157129605614744409909045842341471388nat, m);
    assert(pm(7, 496157129605614744409909045842341471389nat, m) == 15455851351090068390991981706909173735180125338376539261593061006948318400960);
    lemma_pm_double(7, 496157129605614744409909045842341471389nat, m);
    assert(pm(7, 992314259211229488819818091684682942778nat, m) == 26331841442216778146692315030684588443166407830960982642065598167849518940222);
    lemma_pm_succ(7, 992314259211229488819818091684682942778nat, m);
    assert(pm(7, 992314259211229488819818091684682942779nat, m) == 27015264570138875588502983690234221589093197315143965026648211075130889028015);
    lemma_pm_double(7, 992314259211229488819818091684682942779nat, m);
    assert(pm(7, 1984628518422458977639636183369365885558nat, m) == 33114053550995256675795264899552366118656152199105516641381655011227622222906);
    lemma_pm_succ(7, 1984628518422458977639636183369365885558nat, m);
    assert(pm(7, 1984628518422458977639636183369365885559nat, m) == 22054874156462034812775892264122699479830855391628065199256950278839030822290);
    lemma_pm_double(7, 1984628518422458977639636183369365885559nat, m);
    assert(pm(7, 3969257036844917955279272366738731771118nat, m) == 36188458766185655931915111864806973569490235790097255886947773332264657425209);
    lemma_pm_succ(7, 3969257036844917955279272366738731771118nat, m);
    assert(pm(7, 3969257036844917955279272366738731771119nat, m) == 43575710662794829605614821020904951635669440528570239918219778526098277238411);
    lemma_pm_double(7, 3969257036844917955279272366738731771119nat, m);
    assert(pm(7, 7938514073689835910558544733477463542238nat, m) == 18470218090119018305692699815322431054594096795391440183598470246569034827576);
    lemma_pm_double(7, 7938514073689835910558544733477463542238nat, m);
    assert(pm(7, 15877028147379671821117089466954927084476nat, m) == 37446485473201236606702043327483924944599518965343446449171091326077804476381);
    lemma_pm_succ(7, 15877028147379671821117089466954927084476nat, m);
    assert(pm(7, 15877028147379671821117089466954927084477nat, m) == 52381897611903894329123341259643611261434422755293573853783004482790306596615);
    lemma_pm_double(7, 15877028147379671821117089466954927084477nat, m);
    assert(pm(7, 31754056294759343642234178933909854168954nat, m) == 49004659509891032202751500229676310798925596453065666467032029349125585334562);
    lemma_pm_double(7, 31754056294759343642234178933909854168954nat, m);
    assert(pm(7, 63508112589518687284468357867819708337908nat, m) == 32391618748892859263421892112108352594601804421690670911290036636598982603356);
    lemma_pm_succ(7, 63508112589518687284468357867819708337908nat, m);
    assert(pm(7, 63508112589518687284468357867819708337909nat, m) == 16997830541745252926162282752014604811450420949724145088615621656438553485440);
    lemma_pm_double(7, 63508112589518687284468357867819708337909nat, m);
    assert(pm(7, 127016225179037374568936715735639416675818nat, m) == 5876769827503105729372539154374515827552196652182191972604094998740465855844);
    lemma_pm_succ(7, 127016225179037374568936715735639416675818nat, m);
    assert(pm(7, 127016225179037374568936715735639416675819nat, m) == 41137388792521740105607774080621610792865376565275343808228664991183260990908);
    lemma_pm_double(7, 127016225179037374568936715735639416675819nat, m);
    assert(pm(7, 254032450358074749137873431471278833351638nat, m) == 49095664870713909259435823868283215235967318161101321158190789718883651441579);
    lemma_pm_double(7, 254032450358074749137873431471278833351638nat, m);
    assert(pm(7, 508064900716149498275746862942557666703276nat, m) == 10547970544930057932127893400772586191849734124452245338486723360202791683638);
    lemma_pm_double(7, 508064900716149498275746862942557666703276nat, m);
    assert(pm(7, 1016129801432298996551493725885115333406552nat, m) == 17883772325507903219786200946380891058087175228466601569291032081692867457609);
    lemma_pm_double(7, 1016129801432298996551493725885115333406552nat, m);
    assert(pm(7, 2032259602864597993102987451770230666813104nat, m) == 45254479687502454764782456952880831115142393245923107318336514213448191443963);
    lemma_pm_succ(7, 2032259602864597993102987451770230666813104nat, m);
    assert(pm(7, 2032259602864597993102987451770230666813105nat, m) == 2166106761760040476790755621050022779853437718295924292733647294505853000663);
    lemma_pm_double(7, 2032259602864597993102987451770230666813105nat, m);
    assert(pm(7, 4064519205729195986205974903540461333626210nat, m) == 10470433200238023179106533246316555385257179111548133692158610737995218141067);
    lemma_pm_double(7, 4064519205729195986205974903540461333626210nat, m);
    assert(pm(7, 8129038411458391972411949807080922667252420nat, m) == 49573916093227597331252686459206828182270388377332184461145196344934208122179);
    lemma_pm_succ(7, 8129038411458391972411949807080922667252420nat, m);
    assert(pm(7, 8129038411458391972411949807080922667252421nat, m) == 32402161601836038442082362165332002249749403638159464292394422214907969748175);
    lemma_pm_double(7, 8129038411458391972411949807080922667252421nat, m);
    assert(pm(7, 16258076822916783944823899614161845334504842nat, m) == 30558278241557835191586020017602431342820482627037169747849424563322621473852);
    lemma_pm_succ(7, 16258076822916783944823899614161845334504842nat, m);
    assert(pm(7, 16258076822916783944823899614161845334504843nat, m) == 4164446990400084423311178090473156048981168387149636944531337143504025578912);
    lemma_pm_double(7, 16258076822916783944823899614161845334504843nat, m);
    assert(pm(7, 32516153645833567889647799228323690669009686nat, m) == 36871715891643990970522687554682629585248373901259545923937321009408981758655);
    lemma_pm_succ(7, 32516153645833567889647799228323690669009686nat, m);
    assert(pm(7, 32516153645833567889647799228323690669009687nat, m) == 48358510541003174875867850850034543745976407306706270177146612266108547572533);
    lemma_pm_double(7, 32516153645833567889647799228323690669009687nat, m);
    assert(pm(7, 65032307291667135779295598456647381338019374nat, m) == 1776761430001721124584640092546525560053900314521771504508287700680114647604);
    lemma_pm_succ(7, 65032307291667135779295598456647381338019374nat, m);
    assert(pm(7, 65032307291667135779295598456647381338019375nat, m) == 12437330010012047872092480647825678920377302201652400531558013904760802533228);
    lemma_pm_double(7, 65032307291667135779295598456647381338019375nat, m);
    assert(pm(7, 130064614583334271558591196913294762676038750nat, m) == 29749574687583860725165454262150131900832045514804715372840321798176509838466);
    lemma_pm_double(7, 130064614583334271558591196913294762676038750nat, m);
    assert(pm(7, 260129229166668543117182393826589525352077500nat, m) == 39011269526769262266427291796133795110707760712245020213630204010787215462663);
    lemma_pm_double(7, 260129229166668543117182393826589525352077500nat, m);
    assert(pm(7, 520258458333337086234364787653179050704155000nat, m) == 216104103213145772495413294614078869112841964585379759887533373198924244375);
    lemma_pm_double(7, 520258458333337086234364787653179050704155000nat, m);
    assert(pm(7, 1040516916666674172468729575306358101408310000nat, m) == 12075256673287694498209929620852973491630761212062998027963316524294005928436);
    lemma_pm_double(7, 1040516916666674172468729575306358101408310000nat, m);
    assert(pm(7, 2081033833333348344937459150612716202816620000nat, m) == 49676981526676740249732143038558115694072331579056006322121393128001241008482);
    lemma_pm_succ(7, 2081033833333348344937459150612716202816620000nat, m);
    assert(pm(7, 2081033833333348344937459150612716202816620001nat, m) == 33123619635980038871438558220791014832363006050226217319227799696377199952296);
    lemma_pm_double(7, 2081033833333348344937459150612716202816620001nat, m);
    assert(pm(7, 4162067666666696689874918301225432405633240002nat, m) == 48346685026372947420522881629470057591201537198632358163685934974794176339380);
    lemma_pm_double(7, 4162067666666696689874918301225432405633240002nat, m);
    assert(pm(7, 8324135333333393379749836602450864811266480004nat, m) == 51660762480545748509021499758208887561685177405167073668741863000681524341744);
    lemma_pm_succ(7, 8324135333333393379749836602450864811266480004nat, m);
    assert(pm(7, 8324135333333393379749836602450864811266480005nat, m) == 47010086313063096686464055258346417905652926833003688745571088805139183285130);
    lemma_pm_double(7, 8324135333333393379749836602450864811266480005nat, m);
    assert(pm(7, 16648270666666786759499673204901729622532960010nat, m) == 18450610242931397115982471644802194814846703770383805937171943044781908022973);
    lemma_pm_double(7, 16648270666666786759499673204901729622532960010nat, m);
    assert(pm(7, 33296541333333573518999346409803459245065920020nat, m) == 52026118416990778834160521700432073937918311998947601529739564455029888654931);
    lemma_pm_double(7, 33296541333333573518999346409803459245065920020nat, m);
    assert(pm(7, 66593082666667147037998692819606918490131840040nat, m) == 22892769956798998685619984656980010417159023320124886975747329560311371839409);
    lemma_pm_double(7, 66593082666667147037998692819606918490131840040nat, m);
    assert(pm(7, 133186165333334294075997385639213836980263680080nat, m) == 10078970009113542395130411576845220951854541794381389667170482765977392847879);
    lemma_pm_succ(7, 133186165333334294075997385639213836980263680080nat, m);
    assert(pm(7, 133186165333334294075997385639213836980263680081nat, m) == 18116914888668606286465140529730580825291240060142089847589720661903168750640);
    lemma_pm_double(7, 133186165333334294075997385639213836980263680081nat, m);
    assert(pm(7, 266372330666668588151994771278427673960527360162nat, m) == 42218367110427771545480116271356896876575722402604418380965292268330860678014);
    lemma_pm_double(7, 266372330666668588151994771278427673960527360162nat, m);
    assert(pm(7, 532744661333337176303989542556855347921054720324nat, m) == 18282622032499507244210882313542451890822250655934248227263576651339930169178);
    lemma_pm_succ(7, 532744661333337176303989542556855347921054720324nat, m);
    assert(pm(7, 532744661333337176303989542556855347921054720325nat, m) == 23106603877244169750580695178425231560374649590484461945637719159502348815220);
    lemma_pm_double(7, 532744661333337176303989542556855347921054720325nat, m);
    assert(pm(7, 1065489322666674352607979085113710695842109440650nat, m) == 46092001070154527353253370920310321910481761758137577243657043205300393827673);
    lemma_pm_double(7, 1065489322666674352607979085113710695842109440650nat, m);
    assert(pm(7, 2130978645333348705215958170227421391684218881300nat, m) == 35290052380308534665008749798151987616604095427445585956411424705594936678963);
    lemma_pm_double(7, 2130978645333348705215958170227421391684218881300nat, m);
    assert(pm(7, 4261957290666697410431916340454842783368437762600nat, m) == 22946933640263994555265985101895448070165250980215167245981921671418102179002);
    lemma_pm_succ(7, 4261957290666697410431916340454842783368437762600nat, m);
    assert(pm(7, 4261957290666697410431916340454842783368437762601nat, m) == 3320909956469390448518674188710238978085099359923257254062475600110971699475);
    lemma_pm_double(7, 4261957290666697410431916340454842783368437762601nat, m);
    assert(pm(7, 8523914581333394820863832680909685566736875525202nat, m) == 1971162734038154869706884391784507449672002444060118115782375751410670412964);
    lemma_pm_succ(7, 8523914581333394820863832680909685566736875525202nat, m);
    assert(pm(7, 8523914581333394820863832680909685566736875525203nat, m) == 13798139138267084087948190742491552147704017108420826810476630259874692890748);
    lemma_pm_double(7, 8523914581333394820863832680909685566736875525203nat, m);
    assert(pm(7, 17047829162666789641727665361819371133473751050406nat, m) == 16601781735589883125308499426416615062759715382181809191060542367202383526164);
    lemma_pm_double(7, 17047829162666789641727665361819371133473751050406nat, m);
    assert(pm(7, 34095658325333579283455330723638742266947502100812nat, m) == 12080957384540253931432204388823515594414245880802018466146468099175747323316);
    lemma_pm_double(7, 34095658325333579283455330723638742266947502100812nat, m);
    assert(pm(7, 68191316650667158566910661447277484533895004201624nat, m) == 41434798777229374080230306663456353104199766413181596553404598097035045836978);
    lemma_pm_succ(7, 68191316650667158566910661447277484533895004201624nat, m);
    assert(pm(7, 68191316650667158566910661447277484533895004201625nat, m) == 27864215564974666164373444103264642540945602389632986760813893179552414936281);
    lemma_pm_double(7, 68191316650667158566910661447277484533895004201625nat, m);
    assert(pm(7, 136382633301334317133821322894554969067790008403250nat, m) == 17909947611171576185364967262130856298520262540262596591848971796646893000971);
    lemma_pm_succ(7, 136382633301334317133821322894554969067790008403250nat, m);
    assert(pm(7, 136382633301334317133821322894554969067790008403251nat, m) == 20497882927948652338659289818544062414260732780782900497735485176651088637771);
    lemma_pm_double(7, 136382633301334317133821322894554969067790008403251nat, m);
    assert(pm(7, 272765266602668634267642645789109938135580016806502nat, m) == 37264143670826687655041171480020319709344583083732732926885955121916858732459);
    lemma_pm_double(7, 272765266602668634267642645789109938135580016806502nat, m);
    assert(pm(7, 545530533205337268535285291578219876271160033613004nat, m) == 51586300590243606744080711568033076530632444180020757968852081991167431077496);
    lemma_pm_succ(7, 545530533205337268535285291578219876271160033613004nat, m);
    assert(pm(7, 545530533205337268535285291578219876271160033613005nat, m) == 46488853080948104331878537927115740688283794256979478846342621738540530435394);
    lemma_pm_double(7, 545530533205337268535285291578219876271160033613005nat, m);
    assert(pm(7, 1091061066410674537070570583156439752542320067226010nat, m) == 5647742691179246864037724906197586270320688497063472934860392277549498914151);
    lemma_pm_succ(7, 1091061066410674537070570583156439752542320067226010nat, m);
    assert(pm(7, 1091061066410674537070570583156439752542320067226011nat, m) == 39534198838254728048264074343383103892244819479444310544022745942846492399057);
    lemma_pm_double(7, 1091061066410674537070570583156439752542320067226011nat, m);
    assert(pm(7, 2182122132821349074141141166312879505084640134452022nat, m) == 15978078250692447098820825752855519399183081326726380379330343888733975788070);
    lemma_pm_double(7, 2182122132821349074141141166312879505084640134452022nat, m);
    assert(pm(7, 4364244265642698148282282332625759010169280268904044nat, m) == 38034163002827507992697846079139203490645768176328048063909428237102825649807);
    lemma_pm_double(7, 4364244265642698148282282332625759010169280268904044nat, m);
    assert(pm(7, 8728488531285396296564564665251518020338560537808088nat, m) == 51899822491584534605848889418052824962797571175311089660414537633154487900714);
    lemma_pm_double(7, 8728488531285396296564564665251518020338560537808088nat, m);
    assert(pm(7, 17456977062570792593129129330503036040677121075616176nat, m) == 50336288940776281406082091578094887233115285634804619249161148960651887041810);
    lemma_pm_succ(7, 17456977062570792593129129330503036040677121075616176nat, m);
    assert(pm(7, 17456977062570792593129129330503036040677121075616177nat, m) == 37738771534676826965888197997548415605663684440466507808506090524931722185592);
    lemma_pm_double(7, 17456977062570792593129129330503036040677121075616177nat, m);
    assert(pm(7, 34913954125141585186258258661006072081354242151232354nat, m) == 22947982566589954395678476282900540240567562748553761578702346700204963491063);
    lemma_pm_double(7, 34913954125141585186258258661006072081354242151232354nat, m);
    assert(pm(7, 69827908250283170372516517322012144162708484302464708nat, m) == 15266613797446185079495637596081993621486253317220132146274705406638494605217);
    lemma_pm_succ(7, 69827908250283170372516517322012144162708484302464708nat, m);
    assert(pm(7, 69827908250283170372516517322012144162708484302464709nat, m) == 1994546231870914597573982156202023675022668219485649378715620446592299867493);
    lemma_pm_double(7, 69827908250283170372516517322012144162708484302464709nat, m);
    assert(pm(7, 139655816500566340745033034644024288325416968604929418nat, m) == 14058782322515051290001067834367789794510517475942791640304278543159372527839);
    lemma_pm_succ(7, 139655816500566340745033034644024288325416968604929418nat, m);
    assert(pm(7, 139655816500566340745033034644024288325416968604929419nat, m) == 45975601082479168550559734332388562723883069831071903659526291102177026510360);
    lemma_pm_double(7, 139655816500566340745033034644024288325416968604929419nat, m);
    assert(pm(7, 279311633001132681490066069288048576650833937209858838nat, m) == 8715077941245558208585386981905755359102618172758072042807531979929820986089);
    lemma_pm_double(7, 279311633001132681490066069288048576650833937209858838nat, m);
    assert(pm(7, 558623266002265362980132138576097153301667874419717676nat, m) == 4060642722382267016293424970271454570522099615982151795697004223928153823881);
    lemma_pm_succ(7, 558623266002265362980132138576097153301667874419717676nat, m);
    assert(pm(7, 558623266002265362980132138576097153301667874419717677nat, m) == 28424499056675869114053974791900181993654697311875062569879029567497076767167);
    lemma_pm_double(7, 558623266002265362980132138576097153301667874419717677nat, m);
    assert(pm(7, 1117246532004530725960264277152194306603335748839435354nat, m) == 3122948760957263716727191780849553659654478658414816760414789254437593699217);
    lemma_pm_double(7, 1117246532004530725960264277152194306603335748839435354nat, m);
    assert(pm(7, 2234493064009061451920528554304388613206671497678870708nat, m) == 14311670237408344972484714954719525714951836944703760838368490801421427467231);
    lemma_pm_double(7, 2234493064009061451920528554304388613206671497678870708nat, m);
    assert(pm(7, 4468986128018122903841057108608777226413342995357741416nat, m) == 5044666731808235879362128547176107028899734353612689821215242901420656889036);
    lemma_pm_succ(7, 4468986128018122903841057108608777226413342995357741416nat, m);
    assert(pm(7, 4468986128018122903841057108608777226413342995357741417nat, m) == 35312667122657651155534899830232749202298140475288828748506700309944598223252);
    lemma_pm_double(7, 4468986128018122903841057108608777226413342995357741417nat, m);
    assert(pm(7, 8937972256036245807682114217217554452826685990715482834nat, m) == 22179156502926216254882040883739120590921513958339163814564253504474311714916);
    lemma_pm_double(7, 8937972256036245807682114217217554452826685990715482834nat, m);
    assert(pm(7, 17875944512072491615364228434435108905653371981430965668nat, m) == 45792807816851346551437121495659749595884240704671790576325258868378167437538);
    lemma_pm_double(7, 17875944512072491615364228434435108905653371981430965668nat, m);
    assert(pm(7, 35751889024144983230728456868870217811306743962861931336nat, m) == 21711069804655317749116861155023260791475161744363209003906262238589983522593);
    lemma_pm_double(7, 35751889024144983230728456868870217811306743962861931336nat, m);
    assert(pm(7, 71503778048289966461456913737740435622613487925723862672nat, m) == 17278437211583198188250145591580963415904240975162256676568086620573418831056);
    lemma_pm_double(7, 71503778048289966461456913737740435622613487925723862672nat, m);
    assert(pm(7, 143007556096579932922913827475480871245226975851447725344nat, m) == 13522932423306196451681907012416285709693121880281567043789833682820574795455);
    lemma_pm_double(7, 143007556096579932922913827475480871245226975851447725344nat, m);
    assert(pm(7, 286015112193159865845827654950961742490453951702895450688nat, m) == 52202669491732021256406462768410926764257265814000111942564144312126162179518);
    lemma_pm_succ(7, 286015112193159865845827654950961742490453951702895450688nat, m);
    assert(pm(7, 286015112193159865845827654950961742490453951702895450689nat, m) == 50803435391367005918158796329760692323657545694834956662327057985251648149548);
    lemma_pm_double(7, 286015112193159865845827654950961742490453951702895450689nat, m);
    assert(pm(7, 572030224386319731691655309901923484980907903405790901378nat, m) == 40919418991828510887011697860963891664324114530299285732655028898222920111138);
    lemma_pm_double(7, 572030224386319731691655309901923484980907903405790901378nat, m);
    assert(pm(7, 1144060448772639463383310619803846969961815806811581802756nat, m) == 38642257870430988274121229856291114861791122680898926028534987396832631769085);
    lemma_pm_succ(7, 1144060448772639463383310619803846969961815806811581802756nat, m);
    assert(pm(7, 1144060448772639463383310619803846969961815806811581802757nat, m) == 8316429217385965521609906453107974844085096263654293086726618278135516461030);
    lemma_pm_double(7, 1144060448772639463383310619803846969961815806811581802757nat, m);
    assert(pm(7, 2288120897545278926766621239607693939923631613623163605514nat, m) == 19914659930871134212638052236515032200432317194436047123956658821509794078432);
    lemma_pm_double(7, 2288120897545278926766621239607693939923631613623163605514nat, m);
    assert(pm(7, 4576241795090557853533242479215387879847263227246327211028nat, m) == 7684888162420991788922153981210565835642816465854477710687733032332260322375);
    lemma_pm_double(7, 4576241795090557853533242479215387879847263227246327211028nat, m);
    assert(pm(7, 9152483590181115707066484958430775759694526454492654422056nat, m) == 18725984776076769066844223423924801897651686817264157335490832239755273732822);
    lemma_pm_double(7, 9152483590181115707066484958430775759694526454492654422056nat, m);
    assert(pm(7, 18304967180362231414132969916861551519389052908985308844112nat, m) == 40511234976329839936648776876444238858462844599036113600063738505021755123744);
    lemma_pm_double(7, 18304967180362231414132969916861551519389052908985308844112nat, m);
    assert(pm(7, 36609934360724462828265939833723103038778105817970617688224nat, m) == 39118816396016196200882653707794328932069514536538780574682418454410863390092);
    lemma_pm_double(7, 36609934360724462828265939833723103038778105817970617688224nat, m);
    assert(pm(7, 73219868721448925656531879667446206077556211635941235376448nat, m) == 33683104841471483059357097245031493390461029979044769031117648221934181518216);
    lemma_pm_double(7, 73219868721448925656531879667446206077556211635941235376448nat, m);
    assert(pm(7, 146439737442897851313063759334892412155112423271882470752896nat, m) == 786913113233601059581723922492525596565896719780521354853714646529536945273);
    lemma_pm_double(7, 146439737442897851313063759334892412155112423271882470752896nat, m);
    assert(pm(7, 292879474885795702626127518669784824310224846543764941505792nat, m) == 12788877945924115083394288499461536859027179708377708054937477929118067971278);
    lemma_pm_succ(7, 292879474885795702626127518669784824310224846543764941505792nat, m);
    assert(pm(7, 292879474885795702626127518669784824310224846543764941505793nat, m) == 37086270446342615104312278988044792175499705458116318561958686803887894614433);
    lemma_pm_double(7, 292879474885795702626127518669784824310224846543764941505793nat, m);
    assert(pm(7, 585758949771591405252255037339569648620449693087529883011586nat, m) == 33135784373609593282290483129260855767663616537743341576498824673028525137869);
    lemma_pm_double(7, 585758949771591405252255037339569648620449693087529883011586nat, m);
    assert(pm(7, 1171517899543182810504510074679139297240899386175059766023172nat, m) == 34378760802120510199710051226906636691098990356557707190942096338309032987388);
    lemma_pm_succ(7, 1171517899543182810504510074679139297240899386175059766023172nat, m);
    assert(pm(7, 1171517899543182810504510074679139297240899386175059766023173nat, m) == 30907824914338809480179396555602593486930722493793399046180039568408906173664);
    lemma_pm_double(7, 1171517899543182810504510074679139297240899386175059766023173nat, m);
    assert(pm(7, 2343035799086365621009020149358278594481798772350119532046346nat, m) == 25707127806746906163397453889775125886436457898694511918715623309739056830800);
    lemma_pm_succ(7, 2343035799086365621009020149358278594481798772350119532046346nat, m);
    assert(pm(7, 2343035799086365621009020149358278594481798772350119532046347nat, m) == 22642269121849771705438955703867983691983547789278669963198387068357654262061);
    lemma_pm_double(7, 2343035799086365621009020149358278594481798772350119532046347nat, m);
    assert(pm(7, 4686071598172731242018040298716557188963597544700239064092694nat, m) == 13491362400721088948042815988492767510263922471872515609188869611153576846);
    lemma_pm_succ(7, 4686071598172731242018040298716557188963597544700239064092694nat, m);
    assert(pm(7, 4686071598172731242018040298716557188963597544700239064092695nat, m) == 94439536805047622636299711919449372571847457303107609264322087278075037922);
    lemma_pm_double(7, 4686071598172731242018040298716557188963597544700239064092695nat, m);
    assert(pm(7, 9372143196345462484036080597433114377927195089400478128185390nat, m) == 2530545683526881660694424786664000343809020915896301004139453769716221362153);
    lemma_pm_succ(7, 9372143196345462484036080597433114377927195089400478128185390nat, m);
    assert(pm(7, 9372143196345462484036080597433114377927195089400478128185391nat, m) == 17713819784688171624860973506648002406663146411274107028976176388013549535071);
    lemma_pm_double(7, 9372143196345462484036080597433114377927195089400478128185391nat, m);
    assert(pm(7, 18744286392690924968072161194866228755854390178800956256370782nat, m) == 7867451755025821066394415748841195065267818238702004424753423849427240097778);
    lemma_pm_double(7, 18744286392690924968072161194866228755854390178800956256370782nat, m);
    assert(pm(7, 37488572785381849936144322389732457511708780357601912512741564nat, m) == 515136116001861069719137985745048857026652594845421004109932933172325688913);
    lemma_pm_succ(7, 37488572785381849936144322389732457511708780357601912512741564nat, m);
    assert(pm(7, 37488572785381849936144322389732457511708780357601912512741565nat, m) == 3605952812013027488033965900215341999186568163917947028769530532206279822391);
    lemma_pm_double(7, 37488572785381849936144322389732457511708780357601912512741565nat, m);
    assert(pm(7, 74977145570763699872288644779464915023417560715203825025483130nat, m) == 31354844200466916434151786432591601191176906008855485538735039295970532771915);
    lemma_pm_succ(7, 74977145570763699872288644779464915023417560715203825025483130nat, m);
    assert(pm(7, 74977145570763699872288644779464915023417560715203825025483131nat, m) == 9740408702763653121271542995397344987476132059877847480730640272039404665353);
    lemma_pm_double(7, 74977145570763699872288644779464915023417560715203825025483131nat, m);
    assert(pm(7, 149954291141527399744577289558929830046835121430407650050966262nat, m) == 633186887870322569895017290825645213449237093224462784401524152572128775832);
    lemma_pm_succ(7, 149954291141527399744577289558929830046835121430407650050966262nat, m);
    assert(pm(7, 149954291141527399744577289558929830046835121430407650050966263nat, m) == 4432308215092257989265121035779516494144659652571239490810669068004901430824);
    lemma_pm_double(7, 149954291141527399744577289558929830046835121430407650050966263nat, m);
    assert(pm(7, 299908582283054799489154579117859660093670242860815300101932526nat, m) == 47016601666857559579330183035063996293396918834353820007886337917987441822476);
    lemma_pm_succ(7, 299908582283054799489154579117859660093670242860815300101932526nat, m);
    assert(pm(7, 299908582283054799489154579117859660093670242860815300101932527nat, m) == 14500960617245774178624838196332179027635116837310913119582413226280605650254);
    lemma_pm_double(7, 299908582283054799489154579117859660093670242860815300101932527nat, m);
    assert(pm(7, 599817164566109598978309158235719320187340485721630600203865054nat, m) == 6293708739762522828826324636714393130613471975831689157223206992723738914086);
    lemma_pm_succ(7, 599817164566109598978309158235719320187340485721630600203865054nat, m);
    assert(pm(7, 599817164566109598978309158235719320187340485721630600203865055nat, m) == 44055961178337659801784272457000751914294303830821824100562448949066172398602);
    lemma_pm_double(7, 599817164566109598978309158235719320187340485721630600203865055nat, m);
    assert(pm(7, 1199634329132219197956618316471438640374680971443261200407730110nat, m) == 42065696746906562034006731987491517783544365324813345313760057140804047266405);
    lemma_pm_succ(7, 1199634329132219197956618316471438640374680971443261200407730110nat, m);
    assert(pm(7, 1199634329132219197956618316471438640374680971443261200407730111nat, m) == 32280501352714981840808421371510795296357794771055228083302106485935424942270);
    lemma_pm_double(7, 1199634329132219197956618316471438640374680971443261200407730111nat, m);
    assert(pm(7, 2399268658264438395913236632942877280749361942886522400815460222nat, m) == 17501636813366264693023961342197253339458809407309861167522890391667336919013);
    lemma_pm_double(7, 2399268658264438395913236632942877280749361942886522400815460222nat, m);
    assert(pm(7, 4798537316528876791826473265885754561498723885773044801630920444nat, m) == 47675354665027114793638999181798102482990425883294179652274928514156380942195);
    lemma_pm_double(7, 4798537316528876791826473265885754561498723885773044801630920444nat, m);
    assert(pm(7, 9597074633057753583652946531771509122997447771546089603261840888nat, m) == 12447640159862641025019085631140030051096894386683403922825388541212180490682);
    lemma_pm_double(7, 9597074633057753583652946531771509122997447771546089603261840888nat, m);
    assert(pm(7, 19194149266115507167305893063543018245994895543092179206523681776nat, m) == 13127042983632600679575558711986595672443791597244443746237004999576229312923);
    lemma_pm_double(7, 19194149266115507167305893063543018245994895543092179206523681776nat, m);
    assert(pm(7, 38388298532231014334611786127086036491989791086184358413047363552nat, m) == 4925010131026833750505197614100744556436947805571378589843188224546955982214);
    lemma_pm_double(7, 38388298532231014334611786127086036491989791086184358413047363552nat, m);
    assert(pm(7, 76776597064462028669223572254172072983979582172368716826094727104nat, m) == 6175086478800358697412779640904506212763367809110292171307558584022160990909);
    lemma_pm_double(7, 76776597064462028669223572254172072983979582172368716826094727104nat, m);
    assert(pm(7, 153553194128924057338447144508344145967959164344737433652189454208nat, m) == 30356342279996465304777569907699060378279584878051111560392601762991593360106);
    lemma_pm_double(7, 153553194128924057338447144508344145967959164344737433652189454208nat, m);
    assert(pm(7, 307106388257848114676894289016688291935918328689474867304378908416nat, m) == 21878217778567049190222508889538336726678752963289870604780105963116656259398);
    lemma_pm_double(7, 307106388257848114676894289016688291935918328689474867304378908416nat, m);
    assert(pm(7, 614212776515696229353788578033376583871836657378949734608757816832nat, m) == 40295125074002394826612346060741317117722732642501156807693008886068354307778);
    lemma_pm_double(7, 614212776515696229353788578033376583871836657378949734608757816832nat, m);
    assert(pm(7, 1228425553031392458707577156066753167743673314757899469217515633664nat, m) == 14604251339625618408305428411760635597485547884877331427888855364118515974072);
    lemma_pm_double(7, 1228425553031392458707577156066753167743673314757899469217515633664nat, m);
    assert(pm(7, 2456851106062784917415154312133506335487346629515798938435031267328nat, m) == 40789009223085241185784152782017213318335025478986053428716322167376067854128);
    lemma_pm_double(7, 2456851106062784917415154312133506335487346629515798938435031267328nat, m);
    assert(pm(7, 4913702212125569834830308624267012670974693259031597876870062534656nat, m) == 8272814091507888068933504045610881506063912399973607490867298747197367356962);
    lemma_pm_double(7, 4913702212125569834830308624267012670974693259031597876870062534656nat, m);
    assert(pm(7, 9827404424251139669660617248534025341949386518063195753740125069312nat, m) == 16231012649894216846087056831298460346675406423408866131477017647006116880866);
    lemma_pm_double(7, 9827404424251139669660617248534025341949386518063195753740125069312nat, m);
    assert(pm(7, 19654808848502279339321234497068050683898773036126391507480250138624nat, m) == 46078219447961387842392340577811691385783207533794319864004579285345042105730);
    lemma_pm_double(7, 19654808848502279339321234497068050683898773036126391507480250138624nat, m);
    assert(pm(7, 39309617697004558678642468994136101367797546072252783014960500277248nat, m) == 5479160893577445433321666559339307096690200279567766325147547274640826765664);
    lemma_pm_double(7, 39309617697004558678642468994136101367797546072252783014960500277248nat, m);
    assert(pm(7, 78619235394009117357284937988272202735595092144505566029921000554496nat, m) == 43949000880735083232179421549180216919632953119906356835553673641109003590845);
    lemma_pm_double(7, 78619235394009117357284937988272202735595092144505566029921000554496nat, m);
    assert(pm(7, 157238470788018234714569875976544405471190184289011132059842001108992nat, m) == 4796841283268415140764405044205331757455822892058653251055715410091802214717);
    lemma_pm_double(7, 157238470788018234714569875976544405471190184289011132059842001108992nat, m);
    assert(pm(7, 314476941576036469429139751953088810942380368578022264119684002217984nat, m) == 42946927028799729936357911809839840754581252298646828771334488531323109606315);
    lemma_pm_double(7, 314476941576036469429139751953088810942380368578022264119684002217984nat, m);
    assert(pm(7, 628953883152072938858279503906177621884760737156044528239368004435968nat, m) == 1516772107417006387786798317293861814538209161956732082167528253876767030549);
    lemma_pm_double(7, 628953883152072938858279503906177621884760737156044528239368004435968nat, m);
    assert(pm(7, 1257907766304145877716559007812355243769521474312089056478736008871936nat, m) == 20145754322845989542065653547068714587922725036173918015001365050604349544585);
    lemma_pm_double(7, 1257907766304145877716559007812355243769521474312089056478736008871936nat, m);
    assert(pm(7, 2515815532608291755433118015624710487539042948624178112957472017743872nat, m) == 34415332177550572820465019456088653302446843654104601216436520031731780982195);
    lemma_pm_double(7, 2515815532608291755433118015624710487539042948624178112957472017743872nat, m);
    assert(pm(7, 5031631065216583510866236031249420975078085897248356225914944035487744nat, m) == 44183753815750008461508138127682298434122335882516206593367867750274845634990);
    lemma_pm_double(7, 5031631065216583510866236031249420975078085897248356225914944035487744nat, m);
    assert(pm(7, 10063262130433167021732472062498841950156171794496712451829888070975488nat, m) == 17206597617171239138746303758048519407284537634241467568741043954230096160279);
    lemma_pm_double(7, 10063262130433167021732472062498841950156171794496712451829888070975488nat, m);
    assert(pm(7, 20126524260866334043464944124997683900312343588993424903659776141950976nat, m) == 44310907799060584800942169243098441873590425850096037125196543607541631577677);
    lemma_pm_double(7, 20126524260866334043464944124997683900312343588993424903659776141950976nat, m);
    assert(pm(7, 40253048521732668086929888249995367800624687177986849807319552283901952nat, m) == 50665300625994048269711679234673910641279730155967780087321918466018615111056);
    lemma_pm_double(7, 40253048521732668086929888249995367800624687177986849807319552283901952nat, m);
    assert(pm(7, 80506097043465336173859776499990735601249374355973699614639104567803904nat, m) == 9300053976632313709750441154420650335107398228559226421805011340323644334829);
    lemma_pm_double(7, 80506097043465336173859776499990735601249374355973699614639104567803904nat, m);
    assert(pm(7, 161012194086930672347719552999981471202498748711947399229278209135607808nat, m) == 49033089089596050186970231542093061198151937871060847387455939553591022424627);
    lemma_pm_double(7, 161012194086930672347719552999981471202498748711947399229278209135607808nat, m);
    assert(pm(7, 322024388173861344695439105999962942404997497423894798458556418271215616nat, m) == 1168877901934520119031290584542857937145726564222263878257185750456916496721);
    lemma_pm_double(7, 322024388173861344695439105999962942404997497423894798458556418271215616nat, m);
    assert(pm(7, 644048776347722689390878211999925884809994994847789596917112836542431232nat, m) == 30340115034726943820288309036202217149487856114826382742231119794590732628897);
    lemma_pm_double(7, 644048776347722689390878211999925884809994994847789596917112836542431232nat, m);
    assert(pm(7, 1288097552695445378781756423999851769619989989695579193834225673084862464nat, m) == 12361567233736171960183368907160809382672948676696542719175808429606185915020);
    lemma_pm_double(7, 1288097552695445378781756423999851769619989989695579193834225673084862464nat, m);
    assert(pm(7, 2576195105390890757563512847999703539239979979391158387668451346169724928nat, m) == 20523390809451014567356442490820853093316869220637583678839032616060039472989);
    lemma_pm_double(7, 2576195105390890757563512847999703539239979979391158387668451346169724928nat, m);
    assert(pm(7, 5152390210781781515127025695999407078479959958782316775336902692339449856nat, m) == 12994404728900834985293533771030346015740262791642084609331205164292017613753);
}

/// `7^417725869136729074059347714102830194601086240414633009811464136798765056 mod 52435875175126190479447740508185965837690552500527637822603658699938581184513`.
proof fn lemma_pow_52435875175126190479447740508185965837690552500527637822603658699938581184513_by_125527()
    ensures
        pm(7, 417725869136729074059347714102830194601086240414633009811464136798765056nat, fr_modulus() as int) == 27966497065103907670110754930460859429183346056121669143369624627650089262159,
{
    let m: int = fr_modulus() as int;
    lemma_pm_one(7, m);
    lemma_pm_double(7, 1nat, m);
    assert(pm(7, 2nat, m) == 49);
    lemma_pm_succ(7, 2nat, m);
    assert(pm(7, 3nat, m) == 343);
    lemma_pm_double(7, 3nat, m);
    assert(pm(7, 6nat, m) == 117649);
    lemma_pm_succ(7, 6nat, m);
    assert(pm(7, 7nat, m) == 823543);
    lemma_pm_double(7, 7nat, m);
    assert(pm(7, 14nat, m) == 678223072849);
    lemma_pm_succ(7, 14nat, m);
    assert(pm(7, 15nat, m) == 4747561509943);
    lemma_pm_double(7, 15nat, m);
    assert(pm(7, 30nat, m) == 22539340290692258087863249);
    lemma_pm_double(7, 30nat, m);
    assert(pm(7, 60nat, m) == 508021860739623365322188197652216501772434524836001);
    lemma_pm_double(7, 60nat, m);
    assert(pm(7, 120nat, m) == 42749479959749743757579232342732789660095980342320277868558910804426111816715);
    lemma_pm_succ(7, 120nat, m);
    assert(pm(7, 121nat, m) == 37066983842617253905815923858199698432219099893603755966894082131289876794440);
    lemma_pm_double(7, 121nat, m);
    assert(pm(7, 242nat, m) == 45062131021071477585603039536735187869784581269393661023041392570913183721649);
    lemma_pm_double(7, 242nat, m);
    assert(pm(7, 484nat, m) == 15968235755599646940887627221236792447410180329348571047509927420059581369816);
    lemma_pm_double(7, 484nat, m);
    assert(pm(7, 968nat, m) == 454105423409428923009484407215659400093842395914874350281106483574009092285);
    lemma_pm_double(7, 968nat, m);
    assert(pm(7, 1936nat, m) == 27178145167667227643747325244436756134218054818020570947350097658684520152602);
    lemma_pm_double(7, 1936nat, m);
    assert(pm(7, 3872nat, m) == 42072736283975230344295562735001874785565618332355380691798141784344511375177);
    lemma_pm_succ(7, 3872nat, m);
    assert(pm(7, 3873nat, m) == 32329778112195660012830236604083294310506565823849475729568698990718673703674);
    lemma_pm_double(7, 3873nat, m);
    assert(pm(7, 7746nat, m) == 33308974544179493891972179183381020059025910869377466148813197094858710026656);
    lemma_pm_succ(7, 7746nat, m);
    assert(pm(7, 7747nat, m) == 23419321108751695326014292250923277062419166083531711751277744864256645448540);
    lemma_pm_double(7, 7747nat, m);
    assert(pm(7, 15494nat, m) == 50648486034967974840880087535302069580778143828934916568831278314426101378072);
    lemma_pm_double(7, 15494nat, m);
    assert(pm(7, 30988nat, m) == 16663889882145875304577707980272631335230664806237049845379487437484486092026);
    lemma_pm_double(7, 30988nat, m);
    assert(pm(7, 61976nat, m) == 35324604171270056903954446042066247906713030426891239239105902705703134726510);
    lemma_pm_succ(7, 61976nat, m);
    assert(pm(7, 61977nat, m) == 37528728498385636409890160261719871996229002986128123383326684140167618347518);
    lemma_pm_double(7, 61977nat, m);
    assert(pm(7, 123954nat, m) == 4909327787310853227174695416116390245694953920238400289449686842822430686819);
    lemma_pm_double(7, 123954nat, m);
    assert(pm(7, 247908nat, m) == 33362443586531835473778784129296184566029416685078748556935977031680044958947);
    lemma_pm_succ(7, 247908nat, m);
    assert(pm(7, 247909nat, m) == 23793604405218086398660526872329428611443706793440688608137204422005989974577);
    lemma_pm_double(7, 247909nat, m);
    assert(pm(7, 495818nat, m) == 14880382340638727440498977092840078458202666093321278190009542257416572430376);
    lemma_pm_double(7, 495818nat, m);
    assert(pm(7, 991636nat, m) == 14856643235267817146489373413174289935820809002487298339197283436370160030262);
    lemma_pm_double(7, 991636nat, m);
    assert(pm(7, 1983272nat, m) == 22099882366505677673444615136859397062074998844053437103163820316858067683731);
    lemma_pm_double(7, 1983272nat, m);
    assert(pm(7, 3966544nat, m) == 24155301954845694251488703270640662307440601960557868141913099190967605263143);
    lemma_pm_double(7, 3966544nat, m);
    assert(pm(7, 7933088nat, m) == 18688084516572795728292257996530640286771077861173845506295256248399904901243);
    lemma_pm_double(7, 7933088nat, m);
    assert(pm(7, 15866176nat, m) == 45501790150759032396241506101426202848138644042835808518089222025567345303495);
    lemma_pm_succ(7, 15866176nat, m);
    assert(pm(7, 15866177nat, m) == 3897280004556083897004099660867624910827193296684832691002601979339930017387);
    lemma_pm_double(7, 15866177nat, m);
    assert(pm(7, 31732354nat, m) == 38180897129799879191746884125284695385332431464972234154140857833110525673096);
    lemma_pm_double(7, 31732354nat, m);
    assert(pm(7, 63464708nat, m) == 44254981462691231973730044943219791787354413090840320216312956376909447922386);
    lemma_pm_double(7, 63464708nat, m);
    assert(pm(7, 126929416nat, m) == 48103446891209055284198351315201292112432258316872043640052812372898479973684);
    lemma_pm_succ(7, 126929416nat, m);
    assert(pm(7, 126929417nat, m) == 22108877187706244112702016157293249760882493214938478544747734410657872708710);
    lemma_pm_double(7, 126929417nat, m);
    assert(pm(7, 253858834nat, m) == 52417695529294784101685782633623332077807258439896833211504050393162528104360);
    lemma_pm_double(7, 253858834nat, m);
    assert(pm(7, 507717668nat, m) == 20989891300337943954051309812975175209833548236068276077929133828891322008520);
    lemma_pm_succ(7, 507717668nat, m);
    assert(pm(7, 507717669nat, m) == 42057488752113226719463687674454294793453732651422656900296619402362091690614);
    lemma_pm_double(7, 507717669nat, m);
    assert(pm(7, 1015435338nat, m) == 34067170991583836138833960298266540769366839723334112200590521629405002391938);
    lemma_pm_double(7, 1015435338nat, m);
    assert(pm(7, 2030870676nat, m) == 9972338703739461538375698807497124754325186098729629105811195877470037392509);
    lemma_pm_double(7, 2030870676nat, m);
    assert(pm(7, 4061741352nat, m) == 41993573574907672327414121370380541041130131409786128046090728590584779431105);
    lemma_pm_double(7, 4061741352nat, m);
    assert(pm(7, 8123482704nat, m) == 11546213718547694792504969429992858505410262779311404208839912152171439374995);
    lemma_pm_double(7, 8123482704nat, m);
    assert(pm(7, 16246965408nat, m) == 39401128674586620418185120619170994511250973667532771984067387794329307445001);
    lemma_pm_succ(7, 16246965408nat, m);
    assert(pm(7, 16246965409nat, m) == 13628524846475390530057141793267132390304053170091214775453421060612246192442);
    lemma_pm_double(7, 16246965409nat, m);
    assert(pm(7, 32493930818nat, m) == 44731183067735174119103343061041275582129538297154485464807676102085434310773);
    lemma_pm_succ(7, 32493930818nat, m);
    assert(pm(7, 32493930819nat, m) == 50938905598515266436484698886359099886454005577443209140635439214905134252846);
    lemma_pm_double(7, 32493930819nat, m);
    assert(pm(7, 64987861638nat, m) == 44130482636011278926393124442214575543347146237692154636607349962840665048150);
    lemma_pm_succ(7, 64987861638nat, m);
    assert(pm(7, 64987861639nat, m) == 46734002576448000087513168554572199614977261161206893343233156240191749414485);
    lemma_pm_double(7, 64987861639nat, m);
    assert(pm(7, 129975723278nat, m) == 38228931667020197388549175089184499349029455949202233939058273310775800250674);
    lemma_pm_succ(7, 129975723278nat, m);
    assert(pm(7, 129975723279nat, m) == 5423145793510429322605523083361666254753429141777448460389619675737695832153);
    lemma_pm_double(7, 129975723279nat, m);
    assert(pm(7, 259951446558nat, m) == 20411583570217770921465430231891881691872608559071364965844301354683021571889);
    lemma_pm_succ(7, 259951446558nat, m);
    assert(pm(7, 259951446559nat, m) == 38009334641272015491362530606871240167727154912444279115702792082903988634197);
    lemma_pm_double(7, 259951446559nat, m);
    assert(pm(7, 519902893118nat, m) == 2311463517260441612151932632338317879198693949573233120950092923796548726050);
    lemma_pm_succ(7, 519902893118nat, m);
    assert(pm(7, 519902893119nat, m) == 16180244620823091285063528426368225154390857647012631846650650466575841082350);
    lemma_pm_double(7, 519902893119nat, m);
    assert(pm(7, 1039805786238nat, m) == 3877219473002761792339977576017742596630302898540413046389107465831754929759);
    lemma_pm_double(7, 1039805786238nat, m);
    assert(pm(7, 2079611572476nat, m) == 9781242576781321692267147976322526347098977904720468925514643881025999337400);
    lemma_pm_double(7, 2079611572476nat, m);
    assert(pm(7, 4159223144952nat, m) == 33374149776079671285481380950033693333316539236197785493039705400062034594858);
    lemma_pm_succ(7, 4159223144952nat, m);
    assert(pm(7, 4159223144953nat, m) == 23875547732052937080578704617491989982453564651273947160863303000679917425954);
    lemma_pm_double(7, 4159223144953nat, m);
    assert(pm(7, 8318446289906nat, m) == 3366119126522789277785230903716562966399290848334473936718486200801080994531);
    lemma_pm_double(7, 8318446289906nat, m);
    assert(pm(7, 16636892579812nat, m) == 37550686905947436321453902263389728866509923311042704979767843271078796208658);
    lemma_pm_double(7, 16636892579812nat, m);
    assert(pm(7, 33273785159624nat, m) == 8916199383719226042275483026938118085952830989216467141690555296377744602503);
    lemma_pm_double(7, 33273785159624nat, m);
    assert(pm(7, 66547570319248nat, m) == 726585502206980130127249682355128410070066384022739306467227580740971124386);
    lemma_pm_succ(7, 66547570319248nat, m);
    assert(pm(7, 66547570319249nat, m) == 5086098515448860910890747776485898870490464688159175145270593065186797870702);
    lemma_pm_double(7, 66547570319249nat, m);
    assert(pm(7, 133095140638498nat, m) == 18951265727216137660765330903809140402460614371794642168902769660263959281431);
    lemma_pm_succ(7, 133095140638498nat, m);
    assert(pm(7, 133095140638499nat, m) == 27787109740260582666461835310292051141843195601507219537112070221970552600991);
    lemma_pm_double(7, 133095140638499nat, m);
    assert(pm(7, 266190281276998nat, m) == 670200157983649107668719219879045064867581581883001280117358540932025185596);
    lemma_pm_double(7, 266190281276998nat, m);
    assert(pm(7, 532380562553996nat, m) == 13570287902139626504187429141269875917108213364237178619727337473709926972466);
    lemma_pm_succ(7, 532380562553996nat, m);
    assert(pm(7, 532380562553997nat, m) == 42556140139851195049864263480703165582066941049132612515487703616030907622749);
    lemma_pm_double(7, 532380562553997nat, m);
    assert(pm(7, 1064761125107994nat, m) == 33934052960219225355389377793565376916121648722539205177901598413771593000793);
    lemma_pm_double(7, 1064761125107994nat, m);
    assert(pm(7, 2129522250215988nat, m) == 48152699459096707815307301356007335102475227783197879494040702347261336681445);
    lemma_pm_double(7, 2129522250215988nat, m);
    assert(pm(7, 4259044500431976nat, m) == 47460039394288176982517817819142547225549188482231995634726218771118925855483);
    lemma_pm_double(7, 4259044500431976nat, m);
    assert(pm(7, 8518089000863952nat, m) == 24354918944185143859354580565083608812037765394564956136649899778351210906430);
    lemma_pm_succ(7, 8518089000863952nat, m);
    assert(pm(7, 8518089000863953nat, m) == 13176807083917435577138842431027364171192700260371779488738322348642732791471);
    lemma_pm_double(7, 8518089000863953nat, m);
    assert(pm(7, 17036178001727906nat, m) == 27429376680992863648677965677186476708705857930750412661692143499996529546620);
    lemma_pm_succ(7, 17036178001727906nat, m);
    assert(pm(7, 17036178001727907nat, m) == 34698011241571474102402538215747439447869348013669975164034028400159963272801);
    lemma_pm_double(7, 17036178001727907nat, m);
    assert(pm(7, 34072356003455814nat, m) == 21540577253395747972638890012254121460524332366105213253548142365434702781312);
    lemma_pm_double(7, 34072356003455814nat, m);
    assert(pm(7, 68144712006911628nat, m) == 51430380910736532544787937574207752292987115360585498926053648091270395143562);
    lemma_pm_succ(7, 68144712006911628nat, m);
    assert(pm(7, 68144712006911629nat, m) == 45397415324398584936829119970338471024766492520932665546753584439261278897856);
    lemma_pm_double(7, 68144712006911629nat, m);
    assert(pm(7, 136289424013823258nat, m) == 26645918422649664470851313596239292080615764336340223042873684237871225481460);
    lemma_pm_succ(7, 136289424013823258nat, m);
    assert(pm(7, 136289424013823259nat, m) == 29213803433169079857615973649117147051238692852798647832304813565282834816681);
    lemma_pm_double(7, 136289424013823259nat, m);
    assert(pm(7, 272578848027646518nat, m) == 39264465903833219927278745272416639553116683395898334622382277174095740280358);
    lemma_pm_double(7, 272578848027646518nat, m);
    assert(pm(7, 545157696055293036nat, m) == 25209949413895149399834716376778327944587475633587810183279086727259580887048);
    lemma_pm_succ(7, 545157696055293036nat, m);
    assert(pm(7, 545157696055293037nat, m) == 19162020371887474360499793112890398099040671933531757815142630991001322655797);
    lemma_pm_double(7, 545157696055293037nat, m);
    assert(pm(7, 1090315392110586074nat, m) == 19098408482578541365271013704426569806174488505831227239737850008205398832038);
    lemma_pm_double(7, 1090315392110586074nat, m);
    assert(pm(7, 2180630784221172148nat, m) == 37836078158153262598165086960509911007667374370719339438907674888671404615586);
    lemma_pm_succ(7, 2180630784221172148nat, m);
    assert(pm(7, 2180630784221172149nat, m) == 2673171231441885789916906182639547865218858092397186959335430721006926386537);
    lemma_pm_double(7, 2180630784221172149nat, m);
    assert(pm(7, 4361261568442344298nat, m) == 30966090572192823002169796968373831912399347750828620046384241931669048360081);
    lemma_pm_double(7, 4361261568442344298nat, m);
    assert(pm(7, 8722523136884688596nat, m) == 14838667259297517172361503734752403475015428642331319313636903489534113756084);
    lemma_pm_double(7, 8722523136884688596nat, m);
    assert(pm(7, 17445046273769377192nat, m) == 14241738738188347685944239297225091234506047741294929132520965931808256995741);
    lemma_pm_succ(7, 17445046273769377192nat, m);
    assert(pm(7, 17445046273769377193nat, m) == 47256295992192243322161934572389672803851781688536866105043102822719217785674);
    lemma_pm_double(7, 17445046273769377193nat, m);
    assert(pm(7, 34890092547538754386nat, m) == 36834462415912824566866170373325789953067423444070920474302639749291083724077);
    lemma_pm_succ(7, 34890092547538754386nat, m);
    assert(pm(7, 34890092547538754387nat, m) == 48097736210885010050272230580536666320709754106385892029703843445283261330487);
    lemma_pm_double(7, 34890092547538754387nat, m);
    assert(pm(7, 69780185095077508774nat, m) == 41443247464779652372569977427838003592841295620942528647437739026025615594354);
    lemma_pm_double(7, 69780185095077508774nat, m);
    assert(pm(7, 139560370190155017548nat, m) == 12693224801914614129483058864021601493243893912593055110242653896156530353481);
    lemma_pm_double(7, 139560370190155017548nat, m);
    assert(pm(7, 279120740380310035096nat, m) == 4709923011182353341940412505232371093696349005283169343214937210680312261236);
    lemma_pm_succ(7, 279120740380310035096nat, m);
    assert(pm(7, 279120740380310035097nat, m) == 32969461078276473393582887536626597655874443036982185402504560474762185828652);
    lemma_pm_double(7, 279120740380310035097nat, m);
    assert(pm(7, 558241480760620070194nat, m) == 31016275417053121718847985808419813005094231042366533964431461719444412974295);
    lemma_pm_succ(7, 558241480760620070194nat, m);
    assert(pm(7, 558241480760620070195nat, m) == 7370427218867090114144938626194827684897407294455186460605597236356566082013);
    lemma_pm_double(7, 558241480760620070195nat, m);
    assert(pm(7, 1116482961521240140390nat, m) == 39505605814686921618287580820411921444119930714401124133469471609366511507733);
    lemma_pm_succ(7, 1116482961521240140390nat, m);
    assert(pm(7, 1116482961521240140391nat, m) == 14359864827177498930774363201953620920386752498169679821268007765872674631566);
    lemma_pm_double(7, 1116482961521240140391nat, m);
    assert(pm(7, 2232965923042480280782nat, m) == 50224636799653511961421253026467625081082480777850918581262753606504837160100);
    lemma_pm_double(7, 2232965923042480280782nat, m);
    assert(pm(7, 4465931846084960561564nat, m) == 4531524205107174320085620911571519164113473339401105828465824739345221961582);
    lemma_pm_succ(7, 4465931846084960561564nat, m);
    assert(pm(7, 4465931846084960561565nat, m) == 31720669435750220240599346381000634148794313375807740799260773175416553731074);
    lemma_pm_double(7, 4465931846084960561565nat, m);
    assert(pm(7, 8931863692169921123130nat, m) == 50924720530978162913666203043656744347862752098776061926134707724609236411877);
    lemma_pm_succ(7, 8931863692169921123130nat, m);
    assert(pm(7, 8931863692169921123131nat, m) == 41857792666089997518976978256481415408895949688266606547321001872633167776061);
    lemma_pm_double(7, 8931863692169921123131nat, m);
    assert(pm(7, 17863727384339842246262nat, m) == 24610702604000614385873522084236914899827785438256542842790640802801024968868);
    lemma_pm_succ(7, 17863727384339842246262nat, m);
    assert(pm(7, 17863727384339842246263nat, m) == 14967292702625729262771433065100506785722840566212886431723509519791431228537);
    lemma_pm_double(7, 17863727384339842246263nat, m);
    assert(pm(7, 35727454768679684492526nat, m) == 17055552307404995537503888627881310611540706297634226273978991841850362374080);
    lemma_pm_succ(7, 35727454768679684492526nat, m);
    assert(pm(7, 35727454768679684492527nat, m) == 14517115801582587803631739378797242605403839082384308272645625493075374249534);
    lemma_pm_double(7, 35727454768679684492527nat, m);
    assert(pm(7, 71454909537359368985054nat, m) == 6492764776853739334962011146994458508714686387305968495498723899041818223212);
    lemma_pm_double(7, 71454909537359368985054nat, m);
    assert(pm(7, 142909819074718737970108nat, m) == 11702658635220783173193498639280623901966802031672893633046207867763040638199);
    lemma_pm_succ(7, 142909819074718737970108nat, m);
    assert(pm(7, 142909819074718737970109nat, m) == 29482735271419291732906749966778401476077061721182617608719796374402703282880);
    lemma_pm_double(7, 142909819074718737970109nat, m);
    assert(pm(7, 285819638149437475940218nat, m) == 45611762684412794847913291800330512129955724583026965064145780896539540643481);
    lemma_pm_double(7, 285819638149437475940218nat, m);
    assert(pm(7, 571639276298874951880436nat, m) == 8017331670697103562330516597605643407126996121932277114313425424644046762565);
    lemma_pm_succ(7, 571639276298874951880436nat, m);
    assert(pm(7, 571639276298874951880437nat, m) == 3685446519753534456865875675053538012198420352998301977590319272569746153442);
    lemma_pm_double(7, 571639276298874951880437nat, m);
    assert(pm(7, 1143278552597749903760874nat, m) == 18055699494919133455662262526681700679726639038087732548412408737174516392982);
    lemma_pm_double(7, 1143278552597749903760874nat, m);
    assert(pm(7, 2286557105195499807521748nat, m) == 4395860234214284629843589673677954095657194262731404638006115312221148431627);
    lemma_pm_double(7, 2286557105195499807521748nat, m);
    assert(pm(7, 4573114210390999615043496nat, m) == 29586686278565835680905734148791685740748262889696841960666922857064739882192);
    lemma_pm_succ(7, 4573114210390999615043496nat, m);
    assert(pm(7, 4573114210390999615043497nat, m) == 49799178424582278327996917516983902672166182726294980256857483899637435621805);
    lemma_pm_double(7, 4573114210390999615043497nat, m);
    assert(pm(7, 9146228420781999230086994nat, m) == 20193238680488976572397755112316599107889883441376167235082010520694467921363);
    lemma_pm_succ(7, 9146228420781999230086994nat, m);
    assert(pm(7, 9146228420781999230086995nat, m) == 36480920413170455047888804769844262079848079088577895000366756244984113080515);
    lemma_pm_double(7, 9146228420781999230086995nat, m);
    assert(pm(7, 18292456841563998460173990nat, m) == 30236700913703240296309118561264696125089253865640954386644985163892989445735);
    lemma_pm_double(7, 18292456841563998460173990nat, m);
    assert(pm(7, 36584913683127996920347980nat, m) == 29100126724386978110589115457353301336041925615436667036973716202496392495774);
    lemma_pm_succ(7, 36584913683127996920347980nat, m);
    assert(pm(7, 36584913683127996920347981nat, m) == 46393261545330275335780586676915211839221821806473755791005037317659003916879);
    lemma_pm_double(7, 36584913683127996920347981nat, m);
    assert(pm(7, 73169827366255993840695962nat, m) == 26500831735298010746407617317339961680405420095587068863392700157161358688125);
    lemma_pm_succ(7, 73169827366255993840695962nat, m);
    assert(pm(7, 73169827366255993840695963nat, m) == 28198196621707503786510099696821834249766283167526568575937925000313767263336);
    lemma_pm_double(7, 73169827366255993840695963nat, m);
    assert(pm(7, 146339654732511987681391926nat, m) == 49296425897034486775392222987647328299471450470159059007425197868245579432763);
    lemma_pm_double(7, 146339654732511987681391926nat, m);
    assert(pm(7, 292679309465023975362783852nat, m) == 32148723011811954781835531582337673508397946274434199191300076513536835100722);
    lemma_pm_succ(7, 292679309465023975362783852nat, m);
    assert(pm(7, 292679309465023975362783853nat, m) == 15297560382178921555057759043619851208023413918928843048685900795003520967002);
    lemma_pm_double(7, 292679309465023975362783853nat, m);
    assert(pm(7, 585358618930047950725567706nat, m) == 44583042578283583510164614481723960105308462342413685931390180400001002415922);
    lemma_pm_double(7, 585358618930047950725567706nat, m);
    assert(pm(7, 1170717237860095901451135412nat, m) == 187153716404519300329788678274913228141626620947642250751367531097859590592);
    lemma_pm_succ(7, 1170717237860095901451135412nat, m);
    assert(pm(7, 1170717237860095901451135413nat, m) == 1310076014831635102308520747924392596991386346633495755259572717685017134144);
    lemma_pm_double(7, 1170717237860095901451135413nat, m);
    assert(pm(7, 2341434475720191802902270826nat, m) == 50650138252158025044009460583505344307044293795249487341232143567507026374472);
    lemma_pm_succ(7, 2341434475720191802902270826nat, m);
    assert(pm(7, 2341434475720191802902270827nat, m) == 39935716714349032431379781035421615123166741563580584453003052772917697514226);
    lemma_pm_double(7, 2341434475720191802902270827nat, m);
    assert(pm(7, 4682868951440383605804541654nat, m) == 19528184809649883083661016160180539116381967451940125783518639615488391367483);
    lemma_pm_double(7, 4682868951440383605804541654nat, m);
    assert(pm(7, 9365737902880767211609083308nat, m) == 6035134462092068277001711066605984409415821569725120427223625871482084697677);
    lemma_pm_succ(7, 9365737902880767211609083308nat, m);
    assert(pm(7, 9365737902880767211609083309nat, m) == 42245941234644477939011977466241890865910750988075842990565381100374592883739);
    lemma_pm_double(7, 9365737902880767211609083309nat, m);
    assert(pm(7, 18731475805761534423218166618nat, m) == 33999726414937645108755258150603328629366051774193615750658044021129111229677);
    lemma_pm_succ(7, 18731475805761534423218166618nat, m);
    assert(pm(7, 18731475805761534423218166619nat, m) == 28254584204058753843495845021479437054800152417244758964191673348149453869687);
    lemma_pm_double(7, 18731475805761534423218166619nat, m);
    assert(pm(7, 37462951611523068846436333238nat, m) == 11409151605218611318252819919028751667251271712286523529366266715002474121154);
    lemma_pm_succ(7, 37462951611523068846436333238nat, m);
    assert(pm(7, 37462951611523068846436333239nat, m) == 27428186061404088748321998925015295833068349485478026882960208305078737663565);
    lemma_pm_double(7, 37462951611523068846436333239nat, m);
    assert(pm(7, 74925903223046137692872666478nat, m) == 30457804854426593277815899311151854432954742073896245045521931785032536925403);
    lemma_pm_double(7, 74925903223046137692872666478nat, m);
    assert(pm(7, 149851806446092275385745332956nat, m) == 32733890956740432854081541918500756623151719966880638597822199701588583746201);
    lemma_pm_double(7, 149851806446092275385745332956nat, m);
    assert(pm(7, 299703612892184550771490665912nat, m) == 28283336147816474177358748639250171225519931845619262475522093579276177787909);
    lemma_pm_double(7, 299703612892184550771490665912nat, m);
    assert(pm(7, 599407225784369101542981331824nat, m) == 43212889636857371481483377222093756357356866713851644983140221530738676167984);
    lemma_pm_succ(7, 599407225784369101542981331824nat, m);
    assert(pm(7, 599407225784369101542981331825nat, m) == 40310851582370647973144938013726465313045304494323325768963257215477827253323);
    lemma_pm_double(7, 599407225784369101542981331825nat, m);
    assert(pm(7, 1198814451568738203085962663650nat, m) == 28838921178566543187387203756362046203781266132755204923827111072672702715305);
    lemma_pm_succ(7, 1198814451568738203085962663650nat, m);
    assert(pm(7, 1198814451568738203085962663651nat, m) == 44564822724587230873367204769976425913397205427703520998978801408893175453596);
    lemma_pm_double(7, 1198814451568738203085962663651nat, m);
    assert(pm(7, 2397628903137476406171925327302nat, m) == 46814490128593944364829372424977515309600167247080047449146996711162185546472);
    lemma_pm_double(7, 2397628903137476406171925327302nat, m);
    assert(pm(7, 4795257806274952812343850654604nat, m) == 47150834857390408568247193729946251191134880675903659826816196874375064948636);
    lemma_pm_succ(7, 4795257806274952812343850654604nat, m);
    assert(pm(7, 4795257806274952812343850654605nat, m) == 15440592950975717101043913060507963311800849728159791852091425920993967533374);
    lemma_pm_double(7, 4795257806274952812343850654605nat, m);
    assert(pm(7, 9590515612549905624687701309210nat, m) == 49835873975976143957827756112575736817635054134592384279379495611278562267693);
    lemma_pm_succ(7, 9590515612549905624687701309210nat, m);
    assert(pm(7, 9590515612549905624687701309211nat, m) == 34235866781075864828107849738914362697302063938980863020034517079318448766773);
    lemma_pm_double(7, 9590515612549905624687701309211nat, m);
    assert(pm(7, 19181031225099811249375402618422nat, m) == 12126365446005136796114637929743813690936957224504194678857798447337550628493);
    lemma_pm_succ(7, 19181031225099811249375402618422nat, m);
    assert(pm(7, 19181031225099811249375402618423nat, m) == 32448682946909767093354725000020729998868148071001724929400930431424273214938);
    lemma_pm_double(7, 19181031225099811249375402618423nat, m);
    assert(pm(7, 38362062450199622498750805236846nat, m) == 40823384914726362937945480677212470023429227782296744537706063026280939475553);
    lemma_pm_double(7, 38362062450199622498750805236846nat, m);
    assert(pm(7, 76724124900399244997501610473692nat, m) == 13164174957655117226682284040038908264086529392719980010000539147047827206285);
    lemma_pm_succ(7, 76724124900399244997501610473692nat, m);
    assert(pm(7, 76724124900399244997501610473693nat, m) == 39713349528459630107328247772086392010915153248512222247400115329396209259482);
    lemma_pm_double(7, 76724124900399244997501610473693nat, m);
    assert(pm(7, 153448249800798489995003220947386nat, m) == 33919738296709819371052331862399801756621536784567098781671556153934982581198);
    lemma_pm_succ(7, 153448249800798489995003220947386nat, m);
    assert(pm(7, 153448249800798489995003220947387nat, m) == 27694667376463973679575361004054748945588547489859140181286258277790553330334);
    lemma_pm_double(7, 153448249800798489995003220947387nat, m);
    assert(pm(7, 306896499601596979990006441894774nat, m) == 47168721827217968093668518970545876525209631629883957816413882009504880107808);
    lemma_pm_double(7, 306896499601596979990006441894774nat, m);
    assert(pm(7, 613792999203193959980012883789548nat, m) == 51876735452604314860653979921019106956115260049115609877544758824543179646587);
    lemma_pm_succ(7, 613792999203193959980012883789548nat, m);
    assert(pm(7, 613792999203193959980012883789549nat, m) == 48521897117473061147891416398017953666663505340643442207191359572170770419031);
    lemma_pm_double(7, 613792999203193959980012883789549nat, m);
    assert(pm(7, 1227585998406387919960025767579098nat, m) == 45048066022949860080503873723471121819946256442783989789087322741244135390518);
    lemma_pm_double(7, 1227585998406387919960025767579098nat, m);
    assert(pm(7, 2455171996812775839920051535158196nat, m) == 51402610426039205498193551233626096677265419485089498216848370084364002440111);
    lemma_pm_succ(7, 2455171996812775839920051535158196nat, m);
    assert(pm(7, 2455171996812775839920051535158197nat, m) == 45203021931517295610668415586266881714714621392460660582316638390916529973699);
    lemma_pm_double(7, 2455171996812775839920051535158197nat, m);
    assert(pm(7, 4910343993625551679840103070316394nat, m) == 39356186620504658063589133435879991420756290299292735620977415650505391153521);
    lemma_pm_double(7, 4910343993625551679840103070316394nat, m);
    assert(pm(7, 9820687987251103359680206140632788nat, m) == 43514161406631790699566004223035311353454344733075935308428998658674183295062);
    lemma_pm_succ(7, 9820687987251103359680206140632788nat, m);
    assert(pm(7, 9820687987251103359680206140632789nat, m) == 42419753970791582499723327020317350285727650628893358045984697111026377142869);
    lemma_pm_double(7, 9820687987251103359680206140632789nat, m);
    assert(pm(7, 19641375974502206719360412281265578nat, m) == 7076456216566178007664438213754821400372874070599046673527177513044133589603);
    lemma_pm_succ(7, 19641375974502206719360412281265578nat, m);
    assert(pm(7, 19641375974502206719360412281265579nat, m) == 49535193515963246053651067496283749802610118494193326714690242591308935127221);
    lemma_pm_double(7, 19641375974502206719360412281265579nat, m);
    assert(pm(7, 39282751949004413438720824562531158nat, m) == 10743064816334716448931140786620802242747873562662127126417088869809329785222);
    lemma_pm_double(7, 39282751949004413438720824562531158nat, m);
    assert(pm(7, 78565503898008826877441649125062316nat, m) == 17190939808707323099470368766042957537842992904849242107117249787877792417473);
    lemma_pm_succ(7, 78565503898008826877441649125062316nat, m);
    assert(pm(7, 78565503898008826877441649125062317nat, m) == 15464828310698880737397100345928771089519845332889419104613431115267384553285);
    lemma_pm_double(7, 78565503898008826877441649125062317nat, m);
    assert(pm(7, 157131007796017653754883298250124634nat, m) == 210830802583628632203608592749671796218017680508752837398039803056768752072);
    lemma_pm_succ(7, 157131007796017653754883298250124634nat, m);
    assert(pm(7, 157131007796017653754883298250124635nat, m) == 1475815618085400425425260149247702573526123763561269861786278621397381264504);
    lemma_pm_double(7, 157131007796017653754883298250124635nat, m);
    assert(pm(7, 314262015592035307509766596500249270nat, m) == 812423201393188652516007627287187254535397095240228508277910548065899229995);
    lemma_pm_succ(7, 314262015592035307509766596500249270nat, m);
    assert(pm(7, 314262015592035307509766596500249271nat, m) == 5686962409752320567612053391010310781747779666681599557945373836461294609965);
    lemma_pm_double(7, 314262015592035307509766596500249271nat, m);
    assert(pm(7, 628524031184070615019533193000498542nat, m) == 2550676584775828380600699124374338802508794622326624721724769594735093646649);
    lemma_pm_double(7, 628524031184070615019533193000498542nat, m);
    assert(pm(7, 1257048062368141230039066386000997084nat, m) == 7180101707506043291233271872374451111764872579733654096126898360909634128115);
    lemma_pm_double(7, 1257048062368141230039066386000997084nat, m);
    assert(pm(7, 2514096124736282460078132772001994168nat, m) == 49958867126330213155664655368164251458611372558953859383228255056446098295549);
    lemma_pm_succ(7, 2514096124736282460078132772001994168nat, m);
    assert(pm(7, 2514096124736282460078132772001994169nat, m) == 35096818833554349212966144528033965184136292909511188746975833195491200961765);
    lemma_pm_double(7, 2514096124736282460078132772001994169nat, m);
    assert(pm(7, 5028192249472564920156265544003988338nat, m) == 35299899022987549249858191571400824682540402544737624169874128910826526639168);
    lemma_pm_succ(7, 5028192249472564920156265544003988338nat, m);
    assert(pm(7, 5028192249472564920156265544003988339nat, m) == 37355792460408082831216378967061909427020607811052817898704267576031361736124);
    lemma_pm_double(7, 5028192249472564920156265544003988339nat, m);
    assert(pm(7, 10056384498945129840312531088007976678nat, m) == 18416951891038084056216538421908049134451641320949004344840247541142072726125);
    lemma_pm_double(7, 10056384498945129840312531088007976678nat, m);
    assert(pm(7, 20112768997890259680625062176015953356nat, m) == 40744084399221621505557654255625740689679235672466612125339993086664821098913);
    lemma_pm_succ(7, 20112768997890259680625062176015953356nat, m);
    assert(pm(7, 20112768997890259680625062176015953357nat, m) == 23029214918920398141664877248450355639301887204628095764361658106960841769826);
    lemma_pm_double(7, 20112768997890259680625062176015953357nat, m);
    assert(pm(7, 40225537995780519361250124352031906714nat, m) == 2669108351802240362081216455568265649971285517229027207705330557439193949330);
    lemma_pm_succ(7, 40225537995780519361250124352031906714nat, m);
    assert(pm(7, 40225537995780519361250124352031906715nat, m) == 18683758462615682534568515188977859549798998620603190453937313902074357645310);
    lemma_pm_double(7, 40225537995780519361250124352031906715nat, m);
    assert(pm(7, 80451075991561038722500248704063813430nat, m) == 6088360878412862665247640682142018807352561011426925493825976801399025555688);
    lemma_pm_succ(7, 80451075991561038722500248704063813430nat, m);
    assert(pm(7, 80451075991561038722500248704063813431nat, m) == 42618526148890038656733484774994131651467927079988478456781837609793178889816);
    lemma_pm_double(7, 80451075991561038722500248704063813431nat, m);
    assert(pm(7, 160902151983122077445000497408127626862nat, m) == 4589707963149108232566914722333942112534357800137163608179735845461447176050);
    lemma_pm_succ(7, 160902151983122077445000497408127626862nat, m);
    assert(pm(7, 160902151983122077445000497408127626863nat, m) == 32127955742043757627968403056337594787740504600960145257258150918230130232350);
    lemma_pm_double(7, 160902151983122077445000497408127626863nat, m);
    assert(pm(7, 321804303966244154890000994816255253726nat, m) == 29577520233452595006166512621564073751885068625095199376181289373582103832176);
    lemma_pm_succ(7, 321804303966244154890000994816255253726nat, m);
    assert(pm(7, 321804303966244154890000994816255253727nat, m) == 49735016108789593604822366826390618750123822874083482165458049515258983271693);
    lemma_pm_double(7, 321804303966244154890000994816255253727nat, m);
    assert(pm(7, 643608607932488309780001989632510507454nat, m) == 29035958534559471326040621265889000852880072519750168937782568813255852076102);
    lemma_pm_succ(7, 643608607932488309780001989632510507454nat, m);
    assert(pm(7, 643608607932488309780001989632510507455nat, m) == 45944084216537727843941127336665108457088850136668269096667005592975220979175);
    lemma_pm_double(7, 643608607932488309780001989632510507455nat, m);
    assert(pm(7, 1287217215864976619560003979265021014910nat, m) == 40579862540822260876363318756702974720638599758116683284700421705602585094012);
    lemma_pm_double(7, 1287217215864976619560003979265021014910nat, m);
    assert(pm(7, 2574434431729953239120007958530042029820nat, m) == 20090536681457447969148927561233948098041701795311681283056607718055073028458);
    lemma_pm_succ(7, 2574434431729953239120007958530042029820nat, m);
    assert(pm(7, 2574434431729953239120007958530042029821nat, m) == 35762006419949754825147011912265705010910807566126493336188936626508348830180);
    lemma_pm_double(7, 2574434431729953239120007958530042029821nat, m);
    assert(pm(7, 5148868863459906478240015917060084059642nat, m) == 13527308195799312833093677494593513584656350073106474982840108242074265589946);
    lemma_pm_succ(7, 5148868863459906478240015917060084059642nat, m);
    assert(pm(7, 5148868863459906478240015917060084059643nat, m) == 42255282195468999352208001953968629254903898011217687057277098994581277945109);
    lemma_pm_double(7, 5148868863459906478240015917060084059643nat, m);
    assert(pm(7, 10297737726919812956480031834120168119286nat, m) == 37323145541737999609915411590824642116596681304771670560013681973664329617826);
    lemma_pm_succ(7, 10297737726919812956480031834120168119286nat, m);
    assert(pm(7, 10297737726919812956480031834120168119287nat, m) == 51518518091661235351616919103028631465414559131291142629681139015895982586730);
    lemma_pm_double(7, 10297737726919812956480031834120168119287nat, m);
    assert(pm(7, 20595475453839625912960063668240336238574nat, m) == 49415807458562033524613670555162789556250547914155025941467061674373520298284);
    lemma_pm_succ(7, 20595475453839625912960063668240336238574nat, m);
    assert(pm(7, 20595475453839625912960063668240336238575nat, m) == 31295401159177091795609250837023731867610520395919354654647479520983154980910);
    lemma_pm_double(7, 20595475453839625912960063668240336238575nat, m);
    assert(pm(7, 41190950907679251825920127336480672477150nat, m) == 42943676695408109060914993978428816145809568597931578611734561417001724651718);
    lemma_pm_double(7, 41190950907679251825920127336480672477150nat, m);
    assert(pm(7, 82381901815358503651840254672961344954300nat, m) == 30029826870546963069557031725905800106524795125825667361094190123669701293475);
    lemma_pm_double(7, 82381901815358503651840254672961344954300nat, m);
    assert(pm(7, 164763803630717007303680509345922689908600nat, m) == 15516084276050172635220350535972617009835939965499900251274860896459005378037);
    lemma_pm_succ(7, 164763803630717007303680509345922689908600nat, m);
    assert(pm(7, 164763803630717007303680509345922689908601nat, m) == 3740839582098827487646972735436387393470474757444026113716708875335875277233);
    lemma_pm_double(7, 164763803630717007303680509345922689908601nat, m);
    assert(pm(7, 329527607261434014607361018691845379817202nat, m) == 37532033534519659501380183699991150859534977996306695251538552072379408757698);
    lemma_pm_double(7, 329527607261434014607361018691845379817202nat, m);
    assert(pm(7, 659055214522868029214722037383690759634404nat, m) == 23417424449558536566334866051280415206864686102842651932870435587982003300876);
    lemma_pm_double(7, 659055214522868029214722037383690759634404nat, m);
    assert(pm(7, 1318110429045736058429444074767381519268808nat, m) == 8385473441401543316215055102478423211986733379837380812867807412836184639008);
    lemma_pm_succ(7, 1318110429045736058429444074767381519268808nat, m);
    assert(pm(7, 1318110429045736058429444074767381519268809nat, m) == 6262438914684612734057645209162996646216581158334027867470993189914711288543);
    lemma_pm_double(7, 1318110429045736058429444074767381519268809nat, m);
    assert(pm(7, 2636220858091472116858888149534763038537618nat, m) == 44916331045976369699838773335264883169123011222085228805685449709756360241467);
    lemma_pm_double(7, 2636220858091472116858888149534763038537618nat, m);
    assert(pm(7, 5272441716182944233717776299069526077075236nat, m) == 17086890254876338296259052306590471632065559671762578024955173553508631792629);
    lemma_pm_double(7, 5272441716182944233717776299069526077075236nat, m);
    assert(pm(7, 10544883432365888467435552598139052154150472nat, m) == 44310976544342147257812327885489215269830859942084490130484716379910814828854);
    lemma_pm_double(7, 10544883432365888467435552598139052154150472nat, m);
    assert(pm(7, 21089766864731776934871105196278104308300944nat, m) == 10238251133638539771193625465928111025565175005887830161030198998868459233624);
    lemma_pm_double(7, 21089766864731776934871105196278104308300944nat, m);
    assert(pm(7, 42179533729463553869742210392556208616601888nat, m) == 50108928705998850911536351123864367532961605418522582282807878344813566077309);
    lemma_pm_succ(7, 42179533729463553869742210392556208616601888nat, m);
    assert(pm(7, 42179533729463553869742210392556208616601889nat, m) == 36147249891234813504068014817934777704587922926492249044033196214063475434085);
    lemma_pm_double(7, 42179533729463553869742210392556208616601889nat, m);
    assert(pm(7, 84359067458927107739484420785112417233203778nat, m) == 34638379461780627587951314795395697346538555909538643297524240568040035679979);
    lemma_pm_succ(7, 84359067458927107739484420785112417233203778nat, m);
    assert(pm(7, 84359067458927107739484420785112417233203779nat, m) == 32725155531959631197868241535026018075007681364659951792255049176525925021801);
    lemma_pm_double(7, 84359067458927107739484420785112417233203779nat, m);
    assert(pm(7, 168718134917854215478968841570224834466407558nat, m) == 45864172696853261595059694690116668285943488787731742259735081829462542115237);
    lemma_pm_succ(7, 168718134917854215478968841570224834466407558nat, m);
    assert(pm(7, 168718134917854215478968841570224834466407559nat, m) == 6433957827215688288731419781700882975461106510956368882523620606606307699581);
    lemma_pm_double(7, 168718134917854215478968841570224834466407559nat, m);
    assert(pm(7, 337436269835708430957937683140449668932815118nat, m) == 41055677632837506689899954522936086914502941663171253533510211787529026295478);
    lemma_pm_succ(7, 337436269835708430957937683140449668932815118nat, m);
    assert(pm(7, 337436269835708430957937683140449668932815119nat, m) == 25210367554231594432060979119622779213067829139560585621553189013010278145781);
    lemma_pm_double(7, 337436269835708430957937683140449668932815119nat, m);
    assert(pm(7, 674872539671416861915875366280899337865630238nat, m) == 33405087263859076615092777058850374517859318194948189890344808638817751431288);
    lemma_pm_succ(7, 674872539671416861915875366280899337865630238nat, m);
    assert(pm(7, 674872539671416861915875366280899337865630239nat, m) == 24092110146508774387858477379208758274253017362526777941999025671969935280964);
    lemma_pm_double(7, 674872539671416861915875366280899337865630239nat, m);
    assert(pm(7, 1349745079342833723831750732561798675731260478nat, m) == 33026650001863670256332773335890134059135525875370364606391385900941068000186);
    lemma_pm_double(7, 1349745079342833723831750732561798675731260478nat, m);
    assert(pm(7, 2699490158685667447663501465123597351462520956nat, m) == 50925732255112652181924256618407794848355117351214307946992329018865831441993);
    lemma_pm_double(7, 2699490158685667447663501465123597351462520956nat, m);
    assert(pm(7, 5398980317371334895327002930247194702925041912nat, m) == 35401999378218380070639157153925577509365490336601829955018562009461364145825);
    lemma_pm_double(7, 5398980317371334895327002930247194702925041912nat, m);
    assert(pm(7, 10797960634742669790654005860494389405850083824nat, m) == 18575247644758094000632014117964810712066840945667057152495872555289814011762);
    lemma_pm_double(7, 10797960634742669790654005860494389405850083824nat, m);
    assert(pm(7, 21595921269485339581308011720988778811700167648nat, m) == 47758164590717614735369290847592806398606312101357793590574312663535274221601);
    lemma_pm_double(7, 21595921269485339581308011720988778811700167648nat, m);
    assert(pm(7, 43191842538970679162616023441977557623400335296nat, m) == 5562796827631202275567349009083440643311766332709515755020733511865169487020);
    lemma_pm_double(7, 43191842538970679162616023441977557623400335296nat, m);
    assert(pm(7, 86383685077941358325232046883955115246800670592nat, m) == 31240181160140117002396016860130351740629543512603440048977264167286173076162);
    lemma_pm_double(7, 86383685077941358325232046883955115246800670592nat, m);
    assert(pm(7, 172767370155882716650464093767910230493601341184nat, m) == 9726826447433169880204511427944607662714351609573898878441821888962994176605);
    lemma_pm_succ(7, 172767370155882716650464093767910230493601341184nat, m);
    assert(pm(7, 172767370155882716650464093767910230493601341185nat, m) == 15651909956905998681983839487426287801309908766489654326489094522802378051722);
    lemma_pm_double(7, 172767370155882716650464093767910230493601341185nat, m);
    assert(pm(7, 345534740311765433300928187535820460987202682370nat, m) == 38719724229515225267356155379927618586732654547167448411507077723695598890178);
    lemma_pm_succ(7, 345534740311765433300928187535820460987202682370nat, m);
    assert(pm(7, 345534740311765433300928187535820460987202682371nat, m) == 8858693730975624474254385118563500918675819327533949767531250566176286308681);
    lemma_pm_double(7, 345534740311765433300928187535820460987202682371nat, m);
    assert(pm(7, 691069480623530866601856375071640921974405364742nat, m) == 7508350762549703965388813537790300481818729924446187907948333520805790907468);
    lemma_pm_double(7, 691069480623530866601856375071640921974405364742nat, m);
    assert(pm(7, 1382138961247061733203712750143281843948810729484nat, m) == 20707633548563344909261866775635953664043383914104101951892923282932177976268);
    lemma_pm_double(7, 1382138961247061733203712750143281843948810729484nat, m);
    assert(pm(7, 2764277922494123466407425500286563687897621458968nat, m) == 49792355705575558987357839521601778067701316684974737941392197170562014338452);
    lemma_pm_double(7, 2764277922494123466407425500286563687897621458968nat, m);
    assert(pm(7, 5528555844988246932814851000573127375795242917936nat, m) == 43910122128827961052602386294063885190010352146893970141629653361931011008435);
    lemma_pm_succ(7, 5528555844988246932814851000573127375795242917936nat, m);
    assert(pm(7, 5528555844988246932814851000573127375795242917937nat, m) == 45191479026164774970978001517517367141619702525619601878389280033824171136480);
    lemma_pm_double(7, 5528555844988246932814851000573127375795242917937nat, m);
    assert(pm(7, 11057111689976493865629702001146254751590485835874nat, m) == 14891619358232589026329052646946025244175463696868237380824644909191326340171);
    lemma_pm_succ(7, 11057111689976493865629702001146254751590485835874nat, m);
    assert(pm(7, 11057111689976493865629702001146254751590485835875nat, m) == 51805460332501932704855628020436210871537693377550023843168855664400703196684);
    lemma_pm_double(7, 11057111689976493865629702001146254751590485835875nat, m);
    assert(pm(7, 22114223379952987731259404002292509503180971671750nat, m) == 45683458480318306986877224057734031444143516457918911097129452290896707883725);
    lemma_pm_double(7, 22114223379952987731259404002292509503180971671750nat, m);
    assert(pm(7, 44228446759905975462518808004585019006361943343500nat, m) == 9906970569306075074682776108884169003292915545363249952050412045143042815415);
    lemma_pm_double(7, 44228446759905975462518808004585019006361943343500nat, m);
    assert(pm(7, 88456893519811950925037616009170038012723886687000nat, m) == 16308631688154681968081521083552342868884130594660240245747305481127382722744);
    lemma_pm_double(7, 88456893519811950925037616009170038012723886687000nat, m);
    assert(pm(7, 176913787039623901850075232018340076025447773374000nat, m) == 30874081857566304857526171874283239947938525716425608866240511408024668075024);
    lemma_pm_succ(7, 176913787039623901850075232018340076025447773374000nat, m);
    assert(pm(7, 176913787039623901850075232018340076025447773374001nat, m) == 6375072302459372084892241087238816284807470012868710773268945056418351787116);
    lemma_pm_double(7, 176913787039623901850075232018340076025447773374001nat, m);
    assert(pm(7, 353827574079247803700150464036680152050895546748002nat, m) == 49079174980656840780985298955447034657504476109895982938628212192463737877331);
    lemma_pm_double(7, 353827574079247803700150464036680152050895546748002nat, m);
    assert(pm(7, 707655148158495607400300928073360304101791093496004nat, m) == 28709995262601391693108110394533353375591388300758720145087932204958703234432);
    lemma_pm_double(7, 707655148158495607400300928073360304101791093496004nat, m);
    assert(pm(7, 1415310296316991214800601856146720608203582186992008nat, m) == 6913728714907957520957232834305896141707858330626192043338583735104080600934);
    lemma_pm_double(7, 1415310296316991214800601856146720608203582186992008nat, m);
    assert(pm(7, 2830620592633982429601203712293441216407164373984016nat, m) == 15420256952243716912059840530507848550358058550445276211717864959999506498268);
    lemma_pm_double(7, 2830620592633982429601203712293441216407164373984016nat, m);
    assert(pm(7, 5661241185267964859202407424586882432814328747968032nat, m) == 7965250621815898889387453768197756479552466063758573618793847482641528528536);
    lemma_pm_succ(7, 5661241185267964859202407424586882432814328747968032nat, m);
    assert(pm(7, 5661241185267964859202407424586882432814328747968033nat, m) == 3320879177585101746264435869198329519176709945782377508953273678552118515239);
    lemma_pm_double(7, 5661241185267964859202407424586882432814328747968033nat, m);
    assert(pm(7, 11322482370535929718404814849173764865628657495936066nat, m) == 38901227495259045598936688920022643378753188231997486661845065735716270010899);
    lemma_pm_succ(7, 11322482370535929718404814849173764865628657495936066nat, m);
    assert(pm(7, 11322482370535929718404814849173764865628657495936067nat, m) == 10129216591182366795318119899228674462819555121344217519897166650320984153728);
    lemma_pm_double(7, 11322482370535929718404814849173764865628657495936067nat, m);
    assert(pm(7, 22644964741071859436809629698347529731257314991872134nat, m) == 49499543418089194415300760256984454118154167625315999241405888846853095997323);
    lemma_pm_double(7, 22644964741071859436809629698347529731257314991872134nat, m);
    assert(pm(7, 45289929482143718873619259396695059462514629983744268nat, m) == 32781858181392706442159344007778052413519954006288462996599972497402477903398);
    lemma_pm_double(7, 45289929482143718873619259396695059462514629983744268nat, m);
    assert(pm(7, 90579858964287437747238518793390118925029259967488536nat, m) == 10935161809806287490914287259670030086907146591826149380354319519996848981985);
    lemma_pm_succ(7, 90579858964287437747238518793390118925029259967488536nat, m);
    assert(pm(7, 90579858964287437747238518793390118925029259967488537nat, m) == 24110257493517821956952270309504244770659473642255407839876577940039361689382);
    lemma_pm_double(7, 90579858964287437747238518793390118925029259967488537nat, m);
    assert(pm(7, 181159717928574875494477037586780237850058519934977074nat, m) == 24794129614498829086857560369975221764750393016252706380769363698271008990996);
    lemma_pm_double(7, 181159717928574875494477037586780237850058519934977074nat, m);
    assert(pm(7, 362319435857149750988954075173560475700117039869954148nat, m) == 27350824726289882691913400018570187717414705909704957047861971117927985786392);
    lemma_pm_double(7, 362319435857149750988954075173560475700117039869954148nat, m);
    assert(pm(7, 724638871714299501977908150347120951400234079739908296nat, m) == 2764731400017563085978467854922035418402989891651676124562470829685621943732);
    lemma_pm_succ(7, 724638871714299501977908150347120951400234079739908296nat, m);
    assert(pm(7, 724638871714299501977908150347120951400234079739908297nat, m) == 19353119800122941601849274984454247928820929241561732871937295807799353606124);
    lemma_pm_double(7, 724638871714299501977908150347120951400234079739908297nat, m);
    assert(pm(7, 1449277743428599003955816300694241902800468159479816594nat, m) == 4189449942629187851101178147608368845858974778747714052603918025750026167591);
    lemma_pm_double(7, 1449277743428599003955816300694241902800468159479816594nat, m);
    assert(pm(7, 2898555486857198007911632601388483805600936318959633188nat, m) == 36886918294711634417334030878560449729794037667369904103247584327891364902403);
    lemma_pm_double(7, 2898555486857198007911632601388483805600936318959633188nat, m);
    assert(pm(7, 5797110973714396015823265202776967611201872637919266376nat, m) == 36883349842976809526325605232281299086247823670402230971091483683996564148216);
    lemma_pm_double(7, 5797110973714396015823265202776967611201872637919266376nat, m);
    assert(pm(7, 11594221947428792031646530405553935222403745275838532752nat, m) == 8282232209812864852858127228380500958985313249777804096373580252835941890261);
    lemma_pm_double(7, 11594221947428792031646530405553935222403745275838532752nat, m);
    assert(pm(7, 23188443894857584063293060811107870444807490551677065504nat, m) == 30835313404256067972974371430933055058353907393047682582974311044299411506837);
    lemma_pm_succ(7, 23188443894857584063293060811107870444807490551677065504nat, m);
    assert(pm(7, 23188443894857584063293060811107870444807490551677065505nat, m) == 6103693129287713893029637983787522057715141749223226790405542510341555809807);
    lemma_pm_double(7, 23188443894857584063293060811107870444807490551677065505nat, m);
    assert(pm(7, 46376887789715168126586121622215740889614981103354131010nat, m) == 17423056838287139071638650774395080147616236171146195674223226061862489624563);
    lemma_pm_double(7, 46376887789715168126586121622215740889614981103354131010nat, m);
    assert(pm(7, 92753775579430336253172243244431481779229962206708262020nat, m) == 41973129315734869515432405043195079439140094174995824699931835827462032594006);
    lemma_pm_double(7, 92753775579430336253172243244431481779229962206708262020nat, m);
    assert(pm(7, 185507551158860672506344486488862963558459924413416524040nat, m) == 9999466662145202664726020310087053776841618164166962085669559843730165426189);
    lemma_pm_succ(7, 185507551158860672506344486488862963558459924413416524040nat, m);
    assert(pm(7, 185507551158860672506344486488862963558459924413416524041nat, m) == 17560391459890228173634401662423410600200774648641096777083260206172576798810);
    lemma_pm_double(7, 185507551158860672506344486488862963558459924413416524041nat, m);
    assert(pm(7, 371015102317721345012688972977725927116919848826833048082nat, m) == 51051831843956356529045237661755412926704344470718723375777236270644580156043);
    lemma_pm_double(7, 371015102317721345012688972977725927116919848826833048082nat, m);
    assert(pm(7, 742030204635442690025377945955451854233839697653666096164nat, m) == 50518710679468287849043677050644371613423976535393554766408149370358905782851);
    lemma_pm_double(7, 742030204635442690025377945955451854233839697653666096164nat, m);
    assert(pm(7, 1484060409270885380050755891910903708467679395307332192328nat, m) == 26322819164630814357033553629061776514271508662892350092034921046457975966912);
    lemma_pm_succ(7, 1484060409270885380050755891910903708467679395307332192328nat, m);
    assert(pm(7, 1484060409270885380050755891910903708467679395307332192329nat, m) == 26952108627037129060891653878874538086828903138663537176433471225390088214845);
    lemma_pm_double(7, 1484060409270885380050755891910903708467679395307332192329nat, m);
    assert(pm(7, 2968120818541770760101511783821807416935358790614664384658nat, m) == 6980799498018625611255481699535731208001134683511890109434882772494292801234);
    lemma_pm_double(7, 2968120818541770760101511783821807416935358790614664384658nat, m);
    assert(pm(7, 5936241637083541520203023567643614833870717581229328769316nat, m) == 6402726102564193631856862100288121417395683635304032851496646537582638077784);
    lemma_pm_succ(7, 5936241637083541520203023567643614833870717581229328769316nat, m);
    assert(pm(7, 5936241637083541520203023567643614833870717581229328769317nat, m) == 44819082717949355422998034702016849921769785447128229960476525763078466544488);
    lemma_pm_double(7, 5936241637083541520203023567643614833870717581229328769317nat, m);
    assert(pm(7, 11872483274167083040406047135287229667741435162458657538634nat, m) == 12747518552530283230543401341250109462426090754551320791249353374351704944904);
    lemma_pm_double(7, 11872483274167083040406047135287229667741435162458657538634nat, m);
    assert(pm(7, 23744966548334166080812094270574459335482870324917315077268nat, m) == 4890637877316819124234027758482582373795855358442790876190776656277693229253);
    lemma_pm_succ(7, 23744966548334166080812094270574459335482870324917315077268nat, m);
    assert(pm(7, 23744966548334166080812094270574459335482870324917315077269nat, m) == 34234465141217733869638194309378076616570987509099536133335436593943852604771);
    lemma_pm_double(7, 23744966548334166080812094270574459335482870324917315077269nat, m);
    assert(pm(7, 47489933096668332161624188541148918670965740649834630154538nat, m) == 18618411781846314531657961097981446392625839315514506469482572414943023902419);
    lemma_pm_succ(7, 47489933096668332161624188541148918670965740649834630154538nat, m);
    assert(pm(7, 47489933096668332161624188541148918670965740649834630154539nat, m) == 25457132122671820762710246669498193072999770207546269641170689504724004947907);
    lemma_pm_double(7, 47489933096668332161624188541148918670965740649834630154539nat, m);
    assert(pm(7, 94979866193336664323248377082297837341931481299669260309078nat, m) == 48294159633204704501827460192965818832112933116651743166743078192461621970405);
    lemma_pm_succ(7, 94979866193336664323248377082297837341931481299669260309078nat, m);
    assert(pm(7, 94979866193336664323248377082297837341931481299669260309079nat, m) == 23443866381675788636105778301644936798647216813396375231579595147599866685757);
    lemma_pm_double(7, 94979866193336664323248377082297837341931481299669260309079nat, m);
    assert(pm(7, 189959732386673328646496754164595674683862962599338520618158nat, m) == 43962994002832340087275144420612006970328789141032293009910733557506570507568);
    lemma_pm_succ(7, 189959732386673328646496754164595674683862962599338520618158nat, m);
    assert(pm(7, 189959732386673328646496754164595674683862962599338520618159nat, m) == 45561582144195428213687308403354219603848761484587861956356841402853087630411);
    lemma_pm_double(7, 189959732386673328646496754164595674683862962599338520618159nat, m);
    assert(pm(7, 379919464773346657292993508329191349367725925198677041236318nat, m) == 38716782814453081598574203874185454460856625031749403102524957405082073034081);
    lemma_pm_double(7, 379919464773346657292993508329191349367725925198677041236318nat, m);
    assert(pm(7, 759838929546693314585987016658382698735451850397354082472636nat, m) == 25241199306230817467248157449190880666913645107447320433175470031809467732072);
    lemma_pm_succ(7, 759838929546693314585987016658382698735451850397354082472636nat, m);
    assert(pm(7, 759838929546693314585987016658382698735451850397354082472637nat, m) == 19380769618237150832393880619778267155323858250548329564417314122850530570965);
    lemma_pm_double(7, 759838929546693314585987016658382698735451850397354082472637nat, m);
    assert(pm(7, 1519677859093386629171974033316765397470903700794708164945274nat, m) == 11406702580936560753815579167926567592016100537902322456082232566197066582094);
    lemma_pm_double(7, 1519677859093386629171974033316765397470903700794708164945274nat, m);
    assert(pm(7, 3039355718186773258343948066633530794941807401589416329890548nat, m) == 21731469786623835594871911598189989521030313601587311454307348823539136668493);
    lemma_pm_double(7, 3039355718186773258343948066633530794941807401589416329890548nat, m);
    assert(pm(7, 6078711436373546516687896133267061589883614803178832659781096nat, m) == 25584683420834659087725553316981658451854458015821093183055625059941026704304);
    lemma_pm_succ(7, 6078711436373546516687896133267061589883614803178832659781096nat, m);
    assert(pm(7, 6078711436373546516687896133267061589883614803178832659781097nat, m) == 21785158420464042175735651694313711649909548609164738813578399319771443376589);
    lemma_pm_double(7, 6078711436373546516687896133267061589883614803178832659781097nat, m);
    assert(pm(7, 12157422872747093033375792266534123179767229606357665319562194nat, m) == 1674157430466522319377651562035214825666570374206871280853007162841571423266);
    lemma_pm_succ(7, 12157422872747093033375792266534123179767229606357665319562194nat, m);
    assert(pm(7, 12157422872747093033375792266534123179767229606357665319562195nat, m) == 11719102013265656235643560934246503779665992619448098965971050139890999962862);
    lemma_pm_double(7, 12157422872747093033375792266534123179767229606357665319562195nat, m);
    assert(pm(7, 24314845745494186066751584533068246359534459212715330639124390nat, m) == 50063907453820172811886135473402656277874452811427981219120739403499914811851);
    lemma_pm_double(7, 24314845745494186066751584533068246359534459212715330639124390nat, m);
    assert(pm(7, 48629691490988372133503169066136492719068918425430661278248780nat, m) == 43281853197533187386209196229776724617221818646579033845448929794810336111396);
    lemma_pm_double(7, 48629691490988372133503169066136492719068918425430661278248780nat, m);
    assert(pm(7, 97259382981976744267006338132272985438137836850861322556497560nat, m) == 6416440797255647222507705073687924149563060974380028788144609630029599256248);
    lemma_pm_succ(7, 97259382981976744267006338132272985438137836850861322556497560nat, m);
    assert(pm(7, 97259382981976744267006338132272985438137836850861322556497561nat, m) == 44915085580789530557553935515815469046941426820660201517012267410207194793736);
    lemma_pm_double(7, 97259382981976744267006338132272985438137836850861322556497561nat, m);
    assert(pm(7, 194518765963953488534012676264545970876275673701722645112995122nat, m) == 47250248301941586936810448779182407621781142845888967111463817239519770925737);
    lemma_pm_double(7, 194518765963953488534012676264545970876275673701722645112995122nat, m);
    assert(pm(7, 389037531927906977068025352529091941752551347403445290225990244nat, m) == 21806704405163056757039558408040356679224786800719399697249479487495735043967);
    lemma_pm_double(7, 389037531927906977068025352529091941752551347403445290225990244nat, m);
    assert(pm(7, 778075063855813954136050705058183883505102694806890580451980488nat, m) == 20727627303805919857228544753539354498040539501529951079913401775608985990056);
    lemma_pm_double(7, 778075063855813954136050705058183883505102694806890580451980488nat, m);
    assert(pm(7, 1556150127711627908272101410116367767010205389613781160903960976nat, m) == 7475233258223836922456015750146989842844343964820235331876389924032491951374);
    lemma_pm_double(7, 1556150127711627908272101410116367767010205389613781160903960976nat, m);
    assert(pm(7, 3112300255423255816544202820232735534020410779227562321807921952nat, m) == 27110463939910265759957543004231815582177367271484059411251019075775573147118);
    lemma_pm_double(7, 3112300255423255816544202820232735534020410779227562321807921952nat, m);
    assert(pm(7, 6224600510846511633088405640465471068040821558455124643615843904nat, m) == 18041863081222071333460355532807434581268478092715328532199945409735062231586);
    lemma_pm_double(7, 6224600510846511633088405640465471068040821558455124643615843904nat, m);
    assert(pm(7, 12449201021693023266176811280930942136081643116910249287231687808nat, m) == 16883213903288536015128082832789311450580412866051557009299940542022071777667);
    lemma_pm_double(7, 12449201021693023266176811280930942136081643116910249287231687808nat, m);
    assert(pm(7, 24898402043386046532353622561861884272163286233820498574463375616nat, m) == 15935088936038552712527016172790056058803099535227059750028087176828941510647);
    lemma_pm_double(7, 24898402043386046532353622561861884272163286233820498574463375616nat, m);
    assert(pm(7, 49796804086772093064707245123723768544326572467640997148926751232nat, m) == 8058585197616791597850262905528997628183998196882849921222464301627649443719);
    lemma_pm_double(7, 49796804086772093064707245123723768544326572467640997148926751232nat, m);
    assert(pm(7, 99593608173544186129414490247447537088653144935281994297853502464nat, m) == 45460730736996374990629323640123376732050144118125995735291921154475014770579);
    lemma_pm_double(7, 99593608173544186129414490247447537088653144935281994297853502464nat, m);
    assert(pm(7, 199187216347088372258828980494895074177306289870563988595707004928nat, m) == 4249044717130671450383551828341123680548152664170756139619622531266346902395);
    lemma_pm_double(7, 199187216347088372258828980494895074177306289870563988595707004928nat, m);
    assert(pm(7, 398374432694176744517657960989790148354612579741127977191414009856nat, m) == 8254539241089288486582121522645530758409458243997530048697067219389928411615);
    lemma_pm_double(7, 398374432694176744517657960989790148354612579741127977191414009856nat, m);
    assert(pm(7, 796748865388353489035315921979580296709225159482255954382828019712nat, m) == 45173257979316209107759857631954318350665185556746965468733252463058865535249);
    lemma_pm_double(7, 796748865388353489035315921979580296709225159482255954382828019712nat, m);
    assert(pm(7, 1593497730776706978070631843959160593418450318964511908765656039424nat, m) == 3781475435722511760655094564495044106889806375226199131529716003115794018241);
    lemma_pm_double(7, 1593497730776706978070631843959160593418450318964511908765656039424nat, m);
    assert(pm(7, 3186995461553413956141263687918321186836900637929023817531312078848nat, m) == 10419156700641249427501821145069946285459434423336544238003275405359868406584);
    lemma_pm_double(7, 3186995461553413956141263687918321186836900637929023817531312078848nat, m);
    assert(pm(7, 6373990923106827912282527375836642373673801275858047635062624157696nat, m) == 23837013302543780113550698045293603443409896820939744198196550197165080394589);
    lemma_pm_double(7, 6373990923106827912282527375836642373673801275858047635062624157696nat, m);
    assert(pm(7, 12747981846213655824565054751673284747347602551716095270125248315392nat, m) == 48396264356681685318497971731186932374210555593698326155023547505836458271390);
    lemma_pm_double(7, 12747981846213655824565054751673284747347602551716095270125248315392nat, m);
    assert(pm(7, 25495963692427311649130109503346569494695205103432190540250496630784nat, m) == 1601282312139370194525216126791478759696034372705638336932500225552029181092);
    lemma_pm_double(7, 25495963692427311649130109503346569494695205103432190540250496630784nat, m);
    assert(pm(7, 50991927384854623298260219006693138989390410206864381080500993261568nat, m) == 39247155963511210029207265216211407408405391496932601192069185085955352426788);
    lemma_pm_double(7, 50991927384854623298260219006693138989390410206864381080500993261568nat, m);
    assert(pm(7, 101983854769709246596520438013386277978780820413728762161001986523136nat, m) == 11867613893310031886836844228107138703602851562976250564497515560327221359364);
    lemma_pm_double(7, 101983854769709246596520438013386277978780820413728762161001986523136nat, m);
    assert(pm(7, 203967709539418493193040876026772555957561640827457524322003973046272nat, m) == 29125899699073946197204124039137263880187658276994179436375148479901446634861);
    lemma_pm_double(7, 203967709539418493193040876026772555957561640827457524322003973046272nat, m);
    assert(pm(7, 407935419078836986386081752053545111915123281654915048644007946092544nat, m) == 24847318896828964966037231113934913737776580856862553984524561052455153285553);
    lemma_pm_double(7, 407935419078836986386081752053545111915123281654915048644007946092544nat, m);
    assert(pm(7, 815870838157673972772163504107090223830246563309830097288015892185088nat, m) == 7810255924905546601262620413504191050965597564340234526283790298049156962670);
    lemma_pm_double(7, 815870838157673972772163504107090223830246563309830097288015892185088nat, m);
    assert(pm(7, 1631741676315347945544327008214180447660493126619660194576031784370176nat, m) == 40945327987447631826398403244323094506445508562367450541099272094306784794504);
    lemma_pm_double(7, 1631741676315347945544327008214180447660493126619660194576031784370176nat, m);
    assert(pm(7, 3263483352630695891088654016428360895320986253239320389152063568740352nat, m) == 27525128085260490166934471752775371439566278240581567028279014925303570676439);
    lemma_pm_double(7, 3263483352630695891088654016428360895320986253239320389152063568740352nat, m);
    assert(pm(7, 6526966705261391782177308032856721790641972506478640778304127137480704nat, m) == 39655449895307885580399867243100249290640607728145705802119025706864196165385);
    lemma_pm_double(7, 6526966705261391782177308032856721790641972506478640778304127137480704nat, m);
    assert(pm(7, 13053933410522783564354616065713443581283945012957281556608254274961408nat, m) == 48408870604379217949677108877553870076286734829276003744074751128061444869063);
    lemma_pm_double(7, 13053933410522783564354616065713443581283945012957281556608254274961408nat, m);
    assert(pm(7, 26107866821045567128709232131426887162567890025914563113216508549922816nat, m) == 16498624009588625608692261117586459907901343252960258286064978367260906493873);
    lemma_pm_double(7, 26107866821045567128709232131426887162567890025914563113216508549922816nat, m);
    assert(pm(7, 52215733642091134257418464262853774325135780051829126226433017099845632nat, m) == 41630657668714966793683149051293752307973351764789248789080023191775027587671);
    lemma_pm_double(7, 52215733642091134257418464262853774325135780051829126226433017099845632nat, m);
    assert(pm(7, 104431467284182268514836928525707548650271560103658252452866034199691264nat, m) == 34622737872767765611344918001798140675701694714685281185979344969895898971691);
    lemma_pm_double(7, 104431467284182268514836928525707548650271560103658252452866034199691264nat, m);
    assert(pm(7, 208862934568364537029673857051415097300543120207316504905732068399382528nat, m) == 41017151423698987144894129303069991310079901470912542143544885004496018974742);
    lemma_pm_double(7, 208862934568364537029673857051415097300543120207316504905732068399382528nat, m);
    assert(pm(7, 417725869136729074059347714102830194601086240414633009811464136798765056nat, m) == 27966497065103907670110754930460859429183346056121669143369624627650089262159);
}

/// `7^61023960160376449321861238134579782346686830170980193377150127608692736 mod 52435875175126190479447740508185965837690552500527637822603658699938581184513`.
proof fn lemma_pow_52435875175126190479447740508185965837690552500527637822603658699938581184513_by_859267()
    ensures
        pm(7, 61023960160376449321861238134579782346686830170980193377150127608692736nat, fr_modulus() as int) == 46650213108022170713266871296380854050719049849705294301174774712973279642509,
{
    let m: int = fr_modulus() as int;
    lemma_pm_one(7, m);
    lemma_pm_double(7, 1nat, m);
    assert(pm(7, 2nat, m) == 49);
    lemma_pm_double(7, 2nat, m);
    assert(pm(7, 4nat, m) == 2401);
    lemma_pm_double(7, 4nat, m);
    assert(pm(7, 8nat, m) == 5764801);
    lemma_pm_double(7, 8nat, m);
    assert(pm(7, 16nat, m) == 33232930569601);
    lemma_pm_succ(7, 16nat, m);
    assert(pm(7, 17nat, m) == 232630513987207);
    lemma_pm_double(7, 17nat, m);
    assert(pm(7, 34nat, m) == 54116956037952111668959660849);
    lemma_pm_succ(7, 34nat, m);
    assert(pm(7, 35nat, m) == 378818692265664781682717625943);
    lemma_pm_double(7, 35nat, m);
    assert(pm(7, 70nat, m) == 143503601609868434285603076356671071740077383739246066639249);
    lemma_pm_double(7, 70nat, m);
    assert(pm(7, 140nat, m) == 48243700241688473971107858342123766612684454975128542141737097162741738445175);
    lemma_pm_succ(7, 140nat, m);
    assert(pm(7, 141nat, m) == 23090650641062174921068565345750571262647869822733968056537727939560682009147);
    lemma_pm_double(7, 141nat, m);
    assert(pm(7, 282nat, m) == 25228101048912081718537208257665570521420132798324892982751777046438845222987);
    lemma_pm_double(7, 282nat, m);
    assert(pm(7, 564nat, m) == 50252296291309894061946291035252297007594142273067124156661349226474726290512);
    lemma_pm_succ(7, 564nat, m);
    assert(pm(7, 565nat, m) == 37150822988412115556937594197650284027015680908304042161007492385691596926506);
    lemma_pm_double(7, 565nat, m);
    assert(pm(7, 1130nat, m) == 23583036188444270645483365835158561733603396614629889841583531957991791290003);
    lemma_pm_succ(7, 1130nat, m);
    assert(pm(7, 1131nat, m) == 7773627793731323080040339321552034622152118800826315423273747606126795476482);
    lemma_pm_double(7, 1131nat, m);
    assert(pm(7, 2262nat, m) == 37130112823867576186650595811805726034896568836634008535103970730512641072322);
    lemma_pm_succ(7, 2262nat, m);
    assert(pm(7, 2263nat, m) == 50167289066568271388763208649896218893513771854327508455313160313834162768202);
    lemma_pm_double(7, 2263nat, m);
    assert(pm(7, 4526nat, m) == 48516456473623116328976281165718739215718027261999067086883619652702188050563);
    lemma_pm_succ(7, 4526nat, m);
    assert(pm(7, 4527nat, m) == 24999944264604671426147525110915379483882875830827642672563385369283829246863);
    lemma_pm_double(7, 4527nat, m);
    assert(pm(7, 9054nat, m) == 23881871736319351322584144742106724017147175983009346997371086847472649475066);
    lemma_pm_double(7, 9054nat, m);
    assert(pm(7, 18108nat, m) == 35635601413784399758195741413607858276782694106243549573112448718483843746922);
    lemma_pm_double(7, 18108nat, m);
    assert(pm(7, 36216nat, m) == 51666182844126567374479093738943509476102730447976980462752181928777421007090);
    lemma_pm_double(7, 36216nat, m);
    assert(pm(7, 72432nat, m) == 20458929062126071403957479481088099186151342520625643952683256050158730868808);
    lemma_pm_double(7, 72432nat, m);
    assert(pm(7, 144864nat, m) == 13406457143956055429083379422362667334832199078315881207634890452398474789109);
    lemma_pm_double(7, 144864nat, m);
    assert(pm(7, 289728nat, m) == 32722315201337024491209502326873704123318200655654216757340474648394490078422);
    lemma_pm_double(7, 289728nat, m);
    assert(pm(7, 579456nat, m) == 51771362104745141505331476998214554597864390187787798679719698989996994477299);
    lemma_pm_succ(7, 579456nat, m);
    assert(pm(7, 579457nat, m) == 47784283682458847660633895938386087158907416311348763822415940730347474234015);
    lemma_pm_double(7, 579457nat, m);
    assert(pm(7, 1158914nat, m) == 30055465692100431115491936561742177748474966508970828200851336427746177035415);
    lemma_pm_double(7, 1158914nat, m);
    assert(pm(7, 2317828nat, m) == 47684418351947528410506365214511916594367686272192903322946551413293292596501);
    lemma_pm_double(7, 2317828nat, m);
    assert(pm(7, 4635656nat, m) == 14670592967063954309807602664549450360288483761929875620972149743400333260100);
    lemma_pm_succ(7, 4635656nat, m);
    assert(pm(7, 4635657nat, m) == 50258275594321489689205478143660186684328833832981491524201389503863751636187);
    lemma_pm_double(7, 4635657nat, m);
    assert(pm(7, 9271314nat, m) == 47184001318645445898016690232334786405790042276991648855125743044953184018036);
    lemma_pm_double(7, 9271314nat, m);
    assert(pm(7, 18542628nat, m) == 16249950322157476361983824566259861050529104985697056178025999665316929414922);
    lemma_pm_double(7, 18542628nat, m);
    assert(pm(7, 37085256nat, m) == 25186631065381255650714153142604886765461619043034405833373874919020586523689);
    lemma_pm_succ(7, 37085256nat, m);
    assert(pm(7, 37085257nat, m) == 18998791932290218116655850473676309845159675799657927365806148333328362112284);
    lemma_pm_double(7, 37085257nat, m);
    assert(pm(7, 74170514nat, m) == 14456694670070238961618512548659534116297387852099994350650407009943978092316);
    lemma_pm_double(7, 74170514nat, m);
    assert(pm(7, 148341028nat, m) == 19743189172166785538598431252947545154018931517081120943197154219045662181345);
    lemma_pm_succ(7, 148341028nat, m);
    assert(pm(7, 148341029nat, m) == 33330573854915117811293537754260884402751415618512570957172762133442472900389);
    lemma_pm_double(7, 148341029nat, m);
    assert(pm(7, 296682058nat, m) == 44330118966072357232865294468886052923623663911032541806912680415983427495561);
    lemma_pm_succ(7, 296682058nat, m);
    assert(pm(7, 296682059nat, m) == 48131456886875548232818358741272541276912884874589603535370469412191086546362);
    lemma_pm_double(7, 296682059nat, m);
    assert(pm(7, 593364118nat, m) == 22980998968926503232556779475951507882526479290938253752948870408223404635141);
    lemma_pm_succ(7, 593364118nat, m);
    assert(pm(7, 593364119nat, m) == 3559367257106951189554234807102657664613697534984862802831116757748088892448);
    lemma_pm_double(7, 593364119nat, m);
    assert(pm(7, 1186728238nat, m) == 44792088154398329005540548633151935732597813328649902108991362902858589871256);
    lemma_pm_double(7, 1186728238nat, m);
    assert(pm(7, 2373456476nat, m) == 41704066875368061315303839401567878878472942682386815447840640767726882068808);
    lemma_pm_succ(7, 2373456476nat, m);
    assert(pm(7, 2373456477nat, m) == 29749092251945476809888173270045322960857836274069519021866191874395268559091);
    lemma_pm_double(7, 2373456477nat, m);
    assert(pm(7, 4746912954nat, m) == 4687989762133109540458719802101282624626451926681500648147662973322819354179);
    lemma_pm_double(7, 4746912954nat, m);
    assert(pm(7, 9493825908nat, m) == 39540680797663664382850100516067734703854505974480363789539136103247030385995);
    lemma_pm_succ(7, 9493825908nat, m);
    assert(pm(7, 9493825909nat, m) == 14605389708014698282712001071544313738528779318724357413755659223036306779400);
    lemma_pm_double(7, 9493825909nat, m);
    assert(pm(7, 18987651818nat, m) == 33408776127846740511247273650382326808715951971685399609122102595154294822285);
    lemma_pm_succ(7, 18987651818nat, m);
    assert(pm(7, 18987651819nat, m) == 24117932194422421660939953519932424310249453799687245973440083366325739017943);
    lemma_pm_double(7, 18987651819nat, m);
    assert(pm(7, 37975303638nat, m) == 47756483102965872479724182793098933668085048182274607292097969343629019483567);
    lemma_pm_succ(7, 37975303638nat, m);
    assert(pm(7, 37975303639nat, m) == 19680130670003964481382836502576740650452022272756424109063833205771649277891);
    lemma_pm_double(7, 37975303639nat, m);
    assert(pm(7, 75950607278nat, m) == 8648147743954707517377212867290640830727908880117568451988883973727457628853);
    lemma_pm_double(7, 75950607278nat, m);
    assert(pm(7, 151901214556nat, m) == 49969502271978221871634122350665739353919544292707417777301008283366143038614);
    lemma_pm_succ(7, 151901214556nat, m);
    assert(pm(7, 151901214557nat, m) == 35171264853090410224752413405544380451293495045786097505485105783931514163220);
    lemma_pm_double(7, 151901214557nat, m);
    assert(pm(7, 303802429114nat, m) == 48983064361769499220041524612750629393580378210993342901680707140890416315939);
    lemma_pm_double(7, 303802429114nat, m);
    assert(pm(7, 607604858228nat, m) == 27736594528261134225037422249814392423316658761630405953231207762557796269443);
    lemma_pm_succ(7, 607604858228nat, m);
    assert(pm(7, 607604858229nat, m) == 36848536172449368136918734224142849450144953829829928204807478238088830332562);
    lemma_pm_double(7, 607604858229nat, m);
    assert(pm(7, 1215209716458nat, m) == 23461150589977563101727454895529749031480759705496777721692525950011809353454);
    lemma_pm_succ(7, 1215209716458nat, m);
    assert(pm(7, 1215209716459nat, m) == 6920428604464370273748962744150345707293660436894530584036705550266921920639);
    lemma_pm_double(7, 1215209716459nat, m);
    assert(pm(7, 2430419432918nat, m) == 17923101720061510329693546433715702936254368166078375326329890053990664732134);
    lemma_pm_succ(7, 2430419432918nat, m);
    assert(pm(7, 2430419432919nat, m) == 20589961690178191348959344019637988878399472161493351639101912978057490755912);
    lemma_pm_double(7, 2430419432919nat, m);
    assert(pm(7, 4860838865838nat, m) == 23147663911082809849040038876346387555574052502764808927148198285679526510095);
    lemma_pm_double(7, 4860838865838nat, m);
    assert(pm(7, 9721677731676nat, m) == 43066077374323424673241842166042144613798227452499496488356900441931693836309);
    lemma_pm_double(7, 9721677731676nat, m);
    assert(pm(7, 19443355463352nat, m) == 48468698284925721072260377366515720719287698616010981845820695023937345116201);
    lemma_pm_double(7, 19443355463352nat, m);
    assert(pm(7, 38886710926704nat, m) == 37743587799512096095368659520746333262281695509676765183169158249814656448514);
    lemma_pm_succ(7, 38886710926704nat, m);
    assert(pm(7, 38886710926705nat, m) == 2025738720953720270341914104294503647519106065099167169165814249009689217033);
    lemma_pm_double(7, 38886710926705nat, m);
    assert(pm(7, 77773421853410nat, m) == 2671676230860805694518494459870877276833096460785911316011625025884280560786);
    lemma_pm_succ(7, 77773421853410nat, m);
    assert(pm(7, 77773421853411nat, m) == 18701733616025639861629461219096140937831675225501379212081375181189963925502);
    lemma_pm_double(7, 77773421853411nat, m);
    assert(pm(7, 155546843706822nat, m) == 35944226712236456864640833187031760147898790560758121961257947287582377869369);
    lemma_pm_succ(7, 155546843706822nat, m);
    assert(pm(7, 155546843706823nat, m) == 41866086285150436134694870276478457684529323923196302438390996213322320347531);
    lemma_pm_double(7, 155546843706823nat, m);
    assert(pm(7, 311093687413646nat, m) == 12732875550376047574210210501595386805946255636171273829568613390347343103048);
    lemma_pm_succ(7, 311093687413646nat, m);
    assert(pm(7, 311093687413647nat, m) == 36694253677506142540023733002981741803933236952671278984376635032492820536823);
    lemma_pm_double(7, 311093687413647nat, m);
    assert(pm(7, 622187374827294nat, m) == 45428890441970909128386920836465495948461487568725513535696694289161738017249);
    lemma_pm_double(7, 622187374827294nat, m);
    assert(pm(7, 1244374749654588nat, m) == 2786131741558506879790838561901367369197592232798686865936003926092592695153);
    lemma_pm_double(7, 1244374749654588nat, m);
    assert(pm(7, 2488749499309176nat, m) == 29219699924506404302629094708804295916188473864665378428155547333724013417437);
    lemma_pm_succ(7, 2488749499309176nat, m);
    assert(pm(7, 2488749499309177nat, m) == 47230273946166258680060441437072173900247659551074735529277855236252350368520);
    lemma_pm_double(7, 2488749499309177nat, m);
    assert(pm(7, 4977498998618354nat, m) == 29877117590545651525834147391300724250455742628531825534126320459412253591291);
    lemma_pm_succ(7, 4977498998618354nat, m);
    assert(pm(7, 4977498998618355nat, m) == 51832197608440989242495810214547172240118540898139865271073267116070031585498);
    lemma_pm_double(7, 4977498998618355nat, m);
    assert(pm(7, 9954997997236710nat, m) == 20579882167562329890400447252559455038525033309448934071045076160431201732693);
    lemma_pm_double(7, 9954997997236710nat, m);
    assert(pm(7, 19909995994473420nat, m) == 4615339700782937212284474458972424201134734605509578945106584268021430926001);
    lemma_pm_double(7, 19909995994473420nat, m);
    assert(pm(7, 39819991988946840nat, m) == 37328227555347427772930271927242145261070142688180756943299456273431162610163);
    lemma_pm_double(7, 39819991988946840nat, m);
    assert(pm(7, 79639983977893680nat, m) == 48145085091261024926434313618034742292522725189944491194707454008906888968957);
    lemma_pm_double(7, 79639983977893680nat, m);
    assert(pm(7, 159279967955787360nat, m) == 4119698435898134358470273992309858747196758556416158019308698363447208025345);
    lemma_pm_double(7, 159279967955787360nat, m);
    assert(pm(7, 318559935911574720nat, m) == 19588090833574030191033695822315414942873189196310263840944251666064839740662);
    lemma_pm_succ(7, 318559935911574720nat, m);
    assert(pm(7, 318559935911574721nat, m) == 32244885484765830378340389739835972924731219373116571241402444262576715815608);
    lemma_pm_double(7, 318559935911574721nat, m);
    assert(pm(7, 637119871823149442nat, m) == 52201851231140582825056836079058590014092477020296440826796756647869020416498);
    lemma_pm_succ(7, 637119871823149442nat, m);
    assert(pm(7, 637119871823149443nat, m) == 50797707567226936898711409504294335072504024138909258851955344335451655808408);
    lemma_pm_double(7, 637119871823149443nat, m);
    assert(pm(7, 1274239743646298886nat, m) == 29995235721350194994216226947221411010321141391596936757222040372602054073981);
    lemma_pm_double(7, 1274239743646298886nat, m);
    assert(pm(7, 2548479487292597772nat, m) == 47170185451067040782269179641220094419938571769057418535757581816739116953786);
    lemma_pm_succ(7, 2548479487292597772nat, m);
    assert(pm(7, 2548479487292597773nat, m) == 15576047106712142599197814439424865913426687380236102814681120517542331569424);
    lemma_pm_double(7, 2548479487292597773nat, m);
    assert(pm(7, 5096958974585195546nat, m) == 37325103983106057343059224979135945228492246768854358086756042576557867410132);
    lemma_pm_double(7, 5096958974585195546nat, m);
    assert(pm(7, 10193917949170391092nat, m) == 24451789940826397693631464384021335637170499484823220003920734277061532012150);
    lemma_pm_succ(7, 10193917949170391092nat, m);
    assert(pm(7, 10193917949170391093nat, m) == 13854904060406212417077029163591451947121838892179626559634163839614980531511);
    lemma_pm_double(7, 10193917949170391093nat, m);
    assert(pm(7, 20387835898340782186nat, m) == 2608945935882007230225956992074869800958893227813244631668882516812483955487);
    lemma_pm_succ(7, 20387835898340782186nat, m);
    assert(pm(7, 20387835898340782187nat, m) == 18262621551174050611581698944524088606712252594692712421682177617687387688409);
    lemma_pm_double(7, 20387835898340782187nat, m);
    assert(pm(7, 40775671796681564374nat, m) == 2521394690007574073558219974886252155255497054397286039523046465876903625909);
    lemma_pm_double(7, 40775671796681564374nat, m);
    assert(pm(7, 81551343593363128748nat, m) == 12362943560551309527280594795940179446589992889401762902614651327034316621958);
    lemma_pm_succ(7, 81551343593363128748nat, m);
    assert(pm(7, 81551343593363128749nat, m) == 34104729748732976211516423063395290288439397725284702495698900589301635169193);
    lemma_pm_double(7, 81551343593363128749nat, m);
    assert(pm(7, 163102687186726257498nat, m) == 24967817438699531408696216561684770097629733554459983744625027827676115499893);
    lemma_pm_succ(7, 163102687186726257498nat, m);
    assert(pm(7, 163102687186726257499nat, m) == 17467096545518148422530294407235493170336477379636972744564218693917064945712);
    lemma_pm_double(7, 163102687186726257499nat, m);
    assert(pm(7, 326205374373452514998nat, m) == 14298534581285297286096597777139505861514048324483782880733485658143981616957);
    lemma_pm_succ(7, 326205374373452514998nat, m);
    assert(pm(7, 326205374373452514999nat, m) == 47653866893870890523228443931790575192907785770858842342530740907069290134186);
    lemma_pm_double(7, 326205374373452514999nat, m);
    assert(pm(7, 652410748746905029998nat, m) == 20742963170929015004970151200216683697585725023631289748649386955707481794498);
    lemma_pm_double(7, 652410748746905029998nat, m);
    assert(pm(7, 1304821497493810059996nat, m) == 27042017476410958990548044164397690210393357901077585316933719374620237151065);
    lemma_pm_double(7, 1304821497493810059996nat, m);
    assert(pm(7, 2609642994987620119992nat, m) == 24910267013752518491432631463911132354213984578942482645738796198753375868560);
    lemma_pm_succ(7, 2609642994987620119992nat, m);
    assert(pm(7, 2609642994987620119993nat, m) == 17064243570889058001685198722820028966426234551014465052360597291457887526381);
    lemma_pm_double(7, 2609642994987620119993nat, m);
    assert(pm(7, 5219285989975240239986nat, m) == 2285066715300985490186574278584774466109026709693512293189298527371786510993);
    lemma_pm_succ(7, 5219285989975240239986nat, m);
    assert(pm(7, 5219285989975240239987nat, m) == 15995467007106898431306019950093421262763186967854586052325089691602505576951);
    lemma_pm_double(7, 5219285989975240239987nat, m);
    assert(pm(7, 10438571979950480479974nat, m) == 21933321703492419336753060278034142618704968902195860550539724804997120273448);
    lemma_pm_succ(7, 10438571979950480479974nat, m);
    assert(pm(7, 10438571979950480479975nat, m) == 48661501574194554398375940929867066655553677314315748208570756235102679545110);
    lemma_pm_double(7, 10438571979950480479975nat, m);
    assert(pm(7, 20877143959900960959950nat, m) == 7567820954800092852892445606617970708250306074400002454416647567268233447845);
    lemma_pm_double(7, 20877143959900960959950nat, m);
    assert(pm(7, 41754287919801921919900nat, m) == 28922073521462233203893653871187172166031148149069531816624190433259102037794);
    lemma_pm_succ(7, 41754287919801921919900nat, m);
    assert(pm(7, 41754287919801921919901nat, m) == 45146889124857060988912355573752307649146379541903809248558356932997970711019);
    lemma_pm_double(7, 41754287919801921919901nat, m);
    assert(pm(7, 83508575839603843839802nat, m) == 9267286050050754638364086060960167381528760686320971557505220174103740668224);
    lemma_pm_double(7, 83508575839603843839802nat, m);
    assert(pm(7, 167017151679207687679604nat, m) == 16851933035609374690765415748154638361428490543443276539170678694091322617751);
    lemma_pm_succ(7, 167017151679207687679604nat, m);
    assert(pm(7, 167017151679207687679605nat, m) == 13091780899013241876462429220710536854618328803047660128987433458762095955231);
    lemma_pm_double(7, 167017151679207687679605nat, m);
    assert(pm(7, 334034303358415375359210nat, m) == 5576610509104758072014909131424966247798676109727661437120418062190717340718);
    lemma_pm_double(7, 334034303358415375359210nat, m);
    assert(pm(7, 668068606716830750718420nat, m) == 48420758167754497236452951762850642287839371476111048281858558025618390146067);
    lemma_pm_double(7, 668068606716830750718420nat, m);
    assert(pm(7, 1336137213433661501436840nat, m) == 32385840889093577181817614632156096137400405975175956010310819797612623750281);
    lemma_pm_succ(7, 1336137213433661501436840nat, m);
    assert(pm(7, 1336137213433661501436841nat, m) == 16957385523150278354932340392348809611040631824121140781761103783534041513915);
    lemma_pm_double(7, 1336137213433661501436841nat, m);
    assert(pm(7, 2672274426867323002873682nat, m) == 128563492450432562499736010210180371936352793279824314754543412671459245098);
    lemma_pm_double(7, 2672274426867323002873682nat, m);
    assert(pm(7, 5344548853734646005747364nat, m) == 33644892726480129178852206221417210851964736967911459807618077709924674064151);
    lemma_pm_succ(7, 5344548853734646005747364nat, m);
    assert(pm(7, 5344548853734646005747365nat, m) == 25770748384856142334174481517176612612990948773269667362911909169718393711005);
    lemma_pm_double(7, 5344548853734646005747365nat, m);
    assert(pm(7, 10689097707469292011494730nat, m) == 20312713721389810728546340128598186078577465515930839998617348270780593160153);
    lemma_pm_double(7, 10689097707469292011494730nat, m);
    assert(pm(7, 21378195414938584022989460nat, m) == 14811732086581841323486889363665878515893116077537027423739987547901077021636);
    lemma_pm_double(7, 21378195414938584022989460nat, m);
    assert(pm(7, 42756390829877168045978920nat, m) == 1569945599973386082252433360691268480077019522974917005997667039562341095540);
    lemma_pm_double(7, 42756390829877168045978920nat, m);
    assert(pm(7, 85512781659754336091957840nat, m) == 6734874747282117913747642019187665101076351966924143001271861297080519161340);
    lemma_pm_double(7, 85512781659754336091957840nat, m);
    assert(pm(7, 171025563319508672183915680nat, m) == 14695911304513350749000992281502032035358652818902442169412920563781686223623);
    lemma_pm_double(7, 171025563319508672183915680nat, m);
    assert(pm(7, 342051126639017344367831360nat, m) == 20625945609406186604113926717624961274290403890169768479810365272822057250906);
    lemma_pm_succ(7, 342051126639017344367831360nat, m);
    assert(pm(7, 342051126639017344367831361nat, m) == 39509868915590925269902006007002797244651722230133103713465239509877238387316);
    lemma_pm_double(7, 342051126639017344367831361nat, m);
    assert(pm(7, 684102253278034688735662722nat, m) == 35491881785614825955992253953597343839372186260070648020396890975051992914088);
    lemma_pm_double(7, 684102253278034688735662722nat, m);
    assert(pm(7, 1368204506556069377471325444nat, m) == 36956960865644302591424412570227969617712816940434632549212460333122797740868);
    lemma_pm_double(7, 1368204506556069377471325444nat, m);
    assert(pm(7, 2736409013112138754942650888nat, m) == 4113761389990301475091516500090100233315949738527870138104839254627451919279);
    lemma_pm_double(7, 2736409013112138754942650888nat, m);
    assert(pm(7, 5472818026224277509885301776nat, m) == 47255817488057692685696320779964377406471500319119232975770927141488200482076);
    lemma_pm_succ(7, 5472818026224277509885301776nat, m);
    assert(pm(7, 5472818026224277509885301777nat, m) == 16175471365646705923187802410634846819157187230668803894774537790785916267454);
    lemma_pm_double(7, 5472818026224277509885301777nat, m);
    assert(pm(7, 10945636052448555019770603554nat, m) == 23141018993576640448079503693572384436971603655536239596928759230042874335230);
    lemma_pm_succ(7, 10945636052448555019770603554nat, m);
    assert(pm(7, 10945636052448555019770603555nat, m) == 4679507429657911698213304330448793545729568087170763710690338510484376793071);
    lemma_pm_double(7, 10945636052448555019770603555nat, m);
    assert(pm(7, 21891272104897110039541207110nat, m) == 27771097787610176063075707243886349752282381502667042074130652700788435024140);
    lemma_pm_double(7, 21891272104897110039541207110nat, m);
    assert(pm(7, 43782544209794220079082414220nat, m) == 48296155321282648808661511568663820287652323618339952953449600349462526419388);
    lemma_pm_double(7, 43782544209794220079082414220nat, m);
    assert(pm(7, 87565088419588440158164828440nat, m) == 39007925359302124930160564657491237426696397771564608689616030011506593478751);
    lemma_pm_succ(7, 87565088419588440158164828440nat, m);
    assert(pm(7, 87565088419588440158164828441nat, m) == 10876101639483922113885250061508832798422021898314071714293916580853248428692);
    lemma_pm_double(7, 87565088419588440158164828441nat, m);
    assert(pm(7, 175130176839176880316329656882nat, m) == 7726937664760500795063759619671920135575555926819876584894226988018527301146);
    lemma_pm_double(7, 175130176839176880316329656882nat, m);
    assert(pm(7, 350260353678353760632659313764nat, m) == 463730617022819772361439286521196222356502537494063587514589870555463592002);
    lemma_pm_double(7, 350260353678353760632659313764nat, m);
    assert(pm(7, 700520707356707521265318627528nat, m) == 49146741527418649993481538314602686749605983900983254333634968405666719326409);
    lemma_pm_double(7, 700520707356707521265318627528nat, m);
    assert(pm(7, 1401041414713415042530637255056nat, m) == 38709890994947039192577404227865359151352630720792120198061480519934061011108);
    lemma_pm_succ(7, 1401041414713415042530637255056nat, m);
    assert(pm(7, 1401041414713415042530637255057nat, m) == 8789861088998321950803127054127684871015652542906652273412070139845521155191);
    lemma_pm_double(7, 1401041414713415042530637255057nat, m);
    assert(pm(7, 2802082829426830085061274510114nat, m) == 35884914038130630717285622863395014360031865852604233587147879599905065449896);
    lemma_pm_double(7, 2802082829426830085061274510114nat, m);
    assert(pm(7, 5604165658853660170122549020228nat, m) == 24815135937855041709551113102599672957383950382080276181880054807533264517911);
    lemma_pm_succ(7, 5604165658853660170122549020228nat, m);
    assert(pm(7, 5604165658853660170122549020229nat, m) == 16398326039606720528514570193639813188615995172979019805349407552917108071838);
    lemma_pm_double(7, 5604165658853660170122549020229nat, m);
    assert(pm(7, 11208331317707320340245098040458nat, m) == 30199404674288942937365368833050039047023869018131468810034008673061227369341);
    lemma_pm_succ(7, 11208331317707320340245098040458nat, m);
    assert(pm(7, 11208331317707320340245098040459nat, m) == 1652332019517838643766619798606409978404873124809730379823425911674266847335);
    lemma_pm_double(7, 11208331317707320340245098040459nat, m);
    assert(pm(7, 22416662635414640680490196080918nat, m) == 23363129111188716757333633705652705868300007048613762084555292697047314543109);
    lemma_pm_double(7, 22416662635414640680490196080918nat, m);
    assert(pm(7, 44833325270829281360980392161836nat, m) == 24923553347666268341276757054872596851877217843658525561639087399769999900695);
    lemma_pm_succ(7, 44833325270829281360980392161836nat, m);
    assert(pm(7, 44833325270829281360980392161837nat, m) == 17157247908285306950594077859550280450068867404026765463662635698574255751326);
    lemma_pm_double(7, 44833325270829281360980392161837nat, m);
    assert(pm(7, 89666650541658562721960784323674nat, m) == 38182685066446328551474951050104387136941083172166831648877180065294366606492);
    lemma_pm_double(7, 89666650541658562721960784323674nat, m);
    assert(pm(7, 179333301083317125443921568647348nat, m) == 12566768866426301105544573533920273887264138065584339669091081341560695313332);
    lemma_pm_double(7, 179333301083317125443921568647348nat, m);
    assert(pm(7, 358666602166634250887843137294696nat, m) == 2860999289929194016765283575790268448548878575376239330605474388403829771606);
    lemma_pm_succ(7, 358666602166634250887843137294696nat, m);
    assert(pm(7, 358666602166634250887843137294697nat, m) == 20026995029504358117356985030531879139842150027633675314238320718826808401242);
    lemma_pm_double(7, 358666602166634250887843137294697nat, m);
    assert(pm(7, 717333204333268501775686274589394nat, m) == 35751681180130735308975460591376128291654336243856137788335780765145934193523);
    lemma_pm_succ(7, 717333204333268501775686274589394nat, m);
    assert(pm(7, 717333204333268501775686274589395nat, m) == 40518267560410385245037262106889034690818143704882413227935830556267214616609);
    lemma_pm_double(7, 717333204333268501775686274589395nat, m);
    assert(pm(7, 1434666408666537003551372549178790nat, m) == 39315194362033468208987268967410007637487078986603101745542165846455016457997);
    lemma_pm_double(7, 1434666408666537003551372549178790nat, m);
    assert(pm(7, 2869332817333074007102745098357580nat, m) == 23349226948328695553699771069633198319527428860833705269804622983502925580100);
    lemma_pm_succ(7, 2869332817333074007102745098357580nat, m);
    assert(pm(7, 2869332817333074007102745098357581nat, m) == 6136963112922297437555175962874490723620344524253023420821384784704735507161);
    lemma_pm_double(7, 2869332817333074007102745098357581nat, m);
    assert(pm(7, 5738665634666148014205490196715162nat, m) == 8051491496238639619975245318475436983569748967365447525518581109953854628962);
    lemma_pm_succ(7, 5738665634666148014205490196715162nat, m);
    assert(pm(7, 5738665634666148014205490196715163nat, m) == 3924565298544286860378976721142093047297690271030494856026409069738401218221);
    lemma_pm_double(7, 5738665634666148014205490196715163nat, m);
    assert(pm(7, 11477331269332296028410980393430326nat, m) == 41515152157435317657896162405545079435433051996071448689242318229025940742104);
    lemma_pm_succ(7, 11477331269332296028410980393430326nat, m);
    assert(pm(7, 11477331269332296028410980393430327nat, m) == 28426689226416271208034434297885726859578601469861951711677934103488679272163);
    lemma_pm_double(7, 11477331269332296028410980393430327nat, m);
    assert(pm(7, 22954662538664592056821960786860654nat, m) == 6795771345203904392626370584772304187786827838487125836319344128206320307359);
    lemma_pm_succ(7, 22954662538664592056821960786860654nat, m);
    assert(pm(7, 22954662538664592056821960786860655nat, m) == 47570399416427330748384594093406129314507794869409880854235408897444242151513);
    lemma_pm_double(7, 22954662538664592056821960786860655nat, m);
    assert(pm(7, 45909325077329184113643921573721310nat, m) == 6171255097598380439581839658629178528029069468575640824744082610689593644129);
    lemma_pm_succ(7, 45909325077329184113643921573721310nat, m);
    assert(pm(7, 45909325077329184113643921573721311nat, m) == 43198785683188663077072877610404249696203486280029485773208578274827155508903);
    lemma_pm_double(7, 45909325077329184113643921573721311nat, m);
    assert(pm(7, 91818650154658368227287843147442622nat, m) == 43713553597428651830871175998217561253932343255474809950530816191442982699731);
    lemma_pm_succ(7, 91818650154658368227287843147442622nat, m);
    assert(pm(7, 91818650154658368227287843147442623nat, m) == 43815499306369610418859529446593099589073640285685480540697419840407972975552);
    lemma_pm_double(7, 91818650154658368227287843147442623nat, m);
    assert(pm(7, 183637300309316736454575686294885246nat, m) == 51916147737209535726401875713313614105950118299081021320252015877686100447641);
    lemma_pm_double(7, 183637300309316736454575686294885246nat, m);
    assert(pm(7, 367274600618633472909151372589770492nat, m) == 43858045403250803705570835875394994287795173017957808611692733581640517091070);
    lemma_pm_double(7, 367274600618633472909151372589770492nat, m);
    assert(pm(7, 734549201237266945818302745179540984nat, m) == 19674436272276046103949756604004388473910211031702363604861751247907278876163);
    lemma_pm_succ(7, 734549201237266945818302745179540984nat, m);
    assert(pm(7, 734549201237266945818302745179540985nat, m) == 32849303555679941768752815211658787641990372220861269588824941335473789764115);
    lemma_pm_double(7, 734549201237266945818302745179540985nat, m);
    assert(pm(7, 1469098402474533891636605490359081970nat, m) == 46246285756638298404706050243082069399546116598645184258687872185572281653923);
    lemma_pm_succ(7, 1469098402474533891636605490359081970nat, m);
    assert(pm(7, 1469098402474533891636605490359081971nat, m) == 9108749245710945956255908652458690770679501187350462875193153099374484470383);
    lemma_pm_double(7, 1469098402474533891636605490359081971nat, m);
    assert(pm(7, 2938196804949067783273210980718163942nat, m) == 27090366122699256936285773626103093728544691303746409031108883133657421490192);
    lemma_pm_succ(7, 2938196804949067783273210980718163942nat, m);
    assert(pm(7, 2938196804949067783273210980718163943nat, m) == 32324937333516227115657193858163758586741181624641949749951205835786206877805);
    lemma_pm_double(7, 2938196804949067783273210980718163943nat, m);
    assert(pm(7, 5876393609898135566546421961436327886nat, m) == 13638033463825754847660380230645503567898718842192826999431548363697867133976);
    lemma_pm_double(7, 5876393609898135566546421961436327886nat, m);
    assert(pm(7, 11752787219796271133092843922872655772nat, m) == 12013167171976926549620333530807368186360672017129035611309459119521029488154);
    lemma_pm_succ(7, 11752787219796271133092843922872655772nat, m);
    assert(pm(7, 11752787219796271133092843922872655773nat, m) == 31656295028712295367894594207465611466834151619375611456562555136708625232565);
    lemma_pm_double(7, 11752787219796271133092843922872655773nat, m);
    assert(pm(7, 23505574439592542266185687845745311546nat, m) == 21590445729787067083970631517924458441867799533595280279137509855966952155756);
    lemma_pm_succ(7, 23505574439592542266185687845745311546nat, m);
    assert(pm(7, 23505574439592542266185687845745311547nat, m) == 46261369758257088628898939609099277417693491734111686308755251591891502721266);
    lemma_pm_double(7, 23505574439592542266185687845745311547nat, m);
    assert(pm(7, 47011148879185084532371375691490623094nat, m) == 25545613121976676301524743834145906358048215307825374564564961849133445176656);
    lemma_pm_double(7, 47011148879185084532371375691490623094nat, m);
    assert(pm(7, 94022297758370169064742751382981246188nat, m) == 9329210748204163039118709397037143621689621051148472228899445996946841019136);
    lemma_pm_succ(7, 94022297758370169064742751382981246188nat, m);
    assert(pm(7, 94022297758370169064742751382981246189nat, m) == 12868600062302950794383225271074039514136794857511667779692463278689305949439);
    lemma_pm_double(7, 94022297758370169064742751382981246189nat, m);
    assert(pm(7, 188044595516740338129485502765962492378nat, m) == 30729985999705331707295075802035506982945486737234329406385095986599536884602);
    lemma_pm_double(7, 188044595516740338129485502765962492378nat, m);
    assert(pm(7, 376089191033480676258971005531924984756nat, m) == 11474395190525380163426322547036406628459200019980914251761980089540387337629);
    lemma_pm_succ(7, 376089191033480676258971005531924984756nat, m);
    assert(pm(7, 376089191033480676258971005531924984757nat, m) == 27884891158551470664536517321068880561523847639338761939730201926844130178890);
    lemma_pm_double(7, 376089191033480676258971005531924984757nat, m);
    assert(pm(7, 752178382066961352517942011063849969514nat, m) == 30250863601608427475181362329677084344647854678448434997478151656622402986130);
    lemma_pm_double(7, 752178382066961352517942011063849969514nat, m);
    assert(pm(7, 1504356764133922705035884022127699939028nat, m) == 29065554831996818714071061161616595698657629650737219594199442518040018998361);
    lemma_pm_succ(7, 1504356764133922705035884022127699939028nat, m);
    assert(pm(7, 1504356764133922705035884022127699939029nat, m) == 46151258298599159560154206606758272377531750053577623691585121526464389434988);
    lemma_pm_double(7, 1504356764133922705035884022127699939029nat, m);
    assert(pm(7, 3008713528267845410071768044255399878058nat, m) == 46017602111776574171509493169206631572182452742192866265904868541769301971209);
    lemma_pm_double(7, 3008713528267845410071768044255399878058nat, m);
    assert(pm(7, 6017427056535690820143536088510799756116nat, m) == 9874554647315943484316061740021376767744875564569703035663421198483983366286);
    lemma_pm_double(7, 6017427056535690820143536088510799756116nat, m);
    assert(pm(7, 12034854113071381640287072177021599512232nat, m) == 48003939429956263380665869566516203647244893408007940177759862263847481885266);
    lemma_pm_succ(7, 12034854113071381640287072177021599512232nat, m);
    assert(pm(7, 12034854113071381640287072177021599512233nat, m) == 21412324958936700787974643916497630504570938852889754308697083647300886089784);
    lemma_pm_double(7, 12034854113071381640287072177021599512233nat, m);
    assert(pm(7, 24069708226142763280574144354043199024466nat, m) == 371895837019244307765772508820799691237371186436680314607484548512600100805);
    lemma_pm_succ(7, 24069708226142763280574144354043199024466nat, m);
    assert(pm(7, 24069708226142763280574144354043199024467nat, m) == 2603270859134710154360407561745597838661598305056762202252391839588200705635);
    lemma_pm_double(7, 24069708226142763280574144354043199024467nat, m);
    assert(pm(7, 48139416452285526561148288708086398048934nat, m) == 34997682655773161757691298273673045282766356837536748234878672222373632628464);
    lemma_pm_double(7, 48139416452285526561148288708086398048934nat, m);
    assert(pm(7, 96278832904571053122296577416172796097868nat, m) == 25928479955496756026511162221053629919327936241492470082131846644377702227922);
    lemma_pm_succ(7, 96278832904571053122296577416172796097868nat, m);
    assert(pm(7, 96278832904571053122296577416172796097869nat, m) == 24191734163098720747234914022817511922223896188864377107111950410828172041915);
    lemma_pm_double(7, 96278832904571053122296577416172796097869nat, m);
    assert(pm(7, 192557665809142106244593154832345592195738nat, m) == 21319543215896552528851416747519994809810927470648715071675239431823176795103);
    lemma_pm_double(7, 192557665809142106244593154832345592195738nat, m);
    assert(pm(7, 385115331618284212489186309664691184391476nat, m) == 38597539563110616936449532130821919860945737021654015497746622232241801609322);
    lemma_pm_succ(7, 385115331618284212489186309664691184391476nat, m);
    assert(pm(7, 385115331618284212489186309664691184391477nat, m) == 8003401066143366157908022374823609838167396648939919371208062125999705342689);
    lemma_pm_double(7, 385115331618284212489186309664691184391477nat, m);
    assert(pm(7, 770230663236568424978372619329382368782954nat, m) == 45249174836782145552487050361477236945041017798453150664689776103506183758667);
    lemma_pm_double(7, 770230663236568424978372619329382368782954nat, m);
    assert(pm(7, 1540461326473136849956745238658764737565908nat, m) == 23289177143824155108645292878223632089267964161718125633576652495636398561241);
    lemma_pm_succ(7, 1540461326473136849956745238658764737565908nat, m);
    assert(pm(7, 1540461326473136849956745238658764737565909nat, m) == 5716614481390514322173828623007527111804091630443965967225591369639046375148);
    lemma_pm_double(7, 1540461326473136849956745238658764737565909nat, m);
    assert(pm(7, 3080922652946273699913490477317529475131818nat, m) == 22044222823658814212426462748878590602005312419234158031383592390967298034228);
    lemma_pm_succ(7, 3080922652946273699913490477317529475131818nat, m);
    assert(pm(7, 3080922652946273699913490477317529475131819nat, m) == 49437809415359318528089758225778202538656081933583830574477829336893923870570);
    lemma_pm_double(7, 3080922652946273699913490477317529475131819nat, m);
    assert(pm(7, 6161845305892547399826980954635058950263638nat, m) == 29823672183030453488678999872013803564014002467496199212116178859072040209269);
    lemma_pm_double(7, 6161845305892547399826980954635058950263638nat, m);
    assert(pm(7, 12323690611785094799653961909270117900527276nat, m) == 38522314708369132580848346444407090328869403437980967263318718181577300518024);
    lemma_pm_double(7, 12323690611785094799653961909270117900527276nat, m);
    assert(pm(7, 24647381223570189599307923818540235801054552nat, m) == 3727551092134634205834017768190194833246499033538473980404051920414999043978);
    lemma_pm_double(7, 24647381223570189599307923818540235801054552nat, m);
    assert(pm(7, 49294762447140379198615847637080471602109104nat, m) == 19620083528558881427772383246199137464136944651882537291847061321093591377809);
    lemma_pm_double(7, 49294762447140379198615847637080471602109104nat, m);
    assert(pm(7, 98589524894280758397231695274160943204218208nat, m) == 2497494162622475665512729829043006112176013802062659340170010407203365240389);
    lemma_pm_double(7, 98589524894280758397231695274160943204218208nat, m);
    assert(pm(7, 197179049788561516794463390548321886408436416nat, m) == 7877434971321735617212395710886626140885576071439493930225012273077663382251);
    lemma_pm_double(7, 197179049788561516794463390548321886408436416nat, m);
    assert(pm(7, 394358099577123033588926781096643772816872832nat, m) == 8164622740370365832434591002868407595380806296336662305853771034918987601158);
    lemma_pm_double(7, 394358099577123033588926781096643772816872832nat, m);
    assert(pm(7, 788716199154246067177853562193287545633745664nat, m) == 16280786819477701821291707767781383541637310728545650516105130259829809653786);
    lemma_pm_double(7, 788716199154246067177853562193287545633745664nat, m);
    assert(pm(7, 1577432398308492134355707124386575091267491328nat, m) == 33746019659161226731030979136621105688269927201898749907646101574092664585220);
    lemma_pm_succ(7, 1577432398308492134355707124386575091267491328nat, m);
    assert(pm(7, 1577432398308492134355707124386575091267491329nat, m) == 26478636913623825199425891923603876467127280411180698063108076218894327358488);
    lemma_pm_double(7, 1577432398308492134355707124386575091267491329nat, m);
    assert(pm(7, 3154864796616984268711414248773150182534982658nat, m) == 20491084839304869855718326620443593736519411693017942185320324317584606186362);
    lemma_pm_double(7, 3154864796616984268711414248773150182534982658nat, m);
    assert(pm(7, 6309729593233968537422828497546300365069965316nat, m) == 47436699061525441706936784621263166346199516778583477439373915333986354464185);
    lemma_pm_succ(7, 6309729593233968537422828497546300365069965316nat, m);
    assert(pm(7, 6309729593233968537422828497546300365069965317nat, m) == 17441642379920949071871049299726369397253302446918515139995455138272994142217);
    lemma_pm_double(7, 6309729593233968537422828497546300365069965317nat, m);
    assert(pm(7, 12619459186467937074845656995092600730139930634nat, m) == 8882388010459825189717583723537772488882350781010005011002371231205809757197);
    lemma_pm_succ(7, 12619459186467937074845656995092600730139930634nat, m);
    assert(pm(7, 12619459186467937074845656995092600730139930635nat, m) == 9740840898092585848575345556578441584485902966542397254412939918502087115866);
    lemma_pm_double(7, 12619459186467937074845656995092600730139930635nat, m);
    assert(pm(7, 25238918372935874149691313990185201460279861270nat, m) == 47503122305890815947347489902089415873848591816969445323809710113681691901562);
    lemma_pm_succ(7, 25238918372935874149691313990185201460279861270nat, m);
    assert(pm(7, 25238918372935874149691313990185201460279861271nat, m) == 17906605090478568754745986265510116090796827715620290331046018596140356203856);
    lemma_pm_double(7, 25238918372935874149691313990185201460279861271nat, m);
    assert(pm(7, 50477836745871748299382627980370402920559722542nat, m) == 23263804483341877537841023118021578104772444748393599558054357148453025144448);
    lemma_pm_double(7, 50477836745871748299382627980370402920559722542nat, m);
    assert(pm(7, 100955673491743496598765255960740805841119445084nat, m) == 20623090108848341579225060450050286519480488796930742875283758686767384364750);
    lemma_pm_succ(7, 100955673491743496598765255960740805841119445084nat, m);
    assert(pm(7, 100955673491743496598765255960740805841119445085nat, m) == 39489880411686010095679942133980073960982316577459924481778993407494528184224);
    lemma_pm_double(7, 100955673491743496598765255960740805841119445085nat, m);
    assert(pm(7, 201911346983486993197530511921481611682238890170nat, m) == 49472845938075068772921834425644925361277169241852665649145928910811975789425);
    lemma_pm_double(7, 201911346983486993197530511921481611682238890170nat, m);
    assert(pm(7, 403822693966973986395061023842963223364477780340nat, m) == 5782367074293702243191004895990570453497329479781116622361853844201407312849);
    lemma_pm_double(7, 403822693966973986395061023842963223364477780340nat, m);
    assert(pm(7, 807645387933947972790122047685926446728955560680nat, m) == 18962906214597262836076483565944393110429713365867509832524206812649321180649);
    lemma_pm_succ(7, 807645387933947972790122047685926446728955560680nat, m);
    assert(pm(7, 807645387933947972790122047685926446728955560681nat, m) == 27868593151928458893639903945238820097626888560017293182462130288668085895517);
    lemma_pm_double(7, 807645387933947972790122047685926446728955560681nat, m);
    assert(pm(7, 1615290775867895945580244095371852893457911121362nat, m) == 13538254655702959066187794310031800431652811476007057390908896785736968686818);
    lemma_pm_double(7, 1615290775867895945580244095371852893457911121362nat, m);
    assert(pm(7, 3230581551735791891160488190743705786915822242724nat, m) == 556323054403963887036626816019423594644846044696972586754115768691831669048);
    lemma_pm_succ(7, 3230581551735791891160488190743705786915822242724nat, m);
    assert(pm(7, 3230581551735791891160488190743705786915822242725nat, m) == 3894261380827747209256387712135965162513922312878808107278810380842821683336);
    lemma_pm_double(7, 3230581551735791891160488190743705786915822242725nat, m);
    assert(pm(7, 6461163103471583782320976381487411573831644485450nat, m) == 38165223377995378601159977095827386085113950488813207780000669739356081144068);
    lemma_pm_double(7, 6461163103471583782320976381487411573831644485450nat, m);
    assert(pm(7, 12922326206943167564641952762974823147663288970900nat, m) == 12695353180242310739201173199060582134646113827555686797455246719787956734325);
    lemma_pm_double(7, 12922326206943167564641952762974823147663288970900nat, m);
    assert(pm(7, 25844652413886335129283905525949646295326577941800nat, m) == 15860886811881103949900959474042593313414117379492609576929658034744250817430);
    lemma_pm_succ(7, 25844652413886335129283905525949646295326577941800nat, m);
    assert(pm(7, 25844652413886335129283905525949646295326577941801nat, m) == 6154457332915346690411235301926221518517716655392991393300288843332593352984);
    lemma_pm_double(7, 25844652413886335129283905525949646295326577941801nat, m);
    assert(pm(7, 51689304827772670258567811051899292590653155883602nat, m) == 6662078461294889215224750413897022700923398588336818530947191529776984454180);
    lemma_pm_succ(7, 51689304827772670258567811051899292590653155883602nat, m);
    assert(pm(7, 51689304827772670258567811051899292590653155883603nat, m) == 46634549229064224506573252897279158906463790118357729716630340708438891179260);
    lemma_pm_double(7, 51689304827772670258567811051899292590653155883603nat, m);
    assert(pm(7, 103378609655545340517135622103798585181306311767206nat, m) == 3511324674317710160956058018594130239293746962775475536026157213397050990570);
    lemma_pm_succ(7, 103378609655545340517135622103798585181306311767206nat, m);
    assert(pm(7, 103378609655545340517135622103798585181306311767207nat, m) == 24579272720223971126692406130158911675056228739428328752183100493779356933990);
    lemma_pm_double(7, 103378609655545340517135622103798585181306311767207nat, m);
    assert(pm(7, 206757219311090681034271244207597170362612623534414nat, m) == 23480077103008803458994633921185153515050297831909402245209205971420114639066);
    lemma_pm_double(7, 206757219311090681034271244207597170362612623534414nat, m);
    assert(pm(7, 413514438622181362068542488415194340725225247068828nat, m) == 18469745768683928548593596143362926178372793968174625084123036736974714257202);
    lemma_pm_succ(7, 413514438622181362068542488415194340725225247068828nat, m);
    assert(pm(7, 413514438622181362068542488415194340725225247068829nat, m) == 24416470030535118881259691987168551573228452776167099943653939758945837431388);
    lemma_pm_double(7, 413514438622181362068542488415194340725225247068829nat, m);
    assert(pm(7, 827028877244362724137084976830388681450450494137658nat, m) == 34823414500125835566847893997705988648556151525854753294531492594262953665222);
    lemma_pm_double(7, 827028877244362724137084976830388681450450494137658nat, m);
    assert(pm(7, 1654057754488725448274169953660777362900900988275316nat, m) == 12275227416171532975386148814498222041262560628349862784701416527137626168771);
    lemma_pm_double(7, 1654057754488725448274169953660777362900900988275316nat, m);
    assert(pm(7, 3308115508977450896548339907321554725801801976550632nat, m) == 22928902081420223749301684718602626088202709883186398662958210783428385162819);
    lemma_pm_succ(7, 3308115508977450896548339907321554725801801976550632nat, m);
    assert(pm(7, 3308115508977450896548339907321554725801801976550633nat, m) == 3194689044562994806768571505660485104347311680721877172896499384182952586194);
    lemma_pm_double(7, 3308115508977450896548339907321554725801801976550633nat, m);
    assert(pm(7, 6616231017954901793096679814643109451603603953101266nat, m) == 32523327652664628875960999510723785304248092546946670460895063476167521799370);
    lemma_pm_succ(7, 6616231017954901793096679814643109451603603953101266nat, m);
    assert(pm(7, 6616231017954901793096679814643109451603603953101267nat, m) == 17919792868147640213936034542322633778974437826516141935850809533418327857538);
    lemma_pm_double(7, 6616231017954901793096679814643109451603603953101267nat, m);
    assert(pm(7, 13232462035909803586193359629286218903207207906202534nat, m) == 8628912106041796065847617806235836056403324188351599929469588467295292549789);
    lemma_pm_double(7, 13232462035909803586193359629286218903207207906202534nat, m);
    assert(pm(7, 26464924071819607172386719258572437806414415812405068nat, m) == 42299267697925009406190544582185677919188285804179134716144304227351838173327);
    lemma_pm_succ(7, 26464924071819607172386719258572437806414415812405068nat, m);
    assert(pm(7, 26464924071819607172386719258572437806414415812405069nat, m) == 33915498009844113446095109534369916245865238126615753899991836091769961290724);
    lemma_pm_double(7, 26464924071819607172386719258572437806414415812405069nat, m);
    assert(pm(7, 52929848143639214344773438517144875612828831624810138nat, m) == 44047980857980098639649550357061691577464430830777195015329202695579560081519);
    lemma_pm_succ(7, 52929848143639214344773438517144875612828831624810138nat, m);
    assert(pm(7, 52929848143639214344773438517144875612828831624810139nat, m) == 46156490130229738080308149958502011853798253312802175994286125369364014648068);
    lemma_pm_double(7, 52929848143639214344773438517144875612828831624810139nat, m);
    assert(pm(7, 105859696287278428689546877034289751225657663249620278nat, m) == 23077681753933913541216726960080197603066176884097602734828307543001372218463);
    lemma_pm_succ(7, 105859696287278428689546877034289751225657663249620278nat, m);
    assert(pm(7, 105859696287278428689546877034289751225657663249620279nat, m) == 4236146752158823350173867196003485708391580687100305675987176701193861975702);
    lemma_pm_double(7, 105859696287278428689546877034289751225657663249620279nat, m);
    assert(pm(7, 211719392574556857379093754068579502451315326499240558nat, m) == 1469213752352654880241243247730592371690886666189528536274317382639640719452);
    lemma_pm_succ(7, 211719392574556857379093754068579502451315326499240558nat, m);
    assert(pm(7, 211719392574556857379093754068579502451315326499240559nat, m) == 10284496266468584161688702734114146601836206663326699753920221678477485036164);
    lemma_pm_double(7, 211719392574556857379093754068579502451315326499240559nat, m);
    assert(pm(7, 423438785149113714758187508137159004902630652998481118nat, m) == 30507494454346438240485014747571478405754920742730888585953110951229126914484);
    lemma_pm_double(7, 423438785149113714758187508137159004902630652998481118nat, m);
    assert(pm(7, 846877570298227429516375016274318009805261305996962236nat, m) == 30230616331715522417551427321769412343295863501002857969711696535953270833326);
    lemma_pm_double(7, 846877570298227429516375016274318009805261305996962236nat, m);
    assert(pm(7, 1693755140596454859032750032548636019610522611993924472nat, m) == 47769023071096727643902558430383377647113425466618727704441338789967669219279);
    lemma_pm_succ(7, 1693755140596454859032750032548636019610522611993924472nat, m);
    assert(pm(7, 1693755140596454859032750032548636019610522611993924473nat, m) == 19767910446919950630631465963567848503650663263165266995467419330142197427875);
    lemma_pm_double(7, 1693755140596454859032750032548636019610522611993924473nat, m);
    assert(pm(7, 3387510281192909718065500065097272039221045223987848946nat, m) == 18859006892514518258107271404456114402506942454052988694481176044664112028138);
    lemma_pm_succ(7, 3387510281192909718065500065097272039221045223987848946nat, m);
    assert(pm(7, 3387510281192909718065500065097272039221045223987848947nat, m) == 27141297897349246847855418814820869142167492177315645216160914912771621827940);
    lemma_pm_double(7, 3387510281192909718065500065097272039221045223987848947nat, m);
    assert(pm(7, 6775020562385819436131000130194544078442090447975697894nat, m) == 44154574503754711439486942085795586491044194557753100624864413332710349096218);
    lemma_pm_succ(7, 6775020562385819436131000130194544078442090447975697894nat, m);
    assert(pm(7, 6775020562385819436131000130194544078442090447975697895nat, m) == 46902645650652027679169892059639276248856599401633515261032599829279537750961);
    lemma_pm_double(7, 6775020562385819436131000130194544078442090447975697895nat, m);
    assert(pm(7, 13550041124771638872262000260389088156884180895951395790nat, m) == 48278735195979120394605799895021543074551803775912188683440493459115822313456);
    lemma_pm_double(7, 13550041124771638872262000260389088156884180895951395790nat, m);
    assert(pm(7, 27100082249543277744524000520778176313768361791902791580nat, m) == 3720844254112329761860297910848268447663407981908289146144376528287042636786);
    lemma_pm_double(7, 27100082249543277744524000520778176313768361791902791580nat, m);
    assert(pm(7, 54200164499086555489048001041556352627536723583805583160nat, m) == 13281274309919623699434964940642270883686308009012031384874109795106926191422);
    lemma_pm_succ(7, 54200164499086555489048001041556352627536723583805583160nat, m);
    assert(pm(7, 54200164499086555489048001041556352627536723583805583161nat, m) == 40533044994311175416597014076309930348113603562556581871515109865809902155441);
    lemma_pm_double(7, 54200164499086555489048001041556352627536723583805583161nat, m);
    assert(pm(7, 108400328998173110978096002083112705255073447167611166322nat, m) == 10938859226804886779157334521328729537545900877576846859005854776730752015707);
    lemma_pm_succ(7, 108400328998173110978096002083112705255073447167611166322nat, m);
    assert(pm(7, 108400328998173110978096002083112705255073447167611166323nat, m) == 24136139412508016974653601141115140925130753642510290190437324737176682925436);
    lemma_pm_double(7, 108400328998173110978096002083112705255073447167611166323nat, m);
    assert(pm(7, 216800657996346221956192004166225410510146894335222332646nat, m) == 14420020700057198224708324263164546830159755183591635747019426817403463554047);
    lemma_pm_double(7, 216800657996346221956192004166225410510146894335222332646nat, m);
    assert(pm(7, 433601315992692443912384008332450821020293788670444665292nat, m) == 46576649689238767785942255780436353787905228901413996273131378221637029239828);
    lemma_pm_succ(7, 433601315992692443912384008332450821020293788670444665292nat, m);
    assert(pm(7, 433601315992692443912384008332450821020293788670444665293nat, m) == 11421296773914231624909347413938681489193287306732146976297695351827717571718);
    lemma_pm_double(7, 433601315992692443912384008332450821020293788670444665293nat, m);
    assert(pm(7, 867202631985384887824768016664901642040587577340889330586nat, m) == 43877422840001541040220416788931018491947305136490164661403894699249195756149);
    lemma_pm_succ(7, 867202631985384887824768016664901642040587577340889330586nat, m);
    assert(pm(7, 867202631985384887824768016664901642040587577340889330587nat, m) == 44962584004379834884304214981587300255178373452792963516808969395051464370478);
    lemma_pm_double(7, 867202631985384887824768016664901642040587577340889330587nat, m);
    assert(pm(7, 1734405263970769775649536033329803284081175154681778661174nat, m) == 30806031498169014367805965551682143379553531705675790250974948067007567859775);
    lemma_pm_succ(7, 1734405263970769775649536033329803284081175154681778661174nat, m);
    assert(pm(7, 1734405263970769775649536033329803284081175154681778661175nat, m) == 5898719786678338656850796829031140306112511937619980466410001669298650280373);
    lemma_pm_double(7, 1734405263970769775649536033329803284081175154681778661175nat, m);
    assert(pm(7, 3468810527941539551299072066659606568162350309363557322350nat, m) == 25180422576361056332403621841355565446779525633054314131778372212814486526220);
    lemma_pm_double(7, 3468810527941539551299072066659606568162350309363557322350nat, m);
    assert(pm(7, 6937621055883079102598144133319213136324700618727114644700nat, m) == 48372830350187919448317661992918988965646434634272293895512237054993994448131);
    lemma_pm_succ(7, 6937621055883079102598144133319213136324700618727114644700nat, m);
    assert(pm(7, 6937621055883079102598144133319213136324700618727114644701nat, m) == 23994561400558293261537190901317127733381727436740230332963707185326474029839);
    lemma_pm_double(7, 6937621055883079102598144133319213136324700618727114644701nat, m);
    assert(pm(7, 13875242111766158205196288266638426272649401237454229289402nat, m) == 39784547754534307095750573674203722403951668360012472511117541597781074013938);
    lemma_pm_succ(7, 13875242111766158205196288266638426272649401237454229289402nat, m);
    assert(pm(7, 13875242111766158205196288266638426272649401237454229289403nat, m) == 16312458406109197273015313178496227639208916017449118464804497684774612175001);
    lemma_pm_double(7, 13875242111766158205196288266638426272649401237454229289403nat, m);
    assert(pm(7, 27750484223532316410392576533276852545298802474908458578806nat, m) == 51529322276216681065796159161811530846004365611097270444450792893943857107360);
    lemma_pm_double(7, 27750484223532316410392576533276852545298802474908458578806nat, m);
    assert(pm(7, 55500968447064632820785153066553705090597604949816917157612nat, m) == 41235709196647010104699812394965135020464499441965350501711549652376435799544);
    lemma_pm_succ(7, 55500968447064632820785153066553705090597604949816917157612nat, m);
    assert(pm(7, 55500968447064632820785153066553705090597604949816917157613nat, m) == 26470588500898118335659984223826115954798733591119264398962554066942144674243);
    lemma_pm_double(7, 55500968447064632820785153066553705090597604949816917157613nat, m);
    assert(pm(7, 111001936894129265641570306133107410181195209899633834315226nat, m) == 20840421376900339199711032107557653541411863268865664615652504048710859863906);
    lemma_pm_succ(7, 111001936894129265641570306133107410181195209899633834315226nat, m);
    assert(pm(7, 111001936894129265641570306133107410181195209899633834315227nat, m) == 41011199288049993439081743736531643114501937881004376664360210941098856678316);
    lemma_pm_double(7, 111001936894129265641570306133107410181195209899633834315227nat, m);
    assert(pm(7, 222003873788258531283140612266214820362390419799267668630454nat, m) == 52116738791015290643523949501108580555856323025935145780713421342364912435587);
    lemma_pm_succ(7, 222003873788258531283140612266214820362390419799267668630454nat, m);
    assert(pm(7, 222003873788258531283140612266214820362390419799267668630455nat, m) == 50201920486349891627981203458644268864850946178380193529371997196922899942031);
    lemma_pm_double(7, 222003873788258531283140612266214820362390419799267668630455nat, m);
    assert(pm(7, 444007747576517062566281224532429640724780839598535337260910nat, m) == 8017292537077900388155291120208944414192877453398755894160801850466453097788);
    lemma_pm_double(7, 444007747576517062566281224532429640724780839598535337260910nat, m);
    assert(pm(7, 888015495153034125132562449064859281449561679197070674521820nat, m) == 48673759109472251888763906946747924720972891458862463729468747277718732398536);
    lemma_pm_succ(7, 888015495153034125132562449064859281449561679197070674521820nat, m);
    assert(pm(7, 888015495153034125132562449064859281449561679197070674521821nat, m) == 26101062715548620344660905578119678020666925208871419170659278744399639682674);
    lemma_pm_double(7, 888015495153034125132562449064859281449561679197070674521821nat, m);
    assert(pm(7, 1776030990306068250265124898129718562899123358394141349043642nat, m) == 40673269062032488078706039359597898118472411853934510527648045287763105652079);
    lemma_pm_double(7, 1776030990306068250265124898129718562899123358394141349043642nat, m);
    assert(pm(7, 3552061980612136500530249796259437125798246716788282698087284nat, m) == 52243831235389086153145950321270038969040833749113755620106460337178265948545);
    lemma_pm_succ(7, 3552061980612136500530249796259437125798246716788282698087284nat, m);
    assert(pm(7, 3552061980612136500530249796259437125798246716788282698087285nat, m) == 51091567596966460195335209199774477757142521240630462405123270160616374532737);
    lemma_pm_double(7, 3552061980612136500530249796259437125798246716788282698087285nat, m);
    assert(pm(7, 7104123961224273001060499592518874251596493433576565396174570nat, m) == 29703555372155132322366267579754271346988043327314785769141881210035839929304);
    lemma_pm_double(7, 7104123961224273001060499592518874251596493433576565396174570nat, m);
    assert(pm(7, 14208247922448546002120999185037748503192986867153130792349140nat, m) == 51125029558456566838375622292177060861901928938240795672197125423644496664132);
    lemma_pm_succ(7, 14208247922448546002120999185037748503192986867153130792349140nat, m);
    assert(pm(7, 14208247922448546002120999185037748503192986867153130792349141nat, m) == 43259955858438824991942912996123631007170187564519742769757925765879989541846);
    lemma_pm_double(7, 14208247922448546002120999185037748503192986867153130792349141nat, m);
    assert(pm(7, 28416495844897092004241998370075497006385973734306261584698282nat, m) == 12904650043408081655082532510582523308663654903219382452122378601266354265825);
    lemma_pm_double(7, 28416495844897092004241998370075497006385973734306261584698282nat, m);
    assert(pm(7, 56832991689794184008483996740150994012771947468612523169396564nat, m) == 33042853148026063758358717867046214687020413003079074517510383447948156851883);
    lemma_pm_double(7, 56832991689794184008483996740150994012771947468612523169396564nat, m);
    assert(pm(7, 113665983379588368016967993480301988025543894937225046338793128nat, m) == 25933841926429113363913189329814981217848462305443787375683661621999104031290);
    lemma_pm_double(7, 113665983379588368016967993480301988025543894937225046338793128nat, m);
    assert(pm(7, 227331966759176736033935986960603976051087789874450092677586256nat, m) == 17149200642802276704511908199941786438980390928244573238820131195811247088286);
    lemma_pm_double(7, 227331966759176736033935986960603976051087789874450092677586256nat, m);
    assert(pm(7, 454663933518353472067871973921207952102175579748900185355172512nat, m) == 38611152108210772337790838184650942742685677451335339265573972407496277387718);
    lemma_pm_double(7, 454663933518353472067871973921207952102175579748900185355172512nat, m);
    assert(pm(7, 909327867036706944135743947842415904204351159497800370710345024nat, m) == 1325137475792838578323879577547781986247431088251555146994707452037659746005);
    lemma_pm_double(7, 909327867036706944135743947842415904204351159497800370710345024nat, m);
    assert(pm(7, 1818655734073413888271487895684831808408702318995600741420690048nat, m) == 28783457196981580305979817091260200533346367527264008263308467527201413994192);
    lemma_pm_double(7, 1818655734073413888271487895684831808408702318995600741420690048nat, m);
    assert(pm(7, 3637311468146827776542975791369663616817404637991201482841380096nat, m) == 24359707330929736845141573354989711767673938130283049216020896850222442953141);
    lemma_pm_double(7, 3637311468146827776542975791369663616817404637991201482841380096nat, m);
    assert(pm(7, 7274622936293655553085951582739327233634809275982402965682760192nat, m) == 48162273949119679680594794601499319260203614945732119307997911365590493565749);
    lemma_pm_double(7, 7274622936293655553085951582739327233634809275982402965682760192nat, m);
    assert(pm(7, 14549245872587311106171903165478654467269618551964805931365520384nat, m) == 29961201478661481759477797746162560796950644879331581454682875288638277333909);
    lemma_pm_double(7, 14549245872587311106171903165478654467269618551964805931365520384nat, m);
    assert(pm(7, 29098491745174622212343806330957308934539237103929611862731040768nat, m) == 20098724820221682745029823060513134600998435837834781540296061494237709333922);
    lemma_pm_double(7, 29098491745174622212343806330957308934539237103929611862731040768nat, m);
    assert(pm(7, 58196983490349244424687612661914617869078474207859223725462081536nat, m) == 1180846939423702030038616415440100367302950624924494144344755552121250077721);
    lemma_pm_double(7, 58196983490349244424687612661914617869078474207859223725462081536nat, m);
    assert(pm(7, 116393966980698488849375225323829235738156948415718447450924163072nat, m) == 752537160142962553743725383261488192077026967245852050076577700955532048596);
    lemma_pm_double(7, 116393966980698488849375225323829235738156948415718447450924163072nat, m);
    assert(pm(7, 232787933961396977698750450647658471476313896831436894901848326144nat, m) == 40667804570082330780616010820775963653135241450071945457963986813396760861639);
    lemma_pm_double(7, 232787933961396977698750450647658471476313896831436894901848326144nat, m);
    assert(pm(7, 465575867922793955397500901295316942952627793662873789803696652288nat, m) == 37301937960254939572439333735932856617724472337870734125839333166933963640914);
    lemma_pm_double(7, 465575867922793955397500901295316942952627793662873789803696652288nat, m);
    assert(pm(7, 931151735845587910795001802590633885905255587325747579607393304576nat, m) == 19593011424697074650426259879359307281240347684629987399067315965564282846193);
    lemma_pm_double(7, 931151735845587910795001802590633885905255587325747579607393304576nat, m);
    assert(pm(7, 1862303471691175821590003605181267771810511174651495159214786609152nat, m) == 7277866062820216815913893655734333093395339194578238703910150957026608584730);
    lemma_pm_double(7, 1862303471691175821590003605181267771810511174651495159214786609152nat, m);
    assert(pm(7, 3724606943382351643180007210362535543621022349302990318429573218304nat, m) == 18279257667069469284115365351859807615758901458977798370516131892926581582080);
    lemma_pm_double(7, 3724606943382351643180007210362535543621022349302990318429573218304nat, m);
    assert(pm(7, 7449213886764703286360014420725071087242044698605980636859146436608nat, m) == 51445222143788187939677940257406157065776485129902745229693286540007848966316);
    lemma_pm_double(7, 7449213886764703286360014420725071087242044698605980636859146436608nat, m);
    assert(pm(7, 14898427773529406572720028841450142174484089397211961273718292873216nat, m) == 38707211576242520367415085432214537618043544506160969713027676813020174786923);
    lemma_pm_double(7, 14898427773529406572720028841450142174484089397211961273718292873216nat, m);
    assert(pm(7, 29796855547058813145440057682900284348968178794423922547436585746432nat, m) == 47633411081196780164955152039178224556092725353333567324979077794080270974367);
    lemma_pm_double(7, 29796855547058813145440057682900284348968178794423922547436585746432nat, m);
    assert(pm(7, 59593711094117626290880115365800568697936357588847845094873171492864nat, m) == 39721679466365500654319359706510543119517613912768869305259925959877699702990);
    lemma_pm_double(7, 59593711094117626290880115365800568697936357588847845094873171492864nat, m);
    assert(pm(7, 119187422188235252581760230731601137395872715177695690189746342985728nat, m) == 25695312602660973475564828491790616451219586652631290693486460147404514689396);
    lemma_pm_double(7, 119187422188235252581760230731601137395872715177695690189746342985728nat, m);
    assert(pm(7, 238374844376470505163520461463202274791745430355391380379492685971456nat, m) == 25639888690375853310987802313827347166695571380782269406636491920977661463583);
    lemma_pm_double(7, 238374844376470505163520461463202274791745430355391380379492685971456nat, m);
    assert(pm(7, 476749688752941010327040922926404549583490860710782760758985371942912nat, m) == 49463919000081460337181361904940386934563800880494519015958928487327447934808);
    lemma_pm_double(7, 476749688752941010327040922926404549583490860710782760758985371942912nat, m);
    assert(pm(7, 953499377505882020654081845852809099166981721421565521517970743885824nat, m) == 30419540223795805073398068789840978271012350558373702783222920748650094921179);
    lemma_pm_double(7, 953499377505882020654081845852809099166981721421565521517970743885824nat, m);
    assert(pm(7, 1906998755011764041308163691705618198333963442843131043035941487771648nat, m) == 18699864053263574589563101808806405527066768355194348829133551579376478854659);
    lemma_pm_double(7, 1906998755011764041308163691705618198333963442843131043035941487771648nat, m);
    assert(pm(7, 3813997510023528082616327383411236396667926885686262086071882975543296nat, m) == 48058414568365133385794197850788580368659552764958367988068796356754571440793);
    lemma_pm_double(7, 3813997510023528082616327383411236396667926885686262086071882975543296nat, m);
    assert(pm(7, 7627995020047056165232654766822472793335853771372524172143765951086592nat, m) == 216218369142809747085031244603841452053431065125768231046510613107094825173);
    lemma_pm_double(7, 7627995020047056165232654766822472793335853771372524172143765951086592nat, m);
    assert(pm(7, 15255990040094112330465309533644945586671707542745048344287531902173184nat, m) == 49266758666920242812323283552999958484743219934089397187324658413470169083452);
    lemma_pm_double(7, 15255990040094112330465309533644945586671707542745048344287531902173184nat, m);
    assert(pm(7, 30511980080188224660930619067289891173343415085490096688575063804346368nat, m) == 21638310338961910290626191401196930571514980312025637430146066388848828740169);
    lemma_pm_double(7, 30511980080188224660930619067289891173343415085490096688575063804346368nat, m);
    assert(pm(7, 61023960160376449321861238134579782346686830170980193377150127608692736nat, m) == 46650213108022170713266871296380854050719049849705294301174774712973279642509);
}

/// `7^57853956009358636109763171259841369977448590444219211167666824479244288 mod 52435875175126190479447740508185965837690552500527637822603658699938581184513`.
proof fn lemma_pow_52435875175126190479447740508185965837690552500527637822603658699938581184513_by_906349()
    ensures
        pm(7, 57853956009358636109763171259841369977448590444219211167666824479244288nat, fr_modulus() as int) == 47009375709878424687795209168006564057444627941356163587161684439552631655798,
{
    let m: int = fr_modulus() as int;
    lemma_pm_one(7, m);
    lemma_pm_double(7, 1nat, m);
    assert(pm(7, 2nat, m) == 49);
    lemma_pm_double(7, 2nat, m);
    assert(pm(7, 4nat, m) == 2401);
    lemma_pm_double(7, 4nat, m);
    assert(pm(7, 8nat, m) == 5764801);
    lemma_pm_double(7, 8nat, m);
    assert(pm(7, 16nat, m) == 33232930569601);
    lemma_pm_double(7, 16nat, m);
    assert(pm(7, 32nat, m) == 1104427674243920646305299201);
    lemma_pm_succ(7, 32nat, m);
    assert(pm(7, 33nat, m) == 7730993719707444524137094407);
    lemma_pm_double(7, 33nat, m);
    assert(pm(7, 66nat, m) == 59768263894155949306790119265585619217025149412430681649);
    lemma_pm_succ(7, 66nat, m);
    assert(pm(7, 67nat, m) == 418377847259091645147530834859099334519176045887014771543);
    lemma_pm_double(7, 67nat, m);
    assert(pm(7, 134nat, m) == 32709710128667287283106200103813903820932474070465519814917267851209574890468);
    lemma_pm_double(7, 134nat, m);
    assert(pm(7, 268nat, m) == 16535196714177446922951330703621784122353495407091899152505280345580460731270);
    lemma_pm_double(7, 268nat, m);
    assert(pm(7, 536nat, m) == 34738667337345053426858717988443268007591039172076639264972483531894951522032);
    lemma_pm_double(7, 536nat, m);
    assert(pm(7, 1072nat, m) == 1964180952489685920904746711639025035980737484975396630745066459030074363745);
    lemma_pm_double(7, 1072nat, m);
    assert(pm(7, 2144nat, m) == 4557386500694515615704896093687460079900522604459890414202621490278927145062);
    lemma_pm_succ(7, 2144nat, m);
    assert(pm(7, 2145nat, m) == 31901705504861609309934272655812220559303658231219232899418350431952490015434);
    lemma_pm_double(7, 2145nat, m);
    assert(pm(7, 4290nat, m) == 247326999559048086526095815627537333193145857235861272408021702260846494888);
    lemma_pm_succ(7, 4290nat, m);
    assert(pm(7, 4291nat, m) == 1731288996913336605682670709392761332352021000651028906856151915825925464216);
    lemma_pm_double(7, 4291nat, m);
    assert(pm(7, 8582nat, m) == 34780004629391911801851768859762939090712987122900938696340562842935378348688);
    lemma_pm_succ(7, 8582nat, m);
    assert(pm(7, 8583nat, m) == 33716531705238620695171419985596710284228699858196019583969305100793323702764);
    lemma_pm_double(7, 8583nat, m);
    assert(pm(7, 17166nat, m) == 11979494012525209712409625872900469850058458593811842870554794006391341358028);
    lemma_pm_succ(7, 17166nat, m);
    assert(pm(7, 17167nat, m) == 31420582912550277507419640602117323112718657656155262271279899344800808321683);
    lemma_pm_double(7, 17167nat, m);
    assert(pm(7, 34334nat, m) == 6675506863642427270843947886577703178785718463179819159873223895209518079848);
    lemma_pm_double(7, 34334nat, m);
    assert(pm(7, 68668nat, m) == 19367862022670087322719608905773821331663092852500574941576488236607211465333);
    lemma_pm_succ(7, 68668nat, m);
    assert(pm(7, 68669nat, m) == 30703283808438230300141781324044817646260544966448748945828100256373317888305);
    lemma_pm_double(7, 68669nat, m);
    assert(pm(7, 137338nat, m) == 19926119042504768073209374311566083938942267799314869243720858117168336060109);
    lemma_pm_succ(7, 137338nat, m);
    assert(pm(7, 137339nat, m) == 34611082947280995553570139164590655897214769594148809060838689420301190051737);
    lemma_pm_double(7, 137339nat, m);
    assert(pm(7, 274678nat, m) == 43920427545909999427540432794902521690236184811548490687164885837375807752942);
    lemma_pm_double(7, 274678nat, m);
    assert(pm(7, 549356nat, m) == 35755713075045791091260380143972352588616902746925422940418955988729816388447);
    lemma_pm_double(7, 549356nat, m);
    assert(pm(7, 1098712nat, m) == 50977603451104158352013321731888918199588870721158006554251794413041554329585);
    lemma_pm_double(7, 1098712nat, m);
    assert(pm(7, 2197424nat, m) == 40686033871343888866081272961583634168822367817077201416910645192021011297607);
    lemma_pm_double(7, 2197424nat, m);
    assert(pm(7, 4394848nat, m) == 30194359138820088694155655455159781321596251453487908803891026030725530883814);
    lemma_pm_succ(7, 4394848nat, m);
    assert(pm(7, 4394849nat, m) == 1617013271235858941298626153374605900411550172304810336822547415324391448646);
    lemma_pm_double(7, 4394849nat, m);
    assert(pm(7, 8789698nat, m) == 48414408467947777176281495400040784228725674374759131418012294957229084741624);
    lemma_pm_double(7, 8789698nat, m);
    assert(pm(7, 17579396nat, m) == 7404416068964070619148718815021559386287293056526101923666902533781817569673);
    lemma_pm_succ(7, 17579396nat, m);
    assert(pm(7, 17579397nat, m) == 51830912482748494334041031705150915704011051395682713465668317736472722987711);
    lemma_pm_double(7, 17579397nat, m);
    assert(pm(7, 35158794nat, m) == 51025852200686697193526523612964253181511578557072428535912032519121329804125);
    lemma_pm_double(7, 35158794nat, m);
    assert(pm(7, 70317588nat, m) == 16429413542026266593468836883468809942267517512299082051341868250765122667925);
    lemma_pm_double(7, 70317588nat, m);
    assert(pm(7, 140635176nat, m) == 28120222107362917528908971696893446376832213962418849777483172185135586238346);
    lemma_pm_double(7, 140635176nat, m);
    assert(pm(7, 281270352nat, m) == 34781862965999892055836057602972443881599162370279938406400436102065682090873);
    lemma_pm_succ(7, 281270352nat, m);
    assert(pm(7, 281270353nat, m) == 33729540061494482473061441188063243820431926589849017554388417914705449898059);
    lemma_pm_double(7, 281270353nat, m);
    assert(pm(7, 562540706nat, m) == 34710738370589597406108230717908099137579710234704730552167047538176714037175);
    lemma_pm_double(7, 562540706nat, m);
    assert(pm(7, 1125081412nat, m) == 19588965180997677048540765084125211096723174686036528753134971948695226992347);
    lemma_pm_double(7, 1125081412nat, m);
    assert(pm(7, 2250162824nat, m) == 10016225458344480627705286150420521450759027519277933659384098663196424934150);
    lemma_pm_succ(7, 2250162824nat, m);
    assert(pm(7, 2250162825nat, m) == 17677703033285173914489262544757684317622640134417897793085031942436393354537);
    lemma_pm_double(7, 2250162825nat, m);
    assert(pm(7, 4500325650nat, m) == 3546401283436166564133784924161753749743447685047482565516430203076006300656);
    lemma_pm_succ(7, 4500325650nat, m);
    assert(pm(7, 4500325651nat, m) == 24824808984053165948936494469132276248204133795332377958615011421532044104592);
    lemma_pm_double(7, 4500325651nat, m);
    assert(pm(7, 9000651302nat, m) == 24242855599585123402021528873706335581377126238218862462149354808579741240484);
    lemma_pm_succ(7, 9000651302nat, m);
    assert(pm(7, 9000651303nat, m) == 12392363671717292375807480591386451556568226165949123767234507560242445129849);
    lemma_pm_double(7, 9000651303nat, m);
    assert(pm(7, 18001302606nat, m) == 50569541868797934809958643175429679985175494504169082756016648392542139883051);
    lemma_pm_double(7, 18001302606nat, m);
    assert(pm(7, 36002605212nat, m) == 34295097809147018612762447077449394352618429888705611835445716793878109835764);
    lemma_pm_succ(7, 36002605212nat, m);
    assert(pm(7, 36002605213nat, m) == 30322183963524368371546167509401897117566799218828731557705382757392444112296);
    lemma_pm_double(7, 36002605213nat, m);
    assert(pm(7, 72005210426nat, m) == 14751926799877543959395070729843818386058419097427262623558806533001075831042);
    lemma_pm_double(7, 72005210426nat, m);
    assert(pm(7, 144010420852nat, m) == 25773594584365984718615781585621224346846908153248777865907388963913823441445);
    lemma_pm_double(7, 144010420852nat, m);
    assert(pm(7, 288020841704nat, m) == 7408907830165152968889194474253495810066433037721466994150987067974817927948);
    lemma_pm_double(7, 288020841704nat, m);
    assert(pm(7, 576041683408nat, m) == 9523643014512704911803539090059365374622824908554218295585219338458919786038);
    lemma_pm_succ(7, 576041683408nat, m);
    assert(pm(7, 576041683409nat, m) == 14229625926462743903177033122229591784669221859351890246492876669273857317753);
    lemma_pm_double(7, 576041683409nat, m);
    assert(pm(7, 1152083366818nat, m) == 15482428750326596405706798944501003431190032135117506625245528915426224098471);
    lemma_pm_succ(7, 1152083366818nat, m);
    assert(pm(7, 1152083366819nat, m) == 3505250902033793881052111595135092342949119944767270731511385008106406320271);
    lemma_pm_double(7, 1152083366819nat, m);
    assert(pm(7, 2304166733638nat, m) == 16115091494181317141358709095226949011320316874508694586442333528960061338629);
    lemma_pm_double(7, 2304166733638nat, m);
    assert(pm(7, 4608333467276nat, m) == 4918775377003006377480764648009439522797971672174234044548081995611385804546);
    lemma_pm_double(7, 4608333467276nat, m);
    assert(pm(7, 9216666934552nat, m) == 19052016455300633070975322497878158531464581582336948515367950402454508873949);
    lemma_pm_double(7, 9216666934552nat, m);
    assert(pm(7, 18433333869104nat, m) == 30966487283931090805385326162627816841288748886543068702183632713632980200761);
    lemma_pm_double(7, 18433333869104nat, m);
    assert(pm(7, 36866667738208nat, m) == 6101878501044072042141718327875132703103678546531329617568906171084715986659);
    lemma_pm_double(7, 36866667738208nat, m);
    assert(pm(7, 73733335476416nat, m) == 43952941469665248326628336382341898361558478871328395759039398103727745521048);
    lemma_pm_succ(7, 73733335476416nat, m);
    assert(pm(7, 73733335476417nat, m) == 45491214412025785889159652135463459342456589596660581200257493226401312724771);
    lemma_pm_double(7, 73733335476417nat, m);
    assert(pm(7, 147466670952834nat, m) == 34024508360972310373919461325574486587402891635212050881911282004406838369118);
    lemma_pm_succ(7, 147466670952834nat, m);
    assert(pm(7, 147466670952835nat, m) == 28428057826301410699645267246277542761058031444373804882964339231093543845774);
    lemma_pm_double(7, 147466670952835nat, m);
    assert(pm(7, 294933341905670nat, m) == 49348729535960397367927343637653996391805345859482894913014567763033659194674);
    lemma_pm_double(7, 294933341905670nat, m);
    assert(pm(7, 589866683811340nat, m) == 3087310243693786186097969050954499641983033686247772340794174351370986094421);
    lemma_pm_double(7, 589866683811340nat, m);
    assert(pm(7, 1179733367622680nat, m) == 44664120974363987222626015209715988115838420241319789216063624195460841185102);
    lemma_pm_succ(7, 1179733367622680nat, m);
    assert(pm(7, 1179733367622681nat, m) == 50469470944916958161143403927082087622416179186600335399427075868532982373149);
    lemma_pm_double(7, 1179733367622681nat, m);
    assert(pm(7, 2359466735245362nat, m) == 24017521228469109538616206599071577584123374426093105708971872468100393912768);
    lemma_pm_double(7, 2359466735245362nat, m);
    assert(pm(7, 4718933470490724nat, m) == 25949561770619932277220625620630601527618576092232491374024130781584317875144);
    lemma_pm_double(7, 4718933470490724nat, m);
    assert(pm(7, 9437866940981448nat, m) == 8640111530495091338139581008006026087176886034378200917917428710697309967548);
    lemma_pm_succ(7, 9437866940981448nat, m);
    assert(pm(7, 9437866940981449nat, m) == 8044905538339448887529326547856216772547649740119768602818342274942588588323);
    lemma_pm_double(7, 9437866940981449nat, m);
    assert(pm(7, 18875733881962898nat, m) == 8033035533265029791317805974941418933369301842602418915089851645656449458277);
    lemma_pm_succ(7, 18875733881962898nat, m);
    assert(pm(7, 18875733881962899nat, m) == 3795373557729018059776901316403966695894560397689294583025302819656565023426);
    lemma_pm_double(7, 18875733881962899nat, m);
    assert(pm(7, 37751467763925798nat, m) == 4171500470671718497849627534200836430321529778169561788914904020629298774349);
    lemma_pm_succ(7, 37751467763925798nat, m);
    assert(pm(7, 37751467763925799nat, m) == 29200503294702029484947392739405855012250708447186932522404328144405091420443);
    lemma_pm_double(7, 37751467763925799nat, m);
    assert(pm(7, 75502935527851598nat, m) == 32587908611184252675971472745815144809314398818459947078148234784176449406994);
    lemma_pm_succ(7, 75502935527851598nat, m);
    assert(pm(7, 75502935527851599nat, m) == 18371859577785006814009347187962150314438581727109078256623008689480821110906);
    lemma_pm_double(7, 75502935527851599nat, m);
    assert(pm(7, 151005871055703198nat, m) == 44674679318050481688976107630022819015140984807630692776203716607015891930661);
    lemma_pm_double(7, 151005871055703198nat, m);
    assert(pm(7, 302011742111406396nat, m) == 41946157641874922421027752600379684283044780117695372163397081507124926845448);
    lemma_pm_double(7, 302011742111406396nat, m);
    assert(pm(7, 604023484222812792nat, m) == 13938775734615172923938677070126554584010315765013010768772828452548690577579);
    lemma_pm_succ(7, 604023484222812792nat, m);
    assert(pm(7, 604023484222812793nat, m) == 45135554967180019988122998982699916250381657854563437558806140467902252858540);
    lemma_pm_double(7, 604023484222812793nat, m);
    assert(pm(7, 1208046968445625586nat, m) == 8936555392749424123695301135696432136923020515379078999561366447890901902120);
    lemma_pm_succ(7, 1208046968445625586nat, m);
    assert(pm(7, 1208046968445625587nat, m) == 10120012574119778386419367441689059120770591107125915174325906435297732130327);
    lemma_pm_double(7, 1208046968445625587nat, m);
    assert(pm(7, 2416093936891251174nat, m) == 3057919084425486045400015655806666008609186595510861403503399023764812281877);
    lemma_pm_double(7, 2416093936891251174nat, m);
    assert(pm(7, 4832187873782502348nat, m) == 40524671135448340754982819845923511362492994460025165231504556382911039117094);
    lemma_pm_succ(7, 4832187873782502348nat, m);
    assert(pm(7, 4832187873782502349nat, m) == 21493322072507432887641036380534750348998198717537967507513601180684367897093);
    lemma_pm_double(7, 4832187873782502349nat, m);
    assert(pm(7, 9664375747565004698nat, m) == 5696230548037600117308250266573706020436176423991351946897264739137065154233);
    lemma_pm_double(7, 9664375747565004698nat, m);
    assert(pm(7, 19328751495130009396nat, m) == 4971813957746382110168754890055624623560725239274157111436038293784096242580);
    lemma_pm_succ(7, 19328751495130009396nat, m);
    assert(pm(7, 19328751495130009397nat, m) == 34802697704224674771181284230389372364925076674919099780052268056488673698060);
    lemma_pm_double(7, 19328751495130009397nat, m);
    assert(pm(7, 38657502990260018794nat, m) == 12672516887437483721481237361674855925206100266493347289913801002662144277652);
    lemma_pm_succ(7, 38657502990260018794nat, m);
    assert(pm(7, 38657502990260018795nat, m) == 36271743036936195570920921023538025638752149364925793206792948318696428759051);
    lemma_pm_double(7, 38657502990260018795nat, m);
    assert(pm(7, 77315005980520037590nat, m) == 26348225815106848635773961718909723912474573361745459161724214021385076065050);
    lemma_pm_succ(7, 77315005980520037590nat, m);
    assert(pm(7, 77315005980520037591nat, m) == 27129955180369369012074510507810169874250356030635300664258522049879788901811);
    lemma_pm_double(7, 77315005980520037591nat, m);
    assert(pm(7, 154630011961040075182nat, m) == 36786068395376428942286828731943814523729951365706563975646474342007316438222);
    lemma_pm_succ(7, 154630011961040075182nat, m);
    assert(pm(7, 154630011961040075183nat, m) == 47758978067130240678216839090862838315347449557835396539110685594296890329502);
    lemma_pm_double(7, 154630011961040075183nat, m);
    assert(pm(7, 309260023922080150366nat, m) == 4317514826599120861538822821917430412688946002464805267408767503045071067695);
    lemma_pm_succ(7, 309260023922080150366nat, m);
    assert(pm(7, 309260023922080150367nat, m) == 30222603786193846030771759753422012888822622017253636871861372521315497473865);
    lemma_pm_double(7, 309260023922080150367nat, m);
    assert(pm(7, 618520047844160300734nat, m) == 6703425739493368127444553841777255230659259045065076786865859503523562043672);
    lemma_pm_succ(7, 618520047844160300734nat, m);
    assert(pm(7, 618520047844160300735nat, m) == 46923980176453576892111876892440786614614813315455537508061016524664934305704);
    lemma_pm_double(7, 618520047844160300735nat, m);
    assert(pm(7, 1237040095688320601470nat, m) == 28790748389016569930955022193979037474674374678639608006633115946194334322519);
    lemma_pm_succ(7, 1237040095688320601470nat, m);
    assert(pm(7, 1237040095688320601471nat, m) == 44227613197737418078341933833295364809648965248894342578620835523544596704094);
    lemma_pm_double(7, 1237040095688320601471nat, m);
    assert(pm(7, 2474080191376641202942nat, m) == 37792982962167143366311192683790044120945594410798966570511751518672759712601);
    lemma_pm_succ(7, 2474080191376641202942nat, m);
    assert(pm(7, 2474080191376641202943nat, m) == 2371504859539051166939646245600479658166398372954576880563967131016412065642);
    lemma_pm_double(7, 2474080191376641202943nat, m);
    assert(pm(7, 4948160382753282405886nat, m) == 36540737250586216766128014238882491161423794382259771617249586372009398533688);
    lemma_pm_succ(7, 4948160382753282405886nat, m);
    assert(pm(7, 4948160382753282405887nat, m) == 46041660053598755445105137639433574779204350673707850030332469804311464997764);
    lemma_pm_double(7, 4948160382753282405887nat, m);
    assert(pm(7, 9896320765506564811774nat, m) == 12258153582487113344911333052120429821365161540420315982645603709002116599837);
    lemma_pm_double(7, 9896320765506564811774nat, m);
    assert(pm(7, 19792641531013129623548nat, m) == 38849432243375747590688703671015889459339944587856654777185647947489807314642);
    lemma_pm_double(7, 19792641531013129623548nat, m);
    assert(pm(7, 39585283062026259247096nat, m) == 41751363193436455898925072856064788879596824330618975321583597714671431875810);
    lemma_pm_succ(7, 39585283062026259247096nat, m);
    assert(pm(7, 39585283062026259247097nat, m) == 30080166478424238895236807451523692968725007811694638138066890503007117208105);
    lemma_pm_double(7, 39585283062026259247097nat, m);
    assert(pm(7, 79170566124052518494194nat, m) == 1880488939712310771720252027191383812836086323255798033046056303357073222160);
    lemma_pm_succ(7, 79170566124052518494194nat, m);
    assert(pm(7, 79170566124052518494195nat, m) == 13163422577986175402041764190339686689852604262790586231322394123499512555120);
    lemma_pm_double(7, 79170566124052518494195nat, m);
    assert(pm(7, 158341132248105036988390nat, m) == 32403235071085699650394576978061592357046397010976824987311368334371312405261);
    lemma_pm_succ(7, 158341132248105036988390nat, m);
    assert(pm(7, 158341132248105036988391nat, m) == 17079144797095135634971076813687283148562569074727223620764943540844862098775);
    lemma_pm_double(7, 158341132248105036988391nat, m);
    assert(pm(7, 316682264496210073976782nat, m) == 1581406088641385855159971870849639898629274621184850289896651411042792696158);
    lemma_pm_double(7, 316682264496210073976782nat, m);
    assert(pm(7, 633364528992420147953564nat, m) == 6648207699190511678858859064291882159380961793810197699864063760563474829222);
    lemma_pm_double(7, 633364528992420147953564nat, m);
    assert(pm(7, 1266729057984840295907128nat, m) == 10942868403772785804856257412945403562718377100279317790447302761101176710106);
    lemma_pm_double(7, 1266729057984840295907128nat, m);
    assert(pm(7, 2533458115969680591814256nat, m) == 29349670208096340118506494249212043268262367123632647184784826318627408409286);
    lemma_pm_succ(7, 2533458115969680591814256nat, m);
    assert(pm(7, 2533458115969680591814257nat, m) == 48140065931295809391202238219926405364764912363845616825682808130576115311463);
    lemma_pm_double(7, 2533458115969680591814257nat, m);
    assert(pm(7, 5066916231939361183628514nat, m) == 24798548775546932800205337524208531729023558348503102693160984312974867034043);
    lemma_pm_succ(7, 5066916231939361183628514nat, m);
    assert(pm(7, 5066916231939361183628515nat, m) == 16282215903449958163094141144901824590093250937938805384315914091008325684762);
    lemma_pm_double(7, 5066916231939361183628515nat, m);
    assert(pm(7, 10133832463878722367257030nat, m) == 8729788314954138150332440552397363083488292086604065053477107425118937532877);
    lemma_pm_double(7, 10133832463878722367257030nat, m);
    assert(pm(7, 20267664927757444734514060nat, m) == 29721169719399607132368217332801423914449443964708080291891986055549659312913);
    lemma_pm_double(7, 20267664927757444734514060nat, m);
    assert(pm(7, 40535329855514889469028120nat, m) == 49616146885418460279196846072127637460092312609663951968047840157531303729102);
    lemma_pm_succ(7, 40535329855514889469028120nat, m);
    assert(pm(7, 40535329855514889469028121nat, m) == 32697777147172079077691479455777667194502873264481836840712928903087638996636);
    lemma_pm_double(7, 40535329855514889469028121nat, m);
    assert(pm(7, 81070659711029778938056242nat, m) == 6144774005342408137415353951752303698183221119078550552444642468825364420552);
    lemma_pm_double(7, 81070659711029778938056242nat, m);
    assert(pm(7, 162141319422059557876112484nat, m) == 42591525401365129111683399316093745278471827396533629359330099091589295242609);
    lemma_pm_succ(7, 162141319422059557876112484nat, m);
    assert(pm(7, 162141319422059557876112485nat, m) == 35961301933924951384545092671726387760850029273097216402292400141432160775698);
    lemma_pm_double(7, 162141319422059557876112485nat, m);
    assert(pm(7, 324282638844119115752224970nat, m) == 33745590876170517998752210916774828224987338764365075247272494925252666575166);
    lemma_pm_double(7, 324282638844119115752224970nat, m);
    assert(pm(7, 648565277688238231504449940nat, m) == 18421715434287225194630172771069231983507034970521641367570386601691126839705);
    lemma_pm_succ(7, 648565277688238231504449940nat, m);
    assert(pm(7, 648565277688238231504449941nat, m) == 24080257689758195403515728381112692209168139792596213927785388811960725508909);
    lemma_pm_double(7, 648565277688238231504449941nat, m);
    assert(pm(7, 1297130555376476463008899882nat, m) == 42087737100544578422689951518178772451478262988597132091282476284173872804370);
    lemma_pm_succ(7, 1297130555376476463008899882nat, m);
    assert(pm(7, 1297130555376476463008899883nat, m) == 32434783828181096561590958086321577971895078417541735525959040489524203708025);
    lemma_pm_double(7, 1297130555376476463008899883nat, m);
    assert(pm(7, 2594261110752952926017799766nat, m) == 22666645346920389762836764915492143918327319221961473466830804889739669560885);
    lemma_pm_succ(7, 2594261110752952926017799766nat, m);
    assert(pm(7, 2594261110752952926017799767nat, m) == 1358891903064156901514132883887109915219577052147400800004658128361943372656);
    lemma_pm_double(7, 2594261110752952926017799767nat, m);
    assert(pm(7, 5188522221505905852035599534nat, m) == 20077799616981607270850681566299053597360741420762720029404467199743891247096);
    lemma_pm_double(7, 5188522221505905852035599534nat, m);
    assert(pm(7, 10377044443011811704071199068nat, m) == 37707694529086601428410441166696251866848318487959980981882005401229081541601);
    lemma_pm_succ(7, 10377044443011811704071199068nat, m);
    assert(pm(7, 10377044443011811704071199069nat, m) == 1774485827975257601634385625943933879485466913081677760155744308910664868642);
    lemma_pm_double(7, 10377044443011811704071199069nat, m);
    assert(pm(7, 20754088886023623408142398138nat, m) == 1433385847595217883954761096398504744663752244108866639669163993877542537386);
    lemma_pm_double(7, 20754088886023623408142398138nat, m);
    assert(pm(7, 41508177772047246816284796276nat, m) == 783805031158882956092010221576644981181322483161853201600447805561829856344);
    lemma_pm_double(7, 41508177772047246816284796276nat, m);
    assert(pm(7, 83016355544094493632569592552nat, m) == 29953509844333712722589041181093721325147042887906885441057962247029981917706);
    lemma_pm_double(7, 83016355544094493632569592552nat, m);
    assert(pm(7, 166032711088188987265139185104nat, m) == 25793913433607860127438846520724153831366589855151212514068097515012749769639);
    lemma_pm_double(7, 166032711088188987265139185104nat, m);
    assert(pm(7, 332065422176377974530278370208nat, m) == 16044447128257539804493463431091379110586778173173077894061357076640359795305);
    lemma_pm_double(7, 332065422176377974530278370208nat, m);
    assert(pm(7, 664130844352755949060556740416nat, m) == 2592319323286087356408815015796195477838363225723412468910572040115331714417);
    lemma_pm_succ(7, 664130844352755949060556740416nat, m);
    assert(pm(7, 664130844352755949060556740417nat, m) == 18146235263002611494861705110573368344868542580063887282374004280807322000919);
    lemma_pm_double(7, 664130844352755949060556740417nat, m);
    assert(pm(7, 1328261688705511898121113480834nat, m) == 30500060039615288912411404007253369130699013434926935999224330148438746449346);
    lemma_pm_succ(7, 1328261688705511898121113480834nat, m);
    assert(pm(7, 1328261688705511898121113480835nat, m) == 3756919576802260469088866018029720564130884042378000704155676239316900407370);
    lemma_pm_double(7, 1328261688705511898121113480835nat, m);
    assert(pm(7, 2656523377411023796242226961670nat, m) == 29427459612285915254005201773435872706694555452850445381927497939429615505120);
    lemma_pm_double(7, 2656523377411023796242226961670nat, m);
    assert(pm(7, 5313046754822047592484453923340nat, m) == 5666779610385120777482228487798619671916469891899481271539833902581920349753);
    lemma_pm_double(7, 5313046754822047592484453923340nat, m);
    assert(pm(7, 10626093509644095184968907846680nat, m) == 11631180767593907380391443626241841152777006693891401175848183894583492793302);
    lemma_pm_double(7, 10626093509644095184968907846680nat, m);
    assert(pm(7, 21252187019288190369937815693360nat, m) == 9516911972562655800563142912833902467274343218255516949006899243664307713955);
    lemma_pm_succ(7, 21252187019288190369937815693360nat, m);
    assert(pm(7, 21252187019288190369937815693361nat, m) == 14182508632812400124494259881651351433229850027260980820444636005711572813172);
    lemma_pm_double(7, 21252187019288190369937815693361nat, m);
    assert(pm(7, 42504374038576380739875631386722nat, m) == 1904404999429051202538779423105253716632564070916941845593567205569370029434);
    lemma_pm_succ(7, 42504374038576380739875631386722nat, m);
    assert(pm(7, 42504374038576380739875631386723nat, m) == 13330834996003358417771455961736776016427948496418592919154970438985590206038);
    lemma_pm_double(7, 42504374038576380739875631386723nat, m);
    assert(pm(7, 85008748077152761479751262773446nat, m) == 112589902050246779754471858846070678121876139447358933524844551014997362681);
    lemma_pm_double(7, 85008748077152761479751262773446nat, m);
    assert(pm(7, 170017496154305522959502525546892nat, m) == 51846638597456622316011422242604101291011365518799983663244962680091892773014);
    lemma_pm_succ(7, 170017496154305522959502525546892nat, m);
    assert(pm(7, 170017496154305522959502525546893nat, m) == 48311219131439213335393512649112914010936243628434058707092786561011762304020);
    lemma_pm_double(7, 170017496154305522959502525546893nat, m);
    assert(pm(7, 340034992308611045919005051093786nat, m) == 20564503173665180335046132217798214248155702131516396763303048103773256600209);
    lemma_pm_succ(7, 340034992308611045919005051093786nat, m);
    assert(pm(7, 340034992308611045919005051093787nat, m) == 39079771865403881386427444508215568061708809919559501697914019326535633832437);
    lemma_pm_double(7, 340034992308611045919005051093787nat, m);
    assert(pm(7, 680069984617222091838010102187574nat, m) == 21926353075674652270056225842975741686128506169220634318822303103626248861688);
    lemma_pm_double(7, 680069984617222091838010102187574nat, m);
    assert(pm(7, 1360139969234444183676020204375148nat, m) == 33967584834542320250504806118928175784823686040508713462555371352022986372055);
    lemma_pm_succ(7, 1360139969234444183676020204375148nat, m);
    assert(pm(7, 1360139969234444183676020204375149nat, m) == 28029593141291479835742680799753367143003592281450442947472964664406579866333);
    lemma_pm_double(7, 1360139969234444183676020204375149nat, m);
    assert(pm(7, 2720279938468888367352040408750298nat, m) == 1192624128406457666303380504934172433889453607015885128424583271473336729095);
    lemma_pm_double(7, 2720279938468888367352040408750298nat, m);
    assert(pm(7, 5440559876937776734704080817500596nat, m) == 44590676663651008058283473863604212183530038501578906373443934979470637673573);
    lemma_pm_succ(7, 5440559876937776734704080817500596nat, m);
    assert(pm(7, 5440559876937776734704080817500597nat, m) == 49955360769926104010745614504299656096257507008414155501089251356601557792446);
    lemma_pm_double(7, 5440559876937776734704080817500597nat, m);
    assert(pm(7, 10881119753875553469408161635001194nat, m) == 23430605128611068593985422015938781395016891249268561199588874967269534597272);
    lemma_pm_double(7, 10881119753875553469408161635001194nat, m);
    assert(pm(7, 21762239507751106938816323270002388nat, m) == 13024448454643032613290202303600502445404994298214929639748018776614677811408);
    lemma_pm_double(7, 21762239507751106938816323270002388nat, m);
    assert(pm(7, 43524479015502213877632646540004776nat, m) == 1781221775435780709258049894478630521938440750198328941559804467512805634758);
    lemma_pm_succ(7, 43524479015502213877632646540004776nat, m);
    assert(pm(7, 43524479015502213877632646540004777nat, m) == 12468552428050464964806349261350413653569085251388302590918631272589639443306);
    lemma_pm_double(7, 43524479015502213877632646540004777nat, m);
    assert(pm(7, 87048958031004427755265293080009554nat, m) == 47721936996432238304660511105393830733547173881353987308438817265576314954561);
    lemma_pm_succ(7, 87048958031004427755265293080009554nat, m);
    assert(pm(7, 87048958031004427755265293080009555nat, m) == 19438307924268525255937134688641020108686902166312084223449768659402717574849);
    lemma_pm_double(7, 87048958031004427755265293080009555nat, m);
    assert(pm(7, 174097916062008855510530586160019110nat, m) == 23692452941230632134770611739258377914152973225966420518197991366491023859701);
    lemma_pm_double(7, 174097916062008855510530586160019110nat, m);
    assert(pm(7, 348195832124017711021061172320038220nat, m) == 6245024014170917425475125624340075549072883436765846616185816639409188546394);
    lemma_pm_succ(7, 348195832124017711021061172320038220nat, m);
    assert(pm(7, 348195832124017711021061172320038221nat, m) == 43715168099196421978325879370380528843510184057360926313300716475864319824758);
    lemma_pm_double(7, 348195832124017711021061172320038221nat, m);
    assert(pm(7, 696391664248035422042122344640076442nat, m) == 4205424473745199975816004319874544897018457879812735793823609478762725520272);
    lemma_pm_succ(7, 696391664248035422042122344640076442nat, m);
    assert(pm(7, 696391664248035422042122344640076443nat, m) == 29437971316216399830712030239121814279129205158689150556765266351339078641904);
    lemma_pm_double(7, 696391664248035422042122344640076443nat, m);
    assert(pm(7, 1392783328496070844084244689280152886nat, m) == 25596933410946931791318202191213607724656597898404533596085107717240657991547);
    lemma_pm_double(7, 1392783328496070844084244689280152886nat, m);
    assert(pm(7, 2785566656992141688168489378560305772nat, m) == 49720511150792372047732216496905399688426499775222668140143607115020798794074);
    lemma_pm_succ(7, 2785566656992141688168489378560305772nat, m);
    assert(pm(7, 2785566656992141688168489378560305773nat, m) == 33428327004789461457439072429222002792842183423392850045383297605514104451440);
    lemma_pm_double(7, 2785566656992141688168489378560305773nat, m);
    assert(pm(7, 5571133313984283376336978757120611546nat, m) == 26187538891990062193975685377859725310995412298653551939826838153685949793007);
    lemma_pm_double(7, 5571133313984283376336978757120611546nat, m);
    assert(pm(7, 11142266627968566752673957514241223092nat, m) == 21369440918845959855367820158079516953976087440033496900925327957519288037107);
    lemma_pm_double(7, 11142266627968566752673957514241223092nat, m);
    assert(pm(7, 22284533255937133505347915028482446184nat, m) == 16301300941763926992412910240227018052646365929170526162995984318573857884083);
    lemma_pm_succ(7, 22284533255937133505347915028482446184nat, m);
    assert(pm(7, 22284533255937133505347915028482446185nat, m) == 9237356242095107987994890665217194693143456503138407495764572830139842819555);
    lemma_pm_double(7, 22284533255937133505347915028482446185nat, m);
    assert(pm(7, 44569066511874267010695830056964892370nat, m) == 46520999385497601234111470796909681490725466973449444334619336947050590788676);
    lemma_pm_double(7, 44569066511874267010695830056964892370nat, m);
    assert(pm(7, 89138133023748534021391660113929784740nat, m) == 31959714622408751013815237909309795065705690568183564447913487354125444340038);
    lemma_pm_double(7, 89138133023748534021391660113929784740nat, m);
    assert(pm(7, 178276266047497068042783320227859569480nat, m) == 36668108802113572656744576313223533702829257760818617254375670242979616293855);
    lemma_pm_double(7, 178276266047497068042783320227859569480nat, m);
    assert(pm(7, 356552532094994136085566640455719138960nat, m) == 25176615501303479612478731007127218201940658899382494971776372417229448901345);
    lemma_pm_double(7, 356552532094994136085566640455719138960nat, m);
    assert(pm(7, 713105064189988272171133280911438277920nat, m) == 18260393306891799196858716454882919105607734735487496367539144420080948549845);
    lemma_pm_double(7, 713105064189988272171133280911438277920nat, m);
    assert(pm(7, 1426210128379976544342266561822876555840nat, m) == 3135692119140904569758257814626684428400620605675678517051698350646029909038);
    lemma_pm_double(7, 1426210128379976544342266561822876555840nat, m);
    assert(pm(7, 2852420256759953088684533123645753111680nat, m) == 25422429127285472895518502937257014652226344543365099277570102455752481101384);
    lemma_pm_succ(7, 2852420256759953088684533123645753111680nat, m);
    assert(pm(7, 2852420256759953088684533123645753111681nat, m) == 20649378365619738830286299036241205052512754301972781475179741090451624156149);
    lemma_pm_double(7, 2852420256759953088684533123645753111681nat, m);
    assert(pm(7, 5704840513519906177369066247291506223362nat, m) == 48988797065959839300212101266835853296053758667041607150175298640581620164518);
    lemma_pm_succ(7, 5704840513519906177369066247291506223362nat, m);
    assert(pm(7, 5704840513519906177369066247291506223363nat, m) == 28306328410961732224798265818735178046232995666125423115605138284439854044548);
    lemma_pm_double(7, 5704840513519906177369066247291506223363nat, m);
    assert(pm(7, 11409681027039812354738132494583012446726nat, m) == 19019117757922106618603016275131563885300182933570687096379984945969077043733);
    lemma_pm_double(7, 11409681027039812354738132494583012446726nat, m);
    assert(pm(7, 22819362054079624709476264989166024893452nat, m) == 44825964378776869033624603996952975639460172495870299900902266302653983336729);
    lemma_pm_succ(7, 22819362054079624709476264989166024893452nat, m);
    assert(pm(7, 22819362054079624709476264989166024893453nat, m) == 51602374775807130838133525437741000287768444968453910193297570618884977434538);
    lemma_pm_double(7, 22819362054079624709476264989166024893453nat, m);
    assert(pm(7, 45638724108159249418952529978332049786906nat, m) == 27018615367747172190180449115796129665126904383420700609778386556287623218998);
    lemma_pm_succ(7, 45638724108159249418952529978332049786906nat, m);
    assert(pm(7, 45638724108159249418952529978332049786907nat, m) == 31822682048851633892919922286015010142816673182361990800637729794197618979447);
    lemma_pm_double(7, 45638724108159249418952529978332049786907nat, m);
    assert(pm(7, 91277448216318498837905059956664099573814nat, m) == 8287264877809121049553455286969710008370952765414181195304312108762797895762);
    lemma_pm_succ(7, 91277448216318498837905059956664099573814nat, m);
    assert(pm(7, 91277448216318498837905059956664099573815nat, m) == 5574978969537656867426446500602004220906116857371630544526526061401004085821);
    lemma_pm_double(7, 91277448216318498837905059956664099573815nat, m);
    assert(pm(7, 182554896432636997675810119913328199147630nat, m) == 16211729375764592673721889338569664236733078459757925346040179115889058700284);
    lemma_pm_double(7, 182554896432636997675810119913328199147630nat, m);
    assert(pm(7, 365109792865273995351620239826656398295260nat, m) == 38650780242175818179578686887902477232478417090296381828307180081330485663734);
    lemma_pm_succ(7, 365109792865273995351620239826656398295260nat, m);
    assert(pm(7, 365109792865273995351620239826656398295261nat, m) == 8376085819599774859812105674387511438896157129436483685131967069620493723573);
    lemma_pm_double(7, 365109792865273995351620239826656398295261nat, m);
    assert(pm(7, 730219585730547990703240479653312796590522nat, m) == 32511193013509332930231695033468394549506380865325949125274993514872747963397);
    lemma_pm_double(7, 730219585730547990703240479653312796590522nat, m);
    assert(pm(7, 1460439171461095981406480959306625593181044nat, m) == 30567975742342008240380189605924211697153102328007875871690495816443968112138);
    lemma_pm_double(7, 1460439171461095981406480959306625593181044nat, m);
    assert(pm(7, 2920878342922191962812961918613251186362088nat, m) == 2871854755627911886040838002078691926052200604095311564213822922749697479659);
    lemma_pm_double(7, 2920878342922191962812961918613251186362088nat, m);
    assert(pm(7, 5841756685844383925625923837226502372724176nat, m) == 44232894127472562576974243336640121660646368344179540274729607604510190184660);
    lemma_pm_succ(7, 5841756685844383925625923837226502372724176nat, m);
    assert(pm(7, 5841756685844383925625923837226502372724177nat, m) == 47450883016676985641581000815551022436071815906618592810088959731878425370055);
    lemma_pm_double(7, 5841756685844383925625923837226502372724177nat, m);
    assert(pm(7, 11683513371688767851251847674453004745448354nat, m) == 41257996050690065870814715827355152698919917076533293838239910778763029039066);
    lemma_pm_double(7, 11683513371688767851251847674453004745448354nat, m);
    assert(pm(7, 23367026743377535702503695348906009490896708nat, m) == 22560173178510374288120794502235664827454931214131620234899398844134194711004);
    lemma_pm_succ(7, 23367026743377535702503695348906009490896708nat, m);
    assert(pm(7, 23367026743377535702503695348906009490896709nat, m) == 613586724194048578502339991091756279112860997338428176484815809123619423489);
    lemma_pm_double(7, 23367026743377535702503695348906009490896709nat, m);
    assert(pm(7, 46734053486755071405007390697812018981793418nat, m) == 18591675859752968746889320252588182588969043877401830320786927530552234679725);
    lemma_pm_double(7, 46734053486755071405007390697812018981793418nat, m);
    assert(pm(7, 93468106973510142810014781395624037963586836nat, m) == 3013748374017828838899745535233295190270940798648218282690977087833006481710);
    lemma_pm_succ(7, 93468106973510142810014781395624037963586836nat, m);
    assert(pm(7, 93468106973510142810014781395624037963586837nat, m) == 21096238618124801872298218746633066331896585590537527978836839614831045371970);
    lemma_pm_double(7, 93468106973510142810014781395624037963586837nat, m);
    assert(pm(7, 186936213947020285620029562791248075927173674nat, m) == 37481320746636920224979408679427009147838303094252616049020415804450636846537);
    lemma_pm_succ(7, 186936213947020285620029562791248075927173674nat, m);
    assert(pm(7, 186936213947020285620029562791248075927173675nat, m) == 189869350827489177617158215059234846415359157130123230124617131461552003194);
    lemma_pm_double(7, 186936213947020285620029562791248075927173675nat, m);
    assert(pm(7, 373872427894040571240059125582496151854347350nat, m) == 49321308276750969460342700086150259903892190667595141688626334026358481983347);
    lemma_pm_succ(7, 373872427894040571240059125582496151854347350nat, m);
    assert(pm(7, 373872427894040571240059125582496151854347351nat, m) == 30633906886499643345712457553936024301102019670000164884762385984877886776351);
    lemma_pm_double(7, 373872427894040571240059125582496151854347351nat, m);
    assert(pm(7, 747744855788081142480118251164992303708694702nat, m) == 20604108164567853500472872437819811978648080777249780069048665048568421270978);
    lemma_pm_succ(7, 747744855788081142480118251164992303708694702nat, m);
    assert(pm(7, 747744855788081142480118251164992303708694703nat, m) == 39357006801722593544414626048366752175155460439693184838133337940101786527820);
    lemma_pm_double(7, 747744855788081142480118251164992303708694703nat, m);
    assert(pm(7, 1495489711576162284960236502329984607417389406nat, m) == 50695704702380338914406342298929962007655182574383786559688530197091354680480);
    lemma_pm_succ(7, 1495489711576162284960236502329984607417389406nat, m);
    assert(pm(7, 1495489711576162284960236502329984607417389407nat, m) == 40254681865905229524157953043393939027442963017520678982197759180007995656282);
    lemma_pm_double(7, 1495489711576162284960236502329984607417389407nat, m);
    assert(pm(7, 2990979423152324569920473004659969214834778814nat, m) == 1897652256541178481750091692653742512040117374902135476846006636238256150535);
    lemma_pm_succ(7, 2990979423152324569920473004659969214834778814nat, m);
    assert(pm(7, 2990979423152324569920473004659969214834778815nat, m) == 13283565795788249372250641848576197584280821624314948337922046453667793053745);
    lemma_pm_double(7, 2990979423152324569920473004659969214834778815nat, m);
    assert(pm(7, 5981958846304649139840946009319938429669557630nat, m) == 35002070091670869493119354538286088518278706422984287059871499658423772074252);
    lemma_pm_double(7, 5981958846304649139840946009319938429669557630nat, m);
    assert(pm(7, 11963917692609298279681892018639876859339115260nat, m) == 31829363137802719821607656787440909968358147738482689328219661488124901936165);
    lemma_pm_double(7, 11963917692609298279681892018639876859339115260nat, m);
    assert(pm(7, 23927835385218596559363784037279753718678230520nat, m) == 30373282735017921568178023697911606119276583603842026074944213814310040661856);
    lemma_pm_succ(7, 23927835385218596559363784037279753718678230520nat, m);
    assert(pm(7, 23927835385218596559363784037279753718678230521nat, m) == 2869478444620689059455203852637379484173875224783631234194861900415959894940);
    lemma_pm_double(7, 23927835385218596559363784037279753718678230521nat, m);
    assert(pm(7, 47855670770437193118727568074559507437356461042nat, m) == 32249484434490014590739762461440743933738048817686945328409104755366062067383);
    lemma_pm_succ(7, 47855670770437193118727568074559507437356461042nat, m);
    assert(pm(7, 47855670770437193118727568074559507437356461043nat, m) == 16002890340925340217387375197341344185404131721698066008449098487808109733629);
    lemma_pm_double(7, 47855670770437193118727568074559507437356461043nat, m);
    assert(pm(7, 95711341540874386237455136149119014874712922086nat, m) == 42206957438117523790493707291326999827743941925831127434235570359540488817397);
    lemma_pm_double(7, 95711341540874386237455136149119014874712922086nat, m);
    assert(pm(7, 191422683081748772474910272298238029749425844172nat, m) == 1149796545517811856576946231926462746623679430371780783263661243807389807223);
    lemma_pm_double(7, 191422683081748772474910272298238029749425844172nat, m);
    assert(pm(7, 382845366163497544949820544596476059498851688344nat, m) == 19702935105670686726208173399642604721727597250236930470811900688544528374770);
    lemma_pm_succ(7, 382845366163497544949820544596476059498851688344nat, m);
    assert(pm(7, 382845366163497544949820544596476059498851688345nat, m) == 33048795389442426124561732781126301376712075750603237650475987419934536254364);
    lemma_pm_double(7, 382845366163497544949820544596476059498851688345nat, m);
    assert(pm(7, 765690732326995089899641089192952118997703376690nat, m) == 17265933304159244125044804572334744199419019672090111902685039400307133220690);
    lemma_pm_double(7, 765690732326995089899641089192952118997703376690nat, m);
    assert(pm(7, 1531381464653990179799282178385904237995406753380nat, m) == 43593795685106335990396615560024655714245599395023368400546628072748256115737);
    lemma_pm_double(7, 1531381464653990179799282178385904237995406753380nat, m);
    assert(pm(7, 3062762929307980359598564356771808475990813506760nat, m) == 4060236670879945144020311709783126638875088054557493876640275456361925550427);
    lemma_pm_succ(7, 3062762929307980359598564356771808475990813506760nat, m);
    assert(pm(7, 3062762929307980359598564356771808475990813506761nat, m) == 28421656696159616008142181968481886472125616381902457136481928194533478852989);
    lemma_pm_double(7, 3062762929307980359598564356771808475990813506761nat, m);
    assert(pm(7, 6125525858615960719197128713543616951981627013522nat, m) == 27923680341890677287005443978264083038322165689695838792315217200850097091856);
    lemma_pm_double(7, 6125525858615960719197128713543616951981627013522nat, m);
    assert(pm(7, 12251051717231921438394257427087233903963254027044nat, m) == 4627415573841166559678771801500138531755371054628423188969465195684534856938);
    lemma_pm_succ(7, 12251051717231921438394257427087233903963254027044nat, m);
    assert(pm(7, 12251051717231921438394257427087233903963254027045nat, m) == 32391909016888165917751402610500969722287597382398962322786256369791743998566);
    lemma_pm_double(7, 12251051717231921438394257427087233903963254027045nat, m);
    assert(pm(7, 24502103434463842876788514854174467807926508054090nat, m) == 42500554674781122511140060288941344226350573818872797353619324600592430971674);
    lemma_pm_succ(7, 24502103434463842876788514854174467807926508054090nat, m);
    assert(pm(7, 24502103434463842876788514854174467807926508054091nat, m) == 35324506847836905180741719481659580396001254229471392362316978704454110879153);
    lemma_pm_double(7, 24502103434463842876788514854174467807926508054091nat, m);
    assert(pm(7, 49004206868927685753577029708348935615853016108182nat, m) == 40170729176522413419199544267029735460353828333318564552906032865406625797849);
    lemma_pm_succ(7, 49004206868927685753577029708348935615853016108182nat, m);
    assert(pm(7, 49004206868927685753577029708348935615853016108183nat, m) == 19015728360025941537158107328278319034024035830591762757323936558153474662378);
    lemma_pm_double(7, 49004206868927685753577029708348935615853016108183nat, m);
    assert(pm(7, 98008413737855371507154059416697871231706032216366nat, m) == 8618124829119843763874003749727159853112620178106659629468271341132628902712);
    lemma_pm_succ(7, 98008413737855371507154059416697871231706032216366nat, m);
    assert(pm(7, 98008413737855371507154059416697871231706032216367nat, m) == 7890998628712715867670285739904153134097788746218979583674240687989821134471);
    lemma_pm_double(7, 98008413737855371507154059416697871231706032216367nat, m);
    assert(pm(7, 196016827475710743014308118833395742463412064432734nat, m) == 16223352563753868262339342382116143888417350802798406203086784053076011276081);
    lemma_pm_succ(7, 196016827475710743014308118833395742463412064432734nat, m);
    assert(pm(7, 196016827475710743014308118833395742463412064432735nat, m) == 8691717596024696877479915658441075543540350618533567776400170971654916563541);
    lemma_pm_double(7, 196016827475710743014308118833395742463412064432735nat, m);
    assert(pm(7, 392033654951421486028616237666791484926824128865470nat, m) == 43334079777856088316623163137870294700466781217646944740110717293087494188159);
    lemma_pm_succ(7, 392033654951421486028616237666791484926824128865470nat, m);
    assert(pm(7, 392033654951421486028616237666791484926824128865471nat, m) == 41159182569361665819123439424162233714814706020890424067756727551919553394548);
    lemma_pm_double(7, 392033654951421486028616237666791484926824128865471nat, m);
    assert(pm(7, 784067309902842972057232475333582969853648257730942nat, m) == 9006493611675632287605790601775449058758196920847087131736825090148310418388);
    lemma_pm_succ(7, 784067309902842972057232475333582969853648257730942nat, m);
    assert(pm(7, 784067309902842972057232475333582969853648257730943nat, m) == 10609580106603235533792793704242177573616825945401972099554116931099591744203);
    lemma_pm_double(7, 784067309902842972057232475333582969853648257730943nat, m);
    assert(pm(7, 1568134619805685944114464950667165939707296515461886nat, m) == 32914571648253582021441024829026579181795779535514402373628612384759913531786);
    lemma_pm_succ(7, 1568134619805685944114464950667165939707296515461886nat, m);
    assert(pm(7, 1568134619805685944114464950667165939707296515461887nat, m) == 20658500837270312232296211770442190921808246746490265324985651893565069984450);
    lemma_pm_double(7, 1568134619805685944114464950667165939707296515461887nat, m);
    assert(pm(7, 3136269239611371888228929901334331879414593030923774nat, m) == 6806849931289804334174533600602211431667390354894556038892856166948824751324);
    lemma_pm_succ(7, 3136269239611371888228929901334331879414593030923774nat, m);
    assert(pm(7, 3136269239611371888228929901334331879414593030923775nat, m) == 47647949519028630339221735204215480021671732484261892272249993168641773259268);
    lemma_pm_double(7, 3136269239611371888228929901334331879414593030923775nat, m);
    assert(pm(7, 6272538479222743776457859802668663758829186061847550nat, m) == 7539073750938818938860914777143661410790526917422774425330465052384908195224);
    lemma_pm_succ(7, 6272538479222743776457859802668663758829186061847550nat, m);
    assert(pm(7, 6272538479222743776457859802668663758829186061847551nat, m) == 337641081445542092578662931819664037843135921431783154709596666755776182055);
    lemma_pm_double(7, 6272538479222743776457859802668663758829186061847551nat, m);
    assert(pm(7, 12545076958445487552915719605337327517658372123695102nat, m) == 2511660360414683560761311544263906471626304224369068020320341761161360884835);
    lemma_pm_succ(7, 12545076958445487552915719605337327517658372123695102nat, m);
    assert(pm(7, 12545076958445487552915719605337327517658372123695103nat, m) == 17581622522902784925329180809847345301384129570583476142242392328129526193845);
    lemma_pm_double(7, 12545076958445487552915719605337327517658372123695103nat, m);
    assert(pm(7, 25090153916890975105831439210674655035316744247390206nat, m) == 12571272192330086777680197680034440916656804110547820562180691664769246759991);
    lemma_pm_succ(7, 25090153916890975105831439210674655035316744247390206nat, m);
    assert(pm(7, 25090153916890975105831439210674655035316744247390207nat, m) == 35563030171184416964313643252055120578907076273307106112661182953446146135424);
    lemma_pm_double(7, 25090153916890975105831439210674655035316744247390207nat, m);
    assert(pm(7, 50180307833781950211662878421349310070633488494780414nat, m) == 6076524179601133769264709516691630782446853900721282598503679136610862646548);
    lemma_pm_succ(7, 50180307833781950211662878421349310070633488494780414nat, m);
    assert(pm(7, 50180307833781950211662878421349310070633488494780415nat, m) == 42535669257207936384852966616841415477127977305048978189525753956276038525836);
    lemma_pm_double(7, 50180307833781950211662878421349310070633488494780415nat, m);
    assert(pm(7, 100360615667563900423325756842698620141266976989560830nat, m) == 24938434006269279515001579090621333835523574029261759380753430477081693552701);
    lemma_pm_double(7, 100360615667563900423325756842698620141266976989560830nat, m);
    assert(pm(7, 200721231335127800846651513685397240282533953979121660nat, m) == 29344776694807460958884950928556914096136209201445780718418477059170875563990);
    lemma_pm_double(7, 200721231335127800846651513685397240282533953979121660nat, m);
    assert(pm(7, 401442462670255601693303027370794480565067907958243320nat, m) == 18210169728017805401411043096065179897816074811860801513511550594477047898164);
    lemma_pm_double(7, 401442462670255601693303027370794480565067907958243320nat, m);
    assert(pm(7, 802884925340511203386606054741588961130135815916486640nat, m) == 22918640486866441549658179644608793063264387431326484308271598506771334182778);
    lemma_pm_double(7, 802884925340511203386606054741588961130135815916486640nat, m);
    assert(pm(7, 1605769850681022406773212109483177922260271631832973280nat, m) == 964025685693244617056125299539516958957321714505766409491740871788098509834);
    lemma_pm_succ(7, 1605769850681022406773212109483177922260271631832973280nat, m);
    assert(pm(7, 1605769850681022406773212109483177922260271631832973281nat, m) == 6748179799852712319392877096776618712701252001540364866442186102516689568838);
    lemma_pm_double(7, 1605769850681022406773212109483177922260271631832973281nat, m);
    assert(pm(7, 3211539701362044813546424218966355844520543263665946562nat, m) == 9712724215163815262926335317153342035972507624638074690880208772850248101739);
    lemma_pm_succ(7, 3211539701362044813546424218966355844520543263665946562nat, m);
    assert(pm(7, 3211539701362044813546424218966355844520543263665946563nat, m) == 15553194331020516361036606711887428414117000871938885013557802710013155527660);
    lemma_pm_double(7, 3211539701362044813546424218966355844520543263665946563nat, m);
    assert(pm(7, 6423079402724089627092848437932711689041086527331893126nat, m) == 32042159333632434539590152141243047014600902338231691799731798501169356401429);
    lemma_pm_double(7, 6423079402724089627092848437932711689041086527331893126nat, m);
    assert(pm(7, 12846158805448179254185696875865423378082173054663786252nat, m) == 41999562798363558182885128042543012443302922521642659161852309479120747450778);
    lemma_pm_succ(7, 12846158805448179254185696875865423378082173054663786252nat, m);
    assert(pm(7, 12846158805448179254185696875865423378082173054663786253nat, m) == 31817563712913954882957193756871257914667695148860425019947872854152326232881);
    lemma_pm_double(7, 12846158805448179254185696875865423378082173054663786253nat, m);
    assert(pm(7, 25692317610896358508371393751730846756164346109327572506nat, m) == 50380971941695460980833528934837511811064751444497221499746248747537690220759);
    lemma_pm_double(7, 25692317610896358508371393751730846756164346109327572506nat, m);
    assert(pm(7, 51384635221792717016742787503461693512328692218655145012nat, m) == 27155720503677640466895817194774767590426743678816642890502739837631405296875);
    lemma_pm_double(7, 51384635221792717016742787503461693512328692218655145012nat, m);
    assert(pm(7, 102769270443585434033485575006923387024657384437310290024nat, m) == 44428588489091002891444741014067702195706871025041052513104803471134069673315);
    lemma_pm_double(7, 102769270443585434033485575006923387024657384437310290024nat, m);
    assert(pm(7, 205538540887170868066971150013846774049314768874620580048nat, m) == 21407117146297329188681346127861585649098699409687051714527870352794981641029);
    lemma_pm_double(7, 205538540887170868066971150013846774049314768874620580048nat, m);
    assert(pm(7, 411077081774341736133942300027693548098629537749241160096nat, m) == 46204380707812888453927360606341676262404383166333913382479257435534735678026);
    lemma_pm_succ(7, 411077081774341736133942300027693548098629537749241160096nat, m);
    assert(pm(7, 411077081774341736133942300027693548098629537749241160097nat, m) == 8815413903933076300805081195275938810687367161171566741732849849111662639104);
    lemma_pm_double(7, 411077081774341736133942300027693548098629537749241160097nat, m);
    assert(pm(7, 822154163548683472267884600055387096197259075498482320194nat, m) == 11685720780201435526399738484689761196080257824065665814983344188344146956695);
    lemma_pm_double(7, 822154163548683472267884600055387096197259075498482320194nat, m);
    assert(pm(7, 1644308327097366944535769200110774192394518150996964640388nat, m) == 11249360566054479263722785260360399885469361897474255763743700709435225199014);
    lemma_pm_succ(7, 1644308327097366944535769200110774192394518150996964640388nat, m);
    assert(pm(7, 1644308327097366944535769200110774192394518150996964640389nat, m) == 26309648787255164366611756314336833360594980781792152523602246266107995208585);
    lemma_pm_double(7, 1644308327097366944535769200110774192394518150996964640389nat, m);
    assert(pm(7, 3288616654194733889071538400221548384789036301993929280778nat, m) == 12723070099881578273163158442873374698138727277115487717214552147087933047390);
    lemma_pm_double(7, 3288616654194733889071538400221548384789036301993929280778nat, m);
    assert(pm(7, 6577233308389467778143076800443096769578072603987858561556nat, m) == 35879317716620735026397389477388099179094036625996841588418040308071573175499);
    lemma_pm_succ(7, 6577233308389467778143076800443096769578072603987858561556nat, m);
    assert(pm(7, 6577233308389467778143076800443096769578072603987858561557nat, m) == 41411723315840383266990764308972830902896046379867339828511647356746687490441);
    lemma_pm_double(7, 6577233308389467778143076800443096769578072603987858561557nat, m);
    assert(pm(7, 13154466616778935556286153600886193539156145207975717123114nat, m) == 15325978943490414293250793056459249810918003733173441411346723593244933192177);
    lemma_pm_double(7, 13154466616778935556286153600886193539156145207975717123114nat, m);
    assert(pm(7, 26308933233557871112572307201772387078312290415951434246228nat, m) == 14890263689168928890296752519811095110278353711819334454807257074874597725825);
    lemma_pm_succ(7, 26308933233557871112572307201772387078312290415951434246228nat, m);
    assert(pm(7, 26308933233557871112572307201772387078312290415951434246229nat, m) == 51795970649056311752629527130491699934257923482207703361047140824183602896262);
    lemma_pm_double(7, 26308933233557871112572307201772387078312290415951434246229nat, m);
    assert(pm(7, 52617866467115742225144614403544774156624580831902868492458nat, m) == 44280656106949137007289250803879907251011189291267600000665144761043160120554);
    lemma_pm_double(7, 52617866467115742225144614403544774156624580831902868492458nat, m);
    assert(pm(7, 105235732934231484450289228807089548313249161663805736984916nat, m) == 31737807679881118292564671929394610533208873715234930546724015930985888545486);
    lemma_pm_succ(7, 105235732934231484450289228807089548313249161663805736984916nat, m);
    assert(pm(7, 105235732934231484450289228807089548313249161663805736984917nat, m) == 12421153058663066130161741473018410381699906004533962536653476717146895080350);
    lemma_pm_double(7, 105235732934231484450289228807089548313249161663805736984917nat, m);
    assert(pm(7, 210471465868462968900578457614179096626498323327611473969834nat, m) == 42244068779929165772383141336647606124969512140447828218587659320280275681913);
    lemma_pm_double(7, 210471465868462968900578457614179096626498323327611473969834nat, m);
    assert(pm(7, 420942931736925937801156915228358193252996646655222947939668nat, m) == 41163706756539919986820837245912661569424961186956642278570854552270931899673);
    lemma_pm_double(7, 420942931736925937801156915228358193252996646655222947939668nat, m);
    assert(pm(7, 841885863473851875602313830456716386505993293310445895879336nat, m) == 10103145077212078399238632179895252322992696731791974739713076211042183392214);
    lemma_pm_succ(7, 841885863473851875602313830456716386505993293310445895879336nat, m);
    assert(pm(7, 841885863473851875602313830456716386505993293310445895879337nat, m) == 18286140365358358315222684751080800423258324622016185355387874777356702560985);
    lemma_pm_double(7, 841885863473851875602313830456716386505993293310445895879337nat, m);
    assert(pm(7, 1683771726947703751204627660913432773011986586620891791758674nat, m) == 8399551590535381643445119852659989308385002107297343857160363713273441307305);
    lemma_pm_succ(7, 1683771726947703751204627660913432773011986586620891791758674nat, m);
    assert(pm(7, 1683771726947703751204627660913432773011986586620891791758675nat, m) == 6360985958621481024668098460433959321004462250553769177518887292975507966622);
    lemma_pm_double(7, 1683771726947703751204627660913432773011986586620891791758675nat, m);
    assert(pm(7, 3367543453895407502409255321826865546023973173241783583517350nat, m) == 3026080625078344413526301482515246500877448156451759880902775664615586634770);
    lemma_pm_double(7, 3367543453895407502409255321826865546023973173241783583517350nat, m);
    assert(pm(7, 6735086907790815004818510643653731092047946346483567167034700nat, m) == 1129705838403827090907419563606872063396092749237986033481069492752010565219);
    lemma_pm_succ(7, 6735086907790815004818510643653731092047946346483567167034700nat, m);
    assert(pm(7, 6735086907790815004818510643653731092047946346483567167034701nat, m) == 7907940868826789636351936945248104443772649244665902234367486449264073956533);
    lemma_pm_double(7, 6735086907790815004818510643653731092047946346483567167034701nat, m);
    assert(pm(7, 13470173815581630009637021287307462184095892692967134334069402nat, m) == 24902788997052337080027362730940114811915278160285469002554673349309483748373);
    lemma_pm_succ(7, 13470173815581630009637021287307462184095892692967134334069402nat, m);
    assert(pm(7, 13470173815581630009637021287307462184095892692967134334069403nat, m) == 17011897453987788121848317592022906170335289620415369550071737345350642685072);
    lemma_pm_double(7, 13470173815581630009637021287307462184095892692967134334069403nat, m);
    assert(pm(7, 26940347631163260019274042574614924368191785385934268668138806nat, m) == 22819806608012763119823199208313267042949382821011847975844552422455340901986);
    lemma_pm_double(7, 26940347631163260019274042574614924368191785385934268668138806nat, m);
    assert(pm(7, 53880695262326520038548085149229848736383570771868537336277612nat, m) == 36379347587961858511575468448224170314626101937828195457677506981243112675170);
    lemma_pm_double(7, 53880695262326520038548085149229848736383570771868537336277612nat, m);
    assert(pm(7, 107761390524653040077096170298459697472767141543737074672555224nat, m) == 9821897956687372290406034067816060747339957444178238644414203323400585066008);
    lemma_pm_double(7, 107761390524653040077096170298459697472767141543737074672555224nat, m);
    assert(pm(7, 215522781049306080154192340596919394945534283087474149345110448nat, m) == 27003325159611635012789993655305431763501274441395004312033375264258922575312);
    lemma_pm_double(7, 215522781049306080154192340596919394945534283087474149345110448nat, m);
    assert(pm(7, 431045562098612160308384681193838789891068566174948298690220896nat, m) == 2749570073938908158049190876260190427617348408180758803083127152678318316111);
    lemma_pm_double(7, 431045562098612160308384681193838789891068566174948298690220896nat, m);
    assert(pm(7, 862091124197224320616769362387677579782137132349896597380441792nat, m) == 33493012434623651414012639450134633121446445519321561566519801420066119451619);
    lemma_pm_double(7, 862091124197224320616769362387677579782137132349896597380441792nat, m);
    assert(pm(7, 1724182248394448641233538724775355159564274264699793194760883584nat, m) == 9304303082416346029960493934078117482043582188538208045317305837073034224774);
    lemma_pm_double(7, 1724182248394448641233538724775355159564274264699793194760883584nat, m);
    assert(pm(7, 3448364496788897282467077449550710319128548529399586389521767168nat, m) == 15390061696868249032920776637143078771697310912187868391770841154285788982291);
    lemma_pm_double(7, 3448364496788897282467077449550710319128548529399586389521767168nat, m);
    assert(pm(7, 6896728993577794564934154899101420638257097058799172779043534336nat, m) == 25647278088740524393143615297847681703099962207910834067147507044337131980584);
    lemma_pm_double(7, 6896728993577794564934154899101420638257097058799172779043534336nat, m);
    assert(pm(7, 13793457987155589129868309798202841276514194117598345558087068672nat, m) == 41669174641061336400562758841787552474408235957337650455572671907020043894138);
    lemma_pm_double(7, 13793457987155589129868309798202841276514194117598345558087068672nat, m);
    assert(pm(7, 27586915974311178259736619596405682553028388235196691116174137344nat, m) == 16585571252398571596342553869673313798192663267415640907606890227625022203071);
    lemma_pm_double(7, 27586915974311178259736619596405682553028388235196691116174137344nat, m);
    assert(pm(7, 55173831948622356519473239192811365106056776470393382232348274688nat, m) == 7997880556343155019512916869842793142626238912562962271658433021599506165578);
    lemma_pm_double(7, 55173831948622356519473239192811365106056776470393382232348274688nat, m);
    assert(pm(7, 110347663897244713038946478385622730212113552940786764464696549376nat, m) == 34321947496706384841388377356116352688091325846122595858818813729716973748598);
    lemma_pm_double(7, 110347663897244713038946478385622730212113552940786764464696549376nat, m);
    assert(pm(7, 220695327794489426077892956771245460424227105881573528929393098752nat, m) == 40751015676057232380271058905063278110144341732520625577457007017643373895127);
    lemma_pm_double(7, 220695327794489426077892956771245460424227105881573528929393098752nat, m);
    assert(pm(7, 441390655588978852155785913542490920848454211763147057858786197504nat, m) == 23083198473909246963022413577330363259103619744838083548966532924493103932728);
    lemma_pm_double(7, 441390655588978852155785913542490920848454211763147057858786197504nat, m);
    assert(pm(7, 882781311177957704311571827084981841696908423526294115717572395008nat, m) == 11802358884641762152977346736876930341292132540474942713678684513860971521987);
    lemma_pm_double(7, 882781311177957704311571827084981841696908423526294115717572395008nat, m);
    assert(pm(7, 1765562622355915408623143654169963683393816847052588231435144790016nat, m) == 12789972325422815366695185440885398234020323333254073942612607355049449320067);
    lemma_pm_double(7, 1765562622355915408623143654169963683393816847052588231435144790016nat, m);
    assert(pm(7, 3531125244711830817246287308339927366787633694105176462870289580032nat, m) == 26607831823124970484745221893072537274747183080003052238874392572939757791133);
    lemma_pm_double(7, 3531125244711830817246287308339927366787633694105176462870289580032nat, m);
    assert(pm(7, 7062250489423661634492574616679854733575267388210352925740579160064nat, m) == 14963812821170477720142709518075541829173023192742075303813939614525431560481);
    lemma_pm_double(7, 7062250489423661634492574616679854733575267388210352925740579160064nat, m);
    assert(pm(7, 14124500978847323268985149233359709467150534776420705851481158320128nat, m) == 3627383001033267564692766495534321209946454510269101063347123614324272888313);
    lemma_pm_double(7, 14124500978847323268985149233359709467150534776420705851481158320128nat, m);
    assert(pm(7, 28249001957694646537970298466719418934301069552841411702962316640256nat, m) == 32135291552719982248556104749935055280641926231704575789750793639250923588276);
    lemma_pm_double(7, 28249001957694646537970298466719418934301069552841411702962316640256nat, m);
    assert(pm(7, 56498003915389293075940596933438837868602139105682823405924633280512nat, m) == 774827866780299529112226420304083917417488986910944624184627852831510085745);
    lemma_pm_double(7, 56498003915389293075940596933438837868602139105682823405924633280512nat, m);
    assert(pm(7, 112996007830778586151881193866877675737204278211365646811849266561024nat, m) == 1040619404115566278830590931717976331184305040584753998475405377979560461780);
    lemma_pm_double(7, 112996007830778586151881193866877675737204278211365646811849266561024nat, m);
    assert(pm(7, 225992015661557172303762387733755351474408556422731293623698533122048nat, m) == 9384034338823829537969699836668449706365709901131705449674959381488661155456);
    lemma_pm_double(7, 225992015661557172303762387733755351474408556422731293623698533122048nat, m);
    assert(pm(7, 451984031323114344607524775467510702948817112845462587247397066244096nat, m) == 5570296625016677237852318492635226074275827743760919728045404854453610586718);
    lemma_pm_double(7, 451984031323114344607524775467510702948817112845462587247397066244096nat, m);
    assert(pm(7, 903968062646228689215049550935021405897634225690925174494794132488192nat, m) == 47591370338645073268168570431102635217954312174684520427265918118026922077518);
    lemma_pm_double(7, 903968062646228689215049550935021405897634225690925174494794132488192nat, m);
    assert(pm(7, 1807936125292457378430099101870042811795268451381850348989588264976384nat, m) == 10041964207199985530957610443931660532302496688751764762846677934246417799605);
    lemma_pm_double(7, 1807936125292457378430099101870042811795268451381850348989588264976384nat, m);
    assert(pm(7, 3615872250584914756860198203740085623590536902763700697979176529952768nat, m) == 30574473362235291900163957167311069820602938593018086049280947885599103992742);
    lemma_pm_double(7, 3615872250584914756860198203740085623590536902763700697979176529952768nat, m);
    assert(pm(7, 7231744501169829513720396407480171247181073805527401395958353059905536nat, m) == 50293844939407511337638658094675143923174298128938099173756214748152816447109);
    lemma_pm_double(7, 7231744501169829513720396407480171247181073805527401395958353059905536nat, m);
    assert(pm(7, 14463489002339659027440792814960342494362147611054802791916706119811072nat, m) == 20103467024363211879938616069071905930052172321962354864435505262342123654397);
    lemma_pm_double(7, 14463489002339659027440792814960342494362147611054802791916706119811072nat, m);
    assert(pm(7, 28926978004679318054881585629920684988724295222109605583833412239622144nat, m) == 28761666998065673010053528790456977021804512730051378579579583209950557046238);
    lemma_pm_double(7, 28926978004679318054881585629920684988724295222109605583833412239622144nat, m);
    assert(pm(7, 57853956009358636109763171259841369977448590444219211167666824479244288nat, m) == 47009375709878424687795209168006564057444627941356163587161684439552631655798);
}

/// `7^20904037250355181503274681484632675866531555460264908084209416686010368 mod 52435875175126190479447740508185965837690552500527637822603658699938581184513`.
proof fn lemma_pow_52435875175126190479447740508185965837690552500527637822603658699938581184513_by_2508409()
    ensures
        pm(7, 20904037250355181503274681484632675866531555460264908084209416686010368nat, fr_modulus() as int) == 3815854618502706066781575637619522226469869671769340391720987388396519592594,
{
    let m: int = fr_modulus() as int;
    lemma_pm_one(7, m);
    lemma_pm_double(7, 1nat, m);
    assert(pm(7, 2nat, m) == 49);
    lemma_pm_succ(7, 2nat, m);
    assert(pm(7, 3nat, m) == 343);
    lemma_pm_double(7, 3nat, m);
    assert(pm(7, 6nat, m) == 117649);
    lemma_pm_double(7, 6nat, m);
    assert(pm(7, 12nat, m) == 13841287201);
    lemma_pm_double(7, 12nat, m);
    assert(pm(7, 24nat, m) == 191581231380566414401);
    lemma_pm_double(7, 24nat, m);
    assert(pm(7, 48nat, m) == 36703368217294125441230211032033660188801);
    lemma_pm_double(7, 48nat, m);
    assert(pm(7, 96nat, m) == 7169370109588224514666326067242483218629163598934389574923453452029754494118);
    lemma_pm_double(7, 96nat, m);
    assert(pm(7, 192nat, m) == 16813465035296828417219268754292703692576158205831990915353710828204495945655);
    lemma_pm_succ(7, 192nat, m);
    assert(pm(7, 193nat, m) == 12822504896825417961639400263676994172652002439768660762268658397554309250559);
    lemma_pm_double(7, 193nat, m);
    assert(pm(7, 386nat, m) == 12757818228991614121690737230209971851725493913302980688786568387028028578966);
    lemma_pm_succ(7, 386nat, m);
    assert(pm(7, 387nat, m) == 36868852427815108372387420103283837124387904892593226998902320009257618868249);
    lemma_pm_double(7, 387nat, m);
    assert(pm(7, 774nat, m) == 26261234451497027996822243370531373477514505487383115670841417194183254235241);
    lemma_pm_succ(7, 774nat, m);
    assert(pm(7, 775nat, m) == 26521015635100624539412482069161716829529880910098896228078944259467036093148);
    lemma_pm_double(7, 775nat, m);
    assert(pm(7, 1550nat, m) == 22006541018394088149664166070168393776467963218390582436815097944499394098427);
    lemma_pm_double(7, 1550nat, m);
    assert(pm(7, 3100nat, m) == 16707169620256945544521916706853537096028964693995749338737036809279013396388);
    lemma_pm_succ(7, 3100nat, m);
    assert(pm(7, 3101nat, m) == 12078436991546237852757935931602827996821647856914969725951940265075931405690);
    lemma_pm_double(7, 3101nat, m);
    assert(pm(7, 6202nat, m) == 23995648410066244344680530181510737719189620961485215219344683173530249306860);
    lemma_pm_double(7, 6202nat, m);
    assert(pm(7, 12404nat, m) == 48207674910450826391860292297198309105396556030499010854411507363237543299761);
    lemma_pm_succ(7, 12404nat, m);
    assert(pm(7, 12405nat, m) == 22838473322398641866335603031272368711632577210327249045258599343031315991249);
    lemma_pm_double(7, 12405nat, m);
    assert(pm(7, 24810nat, m) == 23801706059038629310417326710669627293417316517340998189264998714228944773927);
    lemma_pm_succ(7, 24810nat, m);
    assert(pm(7, 24811nat, m) == 9304316887891833734578065450129493540849558119804073857044014899786869863950);
    lemma_pm_double(7, 24811nat, m);
    assert(pm(7, 49622nat, m) == 41104815219959954317546103415202729633588047637216428402989502943033963525789);
    lemma_pm_succ(7, 49622nat, m);
    assert(pm(7, 49623nat, m) == 25554330664088727825584021365489278246663570957876809707908227101544838757958);
    lemma_pm_double(7, 49623nat, m);
    assert(pm(7, 99246nat, m) == 39187523194087835699843739849645340585745986764216961967666706295464594690933);
    lemma_pm_succ(7, 99246nat, m);
    assert(pm(7, 99247nat, m) == 12133286482983897501667476406587554911769144846880544660648650568559256913966);
    lemma_pm_double(7, 99247nat, m);
    assert(pm(7, 198494nat, m) == 17142728507329949002892394693959139081443405578375212249929874373284902222217);
    lemma_pm_succ(7, 198494nat, m);
    assert(pm(7, 198495nat, m) == 15127349201057262061351281841342041894722734047571210104301803213117153186493);
    lemma_pm_double(7, 198495nat, m);
    assert(pm(7, 396990nat, m) == 28716192073896698222381145152511589776863988238581448855834941308060836265499);
    lemma_pm_succ(7, 396990nat, m);
    assert(pm(7, 396991nat, m) == 43705718991898316118324794543023230924976260168487228523033613056610110304954);
    lemma_pm_double(7, 396991nat, m);
    assert(pm(7, 793982nat, m) == 51094969339624164048243338369549299346937383776008358524375704746136911993090);
    lemma_pm_double(7, 793982nat, m);
    assert(pm(7, 1587964nat, m) == 17760289554886235710994003070584256626667869396895742155173498257887103245528);
    lemma_pm_succ(7, 1587964nat, m);
    assert(pm(7, 1587965nat, m) == 19450276533951269018062540477717864711293980777214919441007170405332560349670);
    lemma_pm_double(7, 1587965nat, m);
    assert(pm(7, 3175930nat, m) == 44973572097545951928397384127624908573288844337818318136412193947212277596842);
    lemma_pm_succ(7, 3175930nat, m);
    assert(pm(7, 3175931nat, m) == 199753632064520622095245844258564986878595361562400019263405430854456070816);
    lemma_pm_double(7, 3175931nat, m);
    assert(pm(7, 6351862nat, m) == 29924421254528473475073047609211251394163521900901198763122983154528903195300);
    lemma_pm_double(7, 6351862nat, m);
    assert(pm(7, 12703724nat, m) == 47638813303044139799884599534809418197448046529238513731631836678066121034320);
    lemma_pm_double(7, 12703724nat, m);
    assert(pm(7, 25407448nat, m) == 1236655019150773745941086718082540272010756169239650237426793524007472307513);
    lemma_pm_succ(7, 25407448nat, m);
    assert(pm(7, 25407449nat, m) == 8656585134055416221587607026577781904075293184677551661987554668052306152591);
    lemma_pm_double(7, 25407449nat, m);
    assert(pm(7, 50814898nat, m) == 24721523621954890655703379509710387853228411865104628882336947440777528972374);
    lemma_pm_succ(7, 50814898nat, m);
    assert(pm(7, 50814899nat, m) == 15743039828305663151580435043414817459527225554149488708547655985626959253079);
    lemma_pm_double(7, 50814899nat, m);
    assert(pm(7, 101629798nat, m) == 16627530997147734851096227380368046545710876754709243557048255411741406462389);
    lemma_pm_succ(7, 101629798nat, m);
    assert(pm(7, 101629799nat, m) == 11520966629781762998778110646204394144595032281909429254130470482312682867697);
    lemma_pm_double(7, 101629799nat, m);
    assert(pm(7, 203259598nat, m) == 45597664308033956884947851781217962413669187357280881390711829540942865572158);
    lemma_pm_double(7, 203259598nat, m);
    assert(pm(7, 406519196nat, m) == 45630833305068055288692218599459131233186633424158945001482665144136993420674);
    lemma_pm_succ(7, 406519196nat, m);
    assert(pm(7, 406519197nat, m) == 4800582084719244144159087147098123606163118965946788074756703809327466837640);
    lemma_pm_double(7, 406519197nat, m);
    assert(pm(7, 813038394nat, m) == 32184545333198769253004177785073315374520369370916230824234759288814629773248);
    lemma_pm_double(7, 813038394nat, m);
    assert(pm(7, 1626076788nat, m) == 33427842404459908197239391637115495776487060329911057044204669686902982891747);
    lemma_pm_succ(7, 1626076788nat, m);
    assert(pm(7, 1626076789nat, m) == 24251396130714595462884779427064607084647212307266848019018053008566555504177);
    lemma_pm_double(7, 1626076789nat, m);
    assert(pm(7, 3252153578nat, m) == 7132971779754115908248207605110768657521399876311204696020357115578109533710);
    lemma_pm_succ(7, 3252153578nat, m);
    assert(pm(7, 3252153579nat, m) == 49930802458278811357737453235775380602649799134178432872142499809046766735970);
    lemma_pm_double(7, 3252153579nat, m);
    assert(pm(7, 6504307158nat, m) == 33590251414212548030423869894572901142530191443094019561149497087628918370111);
    lemma_pm_double(7, 6504307158nat, m);
    assert(pm(7, 13008614316nat, m) == 35550881945237364190779441579543337591636216099284637059508657170835359943890);
    lemma_pm_succ(7, 13008614316nat, m);
    assert(pm(7, 13008614317nat, m) == 39112672916156787417665129024059499790691302692881908126145965396093194869178);
    lemma_pm_double(7, 13008614317nat, m);
    assert(pm(7, 26017228634nat, m) == 45710258976813306666329885885560813320567783040778326327996417828924587176640);
    lemma_pm_succ(7, 26017228634nat, m);
    assert(pm(7, 26017228635nat, m) == 5356561786936003787622758149809898217831166282282457360352972602840623129402);
    lemma_pm_double(7, 26017228635nat, m);
    assert(pm(7, 52034457270nat, m) == 35806205568023395778014505915664561094990172370981335495506718619456425699114);
    lemma_pm_succ(7, 52034457270nat, m);
    assert(pm(7, 52034457271nat, m) == 40899938275659008528310579376908064314168996594758797178132395536440655155746);
    lemma_pm_double(7, 52034457271nat, m);
    assert(pm(7, 104068914542nat, m) == 29980202973215082294223818022448725474123300048778058156897799577307316440906);
    lemma_pm_double(7, 104068914542nat, m);
    assert(pm(7, 208137829084nat, m) == 41362229083601718430208222031286240821666128890160714189595900121275316108756);
    lemma_pm_double(7, 208137829084nat, m);
    assert(pm(7, 416275658168nat, m) == 39119654458779496425736900579577340305440811550706278931568326345054913786682);
    lemma_pm_succ(7, 416275658168nat, m);
    assert(pm(7, 416275658169nat, m) == 11658205335825522582919601516111552949632918352305763407959990915691490584209);
    lemma_pm_double(7, 416275658169nat, m);
    assert(pm(7, 832551316338nat, m) == 21979536000835549987370321839908095918022185609187340680567949035056378799191);
    lemma_pm_double(7, 832551316338nat, m);
    assert(pm(7, 1665102632676nat, m) == 39599602066327479655941690440077122320568191210029233599840318121591118171514);
    lemma_pm_succ(7, 1665102632676nat, m);
    assert(pm(7, 1665102632677nat, m) == 15017838588661405194353130539610027055524575967566446085863933351444921278033);
    lemma_pm_double(7, 1665102632677nat, m);
    assert(pm(7, 3330205265354nat, m) == 32163506482735882823869461506657622809285539348251335733636742034002571467967);
    lemma_pm_succ(7, 3330205265354nat, m);
    assert(pm(7, 3330205265355nat, m) == 15401044678646417849295268513859496314236565435648798845042559438263675537717);
    lemma_pm_double(7, 3330205265355nat, m);
    assert(pm(7, 6660410530710nat, m) == 40044447330595303113460616008493477700658144854186528923074576713020776687385);
    lemma_pm_double(7, 6660410530710nat, m);
    assert(pm(7, 13320821061420nat, m) == 20963315169625694468736297550545478046767654039877265055565861757755099913024);
    lemma_pm_double(7, 13320821061420nat, m);
    assert(pm(7, 26641642122840nat, m) == 10035649062446899302800524088517406653553596145977095858564399918088379999980);
    lemma_pm_succ(7, 26641642122840nat, m);
    assert(pm(7, 26641642122841nat, m) == 17813668262002104640155928111435880737184620521312033187347140726680078815347);
    lemma_pm_double(7, 26641642122841nat, m);
    assert(pm(7, 53283284245682nat, m) == 31350382686336918043289830600813388942995894312737759323728118437296264871102);
    lemma_pm_succ(7, 53283284245682nat, m);
    assert(pm(7, 53283284245683nat, m) == 9709178103853664385237852172949859250209050187053763975682194261319529359662);
    lemma_pm_double(7, 53283284245683nat, m);
    assert(pm(7, 106566568491366nat, m) == 32953314852597821703058310048698490005068630411776434762635195398228853546269);
    lemma_pm_succ(7, 106566568491366nat, m);
    assert(pm(7, 106566568491367nat, m) == 20929703267679990003617208308145566684718202880324492048031732987847650085831);
    lemma_pm_double(7, 106566568491367nat, m);
    assert(pm(7, 213133136982734nat, m) == 18766986381977203822516280877403566751468978415099268381382837003029323114443);
    lemma_pm_double(7, 213133136982734nat, m);
    assert(pm(7, 426266273965468nat, m) == 23592506204099399476635971344209285355046574134076362610245765160130783822417);
    lemma_pm_succ(7, 426266273965468nat, m);
    assert(pm(7, 426266273965469nat, m) == 7839917903317224898108577884907099972254361436951624803909380021099743203380);
    lemma_pm_double(7, 426266273965469nat, m);
    assert(pm(7, 852532547930938nat, m) == 37290411528451691866810313901598096170693747623116891199008324057149019012205);
    lemma_pm_succ(7, 852532547930938nat, m);
    assert(pm(7, 852532547930939nat, m) == 51289379998657081149881235278442809844094023359707687102643633600288808347383);
    lemma_pm_double(7, 852532547930939nat, m);
    assert(pm(7, 1705065095861878nat, m) == 4017548369589222957349820450731772407824852049209524589363463748178428194601);
    lemma_pm_double(7, 1705065095861878nat, m);
    assert(pm(7, 3410130191723756nat, m) == 5207262006227355860033674417521196324761697218052276506459566310046224130745);
    lemma_pm_double(7, 3410130191723756nat, m);
    assert(pm(7, 6820260383447512nat, m) == 36685642853102575875590733931141233372435700125806029370945970936174463151909);
    lemma_pm_double(7, 6820260383447512nat, m);
    assert(pm(7, 13640520766895024nat, m) == 8660641075727288518596449032802385019947782509763975896774003359380542314261);
    lemma_pm_succ(7, 13640520766895024nat, m);
    assert(pm(7, 13640520766895025nat, m) == 8188612354964829150727402721430729301943925067820193454814364815725215015314);
    lemma_pm_double(7, 13640520766895025nat, m);
    assert(pm(7, 27281041533790050nat, m) == 37120603627198285350054532810073546960388170875948995615085959616575400876319);
    lemma_pm_succ(7, 27281041533790050nat, m);
    assert(pm(7, 27281041533790051nat, m) == 50100724689883235532590767637770965371954986129532418015187082516273481396181);
    lemma_pm_double(7, 27281041533790051nat, m);
    assert(pm(7, 54562083067580102nat, m) == 30394324169707253401304039251396711713067201369373377679583438089440585875727);
    lemma_pm_double(7, 54562083067580102nat, m);
    assert(pm(7, 109124166135160204nat, m) == 5039729706902443520443567850884423535849034531763832078602915470737916721432);
    lemma_pm_succ(7, 109124166135160204nat, m);
    assert(pm(7, 109124166135160205nat, m) == 35278107948317104643104974956190964750943241722346824550220408295165417050024);
    lemma_pm_double(7, 109124166135160205nat, m);
    assert(pm(7, 218248332270320410nat, m) == 26838484035890176144537103468054790739149352149835411621599287259914088661032);
    lemma_pm_succ(7, 218248332270320410nat, m);
    assert(pm(7, 218248332270320411nat, m) == 30561762725852661573416502751825637660973807547264967883384034719582877073685);
    lemma_pm_double(7, 218248332270320411nat, m);
    assert(pm(7, 436496664540640822nat, m) == 156749546090658557239541223071232795217662996161973696384451288731951885865);
    lemma_pm_double(7, 436496664540640822nat, m);
    assert(pm(7, 872993329081281644nat, m) == 46063921522724509280017020459535694616571020116525312106405168882203190013582);
    lemma_pm_succ(7, 872993329081281644nat, m);
    assert(pm(7, 872993329081281645nat, m) == 7832199608314422083432700167634067289853825812511357809214229975790842987996);
    lemma_pm_double(7, 872993329081281645nat, m);
    assert(pm(7, 1745986658162563290nat, m) == 37239378780091447323344791360277616452758394928551847146158015143994809025999);
    lemma_pm_double(7, 1745986658162563290nat, m);
    assert(pm(7, 3491973316325126580nat, m) == 35138326921371978357972686986870808497979041123226806527171444027787419834816);
    lemma_pm_succ(7, 3491973316325126580nat, m);
    assert(pm(7, 3491973316325126581nat, m) == 36224787749099086588017846875351796135091077860477094399785473394757614105660);
    lemma_pm_double(7, 3491973316325126581nat, m);
    assert(pm(7, 6983946632650253162nat, m) == 21948021365628663891696393093654269355150519943537625043154638685838117490519);
    lemma_pm_succ(7, 6983946632650253162nat, m);
    assert(pm(7, 6983946632650253163nat, m) == 48764399209148266282979270639207953810672534603708099656875153400989660064607);
    lemma_pm_double(7, 6983946632650253163nat, m);
    assert(pm(7, 13967893265300506326nat, m) == 25629252951692612678186346302524406085222068394045812379147207930360855362567);
    lemma_pm_succ(7, 13967893265300506326nat, m);
    assert(pm(7, 13967893265300506327nat, m) == 22097145136469717308961202593112945083482821256737773186219479412710243984430);
    lemma_pm_double(7, 13967893265300506327nat, m);
    assert(pm(7, 27935786530601012654nat, m) == 19173956365154419622450321255842882222108802190893276591179117931954545305917);
    lemma_pm_double(7, 27935786530601012654nat, m);
    assert(pm(7, 55871573061202025308nat, m) == 7661601799330026109635343162655224827497385959074505514204647880195540381387);
    lemma_pm_double(7, 55871573061202025308nat, m);
    assert(pm(7, 111743146122404050616nat, m) == 44008884018591296233817070923419646794865356299869298158130894695799365907417);
    lemma_pm_succ(7, 111743146122404050616nat, m);
    assert(pm(7, 111743146122404050617nat, m) == 45882812254508121239480793923007698375604731596446897993897969370902655429354);
    lemma_pm_double(7, 111743146122404050617nat, m);
    assert(pm(7, 223486292244808101234nat, m) == 35605692453861809284180537568570842805662549521568316336386093117264373488336);
    lemma_pm_succ(7, 223486292244808101234nat, m);
    assert(pm(7, 223486292244808101235nat, m) == 39496346476527903071472800947252036288875636648867663064288017021096289680300);
    lemma_pm_double(7, 223486292244808101235nat, m);
    assert(pm(7, 446972584489616202470nat, m) == 28213911330371312949977709434523324545693624368138318575453095320242722915270);
    lemma_pm_double(7, 446972584489616202470nat, m);
    assert(pm(7, 893945168979232404940nat, m) == 12614621452365707360267645224613073461672186524550778272199129997705238465950);
    lemma_pm_succ(7, 893945168979232404940nat, m);
    assert(pm(7, 893945168979232404941nat, m) == 35866474991433761042425776064105548394014753171327810082790251283998088077137);
    lemma_pm_double(7, 893945168979232404941nat, m);
    assert(pm(7, 1787890337958464809882nat, m) == 38444948778215060280400137524753268906634139787505991581093632310970684110167);
    lemma_pm_double(7, 1787890337958464809882nat, m);
    assert(pm(7, 3575780675916929619764nat, m) == 31436330556158119148849781364523299553908537451281112912683544324080127126246);
    lemma_pm_succ(7, 3575780675916929619764nat, m);
    assert(pm(7, 3575780675916929619765nat, m) == 10310813192602072124157507518919233526597552156857239098370175468806565145670);
    lemma_pm_double(7, 3575780675916929619765nat, m);
    assert(pm(7, 7151561351833859239530nat, m) == 26925807158592676371774189804547544931851085423337084907841889214515727318688);
    lemma_pm_succ(7, 7151561351833859239530nat, m);
    assert(pm(7, 7151561351833859239531nat, m) == 31173024584770163164076107107274917009885940461776680887082248401794347677277);
    lemma_pm_double(7, 7151561351833859239531nat, m);
    assert(pm(7, 14303122703667718479062nat, m) == 30115340130963653029290390428859344633803339700291302587960224069388350923523);
    lemma_pm_double(7, 14303122703667718479062nat, m);
    assert(pm(7, 28606245407335436958124nat, m) == 39291312914485171886104940986783822269857525757798251731654360812346137843414);
    lemma_pm_succ(7, 28606245407335436958124nat, m);
    assert(pm(7, 28606245407335436958125nat, m) == 12859814525765250805495884366556926700549917801949573008562232186730058981333);
    lemma_pm_double(7, 28606245407335436958125nat, m);
    assert(pm(7, 57212490814670873916250nat, m) == 45518529167272815106718501576110124403087851435145288886457285341051217911575);
    lemma_pm_succ(7, 57212490814670873916250nat, m);
    assert(pm(7, 57212490814670873916251nat, m) == 4014453120152562870343067983655075795471645042851195269579045187727038273947);
    lemma_pm_double(7, 57212490814670873916251nat, m);
    assert(pm(7, 114424981629341747832502nat, m) == 18069908082296481752788904782637033236616898369584082668660312877508336938848);
    lemma_pm_succ(7, 114424981629341747832502nat, m);
    assert(pm(7, 114424981629341747832503nat, m) == 21617606225822991310626852462087300980937183586033303035414872742681196202910);
    lemma_pm_double(7, 114424981629341747832503nat, m);
    assert(pm(7, 228849963258683495665006nat, m) == 22485757002466620679853733737158896541777881371843646332050110349091998733296);
    lemma_pm_succ(7, 228849963258683495665006nat, m);
    assert(pm(7, 228849963258683495665007nat, m) == 92673491887773320632914635554378279373512101322610856539796343828247579533);
    lemma_pm_double(7, 228849963258683495665007nat, m);
    assert(pm(7, 457699926517366991330014nat, m) == 35783350868204612372755086388428767508977421690882266974269847363295920694508);
    lemma_pm_double(7, 457699926517366991330014nat, m);
    assert(pm(7, 915399853034733982660028nat, m) == 26610319258170243608096114444617052130967502145597118082383753987769866705230);
    lemma_pm_double(7, 915399853034733982660028nat, m);
    assert(pm(7, 1830799706069467965320056nat, m) == 11359416779741247527006669104531325609981470281363991671578979716922989936385);
    lemma_pm_succ(7, 1830799706069467965320056nat, m);
    assert(pm(7, 1830799706069467965320057nat, m) == 27080042283062542209598943223533313432179739469020303878449199318522348370182);
    lemma_pm_double(7, 1830799706069467965320057nat, m);
    assert(pm(7, 3661599412138935930640114nat, m) == 21217012076822070393257262595246668100476770566650074067666313923101421996076);
    lemma_pm_succ(7, 3661599412138935930640114nat, m);
    assert(pm(7, 3661599412138935930640115nat, m) == 43647334187502111793905357150354745027956288965495242828456880061832791603506);
    lemma_pm_double(7, 3661599412138935930640115nat, m);
    assert(pm(7, 7323198824277871861280230nat, m) == 3152163031639356969122046052864722357833677541789326527894241837862343238325);
    lemma_pm_succ(7, 7323198824277871861280230nat, m);
    assert(pm(7, 7323198824277871861280231nat, m) == 22065141221475498783854322370053056504835742792525285695259692865036402668275);
    lemma_pm_double(7, 7323198824277871861280231nat, m);
    assert(pm(7, 14646397648555743722560462nat, m) == 24772279698918531105505011589704241516803410991550047696931348231058571204988);
    lemma_pm_succ(7, 14646397648555743722560462nat, m);
    assert(pm(7, 14646397648555743722560463nat, m) == 16098332367051146300191859603371793104552219439267420410708461517594254881377);
    lemma_pm_double(7, 14646397648555743722560463nat, m);
    assert(pm(7, 29292795297111487445120926nat, m) == 25831633764375217302103436413013566575750817727834845421590219712643324940557);
    lemma_pm_double(7, 29292795297111487445120926nat, m);
    assert(pm(7, 58585590594222974890241852nat, m) == 10079405911921830225872146644795478151969975936778109478045717286145021313817);
    lemma_pm_double(7, 58585590594222974890241852nat, m);
    assert(pm(7, 117171181188445949780483704nat, m) == 52106173467729474200641523392351209959607262947014162786899074860897635656999);
    lemma_pm_succ(7, 117171181188445949780483704nat, m);
    assert(pm(7, 117171181188445949780483705nat, m) == 50127963223349176527804220697342674691107525625933312572671571826651962491915);
    lemma_pm_double(7, 117171181188445949780483705nat, m);
    assert(pm(7, 234342362376891899560967410nat, m) == 17321894874727536057849844667388429498680998009532301676847819778796288642873);
    lemma_pm_double(7, 234342362376891899560967410nat, m);
    assert(pm(7, 468684724753783799121934820nat, m) == 43066003757285374286883997803246259177842927163862866949650891332727101390983);
    lemma_pm_double(7, 468684724753783799121934820nat, m);
    assert(pm(7, 937369449507567598243869640nat, m) == 27756973129809701757758711205568799722184356243756478782557496515063377922270);
    lemma_pm_double(7, 937369449507567598243869640nat, m);
    assert(pm(7, 1874738899015135196487739280nat, m) == 26629872058410096361045099570464568689732563146099020368999984000444324661475);
    lemma_pm_succ(7, 1874738899015135196487739280nat, m);
    assert(pm(7, 1874738899015135196487739281nat, m) == 29101478883492103088972475468694083315056284521110229115188911903294529076786);
    lemma_pm_double(7, 1874738899015135196487739281nat, m);
    assert(pm(7, 3749477798030270392975478562nat, m) == 50946098453794904097950311722055440357750934232759385852162752055599864194890);
    lemma_pm_double(7, 3749477798030270392975478562nat, m);
    assert(pm(7, 7498955596060540785950957124nat, m) == 16096560044168077417206117005337396298596855695181256816862073017182175630440);
    lemma_pm_double(7, 7498955596060540785950957124nat, m);
    assert(pm(7, 14997911192121081571901914248nat, m) == 52434008938451514822412258036905153254050595832131238758732864776990099648707);
    lemma_pm_succ(7, 14997911192121081571901914248nat, m);
    assert(pm(7, 14997911192121081571901914249nat, m) == 52422811518403460880199363209220277752210855821752844375508101239299210433871);
    lemma_pm_double(7, 14997911192121081571901914249nat, m);
    assert(pm(7, 29995822384242163143803828498nat, m) == 31446247096184342211313504318271446195892409758043194203790291106297517339431);
    lemma_pm_double(7, 29995822384242163143803828498nat, m);
    assert(pm(7, 59991644768484326287607656996nat, m) == 2437643436198111679074376196435867045398491494931884201253163872812484469543);
    lemma_pm_double(7, 59991644768484326287607656996nat, m);
    assert(pm(7, 119983289536968652575215313992nat, m) == 26161161703778366798947966108947206216360977385088613294776229816058823680050);
    lemma_pm_succ(7, 119983289536968652575215313992nat, m);
    assert(pm(7, 119983289536968652575215313993nat, m) == 25820506401069996154292541238072546001455184194037379595622632612596022206811);
    lemma_pm_double(7, 119983289536968652575215313993nat, m);
    assert(pm(7, 239966579073937305150430627986nat, m) == 18445378228663213225625972212865243276622598933642671862367372785881733476819);
    lemma_pm_succ(7, 239966579073937305150430627986nat, m);
    assert(pm(7, 239966579073937305150430627987nat, m) == 24245897250390111620486324473684771260977087534443427391364292101294971968707);
    lemma_pm_double(7, 239966579073937305150430627987nat, m);
    assert(pm(7, 479933158147874610300861255974nat, m) == 2712094626641586288686396150895873418364906970162232613342625086841098351487);
    lemma_pm_succ(7, 479933158147874610300861255974nat, m);
    assert(pm(7, 479933158147874610300861255975nat, m) == 18984662386491104020804773056271113928554348791135628293398375607887688460409);
    lemma_pm_double(7, 479933158147874610300861255975nat, m);
    assert(pm(7, 959866316295749220601722511950nat, m) == 8922174282720934882849361720058131546403733690565395252683953024820249531315);
    lemma_pm_succ(7, 959866316295749220601722511950nat, m);
    assert(pm(7, 959866316295749220601722511951nat, m) == 10019344803920353700497791532220954987135583333430128946184012473803165534692);
    lemma_pm_double(7, 959866316295749220601722511951nat, m);
    assert(pm(7, 1919732632591498441203445023902nat, m) == 48256292340052763708842088244014318856608150422319649074705440383045697089542);
    lemma_pm_succ(7, 1919732632591498441203445023902nat, m);
    assert(pm(7, 1919732632591498441203445023903nat, m) == 23178795329612203085208174658984436970113737953071716587316130481688392519716);
    lemma_pm_double(7, 1919732632591498441203445023903nat, m);
    assert(pm(7, 3839465265182996882406890047806nat, m) == 50733777907787252877218146108271019434919117274093169413961751685892213195879);
    lemma_pm_succ(7, 3839465265182996882406890047806nat, m);
    assert(pm(7, 3839465265182996882406890047807nat, m) == 40521194303753627263840579708781341018290505915486358962110309601614005264075);
    lemma_pm_double(7, 3839465265182996882406890047807nat, m);
    assert(pm(7, 7678930530365993764813780095614nat, m) == 6335025575316152743198041920295319643178668080564025536288569770026672888667);
    lemma_pm_succ(7, 7678930530365993764813780095614nat, m);
    assert(pm(7, 7678930530365993764813780095615nat, m) == 44345179027213069202386293442067237502250676563948178754019988390186710220669);
    lemma_pm_double(7, 7678930530365993764813780095615nat, m);
    assert(pm(7, 15357861060731987529627560191230nat, m) == 49330895311894587602546665588656789152822122370223969488039504918119669190611);
    lemma_pm_double(7, 15357861060731987529627560191230nat, m);
    assert(pm(7, 30715722121463975059255120382460nat, m) == 38627142392563131239646106442881123559970084094892415348112230272259619448783);
    lemma_pm_succ(7, 30715722121463975059255120382460nat, m);
    assert(pm(7, 30715722121463975059255120382461nat, m) == 8210620872310966280284042559238035731337826161608718323767318406124430218916);
    lemma_pm_double(7, 30715722121463975059255120382461nat, m);
    assert(pm(7, 61431444242927950118510240764922nat, m) == 48090913536501328654655579171819638099145293345227965813028787178432372404394);
    lemma_pm_succ(7, 61431444242927950118510240764922nat, m);
    assert(pm(7, 61431444242927950118510240764923nat, m) == 22021143704752157705902611153621671667873738413429933755579558049395119723680);
    lemma_pm_double(7, 61431444242927950118510240764923nat, m);
    assert(pm(7, 122862888485855900237020481529846nat, m) == 29263978621073197500736259892584791755652429213719227760641099621640630874837);
    lemma_pm_succ(7, 122862888485855900237020481529846nat, m);
    assert(pm(7, 122862888485855900237020481529847nat, m) == 47540224822133811066810597723535644776495346994451680856676721251668672570320);
    lemma_pm_double(7, 122862888485855900237020481529847nat, m);
    assert(pm(7, 245725776971711800474040963059694nat, m) == 2914660880519938433128594914355624647891488292623795635366152505325146599754);
    lemma_pm_double(7, 245725776971711800474040963059694nat, m);
    assert(pm(7, 491451553943423600948081926119388nat, m) == 30151443205832992666896682151129011783088655625845613787150807406012404949486);
    lemma_pm_succ(7, 491451553943423600948081926119388nat, m);
    assert(pm(7, 491451553943423600948081926119389nat, m) == 1316601740326186750485813025159219130858379378808745219641017042332509908350);
    lemma_pm_double(7, 491451553943423600948081926119389nat, m);
    assert(pm(7, 982903107886847201896163852238778nat, m) == 36972280648183729941723931967065643055549958401001046070851484263128774519159);
    lemma_pm_succ(7, 982903107886847201896163852238778nat, m);
    assert(pm(7, 982903107886847201896163852238779nat, m) == 49062463836781347674276561736715638038087498804896771205545755042147096896061);
    lemma_pm_double(7, 982903107886847201896163852238779nat, m);
    assert(pm(7, 1965806215773694403792327704477558nat, m) == 6773476796274111765434894517063682483908338713437078561703955850446012749714);
    lemma_pm_double(7, 1965806215773694403792327704477558nat, m);
    assert(pm(7, 3931612431547388807584655408955116nat, m) == 40383487427675083251777364068962321965996647769039598580230858855305001021124);
    lemma_pm_succ(7, 3931612431547388807584655408955116nat, m);
    assert(pm(7, 3931612431547388807584655408955117nat, m) == 20505036118094630365202845941806424573523771880639000948597718487442101225303);
    lemma_pm_double(7, 3931612431547388807584655408955117nat, m);
    assert(pm(7, 7863224863094777615169310817910234nat, m) == 1151684507838584668729196898918715401735389104681440538891558498536288944578);
    lemma_pm_succ(7, 7863224863094777615169310817910234nat, m);
    assert(pm(7, 7863224863094777615169310817910235nat, m) == 8061791554870092681104378292431007812147723732770083772240909489754022612046);
    lemma_pm_double(7, 7863224863094777615169310817910235nat, m);
    assert(pm(7, 15726449726189555230338621635820470nat, m) == 38751449502064313790923256600896714319676914376074261675791659646138857072216);
    lemma_pm_double(7, 15726449726189555230338621635820470nat, m);
    assert(pm(7, 31452899452379110460677243271640940nat, m) == 14568027757892716294453342922316187324268519251479436020193576496582298139329);
    lemma_pm_double(7, 31452899452379110460677243271640940nat, m);
    assert(pm(7, 62905798904758220921354486543281880nat, m) == 22784354921675396478024000324547913420553782663756741695545592355381111201456);
    lemma_pm_succ(7, 62905798904758220921354486543281880nat, m);
    assert(pm(7, 62905798904758220921354486543281881nat, m) == 2182858926349203907824780747277496430804821144714278401008170387852034856653);
    lemma_pm_double(7, 62905798904758220921354486543281881nat, m);
    assert(pm(7, 125811597809516441842708973086563762nat, m) == 2805043988363912167652530761708623852377191831212516095989495256609673824297);
    lemma_pm_double(7, 125811597809516441842708973086563762nat, m);
    assert(pm(7, 251623195619032883685417946173127524nat, m) == 44435679649803277210397412033793940035520365917602271112357300323420378589772);
    lemma_pm_succ(7, 251623195619032883685417946173127524nat, m);
    assert(pm(7, 251623195619032883685417946173127525nat, m) == 48870381672991988075543181695627751060189798920577708673482808764249744205839);
    lemma_pm_double(7, 251623195619032883685417946173127525nat, m);
    assert(pm(7, 503246391238065767370835892346255050nat, m) == 38577881033699483634808970520270031190556263193569819576865469236280479198939);
    lemma_pm_succ(7, 503246391238065767370835892346255050nat, m);
    assert(pm(7, 503246391238065767370835892346255051nat, m) == 7865791360265433046424091100960389145441079852350547925039991154270448470008);
    lemma_pm_double(7, 503246391238065767370835892346255051nat, m);
    assert(pm(7, 1006492782476131534741671784692510102nat, m) == 46802450008040267662151168358517274518808672144691205447425268832152467493857);
    lemma_pm_succ(7, 1006492782476131534741671784692510102nat, m);
    assert(pm(7, 1006492782476131534741671784692510103nat, m) == 13001899005524730758371735460505126605517390009672611196354929625435785349921);
    lemma_pm_double(7, 1006492782476131534741671784692510103nat, m);
    assert(pm(7, 2012985564952263069483343569385020206nat, m) == 33451570481283969755267344356826899942306853399707345510185599653577598503585);
    lemma_pm_succ(7, 2012985564952263069483343569385020206nat, m);
    assert(pm(7, 2012985564952263069483343569385020207nat, m) == 24417492668483026369080448465044436245385763795840867280884562775288864787043);
    lemma_pm_double(7, 2012985564952263069483343569385020207nat, m);
    assert(pm(7, 4025971129904526138966687138770040414nat, m) == 24097931381809897378055909226701522540615923304592417390413207070518294788483);
    lemma_pm_succ(7, 4025971129904526138966687138770040414nat, m);
    assert(pm(7, 4025971129904526138966687138770040415nat, m) == 11377894147290710208048143062352760271239805630564008265081473393812319965842);
    lemma_pm_double(7, 4025971129904526138966687138770040415nat, m);
    assert(pm(7, 8051942259809052277933374277540080830nat, m) == 6955065028686960513968293425634550077863690814323639034025243911486391291591);
    lemma_pm_succ(7, 8051942259809052277933374277540080830nat, m);
    assert(pm(7, 8051942259809052277933374277540080831nat, m) == 48685455200808723597778053979441850545045835700265473238176707380404739041137);
    lemma_pm_double(7, 8051942259809052277933374277540080831nat, m);
    assert(pm(7, 16103884519618104555866748555080161662nat, m) == 3649501135809800866928332283689392139017026174164055608028568403392533518915);
    lemma_pm_double(7, 16103884519618104555866748555080161662nat, m);
    assert(pm(7, 32207769039236209111733497110160323324nat, m) == 37686424525284915315108077611242125714363039590724760417184874635341965144280);
    lemma_pm_double(7, 32207769039236209111733497110160323324nat, m);
    assert(pm(7, 64415538078472418223466994220320646648nat, m) == 34847555006828810262409318606945804696798875548582709780442458516862427797116);
    lemma_pm_double(7, 64415538078472418223466994220320646648nat, m);
    assert(pm(7, 128831076156944836446933988440641293296nat, m) == 743323766996739377308384931364787446247979713622154098563988087422263099423);
    lemma_pm_double(7, 128831076156944836446933988440641293296nat, m);
    assert(pm(7, 257662152313889672893867976881282586592nat, m) == 21536795798058528539999506458092839942486279708087467381187861098677621540950);
    lemma_pm_succ(7, 257662152313889672893867976881282586592nat, m);
    assert(pm(7, 257662152313889672893867976881282586593nat, m) == 45885820236157318821101064190277947922022852955556996023107710290866188417624);
    lemma_pm_double(7, 257662152313889672893867976881282586593nat, m);
    assert(pm(7, 515324304627779345787735953762565173186nat, m) == 46169418756272710812023498575295380362650580063480037476844151487730529748998);
    lemma_pm_succ(7, 515324304627779345787735953762565173186nat, m);
    assert(pm(7, 515324304627779345787735953762565173187nat, m) == 8570680243151832807478046977951867512410745441194435402287108214482221135908);
    lemma_pm_double(7, 515324304627779345787735953762565173187nat, m);
    assert(pm(7, 1030648609255558691575471907525130346374nat, m) == 10996488745532604143375217664784359878299927636590408735118348065729618112329);
    lemma_pm_double(7, 1030648609255558691575471907525130346374nat, m);
    assert(pm(7, 2061297218511117383150943815050260692748nat, m) == 17878236558378213114285692766453590979577907114878553399196687364551779588320);
    lemma_pm_succ(7, 2061297218511117383150943815050260692748nat, m);
    assert(pm(7, 2061297218511117383150943815050260692749nat, m) == 20275905558395110841104368348803205181664244803094598149169494151985294749214);
    lemma_pm_double(7, 2061297218511117383150943815050260692749nat, m);
    assert(pm(7, 4122594437022234766301887630100521385498nat, m) == 1012109995861998690771316429286205310228684849541188469279775886203709277809);
    lemma_pm_succ(7, 4122594437022234766301887630100521385498nat, m);
    assert(pm(7, 4122594437022234766301887630100521385499nat, m) == 7084769971033990835399215005003437171600793946788319284958431203425964944663);
    lemma_pm_double(7, 4122594437022234766301887630100521385499nat, m);
    assert(pm(7, 8245188874044469532603775260201042770998nat, m) == 29137483751659271139531414504823138435573589914186530533428276202415292957479);
    lemma_pm_double(7, 8245188874044469532603775260201042770998nat, m);
    assert(pm(7, 16490377748088939065207550520402085541996nat, m) == 41530018435794288544217982577068658684756474565288086412883386688807603851014);
    lemma_pm_double(7, 16490377748088939065207550520402085541996nat, m);
    assert(pm(7, 32980755496177878130415101040804171083992nat, m) == 44686269696142594680824979340101121836144700486587899225953840856701269318151);
    lemma_pm_succ(7, 32980755496177878130415101040804171083992nat, m);
    assert(pm(7, 32980755496177878130415101040804171083993nat, m) == 50624511997367210368536152839778023664560140903477105468658592497215979304492);
    lemma_pm_double(7, 32980755496177878130415101040804171083993nat, m);
    assert(pm(7, 65961510992355756260830202081608342167986nat, m) == 45256534005006201675884659387850927012507781878358750252020308412981913506037);
    lemma_pm_double(7, 65961510992355756260830202081608342167986nat, m);
    assert(pm(7, 131923021984711512521660404163216684335972nat, m) == 27353476519191971859718143653262257938202221910433609669489964779145119686970);
    lemma_pm_double(7, 131923021984711512521660404163216684335972nat, m);
    assert(pm(7, 263846043969423025043320808326433368671944nat, m) == 30877495131575825739953534370613889417535459478767056711133181989056795780818);
    lemma_pm_double(7, 263846043969423025043320808326433368671944nat, m);
    assert(pm(7, 527692087938846050086641616652866737343888nat, m) == 31717840501533371097634180488585961330076555825749765222917742808330448456215);
    lemma_pm_double(7, 527692087938846050086641616652866737343888nat, m);
    assert(pm(7, 1055384175877692100173283233305733474687776nat, m) == 42483809948933183966885733500329141710155126114188594771194528330804325429871);
    lemma_pm_succ(7, 1055384175877692100173283233305733474687776nat, m);
    assert(pm(7, 1055384175877692100173283233305733474687777nat, m) == 35207293766901335370961431961374162782633120296681974285343404815937372086532);
    lemma_pm_double(7, 1055384175877692100173283233305733474687777nat, m);
    assert(pm(7, 2110768351755384200346566466611466949375554nat, m) == 44802908718659919875501742353515646876640066057474921142581636637498563919327);
    lemma_pm_double(7, 2110768351755384200346566466611466949375554nat, m);
    assert(pm(7, 4221536703510768400693132933222933898751108nat, m) == 24579768772729160841939401192483370360126591160481329003311099293913078199758);
    lemma_pm_succ(7, 4221536703510768400693132933222933898751108nat, m);
    assert(pm(7, 4221536703510768400693132933222933898751109nat, m) == 14750755883725554455232586822825695007814480621786389555366718957575803844767);
    lemma_pm_double(7, 4221536703510768400693132933222933898751109nat, m);
    assert(pm(7, 8443073407021536801386265866445867797502218nat, m) == 15470190455591096054917913807711897326365776617109850788411922261701481847151);
    lemma_pm_double(7, 8443073407021536801386265866445867797502218nat, m);
    assert(pm(7, 16886146814043073602772531732891735595004436nat, m) == 9349636355805662834276973450887391462630604215460876267182975309405691135847);
    lemma_pm_double(7, 16886146814043073602772531732891735595004436nat, m);
    assert(pm(7, 33772293628086147205545063465783471190008872nat, m) == 38132364990376043410511493726910602181055708702224709522342614192376929081569);
    lemma_pm_double(7, 33772293628086147205545063465783471190008872nat, m);
    assert(pm(7, 67544587256172294411090126931566942380017744nat, m) == 32202211554719295806335965986428381707565851627124758976953898020391985481673);
    lemma_pm_succ(7, 67544587256172294411090126931566942380017744nat, m);
    assert(pm(7, 67544587256172294411090126931566942380017745nat, m) == 15671980182530308726560799872254808602198751387762761548262651342989573633659);
    lemma_pm_double(7, 67544587256172294411090126931566942380017745nat, m);
    assert(pm(7, 135089174512344588822180253863133884760035490nat, m) == 38760929262742740030442133025569050513249621131221808035167365049592092134156);
    lemma_pm_succ(7, 135089174512344588822180253863133884760035490nat, m);
    assert(pm(7, 135089174512344588822180253863133884760035491nat, m) == 9147128963568227815856228638053524404294585415914467133153261847451739016527);
    lemma_pm_double(7, 135089174512344588822180253863133884760035491nat, m);
    assert(pm(7, 270178349024689177644360507726267769520070982nat, m) == 2142876327164930001417088439607084325012075575746608965376979117829172038430);
    lemma_pm_succ(7, 270178349024689177644360507726267769520070982nat, m);
    assert(pm(7, 270178349024689177644360507726267769520070983nat, m) == 15000134290154510009919619077249590275084529030226262757638853824804204269010);
    lemma_pm_double(7, 270178349024689177644360507726267769520070983nat, m);
    assert(pm(7, 540356698049378355288721015452535539040141966nat, m) == 15697025422290853999606244002041615085738562598297715043464028728160050314517);
    lemma_pm_succ(7, 540356698049378355288721015452535539040141966nat, m);
    assert(pm(7, 540356698049378355288721015452535539040141967nat, m) == 5007427605783597038348226997919373924788833187028729659040883697243189832593);
    lemma_pm_double(7, 540356698049378355288721015452535539040141967nat, m);
    assert(pm(7, 1080713396098756710577442030905071078080283934nat, m) == 11364389497198682813701136652244914838668980605056359432728767956349550010009);
    lemma_pm_double(7, 1080713396098756710577442030905071078080283934nat, m);
    assert(pm(7, 2161426792197513421154884061810142156160567868nat, m) == 5195431639639247422369784589002520106351483058884558609962841913588483928596);
    lemma_pm_succ(7, 2161426792197513421154884061810142156160567868nat, m);
    assert(pm(7, 2161426792197513421154884061810142156160567869nat, m) == 36368021477474731956588492123017640744460381412191910269739893395119387500172);
    lemma_pm_double(7, 2161426792197513421154884061810142156160567869nat, m);
    assert(pm(7, 4322853584395026842309768123620284312321135738nat, m) == 33826145186310050534405478696768676569028804969008741721041518712754562529220);
    lemma_pm_double(7, 4322853584395026842309768123620284312321135738nat, m);
    assert(pm(7, 8645707168790053684619536247240568624642271476nat, m) == 33210016649389057413351607765799958188375991248694579823571657325936210941311);
    lemma_pm_succ(7, 8645707168790053684619536247240568624642271476nat, m);
    assert(pm(7, 8645707168790053684619536247240568624642271477nat, m) == 22726615845218639975670292327855843967869728738751507474586966481799151851125);
    lemma_pm_double(7, 8645707168790053684619536247240568624642271477nat, m);
    assert(pm(7, 17291414337580107369239072494481137249284542954nat, m) == 45174146463808231496950022249137467552875611107829999737311395386359628529877);
    lemma_pm_succ(7, 17291414337580107369239072494481137249284542954nat, m);
    assert(pm(7, 17291414337580107369239072494481137249284542955nat, m) == 1603774195900477601963712694846477843985962751644171225557815504885912602061);
    lemma_pm_double(7, 17291414337580107369239072494481137249284542955nat, m);
    assert(pm(7, 34582828675160214738478144988962274498569085910nat, m) == 28615077434675610848920137279919873943043353847821735768363436728291097182830);
    lemma_pm_double(7, 34582828675160214738478144988962274498569085910nat, m);
    assert(pm(7, 69165657350320429476956289977924548997138171820nat, m) == 34598426513302026510929733183792187564247197472155888118236714700226606300215);
    lemma_pm_succ(7, 69165657350320429476956289977924548997138171820nat, m);
    assert(pm(7, 69165657350320429476956289977924548997138171821nat, m) == 32445484892609423658717170253801449598968172302980665537242368101831919363453);
    lemma_pm_double(7, 69165657350320429476956289977924548997138171821nat, m);
    assert(pm(7, 138331314700640858953912579955849097994276343642nat, m) == 16315921899659963454081034208034888042746398645395847674543138277552829629319);
    lemma_pm_double(7, 138331314700640858953912579955849097994276343642nat, m);
    assert(pm(7, 276662629401281717907825159911698195988552687284nat, m) == 46697244473746099561284601829210901802824283875898479661774812020715795379416);
    lemma_pm_succ(7, 276662629401281717907825159911698195988552687284nat, m);
    assert(pm(7, 276662629401281717907825159911698195988552687285nat, m) == 12265460265465554052305769755360517593626672128123530696801731945379080548834);
    lemma_pm_double(7, 276662629401281717907825159911698195988552687285nat, m);
    assert(pm(7, 553325258802563435815650319823396391977105374570nat, m) == 20230054595321635937133104100070406136442528556233596982902055307972021768976);
    lemma_pm_double(7, 553325258802563435815650319823396391977105374570nat, m);
    assert(pm(7, 1106650517605126871631300639646792783954210749140nat, m) == 16999249602899775265892964102082635627858556945666076480958226325476084353741);
    lemma_pm_double(7, 1106650517605126871631300639646792783954210749140nat, m);
    assert(pm(7, 2213301035210253743262601279293585567908421498280nat, m) == 42311373840413370742472554471011898887663723888434348697274079960072967801651);
    lemma_pm_double(7, 2213301035210253743262601279293585567908421498280nat, m);
    assert(pm(7, 4426602070420507486525202558587171135816842996560nat, m) == 17737803251196548470754621683070654135239273915976063890748615675647924876845);
    lemma_pm_double(7, 4426602070420507486525202558587171135816842996560nat, m);
    assert(pm(7, 8853204140841014973050405117174342271633685993120nat, m) == 48827233336754311309554485381552614825254173825879248524244954986283822121565);
    lemma_pm_double(7, 8853204140841014973050405117174342271633685993120nat, m);
    assert(pm(7, 17706408281682029946100810234348684543267371986240nat, m) == 8277395582506015304604721715039846630677954484287217189104837974849147324201);
    lemma_pm_succ(7, 17706408281682029946100810234348684543267371986240nat, m);
    assert(pm(7, 17706408281682029946100810234348684543267371986241nat, m) == 5505893902415916652785311497092960577055128889482882501130207124005450084894);
    lemma_pm_double(7, 17706408281682029946100810234348684543267371986241nat, m);
    assert(pm(7, 35412816563364059892201620468697369086534743972482nat, m) == 35367263788361565736491130228484178428907410641586552645430577351359811400802);
    lemma_pm_succ(7, 35412816563364059892201620468697369086534743972482nat, m);
    assert(pm(7, 35412816563364059892201620468697369086534743972483nat, m) == 37827345818026198237646949566645385651589664488995317227599406659764355067562);
    lemma_pm_double(7, 35412816563364059892201620468697369086534743972483nat, m);
    assert(pm(7, 70825633126728119784403240937394738173069487944966nat, m) == 24273821455518360707335607145808642708790100540705421490898686597794103176010);
    lemma_pm_double(7, 70825633126728119784403240937394738173069487944966nat, m);
    assert(pm(7, 141651266253456239568806481874789476346138975889932nat, m) == 27624442730391993536539060565447146444315812700957073720509150941742128233966);
    lemma_pm_succ(7, 141651266253456239568806481874789476346138975889932nat, m);
    assert(pm(7, 141651266253456239568806481874789476346138975889933nat, m) == 36063473587365383317430202433572127597139031405116602575753080492379154084223);
    lemma_pm_double(7, 141651266253456239568806481874789476346138975889933nat, m);
    assert(pm(7, 283302532506912479137612963749578952692277951779866nat, m) == 33634523928765364976231708524384663401001032483744449904356339722936945129273);
    lemma_pm_double(7, 283302532506912479137612963749578952692277951779866nat, m);
    assert(pm(7, 566605065013824958275225927499157905384555903559732nat, m) == 33317875316801773911270527419608914993076804223604944122152904146292717540658);
    lemma_pm_succ(7, 566605065013824958275225927499157905384555903559732nat, m);
    assert(pm(7, 566605065013824958275225927499157905384555903559733nat, m) == 23481626517107655461102729904518541600775419563124057564655694224294698046554);
    lemma_pm_double(7, 566605065013824958275225927499157905384555903559733nat, m);
    assert(pm(7, 1133210130027649916550451854998315810769111807119466nat, m) == 35762342687669122624928495410012777879670988085364927598619851028151793042417);
    lemma_pm_double(7, 1133210130027649916550451854998315810769111807119466nat, m);
    assert(pm(7, 2266420260055299833100903709996631621538223614238932nat, m) == 13107647790098775763997508516122346843130701765999297735804388889778877134272);
    lemma_pm_double(7, 2266420260055299833100903709996631621538223614238932nat, m);
    assert(pm(7, 4532840520110599666201807419993263243076447228477864nat, m) == 39845711529915654318037284197966747925338557574190284729137625404826558692123);
    lemma_pm_succ(7, 4532840520110599666201807419993263243076447228477864nat, m);
    assert(pm(7, 4532840520110599666201807419993263243076447228477865nat, m) == 16740604833778627829022286844837406288917140516693803990945084334093004922296);
    lemma_pm_double(7, 4532840520110599666201807419993263243076447228477865nat, m);
    assert(pm(7, 9065681040221199332403614839986526486152894456955730nat, m) == 34789048820457937224643113309049485898114079582114635641212798670266992767599);
    lemma_pm_double(7, 9065681040221199332403614839986526486152894456955730nat, m);
    assert(pm(7, 18131362080442398664807229679973052972305788913911460nat, m) == 1635303253316496684383394096929768917417164245429277352534883131699675425935);
    lemma_pm_succ(7, 18131362080442398664807229679973052972305788913911460nat, m);
    assert(pm(7, 18131362080442398664807229679973052972305788913911461nat, m) == 11447122773215476790683758678508382421920149718004941467744181921897727981545);
    lemma_pm_double(7, 18131362080442398664807229679973052972305788913911461nat, m);
    assert(pm(7, 36262724160884797329614459359946105944611577827822922nat, m) == 44654290736387968647627022994166538041552964839022170142227069478098896854541);
    lemma_pm_double(7, 36262724160884797329614459359946105944611577827822922nat, m);
    assert(pm(7, 72525448321769594659228918719892211889223155655645844nat, m) == 22088319874994830587345264328104072103829564764847682804160515892043317330647);
    lemma_pm_double(7, 72525448321769594659228918719892211889223155655645844nat, m);
    assert(pm(7, 145050896643539189318457837439784423778446311311291688nat, m) == 20650591085830916980249420875637803980363918680389746681518199597543127968169);
    lemma_pm_succ(7, 145050896643539189318457837439784423778446311311291688nat, m);
    assert(pm(7, 145050896643539189318457837439784423778446311311291689nat, m) == 39682387250564037902850465113092696187166325761672951125420079782924733408157);
    lemma_pm_double(7, 145050896643539189318457837439784423778446311311291689nat, m);
    assert(pm(7, 290101793287078378636915674879568847556892622622583378nat, m) == 228622704489209095941536576519961189227382923981514414732105084445455462755);
    lemma_pm_double(7, 290101793287078378636915674879568847556892622622583378nat, m);
    assert(pm(7, 580203586574156757273831349759137695113785245245166756nat, m) == 11305904901387176675972449025323285436942382219728802110599982051679959298);
    lemma_pm_succ(7, 580203586574156757273831349759137695113785245245166756nat, m);
    assert(pm(7, 580203586574156757273831349759137695113785245245166757nat, m) == 79141334309710236731807143177262998058596675538101614774199874361759715086);
    lemma_pm_double(7, 580203586574156757273831349759137695113785245245166757nat, m);
    assert(pm(7, 1160407173148313514547662699518275390227570490490333514nat, m) == 46238665199268341816136642065971746731416980744397327664197699025554051255451);
    lemma_pm_double(7, 1160407173148313514547662699518275390227570490490333514nat, m);
    assert(pm(7, 2320814346296627029095325399036550780455140980980667028nat, m) == 11422923223283901029905427414284955063294595653013753010891897182448549773746);
    lemma_pm_succ(7, 2320814346296627029095325399036550780455140980980667028nat, m);
    assert(pm(7, 2320814346296627029095325399036550780455140980980667029nat, m) == 27524587387861116729890251391808719605371617070568633253639621577201267231709);
    lemma_pm_double(7, 2320814346296627029095325399036550780455140980980667029nat, m);
    assert(pm(7, 4641628692593254058190650798073101560910281961961334058nat, m) == 4342491007299818610451131967892073198683665306382395931890085043439212629906);
    lemma_pm_succ(7, 4641628692593254058190650798073101560910281961961334058nat, m);
    assert(pm(7, 4641628692593254058190650798073101560910281961961334059nat, m) == 30397437051098730273157923775244512390785657144676771523230595304074488409342);
    lemma_pm_double(7, 4641628692593254058190650798073101560910281961961334059nat, m);
    assert(pm(7, 9283257385186508116381301596146203121820563923922668118nat, m) == 21709044820348412630773157958919381848020897751814991368535544351643072791911);
    lemma_pm_double(7, 9283257385186508116381301596146203121820563923922668118nat, m);
    assert(pm(7, 18566514770373016232762603192292406243641127847845336236nat, m) == 21840409517421378811893423637181364393222233486506195152512359714362355825915);
    lemma_pm_succ(7, 18566514770373016232762603192292406243641127847845336236nat, m);
    assert(pm(7, 18566514770373016232762603192292406243641127847845336237nat, m) == 48011116271697270724358484443897619077174529404488090422379200600659328412379);
    lemma_pm_double(7, 18566514770373016232762603192292406243641127847845336237nat, m);
    assert(pm(7, 37133029540746032465525206384584812487282255695690672474nat, m) == 2367303353068779487052206482780228212147468538580656881858569582084443667061);
    lemma_pm_succ(7, 37133029540746032465525206384584812487282255695690672474nat, m);
    assert(pm(7, 37133029540746032465525206384584812487282255695690672475nat, m) == 16571123471481456409365445379461597485032279770064598173009987074591105669427);
    lemma_pm_double(7, 37133029540746032465525206384584812487282255695690672475nat, m);
    assert(pm(7, 74266059081492064931050412769169624974564511391381344950nat, m) == 14007139991036315314794110604253840095803315952879128352497747593995375717783);
    lemma_pm_double(7, 74266059081492064931050412769169624974564511391381344950nat, m);
    assert(pm(7, 148532118162984129862100825538339249949129022782762689900nat, m) == 17504560621739977854755616402344334122938091909291861193824031757131747479733);
    lemma_pm_succ(7, 148532118162984129862100825538339249949129022782762689900nat, m);
    assert(pm(7, 148532118162984129862100825538339249949129022782762689901nat, m) == 17660174001927464024393833800038407185185538363987752711560904900045069989105);
    lemma_pm_double(7, 148532118162984129862100825538339249949129022782762689901nat, m);
    assert(pm(7, 297064236325968259724201651076678499898258045565525379802nat, m) == 10381755969482499245699961215353807059169368449426568392532850874281900629571);
    lemma_pm_double(7, 297064236325968259724201651076678499898258045565525379802nat, m);
    assert(pm(7, 594128472651936519448403302153356999796516091131050759604nat, m) == 8594348871303651337460306402386472296678725760759158225520741954798947839806);
    lemma_pm_succ(7, 594128472651936519448403302153356999796516091131050759604nat, m);
    assert(pm(7, 594128472651936519448403302153356999796516091131050759605nat, m) == 7724566923999368882774404308519340239060527824786469756041534983654053694129);
    lemma_pm_double(7, 594128472651936519448403302153356999796516091131050759605nat, m);
    assert(pm(7, 1188256945303873038896806604306713999593032182262101519210nat, m) == 28541672351739128024235526122724844109156771465031529543745771518361259916340);
    lemma_pm_succ(7, 1188256945303873038896806604306713999593032182262101519210nat, m);
    assert(pm(7, 1188256945303873038896806604306713999593032182262101519211nat, m) == 42484080936795324731305461334516011251025742753637793338409424528713075860841);
    lemma_pm_double(7, 1188256945303873038896806604306713999593032182262101519211nat, m);
    assert(pm(7, 2376513890607746077793613208613427999186064364524203038422nat, m) == 25566012694880565132926587862039882900789936584350138295955156295643016063634);
    lemma_pm_succ(7, 2376513890607746077793613208613427999186064364524203038422nat, m);
    assert(pm(7, 2376513890607746077793613208613427999186064364524203038423nat, m) == 21654463338785384492142893509721282792457898588868054603875117969685368891899);
    lemma_pm_double(7, 2376513890607746077793613208613427999186064364524203038423nat, m);
    assert(pm(7, 4753027781215492155587226417226855998372128729048406076846nat, m) == 35639168619836549377821537543395537241190135344758988593317633816747588478857);
    lemma_pm_succ(7, 4753027781215492155587226417226855998372128729048406076846nat, m);
    assert(pm(7, 4753027781215492155587226417226855998372128729048406076847nat, m) == 39730679638351083726959800771024897337568737411202368862808801917478794613947);
    lemma_pm_double(7, 4753027781215492155587226417226855998372128729048406076847nat, m);
    assert(pm(7, 9506055562430984311174452834453711996744257458096812153694nat, m) == 31061127078166652987872898280340290476536257865085712911453148809539531730105);
    lemma_pm_double(7, 9506055562430984311174452834453711996744257458096812153694nat, m);
    assert(pm(7, 19012111124861968622348905668907423993488514916193624307388nat, m) == 3241385640109637366334396405635779097259708172413011831242024140462168519585);
    lemma_pm_double(7, 19012111124861968622348905668907423993488514916193624307388nat, m);
    assert(pm(7, 38024222249723937244697811337814847986977029832387248614776nat, m) == 13755208678817210329157273780360541377995552019466297798258531100631710733728);
    lemma_pm_double(7, 38024222249723937244697811337814847986977029832387248614776nat, m);
    assert(pm(7, 76048444499447874489395622675629695973954059664774497229552nat, m) == 41249813593395529814818600954522152093134434376394309553647411024329185785125);
    lemma_pm_double(7, 76048444499447874489395622675629695973954059664774497229552nat, m);
    assert(pm(7, 152096888998895748978791245351259391947908119329548994459104nat, m) == 20657976676053312170833818495424305834449665278711788594121292317194632304377);
    lemma_pm_succ(7, 152096888998895748978791245351259391947908119329548994459104nat, m);
    assert(pm(7, 152096888998895748978791245351259391947908119329548994459105nat, m) == 39734086382120804236941248451598209165766551949927244513641728820485263761613);
    lemma_pm_double(7, 152096888998895748978791245351259391947908119329548994459105nat, m);
    assert(pm(7, 304193777997791497957582490702518783895816238659097988918210nat, m) == 35630094428453371182741004093307374107563239354831640963385139785042418621601);
    lemma_pm_succ(7, 304193777997791497957582490702518783895816238659097988918210nat, m);
    assert(pm(7, 304193777997791497957582490702518783895816238659097988918211nat, m) == 39667160298668836361396066620407755402180465481710935453281343695542605613155);
    lemma_pm_double(7, 304193777997791497957582490702518783895816238659097988918211nat, m);
    assert(pm(7, 608387555995582995915164981405037567791632477318195977836422nat, m) == 25473529144137097552020982361931696881633520495119422991134271717789822268945);
    lemma_pm_double(7, 608387555995582995915164981405037567791632477318195977836422nat, m);
    assert(pm(7, 1216775111991165991830329962810075135583264954636391955672844nat, m) == 40737723241207884963342976050701483614572887392078933016825450049478490098854);
    lemma_pm_succ(7, 1216775111991165991830329962810075135583264954636391955672844nat, m);
    assert(pm(7, 1216775111991165991830329962810075135583264954636391955672845nat, m) == 22984686812824242346162129813980556113557449241914342004759856846656524769413);
    lemma_pm_double(7, 1216775111991165991830329962810075135583264954636391955672845nat, m);
    assert(pm(7, 2433550223982331983660659925620150271166529909272783911345690nat, m) == 7213281305182485488857092547152573169610661174100951317972634979412888419788);
    lemma_pm_succ(7, 2433550223982331983660659925620150271166529909272783911345690nat, m);
    assert(pm(7, 2433550223982331983660659925620150271166529909272783911345691nat, m) == 50492969136277398421999647830068012187274628218706659225808444855890218938516);
    lemma_pm_double(7, 2433550223982331983660659925620150271166529909272783911345691nat, m);
    assert(pm(7, 4867100447964663967321319851240300542333059818545567822691382nat, m) == 44350453949110096149462553168846845394958372036231936221648233275126006269823);
    lemma_pm_succ(7, 4867100447964663967321319851240300542333059818545567822691382nat, m);
    assert(pm(7, 4867100447964663967321319851240300542333059818545567822691383nat, m) == 48273801768139720648999169640998088576255841750985364438519339426189137966196);
    lemma_pm_double(7, 4867100447964663967321319851240300542333059818545567822691383nat, m);
    assert(pm(7, 9734200895929327934642639702480601084666119637091135645382766nat, m) == 29982321884997287148666944439244592121074283502707455341621595343856451465561);
    lemma_pm_double(7, 9734200895929327934642639702480601084666119637091135645382766nat, m);
    assert(pm(7, 19468401791858655869285279404961202169332239274182271290765532nat, m) == 15941936489700647225301354186472006362311872167118315287053080541382681284664);
    lemma_pm_double(7, 19468401791858655869285279404961202169332239274182271290765532nat, m);
    assert(pm(7, 38936803583717311738570558809922404338664478548364542581531064nat, m) == 24859923455857365363242281364690296787033274863274309375300444217404256479336);
    lemma_pm_double(7, 38936803583717311738570558809922404338664478548364542581531064nat, m);
    assert(pm(7, 77873607167434623477141117619844808677328957096729085163062128nat, m) == 44747240810272777938345906362326591658060929257041386931841471374667550247978);
    lemma_pm_double(7, 77873607167434623477141117619844808677328957096729085163062128nat, m);
    assert(pm(7, 155747214334869246954282235239689617354657914193458170326124256nat, m) == 11904254392650539400760628706000562307758052375136653613447151402178029207456);
    lemma_pm_double(7, 155747214334869246954282235239689617354657914193458170326124256nat, m);
    assert(pm(7, 311494428669738493908564470479379234709315828386916340652248512nat, m) == 2130327855787998026287962430783287887720381988554451215876494282076170825484);
    lemma_pm_double(7, 311494428669738493908564470479379234709315828386916340652248512nat, m);
    assert(pm(7, 622988857339476987817128940958758469418631656773832681304497024nat, m) == 20014042752898669801444825000478989149728309416749007685191932139805746907987);
    lemma_pm_double(7, 622988857339476987817128940958758469418631656773832681304497024nat, m);
    assert(pm(7, 1245977714678953975634257881917516938837263313547665362608994048nat, m) == 305142215070700232058484742641836634148420909084198012221949311165641330033);
    lemma_pm_double(7, 1245977714678953975634257881917516938837263313547665362608994048nat, m);
    assert(pm(7, 2491955429357907951268515763835033877674526627095330725217988096nat, m) == 7887623892385530864868667331746832116114013790762218541924038018462413028085);
    lemma_pm_double(7, 2491955429357907951268515763835033877674526627095330725217988096nat, m);
    assert(pm(7, 4983910858715815902537031527670067755349053254190661450435976192nat, m) == 24339716367461890727277173419795073099080462223321723403373602624752078058348);
    lemma_pm_double(7, 4983910858715815902537031527670067755349053254190661450435976192nat, m);
    assert(pm(7, 9967821717431631805074063055340135510698106508381322900871952384nat, m) == 28710485658269759236016403976960151493402655594794191867163902435668562628495);
    lemma_pm_double(7, 9967821717431631805074063055340135510698106508381322900871952384nat, m);
    assert(pm(7, 19935643434863263610148126110680271021396213016762645801743904768nat, m) == 18404766486320130177021606766030446111123432184051690940412493185204437918778);
    lemma_pm_double(7, 19935643434863263610148126110680271021396213016762645801743904768nat, m);
    assert(pm(7, 39871286869726527220296252221360542042792426033525291603487809536nat, m) == 9979056916615886583278031124998363109252096374912613547476215858694308023853);
    lemma_pm_double(7, 39871286869726527220296252221360542042792426033525291603487809536nat, m);
    assert(pm(7, 79742573739453054440592504442721084085584852067050583206975619072nat, m) == 14188817355587047039947521296863099659618378960957502725809127213642819519227);
    lemma_pm_double(7, 79742573739453054440592504442721084085584852067050583206975619072nat, m);
    assert(pm(7, 159485147478906108881185008885442168171169704134101166413951238144nat, m) == 42125100069039503105579559819048688102333836025450278671412945029708966354759);
    lemma_pm_double(7, 159485147478906108881185008885442168171169704134101166413951238144nat, m);
    assert(pm(7, 318970294957812217762370017770884336342339408268202332827902476288nat, m) == 36059258949911968462428253157613114620511632973310046875768866494608999530502);
    lemma_pm_double(7, 318970294957812217762370017770884336342339408268202332827902476288nat, m);
    assert(pm(7, 637940589915624435524740035541768672684678816536404665655804952576nat, m) == 49340902600366726508803584577545259317544586657648662031747107198896619638242);
    lemma_pm_double(7, 637940589915624435524740035541768672684678816536404665655804952576nat, m);
    assert(pm(7, 1275881179831248871049480071083537345369357633072809331311609905152nat, m) == 32782166576535870811680513240376371688393544058453001651475909501931800890135);
    lemma_pm_double(7, 1275881179831248871049480071083537345369357633072809331311609905152nat, m);
    assert(pm(7, 2551762359662497742098960142167074690738715266145618662623219810304nat, m) == 6289392085021799578714503685266420046878335625439790905606220788157993291326);
    lemma_pm_double(7, 2551762359662497742098960142167074690738715266145618662623219810304nat, m);
    assert(pm(7, 5103524719324995484197920284334149381477430532291237325246439620608nat, m) == 46409829731779560477433612726801381234613936095645041837714745499897411621715);
    lemma_pm_double(7, 5103524719324995484197920284334149381477430532291237325246439620608nat, m);
    assert(pm(7, 10207049438649990968395840568668298762954861064582474650492879241216nat, m) == 23105116240519494320995846767992409567907399245527998164967777315143930276662);
    lemma_pm_double(7, 10207049438649990968395840568668298762954861064582474650492879241216nat, m);
    assert(pm(7, 20414098877299981936791681137336597525909722129164949300985758482432nat, m) == 27083086518584632470642022068967689348533524247539745875488635161190876092694);
    lemma_pm_double(7, 20414098877299981936791681137336597525909722129164949300985758482432nat, m);
    assert(pm(7, 40828197754599963873583362274673195051819444258329898601971516964864nat, m) == 23183842328875653479545949611022311731266307288927724660705371889469120783390);
    lemma_pm_double(7, 40828197754599963873583362274673195051819444258329898601971516964864nat, m);
    assert(pm(7, 81656395509199927747166724549346390103638888516659797203943033929728nat, m) == 45892058779058465280579517665773042300721891328910532028873977891041750342946);
    lemma_pm_double(7, 81656395509199927747166724549346390103638888516659797203943033929728nat, m);
    assert(pm(7, 163312791018399855494333449098692780207277777033319594407886067859456nat, m) == 5848877000745606916131302102737612894699629492865476171648394148387993048084);
    lemma_pm_double(7, 163312791018399855494333449098692780207277777033319594407886067859456nat, m);
    assert(pm(7, 326625582036799710988666898197385560414555554066639188815772135718912nat, m) == 45337558424846959876465718885428964440051428980822247716316023800821102732664);
    lemma_pm_double(7, 326625582036799710988666898197385560414555554066639188815772135718912nat, m);
    assert(pm(7, 653251164073599421977333796394771120829111108133278377631544271437824nat, m) == 30619247546563970975525187389429893488059736285941442069046116266148801002963);
    lemma_pm_double(7, 653251164073599421977333796394771120829111108133278377631544271437824nat, m);
    assert(pm(7, 1306502328147198843954667592789542241658222216266556755263088542875648nat, m) == 11369207238526677214170893915707862405925656938873909294425367603129360373621);
    lemma_pm_double(7, 1306502328147198843954667592789542241658222216266556755263088542875648nat, m);
    assert(pm(7, 2613004656294397687909335185579084483316444432533113510526177085751296nat, m) == 36532572719185789187856576692643037097604238976315746824252998210386812787376);
    lemma_pm_double(7, 2613004656294397687909335185579084483316444432533113510526177085751296nat, m);
    assert(pm(7, 5226009312588795375818670371158168966632888865066227021052354171502592nat, m) == 51755833155012630130999580338830927901900106246480266377805119487296023291369);
    lemma_pm_double(7, 5226009312588795375818670371158168966632888865066227021052354171502592nat, m);
    assert(pm(7, 10452018625177590751637340742316337933265777730132454042104708343005184nat, m) == 25590086531331809737032439475719652378682087454697416365717329472419166732011);
    lemma_pm_double(7, 10452018625177590751637340742316337933265777730132454042104708343005184nat, m);
    assert(pm(7, 20904037250355181503274681484632675866531555460264908084209416686010368nat, m) == 3815854618502706066781575637619522226469869671769340391720987388396519592594);
}

/// `7^20730534112249487519168649878325425342537568153642435714120548880482304 mod 52435875175126190479447740508185965837690552500527637822603658699938581184513`.
proof fn lemma_pow_52435875175126190479447740508185965837690552500527637822603658699938581184513_by_2529403()
    ensures
        pm(7, 20730534112249487519168649878325425342537568153642435714120548880482304nat, fr_modulus() as int) == 49551106890066900544454285625746392760007334600837347914792012465621494065871,
{
    let m: int = fr_modulus() as int;
    lemma_pm_one(7, m);
    lemma_pm_double(7, 1nat, m);
    assert(pm(7, 2nat, m) == 49);
    lemma_pm_succ(7, 2nat, m);
    assert(pm(7, 3nat, m) == 343);
    lemma_pm_double(7, 3nat, m);
    assert(pm(7, 6nat, m) == 117649);
    lemma_pm_double(7, 6nat, m);
    assert(pm(7, 12nat, m) == 13841287201);
    lemma_pm_double(7, 12nat, m);
    assert(pm(7, 24nat, m) == 191581231380566414401);
    lemma_pm_double(7, 24nat, m);
    assert(pm(7, 48nat, m) == 36703368217294125441230211032033660188801);
    lemma_pm_double(7, 48nat, m);
    assert(pm(7, 96nat, m) == 7169370109588224514666326067242483218629163598934389574923453452029754494118);
    lemma_pm_double(7, 96nat, m);
    assert(pm(7, 192nat, m) == 16813465035296828417219268754292703692576158205831990915353710828204495945655);
    lemma_pm_double(7, 192nat, m);
    assert(pm(7, 384nat, m) == 36644440289454736539243141112419036945575597529209034013414509473162036507192);
    lemma_pm_double(7, 384nat, m);
    assert(pm(7, 768nat, m) == 43919708938168292404213011752420537284510214693367400843125381204836776443126);
    lemma_pm_double(7, 768nat, m);
    assert(pm(7, 1536nat, m) == 50576137181833686123814264328388064241591088432085843009770853688292276616924);
    lemma_pm_succ(7, 1536nat, m);
    assert(pm(7, 1537nat, m) == 39417709222078659990013407249600654664994304021435074132774023618414449211390);
    lemma_pm_double(7, 1537nat, m);
    assert(pm(7, 3074nat, m) == 7693116508253838059304126298012784967191937445293519549725153904982717690168);
    lemma_pm_succ(7, 3074nat, m);
    assert(pm(7, 3075nat, m) == 1415940382650675935681143577903528932653009616526999025472418634940442646663);
    lemma_pm_double(7, 3075nat, m);
    assert(pm(7, 6150nat, m) == 14639996304511741573879225749035180758673006473397531316681356732771440659233);
    lemma_pm_succ(7, 6150nat, m);
    assert(pm(7, 6151nat, m) == 50044098956456000537706839735060299473020492813255081394165838429461503430118);
    lemma_pm_double(7, 6151nat, m);
    assert(pm(7, 12302nat, m) == 38235554041754338147263419214350787414507895490070400821494188897800350592553);
    lemma_pm_succ(7, 12302nat, m);
    assert(pm(7, 12303nat, m) == 5469502416649414633605231959525682713102505927854616637441028784909548225306);
    lemma_pm_double(7, 12303nat, m);
    assert(pm(7, 24606nat, m) == 23184555562983541632840601151800241628345040417882469407003193025611541298357);
    lemma_pm_double(7, 24606nat, m);
    assert(pm(7, 49212nat, m) == 48412255380198179831130512022268970392223793959677567678993761133195534997156);
    lemma_pm_double(7, 49212nat, m);
    assert(pm(7, 98424nat, m) == 16768729896427423918366988213810985129023614552327083384703091861756481564151);
    lemma_pm_double(7, 98424nat, m);
    assert(pm(7, 196848nat, m) == 27331040532147724006603042390878444279949332723529914569283969820210330133184);
    lemma_pm_double(7, 196848nat, m);
    assert(pm(7, 393696nat, m) == 15067969819767602673597787894797602424136812597850463712681659645013831477914);
    lemma_pm_double(7, 393696nat, m);
    assert(pm(7, 787392nat, m) == 31168768774760384779864183991963132341445844520529720923634470256707191818534);
    lemma_pm_double(7, 787392nat, m);
    assert(pm(7, 1574784nat, m) == 36329588116519113684964991710897199720045465684347549884604379264749524678807);
    lemma_pm_succ(7, 1574784nat, m);
    assert(pm(7, 1574785nat, m) == 44563616115129033876963979943536534689556049788322297901816020053492348013597);
    lemma_pm_double(7, 1574785nat, m);
    assert(pm(7, 3149570nat, m) == 36672763665483652363919464786592522120586296893673457994368332258766515035620);
    lemma_pm_succ(7, 3149570nat, m);
    assert(pm(7, 3149571nat, m) == 46965844957880804629645291473403791493341868253603654670163691011611280511288);
    lemma_pm_double(7, 3149571nat, m);
    assert(pm(7, 6299142nat, m) == 45146821194681556662098379603160219585260744171435897049140866295259803070231);
    lemma_pm_double(7, 6299142nat, m);
    assert(pm(7, 12598284nat, m) == 50487027345900752574508236698055964639852060160783484090113540511681884748708);
    lemma_pm_double(7, 12598284nat, m);
    assert(pm(7, 25196568nat, m) == 19262725662135414896363266494449815823637041193786380397535949054239929842580);
    lemma_pm_double(7, 25196568nat, m);
    assert(pm(7, 50393136nat, m) == 31826805184049221840094598886218982336009352265547620522479201040927595726006);
    lemma_pm_double(7, 50393136nat, m);
    assert(pm(7, 100786272nat, m) == 17359480437568300420203129535825067945175057160129029481559060005064541238833);
    lemma_pm_succ(7, 100786272nat, m);
    assert(pm(7, 100786273nat, m) == 16644612712725721982526425734403543940844295119847930725706102635574626302805);
    lemma_pm_double(7, 100786273nat, m);
    assert(pm(7, 201572546nat, m) == 7244069956684929551777124355934883918897427712488250971647750062263959205955);
    lemma_pm_succ(7, 201572546nat, m);
    assert(pm(7, 201572547nat, m) == 50708489696794506862439870491544187432281993987417756801534250435847714441685);
    lemma_pm_double(7, 201572547nat, m);
    assert(pm(7, 403145094nat, m) == 16264369180962620664234573104638586278266451861631058542654348711706610346337);
    lemma_pm_succ(7, 403145094nat, m);
    assert(pm(7, 403145095nat, m) == 8978833916485963690746530716098172272484058030362134153373123582069110055333);
    lemma_pm_double(7, 403145095nat, m);
    assert(pm(7, 806290190nat, m) == 29796240311964888147682728012557720664289720825500514750508228433056663993618);
    lemma_pm_double(7, 806290190nat, m);
    assert(pm(7, 1612580380nat, m) == 51472638975085333308272341718616125205474440581880260104736440664290195285052);
    lemma_pm_succ(7, 1612580380nat, m);
    assert(pm(7, 1612580381nat, m) == 45693221774840190281219948981197081412177769069995993797533132450399879888286);
    lemma_pm_double(7, 1612580381nat, m);
    assert(pm(7, 3225160762nat, m) == 45146935950866106759249913273112444318703038017440315141747517281651291116864);
    lemma_pm_double(7, 3225160762nat, m);
    assert(pm(7, 6450321524nat, m) == 13012898280942420779097861793898005584847210415245867666657365535801603669333);
    lemma_pm_double(7, 6450321524nat, m);
    assert(pm(7, 12900643048nat, m) == 23680186406435872945901993582160251633503075645007166577419566397635367578253);
    lemma_pm_succ(7, 12900643048nat, m);
    assert(pm(7, 12900643049nat, m) == 8453679319672539182970733550563863921449872013467252574125988683631829494232);
    lemma_pm_double(7, 12900643049nat, m);
    assert(pm(7, 25801286098nat, m) == 48791750437129089732047039483092740044996159222259536980239219948974244386745);
    lemma_pm_succ(7, 25801286098nat, m);
    assert(pm(7, 25801286099nat, m) == 26927002009146485247642833332533385288829799552650931926052587443188223600137);
    lemma_pm_double(7, 25801286099nat, m);
    assert(pm(7, 51602572198nat, m) == 23243951067547757925595489275647914795938760805743655716763925758929311593259);
    lemma_pm_succ(7, 51602572198nat, m);
    assert(pm(7, 51602572199nat, m) == 5400031947455734040825203404977506058499668138622676549536504212689437599274);
    lemma_pm_double(7, 51602572199nat, m);
    assert(pm(7, 103205144398nat, m) == 29298308847139406674707111966506884879955593715937963649692809233239441475743);
    lemma_pm_succ(7, 103205144398nat, m);
    assert(pm(7, 103205144399nat, m) == 47780536404597275284606562240990296646617498509982832080038688532860346776662);
    lemma_pm_double(7, 103205144399nat, m);
    assert(pm(7, 206410288798nat, m) == 43638769529049022981001812017119698004701386486018239928542765475953910342217);
    lemma_pm_double(7, 206410288798nat, m);
    assert(pm(7, 412820577596nat, m) == 22380765222993179670831593556867228266634568179684022445413597334798505730863);
    lemma_pm_double(7, 412820577596nat, m);
    assert(pm(7, 825641155192nat, m) == 20542278099259977044592372465829597739296120024772433734638593302823725426087);
    lemma_pm_double(7, 825641155192nat, m);
    assert(pm(7, 1651282310384nat, m) == 46765171293999402481721428588444295392079869560555341846209241907407718293011);
    lemma_pm_double(7, 1651282310384nat, m);
    assert(pm(7, 3302564620768nat, m) == 51907279158856986222423294917816698931489588191737685201297929123235615148067);
    lemma_pm_double(7, 3302564620768nat, m);
    assert(pm(7, 6605129241536nat, m) == 35469591549739830562900921258459914362715485246598129679503464086802344323160);
    lemma_pm_double(7, 6605129241536nat, m);
    assert(pm(7, 13210258483072nat, m) == 1009524836122213158841832186662626398140524603385080090904265397624503144951);
    lemma_pm_double(7, 13210258483072nat, m);
    assert(pm(7, 26420516966144nat, m) == 844011375426426254929068307935547857816671564881206185934381379115669614514);
    lemma_pm_double(7, 26420516966144nat, m);
    assert(pm(7, 52841033932288nat, m) == 6685963563107251148176675612276904636401314203225769530071711688936093289727);
    lemma_pm_double(7, 52841033932288nat, m);
    assert(pm(7, 105682067864576nat, m) == 48975637971457720056521203466949037052443215786602097914838006401593312442567);
    lemma_pm_double(7, 105682067864576nat, m);
    assert(pm(7, 211364135729152nat, m) == 26635154662360171441581904640014460204041092146063043937339046977679110615624);
    lemma_pm_double(7, 211364135729152nat, m);
    assert(pm(7, 422728271458304nat, m) == 26596567803743823684468329050891761148403812340380154094267457406288327755519);
    lemma_pm_double(7, 422728271458304nat, m);
    assert(pm(7, 845456542916608nat, m) == 20351962243402154366673643893501151019342979242114664062730482642528115940011);
    lemma_pm_double(7, 845456542916608nat, m);
    assert(pm(7, 1690913085833216nat, m) == 22355486387254041386628466817741993910255471480869140974225853759860538646925);
    lemma_pm_succ(7, 1690913085833216nat, m);
    assert(pm(7, 1690913085833217nat, m) == 51616654360525908747503786707822025696407195365028711174373658919146608159449);
    lemma_pm_double(7, 1690913085833217nat, m);
    assert(pm(7, 3381826171666434nat, m) == 315454628774508812152063174266684768571577751558541526581715587912668022873);
    lemma_pm_succ(7, 3381826171666434nat, m);
    assert(pm(7, 3381826171666435nat, m) == 2208182401421561685064442219866793380001044260909790686072009115388676160111);
    lemma_pm_double(7, 3381826171666435nat, m);
    assert(pm(7, 6763652343332870nat, m) == 47259564414407800742170056705890042413977055280977763891034882673717870342662);
    lemma_pm_double(7, 6763652343332870nat, m);
    assert(pm(7, 13527304686665740nat, m) == 11497139277334030978643627638989497355451709548050856508456538027102421844133);
    lemma_pm_double(7, 13527304686665740nat, m);
    assert(pm(7, 27054609373331480nat, m) == 39842053544986049976254811314757113329218246675617304822883279235154985547635);
    lemma_pm_succ(7, 27054609373331480nat, m);
    assert(pm(7, 27054609373331481nat, m) == 16714998939271397436544976662369964116074964226682944647164661146391992910880);
    lemma_pm_double(7, 27054609373331481nat, m);
    assert(pm(7, 54109218746662962nat, m) == 35293591785370430680103121013802744783676709315896373516278675616166272713500);
    lemma_pm_double(7, 54109218746662962nat, m);
    assert(pm(7, 108218437493325924nat, m) == 27104775425735818934343861748041389056684431726380699733006919028194152373074);
    lemma_pm_succ(7, 108218437493325924nat, m);
    assert(pm(7, 108218437493325925nat, m) == 32425802454772161102063810711731825883719364583081984663237457097543323057979);
    lemma_pm_double(7, 108218437493325925nat, m);
    assert(pm(7, 216436874986651850nat, m) == 38732632614739732138152678580439686681520067331749498902810721055693360890178);
    lemma_pm_succ(7, 216436874986651850nat, m);
    assert(pm(7, 216436874986651851nat, m) == 8949052427547172569830047522147977582187708819608303206656753890160620308681);
    lemma_pm_double(7, 216436874986651851nat, m);
    assert(pm(7, 432873749973303702nat, m) == 4277659427564797327467325036682981829629964712327572428905771329452224845335);
    lemma_pm_double(7, 432873749973303702nat, m);
    assert(pm(7, 865747499946607404nat, m) == 33521114908320811825463609418745667758989918552095160159565745581303504327160);
    lemma_pm_succ(7, 865747499946607404nat, m);
    assert(pm(7, 865747499946607405nat, m) == 24904303657740920860454303898475810962167219862555569826545584269370205552068);
    lemma_pm_double(7, 865747499946607405nat, m);
    assert(pm(7, 1731494999893214810nat, m) == 12938720439114458016112869886852453722224112281022738768829036946462039109314);
    lemma_pm_double(7, 1731494999893214810nat, m);
    assert(pm(7, 3462989999786429620nat, m) == 23658173669147731529862619698363499272209768027469243121895019611605281054190);
    lemma_pm_succ(7, 3462989999786429620nat, m);
    assert(pm(7, 3462989999786429621nat, m) == 8299590158655549270695116363986597392396718690701788385454161181421223825791);
    lemma_pm_double(7, 3462989999786429621nat, m);
    assert(pm(7, 6925979999572859242nat, m) == 962031636689903727849402878103140525103188395670218407409572771261319520963);
    lemma_pm_succ(7, 6925979999572859242nat, m);
    assert(pm(7, 6925979999572859243nat, m) == 6734221456829326094945820146721983675722318769691528851867009398829236646741);
    lemma_pm_double(7, 6925979999572859243nat, m);
    assert(pm(7, 13851959999145718486nat, m) == 24331477904832496178177687534900092810453479483867306531630970204106315203875);
    lemma_pm_double(7, 13851959999145718486nat, m);
    assert(pm(7, 27703919998291436972nat, m) == 31412739792526173076413961585293600532913816356542535361286586053463144095255);
    lemma_pm_double(7, 27703919998291436972nat, m);
    assert(pm(7, 55407839996582873944nat, m) == 13208930233898407640001975301974906429767421544673054274752574444887240371396);
    lemma_pm_double(7, 55407839996582873944nat, m);
    assert(pm(7, 110815679993165747888nat, m) == 24075335812670181158229982305615475171658147441545949295856064771732372325967);
    lemma_pm_double(7, 110815679993165747888nat, m);
    assert(pm(7, 221631359986331495776nat, m) == 42376277040073550414560658706164909235828468987136470431630417447527315254837);
    lemma_pm_double(7, 221631359986331495776nat, m);
    assert(pm(7, 443262719972662991552nat, m) == 28148352225660337144342556509190508143136760079388846513581453574554131307399);
    lemma_pm_succ(7, 443262719972662991552nat, m);
    assert(pm(7, 443262719972662991553nat, m) == 39730840054243788572054674039775659488885663054139012127259198922063175598254);
    lemma_pm_double(7, 443262719972662991553nat, m);
    assert(pm(7, 886525439945325983106nat, m) == 28915944572841152149530848246872299111465052242863106767710484461290930267146);
    lemma_pm_double(7, 886525439945325983106nat, m);
    assert(pm(7, 1773050879890651966212nat, m) == 25645701661514478539738460770357431444055656572223247324459187179036354911126);
    lemma_pm_double(7, 1773050879890651966212nat, m);
    assert(pm(7, 3546101759781303932424nat, m) == 36091103893475036856808898640774017754720799985604208743955512369290408960455);
    lemma_pm_double(7, 3546101759781303932424nat, m);
    assert(pm(7, 7092203519562607864848nat, m) == 7851302622594133349876713706845357366567489257805206722006363640944332467520);
    lemma_pm_succ(7, 7092203519562607864848nat, m);
    assert(pm(7, 7092203519562607864849nat, m) == 2523243183032742969689255439731535728281872304108809231440886786671746088127);
    lemma_pm_double(7, 7092203519562607864849nat, m);
    assert(pm(7, 14184407039125215729698nat, m) == 37441602359781970847955888520996205359496747978374951456335993530349434185031);
    lemma_pm_double(7, 14184407039125215729698nat, m);
    assert(pm(7, 28368814078250431459396nat, m) == 24797160477613965839079588373635473357313543674262701287572343704492409433277);
    lemma_pm_succ(7, 28368814078250431459396nat, m);
    assert(pm(7, 28368814078250431459397nat, m) == 16272497817919189435213897090890415988123148218255995545195429831631122479400);
    lemma_pm_double(7, 28368814078250431459397nat, m);
    assert(pm(7, 56737628156500862918794nat, m) == 40283294452286310388924703950498541407049111373729834853723640352089852992768);
    lemma_pm_succ(7, 56737628156500862918794nat, m);
    assert(pm(7, 56737628156500862918795nat, m) == 19803685290373220325234225112559960660891017113470654863047188964936065026811);
    lemma_pm_double(7, 56737628156500862918795nat, m);
    assert(pm(7, 113475256313001725837590nat, m) == 2676680589376954991526443143063690615580974466503194062899063182450368492067);
    lemma_pm_succ(7, 113475256313001725837590nat, m);
    assert(pm(7, 113475256313001725837591nat, m) == 18736764125638684940685102001445834309066821265522358440293442277152579444469);
    lemma_pm_double(7, 113475256313001725837591nat, m);
    assert(pm(7, 226950512626003451675182nat, m) == 47586663134472136227467297023965172949551507725045890316643128509608567791154);
    lemma_pm_succ(7, 226950512626003451675182nat, m);
    assert(pm(7, 226950512626003451675183nat, m) == 18491390890547810715584636118640415620717239072155405280879947367628487431000);
    lemma_pm_double(7, 226950512626003451675183nat, m);
    assert(pm(7, 453901025252006903350366nat, m) == 42010739425289811679507550421050284941419292043207046974483028021620878891316);
    lemma_pm_succ(7, 453901025252006903350366nat, m);
    assert(pm(7, 453901025252006903350367nat, m) == 31895800101397729359314150406422165401482281799811139708362902651653246316647);
    lemma_pm_double(7, 453901025252006903350367nat, m);
    assert(pm(7, 907802050504013806700734nat, m) == 3502644909794901448135319209380555786980535464884354166165084994935736684811);
    lemma_pm_succ(7, 907802050504013806700734nat, m);
    assert(pm(7, 907802050504013806700735nat, m) == 24518514368564310136947234465663890508863748254190479163155594964550156793677);
    lemma_pm_double(7, 907802050504013806700735nat, m);
    assert(pm(7, 1815604101008027613401470nat, m) == 11315108542738338291149569657497348477554354227935167814510916750798072835447);
    lemma_pm_succ(7, 1815604101008027613401470nat, m);
    assert(pm(7, 1815604101008027613401471nat, m) == 26769884624042177558599247094295473505189927095018536878972758555647928663616);
    lemma_pm_double(7, 1815604101008027613401471nat, m);
    assert(pm(7, 3631208202016055226802942nat, m) == 8103724441975548369770777014501967086815718872246375667333289562951340670181);
    lemma_pm_double(7, 3631208202016055226802942nat, m);
    assert(pm(7, 7262416404032110453605884nat, m) == 19166006470903952469133675454485345297482914221503965139322043382083299283272);
    lemma_pm_double(7, 7262416404032110453605884nat, m);
    assert(pm(7, 14524832808064220907211768nat, m) == 39171360461355075783721101274240767521098665069791256664222892587360083443031);
    lemma_pm_double(7, 14524832808064220907211768nat, m);
    assert(pm(7, 29049665616128441814423536nat, m) == 33625768886230151274148244842840563464654147096042231096318260538740782766118);
    lemma_pm_double(7, 29049665616128441814423536nat, m);
    assert(pm(7, 58099331232256883628847072nat, m) == 3735430555511678325144492861881864615731594051550831028016574420488901700808);
    lemma_pm_succ(7, 58099331232256883628847072nat, m);
    assert(pm(7, 58099331232256883628847073nat, m) == 26148013888581748276011450033173052310121158360855817196116020943422311905656);
    lemma_pm_double(7, 58099331232256883628847073nat, m);
    assert(pm(7, 116198662464513767257694146nat, m) == 35945668506601962767457744594872617437931390080608938939365961348189288263123);
    lemma_pm_succ(7, 116198662464513767257694146nat, m);
    assert(pm(7, 116198662464513767257694147nat, m) == 41876178845708977454413250131364458714757520562152021285147094637570693103809);
    lemma_pm_double(7, 116198662464513767257694147nat, m);
    assert(pm(7, 232397324929027534515388294nat, m) == 5418857296787193695297365178562984907941674487748397342907314449347102041203);
    lemma_pm_succ(7, 232397324929027534515388294nat, m);
    assert(pm(7, 232397324929027534515388295nat, m) == 37932001077510355867081556249940894355591721414238781400351201145429714288421);
    lemma_pm_double(7, 232397324929027534515388295nat, m);
    assert(pm(7, 464794649858055069030776590nat, m) == 39073721497250186664203866172089505904433276727950650217347525751703038026606);
    lemma_pm_double(7, 464794649858055069030776590nat, m);
    assert(pm(7, 929589299716110138061553180nat, m) == 3664051581145181857484331779790113918603234506827754758747838001740044653701);
    lemma_pm_succ(7, 929589299716110138061553180nat, m);
    assert(pm(7, 929589299716110138061553181nat, m) == 25648361068016273002390322458530797430222641547794283311234866012180312575907);
    lemma_pm_double(7, 929589299716110138061553181nat, m);
    assert(pm(7, 1859178599432220276123106362nat, m) == 5972443642291324126700438246435531784422794648652220951721272529526404592265);
    lemma_pm_double(7, 1859178599432220276123106362nat, m);
    assert(pm(7, 3718357198864440552246212724nat, m) == 38882535703199598623536095405113560962633815985154447011976809878287937978656);
    lemma_pm_double(7, 3718357198864440552246212724nat, m);
    assert(pm(7, 7436714397728881104492425448nat, m) == 2971699607018454182752440582727798163837450129601928813510614124246772059281);
    lemma_pm_succ(7, 7436714397728881104492425448nat, m);
    assert(pm(7, 7436714397728881104492425449nat, m) == 20801897249129179279267084079094587146862150907213501694574298869727404414967);
    lemma_pm_double(7, 7436714397728881104492425449nat, m);
    assert(pm(7, 14873428795457762208984850898nat, m) == 34358362388349367833383358857788505789146832840493486300815663516305936392333);
    lemma_pm_succ(7, 14873428795457762208984850898nat, m);
    assert(pm(7, 14873428795457762208984850899nat, m) == 30765036017940812915892549971775677173265619881343852815295009814387230008279);
    lemma_pm_double(7, 14873428795457762208984850899nat, m);
    assert(pm(7, 29746857590915524417969701798nat, m) == 43933306443799126985497447808043069810943205778944482664045437619214305486115);
    lemma_pm_succ(7, 29746857590915524417969701798nat, m);
    assert(pm(7, 29746857590915524417969701799nat, m) == 45353769230962936501243432115371659488149677949973189535299769834807232480240);
    lemma_pm_double(7, 29746857590915524417969701799nat, m);
    assert(pm(7, 59493715181831048835939403598nat, m) == 22500978901647587067170140703196597904800857072701889465365906430834870813924);
    lemma_pm_double(7, 59493715181831048835939403598nat, m);
    assert(pm(7, 118987430363662097671878807196nat, m) == 48913902212754162172510338313931002741120591441850600483309960659242047086101);
    lemma_pm_double(7, 118987430363662097671878807196nat, m);
    assert(pm(7, 237974860727324195343757614392nat, m) == 9927428167963796602922920828051745936324193286727651464744528532520849075810);
    lemma_pm_succ(7, 237974860727324195343757614392nat, m);
    assert(pm(7, 237974860727324195343757614393nat, m) == 17056122000620385741012705288176255716578800506565922430608041027707362346157);
    lemma_pm_double(7, 237974860727324195343757614393nat, m);
    assert(pm(7, 475949721454648390687515228786nat, m) == 50520140913776241073149606213008145261052542682006831945486831243766833196584);
    lemma_pm_succ(7, 475949721454648390687515228786nat, m);
    assert(pm(7, 475949721454648390687515228787nat, m) == 39025735345676544635360800441941221801224483770881996682785866506736345269010);
    lemma_pm_double(7, 475949721454648390687515228787nat, m);
    assert(pm(7, 951899442909296781375030457574nat, m) == 38387915787010064363405449193620296105709785910779793536163944896830359954867);
    lemma_pm_succ(7, 951899442909296781375030457574nat, m);
    assert(pm(7, 951899442909296781375030457575nat, m) == 6536034633439498146599441814412243551515738872820365640129320778119613761504);
    lemma_pm_double(7, 951899442909296781375030457575nat, m);
    assert(pm(7, 1903798885818593562750060915150nat, m) == 22394452623887147360922279413418436089449268233991380959182574862913792309601);
    lemma_pm_double(7, 1903798885818593562750060915150nat, m);
    assert(pm(7, 3807597771637187125500121830300nat, m) == 35948427261210575996247453252179179947118943128717510344383406170011668804736);
    lemma_pm_succ(7, 3807597771637187125500121830300nat, m);
    assert(pm(7, 3807597771637187125500121830301nat, m) == 41895490127969270055941210732510396279070391898912021120269208390327356895100);
    lemma_pm_double(7, 3807597771637187125500121830301nat, m);
    assert(pm(7, 7615195543274374251000243660602nat, m) == 14056499674577430704242528417614504089742692154858596694950319722656987718560);
    lemma_pm_succ(7, 7615195543274374251000243660602nat, m);
    assert(pm(7, 7615195543274374251000243660603nat, m) == 45959622546915824450249958415115562790508292583482539042048579358660332845407);
    lemma_pm_double(7, 7615195543274374251000243660603nat, m);
    assert(pm(7, 15230391086548748502000487321206nat, m) == 32651959226253141630048473283837621982987692110784135412805813749358043437308);
    lemma_pm_succ(7, 15230391086548748502000487321206nat, m);
    assert(pm(7, 15230391086548748502000487321207nat, m) == 18820213883267229492548350954119490530151634773378396599226061445751979323104);
    lemma_pm_double(7, 15230391086548748502000487321207nat, m);
    assert(pm(7, 30460782173097497004000974642414nat, m) == 41492705572612433983106911520049819426495934242404758239123839257279614414871);
    lemma_pm_succ(7, 30460782173097497004000974642414nat, m);
    assert(pm(7, 30460782173097497004000974642415nat, m) == 28269563132656085484509678099418906797018777194195118560848581301264394981532);
    lemma_pm_double(7, 30460782173097497004000974642415nat, m);
    assert(pm(7, 60921564346194994008001949284830nat, m) == 46237365377229790666824320379505436338563489769759235205781173135338726340756);
    lemma_pm_succ(7, 60921564346194994008001949284830nat, m);
    assert(pm(7, 60921564346194994008001949284831nat, m) == 9046306589851391791083799607422259343801113385148819504846259747739597278214);
    lemma_pm_double(7, 60921564346194994008001949284831nat, m);
    assert(pm(7, 121843128692389988016003898569662nat, m) == 16840625835041069004515819087626220892709661510230206101517111989400129305623);
    lemma_pm_succ(7, 121843128692389988016003898569662nat, m);
    assert(pm(7, 121843128692389988016003898569663nat, m) == 13012630495035102072715252597011614573586525570556167065412466525923742770335);
    lemma_pm_double(7, 121843128692389988016003898569663nat, m);
    assert(pm(7, 243686257384779976032007797139326nat, m) == 44420162997775038162116463023774922552233720699695341872963181333352320708907);
    lemma_pm_succ(7, 243686257384779976032007797139326nat, m);
    assert(pm(7, 243686257384779976032007797139327nat, m) == 48761765108794314737576538625494628677183282395229203997723975833773339039784);
    lemma_pm_double(7, 243686257384779976032007797139327nat, m);
    assert(pm(7, 487372514769559952064015594278654nat, m) == 37540905709256170698249509110546862621993122177229062015842667657884175881284);
    lemma_pm_double(7, 487372514769559952064015594278654nat, m);
    assert(pm(7, 974745029539119904128031188557308nat, m) == 3149326568419762462882696501627965679093751020877203002835501254039164696494);
    lemma_pm_succ(7, 974745029539119904128031188557308nat, m);
    assert(pm(7, 974745029539119904128031188557309nat, m) == 22045285978938337240178875511395759753656257146140421019848508778274152875458);
    lemma_pm_double(7, 974745029539119904128031188557309nat, m);
    assert(pm(7, 1949490059078239808256062377114618nat, m) == 25582060493985158398953674437197597520737801503293345115223314438626850878258);
    lemma_pm_succ(7, 1949490059078239808256062377114618nat, m);
    assert(pm(7, 1949490059078239808256062377114619nat, m) == 21766797932517537354332499535825285132092953021470502338752224970572212594267);
    lemma_pm_double(7, 1949490059078239808256062377114619nat, m);
    assert(pm(7, 3898980118156479616512124754229238nat, m) == 28494353045178665707609012225561241323201360908794686053901211989978305446430);
    lemma_pm_double(7, 3898980118156479616512124754229238nat, m);
    assert(pm(7, 7797960236312959233024249508458476nat, m) == 45233332258371565434148160304745360374335816920611904581170190911405208477325);
    lemma_pm_double(7, 7797960236312959233024249508458476nat, m);
    assert(pm(7, 15595920472625918466048499016916952nat, m) == 27179902398989246691517087191505517838770598505230867134090720908326733505971);
    lemma_pm_double(7, 15595920472625918466048499016916952nat, m);
    assert(pm(7, 31191840945251836932096998033833904nat, m) == 50211619693915841430863856145267238976009764998561359493757419354199394474180);
    lemma_pm_double(7, 31191840945251836932096998033833904nat, m);
    assert(pm(7, 62383681890503673864193996067667808nat, m) == 29818914226800334555035705867685620508660700427085505823598177187617299755808);
    lemma_pm_succ(7, 62383681890503673864193996067667808nat, m);
    assert(pm(7, 62383681890503673864193996067667809nat, m) == 51424774062223770446906719549241446047553245488015627297376264213505354737117);
    lemma_pm_double(7, 62383681890503673864193996067667809nat, m);
    assert(pm(7, 124767363781007347728387992135335618nat, m) == 52083064254241143193802284298528322214028509350154179726011606993459994808216);
    lemma_pm_succ(7, 124767363781007347728387992135335618nat, m);
    assert(pm(7, 124767363781007347728387992135335619nat, m) == 49966198728930859479929547040582460472056250447913431146459296754588476550434);
    lemma_pm_double(7, 124767363781007347728387992135335619nat, m);
    assert(pm(7, 249534727562014695456775984270671238nat, m) == 17486948783144301576916739318302729643073471368715764646583825784785533641113);
    lemma_pm_succ(7, 249534727562014695456775984270671238nat, m);
    assert(pm(7, 249534727562014695456775984270671239nat, m) == 17536891131757730079521694211747175826133194579955076880879463093621573118765);
    lemma_pm_double(7, 249534727562014695456775984270671239nat, m);
    assert(pm(7, 499069455124029390913551968541342478nat, m) == 25712177674528481825282815734867126148927551668050893591949755920164414065093);
    lemma_pm_double(7, 499069455124029390913551968541342478nat, m);
    assert(pm(7, 998138910248058781827103937082684956nat, m) == 39155929826450711631563201432771059225155341560680514962271569511401291375972);
    lemma_pm_double(7, 998138910248058781827103937082684956nat, m);
    assert(pm(7, 1996277820496117563654207874165369912nat, m) == 16589550528065925487630252422456812654126704362062825612667486143677739877562);
    lemma_pm_succ(7, 1996277820496117563654207874165369912nat, m);
    assert(pm(7, 1996277820496117563654207874165369913nat, m) == 11255103346209097454516285940825756903505825533384503643465085605867016773908);
    lemma_pm_double(7, 1996277820496117563654207874165369913nat, m);
    assert(pm(7, 3992555640992235127308415748330739826nat, m) == 46307179606029923301418835902496336872336317660741945418916829401813842751669);
    lemma_pm_double(7, 3992555640992235127308415748330739826nat, m);
    assert(pm(7, 7985111281984470254616831496661479652nat, m) == 41731627368363396027789007839702058201853384650810931799373400699575583926427);
    lemma_pm_double(7, 7985111281984470254616831496661479652nat, m);
    assert(pm(7, 15970222563968940509233662993322959304nat, m) == 37624666802417241925695746504294138958659026549929927287414826359578122755537);
    lemma_pm_double(7, 15970222563968940509233662993322959304nat, m);
    assert(pm(7, 31940445127937881018467325986645918608nat, m) == 26178269742829175921585906499463590462761184595362435151693101075752596001084);
    lemma_pm_succ(7, 31940445127937881018467325986645918608nat, m);
    assert(pm(7, 31940445127937881018467325986645918609nat, m) == 25940262674425660012758123971687235726256634665954132594040731430452428454049);
    lemma_pm_double(7, 31940445127937881018467325986645918609nat, m);
    assert(pm(7, 63880890255875762036934651973291837218nat, m) == 8050762655425730690566801897728604356739742522526961074304147502305947319400);
    lemma_pm_succ(7, 63880890255875762036934651973291837218nat, m);
    assert(pm(7, 63880890255875762036934651973291837219nat, m) == 3919463412853924354519872775914264659487645157161089697525373816203050051287);
    lemma_pm_double(7, 63880890255875762036934651973291837219nat, m);
    assert(pm(7, 127761780511751524073869303946583674438nat, m) == 7175450895499963916803605533113187475011531573952612182406830154654198201558);
    lemma_pm_succ(7, 127761780511751524073869303946583674438nat, m);
    assert(pm(7, 127761780511751524073869303946583674439nat, m) == 50228156268499747417625238731792312325080721017668285276847811082579387410906);
    lemma_pm_double(7, 127761780511751524073869303946583674439nat, m);
    assert(pm(7, 255523561023503048147738607893167348878nat, m) == 25819813700242112134390987664294073119867797244540361061078317412475319526749);
    lemma_pm_double(7, 255523561023503048147738607893167348878nat, m);
    assert(pm(7, 511047122047006096295477215786334697756nat, m) == 38432761768598697511000490300787103985452838898495553563299799192540640604157);
    lemma_pm_double(7, 511047122047006096295477215786334697756nat, m);
    assert(pm(7, 1022094244094012192590954431572669395512nat, m) == 5303801202035252770522613053933996784542048799917787744570177569464894873293);
    lemma_pm_succ(7, 1022094244094012192590954431572669395512nat, m);
    assert(pm(7, 1022094244094012192590954431572669395513nat, m) == 37126608414246769393658291377537977491794341599424514211991242986254264113051);
    lemma_pm_double(7, 1022094244094012192590954431572669395513nat, m);
    assert(pm(7, 2044188488188024385181908863145338791026nat, m) == 6530411943375301261531397227002462714953970779848614418136238471686162882369);
    lemma_pm_double(7, 2044188488188024385181908863145338791026nat, m);
    assert(pm(7, 4088376976376048770363817726290677582052nat, m) == 42720778565004624703227887592212650911192356565016347884150857493866625347721);
    lemma_pm_succ(7, 4088376976376048770363817726290677582052nat, m);
    assert(pm(7, 4088376976376048770363817726290677582053nat, m) == 36866074079401420525356510604558727189893733452476246076037708957373471511482);
    lemma_pm_double(7, 4088376976376048770363817726290677582053nat, m);
    assert(pm(7, 8176753952752097540727635452581355164106nat, m) == 29183087850714137299051471819945847304871911751463238232909211012780075233406);
    lemma_pm_double(7, 8176753952752097540727635452581355164106nat, m);
    assert(pm(7, 16353507905504195081455270905162710328212nat, m) == 20456932578674834266556666635868514837518726673639506886720321932638933860525);
    lemma_pm_succ(7, 16353507905504195081455270905162710328212nat, m);
    assert(pm(7, 16353507905504195081455270905162710328213nat, m) == 38326777700471458907001185434707672187249981714421272561834936128595374654649);
    lemma_pm_double(7, 16353507905504195081455270905162710328213nat, m);
    assert(pm(7, 32707015811008390162910541810325420656426nat, m) == 4157303815215786721848875361734560157121229307792968710612421501807632806445);
    lemma_pm_double(7, 32707015811008390162910541810325420656426nat, m);
    assert(pm(7, 65414031622016780325821083620650841312852nat, m) == 30457257517315172165431670471425921969217222251280434275613833440948016561859);
    lemma_pm_succ(7, 65414031622016780325821083620650841312852nat, m);
    assert(pm(7, 65414031622016780325821083620650841312853nat, m) == 3457301920701443240230731267237590433758345756852488638882199286881791194961);
    lemma_pm_double(7, 65414031622016780325821083620650841312853nat, m);
    assert(pm(7, 130828063244033560651642167241301682625706nat, m) == 17968970323176583804916468212356863800365917854819300620124189745018736407488);
    lemma_pm_succ(7, 130828063244033560651642167241301682625706nat, m);
    assert(pm(7, 130828063244033560651642167241301682625707nat, m) == 20911041911983705675519796470126114927180319982679828695662010815253992483390);
    lemma_pm_double(7, 130828063244033560651642167241301682625707nat, m);
    assert(pm(7, 261656126488067121303284334482603365251414nat, m) == 20181746247698045240069363381921991839795726842006697338229193025132496954831);
    lemma_pm_double(7, 261656126488067121303284334482603365251414nat, m);
    assert(pm(7, 523312252976134242606568668965206730502828nat, m) == 5583940347698423920558900798857262354056860627026959691145014574136919291405);
    lemma_pm_double(7, 523312252976134242606568668965206730502828nat, m);
    assert(pm(7, 1046624505952268485213137337930413461005656nat, m) == 28818459284514089004734301056382980703692589598287762392076859725153637151087);
    lemma_pm_succ(7, 1046624505952268485213137337930413461005656nat, m);
    assert(pm(7, 1046624505952268485213137337930413461005657nat, m) == 44421589466220051594796885870122967412776469686431423276727041976259716504070);
    lemma_pm_double(7, 1046624505952268485213137337930413461005657nat, m);
    assert(pm(7, 2093249011904536970426274675860826922011314nat, m) == 48813183448299703133809173928101435190406864121996901548595989428614228811663);
    lemma_pm_double(7, 2093249011904536970426274675860826922011314nat, m);
    assert(pm(7, 4186498023809073940852549351721653844022628nat, m) == 20133831570617659510126587559975194843762897668315912405493104040324640576729);
    lemma_pm_succ(7, 4186498023809073940852549351721653844022628nat, m);
    assert(pm(7, 4186498023809073940852549351721653844022629nat, m) == 36065070644071235611990631903454432230959178677156111193244410882395321668077);
    lemma_pm_double(7, 4186498023809073940852549351721653844022629nat, m);
    assert(pm(7, 8372996047618147881705098703443307688045258nat, m) == 11158972926284666394387629512922694719569246328578341870353091103738868135128);
    lemma_pm_double(7, 8372996047618147881705098703443307688045258nat, m);
    assert(pm(7, 16745992095236295763410197406886615376090516nat, m) == 19638688350951786135597655644905889208434326141390667693645141759530658342694);
    lemma_pm_succ(7, 16745992095236295763410197406886615376090516nat, m);
    assert(pm(7, 16745992095236295763410197406886615376090517nat, m) == 32599068106410121990288108497969292783659177988679398210308674916837446029832);
    lemma_pm_double(7, 16745992095236295763410197406886615376090517nat, m);
    assert(pm(7, 33491984190472591526820394813773230752181034nat, m) == 16846013172555549360489721216355212853220268274951932140004557645595521337661);
    lemma_pm_succ(7, 33491984190472591526820394813773230752181034nat, m);
    assert(pm(7, 33491984190472591526820394813773230752181035nat, m) == 13050341857636464564532567498114558297160772923608249334824586119291486994601);
    lemma_pm_double(7, 33491984190472591526820394813773230752181035nat, m);
    assert(pm(7, 66983968380945183053640789627546461504362070nat, m) == 11294612635524819829376850982818651989309474303635796473817064768553135102245);
    lemma_pm_double(7, 66983968380945183053640789627546461504362070nat, m);
    assert(pm(7, 133967936761890366107281579255092923008724140nat, m) == 50645502437258721667604789619951552461384541286130108552529303952056948563307);
    lemma_pm_double(7, 133967936761890366107281579255092923008724140nat, m);
    assert(pm(7, 267935873523780732214563158510185846017448280nat, m) == 29813743336184898970570189183552658421766549122601948318797438649149503392021);
    lemma_pm_succ(7, 267935873523780732214563158510185846017448280nat, m);
    assert(pm(7, 267935873523780732214563158510185846017448281nat, m) == 51388577827915721355648102760310711439294186356630724763771094444230780190608);
    lemma_pm_double(7, 267935873523780732214563158510185846017448281nat, m);
    assert(pm(7, 535871747047561464429126317020371692034896562nat, m) == 17647798420881826120761203118442494086385658427871169273367113369669598655182);
    lemma_pm_succ(7, 535871747047561464429126317020371692034896562nat, m);
    assert(pm(7, 535871747047561464429126317020371692034896563nat, m) == 18662838595920401886432940812725526929318503994042909268362476187810028217248);
    lemma_pm_double(7, 535871747047561464429126317020371692034896563nat, m);
    assert(pm(7, 1071743494095122928858252634040743384069793126nat, m) == 3417816237085365978941075261213508060164190438267634732930056414821123984551);
    lemma_pm_double(7, 1071743494095122928858252634040743384069793126nat, m);
    assert(pm(7, 2143486988190245857716505268081486768139586252nat, m) == 34474968394223182374950504299589478994567143448514070814575974849916317400219);
    lemma_pm_succ(7, 2143486988190245857716505268081486768139586252nat, m);
    assert(pm(7, 2143486988190245857716505268081486768139586253nat, m) == 31581278059057514706862568064382489611207794137487944411617189149659897063481);
    lemma_pm_double(7, 2143486988190245857716505268081486768139586253nat, m);
    assert(pm(7, 4286973976380491715433010536162973536279172506nat, m) == 4968488917442988605541277267512628248911334490799567571943850351493701923901);
    lemma_pm_succ(7, 4286973976380491715433010536162973536279172506nat, m);
    assert(pm(7, 4286973976380491715433010536162973536279172507nat, m) == 34779422422100920238788940872588397742379341435596973003606952460455913467307);
    lemma_pm_double(7, 4286973976380491715433010536162973536279172507nat, m);
    assert(pm(7, 8573947952760983430866021072325947072558345014nat, m) == 50714686645301181463161769345383069715879735724723947206672052731156234173501);
    lemma_pm_double(7, 8573947952760983430866021072325947072558345014nat, m);
    assert(pm(7, 17147895905521966861732042144651894145116690028nat, m) == 29087989863391579012250486137808622153778662477522817982657721816265579547284);
    lemma_pm_succ(7, 17147895905521966861732042144651894145116690028nat, m);
    assert(pm(7, 17147895905521966861732042144651894145116690029nat, m) == 46308303518362481647410181440102457563378979841076812410793076614043313277449);
    lemma_pm_double(7, 17147895905521966861732042144651894145116690029nat, m);
    assert(pm(7, 34295791811043933723464084289303788290233380058nat, m) == 1068193214159792055335762915793468637426481303738905292914988359776058216172);
    lemma_pm_double(7, 34295791811043933723464084289303788290233380058nat, m);
    assert(pm(7, 68591583622087867446928168578607576580466760116nat, m) == 6372929944622564977969695124996998220206666717334109608694767541043194326029);
    lemma_pm_double(7, 68591583622087867446928168578607576580466760116nat, m);
    assert(pm(7, 137183167244175734893856337157215153160933520232nat, m) == 9223894309000318482090722319176203133711257817705225649133893436325311678072);
    lemma_pm_succ(7, 137183167244175734893856337157215153160933520232nat, m);
    assert(pm(7, 137183167244175734893856337157215153160933520233nat, m) == 12131384987876038895187315726047456098288252223408941721333595354338600561991);
    lemma_pm_double(7, 137183167244175734893856337157215153160933520233nat, m);
    assert(pm(7, 274366334488351469787712674314430306321867040466nat, m) == 9543964960375173626049461129564681916932767155033323884407884047550216185626);
    lemma_pm_succ(7, 274366334488351469787712674314430306321867040466nat, m);
    assert(pm(7, 274366334488351469787712674314430306321867040467nat, m) == 14371879547500024902898487398766807580838817584705629368251529632912932114869);
    lemma_pm_double(7, 274366334488351469787712674314430306321867040467nat, m);
    assert(pm(7, 548732668976702939575425348628860612643734080934nat, m) == 27853384766941242304088604120920195683229741698019538864621837870092338114258);
    lemma_pm_succ(7, 548732668976702939575425348628860612643734080934nat, m);
    assert(pm(7, 548732668976702939575425348628860612643734080935nat, m) == 37666067843210124690277007321883472269536534384553858584541888990830623246267);
    lemma_pm_double(7, 548732668976702939575425348628860612643734080935nat, m);
    assert(pm(7, 1097465337953405879150850697257721225287468161870nat, m) == 44217292554174260224762224442961362321987740360147893745629928212004594603101);
    lemma_pm_double(7, 1097465337953405879150850697257721225287468161870nat, m);
    assert(pm(7, 2194930675906811758301701394515442450574936323740nat, m) == 51693420830891838149662099515512626005362009785374581027304785742925490214189);
    lemma_pm_succ(7, 2194930675906811758301701394515442450574936323740nat, m);
    assert(pm(7, 2194930675906811758301701394515442450574936323741nat, m) == 47238694765485724170948253559472587011390753494456240255511548000846944392245);
    lemma_pm_double(7, 2194930675906811758301701394515442450574936323741nat, m);
    assert(pm(7, 4389861351813623516603402789030884901149872647482nat, m) == 1055352403526009001891082354096243830168358186809817076567821773035291303251);
    lemma_pm_double(7, 4389861351813623516603402789030884901149872647482nat, m);
    assert(pm(7, 8779722703627247033206805578061769802299745294964nat, m) == 40148521506107839129439009125906708031097150048068912858797085770796473612479);
    lemma_pm_double(7, 8779722703627247033206805578061769802299745294964nat, m);
    assert(pm(7, 17559445407254494066413611156123539604599490589928nat, m) == 24547132337964710877491088080468108168309767015739403259634195050504333275262);
    lemma_pm_double(7, 17559445407254494066413611156123539604599490589928nat, m);
    assert(pm(7, 35118890814508988132827222312247079209198981179856nat, m) == 50844750935811383187182285274806651194645869137553137719292528362508041791679);
    lemma_pm_double(7, 35118890814508988132827222312247079209198981179856nat, m);
    assert(pm(7, 70237781629017976265654444624494158418397962359712nat, m) == 48617016900439620845863813572901605840461652711131430908972018611064512982642);
    lemma_pm_succ(7, 70237781629017976265654444624494158418397962359712nat, m);
    assert(pm(7, 70237781629017976265654444624494158418397962359713nat, m) == 25703867252320203044360251961195445857088253974754189427182178077820103771416);
    lemma_pm_double(7, 70237781629017976265654444624494158418397962359713nat, m);
    assert(pm(7, 140475563258035952531308889248988316836795924719426nat, m) == 51336723990800814946085757096015760926643924141584267077876629369955017472126);
    lemma_pm_double(7, 140475563258035952531308889248988316836795924719426nat, m);
    assert(pm(7, 280951126516071905062617778497976633673591849438852nat, m) == 31592385505818425840247721035425382736293406478043374085236707413577402297026);
    lemma_pm_succ(7, 280951126516071905062617778497976633673591849438852nat, m);
    assert(pm(7, 280951126516071905062617778497976633673591849438853nat, m) == 11403197840224218963943085215233815803291635344193067306242317095287491341130);
    lemma_pm_double(7, 280951126516071905062617778497976633673591849438853nat, m);
    assert(pm(7, 561902253032143810125235556995953267347183698877706nat, m) == 1295106098621668748416334905947100742642523493538524096541870266589545524455);
    lemma_pm_double(7, 561902253032143810125235556995953267347183698877706nat, m);
    assert(pm(7, 1123804506064287620250471113991906534694367397755412nat, m) == 50675991659531455796834873024486872384807787079817260879309638800575917946131);
    lemma_pm_double(7, 1123804506064287620250471113991906534694367397755412nat, m);
    assert(pm(7, 2247609012128575240500942227983813069388734795510824nat, m) == 37656996537328687225900763400961010023916561490494891835296854450776515347922);
    lemma_pm_double(7, 2247609012128575240500942227983813069388734795510824nat, m);
    assert(pm(7, 4495218024257150481001884455967626138777469591021648nat, m) == 10949860405936010627739658232099389026204678976399557215388226939900151877743);
    lemma_pm_succ(7, 4495218024257150481001884455967626138777469591021648nat, m);
    assert(pm(7, 4495218024257150481001884455967626138777469591021649nat, m) == 24213147666425883914729867116509757345742200334269262685113929879362481959688);
    lemma_pm_double(7, 4495218024257150481001884455967626138777469591021649nat, m);
    assert(pm(7, 8990436048514300962003768911935252277554939182043298nat, m) == 46174050005161610533455814811503475105259009746891940718529860664890071621749);
    lemma_pm_succ(7, 8990436048514300962003768911935252277554939182043298nat, m);
    assert(pm(7, 8990436048514300962003768911935252277554939182043299nat, m) == 8603098985374130857504260631408530710669753225077758094087072454599014245165);
    lemma_pm_double(7, 8990436048514300962003768911935252277554939182043299nat, m);
    assert(pm(7, 17980872097028601924007537823870504555109878364086598nat, m) == 4478970037042896499462881243449365447569516994881728844662029686495405950445);
    lemma_pm_double(7, 17980872097028601924007537823870504555109878364086598nat, m);
    assert(pm(7, 35961744194057203848015075647741009110219756728173196nat, m) == 24310901773241446366242116285012092340427182770776370105907972093438057927607);
    lemma_pm_double(7, 35961744194057203848015075647741009110219756728173196nat, m);
    assert(pm(7, 71923488388114407696030151295482018220439513456346392nat, m) == 29070189919235983481567549702645973920697006042968212899781436842689878150513);
    lemma_pm_succ(7, 71923488388114407696030151295482018220439513456346392nat, m);
    assert(pm(7, 71923488388114407696030151295482018220439513456346393nat, m) == 46183703909273312932629626393963919931807384799194576830659081799013403500052);
    lemma_pm_double(7, 71923488388114407696030151295482018220439513456346393nat, m);
    assert(pm(7, 143846976776228815392060302590964036440879026912692786nat, m) == 47514280324618693484566279447588251180175470112249668419689722228497057858349);
    lemma_pm_succ(7, 143846976776228815392060302590964036440879026912692786nat, m);
    assert(pm(7, 143846976776228815392060302590964036440879026912692787nat, m) == 17984711221573711515277513084001963235084975782581852002206103399847917901365);
    lemma_pm_double(7, 143846976776228815392060302590964036440879026912692787nat, m);
    assert(pm(7, 287693953552457630784120605181928072881758053825385574nat, m) == 18538156668314044538466639195657370912093090742743690070426526613413253065750);
    lemma_pm_succ(7, 287693953552457630784120605181928072881758053825385574nat, m);
    assert(pm(7, 287693953552457630784120605181928072881758053825385575nat, m) == 24895346327945930810370993353229664709270530198150554847778368894015609091224);
    lemma_pm_double(7, 287693953552457630784120605181928072881758053825385575nat, m);
    assert(pm(7, 575387907104915261568241210363856145763516107650771150nat, m) == 2304211328870778722187978576748710597406498978437714943666446118430650848980);
    lemma_pm_double(7, 575387907104915261568241210363856145763516107650771150nat, m);
    assert(pm(7, 1150775814209830523136482420727712291527032215301542300nat, m) == 19301422271757105083103722121792104335565879432296256558632478624888630776046);
    lemma_pm_succ(7, 1150775814209830523136482420727712291527032215301542300nat, m);
    assert(pm(7, 1150775814209830523136482420727712291527032215301542301nat, m) == 30238205552047354622830573836172798673580051025018520265220032974343253063296);
    lemma_pm_double(7, 1150775814209830523136482420727712291527032215301542301nat, m);
    assert(pm(7, 2301551628419661046272964841455424583054064430603084602nat, m) == 19691320657444254150755961795844497725699429206603870763644077254908996125555);
    lemma_pm_double(7, 2301551628419661046272964841455424583054064430603084602nat, m);
    assert(pm(7, 4603103256839322092545929682910849166108128861206169204nat, m) == 45699679794769002888170273009512873944165510619440472466375011528447303327704);
    lemma_pm_succ(7, 4603103256839322092545929682910849166108128861206169204nat, m);
    assert(pm(7, 4603103256839322092545929682910849166108128861206169205nat, m) == 5282507512625877340505468017474322583015259332917480329003128499499636186850);
    lemma_pm_double(7, 4603103256839322092545929682910849166108128861206169205nat, m);
    assert(pm(7, 9206206513678644185091859365821698332216257722412338410nat, m) == 33154021044396518319513945553627449865392257842273783156319556683935329365308);
    lemma_pm_double(7, 9206206513678644185091859365821698332216257722412338410nat, m);
    assert(pm(7, 18412413027357288370183718731643396664432515444824676820nat, m) == 36270466607299251076435537535599881733154879305704151322546669805544898397850);
    lemma_pm_succ(7, 18412413027357288370183718731643396664432515444824676820nat, m);
    assert(pm(7, 18412413027357288370183718731643396664432515444824676821nat, m) == 44149765550589995617257800716455308781321945137818507967412053839059964046898);
    lemma_pm_double(7, 18412413027357288370183718731643396664432515444824676821nat, m);
    assert(pm(7, 36824826054714576740367437463286793328865030889649353642nat, m) == 2445964838369661757583079210081262915020439565149529391960883190240204260713);
    lemma_pm_succ(7, 36824826054714576740367437463286793328865030889649353642nat, m);
    assert(pm(7, 36824826054714576740367437463286793328865030889649353643nat, m) == 17121753868587632303081554470568840405143076956046705743726182331681429824991);
    lemma_pm_double(7, 36824826054714576740367437463286793328865030889649353643nat, m);
    assert(pm(7, 73649652109429153480734874926573586657730061779298707286nat, m) == 41891173099871038508058570271376482141283245032212879382097773126145844541186);
    lemma_pm_double(7, 73649652109429153480734874926573586657730061779298707286nat, m);
    assert(pm(7, 147299304218858306961469749853147173315460123558597414572nat, m) == 31493328970853453780157220678806931709262428941189472974457625838239577724122);
    lemma_pm_double(7, 147299304218858306961469749853147173315460123558597414572nat, m);
    assert(pm(7, 294598608437716613922939499706294346630920247117194829144nat, m) == 8552479042380994168920480987697885676535685712106569333406089758597219985735);
    lemma_pm_succ(7, 294598608437716613922939499706294346630920247117194829144nat, m);
    assert(pm(7, 294598608437716613922939499706294346630920247117194829145nat, m) == 7431478121540768702995626405699233898059247484218347511238969610241958715632);
    lemma_pm_double(7, 294598608437716613922939499706294346630920247117194829145nat, m);
    assert(pm(7, 589197216875433227845878999412588693261840494234389658290nat, m) == 52241979298589854513275084693303503133206979684443614021531528321637656799442);
    lemma_pm_succ(7, 589197216875433227845878999412588693261840494234389658290nat, m);
    assert(pm(7, 589197216875433227845878999412588693261840494234389658291nat, m) == 51078604039371838716239149804008726906305542787939471215098746051832110489016);
    lemma_pm_double(7, 589197216875433227845878999412588693261840494234389658291nat, m);
    assert(pm(7, 1178394433750866455691757998825177386523680988468779316582nat, m) == 24353118002288580991196220889571778552455147915252869924001235469428471128544);
    lemma_pm_succ(7, 1178394433750866455691757998825177386523680988468779316582nat, m);
    assert(pm(7, 1178394433750866455691757998825177386523680988468779316583nat, m) == 13164200490641495500030324702444552354114377905187176000197672186183554346269);
    lemma_pm_double(7, 1178394433750866455691757998825177386523680988468779316583nat, m);
    assert(pm(7, 2356788867501732911383515997650354773047361976937558633166nat, m) == 22487906791520555084710629004221345158262113497479052001849325899401189375340);
    lemma_pm_succ(7, 2356788867501732911383515997650354773047361976937558633166nat, m);
    assert(pm(7, 2356788867501732911383515997650354773047361976937558633167nat, m) == 107722015265314154631181504991518594763136980770450545134305195992582073841);
    lemma_pm_double(7, 2356788867501732911383515997650354773047361976937558633167nat, m);
    assert(pm(7, 4713577735003465822767031995300709546094723953875117266334nat, m) == 9469081341342843230657792693589906032785780198308283999349678913567327579736);
    lemma_pm_double(7, 4713577735003465822767031995300709546094723953875117266334nat, m);
    assert(pm(7, 9427155470006931645534063990601419092189447907750234532668nat, m) == 48851973592617960474068652254547785959524694599707222689959555005814422010617);
    lemma_pm_double(7, 9427155470006931645534063990601419092189447907750234532668nat, m);
    assert(pm(7, 18854310940013863291068127981202838184378895815500469065336nat, m) == 13777537252147527651577343738576952253908412880934073270476570328952772815792);
    lemma_pm_succ(7, 18854310940013863291068127981202838184378895815500469065336nat, m);
    assert(pm(7, 18854310940013863291068127981202838184378895815500469065337nat, m) == 44006885589906503081593665661852699939668337666010875070732333602730828526031);
    lemma_pm_double(7, 18854310940013863291068127981202838184378895815500469065337nat, m);
    assert(pm(7, 37708621880027726582136255962405676368757791631000938130674nat, m) == 46634071299392874227822742205311554461216668593911475658370693463140433623260);
    lemma_pm_double(7, 37708621880027726582136255962405676368757791631000938130674nat, m);
    assert(pm(7, 75417243760055453164272511924811352737515583262001876261348nat, m) == 38810157891513674829236537887824780748371305175585972364088294787562986605003);
    lemma_pm_succ(7, 75417243760055453164272511924811352737515583262001876261348nat, m);
    assert(pm(7, 75417243760055453164272511924811352737515583262001876261349nat, m) == 9491729364964771407417062673843636050146373726463617435599770013248000312456);
    lemma_pm_double(7, 75417243760055453164272511924811352737515583262001876261349nat, m);
    assert(pm(7, 150834487520110906328545023849622705475031166524003752522698nat, m) == 7489232406839447289540881120509144014577931949876189406628451543135477417029);
    lemma_pm_double(7, 150834487520110906328545023849622705475031166524003752522698nat, m);
    assert(pm(7, 301668975040221812657090047699245410950062333048007505045396nat, m) == 112023823324598927910816084394719582908559896482442874915200330623877487090);
    lemma_pm_double(7, 301668975040221812657090047699245410950062333048007505045396nat, m);
    assert(pm(7, 603337950080443625314180095398490821900124666096015010090792nat, m) == 13258278221392341774142764566584937311577699885356828435824588553595222435038);
    lemma_pm_succ(7, 603337950080443625314180095398490821900124666096015010090792nat, m);
    assert(pm(7, 603337950080443625314180095398490821900124666096015010090793nat, m) == 40372072374620201939551611457908595343353346696970161228168461175227975860753);
    lemma_pm_double(7, 603337950080443625314180095398490821900124666096015010090793nat, m);
    assert(pm(7, 1206675900160887250628360190796981643800249332192030020181586nat, m) == 37540227669073280870948572983976996340612346559001831849647028824816094147060);
    lemma_pm_succ(7, 1206675900160887250628360190796981643800249332192030020181586nat, m);
    assert(pm(7, 1206675900160887250628360190796981643800249332192030020181587nat, m) == 602217807882013699401308346909145195833663410374633834510908274019753106855);
    lemma_pm_double(7, 1206675900160887250628360190796981643800249332192030020181587nat, m);
    assert(pm(7, 2413351800321774501256720381593963287600498664384060040363174nat, m) == 25092480932360329841726753592912491699151430831576382747847825533296576583402);
    lemma_pm_double(7, 2413351800321774501256720381593963287600498664384060040363174nat, m);
    assert(pm(7, 4826703600643549002513440763187926575200997328768120080726348nat, m) == 9821095426002278891110018952401263508418004226130457376959122240300552181557);
    lemma_pm_succ(7, 4826703600643549002513440763187926575200997328768120080726348nat, m);
    assert(pm(7, 4826703600643549002513440763187926575200997328768120080726349nat, m) == 16311792806889761758322392158622878721235477082385563816110196982165284086386);
    lemma_pm_double(7, 4826703600643549002513440763187926575200997328768120080726349nat, m);
    assert(pm(7, 9653407201287098005026881526375853150401994657536240161452698nat, m) == 29210508439872308201453809396355625050956860601764379244375926469543149434410);
    lemma_pm_double(7, 9653407201287098005026881526375853150401994657536240161452698nat, m);
    assert(pm(7, 19306814402574196010053763052751706300803989315072480322905396nat, m) == 17880183845996722785960692112175339369130804655661552508376989186515913959337);
    lemma_pm_double(7, 19306814402574196010053763052751706300803989315072480322905396nat, m);
    assert(pm(7, 38613628805148392020107526105503412601607978630144960645810792nat, m) == 46975566736418585976376386530893470736351501820807244282423918340209327722600);
    lemma_pm_double(7, 38613628805148392020107526105503412601607978630144960645810792nat, m);
    assert(pm(7, 77227257610296784040215052211006825203215957260289921291621584nat, m) == 44398990822240114116538585776691285740010117182671716192800581764269980115968);
    lemma_pm_double(7, 77227257610296784040215052211006825203215957260289921291621584nat, m);
    assert(pm(7, 154454515220593568080430104422013650406431914520579842583243168nat, m) == 32491303901727448091225384305014486962069419674301600588712833511909882112480);
    lemma_pm_double(7, 154454515220593568080430104422013650406431914520579842583243168nat, m);
    assert(pm(7, 308909030441187136160860208844027300812863829041159685166486336nat, m) == 29344081093885848347125939246099567399792589410328016386827199819649380879074);
    lemma_pm_double(7, 308909030441187136160860208844027300812863829041159685166486336nat, m);
    assert(pm(7, 617818060882374272321720417688054601625727658082319370332972672nat, m) == 15741419934051616150179817388872967366549796823499716396174538297401117048059);
    lemma_pm_double(7, 617818060882374272321720417688054601625727658082319370332972672nat, m);
    assert(pm(7, 1235636121764748544643440835376109203251455316164638740665945344nat, m) == 41445701386063327279694476797645181378987083348430306955202578902173401592967);
    lemma_pm_double(7, 1235636121764748544643440835376109203251455316164638740665945344nat, m);
    assert(pm(7, 2471272243529497089286881670752218406502910632329277481331890688nat, m) == 17178523716973790774136095070005284322947339486676133041119757310389576800619);
    lemma_pm_double(7, 2471272243529497089286881670752218406502910632329277481331890688nat, m);
    assert(pm(7, 4942544487058994178573763341504436813005821264658554962663781376nat, m) == 10145822577563451168723391876713280398424492543431584295820584956944826455491);
    lemma_pm_double(7, 4942544487058994178573763341504436813005821264658554962663781376nat, m);
    assert(pm(7, 9885088974117988357147526683008873626011642529317109925327562752nat, m) == 15666539954267365227266471790020989873825633975213864113875141942182368393002);
    lemma_pm_double(7, 9885088974117988357147526683008873626011642529317109925327562752nat, m);
    assert(pm(7, 19770177948235976714295053366017747252023285058634219850655125504nat, m) == 41467918244324637880609113547780577146735982561633406899128527319125454351397);
    lemma_pm_double(7, 19770177948235976714295053366017747252023285058634219850655125504nat, m);
    assert(pm(7, 39540355896471953428590106732035494504046570117268439701310251008nat, m) == 29063373727099669270418236397033384096008604264319644283176373456018237103213);
    lemma_pm_double(7, 39540355896471953428590106732035494504046570117268439701310251008nat, m);
    assert(pm(7, 79080711792943906857180213464070989008093140234536879402620502016nat, m) == 24441299929976655636417671651926785463355672023459944658414808901419024944600);
    lemma_pm_double(7, 79080711792943906857180213464070989008093140234536879402620502016nat, m);
    assert(pm(7, 158161423585887813714360426928141978016186280469073758805241004032nat, m) == 5293979085447501990350439769203558348343732300105138945955131135299542156157);
    lemma_pm_double(7, 158161423585887813714360426928141978016186280469073758805241004032nat, m);
    assert(pm(7, 316322847171775627428720853856283956032372560938147517610482008064nat, m) == 37067021480714789385089060516170734229122221809335439137069577237258764292355);
    lemma_pm_double(7, 316322847171775627428720853856283956032372560938147517610482008064nat, m);
    assert(pm(7, 632645694343551254857441707712567912064745121876295035220964016128nat, m) == 52145449129984700107630358230142419154006872199855681029615134577337528527535);
    lemma_pm_double(7, 632645694343551254857441707712567912064745121876295035220964016128nat, m);
    assert(pm(7, 1265291388687102509714883415425135824129490243752590070441928032256nat, m) == 46639069606054783932473241060225664131347876928178810588027100325112713050391);
    lemma_pm_double(7, 1265291388687102509714883415425135824129490243752590070441928032256nat, m);
    assert(pm(7, 2530582777374205019429766830850271648258980487505180140883856064512nat, m) == 40026715254126828545957619939886474929548194247896533187405056267883418243566);
    lemma_pm_double(7, 2530582777374205019429766830850271648258980487505180140883856064512nat, m);
    assert(pm(7, 5061165554748410038859533661700543296517960975010360281767712129024nat, m) == 38312253328980024914283083800430910366475018366776375133801554141901327848666);
    lemma_pm_double(7, 5061165554748410038859533661700543296517960975010360281767712129024nat, m);
    assert(pm(7, 10122331109496820077719067323401086593035921950020720563535424258048nat, m) == 12478899782857929971000512161096888455329685143507940442423394732538817480604);
    lemma_pm_double(7, 10122331109496820077719067323401086593035921950020720563535424258048nat, m);
    assert(pm(7, 20244662218993640155438134646802173186071843900041441127070848516096nat, m) == 46455273693312958755614465400986765751928605453935286931930903616172322816911);
    lemma_pm_double(7, 20244662218993640155438134646802173186071843900041441127070848516096nat, m);
    assert(pm(7, 40489324437987280310876269293604346372143687800082882254141697032192nat, m) == 14148015780103733242613131048210370352011572840721638318275116531625360007906);
    lemma_pm_double(7, 40489324437987280310876269293604346372143687800082882254141697032192nat, m);
    assert(pm(7, 80978648875974560621752538587208692744287375600165764508283394064384nat, m) == 39595977455259518103566383612591282564354225882435721501939368401451474208747);
    lemma_pm_double(7, 80978648875974560621752538587208692744287375600165764508283394064384nat, m);
    assert(pm(7, 161957297751949121243505077174417385488574751200331529016566788128768nat, m) == 41466434650738579957454038802545261996020294884181329306888696189007645155491);
    lemma_pm_double(7, 161957297751949121243505077174417385488574751200331529016566788128768nat, m);
    assert(pm(7, 323914595503898242487010154348834770977149502400663058033133576257536nat, m) == 6657210857428249854134766223960078355467016386165657534987773855072881375441);
    lemma_pm_double(7, 323914595503898242487010154348834770977149502400663058033133576257536nat, m);
    assert(pm(7, 647829191007796484974020308697669541954299004801326116066267152515072nat, m) == 45010534725989893462652315584290686088431725384207676906758029131912600088163);
    lemma_pm_double(7, 647829191007796484974020308697669541954299004801326116066267152515072nat, m);
    assert(pm(7, 1295658382015592969948040617395339083908598009602652232132534305030144nat, m) == 2458857656015910060801264797007897914410099869994421892891615135524489912552);
    lemma_pm_double(7, 1295658382015592969948040617395339083908598009602652232132534305030144nat, m);
    assert(pm(7, 2591316764031185939896081234790678167817196019205304464265068610060288nat, m) == 51065108347615372374682819842980778507986805483891800834342663283526196440190);
    lemma_pm_double(7, 2591316764031185939896081234790678167817196019205304464265068610060288nat, m);
    assert(pm(7, 5182633528062371879792162469581356335634392038410608928530137220120576nat, m) == 24566239051828625475052426095879579006814228204695786668641429475913284739943);
    lemma_pm_double(7, 5182633528062371879792162469581356335634392038410608928530137220120576nat, m);
    assert(pm(7, 10365267056124743759584324939162712671268784076821217857060274440241152nat, m) == 12160731623700004223845878336176743927125407676474313907977814377109675046590);
    lemma_pm_double(7, 10365267056124743759584324939162712671268784076821217857060274440241152nat, m);
    assert(pm(7, 20730534112249487519168649878325425342537568153642435714120548880482304nat, m) == 49551106890066900544454285625746392760007334600837347914792012465621494065871);
}

/// `7^999961405302035279473110478895921551656570994587857873989262207090688 mod 52435875175126190479447740508185965837690552500527637822603658699938581184513`.
proof fn lemma_pow_52435875175126190479447740508185965837690552500527637822603658699938581184513_by_52437899()
    ensures
        pm(7, 999961405302035279473110478895921551656570994587857873989262207090688nat, fr_modulus() as int) == 28145752697189822412174329949576985284591506457805936680525074633201440824164,
{
    let m: int = fr_modulus() as int;
    lemma_pm_one(7, m);
    lemma_pm_double(7, 1nat, m);
    assert(pm(7, 2nat, m) == 49);
    lemma_pm_double(7, 2nat, m);
    assert(pm(7, 4nat, m) == 2401);
    lemma_pm_double(7, 4nat, m);
    assert(pm(7, 8nat, m) == 5764801);
    lemma_pm_succ(7, 8nat, m);
    assert(pm(7, 9nat, m) == 40353607);
    lemma_pm_double(7, 9nat, m);
    assert(pm(7, 18nat, m) == 1628413597910449);
    lemma_pm_double(7, 18nat, m);
    assert(pm(7, 36nat, m) == 2651730845859653471779023381601);
    lemma_pm_succ(7, 36nat, m);
    assert(pm(7, 37nat, m) == 18562115921017574302453163671207);
    lemma_pm_double(7, 37nat, m);
    assert(pm(7, 74nat, m) == 344552147465294110719732986332367243247925798357929806000836849);
    lemma_pm_double(7, 74nat, m);
    assert(pm(7, 148nat, m) == 11389256878112697449176539281268487147340344949760628920234703396584389385806);
    lemma_pm_double(7, 148nat, m);
    assert(pm(7, 296nat, m) == 38125394411190456660924319136189303120756087236895287915627579933642731715275);
    lemma_pm_double(7, 296nat, m);
    assert(pm(7, 592nat, m) == 3552518257224036289605691417642222927970374529479319671495817032967645010323);
    lemma_pm_succ(7, 592nat, m);
    assert(pm(7, 593nat, m) == 24867627800568254027239839923495560495792621706355237700470719230773515072261);
    lemma_pm_double(7, 593nat, m);
    assert(pm(7, 1186nat, m) == 23616196574669074948896418660476045082690889956024284081075096210604106088844);
    lemma_pm_double(7, 1186nat, m);
    assert(pm(7, 2372nat, m) == 45726530258573138424454024208222303837989096852747128111187836046458888023925);
    lemma_pm_succ(7, 2372nat, m);
    assert(pm(7, 2373nat, m) == 5470460759254826094491726408440331839780362966064069842692900125580729060397);
    lemma_pm_double(7, 2373nat, m);
    assert(pm(7, 4746nat, m) == 5893894535610596285835469875880477174213328678244367506538822058256241558692);
    lemma_pm_succ(7, 4746nat, m);
    assert(pm(7, 4747nat, m) == 41257261749274174000848289131163340219493300747710572545771754407793690910844);
    lemma_pm_double(7, 4747nat, m);
    assert(pm(7, 9494nat, m) == 35871071166892395223750201429809764143667910545544610347808058547622125725712);
    lemma_pm_succ(7, 9494nat, m);
    assert(pm(7, 9495nat, m) == 41353997467742004648460447975924485654913163816701721144241775033600555341932);
    lemma_pm_double(7, 9495nat, m);
    assert(pm(7, 18990nat, m) == 43298853123416108859309889466664173713399143130478380614581468348650118151009);
    lemma_pm_double(7, 18990nat, m);
    assert(pm(7, 37980nat, m) == 51535409753239255506485080953389527840661767864336432208837517571062442181015);
    lemma_pm_double(7, 37980nat, m);
    assert(pm(7, 75960nat, m) == 22354157668510400000982248971943746830358260606652714252254913618231750331222);
    lemma_pm_succ(7, 75960nat, m);
    assert(pm(7, 75961nat, m) == 51607353329320419047980261787234296137126719245513724120577077927745089949528);
    lemma_pm_double(7, 75961nat, m);
    assert(pm(7, 151922nat, m) == 18571652303880185826776434890504119549679023825369452033448285333574505990559);
    lemma_pm_succ(7, 151922nat, m);
    assert(pm(7, 151923nat, m) == 25129815776908919828539563217156905172372061776530888588930679935144379564887);
    lemma_pm_double(7, 151923nat, m);
    assert(pm(7, 303846nat, m) == 32142303170071971169529720587822415692645980531986208257438125422340954179212);
    lemma_pm_double(7, 303846nat, m);
    assert(pm(7, 607692nat, m) == 13696339124331741502775713960227006060193700900639365755002466426854499379406);
    lemma_pm_double(7, 607692nat, m);
    assert(pm(7, 1215384nat, m) == 19665413115411296130723006946119754051405879005524310745991045406215669840762);
    lemma_pm_succ(7, 1215384nat, m);
    assert(pm(7, 1215385nat, m) == 32786141457626691956165567606466346684460048037614899576730000443632526516308);
    lemma_pm_double(7, 1215385nat, m);
    assert(pm(7, 2430770nat, m) == 50624397567369462788294944407825223079510856516212975693951532439103733852659);
    lemma_pm_succ(7, 2430770nat, m);
    assert(pm(7, 2430771nat, m) == 39755531920829096641378167805660766530432680610325002922038774874094649861535);
    lemma_pm_double(7, 2430771nat, m);
    assert(pm(7, 4861542nat, m) == 6790262601862032074417551605166491163582884988453029907264917326175660192842);
    lemma_pm_succ(7, 4861542nat, m);
    assert(pm(7, 4861543nat, m) == 47531838213034224520922861236165438145080194919171209350854421283229621349894);
    lemma_pm_double(7, 4861543nat, m);
    assert(pm(7, 9723086nat, m) == 4983013180426862703851104400307497022955171679421751698273159764701553871938);
    lemma_pm_double(7, 9723086nat, m);
    assert(pm(7, 19446172nat, m) == 3718521327407677255466492624748610720441929403128805056533674949011770812619);
    lemma_pm_double(7, 19446172nat, m);
    assert(pm(7, 38892344nat, m) == 28461454847048695208921399041110826720784413539325519301188005722847752360767);
    lemma_pm_double(7, 38892344nat, m);
    assert(pm(7, 77784688nat, m) == 23204431381014909474351431239856756069082208913300832159898468624810710320185);
    lemma_pm_double(7, 77784688nat, m);
    assert(pm(7, 155569376nat, m) == 26673509546185838316928650263107678272546157540429887370763599470701180669083);
    lemma_pm_succ(7, 155569376nat, m);
    assert(pm(7, 155569377nat, m) == 29406941297922296780157330317195850394751445281426298127534220195092521130042);
    lemma_pm_double(7, 155569377nat, m);
    assert(pm(7, 311138754nat, m) == 14405940208110421559908931393528246605735073812504177136077513463360909779051);
    lemma_pm_succ(7, 311138754nat, m);
    assert(pm(7, 311138755nat, m) == 48405706281646760439914779246511760402454964187001602129938935543587787268844);
    lemma_pm_double(7, 311138755nat, m);
    assert(pm(7, 622277510nat, m) == 26221211998269266327565630252339775427386211111480844887568496369222897151995);
    lemma_pm_double(7, 622277510nat, m);
    assert(pm(7, 1244555020nat, m) == 43438379386481879289510934353730767823528992204989968241565890593807802839623);
    lemma_pm_double(7, 1244555020nat, m);
    assert(pm(7, 2489110040nat, m) == 11622769374769016843726692469775553239834465601810715733785951996311330985782);
    lemma_pm_double(7, 2489110040nat, m);
    assert(pm(7, 4978220080nat, m) == 39640597541521004552459111262251244754096662414340279180175500620529362513379);
    lemma_pm_succ(7, 4978220080nat, m);
    assert(pm(7, 4978220081nat, m) == 15304806915016079469975076294828884090223874397743765148210210844012631671088);
    lemma_pm_double(7, 4978220081nat, m);
    assert(pm(7, 9956440162nat, m) == 5432282949478579249948747251740007736047153224965613178780517325413735147312);
    lemma_pm_succ(7, 9956440162nat, m);
    assert(pm(7, 9956440163nat, m) == 38025980646350054749641230762180054152330072574759292251463621277896146031184);
    lemma_pm_double(7, 9956440163nat, m);
    assert(pm(7, 19912880326nat, m) == 15076544763886440810896534446762010484429293234254656336978117414449265384777);
    lemma_pm_succ(7, 19912880326nat, m);
    assert(pm(7, 19912880327nat, m) == 664062996952704717380260110962141715623947638727318713639504501267695324413);
    lemma_pm_double(7, 19912880327nat, m);
    assert(pm(7, 39825760654nat, m) == 49042215356501892888741360244770599366296920375155127069968580131913962420772);
    lemma_pm_succ(7, 39825760654nat, m);
    assert(pm(7, 39825760655nat, m) == 28680256444756107344503078664278400537935127622920062554158108723766249838326);
    lemma_pm_double(7, 39825760655nat, m);
    assert(pm(7, 79651521310nat, m) == 45315353624993180772808389514256029658899852358504505363457249745456396562623);
    lemma_pm_succ(7, 79651521310nat, m);
    assert(pm(7, 79651521311nat, m) == 2592224324195122532972283550676412586155651506365710608578796018563288831283);
    lemma_pm_double(7, 79651521311nat, m);
    assert(pm(7, 159303042622nat, m) == 20311277619950294765674386715039202004748446860945557343721605733742054107657);
    lemma_pm_succ(7, 159303042622nat, m);
    assert(pm(7, 159303042623nat, m) == 37307192989399682400825225988902482357858023025563625760843922736317216384573);
    lemma_pm_double(7, 159303042623nat, m);
    assert(pm(7, 318606085246nat, m) == 14249724901487651312305468619076778140320392703120918878752212318866386367198);
    lemma_pm_double(7, 318606085246nat, m);
    assert(pm(7, 637212170492nat, m) == 11017283198301177341853833031395207553024957057766223780225617754900186358682);
    lemma_pm_double(7, 637212170492nat, m);
    assert(pm(7, 1274424340984nat, m) == 45720247283022787286053349332002910310448020789494115828858534507305278593813);
    lemma_pm_succ(7, 1274424340984nat, m);
    assert(pm(7, 1274424340985nat, m) == 5426479930402368125687002274904577146992830523292983866387789351505463049613);
    lemma_pm_double(7, 1274424340985nat, m);
    assert(pm(7, 2548848681970nat, m) == 39349278008500091343286697812298885504821746709520185989138111287462693577336);
    lemma_pm_double(7, 2548848681970nat, m);
    assert(pm(7, 5097697363940nat, m) == 18951935738180767430061425241192713329924210214656481012123281868093490875376);
    lemma_pm_double(7, 5097697363940nat, m);
    assert(pm(7, 10195394727880nat, m) == 32182929974922449855840802198237709523234330870915004594384368316492824719228);
    lemma_pm_double(7, 10195394727880nat, m);
    assert(pm(7, 20390789455760nat, m) == 48497485497772296116221443679092683924802323174698956136876334098848120444183);
    lemma_pm_double(7, 20390789455760nat, m);
    assert(pm(7, 40781578911520nat, m) == 1120367323787823858964286512112341950212844549115565414353064812321592330990);
    lemma_pm_succ(7, 40781578911520nat, m);
    assert(pm(7, 40781578911521nat, m) == 7842571266514767012750005584786393651489911843808957900471453686251146316930);
    lemma_pm_double(7, 40781578911521nat, m);
    assert(pm(7, 81563157823042nat, m) == 29928604688703173861439163229136964604980341419527427307259458854522587960615);
    lemma_pm_succ(7, 81563157823042nat, m);
    assert(pm(7, 81563157823043nat, m) == 52192607295543645591730921079400854721790732435109077683005235881842372170766);
    lemma_pm_double(7, 81563157823043nat, m);
    assert(pm(7, 163126315646086nat, m) == 15653646419836695682329242971541022360917919898120615818938565132337735656248);
    lemma_pm_double(7, 163126315646086nat, m);
    assert(pm(7, 326252631292172nat, m) == 42449048995255786090796470562220790376268128930284777465531898018966001527317);
    lemma_pm_double(7, 326252631292172nat, m);
    assert(pm(7, 652505262584344nat, m) == 28948848280842364179566217871215555924301949476669840839290123216027700349883);
    lemma_pm_succ(7, 652505262584344nat, m);
    assert(pm(7, 652505262584345nat, m) == 45334312440517977818620303573950993957041988835105972407219886412378158895642);
    lemma_pm_double(7, 652505262584345nat, m);
    assert(pm(7, 1305010525168690nat, m) == 27876128964103123042148199349567241191752419620621594398653822733995326074842);
    lemma_pm_double(7, 1305010525168690nat, m);
    assert(pm(7, 2610021050337380nat, m) == 45722449248626508649305419144833846632357978274429567016678475618841981520786);
    lemma_pm_succ(7, 2610021050337380nat, m);
    assert(pm(7, 2610021050337381nat, m) == 5441893689628417668451490964721131400362532917841142181127377132262383538424);
    lemma_pm_double(7, 2610021050337381nat, m);
    assert(pm(7, 5220042100674762nat, m) == 4310237804986816663857413789445365508508715704440768028590779737623842796886);
    lemma_pm_succ(7, 5220042100674762nat, m);
    assert(pm(7, 5220042100674763nat, m) == 30171664634907716647001896526117558559561009931085376200135458163366899578202);
    lemma_pm_double(7, 5220042100674763nat, m);
    assert(pm(7, 10440084201349526nat, m) == 26754573920644064831487911663315813355740776502489722642333665008146143144884);
    lemma_pm_double(7, 10440084201349526nat, m);
    assert(pm(7, 20880168402699052nat, m) == 14522279400980144780341594792152528291332328254815496247380489283439549290057);
    lemma_pm_succ(7, 20880168402699052nat, m);
    assert(pm(7, 20880168402699053nat, m) == 49220080631734822982943423036881732201635745283180835909059766284138263845886);
    lemma_pm_double(7, 20880168402699053nat, m);
    assert(pm(7, 41760336805398106nat, m) == 44329965476341744794048559685424864817195861940809065558082071809250100142199);
    lemma_pm_succ(7, 41760336805398106nat, m);
    assert(pm(7, 41760336805398107nat, m) == 48130382458761261161101215257044224531918271083025269793556209165057795072828);
    lemma_pm_double(7, 41760336805398107nat, m);
    assert(pm(7, 83520673610796214nat, m) == 46051969440034981311936573186605007409816356731466523353001152203056037781255);
    lemma_pm_double(7, 83520673610796214nat, m);
    assert(pm(7, 167041347221592428nat, m) == 51818523363358669040786235799763003236470948153040251033259417800161857433408);
    lemma_pm_succ(7, 167041347221592428nat, m);
    assert(pm(7, 167041347221592429nat, m) == 48114412492753540408817207549225227629153322068115930297193972401501514926778);
    lemma_pm_double(7, 167041347221592429nat, m);
    assert(pm(7, 334082694443184858nat, m) == 40204001779584260515307411664949837087541675419242594557829978655528862730311);
    lemma_pm_succ(7, 334082694443184858nat, m);
    assert(pm(7, 334082694443184859nat, m) == 19248636581458871209913179113719030424338965432059972791791557089009133189612);
    lemma_pm_double(7, 334082694443184859nat, m);
    assert(pm(7, 668165388886369718nat, m) == 46737400479404459721369771350769238026287110282907156043752062576815784305286);
    lemma_pm_double(7, 668165388886369718nat, m);
    assert(pm(7, 1336330777772739436nat, m) == 16353062080619616999510502179566546742695524176718835005061518696670505723564);
    lemma_pm_succ(7, 1336330777772739436nat, m);
    assert(pm(7, 1336330777772739437nat, m) == 9599684214084938037678034240593895523487564235976569390223313476816377695922);
    lemma_pm_double(7, 1336330777772739437nat, m);
    assert(pm(7, 2672661555545478874nat, m) == 25909937709174175204352873416412214789732335637139810574374675413953859415563);
    lemma_pm_double(7, 2672661555545478874nat, m);
    assert(pm(7, 5345323111090957748nat, m) == 30822417626168550460345146375103567815871532166909112436127933458525632040311);
    lemma_pm_double(7, 5345323111090957748nat, m);
    assert(pm(7, 10690646222181915496nat, m) == 18174158107524839214149928392695224920164701419046947077273606404982166953377);
    lemma_pm_double(7, 10690646222181915496nat, m);
    assert(pm(7, 21381292444363830992nat, m) == 12743490391911496744203304524859367273265445641820889728653849988447965223200);
    lemma_pm_double(7, 21381292444363830992nat, m);
    assert(pm(7, 42762584888727661984nat, m) == 11747295004764036809553869735591841330425691057621279889548126681212760794443);
    lemma_pm_double(7, 42762584888727661984nat, m);
    assert(pm(7, 85525169777455323968nat, m) == 13368713853407745894532661324419817330443772518511243034653848028268195138568);
    lemma_pm_double(7, 85525169777455323968nat, m);
    assert(pm(7, 171050339554910647936nat, m) == 10240102647539737143614963365299120900451843299055631875775717431313658440092);
    lemma_pm_succ(7, 171050339554910647936nat, m);
    assert(pm(7, 171050339554910647937nat, m) == 19244843357651969525857003048907880465472350592861785307826363319257027896131);
    lemma_pm_double(7, 171050339554910647937nat, m);
    assert(pm(7, 342100679109821295874nat, m) == 24269438203501128257219482784259614113746370872780424099204461884127772026495);
    lemma_pm_succ(7, 342100679109821295874nat, m);
    assert(pm(7, 342100679109821295875nat, m) == 12578441899129326362193157965259401283152938607880055226620257089078660631926);
    lemma_pm_double(7, 342100679109821295875nat, m);
    assert(pm(7, 684201358219642591750nat, m) == 16555903548967046878906398540256529277497620770329709982233264452049630831656);
    lemma_pm_succ(7, 684201358219642591750nat, m);
    assert(pm(7, 684201358219642591751nat, m) == 11019574492516947193449308765423773267102240391252694230425533764470253452566);
    lemma_pm_double(7, 684201358219642591751nat, m);
    assert(pm(7, 1368402716439285183502nat, m) == 39532712216904482966052600528026621876418825431071812385947809062545360508587);
    lemma_pm_double(7, 1368402716439285183502nat, m);
    assert(pm(7, 2736805432878570367004nat, m) == 12328848764932835128942159519019690068807613149283375184231917054281668509561);
    lemma_pm_double(7, 2736805432878570367004nat, m);
    assert(pm(7, 5473610865757140734008nat, m) == 40972418743490599694376826827410381645453927159980910246366191308886357419159);
    lemma_pm_succ(7, 5473610865757140734008nat, m);
    assert(pm(7, 5473610865757140734009nat, m) == 24627555328803245463399085250942842329724727617228182611545045662511596011548);
    lemma_pm_double(7, 5473610865757140734009nat, m);
    assert(pm(7, 10947221731514281468018nat, m) == 32209837120754655677139542182524320070449207199978029648416582725676177448501);
    lemma_pm_succ(7, 10947221731514281468018nat, m);
    assert(pm(7, 10947221731514281468019nat, m) == 15725359144777827822185833244926377142382240397735656248501444279978917401455);
    lemma_pm_double(7, 10947221731514281468019nat, m);
    assert(pm(7, 21894443463028562936038nat, m) == 19439446581329887002000066936674593220245902552141714616963936636855598918918);
    lemma_pm_double(7, 21894443463028562936038nat, m);
    assert(pm(7, 43788886926057125872076nat, m) == 2853645195182919712070459343986356994147908208060406866008266921549837262020);
    lemma_pm_double(7, 43788886926057125872076nat, m);
    assert(pm(7, 87577773852114251744152nat, m) == 37640159023052099007434505326183217720971013197989290311782773500560693205193);
    lemma_pm_succ(7, 87577773852114251744152nat, m);
    assert(pm(7, 87577773852114251744153nat, m) == 1301737285733740654802834742352694858344329883286843069461121004231946513786);
    lemma_pm_double(7, 87577773852114251744153nat, m);
    assert(pm(7, 175155547704228503488306nat, m) == 32115177635196233368753762522591623114523520892809636923781748351908842932015);
    lemma_pm_succ(7, 175155547704228503488306nat, m);
    assert(pm(7, 175155547704228503488307nat, m) == 15062742745868871663485375625397498450902436247556907176057603663607575786053);
    lemma_pm_double(7, 175155547704228503488307nat, m);
    assert(pm(7, 350311095408457006976614nat, m) == 42840838031333800412408248184559811613274954436336921452372774192662753420173);
    lemma_pm_succ(7, 350311095408457006976614nat, m);
    assert(pm(7, 350311095408457006976615nat, m) == 37706490343705650489619034750988852104471918551720261053591125848946368018646);
    lemma_pm_double(7, 350311095408457006976615nat, m);
    assert(pm(7, 700622190816914013953230nat, m) == 43299781478487846420116168177052132507132888170609616318274883542580002878075);
    lemma_pm_succ(7, 700622190816914013953230nat, m);
    assert(pm(7, 700622190816914013953231nat, m) == 40919094473783972543574474698435098361477454691629125114905891298367114223960);
    lemma_pm_double(7, 700622190816914013953231nat, m);
    assert(pm(7, 1401244381633828027906462nat, m) == 4801574491505650483891305250940677321466044338884036921549901030194344701381);
    lemma_pm_succ(7, 1401244381633828027906462nat, m);
    assert(pm(7, 1401244381633828027906463nat, m) == 33611021440539553387239136756584741250262310372188258450849307211360412909667);
    lemma_pm_double(7, 1401244381633828027906463nat, m);
    assert(pm(7, 2802488763267656055812926nat, m) == 15742846853141243151835514810532803181631350487061898335879742697063855704526);
    lemma_pm_succ(7, 2802488763267656055812926nat, m);
    assert(pm(7, 2802488763267656055812927nat, m) == 5328177621736321103953122657357690596038348408378012705950881479569827562656);
    lemma_pm_double(7, 2802488763267656055812927nat, m);
    assert(pm(7, 5604977526535312111625854nat, m) == 45097974423230299598072842984796371482708532706253625169022003025760424133580);
    lemma_pm_succ(7, 5604977526535312111625854nat, m);
    assert(pm(7, 5604977526535312111625855nat, m) == 1070569911854954309823457844458805352816413940609549247532068980691481827982);
    lemma_pm_double(7, 5604977526535312111625855nat, m);
    assert(pm(7, 11209955053070624223251710nat, m) == 14533589003560309725505790450274677197978987695227276723809754059023802731832);
    lemma_pm_succ(7, 11209955053070624223251710nat, m);
    assert(pm(7, 11209955053070624223251711nat, m) == 49299247849795977599092792643736774548162361366063299244064619713228037938311);
    lemma_pm_double(7, 11209955053070624223251711nat, m);
    assert(pm(7, 22419910106141248446503422nat, m) == 32608544766070448914280067270135883633053176461798518158301356895295314940144);
    lemma_pm_succ(7, 22419910106141248446503422nat, m);
    assert(pm(7, 22419910106141248446503423nat, m) == 18516312661988380482169508858207322080610025230479075817694863467312879842956);
    lemma_pm_double(7, 22419910106141248446503423nat, m);
    assert(pm(7, 44839820212282496893006846nat, m) == 6193130621061567983776390418721202276906613295602795477256562683826922907502);
    lemma_pm_double(7, 44839820212282496893006846nat, m);
    assert(pm(7, 89679640424564993786013692nat, m) == 51304802462339382541398371540096374303936315410526184789323451090346907364070);
    lemma_pm_double(7, 89679640424564993786013692nat, m);
    assert(pm(7, 179359280849129987572027384nat, m) == 39617159553884269560944656580960782752379012128539125226412747330371632058125);
    lemma_pm_double(7, 179359280849129987572027384nat, m);
    assert(pm(7, 358718561698259975144054768nat, m) == 24689853056183947439411548145742040680761788901271990159889844002676073272877);
    lemma_pm_double(7, 358718561698259975144054768nat, m);
    assert(pm(7, 717437123396519950288109536nat, m) == 16444976506398431593874805784062866125250888599096391258827299222776636591766);
    lemma_pm_succ(7, 717437123396519950288109536nat, m);
    assert(pm(7, 717437123396519950288109537nat, m) == 10243085194536640198228159472068131201375115192619463166583777159559293773336);
    lemma_pm_double(7, 717437123396519950288109537nat, m);
    assert(pm(7, 1434874246793039900576219074nat, m) == 4251864476238711908758317242833115591989550670130649926449303571101677065485);
    lemma_pm_double(7, 1434874246793039900576219074nat, m);
    assert(pm(7, 2869748493586079801152438148nat, m) == 2085518415578231500809917759904478393532863912744643167294836780785812550477);
    lemma_pm_succ(7, 2869748493586079801152438148nat, m);
    assert(pm(7, 2869748493586079801152438149nat, m) == 14598628909047620505669424319331348754730047389212502171063857465500687853339);
    lemma_pm_double(7, 2869748493586079801152438149nat, m);
    assert(pm(7, 5739496987172159602304876298nat, m) == 32432994748767568707323652460868479053449103100314569814863645271495100568002);
    lemma_pm_double(7, 5739496987172159602304876298nat, m);
    assert(pm(7, 11478993974344319204609752596nat, m) == 17527158148949257829386391190548316576890160121341920598128772056779695232492);
    lemma_pm_succ(7, 11478993974344319204609752596nat, m);
    assert(pm(7, 11478993974344319204609752597nat, m) == 17818356692392423846809257317466284362850015848338168541694086997580704258418);
    lemma_pm_double(7, 11478993974344319204609752597nat, m);
    assert(pm(7, 22957987948688638409219505194nat, m) == 33590356719353052124660097019900964880967421651755933639453276971110904075010);
    lemma_pm_double(7, 22957987948688638409219505194nat, m);
    assert(pm(7, 45915975897377276818439010388nat, m) == 38950318240019487281405157611641186847823557558336357495305002040278127697477);
    lemma_pm_succ(7, 45915975897377276818439010388nat, m);
    assert(pm(7, 45915975897377276818439010389nat, m) == 10472851804505458572597400740558478746312140405716313354116720782253987959774);
    lemma_pm_double(7, 45915975897377276818439010389nat, m);
    assert(pm(7, 91831951794754553636878020778nat, m) == 44057990007837085803738034408343370710578362759762952286916875981254318746411);
    lemma_pm_succ(7, 91831951794754553636878020778nat, m);
    assert(pm(7, 91831951794754553636878020779nat, m) == 46226554179228648228927538317473765785595776815702476895399838369087325302312);
    lemma_pm_double(7, 91831951794754553636878020779nat, m);
    assert(pm(7, 183663903589509107273756041558nat, m) == 8685740122352234597835013485220463502777440417624903059434105148218146393065);
    lemma_pm_succ(7, 183663903589509107273756041558nat, m);
    assert(pm(7, 183663903589509107273756041559nat, m) == 8364305681339451705397353888357278681751530422846683593435077337588443566942);
    lemma_pm_double(7, 183663903589509107273756041559nat, m);
    assert(pm(7, 367327807179018214547512083118nat, m) == 52024342615259578813684735069700744293646396261367560906556483570940965097157);
    lemma_pm_double(7, 367327807179018214547512083118nat, m);
    assert(pm(7, 734655614358036429095024166236nat, m) == 7101098737205424243772667916719623366148517289950125553604148843629572550289);
    lemma_pm_succ(7, 734655614358036429095024166236nat, m);
    assert(pm(7, 734655614358036429095024166237nat, m) == 49707691160437969706408675417037363563039621029650878875229041905407007852023);
    lemma_pm_double(7, 734655614358036429095024166237nat, m);
    assert(pm(7, 1469311228716072858190048332474nat, m) == 26820260923964211648328071133595717530011703696952063556821865028173036485898);
    lemma_pm_succ(7, 1469311228716072858190048332474nat, m);
    assert(pm(7, 1469311228716072858190048332475nat, m) == 30434200942370910099953276410612125197010268377081531429942079097395511847747);
    lemma_pm_double(7, 1469311228716072858190048332475nat, m);
    assert(pm(7, 2938622457432145716380096664950nat, m) == 43362365404431640825631345199484875372032644347380403471420603259176275025720);
    lemma_pm_double(7, 2938622457432145716380096664950nat, m);
    assert(pm(7, 5877244914864291432760193329900nat, m) == 3524595831928937896679226259315919286331267680701548925804233710499270107152);
    lemma_pm_double(7, 5877244914864291432760193329900nat, m);
    assert(pm(7, 11754489829728582865520386659800nat, m) == 31169034332388930211531595510982182242738337021348366506071657029297776756049);
    lemma_pm_succ(7, 11754489829728582865520386659800nat, m);
    assert(pm(7, 11754489829728582865520386659801nat, m) == 8439739626217749562930206544131412348406149147328014252086964405330112554291);
    lemma_pm_double(7, 11754489829728582865520386659801nat, m);
    assert(pm(7, 23508979659457165731040773319602nat, m) == 45260534722182478287068222209918560009927756119950051807433096236333286698114);
    lemma_pm_double(7, 23508979659457165731040773319602nat, m);
    assert(pm(7, 47017959318914331462081546639204nat, m) == 12799718505974450389499656946719050035209868752542916150826906737946517397799);
    lemma_pm_succ(7, 47017959318914331462081546639204nat, m);
    assert(pm(7, 47017959318914331462081546639205nat, m) == 37162154366694962247049858118847384408778528767272775233184688465687040600080);
    lemma_pm_double(7, 47017959318914331462081546639205nat, m);
    assert(pm(7, 94035918637828662924163093278410nat, m) == 48448205507789644686320876984953988736120392677983390543445405783643173033995);
    lemma_pm_double(7, 94035918637828662924163093278410nat, m);
    assert(pm(7, 188071837275657325848326186556820nat, m) == 20618932846616361819753677875494796352793165095367571834999574343264015072190);
    lemma_pm_double(7, 188071837275657325848326186556820nat, m);
    assert(pm(7, 376143674551314651696652373113640nat, m) == 32923083970544976920545202209488610612805397166458154458587367079140777407526);
    lemma_pm_double(7, 376143674551314651696652373113640nat, m);
    assert(pm(7, 752287349102629303393304746227280nat, m) == 16678573346707465079284024667770355261418323363094905778884852807862512412933);
    lemma_pm_double(7, 752287349102629303393304746227280nat, m);
    assert(pm(7, 1504574698205258606786609492454560nat, m) == 36211194122174399884192124098367491378027589787395388067286234557065536972734);
    lemma_pm_succ(7, 1504574698205258606786609492454560nat, m);
    assert(pm(7, 1504574698205258606786609492454561nat, m) == 43734858154716037271553906655828576295430918509657165180589007099704434071086);
    lemma_pm_double(7, 1504574698205258606786609492454561nat, m);
    assert(pm(7, 3009149396410517213573218984909122nat, m) == 25612330131247280239044133255837429041683793521916735812734163658013147408330);
    lemma_pm_succ(7, 3009149396410517213573218984909122nat, m);
    assert(pm(7, 3009149396410517213573218984909123nat, m) == 21978685393352390234965711266304105778714897151834237221328169506276288304771);
    lemma_pm_double(7, 3009149396410517213573218984909123nat, m);
    assert(pm(7, 6018298792821034427146437969818246nat, m) == 37561048939125026937250064240282615895981419109165896913432179627708624505368);
    lemma_pm_succ(7, 6018298792821034427146437969818246nat, m);
    assert(pm(7, 6018298792821034427146437969818247nat, m) == 747966698244236163511747141048482083417171261523089281006963894267465615011);
    lemma_pm_double(7, 6018298792821034427146437969818247nat, m);
    assert(pm(7, 12036597585642068854292875939636494nat, m) == 15051298201799993515586937373651579405500192503370608814818934095456959787384);
    lemma_pm_succ(7, 12036597585642068854292875939636494nat, m);
    assert(pm(7, 12036597585642068854292875939636495nat, m) == 487337062347573650213080599189124163120242522538986058525221268321556142662);
    lemma_pm_double(7, 12036597585642068854292875939636495nat, m);
    assert(pm(7, 24073195171284137708585751879272990nat, m) == 16674278616251567775026837092879549480444547509235853721315593133334191071539);
    lemma_pm_double(7, 24073195171284137708585751879272990nat, m);
    assert(pm(7, 48146390342568275417171503758545980nat, m) == 43566210516373684658419020618325042405506095951851104497355022552681908818011);
    lemma_pm_succ(7, 48146390342568275417171503758545980nat, m);
    assert(pm(7, 48146390342568275417171503758545981nat, m) == 42784097738984840211694441787345467650089909160319542368466864369080455803512);
    lemma_pm_double(7, 48146390342568275417171503758545981nat, m);
    assert(pm(7, 96292780685136550834343007517091962nat, m) == 32220064523771870745110168207795674271071864180830313608520794746189748791047);
    lemma_pm_succ(7, 96292780685136550834343007517091962nat, m);
    assert(pm(7, 96292780685136550834343007517091963nat, m) == 15796950965898333297980215421825856546740839263701643969230928423573916799277);
    lemma_pm_double(7, 96292780685136550834343007517091963nat, m);
    assert(pm(7, 192585561370273101668686015034183926nat, m) == 34370259163493558641500433715776166098992040835169271870890425007596508141715);
    lemma_pm_double(7, 192585561370273101668686015034183926nat, m);
    assert(pm(7, 385171122740546203337372030068367852nat, m) == 396541371269963827787510787618940045043354204341197737151415249825596702910);
    lemma_pm_succ(7, 385171122740546203337372030068367852nat, m);
    assert(pm(7, 385171122740546203337372030068367853nat, m) == 2775789598889746794512575513332580315303479430388384160059906748779176920370);
    lemma_pm_double(7, 385171122740546203337372030068367853nat, m);
    assert(pm(7, 770342245481092406674744060136735706nat, m) == 6557761193377044339552503916998588506371104680781356975696663587271523149403);
    lemma_pm_succ(7, 770342245481092406674744060136735706nat, m);
    assert(pm(7, 770342245481092406674744060136735707nat, m) == 45904328353639310376867527418990119544597732765469498829876645110900662045821);
    lemma_pm_double(7, 770342245481092406674744060136735707nat, m);
    assert(pm(7, 1540684490962184813349488120273471414nat, m) == 32708678197637808650488748973303229594608741230776279799270566141887571358012);
    lemma_pm_succ(7, 1540684490962184813349488120273471414nat, m);
    assert(pm(7, 1540684490962184813349488120273471415nat, m) == 19217246682959898635630280780378743811498978613323407304479328193458674768032);
    lemma_pm_double(7, 1540684490962184813349488120273471415nat, m);
    assert(pm(7, 3081368981924369626698976240546942830nat, m) == 37156960827190887972689432062630542453573417396263270290786830626247225206870);
    lemma_pm_succ(7, 3081368981924369626698976240546942830nat, m);
    assert(pm(7, 3081368981924369626698976240546942831nat, m) == 50355225089831453891035062405669933824251711771732340745093179583976251710038);
    lemma_pm_double(7, 3081368981924369626698976240546942831nat, m);
    assert(pm(7, 6162737963848739253397952481093885662nat, m) == 4302425497509412997755167759505297369456563096188387572749207854159455773980);
    lemma_pm_double(7, 6162737963848739253397952481093885662nat, m);
    assert(pm(7, 12325475927697478506795904962187771324nat, m) == 52247572191938751666039348181909153276297054625812051047941552796701604168573);
    lemma_pm_double(7, 12325475927697478506795904962187771324nat, m);
    assert(pm(7, 24650951855394957013591809924375542648nat, m) == 46552825999471055663302587881156195611302359778726284062276699611710873259567);
    lemma_pm_succ(7, 24650951855394957013591809924375542648nat, m);
    assert(pm(7, 24650951855394957013591809924375542649nat, m) == 11254530945540246766431672118977574252973203447918161500314945082344625709891);
    lemma_pm_double(7, 24650951855394957013591809924375542649nat, m);
    assert(pm(7, 49301903710789914027183619848751085298nat, m) == 36458965193094998952612461660907594666750989838355770491917203263662323180731);
    lemma_pm_double(7, 49301903710789914027183619848751085298nat, m);
    assert(pm(7, 98603807421579828054367239697502170596nat, m) == 16552536132823459351704550530372066824791897279260547319077184680545404631087);
    lemma_pm_double(7, 98603807421579828054367239697502170596nat, m);
    assert(pm(7, 197207614843159656108734479395004341192nat, m) == 47885515659717417850628918116954531099973727140528262954730587074440298802767);
    lemma_pm_succ(7, 197207614843159656108734479395004341192nat, m);
    assert(pm(7, 197207614843159656108734479395004341193nat, m) == 20583358567264782077715983769565922673672774980532013747492157321450604512291);
    lemma_pm_double(7, 197207614843159656108734479395004341193nat, m);
    assert(pm(7, 394415229686319312217468958790008682386nat, m) == 448593874343677390848011769978240141709030757279192846546636855611000207281);
    lemma_pm_succ(7, 394415229686319312217468958790008682386nat, m);
    assert(pm(7, 394415229686319312217468958790008682387nat, m) == 3140157120405741735936082389847680991963215300954349925826457989277001450967);
    lemma_pm_double(7, 394415229686319312217468958790008682387nat, m);
    assert(pm(7, 788830459372638624434937917580017364774nat, m) == 2503184438483100874099341403772748701524986464493013379241940769688437782238);
    lemma_pm_double(7, 788830459372638624434937917580017364774nat, m);
    assert(pm(7, 1577660918745277248869875835160034729548nat, m) == 3786657077721089742328574568304129827229600690680710253973032749214316355106);
    lemma_pm_succ(7, 1577660918745277248869875835160034729548nat, m);
    assert(pm(7, 1577660918745277248869875835160034729549nat, m) == 26506599544047628196300021978128908790607204834764971777811229244500214485742);
    lemma_pm_double(7, 1577660918745277248869875835160034729549nat, m);
    assert(pm(7, 3155321837490554497739751670320069459098nat, m) == 37500848621152094192541057820723460663037991070700638813257416506481216845151);
    lemma_pm_succ(7, 3155321837490554497739751670320069459098nat, m);
    assert(pm(7, 3155321837490554497739751670320069459099nat, m) == 326564472433706950548702204134395452813174992266282579783622045675611993492);
    lemma_pm_double(7, 3155321837490554497739751670320069459099nat, m);
    assert(pm(7, 6310643674981108995479503340640138918198nat, m) == 38360533863694253791535268775381555081845547514574965732082487807795376402717);
    lemma_pm_succ(7, 6310643674981108995479503340640138918198nat, m);
    assert(pm(7, 6310643674981108995479503340640138918199nat, m) == 6344361170228824143508178886741056384466070099386571011559121154874728896454);
    lemma_pm_double(7, 6310643674981108995479503340640138918199nat, m);
    assert(pm(7, 12621287349962217990959006681280277836398nat, m) == 14187037005900182932678859130446539652454789801767411627577563883958983592560);
    lemma_pm_double(7, 12621287349962217990959006681280277836398nat, m);
    assert(pm(7, 25242574699924435981918013362560555672796nat, m) == 34509826891934604275607882513476874720093503952600830893136344700181433109686);
    lemma_pm_succ(7, 25242574699924435981918013362560555672796nat, m);
    assert(pm(7, 25242574699924435981918013362560555672797nat, m) == 31825287543037468011464215561594259689892317666095264961539778101515707029750);
    lemma_pm_double(7, 25242574699924435981918013362560555672797nat, m);
    assert(pm(7, 50485149399848871963836026725121111345594nat, m) == 45745088511813494375073513829969286849038191296602925574002498850183733488620);
    lemma_pm_succ(7, 50485149399848871963836026725121111345594nat, m);
    assert(pm(7, 50485149399848871963836026725121111345595nat, m) == 5600368531937317748828153760669212917124024073054652082395539751654647313262);
    lemma_pm_double(7, 50485149399848871963836026725121111345595nat, m);
    assert(pm(7, 100970298799697743927672053450242222691190nat, m) == 47105099574032435466027572635595973788315708656418160122280241410753088770846);
    lemma_pm_succ(7, 100970298799697743927672053450242222691190nat, m);
    assert(pm(7, 100970298799697743927672053450242222691191nat, m) == 15120445967469905385506565400056021492066645591761293920339737675640134288844);
    lemma_pm_double(7, 100970298799697743927672053450242222691191nat, m);
    assert(pm(7, 201940597599395487855344106900484445382382nat, m) == 50007473295441571854003985044263499104854874670474302115201331517550443529676);
    lemma_pm_double(7, 201940597599395487855344106900484445382382nat, m);
    assert(pm(7, 403881195198790975710688213800968890764764nat, m) == 16987443947440896823268067206266737683046412419953740815938760885885201671711);
    lemma_pm_double(7, 403881195198790975710688213800968890764764nat, m);
    assert(pm(7, 807762390397581951421376427601937781529528nat, m) == 5265686735549993108396571016703279319922518834640723981538196417889646251959);
    lemma_pm_double(7, 807762390397581951421376427601937781529528nat, m);
    assert(pm(7, 1615524780795163902842752855203875563059056nat, m) == 17160941268591438701187035747074210086198448859834509161072637832399464102693);
    lemma_pm_succ(7, 1615524780795163902842752855203875563059056nat, m);
    assert(pm(7, 1615524780795163902842752855203875563059057nat, m) == 15254838529887689949413769213147538928008037017786288482301147426919086349825);
    lemma_pm_double(7, 1615524780795163902842752855203875563059057nat, m);
    assert(pm(7, 3231049561590327805685505710407751126118114nat, m) == 35149772562799923087444333490787326923476502757216513942570026564546864354514);
    lemma_pm_double(7, 3231049561590327805685505710407751126118114nat, m);
    assert(pm(7, 6462099123180655611371011420815502252236228nat, m) == 10437953688512557748126131869559687951460257307245568834036490861978551609144);
    lemma_pm_double(7, 6462099123180655611371011420815502252236228nat, m);
    assert(pm(7, 12924198246361311222742022841631004504472456nat, m) == 33995780838491439943130595335722553123167904870523663761143358298730797509340);
    lemma_pm_double(7, 12924198246361311222742022841631004504472456nat, m);
    assert(pm(7, 25848396492722622445484045683262009008944912nat, m) == 32073448596004449423278304354035965560223889578410336998511123815295717650491);
    lemma_pm_succ(7, 25848396492722622445484045683262009008944912nat, m);
    assert(pm(7, 25848396492722622445484045683262009008944913nat, m) == 14770639471526384045157168445507895570805017046761807699163231907315698815385);
    lemma_pm_double(7, 25848396492722622445484045683262009008944913nat, m);
    assert(pm(7, 51696792985445244890968091366524018017889826nat, m) == 17145458107997263048332348180358623576436420575576497141239379101053988750591);
    lemma_pm_succ(7, 51696792985445244890968091366524018017889826nat, m);
    assert(pm(7, 51696792985445244890968091366524018017889827nat, m) == 15146456405728460379430956246138433359673839027980204343468336307500758885111);
    lemma_pm_double(7, 51696792985445244890968091366524018017889827nat, m);
    assert(pm(7, 103393585970890489781936182733048036035779654nat, m) == 22382724196483840267600601101299252284209202757391319348295773127404993642515);
    lemma_pm_double(7, 103393585970890489781936182733048036035779654nat, m);
    assert(pm(7, 206787171941780979563872365466096072071559308nat, m) == 5908355417590742793116398226695910602754797646040354039756970300546182217576);
    lemma_pm_double(7, 206787171941780979563872365466096072071559308nat, m);
    assert(pm(7, 413574343883561959127744730932192144143118616nat, m) == 49269096846253924147538427840169659965328445905600491217452695633645791265963);
    lemma_pm_double(7, 413574343883561959127744730932192144143118616nat, m);
    assert(pm(7, 827148687767123918255489461864384288286237232nat, m) == 43834768652132049224759306553056353344693693842662275190408035501659437885332);
    lemma_pm_double(7, 827148687767123918255489461864384288286237232nat, m);
    assert(pm(7, 1654297375534247836510978923728768576572474464nat, m) == 35364947113400597978306022977320653642028629886544331631040405263034589748457);
    lemma_pm_succ(7, 1654297375534247836510978923728768576572474464nat, m);
    assert(pm(7, 1654297375534247836510978923728768576572474465nat, m) == 37811129093299423930351198808500712143438199203699770126868202041487803501147);
    lemma_pm_double(7, 1654297375534247836510978923728768576572474465nat, m);
    assert(pm(7, 3308594751068495673021957847457537153144948930nat, m) == 38495279216817270411326322922334918984712215747317332483719914478278545543461);
    lemma_pm_succ(7, 3308594751068495673021957847457537153144948930nat, m);
    assert(pm(7, 3308594751068495673021957847457537153144948931nat, m) == 7287578642089940482045557915414603704532747728583138273021107848256912881662);
    lemma_pm_double(7, 3308594751068495673021957847457537153144948931nat, m);
    assert(pm(7, 6617189502136991346043915694915074306289897862nat, m) == 41486956931438173084248230105901293049028361727729058084818798950855437664483);
    lemma_pm_succ(7, 6617189502136991346043915694915074306289897862nat, m);
    assert(pm(7, 6617189502136991346043915694915074306289897863nat, m) == 28229322644436259192498908200379222154745769591465217480713299156295157728816);
    lemma_pm_double(7, 6617189502136991346043915694915074306289897863nat, m);
    assert(pm(7, 13234379004273982692087831389830148612579795726nat, m) == 50421638485769167916777799326651337808980357764952244490848044218850499800748);
    lemma_pm_double(7, 13234379004273982692087831389830148612579795726nat, m);
    assert(pm(7, 26468758008547965384175662779660297225159591452nat, m) == 34682451390400161975348029024310986766714280673670860792010411818109558456200);
    lemma_pm_succ(7, 26468758008547965384175662779660297225159591452nat, m);
    assert(pm(7, 26468758008547965384175662779660297225159591453nat, m) == 33033659032296371909645241137433044016237754713585474253658247927012584455348);
    lemma_pm_double(7, 26468758008547965384175662779660297225159591453nat, m);
    assert(pm(7, 52937516017095930768351325559320594450319182906nat, m) == 18277301413502965500815877621672181799904417050206374329738147684115162763949);
    lemma_pm_double(7, 52937516017095930768351325559320594450319182906nat, m);
    assert(pm(7, 105875032034191861536702651118641188900638365812nat, m) == 20623029191900380002313812101237548169761092145108510044271365858318640947642);
    lemma_pm_succ(7, 105875032034191861536702651118641188900638365812nat, m);
    assert(pm(7, 105875032034191861536702651118641188900638365813nat, m) == 39489453993050279057301203692290905512946540014704294664692243608353324264468);
    lemma_pm_double(7, 105875032034191861536702651118641188900638365813nat, m);
    assert(pm(7, 211750064068383723073405302237282377801276731626nat, m) == 34947697123124567216109229635554072456862516585910588436360145715263072744124);
    lemma_pm_succ(7, 211750064068383723073405302237282377801276731626nat, m);
    assert(pm(7, 211750064068383723073405302237282377801276731627nat, m) == 34890379161367208594973645416134643847275406099263567764106385207087184470816);
    lemma_pm_double(7, 211750064068383723073405302237282377801276731627nat, m);
    assert(pm(7, 423500128136767446146810604474564755602553463254nat, m) == 27628922230273150917842719228392976658579348831506336732118012369295880193613);
    lemma_pm_succ(7, 423500128136767446146810604474564755602553463254nat, m);
    assert(pm(7, 423500128136767446146810604474564755602553463255nat, m) == 36094830086533484986555813074192939096983784318961443657015110485255417801752);
    lemma_pm_double(7, 423500128136767446146810604474564755602553463255nat, m);
    assert(pm(7, 847000256273534892293621208949129511205106926510nat, m) == 28051495569978220450218796969810653936064865727742974524637960820492106609857);
    lemma_pm_succ(7, 847000256273534892293621208949129511205106926510nat, m);
    assert(pm(7, 847000256273534892293621208949129511205106926511nat, m) == 39052843464468971713188357264116680039382402592617908204654749643629002715460);
    lemma_pm_double(7, 847000256273534892293621208949129511205106926511nat, m);
    assert(pm(7, 1694000512547069784587242417898259022410213853022nat, m) == 21636136765628254998210435014280169623481814456713189042187100167908211733930);
    lemma_pm_succ(7, 1694000512547069784587242417898259022410213853022nat, m);
    assert(pm(7, 1694000512547069784587242417898259022410213853023nat, m) == 46581207009145404028577564083589255688991596195937047650102383775480319768484);
    lemma_pm_double(7, 1694000512547069784587242417898259022410213853023nat, m);
    assert(pm(7, 3388001025094139569174484835796518044820427706046nat, m) == 35584185181971200657945438549082945158201808798818110330303203939754269571810);
    lemma_pm_succ(7, 3388001025094139569174484835796518044820427706046nat, m);
    assert(pm(7, 3388001025094139569174484835796518044820427706047nat, m) == 39345795573293642687827107810836752756650451589616221021707792778525562264618);
    lemma_pm_double(7, 3388001025094139569174484835796518044820427706047nat, m);
    assert(pm(7, 6776002050188279138348969671593036089640855412094nat, m) == 27493890439652048138295308860565476594644161997470438305390730995836367604028);
    lemma_pm_succ(7, 6776002050188279138348969671593036089640855412094nat, m);
    assert(pm(7, 6776002050188279138348969671593036089640855412095nat, m) == 35149607552185765529723940499400438649437476480710154669924140871038829674657);
    lemma_pm_double(7, 6776002050188279138348969671593036089640855412095nat, m);
    assert(pm(7, 13552004100376558276697939343186072179281710824190nat, m) == 14598457472710238182955312432916524357039306707296616698708305925180005394581);
    lemma_pm_succ(7, 13552004100376558276697939343186072179281710824190nat, m);
    assert(pm(7, 13552004100376558276697939343186072179281710824191nat, m) == 49753327133845476801239446522229704661584594450548679068354482776321456577554);
    lemma_pm_double(7, 13552004100376558276697939343186072179281710824191nat, m);
    assert(pm(7, 27104008200753116553395878686372144358563421648382nat, m) == 24939542449630565350174960086688691961787813348390903259411359254397595785918);
    lemma_pm_succ(7, 27104008200753116553395878686372144358563421648382nat, m);
    assert(pm(7, 27104008200753116553395878686372144358563421648383nat, m) == 17269171622035386012881499082262946219443035937153409348068538680967426947887);
    lemma_pm_double(7, 27104008200753116553395878686372144358563421648383nat, m);
    assert(pm(7, 54208016401506233106791757372744288717126843296766nat, m) == 28424251411166667086619270207553345461082697132463411558092718389181026695397);
    lemma_pm_succ(7, 54208016401506233106791757372744288717126843296766nat, m);
    assert(pm(7, 54208016401506233106791757372744288717126843296767nat, m) == 41662134352788098167991669928315520714507222425660967438838052624451443314240);
    lemma_pm_double(7, 54208016401506233106791757372744288717126843296767nat, m);
    assert(pm(7, 108416032803012466213583514745488577434253686593534nat, m) == 47005706941010393511366498491897865763519533053107581121225330257531935646186);
    lemma_pm_succ(7, 108416032803012466213583514745488577434253686593534nat, m);
    assert(pm(7, 108416032803012466213583514745488577434253686593535nat, m) == 14424697536315611702879046394169265318493416368587240912955359603092062416224);
    lemma_pm_double(7, 108416032803012466213583514745488577434253686593535nat, m);
    assert(pm(7, 216832065606024932427167029490977154868507373187070nat, m) == 4185563973529381375268239793772921823989920265705437959712054298469377447816);
    lemma_pm_double(7, 216832065606024932427167029490977154868507373187070nat, m);
    assert(pm(7, 433664131212049864854334058981954309737014746374140nat, m) == 42010266559185466213162586451355627014228809224131552557513981344110840745957);
    lemma_pm_succ(7, 433664131212049864854334058981954309737014746374140nat, m);
    assert(pm(7, 433664131212049864854334058981954309737014746374141nat, m) == 31892490038667311094899402618559559911148902066282678789579575909082979299134);
    lemma_pm_double(7, 433664131212049864854334058981954309737014746374141nat, m);
    assert(pm(7, 867328262424099729708668117963908619474029492748282nat, m) == 11323637003873775155845502212301279391574660653470737296550376522519506866580);
    lemma_pm_succ(7, 867328262424099729708668117963908619474029492748282nat, m);
    assert(pm(7, 867328262424099729708668117963908619474029492748283nat, m) == 26829583851990235611470774977922989903332072073767523253248976957697966881547);
    lemma_pm_double(7, 867328262424099729708668117963908619474029492748283nat, m);
    assert(pm(7, 1734656524848199459417336235927817238948058985496566nat, m) == 34323709146620077969542468007593638890843785522917625142000940678999958400133);
    lemma_pm_succ(7, 1734656524848199459417336235927817238948058985496566nat, m);
    assert(pm(7, 1734656524848199459417336235927817238948058985496567nat, m) == 30522463325835783869006314020411608885144288658312824703591949953245384062879);
    lemma_pm_double(7, 1734656524848199459417336235927817238948058985496567nat, m);
    assert(pm(7, 3469313049696398918834672471855634477896117970993134nat, m) == 13191805010119872474810385043810603810893204159763691944663548385973356292125);
    lemma_pm_double(7, 3469313049696398918834672471855634477896117970993134nat, m);
    assert(pm(7, 6938626099392797837669344943711268955792235941986268nat, m) == 47075417333137977021459633109308842834432326615437852678570541534691041422988);
    lemma_pm_succ(7, 6938626099392797837669344943711268955792235941986268nat, m);
    assert(pm(7, 6938626099392797837669344943711268955792235941986269nat, m) == 14912670281208696273530988716046104814882971304899141814371838543205802853838);
    lemma_pm_double(7, 6938626099392797837669344943711268955792235941986269nat, m);
    assert(pm(7, 13877252198785595675338689887422537911584471883972538nat, m) == 15331772961988115094995898609895201905911287579516058207523887215500591699542);
    lemma_pm_succ(7, 13877252198785595675338689887422537911584471883972538nat, m);
    assert(pm(7, 13877252198785595675338689887422537911584471883972539nat, m) == 2450660383664424706075809252894481665997908055557131807459893108626979527768);
    lemma_pm_double(7, 13877252198785595675338689887422537911584471883972539nat, m);
    assert(pm(7, 27754504397571191350677379774845075823168943767945078nat, m) == 43466738493297421748824526718686031147044601630842792864181062164965270905911);
    lemma_pm_succ(7, 27754504397571191350677379774845075823168943767945078nat, m);
    assert(pm(7, 27754504397571191350677379774845075823168943767945079nat, m) == 42087793577450999844532984489872388840859448913261360936249141655063990418812);
    lemma_pm_double(7, 27754504397571191350677379774845075823168943767945079nat, m);
    assert(pm(7, 55509008795142382701354759549690151646337887535890158nat, m) == 7558421627541441339225529257953058491404102706962820708285697228445955251290);
    lemma_pm_double(7, 55509008795142382701354759549690151646337887535890158nat, m);
    assert(pm(7, 111018017590284765402709519099380303292675775071780316nat, m) == 37211487363007653288813557024740952518952621546960627865831446625359901408131);
    lemma_pm_double(7, 111018017590284765402709519099380303292675775071780316nat, m);
    assert(pm(7, 222036035180569530805419038198760606585351550143560632nat, m) == 47528226071167815738046138410912005116164427379384586970592292061490577829149);
    lemma_pm_succ(7, 222036035180569530805419038198760606585351550143560632nat, m);
    assert(pm(7, 222036035180569530805419038198760606585351550143560633nat, m) == 18082331447417567289636525827268240787007676652526281858524092230802557696965);
    lemma_pm_double(7, 222036035180569530805419038198760606585351550143560633nat, m);
    assert(pm(7, 444072070361139061610838076397521213170703100287121266nat, m) == 4388939120987706177994629530711336706237893236223157559151024587607440604714);
    lemma_pm_succ(7, 444072070361139061610838076397521213170703100287121266nat, m);
    assert(pm(7, 444072070361139061610838076397521213170703100287121267nat, m) == 30722573846913943245962406714979356943665252653562102914057172113252084232998);
    lemma_pm_double(7, 444072070361139061610838076397521213170703100287121267nat, m);
    assert(pm(7, 888144140722278123221676152795042426341406200574242534nat, m) == 26202704836242252925211383459976195835318992995692816354174216719048631058183);
    lemma_pm_double(7, 888144140722278123221676152795042426341406200574242534nat, m);
    assert(pm(7, 1776288281444556246443352305590084852682812401148485068nat, m) == 36009343987936452463467224649184351973827908304616885644782470752675375878454);
    lemma_pm_succ(7, 1776288281444556246443352305590084852682812401148485068nat, m);
    assert(pm(7, 1776288281444556246443352305590084852682812401148485069nat, m) == 42321907215050405326479610511546600466033148130207648223062660468973306411126);
    lemma_pm_double(7, 1776288281444556246443352305590084852682812401148485069nat, m);
    assert(pm(7, 3552576562889112492886704611180169705365624802296970138nat, m) == 47929727200265711748626707766764366431692277454215976292385242344015276033376);
    lemma_pm_double(7, 3552576562889112492886704611180169705365624802296970138nat, m);
    assert(pm(7, 7105153125778224985773409222360339410731249604593940276nat, m) == 14081998786214127669356958423559119905532545628231375964673957962562896681308);
    lemma_pm_double(7, 7105153125778224985773409222360339410731249604593940276nat, m);
    assert(pm(7, 14210306251556449971546818444720678821462499209187880552nat, m) == 49815155034966606719651500723125763577034568479272159771520583010407848548848);
    lemma_pm_double(7, 14210306251556449971546818444720678821462499209187880552nat, m);
    assert(pm(7, 28420612503112899943093636889441357642924998418375761104nat, m) == 36341478848019497921897844772068487416603768285401507732052567312248423984077);
    lemma_pm_double(7, 28420612503112899943093636889441357642924998418375761104nat, m);
    assert(pm(7, 56841225006225799886187273778882715285849996836751522208nat, m) == 43721349742470140664495248171246233969919743154500529624297379742865466291089);
    lemma_pm_succ(7, 56841225006225799886187273778882715285849996836751522208nat, m);
    assert(pm(7, 56841225006225799886187273778882715285849996836751522209nat, m) == 43870072321660032254228034657793808600985439578865518257063364700365358115058);
    lemma_pm_double(7, 56841225006225799886187273778882715285849996836751522209nat, m);
    assert(pm(7, 113682450012451599772374547557765430571699993673503044418nat, m) == 5849794121681308212377348024242721051680829837409560963050022155362628983607);
    lemma_pm_double(7, 113682450012451599772374547557765430571699993673503044418nat, m);
    assert(pm(7, 227364900024903199544749095115530861143399987347006088836nat, m) == 22916761108706123294682850212429645424091937237261117173448184666825113537218);
    lemma_pm_double(7, 227364900024903199544749095115530861143399987347006088836nat, m);
    assert(pm(7, 454729800049806399089498190231061722286799974694012177672nat, m) == 973688551236851539174819366218198951678110017906496570579075125747376543452);
    lemma_pm_succ(7, 454729800049806399089498190231061722286799974694012177672nat, m);
    assert(pm(7, 454729800049806399089498190231061722286799974694012177673nat, m) == 6815819858657960774223735563527392661746770125345475994053525880231635804164);
    lemma_pm_double(7, 454729800049806399089498190231061722286799974694012177673nat, m);
    assert(pm(7, 909459600099612798178996380462123444573599949388024355346nat, m) == 8969252545217311930887277892125602625375381329840959189918932464570763269166);
    lemma_pm_succ(7, 909459600099612798178996380462123444573599949388024355346nat, m);
    assert(pm(7, 909459600099612798178996380462123444573599949388024355347nat, m) == 10348892641394993036763204736693252539937116808359076506828868552056761699649);
    lemma_pm_double(7, 909459600099612798178996380462123444573599949388024355347nat, m);
    assert(pm(7, 1818919200199225596357992760924246889147199898776048710694nat, m) == 17231719264058909998699175059035082650888575224312948094047195021705358607632);
    lemma_pm_succ(7, 1818919200199225596357992760924246889147199898776048710694nat, m);
    assert(pm(7, 1818919200199225596357992760924246889147199898776048710695nat, m) == 15750284498159989031998744396873646880838921569135361013123047752060347884398);
    lemma_pm_double(7, 1818919200199225596357992760924246889147199898776048710695nat, m);
    assert(pm(7, 3637838400398451192715985521848493778294399797552097421390nat, m) == 6554933612215494621362605016201286869403132132106654617277531322443074823026);
    lemma_pm_succ(7, 3637838400398451192715985521848493778294399797552097421390nat, m);
    assert(pm(7, 3637838400398451192715985521848493778294399797552097421391nat, m) == 45884535285508462349538235113409008085821924924746582320942719257101523761182);
    lemma_pm_double(7, 3637838400398451192715985521848493778294399797552097421391nat, m);
    assert(pm(7, 7275676800796902385431971043696987556588799595104194842782nat, m) == 50145552984440285331312834147753502170818954730795697004468507485710040912783);
    lemma_pm_double(7, 7275676800796902385431971043696987556588799595104194842782nat, m);
    assert(pm(7, 14551353601593804770863942087393975113177599190208389685564nat, m) == 6390854699296036819442720008832298568352970193150941291726146718332277613731);
    lemma_pm_succ(7, 14551353601593804770863942087393975113177599190208389685564nat, m);
    assert(pm(7, 14551353601593804770863942087393975113177599190208389685565nat, m) == 44735982895072257736099040061826089978470791352056589042083027028325943296117);
    lemma_pm_double(7, 14551353601593804770863942087393975113177599190208389685565nat, m);
    assert(pm(7, 29102707203187609541727884174787950226355198380416779371130nat, m) == 2261526765350728687258029786656835643742272890451548292117880858410529228954);
    lemma_pm_succ(7, 29102707203187609541727884174787950226355198380416779371130nat, m);
    assert(pm(7, 29102707203187609541727884174787950226355198380416779371131nat, m) == 15830687357455100810806208506597849506195910233160838044825166008873704602678);
    lemma_pm_double(7, 29102707203187609541727884174787950226355198380416779371131nat, m);
    assert(pm(7, 58205414406375219083455768349575900452710396760833558742262nat, m) == 24788744900496782054963122306885239942319120562701845563196849385477683576009);
    lemma_pm_succ(7, 58205414406375219083455768349575900452710396760833558742262nat, m);
    assert(pm(7, 58205414406375219083455768349575900452710396760833558742263nat, m) == 16213588778098902946398634623638782083162186437330005474566969598528041478524);
    lemma_pm_double(7, 58205414406375219083455768349575900452710396760833558742263nat, m);
    assert(pm(7, 116410828812750438166911536699151800905420793521667117484526nat, m) == 29326140109544687751286769525574838035538860941227382160578538631052612410655);
    lemma_pm_double(7, 116410828812750438166911536699151800905420793521667117484526nat, m);
    assert(pm(7, 232821657625500876333823073398303601810841587043334234969052nat, m) == 32762288203886922410600085913825909676633989493726075979041343001556210693118);
    lemma_pm_succ(7, 232821657625500876333823073398303601810841587043334234969052nat, m);
    assert(pm(7, 232821657625500876333823073398303601810841587043334234969053nat, m) == 19592516726703694956409639364037504385675716453971980562874766211139150113774);
    lemma_pm_double(7, 232821657625500876333823073398303601810841587043334234969053nat, m);
    assert(pm(7, 465643315251001752667646146796607203621683174086668469938106nat, m) == 43148816429651092594824685799508191206994469620761746890471767329899303250724);
    lemma_pm_double(7, 465643315251001752667646146796607203621683174086668469938106nat, m);
    assert(pm(7, 931286630502003505335292293593214407243366348173336939876212nat, m) == 49364652619717146164024141264946957068977169096643963879895536977424739479828);
    lemma_pm_double(7, 931286630502003505335292293593214407243366348173336939876212nat, m);
    assert(pm(7, 1862573261004007010670584587186428814486732696346673879752424nat, m) == 11046958899941193507625391610553224918770523930615481527501962235533317912654);
    lemma_pm_double(7, 1862573261004007010670584587186428814486732696346673879752424nat, m);
    assert(pm(7, 3725146522008014021341169174372857628973465392693347759504848nat, m) == 31601259288146208766746347812396678613946769761794055195773082188500253860188);
    lemma_pm_double(7, 3725146522008014021341169174372857628973465392693347759504848nat, m);
    assert(pm(7, 7450293044016028042682338348745715257946930785386695519009696nat, m) == 46273313709437014648413289391807937962952799719825158890547690338075089240771);
    lemma_pm_double(7, 7450293044016028042682338348745715257946930785386695519009696nat, m);
    assert(pm(7, 14900586088032056085364676697491430515893861570773391038019392nat, m) == 6880788834541625622407344369519822298532229105510118149562478352710511626813);
    lemma_pm_double(7, 14900586088032056085364676697491430515893861570773391038019392nat, m);
    assert(pm(7, 29801172176064112170729353394982861031787723141546782076038784nat, m) == 31841770058828358160169839865970901648834604373790184375254927781121339663804);
    lemma_pm_double(7, 29801172176064112170729353394982861031787723141546782076038784nat, m);
    assert(pm(7, 59602344352128224341458706789965722063575446283093564152077568nat, m) == 36701027123823182183695092704385742887293974217317746241979014964811679264904);
    lemma_pm_double(7, 59602344352128224341458706789965722063575446283093564152077568nat, m);
    assert(pm(7, 119204688704256448682917413579931444127150892566187128304155136nat, m) == 51636501576895553661935153761963385641749105021597907346688671361483896157185);
    lemma_pm_double(7, 119204688704256448682917413579931444127150892566187128304155136nat, m);
    assert(pm(7, 238409377408512897365834827159862888254301785132374256608310272nat, m) == 6960469480319255268653930681649457722719494962223005006541636136464674749471);
    lemma_pm_double(7, 238409377408512897365834827159862888254301785132374256608310272nat, m);
    assert(pm(7, 476818754817025794731669654319725776508603570264748513216620544nat, m) == 2716211028056319918892534913596565152483903332358017898717668274156390873101);
    lemma_pm_double(7, 476818754817025794731669654319725776508603570264748513216620544nat, m);
    assert(pm(7, 953637509634051589463339308639451553017207140529497026433241088nat, m) == 22636982716344502202651056432906232960823016276892656191190880416672075339751);
    lemma_pm_double(7, 953637509634051589463339308639451553017207140529497026433241088nat, m);
    assert(pm(7, 1907275019268103178926678617278903106034414281058994052866482176nat, m) == 49497415671883965113153698774145954984483571991910725763236917451491518916957);
    lemma_pm_double(7, 1907275019268103178926678617278903106034414281058994052866482176nat, m);
    assert(pm(7, 3814550038536206357853357234557806212068828562117988105732964352nat, m) == 36815930574941259488495965991984437195513048106561336598104440406471110961758);
    lemma_pm_double(7, 3814550038536206357853357234557806212068828562117988105732964352nat, m);
    assert(pm(7, 7629100077072412715706714469115612424137657124235976211465928704nat, m) == 2687654398787033862886142705286656749088024058772650297766803615942877630806);
    lemma_pm_double(7, 7629100077072412715706714469115612424137657124235976211465928704nat, m);
    assert(pm(7, 15258200154144825431413428938231224848275314248471952422931857408nat, m) == 51733629964366149437661049001473202201064711175602896992167551233761800820039);
    lemma_pm_double(7, 15258200154144825431413428938231224848275314248471952422931857408nat, m);
    assert(pm(7, 30516400308289650862826857876462449696550628496943904845863714816nat, m) == 44405030269439019842471100806664542434334940297537694732278987017137427310058);
    lemma_pm_double(7, 30516400308289650862826857876462449696550628496943904845863714816nat, m);
    assert(pm(7, 61032800616579301725653715752924899393101256993887809691727429632nat, m) == 10747736106667444948722228070109557449035854513665901355948949552201963034870);
    lemma_pm_double(7, 61032800616579301725653715752924899393101256993887809691727429632nat, m);
    assert(pm(7, 122065601233158603451307431505849798786202513987775619383454859264nat, m) == 28603605964302878255857375052439585958858645659080649956483579166372983407315);
    lemma_pm_double(7, 122065601233158603451307431505849798786202513987775619383454859264nat, m);
    assert(pm(7, 244131202466317206902614863011699597572405027975551238766909718528nat, m) == 21108540188642049294334163569179422423325958179227012525318917780240312160609);
    lemma_pm_double(7, 244131202466317206902614863011699597572405027975551238766909718528nat, m);
    assert(pm(7, 488262404932634413805229726023399195144810055951102477533819437056nat, m) == 4242745963119143218906012467360038316321884396357127778937462842735177159656);
    lemma_pm_double(7, 488262404932634413805229726023399195144810055951102477533819437056nat, m);
    assert(pm(7, 976524809865268827610459452046798390289620111902204955067638874112nat, m) == 50155477920034820062004238680782911202962605825203030020552982338139697457083);
    lemma_pm_double(7, 976524809865268827610459452046798390289620111902204955067638874112nat, m);
    assert(pm(7, 1953049619730537655220918904093596780579240223804409910135277748224nat, m) == 23508088227827627981721891159492002564947015405606116099165039152056010163230);
    lemma_pm_double(7, 1953049619730537655220918904093596780579240223804409910135277748224nat, m);
    assert(pm(7, 3906099239461075310441837808187193561158480447608819820270555496448nat, m) == 7849464005793564196327186249897222859245737491733969482828078659431981978600);
    lemma_pm_double(7, 3906099239461075310441837808187193561158480447608819820270555496448nat, m);
    assert(pm(7, 7812198478922150620883675616374387122316960895217639640541110992896nat, m) == 40732692080999279037916348250727472696766834517657827616764525012093914820418);
    lemma_pm_double(7, 7812198478922150620883675616374387122316960895217639640541110992896nat, m);
    assert(pm(7, 15624396957844301241767351232748774244633921790435279281082221985792nat, m) == 44549056115405320769504674750509942160330424750179756311261625898161486886004);
    lemma_pm_double(7, 15624396957844301241767351232748774244633921790435279281082221985792nat, m);
    assert(pm(7, 31248793915688602483534702465497548489267843580870558562164443971584nat, m) == 42258370029709322664317088247067370243966977509619774273105534269402644666340);
    lemma_pm_double(7, 31248793915688602483534702465497548489267843580870558562164443971584nat, m);
    assert(pm(7, 62497587831377204967069404930995096978535687161741117124328887943168nat, m) == 18109721104039116366318138576442738593204241154554551269672464332303407282000);
    lemma_pm_double(7, 62497587831377204967069404930995096978535687161741117124328887943168nat, m);
    assert(pm(7, 124995175662754409934138809861990193957071374323482234248657775886336nat, m) == 37466122312203068132531290866436792488147103534920184029711854272137790918759);
    lemma_pm_double(7, 124995175662754409934138809861990193957071374323482234248657775886336nat, m);
    assert(pm(7, 249990351325508819868277619723980387914142748646964468497315551772672nat, m) == 38420424043097866186591319696548417960141810582787146853409541154798133687560);
    lemma_pm_double(7, 249990351325508819868277619723980387914142748646964468497315551772672nat, m);
    assert(pm(7, 499980702651017639736555239447960775828285497293928936994631103545344nat, m) == 47758923738718878210001593810091747939268927539984154475431261725382179320327);
    lemma_pm_double(7, 499980702651017639736555239447960775828285497293928936994631103545344nat, m);
    assert(pm(7, 999961405302035279473110478895921551656570994587857873989262207090688nat, m) == 28145752697189822412174329949576985284591506457805936680525074633201440824164);
}

/// `7^205824363591567193241718168805002771125288949563767528806397073424384 mod 52435875175126190479447740508185965837690552500527637822603658699938581184513`.
proof fn lemma_pow_52435875175126190479447740508185965837690552500527637822603658699938581184513_by_254760293()
    ensures
        pm(7, 205824363591567193241718168805002771125288949563767528806397073424384nat, fr_modulus() as int) == 33687332884818246042130531625579405929702965388080887080561063062884226819407,
{
    let m: int = fr_modulus() as int;
    lemma_pm_one(7, m);
    lemma_pm_double(7, 1nat, m);
    assert(pm(7, 2nat, m) == 49);
    lemma_pm_succ(7, 2nat, m);
    assert(pm(7, 3nat, m) == 343);
    lemma_pm_double(7, 3nat, m);
    assert(pm(7, 6nat, m) == 117649);
    lemma_pm_succ(7, 6nat, m);
    assert(pm(7, 7nat, m) == 823543);
    lemma_pm_double(7, 7nat, m);
    assert(pm(7, 14nat, m) == 678223072849);
    lemma_pm_succ(7, 14nat, m);
    assert(pm(7, 15nat, m) == 4747561509943);
    lemma_pm_double(7, 15nat, m);
    assert(pm(7, 30nat, m) == 22539340290692258087863249);
    lemma_pm_double(7, 30nat, m);
    assert(pm(7, 60nat, m) == 508021860739623365322188197652216501772434524836001);
    lemma_pm_succ(7, 60nat, m);
    assert(pm(7, 61nat, m) == 3556153025177363557255317383565515512407041673852007);
    lemma_pm_double(7, 61nat, m);
    assert(pm(7, 122nat, m) == 49725386197816015422920504974654025674771489253115740477843940119274812823028);
    lemma_pm_double(7, 122nat, m);
    assert(pm(7, 244nat, m) == 5737662677202401557743835956213640436441277178128601579674570577325592611255);
    lemma_pm_double(7, 244nat, m);
    assert(pm(7, 488nat, m) == 9109296177507064594894646705597638880049092880215836748061225907952023049213);
    lemma_pm_double(7, 488nat, m);
    assert(pm(7, 976nat, m) == 18766733099331298049723070564366839519594776121778719207880678197462158033273);
    lemma_pm_succ(7, 976nat, m);
    assert(pm(7, 977nat, m) == 26495381345066705389166012934195944961782327851395758809957429982357943863885);
    lemma_pm_double(7, 977nat, m);
    assert(pm(7, 1954nat, m) == 37120945338165774274601948809231274115284930484490199923771976130567659051448);
    lemma_pm_double(7, 1954nat, m);
    assert(pm(7, 3908nat, m) == 24398272194626835318099930394495475027064327623488033668367055887075536602851);
    lemma_pm_double(7, 3908nat, m);
    assert(pm(7, 7816nat, m) == 51505551618791922061800467145028926140485589536808560687422353694703012033029);
    lemma_pm_succ(7, 7816nat, m);
    assert(pm(7, 7817nat, m) == 45923610280786311555916826966086687957255811754494097876334523663289597124125);
    lemma_pm_double(7, 7817nat, m);
    assert(pm(7, 15634nat, m) == 38156437614257499768835284670183307817640609632112043957060893533518411759436);
    lemma_pm_succ(7, 15634nat, m);
    assert(pm(7, 15635nat, m) == 4915687424171545984608290150353325535031504922146118586407961234935976393487);
    lemma_pm_double(7, 15635nat, m);
    assert(pm(7, 31270nat, m) == 27178852719600043897260071164995146269800164126897130764546933627626728243702);
    lemma_pm_double(7, 31270nat, m);
    assert(pm(7, 62540nat, m) == 37736235509654847132674211444181084694901136920551283968914439338710546236990);
    lemma_pm_succ(7, 62540nat, m);
    assert(pm(7, 62541nat, m) == 1974272691952977531480777568337763675855195941220798669382781871280917736365);
    lemma_pm_double(7, 62541nat, m);
    assert(pm(7, 125082nat, m) == 5061938241379475636880460053856829782363180618275643463551851726998594747252);
    lemma_pm_double(7, 125082nat, m);
    assert(pm(7, 250164nat, m) == 14340934232446822695251153891514976163001731554713608143914383520358817820000);
    lemma_pm_succ(7, 250164nat, m);
    assert(pm(7, 250165nat, m) == 47950664452001568387310336732418867303321568382467619184797025942573143555487);
    lemma_pm_double(7, 250165nat, m);
    assert(pm(7, 500330nat, m) == 17615102486383117883495165266130035579652698657545318730615181359524940173309);
    lemma_pm_succ(7, 500330nat, m);
    assert(pm(7, 500331nat, m) == 18433967054429444225570675846538317382187785601761955469098952116797418844137);
    lemma_pm_double(7, 500331nat, m);
    assert(pm(7, 1000662nat, m) == 31455042107112448501802089746532811372943302771123658324545180448584011291989);
    lemma_pm_double(7, 1000662nat, m);
    assert(pm(7, 2001324nat, m) == 32644679618486174927134287897353803640281928734507529994678587619324830208658);
    lemma_pm_succ(7, 2001324nat, m);
    assert(pm(7, 2001325nat, m) == 18769256628898462572149053248732762131211291139442158672335478535519486722554);
    lemma_pm_double(7, 2001325nat, m);
    assert(pm(7, 4002650nat, m) == 33398801093147293460328664433408175938985417212543336147626950671444068865496);
    lemma_pm_double(7, 4002650nat, m);
    assert(pm(7, 8005300nat, m) == 41291489876078154710964756208984789904969863916478831696249260856578694707808);
    lemma_pm_double(7, 8005300nat, m);
    assert(pm(7, 16010600nat, m) == 28494788488501710516501298580992488270544692609809822035364680205346767712251);
    lemma_pm_succ(7, 16010600nat, m);
    assert(pm(7, 16010601nat, m) == 42155893894133402177165868542389520380741190767085840779741785337611630432218);
    lemma_pm_double(7, 16010601nat, m);
    assert(pm(7, 32021202nat, m) == 39795640406401380575896627421857550576111877407167800530010375660273824570852);
    lemma_pm_succ(7, 32021202nat, m);
    assert(pm(7, 32021203nat, m) == 16390106969178711634037689412073024844330379347536414597054336122223866073399);
    lemma_pm_double(7, 32021203nat, m);
    assert(pm(7, 64042406nat, m) == 9069001933913647619303419785051507765900381786995310888909955267319423002095);
    lemma_pm_succ(7, 64042406nat, m);
    assert(pm(7, 64042407nat, m) == 11047138362269342855676197987174588523612120008439538399766028171297379830152);
    lemma_pm_double(7, 64042407nat, m);
    assert(pm(7, 128084814nat, m) == 10786359758678595025692277071878031957829284371932503499735304997256658209182);
    lemma_pm_succ(7, 128084814nat, m);
    assert(pm(7, 128084815nat, m) == 23068643135623974700398198994960257867114438102999886675543476280858026279761);
    lemma_pm_double(7, 128084815nat, m);
    assert(pm(7, 256169630nat, m) == 34856359652689782129928445066127065155243711584493301593247255589760721467997);
    lemma_pm_succ(7, 256169630nat, m);
    assert(pm(7, 256169631nat, m) == 34251016868323712991708153430145592735943771089342559862316154328570725537927);
    lemma_pm_double(7, 256169631nat, m);
    assert(pm(7, 512339262nat, m) == 12277715460677162348408546430741435765773490617317236371932351209188097325248);
    lemma_pm_succ(7, 512339262nat, m);
    assert(pm(7, 512339263nat, m) == 33508133049613945959412084507004084522723881820693016780922799764378100092223);
    lemma_pm_double(7, 512339263nat, m);
    assert(pm(7, 1024678526nat, m) == 14011050920077593737875579186433299051071438198087088198133656673454217067163);
    lemma_pm_succ(7, 1024678526nat, m);
    assert(pm(7, 1024678527nat, m) == 45641481265416965685681313796847127519809514886081979564331938014240938285628);
    lemma_pm_double(7, 1024678527nat, m);
    assert(pm(7, 2049357054nat, m) == 37405460325957557551363006973270399100966263908358517894835937015598463173899);
    lemma_pm_double(7, 2049357054nat, m);
    assert(pm(7, 4098714108nat, m) == 2576042921511293316801940821795293533403029895481644769796192439944852983529);
    lemma_pm_succ(7, 4098714108nat, m);
    assert(pm(7, 4098714109nat, m) == 18032300450579053217613585752567054733821209268371513388573347079613970884703);
    lemma_pm_double(7, 4098714109nat, m);
    assert(pm(7, 8197428218nat, m) == 20049598627915897529788913348533044027989833827107636710213788158979713552988);
    lemma_pm_double(7, 8197428218nat, m);
    assert(pm(7, 16394856436nat, m) == 1999132624137215391563322625595365011348388792633291820005472884980571999997);
    lemma_pm_succ(7, 16394856436nat, m);
    assert(pm(7, 16394856437nat, m) == 13993928368960507740943258379167555079438721548433042740038310194864003999979);
    lemma_pm_double(7, 16394856437nat, m);
    assert(pm(7, 32789712874nat, m) == 25754530125858039430370752421005865749926686679397790319699950122008157001428);
    lemma_pm_succ(7, 32789712874nat, m);
    assert(pm(7, 32789712875nat, m) == 22974085355627704574252045422483162736415149254201618770088674754241355456457);
    lemma_pm_double(7, 32789712875nat, m);
    assert(pm(7, 65579425750nat, m) == 43251647906300225874417248603701327245345017358479835378432019953502256199116);
    lemma_pm_double(7, 65579425750nat, m);
    assert(pm(7, 131158851500nat, m) == 48844610595773848943326258390706506040614698863195616540364081036629887631484);
    lemma_pm_double(7, 131158851500nat, m);
    assert(pm(7, 262317703000nat, m) == 11123791277801628600037019342106380861528689124321657174165165873827817398615);
    lemma_pm_succ(7, 262317703000nat, m);
    assert(pm(7, 262317703001nat, m) == 25430663769485209720811394886558700193010271369723962396552502416856140605792);
    lemma_pm_double(7, 262317703001nat, m);
    assert(pm(7, 524635406002nat, m) == 50296887451506155853171501271521284958629946436997801150277756264170180835766);
    lemma_pm_double(7, 524635406002nat, m);
    assert(pm(7, 1049270812004nat, m) == 27525917956315309581183707696580461030837867906581160176380910255602994197396);
    lemma_pm_succ(7, 1049270812004nat, m);
    assert(pm(7, 1049270812005nat, m) == 35373800168828595629942732351505329702793417844485207766855395689405215828233);
    lemma_pm_double(7, 1049270812005nat, m);
    assert(pm(7, 2098541624010nat, m) == 2029857484614461847378815032978224713902779947884046858828511803149833666056);
    lemma_pm_double(7, 2098541624010nat, m);
    assert(pm(7, 4197083248020nat, m) == 20302139458180803489354417888196175565471231402287856318550670202456980094919);
    lemma_pm_succ(7, 4197083248020nat, m);
    assert(pm(7, 4197083248021nat, m) == 37243225857013243466585444201001297282917514814959718584647374017321698295407);
    lemma_pm_double(7, 4197083248021nat, m);
    assert(pm(7, 8394166496042nat, m) == 13251950763739337286054450203214645705335056977067156141430093446439910103861);
    lemma_pm_succ(7, 8394166496042nat, m);
    assert(pm(7, 8394166496043nat, m) == 40327780171049170522933410914316554099654846338942455167406995425140789542514);
    lemma_pm_double(7, 8394166496043nat, m);
    assert(pm(7, 16788332992086nat, m) == 41746526611466659822815118229527318819928808186069188950121060646473650548668);
    lemma_pm_succ(7, 16788332992086nat, m);
    assert(pm(7, 16788332992087nat, m) == 30046310404635666362467125065761402551048894799846133537829131025622647918111);
    lemma_pm_double(7, 16788332992087nat, m);
    assert(pm(7, 33576665984174nat, m) == 39992414719638159870299517815626863020592505398898866249204425657879792536202);
    lemma_pm_succ(7, 33576665984174nat, m);
    assert(pm(7, 33576665984175nat, m) == 17767527161836166694857922168458211955694775289653874631412686105465641830849);
    lemma_pm_double(7, 33576665984175nat, m);
    assert(pm(7, 67153331968350nat, m) == 20212593089657504982370792809052489809685992102899622989348198003876122694983);
    lemma_pm_double(7, 67153331968350nat, m);
    assert(pm(7, 134306663936700nat, m) == 23774186244038979367774308088960000883526715527146834416533263255301135222583);
    lemma_pm_double(7, 134306663936700nat, m);
    assert(pm(7, 268613327873400nat, m) == 22320735577337215407086214905044087650010516458441162419963855914408012451638);
    lemma_pm_succ(7, 268613327873400nat, m);
    assert(pm(7, 268613327873401nat, m) == 51373398691108126890708023318936681874692510208032861294539674000978924792440);
    lemma_pm_double(7, 268613327873401nat, m);
    assert(pm(7, 537226655746802nat, m) == 19970299493429461145513718573742463649155832405379426887972059596911070772684);
    lemma_pm_double(7, 537226655746802nat, m);
    assert(pm(7, 1074453311493604nat, m) == 34659509867994400263071948425333663193676343134201599788020891250722808941215);
    lemma_pm_double(7, 1074453311493604nat, m);
    assert(pm(7, 2148906622987208nat, m) == 12556813077167515710969551561750140553930823901666429599252791046859415167289);
    lemma_pm_succ(7, 2148906622987208nat, m);
    assert(pm(7, 2148906622987209nat, m) == 35461816365046419497339120424065018039825214811137369372165878628077324986510);
    lemma_pm_double(7, 2148906622987209nat, m);
    assert(pm(7, 4297813245974418nat, m) == 32974487467710900298063809891669819148318974505877294073417650368227022546729);
    lemma_pm_succ(7, 4297813245974418nat, m);
    assert(pm(7, 4297813245974419nat, m) == 21077911573471540168655707208944870687470611539030507223508917777834833089051);
    lemma_pm_double(7, 4297813245974419nat, m);
    assert(pm(7, 8595626491948838nat, m) == 21678422010346867594996381528226598998233309515898517152962373869303839943371);
    lemma_pm_succ(7, 8595626491948838nat, m);
    assert(pm(7, 8595626491948839nat, m) == 46877203722175692206079189681214261312252061610234344425529299685249717234571);
    lemma_pm_double(7, 8595626491948839nat, m);
    assert(pm(7, 17191252983897678nat, m) == 2419693159689233762616329152569882853069284708731898072944133799994111866011);
    lemma_pm_succ(7, 17191252983897678nat, m);
    assert(pm(7, 17191252983897679nat, m) == 16937852117824636338314304067989179971484992961123286510608936599958783062077);
    lemma_pm_double(7, 17191252983897679nat, m);
    assert(pm(7, 34382505967795358nat, m) == 15727728212728153587563824340126265087046514213738012454621549657246254173092);
    lemma_pm_succ(7, 34382505967795358nat, m);
    assert(pm(7, 34382505967795359nat, m) == 5222347138844694154051289364511923933944494495110811537143530200846616842618);
    lemma_pm_double(7, 34382505967795359nat, m);
    assert(pm(7, 68765011935590718nat, m) == 40931267653754647851113559691668835629382775687229377489088974289497030470745);
    lemma_pm_succ(7, 68765011935590718nat, m);
    assert(pm(7, 68765011935590719nat, m) == 24339497700651582560556215300752020217226667307967453310604526526786307372650);
    lemma_pm_double(7, 68765011935590719nat, m);
    assert(pm(7, 137530023871181438nat, m) == 36865539799043009037281172060662004773974571902743870051984316469131565957754);
    lemma_pm_succ(7, 137530023871181438nat, m);
    assert(pm(7, 137530023871181439nat, m) == 48315277892796301343177242391890170067059793317096539073475580484166636966226);
    lemma_pm_double(7, 137530023871181439nat, m);
    assert(pm(7, 275060047742362878nat, m) == 24225930697757543426319225428326860765488036232869146913023554411991198020768);
    lemma_pm_double(7, 275060047742362878nat, m);
    assert(pm(7, 550120095484725756nat, m) == 18678991273733481202821811874321692621344923071616026079665122707288193047172);
    lemma_pm_succ(7, 550120095484725756nat, m);
    assert(pm(7, 550120095484725757nat, m) == 25881188565881987460857202103879916674033356500256906912448541551140188961178);
    lemma_pm_double(7, 550120095484725757nat, m);
    assert(pm(7, 1100240190969451514nat, m) == 9626868178517532115766030608742885802903996230926256458997459234408293609619);
    lemma_pm_succ(7, 1100240190969451514nat, m);
    assert(pm(7, 1100240190969451515nat, m) == 14952202074496534330914473753014234782637421115956157390378555940919474082820);
    lemma_pm_double(7, 1100240190969451515nat, m);
    assert(pm(7, 2200480381938903030nat, m) == 51866794286155021987596151095748267244455414172589560745342561598366800075655);
    lemma_pm_succ(7, 2200480381938903030nat, m);
    assert(pm(7, 2200480381938903031nat, m) == 48452308952328011036486614621122075685044584204961098281775978988936113422507);
    lemma_pm_double(7, 2200480381938903031nat, m);
    assert(pm(7, 4400960763877806062nat, m) == 39614393773598417653085514817151364105822144760240317011782523099471992629675);
    lemma_pm_succ(7, 4400960763877806062nat, m);
    assert(pm(7, 4400960763877806063nat, m) == 15121380539557971174359901179129719552302250819044029969459368196611042485160);
    lemma_pm_double(7, 4400960763877806063nat, m);
    assert(pm(7, 8801921527755612126nat, m) == 35243673124137810760772134705488394757313480662727922056636083956090712071335);
    lemma_pm_double(7, 8801921527755612126nat, m);
    assert(pm(7, 17603843055511224252nat, m) == 48639322428983595690859372178514016884934177243370796027480963037166760563884);
    lemma_pm_double(7, 17603843055511224252nat, m);
    assert(pm(7, 35207686111022448504nat, m) == 24988123289270115746724366705942423304956724529996141538886360855759431479172);
    lemma_pm_double(7, 35207686111022448504nat, m);
    assert(pm(7, 70415372222044897008nat, m) == 1788461751470750287416361055036865580456427114070064916339307398790197956544);
    lemma_pm_succ(7, 70415372222044897008nat, m);
    assert(pm(7, 70415372222044897009nat, m) == 12519232260295252011914527385258059063194989798490454414375151791531385695808);
    lemma_pm_double(7, 70415372222044897009nat, m);
    assert(pm(7, 140830744444089794018nat, m) == 31632822073611886656390564178027752486569856365717858459224197243763915666813);
    lemma_pm_double(7, 140830744444089794018nat, m);
    assert(pm(7, 281661488888179588036nat, m) == 23638347834449352381157160285311376685111136607237521814112686619046913955273);
    lemma_pm_double(7, 281661488888179588036nat, m);
    assert(pm(7, 563322977776359176072nat, m) == 46140250609822459143183724867705640406682178743114313817032779769664166812327);
    lemma_pm_double(7, 563322977776359176072nat, m);
    assert(pm(7, 1126645955552718352144nat, m) == 34330671492847825899680958280132154763622885497032815366248771073865500042286);
    lemma_pm_double(7, 1126645955552718352144nat, m);
    assert(pm(7, 2253291911105436704288nat, m) == 51053065025507941863578243316242027573074706327660798046101217984004627456147);
    lemma_pm_double(7, 2253291911105436704288nat, m);
    assert(pm(7, 4506583822210873408576nat, m) == 33105265629884577487657975777604386163671672139275839603573709728798894338645);
    lemma_pm_succ(7, 4506583822210873408576nat, m);
    assert(pm(7, 4506583822210873408577nat, m) == 21993358708687280495814868410486839794939494972820325934601333301837935632463);
    lemma_pm_double(7, 4506583822210873408577nat, m);
    assert(pm(7, 9013167644421746817154nat, m) == 22854264664377602854065648357909156829319971153198570577648763824814789501455);
    lemma_pm_succ(7, 9013167644421746817154nat, m);
    assert(pm(7, 9013167644421746817155nat, m) == 2672227125264648540116316980806200292168140570807080575730370673887782956646);
    lemma_pm_double(7, 9013167644421746817155nat, m);
    assert(pm(7, 18026335288843493634310nat, m) == 15431870683175228144823906967234340346452960316296557761440008162059739678887);
    lemma_pm_double(7, 18026335288843493634310nat, m);
    assert(pm(7, 36052670577686987268620nat, m) == 117922408272753205043199836600129684124794441679647270862758301471388893891);
    lemma_pm_double(7, 36052670577686987268620nat, m);
    assert(pm(7, 72105341155373974537240nat, m) == 35733491687859196971398410929337789887532748084215999176399631553855385170862);
    lemma_pm_succ(7, 72105341155373974537240nat, m);
    assert(pm(7, 72105341155373974537241nat, m) == 40390941114509616881997914472620665861967026587401442944382786077233371457982);
    lemma_pm_double(7, 72105341155373974537241nat, m);
    assert(pm(7, 144210682310747949074482nat, m) == 34015802376064534136932566623026493153441309851549984712085116243934035669961);
    lemma_pm_double(7, 144210682310747949074482nat, m);
    assert(pm(7, 288421364621495898148964nat, m) == 17547196941010152641281219068870632210245217212960150540911053209298988096130);
    lemma_pm_double(7, 288421364621495898148964nat, m);
    assert(pm(7, 576842729242991796297928nat, m) == 20259156384777077237114942559628521504884004029213907395605226560427048790105);
    lemma_pm_double(7, 576842729242991796297928nat, m);
    assert(pm(7, 1153685458485983592595856nat, m) == 38465529355037259669079300800713968182308318964093865165693373147343506437505);
    lemma_pm_succ(7, 1153685458485983592595856nat, m);
    assert(pm(7, 1153685458485983592595857nat, m) == 7079329609629865286316403064067948087705470246018867046835318531711639139970);
    lemma_pm_double(7, 1153685458485983592595857nat, m);
    assert(pm(7, 2307370916971967185191714nat, m) == 27260796165435676709959166914625731223434210505388926210405044612753181028345);
    lemma_pm_succ(7, 2307370916971967185191714nat, m);
    assert(pm(7, 2307370916971967185191715nat, m) == 33517947632671165531370946877822221050967816036139570005024336189456523644876);
    lemma_pm_double(7, 2307370916971967185191715nat, m);
    assert(pm(7, 4614741833943934370383430nat, m) == 27346785062381147830821648919581582465288044747746908178254575757888419535016);
    lemma_pm_double(7, 4614741833943934370383430nat, m);
    assert(pm(7, 9229483667887868740766860nat, m) == 646034821924943952943704372176162241783916096778224776179573600461859122134);
    lemma_pm_succ(7, 9229483667887868740766860nat, m);
    assert(pm(7, 9229483667887868740766861nat, m) == 4522243753474607670605930605233135692487412677447573433257015203233013854938);
    lemma_pm_double(7, 9229483667887868740766861nat, m);
    assert(pm(7, 18458967335775737481533722nat, m) == 15817743700015690985350487800347464095159211884220796249206207589977064854473);
    lemma_pm_succ(7, 18458967335775737481533722nat, m);
    assert(pm(7, 18458967335775737481533723nat, m) == 5852455549857455938557933586060316990733378188490298099236135729962291612285);
    lemma_pm_double(7, 18458967335775737481533723nat, m);
    assert(pm(7, 36917934671551474963067446nat, m) == 43051663597423829844236237099028078536395176566510392744088383410636152466473);
    lemma_pm_succ(7, 36917934671551474963067446nat, m);
    assert(pm(7, 36917934671551474963067447nat, m) == 39182269306335856512414957152266720566313473462934560095600390374760161342746);
    lemma_pm_double(7, 36917934671551474963067447nat, m);
    assert(pm(7, 73835869343102949926134894nat, m) == 15932576458350396119611979101445748362375487954318347733925735125787875891107);
    lemma_pm_succ(7, 73835869343102949926134894nat, m);
    assert(pm(7, 73835869343102949926134895nat, m) == 6656284858200391878388372693748306861247310679173158492272828480637968868723);
    lemma_pm_double(7, 73835869343102949926134895nat, m);
    assert(pm(7, 147671738686205899852269790nat, m) == 3321888399987280725730387666976392062749942681722821247595801477743141797931);
    lemma_pm_succ(7, 147671738686205899852269790nat, m);
    assert(pm(7, 147671738686205899852269791nat, m) == 23253218799910965080112713668834744439249598772059748733170610344201992585517);
    lemma_pm_double(7, 147671738686205899852269791nat, m);
    assert(pm(7, 295343477372411799704539582nat, m) == 49779598054628572780865943112790759480998404668610642586241879350536039482006);
    lemma_pm_succ(7, 295343477372411799704539582nat, m);
    assert(pm(7, 295343477372411799704539583nat, m) == 33841935331642866589375158740419521340845517677108671168071203254120789266964);
    lemma_pm_double(7, 295343477372411799704539583nat, m);
    assert(pm(7, 590686954744823599409079166nat, m) == 9343358754954345971493411587059190345609177182588570931760948726587836866964);
    lemma_pm_double(7, 590686954744823599409079166nat, m);
    assert(pm(7, 1181373909489647198818158332nat, m) == 30197166944760577116830051380141161068245530117320133271345481772431683686725);
    lemma_pm_double(7, 1181373909489647198818158332nat, m);
    assert(pm(7, 2362747818979294397636316664nat, m) == 33398077264147615733250002611549044432516778373382164566290138388004563210140);
    lemma_pm_succ(7, 2362747818979294397636316664nat, m);
    assert(pm(7, 2362747818979294397636316665nat, m) == 24043040148528548214959056248099447676855238611564600673616333916277617732928);
    lemma_pm_double(7, 2362747818979294397636316665nat, m);
    assert(pm(7, 4725495637958588795272633330nat, m) == 14766734579851420629583063833524982461886887470789737558793902307559510429541);
    lemma_pm_double(7, 4725495637958588795272633330nat, m);
    assert(pm(7, 9450991275917177590545266660nat, m) == 33659517977993481039149041164509035200533930728915417737986108630706199987809);
    lemma_pm_succ(7, 9450991275917177590545266660nat, m);
    assert(pm(7, 9450991275917177590545266661nat, m) == 25873125145449605356252326118819383052975305100297372875488125615189075176611);
    lemma_pm_double(7, 9450991275917177590545266661nat, m);
    assert(pm(7, 18901982551834355181090533322nat, m) == 21518066278887473513979784387878412002568715871121644785531987194016448307243);
    lemma_pm_succ(7, 18901982551834355181090533322nat, m);
    assert(pm(7, 18901982551834355181090533323nat, m) == 45754713601959933638963009698776952342599906096796237853516592958237975781675);
    lemma_pm_double(7, 18901982551834355181090533323nat, m);
    assert(pm(7, 37803965103668710362181066646nat, m) == 38610025518602779677003262556099276861206897353975421616353478372748248623864);
    lemma_pm_double(7, 37803965103668710362181066646nat, m);
    assert(pm(7, 75607930207337420724362133292nat, m) == 40311821869114117112285942144575939858723094118221851714114317709440232472284);
    lemma_pm_succ(7, 75607930207337420724362133292nat, m);
    assert(pm(7, 75607930207337420724362133293nat, m) == 20003377208167867388762892471101749822608896324914772885781930466388721383423);
    lemma_pm_double(7, 75607930207337420724362133293nat, m);
    assert(pm(7, 151215860414674841448724266586nat, m) == 26707209853624439761106342853100836845525450955942601540310449994277621885409);
    lemma_pm_double(7, 151215860414674841448724266586nat, m);
    assert(pm(7, 302431720829349682897448533172nat, m) == 20656088136570974690770538328292294740810654473154139412397430758344576520758);
    lemma_pm_double(7, 302431720829349682897448533172nat, m);
    assert(pm(7, 604863441658699365794897066344nat, m) == 5156187770283521482569397676819618986987503967819789974401555378644331991818);
    lemma_pm_succ(7, 604863441658699365794897066344nat, m);
    assert(pm(7, 604863441658699365794897066345nat, m) == 36093314391984650377985783737737332908912527774738529820810887650510323942726);
    lemma_pm_double(7, 604863441658699365794897066345nat, m);
    assert(pm(7, 1209726883317398731589794132690nat, m) == 7625220081343197182723922544081217250161072138720394429602527586591489342664);
    lemma_pm_double(7, 1209726883317398731589794132690nat, m);
    assert(pm(7, 2419453766634797463179588265380nat, m) == 11356691585757768919379714786108138396989048819741818806908382687900545571272);
    lemma_pm_double(7, 2419453766634797463179588265380nat, m);
    assert(pm(7, 4838907533269594926359176530760nat, m) == 50553246916061994281437350215274198377119210439789179049186101973141111431169);
    lemma_pm_double(7, 4838907533269594926359176530760nat, m);
    assert(pm(7, 9677815066539189852718353061520nat, m) == 41633800186375915546685940753714108986202877949448069721521279458147265977703);
    lemma_pm_double(7, 9677815066539189852718353061520nat, m);
    assert(pm(7, 19355630133078379705436706123040nat, m) == 12357186526010670735082640243915231986042769771332206841900209037875803045381);
    lemma_pm_succ(7, 19355630133078379705436706123040nat, m);
    assert(pm(7, 19355630133078379705436706123041nat, m) == 34064430506948504666130741199220658064608835898797810070697804565192040133154);
    lemma_pm_double(7, 19355630133078379705436706123041nat, m);
    assert(pm(7, 38711260266156759410873412246082nat, m) == 28072221669047747585020761097395890252935811653934975267363938685484476309452);
    lemma_pm_double(7, 38711260266156759410873412246082nat, m);
    assert(pm(7, 77422520532313518821746824492164nat, m) == 27445618142934330876447161377699782850627049961661969740495798719620239050260);
    lemma_pm_double(7, 77422520532313518821746824492164nat, m);
    assert(pm(7, 154845041064627037643493648984328nat, m) == 26195142839372646674860643890218351428452323928781334239559720288341231073755);
    lemma_pm_double(7, 154845041064627037643493648984328nat, m);
    assert(pm(7, 309690082129254075286987297968656nat, m) == 49201714306998990205704769769163952880622140682432834491297310988339950557941);
    lemma_pm_succ(7, 309690082129254075286987297968656nat, m);
    assert(pm(7, 309690082129254075286987297968657nat, m) == 29796749098235788563246945335031875138211669773864014503459224718748166798509);
    lemma_pm_double(7, 309690082129254075286987297968657nat, m);
    assert(pm(7, 619380164258508150573974595937314nat, m) == 8894319587439428464157430757850142749551071068891972351506480187445618513924);
    lemma_pm_succ(7, 619380164258508150573974595937314nat, m);
    assert(pm(7, 619380164258508150573974595937315nat, m) == 9824361936949808769654274796765033409166944981716168637941702612180748412955);
    lemma_pm_double(7, 619380164258508150573974595937315nat, m);
    assert(pm(7, 1238760328517016301147949191874630nat, m) == 13410256602587910673272496546213364897705090123495189222943330352536680894882);
    lemma_pm_succ(7, 1238760328517016301147949191874630nat, m);
    assert(pm(7, 1238760328517016301147949191874631nat, m) == 41435921042989184233459735315307588446245078363938686737999653767818185079661);
    lemma_pm_double(7, 1238760328517016301147949191874631nat, m);
    assert(pm(7, 2477520657034032602295898383749262nat, m) == 16014551348778003770011458693241810633077701591246652872434963743610807429967);
    lemma_pm_double(7, 2477520657034032602295898383749262nat, m);
    assert(pm(7, 4955041314068065204591796767498524nat, m) == 18755988252287803972838714247773939754635065300474835709159676350679228635827);
    lemma_pm_succ(7, 4955041314068065204591796767498524nat, m);
    assert(pm(7, 4955041314068065204591796767498525nat, m) == 26420167415762246850975518718045646607064352102268574318910417054877438081763);
    lemma_pm_double(7, 4955041314068065204591796767498525nat, m);
    assert(pm(7, 9910082628136130409183593534997050nat, m) == 38687271127314747439379532948420232035087421191610716024514031062255679955925);
    lemma_pm_succ(7, 9910082628136130409183593534997050nat, m);
    assert(pm(7, 9910082628136130409183593534997051nat, m) == 8631522015572279678418028098011795057159185838636823058579923936096853768910);
    lemma_pm_double(7, 9910082628136130409183593534997051nat, m);
    assert(pm(7, 19820165256272260818367187069994102nat, m) == 32524212970414804047857407737520121394233171703628533599704656202605261768237);
    lemma_pm_double(7, 19820165256272260818367187069994102nat, m);
    assert(pm(7, 39640330512544521636734374139988204nat, m) == 40713978191911905643087419338082729659364333267815641619840656456323433594330);
    lemma_pm_succ(7, 39640330512544521636734374139988204nat, m);
    assert(pm(7, 39640330512544521636734374139988205nat, m) == 22818471467752387104373232825649278427097570372071302225866301694571129237745);
    lemma_pm_double(7, 39640330512544521636734374139988205nat, m);
    assert(pm(7, 79280661025089043273468748279976410nat, m) == 19882285917179831418721479191568981363915139704884531104019921577033313094046);
    lemma_pm_succ(7, 79280661025089043273468748279976410nat, m);
    assert(pm(7, 79280661025089043273468748279976411nat, m) == 34304251070006438972154873324610937872024872933136442082932133639356029289296);
    lemma_pm_double(7, 79280661025089043273468748279976411nat, m);
    assert(pm(7, 158561322050178086546937496559952822nat, m) == 24641652283889651695369333797597072464545969068161242669736291022597546060738);
    lemma_pm_double(7, 158561322050178086546937496559952822nat, m);
    assert(pm(7, 317122644100356173093874993119905644nat, m) == 24963203860024915466492166090205967686778165573076829138925722910056027332199);
    lemma_pm_succ(7, 317122644100356173093874993119905644nat, m);
    assert(pm(7, 317122644100356173093874993119905645nat, m) == 17434801494795836827101941106883876294375501509954890504669084270576447771854);
    lemma_pm_double(7, 317122644100356173093874993119905645nat, m);
    assert(pm(7, 634245288200712346187749986239811290nat, m) == 12076122763378154575765175287065391190749086576925055425476283313220488493618);
    lemma_pm_succ(7, 634245288200712346187749986239811290nat, m);
    assert(pm(7, 634245288200712346187749986239811291nat, m) == 32096984168520891550908486501271772497553053537947750155730324492604838270813);
    lemma_pm_double(7, 634245288200712346187749986239811291nat, m);
    assert(pm(7, 1268490576401424692375499972479622582nat, m) == 20877617646736299855411803090871284304386271599802489731770556756947368411864);
    lemma_pm_succ(7, 1268490576401424692375499972479622582nat, m);
    assert(pm(7, 1268490576401424692375499972479622583nat, m) == 41271573176901718028987140619727058455322796197562152477186579898754416514022);
    lemma_pm_double(7, 1268490576401424692375499972479622583nat, m);
    assert(pm(7, 2536981152802849384750999944959245166nat, m) == 13631254764069125224497908902217930558130066670957821220838591901415983818211);
    lemma_pm_double(7, 2536981152802849384750999944959245166nat, m);
    assert(pm(7, 5073962305605698769501999889918490332nat, m) == 23798038514122633592530760137212566307143915597470120769763923454989545699856);
    lemma_pm_succ(7, 5073962305605698769501999889918490332nat, m);
    assert(pm(7, 5073962305605698769501999889918490333nat, m) == 9278644073479863709372099435930066636935751680707931920536488085111076345453);
    lemma_pm_double(7, 5073962305605698769501999889918490333nat, m);
    assert(pm(7, 10147924611211397539003999779836980666nat, m) == 5114564511915253583369228091202824702244958598869146554550465038982688946805);
    lemma_pm_succ(7, 10147924611211397539003999779836980666nat, m);
    assert(pm(7, 10147924611211397539003999779836980667nat, m) == 35801951583406775083584596638419772915714710192084025881853255272878822627635);
    lemma_pm_double(7, 10147924611211397539003999779836980667nat, m);
    assert(pm(7, 20295849222422795078007999559673961334nat, m) == 30471971193495090184327134755472733453359004088270748009866968587295927399944);
    lemma_pm_double(7, 20295849222422795078007999559673961334nat, m);
    assert(pm(7, 40591698444845590156015999119347922668nat, m) == 16517536027381363142509104267651962701916997698559664587784545889791528722124);
    lemma_pm_double(7, 40591698444845590156015999119347922668nat, m);
    assert(pm(7, 81183396889691180312031998238695845336nat, m) == 8486576710289854133320420505532415804674364174780796332363038051192326624217);
    lemma_pm_succ(7, 81183396889691180312031998238695845336nat, m);
    assert(pm(7, 81183396889691180312031998238695845337nat, m) == 6970161796902788453795203030540944795029996722937936503937607658407705185006);
    lemma_pm_double(7, 81183396889691180312031998238695845337nat, m);
    assert(pm(7, 162366793779382360624063996477391690674nat, m) == 17509194066737802693581346934821013399925935455985858938215531935645442107086);
    lemma_pm_succ(7, 162366793779382360624063996477391690674nat, m);
    assert(pm(7, 162366793779382360624063996477391690675nat, m) == 17692608116912237896173947527375162124100443190845736922301406149640932380576);
    lemma_pm_double(7, 162366793779382360624063996477391690675nat, m);
    assert(pm(7, 324733587558764721248127992954783381350nat, m) == 26990348809668548839614206547171600128362091908427921429652229513869645176032);
    lemma_pm_succ(7, 324733587558764721248127992954783381350nat, m);
    assert(pm(7, 324733587558764721248127992954783381351nat, m) == 31624816142301270438956224305643303385462985857412536539754630497271772678685);
    lemma_pm_double(7, 324733587558764721248127992954783381351nat, m);
    assert(pm(7, 649467175117529442496255985909566762702nat, m) == 1422949777719271349971743088473110936630116786768896223876569687947320597777);
    lemma_pm_double(7, 649467175117529442496255985909566762702nat, m);
    assert(pm(7, 1298934350235058884992511971819133525404nat, m) == 42157908835849618454216366389849973172741318286882981610763364278970774152889);
    lemma_pm_succ(7, 1298934350235058884992511971819133525404nat, m);
    assert(pm(7, 1298934350235058884992511971819133525405nat, m) == 32925985975316376782275862188019983020736465505542682162325256453102513147658);
    lemma_pm_double(7, 1298934350235058884992511971819133525405nat, m);
    assert(pm(7, 2597868700470117769985023943638267050810nat, m) == 43409602547679555390406296392827155592448271477941815199488726440195088179009);
    lemma_pm_succ(7, 2597868700470117769985023943638267050810nat, m);
    assert(pm(7, 2597868700470117769985023943638267050811nat, m) == 41687841958125935335605372208860259958685137842954517283402791581672711330498);
    lemma_pm_double(7, 2597868700470117769985023943638267050811nat, m);
    assert(pm(7, 5195737400940235539970047887276534101622nat, m) == 23418632650775755754293761891976848088934771684981713873256556970406949059605);
    lemma_pm_succ(7, 5195737400940235539970047887276534101622nat, m);
    assert(pm(7, 5195737400940235539970047887276534101623nat, m) == 6622803030051718841713111719280039109471744293289083644984922693032899863696);
    lemma_pm_double(7, 5195737400940235539970047887276534101623nat, m);
    assert(pm(7, 10391474801880471079940095774553068203246nat, m) == 3978695073070473545127428435357386795579094280410314284036998641294406177561);
    lemma_pm_double(7, 10391474801880471079940095774553068203246nat, m);
    assert(pm(7, 20782949603760942159880191549106136406492nat, m) == 14166446732399327158149916233514260834136360349537935866867368953220534073540);
    lemma_pm_succ(7, 20782949603760942159880191549106136406492nat, m);
    assert(pm(7, 20782949603760942159880191549106136406493nat, m) == 46729251951669099627601673126413860001263969946237913245467923972605157330267);
    lemma_pm_double(7, 20782949603760942159880191549106136406493nat, m);
    assert(pm(7, 41565899207521884319760383098212272812986nat, m) == 29584778637916823250649974861272839333803519201874481081771784478121416217350);
    lemma_pm_double(7, 41565899207521884319760383098212272812986nat, m);
    assert(pm(7, 83131798415043768639520766196424545625972nat, m) == 29503584236300637975551256296304033494765205251652984570771616648025487908181);
    lemma_pm_double(7, 83131798415043768639520766196424545625972nat, m);
    assert(pm(7, 166263596830087537279041532392849091251944nat, m) == 1593581000428337865802859864632049425178671741995781238127764370898252207621);
    lemma_pm_succ(7, 166263596830087537279041532392849091251944nat, m);
    assert(pm(7, 166263596830087537279041532392849091251945nat, m) == 11155067002998365060620019052424345976250702193970468666894350596287765453347);
    lemma_pm_double(7, 166263596830087537279041532392849091251945nat, m);
    assert(pm(7, 332527193660175074558083064785698182503890nat, m) == 9524195027012728880752446524293601971777834033233888162759133160968045081706);
    lemma_pm_succ(7, 332527193660175074558083064785698182503890nat, m);
    assert(pm(7, 332527193660175074558083064785698182503891nat, m) == 14233490013962911685819385161869247964754285732109579316710273426837734387429);
    lemma_pm_double(7, 332527193660175074558083064785698182503891nat, m);
    assert(pm(7, 665054387320350149116166129571396365007782nat, m) == 14718203406354447592077560687592573663401065759253669242666447843756181642324);
    lemma_pm_succ(7, 665054387320350149116166129571396365007782nat, m);
    assert(pm(7, 665054387320350149116166129571396365007783nat, m) == 50591548669354942665095184304962049806116907814248046876061476206354690311755);
    lemma_pm_double(7, 665054387320350149116166129571396365007783nat, m);
    assert(pm(7, 1330108774640700298232332259142792730015566nat, m) == 36512162950776596052691522000315728306360915039676500575904850253271372754918);
    lemma_pm_succ(7, 1330108774640700298232332259142792730015566nat, m);
    assert(pm(7, 1330108774640700298232332259142792730015567nat, m) == 45841639954931410451049691969466234793764195275624952740919316973145284546374);
    lemma_pm_double(7, 1330108774640700298232332259142792730015567nat, m);
    assert(pm(7, 2660217549281400596464664518285585460031134nat, m) == 29819172947519218166616992889217116118942979049679083803082950371640966150136);
    lemma_pm_double(7, 2660217549281400596464664518285585460031134nat, m);
    assert(pm(7, 5320435098562801192929329036571170920062268nat, m) == 6315461205383796283645102595628730668386850975230141937351901943801236356909);
    lemma_pm_succ(7, 5320435098562801192929329036571170920062268nat, m);
    assert(pm(7, 5320435098562801192929329036571170920062269nat, m) == 44208228437686573985515718169401114678707956826610993561463313606608654498363);
    lemma_pm_double(7, 5320435098562801192929329036571170920062269nat, m);
    assert(pm(7, 10640870197125602385858658073142341840124538nat, m) == 42094612939519840066676259922823905824015986691728468231793341395938761851079);
    lemma_pm_succ(7, 10640870197125602385858658073142341840124538nat, m);
    assert(pm(7, 10640870197125602385858658073142341840124539nat, m) == 32482914701007928069495116918837511579659144339461088509535096271878427034988);
    lemma_pm_double(7, 10640870197125602385858658073142341840124539nat, m);
    assert(pm(7, 21281740394251204771717316146284683680249078nat, m) == 6899053097487594043455780021668359967628087551561127690825832793575120430909);
    lemma_pm_succ(7, 21281740394251204771717316146284683680249078nat, m);
    assert(pm(7, 21281740394251204771717316146284683680249079nat, m) == 48293371682413158304190460151678519773396612860927893835780829555025843016363);
    lemma_pm_double(7, 21281740394251204771717316146284683680249079nat, m);
    assert(pm(7, 42563480788502409543434632292569367360498158nat, m) == 1101655261209636898273891621886751246388712194715228328182485541957250754667);
    lemma_pm_succ(7, 42563480788502409543434632292569367360498158nat, m);
    assert(pm(7, 42563480788502409543434632292569367360498159nat, m) == 7711586828467458287917241353207258724720985363006598297277398793700755282669);
    lemma_pm_double(7, 42563480788502409543434632292569367360498159nat, m);
    assert(pm(7, 85126961577004819086869264585138734720996318nat, m) == 2887169622493872354747756931249543904916787575295033575474611593958375716376);
    lemma_pm_succ(7, 85126961577004819086869264585138734720996318nat, m);
    assert(pm(7, 85126961577004819086869264585138734720996319nat, m) == 20210187357457106483234298518746807334417513027065235028322281157708630014632);
    lemma_pm_double(7, 85126961577004819086869264585138734720996319nat, m);
    assert(pm(7, 170253923154009638173738529170277469441992638nat, m) == 33013624967411112601457131172790572016645909764032378757398589592690623510205);
    lemma_pm_double(7, 170253923154009638173738529170277469441992638nat, m);
    assert(pm(7, 340507846308019276347477058340554938883985276nat, m) == 17957318829772533275849407300898440547313605908302937169498925764454671078434);
    lemma_pm_succ(7, 340507846308019276347477058340554938883985276nat, m);
    assert(pm(7, 340507846308019276347477058340554938883985277nat, m) == 20829481458155351972050370089917152155814136357065284541285162951305535180012);
    lemma_pm_double(7, 340507846308019276347477058340554938883985277nat, m);
    assert(pm(7, 681015692616038552694954116681109877767970554nat, m) == 16033568912988325449758941195963268585593088828718106282809147957538699382704);
    lemma_pm_double(7, 681015692616038552694954116681109877767970554nat, m);
    assert(pm(7, 1362031385232077105389908233362219755535941108nat, m) == 11318100503891073348393310399129477998228544635213021851985731184877341824661);
    lemma_pm_double(7, 1362031385232077105389908233362219755535941108nat, m);
    assert(pm(7, 2724062770464154210779816466724439511071882216nat, m) == 43496912413734347459123906616320091257970216280555662787427166957155581825204);
    lemma_pm_succ(7, 2724062770464154210779816466724439511071882216nat, m);
    assert(pm(7, 2724062770464154210779816466724439511071882217nat, m) == 42299011020509479816628643773310809617338751461251450398971875200396166853863);
    lemma_pm_double(7, 2724062770464154210779816466724439511071882217nat, m);
    assert(pm(7, 5448125540928308421559632933448879022143764434nat, m) == 28455254347748834666631111987548304833948056312782823013944724442257662974785);
    lemma_pm_double(7, 5448125540928308421559632933448879022143764434nat, m);
    assert(pm(7, 10896251081856616843119265866897758044287528868nat, m) == 40749443979206170130265875164497754806822500801359748775105634635815570789170);
    lemma_pm_succ(7, 10896251081856616843119265866897758044287528868nat, m);
    assert(pm(7, 10896251081856616843119265866897758044287528869nat, m) == 23066731978812238514622423610554454459304743106880052312721148951016089601625);
    lemma_pm_double(7, 10896251081856616843119265866897758044287528869nat, m);
    assert(pm(7, 21792502163713233686238531733795516088575057738nat, m) == 33666987207820986607872252062977869580677841966324452025326379502871388420887);
    lemma_pm_double(7, 21792502163713233686238531733795516088575057738nat, m);
    assert(pm(7, 43585004327426467372477063467591032177150115476nat, m) == 45980025557331118460585139814158497252567999535822909579073778411022262879829);
    lemma_pm_succ(7, 43585004327426467372477063467591032177150115476nat, m);
    assert(pm(7, 43585004327426467372477063467591032177150115477nat, m) == 7244927850560686347409535649993685741832681747594540117894496677524353051725);
    lemma_pm_double(7, 43585004327426467372477063467591032177150115477nat, m);
    assert(pm(7, 87170008654852934744954126935182064354300230954nat, m) == 34003012006603412320087150484077172147733799753433883050516670157762791105685);
    lemma_pm_succ(7, 87170008654852934744954126935182064354300230954nat, m);
    assert(pm(7, 87170008654852934744954126935182064354300230955nat, m) == 28277583345719124322819091355796341683374388271926630063202056304585213001743);
    lemma_pm_double(7, 87170008654852934744954126935182064354300230955nat, m);
    assert(pm(7, 174340017309705869489908253870364128708600461910nat, m) == 45186043276193893039230808991437966992926321667524737773241756418664877953752);
    lemma_pm_succ(7, 174340017309705869489908253870364128708600461910nat, m);
    assert(pm(7, 174340017309705869489908253870364128708600461911nat, m) == 1687051882600108397929219890949973924340936669507337477070342731022658569186);
    lemma_pm_double(7, 174340017309705869489908253870364128708600461911nat, m);
    assert(pm(7, 348680034619411738979816507740728257417200923822nat, m) == 48448146406339034876179146835924858570751972415967585623962385200503080755692);
    lemma_pm_succ(7, 348680034619411738979816507740728257417200923822nat, m);
    assert(pm(7, 348680034619411738979816507740728257417200923823nat, m) == 24521773793616101256567584802358214969120491908607272432114744203890078182766);
    lemma_pm_double(7, 348680034619411738979816507740728257417200923823nat, m);
    assert(pm(7, 697360069238823477959633015481456514834401847646nat, m) == 13155180382990649642533813256888634302743337718940093976640387057478060585736);
    lemma_pm_succ(7, 697360069238823477959633015481456514834401847646nat, m);
    assert(pm(7, 697360069238823477959633015481456514834401847647nat, m) == 39650387505808357018288952290034474281512811532053020013879050702407842915639);
    lemma_pm_double(7, 697360069238823477959633015481456514834401847647nat, m);
    assert(pm(7, 1394720138477646955919266030962913029668803695294nat, m) == 30226573538332013224267604216513726583525724217570430304957232188712291888682);
    lemma_pm_succ(7, 1394720138477646955919266030962913029668803695294nat, m);
    assert(pm(7, 1394720138477646955919266030962913029668803695295nat, m) == 1842514067819330652082267482852222733917859520882460844285990521231718482722);
    lemma_pm_double(7, 1394720138477646955919266030962913029668803695295nat, m);
    assert(pm(7, 2789440276955293911838532061925826059337607390590nat, m) == 16929457759917303907055311784697854121101797586236661977477062920545684423421);
    lemma_pm_succ(7, 2789440276955293911838532061925826059337607390590nat, m);
    assert(pm(7, 2789440276955293911838532061925826059337607390591nat, m) == 13634453969168746390491701476513047172331478102601358197132123043942628594921);
    lemma_pm_double(7, 2789440276955293911838532061925826059337607390591nat, m);
    assert(pm(7, 5578880553910587823677064123851652118675214781182nat, m) == 5059378335627773782358990028653379876725324727475866956051449496327592311350);
    lemma_pm_succ(7, 5578880553910587823677064123851652118675214781182nat, m);
    assert(pm(7, 5578880553910587823677064123851652118675214781183nat, m) == 35415648349394416476512930200573659137077273092331068692360146474293146179450);
    lemma_pm_double(7, 5578880553910587823677064123851652118675214781183nat, m);
    assert(pm(7, 11157761107821175647354128247703304237350429562366nat, m) == 2942134232111359932475020996340009847830240434764721944915713928886132930539);
    lemma_pm_succ(7, 11157761107821175647354128247703304237350429562366nat, m);
    assert(pm(7, 11157761107821175647354128247703304237350429562367nat, m) == 20594939624779519527325146974380068934811683043353053614409997502202930513773);
    lemma_pm_double(7, 11157761107821175647354128247703304237350429562367nat, m);
    assert(pm(7, 22315522215642351294708256495406608474700859124734nat, m) == 45892330811042937974843272943315508133578709747930774687923206525047576947626);
    lemma_pm_succ(7, 22315522215642351294708256495406608474700859124734nat, m);
    assert(pm(7, 22315522215642351294708256495406608474700859124735nat, m) == 6631064626543422947216467554092761908907653232349595879840493475701551526304);
    lemma_pm_double(7, 22315522215642351294708256495406608474700859124735nat, m);
    assert(pm(7, 44631044431284702589416512990813216949401718249470nat, m) == 17855059939369174894139566517965421971895844886671777433755357834931049323271);
    lemma_pm_succ(7, 44631044431284702589416512990813216949401718249470nat, m);
    assert(pm(7, 44631044431284702589416512990813216949401718249471nat, m) == 20113669225331843300081484609386022127889809205647166391080187444640182893871);
    lemma_pm_double(7, 44631044431284702589416512990813216949401718249471nat, m);
    assert(pm(7, 89262088862569405178833025981626433898803436498942nat, m) == 40857394121174829294668423476517211225471756759725308910012667722177058212701);
    lemma_pm_succ(7, 89262088862569405178833025981626433898803436498942nat, m);
    assert(pm(7, 89262088862569405178833025981626433898803436498943nat, m) == 23822382972592852665440261794690649389849534815438973257070380555546501566342);
    lemma_pm_double(7, 89262088862569405178833025981626433898803436498943nat, m);
    assert(pm(7, 178524177725138810357666051963252867797606872997886nat, m) == 15602974874132292431517025127317622501242652307957631119914774788074921642121);
    lemma_pm_succ(7, 178524177725138810357666051963252867797606872997886nat, m);
    assert(pm(7, 178524177725138810357666051963252867797606872997887nat, m) == 4349073768673666061723694874851425833317461154648142194196106116647289125821);
    lemma_pm_double(7, 178524177725138810357666051963252867797606872997887nat, m);
    assert(pm(7, 357048355450277620715332103926505735595213745995774nat, m) == 21012074511144434585922215116324221411551410071341802790988764293884599421159);
    lemma_pm_succ(7, 357048355450277620715332103926505735595213745995774nat, m);
    assert(pm(7, 357048355450277620715332103926505735595213745995775nat, m) == 42212771227758661142560024797897618205478765498337343891714032657315033579087);
    lemma_pm_double(7, 357048355450277620715332103926505735595213745995775nat, m);
    assert(pm(7, 714096710900555241430664207853011471190427491991550nat, m) == 33973631363488571115575318394621311294790383288817397107744734491980615841109);
    lemma_pm_succ(7, 714096710900555241430664207853011471190427491991550nat, m);
    assert(pm(7, 714096710900555241430664207853011471190427491991551nat, m) == 28071918843915235891236266729605315712770473019611228463798506644109986149711);
    lemma_pm_double(7, 714096710900555241430664207853011471190427491991551nat, m);
    assert(pm(7, 1428193421801110482861328415706022942380854983983102nat, m) == 41830602794761733066272283260093218019408655698851799604409025585503461010588);
    lemma_pm_succ(7, 1428193421801110482861328415706022942380854983983102nat, m);
    assert(pm(7, 1428193421801110482861328415706022942380854983983103nat, m) == 30634843687701179066667280279722696947407827389324408117844885598831321151551);
    lemma_pm_double(7, 1428193421801110482861328415706022942380854983983103nat, m);
    assert(pm(7, 2856386843602220965722656831412045884761709967966206nat, m) == 26466927333568802324840489758236131401439457476395895128988501682810391663841);
    lemma_pm_succ(7, 2856386843602220965722656831412045884761709967966206nat, m);
    assert(pm(7, 2856386843602220965722656831412045884761709967966207nat, m) == 27960865809603044835540206783095022297004544833188352435108535679856998093348);
    lemma_pm_double(7, 2856386843602220965722656831412045884761709967966207nat, m);
    assert(pm(7, 5712773687204441931445313662824091769523419935932414nat, m) == 9246840192736640001950491457740440190256566850099284639089511189325898786181);
    lemma_pm_succ(7, 5712773687204441931445313662824091769523419935932414nat, m);
    assert(pm(7, 5712773687204441931445313662824091769523419935932415nat, m) == 12292006174030289534205699695997115494105415450167354651022919625342710318754);
    lemma_pm_double(7, 5712773687204441931445313662824091769523419935932415nat, m);
    assert(pm(7, 11425547374408883862890627325648183539046839871864830nat, m) == 29544698103369330405529805473004419083159874321994463469242158344062684255500);
    lemma_pm_succ(7, 11425547374408883862890627325648183539046839871864830nat, m);
    assert(pm(7, 11425547374408883862890627325648183539046839871864831nat, m) == 49505261198206741400365416786473036069047462752378330816884132308623046234961);
    lemma_pm_double(7, 11425547374408883862890627325648183539046839871864831nat, m);
    assert(pm(7, 22851094748817767725781254651296367078093679743729662nat, m) == 22626661239975581441467182091469136125943598620120521431041122039697521969507);
    lemma_pm_succ(7, 22851094748817767725781254651296367078093679743729662nat, m);
    assert(pm(7, 22851094748817767725781254651296367078093679743729663nat, m) == 1079003154450498651927053115726055368533532839260736549476878178066910233010);
    lemma_pm_double(7, 22851094748817767725781254651296367078093679743729663nat, m);
    assert(pm(7, 45702189497635535451562509302592734156187359487459326nat, m) == 28555050409016209648940974149944048985249350416785501491363409411279870662250);
    lemma_pm_succ(7, 45702189497635535451562509302592734156187359487459326nat, m);
    assert(pm(7, 45702189497635535451562509302592734156187359487459327nat, m) == 42577727337734896104243597525050445383673795415915596971732889779143351082211);
    lemma_pm_double(7, 45702189497635535451562509302592734156187359487459327nat, m);
    assert(pm(7, 91404378995271070903125018605185468312374718974918654nat, m) == 14434345846871133362802951698748828322480882874643980442924904953561733139962);
    lemma_pm_double(7, 91404378995271070903125018605185468312374718974918654nat, m);
    assert(pm(7, 182808757990542141806250037210370936624749437949837308nat, m) == 30557464881826343875138601049106306089965802291297181931359655082300366046530);
    lemma_pm_double(7, 182808757990542141806250037210370936624749437949837308nat, m);
    assert(pm(7, 365617515981084283612500074420741873249498875899674616nat, m) == 9034448690456939467110141325889672131016579884814824832060117429231479387469);
    lemma_pm_succ(7, 365617515981084283612500074420741873249498875899674616nat, m);
    assert(pm(7, 365617515981084283612500074420741873249498875899674617nat, m) == 10805265658072385790323248773041739079425506693176136001817163304681774527770);
    lemma_pm_double(7, 365617515981084283612500074420741873249498875899674617nat, m);
    assert(pm(7, 731235031962168567225000148841483746498997751799349234nat, m) == 9998045243146249384295327132335966963491418674869775587914679440554593285325);
    lemma_pm_double(7, 731235031962168567225000148841483746498997751799349234nat, m);
    assert(pm(7, 1462470063924337134450000297682967492997995503598698468nat, m) == 23102070950730366305682119838119692978133537957113185390112484453858604950686);
    lemma_pm_double(7, 1462470063924337134450000297682967492997995503598698468nat, m);
    assert(pm(7, 2924940127848674268900000595365934985995991007197396936nat, m) == 51224945385616949388028969759158216689191775752862138607883005578443673002542);
    lemma_pm_double(7, 2924940127848674268900000595365934985995991007197396936nat, m);
    assert(pm(7, 5849880255697348537800001190731869971991982014394793872nat, m) == 33939737614386090494289623927006952005046988012405460320231966837622186511626);
    lemma_pm_succ(7, 5849880255697348537800001190731869971991982014394793872nat, m);
    assert(pm(7, 5849880255697348537800001190731869971991982014394793873nat, m) == 27834662600197871542236405456304800684566706084727670951209133063600980843330);
    lemma_pm_double(7, 5849880255697348537800001190731869971991982014394793873nat, m);
    assert(pm(7, 11699760511394697075600002381463739943983964028789587746nat, m) == 38096256014954997888533939867314590867689578345316726737646371062280281523671);
    lemma_pm_double(7, 11699760511394697075600002381463739943983964028789587746nat, m);
    assert(pm(7, 23399521022789394151200004762927479887967928057579175492nat, m) == 15654374691634326438387042243222293211658547023439631587770241677383108495174);
    lemma_pm_succ(7, 23399521022789394151200004762927479887967928057579175492nat, m);
    assert(pm(7, 23399521022789394151200004762927479887967928057579175493nat, m) == 4708872491187904109813814686184120806228724163022145469184374341804597097192);
    lemma_pm_double(7, 23399521022789394151200004762927479887967928057579175493nat, m);
    assert(pm(7, 46799042045578788302400009525854959775935856115158350986nat, m) == 25356887205428439013706757453423499647623995863928017104435653744512720525815);
    lemma_pm_double(7, 46799042045578788302400009525854959775935856115158350986nat, m);
    assert(pm(7, 93598084091157576604800019051709919551871712230316701972nat, m) == 47305055952213924611591190429008113754874962064968064799999375911538049998060);
    lemma_pm_succ(7, 93598084091157576604800019051709919551871712230316701972nat, m);
    assert(pm(7, 93598084091157576604800019051709919551871712230316701973nat, m) == 16520140614740329404451889953941001257981419451610626664373679181134862879342);
    lemma_pm_double(7, 93598084091157576604800019051709919551871712230316701973nat, m);
    assert(pm(7, 187196168182315153209600038103419839103743424460633403946nat, m) == 19241328341703421131876790322190274777918880456702083136685283010206084372215);
    lemma_pm_succ(7, 187196168182315153209600038103419839103743424460633403946nat, m);
    assert(pm(7, 187196168182315153209600038103419839103743424460633403947nat, m) == 29817548041671566964242051238959991770051058195859306311589663671565428236479);
    lemma_pm_double(7, 187196168182315153209600038103419839103743424460633403947nat, m);
    assert(pm(7, 374392336364630306419200076206839678207486848921266807894nat, m) == 2757645791042190284390023542231249033669411083687695453879012816968137792680);
    lemma_pm_succ(7, 374392336364630306419200076206839678207486848921266807894nat, m);
    assert(pm(7, 374392336364630306419200076206839678207486848921266807895nat, m) == 19303520537295331990730164795618743235685877585813868177153089718776964548760);
    lemma_pm_double(7, 374392336364630306419200076206839678207486848921266807895nat, m);
    assert(pm(7, 748784672729260612838400152413679356414973697842533615790nat, m) == 30061877753803895265876828885615168704649443991818461787963814620828312895701);
    lemma_pm_double(7, 748784672729260612838400152413679356414973697842533615790nat, m);
    assert(pm(7, 1497569345458521225676800304827358712829947395685067231580nat, m) == 32790988783922564097193161552672166136968360872881887880436197292589453503765);
    lemma_pm_double(7, 1497569345458521225676800304827358712829947395685067231580nat, m);
    assert(pm(7, 2995138690917042451353600609654717425659894791370134463160nat, m) == 41510872388140607559010184470577048707384841250925117353545142476718146585485);
    lemma_pm_succ(7, 2995138690917042451353600609654717425659894791370134463160nat, m);
    assert(pm(7, 2995138690917042451353600609654717425659894791370134463161nat, m) == 28396730841353300515832588753109511763241126253837632361797703837334120175830);
    lemma_pm_double(7, 2995138690917042451353600609654717425659894791370134463161nat, m);
    assert(pm(7, 5990277381834084902707201219309434851319789582740268926322nat, m) == 11547203792316033581086477923056554985158942492554573929082779249607338579421);
    lemma_pm_double(7, 5990277381834084902707201219309434851319789582740268926322nat, m);
    assert(pm(7, 11980554763668169805414402438618869702639579165480537852644nat, m) == 45340801796243634607588215070096464471180100868090759338511049298495189633612);
    lemma_pm_double(7, 11980554763668169805414402438618869702639579165480537852644nat, m);
    assert(pm(7, 23961109527336339610828804877237739405279158330961075705288nat, m) == 1404779471042993991120271625275334986970090737254099988061211266359568652600);
    lemma_pm_succ(7, 23961109527336339610828804877237739405279158330961075705288nat, m);
    assert(pm(7, 23961109527336339610828804877237739405279158330961075705289nat, m) == 9833456297300957937841901376927344908790635160778699916428478864516980568200);
    lemma_pm_double(7, 23961109527336339610828804877237739405279158330961075705289nat, m);
    assert(pm(7, 47922219054672679221657609754475478810558316661922151410578nat, m) == 44947919509308449738983453634458316157773059027988135889573520245816862977617);
    lemma_pm_succ(7, 47922219054672679221657609754475478810558316661922151410578nat, m);
    assert(pm(7, 47922219054672679221657609754475478810558316661922151410579nat, m) == 20185514402005296197732392092418078268098192751124291392689521086553736241);
    lemma_pm_double(7, 47922219054672679221657609754475478810558316661922151410579nat, m);
    assert(pm(7, 95844438109345358443315219508950957621116633323844302821158nat, m) == 41227223974805170423557799151060365208133836183497262508679815433881814256453);
    lemma_pm_double(7, 95844438109345358443315219508950957621116633323844302821158nat, m);
    assert(pm(7, 191688876218690716886630439017901915242233266647688605642316nat, m) == 32097736462362078553638811412439997369751521304448718601250504209970865095349);
    lemma_pm_double(7, 191688876218690716886630439017901915242233266647688605642316nat, m);
    assert(pm(7, 383377752437381433773260878035803830484466533295377211284632nat, m) == 42172231178352806015129103146922067302265151507645815071739766515555549932035);
    lemma_pm_double(7, 383377752437381433773260878035803830484466533295377211284632nat, m);
    assert(pm(7, 766755504874762867546521756071607660968933066590754422569264nat, m) == 33643158607898743348016099612363034240719788202559898700478170872000866860670);
    lemma_pm_double(7, 766755504874762867546521756071607660968933066590754422569264nat, m);
    assert(pm(7, 1533511009749525735093043512143215321937866133181508845138528nat, m) == 34936358681848608375488180664228272652506365713174798625041920790110668472604);
    lemma_pm_double(7, 1533511009749525735093043512143215321937866133181508845138528nat, m);
    assert(pm(7, 3067022019499051470186087024286430643875732266363017690277056nat, m) == 49773798469385934487635395834240299224076760804576223863190829706794273012301);
    lemma_pm_double(7, 3067022019499051470186087024286430643875732266363017690277056nat, m);
    assert(pm(7, 6134044038998102940372174048572861287751464532726035380554112nat, m) == 24530270384347816388035689024863703841056795225371683272955027535806852859458);
    lemma_pm_double(7, 6134044038998102940372174048572861287751464532726035380554112nat, m);
    assert(pm(7, 12268088077996205880744348097145722575502929065452070761108224nat, m) == 35418373229686838754427143613871672288522899350367009784616300066090679644081);
    lemma_pm_double(7, 12268088077996205880744348097145722575502929065452070761108224nat, m);
    assert(pm(7, 24536176155992411761488696194291445151005858130904141522216448nat, m) == 25185744012612201487403892518936821590529051611440191572174316937858061901111);
    lemma_pm_double(7, 24536176155992411761488696194291445151005858130904141522216448nat, m);
    assert(pm(7, 49072352311984823522977392388582890302011716261808283044432896nat, m) == 47934732087400836383342211041702988503550978170551346135454011098508922878613);
    lemma_pm_double(7, 49072352311984823522977392388582890302011716261808283044432896nat, m);
    assert(pm(7, 98144704623969647045954784777165780604023432523616566088865792nat, m) == 38072246963544891347558235879658671861957314678047018311813632044175843602976);
    lemma_pm_double(7, 98144704623969647045954784777165780604023432523616566088865792nat, m);
    assert(pm(7, 196289409247939294091909569554331561208046865047233132177731584nat, m) == 42824859018833873425300883562795056428655412011731700660373723829006641105842);
    lemma_pm_double(7, 196289409247939294091909569554331561208046865047233132177731584nat, m);
    assert(pm(7, 392578818495878588183819139108663122416093730094466264355463168nat, m) == 20837601868554985470815211956856982817320101796370673451191290926089683621848);
    lemma_pm_double(7, 392578818495878588183819139108663122416093730094466264355463168nat, m);
    assert(pm(7, 785157636991757176367638278217326244832187460188932528710926336nat, m) == 12266371090847718837092759721366717201389317066288943656867879159630190408055);
    lemma_pm_double(7, 785157636991757176367638278217326244832187460188932528710926336nat, m);
    assert(pm(7, 1570315273983514352735276556434652489664374920377865057421852672nat, m) == 43492252211845927628876260944295709009503104115761569840791897751819544941691);
    lemma_pm_double(7, 1570315273983514352735276556434652489664374920377865057421852672nat, m);
    assert(pm(7, 3140630547967028705470553112869304979328749840755730114843705344nat, m) == 38437353870610806859944175797989633249630745625468774935486266765963404667122);
    lemma_pm_double(7, 3140630547967028705470553112869304979328749840755730114843705344nat, m);
    assert(pm(7, 6281261095934057410941106225738609958657499681511460229687410688nat, m) == 13943048027686207398002576123347254705933250080044095356182680499659927486373);
    lemma_pm_double(7, 6281261095934057410941106225738609958657499681511460229687410688nat, m);
    assert(pm(7, 12562522191868114821882212451477219917314999363022920459374821376nat, m) == 26447408185169421003413984210615012229502537519285977519202170421140664578093);
    lemma_pm_double(7, 12562522191868114821882212451477219917314999363022920459374821376nat, m);
    assert(pm(7, 25125044383736229643764424902954439834629998726045840918749642752nat, m) == 31132346321031922533093144303549155318518680787163867112259903497039338581039);
    lemma_pm_double(7, 25125044383736229643764424902954439834629998726045840918749642752nat, m);
    assert(pm(7, 50250088767472459287528849805908879669259997452091681837499285504nat, m) == 11284591377853140837622643071311150446672703972040736653249833977813575427136);
    lemma_pm_double(7, 50250088767472459287528849805908879669259997452091681837499285504nat, m);
    assert(pm(7, 100500177534944918575057699611817759338519994904183363674998571008nat, m) == 39831025939194960841110313563404672168754134772942969321722930311853994087435);
    lemma_pm_double(7, 100500177534944918575057699611817759338519994904183363674998571008nat, m);
    assert(pm(7, 201000355069889837150115399223635518677039989808366727349997142016nat, m) == 13956939847379236786249498280633975715959092306905928666698685916328032230568);
    lemma_pm_double(7, 201000355069889837150115399223635518677039989808366727349997142016nat, m);
    assert(pm(7, 402000710139779674300230798447271037354079979616733454699994284032nat, m) == 32469517116555730205185035827806623334817682151137599229488018856125315622713);
    lemma_pm_double(7, 402000710139779674300230798447271037354079979616733454699994284032nat, m);
    assert(pm(7, 804001420279559348600461596894542074708159959233466909399988568064nat, m) == 30719114030940530404648074003882539571391753162157075115683788544803000682535);
    lemma_pm_double(7, 804001420279559348600461596894542074708159959233466909399988568064nat, m);
    assert(pm(7, 1608002840559118697200923193789084149416319918466933818799977136128nat, m) == 24923588803642478746806778090405291744859633635685509042762814241310610424406);
    lemma_pm_double(7, 1608002840559118697200923193789084149416319918466933818799977136128nat, m);
    assert(pm(7, 3216005681118237394401846387578168298832639836933867637599954272256nat, m) == 25215758229949098013681135535181067258859265088415932086640164243863774642227);
    lemma_pm_double(7, 3216005681118237394401846387578168298832639836933867637599954272256nat, m);
    assert(pm(7, 6432011362236474788803692775156336597665279673867735275199908544512nat, m) == 42580663852889691099153644772251568463271048541950617420327130218056132597523);
    lemma_pm_double(7, 6432011362236474788803692775156336597665279673867735275199908544512nat, m);
    assert(pm(7, 12864022724472949577607385550312673195330559347735470550399817089024nat, m) == 7281475755057073774527455207658125997236629727086492965541976256518448504984);
    lemma_pm_double(7, 12864022724472949577607385550312673195330559347735470550399817089024nat, m);
    assert(pm(7, 25728045448945899155214771100625346390661118695470941100799634178048nat, m) == 24181741972018227353209143708587018663977192251082440505634382134625170401259);
    lemma_pm_double(7, 25728045448945899155214771100625346390661118695470941100799634178048nat, m);
    assert(pm(7, 51456090897891798310429542201250692781322237390941882201599268356096nat, m) == 34887814708530164599415385329454865388962753496480505454112840122897882706569);
    lemma_pm_double(7, 51456090897891798310429542201250692781322237390941882201599268356096nat, m);
    assert(pm(7, 102912181795783596620859084402501385562644474781883764403198536712192nat, m) == 2332697808712383360824558253755304344136829872447311122056844560543882933962);
    lemma_pm_double(7, 102912181795783596620859084402501385562644474781883764403198536712192nat, m);
    assert(pm(7, 205824363591567193241718168805002771125288949563767528806397073424384nat, m) == 33687332884818246042130531625579405929702965388080887080561063062884226819407);
}

/// The group order `r` is prime.
pub proof fn lemma_fr_modulus_prime()
    ensures
        is_prime(fr_modulus()),
{
    lemma_prime_2();
    lemma_prime_3();
    lemma_prime_11();
    lemma_prime_19();
    lemma_prime_10177();
    lemma_prime_125527();
    lemma_prime_859267();
    lemma_prime_906349();
    lemma_prime_2508409();
    lemma_prime_2529403();
    lemma_prime_52437899();
    lemma_prime_254760293();
    lemma_pow_52435875175126190479447740508185965837690552500527637822603658699938581184513_full();
    lemma_pow_52435875175126190479447740508185965837690552500527637822603658699938581184513_by_2();
    lemma_pow_52435875175126190479447740508185965837690552500527637822603658699938581184513_by_3();
    lemma_pow_52435875175126190479447740508185965837690552500527637822603658699938581184513_by_11();
    lemma_pow_52435875175126190479447740508185965837690552500527637822603658699938581184513_by_19();
    lemma_pow_52435875175126190479447740508185965837690552500527637822603658699938581184513_by_10177();
    lemma_pow_52435875175126190479447740508185965837690552500527637822603658699938581184513_by_125527();
    lemma_pow_52435875175126190479447740508185965837690552500527637822603658699938581184513_by_859267();
    lemma_pow_52435875175126190479447740508185965837690552500527637822603658699938581184513_by_906349();
    lemma_pow_52435875175126190479447740508185965837690552500527637822603658699938581184513_by_2508409();
    lemma_pow_52435875175126190479447740508185965837690552500527637822603658699938581184513_by_2529403();
    lemma_pow_52435875175126190479447740508185965837690552500527637822603658699938581184513_by_52437899();
    lemma_pow_52435875175126190479447740508185965837690552500527637822603658699938581184513_by_254760293();
    let n: int = fr_modulus() as int;
    let qs = Seq::new(45nat, |i: int| if i < 32 { 2nat } else if i < 33 { 3nat } else if i < 34 { 11nat } else if i < 35 { 19nat } else if i < 36 { 10177nat } else if i < 37 { 125527nat } else if i < 38 { 859267nat } else if i < 40 { 906349nat } else if i < 41 { 2508409nat } else if i < 42 { 2529403nat } else if i < 43 { 52437899nat } else { 254760293nat });
    assert(qs.subrange(45, 45).len() == 0);
    assert(list_prod(qs.subrange(45, 45)) == 1);
    lemma_list_prod_front(qs, 44, 254760293nat, 1nat);
    lemma_list_prod_front(qs, 43, 254760293nat, 254760293nat);
    lemma_list_prod_front(qs, 42, 52437899nat, 64902806889445849nat);
    lemma_list_prod_front(qs, 41, 2529403nat, 3403366832485265595831251nat);
    lemma_list_prod_front(qs, 40, 2508409nat, 8608486276188728253892353773153nat);
    lemma_list_prod_front(qs, 39, 906349nat, 21593604451568291650617865235760943577nat);
    lemma_list_prod_front(qs, 38, 906349nat, 19571341801074469569245851538566695450070373nat);
    lemma_list_prod_front(qs, 37, 859267nat, 17738466070062044419616408296128385854475832498177nat);
    lemma_list_prod_front(qs, 36, 125527nat, 15242078524624002722310532307389349728017885163211056259nat);
    lemma_list_prod_front(qs, 35, 10177nat, 1913292390960477189723474188949662903308901070882394259023493nat);
    lemma_list_prod_front(qs, 34, 19nat, 19471576662804776359815796820940719366974686198370126374082088261nat);
    lemma_list_prod_front(qs, 33, 11nat, 369959956593290750836500139597873667972519037769032401107559676959nat);
    lemma_list_prod_front(qs, 32, 3nat, 4069559522526198259201501535576610347697709415459356412183156446549nat);
    lemma_list_prod_front(qs, 31, 2nat, 12208678567578594777604504606729831043093128246378069236549469339647nat);
    lemma_list_prod_front(qs, 30, 2nat, 24417357135157189555209009213459662086186256492756138473098938679294nat);
    lemma_list_prod_front(qs, 29, 2nat, 48834714270314379110418018426919324172372512985512276946197877358588nat);
    lemma_list_prod_front(qs, 28, 2nat, 97669428540628758220836036853838648344745025971024553892395754717176nat);
    lemma_list_prod_front(qs, 27, 2nat, 195338857081257516441672073707677296689490051942049107784791509434352nat);
    lemma_list_prod_front(qs, 26, 2nat, 390677714162515032883344147415354593378980103884098215569583018868704nat);
    lemma_list_prod_front(qs, 25, 2nat, 781355428325030065766688294830709186757960207768196431139166037737408nat);
    lemma_list_prod_front(qs, 24, 2nat, 1562710856650060131533376589661418373515920415536392862278332075474816nat);
    lemma_list_prod_front(qs, 23, 2nat, 3125421713300120263066753179322836747031840831072785724556664150949632nat);
    lemma_list_prod_front(qs, 22, 2nat, 6250843426600240526133506358645673494063681662145571449113328301899264nat);
    lemma_list_prod_front(qs, 21, 2nat, 12501686853200481052267012717291346988127363324291142898226656603798528nat);
    lemma_list_prod_front(qs, 20, 2nat, 25003373706400962104534025434582693976254726648582285796453313207597056nat);
    lemma_list_prod_front(qs, 19, 2nat, 50006747412801924209068050869165387952509453297164571592906626415194112nat);
    lemma_list_prod_front(qs, 18, 2nat, 100013494825603848418136101738330775905018906594329143185813252830388224nat);
    lemma_list_prod_front(qs, 17, 2nat, 200026989651207696836272203476661551810037813188658286371626505660776448nat);
    lemma_list_prod_front(qs, 16, 2nat, 400053979302415393672544406953323103620075626377316572743253011321552896nat);
    lemma_list_prod_front(qs, 15, 2nat, 800107958604830787345088813906646207240151252754633145486506022643105792nat);
    lemma_list_prod_front(qs, 14, 2nat, 1600215917209661574690177627813292414480302505509266290973012045286211584nat);
    lemma_list_prod_front(qs, 13, 2nat, 3200431834419323149380355255626584828960605011018532581946024090572423168nat);
    lemma_list_prod_front(qs, 12, 2nat, 6400863668838646298760710511253169657921210022037065163892048181144846336nat);
    lemma_list_prod_front(qs, 11, 2nat, 12801727337677292597521421022506339315842420044074130327784096362289692672nat);
    lemma_list_prod_front(qs, 10, 2nat, 25603454675354585195042842045012678631684840088148260655568192724579385344nat);
    lemma_list_prod_front(qs, 9, 2nat, 51206909350709170390085684090025357263369680176296521311136385449158770688nat);
    lemma_list_prod_front(qs, 8, 2nat, 102413818701418340780171368180050714526739360352593042622272770898317541376nat);
    lemma_list_prod_front(qs, 7, 2nat, 204827637402836681560342736360101429053478720705186085244545541796635082752nat);
    lemma_list_prod_front(qs, 6, 2nat, 409655274805673363120685472720202858106957441410372170489091083593270165504nat);
    lemma_list_prod_front(qs, 5, 2nat, 819310549611346726241370945440405716213914882820744340978182167186540331008nat);
    lemma_list_prod_front(qs, 4, 2nat, 1638621099222693452482741890880811432427829765641488681956364334373080662016nat);
    lemma_list_prod_front(qs, 3, 2nat, 3277242198445386904965483781761622864855659531282977363912728668746161324032nat);
    lemma_list_prod_front(qs, 2, 2nat, 6554484396890773809930967563523245729711319062565954727825457337492322648064nat);
    lemma_list_prod_front(qs, 1, 2nat, 13108968793781547619861935127046491459422638125131909455650914674984645296128nat);
    lemma_list_prod_front(qs, 0, 2nat, 26217937587563095239723870254092982918845276250263818911301829349969290592256nat);
    assert(qs.subrange(0, 45) =~= qs);
    assert forall|i: int| 0 <= i < qs.len() implies is_prime(#[trigger] qs[i]) by {
        if i < 32 {
            assert(qs[i] == 2);
        } else if i < 33 {
            assert(qs[i] == 3);
        } else if i < 34 {
            assert(qs[i] == 11);
        } else if i < 35 {
            assert(qs[i] == 19);
        } else if i < 36 {
            assert(qs[i] == 10177);
        } else if i < 37 {
            assert(qs[i] == 125527);
        } else if i < 38 {
            assert(qs[i] == 859267);
        } else if i < 40 {
            assert(qs[i] == 906349);
        } else if i < 41 {
            assert(qs[i] == 2508409);
        } else if i < 42 {
            assert(qs[i] == 2529403);
        } else if i < 43 {
            assert(qs[i] == 52437899);
        } else {
            assert(qs[i] == 254760293);
        }
    }
    assert forall|i: int| 0 <= i < qs.len() implies (n - 1) % (#[trigger] qs[i] as int) == 0
        && pm(7, ((n - 1) / (qs[i] as int)) as nat, n) != 1 by {
        if i < 32 {
            assert(qs[i] == 2);
            assert((n - 1) % 2int == 0);
            assert((n - 1) / 2int == 26217937587563095239723870254092982918845276250263818911301829349969290592256int);
        } else if i < 33 {
            assert(qs[i] == 3);
            assert((n - 1) % 3int == 0);
            assert((n - 1) / 3int == 17478625058375396826482580169395321945896850833509212607534552899979527061504int);
        } else if i < 34 {
            assert(qs[i] == 11);
            assert((n - 1) % 11int == 0);
            assert((n - 1) / 11int == 4766897743193290043586158228016905985244595681866148892963968972721689198592int);
        } else if i < 35 {
            assert(qs[i] == 19);
            assert((n - 1) % 19int == 0);
            assert((n - 1) / 19int == 2759782903954010025234091605693998201983713289501454622242297826312556904448int);
        } else if i < 36 {
            assert(qs[i] == 10177);
            assert((n - 1) % 10177int == 0);
            assert((n - 1) / 10177int == 5152390210781781515127025695999407078479959958782316775336902692339449856int);
        } else if i < 37 {
            assert(qs[i] == 125527);
            assert((n - 1) % 125527int == 0);
            assert((n - 1) / 125527int == 417725869136729074059347714102830194601086240414633009811464136798765056int);
        } else if i < 38 {
            assert(qs[i] == 859267);
            assert((n - 1) % 859267int == 0);
            assert((n - 1) / 859267int == 61023960160376449321861238134579782346686830170980193377150127608692736int);
        } else if i < 40 {
            assert(qs[i] == 906349);
            assert((n - 1) % 906349int == 0);
            assert((n - 1) / 906349int == 57853956009358636109763171259841369977448590444219211167666824479244288int);
        } else if i < 41 {
            assert(qs[i] == 2508409);
            assert((n - 1) % 2508409int == 0);
            assert((n - 1) / 2508409int == 20904037250355181503274681484632675866531555460264908084209416686010368int);
        } else if i < 42 {
            assert(qs[i] == 2529403);
            assert((n - 1) % 2529403int == 0);
            assert((n - 1) / 2529403int == 20730534112249487519168649878325425342537568153642435714120548880482304int);
        } else if i < 43 {
            assert(qs[i] == 52437899);
            assert((n - 1) % 52437899int == 0);
            assert((n - 1) / 52437899int == 999961405302035279473110478895921551656570994587857873989262207090688int);
        } else {
            assert(qs[i] == 254760293);
            assert((n - 1) % 254760293int == 0);
            assert((n - 1) / 254760293int == 205824363591567193241718168805002771125288949563767528806397073424384int);
        }
    }
    lemma_lucas(n, 7, qs);
}

} // verus!