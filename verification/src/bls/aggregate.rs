//! Aggregation of BLS signatures and public keys: the sum of the signatures
//! on one message verifies against the sum of the public keys.

use vstd::prelude::*;
use vstd::arithmetic::div_mod::{lemma_add_mod_noop, lemma_mul_mod_noop_right};
use vstd::arithmetic::mul::lemma_mul_is_distributive_add;
use crate::curve::scalar::{fr_modulus, sum_mod};
use crate::curve::group::{G1Point, G2Point, pairing};
use crate::bls::signature::{PublicKey, Signature, hash_message_to_g1, hash_to_scalar, sign_spec};

verus! {

/// The logarithms of a sequence of G1 points.
pub open spec fn g1_logs(s: Seq<G1Point>) -> Seq<nat> {
    s.map_values(|p: G1Point| p@)
}

/// The logarithms of a sequence of G2 points.
pub open spec fn g2_logs(s: Seq<G2Point>) -> Seq<nat> {
    s.map_values(|p: G2Point| p@)
}

/// `e(agg_sig, G2) == e(H(m), agg_pk)`, stated on logarithms.
pub open spec fn aggregate_verify_spec(pk_logs: Seq<nat>, message: Seq<u8>, agg_sig: nat) -> bool {
    agg_sig == (hash_to_scalar(message) * sum_mod(pk_logs)) % fr_modulus()
}

/// Aggregation is literally just adding all the G1 points together.
/// `sigma_agg = sigma_1 + sigma_2 + ... + sigma_n`
pub fn aggregate_signatures(signatures: &[Signature]) -> (r: Signature)
    ensures
        r@ == sum_mod(g1_logs(signatures@)),
{
    let mut agg = G1Point::identity(); // start with identity (zero)
    let mut i: usize = 0;
    while i < signatures.len()
        invariant
            i <= signatures.len(),
            agg@ == sum_mod(g1_logs(signatures@).take(i as int)),
        decreases signatures.len() - i,
    {
        agg = agg.add(&signatures[i]);
        proof {
            let logs = g1_logs(signatures@);
            assert(logs.take(i + 1).drop_last() =~= logs.take(i as int));
        }
        i = i + 1;
    }
    proof {
        assert(g1_logs(signatures@).take(signatures.len() as int) =~= g1_logs(signatures@));
    }
    agg
}

/// `pk_agg = pk_1 + pk_2 + ... + pk_n`
pub fn aggregate_public_keys(public_keys: &[PublicKey]) -> (r: PublicKey)
    ensures
        r@ == sum_mod(g2_logs(public_keys@)),
{
    let mut agg = G2Point::identity(); // start with identity
    let mut i: usize = 0;
    while i < public_keys.len()
        invariant
            i <= public_keys.len(),
            agg@ == sum_mod(g2_logs(public_keys@).take(i as int)),
        decreases public_keys.len() - i,
    {
        agg = agg.add(&public_keys[i]);
        proof {
            let logs = g2_logs(public_keys@);
            assert(logs.take(i + 1).drop_last() =~= logs.take(i as int));
        }
        i = i + 1;
    }
    proof {
        assert(g2_logs(public_keys@).take(public_keys.len() as int) =~= g2_logs(public_keys@));
    }
    agg
}

/// Verifies an aggregate signature on one message against the public keys of
/// all its signers: `e(sigma_agg, G2) == e(H(m), pk_agg)`.
pub fn aggregate_verify(public_keys: &[PublicKey], message: &[u8], agg_sig: &Signature) -> (r: bool)
    ensures
        r == aggregate_verify_spec(g2_logs(public_keys@), message@, agg_sig@),
{
    // 1. Aggregate all the public keys
    let agg_pk = aggregate_public_keys(public_keys);

    // 2. Hash the message to G1
    let hm = hash_message_to_g1(message);

    // 3. Single pairing check: e(sigma_agg, G2) == e(H(m), pk_agg)
    let g2 = G2Point::generator();
    let lhs = pairing(agg_sig, &g2);
    let rhs = pairing(&hm, &agg_pk);
    proof {
        vstd::arithmetic::div_mod::lemma_small_mod(agg_sig@, fr_modulus());
    }
    lhs.equals(&rhs)
}

/// The sum of the signatures of one message under several private keys
/// verifies against the sum of the matching public keys.
pub proof fn lemma_aggregate_of_signatures_verifies(sks: Seq<nat>, message: Seq<u8>)
    ensures
        aggregate_verify_spec(sks, message, sum_mod(sks.map_values(|sk: nat| sign_spec(sk, message)))),
    decreases sks.len(),
{
    let h = hash_to_scalar(message) as int;
    let r = fr_modulus() as int;
    let sigs = sks.map_values(|sk: nat| sign_spec(sk, message));
    if sks.len() > 0 {
        let init = sks.drop_last();
        lemma_aggregate_of_signatures_verifies(init, message);
        assert(sigs.drop_last() =~= init.map_values(|sk: nat| sign_spec(sk, message)));
        let a = sum_mod(init) as int;
        let x = sks.last() as int;
        assert(sum_mod(sigs.drop_last()) == (h * a) % r);
        assert(sigs.last() == (h * x) % r);
        assert(sum_mod(sigs) == ((h * a) % r + (h * x) % r) % r);
        assert(sum_mod(sks) == (a + x) % r);
        // (h a mod r + h x mod r) mod r == h ((a + x) mod r) mod r
        lemma_add_mod_noop(h * a, h * x, r);
        lemma_mul_is_distributive_add(h, a, x);
        lemma_mul_mod_noop_right(h, a + x, r);
    } else {
        assert(h * 0 == 0);
    }
}

} // verus!
