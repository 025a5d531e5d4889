use sha2::{Digest, Sha256};
use crypto_primitives::bls::aggregate::{aggregate_public_keys, aggregate_signatures, aggregate_verify};
use crypto_primitives::bls::signature::{hash_message_to_g1, keygen, sign, verify};
use crypto_primitives::curve::group::{pairing, G1Point, G2Point, GtElem};
use crypto_primitives::curve::scalar::Scalar;
use crypto_primitives::pedersen::commit;
use crypto_primitives::pedersen::confidential::ConfidentialAccount;
use crypto_primitives::pedersen::generator::{generator_g, generator_h};

fn fr(x: u64) -> Scalar {
    Scalar::from_u64(x)
}

#[test]
fn test_sign_and_verify() {
    let (sk, pk) = keygen();
    let message = b"Hello,BLS";
    let sig = sign(&sk, message);
    assert!(verify(&pk, message, &sig), "Signature should be valid");
}

#[test]
fn test_tampered_message_fails() {
    let (sk, pk) = keygen();
    let msg1 = b"Pay Alice $100";
    let msg2 = b"Pay Mallory $100";
    let sig = sign(&sk, msg1);
    assert!(!verify(&pk, msg2, &sig), "Tampered message should fail");
}

#[test]
fn test_wrong_public_key_fails() {
    let sk_alice = fr(12345);
    let _pk_alice = G2Point::generator().mul(&sk_alice);
    let sk_eve = fr(99999);
    let pk_eve = G2Point::generator().mul(&sk_eve);
    let message = b"Alice's authentic message";
    let sig = sign(&sk_alice, message);
    assert!(!verify(&pk_eve, message, &sig), "Wrong public key should fail");
}

#[test]
fn bls_signature_is_secret_times_message_hash() {
    let sk = fr(42);
    let sig = sign(&sk, b"msg");
    let expected = hash_message_to_g1(b"msg").mul(&sk);
    assert!(sig.equals(&expected));
}

#[test]
fn aggregate_of_three_signatures_verifies() {
    let message = b"one message, three signers";
    let sks = [fr(11), fr(22), fr(33)];
    let pks: Vec<G2Point> = sks.iter().map(|sk| G2Point::generator().mul(sk)).collect();
    let sigs: Vec<G1Point> = sks.iter().map(|sk| sign(sk, message)).collect();
    let agg_sig = aggregate_signatures(&sigs);
    assert!(aggregate_verify(&pks, message, &agg_sig));
    assert!(!aggregate_verify(&pks, b"another message", &agg_sig));
    let agg_pk = aggregate_public_keys(&pks);
    assert!(agg_pk.equals(&G2Point::generator().mul(&fr(66))));
    assert!(verify(&agg_pk, message, &agg_sig));
}

#[test]
fn aggregate_of_nothing_is_identity() {
    let agg = aggregate_signatures(&[]);
    assert!(agg.equals(&G1Point::identity()));
    let agg_pk = aggregate_public_keys(&[]);
    assert!(agg_pk.equals(&G2Point::identity()));
}

#[test]
fn test_group_law() {
    let g1 = G1Point::generator();
    let a = fr(123);
    let b = fr(456);
    let sum = a.add(&b);
    assert!(g1.mul(&a).add(&g1.mul(&b)).equals(&g1.mul(&sum)));
}

#[test]
fn test_identity() {
    let g1 = G1Point::generator();
    let identity = G1Point::identity();
    assert!(g1.add(&identity).equals(&g1));
    assert!(g1.sub(&g1).equals(&identity));
}

#[test]
fn group_two_plus_three_is_five_and_zero_times_is_identity() {
    let g1 = G1Point::generator();
    assert!(g1.mul(&fr(2)).add(&g1.mul(&fr(3))).equals(&g1.mul(&fr(5))));
    assert!(g1.mul(&fr(0)).equals(&G1Point::identity()));
    let g2 = G2Point::generator();
    assert!(g2.mul(&fr(2)).add(&g2.mul(&fr(3))).equals(&g2.mul(&fr(5))));
    assert!(!g1.equals(&G1Point::identity()));
}

#[test]
fn g1_encoding_is_uncompressed() {
    // An uncompressed G1 point of BLS12-381 is 96 bytes.
    assert_eq!(G1Point::generator().to_bytes().len(), 96);
}

#[test]
fn test_bilinearity() {
    let g1 = G1Point::generator();
    let g2 = G2Point::generator();
    let a = fr(5);
    let b = fr(11);
    let lhs = pairing(&g1.mul(&a), &g2.mul(&b));
    let rhs = pairing(&g1.mul(&a.mul(&b)), &g2);
    assert!(lhs.equals(&rhs));
}

#[test]
fn pairing_base_to_the_product_matches() {
    let g1 = G1Point::generator();
    let g2 = G2Point::generator();
    let a = fr(7);
    let b = fr(13);
    let left = pairing(&g1.mul(&a), &g2.mul(&b));
    let right = pairing(&g1, &g2).pow(&a.mul(&b));
    assert!(left.equals(&right));
}

#[test]
fn test_pairing_changes_with_input() {
    let g1 = G1Point::generator();
    let g2 = G2Point::generator();
    let e1 = pairing(&g1, &g2);
    let e2 = pairing(&g1.mul(&fr(2)), &g2);
    assert!(!e1.equals(&e2));
}

#[test]
fn pairing_is_non_degenerate() {
    let g1 = G1Point::generator();
    let g2 = G2Point::generator();
    assert!(!pairing(&g1, &g2).equals(&GtElem::identity()));
    assert!(pairing(&G1Point::identity(), &g2).equals(&GtElem::identity()));
}

#[test]
fn test_bls_equation_holds() {
    let g2 = G2Point::generator();
    let sk = fr(777);
    let pk = g2.mul(&sk);
    let h_m = G1Point::generator().mul(&fr(999));
    let sigma = h_m.mul(&sk);
    assert!(pairing(&sigma, &g2).equals(&pairing(&h_m, &pk)));
}

#[test]
fn test_commit_verify_roundtrip() {
    let v = fr(100);
    let r = fr(200);
    let c = commit::commit(&v, &r);
    assert!(commit::verify(&v, &r, &c));
}

#[test]
fn test_wrong_blinding_fails() {
    let v = fr(100);
    let r = fr(200);
    let c = commit::commit(&v, &r);
    assert!(!commit::verify(&v, &fr(201), &c));
}

#[test]
fn test_wrong_value_fails() {
    let v = fr(100);
    let r = fr(200);
    let c = commit::commit(&v, &r);
    assert!(!commit::verify(&fr(101), &r, &c));
}

#[test]
fn commitments_with_different_blinding_differ() {
    let v = fr(42);
    let c1 = commit::commit(&v, &fr(111));
    let c2 = commit::commit(&v, &fr(222));
    let c3 = commit::commit(&v, &fr(333));
    assert!(!c1.equals(&c2));
    assert!(!c2.equals(&c3));
    assert!(!c1.equals(&c3));
}

#[test]
fn test_generators_are_different() {
    assert!(!generator_g().equals(&generator_h()));
}

#[test]
fn test_generators_not_identity() {
    let identity = G1Point::identity();
    assert!(!generator_g().equals(&identity));
    assert!(!generator_h().equals(&identity));
}

#[test]
fn generator_h_is_deterministic() {
    assert!(generator_h().equals(&generator_h()));
}

#[test]
fn test_additive_homomorphism() {
    let (v1, r1, v2, r2) = (fr(42), fr(100), fr(58), fr(200));
    let c_sum = commit::commit(&v1, &r1).add(&commit::commit(&v2, &r2));
    let c_direct = commit::commit(&v1.add(&v2), &r1.add(&r2));
    assert!(c_sum.equals(&c_direct));
}

#[test]
fn test_subtraction_homomorphism() {
    let (v1, r1, v2, r2) = (fr(100), fr(500), fr(40), fr(200));
    let c_diff = commit::commit(&v1, &r1).sub(&commit::commit(&v2, &r2));
    let c_direct = commit::commit(&v1.sub(&v2), &r1.sub(&r2));
    assert!(c_diff.equals(&c_direct));
}

#[test]
fn test_deposit_and_withdraw() {
    let mut acc = ConfidentialAccount::new("Test");
    acc.deposit(500);
    assert!(acc.withdraw(500));
    assert!(!acc.withdraw(501));
}

#[test]
fn test_transfer_conserves_balance() {
    let mut alice = ConfidentialAccount::new("Alice");
    let mut bob = ConfidentialAccount::new("Bob");
    alice.deposit(100);
    alice.transfer(&mut bob, 40);
    assert_eq!(alice.owner_view_balance(), 60);
    assert_eq!(bob.owner_view_balance(), 40);
    assert!(alice.withdraw(60));
    assert!(bob.withdraw(40));
}

#[test]
fn test_multiple_transfers() {
    let mut a = ConfidentialAccount::new("A");
    let mut b = ConfidentialAccount::new("B");
    a.deposit(200);
    a.transfer(&mut b, 50);
    a.transfer(&mut b, 30);
    a.transfer(&mut b, 20);
    assert_eq!(a.owner_view_balance(), 100);
    assert_eq!(b.owner_view_balance(), 100);
}

#[test]
fn confidential_transfer_reports_a_valid_balance_proof() {
    let mut alice = ConfidentialAccount::new("Alice");
    let mut bob = ConfidentialAccount::new("Bob");
    alice.deposit(100);
    assert!(alice.transfer(&mut bob, 30));
    assert!(alice.transfer(&mut bob, 20));
    assert!(bob.withdraw(50));
    assert!(!bob.withdraw(9999));
    assert_eq!(alice.name, "Alice");
}

#[test]
fn scalar_field_operations() {
    assert!(fr(7).add(&fr(5)).equals(&fr(12)));
    assert!(fr(7).sub(&fr(5)).equals(&fr(2)));
    assert!(fr(7).mul(&fr(5)).equals(&fr(35)));
    assert!(fr(5).sub(&fr(7)).add(&fr(2)).equals(&fr(0)));
    assert!(fr(5).neg().add(&fr(5)).equals(&fr(0)));
    assert!(fr(0).inverse().is_none());
    let inv = fr(3).inverse().unwrap();
    assert!(inv.mul(&fr(3)).equals(&Scalar::one()));
    assert!(Scalar::zero().equals(&fr(0)));
    // 258 = 0x0102, little-endian bytes [2, 1].
    assert!(Scalar::from_le_bytes_mod_order(&[2u8, 1u8]).equals(&fr(258)));
    assert!(fr(9) == fr(9));
}

#[test]
fn hash_to_g1_is_generator_times_digest() {
    let message = b"Hello,BLS";
    let digest = Sha256::digest(message);
    let expected = G1Point::generator().mul(&Scalar::from_le_bytes_mod_order(&digest));
    assert!(hash_message_to_g1(message).equals(&expected));
    let seed = Sha256::digest(b"pedersen_h_generator");
    let h = G1Point::generator().mul(&Scalar::from_le_bytes_mod_order(&seed));
    assert!(generator_h().equals(&h));
}

#[test]
fn bls_keys_are_deterministic_under_the_test_generator() {
    let (sk1, pk1) = keygen();
    let (sk2, pk2) = keygen();
    assert!(pk1.equals(&G2Point::generator().mul(&sk1)));
    assert!(pk2.equals(&G2Point::generator().mul(&sk2)));
}

#[test]
fn owner_view_balance_gives_up_at_ten_thousand() {
    let mut small = ConfidentialAccount::new("Small");
    small.deposit(9999);
    assert_eq!(small.try_owner_view_balance(), Some(9999));
    assert_eq!(small.owner_view_balance(), 9999);
    let mut large = ConfidentialAccount::new("Large");
    large.deposit(10000);
    assert_eq!(large.try_owner_view_balance(), None);
}

#[test]
fn signatures_are_96_bytes() {
    let (sk, _pk) = keygen();
    let sig = sign(&sk, b"size");
    assert_eq!(sig.to_bytes().len(), 96);
    assert_eq!(G1Point::identity().to_bytes().len(), 96);
}

#[test]
fn generator_h_is_not_the_identity() {
    assert_ne!(generator_h().to_bytes(), G1Point::identity().to_bytes());
    assert_ne!(generator_h().to_bytes(), generator_g().to_bytes());
}
