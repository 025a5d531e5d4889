use crypto_primitives::ecc::ecdsa::{Ecdsa, Signature};
use crypto_primitives::ecc::field::FieldElement;
use crypto_primitives::ecc::point::Point;

fn toy_curve() -> (FieldElement, FieldElement) {
    let prime = 223;
    (FieldElement::new(0, prime), FieldElement::new(7, prime))
}

#[test]
fn test_equality() {
    let a = FieldElement::new(7, 13);
    let b = FieldElement::new(7, 13);
    assert_eq!(a, b);
    let c = FieldElement::new(6, 13);
    assert_ne!(a, c);
}

#[test]
fn test_add() {
    let a = FieldElement::new(7, 13);
    let b = FieldElement::new(12, 13);
    assert_eq!(a + b, FieldElement::new(6, 13));
}

#[test]
fn test_sub() {
    let a = FieldElement::new(7, 13);
    let b = FieldElement::new(12, 13);
    assert_eq!(a - b, FieldElement::new(8, 13));
}

#[test]
fn test_mul() {
    let a = FieldElement::new(3, 13);
    let b = FieldElement::new(12, 13);
    assert_eq!(a * b, FieldElement::new(10, 13));
}

#[test]
fn test_pow() {
    let a = FieldElement::new(3, 13);
    assert_eq!(a.pow(3), FieldElement::new(1, 13));
}

#[test]
fn test_inv() {
    let a = FieldElement::new(3, 13);
    assert_eq!(a.inv(), FieldElement::new(9, 13));
}

#[test]
fn test_inv_large() {
    let prime = 223;
    let a = FieldElement::new(15, prime);
    let inv_a = a.inv();
    assert_eq!(a * inv_a, FieldElement::new(1, prime));
}

#[test]
fn field_pow_zero_exponent_is_one() {
    let a = FieldElement::new(5, 13);
    assert_eq!(a.pow(0), FieldElement::new(1, 13));
    assert_eq!(FieldElement::new(0, 13).pow(0), FieldElement::new(1, 13));
}

#[test]
fn field_sub_wraps_below_zero() {
    let a = FieldElement::new(2, 13);
    let b = FieldElement::new(5, 13);
    assert_eq!(a - b, FieldElement::new(10, 13));
}

#[test]
fn field_pow_large_exponent_follows_fermat() {
    // 3^(13 - 1) = 1 in F_13, so 3^(12 * 5 + 2) = 9.
    let a = FieldElement::new(3, 13);
    assert_eq!(a.pow(62), FieldElement::new(9, 13));
}

#[test]
fn test_point_on_curve() {
    let (a, b) = toy_curve();
    let x1 = FieldElement::new(192, 223);
    let y1 = FieldElement::new(105, 223);
    let _p1 = Point::new(Some(x1), Some(y1), a, b);
}

#[test]
fn test_point_addition_infinity() {
    let (a, b) = toy_curve();
    let p1 = Point::new(Some(FieldElement::new(192, 223)), Some(FieldElement::new(105, 223)), a, b);
    let inf = Point::infinity(a, b);
    assert_eq!(p1 + inf, p1);
    assert_eq!(inf + p1, p1);
}

#[test]
fn test_point_addition_inverse() {
    let prime = 223;
    let (a, b) = toy_curve();
    let x1 = FieldElement::new(192, prime);
    let y1 = FieldElement::new(105, prime);
    let y1_inv = FieldElement::new(prime - 105, prime);
    let p1 = Point::new(Some(x1), Some(y1), a, b);
    let p1_inv = Point::new(Some(x1), Some(y1_inv), a, b);
    let inf = Point::infinity(a, b);
    assert_eq!(p1 + p1_inv, inf);
}

#[test]
fn test_point_addition_distinct() {
    let prime = 223;
    let (a, b) = toy_curve();
    let p1 = Point::new(Some(FieldElement::new(192, prime)), Some(FieldElement::new(105, prime)), a, b);
    let p2 = Point::new(Some(FieldElement::new(17, prime)), Some(FieldElement::new(56, prime)), a, b);
    let p3 = Point::new(Some(FieldElement::new(170, prime)), Some(FieldElement::new(142, prime)), a, b);
    assert_eq!(p1 + p2, p3);
}

#[test]
fn test_point_doubling() {
    let prime = 223;
    let (a, b) = toy_curve();
    let p1 = Point::new(Some(FieldElement::new(47, prime)), Some(FieldElement::new(71, prime)), a, b);
    let p3 = Point::new(Some(FieldElement::new(36, prime)), Some(FieldElement::new(111, prime)), a, b);
    assert_eq!(p1 + p1, p3);
}

#[test]
fn point_addition_commutes_on_concrete_points() {
    let prime = 223;
    let (a, b) = toy_curve();
    let p1 = Point::new(Some(FieldElement::new(192, prime)), Some(FieldElement::new(105, prime)), a, b);
    let p2 = Point::new(Some(FieldElement::new(17, prime)), Some(FieldElement::new(56, prime)), a, b);
    assert_eq!(p1 + p2, p2 + p1);
}

#[test]
fn point_doubling_with_zero_y_is_infinity() {
    // y^2 = x^3 + 7 over F_223 has no point with y = 0 unless x^3 = -7;
    // x = 0 is not such a point, so use the curve y^2 = x^3 - x, where (0, 0) lies.
    let prime = 223;
    let a = FieldElement::new(prime - 1, prime);
    let b = FieldElement::new(0, prime);
    let p = Point::new(Some(FieldElement::new(0, prime)), Some(FieldElement::new(0, prime)), a, b);
    assert_eq!(p + p, Point::infinity(a, b));
}

#[test]
fn test_scalar_mul() {
    let prime = 223;
    let (a, b) = toy_curve();
    let p1 = Point::new(Some(FieldElement::new(47, prime)), Some(FieldElement::new(71, prime)), a, b);
    assert_eq!(2 * p1, p1 + p1);
    assert_eq!(3 * p1, p1 + p1 + p1);
    let p10 = Point::new(Some(FieldElement::new(154, prime)), Some(FieldElement::new(150, prime)), a, b);
    assert_eq!(10 * p1, p10);
}

#[test]
fn test_scalar_mul_group_order() {
    let prime = 223;
    let (a, b) = toy_curve();
    let g = Point::new(Some(FieldElement::new(47, prime)), Some(FieldElement::new(71, prime)), a, b);
    let inf = Point::infinity(a, b);
    assert_eq!(21 * g, inf);
}

#[test]
fn scalar_mul_by_zero_and_one() {
    let prime = 223;
    let (a, b) = toy_curve();
    let g = Point::new(Some(FieldElement::new(47, prime)), Some(FieldElement::new(71, prime)), a, b);
    assert_eq!(0 * g, Point::infinity(a, b));
    assert_eq!(1 * g, g);
}

#[test]
fn test_ecdsa_sign_verify() {
    let prime = 223;
    let (a, b) = toy_curve();
    let generator = Point::new(Some(FieldElement::new(47, prime)), Some(FieldElement::new(71, prime)), a, b);
    let order = 21;
    let mock_hash = |data: &[u8]| -> u128 { data[0] as u128 };
    let ecdsa = Ecdsa::new(generator, order, mock_hash);

    let private_key = 1;
    let (_, public_key) = ecdsa.generate_keypair(private_key);
    let message = b"A";
    let nonce = 2;
    println!("pub: {:?}", public_key);

    let sig = ecdsa.sign(message, private_key, nonce);
    assert!(ecdsa.verify(message, sig, public_key));

    let bad_sig = Signature { r: sig.r, s: sig.s + 1 };
    assert!(!ecdsa.verify(message, bad_sig, public_key));

    let bad_message = b"B";
    assert!(!ecdsa.verify(bad_message, sig, public_key));
}

#[test]
fn ecdsa_rejects_out_of_range_signatures() {
    let prime = 223;
    let (a, b) = toy_curve();
    let generator = Point::new(Some(FieldElement::new(47, prime)), Some(FieldElement::new(71, prime)), a, b);
    let ecdsa = Ecdsa::new(generator, 21, |data: &[u8]| -> u128 { data[0] as u128 });
    let (_, public_key) = ecdsa.generate_keypair(3);
    assert!(!ecdsa.verify(b"A", Signature { r: 0, s: 5 }, public_key));
    assert!(!ecdsa.verify(b"A", Signature { r: 5, s: 0 }, public_key));
    assert!(!ecdsa.verify(b"A", Signature { r: 21, s: 5 }, public_key));
    assert!(!ecdsa.verify(b"A", Signature { r: 5, s: 21 }, public_key));
}

#[test]
fn ecdsa_keypair_is_scalar_multiple_of_generator() {
    let prime = 223;
    let (a, b) = toy_curve();
    let generator = Point::new(Some(FieldElement::new(47, prime)), Some(FieldElement::new(71, prime)), a, b);
    let ecdsa = Ecdsa::new(generator, 21, |data: &[u8]| -> u128 { data[0] as u128 });
    let (sk, pk) = ecdsa.generate_keypair(10);
    assert_eq!(sk, 10);
    let p10 = Point::new(Some(FieldElement::new(154, prime)), Some(FieldElement::new(150, prime)), a, b);
    assert_eq!(pk, p10);
}

#[test]
fn field_subtraction_undoes_addition() {
    for (x, y) in [(3u128, 11u128), (11, 3), (0, 12), (12, 12)] {
        let a = FieldElement::new(x, 13);
        let b = FieldElement::new(y, 13);
        assert_eq!((a + b) - b, a);
        assert_eq!((a - b) + b, a);
    }
}

#[test]
fn scalar_mul_distributes_over_addition() {
    let prime = 223;
    let (a, b) = toy_curve();
    let g = Point::new(Some(FieldElement::new(47, prime)), Some(FieldElement::new(71, prime)), a, b);
    assert_eq!(7 * g, 3 * g + 4 * g);
    assert_eq!(25 * g, 4 * g);
    assert_eq!(5 * (3 * g), 15 * g);
}
