use crypto_primitives::curve::scalar::Scalar;
use crypto_primitives::multilinear::dense::DenseMLEPolynomial;
use crypto_primitives::multilinear::error::MLEError;
use crypto_primitives::multilinear::sumcheck::{prove, verify, SumcheckProof, UnivariatePoly};
use crypto_primitives::multilinear::utils::{bit_reverse, index_from_bits, le_index_from_bits, two_pow};
use crypto_primitives::univariate::polynomial::UnivariatePolynomial;

fn fr(x: u64) -> Scalar {
    Scalar::from_u64(x)
}

fn f(n: i64) -> Scalar {
    if n >= 0 {
        fr(n as u64)
    } else {
        fr((-n) as u64).neg()
    }
}

fn poly(coeffs: &[i64]) -> UnivariatePolynomial {
    UnivariatePolynomial::new(coeffs.iter().map(|&c| f(c)).collect())
}

fn sample_2var() -> DenseMLEPolynomial {
    DenseMLEPolynomial::new(vec![fr(1), fr(2), fr(3), fr(4)])
}

#[test]
fn construction() {
    let p = sample_2var();
    assert_eq!(p.num_vars, 2);
    assert_eq!(p.len(), 4);
}

#[test]
fn three_vars() {
    let evals: Vec<Scalar> = (0u64..8).map(fr).collect();
    let p = DenseMLEPolynomial::new(evals);
    assert_eq!(p.num_vars, 3);
    let result = p.evaluate(&[Scalar::one(), Scalar::one(), Scalar::one()]).unwrap();
    assert_eq!(result, fr(7));
}

#[test]
fn dense_evaluate_on_vertices_and_between() {
    let p = sample_2var();
    // The first coordinate binds the least significant index bit: (1, 0) is entry 1.
    assert_eq!(p.evaluate(&[fr(1), fr(0)]).unwrap(), fr(2));
    assert_eq!(p.evaluate(&[fr(0), fr(1)]).unwrap(), fr(3));
    // f(x0, x1) = 1 + x0 + 2 x1, so f(2, 3) = 9.
    assert_eq!(p.evaluate(&[fr(2), fr(3)]).unwrap(), fr(9));
}

#[test]
fn dense_errors() {
    assert!(matches!(DenseMLEPolynomial::try_new(vec![fr(1), fr(2), fr(3)]), Err(MLEError::NotPowerOfTwo(3))));
    assert!(matches!(DenseMLEPolynomial::try_new(vec![]), Err(MLEError::NotPowerOfTwo(0))));
    assert!(DenseMLEPolynomial::try_new(vec![fr(5)]).is_ok());
    let p = sample_2var();
    assert!(matches!(p.evaluate(&[fr(1)]), Err(MLEError::PointLenMismatch { point: 1, vars: 2 })));
    assert!(matches!(p.evaluate_at_vertex(&[true]), Err(MLEError::PointLenMismatch { point: 1, vars: 2 })));
    assert!(matches!(p.fix_variables(&[fr(1), fr(1), fr(1)]), Err(MLEError::PointLenMismatch { point: 3, vars: 2 })));
    let c = DenseMLEPolynomial::constant(fr(9), 0);
    assert!(matches!(c.fix_variable(fr(1)), Err(MLEError::NoVariables)));
}

#[test]
fn dense_vertex_is_little_endian() {
    let p = sample_2var();
    assert_eq!(p.evaluate_at_vertex(&[true, false]).unwrap(), fr(2));
    assert_eq!(p.evaluate_at_vertex(&[false, true]).unwrap(), fr(3));
    assert_eq!(p.evaluate_at_vertex(&[true, true]).unwrap(), fr(4));
}

#[test]
fn dense_fix_variable_interpolates_pairs() {
    let p = sample_2var();
    let q = p.fix_variable(fr(2)).unwrap();
    assert_eq!(q.num_vars, 1);
    // (1 - 2) [1, 3] + 2 [2, 4] = [3, 5]
    assert_eq!(q.evals, vec![fr(3), fr(5)]);
    let all = p.fix_variables(&[fr(2), fr(3)]).unwrap();
    assert_eq!(all.num_vars, 0);
    assert_eq!(all.evals, vec![fr(9)]);
    let step = q.fix_variable(fr(3)).unwrap();
    assert_eq!(step.evals, all.evals);
    let none = p.fix_variables(&[]).unwrap();
    assert_eq!(none.evals, p.evals);
}

#[test]
fn dense_sums_and_constants() {
    let p = sample_2var();
    assert_eq!(p.sum_over_hypercube(), fr(10));
    // Variable 0 at 0: entries 0 and 2; at 1: entries 1 and 3.
    let [s0, s1] = p.sumcheck_round();
    assert_eq!(s0, fr(4));
    assert_eq!(s1, fr(6));
    let one = DenseMLEPolynomial::one(3);
    assert_eq!(one.len(), 8);
    assert!(!one.is_empty());
    assert_eq!(one.sum_over_hypercube(), fr(8));
    let c = DenseMLEPolynomial::constant(fr(5), 2);
    assert_eq!(c.evals, vec![fr(5); 4]);
}

#[test]
fn sumcheck_honest_proof_is_accepted() {
    let evals: Vec<Scalar> = (0u64..8).map(|i| fr(i * i + 1)).collect();
    let p = DenseMLEPolynomial::new(evals);
    let challenges = vec![fr(3), fr(17), fr(5)];
    let proof = prove(&p, &challenges).unwrap();
    assert_eq!(proof.claimed_sum, p.sum_over_hypercube());
    assert_eq!(proof.round_polys.len(), 3);
    assert_eq!(proof.final_eval, p.evaluate(&challenges).unwrap());
    assert!(verify(&proof, &p).unwrap());
}

#[test]
fn sumcheck_rejects_tampering() {
    let p = sample_2var();
    let challenges = vec![fr(4), fr(9)];
    let proof = prove(&p, &challenges).unwrap();

    let mut wrong_claim: SumcheckProof = proof.clone();
    wrong_claim.claimed_sum = fr(11);
    assert!(!verify(&wrong_claim, &p).unwrap());

    let mut wrong_final = proof.clone();
    wrong_final.final_eval = proof.final_eval.add(&fr(1));
    assert!(!verify(&wrong_final, &p).unwrap());

    let mut missing_round = proof.clone();
    missing_round.round_polys.pop();
    assert!(!verify(&missing_round, &p).unwrap());

    let mut missing_challenge = proof.clone();
    missing_challenge.challenges.pop();
    assert!(!verify(&missing_challenge, &p).unwrap());
}

#[test]
fn sumcheck_without_variables() {
    let p = DenseMLEPolynomial::new(vec![fr(42)]);
    let proof = prove(&p, &[]).unwrap();
    assert_eq!(proof.claimed_sum, fr(42));
    assert!(verify(&proof, &p).unwrap());
}

#[test]
fn round_polynomial_helpers() {
    let s = UnivariatePoly::from_evals_at_01(fr(3), fr(10));
    assert_eq!(s.coeffs, vec![fr(3), fr(7)]);
    assert_eq!(s.eval(fr(0)), fr(3));
    assert_eq!(s.eval(fr(1)), fr(10));
    assert_eq!(s.eval(fr(2)), fr(17));
    assert_eq!(s.sum_at_0_and_1(), fr(13));
    assert_eq!(s.degree(), 1);
    assert_eq!(UnivariatePoly::new(vec![]).degree(), 0);
    // 1 + 2 t^2 at t = 3 is 19.
    assert_eq!(UnivariatePoly::new(vec![fr(1), fr(0), fr(2)]).eval(fr(3)), fr(19));
}

#[test]
fn index_utilities() {
    assert_eq!(two_pow(0), 1);
    assert_eq!(two_pow(10), 1024);
    assert_eq!(two_pow(63), 1usize << 63);
    assert_eq!(bit_reverse(0b0011, 4), 0b1100);
    assert_eq!(bit_reverse(0b1, 3), 0b100);
    assert_eq!(bit_reverse(0b110, 0), 0);
    assert_eq!(index_from_bits(&[true, false, true, true]), 0b1101);
    assert_eq!(le_index_from_bits(&[true, false, true, true]), 0b1101);
    assert_eq!(index_from_bits(&[]), 0);
    assert_eq!(le_index_from_bits(&[false, true]), 2);
}

#[test]
fn test_new_strips_trailing_zeros() {
    let p = poly(&[1, 2, 0, 0]);
    assert_eq!(p.coeffs.len(), 2);
    assert_eq!(p.coeffs, vec![f(1), f(2)]);
}

#[test]
fn test_new_all_zeros_becomes_zero_poly() {
    let p = poly(&[0, 0, 0]);
    assert!(p.is_zero());
}

#[test]
fn univariate_degree_and_zero() {
    assert_eq!(poly(&[3, 2, 5]).degree(), Some(2));
    let z = UnivariatePolynomial::zero();
    assert!(z.is_zero());
    assert_eq!(z.degree(), None);
    let p = poly(&[1, 0, 0]);
    assert_eq!(p.degree(), Some(0));
    assert_eq!(p.coeffs.len(), 1);
    let mut q = UnivariatePolynomial { coeffs: vec![f(4), f(0), f(0)] };
    q.truncate();
    assert_eq!(q.coeffs, vec![f(4)]);
}

#[test]
fn univariate_evaluate_horner() {
    let p = poly(&[3, 2, 5]);
    assert_eq!(p.evaluate(&f(4)), f(91));
    assert_eq!(UnivariatePolynomial::zero().evaluate(&f(42)), f(0));
}

#[test]
fn univariate_arithmetic() {
    let sum = poly(&[1, 2]) + poly(&[3, 4, 5]);
    assert_eq!(sum.coeffs, vec![f(4), f(6), f(5)]);
    let diff = poly(&[5, 3]) - poly(&[5, 3]);
    assert!(diff.is_zero());
    let product = poly(&[1, 1]) * poly(&[1, 1]);
    assert_eq!(product.coeffs, vec![f(1), f(2), f(1)]);
    let p = poly(&[3, 7]);
    let neg_p = -p.clone();
    assert_eq!(neg_p.coeffs, vec![f(-3), f(-7)]);
    assert!((p + neg_p).is_zero());
    assert!((poly(&[1, 2]) * UnivariatePolynomial::zero()).is_zero());
    // (x - 1)(x + 1) = x^2 - 1
    assert_eq!((poly(&[-1, 1]) * poly(&[1, 1])).coeffs, vec![f(-1), f(0), f(1)]);
}

#[test]
fn univariate_lagrange_line() {
    let points = vec![(f(1), f(2)), (f(3), f(10))];
    let p = UnivariatePolynomial::interpolate(&points);
    assert_eq!(p.evaluate(&f(1)), f(2));
    assert_eq!(p.evaluate(&f(3)), f(10));
    assert_eq!(p.degree(), Some(1));
    assert_eq!(p.coeffs, vec![f(-2), f(4)]);
}

#[test]
fn univariate_lagrange_quadratic() {
    let points = vec![(f(0), f(1)), (f(1), f(0)), (f(2), f(1))];
    let p = UnivariatePolynomial::interpolate(&points);
    assert_eq!(p.evaluate(&f(0)), f(1));
    assert_eq!(p.evaluate(&f(1)), f(0));
    assert_eq!(p.evaluate(&f(2)), f(1));
    assert_eq!(p.degree(), Some(2));
    assert_eq!(p.coeffs, vec![f(1), f(-2), f(1)]);
}

#[test]
fn univariate_interpolate_single_zero_point() {
    let p = UnivariatePolynomial::interpolate(&[(f(5), f(0))]);
    assert!(p.is_zero());
}

#[test]
fn bit_reverse_is_its_own_inverse() {
    assert_eq!(bit_reverse(bit_reverse(0b1011, 4), 4), 0b1011);
    // Bits above the width are dropped: 0b110110 keeps 0b110.
    assert_eq!(bit_reverse(0b110110, 3), 0b011);
    assert_eq!(bit_reverse(bit_reverse(0b110110, 3), 3), 0b110);
}

#[test]
fn wide_inputs_keep_the_low_word() {
    assert_eq!(bit_reverse(1, usize::BITS as usize), 1usize << (usize::BITS - 1));
    assert_eq!(bit_reverse(1, usize::BITS as usize + 1), 0);
    let mut low_set = vec![false; usize::BITS as usize + 1];
    low_set[0] = true;
    assert_eq!(index_from_bits(&low_set), 1);
    let mut high_set = vec![false; usize::BITS as usize + 1];
    high_set[usize::BITS as usize] = true;
    assert_eq!(index_from_bits(&high_set), 0);
}

#[test]
fn vertex_is_evaluation_at_the_same_point() {
    let evals: Vec<Scalar> = (10u64..18).map(fr).collect();
    let p = DenseMLEPolynomial::new(evals);
    let bits = [true, true, false];
    let point: Vec<Scalar> = bits.iter().map(|&b| if b { fr(1) } else { fr(0) }).collect();
    assert_eq!(p.evaluate(&point).unwrap(), p.evaluate_at_vertex(&bits).unwrap());
    assert_eq!(p.evaluate_at_vertex(&bits).unwrap(), fr(13));
}

#[test]
fn evaluate_little_endian_example() {
    let p = DenseMLEPolynomial::new(vec![fr(1), fr(3), fr(5), fr(7)]);
    assert_eq!(p.evaluate(&[fr(0), fr(0)]).unwrap(), fr(1));
    assert_eq!(p.evaluate(&[fr(1), fr(0)]).unwrap(), fr(3));
    assert_eq!(p.evaluate(&[fr(1), fr(1)]).unwrap(), fr(7));
    assert_eq!(p.evaluate(&[fr(2), fr(3)]).unwrap(), fr(17));
    let g = p.fix_variable(fr(2)).unwrap();
    assert_eq!(g.num_vars, 1);
    assert_eq!(g.evals, vec![fr(5), fr(9)]);
    assert_eq!(g.evaluate(&[fr(3)]).unwrap(), fr(17));
}

#[test]
fn evaluation_after_fixing_matches_direct_evaluation() {
    let p = DenseMLEPolynomial::new(vec![fr(10), fr(20), fr(30), fr(40)]);
    let (r1, r2) = (fr(5), fr(7));
    let direct = p.evaluate(&[r1, r2]).unwrap();
    let via_partial = p.fix_variable(r1).unwrap().evaluate(&[r2]).unwrap();
    assert_eq!(direct, via_partial);
}

#[test]
fn bit_reverse_stays_below_the_width() {
    assert_eq!(bit_reverse(0b0011, 4), 0b1100);
    assert_eq!(bit_reverse(0b1111_0001, 4), 0b1000);
    assert!(bit_reverse(0b1111_0001, 4) < two_pow(4));
}

#[test]
fn product_degree_is_sum_of_degrees() {
    let p = poly(&[1, 1]);
    let q = poly(&[-1, 0, 3]);
    let m = p.clone() * q.clone();
    assert_eq!(m.degree(), Some(3));
    assert_eq!(m.coeffs, vec![f(-1), f(-1), f(3), f(3)]);
    assert!((UnivariatePolynomial::zero() * q).is_zero());
    assert!((p * UnivariatePolynomial::zero()).is_zero());
}
