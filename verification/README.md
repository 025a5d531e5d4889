# crypto_primitives

Cryptographic primitives for learning, with their behaviour stated in
contracts and proved by Verus.

- `ecc`: prime-field arithmetic, elliptic-curve points with the
  chord-and-tangent law, double-and-add scalar multiplication and a toy
  ECDSA, all written without outside cryptographic code. `lucas` proves
  Lucas's primality test. `closure` proves
  that sums and multiples of points of a curve stay on the curve, and
  `group_laws` that the point at infinity is the identity, that a point and
  its mirror image add up to it, and that addition commutes. `multiples`
  and `ecdsa` prove that `(j + k) P = j P + k P` and that an honest ECDSA
  signature verifies, on curves whose addition is associative; associativity
  itself is taken as a hypothesis there, not proved.
- `curve`: the BLS12-381 scalar field, the groups G1, G2, GT and the pairing,
  computed by arkworks behind small trusted wrappers; an element is modelled
  by its discrete logarithm, so the group operations are arithmetic modulo
  the group order `r`. `modulus_prime` proves that `r` is prime with a
  Lucas certificate.
- `bls`: BLS key generation, signing, verification and aggregation, with the
  proof that an honest signature (and an aggregate of signatures on one
  message) verifies.
- `pedersen`: Pedersen commitments `v G + r H`, their homomorphism,
  binding and (given that `H` is not the identity) hiding, and
  confidential accounts whose transfers conserve the total balance.
- `univariate`: polynomials in coefficient form with trimming, Horner
  evaluation, ring operations and Lagrange interpolation; evaluation is
  proved to respect every operation, the degree of a product is the sum of
  the degrees, and the interpolant is the unique polynomial through its
  points (`roots`).
- `multilinear`: dense multilinear polynomials over the hypercube, stored in
  little-endian index order (variable 0 is the least significant bit), partial
  and full evaluation, and the sumcheck prover and verifier, with the proof
  that an honest proof is accepted.

`app/` runs the demonstrations and prints their results; `tests/` holds the
tests.
