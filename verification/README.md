# qr_encoder

The error correction and matrix parts of a QR code encoder, verified with Verus.

- `src/gf.rs`: GF(256) by exponent and logarithm tables; the tables are shown to be
  mutually inverse.
- `src/gf_powers.rs`: the exponent table lists the powers of the primitive element
  `x` (modulo x^8 + x^4 + x^3 + x^2 + 1); multiplication distributes over addition.
- `src/poly.rs`: polynomials over GF(256) as coefficient sequences, their product,
  and the uniqueness of the remainder of a division by a monic polynomial.
- `src/ec.rs`: Reed–Solomon error correction codewords: `xor`, `divide`, `get_ec`,
  `get_eclength`, `error_correction`. `get_ec` is proved to return the remainder of
  the data block, shifted, divided by the generator polynomial.
- `src/rs_code.rs`: the value of a polynomial at a point; every data block followed
  by its error correction codewords vanishes at the roots of the generator.
- `src/generator_roots.rs`: each generator polynomial evaluated, step by step, at
  each of its roots.
- `src/bit_matrix.rs`: the matrix of modules, held in an `ndarray` array.
- `src/qr.rs`, `src/encode.rs`: the QR code record and its encode modes.
- `app/lib.rs`: serde serialization and a rayon-parallel error correction.
