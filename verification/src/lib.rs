//! Reed–Solomon error correction and the matrix of modules of QR codes, verified
//! with Verus.

pub mod bit_matrix;
pub mod ec;
pub mod encode;
pub mod gf;
pub mod gf_powers;
pub mod poly;
pub mod prelude;
pub mod qr;
pub mod rs_code;
pub mod generator_roots;
