use vstd::prelude::*;

use crate::gf::{gf_mul, gf_scale, lemma_scaled_coefficient, poly_from_logs, GF_ANTILOGS, GF_LOGS};
use crate::poly::{
    byte_at, is_ec_remainder, lemma_codeword_layout, lemma_division_start, lemma_division_step,
    lemma_poly_mul_len, place, poly_mul, seq_xor, xor_tail,
};

verus! {

/// The four levels of error correction of a QR code, from the lowest to the highest.
#[derive(Clone, Copy, Debug, PartialEq, Eq)]
pub enum ErrorCorrectionLevel {
    L,
    M,
    Q,
    H,
}

/// Error correction codewords per block at level L, by version from 1 to 40.
pub const EC_CODEWORDS_PER_BLOCK_BY_EC_LEVEL_AND_VERSION_L: [usize; 40] = [7, 10, 15, 20, 26, 18, 20, 24, 30, 18, 20, 24, 26, 30, 22, 24, 28, 30, 28, 28, 28, 28, 30, 30, 26, 28, 30, 30, 30, 30, 30, 30, 30, 30, 30, 30, 30, 30, 30, 30];

/// Error correction codewords per block at level M, by version from 1 to 40.
pub const EC_CODEWORDS_PER_BLOCK_BY_EC_LEVEL_AND_VERSION_M: [usize; 40] = [10, 16, 26, 18, 24, 16, 18, 22, 22, 26, 30, 22, 22, 24, 24, 28, 28, 26, 26, 26, 26, 28, 28, 28, 28, 28, 28, 28, 28, 28, 28, 28, 28, 28, 28, 28, 28, 28, 28, 28];

/// Error correction codewords per block at level Q, by version from 1 to 40.
pub const EC_CODEWORDS_PER_BLOCK_BY_EC_LEVEL_AND_VERSION_Q: [usize; 40] = [13, 22, 18, 26, 18, 24, 18, 22, 20, 24, 28, 26, 24, 20, 30, 24, 28, 28, 26, 30, 28, 30, 30, 30, 30, 28, 30, 30, 30, 30, 30, 30, 30, 30, 30, 30, 30, 30, 30, 30];

/// Error correction codewords per block at level H, by version from 1 to 40.
pub const EC_CODEWORDS_PER_BLOCK_BY_EC_LEVEL_AND_VERSION_H: [usize; 40] = [17, 28, 22, 16, 22, 28, 26, 26, 24, 28, 24, 28, 22, 24, 24, 30, 28, 28, 26, 28, 30, 24, 30, 30, 30, 30, 30, 30, 30, 30, 30, 30, 30, 30, 30, 30, 30, 30, 30, 30];

/// Adds one summand of the tail of the pair of padded sequences.
fn padded_xor_at(a: &Vec<u8>, b: &Vec<u8>, i: usize) -> (r: u8)
    ensures
        r == byte_at(b@, i as int) ^ byte_at(a@, i as int),
{
    let x: u8 = if i < b.len() {
        b[i]
    } else {
        0
    };
    let y: u8 = if i < a.len() {
        a[i]
    } else {
        0
    };
    x ^ y
}

/// Adds two polynomials given by their coefficients, highest degree first, after
/// padding the shorter one with zeros at its end, and drops the leading coefficient.
pub fn xor(a: &Vec<u8>, b: &Vec<u8>) -> (r: Vec<u8>)
    ensures
        r@ == xor_tail(a@, b@),
{
    let n: usize = if a.len() >= b.len() {
        a.len()
    } else {
        b.len()
    };
    let mut remainder: Vec<u8> = Vec::new();
    let mut i: usize = 1;
    while i < n
        invariant
            1 <= i,
            n == (if a.len() >= b.len() { a.len() } else { b.len() }),
            i <= n || i == 1,
            remainder@ =~= Seq::new((i - 1) as nat, |j: int| byte_at(b@, j + 1) ^ byte_at(a@, j + 1)),
        decreases n - i,
    {
        remainder.push(padded_xor_at(a, b, i));
        i += 1;
    }
    assert(remainder@ =~= xor_tail(a@, b@));
    remainder
}

/// One step of polynomial long division in GF(256): the leading coefficient of
/// `mp` times the generator `gp` (given by the logarithms of its coefficients) is
/// added to `mp`, and the leading coefficient, which cancels, is dropped.
pub fn divide(mp: &Vec<u8>, gp: &Vec<u8>) -> (r: Vec<u8>)
    requires
        mp.len() > 0,
    ensures
        r@ == xor_tail(gf_scale(mp@[0], poly_from_logs(gp@)), mp@),
{
    let lead: u8 = mp[0];
    let mut scaled: Vec<u8> = Vec::new();
    if lead > 0 {
        let shift: u32 = GF_ANTILOGS[lead as usize] as u32;
        proof {
            lemma_scaled_coefficient(lead, 0);
        }
        let mut i: usize = 0;
        while i < gp.len()
            invariant
                0 < lead,
                lead == mp@[0],
                shift == GF_ANTILOGS[lead as int],
                shift < 255,
                i <= gp.len(),
                scaled@ =~= Seq::new(i as nat, |j: int| gf_mul(lead, GF_LOGS[gp@[j] as int])),
            decreases gp.len() - i,
        {
            let mut temp: u32 = gp[i] as u32 + shift;
            if temp > 255 {
                temp %= 255;
            }
            proof {
                lemma_scaled_coefficient(lead, gp@[i as int]);
            }
            scaled.push(GF_LOGS[temp as usize]);
            i += 1;
        }
    } else {
        let mut i: usize = 0;
        while i < gp.len()
            invariant
                lead == 0,
                i <= gp.len(),
                scaled@ =~= Seq::new(i as nat, |j: int| gf_mul(lead, GF_LOGS[gp@[j] as int])),
            decreases gp.len() - i,
        {
            scaled.push(0);
            i += 1;
        }
    }
    assert(scaled@ =~= gf_scale(mp@[0], poly_from_logs(gp@)));
    xor(&scaled, mp)
}

/// The lengths of error correction that have a generator polynomial.
pub open spec fn is_generator_length(g: int) -> bool {
    g == 7 || g == 10 || g == 13 || g == 15 || g == 16 || g == 17 || g == 18 || g == 20 || g == 22 || g == 24 || g == 26 || g == 28 || g == 30
}

/// The generator polynomial for `g` error correction codewords, given by the
/// logarithms of its coefficients, highest degree first.
pub open spec fn generator_log_poly(g: int) -> Seq<u8> {
    if g == 7 {
        seq![0, 87, 229, 146, 149, 238, 102, 21]
    } else if g == 10 {
        seq![0, 251, 67, 46, 61, 118, 70, 64, 94, 32, 45]
    } else if g == 13 {
        seq![0, 74, 152, 176, 100, 86, 100, 106, 104, 130, 218, 206, 140, 78]
    } else if g == 15 {
        seq![0, 8, 183, 61, 91, 202, 37, 51, 58, 58, 237, 140, 124, 5, 99, 105]
    } else if g == 16 {
        seq![0, 120, 104, 107, 109, 102, 161, 76, 3, 91, 191, 147, 169, 182, 194, 225, 120]
    } else if g == 17 {
        seq![0, 43, 139, 206, 78, 43, 239, 123, 206, 214, 147, 24, 99, 150, 39, 243, 163, 136]
    } else if g == 18 {
        seq![0, 215, 234, 158, 94, 184, 97, 118, 170, 79, 187, 152, 148, 252, 179, 5, 98, 96, 153]
    } else if g == 20 {
        seq![0, 17, 60, 79, 50, 61, 163, 26, 187, 202, 180, 221, 225, 83, 239, 156, 164, 212, 212, 188, 190]
    } else if g == 22 {
        seq![0, 210, 171, 247, 242, 93, 230, 14, 109, 221, 53, 200, 74, 8, 172, 98, 80, 219, 134, 160, 105, 165, 231]
    } else if g == 24 {
        seq![0, 229, 121, 135, 48, 211, 117, 251, 126, 159, 180, 169, 152, 192, 226, 228, 218, 111, 0, 117, 232, 87, 96, 227, 21]
    } else if g == 26 {
        seq![0, 173, 125, 158, 2, 103, 182, 118, 17, 145, 201, 111, 28, 165, 53, 161, 21, 245, 142, 13, 102, 48, 227, 153, 145, 218, 70]
    } else if g == 28 {
        seq![0, 168, 223, 200, 104, 224, 234, 108, 180, 110, 190, 195, 147, 205, 27, 232, 201, 21, 43, 245, 87, 42, 195, 212, 119, 242, 37, 9, 123]
    } else if g == 30 {
        seq![0, 41, 173, 145, 152, 216, 31, 179, 182, 50, 48, 110, 86, 239, 96, 222, 125, 42, 173, 226, 193, 224, 130, 156, 37, 251, 216, 238, 40, 192, 180]
    } else {
        Seq::empty()
    }
}

/// The generator polynomial for `g` error correction codewords, by its coefficients.
pub open spec fn generator_poly(g: int) -> Seq<u8> {
    poly_from_logs(generator_log_poly(g))
}

/// Each generator polynomial is monic and of degree `g`.
pub proof fn lemma_generator_shape(g: int)
    requires
        is_generator_length(g),
    ensures
        generator_log_poly(g).len() == g + 1,
        generator_log_poly(g)[0] == 0,
        generator_poly(g).len() == g + 1,
        generator_poly(g)[0] == 1,
{
}

/// The generator polynomial for `gp_length` codewords, by the logarithms of its coefficients.
fn generator_log_vec(gp_length: usize) -> (v: Vec<u8>)
    requires
        is_generator_length(gp_length as int),
    ensures
        v@ == generator_log_poly(gp_length as int),
{
    match gp_length {
        7 => vec![0, 87, 229, 146, 149, 238, 102, 21],
        10 => vec![0, 251, 67, 46, 61, 118, 70, 64, 94, 32, 45],
        13 => vec![0, 74, 152, 176, 100, 86, 100, 106, 104, 130, 218, 206, 140, 78],
        15 => vec![0, 8, 183, 61, 91, 202, 37, 51, 58, 58, 237, 140, 124, 5, 99, 105],
        16 => vec![0, 120, 104, 107, 109, 102, 161, 76, 3, 91, 191, 147, 169, 182, 194, 225, 120],
        17 => vec![0, 43, 139, 206, 78, 43, 239, 123, 206, 214, 147, 24, 99, 150, 39, 243, 163, 136],
        18 => vec![0, 215, 234, 158, 94, 184, 97, 118, 170, 79, 187, 152, 148, 252, 179, 5, 98, 96, 153],
        20 => vec![0, 17, 60, 79, 50, 61, 163, 26, 187, 202, 180, 221, 225, 83, 239, 156, 164, 212, 212, 188, 190],
        22 => vec![0, 210, 171, 247, 242, 93, 230, 14, 109, 221, 53, 200, 74, 8, 172, 98, 80, 219, 134, 160, 105, 165, 231],
        24 => vec![0, 229, 121, 135, 48, 211, 117, 251, 126, 159, 180, 169, 152, 192, 226, 228, 218, 111, 0, 117, 232, 87, 96, 227, 21],
        26 => vec![0, 173, 125, 158, 2, 103, 182, 118, 17, 145, 201, 111, 28, 165, 53, 161, 21, 245, 142, 13, 102, 48, 227, 153, 145, 218, 70],
        28 => vec![0, 168, 223, 200, 104, 224, 234, 108, 180, 110, 190, 195, 147, 205, 27, 232, 201, 21, 43, 245, 87, 42, 195, 212, 119, 242, 37, 9, 123],
        30 => vec![0, 41, 173, 145, 152, 216, 31, 179, 182, 50, 48, 110, 86, 239, 96, 222, 125, 42, 173, 226, 193, 224, 130, 156, 37, 251, 216, 238, 40, 192, 180],
        _ => vec![],
    }
}

/// The error correction codewords of one data block: the remainder of the block,
/// shifted up by `gp_length`, divided by the generator polynomial of `gp_length`
/// codewords.
pub fn get_ec(codeword_block: &Vec<u8>, gp_length: usize) -> (ec: Vec<u8>)
    requires
        is_generator_length(gp_length as int),
    ensures
        ec.len() == (if codeword_block.len() == 0 {
            0
        } else {
            gp_length
        }),
        is_ec_remainder(codeword_block@, ec@, generator_poly(gp_length as int)),
{
    let generator_poly_logs: Vec<u8> = generator_log_vec(gp_length);
    let ghost gen = generator_poly(gp_length as int);
    let ghost msg = codeword_block@;
    let ghost n = msg.len();
    let ghost g = gp_length as nat;
    let ghost t = n + g;
    proof {
        lemma_generator_shape(gp_length as int);
    }
    let mut remainder: Vec<u8> = codeword_block.clone();
    let ghost mut q: Seq<u8> = Seq::empty();
    proof {
        lemma_division_start(msg, gen, t);
    }
    let len: usize = codeword_block.len();
    let mut k: usize = 0;
    while k < len
        invariant
            len == n,
            msg == codeword_block@,
            g == gp_length,
            g >= 7,
            t == n + g,
            gen == generator_poly(gp_length as int),
            gen.len() == g + 1,
            gen[0] == 1,
            generator_poly_logs@ == generator_log_poly(gp_length as int),
            gen == poly_from_logs(generator_poly_logs@),
            k <= len,
            q.len() == k,
            remainder@.len() == (if k == 0 {
                n as int
            } else if n - k >= g {
                n - k
            } else {
                g as int
            }),
            seq_xor(place(msg, 0, t), place(remainder@, k as int, t)) == poly_mul(q, gen, t),
        decreases len - k,
    {
        proof {
            lemma_division_step(msg, remainder@, gen, q, t);
            q = q.push(remainder@[0]);
        }
        remainder = divide(&remainder, &generator_poly_logs);
        k += 1;
    }
    proof {
        if n > 0 {
            lemma_codeword_layout(msg, remainder@);
            lemma_poly_mul_len(q, gen, t);
            assert(msg + remainder@ == poly_mul(q, gen, msg.len() + remainder@.len()));
        }
    }
    remainder
}

/// The number of error correction codewords per block at a level and version,
/// as the tables give it.
pub open spec fn ec_codewords_per_block(eclevel: ErrorCorrectionLevel, version: u8) -> usize
    recommends
        1 <= version <= 40,
{
    let i = version - 1;
    match eclevel {
        ErrorCorrectionLevel::L => EC_CODEWORDS_PER_BLOCK_BY_EC_LEVEL_AND_VERSION_L[i],
        ErrorCorrectionLevel::M => EC_CODEWORDS_PER_BLOCK_BY_EC_LEVEL_AND_VERSION_M[i],
        ErrorCorrectionLevel::Q => EC_CODEWORDS_PER_BLOCK_BY_EC_LEVEL_AND_VERSION_Q[i],
        ErrorCorrectionLevel::H => EC_CODEWORDS_PER_BLOCK_BY_EC_LEVEL_AND_VERSION_H[i],
    }
}

spec fn versions_have_generators(eclevel: ErrorCorrectionLevel, n: nat) -> bool
    decreases n,
{
    if n == 0 {
        true
    } else {
        &&& versions_have_generators(eclevel, (n - 1) as nat)
        &&& is_generator_length(ec_codewords_per_block(eclevel, n as u8) as int)
    }
}

proof fn lemma_versions_have_generators(eclevel: ErrorCorrectionLevel, n: nat)
    requires
        versions_have_generators(eclevel, n),
        n <= 40,
    ensures
        forall|v: u8|
            1 <= v <= n ==> is_generator_length(#[trigger] ec_codewords_per_block(eclevel, v) as int),
    decreases n,
{
    if n > 0 {
        lemma_versions_have_generators(eclevel, (n - 1) as nat);
    }
}

/// Every entry of the tables of error correction codewords per block has a
/// generator polynomial.
pub proof fn lemma_ec_lengths_have_generators(eclevel: ErrorCorrectionLevel, version: u8)
    requires
        1 <= version <= 40,
    ensures
        is_generator_length(ec_codewords_per_block(eclevel, version) as int),
{
    assert(versions_have_generators(eclevel, 40)) by {
        reveal_with_fuel(versions_have_generators, 41);
    }
    lemma_versions_have_generators(eclevel, 40);
}

/// The table of codewords per block that a level reads is that level's own table:
/// at version `v`, level L reads entry `v - 1` of `EC_CODEWORDS_PER_BLOCK_BY_EC_LEVEL_AND_VERSION_L`, level M of
/// `EC_CODEWORDS_PER_BLOCK_BY_EC_LEVEL_AND_VERSION_M`, level Q of `EC_CODEWORDS_PER_BLOCK_BY_EC_LEVEL_AND_VERSION_Q`, level H of `EC_CODEWORDS_PER_BLOCK_BY_EC_LEVEL_AND_VERSION_H`.
pub proof fn lemma_ec_codewords_per_block_by_level(eclevel: ErrorCorrectionLevel, version: u8)
    requires
        1 <= version <= 40,
    ensures
        eclevel is L ==> ec_codewords_per_block(eclevel, version) == EC_CODEWORDS_PER_BLOCK_BY_EC_LEVEL_AND_VERSION_L[version - 1],
        eclevel is M ==> ec_codewords_per_block(eclevel, version) == EC_CODEWORDS_PER_BLOCK_BY_EC_LEVEL_AND_VERSION_M[version - 1],
        eclevel is Q ==> ec_codewords_per_block(eclevel, version) == EC_CODEWORDS_PER_BLOCK_BY_EC_LEVEL_AND_VERSION_Q[version - 1],
        eclevel is H ==> ec_codewords_per_block(eclevel, version) == EC_CODEWORDS_PER_BLOCK_BY_EC_LEVEL_AND_VERSION_H[version - 1],
{
}

/// The number of error correction codewords per block for a level and a version.
pub fn get_eclength(eclevel: ErrorCorrectionLevel, version: u8) -> (r: usize)
    requires
        1 <= version <= 40,
    ensures
        r == ec_codewords_per_block(eclevel, version),
        eclevel is L ==> r == EC_CODEWORDS_PER_BLOCK_BY_EC_LEVEL_AND_VERSION_L[version - 1],
        eclevel is M ==> r == EC_CODEWORDS_PER_BLOCK_BY_EC_LEVEL_AND_VERSION_M[version - 1],
        eclevel is Q ==> r == EC_CODEWORDS_PER_BLOCK_BY_EC_LEVEL_AND_VERSION_Q[version - 1],
        eclevel is H ==> r == EC_CODEWORDS_PER_BLOCK_BY_EC_LEVEL_AND_VERSION_H[version - 1],
        is_generator_length(r as int),
{
    proof {
        lemma_ec_lengths_have_generators(eclevel, version);
        lemma_ec_codewords_per_block_by_level(eclevel, version);
    }
    let i: usize = version as usize - 1;
    match eclevel {
        ErrorCorrectionLevel::L => EC_CODEWORDS_PER_BLOCK_BY_EC_LEVEL_AND_VERSION_L[i],
        ErrorCorrectionLevel::M => EC_CODEWORDS_PER_BLOCK_BY_EC_LEVEL_AND_VERSION_M[i],
        ErrorCorrectionLevel::Q => EC_CODEWORDS_PER_BLOCK_BY_EC_LEVEL_AND_VERSION_Q[i],
        ErrorCorrectionLevel::H => EC_CODEWORDS_PER_BLOCK_BY_EC_LEVEL_AND_VERSION_H[i],
    }
}

/// The error correction codewords of each data block, in order, for a level and a version.
pub fn error_correction(
    codewords: &Vec<Vec<u8>>,
    eclevel: ErrorCorrectionLevel,
    version: u8,
) -> (ecpool: Vec<Vec<u8>>)
    requires
        1 <= version <= 40,
    ensures
        ecpool.len() == codewords.len(),
        forall|i: int|
            0 <= i < codewords.len() ==> is_ec_remainder(
                #[trigger] codewords@[i]@,
                ecpool@[i]@,
                generator_poly(ec_codewords_per_block(eclevel, version) as int),
            ),
        forall|i: int|
            0 <= i < codewords.len() ==> #[trigger] ecpool@[i]@.len() == (if codewords@[i]@.len()
                == 0 {
                0
            } else {
                match eclevel {
                    ErrorCorrectionLevel::L => EC_CODEWORDS_PER_BLOCK_BY_EC_LEVEL_AND_VERSION_L[version - 1],
                    ErrorCorrectionLevel::M => EC_CODEWORDS_PER_BLOCK_BY_EC_LEVEL_AND_VERSION_M[version - 1],
                    ErrorCorrectionLevel::Q => EC_CODEWORDS_PER_BLOCK_BY_EC_LEVEL_AND_VERSION_Q[version - 1],
                    ErrorCorrectionLevel::H => EC_CODEWORDS_PER_BLOCK_BY_EC_LEVEL_AND_VERSION_H[version - 1],
                }
            }),
{
    let gplength: usize = get_eclength(eclevel, version);
    let mut ecpool: Vec<Vec<u8>> = Vec::new();
    let mut i: usize = 0;
    while i < codewords.len()
        invariant
            gplength == ec_codewords_per_block(eclevel, version),
            is_generator_length(gplength as int),
            i <= codewords.len(),
            ecpool.len() == i,
            forall|j: int|
                0 <= j < i ==> is_ec_remainder(
                    #[trigger] codewords@[j]@,
                    ecpool@[j]@,
                    generator_poly(gplength as int),
                ),
            forall|j: int|
                0 <= j < i ==> #[trigger] ecpool@[j]@.len() == (if codewords@[j]@.len() == 0 {
                    0
                } else {
                    gplength as int
                }),
            1 <= version <= 40,
            eclevel is L ==> gplength == EC_CODEWORDS_PER_BLOCK_BY_EC_LEVEL_AND_VERSION_L[version - 1],
            eclevel is M ==> gplength == EC_CODEWORDS_PER_BLOCK_BY_EC_LEVEL_AND_VERSION_M[version - 1],
            eclevel is Q ==> gplength == EC_CODEWORDS_PER_BLOCK_BY_EC_LEVEL_AND_VERSION_Q[version - 1],
            eclevel is H ==> gplength == EC_CODEWORDS_PER_BLOCK_BY_EC_LEVEL_AND_VERSION_H[version - 1],
        decreases codewords.len() - i,
    {
        let ec: Vec<u8> = get_ec(&codewords[i], gplength);
        ecpool.push(ec);
        i += 1;
    }
    ecpool
}

impl ErrorCorrectionLevel {
    /// The index and the name of the variant that serialization writes for the
    /// level. The level `H` is written under the name "M".
    pub fn serde_variant(&self) -> (r: (u32, &'static str))
        ensures
            r == (match *self {
                ErrorCorrectionLevel::L => (0u32, "L"),
                ErrorCorrectionLevel::M => (1u32, "M"),
                ErrorCorrectionLevel::Q => (2u32, "Q"),
                ErrorCorrectionLevel::H => (3u32, "M"),
            }),
    {
        match *self {
            ErrorCorrectionLevel::L => (0, "L"),
            ErrorCorrectionLevel::M => (1, "M"),
            ErrorCorrectionLevel::Q => (2, "Q"),
            ErrorCorrectionLevel::H => (3, "M"),
        }
    }
}

} // verus!
