// Each generator polynomial is evaluated here at each of its roots, one Horner step
// per assertion: the products come from the tables, the sums from the bit-level
// lemmas, so that the evaluation needs no search.

use vstd::prelude::*;

use crate::ec::{generator_poly, is_generator_length};
use crate::gf::{gf_mul, GF_LOGS};

verus! {

/// The value at `x` of the polynomial made of the first `n` coefficients of `p`,
/// highest degree first, by Horner's rule.
pub open spec fn eval_prefix(p: Seq<u8>, x: u8, n: nat) -> u8
    decreases n,
{
    if n == 0 {
        0
    } else {
        gf_mul(eval_prefix(p, x, (n - 1) as nat), x) ^ p[n - 1]
    }
}

/// The coefficients of the generator polynomial of degree 7.
spec fn generator_coeffs_7() -> Seq<u8> {
    seq![
        1u8, 127u8, 122u8, 154u8, 164u8, 11u8, 68u8, 117u8,
    ]
}

/// The sums that evaluating the generator polynomial of degree 7 at its roots takes.
proof fn lemma_sums_7()
    by (bit_vector)
    ensures
        0u8 ^ 1u8 == 1u8, 1u8 ^ 127u8 == 126u8, 2u8 ^ 127u8 == 125u8, 4u8 ^ 127u8 == 123u8,
        4u8 ^ 154u8 == 158u8, 8u8 ^ 68u8 == 76u8, 8u8 ^ 127u8 == 119u8, 10u8 ^ 164u8 == 174u8,
        16u8 ^ 127u8 == 111u8, 19u8 ^ 164u8 == 183u8, 20u8 ^ 164u8 == 176u8, 22u8 ^ 154u8 == 140u8,
        29u8 ^ 154u8 == 135u8, 30u8 ^ 68u8 == 90u8, 32u8 ^ 127u8 == 95u8, 47u8 ^ 122u8 == 85u8,
        49u8 ^ 68u8 == 117u8, 58u8 ^ 11u8 == 49u8, 64u8 ^ 127u8 == 63u8, 64u8 ^ 154u8 == 218u8,
        76u8 ^ 11u8 == 71u8, 76u8 ^ 164u8 == 232u8, 91u8 ^ 164u8 == 255u8, 98u8 ^ 68u8 == 38u8,
        105u8 ^ 68u8 == 45u8, 114u8 ^ 154u8 == 232u8, 115u8 ^ 11u8 == 120u8, 117u8 ^ 117u8 == 0u8,
        123u8 ^ 122u8 == 1u8, 123u8 ^ 154u8 == 225u8, 126u8 ^ 122u8 == 4u8, 130u8 ^ 11u8 == 137u8,
        132u8 ^ 164u8 == 32u8, 158u8 ^ 164u8 == 58u8, 159u8 ^ 122u8 == 229u8, 171u8 ^ 11u8 == 160u8,
        190u8 ^ 122u8 == 196u8, 207u8 ^ 11u8 == 196u8, 220u8 ^ 68u8 == 152u8, 220u8 ^ 154u8 == 70u8,
        232u8 ^ 11u8 == 227u8, 240u8 ^ 68u8 == 180u8, 241u8 ^ 122u8 == 139u8, 250u8 ^ 122u8 == 128u8,
{
}

proof fn lemma_generator_7_root_0()
    ensures
        eval_prefix(generator_coeffs_7(), GF_LOGS[0], 8) == 0,
{
    lemma_sums_7();
    let p = generator_coeffs_7();
    let x = GF_LOGS[0];
    assert(eval_prefix(p, x, 0) == 0u8);
    assert(eval_prefix(p, x, 1) == 1u8);
    assert(eval_prefix(p, x, 2) == 126u8);
    assert(eval_prefix(p, x, 3) == 4u8);
    assert(eval_prefix(p, x, 4) == 158u8);
    assert(eval_prefix(p, x, 5) == 58u8);
    assert(eval_prefix(p, x, 6) == 49u8);
    assert(eval_prefix(p, x, 7) == 117u8);
    assert(eval_prefix(p, x, 8) == 0u8);
}

proof fn lemma_generator_7_root_1()
    ensures
        eval_prefix(generator_coeffs_7(), GF_LOGS[1], 8) == 0,
{
    lemma_sums_7();
    let p = generator_coeffs_7();
    let x = GF_LOGS[1];
    assert(eval_prefix(p, x, 0) == 0u8);
    assert(eval_prefix(p, x, 1) == 1u8);
    assert(eval_prefix(p, x, 2) == 125u8);
    assert(eval_prefix(p, x, 3) == 128u8);
    assert(eval_prefix(p, x, 4) == 135u8);
    assert(eval_prefix(p, x, 5) == 183u8);
    assert(eval_prefix(p, x, 6) == 120u8);
    assert(eval_prefix(p, x, 7) == 180u8);
    assert(eval_prefix(p, x, 8) == 0u8);
}

proof fn lemma_generator_7_root_2()
    ensures
        eval_prefix(generator_coeffs_7(), GF_LOGS[2], 8) == 0,
{
    lemma_sums_7();
    let p = generator_coeffs_7();
    let x = GF_LOGS[2];
    assert(eval_prefix(p, x, 0) == 0u8);
    assert(eval_prefix(p, x, 1) == 1u8);
    assert(eval_prefix(p, x, 2) == 123u8);
    assert(eval_prefix(p, x, 3) == 139u8);
    assert(eval_prefix(p, x, 4) == 140u8);
    assert(eval_prefix(p, x, 5) == 174u8);
    assert(eval_prefix(p, x, 6) == 137u8);
    assert(eval_prefix(p, x, 7) == 90u8);
    assert(eval_prefix(p, x, 8) == 0u8);
}

proof fn lemma_generator_7_root_3()
    ensures
        eval_prefix(generator_coeffs_7(), GF_LOGS[3], 8) == 0,
{
    lemma_sums_7();
    let p = generator_coeffs_7();
    let x = GF_LOGS[3];
    assert(eval_prefix(p, x, 0) == 0u8);
    assert(eval_prefix(p, x, 1) == 1u8);
    assert(eval_prefix(p, x, 2) == 119u8);
    assert(eval_prefix(p, x, 3) == 229u8);
    assert(eval_prefix(p, x, 4) == 225u8);
    assert(eval_prefix(p, x, 5) == 255u8);
    assert(eval_prefix(p, x, 6) == 160u8);
    assert(eval_prefix(p, x, 7) == 45u8);
    assert(eval_prefix(p, x, 8) == 0u8);
}

proof fn lemma_generator_7_root_4()
    ensures
        eval_prefix(generator_coeffs_7(), GF_LOGS[4], 8) == 0,
{
    lemma_sums_7();
    let p = generator_coeffs_7();
    let x = GF_LOGS[4];
    assert(eval_prefix(p, x, 0) == 0u8);
    assert(eval_prefix(p, x, 1) == 1u8);
    assert(eval_prefix(p, x, 2) == 111u8);
    assert(eval_prefix(p, x, 3) == 196u8);
    assert(eval_prefix(p, x, 4) == 70u8);
    assert(eval_prefix(p, x, 5) == 176u8);
    assert(eval_prefix(p, x, 6) == 196u8);
    assert(eval_prefix(p, x, 7) == 152u8);
    assert(eval_prefix(p, x, 8) == 0u8);
}

proof fn lemma_generator_7_root_5()
    ensures
        eval_prefix(generator_coeffs_7(), GF_LOGS[5], 8) == 0,
{
    lemma_sums_7();
    let p = generator_coeffs_7();
    let x = GF_LOGS[5];
    assert(eval_prefix(p, x, 0) == 0u8);
    assert(eval_prefix(p, x, 1) == 1u8);
    assert(eval_prefix(p, x, 2) == 95u8);
    assert(eval_prefix(p, x, 3) == 85u8);
    assert(eval_prefix(p, x, 4) == 232u8);
    assert(eval_prefix(p, x, 5) == 232u8);
    assert(eval_prefix(p, x, 6) == 71u8);
    assert(eval_prefix(p, x, 7) == 76u8);
    assert(eval_prefix(p, x, 8) == 0u8);
}

proof fn lemma_generator_7_root_6()
    ensures
        eval_prefix(generator_coeffs_7(), GF_LOGS[6], 8) == 0,
{
    lemma_sums_7();
    let p = generator_coeffs_7();
    let x = GF_LOGS[6];
    assert(eval_prefix(p, x, 0) == 0u8);
    assert(eval_prefix(p, x, 1) == 1u8);
    assert(eval_prefix(p, x, 2) == 63u8);
    assert(eval_prefix(p, x, 3) == 1u8);
    assert(eval_prefix(p, x, 4) == 218u8);
    assert(eval_prefix(p, x, 5) == 32u8);
    assert(eval_prefix(p, x, 6) == 227u8);
    assert(eval_prefix(p, x, 7) == 38u8);
    assert(eval_prefix(p, x, 8) == 0u8);
}

/// The generator polynomial of degree 7 vanishes at the first 7 powers of `x`.
proof fn lemma_generator_7_roots()
    ensures
        forall|i: int|
            0 <= i < 7 ==> eval_prefix(generator_poly(7), #[trigger] GF_LOGS[i], 8) == 0,
{
    assert(generator_poly(7) =~= generator_coeffs_7());
    lemma_generator_7_root_0();
    lemma_generator_7_root_1();
    lemma_generator_7_root_2();
    lemma_generator_7_root_3();
    lemma_generator_7_root_4();
    lemma_generator_7_root_5();
    lemma_generator_7_root_6();
}

/// The coefficients of the generator polynomial of degree 10.
spec fn generator_coeffs_10() -> Seq<u8> {
    seq![
        1u8, 216u8, 194u8, 159u8, 111u8, 199u8, 94u8, 95u8, 113u8, 157u8, 193u8,
    ]
}

/// The sums that evaluating the generator polynomial of degree 10 at its roots takes.
proof fn lemma_sums_10()
    by (bit_vector)
    ensures
        0u8 ^ 1u8 == 1u8, 1u8 ^ 159u8 == 158u8, 1u8 ^ 216u8 == 217u8, 2u8 ^ 216u8 == 218u8,
        3u8 ^ 159u8 == 156u8, 4u8 ^ 216u8 == 220u8, 8u8 ^ 216u8 == 208u8, 9u8 ^ 157u8 == 148u8,
        10u8 ^ 199u8 == 205u8, 13u8 ^ 194u8 == 207u8, 16u8 ^ 216u8 == 200u8, 19u8 ^ 94u8 == 77u8,
        25u8 ^ 95u8 == 70u8, 27u8 ^ 159u8 == 132u8, 27u8 ^ 194u8 == 217u8, 28u8 ^ 194u8 == 222u8,
        29u8 ^ 216u8 == 197u8, 32u8 ^ 199u8 == 231u8, 32u8 ^ 216u8 == 248u8, 33u8 ^ 94u8 == 127u8,
        35u8 ^ 113u8 == 82u8, 40u8 ^ 95u8 == 119u8, 40u8 ^ 157u8 == 181u8, 41u8 ^ 95u8 == 118u8,
        44u8 ^ 94u8 == 114u8, 44u8 ^ 199u8 == 235u8, 45u8 ^ 113u8 == 92u8, 52u8 ^ 95u8 == 107u8,
        58u8 ^ 216u8 == 226u8, 60u8 ^ 95u8 == 99u8, 64u8 ^ 94u8 == 30u8, 64u8 ^ 216u8 == 152u8,
        73u8 ^ 157u8 == 212u8, 77u8 ^ 159u8 == 210u8, 79u8 ^ 111u8 == 32u8, 80u8 ^ 113u8 == 33u8,
        87u8 ^ 194u8 == 149u8, 91u8 ^ 111u8 == 52u8, 92u8 ^ 157u8 == 193u8, 92u8 ^ 194u8 == 158u8,
        96u8 ^ 159u8 == 255u8, 97u8 ^ 159u8 == 254u8, 103u8 ^ 199u8 == 160u8, 105u8 ^ 94u8 == 55u8,
        106u8 ^ 111u8 == 5u8, 110u8 ^ 159u8 == 241u8, 110u8 ^ 199u8 == 169u8, 114u8 ^ 95u8 == 45u8,
        115u8 ^ 157u8 == 238u8, 116u8 ^ 113u8 == 5u8, 118u8 ^ 194u8 == 180u8, 120u8 ^ 111u8 == 23u8,
        124u8 ^ 94u8 == 34u8, 128u8 ^ 216u8 == 88u8, 130u8 ^ 94u8 == 220u8, 130u8 ^ 95u8 == 221u8,
        132u8 ^ 111u8 == 235u8, 136u8 ^ 159u8 == 23u8, 146u8 ^ 111u8 == 253u8, 154u8 ^ 111u8 == 245u8,
        160u8 ^ 199u8 == 103u8, 168u8 ^ 157u8 == 53u8, 169u8 ^ 194u8 == 107u8, 169u8 ^ 199u8 == 110u8,
        171u8 ^ 111u8 == 196u8, 178u8 ^ 113u8 == 195u8, 180u8 ^ 113u8 == 197u8, 183u8 ^ 95u8 == 232u8,
        184u8 ^ 157u8 == 37u8, 193u8 ^ 193u8 == 0u8, 194u8 ^ 111u8 == 173u8, 197u8 ^ 113u8 == 180u8,
        198u8 ^ 113u8 == 183u8, 201u8 ^ 194u8 == 11u8, 205u8 ^ 199u8 == 10u8, 206u8 ^ 113u8 == 191u8,
        206u8 ^ 194u8 == 12u8, 210u8 ^ 94u8 == 140u8, 214u8 ^ 159u8 == 73u8, 215u8 ^ 95u8 == 136u8,
        215u8 ^ 157u8 == 74u8, 217u8 ^ 194u8 == 27u8, 223u8 ^ 95u8 == 128u8, 225u8 ^ 94u8 == 191u8,
        225u8 ^ 113u8 == 144u8, 227u8 ^ 111u8 == 140u8, 231u8 ^ 199u8 == 32u8, 234u8 ^ 157u8 == 119u8,
        235u8 ^ 199u8 == 44u8, 247u8 ^ 157u8 == 106u8, 250u8 ^ 94u8 == 164u8, 250u8 ^ 159u8 == 101u8,
{
}

proof fn lemma_generator_10_root_0()
    ensures
        eval_prefix(generator_coeffs_10(), GF_LOGS[0], 11) == 0,
{
    lemma_sums_10();
    let p = generator_coeffs_10();
    let x = GF_LOGS[0];
    assert(eval_prefix(p, x, 0) == 0u8);
    assert(eval_prefix(p, x, 1) == 1u8);
    assert(eval_prefix(p, x, 2) == 217u8);
    assert(eval_prefix(p, x, 3) == 27u8);
    assert(eval_prefix(p, x, 4) == 132u8);
    assert(eval_prefix(p, x, 5) == 235u8);
    assert(eval_prefix(p, x, 6) == 44u8);
    assert(eval_prefix(p, x, 7) == 114u8);
    assert(eval_prefix(p, x, 8) == 45u8);
    assert(eval_prefix(p, x, 9) == 92u8);
    assert(eval_prefix(p, x, 10) == 193u8);
    assert(eval_prefix(p, x, 11) == 0u8);
}

proof fn lemma_generator_10_root_1()
    ensures
        eval_prefix(generator_coeffs_10(), GF_LOGS[1], 11) == 0,
{
    lemma_sums_10();
    let p = generator_coeffs_10();
    let x = GF_LOGS[1];
    assert(eval_prefix(p, x, 0) == 0u8);
    assert(eval_prefix(p, x, 1) == 1u8);
    assert(eval_prefix(p, x, 2) == 218u8);
    assert(eval_prefix(p, x, 3) == 107u8);
    assert(eval_prefix(p, x, 4) == 73u8);
    assert(eval_prefix(p, x, 5) == 253u8);
    assert(eval_prefix(p, x, 6) == 32u8);
    assert(eval_prefix(p, x, 7) == 30u8);
    assert(eval_prefix(p, x, 8) == 99u8);
    assert(eval_prefix(p, x, 9) == 183u8);
    assert(eval_prefix(p, x, 10) == 238u8);
    assert(eval_prefix(p, x, 11) == 0u8);
}

proof fn lemma_generator_10_root_2()
    ensures
        eval_prefix(generator_coeffs_10(), GF_LOGS[2], 11) == 0,
{
    lemma_sums_10();
    let p = generator_coeffs_10();
    let x = GF_LOGS[2];
    assert(eval_prefix(p, x, 0) == 0u8);
    assert(eval_prefix(p, x, 1) == 1u8);
    assert(eval_prefix(p, x, 2) == 220u8);
    assert(eval_prefix(p, x, 3) == 149u8);
    assert(eval_prefix(p, x, 4) == 241u8);
    assert(eval_prefix(p, x, 5) == 140u8);
    assert(eval_prefix(p, x, 6) == 205u8);
    assert(eval_prefix(p, x, 7) == 77u8);
    assert(eval_prefix(p, x, 8) == 118u8);
    assert(eval_prefix(p, x, 9) == 180u8);
    assert(eval_prefix(p, x, 10) == 119u8);
    assert(eval_prefix(p, x, 11) == 0u8);
}

proof fn lemma_generator_10_root_3()
    ensures
        eval_prefix(generator_coeffs_10(), GF_LOGS[3], 11) == 0,
{
    lemma_sums_10();
    let p = generator_coeffs_10();
    let x = GF_LOGS[3];
    assert(eval_prefix(p, x, 0) == 0u8);
    assert(eval_prefix(p, x, 1) == 1u8);
    assert(eval_prefix(p, x, 2) == 208u8);
    assert(eval_prefix(p, x, 3) == 12u8);
    assert(eval_prefix(p, x, 4) == 255u8);
    assert(eval_prefix(p, x, 5) == 196u8);
    assert(eval_prefix(p, x, 6) == 169u8);
    assert(eval_prefix(p, x, 7) == 127u8);
    assert(eval_prefix(p, x, 8) == 128u8);
    assert(eval_prefix(p, x, 9) == 5u8);
    assert(eval_prefix(p, x, 10) == 181u8);
    assert(eval_prefix(p, x, 11) == 0u8);
}

proof fn lemma_generator_10_root_4()
    ensures
        eval_prefix(generator_coeffs_10(), GF_LOGS[4], 11) == 0,
{
    lemma_sums_10();
    let p = generator_coeffs_10();
    let x = GF_LOGS[4];
    assert(eval_prefix(p, x, 0) == 0u8);
    assert(eval_prefix(p, x, 1) == 1u8);
    assert(eval_prefix(p, x, 2) == 200u8);
    assert(eval_prefix(p, x, 3) == 222u8);
    assert(eval_prefix(p, x, 4) == 254u8);
    assert(eval_prefix(p, x, 5) == 52u8);
    assert(eval_prefix(p, x, 6) == 160u8);
    assert(eval_prefix(p, x, 7) == 140u8);
    assert(eval_prefix(p, x, 8) == 119u8);
    assert(eval_prefix(p, x, 9) == 82u8);
    assert(eval_prefix(p, x, 10) == 212u8);
    assert(eval_prefix(p, x, 11) == 0u8);
}

proof fn lemma_generator_10_root_5()
    ensures
        eval_prefix(generator_coeffs_10(), GF_LOGS[5], 11) == 0,
{
    lemma_sums_10();
    let p = generator_coeffs_10();
    let x = GF_LOGS[5];
    assert(eval_prefix(p, x, 0) == 0u8);
    assert(eval_prefix(p, x, 1) == 1u8);
    assert(eval_prefix(p, x, 2) == 248u8);
    assert(eval_prefix(p, x, 3) == 180u8);
    assert(eval_prefix(p, x, 4) == 156u8);
    assert(eval_prefix(p, x, 5) == 5u8);
    assert(eval_prefix(p, x, 6) == 103u8);
    assert(eval_prefix(p, x, 7) == 34u8);
    assert(eval_prefix(p, x, 8) == 107u8);
    assert(eval_prefix(p, x, 9) == 144u8);
    assert(eval_prefix(p, x, 10) == 106u8);
    assert(eval_prefix(p, x, 11) == 0u8);
}

proof fn lemma_generator_10_root_6()
    ensures
        eval_prefix(generator_coeffs_10(), GF_LOGS[6], 11) == 0,
{
    lemma_sums_10();
    let p = generator_coeffs_10();
    let x = GF_LOGS[6];
    assert(eval_prefix(p, x, 0) == 0u8);
    assert(eval_prefix(p, x, 1) == 1u8);
    assert(eval_prefix(p, x, 2) == 152u8);
    assert(eval_prefix(p, x, 3) == 11u8);
    assert(eval_prefix(p, x, 4) == 101u8);
    assert(eval_prefix(p, x, 5) == 23u8);
    assert(eval_prefix(p, x, 6) == 110u8);
    assert(eval_prefix(p, x, 7) == 220u8);
    assert(eval_prefix(p, x, 8) == 70u8);
    assert(eval_prefix(p, x, 9) == 33u8);
    assert(eval_prefix(p, x, 10) == 53u8);
    assert(eval_prefix(p, x, 11) == 0u8);
}

proof fn lemma_generator_10_root_7()
    ensures
        eval_prefix(generator_coeffs_10(), GF_LOGS[7], 11) == 0,
{
    lemma_sums_10();
    let p = generator_coeffs_10();
    let x = GF_LOGS[7];
    assert(eval_prefix(p, x, 0) == 0u8);
    assert(eval_prefix(p, x, 1) == 1u8);
    assert(eval_prefix(p, x, 2) == 88u8);
    assert(eval_prefix(p, x, 3) == 217u8);
    assert(eval_prefix(p, x, 4) == 23u8);
    assert(eval_prefix(p, x, 5) == 32u8);
    assert(eval_prefix(p, x, 6) == 10u8);
    assert(eval_prefix(p, x, 7) == 55u8);
    assert(eval_prefix(p, x, 8) == 221u8);
    assert(eval_prefix(p, x, 9) == 195u8);
    assert(eval_prefix(p, x, 10) == 148u8);
    assert(eval_prefix(p, x, 11) == 0u8);
}

proof fn lemma_generator_10_root_8()
    ensures
        eval_prefix(generator_coeffs_10(), GF_LOGS[8], 11) == 0,
{
    lemma_sums_10();
    let p = generator_coeffs_10();
    let x = GF_LOGS[8];
    assert(eval_prefix(p, x, 0) == 0u8);
    assert(eval_prefix(p, x, 1) == 1u8);
    assert(eval_prefix(p, x, 2) == 197u8);
    assert(eval_prefix(p, x, 3) == 158u8);
    assert(eval_prefix(p, x, 4) == 210u8);
    assert(eval_prefix(p, x, 5) == 173u8);
    assert(eval_prefix(p, x, 6) == 231u8);
    assert(eval_prefix(p, x, 7) == 191u8);
    assert(eval_prefix(p, x, 8) == 136u8);
    assert(eval_prefix(p, x, 9) == 191u8);
    assert(eval_prefix(p, x, 10) == 74u8);
    assert(eval_prefix(p, x, 11) == 0u8);
}

proof fn lemma_generator_10_root_9()
    ensures
        eval_prefix(generator_coeffs_10(), GF_LOGS[9], 11) == 0,
{
    lemma_sums_10();
    let p = generator_coeffs_10();
    let x = GF_LOGS[9];
    assert(eval_prefix(p, x, 0) == 0u8);
    assert(eval_prefix(p, x, 1) == 1u8);
    assert(eval_prefix(p, x, 2) == 226u8);
    assert(eval_prefix(p, x, 3) == 207u8);
    assert(eval_prefix(p, x, 4) == 158u8);
    assert(eval_prefix(p, x, 5) == 245u8);
    assert(eval_prefix(p, x, 6) == 235u8);
    assert(eval_prefix(p, x, 7) == 164u8);
    assert(eval_prefix(p, x, 8) == 232u8);
    assert(eval_prefix(p, x, 9) == 197u8);
    assert(eval_prefix(p, x, 10) == 37u8);
    assert(eval_prefix(p, x, 11) == 0u8);
}

/// The generator polynomial of degree 10 vanishes at the first 10 powers of `x`.
proof fn lemma_generator_10_roots()
    ensures
        forall|i: int|
            0 <= i < 10 ==> eval_prefix(generator_poly(10), #[trigger] GF_LOGS[i], 11) == 0,
{
    assert(generator_poly(10) =~= generator_coeffs_10());
    lemma_generator_10_root_0();
    lemma_generator_10_root_1();
    lemma_generator_10_root_2();
    lemma_generator_10_root_3();
    lemma_generator_10_root_4();
    lemma_generator_10_root_5();
    lemma_generator_10_root_6();
    lemma_generator_10_root_7();
    lemma_generator_10_root_8();
    lemma_generator_10_root_9();
}

/// The coefficients of the generator polynomial of degree 13.
spec fn generator_coeffs_13() -> Seq<u8> {
    seq![
        1u8, 137u8, 73u8, 227u8, 17u8, 177u8, 17u8, 52u8, 13u8, 46u8, 43u8, 83u8,
        132u8, 120u8,
    ]
}

/// The sums that evaluating the generator polynomial of degree 13 at its roots takes.
proof fn lemma_sums_13()
    by (bit_vector)
    ensures
        0u8 ^ 1u8 == 1u8, 1u8 ^ 17u8 == 16u8, 1u8 ^ 137u8 == 136u8, 1u8 ^ 227u8 == 226u8,
        2u8 ^ 137u8 == 139u8, 4u8 ^ 137u8 == 141u8, 6u8 ^ 13u8 == 11u8, 8u8 ^ 137u8 == 129u8,
        11u8 ^ 43u8 == 32u8, 11u8 ^ 73u8 == 66u8, 13u8 ^ 132u8 == 137u8, 14u8 ^ 17u8 == 31u8,
        14u8 ^ 73u8 == 71u8, 15u8 ^ 83u8 == 92u8, 16u8 ^ 137u8 == 153u8, 17u8 ^ 13u8 == 28u8,
        20u8 ^ 83u8 == 71u8, 24u8 ^ 17u8 == 9u8, 25u8 ^ 46u8 == 55u8, 25u8 ^ 83u8 == 74u8,
        28u8 ^ 52u8 == 40u8, 29u8 ^ 17u8 == 12u8, 29u8 ^ 132u8 == 153u8, 29u8 ^ 137u8 == 148u8,
        32u8 ^ 137u8 == 169u8, 34u8 ^ 17u8 == 51u8, 35u8 ^ 17u8 == 50u8, 36u8 ^ 17u8 == 53u8,
        39u8 ^ 52u8 == 19u8, 43u8 ^ 227u8 == 200u8, 48u8 ^ 73u8 == 121u8, 51u8 ^ 52u8 == 7u8,
        51u8 ^ 177u8 == 130u8, 53u8 ^ 83u8 == 102u8, 53u8 ^ 177u8 == 132u8, 56u8 ^ 132u8 == 188u8,
        58u8 ^ 137u8 == 179u8, 59u8 ^ 46u8 == 21u8, 60u8 ^ 73u8 == 117u8, 61u8 ^ 13u8 == 48u8,
        61u8 ^ 52u8 == 9u8, 62u8 ^ 43u8 == 21u8, 62u8 ^ 73u8 == 119u8, 64u8 ^ 43u8 == 107u8,
        64u8 ^ 137u8 == 201u8, 66u8 ^ 83u8 == 17u8, 70u8 ^ 132u8 == 194u8, 73u8 ^ 43u8 == 98u8,
        74u8 ^ 52u8 == 126u8, 76u8 ^ 13u8 == 65u8, 78u8 ^ 46u8 == 96u8, 78u8 ^ 132u8 == 202u8,
        84u8 ^ 43u8 == 127u8, 89u8 ^ 13u8 == 84u8, 95u8 ^ 17u8 == 78u8, 95u8 ^ 52u8 == 107u8,
        97u8 ^ 52u8 == 85u8, 97u8 ^ 83u8 == 50u8, 98u8 ^ 177u8 == 211u8, 99u8 ^ 83u8 == 48u8,
        101u8 ^ 73u8 == 44u8, 101u8 ^ 177u8 == 212u8, 103u8 ^ 17u8 == 118u8, 106u8 ^ 52u8 == 94u8,
        109u8 ^ 177u8 == 220u8, 112u8 ^ 17u8 == 97u8, 114u8 ^ 17u8 == 99u8, 114u8 ^ 46u8 == 92u8,
        116u8 ^ 137u8 == 253u8, 120u8 ^ 17u8 == 105u8, 120u8 ^ 120u8 == 0u8, 120u8 ^ 177u8 == 201u8,
        122u8 ^ 52u8 == 78u8, 124u8 ^ 73u8 == 53u8, 127u8 ^ 46u8 == 81u8, 128u8 ^ 137u8 == 9u8,
        130u8 ^ 17u8 == 147u8, 130u8 ^ 43u8 == 169u8, 131u8 ^ 46u8 == 173u8, 132u8 ^ 43u8 == 175u8,
        132u8 ^ 73u8 == 205u8, 132u8 ^ 227u8 == 103u8, 134u8 ^ 83u8 == 213u8, 134u8 ^ 227u8 == 101u8,
        136u8 ^ 46u8 == 166u8, 136u8 ^ 73u8 == 193u8, 138u8 ^ 17u8 == 155u8, 139u8 ^ 46u8 == 165u8,
        139u8 ^ 132u8 == 15u8, 141u8 ^ 17u8 == 156u8, 147u8 ^ 52u8 == 167u8, 150u8 ^ 73u8 == 223u8,
        152u8 ^ 227u8 == 123u8, 153u8 ^ 177u8 == 40u8, 154u8 ^ 132u8 == 30u8, 155u8 ^ 17u8 == 138u8,
        155u8 ^ 52u8 == 175u8, 156u8 ^ 43u8 == 183u8, 157u8 ^ 227u8 == 126u8, 158u8 ^ 43u8 == 181u8,
        159u8 ^ 73u8 == 214u8, 160u8 ^ 227u8 == 67u8, 162u8 ^ 43u8 == 137u8, 163u8 ^ 17u8 == 178u8,
        163u8 ^ 177u8 == 18u8, 167u8 ^ 13u8 == 170u8, 168u8 ^ 17u8 == 185u8, 168u8 ^ 83u8 == 251u8,
        170u8 ^ 46u8 == 132u8, 171u8 ^ 17u8 == 186u8, 171u8 ^ 132u8 == 47u8, 172u8 ^ 52u8 == 152u8,
        172u8 ^ 177u8 == 29u8, 174u8 ^ 227u8 == 77u8, 175u8 ^ 17u8 == 190u8, 175u8 ^ 83u8 == 252u8,
        176u8 ^ 13u8 == 189u8, 181u8 ^ 227u8 == 86u8, 182u8 ^ 83u8 == 229u8, 182u8 ^ 227u8 == 85u8,
        183u8 ^ 13u8 == 186u8, 183u8 ^ 17u8 == 166u8, 184u8 ^ 132u8 == 60u8, 188u8 ^ 13u8 == 177u8,
        190u8 ^ 46u8 == 144u8, 193u8 ^ 52u8 == 245u8, 193u8 ^ 227u8 == 34u8, 194u8 ^ 177u8 == 115u8,
        205u8 ^ 137u8 == 68u8, 206u8 ^ 17u8 == 223u8, 209u8 ^ 17u8 == 192u8, 210u8 ^ 13u8 == 223u8,
        212u8 ^ 13u8 == 217u8, 217u8 ^ 46u8 == 247u8, 218u8 ^ 132u8 == 94u8, 219u8 ^ 13u8 == 214u8,
        219u8 ^ 17u8 == 202u8, 220u8 ^ 43u8 == 247u8, 223u8 ^ 73u8 == 150u8, 224u8 ^ 46u8 == 206u8,
        225u8 ^ 132u8 == 101u8, 226u8 ^ 46u8 == 204u8, 229u8 ^ 132u8 == 97u8, 231u8 ^ 17u8 == 246u8,
        232u8 ^ 17u8 == 249u8, 232u8 ^ 83u8 == 187u8, 232u8 ^ 137u8 == 97u8, 232u8 ^ 177u8 == 89u8,
        235u8 ^ 43u8 == 192u8, 239u8 ^ 177u8 == 94u8, 244u8 ^ 73u8 == 189u8, 246u8 ^ 177u8 == 71u8,
        248u8 ^ 227u8 == 27u8, 249u8 ^ 43u8 == 210u8, 250u8 ^ 227u8 == 25u8, 251u8 ^ 83u8 == 168u8,
        252u8 ^ 132u8 == 120u8, 254u8 ^ 13u8 == 243u8,
{
}

proof fn lemma_generator_13_root_0()
    ensures
        eval_prefix(generator_coeffs_13(), GF_LOGS[0], 14) == 0,
{
    lemma_sums_13();
    let p = generator_coeffs_13();
    let x = GF_LOGS[0];
    assert(eval_prefix(p, x, 0) == 0u8);
    assert(eval_prefix(p, x, 1) == 1u8);
    assert(eval_prefix(p, x, 2) == 136u8);
    assert(eval_prefix(p, x, 3) == 193u8);
    assert(eval_prefix(p, x, 4) == 34u8);
    assert(eval_prefix(p, x, 5) == 51u8);
    assert(eval_prefix(p, x, 6) == 130u8);
    assert(eval_prefix(p, x, 7) == 147u8);
    assert(eval_prefix(p, x, 8) == 167u8);
    assert(eval_prefix(p, x, 9) == 170u8);
    assert(eval_prefix(p, x, 10) == 132u8);
    assert(eval_prefix(p, x, 11) == 175u8);
    assert(eval_prefix(p, x, 12) == 252u8);
    assert(eval_prefix(p, x, 13) == 120u8);
    assert(eval_prefix(p, x, 14) == 0u8);
}

proof fn lemma_generator_13_root_1()
    ensures
        eval_prefix(generator_coeffs_13(), GF_LOGS[1], 14) == 0,
{
    lemma_sums_13();
    let p = generator_coeffs_13();
    let x = GF_LOGS[1];
    assert(eval_prefix(p, x, 0) == 0u8);
    assert(eval_prefix(p, x, 1) == 1u8);
    assert(eval_prefix(p, x, 2) == 139u8);
    assert(eval_prefix(p, x, 3) == 66u8);
    assert(eval_prefix(p, x, 4) == 103u8);
    assert(eval_prefix(p, x, 5) == 223u8);
    assert(eval_prefix(p, x, 6) == 18u8);
    assert(eval_prefix(p, x, 7) == 53u8);
    assert(eval_prefix(p, x, 8) == 94u8);
    assert(eval_prefix(p, x, 9) == 177u8);
    assert(eval_prefix(p, x, 10) == 81u8);
    assert(eval_prefix(p, x, 11) == 137u8);
    assert(eval_prefix(p, x, 12) == 92u8);
    assert(eval_prefix(p, x, 13) == 60u8);
    assert(eval_prefix(p, x, 14) == 0u8);
}

proof fn lemma_generator_13_root_2()
    ensures
        eval_prefix(generator_coeffs_13(), GF_LOGS[2], 14) == 0,
{
    lemma_sums_13();
    let p = generator_coeffs_13();
    let x = GF_LOGS[2];
    assert(eval_prefix(p, x, 0) == 0u8);
    assert(eval_prefix(p, x, 1) == 1u8);
    assert(eval_prefix(p, x, 2) == 141u8);
    assert(eval_prefix(p, x, 3) == 71u8);
    assert(eval_prefix(p, x, 4) == 226u8);
    assert(eval_prefix(p, x, 5) == 190u8);
    assert(eval_prefix(p, x, 6) == 115u8);
    assert(eval_prefix(p, x, 7) == 192u8);
    assert(eval_prefix(p, x, 8) == 19u8);
    assert(eval_prefix(p, x, 9) == 65u8);
    assert(eval_prefix(p, x, 10) == 55u8);
    assert(eval_prefix(p, x, 11) == 247u8);
    assert(eval_prefix(p, x, 12) == 168u8);
    assert(eval_prefix(p, x, 13) == 30u8);
    assert(eval_prefix(p, x, 14) == 0u8);
}

proof fn lemma_generator_13_root_3()
    ensures
        eval_prefix(generator_coeffs_13(), GF_LOGS[3], 14) == 0,
{
    lemma_sums_13();
    let p = generator_coeffs_13();
    let x = GF_LOGS[3];
    assert(eval_prefix(p, x, 0) == 0u8);
    assert(eval_prefix(p, x, 1) == 1u8);
    assert(eval_prefix(p, x, 2) == 129u8);
    assert(eval_prefix(p, x, 3) == 53u8);
    assert(eval_prefix(p, x, 4) == 86u8);
    assert(eval_prefix(p, x, 5) == 155u8);
    assert(eval_prefix(p, x, 6) == 29u8);
    assert(eval_prefix(p, x, 7) == 249u8);
    assert(eval_prefix(p, x, 8) == 175u8);
    assert(eval_prefix(p, x, 9) == 28u8);
    assert(eval_prefix(p, x, 10) == 206u8);
    assert(eval_prefix(p, x, 11) == 21u8);
    assert(eval_prefix(p, x, 12) == 251u8);
    assert(eval_prefix(p, x, 13) == 15u8);
    assert(eval_prefix(p, x, 14) == 0u8);
}

proof fn lemma_generator_13_root_4()
    ensures
        eval_prefix(generator_coeffs_13(), GF_LOGS[4], 14) == 0,
{
    lemma_sums_13();
    let p = generator_coeffs_13();
    let x = GF_LOGS[4];
    assert(eval_prefix(p, x, 0) == 0u8);
    assert(eval_prefix(p, x, 1) == 1u8);
    assert(eval_prefix(p, x, 2) == 153u8);
    assert(eval_prefix(p, x, 3) == 44u8);
    assert(eval_prefix(p, x, 4) == 25u8);
    assert(eval_prefix(p, x, 5) == 156u8);
    assert(eval_prefix(p, x, 6) == 132u8);
    assert(eval_prefix(p, x, 7) == 185u8);
    assert(eval_prefix(p, x, 8) == 107u8);
    assert(eval_prefix(p, x, 9) == 243u8);
    assert(eval_prefix(p, x, 10) == 165u8);
    assert(eval_prefix(p, x, 11) == 169u8);
    assert(eval_prefix(p, x, 12) == 17u8);
    assert(eval_prefix(p, x, 13) == 137u8);
    assert(eval_prefix(p, x, 14) == 0u8);
}

proof fn lemma_generator_13_root_5()
    ensures
        eval_prefix(generator_coeffs_13(), GF_LOGS[5], 14) == 0,
{
    lemma_sums_13();
    let p = generator_coeffs_13();
    let x = GF_LOGS[5];
    assert(eval_prefix(p, x, 0) == 0u8);
    assert(eval_prefix(p, x, 1) == 1u8);
    assert(eval_prefix(p, x, 2) == 169u8);
    assert(eval_prefix(p, x, 3) == 205u8);
    assert(eval_prefix(p, x, 4) == 123u8);
    assert(eval_prefix(p, x, 5) == 202u8);
    assert(eval_prefix(p, x, 6) == 201u8);
    assert(eval_prefix(p, x, 7) == 9u8);
    assert(eval_prefix(p, x, 8) == 9u8);
    assert(eval_prefix(p, x, 9) == 48u8);
    assert(eval_prefix(p, x, 10) == 96u8);
    assert(eval_prefix(p, x, 11) == 183u8);
    assert(eval_prefix(p, x, 12) == 48u8);
    assert(eval_prefix(p, x, 13) == 202u8);
    assert(eval_prefix(p, x, 14) == 0u8);
}

proof fn lemma_generator_13_root_6()
    ensures
        eval_prefix(generator_coeffs_13(), GF_LOGS[6], 14) == 0,
{
    lemma_sums_13();
    let p = generator_coeffs_13();
    let x = GF_LOGS[6];
    assert(eval_prefix(p, x, 0) == 0u8);
    assert(eval_prefix(p, x, 1) == 1u8);
    assert(eval_prefix(p, x, 2) == 201u8);
    assert(eval_prefix(p, x, 3) == 121u8);
    assert(eval_prefix(p, x, 4) == 200u8);
    assert(eval_prefix(p, x, 5) == 97u8);
    assert(eval_prefix(p, x, 6) == 212u8);
    assert(eval_prefix(p, x, 7) == 50u8);
    assert(eval_prefix(p, x, 8) == 40u8);
    assert(eval_prefix(p, x, 9) == 223u8);
    assert(eval_prefix(p, x, 10) == 247u8);
    assert(eval_prefix(p, x, 11) == 32u8);
    assert(eval_prefix(p, x, 12) == 187u8);
    assert(eval_prefix(p, x, 13) == 101u8);
    assert(eval_prefix(p, x, 14) == 0u8);
}

proof fn lemma_generator_13_root_7()
    ensures
        eval_prefix(generator_coeffs_13(), GF_LOGS[7], 14) == 0,
{
    lemma_sums_13();
    let p = generator_coeffs_13();
    let x = GF_LOGS[7];
    assert(eval_prefix(p, x, 0) == 0u8);
    assert(eval_prefix(p, x, 1) == 1u8);
    assert(eval_prefix(p, x, 2) == 9u8);
    assert(eval_prefix(p, x, 3) == 189u8);
    assert(eval_prefix(p, x, 4) == 27u8);
    assert(eval_prefix(p, x, 5) == 16u8);
    assert(eval_prefix(p, x, 6) == 89u8);
    assert(eval_prefix(p, x, 7) == 138u8);
    assert(eval_prefix(p, x, 8) == 78u8);
    assert(eval_prefix(p, x, 9) == 217u8);
    assert(eval_prefix(p, x, 10) == 166u8);
    assert(eval_prefix(p, x, 11) == 210u8);
    assert(eval_prefix(p, x, 12) == 50u8);
    assert(eval_prefix(p, x, 13) == 188u8);
    assert(eval_prefix(p, x, 14) == 0u8);
}

proof fn lemma_generator_13_root_8()
    ensures
        eval_prefix(generator_coeffs_13(), GF_LOGS[8], 14) == 0,
{
    lemma_sums_13();
    let p = generator_coeffs_13();
    let x = GF_LOGS[8];
    assert(eval_prefix(p, x, 0) == 0u8);
    assert(eval_prefix(p, x, 1) == 1u8);
    assert(eval_prefix(p, x, 2) == 148u8);
    assert(eval_prefix(p, x, 3) == 214u8);
    assert(eval_prefix(p, x, 4) == 85u8);
    assert(eval_prefix(p, x, 5) == 166u8);
    assert(eval_prefix(p, x, 6) == 94u8);
    assert(eval_prefix(p, x, 7) == 105u8);
    assert(eval_prefix(p, x, 8) == 85u8);
    assert(eval_prefix(p, x, 9) == 186u8);
    assert(eval_prefix(p, x, 10) == 144u8);
    assert(eval_prefix(p, x, 11) == 192u8);
    assert(eval_prefix(p, x, 12) == 102u8);
    assert(eval_prefix(p, x, 13) == 94u8);
    assert(eval_prefix(p, x, 14) == 0u8);
}

proof fn lemma_generator_13_root_9()
    ensures
        eval_prefix(generator_coeffs_13(), GF_LOGS[9], 14) == 0,
{
    lemma_sums_13();
    let p = generator_coeffs_13();
    let x = GF_LOGS[9];
    assert(eval_prefix(p, x, 0) == 0u8);
    assert(eval_prefix(p, x, 1) == 1u8);
    assert(eval_prefix(p, x, 2) == 179u8);
    assert(eval_prefix(p, x, 3) == 223u8);
    assert(eval_prefix(p, x, 4) == 101u8);
    assert(eval_prefix(p, x, 5) == 246u8);
    assert(eval_prefix(p, x, 6) == 211u8);
    assert(eval_prefix(p, x, 7) == 178u8);
    assert(eval_prefix(p, x, 8) == 152u8);
    assert(eval_prefix(p, x, 9) == 11u8);
    assert(eval_prefix(p, x, 10) == 173u8);
    assert(eval_prefix(p, x, 11) == 107u8);
    assert(eval_prefix(p, x, 12) == 229u8);
    assert(eval_prefix(p, x, 13) == 47u8);
    assert(eval_prefix(p, x, 14) == 0u8);
}

proof fn lemma_generator_13_root_10()
    ensures
        eval_prefix(generator_coeffs_13(), GF_LOGS[10], 14) == 0,
{
    lemma_sums_13();
    let p = generator_coeffs_13();
    let x = GF_LOGS[10];
    assert(eval_prefix(p, x, 0) == 0u8);
    assert(eval_prefix(p, x, 1) == 1u8);
    assert(eval_prefix(p, x, 2) == 253u8);
    assert(eval_prefix(p, x, 3) == 150u8);
    assert(eval_prefix(p, x, 4) == 77u8);
    assert(eval_prefix(p, x, 5) == 99u8);
    assert(eval_prefix(p, x, 6) == 71u8);
    assert(eval_prefix(p, x, 7) == 12u8);
    assert(eval_prefix(p, x, 8) == 126u8);
    assert(eval_prefix(p, x, 9) == 214u8);
    assert(eval_prefix(p, x, 10) == 204u8);
    assert(eval_prefix(p, x, 11) == 181u8);
    assert(eval_prefix(p, x, 12) == 71u8);
    assert(eval_prefix(p, x, 13) == 153u8);
    assert(eval_prefix(p, x, 14) == 0u8);
}

proof fn lemma_generator_13_root_11()
    ensures
        eval_prefix(generator_coeffs_13(), GF_LOGS[11], 14) == 0,
{
    lemma_sums_13();
    let p = generator_coeffs_13();
    let x = GF_LOGS[11];
    assert(eval_prefix(p, x, 0) == 0u8);
    assert(eval_prefix(p, x, 1) == 1u8);
    assert(eval_prefix(p, x, 2) == 97u8);
    assert(eval_prefix(p, x, 3) == 117u8);
    assert(eval_prefix(p, x, 4) == 126u8);
    assert(eval_prefix(p, x, 5) == 186u8);
    assert(eval_prefix(p, x, 6) == 40u8);
    assert(eval_prefix(p, x, 7) == 78u8);
    assert(eval_prefix(p, x, 8) == 245u8);
    assert(eval_prefix(p, x, 9) == 189u8);
    assert(eval_prefix(p, x, 10) == 21u8);
    assert(eval_prefix(p, x, 11) == 98u8);
    assert(eval_prefix(p, x, 12) == 74u8);
    assert(eval_prefix(p, x, 13) == 194u8);
    assert(eval_prefix(p, x, 14) == 0u8);
}

proof fn lemma_generator_13_root_12()
    ensures
        eval_prefix(generator_coeffs_13(), GF_LOGS[12], 14) == 0,
{
    lemma_sums_13();
    let p = generator_coeffs_13();
    let x = GF_LOGS[12];
    assert(eval_prefix(p, x, 0) == 0u8);
    assert(eval_prefix(p, x, 1) == 1u8);
    assert(eval_prefix(p, x, 2) == 68u8);
    assert(eval_prefix(p, x, 3) == 119u8);
    assert(eval_prefix(p, x, 4) == 67u8);
    assert(eval_prefix(p, x, 5) == 118u8);
    assert(eval_prefix(p, x, 6) == 220u8);
    assert(eval_prefix(p, x, 7) == 31u8);
    assert(eval_prefix(p, x, 8) == 7u8);
    assert(eval_prefix(p, x, 9) == 84u8);
    assert(eval_prefix(p, x, 10) == 92u8);
    assert(eval_prefix(p, x, 11) == 127u8);
    assert(eval_prefix(p, x, 12) == 213u8);
    assert(eval_prefix(p, x, 13) == 97u8);
    assert(eval_prefix(p, x, 14) == 0u8);
}

/// The generator polynomial of degree 13 vanishes at the first 13 powers of `x`.
proof fn lemma_generator_13_roots()
    ensures
        forall|i: int|
            0 <= i < 13 ==> eval_prefix(generator_poly(13), #[trigger] GF_LOGS[i], 14) == 0,
{
    assert(generator_poly(13) =~= generator_coeffs_13());
    lemma_generator_13_root_0();
    lemma_generator_13_root_1();
    lemma_generator_13_root_2();
    lemma_generator_13_root_3();
    lemma_generator_13_root_4();
    lemma_generator_13_root_5();
    lemma_generator_13_root_6();
    lemma_generator_13_root_7();
    lemma_generator_13_root_8();
    lemma_generator_13_root_9();
    lemma_generator_13_root_10();
    lemma_generator_13_root_11();
    lemma_generator_13_root_12();
}

/// The coefficients of the generator polynomial of degree 15.
spec fn generator_coeffs_15() -> Seq<u8> {
    seq![
        1u8, 29u8, 196u8, 111u8, 163u8, 112u8, 74u8, 10u8, 105u8, 105u8, 139u8, 132u8,
        151u8, 32u8, 134u8, 26u8,
    ]
}

/// The sums that evaluating the generator polynomial of degree 15 at its roots takes.
proof fn lemma_sums_15()
    by (bit_vector)
    ensures
        0u8 ^ 1u8 == 1u8, 0u8 ^ 10u8 == 10u8, 0u8 ^ 105u8 == 105u8, 0u8 ^ 134u8 == 134u8,
        0u8 ^ 196u8 == 196u8, 1u8 ^ 29u8 == 28u8, 2u8 ^ 29u8 == 31u8, 2u8 ^ 132u8 == 134u8,
        4u8 ^ 29u8 == 25u8, 4u8 ^ 151u8 == 147u8, 5u8 ^ 163u8 == 166u8, 7u8 ^ 132u8 == 131u8,
        7u8 ^ 163u8 == 164u8, 8u8 ^ 29u8 == 21u8, 8u8 ^ 74u8 == 66u8, 8u8 ^ 139u8 == 131u8,
        9u8 ^ 105u8 == 96u8, 14u8 ^ 134u8 == 136u8, 16u8 ^ 29u8 == 13u8, 17u8 ^ 163u8 == 178u8,
        18u8 ^ 74u8 == 88u8, 19u8 ^ 29u8 == 14u8, 20u8 ^ 112u8 == 100u8, 21u8 ^ 132u8 == 145u8,
        23u8 ^ 32u8 == 55u8, 25u8 ^ 10u8 == 19u8, 25u8 ^ 151u8 == 142u8, 26u8 ^ 26u8 == 0u8,
        27u8 ^ 74u8 == 81u8, 28u8 ^ 112u8 == 108u8, 28u8 ^ 163u8 == 191u8, 28u8 ^ 196u8 == 216u8,
        29u8 ^ 29u8 == 0u8, 29u8 ^ 111u8 == 114u8, 32u8 ^ 29u8 == 61u8, 32u8 ^ 32u8 == 0u8,
        32u8 ^ 105u8 == 73u8, 32u8 ^ 132u8 == 164u8, 33u8 ^ 10u8 == 43u8, 33u8 ^ 163u8 == 130u8,
        34u8 ^ 132u8 == 166u8, 35u8 ^ 74u8 == 105u8, 36u8 ^ 105u8 == 77u8, 36u8 ^ 139u8 == 175u8,
        37u8 ^ 134u8 == 163u8, 40u8 ^ 112u8 == 88u8, 41u8 ^ 10u8 == 35u8, 41u8 ^ 134u8 == 175u8,
        43u8 ^ 151u8 == 188u8, 46u8 ^ 10u8 == 36u8, 46u8 ^ 139u8 == 165u8, 47u8 ^ 163u8 == 140u8,
        48u8 ^ 134u8 == 182u8, 49u8 ^ 111u8 == 94u8, 53u8 ^ 196u8 == 241u8, 58u8 ^ 29u8 == 39u8,
        59u8 ^ 105u8 == 82u8, 59u8 ^ 196u8 == 255u8, 60u8 ^ 163u8 == 159u8, 61u8 ^ 74u8 == 119u8,
        62u8 ^ 74u8 == 116u8, 62u8 ^ 196u8 == 250u8, 64u8 ^ 29u8 == 93u8, 65u8 ^ 111u8 == 46u8,
        67u8 ^ 132u8 == 199u8, 69u8 ^ 151u8 == 210u8, 70u8 ^ 10u8 == 76u8, 71u8 ^ 111u8 == 40u8,
        72u8 ^ 105u8 == 33u8, 74u8 ^ 74u8 == 0u8, 74u8 ^ 139u8 == 193u8, 76u8 ^ 10u8 == 70u8,
        77u8 ^ 105u8 == 36u8, 78u8 ^ 105u8 == 39u8, 80u8 ^ 105u8 == 57u8, 82u8 ^ 105u8 == 59u8,
        84u8 ^ 139u8 == 223u8, 85u8 ^ 105u8 == 60u8, 88u8 ^ 10u8 == 82u8, 88u8 ^ 132u8 == 220u8,
        92u8 ^ 10u8 == 86u8, 92u8 ^ 74u8 == 22u8, 93u8 ^ 105u8 == 52u8, 93u8 ^ 111u8 == 50u8,
        93u8 ^ 163u8 == 254u8, 94u8 ^ 10u8 == 84u8, 94u8 ^ 139u8 == 213u8, 95u8 ^ 105u8 == 54u8,
        95u8 ^ 134u8 == 217u8, 96u8 ^ 139u8 == 235u8, 97u8 ^ 32u8 == 65u8, 97u8 ^ 111u8 == 14u8,
        98u8 ^ 32u8 == 66u8, 100u8 ^ 74u8 == 46u8, 100u8 ^ 134u8 == 226u8, 100u8 ^ 196u8 == 160u8,
        101u8 ^ 32u8 == 69u8, 102u8 ^ 151u8 == 241u8, 103u8 ^ 10u8 == 109u8, 103u8 ^ 112u8 == 23u8,
        105u8 ^ 105u8 == 0u8, 108u8 ^ 151u8 == 251u8, 109u8 ^ 32u8 == 77u8, 109u8 ^ 151u8 == 250u8,
        114u8 ^ 105u8 == 27u8, 115u8 ^ 132u8 == 247u8, 115u8 ^ 163u8 == 208u8, 115u8 ^ 196u8 == 183u8,
        116u8 ^ 29u8 == 105u8, 116u8 ^ 112u8 == 4u8, 117u8 ^ 105u8 == 28u8, 117u8 ^ 111u8 == 26u8,
        117u8 ^ 139u8 == 254u8, 121u8 ^ 112u8 == 9u8, 122u8 ^ 105u8 == 19u8, 127u8 ^ 32u8 == 95u8,
        128u8 ^ 29u8 == 157u8, 128u8 ^ 32u8 == 160u8, 128u8 ^ 105u8 == 233u8, 128u8 ^ 151u8 == 23u8,
        132u8 ^ 105u8 == 237u8, 134u8 ^ 74u8 == 204u8, 135u8 ^ 29u8 == 154u8, 136u8 ^ 111u8 == 231u8,
        136u8 ^ 112u8 == 248u8, 139u8 ^ 134u8 == 13u8, 140u8 ^ 132u8 == 8u8, 146u8 ^ 112u8 == 226u8,
        148u8 ^ 10u8 == 158u8, 151u8 ^ 112u8 == 231u8, 151u8 ^ 134u8 == 17u8, 153u8 ^ 196u8 == 93u8,
        156u8 ^ 134u8 == 26u8, 158u8 ^ 132u8 == 26u8, 160u8 ^ 105u8 == 201u8, 160u8 ^ 112u8 == 208u8,
        162u8 ^ 163u8 == 1u8, 163u8 ^ 112u8 == 211u8, 164u8 ^ 134u8 == 34u8, 167u8 ^ 105u8 == 206u8,
        168u8 ^ 105u8 == 193u8, 168u8 ^ 151u8 == 63u8, 168u8 ^ 196u8 == 108u8, 170u8 ^ 105u8 == 195u8,
        170u8 ^ 139u8 == 33u8, 172u8 ^ 151u8 == 59u8, 173u8 ^ 32u8 == 141u8, 174u8 ^ 111u8 == 193u8,
        175u8 ^ 132u8 == 43u8, 176u8 ^ 10u8 == 186u8, 176u8 ^ 196u8 == 116u8, 178u8 ^ 132u8 == 54u8,
        179u8 ^ 32u8 == 147u8, 179u8 ^ 111u8 == 220u8, 181u8 ^ 196u8 == 113u8, 183u8 ^ 163u8 == 20u8,
        184u8 ^ 32u8 == 152u8, 186u8 ^ 111u8 == 213u8, 188u8 ^ 32u8 == 156u8, 191u8 ^ 151u8 == 40u8,
        192u8 ^ 105u8 == 169u8, 194u8 ^ 134u8 == 68u8, 196u8 ^ 163u8 == 103u8, 197u8 ^ 134u8 == 67u8,
        198u8 ^ 132u8 == 66u8, 198u8 ^ 139u8 == 77u8, 201u8 ^ 10u8 == 195u8, 201u8 ^ 105u8 == 160u8,
        202u8 ^ 32u8 == 234u8, 204u8 ^ 74u8 == 134u8, 205u8 ^ 29u8 == 208u8, 205u8 ^ 74u8 == 135u8,
        206u8 ^ 111u8 == 161u8, 208u8 ^ 151u8 == 71u8, 208u8 ^ 196u8 == 20u8, 210u8 ^ 139u8 == 89u8,
        213u8 ^ 132u8 == 81u8, 214u8 ^ 74u8 == 156u8, 216u8 ^ 32u8 == 248u8, 216u8 ^ 111u8 == 183u8,
        220u8 ^ 111u8 == 179u8, 221u8 ^ 74u8 == 151u8, 221u8 ^ 134u8 == 91u8, 222u8 ^ 112u8 == 174u8,
        222u8 ^ 196u8 == 26u8, 223u8 ^ 74u8 == 149u8, 223u8 ^ 163u8 == 124u8, 226u8 ^ 132u8 == 102u8,
        227u8 ^ 105u8 == 138u8, 229u8 ^ 163u8 == 70u8, 230u8 ^ 105u8 == 143u8, 232u8 ^ 29u8 == 245u8,
        233u8 ^ 111u8 == 134u8, 235u8 ^ 32u8 == 203u8, 236u8 ^ 112u8 == 156u8, 237u8 ^ 139u8 == 102u8,
        239u8 ^ 10u8 == 229u8, 240u8 ^ 105u8 == 153u8, 242u8 ^ 196u8 == 54u8, 243u8 ^ 196u8 == 55u8,
        244u8 ^ 139u8 == 127u8, 247u8 ^ 105u8 == 158u8, 247u8 ^ 134u8 == 113u8, 248u8 ^ 139u8 == 115u8,
        248u8 ^ 151u8 == 111u8, 248u8 ^ 163u8 == 91u8, 251u8 ^ 151u8 == 108u8, 252u8 ^ 151u8 == 107u8,
        255u8 ^ 112u8 == 143u8,
{
}

proof fn lemma_generator_15_root_0()
    ensures
        eval_prefix(generator_coeffs_15(), GF_LOGS[0], 16) == 0,
{
    lemma_sums_15();
    let p = generator_coeffs_15();
    let x = GF_LOGS[0];
    assert(eval_prefix(p, x, 0) == 0u8);
    assert(eval_prefix(p, x, 1) == 1u8);
    assert(eval_prefix(p, x, 2) == 28u8);
    assert(eval_prefix(p, x, 3) == 216u8);
    assert(eval_prefix(p, x, 4) == 183u8);
    assert(eval_prefix(p, x, 5) == 20u8);
    assert(eval_prefix(p, x, 6) == 100u8);
    assert(eval_prefix(p, x, 7) == 46u8);
    assert(eval_prefix(p, x, 8) == 36u8);
    assert(eval_prefix(p, x, 9) == 77u8);
    assert(eval_prefix(p, x, 10) == 36u8);
    assert(eval_prefix(p, x, 11) == 175u8);
    assert(eval_prefix(p, x, 12) == 43u8);
    assert(eval_prefix(p, x, 13) == 188u8);
    assert(eval_prefix(p, x, 14) == 156u8);
    assert(eval_prefix(p, x, 15) == 26u8);
    assert(eval_prefix(p, x, 16) == 0u8);
}

proof fn lemma_generator_15_root_1()
    ensures
        eval_prefix(generator_coeffs_15(), GF_LOGS[1], 16) == 0,
{
    lemma_sums_15();
    let p = generator_coeffs_15();
    let x = GF_LOGS[1];
    assert(eval_prefix(p, x, 0) == 0u8);
    assert(eval_prefix(p, x, 1) == 1u8);
    assert(eval_prefix(p, x, 2) == 31u8);
    assert(eval_prefix(p, x, 3) == 250u8);
    assert(eval_prefix(p, x, 4) == 134u8);
    assert(eval_prefix(p, x, 5) == 178u8);
    assert(eval_prefix(p, x, 6) == 9u8);
    assert(eval_prefix(p, x, 7) == 88u8);
    assert(eval_prefix(p, x, 8) == 186u8);
    assert(eval_prefix(p, x, 9) == 0u8);
    assert(eval_prefix(p, x, 10) == 105u8);
    assert(eval_prefix(p, x, 11) == 89u8);
    assert(eval_prefix(p, x, 12) == 54u8);
    assert(eval_prefix(p, x, 13) == 251u8);
    assert(eval_prefix(p, x, 14) == 203u8);
    assert(eval_prefix(p, x, 15) == 13u8);
    assert(eval_prefix(p, x, 16) == 0u8);
}

proof fn lemma_generator_15_root_2()
    ensures
        eval_prefix(generator_coeffs_15(), GF_LOGS[2], 16) == 0,
{
    lemma_sums_15();
    let p = generator_coeffs_15();
    let x = GF_LOGS[2];
    assert(eval_prefix(p, x, 0) == 0u8);
    assert(eval_prefix(p, x, 1) == 1u8);
    assert(eval_prefix(p, x, 2) == 25u8);
    assert(eval_prefix(p, x, 3) == 160u8);
    assert(eval_prefix(p, x, 4) == 213u8);
    assert(eval_prefix(p, x, 5) == 208u8);
    assert(eval_prefix(p, x, 6) == 23u8);
    assert(eval_prefix(p, x, 7) == 22u8);
    assert(eval_prefix(p, x, 8) == 82u8);
    assert(eval_prefix(p, x, 9) == 60u8);
    assert(eval_prefix(p, x, 10) == 153u8);
    assert(eval_prefix(p, x, 11) == 213u8);
    assert(eval_prefix(p, x, 12) == 247u8);
    assert(eval_prefix(p, x, 13) == 108u8);
    assert(eval_prefix(p, x, 14) == 141u8);
    assert(eval_prefix(p, x, 15) == 136u8);
    assert(eval_prefix(p, x, 16) == 0u8);
}

proof fn lemma_generator_15_root_3()
    ensures
        eval_prefix(generator_coeffs_15(), GF_LOGS[3], 16) == 0,
{
    lemma_sums_15();
    let p = generator_coeffs_15();
    let x = GF_LOGS[3];
    assert(eval_prefix(p, x, 0) == 0u8);
    assert(eval_prefix(p, x, 1) == 1u8);
    assert(eval_prefix(p, x, 2) == 21u8);
    assert(eval_prefix(p, x, 3) == 108u8);
    assert(eval_prefix(p, x, 4) == 40u8);
    assert(eval_prefix(p, x, 5) == 254u8);
    assert(eval_prefix(p, x, 6) == 211u8);
    assert(eval_prefix(p, x, 7) == 156u8);
    assert(eval_prefix(p, x, 8) == 158u8);
    assert(eval_prefix(p, x, 9) == 237u8);
    assert(eval_prefix(p, x, 10) == 82u8);
    assert(eval_prefix(p, x, 11) == 33u8);
    assert(eval_prefix(p, x, 12) == 145u8);
    assert(eval_prefix(p, x, 13) == 107u8);
    assert(eval_prefix(p, x, 14) == 95u8);
    assert(eval_prefix(p, x, 15) == 68u8);
    assert(eval_prefix(p, x, 16) == 0u8);
}

proof fn lemma_generator_15_root_4()
    ensures
        eval_prefix(generator_coeffs_15(), GF_LOGS[4], 16) == 0,
{
    lemma_sums_15();
    let p = generator_coeffs_15();
    let x = GF_LOGS[4];
    assert(eval_prefix(p, x, 0) == 0u8);
    assert(eval_prefix(p, x, 1) == 1u8);
    assert(eval_prefix(p, x, 2) == 13u8);
    assert(eval_prefix(p, x, 3) == 20u8);
    assert(eval_prefix(p, x, 4) == 50u8);
    assert(eval_prefix(p, x, 5) == 164u8);
    assert(eval_prefix(p, x, 6) == 226u8);
    assert(eval_prefix(p, x, 7) == 204u8);
    assert(eval_prefix(p, x, 8) == 86u8);
    assert(eval_prefix(p, x, 9) == 96u8);
    assert(eval_prefix(p, x, 10) == 39u8);
    assert(eval_prefix(p, x, 11) == 193u8);
    assert(eval_prefix(p, x, 12) == 8u8);
    assert(eval_prefix(p, x, 13) == 23u8);
    assert(eval_prefix(p, x, 14) == 77u8);
    assert(eval_prefix(p, x, 15) == 34u8);
    assert(eval_prefix(p, x, 16) == 0u8);
}

proof fn lemma_generator_15_root_5()
    ensures
        eval_prefix(generator_coeffs_15(), GF_LOGS[5], 16) == 0,
{
    lemma_sums_15();
    let p = generator_coeffs_15();
    let x = GF_LOGS[5];
    assert(eval_prefix(p, x, 0) == 0u8);
    assert(eval_prefix(p, x, 1) == 1u8);
    assert(eval_prefix(p, x, 2) == 61u8);
    assert(eval_prefix(p, x, 3) == 55u8);
    assert(eval_prefix(p, x, 4) == 193u8);
    assert(eval_prefix(p, x, 5) == 166u8);
    assert(eval_prefix(p, x, 6) == 9u8);
    assert(eval_prefix(p, x, 7) == 119u8);
    assert(eval_prefix(p, x, 8) == 76u8);
    assert(eval_prefix(p, x, 9) == 28u8);
    assert(eval_prefix(p, x, 10) == 206u8);
    assert(eval_prefix(p, x, 11) == 115u8);
    assert(eval_prefix(p, x, 12) == 66u8);
    assert(eval_prefix(p, x, 13) == 63u8);
    assert(eval_prefix(p, x, 14) == 147u8);
    assert(eval_prefix(p, x, 15) == 17u8);
    assert(eval_prefix(p, x, 16) == 0u8);
}

proof fn lemma_generator_15_root_6()
    ensures
        eval_prefix(generator_coeffs_15(), GF_LOGS[6], 16) == 0,
{
    lemma_sums_15();
    let p = generator_coeffs_15();
    let x = GF_LOGS[6];
    assert(eval_prefix(p, x, 0) == 0u8);
    assert(eval_prefix(p, x, 1) == 1u8);
    assert(eval_prefix(p, x, 2) == 93u8);
    assert(eval_prefix(p, x, 3) == 26u8);
    assert(eval_prefix(p, x, 4) == 161u8);
    assert(eval_prefix(p, x, 5) == 140u8);
    assert(eval_prefix(p, x, 6) == 208u8);
    assert(eval_prefix(p, x, 7) == 116u8);
    assert(eval_prefix(p, x, 8) == 70u8);
    assert(eval_prefix(p, x, 9) == 57u8);
    assert(eval_prefix(p, x, 10) == 143u8);
    assert(eval_prefix(p, x, 11) == 235u8);
    assert(eval_prefix(p, x, 12) == 220u8);
    assert(eval_prefix(p, x, 13) == 142u8);
    assert(eval_prefix(p, x, 14) == 0u8);
    assert(eval_prefix(p, x, 15) == 134u8);
    assert(eval_prefix(p, x, 16) == 0u8);
}

proof fn lemma_generator_15_root_7()
    ensures
        eval_prefix(generator_coeffs_15(), GF_LOGS[7], 16) == 0,
{
    lemma_sums_15();
    let p = generator_coeffs_15();
    let x = GF_LOGS[7];
    assert(eval_prefix(p, x, 0) == 0u8);
    assert(eval_prefix(p, x, 1) == 1u8);
    assert(eval_prefix(p, x, 2) == 157u8);
    assert(eval_prefix(p, x, 3) == 241u8);
    assert(eval_prefix(p, x, 4) == 94u8);
    assert(eval_prefix(p, x, 5) == 159u8);
    assert(eval_prefix(p, x, 6) == 88u8);
    assert(eval_prefix(p, x, 7) == 81u8);
    assert(eval_prefix(p, x, 8) == 229u8);
    assert(eval_prefix(p, x, 9) == 138u8);
    assert(eval_prefix(p, x, 10) == 19u8);
    assert(eval_prefix(p, x, 11) == 254u8);
    assert(eval_prefix(p, x, 12) == 102u8);
    assert(eval_prefix(p, x, 13) == 250u8);
    assert(eval_prefix(p, x, 14) == 248u8);
    assert(eval_prefix(p, x, 15) == 67u8);
    assert(eval_prefix(p, x, 16) == 0u8);
}

proof fn lemma_generator_15_root_8()
    ensures
        eval_prefix(generator_coeffs_15(), GF_LOGS[8], 16) == 0,
{
    lemma_sums_15();
    let p = generator_coeffs_15();
    let x = GF_LOGS[8];
    assert(eval_prefix(p, x, 0) == 0u8);
    assert(eval_prefix(p, x, 1) == 1u8);
    assert(eval_prefix(p, x, 2) == 0u8);
    assert(eval_prefix(p, x, 3) == 196u8);
    assert(eval_prefix(p, x, 4) == 46u8);
    assert(eval_prefix(p, x, 5) == 130u8);
    assert(eval_prefix(p, x, 6) == 108u8);
    assert(eval_prefix(p, x, 7) == 66u8);
    assert(eval_prefix(p, x, 8) == 35u8);
    assert(eval_prefix(p, x, 9) == 201u8);
    assert(eval_prefix(p, x, 10) == 169u8);
    assert(eval_prefix(p, x, 11) == 223u8);
    assert(eval_prefix(p, x, 12) == 199u8);
    assert(eval_prefix(p, x, 13) == 241u8);
    assert(eval_prefix(p, x, 14) == 66u8);
    assert(eval_prefix(p, x, 15) == 175u8);
    assert(eval_prefix(p, x, 16) == 0u8);
}

proof fn lemma_generator_15_root_9()
    ensures
        eval_prefix(generator_coeffs_15(), GF_LOGS[9], 16) == 0,
{
    lemma_sums_15();
    let p = generator_coeffs_15();
    let x = GF_LOGS[9];
    assert(eval_prefix(p, x, 0) == 0u8);
    assert(eval_prefix(p, x, 1) == 1u8);
    assert(eval_prefix(p, x, 2) == 39u8);
    assert(eval_prefix(p, x, 3) == 113u8);
    assert(eval_prefix(p, x, 4) == 231u8);
    assert(eval_prefix(p, x, 5) == 124u8);
    assert(eval_prefix(p, x, 6) == 231u8);
    assert(eval_prefix(p, x, 7) == 149u8);
    assert(eval_prefix(p, x, 8) == 19u8);
    assert(eval_prefix(p, x, 9) == 160u8);
    assert(eval_prefix(p, x, 10) == 54u8);
    assert(eval_prefix(p, x, 11) == 131u8);
    assert(eval_prefix(p, x, 12) == 134u8);
    assert(eval_prefix(p, x, 13) == 71u8);
    assert(eval_prefix(p, x, 14) == 160u8);
    assert(eval_prefix(p, x, 15) == 217u8);
    assert(eval_prefix(p, x, 16) == 0u8);
}

proof fn lemma_generator_15_root_10()
    ensures
        eval_prefix(generator_coeffs_15(), GF_LOGS[10], 16) == 0,
{
    lemma_sums_15();
    let p = generator_coeffs_15();
    let x = GF_LOGS[10];
    assert(eval_prefix(p, x, 0) == 0u8);
    assert(eval_prefix(p, x, 1) == 1u8);
    assert(eval_prefix(p, x, 2) == 105u8);
    assert(eval_prefix(p, x, 3) == 93u8);
    assert(eval_prefix(p, x, 4) == 14u8);
    assert(eval_prefix(p, x, 5) == 1u8);
    assert(eval_prefix(p, x, 6) == 4u8);
    assert(eval_prefix(p, x, 7) == 135u8);
    assert(eval_prefix(p, x, 8) == 195u8);
    assert(eval_prefix(p, x, 9) == 33u8);
    assert(eval_prefix(p, x, 10) == 59u8);
    assert(eval_prefix(p, x, 11) == 165u8);
    assert(eval_prefix(p, x, 12) == 131u8);
    assert(eval_prefix(p, x, 13) == 147u8);
    assert(eval_prefix(p, x, 14) == 55u8);
    assert(eval_prefix(p, x, 15) == 226u8);
    assert(eval_prefix(p, x, 16) == 0u8);
}

proof fn lemma_generator_15_root_11()
    ensures
        eval_prefix(generator_coeffs_15(), GF_LOGS[11], 16) == 0,
{
    lemma_sums_15();
    let p = generator_coeffs_15();
    let x = GF_LOGS[11];
    assert(eval_prefix(p, x, 0) == 0u8);
    assert(eval_prefix(p, x, 1) == 1u8);
    assert(eval_prefix(p, x, 2) == 245u8);
    assert(eval_prefix(p, x, 3) == 116u8);
    assert(eval_prefix(p, x, 4) == 26u8);
    assert(eval_prefix(p, x, 5) == 91u8);
    assert(eval_prefix(p, x, 6) == 248u8);
    assert(eval_prefix(p, x, 7) == 134u8);
    assert(eval_prefix(p, x, 8) == 109u8);
    assert(eval_prefix(p, x, 9) == 193u8);
    assert(eval_prefix(p, x, 10) == 52u8);
    assert(eval_prefix(p, x, 11) == 102u8);
    assert(eval_prefix(p, x, 12) == 26u8);
    assert(eval_prefix(p, x, 13) == 111u8);
    assert(eval_prefix(p, x, 14) == 69u8);
    assert(eval_prefix(p, x, 15) == 113u8);
    assert(eval_prefix(p, x, 16) == 0u8);
}

proof fn lemma_generator_15_root_12()
    ensures
        eval_prefix(generator_coeffs_15(), GF_LOGS[12], 16) == 0,
{
    lemma_sums_15();
    let p = generator_coeffs_15();
    let x = GF_LOGS[12];
    assert(eval_prefix(p, x, 0) == 0u8);
    assert(eval_prefix(p, x, 1) == 1u8);
    assert(eval_prefix(p, x, 2) == 208u8);
    assert(eval_prefix(p, x, 3) == 255u8);
    assert(eval_prefix(p, x, 4) == 179u8);
    assert(eval_prefix(p, x, 5) == 103u8);
    assert(eval_prefix(p, x, 6) == 156u8);
    assert(eval_prefix(p, x, 7) == 105u8);
    assert(eval_prefix(p, x, 8) == 84u8);
    assert(eval_prefix(p, x, 9) == 27u8);
    assert(eval_prefix(p, x, 10) == 73u8);
    assert(eval_prefix(p, x, 11) == 77u8);
    assert(eval_prefix(p, x, 12) == 81u8);
    assert(eval_prefix(p, x, 13) == 59u8);
    assert(eval_prefix(p, x, 14) == 152u8);
    assert(eval_prefix(p, x, 15) == 182u8);
    assert(eval_prefix(p, x, 16) == 0u8);
}

proof fn lemma_generator_15_root_13()
    ensures
        eval_prefix(generator_coeffs_15(), GF_LOGS[13], 16) == 0,
{
    lemma_sums_15();
    let p = generator_coeffs_15();
    let x = GF_LOGS[13];
    assert(eval_prefix(p, x, 0) == 0u8);
    assert(eval_prefix(p, x, 1) == 1u8);
    assert(eval_prefix(p, x, 2) == 154u8);
    assert(eval_prefix(p, x, 3) == 183u8);
    assert(eval_prefix(p, x, 4) == 220u8);
    assert(eval_prefix(p, x, 5) == 191u8);
    assert(eval_prefix(p, x, 6) == 143u8);
    assert(eval_prefix(p, x, 7) == 0u8);
    assert(eval_prefix(p, x, 8) == 10u8);
    assert(eval_prefix(p, x, 9) == 54u8);
    assert(eval_prefix(p, x, 10) == 233u8);
    assert(eval_prefix(p, x, 11) == 131u8);
    assert(eval_prefix(p, x, 12) == 164u8);
    assert(eval_prefix(p, x, 13) == 40u8);
    assert(eval_prefix(p, x, 14) == 65u8);
    assert(eval_prefix(p, x, 15) == 91u8);
    assert(eval_prefix(p, x, 16) == 0u8);
}

proof fn lemma_generator_15_root_14()
    ensures
        eval_prefix(generator_coeffs_15(), GF_LOGS[14], 16) == 0,
{
    lemma_sums_15();
    let p = generator_coeffs_15();
    let x = GF_LOGS[14];
    assert(eval_prefix(p, x, 0) == 0u8);
    assert(eval_prefix(p, x, 1) == 1u8);
    assert(eval_prefix(p, x, 2) == 14u8);
    assert(eval_prefix(p, x, 3) == 54u8);
    assert(eval_prefix(p, x, 4) == 114u8);
    assert(eval_prefix(p, x, 5) == 70u8);
    assert(eval_prefix(p, x, 6) == 174u8);
    assert(eval_prefix(p, x, 7) == 151u8);
    assert(eval_prefix(p, x, 8) == 43u8);
    assert(eval_prefix(p, x, 9) == 158u8);
    assert(eval_prefix(p, x, 10) == 195u8);
    assert(eval_prefix(p, x, 11) == 127u8);
    assert(eval_prefix(p, x, 12) == 166u8);
    assert(eval_prefix(p, x, 13) == 210u8);
    assert(eval_prefix(p, x, 14) == 234u8);
    assert(eval_prefix(p, x, 15) == 163u8);
    assert(eval_prefix(p, x, 16) == 0u8);
}

/// The generator polynomial of degree 15 vanishes at the first 15 powers of `x`.
proof fn lemma_generator_15_roots()
    ensures
        forall|i: int|
            0 <= i < 15 ==> eval_prefix(generator_poly(15), #[trigger] GF_LOGS[i], 16) == 0,
{
    assert(generator_poly(15) =~= generator_coeffs_15());
    lemma_generator_15_root_0();
    lemma_generator_15_root_1();
    lemma_generator_15_root_2();
    lemma_generator_15_root_3();
    lemma_generator_15_root_4();
    lemma_generator_15_root_5();
    lemma_generator_15_root_6();
    lemma_generator_15_root_7();
    lemma_generator_15_root_8();
    lemma_generator_15_root_9();
    lemma_generator_15_root_10();
    lemma_generator_15_root_11();
    lemma_generator_15_root_12();
    lemma_generator_15_root_13();
    lemma_generator_15_root_14();
}

/// The coefficients of the generator polynomial of degree 16.
spec fn generator_coeffs_16() -> Seq<u8> {
    seq![
        1u8, 59u8, 13u8, 104u8, 189u8, 68u8, 209u8, 30u8, 8u8, 163u8, 65u8, 41u8,
        229u8, 98u8, 50u8, 36u8, 59u8,
    ]
}

/// The sums that evaluating the generator polynomial of degree 16 at its roots takes.
proof fn lemma_sums_16()
    by (bit_vector)
    ensures
        0u8 ^ 1u8 == 1u8, 1u8 ^ 59u8 == 58u8, 1u8 ^ 98u8 == 99u8, 2u8 ^ 59u8 == 57u8,
        3u8 ^ 30u8 == 29u8, 3u8 ^ 65u8 == 66u8, 4u8 ^ 30u8 == 26u8, 4u8 ^ 59u8 == 63u8,
        5u8 ^ 68u8 == 65u8, 7u8 ^ 104u8 == 111u8, 8u8 ^ 59u8 == 51u8, 10u8 ^ 163u8 == 169u8,
        10u8 ^ 229u8 == 239u8, 11u8 ^ 209u8 == 218u8, 11u8 ^ 229u8 == 238u8, 13u8 ^ 41u8 == 36u8,
        16u8 ^ 36u8 == 52u8, 16u8 ^ 59u8 == 43u8, 16u8 ^ 68u8 == 84u8, 19u8 ^ 59u8 == 40u8,
        20u8 ^ 30u8 == 10u8, 22u8 ^ 189u8 == 171u8, 23u8 ^ 8u8 == 31u8, 24u8 ^ 189u8 == 165u8,
        24u8 ^ 229u8 == 253u8, 25u8 ^ 50u8 == 43u8, 26u8 ^ 36u8 == 62u8, 27u8 ^ 229u8 == 254u8,
        29u8 ^ 59u8 == 38u8, 30u8 ^ 189u8 == 163u8, 31u8 ^ 8u8 == 23u8, 31u8 ^ 36u8 == 59u8,
        31u8 ^ 68u8 == 91u8, 32u8 ^ 59u8 == 27u8, 32u8 ^ 104u8 == 72u8, 36u8 ^ 229u8 == 193u8,
        38u8 ^ 41u8 == 15u8, 38u8 ^ 59u8 == 29u8, 41u8 ^ 163u8 == 138u8, 42u8 ^ 41u8 == 3u8,
        44u8 ^ 189u8 == 145u8, 45u8 ^ 50u8 == 31u8, 46u8 ^ 163u8 == 141u8, 47u8 ^ 41u8 == 6u8,
        47u8 ^ 65u8 == 110u8, 49u8 ^ 189u8 == 140u8, 50u8 ^ 104u8 == 90u8, 52u8 ^ 68u8 == 112u8,
        52u8 ^ 104u8 == 92u8, 55u8 ^ 13u8 == 58u8, 55u8 ^ 104u8 == 95u8, 57u8 ^ 98u8 == 91u8,
        58u8 ^ 13u8 == 55u8, 58u8 ^ 50u8 == 8u8, 58u8 ^ 59u8 == 1u8, 59u8 ^ 30u8 == 37u8,
        59u8 ^ 36u8 == 31u8, 59u8 ^ 41u8 == 18u8, 59u8 ^ 59u8 == 0u8, 59u8 ^ 163u8 == 152u8,
        62u8 ^ 36u8 == 26u8, 64u8 ^ 59u8 == 123u8, 65u8 ^ 104u8 == 41u8, 66u8 ^ 98u8 == 32u8,
        66u8 ^ 104u8 == 42u8, 67u8 ^ 36u8 == 103u8, 69u8 ^ 98u8 == 39u8, 69u8 ^ 163u8 == 230u8,
        69u8 ^ 189u8 == 248u8, 71u8 ^ 13u8 == 74u8, 73u8 ^ 163u8 == 234u8, 73u8 ^ 189u8 == 244u8,
        74u8 ^ 41u8 == 99u8, 75u8 ^ 68u8 == 15u8, 76u8 ^ 36u8 == 104u8, 77u8 ^ 30u8 == 83u8,
        77u8 ^ 65u8 == 12u8, 79u8 ^ 98u8 == 45u8, 81u8 ^ 65u8 == 16u8, 83u8 ^ 98u8 == 49u8,
        84u8 ^ 65u8 == 21u8, 87u8 ^ 8u8 == 95u8, 88u8 ^ 36u8 == 124u8, 91u8 ^ 30u8 == 69u8,
        95u8 ^ 8u8 == 87u8, 95u8 ^ 189u8 == 226u8, 96u8 ^ 68u8 == 36u8, 96u8 ^ 209u8 == 177u8,
        97u8 ^ 8u8 == 105u8, 97u8 ^ 104u8 == 9u8, 97u8 ^ 163u8 == 194u8, 98u8 ^ 30u8 == 124u8,
        101u8 ^ 8u8 == 109u8, 102u8 ^ 68u8 == 34u8, 105u8 ^ 8u8 == 97u8, 107u8 ^ 13u8 == 102u8,
        109u8 ^ 8u8 == 101u8, 111u8 ^ 209u8 == 190u8, 112u8 ^ 163u8 == 211u8, 113u8 ^ 98u8 == 19u8,
        113u8 ^ 104u8 == 25u8, 114u8 ^ 13u8 == 127u8, 114u8 ^ 65u8 == 51u8, 114u8 ^ 189u8 == 207u8,
        114u8 ^ 229u8 == 151u8, 115u8 ^ 68u8 == 55u8, 116u8 ^ 59u8 == 79u8, 117u8 ^ 104u8 == 29u8,
        119u8 ^ 30u8 == 105u8, 119u8 ^ 98u8 == 21u8, 121u8 ^ 229u8 == 156u8, 122u8 ^ 209u8 == 171u8,
        128u8 ^ 30u8 == 158u8, 128u8 ^ 59u8 == 187u8, 130u8 ^ 163u8 == 33u8, 130u8 ^ 209u8 == 83u8,
        131u8 ^ 41u8 == 170u8, 133u8 ^ 13u8 == 136u8, 133u8 ^ 30u8 == 155u8, 134u8 ^ 50u8 == 180u8,
        135u8 ^ 59u8 == 188u8, 135u8 ^ 98u8 == 229u8, 136u8 ^ 50u8 == 186u8, 138u8 ^ 13u8 == 135u8,
        138u8 ^ 98u8 == 232u8, 141u8 ^ 68u8 == 201u8, 142u8 ^ 68u8 == 202u8, 143u8 ^ 65u8 == 206u8,
        143u8 ^ 98u8 == 237u8, 144u8 ^ 8u8 == 152u8, 147u8 ^ 8u8 == 155u8, 150u8 ^ 68u8 == 210u8,
        152u8 ^ 8u8 == 144u8, 152u8 ^ 41u8 == 177u8, 152u8 ^ 104u8 == 240u8, 153u8 ^ 36u8 == 189u8,
        153u8 ^ 41u8 == 176u8, 154u8 ^ 13u8 == 151u8, 154u8 ^ 41u8 == 179u8, 155u8 ^ 8u8 == 147u8,
        155u8 ^ 98u8 == 249u8, 155u8 ^ 209u8 == 74u8, 156u8 ^ 229u8 == 121u8, 157u8 ^ 209u8 == 76u8,
        158u8 ^ 41u8 == 183u8, 158u8 ^ 163u8 == 61u8, 159u8 ^ 65u8 == 222u8, 159u8 ^ 98u8 == 253u8,
        162u8 ^ 189u8 == 31u8, 164u8 ^ 8u8 == 172u8, 164u8 ^ 50u8 == 150u8, 165u8 ^ 36u8 == 129u8,
        165u8 ^ 41u8 == 140u8, 166u8 ^ 30u8 == 184u8, 166u8 ^ 209u8 == 119u8, 170u8 ^ 229u8 == 79u8,
        171u8 ^ 13u8 == 166u8, 172u8 ^ 8u8 == 164u8, 173u8 ^ 41u8 == 132u8, 173u8 ^ 209u8 == 124u8,
        177u8 ^ 229u8 == 84u8, 180u8 ^ 50u8 == 134u8, 180u8 ^ 189u8 == 9u8, 181u8 ^ 50u8 == 135u8,
        181u8 ^ 104u8 == 221u8, 182u8 ^ 13u8 == 187u8, 183u8 ^ 36u8 == 147u8, 186u8 ^ 98u8 == 216u8,
        187u8 ^ 98u8 == 217u8, 187u8 ^ 189u8 == 6u8, 189u8 ^ 209u8 == 108u8, 189u8 ^ 229u8 == 88u8,
        192u8 ^ 98u8 == 162u8, 194u8 ^ 13u8 == 207u8, 194u8 ^ 30u8 == 220u8, 194u8 ^ 65u8 == 131u8,
        195u8 ^ 50u8 == 241u8, 197u8 ^ 30u8 == 219u8, 198u8 ^ 65u8 == 135u8, 199u8 ^ 41u8 == 238u8,
        199u8 ^ 68u8 == 131u8, 201u8 ^ 13u8 == 196u8, 201u8 ^ 36u8 == 237u8, 201u8 ^ 163u8 == 106u8,
        202u8 ^ 65u8 == 139u8, 202u8 ^ 163u8 == 105u8, 203u8 ^ 41u8 == 226u8, 203u8 ^ 65u8 == 138u8,
        203u8 ^ 68u8 == 143u8, 203u8 ^ 163u8 == 104u8, 204u8 ^ 50u8 == 254u8, 205u8 ^ 59u8 == 246u8,
        206u8 ^ 209u8 == 31u8, 210u8 ^ 65u8 == 147u8, 212u8 ^ 8u8 == 220u8, 212u8 ^ 68u8 == 144u8,
        215u8 ^ 229u8 == 50u8, 218u8 ^ 104u8 == 178u8, 218u8 ^ 189u8 == 103u8, 219u8 ^ 50u8 == 233u8,
        220u8 ^ 8u8 == 212u8, 220u8 ^ 36u8 == 248u8, 221u8 ^ 189u8 == 96u8, 223u8 ^ 13u8 == 210u8,
        223u8 ^ 229u8 == 58u8, 225u8 ^ 209u8 == 48u8, 226u8 ^ 65u8 == 163u8, 226u8 ^ 68u8 == 166u8,
        226u8 ^ 209u8 == 51u8, 227u8 ^ 36u8 == 199u8, 227u8 ^ 104u8 == 139u8, 227u8 ^ 229u8 == 6u8,
        228u8 ^ 209u8 == 53u8, 231u8 ^ 50u8 == 213u8, 231u8 ^ 209u8 == 54u8, 232u8 ^ 59u8 == 211u8,
        234u8 ^ 36u8 == 206u8, 235u8 ^ 68u8 == 175u8, 242u8 ^ 30u8 == 236u8, 242u8 ^ 104u8 == 154u8,
        244u8 ^ 36u8 == 208u8, 244u8 ^ 41u8 == 221u8, 244u8 ^ 189u8 == 73u8, 246u8 ^ 50u8 == 196u8,
        246u8 ^ 229u8 == 19u8, 247u8 ^ 163u8 == 84u8, 248u8 ^ 65u8 == 185u8, 249u8 ^ 50u8 == 203u8,
        252u8 ^ 13u8 == 241u8, 254u8 ^ 104u8 == 150u8,
{
}

proof fn lemma_generator_16_root_0()
    ensures
        eval_prefix(generator_coeffs_16(), GF_LOGS[0], 17) == 0,
{
    lemma_sums_16();
    let p = generator_coeffs_16();
    let x = GF_LOGS[0];
    assert(eval_prefix(p, x, 0) == 0u8);
    assert(eval_prefix(p, x, 1) == 1u8);
    assert(eval_prefix(p, x, 2) == 58u8);
    assert(eval_prefix(p, x, 3) == 55u8);
    assert(eval_prefix(p, x, 4) == 95u8);
    assert(eval_prefix(p, x, 5) == 226u8);
    assert(eval_prefix(p, x, 6) == 166u8);
    assert(eval_prefix(p, x, 7) == 119u8);
    assert(eval_prefix(p, x, 8) == 105u8);
    assert(eval_prefix(p, x, 9) == 97u8);
    assert(eval_prefix(p, x, 10) == 194u8);
    assert(eval_prefix(p, x, 11) == 131u8);
    assert(eval_prefix(p, x, 12) == 170u8);
    assert(eval_prefix(p, x, 13) == 79u8);
    assert(eval_prefix(p, x, 14) == 45u8);
    assert(eval_prefix(p, x, 15) == 31u8);
    assert(eval_prefix(p, x, 16) == 59u8);
    assert(eval_prefix(p, x, 17) == 0u8);
}

proof fn lemma_generator_16_root_1()
    ensures
        eval_prefix(generator_coeffs_16(), GF_LOGS[1], 17) == 0,
{
    lemma_sums_16();
    let p = generator_coeffs_16();
    let x = GF_LOGS[1];
    assert(eval_prefix(p, x, 0) == 0u8);
    assert(eval_prefix(p, x, 1) == 1u8);
    assert(eval_prefix(p, x, 2) == 57u8);
    assert(eval_prefix(p, x, 3) == 127u8);
    assert(eval_prefix(p, x, 4) == 150u8);
    assert(eval_prefix(p, x, 5) == 140u8);
    assert(eval_prefix(p, x, 6) == 65u8);
    assert(eval_prefix(p, x, 7) == 83u8);
    assert(eval_prefix(p, x, 8) == 184u8);
    assert(eval_prefix(p, x, 9) == 101u8);
    assert(eval_prefix(p, x, 10) == 105u8);
    assert(eval_prefix(p, x, 11) == 147u8);
    assert(eval_prefix(p, x, 12) == 18u8);
    assert(eval_prefix(p, x, 13) == 193u8);
    assert(eval_prefix(p, x, 14) == 253u8);
    assert(eval_prefix(p, x, 15) == 213u8);
    assert(eval_prefix(p, x, 16) == 147u8);
    assert(eval_prefix(p, x, 17) == 0u8);
}

proof fn lemma_generator_16_root_2()
    ensures
        eval_prefix(generator_coeffs_16(), GF_LOGS[2], 17) == 0,
{
    lemma_sums_16();
    let p = generator_coeffs_16();
    let x = GF_LOGS[2];
    assert(eval_prefix(p, x, 0) == 0u8);
    assert(eval_prefix(p, x, 1) == 1u8);
    assert(eval_prefix(p, x, 2) == 63u8);
    assert(eval_prefix(p, x, 3) == 241u8);
    assert(eval_prefix(p, x, 4) == 139u8);
    assert(eval_prefix(p, x, 5) == 171u8);
    assert(eval_prefix(p, x, 6) == 210u8);
    assert(eval_prefix(p, x, 7) == 190u8);
    assert(eval_prefix(p, x, 8) == 220u8);
    assert(eval_prefix(p, x, 9) == 95u8);
    assert(eval_prefix(p, x, 10) == 194u8);
    assert(eval_prefix(p, x, 11) == 110u8);
    assert(eval_prefix(p, x, 12) == 140u8);
    assert(eval_prefix(p, x, 13) == 239u8);
    assert(eval_prefix(p, x, 14) == 249u8);
    assert(eval_prefix(p, x, 15) == 241u8);
    assert(eval_prefix(p, x, 16) == 199u8);
    assert(eval_prefix(p, x, 17) == 0u8);
}

proof fn lemma_generator_16_root_3()
    ensures
        eval_prefix(generator_coeffs_16(), GF_LOGS[3], 17) == 0,
{
    lemma_sums_16();
    let p = generator_coeffs_16();
    let x = GF_LOGS[3];
    assert(eval_prefix(p, x, 0) == 0u8);
    assert(eval_prefix(p, x, 1) == 1u8);
    assert(eval_prefix(p, x, 2) == 51u8);
    assert(eval_prefix(p, x, 3) == 136u8);
    assert(eval_prefix(p, x, 4) == 92u8);
    assert(eval_prefix(p, x, 5) == 103u8);
    assert(eval_prefix(p, x, 6) == 91u8);
    assert(eval_prefix(p, x, 7) == 51u8);
    assert(eval_prefix(p, x, 8) == 155u8);
    assert(eval_prefix(p, x, 9) == 164u8);
    assert(eval_prefix(p, x, 10) == 234u8);
    assert(eval_prefix(p, x, 11) == 66u8);
    assert(eval_prefix(p, x, 12) == 3u8);
    assert(eval_prefix(p, x, 13) == 253u8);
    assert(eval_prefix(p, x, 14) == 217u8);
    assert(eval_prefix(p, x, 15) == 180u8);
    assert(eval_prefix(p, x, 16) == 237u8);
    assert(eval_prefix(p, x, 17) == 0u8);
}

proof fn lemma_generator_16_root_4()
    ensures
        eval_prefix(generator_coeffs_16(), GF_LOGS[4], 17) == 0,
{
    lemma_sums_16();
    let p = generator_coeffs_16();
    let x = GF_LOGS[4];
    assert(eval_prefix(p, x, 0) == 0u8);
    assert(eval_prefix(p, x, 1) == 1u8);
    assert(eval_prefix(p, x, 2) == 43u8);
    assert(eval_prefix(p, x, 3) == 135u8);
    assert(eval_prefix(p, x, 4) == 240u8);
    assert(eval_prefix(p, x, 5) == 6u8);
    assert(eval_prefix(p, x, 6) == 36u8);
    assert(eval_prefix(p, x, 7) == 171u8);
    assert(eval_prefix(p, x, 8) == 124u8);
    assert(eval_prefix(p, x, 9) == 155u8);
    assert(eval_prefix(p, x, 10) == 230u8);
    assert(eval_prefix(p, x, 11) == 135u8);
    assert(eval_prefix(p, x, 12) == 177u8);
    assert(eval_prefix(p, x, 13) == 58u8);
    assert(eval_prefix(p, x, 14) == 229u8);
    assert(eval_prefix(p, x, 15) == 196u8);
    assert(eval_prefix(p, x, 16) == 248u8);
    assert(eval_prefix(p, x, 17) == 0u8);
}

proof fn lemma_generator_16_root_5()
    ensures
        eval_prefix(generator_coeffs_16(), GF_LOGS[5], 17) == 0,
{
    lemma_sums_16();
    let p = generator_coeffs_16();
    let x = GF_LOGS[5];
    assert(eval_prefix(p, x, 0) == 0u8);
    assert(eval_prefix(p, x, 1) == 1u8);
    assert(eval_prefix(p, x, 2) == 27u8);
    assert(eval_prefix(p, x, 3) == 74u8);
    assert(eval_prefix(p, x, 4) == 221u8);
    assert(eval_prefix(p, x, 5) == 31u8);
    assert(eval_prefix(p, x, 6) == 131u8);
    assert(eval_prefix(p, x, 7) == 124u8);
    assert(eval_prefix(p, x, 8) == 37u8);
    assert(eval_prefix(p, x, 9) == 220u8);
    assert(eval_prefix(p, x, 10) == 33u8);
    assert(eval_prefix(p, x, 11) == 21u8);
    assert(eval_prefix(p, x, 12) == 179u8);
    assert(eval_prefix(p, x, 13) == 6u8);
    assert(eval_prefix(p, x, 14) == 162u8);
    assert(eval_prefix(p, x, 15) == 203u8);
    assert(eval_prefix(p, x, 16) == 124u8);
    assert(eval_prefix(p, x, 17) == 0u8);
}

proof fn lemma_generator_16_root_6()
    ensures
        eval_prefix(generator_coeffs_16(), GF_LOGS[6], 17) == 0,
{
    lemma_sums_16();
    let p = generator_coeffs_16();
    let x = GF_LOGS[6];
    assert(eval_prefix(p, x, 0) == 0u8);
    assert(eval_prefix(p, x, 1) == 1u8);
    assert(eval_prefix(p, x, 2) == 123u8);
    assert(eval_prefix(p, x, 3) == 166u8);
    assert(eval_prefix(p, x, 4) == 154u8);
    assert(eval_prefix(p, x, 5) == 244u8);
    assert(eval_prefix(p, x, 6) == 143u8);
    assert(eval_prefix(p, x, 7) == 177u8);
    assert(eval_prefix(p, x, 8) == 69u8);
    assert(eval_prefix(p, x, 9) == 152u8);
    assert(eval_prefix(p, x, 10) == 106u8);
    assert(eval_prefix(p, x, 11) == 222u8);
    assert(eval_prefix(p, x, 12) == 176u8);
    assert(eval_prefix(p, x, 13) == 254u8);
    assert(eval_prefix(p, x, 14) == 19u8);
    assert(eval_prefix(p, x, 15) == 134u8);
    assert(eval_prefix(p, x, 16) == 62u8);
    assert(eval_prefix(p, x, 17) == 0u8);
}

proof fn lemma_generator_16_root_7()
    ensures
        eval_prefix(generator_coeffs_16(), GF_LOGS[7], 17) == 0,
{
    lemma_sums_16();
    let p = generator_coeffs_16();
    let x = GF_LOGS[7];
    assert(eval_prefix(p, x, 0) == 0u8);
    assert(eval_prefix(p, x, 1) == 1u8);
    assert(eval_prefix(p, x, 2) == 187u8);
    assert(eval_prefix(p, x, 3) == 210u8);
    assert(eval_prefix(p, x, 4) == 9u8);
    assert(eval_prefix(p, x, 5) == 73u8);
    assert(eval_prefix(p, x, 6) == 55u8);
    assert(eval_prefix(p, x, 7) == 83u8);
    assert(eval_prefix(p, x, 8) == 236u8);
    assert(eval_prefix(p, x, 9) == 31u8);
    assert(eval_prefix(p, x, 10) == 152u8);
    assert(eval_prefix(p, x, 11) == 206u8);
    assert(eval_prefix(p, x, 12) == 238u8);
    assert(eval_prefix(p, x, 13) == 239u8);
    assert(eval_prefix(p, x, 14) == 232u8);
    assert(eval_prefix(p, x, 15) == 31u8);
    assert(eval_prefix(p, x, 16) == 31u8);
    assert(eval_prefix(p, x, 17) == 0u8);
}

proof fn lemma_generator_16_root_8()
    ensures
        eval_prefix(generator_coeffs_16(), GF_LOGS[8], 17) == 0,
{
    lemma_sums_16();
    let p = generator_coeffs_16();
    let x = GF_LOGS[8];
    assert(eval_prefix(p, x, 0) == 0u8);
    assert(eval_prefix(p, x, 1) == 1u8);
    assert(eval_prefix(p, x, 2) == 38u8);
    assert(eval_prefix(p, x, 3) == 196u8);
    assert(eval_prefix(p, x, 4) == 41u8);
    assert(eval_prefix(p, x, 5) == 207u8);
    assert(eval_prefix(p, x, 6) == 202u8);
    assert(eval_prefix(p, x, 7) == 54u8);
    assert(eval_prefix(p, x, 8) == 26u8);
    assert(eval_prefix(p, x, 9) == 23u8);
    assert(eval_prefix(p, x, 10) == 61u8);
    assert(eval_prefix(p, x, 11) == 138u8);
    assert(eval_prefix(p, x, 12) == 221u8);
    assert(eval_prefix(p, x, 13) == 156u8);
    assert(eval_prefix(p, x, 14) == 21u8);
    assert(eval_prefix(p, x, 15) == 150u8);
    assert(eval_prefix(p, x, 16) == 129u8);
    assert(eval_prefix(p, x, 17) == 0u8);
}

proof fn lemma_generator_16_root_9()
    ensures
        eval_prefix(generator_coeffs_16(), GF_LOGS[9], 17) == 0,
{
    lemma_sums_16();
    let p = generator_coeffs_16();
    let x = GF_LOGS[9];
    assert(eval_prefix(p, x, 0) == 0u8);
    assert(eval_prefix(p, x, 1) == 1u8);
    assert(eval_prefix(p, x, 2) == 1u8);
    assert(eval_prefix(p, x, 3) == 55u8);
    assert(eval_prefix(p, x, 4) == 90u8);
    assert(eval_prefix(p, x, 5) == 165u8);
    assert(eval_prefix(p, x, 6) == 201u8);
    assert(eval_prefix(p, x, 7) == 76u8);
    assert(eval_prefix(p, x, 8) == 29u8);
    assert(eval_prefix(p, x, 9) == 144u8);
    assert(eval_prefix(p, x, 10) == 104u8);
    assert(eval_prefix(p, x, 11) == 185u8);
    assert(eval_prefix(p, x, 12) == 6u8);
    assert(eval_prefix(p, x, 13) == 121u8);
    assert(eval_prefix(p, x, 14) == 39u8);
    assert(eval_prefix(p, x, 15) == 135u8);
    assert(eval_prefix(p, x, 16) == 206u8);
    assert(eval_prefix(p, x, 17) == 0u8);
}

proof fn lemma_generator_16_root_10()
    ensures
        eval_prefix(generator_coeffs_16(), GF_LOGS[10], 17) == 0,
{
    lemma_sums_16();
    let p = generator_coeffs_16();
    let x = GF_LOGS[10];
    assert(eval_prefix(p, x, 0) == 0u8);
    assert(eval_prefix(p, x, 1) == 1u8);
    assert(eval_prefix(p, x, 2) == 79u8);
    assert(eval_prefix(p, x, 3) == 151u8);
    assert(eval_prefix(p, x, 4) == 178u8);
    assert(eval_prefix(p, x, 5) == 248u8);
    assert(eval_prefix(p, x, 6) == 34u8);
    assert(eval_prefix(p, x, 7) == 31u8);
    assert(eval_prefix(p, x, 8) == 219u8);
    assert(eval_prefix(p, x, 9) == 212u8);
    assert(eval_prefix(p, x, 10) == 169u8);
    assert(eval_prefix(p, x, 11) == 12u8);
    assert(eval_prefix(p, x, 12) == 99u8);
    assert(eval_prefix(p, x, 13) == 19u8);
    assert(eval_prefix(p, x, 14) == 237u8);
    assert(eval_prefix(p, x, 15) == 254u8);
    assert(eval_prefix(p, x, 16) == 103u8);
    assert(eval_prefix(p, x, 17) == 0u8);
}

proof fn lemma_generator_16_root_11()
    ensures
        eval_prefix(generator_coeffs_16(), GF_LOGS[11], 17) == 0,
{
    lemma_sums_16();
    let p = generator_coeffs_16();
    let x = GF_LOGS[11];
    assert(eval_prefix(p, x, 0) == 0u8);
    assert(eval_prefix(p, x, 1) == 1u8);
    assert(eval_prefix(p, x, 2) == 211u8);
    assert(eval_prefix(p, x, 3) == 187u8);
    assert(eval_prefix(p, x, 4) == 25u8);
    assert(eval_prefix(p, x, 5) == 96u8);
    assert(eval_prefix(p, x, 6) == 144u8);
    assert(eval_prefix(p, x, 7) == 218u8);
    assert(eval_prefix(p, x, 8) == 83u8);
    assert(eval_prefix(p, x, 9) == 147u8);
    assert(eval_prefix(p, x, 10) == 141u8);
    assert(eval_prefix(p, x, 11) == 16u8);
    assert(eval_prefix(p, x, 12) == 15u8);
    assert(eval_prefix(p, x, 13) == 84u8);
    assert(eval_prefix(p, x, 14) == 91u8);
    assert(eval_prefix(p, x, 15) == 186u8);
    assert(eval_prefix(p, x, 16) == 189u8);
    assert(eval_prefix(p, x, 17) == 0u8);
}

proof fn lemma_generator_16_root_12()
    ensures
        eval_prefix(generator_coeffs_16(), GF_LOGS[12], 17) == 0,
{
    lemma_sums_16();
    let p = generator_coeffs_16();
    let x = GF_LOGS[12];
    assert(eval_prefix(p, x, 0) == 0u8);
    assert(eval_prefix(p, x, 1) == 1u8);
    assert(eval_prefix(p, x, 2) == 246u8);
    assert(eval_prefix(p, x, 3) == 58u8);
    assert(eval_prefix(p, x, 4) == 29u8);
    assert(eval_prefix(p, x, 5) == 9u8);
    assert(eval_prefix(p, x, 6) == 175u8);
    assert(eval_prefix(p, x, 7) == 108u8);
    assert(eval_prefix(p, x, 8) == 158u8);
    assert(eval_prefix(p, x, 9) == 172u8);
    assert(eval_prefix(p, x, 10) == 84u8);
    assert(eval_prefix(p, x, 11) == 51u8);
    assert(eval_prefix(p, x, 12) == 183u8);
    assert(eval_prefix(p, x, 13) == 50u8);
    assert(eval_prefix(p, x, 14) == 49u8);
    assert(eval_prefix(p, x, 15) == 43u8);
    assert(eval_prefix(p, x, 16) == 208u8);
    assert(eval_prefix(p, x, 17) == 0u8);
}

proof fn lemma_generator_16_root_13()
    ensures
        eval_prefix(generator_coeffs_16(), GF_LOGS[13], 17) == 0,
{
    lemma_sums_16();
    let p = generator_coeffs_16();
    let x = GF_LOGS[13];
    assert(eval_prefix(p, x, 0) == 0u8);
    assert(eval_prefix(p, x, 1) == 1u8);
    assert(eval_prefix(p, x, 2) == 188u8);
    assert(eval_prefix(p, x, 3) == 102u8);
    assert(eval_prefix(p, x, 4) == 42u8);
    assert(eval_prefix(p, x, 5) == 207u8);
    assert(eval_prefix(p, x, 6) == 84u8);
    assert(eval_prefix(p, x, 7) == 53u8);
    assert(eval_prefix(p, x, 8) == 10u8);
    assert(eval_prefix(p, x, 9) == 87u8);
    assert(eval_prefix(p, x, 10) == 211u8);
    assert(eval_prefix(p, x, 11) == 163u8);
    assert(eval_prefix(p, x, 12) == 36u8);
    assert(eval_prefix(p, x, 13) == 238u8);
    assert(eval_prefix(p, x, 14) == 216u8);
    assert(eval_prefix(p, x, 15) == 8u8);
    assert(eval_prefix(p, x, 16) == 104u8);
    assert(eval_prefix(p, x, 17) == 0u8);
}

proof fn lemma_generator_16_root_14()
    ensures
        eval_prefix(generator_coeffs_16(), GF_LOGS[14], 17) == 0,
{
    lemma_sums_16();
    let p = generator_coeffs_16();
    let x = GF_LOGS[14];
    assert(eval_prefix(p, x, 0) == 0u8);
    assert(eval_prefix(p, x, 1) == 1u8);
    assert(eval_prefix(p, x, 2) == 40u8);
    assert(eval_prefix(p, x, 3) == 207u8);
    assert(eval_prefix(p, x, 4) == 72u8);
    assert(eval_prefix(p, x, 5) == 145u8);
    assert(eval_prefix(p, x, 6) == 15u8);
    assert(eval_prefix(p, x, 7) == 48u8);
    assert(eval_prefix(p, x, 8) == 105u8);
    assert(eval_prefix(p, x, 9) == 109u8);
    assert(eval_prefix(p, x, 10) == 138u8);
    assert(eval_prefix(p, x, 11) == 138u8);
    assert(eval_prefix(p, x, 12) == 226u8);
    assert(eval_prefix(p, x, 13) == 88u8);
    assert(eval_prefix(p, x, 14) == 99u8);
    assert(eval_prefix(p, x, 15) == 233u8);
    assert(eval_prefix(p, x, 16) == 52u8);
    assert(eval_prefix(p, x, 17) == 0u8);
}

proof fn lemma_generator_16_root_15()
    ensures
        eval_prefix(generator_coeffs_16(), GF_LOGS[15], 17) == 0,
{
    lemma_sums_16();
    let p = generator_coeffs_16();
    let x = GF_LOGS[15];
    assert(eval_prefix(p, x, 0) == 0u8);
    assert(eval_prefix(p, x, 1) == 1u8);
    assert(eval_prefix(p, x, 2) == 29u8);
    assert(eval_prefix(p, x, 3) == 196u8);
    assert(eval_prefix(p, x, 4) == 111u8);
    assert(eval_prefix(p, x, 5) == 163u8);
    assert(eval_prefix(p, x, 6) == 112u8);
    assert(eval_prefix(p, x, 7) == 74u8);
    assert(eval_prefix(p, x, 8) == 10u8);
    assert(eval_prefix(p, x, 9) == 105u8);
    assert(eval_prefix(p, x, 10) == 105u8);
    assert(eval_prefix(p, x, 11) == 139u8);
    assert(eval_prefix(p, x, 12) == 132u8);
    assert(eval_prefix(p, x, 13) == 151u8);
    assert(eval_prefix(p, x, 14) == 32u8);
    assert(eval_prefix(p, x, 15) == 134u8);
    assert(eval_prefix(p, x, 16) == 26u8);
    assert(eval_prefix(p, x, 17) == 0u8);
}

/// The generator polynomial of degree 16 vanishes at the first 16 powers of `x`.
proof fn lemma_generator_16_roots()
    ensures
        forall|i: int|
            0 <= i < 16 ==> eval_prefix(generator_poly(16), #[trigger] GF_LOGS[i], 17) == 0,
{
    assert(generator_poly(16) =~= generator_coeffs_16());
    lemma_generator_16_root_0();
    lemma_generator_16_root_1();
    lemma_generator_16_root_2();
    lemma_generator_16_root_3();
    lemma_generator_16_root_4();
    lemma_generator_16_root_5();
    lemma_generator_16_root_6();
    lemma_generator_16_root_7();
    lemma_generator_16_root_8();
    lemma_generator_16_root_9();
    lemma_generator_16_root_10();
    lemma_generator_16_root_11();
    lemma_generator_16_root_12();
    lemma_generator_16_root_13();
    lemma_generator_16_root_14();
    lemma_generator_16_root_15();
}

/// The coefficients of the generator polynomial of degree 17.
spec fn generator_coeffs_17() -> Seq<u8> {
    seq![
        1u8, 119u8, 66u8, 83u8, 120u8, 119u8, 22u8, 197u8, 83u8, 249u8, 41u8, 143u8,
        134u8, 85u8, 53u8, 125u8, 99u8, 79u8,
    ]
}

/// The sums that evaluating the generator polynomial of degree 17 at its roots takes.
proof fn lemma_sums_17()
    by (bit_vector)
    ensures
        0u8 ^ 1u8 == 1u8, 0u8 ^ 53u8 == 53u8, 0u8 ^ 120u8 == 120u8, 1u8 ^ 119u8 == 118u8,
        2u8 ^ 119u8 == 117u8, 4u8 ^ 83u8 == 87u8, 4u8 ^ 119u8 == 115u8, 5u8 ^ 41u8 == 44u8,
        5u8 ^ 99u8 == 102u8, 7u8 ^ 53u8 == 50u8, 8u8 ^ 119u8 == 127u8, 9u8 ^ 66u8 == 75u8,
        9u8 ^ 125u8 == 116u8, 9u8 ^ 197u8 == 204u8, 10u8 ^ 125u8 == 119u8, 14u8 ^ 99u8 == 109u8,
        14u8 ^ 143u8 == 129u8, 16u8 ^ 119u8 == 103u8, 16u8 ^ 120u8 == 104u8, 16u8 ^ 134u8 == 150u8,
        17u8 ^ 41u8 == 56u8, 19u8 ^ 119u8 == 100u8, 20u8 ^ 125u8 == 105u8, 21u8 ^ 99u8 == 118u8,
        22u8 ^ 66u8 == 84u8, 23u8 ^ 125u8 == 106u8, 24u8 ^ 125u8 == 101u8, 25u8 ^ 249u8 == 224u8,
        27u8 ^ 125u8 == 102u8, 29u8 ^ 119u8 == 106u8, 31u8 ^ 119u8 == 104u8, 32u8 ^ 119u8 == 87u8,
        38u8 ^ 53u8 == 19u8, 38u8 ^ 119u8 == 81u8, 39u8 ^ 120u8 == 95u8, 43u8 ^ 41u8 == 2u8,
        44u8 ^ 99u8 == 79u8, 45u8 ^ 143u8 == 162u8, 47u8 ^ 66u8 == 109u8, 48u8 ^ 53u8 == 5u8,
        48u8 ^ 134u8 == 182u8, 49u8 ^ 83u8 == 98u8, 49u8 ^ 85u8 == 100u8, 50u8 ^ 66u8 == 112u8,
        50u8 ^ 83u8 == 97u8, 50u8 ^ 85u8 == 103u8, 51u8 ^ 41u8 == 26u8, 51u8 ^ 119u8 == 68u8,
        51u8 ^ 120u8 == 75u8, 52u8 ^ 83u8 == 103u8, 52u8 ^ 85u8 == 97u8, 52u8 ^ 125u8 == 73u8,
        52u8 ^ 143u8 == 187u8, 54u8 ^ 120u8 == 78u8, 55u8 ^ 85u8 == 98u8, 55u8 ^ 119u8 == 64u8,
        56u8 ^ 143u8 == 183u8, 56u8 ^ 249u8 == 193u8, 57u8 ^ 53u8 == 12u8, 57u8 ^ 66u8 == 123u8,
        58u8 ^ 119u8 == 77u8, 59u8 ^ 83u8 == 104u8, 60u8 ^ 120u8 == 68u8, 61u8 ^ 85u8 == 104u8,
        61u8 ^ 119u8 == 74u8, 62u8 ^ 53u8 == 11u8, 62u8 ^ 66u8 == 124u8, 63u8 ^ 99u8 == 92u8,
        63u8 ^ 125u8 == 66u8, 64u8 ^ 83u8 == 19u8, 64u8 ^ 119u8 == 55u8, 65u8 ^ 66u8 == 3u8,
        65u8 ^ 120u8 == 57u8, 66u8 ^ 85u8 == 23u8, 69u8 ^ 134u8 == 195u8, 69u8 ^ 197u8 == 128u8,
        70u8 ^ 66u8 == 4u8, 71u8 ^ 143u8 == 200u8, 72u8 ^ 85u8 == 29u8, 73u8 ^ 119u8 == 62u8,
        74u8 ^ 83u8 == 25u8, 74u8 ^ 85u8 == 31u8, 74u8 ^ 119u8 == 61u8, 74u8 ^ 134u8 == 204u8,
        75u8 ^ 85u8 == 30u8, 75u8 ^ 197u8 == 142u8, 76u8 ^ 83u8 == 31u8, 76u8 ^ 119u8 == 59u8,
        76u8 ^ 143u8 == 195u8, 77u8 ^ 41u8 == 100u8, 77u8 ^ 83u8 == 30u8, 77u8 ^ 99u8 == 46u8,
        79u8 ^ 66u8 == 13u8, 79u8 ^ 79u8 == 0u8, 79u8 ^ 85u8 == 26u8, 79u8 ^ 125u8 == 50u8,
        80u8 ^ 22u8 == 70u8, 80u8 ^ 99u8 == 51u8, 81u8 ^ 125u8 == 44u8, 83u8 ^ 83u8 == 0u8,
        85u8 ^ 41u8 == 124u8, 85u8 ^ 83u8 == 6u8, 85u8 ^ 85u8 == 0u8, 86u8 ^ 125u8 == 43u8,
        88u8 ^ 99u8 == 59u8, 89u8 ^ 41u8 == 112u8, 89u8 ^ 85u8 == 12u8, 89u8 ^ 120u8 == 33u8,
        89u8 ^ 125u8 == 36u8, 89u8 ^ 143u8 == 214u8, 90u8 ^ 249u8 == 163u8, 91u8 ^ 66u8 == 25u8,
        91u8 ^ 83u8 == 8u8, 92u8 ^ 134u8 == 218u8, 95u8 ^ 53u8 == 106u8, 99u8 ^ 119u8 == 20u8,
        99u8 ^ 134u8 == 229u8, 100u8 ^ 53u8 == 81u8, 100u8 ^ 83u8 == 55u8, 101u8 ^ 22u8 == 115u8,
        101u8 ^ 83u8 == 54u8, 102u8 ^ 143u8 == 233u8, 102u8 ^ 249u8 == 159u8, 103u8 ^ 120u8 == 31u8,
        104u8 ^ 22u8 == 126u8, 104u8 ^ 41u8 == 65u8, 105u8 ^ 41u8 == 64u8, 107u8 ^ 134u8 == 237u8,
        109u8 ^ 83u8 == 62u8, 109u8 ^ 197u8 == 168u8, 110u8 ^ 249u8 == 151u8, 111u8 ^ 22u8 == 121u8,
        111u8 ^ 119u8 == 24u8, 111u8 ^ 197u8 == 170u8, 112u8 ^ 134u8 == 246u8, 113u8 ^ 134u8 == 247u8,
        115u8 ^ 143u8 == 252u8, 116u8 ^ 83u8 == 39u8, 116u8 ^ 99u8 == 23u8, 116u8 ^ 119u8 == 3u8,
        117u8 ^ 125u8 == 8u8, 118u8 ^ 53u8 == 67u8, 118u8 ^ 66u8 == 52u8, 118u8 ^ 83u8 == 37u8,
        118u8 ^ 249u8 == 143u8, 119u8 ^ 22u8 == 97u8, 120u8 ^ 119u8 == 15u8, 125u8 ^ 22u8 == 107u8,
        125u8 ^ 85u8 == 40u8, 126u8 ^ 197u8 == 187u8, 128u8 ^ 119u8 == 247u8, 130u8 ^ 249u8 == 123u8,
        131u8 ^ 125u8 == 254u8, 133u8 ^ 22u8 == 147u8, 135u8 ^ 119u8 == 240u8, 136u8 ^ 119u8 == 255u8,
        137u8 ^ 249u8 == 112u8, 139u8 ^ 125u8 == 246u8, 139u8 ^ 197u8 == 78u8, 141u8 ^ 249u8 == 116u8,
        143u8 ^ 41u8 == 166u8, 143u8 ^ 99u8 == 236u8, 147u8 ^ 53u8 == 166u8, 147u8 ^ 83u8 == 192u8,
        148u8 ^ 83u8 == 199u8, 148u8 ^ 120u8 == 236u8, 151u8 ^ 53u8 == 162u8, 151u8 ^ 119u8 == 224u8,
        151u8 ^ 143u8 == 24u8, 155u8 ^ 83u8 == 200u8, 155u8 ^ 143u8 == 20u8, 156u8 ^ 66u8 == 222u8,
        156u8 ^ 83u8 == 207u8, 156u8 ^ 120u8 == 228u8, 158u8 ^ 83u8 == 205u8, 162u8 ^ 66u8 == 224u8,
        163u8 ^ 119u8 == 212u8, 163u8 ^ 197u8 == 102u8, 166u8 ^ 53u8 == 147u8, 166u8 ^ 83u8 == 245u8,
        166u8 ^ 99u8 == 197u8, 166u8 ^ 143u8 == 41u8, 167u8 ^ 22u8 == 177u8, 168u8 ^ 41u8 == 129u8,
        170u8 ^ 41u8 == 131u8, 171u8 ^ 197u8 == 110u8, 172u8 ^ 125u8 == 209u8, 173u8 ^ 143u8 == 34u8,
        175u8 ^ 99u8 == 204u8, 175u8 ^ 134u8 == 41u8, 177u8 ^ 22u8 == 167u8, 179u8 ^ 85u8 == 230u8,
        179u8 ^ 197u8 == 118u8, 180u8 ^ 249u8 == 77u8, 181u8 ^ 125u8 == 200u8, 182u8 ^ 134u8 == 48u8,
        183u8 ^ 83u8 == 228u8, 183u8 ^ 134u8 == 49u8, 185u8 ^ 99u8 == 218u8, 186u8 ^ 66u8 == 248u8,
        186u8 ^ 120u8 == 194u8, 187u8 ^ 83u8 == 232u8, 188u8 ^ 119u8 == 203u8, 188u8 ^ 197u8 == 121u8,
        192u8 ^ 41u8 == 233u8, 192u8 ^ 83u8 == 147u8, 193u8 ^ 22u8 == 215u8, 195u8 ^ 143u8 == 76u8,
        195u8 ^ 197u8 == 6u8, 196u8 ^ 197u8 == 1u8, 197u8 ^ 120u8 == 189u8, 198u8 ^ 53u8 == 243u8,
        198u8 ^ 83u8 == 149u8, 198u8 ^ 249u8 == 63u8, 199u8 ^ 22u8 == 209u8, 199u8 ^ 85u8 == 146u8,
        201u8 ^ 41u8 == 224u8, 202u8 ^ 99u8 == 169u8, 203u8 ^ 41u8 == 226u8, 203u8 ^ 120u8 == 179u8,
        204u8 ^ 83u8 == 159u8, 205u8 ^ 22u8 == 219u8, 205u8 ^ 119u8 == 186u8, 206u8 ^ 119u8 == 185u8,
        208u8 ^ 134u8 == 86u8, 209u8 ^ 66u8 == 147u8, 211u8 ^ 53u8 == 230u8, 212u8 ^ 120u8 == 172u8,
        215u8 ^ 134u8 == 81u8, 215u8 ^ 249u8 == 46u8, 216u8 ^ 85u8 == 141u8, 218u8 ^ 53u8 == 239u8,
        219u8 ^ 99u8 == 184u8, 219u8 ^ 197u8 == 30u8, 221u8 ^ 249u8 == 36u8, 222u8 ^ 134u8 == 88u8,
        223u8 ^ 66u8 == 157u8, 227u8 ^ 22u8 == 245u8, 227u8 ^ 119u8 == 148u8, 228u8 ^ 22u8 == 242u8,
        229u8 ^ 22u8 == 243u8, 230u8 ^ 99u8 == 133u8, 230u8 ^ 119u8 == 145u8, 231u8 ^ 120u8 == 159u8,
        231u8 ^ 197u8 == 34u8, 232u8 ^ 119u8 == 159u8, 232u8 ^ 249u8 == 17u8, 233u8 ^ 143u8 == 102u8,
        234u8 ^ 66u8 == 168u8, 234u8 ^ 249u8 == 19u8, 236u8 ^ 83u8 == 191u8, 236u8 ^ 249u8 == 21u8,
        237u8 ^ 119u8 == 154u8, 240u8 ^ 53u8 == 197u8, 241u8 ^ 85u8 == 164u8, 244u8 ^ 99u8 == 151u8,
        245u8 ^ 22u8 == 227u8, 245u8 ^ 134u8 == 115u8, 247u8 ^ 197u8 == 50u8, 248u8 ^ 83u8 == 171u8,
        248u8 ^ 134u8 == 126u8, 252u8 ^ 41u8 == 213u8, 254u8 ^ 120u8 == 134u8, 254u8 ^ 143u8 == 113u8,
        254u8 ^ 197u8 == 59u8, 255u8 ^ 41u8 == 214u8,
{
}

proof fn lemma_generator_17_root_0()
    ensures
        eval_prefix(generator_coeffs_17(), GF_LOGS[0], 18) == 0,
{
    lemma_sums_17();
    let p = generator_coeffs_17();
    let x = GF_LOGS[0];
    assert(eval_prefix(p, x, 0) == 0u8);
    assert(eval_prefix(p, x, 1) == 1u8);
    assert(eval_prefix(p, x, 2) == 118u8);
    assert(eval_prefix(p, x, 3) == 52u8);
    assert(eval_prefix(p, x, 4) == 103u8);
    assert(eval_prefix(p, x, 5) == 31u8);
    assert(eval_prefix(p, x, 6) == 104u8);
    assert(eval_prefix(p, x, 7) == 126u8);
    assert(eval_prefix(p, x, 8) == 187u8);
    assert(eval_prefix(p, x, 9) == 232u8);
    assert(eval_prefix(p, x, 10) == 17u8);
    assert(eval_prefix(p, x, 11) == 56u8);
    assert(eval_prefix(p, x, 12) == 183u8);
    assert(eval_prefix(p, x, 13) == 49u8);
    assert(eval_prefix(p, x, 14) == 100u8);
    assert(eval_prefix(p, x, 15) == 81u8);
    assert(eval_prefix(p, x, 16) == 44u8);
    assert(eval_prefix(p, x, 17) == 79u8);
    assert(eval_prefix(p, x, 18) == 0u8);
}

proof fn lemma_generator_17_root_1()
    ensures
        eval_prefix(generator_coeffs_17(), GF_LOGS[1], 18) == 0,
{
    lemma_sums_17();
    let p = generator_coeffs_17();
    let x = GF_LOGS[1];
    assert(eval_prefix(p, x, 0) == 0u8);
    assert(eval_prefix(p, x, 1) == 1u8);
    assert(eval_prefix(p, x, 2) == 117u8);
    assert(eval_prefix(p, x, 3) == 168u8);
    assert(eval_prefix(p, x, 4) == 30u8);
    assert(eval_prefix(p, x, 5) == 68u8);
    assert(eval_prefix(p, x, 6) == 255u8);
    assert(eval_prefix(p, x, 7) == 245u8);
    assert(eval_prefix(p, x, 8) == 50u8);
    assert(eval_prefix(p, x, 9) == 55u8);
    assert(eval_prefix(p, x, 10) == 151u8);
    assert(eval_prefix(p, x, 11) == 26u8);
    assert(eval_prefix(p, x, 12) == 187u8);
    assert(eval_prefix(p, x, 13) == 237u8);
    assert(eval_prefix(p, x, 14) == 146u8);
    assert(eval_prefix(p, x, 15) == 12u8);
    assert(eval_prefix(p, x, 16) == 101u8);
    assert(eval_prefix(p, x, 17) == 169u8);
    assert(eval_prefix(p, x, 18) == 0u8);
}

proof fn lemma_generator_17_root_2()
    ensures
        eval_prefix(generator_coeffs_17(), GF_LOGS[2], 18) == 0,
{
    lemma_sums_17();
    let p = generator_coeffs_17();
    let x = GF_LOGS[2];
    assert(eval_prefix(p, x, 0) == 0u8);
    assert(eval_prefix(p, x, 1) == 1u8);
    assert(eval_prefix(p, x, 2) == 115u8);
    assert(eval_prefix(p, x, 3) == 147u8);
    assert(eval_prefix(p, x, 4) == 37u8);
    assert(eval_prefix(p, x, 5) == 236u8);
    assert(eval_prefix(p, x, 6) == 224u8);
    assert(eval_prefix(p, x, 7) == 177u8);
    assert(eval_prefix(p, x, 8) == 59u8);
    assert(eval_prefix(p, x, 9) == 191u8);
    assert(eval_prefix(p, x, 10) == 63u8);
    assert(eval_prefix(p, x, 11) == 213u8);
    assert(eval_prefix(p, x, 12) == 252u8);
    assert(eval_prefix(p, x, 13) == 81u8);
    assert(eval_prefix(p, x, 14) == 12u8);
    assert(eval_prefix(p, x, 15) == 5u8);
    assert(eval_prefix(p, x, 16) == 105u8);
    assert(eval_prefix(p, x, 17) == 218u8);
    assert(eval_prefix(p, x, 18) == 0u8);
}

proof fn lemma_generator_17_root_3()
    ensures
        eval_prefix(generator_coeffs_17(), GF_LOGS[3], 18) == 0,
{
    lemma_sums_17();
    let p = generator_coeffs_17();
    let x = GF_LOGS[3];
    assert(eval_prefix(p, x, 0) == 0u8);
    assert(eval_prefix(p, x, 1) == 1u8);
    assert(eval_prefix(p, x, 2) == 127u8);
    assert(eval_prefix(p, x, 3) == 157u8);
    assert(eval_prefix(p, x, 4) == 207u8);
    assert(eval_prefix(p, x, 5) == 78u8);
    assert(eval_prefix(p, x, 6) == 61u8);
    assert(eval_prefix(p, x, 7) == 227u8);
    assert(eval_prefix(p, x, 8) == 142u8);
    assert(eval_prefix(p, x, 9) == 87u8);
    assert(eval_prefix(p, x, 10) == 123u8);
    assert(eval_prefix(p, x, 11) == 214u8);
    assert(eval_prefix(p, x, 12) == 113u8);
    assert(eval_prefix(p, x, 13) == 41u8);
    assert(eval_prefix(p, x, 14) == 0u8);
    assert(eval_prefix(p, x, 15) == 53u8);
    assert(eval_prefix(p, x, 16) == 200u8);
    assert(eval_prefix(p, x, 17) == 109u8);
    assert(eval_prefix(p, x, 18) == 0u8);
}

proof fn lemma_generator_17_root_4()
    ensures
        eval_prefix(generator_coeffs_17(), GF_LOGS[4], 18) == 0,
{
    lemma_sums_17();
    let p = generator_coeffs_17();
    let x = GF_LOGS[4];
    assert(eval_prefix(p, x, 0) == 0u8);
    assert(eval_prefix(p, x, 1) == 1u8);
    assert(eval_prefix(p, x, 2) == 103u8);
    assert(eval_prefix(p, x, 3) == 124u8);
    assert(eval_prefix(p, x, 4) == 192u8);
    assert(eval_prefix(p, x, 5) == 228u8);
    assert(eval_prefix(p, x, 6) == 145u8);
    assert(eval_prefix(p, x, 7) == 243u8);
    assert(eval_prefix(p, x, 8) == 78u8);
    assert(eval_prefix(p, x, 9) == 199u8);
    assert(eval_prefix(p, x, 10) == 21u8);
    assert(eval_prefix(p, x, 11) == 100u8);
    assert(eval_prefix(p, x, 12) == 129u8);
    assert(eval_prefix(p, x, 13) == 126u8);
    assert(eval_prefix(p, x, 14) == 230u8);
    assert(eval_prefix(p, x, 15) == 243u8);
    assert(eval_prefix(p, x, 16) == 246u8);
    assert(eval_prefix(p, x, 17) == 184u8);
    assert(eval_prefix(p, x, 18) == 0u8);
}

proof fn lemma_generator_17_root_5()
    ensures
        eval_prefix(generator_coeffs_17(), GF_LOGS[5], 18) == 0,
{
    lemma_sums_17();
    let p = generator_coeffs_17();
    let x = GF_LOGS[5];
    assert(eval_prefix(p, x, 0) == 0u8);
    assert(eval_prefix(p, x, 1) == 1u8);
    assert(eval_prefix(p, x, 2) == 87u8);
    assert(eval_prefix(p, x, 3) == 112u8);
    assert(eval_prefix(p, x, 4) == 245u8);
    assert(eval_prefix(p, x, 5) == 179u8);
    assert(eval_prefix(p, x, 6) == 148u8);
    assert(eval_prefix(p, x, 7) == 97u8);
    assert(eval_prefix(p, x, 8) == 121u8);
    assert(eval_prefix(p, x, 9) == 200u8);
    assert(eval_prefix(p, x, 10) == 193u8);
    assert(eval_prefix(p, x, 11) == 44u8);
    assert(eval_prefix(p, x, 12) == 102u8);
    assert(eval_prefix(p, x, 13) == 218u8);
    assert(eval_prefix(p, x, 14) == 23u8);
    assert(eval_prefix(p, x, 15) == 239u8);
    assert(eval_prefix(p, x, 16) == 209u8);
    assert(eval_prefix(p, x, 17) == 92u8);
    assert(eval_prefix(p, x, 18) == 0u8);
}

proof fn lemma_generator_17_root_6()
    ensures
        eval_prefix(generator_coeffs_17(), GF_LOGS[6], 18) == 0,
{
    lemma_sums_17();
    let p = generator_coeffs_17();
    let x = GF_LOGS[6];
    assert(eval_prefix(p, x, 0) == 0u8);
    assert(eval_prefix(p, x, 1) == 1u8);
    assert(eval_prefix(p, x, 2) == 55u8);
    assert(eval_prefix(p, x, 3) == 3u8);
    assert(eval_prefix(p, x, 4) == 147u8);
    assert(eval_prefix(p, x, 5) == 75u8);
    assert(eval_prefix(p, x, 6) == 64u8);
    assert(eval_prefix(p, x, 7) == 219u8);
    assert(eval_prefix(p, x, 8) == 1u8);
    assert(eval_prefix(p, x, 9) == 19u8);
    assert(eval_prefix(p, x, 10) == 77u8);
    assert(eval_prefix(p, x, 11) == 131u8);
    assert(eval_prefix(p, x, 12) == 200u8);
    assert(eval_prefix(p, x, 13) == 246u8);
    assert(eval_prefix(p, x, 14) == 30u8);
    assert(eval_prefix(p, x, 15) == 230u8);
    assert(eval_prefix(p, x, 16) == 66u8);
    assert(eval_prefix(p, x, 17) == 46u8);
    assert(eval_prefix(p, x, 18) == 0u8);
}

proof fn lemma_generator_17_root_7()
    ensures
        eval_prefix(generator_coeffs_17(), GF_LOGS[7], 18) == 0,
{
    lemma_sums_17();
    let p = generator_coeffs_17();
    let x = GF_LOGS[7];
    assert(eval_prefix(p, x, 0) == 0u8);
    assert(eval_prefix(p, x, 1) == 1u8);
    assert(eval_prefix(p, x, 2) == 247u8);
    assert(eval_prefix(p, x, 3) == 84u8);
    assert(eval_prefix(p, x, 4) == 6u8);
    assert(eval_prefix(p, x, 5) == 95u8);
    assert(eval_prefix(p, x, 6) == 203u8);
    assert(eval_prefix(p, x, 7) == 107u8);
    assert(eval_prefix(p, x, 8) == 102u8);
    assert(eval_prefix(p, x, 9) == 62u8);
    assert(eval_prefix(p, x, 10) == 143u8);
    assert(eval_prefix(p, x, 11) == 233u8);
    assert(eval_prefix(p, x, 12) == 34u8);
    assert(eval_prefix(p, x, 13) == 86u8);
    assert(eval_prefix(p, x, 14) == 29u8);
    assert(eval_prefix(p, x, 15) == 19u8);
    assert(eval_prefix(p, x, 16) == 8u8);
    assert(eval_prefix(p, x, 17) == 23u8);
    assert(eval_prefix(p, x, 18) == 0u8);
}

proof fn lemma_generator_17_root_8()
    ensures
        eval_prefix(generator_coeffs_17(), GF_LOGS[8], 18) == 0,
{
    lemma_sums_17();
    let p = generator_coeffs_17();
    let x = GF_LOGS[8];
    assert(eval_prefix(p, x, 0) == 0u8);
    assert(eval_prefix(p, x, 1) == 1u8);
    assert(eval_prefix(p, x, 2) == 106u8);
    assert(eval_prefix(p, x, 3) == 4u8);
    assert(eval_prefix(p, x, 4) == 39u8);
    assert(eval_prefix(p, x, 5) == 172u8);
    assert(eval_prefix(p, x, 6) == 74u8);
    assert(eval_prefix(p, x, 7) == 215u8);
    assert(eval_prefix(p, x, 8) == 110u8);
    assert(eval_prefix(p, x, 9) == 97u8);
    assert(eval_prefix(p, x, 10) == 112u8);
    assert(eval_prefix(p, x, 11) == 112u8);
    assert(eval_prefix(p, x, 12) == 214u8);
    assert(eval_prefix(p, x, 13) == 48u8);
    assert(eval_prefix(p, x, 14) == 31u8);
    assert(eval_prefix(p, x, 15) == 67u8);
    assert(eval_prefix(p, x, 16) == 73u8);
    assert(eval_prefix(p, x, 17) == 133u8);
    assert(eval_prefix(p, x, 18) == 0u8);
}

proof fn lemma_generator_17_root_9()
    ensures
        eval_prefix(generator_coeffs_17(), GF_LOGS[9], 18) == 0,
{
    lemma_sums_17();
    let p = generator_coeffs_17();
    let x = GF_LOGS[9];
    assert(eval_prefix(p, x, 0) == 0u8);
    assert(eval_prefix(p, x, 1) == 1u8);
    assert(eval_prefix(p, x, 2) == 77u8);
    assert(eval_prefix(p, x, 3) == 123u8);
    assert(eval_prefix(p, x, 4) == 98u8);
    assert(eval_prefix(p, x, 5) == 57u8);
    assert(eval_prefix(p, x, 6) == 20u8);
    assert(eval_prefix(p, x, 7) == 121u8);
    assert(eval_prefix(p, x, 8) == 128u8);
    assert(eval_prefix(p, x, 9) == 31u8);
    assert(eval_prefix(p, x, 10) == 21u8);
    assert(eval_prefix(p, x, 11) == 124u8);
    assert(eval_prefix(p, x, 12) == 24u8);
    assert(eval_prefix(p, x, 13) == 204u8);
    assert(eval_prefix(p, x, 14) == 26u8);
    assert(eval_prefix(p, x, 15) == 11u8);
    assert(eval_prefix(p, x, 16) == 254u8);
    assert(eval_prefix(p, x, 17) == 204u8);
    assert(eval_prefix(p, x, 18) == 0u8);
}

proof fn lemma_generator_17_root_10()
    ensures
        eval_prefix(generator_coeffs_17(), GF_LOGS[10], 18) == 0,
{
    lemma_sums_17();
    let p = generator_coeffs_17();
    let x = GF_LOGS[10];
    assert(eval_prefix(p, x, 0) == 0u8);
    assert(eval_prefix(p, x, 1) == 1u8);
    assert(eval_prefix(p, x, 2) == 3u8);
    assert(eval_prefix(p, x, 3) == 222u8);
    assert(eval_prefix(p, x, 4) == 54u8);
    assert(eval_prefix(p, x, 5) == 104u8);
    assert(eval_prefix(p, x, 6) == 154u8);
    assert(eval_prefix(p, x, 7) == 242u8);
    assert(eval_prefix(p, x, 8) == 204u8);
    assert(eval_prefix(p, x, 9) == 205u8);
    assert(eval_prefix(p, x, 10) == 19u8);
    assert(eval_prefix(p, x, 11) == 166u8);
    assert(eval_prefix(p, x, 12) == 20u8);
    assert(eval_prefix(p, x, 13) == 88u8);
    assert(eval_prefix(p, x, 14) == 141u8);
    assert(eval_prefix(p, x, 15) == 147u8);
    assert(eval_prefix(p, x, 16) == 106u8);
    assert(eval_prefix(p, x, 17) == 102u8);
    assert(eval_prefix(p, x, 18) == 0u8);
}

proof fn lemma_generator_17_root_11()
    ensures
        eval_prefix(generator_coeffs_17(), GF_LOGS[11], 18) == 0,
{
    lemma_sums_17();
    let p = generator_coeffs_17();
    let x = GF_LOGS[11];
    assert(eval_prefix(p, x, 0) == 0u8);
    assert(eval_prefix(p, x, 1) == 1u8);
    assert(eval_prefix(p, x, 2) == 159u8);
    assert(eval_prefix(p, x, 3) == 248u8);
    assert(eval_prefix(p, x, 4) == 159u8);
    assert(eval_prefix(p, x, 5) == 194u8);
    assert(eval_prefix(p, x, 6) == 15u8);
    assert(eval_prefix(p, x, 7) == 167u8);
    assert(eval_prefix(p, x, 8) == 6u8);
    assert(eval_prefix(p, x, 9) == 25u8);
    assert(eval_prefix(p, x, 10) == 36u8);
    assert(eval_prefix(p, x, 11) == 226u8);
    assert(eval_prefix(p, x, 12) == 187u8);
    assert(eval_prefix(p, x, 13) == 247u8);
    assert(eval_prefix(p, x, 14) == 40u8);
    assert(eval_prefix(p, x, 15) == 106u8);
    assert(eval_prefix(p, x, 16) == 119u8);
    assert(eval_prefix(p, x, 17) == 51u8);
    assert(eval_prefix(p, x, 18) == 0u8);
}

proof fn lemma_generator_17_root_12()
    ensures
        eval_prefix(generator_coeffs_17(), GF_LOGS[12], 18) == 0,
{
    lemma_sums_17();
    let p = generator_coeffs_17();
    let x = GF_LOGS[12];
    assert(eval_prefix(p, x, 0) == 0u8);
    assert(eval_prefix(p, x, 1) == 1u8);
    assert(eval_prefix(p, x, 2) == 186u8);
    assert(eval_prefix(p, x, 3) == 109u8);
    assert(eval_prefix(p, x, 4) == 30u8);
    assert(eval_prefix(p, x, 5) == 134u8);
    assert(eval_prefix(p, x, 6) == 185u8);
    assert(eval_prefix(p, x, 7) == 115u8);
    assert(eval_prefix(p, x, 8) == 118u8);
    assert(eval_prefix(p, x, 9) == 62u8);
    assert(eval_prefix(p, x, 10) == 159u8);
    assert(eval_prefix(p, x, 11) == 64u8);
    assert(eval_prefix(p, x, 12) == 162u8);
    assert(eval_prefix(p, x, 13) == 195u8);
    assert(eval_prefix(p, x, 14) == 104u8);
    assert(eval_prefix(p, x, 15) == 166u8);
    assert(eval_prefix(p, x, 16) == 43u8);
    assert(eval_prefix(p, x, 17) == 151u8);
    assert(eval_prefix(p, x, 18) == 0u8);
}

proof fn lemma_generator_17_root_13()
    ensures
        eval_prefix(generator_coeffs_17(), GF_LOGS[13], 18) == 0,
{
    lemma_sums_17();
    let p = generator_coeffs_17();
    let x = GF_LOGS[13];
    assert(eval_prefix(p, x, 0) == 0u8);
    assert(eval_prefix(p, x, 1) == 1u8);
    assert(eval_prefix(p, x, 2) == 240u8);
    assert(eval_prefix(p, x, 3) == 25u8);
    assert(eval_prefix(p, x, 4) == 0u8);
    assert(eval_prefix(p, x, 5) == 120u8);
    assert(eval_prefix(p, x, 6) == 212u8);
    assert(eval_prefix(p, x, 7) == 70u8);
    assert(eval_prefix(p, x, 8) == 170u8);
    assert(eval_prefix(p, x, 9) == 149u8);
    assert(eval_prefix(p, x, 10) == 116u8);
    assert(eval_prefix(p, x, 11) == 224u8);
    assert(eval_prefix(p, x, 12) == 76u8);
    assert(eval_prefix(p, x, 13) == 182u8);
    assert(eval_prefix(p, x, 14) == 97u8);
    assert(eval_prefix(p, x, 15) == 197u8);
    assert(eval_prefix(p, x, 16) == 50u8);
    assert(eval_prefix(p, x, 17) == 197u8);
    assert(eval_prefix(p, x, 18) == 0u8);
}

proof fn lemma_generator_17_root_14()
    ensures
        eval_prefix(generator_coeffs_17(), GF_LOGS[14], 18) == 0,
{
    lemma_sums_17();
    let p = generator_coeffs_17();
    let x = GF_LOGS[14];
    assert(eval_prefix(p, x, 0) == 0u8);
    assert(eval_prefix(p, x, 1) == 1u8);
    assert(eval_prefix(p, x, 2) == 100u8);
    assert(eval_prefix(p, x, 3) == 224u8);
    assert(eval_prefix(p, x, 4) == 200u8);
    assert(eval_prefix(p, x, 5) == 33u8);
    assert(eval_prefix(p, x, 6) == 62u8);
    assert(eval_prefix(p, x, 7) == 147u8);
    assert(eval_prefix(p, x, 8) == 168u8);
    assert(eval_prefix(p, x, 9) == 228u8);
    assert(eval_prefix(p, x, 10) == 46u8);
    assert(eval_prefix(p, x, 11) == 129u8);
    assert(eval_prefix(p, x, 12) == 233u8);
    assert(eval_prefix(p, x, 13) == 150u8);
    assert(eval_prefix(p, x, 14) == 103u8);
    assert(eval_prefix(p, x, 15) == 162u8);
    assert(eval_prefix(p, x, 16) == 116u8);
    assert(eval_prefix(p, x, 17) == 236u8);
    assert(eval_prefix(p, x, 18) == 0u8);
}

proof fn lemma_generator_17_root_15()
    ensures
        eval_prefix(generator_coeffs_17(), GF_LOGS[15], 18) == 0,
{
    lemma_sums_17();
    let p = generator_coeffs_17();
    let x = GF_LOGS[15];
    assert(eval_prefix(p, x, 0) == 0u8);
    assert(eval_prefix(p, x, 1) == 1u8);
    assert(eval_prefix(p, x, 2) == 81u8);
    assert(eval_prefix(p, x, 3) == 75u8);
    assert(eval_prefix(p, x, 4) == 97u8);
    assert(eval_prefix(p, x, 5) == 159u8);
    assert(eval_prefix(p, x, 6) == 24u8);
    assert(eval_prefix(p, x, 7) == 97u8);
    assert(eval_prefix(p, x, 8) == 34u8);
    assert(eval_prefix(p, x, 9) == 171u8);
    assert(eval_prefix(p, x, 10) == 224u8);
    assert(eval_prefix(p, x, 11) == 2u8);
    assert(eval_prefix(p, x, 12) == 195u8);
    assert(eval_prefix(p, x, 13) == 115u8);
    assert(eval_prefix(p, x, 14) == 164u8);
    assert(eval_prefix(p, x, 15) == 243u8);
    assert(eval_prefix(p, x, 16) == 102u8);
    assert(eval_prefix(p, x, 17) == 118u8);
    assert(eval_prefix(p, x, 18) == 0u8);
}

proof fn lemma_generator_17_root_16()
    ensures
        eval_prefix(generator_coeffs_17(), GF_LOGS[16], 18) == 0,
{
    lemma_sums_17();
    let p = generator_coeffs_17();
    let x = GF_LOGS[16];
    assert(eval_prefix(p, x, 0) == 0u8);
    assert(eval_prefix(p, x, 1) == 1u8);
    assert(eval_prefix(p, x, 2) == 59u8);
    assert(eval_prefix(p, x, 3) == 13u8);
    assert(eval_prefix(p, x, 4) == 104u8);
    assert(eval_prefix(p, x, 5) == 189u8);
    assert(eval_prefix(p, x, 6) == 68u8);
    assert(eval_prefix(p, x, 7) == 209u8);
    assert(eval_prefix(p, x, 8) == 30u8);
    assert(eval_prefix(p, x, 9) == 8u8);
    assert(eval_prefix(p, x, 10) == 163u8);
    assert(eval_prefix(p, x, 11) == 65u8);
    assert(eval_prefix(p, x, 12) == 41u8);
    assert(eval_prefix(p, x, 13) == 229u8);
    assert(eval_prefix(p, x, 14) == 98u8);
    assert(eval_prefix(p, x, 15) == 50u8);
    assert(eval_prefix(p, x, 16) == 36u8);
    assert(eval_prefix(p, x, 17) == 59u8);
    assert(eval_prefix(p, x, 18) == 0u8);
}

/// The generator polynomial of degree 17 vanishes at the first 17 powers of `x`.
proof fn lemma_generator_17_roots()
    ensures
        forall|i: int|
            0 <= i < 17 ==> eval_prefix(generator_poly(17), #[trigger] GF_LOGS[i], 18) == 0,
{
    assert(generator_poly(17) =~= generator_coeffs_17());
    lemma_generator_17_root_0();
    lemma_generator_17_root_1();
    lemma_generator_17_root_2();
    lemma_generator_17_root_3();
    lemma_generator_17_root_4();
    lemma_generator_17_root_5();
    lemma_generator_17_root_6();
    lemma_generator_17_root_7();
    lemma_generator_17_root_8();
    lemma_generator_17_root_9();
    lemma_generator_17_root_10();
    lemma_generator_17_root_11();
    lemma_generator_17_root_12();
    lemma_generator_17_root_13();
    lemma_generator_17_root_14();
    lemma_generator_17_root_15();
    lemma_generator_17_root_16();
}

/// The coefficients of the generator polynomial of degree 18.
spec fn generator_coeffs_18() -> Seq<u8> {
    seq![
        1u8, 239u8, 251u8, 183u8, 113u8, 149u8, 175u8, 199u8, 215u8, 240u8, 220u8, 73u8,
        82u8, 173u8, 75u8, 32u8, 67u8, 217u8, 146u8,
    ]
}

/// The sums that evaluating the generator polynomial of degree 18 at its roots takes.
proof fn lemma_sums_18()
    by (bit_vector)
    ensures
        0u8 ^ 1u8 == 1u8, 1u8 ^ 239u8 == 238u8, 2u8 ^ 199u8 == 197u8, 2u8 ^ 239u8 == 237u8,
        4u8 ^ 239u8 == 235u8, 5u8 ^ 32u8 == 37u8, 5u8 ^ 199u8 == 194u8, 6u8 ^ 32u8 == 38u8,
        8u8 ^ 67u8 == 75u8, 8u8 ^ 239u8 == 231u8, 9u8 ^ 113u8 == 120u8, 9u8 ^ 220u8 == 213u8,
        9u8 ^ 240u8 == 249u8, 11u8 ^ 67u8 == 72u8, 15u8 ^ 175u8 == 160u8, 15u8 ^ 220u8 == 211u8,
        16u8 ^ 173u8 == 189u8, 16u8 ^ 239u8 == 255u8, 18u8 ^ 113u8 == 99u8, 19u8 ^ 239u8 == 252u8,
        20u8 ^ 183u8 == 163u8, 21u8 ^ 32u8 == 53u8, 21u8 ^ 183u8 == 162u8, 23u8 ^ 220u8 == 203u8,
        23u8 ^ 240u8 == 231u8, 25u8 ^ 32u8 == 57u8, 26u8 ^ 215u8 == 205u8, 27u8 ^ 75u8 == 80u8,
        28u8 ^ 32u8 == 60u8, 29u8 ^ 149u8 == 136u8, 29u8 ^ 173u8 == 176u8, 29u8 ^ 239u8 == 242u8,
        30u8 ^ 73u8 == 87u8, 30u8 ^ 183u8 == 169u8, 31u8 ^ 173u8 == 178u8, 31u8 ^ 251u8 == 228u8,
        32u8 ^ 67u8 == 99u8, 32u8 ^ 199u8 == 231u8, 32u8 ^ 239u8 == 207u8, 33u8 ^ 75u8 == 106u8,
        34u8 ^ 73u8 == 107u8, 34u8 ^ 113u8 == 83u8, 35u8 ^ 67u8 == 96u8, 35u8 ^ 240u8 == 211u8,
        37u8 ^ 75u8 == 110u8, 37u8 ^ 82u8 == 119u8, 38u8 ^ 75u8 == 109u8, 38u8 ^ 82u8 == 116u8,
        38u8 ^ 239u8 == 201u8, 40u8 ^ 32u8 == 8u8, 40u8 ^ 173u8 == 133u8, 40u8 ^ 175u8 == 135u8,
        40u8 ^ 240u8 == 216u8, 42u8 ^ 32u8 == 10u8, 43u8 ^ 73u8 == 98u8, 44u8 ^ 149u8 == 185u8,
        45u8 ^ 173u8 == 128u8, 46u8 ^ 215u8 == 249u8, 46u8 ^ 220u8 == 242u8, 48u8 ^ 220u8 == 236u8,
        49u8 ^ 73u8 == 120u8, 50u8 ^ 149u8 == 167u8, 51u8 ^ 240u8 == 195u8, 52u8 ^ 67u8 == 119u8,
        52u8 ^ 82u8 == 102u8, 53u8 ^ 75u8 == 126u8, 54u8 ^ 173u8 == 155u8, 55u8 ^ 149u8 == 162u8,
        58u8 ^ 239u8 == 213u8, 59u8 ^ 82u8 == 105u8, 59u8 ^ 240u8 == 203u8, 59u8 ^ 251u8 == 192u8,
        61u8 ^ 199u8 == 250u8, 61u8 ^ 220u8 == 225u8, 62u8 ^ 75u8 == 117u8, 62u8 ^ 175u8 == 145u8,
        63u8 ^ 67u8 == 124u8, 63u8 ^ 251u8 == 196u8, 64u8 ^ 239u8 == 175u8, 65u8 ^ 113u8 == 48u8,
        67u8 ^ 217u8 == 154u8, 68u8 ^ 73u8 == 13u8, 68u8 ^ 82u8 == 22u8, 69u8 ^ 183u8 == 242u8,
        69u8 ^ 251u8 == 190u8, 70u8 ^ 113u8 == 55u8, 70u8 ^ 175u8 == 233u8, 71u8 ^ 173u8 == 234u8,
        71u8 ^ 215u8 == 144u8, 71u8 ^ 217u8 == 158u8, 75u8 ^ 199u8 == 140u8, 75u8 ^ 217u8 == 146u8,
        75u8 ^ 251u8 == 176u8, 76u8 ^ 239u8 == 163u8, 76u8 ^ 240u8 == 188u8, 77u8 ^ 220u8 == 145u8,
        79u8 ^ 73u8 == 6u8, 80u8 ^ 199u8 == 151u8, 82u8 ^ 199u8 == 149u8, 82u8 ^ 215u8 == 133u8,
        83u8 ^ 175u8 == 252u8, 84u8 ^ 149u8 == 193u8, 85u8 ^ 67u8 == 22u8, 85u8 ^ 113u8 == 36u8,
        86u8 ^ 82u8 == 4u8, 86u8 ^ 215u8 == 129u8, 87u8 ^ 183u8 == 224u8, 89u8 ^ 113u8 == 40u8,
        91u8 ^ 75u8 == 16u8, 91u8 ^ 113u8 == 42u8, 92u8 ^ 215u8 == 139u8, 93u8 ^ 32u8 == 125u8,
        93u8 ^ 217u8 == 132u8, 93u8 ^ 220u8 == 129u8, 94u8 ^ 199u8 == 153u8, 95u8 ^ 82u8 == 13u8,
        96u8 ^ 175u8 == 207u8, 97u8 ^ 67u8 == 34u8, 98u8 ^ 251u8 == 153u8, 99u8 ^ 75u8 == 40u8,
        101u8 ^ 215u8 == 178u8, 104u8 ^ 251u8 == 147u8, 105u8 ^ 215u8 == 190u8, 107u8 ^ 173u8 == 198u8,
        107u8 ^ 251u8 == 144u8, 110u8 ^ 175u8 == 193u8, 113u8 ^ 82u8 == 35u8, 113u8 ^ 183u8 == 198u8,
        113u8 ^ 217u8 == 168u8, 114u8 ^ 199u8 == 181u8, 114u8 ^ 220u8 == 174u8, 115u8 ^ 73u8 == 58u8,
        115u8 ^ 217u8 == 170u8, 116u8 ^ 199u8 == 179u8, 116u8 ^ 220u8 == 168u8, 116u8 ^ 239u8 == 155u8,
        116u8 ^ 240u8 == 132u8, 117u8 ^ 113u8 == 4u8, 117u8 ^ 199u8 == 178u8, 119u8 ^ 75u8 == 60u8,
        120u8 ^ 183u8 == 207u8, 122u8 ^ 75u8 == 49u8, 123u8 ^ 173u8 == 214u8, 124u8 ^ 73u8 == 53u8,
        125u8 ^ 217u8 == 164u8, 125u8 ^ 240u8 == 141u8, 126u8 ^ 75u8 == 53u8, 127u8 ^ 75u8 == 52u8,
        128u8 ^ 175u8 == 47u8, 128u8 ^ 239u8 == 111u8, 130u8 ^ 183u8 == 53u8, 131u8 ^ 113u8 == 242u8,
        131u8 ^ 175u8 == 44u8, 131u8 ^ 199u8 == 68u8, 132u8 ^ 215u8 == 83u8, 132u8 ^ 240u8 == 116u8,
        133u8 ^ 173u8 == 40u8, 135u8 ^ 75u8 == 204u8, 135u8 ^ 239u8 == 104u8, 136u8 ^ 251u8 == 115u8,
        137u8 ^ 67u8 == 202u8, 139u8 ^ 32u8 == 171u8, 139u8 ^ 217u8 == 82u8, 139u8 ^ 251u8 == 112u8,
        140u8 ^ 217u8 == 85u8, 141u8 ^ 217u8 == 84u8, 141u8 ^ 240u8 == 125u8, 142u8 ^ 220u8 == 82u8,
        144u8 ^ 75u8 == 219u8, 144u8 ^ 217u8 == 73u8, 144u8 ^ 251u8 == 107u8, 145u8 ^ 183u8 == 38u8,
        146u8 ^ 146u8 == 0u8, 148u8 ^ 217u8 == 77u8, 148u8 ^ 251u8 == 111u8, 149u8 ^ 67u8 == 214u8,
        150u8 ^ 32u8 == 182u8, 150u8 ^ 67u8 == 213u8, 150u8 ^ 217u8 == 79u8, 152u8 ^ 149u8 == 13u8,
        152u8 ^ 239u8 == 119u8, 153u8 ^ 251u8 == 98u8, 155u8 ^ 217u8 == 66u8, 156u8 ^ 82u8 == 206u8,
        159u8 ^ 67u8 == 220u8, 160u8 ^ 75u8 == 235u8, 161u8 ^ 173u8 == 12u8, 162u8 ^ 113u8 == 211u8,
        162u8 ^ 149u8 == 55u8, 162u8 ^ 251u8 == 89u8, 163u8 ^ 67u8 == 224u8, 163u8 ^ 149u8 == 54u8,
        164u8 ^ 149u8 == 49u8, 165u8 ^ 175u8 == 10u8, 167u8 ^ 73u8 == 238u8, 169u8 ^ 73u8 == 224u8,
        169u8 ^ 183u8 == 30u8, 171u8 ^ 32u8 == 139u8, 171u8 ^ 173u8 == 6u8, 172u8 ^ 75u8 == 231u8,
        174u8 ^ 82u8 == 252u8, 177u8 ^ 73u8 == 248u8, 178u8 ^ 175u8 == 29u8, 178u8 ^ 215u8 == 101u8,
        179u8 ^ 173u8 == 30u8, 180u8 ^ 67u8 == 247u8, 180u8 ^ 82u8 == 230u8, 181u8 ^ 32u8 == 149u8,
        181u8 ^ 82u8 == 231u8, 181u8 ^ 113u8 == 196u8, 182u8 ^ 32u8 == 150u8, 183u8 ^ 73u8 == 254u8,
        183u8 ^ 149u8 == 34u8, 185u8 ^ 32u8 == 153u8, 185u8 ^ 149u8 == 44u8, 185u8 ^ 175u8 == 22u8,
        185u8 ^ 215u8 == 110u8, 185u8 ^ 251u8 == 66u8, 186u8 ^ 32u8 == 154u8, 186u8 ^ 220u8 == 102u8,
        187u8 ^ 73u8 == 242u8, 187u8 ^ 215u8 == 108u8, 188u8 ^ 240u8 == 76u8, 189u8 ^ 175u8 == 18u8,
        189u8 ^ 215u8 == 106u8, 190u8 ^ 215u8 == 105u8, 195u8 ^ 82u8 == 145u8, 195u8 ^ 240u8 == 51u8,
        198u8 ^ 73u8 == 143u8, 199u8 ^ 251u8 == 60u8, 200u8 ^ 67u8 == 139u8, 200u8 ^ 215u8 == 31u8,
        201u8 ^ 67u8 == 138u8, 201u8 ^ 73u8 == 128u8, 202u8 ^ 183u8 == 125u8, 203u8 ^ 240u8 == 59u8,
        204u8 ^ 215u8 == 27u8, 204u8 ^ 217u8 == 21u8, 205u8 ^ 220u8 == 17u8, 205u8 ^ 239u8 == 34u8,
        206u8 ^ 173u8 == 99u8, 207u8 ^ 183u8 == 120u8, 210u8 ^ 82u8 == 128u8, 211u8 ^ 113u8 == 162u8,
        211u8 ^ 149u8 == 70u8, 211u8 ^ 183u8 == 100u8, 211u8 ^ 199u8 == 20u8, 211u8 ^ 220u8 == 15u8,
        211u8 ^ 240u8 == 35u8, 212u8 ^ 82u8 == 134u8, 212u8 ^ 149u8 == 65u8, 213u8 ^ 73u8 == 156u8,
        216u8 ^ 113u8 == 169u8, 216u8 ^ 175u8 == 119u8, 216u8 ^ 240u8 == 40u8, 216u8 ^ 251u8 == 35u8,
        217u8 ^ 82u8 == 139u8, 217u8 ^ 113u8 == 168u8, 217u8 ^ 149u8 == 76u8, 220u8 ^ 67u8 == 159u8,
        220u8 ^ 82u8 == 142u8, 221u8 ^ 183u8 == 106u8, 222u8 ^ 173u8 == 115u8, 223u8 ^ 32u8 == 255u8,
        224u8 ^ 67u8 == 163u8, 224u8 ^ 175u8 == 79u8, 224u8 ^ 220u8 == 60u8, 225u8 ^ 220u8 == 61u8,
        226u8 ^ 149u8 == 119u8, 226u8 ^ 215u8 == 53u8, 228u8 ^ 183u8 == 83u8, 229u8 ^ 173u8 == 72u8,
        229u8 ^ 199u8 == 34u8, 231u8 ^ 240u8 == 23u8, 232u8 ^ 32u8 == 200u8, 232u8 ^ 239u8 == 7u8,
        233u8 ^ 73u8 == 160u8, 233u8 ^ 199u8 == 46u8, 234u8 ^ 173u8 == 71u8, 235u8 ^ 73u8 == 162u8,
        237u8 ^ 32u8 == 205u8, 237u8 ^ 175u8 == 66u8, 238u8 ^ 183u8 == 89u8, 238u8 ^ 199u8 == 41u8,
        238u8 ^ 251u8 == 21u8, 240u8 ^ 217u8 == 41u8, 241u8 ^ 113u8 == 128u8, 241u8 ^ 149u8 == 100u8,
        242u8 ^ 149u8 == 103u8, 243u8 ^ 217u8 == 42u8, 244u8 ^ 183u8 == 67u8, 244u8 ^ 199u8 == 51u8,
        245u8 ^ 220u8 == 41u8, 246u8 ^ 215u8 == 33u8, 248u8 ^ 173u8 == 85u8, 248u8 ^ 217u8 == 33u8,
        249u8 ^ 149u8 == 108u8, 249u8 ^ 175u8 == 86u8, 249u8 ^ 240u8 == 9u8, 250u8 ^ 220u8 == 38u8,
        252u8 ^ 183u8 == 75u8, 255u8 ^ 199u8 == 56u8,
{
}

proof fn lemma_generator_18_root_0()
    ensures
        eval_prefix(generator_coeffs_18(), GF_LOGS[0], 19) == 0,
{
    lemma_sums_18();
    let p = generator_coeffs_18();
    let x = GF_LOGS[0];
    assert(eval_prefix(p, x, 0) == 0u8);
    assert(eval_prefix(p, x, 1) == 1u8);
    assert(eval_prefix(p, x, 2) == 238u8);
    assert(eval_prefix(p, x, 3) == 21u8);
    assert(eval_prefix(p, x, 4) == 162u8);
    assert(eval_prefix(p, x, 5) == 211u8);
    assert(eval_prefix(p, x, 6) == 70u8);
    assert(eval_prefix(p, x, 7) == 233u8);
    assert(eval_prefix(p, x, 8) == 46u8);
    assert(eval_prefix(p, x, 9) == 249u8);
    assert(eval_prefix(p, x, 10) == 9u8);
    assert(eval_prefix(p, x, 11) == 213u8);
    assert(eval_prefix(p, x, 12) == 156u8);
    assert(eval_prefix(p, x, 13) == 206u8);
    assert(eval_prefix(p, x, 14) == 99u8);
    assert(eval_prefix(p, x, 15) == 40u8);
    assert(eval_prefix(p, x, 16) == 8u8);
    assert(eval_prefix(p, x, 17) == 75u8);
    assert(eval_prefix(p, x, 18) == 146u8);
    assert(eval_prefix(p, x, 19) == 0u8);
}

proof fn lemma_generator_18_root_1()
    ensures
        eval_prefix(generator_coeffs_18(), GF_LOGS[1], 19) == 0,
{
    lemma_sums_18();
    let p = generator_coeffs_18();
    let x = GF_LOGS[1];
    assert(eval_prefix(p, x, 0) == 0u8);
    assert(eval_prefix(p, x, 1) == 1u8);
    assert(eval_prefix(p, x, 2) == 237u8);
    assert(eval_prefix(p, x, 3) == 60u8);
    assert(eval_prefix(p, x, 4) == 207u8);
    assert(eval_prefix(p, x, 5) == 242u8);
    assert(eval_prefix(p, x, 6) == 108u8);
    assert(eval_prefix(p, x, 7) == 119u8);
    assert(eval_prefix(p, x, 8) == 41u8);
    assert(eval_prefix(p, x, 9) == 133u8);
    assert(eval_prefix(p, x, 10) == 231u8);
    assert(eval_prefix(p, x, 11) == 15u8);
    assert(eval_prefix(p, x, 12) == 87u8);
    assert(eval_prefix(p, x, 13) == 252u8);
    assert(eval_prefix(p, x, 14) == 72u8);
    assert(eval_prefix(p, x, 15) == 219u8);
    assert(eval_prefix(p, x, 16) == 139u8);
    assert(eval_prefix(p, x, 17) == 72u8);
    assert(eval_prefix(p, x, 18) == 73u8);
    assert(eval_prefix(p, x, 19) == 0u8);
}

proof fn lemma_generator_18_root_2()
    ensures
        eval_prefix(generator_coeffs_18(), GF_LOGS[2], 19) == 0,
{
    lemma_sums_18();
    let p = generator_coeffs_18();
    let x = GF_LOGS[2];
    assert(eval_prefix(p, x, 0) == 0u8);
    assert(eval_prefix(p, x, 1) == 1u8);
    assert(eval_prefix(p, x, 2) == 235u8);
    assert(eval_prefix(p, x, 3) == 112u8);
    assert(eval_prefix(p, x, 4) == 106u8);
    assert(eval_prefix(p, x, 5) == 196u8);
    assert(eval_prefix(p, x, 6) == 162u8);
    assert(eval_prefix(p, x, 7) == 29u8);
    assert(eval_prefix(p, x, 8) == 179u8);
    assert(eval_prefix(p, x, 9) == 33u8);
    assert(eval_prefix(p, x, 10) == 116u8);
    assert(eval_prefix(p, x, 11) == 17u8);
    assert(eval_prefix(p, x, 12) == 13u8);
    assert(eval_prefix(p, x, 13) == 102u8);
    assert(eval_prefix(p, x, 14) == 40u8);
    assert(eval_prefix(p, x, 15) == 235u8);
    assert(eval_prefix(p, x, 16) == 171u8);
    assert(eval_prefix(p, x, 17) == 213u8);
    assert(eval_prefix(p, x, 18) == 170u8);
    assert(eval_prefix(p, x, 19) == 0u8);
}

proof fn lemma_generator_18_root_3()
    ensures
        eval_prefix(generator_coeffs_18(), GF_LOGS[3], 19) == 0,
{
    lemma_sums_18();
    let p = generator_coeffs_18();
    let x = GF_LOGS[3];
    assert(eval_prefix(p, x, 0) == 0u8);
    assert(eval_prefix(p, x, 1) == 1u8);
    assert(eval_prefix(p, x, 2) == 231u8);
    assert(eval_prefix(p, x, 3) == 144u8);
    assert(eval_prefix(p, x, 4) == 67u8);
    assert(eval_prefix(p, x, 5) == 83u8);
    assert(eval_prefix(p, x, 6) == 55u8);
    assert(eval_prefix(p, x, 7) == 10u8);
    assert(eval_prefix(p, x, 8) == 151u8);
    assert(eval_prefix(p, x, 9) == 27u8);
    assert(eval_prefix(p, x, 10) == 40u8);
    assert(eval_prefix(p, x, 11) == 129u8);
    assert(eval_prefix(p, x, 12) == 53u8);
    assert(eval_prefix(p, x, 13) == 231u8);
    assert(eval_prefix(p, x, 14) == 198u8);
    assert(eval_prefix(p, x, 15) == 53u8);
    assert(eval_prefix(p, x, 16) == 149u8);
    assert(eval_prefix(p, x, 17) == 159u8);
    assert(eval_prefix(p, x, 18) == 85u8);
    assert(eval_prefix(p, x, 19) == 0u8);
}

proof fn lemma_generator_18_root_4()
    ensures
        eval_prefix(generator_coeffs_18(), GF_LOGS[4], 19) == 0,
{
    lemma_sums_18();
    let p = generator_coeffs_18();
    let x = GF_LOGS[4];
    assert(eval_prefix(p, x, 0) == 0u8);
    assert(eval_prefix(p, x, 1) == 1u8);
    assert(eval_prefix(p, x, 2) == 255u8);
    assert(eval_prefix(p, x, 3) == 176u8);
    assert(eval_prefix(p, x, 4) == 120u8);
    assert(eval_prefix(p, x, 5) == 162u8);
    assert(eval_prefix(p, x, 6) == 103u8);
    assert(eval_prefix(p, x, 7) == 145u8);
    assert(eval_prefix(p, x, 8) == 34u8);
    assert(eval_prefix(p, x, 9) == 205u8);
    assert(eval_prefix(p, x, 10) == 188u8);
    assert(eval_prefix(p, x, 11) == 211u8);
    assert(eval_prefix(p, x, 12) == 248u8);
    assert(eval_prefix(p, x, 13) == 105u8);
    assert(eval_prefix(p, x, 14) == 115u8);
    assert(eval_prefix(p, x, 15) == 40u8);
    assert(eval_prefix(p, x, 16) == 154u8);
    assert(eval_prefix(p, x, 17) == 22u8);
    assert(eval_prefix(p, x, 18) == 164u8);
    assert(eval_prefix(p, x, 19) == 0u8);
}

proof fn lemma_generator_18_root_5()
    ensures
        eval_prefix(generator_coeffs_18(), GF_LOGS[5], 19) == 0,
{
    lemma_sums_18();
    let p = generator_coeffs_18();
    let x = GF_LOGS[5];
    assert(eval_prefix(p, x, 0) == 0u8);
    assert(eval_prefix(p, x, 1) == 1u8);
    assert(eval_prefix(p, x, 2) == 207u8);
    assert(eval_prefix(p, x, 3) == 35u8);
    assert(eval_prefix(p, x, 4) == 163u8);
    assert(eval_prefix(p, x, 5) == 168u8);
    assert(eval_prefix(p, x, 6) == 49u8);
    assert(eval_prefix(p, x, 7) == 193u8);
    assert(eval_prefix(p, x, 8) == 194u8);
    assert(eval_prefix(p, x, 9) == 178u8);
    assert(eval_prefix(p, x, 10) == 51u8);
    assert(eval_prefix(p, x, 11) == 242u8);
    assert(eval_prefix(p, x, 12) == 98u8);
    assert(eval_prefix(p, x, 13) == 142u8);
    assert(eval_prefix(p, x, 14) == 189u8);
    assert(eval_prefix(p, x, 15) == 117u8);
    assert(eval_prefix(p, x, 16) == 38u8);
    assert(eval_prefix(p, x, 17) == 247u8);
    assert(eval_prefix(p, x, 18) == 82u8);
    assert(eval_prefix(p, x, 19) == 0u8);
}

proof fn lemma_generator_18_root_6()
    ensures
        eval_prefix(generator_coeffs_18(), GF_LOGS[6], 19) == 0,
{
    lemma_sums_18();
    let p = generator_coeffs_18();
    let x = GF_LOGS[6];
    assert(eval_prefix(p, x, 0) == 0u8);
    assert(eval_prefix(p, x, 1) == 1u8);
    assert(eval_prefix(p, x, 2) == 175u8);
    assert(eval_prefix(p, x, 3) == 115u8);
    assert(eval_prefix(p, x, 4) == 38u8);
    assert(eval_prefix(p, x, 5) == 4u8);
    assert(eval_prefix(p, x, 6) == 136u8);
    assert(eval_prefix(p, x, 7) == 18u8);
    assert(eval_prefix(p, x, 8) == 51u8);
    assert(eval_prefix(p, x, 9) == 139u8);
    assert(eval_prefix(p, x, 10) == 141u8);
    assert(eval_prefix(p, x, 11) == 60u8);
    assert(eval_prefix(p, x, 12) == 242u8);
    assert(eval_prefix(p, x, 13) == 4u8);
    assert(eval_prefix(p, x, 14) == 176u8);
    assert(eval_prefix(p, x, 15) == 80u8);
    assert(eval_prefix(p, x, 16) == 153u8);
    assert(eval_prefix(p, x, 17) == 202u8);
    assert(eval_prefix(p, x, 18) == 41u8);
    assert(eval_prefix(p, x, 19) == 0u8);
}

proof fn lemma_generator_18_root_7()
    ensures
        eval_prefix(generator_coeffs_18(), GF_LOGS[7], 19) == 0,
{
    lemma_sums_18();
    let p = generator_coeffs_18();
    let x = GF_LOGS[7];
    assert(eval_prefix(p, x, 0) == 0u8);
    assert(eval_prefix(p, x, 1) == 1u8);
    assert(eval_prefix(p, x, 2) == 111u8);
    assert(eval_prefix(p, x, 3) == 98u8);
    assert(eval_prefix(p, x, 4) == 224u8);
    assert(eval_prefix(p, x, 5) == 40u8);
    assert(eval_prefix(p, x, 6) == 44u8);
    assert(eval_prefix(p, x, 7) == 44u8);
    assert(eval_prefix(p, x, 8) == 68u8);
    assert(eval_prefix(p, x, 9) == 106u8);
    assert(eval_prefix(p, x, 10) == 211u8);
    assert(eval_prefix(p, x, 11) == 61u8);
    assert(eval_prefix(p, x, 12) == 162u8);
    assert(eval_prefix(p, x, 13) == 145u8);
    assert(eval_prefix(p, x, 14) == 214u8);
    assert(eval_prefix(p, x, 15) == 16u8);
    assert(eval_prefix(p, x, 16) == 200u8);
    assert(eval_prefix(p, x, 17) == 163u8);
    assert(eval_prefix(p, x, 18) == 154u8);
    assert(eval_prefix(p, x, 19) == 0u8);
}

proof fn lemma_generator_18_root_8()
    ensures
        eval_prefix(generator_coeffs_18(), GF_LOGS[8], 19) == 0,
{
    lemma_sums_18();
    let p = generator_coeffs_18();
    let x = GF_LOGS[8];
    assert(eval_prefix(p, x, 0) == 0u8);
    assert(eval_prefix(p, x, 1) == 1u8);
    assert(eval_prefix(p, x, 2) == 242u8);
    assert(eval_prefix(p, x, 3) == 190u8);
    assert(eval_prefix(p, x, 4) == 125u8);
    assert(eval_prefix(p, x, 5) == 169u8);
    assert(eval_prefix(p, x, 6) == 193u8);
    assert(eval_prefix(p, x, 7) == 135u8);
    assert(eval_prefix(p, x, 8) == 178u8);
    assert(eval_prefix(p, x, 9) == 129u8);
    assert(eval_prefix(p, x, 10) == 203u8);
    assert(eval_prefix(p, x, 11) == 38u8);
    assert(eval_prefix(p, x, 12) == 128u8);
    assert(eval_prefix(p, x, 13) == 116u8);
    assert(eval_prefix(p, x, 14) == 128u8);
    assert(eval_prefix(p, x, 15) == 109u8);
    assert(eval_prefix(p, x, 16) == 53u8);
    assert(eval_prefix(p, x, 17) == 96u8);
    assert(eval_prefix(p, x, 18) == 77u8);
    assert(eval_prefix(p, x, 19) == 0u8);
}

proof fn lemma_generator_18_root_9()
    ensures
        eval_prefix(generator_coeffs_18(), GF_LOGS[9], 19) == 0,
{
    lemma_sums_18();
    let p = generator_coeffs_18();
    let x = GF_LOGS[9];
    assert(eval_prefix(p, x, 0) == 0u8);
    assert(eval_prefix(p, x, 1) == 1u8);
    assert(eval_prefix(p, x, 2) == 213u8);
    assert(eval_prefix(p, x, 3) == 196u8);
    assert(eval_prefix(p, x, 4) == 53u8);
    assert(eval_prefix(p, x, 5) == 55u8);
    assert(eval_prefix(p, x, 6) == 167u8);
    assert(eval_prefix(p, x, 7) == 86u8);
    assert(eval_prefix(p, x, 8) == 250u8);
    assert(eval_prefix(p, x, 9) == 144u8);
    assert(eval_prefix(p, x, 10) == 59u8);
    assert(eval_prefix(p, x, 11) == 203u8);
    assert(eval_prefix(p, x, 12) == 160u8);
    assert(eval_prefix(p, x, 13) == 13u8);
    assert(eval_prefix(p, x, 14) == 178u8);
    assert(eval_prefix(p, x, 15) == 231u8);
    assert(eval_prefix(p, x, 16) == 255u8);
    assert(eval_prefix(p, x, 17) == 214u8);
    assert(eval_prefix(p, x, 18) == 168u8);
    assert(eval_prefix(p, x, 19) == 0u8);
}

proof fn lemma_generator_18_root_10()
    ensures
        eval_prefix(generator_coeffs_18(), GF_LOGS[10], 19) == 0,
{
    lemma_sums_18();
    let p = generator_coeffs_18();
    let x = GF_LOGS[10];
    assert(eval_prefix(p, x, 0) == 0u8);
    assert(eval_prefix(p, x, 1) == 1u8);
    assert(eval_prefix(p, x, 2) == 155u8);
    assert(eval_prefix(p, x, 3) == 107u8);
    assert(eval_prefix(p, x, 4) == 198u8);
    assert(eval_prefix(p, x, 5) == 128u8);
    assert(eval_prefix(p, x, 6) == 13u8);
    assert(eval_prefix(p, x, 7) == 145u8);
    assert(eval_prefix(p, x, 8) == 56u8);
    assert(eval_prefix(p, x, 9) == 101u8);
    assert(eval_prefix(p, x, 10) == 35u8);
    assert(eval_prefix(p, x, 11) == 102u8);
    assert(eval_prefix(p, x, 12) == 6u8);
    assert(eval_prefix(p, x, 13) == 119u8);
    assert(eval_prefix(p, x, 14) == 133u8);
    assert(eval_prefix(p, x, 15) == 106u8);
    assert(eval_prefix(p, x, 16) == 37u8);
    assert(eval_prefix(p, x, 17) == 220u8);
    assert(eval_prefix(p, x, 18) == 84u8);
    assert(eval_prefix(p, x, 19) == 0u8);
}

proof fn lemma_generator_18_root_11()
    ensures
        eval_prefix(generator_coeffs_18(), GF_LOGS[11], 19) == 0,
{
    lemma_sums_18();
    let p = generator_coeffs_18();
    let x = GF_LOGS[11];
    assert(eval_prefix(p, x, 0) == 0u8);
    assert(eval_prefix(p, x, 1) == 1u8);
    assert(eval_prefix(p, x, 2) == 7u8);
    assert(eval_prefix(p, x, 3) == 89u8);
    assert(eval_prefix(p, x, 4) == 242u8);
    assert(eval_prefix(p, x, 5) == 99u8);
    assert(eval_prefix(p, x, 6) == 100u8);
    assert(eval_prefix(p, x, 7) == 252u8);
    assert(eval_prefix(p, x, 8) == 140u8);
    assert(eval_prefix(p, x, 9) == 110u8);
    assert(eval_prefix(p, x, 10) == 125u8);
    assert(eval_prefix(p, x, 11) == 82u8);
    assert(eval_prefix(p, x, 12) == 58u8);
    assert(eval_prefix(p, x, 13) == 230u8);
    assert(eval_prefix(p, x, 14) == 30u8);
    assert(eval_prefix(p, x, 15) == 52u8);
    assert(eval_prefix(p, x, 16) == 205u8);
    assert(eval_prefix(p, x, 17) == 138u8);
    assert(eval_prefix(p, x, 18) == 42u8);
    assert(eval_prefix(p, x, 19) == 0u8);
}

proof fn lemma_generator_18_root_12()
    ensures
        eval_prefix(generator_coeffs_18(), GF_LOGS[12], 19) == 0,
{
    lemma_sums_18();
    let p = generator_coeffs_18();
    let x = GF_LOGS[12];
    assert(eval_prefix(p, x, 0) == 0u8);
    assert(eval_prefix(p, x, 1) == 1u8);
    assert(eval_prefix(p, x, 2) == 34u8);
    assert(eval_prefix(p, x, 3) == 228u8);
    assert(eval_prefix(p, x, 4) == 75u8);
    assert(eval_prefix(p, x, 5) == 48u8);
    assert(eval_prefix(p, x, 6) == 65u8);
    assert(eval_prefix(p, x, 7) == 79u8);
    assert(eval_prefix(p, x, 8) == 149u8);
    assert(eval_prefix(p, x, 9) == 31u8);
    assert(eval_prefix(p, x, 10) == 195u8);
    assert(eval_prefix(p, x, 11) == 225u8);
    assert(eval_prefix(p, x, 12) == 107u8);
    assert(eval_prefix(p, x, 13) == 139u8);
    assert(eval_prefix(p, x, 14) == 155u8);
    assert(eval_prefix(p, x, 15) == 49u8);
    assert(eval_prefix(p, x, 16) == 57u8);
    assert(eval_prefix(p, x, 17) == 124u8);
    assert(eval_prefix(p, x, 18) == 21u8);
    assert(eval_prefix(p, x, 19) == 0u8);
}

proof fn lemma_generator_18_root_13()
    ensures
        eval_prefix(generator_coeffs_18(), GF_LOGS[13], 19) == 0,
{
    lemma_sums_18();
    let p = generator_coeffs_18();
    let x = GF_LOGS[13];
    assert(eval_prefix(p, x, 0) == 0u8);
    assert(eval_prefix(p, x, 1) == 1u8);
    assert(eval_prefix(p, x, 2) == 104u8);
    assert(eval_prefix(p, x, 3) == 192u8);
    assert(eval_prefix(p, x, 4) == 89u8);
    assert(eval_prefix(p, x, 5) == 120u8);
    assert(eval_prefix(p, x, 6) == 54u8);
    assert(eval_prefix(p, x, 7) == 47u8);
    assert(eval_prefix(p, x, 8) == 20u8);
    assert(eval_prefix(p, x, 9) == 105u8);
    assert(eval_prefix(p, x, 10) == 76u8);
    assert(eval_prefix(p, x, 11) == 236u8);
    assert(eval_prefix(p, x, 12) == 224u8);
    assert(eval_prefix(p, x, 13) == 145u8);
    assert(eval_prefix(p, x, 14) == 6u8);
    assert(eval_prefix(p, x, 15) == 126u8);
    assert(eval_prefix(p, x, 16) == 182u8);
    assert(eval_prefix(p, x, 17) == 119u8);
    assert(eval_prefix(p, x, 18) == 132u8);
    assert(eval_prefix(p, x, 19) == 0u8);
}

proof fn lemma_generator_18_root_14()
    ensures
        eval_prefix(generator_coeffs_18(), GF_LOGS[14], 19) == 0,
{
    lemma_sums_18();
    let p = generator_coeffs_18();
    let x = GF_LOGS[14];
    assert(eval_prefix(p, x, 0) == 0u8);
    assert(eval_prefix(p, x, 1) == 1u8);
    assert(eval_prefix(p, x, 2) == 252u8);
    assert(eval_prefix(p, x, 3) == 153u8);
    assert(eval_prefix(p, x, 4) == 100u8);
    assert(eval_prefix(p, x, 5) == 211u8);
    assert(eval_prefix(p, x, 6) == 76u8);
    assert(eval_prefix(p, x, 7) == 207u8);
    assert(eval_prefix(p, x, 8) == 231u8);
    assert(eval_prefix(p, x, 9) == 53u8);
    assert(eval_prefix(p, x, 10) == 216u8);
    assert(eval_prefix(p, x, 11) == 168u8);
    assert(eval_prefix(p, x, 12) == 254u8);
    assert(eval_prefix(p, x, 13) == 22u8);
    assert(eval_prefix(p, x, 14) == 234u8);
    assert(eval_prefix(p, x, 15) == 110u8);
    assert(eval_prefix(p, x, 16) == 60u8);
    assert(eval_prefix(p, x, 17) == 224u8);
    assert(eval_prefix(p, x, 18) == 66u8);
    assert(eval_prefix(p, x, 19) == 0u8);
}

proof fn lemma_generator_18_root_15()
    ensures
        eval_prefix(generator_coeffs_18(), GF_LOGS[15], 19) == 0,
{
    lemma_sums_18();
    let p = generator_coeffs_18();
    let x = GF_LOGS[15];
    assert(eval_prefix(p, x, 0) == 0u8);
    assert(eval_prefix(p, x, 1) == 1u8);
    assert(eval_prefix(p, x, 2) == 201u8);
    assert(eval_prefix(p, x, 3) == 111u8);
    assert(eval_prefix(p, x, 4) == 169u8);
    assert(eval_prefix(p, x, 5) == 36u8);
    assert(eval_prefix(p, x, 6) == 185u8);
    assert(eval_prefix(p, x, 7) == 160u8);
    assert(eval_prefix(p, x, 8) == 153u8);
    assert(eval_prefix(p, x, 9) == 108u8);
    assert(eval_prefix(p, x, 10) == 132u8);
    assert(eval_prefix(p, x, 11) == 174u8);
    assert(eval_prefix(p, x, 12) == 238u8);
    assert(eval_prefix(p, x, 13) == 128u8);
    assert(eval_prefix(p, x, 14) == 71u8);
    assert(eval_prefix(p, x, 15) == 204u8);
    assert(eval_prefix(p, x, 16) == 10u8);
    assert(eval_prefix(p, x, 17) == 34u8);
    assert(eval_prefix(p, x, 18) == 33u8);
    assert(eval_prefix(p, x, 19) == 0u8);
}

proof fn lemma_generator_18_root_16()
    ensures
        eval_prefix(generator_coeffs_18(), GF_LOGS[16], 19) == 0,
{
    lemma_sums_18();
    let p = generator_coeffs_18();
    let x = GF_LOGS[16];
    assert(eval_prefix(p, x, 0) == 0u8);
    assert(eval_prefix(p, x, 1) == 1u8);
    assert(eval_prefix(p, x, 2) == 163u8);
    assert(eval_prefix(p, x, 3) == 147u8);
    assert(eval_prefix(p, x, 4) == 30u8);
    assert(eval_prefix(p, x, 5) == 42u8);
    assert(eval_prefix(p, x, 6) == 34u8);
    assert(eval_prefix(p, x, 7) == 66u8);
    assert(eval_prefix(p, x, 8) == 181u8);
    assert(eval_prefix(p, x, 9) == 190u8);
    assert(eval_prefix(p, x, 10) == 23u8);
    assert(eval_prefix(p, x, 11) == 145u8);
    assert(eval_prefix(p, x, 12) == 120u8);
    assert(eval_prefix(p, x, 13) == 35u8);
    assert(eval_prefix(p, x, 14) == 12u8);
    assert(eval_prefix(p, x, 15) == 60u8);
    assert(eval_prefix(p, x, 16) == 150u8);
    assert(eval_prefix(p, x, 17) == 139u8);
    assert(eval_prefix(p, x, 18) == 158u8);
    assert(eval_prefix(p, x, 19) == 0u8);
}

proof fn lemma_generator_18_root_17()
    ensures
        eval_prefix(generator_coeffs_18(), GF_LOGS[17], 19) == 0,
{
    lemma_sums_18();
    let p = generator_coeffs_18();
    let x = GF_LOGS[17];
    assert(eval_prefix(p, x, 0) == 0u8);
    assert(eval_prefix(p, x, 1) == 1u8);
    assert(eval_prefix(p, x, 2) == 119u8);
    assert(eval_prefix(p, x, 3) == 66u8);
    assert(eval_prefix(p, x, 4) == 83u8);
    assert(eval_prefix(p, x, 5) == 120u8);
    assert(eval_prefix(p, x, 6) == 119u8);
    assert(eval_prefix(p, x, 7) == 22u8);
    assert(eval_prefix(p, x, 8) == 197u8);
    assert(eval_prefix(p, x, 9) == 83u8);
    assert(eval_prefix(p, x, 10) == 249u8);
    assert(eval_prefix(p, x, 11) == 41u8);
    assert(eval_prefix(p, x, 12) == 143u8);
    assert(eval_prefix(p, x, 13) == 134u8);
    assert(eval_prefix(p, x, 14) == 85u8);
    assert(eval_prefix(p, x, 15) == 53u8);
    assert(eval_prefix(p, x, 16) == 125u8);
    assert(eval_prefix(p, x, 17) == 99u8);
    assert(eval_prefix(p, x, 18) == 79u8);
    assert(eval_prefix(p, x, 19) == 0u8);
}

/// The generator polynomial of degree 18 vanishes at the first 18 powers of `x`.
proof fn lemma_generator_18_roots()
    ensures
        forall|i: int|
            0 <= i < 18 ==> eval_prefix(generator_poly(18), #[trigger] GF_LOGS[i], 19) == 0,
{
    assert(generator_poly(18) =~= generator_coeffs_18());
    lemma_generator_18_root_0();
    lemma_generator_18_root_1();
    lemma_generator_18_root_2();
    lemma_generator_18_root_3();
    lemma_generator_18_root_4();
    lemma_generator_18_root_5();
    lemma_generator_18_root_6();
    lemma_generator_18_root_7();
    lemma_generator_18_root_8();
    lemma_generator_18_root_9();
    lemma_generator_18_root_10();
    lemma_generator_18_root_11();
    lemma_generator_18_root_12();
    lemma_generator_18_root_13();
    lemma_generator_18_root_14();
    lemma_generator_18_root_15();
    lemma_generator_18_root_16();
    lemma_generator_18_root_17();
}

/// The coefficients of the generator polynomial of degree 20.
spec fn generator_coeffs_20() -> Seq<u8> {
    seq![
        1u8, 152u8, 185u8, 240u8, 5u8, 111u8, 99u8, 6u8, 220u8, 112u8, 150u8, 69u8,
        36u8, 187u8, 22u8, 228u8, 198u8, 121u8, 121u8, 165u8, 174u8,
    ]
}

/// The sums that evaluating the generator polynomial of degree 20 at its roots takes.
proof fn lemma_sums_20()
    by (bit_vector)
    ensures
        0u8 ^ 1u8 == 1u8, 0u8 ^ 121u8 == 121u8, 0u8 ^ 165u8 == 165u8, 0u8 ^ 185u8 == 185u8,
        0u8 ^ 240u8 == 240u8, 1u8 ^ 36u8 == 37u8, 1u8 ^ 152u8 == 153u8, 2u8 ^ 152u8 == 154u8,
        3u8 ^ 6u8 == 5u8, 3u8 ^ 112u8 == 115u8, 4u8 ^ 150u8 == 146u8, 4u8 ^ 152u8 == 156u8,
        4u8 ^ 185u8 == 189u8, 5u8 ^ 36u8 == 33u8, 5u8 ^ 121u8 == 124u8, 6u8 ^ 111u8 == 105u8,
        7u8 ^ 111u8 == 104u8, 7u8 ^ 228u8 == 227u8, 8u8 ^ 152u8 == 144u8, 9u8 ^ 36u8 == 45u8,
        9u8 ^ 150u8 == 159u8, 9u8 ^ 187u8 == 178u8, 10u8 ^ 198u8 == 204u8, 10u8 ^ 220u8 == 214u8,
        11u8 ^ 121u8 == 114u8, 11u8 ^ 165u8 == 174u8, 13u8 ^ 150u8 == 155u8, 14u8 ^ 121u8 == 119u8,
        14u8 ^ 165u8 == 171u8, 15u8 ^ 22u8 == 25u8, 16u8 ^ 152u8 == 136u8, 17u8 ^ 6u8 == 23u8,
        17u8 ^ 22u8 == 7u8, 17u8 ^ 220u8 == 205u8, 18u8 ^ 69u8 == 87u8, 18u8 ^ 112u8 == 98u8,
        19u8 ^ 22u8 == 5u8, 19u8 ^ 111u8 == 124u8, 19u8 ^ 121u8 == 106u8, 19u8 ^ 152u8 == 139u8,
        20u8 ^ 187u8 == 175u8, 20u8 ^ 198u8 == 210u8, 21u8 ^ 121u8 == 108u8, 21u8 ^ 150u8 == 131u8,
        22u8 ^ 165u8 == 179u8, 22u8 ^ 228u8 == 242u8, 25u8 ^ 111u8 == 118u8, 28u8 ^ 5u8 == 25u8,
        28u8 ^ 36u8 == 56u8, 28u8 ^ 69u8 == 89u8, 28u8 ^ 198u8 == 218u8, 29u8 ^ 152u8 == 133u8,
        30u8 ^ 121u8 == 103u8, 30u8 ^ 187u8 == 165u8, 31u8 ^ 22u8 == 9u8, 31u8 ^ 36u8 == 59u8,
        32u8 ^ 121u8 == 89u8, 32u8 ^ 152u8 == 184u8, 32u8 ^ 240u8 == 208u8, 35u8 ^ 198u8 == 229u8,
        36u8 ^ 112u8 == 84u8, 37u8 ^ 112u8 == 85u8, 37u8 ^ 220u8 == 249u8, 38u8 ^ 152u8 == 190u8,
        40u8 ^ 5u8 == 45u8, 41u8 ^ 99u8 == 74u8, 41u8 ^ 185u8 == 144u8, 41u8 ^ 187u8 == 146u8,
        41u8 ^ 228u8 == 205u8, 42u8 ^ 111u8 == 69u8, 43u8 ^ 121u8 == 82u8, 43u8 ^ 185u8 == 146u8,
        44u8 ^ 99u8 == 79u8, 45u8 ^ 121u8 == 84u8, 45u8 ^ 152u8 == 181u8, 46u8 ^ 121u8 == 87u8,
        46u8 ^ 187u8 == 149u8, 48u8 ^ 165u8 == 149u8, 49u8 ^ 198u8 == 247u8, 49u8 ^ 240u8 == 193u8,
        50u8 ^ 6u8 == 52u8, 50u8 ^ 22u8 == 36u8, 50u8 ^ 111u8 == 93u8, 50u8 ^ 150u8 == 164u8,
        51u8 ^ 165u8 == 150u8, 51u8 ^ 220u8 == 239u8, 52u8 ^ 111u8 == 91u8, 53u8 ^ 99u8 == 86u8,
        55u8 ^ 22u8 == 33u8, 55u8 ^ 121u8 == 78u8, 56u8 ^ 69u8 == 125u8, 56u8 ^ 150u8 == 174u8,
        57u8 ^ 6u8 == 63u8, 58u8 ^ 6u8 == 60u8, 58u8 ^ 152u8 == 162u8, 60u8 ^ 22u8 == 42u8,
        60u8 ^ 240u8 == 204u8, 61u8 ^ 69u8 == 120u8, 61u8 ^ 240u8 == 205u8, 63u8 ^ 22u8 == 41u8,
        63u8 ^ 69u8 == 122u8, 64u8 ^ 69u8 == 5u8, 64u8 ^ 121u8 == 57u8, 64u8 ^ 152u8 == 216u8,
        65u8 ^ 36u8 == 101u8, 65u8 ^ 112u8 == 49u8, 65u8 ^ 228u8 == 165u8, 66u8 ^ 22u8 == 84u8,
        68u8 ^ 220u8 == 152u8, 70u8 ^ 165u8 == 227u8, 71u8 ^ 22u8 == 81u8, 71u8 ^ 36u8 == 99u8,
        71u8 ^ 112u8 == 55u8, 71u8 ^ 220u8 == 155u8, 73u8 ^ 121u8 == 48u8, 73u8 ^ 228u8 == 173u8,
        74u8 ^ 150u8 == 220u8, 74u8 ^ 185u8 == 243u8, 75u8 ^ 36u8 == 111u8, 76u8 ^ 152u8 == 212u8,
        76u8 ^ 198u8 == 138u8, 77u8 ^ 5u8 == 72u8, 77u8 ^ 112u8 == 61u8, 77u8 ^ 121u8 == 52u8,
        78u8 ^ 220u8 == 146u8, 79u8 ^ 185u8 == 246u8, 80u8 ^ 150u8 == 198u8, 82u8 ^ 240u8 == 162u8,
        83u8 ^ 6u8 == 85u8, 83u8 ^ 69u8 == 22u8, 83u8 ^ 165u8 == 246u8, 83u8 ^ 198u8 == 149u8,
        84u8 ^ 165u8 == 241u8, 85u8 ^ 5u8 == 80u8, 85u8 ^ 187u8 == 238u8, 87u8 ^ 220u8 == 139u8,
        88u8 ^ 5u8 == 93u8, 88u8 ^ 121u8 == 33u8, 88u8 ^ 198u8 == 158u8, 89u8 ^ 112u8 == 41u8,
        89u8 ^ 228u8 == 189u8, 90u8 ^ 112u8 == 42u8, 90u8 ^ 152u8 == 194u8, 90u8 ^ 165u8 == 255u8,
        92u8 ^ 6u8 == 90u8, 93u8 ^ 22u8 == 75u8, 93u8 ^ 228u8 == 185u8, 94u8 ^ 5u8 == 91u8,
        94u8 ^ 69u8 == 27u8, 94u8 ^ 121u8 == 39u8, 95u8 ^ 36u8 == 123u8, 95u8 ^ 69u8 == 26u8,
        95u8 ^ 111u8 == 48u8, 97u8 ^ 99u8 == 2u8, 97u8 ^ 150u8 == 247u8, 97u8 ^ 165u8 == 196u8,
        97u8 ^ 198u8 == 167u8, 98u8 ^ 121u8 == 27u8, 99u8 ^ 187u8 == 216u8, 99u8 ^ 220u8 == 191u8,
        100u8 ^ 112u8 == 20u8, 101u8 ^ 111u8 == 10u8, 102u8 ^ 121u8 == 31u8, 102u8 ^ 185u8 == 223u8,
        102u8 ^ 220u8 == 186u8, 104u8 ^ 185u8 == 209u8, 104u8 ^ 187u8 == 211u8, 105u8 ^ 121u8 == 16u8,
        106u8 ^ 6u8 == 108u8, 106u8 ^ 22u8 == 124u8, 107u8 ^ 112u8 == 27u8, 108u8 ^ 5u8 == 105u8,
        108u8 ^ 36u8 == 72u8, 110u8 ^ 187u8 == 213u8, 111u8 ^ 228u8 == 139u8, 112u8 ^ 6u8 == 118u8,
        112u8 ^ 228u8 == 148u8, 114u8 ^ 121u8 == 11u8, 115u8 ^ 6u8 == 117u8, 115u8 ^ 150u8 == 229u8,
        116u8 ^ 152u8 == 236u8, 116u8 ^ 198u8 == 178u8, 116u8 ^ 240u8 == 132u8, 117u8 ^ 22u8 == 99u8,
        119u8 ^ 69u8 == 50u8, 119u8 ^ 240u8 == 135u8, 120u8 ^ 187u8 == 195u8, 121u8 ^ 5u8 == 124u8,
        121u8 ^ 22u8 == 111u8, 121u8 ^ 121u8 == 0u8, 121u8 ^ 165u8 == 220u8, 122u8 ^ 6u8 == 124u8,
        122u8 ^ 99u8 == 25u8, 122u8 ^ 112u8 == 10u8, 122u8 ^ 198u8 == 188u8, 123u8 ^ 22u8 == 109u8,
        123u8 ^ 111u8 == 20u8, 123u8 ^ 187u8 == 192u8, 123u8 ^ 198u8 == 189u8, 124u8 ^ 6u8 == 122u8,
        124u8 ^ 240u8 == 140u8, 126u8 ^ 165u8 == 219u8, 127u8 ^ 99u8 == 28u8, 127u8 ^ 121u8 == 6u8,
        128u8 ^ 152u8 == 24u8, 129u8 ^ 69u8 == 196u8, 129u8 ^ 99u8 == 226u8, 131u8 ^ 69u8 == 198u8,
        131u8 ^ 150u8 == 21u8, 132u8 ^ 187u8 == 63u8, 135u8 ^ 5u8 == 130u8, 135u8 ^ 6u8 == 129u8,
        135u8 ^ 152u8 == 31u8, 136u8 ^ 99u8 == 235u8, 136u8 ^ 111u8 == 231u8, 136u8 ^ 121u8 == 241u8,
        136u8 ^ 240u8 == 120u8, 139u8 ^ 121u8 == 242u8, 142u8 ^ 121u8 == 247u8, 145u8 ^ 240u8 == 97u8,
        146u8 ^ 150u8 == 4u8, 146u8 ^ 165u8 == 55u8, 146u8 ^ 228u8 == 118u8, 148u8 ^ 165u8 == 49u8,
        148u8 ^ 240u8 == 100u8, 149u8 ^ 220u8 == 73u8, 150u8 ^ 228u8 == 114u8, 151u8 ^ 5u8 == 146u8,
        151u8 ^ 121u8 == 238u8, 151u8 ^ 228u8 == 115u8, 152u8 ^ 152u8 == 0u8, 153u8 ^ 185u8 == 32u8,
        154u8 ^ 69u8 == 223u8, 154u8 ^ 121u8 == 227u8, 154u8 ^ 228u8 == 126u8, 155u8 ^ 150u8 == 13u8,
        156u8 ^ 185u8 == 37u8, 158u8 ^ 185u8 == 39u8, 159u8 ^ 150u8 == 9u8, 160u8 ^ 5u8 == 165u8,
        160u8 ^ 36u8 == 132u8, 161u8 ^ 36u8 == 133u8, 162u8 ^ 198u8 == 100u8, 163u8 ^ 5u8 == 166u8,
        164u8 ^ 99u8 == 199u8, 164u8 ^ 150u8 == 50u8, 165u8 ^ 121u8 == 220u8, 165u8 ^ 220u8 == 121u8,
        165u8 ^ 228u8 == 65u8, 166u8 ^ 5u8 == 163u8, 166u8 ^ 187u8 == 29u8, 167u8 ^ 198u8 == 97u8,
        168u8 ^ 5u8 == 173u8, 170u8 ^ 228u8 == 78u8, 171u8 ^ 69u8 == 238u8, 171u8 ^ 121u8 == 210u8,
        171u8 ^ 187u8 == 16u8, 172u8 ^ 22u8 == 186u8, 172u8 ^ 111u8 == 195u8, 172u8 ^ 112u8 == 220u8,
        173u8 ^ 36u8 == 137u8, 174u8 ^ 36u8 == 138u8, 174u8 ^ 150u8 == 56u8, 174u8 ^ 174u8 == 0u8,
        174u8 ^ 240u8 == 94u8, 175u8 ^ 5u8 == 170u8, 175u8 ^ 99u8 == 204u8, 176u8 ^ 6u8 == 182u8,
        176u8 ^ 121u8 == 201u8, 177u8 ^ 112u8 == 193u8, 177u8 ^ 185u8 == 8u8, 178u8 ^ 121u8 == 203u8,
        179u8 ^ 22u8 == 165u8, 180u8 ^ 5u8 == 177u8, 180u8 ^ 36u8 == 144u8, 181u8 ^ 121u8 == 204u8,
        182u8 ^ 99u8 == 213u8, 182u8 ^ 111u8 == 217u8, 184u8 ^ 99u8 == 219u8, 184u8 ^ 185u8 == 1u8,
        184u8 ^ 198u8 == 126u8, 185u8 ^ 111u8 == 214u8, 185u8 ^ 185u8 == 0u8, 186u8 ^ 99u8 == 217u8,
        186u8 ^ 185u8 == 3u8, 188u8 ^ 69u8 == 249u8, 188u8 ^ 99u8 == 223u8, 188u8 ^ 112u8 == 204u8,
        189u8 ^ 6u8 == 187u8, 191u8 ^ 69u8 == 250u8, 191u8 ^ 185u8 == 6u8, 191u8 ^ 240u8 == 79u8,
        192u8 ^ 112u8 == 176u8, 192u8 ^ 187u8 == 123u8, 194u8 ^ 99u8 == 161u8, 195u8 ^ 228u8 == 39u8,
        197u8 ^ 36u8 == 225u8, 197u8 ^ 220u8 == 25u8, 198u8 ^ 112u8 == 182u8, 198u8 ^ 150u8 == 80u8,
        199u8 ^ 5u8 == 194u8, 199u8 ^ 111u8 == 168u8, 199u8 ^ 165u8 == 98u8, 201u8 ^ 5u8 == 204u8,
        201u8 ^ 220u8 == 21u8, 202u8 ^ 121u8 == 179u8, 203u8 ^ 99u8 == 168u8, 203u8 ^ 165u8 == 110u8,
        204u8 ^ 6u8 == 202u8, 205u8 ^ 69u8 == 136u8, 205u8 ^ 152u8 == 85u8, 205u8 ^ 198u8 == 11u8,
        206u8 ^ 198u8 == 8u8, 207u8 ^ 6u8 == 201u8, 208u8 ^ 5u8 == 213u8, 209u8 ^ 69u8 == 148u8,
        210u8 ^ 112u8 == 162u8, 211u8 ^ 220u8 == 15u8, 212u8 ^ 240u8 == 36u8, 213u8 ^ 111u8 == 186u8,
        213u8 ^ 121u8 == 172u8, 214u8 ^ 198u8 == 16u8, 214u8 ^ 220u8 == 10u8, 215u8 ^ 112u8 == 167u8,
        215u8 ^ 198u8 == 17u8, 216u8 ^ 185u8 == 97u8, 217u8 ^ 6u8 == 223u8, 217u8 ^ 111u8 == 182u8,
        218u8 ^ 187u8 == 97u8, 218u8 ^ 220u8 == 6u8, 219u8 ^ 121u8 == 162u8, 220u8 ^ 150u8 == 74u8,
        220u8 ^ 228u8 == 56u8, 221u8 ^ 69u8 == 152u8, 222u8 ^ 99u8 == 189u8, 222u8 ^ 165u8 == 123u8,
        222u8 ^ 228u8 == 58u8, 223u8 ^ 220u8 == 3u8, 224u8 ^ 22u8 == 246u8, 224u8 ^ 121u8 == 153u8,
        225u8 ^ 36u8 == 197u8, 226u8 ^ 36u8 == 198u8, 227u8 ^ 228u8 == 7u8, 229u8 ^ 6u8 == 227u8,
        229u8 ^ 69u8 == 160u8, 229u8 ^ 111u8 == 138u8, 229u8 ^ 150u8 == 115u8, 229u8 ^ 187u8 == 94u8,
        231u8 ^ 5u8 == 226u8, 231u8 ^ 111u8 == 136u8, 232u8 ^ 152u8 == 112u8, 234u8 ^ 240u8 == 26u8,
        235u8 ^ 111u8 == 132u8, 235u8 ^ 220u8 == 55u8, 235u8 ^ 228u8 == 15u8, 235u8 ^ 240u8 == 27u8,
        236u8 ^ 99u8 == 143u8, 237u8 ^ 99u8 == 142u8, 237u8 ^ 240u8 == 29u8, 238u8 ^ 165u8 == 75u8,
        240u8 ^ 6u8 == 246u8, 242u8 ^ 165u8 == 87u8, 242u8 ^ 185u8 == 75u8, 243u8 ^ 22u8 == 229u8,
        243u8 ^ 187u8 == 72u8, 244u8 ^ 185u8 == 77u8, 244u8 ^ 187u8 == 79u8, 245u8 ^ 36u8 == 209u8,
        247u8 ^ 150u8 == 97u8, 252u8 ^ 198u8 == 58u8, 253u8 ^ 185u8 == 68u8, 253u8 ^ 187u8 == 70u8,
        253u8 ^ 240u8 == 13u8, 255u8 ^ 112u8 == 143u8,
{
}

proof fn lemma_generator_20_root_0()
    ensures
        eval_prefix(generator_coeffs_20(), GF_LOGS[0], 21) == 0,
{
    lemma_sums_20();
    let p = generator_coeffs_20();
    let x = GF_LOGS[0];
    assert(eval_prefix(p, x, 0) == 0u8);
    assert(eval_prefix(p, x, 1) == 1u8);
    assert(eval_prefix(p, x, 2) == 153u8);
    assert(eval_prefix(p, x, 3) == 32u8);
    assert(eval_prefix(p, x, 4) == 208u8);
    assert(eval_prefix(p, x, 5) == 213u8);
    assert(eval_prefix(p, x, 6) == 186u8);
    assert(eval_prefix(p, x, 7) == 217u8);
    assert(eval_prefix(p, x, 8) == 223u8);
    assert(eval_prefix(p, x, 9) == 3u8);
    assert(eval_prefix(p, x, 10) == 115u8);
    assert(eval_prefix(p, x, 11) == 229u8);
    assert(eval_prefix(p, x, 12) == 160u8);
    assert(eval_prefix(p, x, 13) == 132u8);
    assert(eval_prefix(p, x, 14) == 63u8);
    assert(eval_prefix(p, x, 15) == 41u8);
    assert(eval_prefix(p, x, 16) == 205u8);
    assert(eval_prefix(p, x, 17) == 11u8);
    assert(eval_prefix(p, x, 18) == 114u8);
    assert(eval_prefix(p, x, 19) == 11u8);
    assert(eval_prefix(p, x, 20) == 174u8);
    assert(eval_prefix(p, x, 21) == 0u8);
}

proof fn lemma_generator_20_root_1()
    ensures
        eval_prefix(generator_coeffs_20(), GF_LOGS[1], 21) == 0,
{
    lemma_sums_20();
    let p = generator_coeffs_20();
    let x = GF_LOGS[1];
    assert(eval_prefix(p, x, 0) == 0u8);
    assert(eval_prefix(p, x, 1) == 1u8);
    assert(eval_prefix(p, x, 2) == 154u8);
    assert(eval_prefix(p, x, 3) == 144u8);
    assert(eval_prefix(p, x, 4) == 205u8);
    assert(eval_prefix(p, x, 5) == 130u8);
    assert(eval_prefix(p, x, 6) == 118u8);
    assert(eval_prefix(p, x, 7) == 143u8);
    assert(eval_prefix(p, x, 8) == 5u8);
    assert(eval_prefix(p, x, 9) == 214u8);
    assert(eval_prefix(p, x, 10) == 193u8);
    assert(eval_prefix(p, x, 11) == 9u8);
    assert(eval_prefix(p, x, 12) == 87u8);
    assert(eval_prefix(p, x, 13) == 138u8);
    assert(eval_prefix(p, x, 14) == 178u8);
    assert(eval_prefix(p, x, 15) == 111u8);
    assert(eval_prefix(p, x, 16) == 58u8);
    assert(eval_prefix(p, x, 17) == 178u8);
    assert(eval_prefix(p, x, 18) == 0u8);
    assert(eval_prefix(p, x, 19) == 121u8);
    assert(eval_prefix(p, x, 20) == 87u8);
    assert(eval_prefix(p, x, 21) == 0u8);
}

proof fn lemma_generator_20_root_2()
    ensures
        eval_prefix(generator_coeffs_20(), GF_LOGS[2], 21) == 0,
{
    lemma_sums_20();
    let p = generator_coeffs_20();
    let x = GF_LOGS[2];
    assert(eval_prefix(p, x, 0) == 0u8);
    assert(eval_prefix(p, x, 1) == 1u8);
    assert(eval_prefix(p, x, 2) == 156u8);
    assert(eval_prefix(p, x, 3) == 243u8);
    assert(eval_prefix(p, x, 4) == 27u8);
    assert(eval_prefix(p, x, 5) == 105u8);
    assert(eval_prefix(p, x, 6) == 214u8);
    assert(eval_prefix(p, x, 7) == 28u8);
    assert(eval_prefix(p, x, 8) == 118u8);
    assert(eval_prefix(p, x, 9) == 25u8);
    assert(eval_prefix(p, x, 10) == 20u8);
    assert(eval_prefix(p, x, 11) == 198u8);
    assert(eval_prefix(p, x, 12) == 122u8);
    assert(eval_prefix(p, x, 13) == 209u8);
    assert(eval_prefix(p, x, 14) == 216u8);
    assert(eval_prefix(p, x, 15) == 81u8);
    assert(eval_prefix(p, x, 16) == 189u8);
    assert(eval_prefix(p, x, 17) == 8u8);
    assert(eval_prefix(p, x, 18) == 89u8);
    assert(eval_prefix(p, x, 19) == 0u8);
    assert(eval_prefix(p, x, 20) == 165u8);
    assert(eval_prefix(p, x, 21) == 0u8);
}

proof fn lemma_generator_20_root_3()
    ensures
        eval_prefix(generator_coeffs_20(), GF_LOGS[3], 21) == 0,
{
    lemma_sums_20();
    let p = generator_coeffs_20();
    let x = GF_LOGS[3];
    assert(eval_prefix(p, x, 0) == 0u8);
    assert(eval_prefix(p, x, 1) == 1u8);
    assert(eval_prefix(p, x, 2) == 144u8);
    assert(eval_prefix(p, x, 3) == 77u8);
    assert(eval_prefix(p, x, 4) == 162u8);
    assert(eval_prefix(p, x, 5) == 124u8);
    assert(eval_prefix(p, x, 6) == 168u8);
    assert(eval_prefix(p, x, 7) == 74u8);
    assert(eval_prefix(p, x, 8) == 108u8);
    assert(eval_prefix(p, x, 9) == 155u8);
    assert(eval_prefix(p, x, 10) == 220u8);
    assert(eval_prefix(p, x, 11) == 56u8);
    assert(eval_prefix(p, x, 12) == 152u8);
    assert(eval_prefix(p, x, 13) == 144u8);
    assert(eval_prefix(p, x, 14) == 79u8);
    assert(eval_prefix(p, x, 15) == 84u8);
    assert(eval_prefix(p, x, 16) == 126u8);
    assert(eval_prefix(p, x, 17) == 17u8);
    assert(eval_prefix(p, x, 18) == 241u8);
    assert(eval_prefix(p, x, 19) == 162u8);
    assert(eval_prefix(p, x, 20) == 220u8);
    assert(eval_prefix(p, x, 21) == 0u8);
}

proof fn lemma_generator_20_root_4()
    ensures
        eval_prefix(generator_coeffs_20(), GF_LOGS[4], 21) == 0,
{
    lemma_sums_20();
    let p = generator_coeffs_20();
    let x = GF_LOGS[4];
    assert(eval_prefix(p, x, 0) == 0u8);
    assert(eval_prefix(p, x, 1) == 1u8);
    assert(eval_prefix(p, x, 2) == 136u8);
    assert(eval_prefix(p, x, 3) == 209u8);
    assert(eval_prefix(p, x, 4) == 97u8);
    assert(eval_prefix(p, x, 5) == 91u8);
    assert(eval_prefix(p, x, 6) == 182u8);
    assert(eval_prefix(p, x, 7) == 204u8);
    assert(eval_prefix(p, x, 8) == 90u8);
    assert(eval_prefix(p, x, 9) == 21u8);
    assert(eval_prefix(p, x, 10) == 61u8);
    assert(eval_prefix(p, x, 11) == 97u8);
    assert(eval_prefix(p, x, 12) == 27u8);
    assert(eval_prefix(p, x, 13) == 137u8);
    assert(eval_prefix(p, x, 14) == 195u8);
    assert(eval_prefix(p, x, 15) == 186u8);
    assert(eval_prefix(p, x, 16) == 139u8);
    assert(eval_prefix(p, x, 17) == 158u8);
    assert(eval_prefix(p, x, 18) == 108u8);
    assert(eval_prefix(p, x, 19) == 247u8);
    assert(eval_prefix(p, x, 20) == 110u8);
    assert(eval_prefix(p, x, 21) == 0u8);
}

proof fn lemma_generator_20_root_5()
    ensures
        eval_prefix(generator_coeffs_20(), GF_LOGS[5], 21) == 0,
{
    lemma_sums_20();
    let p = generator_coeffs_20();
    let x = GF_LOGS[5];
    assert(eval_prefix(p, x, 0) == 0u8);
    assert(eval_prefix(p, x, 1) == 1u8);
    assert(eval_prefix(p, x, 2) == 184u8);
    assert(eval_prefix(p, x, 3) == 39u8);
    assert(eval_prefix(p, x, 4) == 100u8);
    assert(eval_prefix(p, x, 5) == 25u8);
    assert(eval_prefix(p, x, 6) == 104u8);
    assert(eval_prefix(p, x, 7) == 226u8);
    assert(eval_prefix(p, x, 8) == 23u8);
    assert(eval_prefix(p, x, 9) == 6u8);
    assert(eval_prefix(p, x, 10) == 176u8);
    assert(eval_prefix(p, x, 11) == 21u8);
    assert(eval_prefix(p, x, 12) == 223u8);
    assert(eval_prefix(p, x, 13) == 198u8);
    assert(eval_prefix(p, x, 14) == 94u8);
    assert(eval_prefix(p, x, 15) == 25u8);
    assert(eval_prefix(p, x, 16) == 227u8);
    assert(eval_prefix(p, x, 17) == 247u8);
    assert(eval_prefix(p, x, 18) == 242u8);
    assert(eval_prefix(p, x, 19) == 82u8);
    assert(eval_prefix(p, x, 20) == 55u8);
    assert(eval_prefix(p, x, 21) == 0u8);
}

proof fn lemma_generator_20_root_6()
    ensures
        eval_prefix(generator_coeffs_20(), GF_LOGS[6], 21) == 0,
{
    lemma_sums_20();
    let p = generator_coeffs_20();
    let x = GF_LOGS[6];
    assert(eval_prefix(p, x, 0) == 0u8);
    assert(eval_prefix(p, x, 1) == 1u8);
    assert(eval_prefix(p, x, 2) == 216u8);
    assert(eval_prefix(p, x, 3) == 189u8);
    assert(eval_prefix(p, x, 4) == 140u8);
    assert(eval_prefix(p, x, 5) == 165u8);
    assert(eval_prefix(p, x, 6) == 93u8);
    assert(eval_prefix(p, x, 7) == 189u8);
    assert(eval_prefix(p, x, 8) == 122u8);
    assert(eval_prefix(p, x, 9) == 55u8);
    assert(eval_prefix(p, x, 10) == 49u8);
    assert(eval_prefix(p, x, 11) == 74u8);
    assert(eval_prefix(p, x, 12) == 50u8);
    assert(eval_prefix(p, x, 13) == 56u8);
    assert(eval_prefix(p, x, 14) == 29u8);
    assert(eval_prefix(p, x, 15) == 5u8);
    assert(eval_prefix(p, x, 16) == 185u8);
    assert(eval_prefix(p, x, 17) == 167u8);
    assert(eval_prefix(p, x, 18) == 203u8);
    assert(eval_prefix(p, x, 19) == 201u8);
    assert(eval_prefix(p, x, 20) == 149u8);
    assert(eval_prefix(p, x, 21) == 0u8);
}

proof fn lemma_generator_20_root_7()
    ensures
        eval_prefix(generator_coeffs_20(), GF_LOGS[7], 21) == 0,
{
    lemma_sums_20();
    let p = generator_coeffs_20();
    let x = GF_LOGS[7];
    assert(eval_prefix(p, x, 0) == 0u8);
    assert(eval_prefix(p, x, 1) == 1u8);
    assert(eval_prefix(p, x, 2) == 24u8);
    assert(eval_prefix(p, x, 3) == 37u8);
    assert(eval_prefix(p, x, 4) == 135u8);
    assert(eval_prefix(p, x, 5) == 177u8);
    assert(eval_prefix(p, x, 6) == 217u8);
    assert(eval_prefix(p, x, 7) == 235u8);
    assert(eval_prefix(p, x, 8) == 182u8);
    assert(eval_prefix(p, x, 9) == 205u8);
    assert(eval_prefix(p, x, 10) == 42u8);
    assert(eval_prefix(p, x, 11) == 50u8);
    assert(eval_prefix(p, x, 12) == 125u8);
    assert(eval_prefix(p, x, 13) == 72u8);
    assert(eval_prefix(p, x, 14) == 72u8);
    assert(eval_prefix(p, x, 15) == 229u8);
    assert(eval_prefix(p, x, 16) == 7u8);
    assert(eval_prefix(p, x, 17) == 97u8);
    assert(eval_prefix(p, x, 18) == 179u8);
    assert(eval_prefix(p, x, 19) == 210u8);
    assert(eval_prefix(p, x, 20) == 196u8);
    assert(eval_prefix(p, x, 21) == 0u8);
}

proof fn lemma_generator_20_root_8()
    ensures
        eval_prefix(generator_coeffs_20(), GF_LOGS[8], 21) == 0,
{
    lemma_sums_20();
    let p = generator_coeffs_20();
    let x = GF_LOGS[8];
    assert(eval_prefix(p, x, 0) == 0u8);
    assert(eval_prefix(p, x, 1) == 1u8);
    assert(eval_prefix(p, x, 2) == 133u8);
    assert(eval_prefix(p, x, 3) == 246u8);
    assert(eval_prefix(p, x, 4) == 193u8);
    assert(eval_prefix(p, x, 5) == 45u8);
    assert(eval_prefix(p, x, 6) == 105u8);
    assert(eval_prefix(p, x, 7) == 2u8);
    assert(eval_prefix(p, x, 8) == 60u8);
    assert(eval_prefix(p, x, 9) == 10u8);
    assert(eval_prefix(p, x, 10) == 162u8);
    assert(eval_prefix(p, x, 11) == 13u8);
    assert(eval_prefix(p, x, 12) == 196u8);
    assert(eval_prefix(p, x, 13) == 101u8);
    assert(eval_prefix(p, x, 14) == 70u8);
    assert(eval_prefix(p, x, 15) == 75u8);
    assert(eval_prefix(p, x, 16) == 56u8);
    assert(eval_prefix(p, x, 17) == 100u8);
    assert(eval_prefix(p, x, 18) == 153u8);
    assert(eval_prefix(p, x, 19) == 103u8);
    assert(eval_prefix(p, x, 20) == 98u8);
    assert(eval_prefix(p, x, 21) == 0u8);
}

proof fn lemma_generator_20_root_9()
    ensures
        eval_prefix(generator_coeffs_20(), GF_LOGS[9], 21) == 0,
{
    lemma_sums_20();
    let p = generator_coeffs_20();
    let x = GF_LOGS[9];
    assert(eval_prefix(p, x, 0) == 0u8);
    assert(eval_prefix(p, x, 1) == 1u8);
    assert(eval_prefix(p, x, 2) == 162u8);
    assert(eval_prefix(p, x, 3) == 146u8);
    assert(eval_prefix(p, x, 4) == 79u8);
    assert(eval_prefix(p, x, 5) == 72u8);
    assert(eval_prefix(p, x, 6) == 132u8);
    assert(eval_prefix(p, x, 7) == 199u8);
    assert(eval_prefix(p, x, 8) == 202u8);
    assert(eval_prefix(p, x, 9) == 15u8);
    assert(eval_prefix(p, x, 10) == 27u8);
    assert(eval_prefix(p, x, 11) == 146u8);
    assert(eval_prefix(p, x, 12) == 250u8);
    assert(eval_prefix(p, x, 13) == 99u8);
    assert(eval_prefix(p, x, 14) == 192u8);
    assert(eval_prefix(p, x, 15) == 124u8);
    assert(eval_prefix(p, x, 16) == 115u8);
    assert(eval_prefix(p, x, 17) == 58u8);
    assert(eval_prefix(p, x, 18) == 84u8);
    assert(eval_prefix(p, x, 19) == 48u8);
    assert(eval_prefix(p, x, 20) == 49u8);
    assert(eval_prefix(p, x, 21) == 0u8);
}

proof fn lemma_generator_20_root_10()
    ensures
        eval_prefix(generator_coeffs_20(), GF_LOGS[10], 21) == 0,
{
    lemma_sums_20();
    let p = generator_coeffs_20();
    let x = GF_LOGS[10];
    assert(eval_prefix(p, x, 0) == 0u8);
    assert(eval_prefix(p, x, 1) == 1u8);
    assert(eval_prefix(p, x, 2) == 236u8);
    assert(eval_prefix(p, x, 3) == 1u8);
    assert(eval_prefix(p, x, 4) == 132u8);
    assert(eval_prefix(p, x, 5) == 80u8);
    assert(eval_prefix(p, x, 6) == 48u8);
    assert(eval_prefix(p, x, 7) == 86u8);
    assert(eval_prefix(p, x, 8) == 124u8);
    assert(eval_prefix(p, x, 9) == 239u8);
    assert(eval_prefix(p, x, 10) == 84u8);
    assert(eval_prefix(p, x, 11) == 4u8);
    assert(eval_prefix(p, x, 12) == 136u8);
    assert(eval_prefix(p, x, 13) == 59u8);
    assert(eval_prefix(p, x, 14) == 149u8);
    assert(eval_prefix(p, x, 15) == 36u8);
    assert(eval_prefix(p, x, 16) == 15u8);
    assert(eval_prefix(p, x, 17) == 16u8);
    assert(eval_prefix(p, x, 18) == 106u8);
    assert(eval_prefix(p, x, 19) == 124u8);
    assert(eval_prefix(p, x, 20) == 150u8);
    assert(eval_prefix(p, x, 21) == 0u8);
}

proof fn lemma_generator_20_root_11()
    ensures
        eval_prefix(generator_coeffs_20(), GF_LOGS[11], 21) == 0,
{
    lemma_sums_20();
    let p = generator_coeffs_20();
    let x = GF_LOGS[11];
    assert(eval_prefix(p, x, 0) == 0u8);
    assert(eval_prefix(p, x, 1) == 1u8);
    assert(eval_prefix(p, x, 2) == 112u8);
    assert(eval_prefix(p, x, 3) == 75u8);
    assert(eval_prefix(p, x, 4) == 94u8);
    assert(eval_prefix(p, x, 5) == 226u8);
    assert(eval_prefix(p, x, 6) == 91u8);
    assert(eval_prefix(p, x, 7) == 235u8);
    assert(eval_prefix(p, x, 8) == 201u8);
    assert(eval_prefix(p, x, 9) == 146u8);
    assert(eval_prefix(p, x, 10) == 182u8);
    assert(eval_prefix(p, x, 11) == 155u8);
    assert(eval_prefix(p, x, 12) == 120u8);
    assert(eval_prefix(p, x, 13) == 197u8);
    assert(eval_prefix(p, x, 14) == 97u8);
    assert(eval_prefix(p, x, 15) == 42u8);
    assert(eval_prefix(p, x, 16) == 118u8);
    assert(eval_prefix(p, x, 17) == 126u8);
    assert(eval_prefix(p, x, 18) == 210u8);
    assert(eval_prefix(p, x, 19) == 39u8);
    assert(eval_prefix(p, x, 20) == 75u8);
    assert(eval_prefix(p, x, 21) == 0u8);
}

proof fn lemma_generator_20_root_12()
    ensures
        eval_prefix(generator_coeffs_20(), GF_LOGS[12], 21) == 0,
{
    lemma_sums_20();
    let p = generator_coeffs_20();
    let x = GF_LOGS[12];
    assert(eval_prefix(p, x, 0) == 0u8);
    assert(eval_prefix(p, x, 1) == 1u8);
    assert(eval_prefix(p, x, 2) == 85u8);
    assert(eval_prefix(p, x, 3) == 6u8);
    assert(eval_prefix(p, x, 4) == 100u8);
    assert(eval_prefix(p, x, 5) == 163u8);
    assert(eval_prefix(p, x, 6) == 231u8);
    assert(eval_prefix(p, x, 7) == 213u8);
    assert(eval_prefix(p, x, 8) == 227u8);
    assert(eval_prefix(p, x, 9) == 121u8);
    assert(eval_prefix(p, x, 10) == 98u8);
    assert(eval_prefix(p, x, 11) == 164u8);
    assert(eval_prefix(p, x, 12) == 148u8);
    assert(eval_prefix(p, x, 13) == 33u8);
    assert(eval_prefix(p, x, 14) == 238u8);
    assert(eval_prefix(p, x, 15) == 75u8);
    assert(eval_prefix(p, x, 16) == 165u8);
    assert(eval_prefix(p, x, 17) == 218u8);
    assert(eval_prefix(p, x, 18) == 227u8);
    assert(eval_prefix(p, x, 19) == 220u8);
    assert(eval_prefix(p, x, 20) == 171u8);
    assert(eval_prefix(p, x, 21) == 0u8);
}

proof fn lemma_generator_20_root_13()
    ensures
        eval_prefix(generator_coeffs_20(), GF_LOGS[13], 21) == 0,
{
    lemma_sums_20();
    let p = generator_coeffs_20();
    let x = GF_LOGS[13];
    assert(eval_prefix(p, x, 0) == 0u8);
    assert(eval_prefix(p, x, 1) == 1u8);
    assert(eval_prefix(p, x, 2) == 31u8);
    assert(eval_prefix(p, x, 3) == 223u8);
    assert(eval_prefix(p, x, 4) == 120u8);
    assert(eval_prefix(p, x, 5) == 166u8);
    assert(eval_prefix(p, x, 6) == 195u8);
    assert(eval_prefix(p, x, 7) == 25u8);
    assert(eval_prefix(p, x, 8) == 85u8);
    assert(eval_prefix(p, x, 9) == 191u8);
    assert(eval_prefix(p, x, 10) == 143u8);
    assert(eval_prefix(p, x, 11) == 220u8);
    assert(eval_prefix(p, x, 12) == 89u8);
    assert(eval_prefix(p, x, 13) == 45u8);
    assert(eval_prefix(p, x, 14) == 123u8);
    assert(eval_prefix(p, x, 15) == 33u8);
    assert(eval_prefix(p, x, 16) == 78u8);
    assert(eval_prefix(p, x, 17) == 229u8);
    assert(eval_prefix(p, x, 18) == 27u8);
    assert(eval_prefix(p, x, 19) == 57u8);
    assert(eval_prefix(p, x, 20) == 219u8);
    assert(eval_prefix(p, x, 21) == 0u8);
}

proof fn lemma_generator_20_root_14()
    ensures
        eval_prefix(generator_coeffs_20(), GF_LOGS[14], 21) == 0,
{
    lemma_sums_20();
    let p = generator_coeffs_20();
    let x = GF_LOGS[14];
    assert(eval_prefix(p, x, 0) == 0u8);
    assert(eval_prefix(p, x, 1) == 1u8);
    assert(eval_prefix(p, x, 2) == 139u8);
    assert(eval_prefix(p, x, 3) == 97u8);
    assert(eval_prefix(p, x, 4) == 13u8);
    assert(eval_prefix(p, x, 5) == 194u8);
    assert(eval_prefix(p, x, 6) == 136u8);
    assert(eval_prefix(p, x, 7) == 142u8);
    assert(eval_prefix(p, x, 8) == 129u8);
    assert(eval_prefix(p, x, 9) == 186u8);
    assert(eval_prefix(p, x, 10) == 204u8);
    assert(eval_prefix(p, x, 11) == 131u8);
    assert(eval_prefix(p, x, 12) == 5u8);
    assert(eval_prefix(p, x, 13) == 123u8);
    assert(eval_prefix(p, x, 14) == 213u8);
    assert(eval_prefix(p, x, 15) == 165u8);
    assert(eval_prefix(p, x, 16) == 148u8);
    assert(eval_prefix(p, x, 17) == 210u8);
    assert(eval_prefix(p, x, 18) == 179u8);
    assert(eval_prefix(p, x, 19) == 78u8);
    assert(eval_prefix(p, x, 20) == 227u8);
    assert(eval_prefix(p, x, 21) == 0u8);
}

proof fn lemma_generator_20_root_15()
    ensures
        eval_prefix(generator_coeffs_20(), GF_LOGS[15], 21) == 0,
{
    lemma_sums_20();
    let p = generator_coeffs_20();
    let x = GF_LOGS[15];
    assert(eval_prefix(p, x, 0) == 0u8);
    assert(eval_prefix(p, x, 1) == 1u8);
    assert(eval_prefix(p, x, 2) == 190u8);
    assert(eval_prefix(p, x, 3) == 68u8);
    assert(eval_prefix(p, x, 4) == 29u8);
    assert(eval_prefix(p, x, 5) == 204u8);
    assert(eval_prefix(p, x, 6) == 69u8);
    assert(eval_prefix(p, x, 7) == 168u8);
    assert(eval_prefix(p, x, 8) == 117u8);
    assert(eval_prefix(p, x, 9) == 249u8);
    assert(eval_prefix(p, x, 10) == 10u8);
    assert(eval_prefix(p, x, 11) == 247u8);
    assert(eval_prefix(p, x, 12) == 198u8);
    assert(eval_prefix(p, x, 13) == 111u8);
    assert(eval_prefix(p, x, 14) == 165u8);
    assert(eval_prefix(p, x, 15) == 246u8);
    assert(eval_prefix(p, x, 16) == 65u8);
    assert(eval_prefix(p, x, 17) == 149u8);
    assert(eval_prefix(p, x, 18) == 119u8);
    assert(eval_prefix(p, x, 19) == 16u8);
    assert(eval_prefix(p, x, 20) == 255u8);
    assert(eval_prefix(p, x, 21) == 0u8);
}

proof fn lemma_generator_20_root_16()
    ensures
        eval_prefix(generator_coeffs_20(), GF_LOGS[16], 21) == 0,
{
    lemma_sums_20();
    let p = generator_coeffs_20();
    let x = GF_LOGS[16];
    assert(eval_prefix(p, x, 0) == 0u8);
    assert(eval_prefix(p, x, 1) == 1u8);
    assert(eval_prefix(p, x, 2) == 212u8);
    assert(eval_prefix(p, x, 3) == 3u8);
    assert(eval_prefix(p, x, 4) == 36u8);
    assert(eval_prefix(p, x, 5) == 93u8);
    assert(eval_prefix(p, x, 6) == 10u8);
    assert(eval_prefix(p, x, 7) == 161u8);
    assert(eval_prefix(p, x, 8) == 246u8);
    assert(eval_prefix(p, x, 9) == 139u8);
    assert(eval_prefix(p, x, 10) == 55u8);
    assert(eval_prefix(p, x, 11) == 174u8);
    assert(eval_prefix(p, x, 12) == 22u8);
    assert(eval_prefix(p, x, 13) == 37u8);
    assert(eval_prefix(p, x, 14) == 175u8);
    assert(eval_prefix(p, x, 15) == 9u8);
    assert(eval_prefix(p, x, 16) == 242u8);
    assert(eval_prefix(p, x, 17) == 188u8);
    assert(eval_prefix(p, x, 18) == 6u8);
    assert(eval_prefix(p, x, 19) == 204u8);
    assert(eval_prefix(p, x, 20) == 241u8);
    assert(eval_prefix(p, x, 21) == 0u8);
}

proof fn lemma_generator_20_root_17()
    ensures
        eval_prefix(generator_coeffs_20(), GF_LOGS[17], 21) == 0,
{
    lemma_sums_20();
    let p = generator_coeffs_20();
    let x = GF_LOGS[17];
    assert(eval_prefix(p, x, 0) == 0u8);
    assert(eval_prefix(p, x, 1) == 1u8);
    assert(eval_prefix(p, x, 2) == 0u8);
    assert(eval_prefix(p, x, 3) == 185u8);
    assert(eval_prefix(p, x, 4) == 204u8);
    assert(eval_prefix(p, x, 5) == 173u8);
    assert(eval_prefix(p, x, 6) == 124u8);
    assert(eval_prefix(p, x, 7) == 219u8);
    assert(eval_prefix(p, x, 8) == 52u8);
    assert(eval_prefix(p, x, 9) == 25u8);
    assert(eval_prefix(p, x, 10) == 41u8);
    assert(eval_prefix(p, x, 11) == 80u8);
    assert(eval_prefix(p, x, 12) == 249u8);
    assert(eval_prefix(p, x, 13) == 209u8);
    assert(eval_prefix(p, x, 14) == 16u8);
    assert(eval_prefix(p, x, 15) == 99u8);
    assert(eval_prefix(p, x, 16) == 114u8);
    assert(eval_prefix(p, x, 17) == 189u8);
    assert(eval_prefix(p, x, 18) == 31u8);
    assert(eval_prefix(p, x, 19) == 87u8);
    assert(eval_prefix(p, x, 20) == 246u8);
    assert(eval_prefix(p, x, 21) == 0u8);
}

proof fn lemma_generator_20_root_18()
    ensures
        eval_prefix(generator_coeffs_20(), GF_LOGS[18], 21) == 0,
{
    lemma_sums_20();
    let p = generator_coeffs_20();
    let x = GF_LOGS[18];
    assert(eval_prefix(p, x, 0) == 0u8);
    assert(eval_prefix(p, x, 1) == 1u8);
    assert(eval_prefix(p, x, 2) == 181u8);
    assert(eval_prefix(p, x, 3) == 0u8);
    assert(eval_prefix(p, x, 4) == 240u8);
    assert(eval_prefix(p, x, 5) == 170u8);
    assert(eval_prefix(p, x, 6) == 138u8);
    assert(eval_prefix(p, x, 7) == 79u8);
    assert(eval_prefix(p, x, 8) == 63u8);
    assert(eval_prefix(p, x, 9) == 73u8);
    assert(eval_prefix(p, x, 10) == 167u8);
    assert(eval_prefix(p, x, 11) == 159u8);
    assert(eval_prefix(p, x, 12) == 26u8);
    assert(eval_prefix(p, x, 13) == 225u8);
    assert(eval_prefix(p, x, 14) == 211u8);
    assert(eval_prefix(p, x, 15) == 7u8);
    assert(eval_prefix(p, x, 16) == 39u8);
    assert(eval_prefix(p, x, 17) == 204u8);
    assert(eval_prefix(p, x, 18) == 52u8);
    assert(eval_prefix(p, x, 19) == 238u8);
    assert(eval_prefix(p, x, 20) == 123u8);
    assert(eval_prefix(p, x, 21) == 0u8);
}

proof fn lemma_generator_20_root_19()
    ensures
        eval_prefix(generator_coeffs_20(), GF_LOGS[19], 21) == 0,
{
    lemma_sums_20();
    let p = generator_coeffs_20();
    let x = GF_LOGS[19];
    assert(eval_prefix(p, x, 0) == 0u8);
    assert(eval_prefix(p, x, 1) == 1u8);
    assert(eval_prefix(p, x, 2) == 194u8);
    assert(eval_prefix(p, x, 3) == 8u8);
    assert(eval_prefix(p, x, 4) == 26u8);
    assert(eval_prefix(p, x, 5) == 146u8);
    assert(eval_prefix(p, x, 6) == 20u8);
    assert(eval_prefix(p, x, 7) == 223u8);
    assert(eval_prefix(p, x, 8) == 187u8);
    assert(eval_prefix(p, x, 9) == 152u8);
    assert(eval_prefix(p, x, 10) == 85u8);
    assert(eval_prefix(p, x, 11) == 115u8);
    assert(eval_prefix(p, x, 12) == 238u8);
    assert(eval_prefix(p, x, 13) == 133u8);
    assert(eval_prefix(p, x, 14) == 146u8);
    assert(eval_prefix(p, x, 15) == 109u8);
    assert(eval_prefix(p, x, 16) == 173u8);
    assert(eval_prefix(p, x, 17) == 138u8);
    assert(eval_prefix(p, x, 18) == 33u8);
    assert(eval_prefix(p, x, 19) == 172u8);
    assert(eval_prefix(p, x, 20) == 179u8);
    assert(eval_prefix(p, x, 21) == 0u8);
}

/// The generator polynomial of degree 20 vanishes at the first 20 powers of `x`.
proof fn lemma_generator_20_roots()
    ensures
        forall|i: int|
            0 <= i < 20 ==> eval_prefix(generator_poly(20), #[trigger] GF_LOGS[i], 21) == 0,
{
    assert(generator_poly(20) =~= generator_coeffs_20());
    lemma_generator_20_root_0();
    lemma_generator_20_root_1();
    lemma_generator_20_root_2();
    lemma_generator_20_root_3();
    lemma_generator_20_root_4();
    lemma_generator_20_root_5();
    lemma_generator_20_root_6();
    lemma_generator_20_root_7();
    lemma_generator_20_root_8();
    lemma_generator_20_root_9();
    lemma_generator_20_root_10();
    lemma_generator_20_root_11();
    lemma_generator_20_root_12();
    lemma_generator_20_root_13();
    lemma_generator_20_root_14();
    lemma_generator_20_root_15();
    lemma_generator_20_root_16();
    lemma_generator_20_root_17();
    lemma_generator_20_root_18();
    lemma_generator_20_root_19();
}

/// The coefficients of the generator polynomial of degree 22.
spec fn generator_coeffs_22() -> Seq<u8> {
    seq![
        1u8, 89u8, 179u8, 131u8, 176u8, 182u8, 244u8, 19u8, 189u8, 69u8, 40u8, 28u8,
        137u8, 29u8, 123u8, 67u8, 253u8, 86u8, 218u8, 230u8, 26u8, 145u8, 245u8,
    ]
}

/// The sums that evaluating the generator polynomial of degree 22 at its roots takes.
proof fn lemma_sums_22()
    by (bit_vector)
    ensures
        0u8 ^ 1u8 == 1u8, 0u8 ^ 19u8 == 19u8, 0u8 ^ 176u8 == 176u8, 0u8 ^ 230u8 == 230u8,
        0u8 ^ 253u8 == 253u8, 1u8 ^ 40u8 == 41u8, 1u8 ^ 89u8 == 88u8, 1u8 ^ 145u8 == 144u8,
        2u8 ^ 89u8 == 91u8, 3u8 ^ 29u8 == 30u8, 3u8 ^ 176u8 == 179u8, 4u8 ^ 89u8 == 93u8,
        4u8 ^ 182u8 == 178u8, 5u8 ^ 179u8 == 182u8, 5u8 ^ 189u8 == 184u8, 6u8 ^ 40u8 == 46u8,
        6u8 ^ 189u8 == 187u8, 7u8 ^ 40u8 == 47u8, 8u8 ^ 89u8 == 81u8, 8u8 ^ 131u8 == 139u8,
        9u8 ^ 69u8 == 76u8, 10u8 ^ 131u8 == 137u8, 10u8 ^ 145u8 == 155u8, 10u8 ^ 179u8 == 185u8,
        11u8 ^ 19u8 == 24u8, 11u8 ^ 123u8 == 112u8, 11u8 ^ 189u8 == 182u8, 12u8 ^ 26u8 == 22u8,
        12u8 ^ 28u8 == 16u8, 12u8 ^ 176u8 == 188u8, 13u8 ^ 137u8 == 132u8, 13u8 ^ 244u8 == 249u8,
        14u8 ^ 179u8 == 189u8, 14u8 ^ 218u8 == 212u8, 15u8 ^ 69u8 == 74u8, 15u8 ^ 131u8 == 140u8,
        15u8 ^ 176u8 == 191u8, 15u8 ^ 179u8 == 188u8, 16u8 ^ 28u8 == 12u8, 16u8 ^ 89u8 == 73u8,
        16u8 ^ 189u8 == 173u8, 16u8 ^ 218u8 == 202u8, 17u8 ^ 244u8 == 229u8, 18u8 ^ 189u8 == 175u8,
        19u8 ^ 29u8 == 14u8, 19u8 ^ 89u8 == 74u8, 19u8 ^ 123u8 == 104u8, 20u8 ^ 86u8 == 66u8,
        22u8 ^ 26u8 == 12u8, 23u8 ^ 67u8 == 84u8, 23u8 ^ 176u8 == 167u8, 24u8 ^ 86u8 == 78u8,
        24u8 ^ 179u8 == 171u8, 25u8 ^ 131u8 == 154u8, 26u8 ^ 131u8 == 153u8, 27u8 ^ 145u8 == 138u8,
        28u8 ^ 86u8 == 74u8, 29u8 ^ 89u8 == 68u8, 29u8 ^ 137u8 == 148u8, 30u8 ^ 182u8 == 168u8,
        31u8 ^ 29u8 == 2u8, 31u8 ^ 123u8 == 100u8, 32u8 ^ 26u8 == 58u8, 32u8 ^ 89u8 == 121u8,
        33u8 ^ 230u8 == 199u8, 34u8 ^ 28u8 == 62u8, 34u8 ^ 67u8 == 97u8, 35u8 ^ 67u8 == 96u8,
        35u8 ^ 145u8 == 178u8, 35u8 ^ 244u8 == 215u8, 36u8 ^ 29u8 == 57u8, 36u8 ^ 189u8 == 153u8,
        37u8 ^ 189u8 == 152u8, 38u8 ^ 86u8 == 112u8, 38u8 ^ 89u8 == 127u8, 41u8 ^ 29u8 == 52u8,
        42u8 ^ 131u8 == 169u8, 43u8 ^ 29u8 == 54u8, 43u8 ^ 218u8 == 241u8, 44u8 ^ 176u8 == 156u8,
        44u8 ^ 253u8 == 209u8, 45u8 ^ 69u8 == 104u8, 45u8 ^ 89u8 == 116u8, 46u8 ^ 26u8 == 52u8,
        46u8 ^ 86u8 == 120u8, 46u8 ^ 218u8 == 244u8, 49u8 ^ 176u8 == 129u8, 49u8 ^ 182u8 == 135u8,
        51u8 ^ 176u8 == 131u8, 51u8 ^ 253u8 == 206u8, 52u8 ^ 40u8 == 28u8, 52u8 ^ 69u8 == 113u8,
        52u8 ^ 189u8 == 137u8, 53u8 ^ 218u8 == 239u8, 54u8 ^ 19u8 == 37u8, 54u8 ^ 26u8 == 44u8,
        55u8 ^ 137u8 == 190u8, 55u8 ^ 189u8 == 138u8, 56u8 ^ 19u8 == 43u8, 58u8 ^ 89u8 == 99u8,
        58u8 ^ 123u8 == 65u8, 59u8 ^ 40u8 == 19u8, 59u8 ^ 67u8 == 120u8, 59u8 ^ 218u8 == 225u8,
        60u8 ^ 69u8 == 121u8, 61u8 ^ 86u8 == 107u8, 61u8 ^ 145u8 == 172u8, 62u8 ^ 28u8 == 34u8,
        62u8 ^ 253u8 == 195u8, 63u8 ^ 26u8 == 37u8, 63u8 ^ 182u8 == 137u8, 64u8 ^ 89u8 == 25u8,
        64u8 ^ 179u8 == 243u8, 64u8 ^ 244u8 == 180u8, 66u8 ^ 86u8 == 20u8, 66u8 ^ 137u8 == 203u8,
        66u8 ^ 189u8 == 255u8, 66u8 ^ 218u8 == 152u8, 67u8 ^ 67u8 == 0u8, 68u8 ^ 176u8 == 244u8,
        68u8 ^ 179u8 == 247u8, 68u8 ^ 244u8 == 176u8, 69u8 ^ 28u8 == 89u8, 69u8 ^ 137u8 == 204u8,
        70u8 ^ 218u8 == 156u8, 70u8 ^ 230u8 == 160u8, 71u8 ^ 230u8 == 161u8, 72u8 ^ 86u8 == 30u8,
        72u8 ^ 244u8 == 188u8, 73u8 ^ 19u8 == 90u8, 74u8 ^ 218u8 == 144u8, 75u8 ^ 182u8 == 253u8,
        75u8 ^ 230u8 == 173u8, 76u8 ^ 89u8 == 21u8, 78u8 ^ 67u8 == 13u8, 78u8 ^ 69u8 == 11u8,
        78u8 ^ 86u8 == 24u8, 79u8 ^ 29u8 == 82u8, 79u8 ^ 131u8 == 204u8, 80u8 ^ 26u8 == 74u8,
        80u8 ^ 218u8 == 138u8, 81u8 ^ 86u8 == 7u8, 82u8 ^ 145u8 == 195u8, 83u8 ^ 67u8 == 16u8,
        83u8 ^ 86u8 == 5u8, 84u8 ^ 176u8 == 228u8, 84u8 ^ 218u8 == 142u8, 85u8 ^ 131u8 == 214u8,
        85u8 ^ 176u8 == 229u8, 85u8 ^ 230u8 == 179u8, 86u8 ^ 29u8 == 75u8, 86u8 ^ 40u8 == 126u8,
        86u8 ^ 230u8 == 176u8, 87u8 ^ 26u8 == 77u8, 88u8 ^ 179u8 == 235u8, 89u8 ^ 28u8 == 69u8,
        89u8 ^ 69u8 == 28u8, 89u8 ^ 123u8 == 34u8, 90u8 ^ 89u8 == 3u8, 90u8 ^ 253u8 == 167u8,
        91u8 ^ 40u8 == 115u8, 91u8 ^ 69u8 == 30u8, 91u8 ^ 230u8 == 189u8, 91u8 ^ 253u8 == 166u8,
        92u8 ^ 123u8 == 39u8, 93u8 ^ 244u8 == 169u8, 95u8 ^ 29u8 == 66u8, 95u8 ^ 69u8 == 26u8,
        95u8 ^ 253u8 == 162u8, 96u8 ^ 123u8 == 27u8, 97u8 ^ 28u8 == 125u8, 98u8 ^ 40u8 == 74u8,
        98u8 ^ 218u8 == 184u8, 99u8 ^ 145u8 == 242u8, 99u8 ^ 182u8 == 213u8, 100u8 ^ 69u8 == 33u8,
        100u8 ^ 123u8 == 31u8, 100u8 ^ 145u8 == 245u8, 101u8 ^ 67u8 == 38u8, 101u8 ^ 145u8 == 244u8,
        101u8 ^ 182u8 == 211u8, 103u8 ^ 179u8 == 212u8, 104u8 ^ 145u8 == 249u8, 104u8 ^ 176u8 == 216u8,
        105u8 ^ 29u8 == 116u8, 105u8 ^ 131u8 == 234u8, 105u8 ^ 137u8 == 224u8, 105u8 ^ 179u8 == 218u8,
        105u8 ^ 218u8 == 179u8, 106u8 ^ 28u8 == 118u8, 106u8 ^ 230u8 == 140u8, 107u8 ^ 28u8 == 119u8,
        107u8 ^ 131u8 == 232u8, 108u8 ^ 19u8 == 127u8, 110u8 ^ 19u8 == 125u8, 110u8 ^ 28u8 == 114u8,
        110u8 ^ 244u8 == 154u8, 111u8 ^ 218u8 == 181u8, 112u8 ^ 67u8 == 51u8, 112u8 ^ 244u8 == 132u8,
        113u8 ^ 40u8 == 89u8, 113u8 ^ 230u8 == 151u8, 114u8 ^ 28u8 == 110u8, 115u8 ^ 253u8 == 142u8,
        116u8 ^ 89u8 == 45u8, 116u8 ^ 244u8 == 128u8, 117u8 ^ 89u8 == 44u8, 118u8 ^ 28u8 == 106u8,
        118u8 ^ 182u8 == 192u8, 119u8 ^ 26u8 == 109u8, 119u8 ^ 28u8 == 107u8, 119u8 ^ 67u8 == 52u8,
        119u8 ^ 137u8 == 254u8, 120u8 ^ 253u8 == 133u8, 123u8 ^ 179u8 == 200u8, 124u8 ^ 131u8 == 255u8,
        125u8 ^ 28u8 == 97u8, 125u8 ^ 230u8 == 155u8, 126u8 ^ 26u8 == 100u8, 126u8 ^ 145u8 == 239u8,
        128u8 ^ 19u8 == 147u8, 128u8 ^ 89u8 == 217u8, 129u8 ^ 26u8 == 155u8, 129u8 ^ 67u8 == 194u8,
        129u8 ^ 69u8 == 196u8, 129u8 ^ 137u8 == 8u8, 129u8 ^ 253u8 == 124u8, 130u8 ^ 176u8 == 50u8,
        131u8 ^ 131u8 == 0u8, 131u8 ^ 145u8 == 18u8, 131u8 ^ 182u8 == 53u8, 132u8 ^ 86u8 == 210u8,
        132u8 ^ 137u8 == 13u8, 133u8 ^ 189u8 == 56u8, 134u8 ^ 19u8 == 149u8, 134u8 ^ 189u8 == 59u8,
        135u8 ^ 67u8 == 196u8, 135u8 ^ 69u8 == 194u8, 135u8 ^ 89u8 == 222u8, 135u8 ^ 182u8 == 49u8,
        136u8 ^ 67u8 == 203u8, 136u8 ^ 179u8 == 59u8, 137u8 ^ 131u8 == 10u8, 137u8 ^ 189u8 == 52u8,
        139u8 ^ 19u8 == 152u8, 139u8 ^ 40u8 == 163u8, 140u8 ^ 131u8 == 15u8, 140u8 ^ 230u8 == 106u8,
        141u8 ^ 176u8 == 61u8, 142u8 ^ 29u8 == 147u8, 142u8 ^ 123u8 == 245u8, 142u8 ^ 131u8 == 13u8,
        143u8 ^ 176u8 == 63u8, 144u8 ^ 86u8 == 198u8, 145u8 ^ 86u8 == 199u8, 147u8 ^ 40u8 == 187u8,
        147u8 ^ 69u8 == 214u8, 148u8 ^ 67u8 == 215u8, 148u8 ^ 131u8 == 23u8, 148u8 ^ 182u8 == 34u8,
        148u8 ^ 189u8 == 41u8, 150u8 ^ 29u8 == 139u8, 150u8 ^ 137u8 == 31u8, 151u8 ^ 137u8 == 30u8,
        152u8 ^ 40u8 == 176u8, 152u8 ^ 89u8 == 193u8, 152u8 ^ 137u8 == 17u8, 152u8 ^ 145u8 == 9u8,
        152u8 ^ 230u8 == 126u8, 153u8 ^ 26u8 == 131u8, 153u8 ^ 123u8 == 226u8, 153u8 ^ 176u8 == 41u8,
        154u8 ^ 19u8 == 137u8, 154u8 ^ 123u8 == 225u8, 155u8 ^ 19u8 == 136u8, 155u8 ^ 179u8 == 40u8,
        155u8 ^ 230u8 == 125u8, 156u8 ^ 137u8 == 21u8, 157u8 ^ 189u8 == 32u8, 158u8 ^ 69u8 == 219u8,
        158u8 ^ 123u8 == 229u8, 158u8 ^ 179u8 == 45u8, 160u8 ^ 40u8 == 136u8, 161u8 ^ 67u8 == 226u8,
        161u8 ^ 218u8 == 123u8, 163u8 ^ 29u8 == 190u8, 163u8 ^ 218u8 == 121u8, 163u8 ^ 253u8 == 94u8,
        164u8 ^ 29u8 == 185u8, 164u8 ^ 176u8 == 20u8, 164u8 ^ 244u8 == 80u8, 165u8 ^ 131u8 == 38u8,
        165u8 ^ 137u8 == 44u8, 165u8 ^ 182u8 == 19u8, 166u8 ^ 26u8 == 188u8, 166u8 ^ 69u8 == 227u8,
        166u8 ^ 182u8 == 16u8, 167u8 ^ 131u8 == 36u8, 167u8 ^ 182u8 == 17u8, 169u8 ^ 28u8 == 181u8,
        170u8 ^ 67u8 == 233u8, 170u8 ^ 137u8 == 35u8, 170u8 ^ 176u8 == 26u8, 171u8 ^ 69u8 == 238u8,
        172u8 ^ 86u8 == 250u8, 172u8 ^ 145u8 == 61u8, 172u8 ^ 244u8 == 88u8, 173u8 ^ 218u8 == 119u8,
        174u8 ^ 230u8 == 72u8, 175u8 ^ 28u8 == 179u8, 175u8 ^ 29u8 == 178u8, 175u8 ^ 69u8 == 234u8,
        175u8 ^ 179u8 == 28u8, 175u8 ^ 218u8 == 117u8, 176u8 ^ 26u8 == 170u8, 176u8 ^ 29u8 == 173u8,
        176u8 ^ 230u8 == 86u8, 177u8 ^ 19u8 == 162u8, 177u8 ^ 29u8 == 172u8, 177u8 ^ 218u8 == 107u8,
        178u8 ^ 131u8 == 49u8, 178u8 ^ 179u8 == 1u8, 179u8 ^ 28u8 == 175u8, 179u8 ^ 67u8 == 240u8,
        180u8 ^ 19u8 == 167u8, 180u8 ^ 89u8 == 237u8, 180u8 ^ 230u8 == 82u8, 180u8 ^ 253u8 == 73u8,
        181u8 ^ 28u8 == 169u8, 181u8 ^ 145u8 == 36u8, 181u8 ^ 230u8 == 83u8, 182u8 ^ 179u8 == 5u8,
        182u8 ^ 244u8 == 66u8, 183u8 ^ 19u8 == 164u8, 183u8 ^ 40u8 == 159u8, 183u8 ^ 67u8 == 244u8,
        183u8 ^ 244u8 == 67u8, 184u8 ^ 69u8 == 253u8, 184u8 ^ 86u8 == 238u8, 184u8 ^ 189u8 == 5u8,
        184u8 ^ 253u8 == 69u8, 185u8 ^ 26u8 == 163u8, 185u8 ^ 123u8 == 194u8, 186u8 ^ 40u8 == 146u8,
        186u8 ^ 86u8 == 236u8, 186u8 ^ 145u8 == 43u8, 187u8 ^ 40u8 == 147u8, 187u8 ^ 86u8 == 237u8,
        187u8 ^ 176u8 == 11u8, 188u8 ^ 218u8 == 102u8, 189u8 ^ 29u8 == 160u8, 189u8 ^ 137u8 == 52u8,
        190u8 ^ 176u8 == 14u8, 194u8 ^ 26u8 == 216u8, 194u8 ^ 40u8 == 234u8, 194u8 ^ 137u8 == 75u8,
        195u8 ^ 189u8 == 126u8, 196u8 ^ 123u8 == 191u8, 196u8 ^ 230u8 == 34u8, 197u8 ^ 26u8 == 223u8,
        198u8 ^ 28u8 == 218u8, 198u8 ^ 244u8 == 50u8, 199u8 ^ 29u8 == 218u8, 199u8 ^ 145u8 == 86u8,
        199u8 ^ 182u8 == 113u8, 200u8 ^ 131u8 == 75u8, 200u8 ^ 145u8 == 89u8, 201u8 ^ 69u8 == 140u8,
        201u8 ^ 244u8 == 61u8, 203u8 ^ 230u8 == 45u8, 204u8 ^ 29u8 == 209u8, 204u8 ^ 131u8 == 79u8,
        205u8 ^ 89u8 == 148u8, 206u8 ^ 244u8 == 58u8, 207u8 ^ 182u8 == 121u8, 209u8 ^ 19u8 == 194u8,
        209u8 ^ 123u8 == 170u8, 210u8 ^ 19u8 == 193u8, 210u8 ^ 230u8 == 52u8, 211u8 ^ 86u8 == 133u8,
        212u8 ^ 19u8 == 199u8, 212u8 ^ 145u8 == 69u8, 213u8 ^ 69u8 == 144u8, 213u8 ^ 86u8 == 131u8,
        213u8 ^ 179u8 == 102u8, 213u8 ^ 182u8 == 99u8, 214u8 ^ 40u8 == 254u8, 216u8 ^ 182u8 == 110u8,
        216u8 ^ 253u8 == 37u8, 217u8 ^ 145u8 == 72u8, 218u8 ^ 26u8 == 192u8, 218u8 ^ 28u8 == 198u8,
        218u8 ^ 218u8 == 0u8, 220u8 ^ 67u8 == 159u8, 222u8 ^ 179u8 == 109u8, 223u8 ^ 137u8 == 86u8,
        224u8 ^ 67u8 == 163u8, 224u8 ^ 253u8 == 29u8, 227u8 ^ 253u8 == 30u8, 228u8 ^ 123u8 == 159u8,
        228u8 ^ 179u8 == 87u8, 229u8 ^ 26u8 == 255u8, 229u8 ^ 69u8 == 160u8, 229u8 ^ 123u8 == 158u8,
        230u8 ^ 123u8 == 157u8, 232u8 ^ 19u8 == 251u8, 232u8 ^ 89u8 == 177u8, 232u8 ^ 145u8 == 121u8,
        233u8 ^ 26u8 == 243u8, 233u8 ^ 253u8 == 20u8, 234u8 ^ 19u8 == 249u8, 235u8 ^ 131u8 == 104u8,
        235u8 ^ 145u8 == 122u8, 236u8 ^ 29u8 == 241u8, 236u8 ^ 218u8 == 54u8, 238u8 ^ 40u8 == 198u8,
        238u8 ^ 179u8 == 93u8, 238u8 ^ 189u8 == 83u8, 238u8 ^ 253u8 == 19u8, 239u8 ^ 40u8 == 199u8,
        240u8 ^ 29u8 == 237u8, 240u8 ^ 40u8 == 216u8, 241u8 ^ 137u8 == 120u8, 242u8 ^ 182u8 == 68u8,
        243u8 ^ 67u8 == 176u8, 244u8 ^ 26u8 == 238u8, 244u8 ^ 123u8 == 143u8, 244u8 ^ 244u8 == 0u8,
        245u8 ^ 137u8 == 124u8, 245u8 ^ 245u8 == 0u8, 246u8 ^ 182u8 == 64u8, 248u8 ^ 244u8 == 12u8,
        249u8 ^ 69u8 == 188u8, 250u8 ^ 253u8 == 7u8, 251u8 ^ 176u8 == 75u8, 252u8 ^ 137u8 == 117u8,
        252u8 ^ 189u8 == 65u8, 253u8 ^ 123u8 == 134u8, 253u8 ^ 176u8 == 77u8, 254u8 ^ 189u8 == 67u8,
        254u8 ^ 230u8 == 24u8, 254u8 ^ 253u8 == 3u8, 255u8 ^ 19u8 == 236u8, 255u8 ^ 244u8 == 11u8,
{
}

proof fn lemma_generator_22_root_0()
    ensures
        eval_prefix(generator_coeffs_22(), GF_LOGS[0], 23) == 0,
{
    lemma_sums_22();
    let p = generator_coeffs_22();
    let x = GF_LOGS[0];
    assert(eval_prefix(p, x, 0) == 0u8);
    assert(eval_prefix(p, x, 1) == 1u8);
    assert(eval_prefix(p, x, 2) == 88u8);
    assert(eval_prefix(p, x, 3) == 235u8);
    assert(eval_prefix(p, x, 4) == 104u8);
    assert(eval_prefix(p, x, 5) == 216u8);
    assert(eval_prefix(p, x, 6) == 110u8);
    assert(eval_prefix(p, x, 7) == 154u8);
    assert(eval_prefix(p, x, 8) == 137u8);
    assert(eval_prefix(p, x, 9) == 52u8);
    assert(eval_prefix(p, x, 10) == 113u8);
    assert(eval_prefix(p, x, 11) == 89u8);
    assert(eval_prefix(p, x, 12) == 69u8);
    assert(eval_prefix(p, x, 13) == 204u8);
    assert(eval_prefix(p, x, 14) == 209u8);
    assert(eval_prefix(p, x, 15) == 170u8);
    assert(eval_prefix(p, x, 16) == 233u8);
    assert(eval_prefix(p, x, 17) == 20u8);
    assert(eval_prefix(p, x, 18) == 66u8);
    assert(eval_prefix(p, x, 19) == 152u8);
    assert(eval_prefix(p, x, 20) == 126u8);
    assert(eval_prefix(p, x, 21) == 100u8);
    assert(eval_prefix(p, x, 22) == 245u8);
    assert(eval_prefix(p, x, 23) == 0u8);
}

proof fn lemma_generator_22_root_1()
    ensures
        eval_prefix(generator_coeffs_22(), GF_LOGS[1], 23) == 0,
{
    lemma_sums_22();
    let p = generator_coeffs_22();
    let x = GF_LOGS[1];
    assert(eval_prefix(p, x, 0) == 0u8);
    assert(eval_prefix(p, x, 1) == 1u8);
    assert(eval_prefix(p, x, 2) == 91u8);
    assert(eval_prefix(p, x, 3) == 5u8);
    assert(eval_prefix(p, x, 4) == 137u8);
    assert(eval_prefix(p, x, 5) == 191u8);
    assert(eval_prefix(p, x, 6) == 213u8);
    assert(eval_prefix(p, x, 7) == 67u8);
    assert(eval_prefix(p, x, 8) == 149u8);
    assert(eval_prefix(p, x, 9) == 138u8);
    assert(eval_prefix(p, x, 10) == 76u8);
    assert(eval_prefix(p, x, 11) == 176u8);
    assert(eval_prefix(p, x, 12) == 97u8);
    assert(eval_prefix(p, x, 13) == 75u8);
    assert(eval_prefix(p, x, 14) == 139u8);
    assert(eval_prefix(p, x, 15) == 112u8);
    assert(eval_prefix(p, x, 16) == 163u8);
    assert(eval_prefix(p, x, 17) == 166u8);
    assert(eval_prefix(p, x, 18) == 7u8);
    assert(eval_prefix(p, x, 19) == 212u8);
    assert(eval_prefix(p, x, 20) == 83u8);
    assert(eval_prefix(p, x, 21) == 188u8);
    assert(eval_prefix(p, x, 22) == 244u8);
    assert(eval_prefix(p, x, 23) == 0u8);
}

proof fn lemma_generator_22_root_2()
    ensures
        eval_prefix(generator_coeffs_22(), GF_LOGS[2], 23) == 0,
{
    lemma_sums_22();
    let p = generator_coeffs_22();
    let x = GF_LOGS[2];
    assert(eval_prefix(p, x, 0) == 0u8);
    assert(eval_prefix(p, x, 1) == 1u8);
    assert(eval_prefix(p, x, 2) == 93u8);
    assert(eval_prefix(p, x, 3) == 218u8);
    assert(eval_prefix(p, x, 4) == 204u8);
    assert(eval_prefix(p, x, 5) == 167u8);
    assert(eval_prefix(p, x, 6) == 16u8);
    assert(eval_prefix(p, x, 7) == 180u8);
    assert(eval_prefix(p, x, 8) == 249u8);
    assert(eval_prefix(p, x, 9) == 126u8);
    assert(eval_prefix(p, x, 10) == 160u8);
    assert(eval_prefix(p, x, 11) == 146u8);
    assert(eval_prefix(p, x, 12) == 110u8);
    assert(eval_prefix(p, x, 13) == 44u8);
    assert(eval_prefix(p, x, 14) == 173u8);
    assert(eval_prefix(p, x, 15) == 245u8);
    assert(eval_prefix(p, x, 16) == 176u8);
    assert(eval_prefix(p, x, 17) == 7u8);
    assert(eval_prefix(p, x, 18) == 74u8);
    assert(eval_prefix(p, x, 19) == 239u8);
    assert(eval_prefix(p, x, 20) == 125u8);
    assert(eval_prefix(p, x, 21) == 243u8);
    assert(eval_prefix(p, x, 22) == 122u8);
    assert(eval_prefix(p, x, 23) == 0u8);
}

proof fn lemma_generator_22_root_3()
    ensures
        eval_prefix(generator_coeffs_22(), GF_LOGS[3], 23) == 0,
{
    lemma_sums_22();
    let p = generator_coeffs_22();
    let x = GF_LOGS[3];
    assert(eval_prefix(p, x, 0) == 0u8);
    assert(eval_prefix(p, x, 1) == 1u8);
    assert(eval_prefix(p, x, 2) == 81u8);
    assert(eval_prefix(p, x, 3) == 1u8);
    assert(eval_prefix(p, x, 4) == 139u8);
    assert(eval_prefix(p, x, 5) == 156u8);
    assert(eval_prefix(p, x, 6) == 34u8);
    assert(eval_prefix(p, x, 7) == 249u8);
    assert(eval_prefix(p, x, 8) == 136u8);
    assert(eval_prefix(p, x, 9) == 137u8);
    assert(eval_prefix(p, x, 10) == 121u8);
    assert(eval_prefix(p, x, 11) == 199u8);
    assert(eval_prefix(p, x, 12) == 106u8);
    assert(eval_prefix(p, x, 13) == 254u8);
    assert(eval_prefix(p, x, 14) == 190u8);
    assert(eval_prefix(p, x, 15) == 226u8);
    assert(eval_prefix(p, x, 16) == 0u8);
    assert(eval_prefix(p, x, 17) == 253u8);
    assert(eval_prefix(p, x, 18) == 237u8);
    assert(eval_prefix(p, x, 19) == 225u8);
    assert(eval_prefix(p, x, 20) == 189u8);
    assert(eval_prefix(p, x, 21) == 155u8);
    assert(eval_prefix(p, x, 22) == 61u8);
    assert(eval_prefix(p, x, 23) == 0u8);
}

proof fn lemma_generator_22_root_4()
    ensures
        eval_prefix(generator_coeffs_22(), GF_LOGS[4], 23) == 0,
{
    lemma_sums_22();
    let p = generator_coeffs_22();
    let x = GF_LOGS[4];
    assert(eval_prefix(p, x, 0) == 0u8);
    assert(eval_prefix(p, x, 1) == 1u8);
    assert(eval_prefix(p, x, 2) == 73u8);
    assert(eval_prefix(p, x, 3) == 87u8);
    assert(eval_prefix(p, x, 4) == 154u8);
    assert(eval_prefix(p, x, 5) == 229u8);
    assert(eval_prefix(p, x, 6) == 64u8);
    assert(eval_prefix(p, x, 7) == 128u8);
    assert(eval_prefix(p, x, 8) == 251u8);
    assert(eval_prefix(p, x, 9) == 182u8);
    assert(eval_prefix(p, x, 10) == 234u8);
    assert(eval_prefix(p, x, 11) == 46u8);
    assert(eval_prefix(p, x, 12) == 198u8);
    assert(eval_prefix(p, x, 13) == 117u8);
    assert(eval_prefix(p, x, 14) == 30u8);
    assert(eval_prefix(p, x, 15) == 134u8);
    assert(eval_prefix(p, x, 16) == 203u8);
    assert(eval_prefix(p, x, 17) == 209u8);
    assert(eval_prefix(p, x, 18) == 199u8);
    assert(eval_prefix(p, x, 19) == 54u8);
    assert(eval_prefix(p, x, 20) == 161u8);
    assert(eval_prefix(p, x, 21) == 216u8);
    assert(eval_prefix(p, x, 22) == 144u8);
    assert(eval_prefix(p, x, 23) == 0u8);
}

proof fn lemma_generator_22_root_5()
    ensures
        eval_prefix(generator_coeffs_22(), GF_LOGS[5], 23) == 0,
{
    lemma_sums_22();
    let p = generator_coeffs_22();
    let x = GF_LOGS[5];
    assert(eval_prefix(p, x, 0) == 0u8);
    assert(eval_prefix(p, x, 1) == 1u8);
    assert(eval_prefix(p, x, 2) == 121u8);
    assert(eval_prefix(p, x, 3) == 40u8);
    assert(eval_prefix(p, x, 4) == 234u8);
    assert(eval_prefix(p, x, 5) == 188u8);
    assert(eval_prefix(p, x, 6) == 168u8);
    assert(eval_prefix(p, x, 7) == 80u8);
    assert(eval_prefix(p, x, 8) == 193u8);
    assert(eval_prefix(p, x, 9) == 184u8);
    assert(eval_prefix(p, x, 10) == 219u8);
    assert(eval_prefix(p, x, 11) == 74u8);
    assert(eval_prefix(p, x, 12) == 169u8);
    assert(eval_prefix(p, x, 13) == 13u8);
    assert(eval_prefix(p, x, 14) == 160u8);
    assert(eval_prefix(p, x, 15) == 194u8);
    assert(eval_prefix(p, x, 16) == 38u8);
    assert(eval_prefix(p, x, 17) == 73u8);
    assert(eval_prefix(p, x, 18) == 131u8);
    assert(eval_prefix(p, x, 19) == 119u8);
    assert(eval_prefix(p, x, 20) == 160u8);
    assert(eval_prefix(p, x, 21) == 163u8);
    assert(eval_prefix(p, x, 22) == 72u8);
    assert(eval_prefix(p, x, 23) == 0u8);
}

proof fn lemma_generator_22_root_6()
    ensures
        eval_prefix(generator_coeffs_22(), GF_LOGS[6], 23) == 0,
{
    lemma_sums_22();
    let p = generator_coeffs_22();
    let x = GF_LOGS[6];
    assert(eval_prefix(p, x, 0) == 0u8);
    assert(eval_prefix(p, x, 1) == 1u8);
    assert(eval_prefix(p, x, 2) == 25u8);
    assert(eval_prefix(p, x, 3) == 189u8);
    assert(eval_prefix(p, x, 4) == 255u8);
    assert(eval_prefix(p, x, 5) == 129u8);
    assert(eval_prefix(p, x, 6) == 113u8);
    assert(eval_prefix(p, x, 7) == 229u8);
    assert(eval_prefix(p, x, 8) == 236u8);
    assert(eval_prefix(p, x, 9) == 56u8);
    assert(eval_prefix(p, x, 10) == 227u8);
    assert(eval_prefix(p, x, 11) == 74u8);
    assert(eval_prefix(p, x, 12) == 107u8);
    assert(eval_prefix(p, x, 13) == 86u8);
    assert(eval_prefix(p, x, 14) == 57u8);
    assert(eval_prefix(p, x, 15) == 157u8);
    assert(eval_prefix(p, x, 16) == 215u8);
    assert(eval_prefix(p, x, 17) == 30u8);
    assert(eval_prefix(p, x, 18) == 133u8);
    assert(eval_prefix(p, x, 19) == 0u8);
    assert(eval_prefix(p, x, 20) == 230u8);
    assert(eval_prefix(p, x, 21) == 37u8);
    assert(eval_prefix(p, x, 22) == 36u8);
    assert(eval_prefix(p, x, 23) == 0u8);
}

proof fn lemma_generator_22_root_7()
    ensures
        eval_prefix(generator_coeffs_22(), GF_LOGS[7], 23) == 0,
{
    lemma_sums_22();
    let p = generator_coeffs_22();
    let x = GF_LOGS[7];
    assert(eval_prefix(p, x, 0) == 0u8);
    assert(eval_prefix(p, x, 1) == 1u8);
    assert(eval_prefix(p, x, 2) == 217u8);
    assert(eval_prefix(p, x, 3) == 59u8);
    assert(eval_prefix(p, x, 4) == 79u8);
    assert(eval_prefix(p, x, 5) == 228u8);
    assert(eval_prefix(p, x, 6) == 213u8);
    assert(eval_prefix(p, x, 7) == 50u8);
    assert(eval_prefix(p, x, 8) == 43u8);
    assert(eval_prefix(p, x, 9) == 153u8);
    assert(eval_prefix(p, x, 10) == 74u8);
    assert(eval_prefix(p, x, 11) == 198u8);
    assert(eval_prefix(p, x, 12) == 175u8);
    assert(eval_prefix(p, x, 13) == 132u8);
    assert(eval_prefix(p, x, 14) == 52u8);
    assert(eval_prefix(p, x, 15) == 100u8);
    assert(eval_prefix(p, x, 16) == 51u8);
    assert(eval_prefix(p, x, 17) == 69u8);
    assert(eval_prefix(p, x, 18) == 107u8);
    assert(eval_prefix(p, x, 19) == 121u8);
    assert(eval_prefix(p, x, 20) == 176u8);
    assert(eval_prefix(p, x, 21) == 44u8);
    assert(eval_prefix(p, x, 22) == 18u8);
    assert(eval_prefix(p, x, 23) == 0u8);
}

proof fn lemma_generator_22_root_8()
    ensures
        eval_prefix(generator_coeffs_22(), GF_LOGS[8], 23) == 0,
{
    lemma_sums_22();
    let p = generator_coeffs_22();
    let x = GF_LOGS[8];
    assert(eval_prefix(p, x, 0) == 0u8);
    assert(eval_prefix(p, x, 1) == 1u8);
    assert(eval_prefix(p, x, 2) == 68u8);
    assert(eval_prefix(p, x, 3) == 212u8);
    assert(eval_prefix(p, x, 4) == 15u8);
    assert(eval_prefix(p, x, 5) == 11u8);
    assert(eval_prefix(p, x, 6) == 121u8);
    assert(eval_prefix(p, x, 7) == 88u8);
    assert(eval_prefix(p, x, 8) == 37u8);
    assert(eval_prefix(p, x, 9) == 83u8);
    assert(eval_prefix(p, x, 10) == 188u8);
    assert(eval_prefix(p, x, 11) == 216u8);
    assert(eval_prefix(p, x, 12) == 12u8);
    assert(eval_prefix(p, x, 13) == 21u8);
    assert(eval_prefix(p, x, 14) == 185u8);
    assert(eval_prefix(p, x, 15) == 226u8);
    assert(eval_prefix(p, x, 16) == 203u8);
    assert(eval_prefix(p, x, 17) == 7u8);
    assert(eval_prefix(p, x, 18) == 5u8);
    assert(eval_prefix(p, x, 19) == 179u8);
    assert(eval_prefix(p, x, 20) == 173u8);
    assert(eval_prefix(p, x, 21) == 58u8);
    assert(eval_prefix(p, x, 22) == 9u8);
    assert(eval_prefix(p, x, 23) == 0u8);
}

proof fn lemma_generator_22_root_9()
    ensures
        eval_prefix(generator_coeffs_22(), GF_LOGS[9], 23) == 0,
{
    lemma_sums_22();
    let p = generator_coeffs_22();
    let x = GF_LOGS[9];
    assert(eval_prefix(p, x, 0) == 0u8);
    assert(eval_prefix(p, x, 1) == 1u8);
    assert(eval_prefix(p, x, 2) == 99u8);
    assert(eval_prefix(p, x, 3) == 200u8);
    assert(eval_prefix(p, x, 4) == 36u8);
    assert(eval_prefix(p, x, 5) == 75u8);
    assert(eval_prefix(p, x, 6) == 19u8);
    assert(eval_prefix(p, x, 7) == 61u8);
    assert(eval_prefix(p, x, 8) == 152u8);
    assert(eval_prefix(p, x, 9) == 187u8);
    assert(eval_prefix(p, x, 10) == 30u8);
    assert(eval_prefix(p, x, 11) == 254u8);
    assert(eval_prefix(p, x, 12) == 179u8);
    assert(eval_prefix(p, x, 13) == 31u8);
    assert(eval_prefix(p, x, 14) == 241u8);
    assert(eval_prefix(p, x, 15) == 191u8);
    assert(eval_prefix(p, x, 16) == 240u8);
    assert(eval_prefix(p, x, 17) == 3u8);
    assert(eval_prefix(p, x, 18) == 24u8);
    assert(eval_prefix(p, x, 19) == 144u8);
    assert(eval_prefix(p, x, 20) == 45u8);
    assert(eval_prefix(p, x, 21) == 22u8);
    assert(eval_prefix(p, x, 22) == 138u8);
    assert(eval_prefix(p, x, 23) == 0u8);
}

proof fn lemma_generator_22_root_10()
    ensures
        eval_prefix(generator_coeffs_22(), GF_LOGS[10], 23) == 0,
{
    lemma_sums_22();
    let p = generator_coeffs_22();
    let x = GF_LOGS[10];
    assert(eval_prefix(p, x, 0) == 0u8);
    assert(eval_prefix(p, x, 1) == 1u8);
    assert(eval_prefix(p, x, 2) == 45u8);
    assert(eval_prefix(p, x, 3) == 171u8);
    assert(eval_prefix(p, x, 4) == 38u8);
    assert(eval_prefix(p, x, 5) == 179u8);
    assert(eval_prefix(p, x, 6) == 135u8);
    assert(eval_prefix(p, x, 7) == 61u8);
    assert(eval_prefix(p, x, 8) == 24u8);
    assert(eval_prefix(p, x, 9) == 41u8);
    assert(eval_prefix(p, x, 10) == 144u8);
    assert(eval_prefix(p, x, 11) == 163u8);
    assert(eval_prefix(p, x, 12) == 62u8);
    assert(eval_prefix(p, x, 13) == 30u8);
    assert(eval_prefix(p, x, 14) == 172u8);
    assert(eval_prefix(p, x, 15) == 143u8);
    assert(eval_prefix(p, x, 16) == 13u8);
    assert(eval_prefix(p, x, 17) == 195u8);
    assert(eval_prefix(p, x, 18) == 30u8);
    assert(eval_prefix(p, x, 19) == 107u8);
    assert(eval_prefix(p, x, 20) == 151u8);
    assert(eval_prefix(p, x, 21) == 192u8);
    assert(eval_prefix(p, x, 22) == 69u8);
    assert(eval_prefix(p, x, 23) == 0u8);
}

proof fn lemma_generator_22_root_11()
    ensures
        eval_prefix(generator_coeffs_22(), GF_LOGS[11], 23) == 0,
{
    lemma_sums_22();
    let p = generator_coeffs_22();
    let x = GF_LOGS[11];
    assert(eval_prefix(p, x, 0) == 0u8);
    assert(eval_prefix(p, x, 1) == 1u8);
    assert(eval_prefix(p, x, 2) == 177u8);
    assert(eval_prefix(p, x, 3) == 28u8);
    assert(eval_prefix(p, x, 4) == 49u8);
    assert(eval_prefix(p, x, 5) == 50u8);
    assert(eval_prefix(p, x, 6) == 17u8);
    assert(eval_prefix(p, x, 7) == 58u8);
    assert(eval_prefix(p, x, 8) == 167u8);
    assert(eval_prefix(p, x, 9) == 126u8);
    assert(eval_prefix(p, x, 10) == 238u8);
    assert(eval_prefix(p, x, 11) == 136u8);
    assert(eval_prefix(p, x, 12) == 34u8);
    assert(eval_prefix(p, x, 13) == 8u8);
    assert(eval_prefix(p, x, 14) == 14u8);
    assert(eval_prefix(p, x, 15) == 34u8);
    assert(eval_prefix(p, x, 16) == 194u8);
    assert(eval_prefix(p, x, 17) == 133u8);
    assert(eval_prefix(p, x, 18) == 20u8);
    assert(eval_prefix(p, x, 19) == 123u8);
    assert(eval_prefix(p, x, 20) == 34u8);
    assert(eval_prefix(p, x, 21) == 155u8);
    assert(eval_prefix(p, x, 22) == 172u8);
    assert(eval_prefix(p, x, 23) == 0u8);
}

proof fn lemma_generator_22_root_12()
    ensures
        eval_prefix(generator_coeffs_22(), GF_LOGS[12], 23) == 0,
{
    lemma_sums_22();
    let p = generator_coeffs_22();
    let x = GF_LOGS[12];
    assert(eval_prefix(p, x, 0) == 0u8);
    assert(eval_prefix(p, x, 1) == 1u8);
    assert(eval_prefix(p, x, 2) == 148u8);
    assert(eval_prefix(p, x, 3) == 182u8);
    assert(eval_prefix(p, x, 4) == 153u8);
    assert(eval_prefix(p, x, 5) == 77u8);
    assert(eval_prefix(p, x, 6) == 99u8);
    assert(eval_prefix(p, x, 7) == 11u8);
    assert(eval_prefix(p, x, 8) == 127u8);
    assert(eval_prefix(p, x, 9) == 59u8);
    assert(eval_prefix(p, x, 10) == 253u8);
    assert(eval_prefix(p, x, 11) == 115u8);
    assert(eval_prefix(p, x, 12) == 175u8);
    assert(eval_prefix(p, x, 13) == 52u8);
    assert(eval_prefix(p, x, 14) == 218u8);
    assert(eval_prefix(p, x, 15) == 225u8);
    assert(eval_prefix(p, x, 16) == 97u8);
    assert(eval_prefix(p, x, 17) == 133u8);
    assert(eval_prefix(p, x, 18) == 210u8);
    assert(eval_prefix(p, x, 19) == 102u8);
    assert(eval_prefix(p, x, 20) == 199u8);
    assert(eval_prefix(p, x, 21) == 52u8);
    assert(eval_prefix(p, x, 22) == 86u8);
    assert(eval_prefix(p, x, 23) == 0u8);
}

proof fn lemma_generator_22_root_13()
    ensures
        eval_prefix(generator_coeffs_22(), GF_LOGS[13], 23) == 0,
{
    lemma_sums_22();
    let p = generator_coeffs_22();
    let x = GF_LOGS[13];
    assert(eval_prefix(p, x, 0) == 0u8);
    assert(eval_prefix(p, x, 1) == 1u8);
    assert(eval_prefix(p, x, 2) == 222u8);
    assert(eval_prefix(p, x, 3) == 188u8);
    assert(eval_prefix(p, x, 4) == 232u8);
    assert(eval_prefix(p, x, 5) == 63u8);
    assert(eval_prefix(p, x, 6) == 253u8);
    assert(eval_prefix(p, x, 7) == 66u8);
    assert(eval_prefix(p, x, 8) == 90u8);
    assert(eval_prefix(p, x, 9) == 32u8);
    assert(eval_prefix(p, x, 10) == 104u8);
    assert(eval_prefix(p, x, 11) == 19u8);
    assert(eval_prefix(p, x, 12) == 16u8);
    assert(eval_prefix(p, x, 13) == 17u8);
    assert(eval_prefix(p, x, 14) == 2u8);
    assert(eval_prefix(p, x, 15) == 104u8);
    assert(eval_prefix(p, x, 16) == 120u8);
    assert(eval_prefix(p, x, 17) == 94u8);
    assert(eval_prefix(p, x, 18) == 237u8);
    assert(eval_prefix(p, x, 19) == 244u8);
    assert(eval_prefix(p, x, 20) == 155u8);
    assert(eval_prefix(p, x, 21) == 238u8);
    assert(eval_prefix(p, x, 22) == 43u8);
    assert(eval_prefix(p, x, 23) == 0u8);
}

proof fn lemma_generator_22_root_14()
    ensures
        eval_prefix(generator_coeffs_22(), GF_LOGS[14], 23) == 0,
{
    lemma_sums_22();
    let p = generator_coeffs_22();
    let x = GF_LOGS[14];
    assert(eval_prefix(p, x, 0) == 0u8);
    assert(eval_prefix(p, x, 1) == 1u8);
    assert(eval_prefix(p, x, 2) == 74u8);
    assert(eval_prefix(p, x, 3) == 185u8);
    assert(eval_prefix(p, x, 4) == 10u8);
    assert(eval_prefix(p, x, 5) == 14u8);
    assert(eval_prefix(p, x, 6) == 68u8);
    assert(eval_prefix(p, x, 7) == 12u8);
    assert(eval_prefix(p, x, 8) == 199u8);
    assert(eval_prefix(p, x, 9) == 5u8);
    assert(eval_prefix(p, x, 10) == 26u8);
    assert(eval_prefix(p, x, 11) == 187u8);
    assert(eval_prefix(p, x, 12) == 179u8);
    assert(eval_prefix(p, x, 13) == 190u8);
    assert(eval_prefix(p, x, 14) == 237u8);
    assert(eval_prefix(p, x, 15) == 39u8);
    assert(eval_prefix(p, x, 16) == 96u8);
    assert(eval_prefix(p, x, 17) == 19u8);
    assert(eval_prefix(p, x, 18) == 78u8);
    assert(eval_prefix(p, x, 19) == 156u8);
    assert(eval_prefix(p, x, 20) == 106u8);
    assert(eval_prefix(p, x, 21) == 74u8);
    assert(eval_prefix(p, x, 22) == 155u8);
    assert(eval_prefix(p, x, 23) == 0u8);
}

proof fn lemma_generator_22_root_15()
    ensures
        eval_prefix(generator_coeffs_22(), GF_LOGS[15], 23) == 0,
{
    lemma_sums_22();
    let p = generator_coeffs_22();
    let x = GF_LOGS[15];
    assert(eval_prefix(p, x, 0) == 0u8);
    assert(eval_prefix(p, x, 1) == 1u8);
    assert(eval_prefix(p, x, 2) == 127u8);
    assert(eval_prefix(p, x, 3) == 247u8);
    assert(eval_prefix(p, x, 4) == 0u8);
    assert(eval_prefix(p, x, 5) == 176u8);
    assert(eval_prefix(p, x, 6) == 178u8);
    assert(eval_prefix(p, x, 7) == 188u8);
    assert(eval_prefix(p, x, 8) == 162u8);
    assert(eval_prefix(p, x, 9) == 175u8);
    assert(eval_prefix(p, x, 10) == 196u8);
    assert(eval_prefix(p, x, 11) == 47u8);
    assert(eval_prefix(p, x, 12) == 119u8);
    assert(eval_prefix(p, x, 13) == 224u8);
    assert(eval_prefix(p, x, 14) == 54u8);
    assert(eval_prefix(p, x, 15) == 65u8);
    assert(eval_prefix(p, x, 16) == 16u8);
    assert(eval_prefix(p, x, 17) == 167u8);
    assert(eval_prefix(p, x, 18) == 250u8);
    assert(eval_prefix(p, x, 19) == 202u8);
    assert(eval_prefix(p, x, 20) == 24u8);
    assert(eval_prefix(p, x, 21) == 109u8);
    assert(eval_prefix(p, x, 22) == 195u8);
    assert(eval_prefix(p, x, 23) == 0u8);
}

proof fn lemma_generator_22_root_16()
    ensures
        eval_prefix(generator_coeffs_22(), GF_LOGS[16], 23) == 0,
{
    lemma_sums_22();
    let p = generator_coeffs_22();
    let x = GF_LOGS[16];
    assert(eval_prefix(p, x, 0) == 0u8);
    assert(eval_prefix(p, x, 1) == 1u8);
    assert(eval_prefix(p, x, 2) == 21u8);
    assert(eval_prefix(p, x, 3) == 102u8);
    assert(eval_prefix(p, x, 4) == 169u8);
    assert(eval_prefix(p, x, 5) == 26u8);
    assert(eval_prefix(p, x, 6) == 192u8);
    assert(eval_prefix(p, x, 7) == 215u8);
    assert(eval_prefix(p, x, 8) == 125u8);
    assert(eval_prefix(p, x, 9) == 173u8);
    assert(eval_prefix(p, x, 10) == 194u8);
    assert(eval_prefix(p, x, 11) == 147u8);
    assert(eval_prefix(p, x, 12) == 181u8);
    assert(eval_prefix(p, x, 13) == 224u8);
    assert(eval_prefix(p, x, 14) == 75u8);
    assert(eval_prefix(p, x, 15) == 31u8);
    assert(eval_prefix(p, x, 16) == 84u8);
    assert(eval_prefix(p, x, 17) == 142u8);
    assert(eval_prefix(p, x, 18) == 112u8);
    assert(eval_prefix(p, x, 19) == 241u8);
    assert(eval_prefix(p, x, 20) == 72u8);
    assert(eval_prefix(p, x, 21) == 170u8);
    assert(eval_prefix(p, x, 22) == 239u8);
    assert(eval_prefix(p, x, 23) == 0u8);
}

proof fn lemma_generator_22_root_17()
    ensures
        eval_prefix(generator_coeffs_22(), GF_LOGS[17], 23) == 0,
{
    lemma_sums_22();
    let p = generator_coeffs_22();
    let x = GF_LOGS[17];
    assert(eval_prefix(p, x, 0) == 0u8);
    assert(eval_prefix(p, x, 1) == 1u8);
    assert(eval_prefix(p, x, 2) == 193u8);
    assert(eval_prefix(p, x, 3) == 109u8);
    assert(eval_prefix(p, x, 4) == 214u8);
    assert(eval_prefix(p, x, 5) == 244u8);
    assert(eval_prefix(p, x, 6) == 53u8);
    assert(eval_prefix(p, x, 7) == 169u8);
    assert(eval_prefix(p, x, 8) == 90u8);
    assert(eval_prefix(p, x, 9) == 152u8);
    assert(eval_prefix(p, x, 10) == 11u8);
    assert(eval_prefix(p, x, 11) == 41u8);
    assert(eval_prefix(p, x, 12) == 218u8);
    assert(eval_prefix(p, x, 13) == 35u8);
    assert(eval_prefix(p, x, 14) == 66u8);
    assert(eval_prefix(p, x, 15) == 159u8);
    assert(eval_prefix(p, x, 16) == 226u8);
    assert(eval_prefix(p, x, 17) == 124u8);
    assert(eval_prefix(p, x, 18) == 238u8);
    assert(eval_prefix(p, x, 19) == 181u8);
    assert(eval_prefix(p, x, 20) == 52u8);
    assert(eval_prefix(p, x, 21) == 223u8);
    assert(eval_prefix(p, x, 22) == 249u8);
    assert(eval_prefix(p, x, 23) == 0u8);
}

proof fn lemma_generator_22_root_18()
    ensures
        eval_prefix(generator_coeffs_22(), GF_LOGS[18], 23) == 0,
{
    lemma_sums_22();
    let p = generator_coeffs_22();
    let x = GF_LOGS[18];
    assert(eval_prefix(p, x, 0) == 0u8);
    assert(eval_prefix(p, x, 1) == 1u8);
    assert(eval_prefix(p, x, 2) == 116u8);
    assert(eval_prefix(p, x, 3) == 171u8);
    assert(eval_prefix(p, x, 4) == 75u8);
    assert(eval_prefix(p, x, 5) == 61u8);
    assert(eval_prefix(p, x, 6) == 121u8);
    assert(eval_prefix(p, x, 7) == 0u8);
    assert(eval_prefix(p, x, 8) == 19u8);
    assert(eval_prefix(p, x, 9) == 32u8);
    assert(eval_prefix(p, x, 10) == 140u8);
    assert(eval_prefix(p, x, 11) == 234u8);
    assert(eval_prefix(p, x, 12) == 118u8);
    assert(eval_prefix(p, x, 13) == 203u8);
    assert(eval_prefix(p, x, 14) == 147u8);
    assert(eval_prefix(p, x, 15) == 229u8);
    assert(eval_prefix(p, x, 16) == 159u8);
    assert(eval_prefix(p, x, 17) == 162u8);
    assert(eval_prefix(p, x, 18) == 198u8);
    assert(eval_prefix(p, x, 19) == 184u8);
    assert(eval_prefix(p, x, 20) == 179u8);
    assert(eval_prefix(p, x, 21) == 77u8);
    assert(eval_prefix(p, x, 22) == 242u8);
    assert(eval_prefix(p, x, 23) == 0u8);
}

proof fn lemma_generator_22_root_19()
    ensures
        eval_prefix(generator_coeffs_22(), GF_LOGS[19], 23) == 0,
{
    lemma_sums_22();
    let p = generator_coeffs_22();
    let x = GF_LOGS[19];
    assert(eval_prefix(p, x, 0) == 0u8);
    assert(eval_prefix(p, x, 1) == 1u8);
    assert(eval_prefix(p, x, 2) == 3u8);
    assert(eval_prefix(p, x, 3) == 93u8);
    assert(eval_prefix(p, x, 4) == 140u8);
    assert(eval_prefix(p, x, 5) == 41u8);
    assert(eval_prefix(p, x, 6) == 137u8);
    assert(eval_prefix(p, x, 7) == 66u8);
    assert(eval_prefix(p, x, 8) == 164u8);
    assert(eval_prefix(p, x, 9) == 65u8);
    assert(eval_prefix(p, x, 10) == 28u8);
    assert(eval_prefix(p, x, 11) == 126u8);
    assert(eval_prefix(p, x, 12) == 114u8);
    assert(eval_prefix(p, x, 13) == 120u8);
    assert(eval_prefix(p, x, 14) == 178u8);
    assert(eval_prefix(p, x, 15) == 143u8);
    assert(eval_prefix(p, x, 16) == 52u8);
    assert(eval_prefix(p, x, 17) == 206u8);
    assert(eval_prefix(p, x, 18) == 120u8);
    assert(eval_prefix(p, x, 19) == 117u8);
    assert(eval_prefix(p, x, 20) == 140u8);
    assert(eval_prefix(p, x, 21) == 131u8);
    assert(eval_prefix(p, x, 22) == 121u8);
    assert(eval_prefix(p, x, 23) == 0u8);
}

proof fn lemma_generator_22_root_20()
    ensures
        eval_prefix(generator_coeffs_22(), GF_LOGS[20], 23) == 0,
{
    lemma_sums_22();
    let p = generator_coeffs_22();
    let x = GF_LOGS[20];
    assert(eval_prefix(p, x, 0) == 0u8);
    assert(eval_prefix(p, x, 1) == 1u8);
    assert(eval_prefix(p, x, 2) == 237u8);
    assert(eval_prefix(p, x, 3) == 45u8);
    assert(eval_prefix(p, x, 4) == 23u8);
    assert(eval_prefix(p, x, 5) == 20u8);
    assert(eval_prefix(p, x, 6) == 211u8);
    assert(eval_prefix(p, x, 7) == 176u8);
    assert(eval_prefix(p, x, 8) == 147u8);
    assert(eval_prefix(p, x, 9) == 255u8);
    assert(eval_prefix(p, x, 10) == 33u8);
    assert(eval_prefix(p, x, 11) == 159u8);
    assert(eval_prefix(p, x, 12) == 125u8);
    assert(eval_prefix(p, x, 13) == 148u8);
    assert(eval_prefix(p, x, 14) == 116u8);
    assert(eval_prefix(p, x, 15) == 27u8);
    assert(eval_prefix(p, x, 16) == 196u8);
    assert(eval_prefix(p, x, 17) == 29u8);
    assert(eval_prefix(p, x, 18) == 78u8);
    assert(eval_prefix(p, x, 19) == 138u8);
    assert(eval_prefix(p, x, 20) == 86u8);
    assert(eval_prefix(p, x, 21) == 12u8);
    assert(eval_prefix(p, x, 22) == 178u8);
    assert(eval_prefix(p, x, 23) == 0u8);
}

proof fn lemma_generator_22_root_21()
    ensures
        eval_prefix(generator_coeffs_22(), GF_LOGS[21], 23) == 0,
{
    lemma_sums_22();
    let p = generator_coeffs_22();
    let x = GF_LOGS[21];
    assert(eval_prefix(p, x, 0) == 0u8);
    assert(eval_prefix(p, x, 1) == 1u8);
    assert(eval_prefix(p, x, 2) == 44u8);
    assert(eval_prefix(p, x, 3) == 243u8);
    assert(eval_prefix(p, x, 4) == 13u8);
    assert(eval_prefix(p, x, 5) == 131u8);
    assert(eval_prefix(p, x, 6) == 49u8);
    assert(eval_prefix(p, x, 7) == 132u8);
    assert(eval_prefix(p, x, 8) == 194u8);
    assert(eval_prefix(p, x, 9) == 67u8);
    assert(eval_prefix(p, x, 10) == 214u8);
    assert(eval_prefix(p, x, 11) == 28u8);
    assert(eval_prefix(p, x, 12) == 89u8);
    assert(eval_prefix(p, x, 13) == 124u8);
    assert(eval_prefix(p, x, 14) == 82u8);
    assert(eval_prefix(p, x, 15) == 158u8);
    assert(eval_prefix(p, x, 16) == 244u8);
    assert(eval_prefix(p, x, 17) == 37u8);
    assert(eval_prefix(p, x, 18) == 236u8);
    assert(eval_prefix(p, x, 19) == 142u8);
    assert(eval_prefix(p, x, 20) == 82u8);
    assert(eval_prefix(p, x, 21) == 255u8);
    assert(eval_prefix(p, x, 22) == 89u8);
    assert(eval_prefix(p, x, 23) == 0u8);
}

/// The generator polynomial of degree 22 vanishes at the first 22 powers of `x`.
proof fn lemma_generator_22_roots()
    ensures
        forall|i: int|
            0 <= i < 22 ==> eval_prefix(generator_poly(22), #[trigger] GF_LOGS[i], 23) == 0,
{
    assert(generator_poly(22) =~= generator_coeffs_22());
    lemma_generator_22_root_0();
    lemma_generator_22_root_1();
    lemma_generator_22_root_2();
    lemma_generator_22_root_3();
    lemma_generator_22_root_4();
    lemma_generator_22_root_5();
    lemma_generator_22_root_6();
    lemma_generator_22_root_7();
    lemma_generator_22_root_8();
    lemma_generator_22_root_9();
    lemma_generator_22_root_10();
    lemma_generator_22_root_11();
    lemma_generator_22_root_12();
    lemma_generator_22_root_13();
    lemma_generator_22_root_14();
    lemma_generator_22_root_15();
    lemma_generator_22_root_16();
    lemma_generator_22_root_17();
    lemma_generator_22_root_18();
    lemma_generator_22_root_19();
    lemma_generator_22_root_20();
    lemma_generator_22_root_21();
}

/// The coefficients of the generator polynomial of degree 24.
spec fn generator_coeffs_24() -> Seq<u8> {
    seq![
        1u8, 122u8, 118u8, 169u8, 70u8, 178u8, 237u8, 216u8, 102u8, 115u8, 150u8, 229u8,
        73u8, 130u8, 72u8, 61u8, 43u8, 206u8, 1u8, 237u8, 247u8, 127u8, 217u8, 144u8,
        117u8,
    ]
}

/// The sums that evaluating the generator polynomial of degree 24 at its roots takes.
proof fn lemma_sums_24()
    by (bit_vector)
    ensures
        0u8 ^ 1u8 == 1u8, 1u8 ^ 73u8 == 72u8, 1u8 ^ 122u8 == 123u8, 1u8 ^ 150u8 == 151u8,
        2u8 ^ 122u8 == 120u8, 3u8 ^ 73u8 == 74u8, 3u8 ^ 102u8 == 101u8, 3u8 ^ 115u8 == 112u8,
        4u8 ^ 72u8 == 76u8, 4u8 ^ 122u8 == 126u8, 4u8 ^ 237u8 == 233u8, 5u8 ^ 72u8 == 77u8,
        7u8 ^ 127u8 == 120u8, 7u8 ^ 130u8 == 133u8, 8u8 ^ 73u8 == 65u8, 8u8 ^ 115u8 == 123u8,
        8u8 ^ 122u8 == 114u8, 8u8 ^ 144u8 == 152u8, 8u8 ^ 206u8 == 198u8, 9u8 ^ 102u8 == 111u8,
        10u8 ^ 1u8 == 11u8, 10u8 ^ 43u8 == 33u8, 10u8 ^ 72u8 == 66u8, 10u8 ^ 169u8 == 163u8,
        11u8 ^ 206u8 == 197u8, 13u8 ^ 169u8 == 164u8, 15u8 ^ 43u8 == 36u8, 15u8 ^ 169u8 == 166u8,
        16u8 ^ 70u8 == 86u8, 16u8 ^ 73u8 == 89u8, 16u8 ^ 122u8 == 106u8, 16u8 ^ 144u8 == 128u8,
        16u8 ^ 206u8 == 222u8, 17u8 ^ 70u8 == 87u8, 17u8 ^ 169u8 == 184u8, 17u8 ^ 229u8 == 244u8,
        17u8 ^ 237u8 == 252u8, 18u8 ^ 178u8 == 160u8, 19u8 ^ 61u8 == 46u8, 19u8 ^ 122u8 == 105u8,
        19u8 ^ 130u8 == 145u8, 20u8 ^ 61u8 == 41u8, 21u8 ^ 1u8 == 20u8, 21u8 ^ 150u8 == 131u8,
        21u8 ^ 206u8 == 219u8, 21u8 ^ 229u8 == 240u8, 22u8 ^ 178u8 == 164u8, 23u8 ^ 43u8 == 60u8,
        23u8 ^ 144u8 == 135u8, 23u8 ^ 237u8 == 250u8, 24u8 ^ 169u8 == 177u8, 26u8 ^ 61u8 == 39u8,
        26u8 ^ 72u8 == 82u8, 26u8 ^ 150u8 == 140u8, 26u8 ^ 229u8 == 255u8, 27u8 ^ 115u8 == 104u8,
        27u8 ^ 206u8 == 213u8, 28u8 ^ 70u8 == 90u8, 28u8 ^ 178u8 == 174u8, 29u8 ^ 122u8 == 103u8,
        29u8 ^ 206u8 == 211u8, 29u8 ^ 216u8 == 197u8, 30u8 ^ 115u8 == 109u8, 30u8 ^ 130u8 == 156u8,
        30u8 ^ 144u8 == 142u8, 30u8 ^ 237u8 == 243u8, 31u8 ^ 61u8 == 34u8, 31u8 ^ 130u8 == 157u8,
        31u8 ^ 178u8 == 173u8, 32u8 ^ 122u8 == 90u8, 32u8 ^ 216u8 == 248u8, 33u8 ^ 127u8 == 94u8,
        34u8 ^ 70u8 == 100u8, 34u8 ^ 127u8 == 93u8, 35u8 ^ 237u8 == 206u8, 36u8 ^ 144u8 == 180u8,
        36u8 ^ 150u8 == 178u8, 36u8 ^ 206u8 == 234u8, 37u8 ^ 130u8 == 167u8, 38u8 ^ 118u8 == 80u8,
        38u8 ^ 122u8 == 92u8, 38u8 ^ 130u8 == 164u8, 38u8 ^ 216u8 == 254u8, 38u8 ^ 247u8 == 209u8,
        40u8 ^ 1u8 == 41u8, 40u8 ^ 150u8 == 190u8, 41u8 ^ 102u8 == 79u8, 41u8 ^ 247u8 == 222u8,
        42u8 ^ 229u8 == 207u8, 43u8 ^ 70u8 == 109u8, 43u8 ^ 72u8 == 99u8, 43u8 ^ 229u8 == 206u8,
        44u8 ^ 102u8 == 74u8, 45u8 ^ 122u8 == 87u8, 45u8 ^ 130u8 == 175u8, 45u8 ^ 206u8 == 227u8,
        45u8 ^ 229u8 == 200u8, 46u8 ^ 115u8 == 93u8, 47u8 ^ 43u8 == 4u8, 48u8 ^ 130u8 == 178u8,
        48u8 ^ 217u8 == 233u8, 50u8 ^ 72u8 == 122u8, 50u8 ^ 118u8 == 68u8, 51u8 ^ 61u8 == 14u8,
        51u8 ^ 72u8 == 123u8, 51u8 ^ 102u8 == 85u8, 51u8 ^ 169u8 == 154u8, 52u8 ^ 61u8 == 9u8,
        54u8 ^ 118u8 == 64u8, 54u8 ^ 130u8 == 180u8, 54u8 ^ 169u8 == 159u8, 54u8 ^ 237u8 == 219u8,
        56u8 ^ 73u8 == 113u8, 57u8 ^ 43u8 == 18u8, 57u8 ^ 61u8 == 4u8, 57u8 ^ 115u8 == 74u8,
        57u8 ^ 150u8 == 175u8, 58u8 ^ 70u8 == 124u8, 58u8 ^ 115u8 == 73u8, 58u8 ^ 122u8 == 64u8,
        58u8 ^ 229u8 == 223u8, 58u8 ^ 237u8 == 215u8, 59u8 ^ 102u8 == 93u8, 60u8 ^ 115u8 == 79u8,
        60u8 ^ 217u8 == 229u8, 61u8 ^ 43u8 == 22u8, 61u8 ^ 237u8 == 208u8, 62u8 ^ 178u8 == 140u8,
        63u8 ^ 237u8 == 210u8, 63u8 ^ 247u8 == 200u8, 64u8 ^ 122u8 == 58u8, 64u8 ^ 130u8 == 194u8,
        64u8 ^ 217u8 == 153u8, 65u8 ^ 70u8 == 7u8, 65u8 ^ 73u8 == 8u8, 65u8 ^ 127u8 == 62u8,
        65u8 ^ 237u8 == 172u8, 66u8 ^ 102u8 == 36u8, 66u8 ^ 127u8 == 61u8, 67u8 ^ 127u8 == 60u8,
        67u8 ^ 130u8 == 193u8, 67u8 ^ 178u8 == 241u8, 68u8 ^ 1u8 == 69u8, 68u8 ^ 130u8 == 198u8,
        68u8 ^ 150u8 == 210u8, 69u8 ^ 61u8 == 120u8, 70u8 ^ 72u8 == 14u8, 70u8 ^ 130u8 == 196u8,
        70u8 ^ 169u8 == 239u8, 71u8 ^ 127u8 == 56u8, 71u8 ^ 130u8 == 197u8, 71u8 ^ 169u8 == 238u8,
        72u8 ^ 73u8 == 1u8, 72u8 ^ 115u8 == 59u8, 72u8 ^ 127u8 == 55u8, 74u8 ^ 43u8 == 97u8,
        74u8 ^ 73u8 == 3u8, 74u8 ^ 130u8 == 200u8, 74u8 ^ 150u8 == 220u8, 74u8 ^ 247u8 == 189u8,
        76u8 ^ 61u8 == 113u8, 76u8 ^ 122u8 == 54u8, 76u8 ^ 178u8 == 254u8, 76u8 ^ 217u8 == 149u8,
        77u8 ^ 43u8 == 102u8, 77u8 ^ 102u8 == 43u8, 78u8 ^ 102u8 == 40u8, 78u8 ^ 178u8 == 252u8,
        79u8 ^ 1u8 == 78u8, 79u8 ^ 178u8 == 253u8, 80u8 ^ 115u8 == 35u8, 80u8 ^ 237u8 == 189u8,
        81u8 ^ 150u8 == 199u8, 82u8 ^ 43u8 == 121u8, 82u8 ^ 72u8 == 26u8, 82u8 ^ 247u8 == 165u8,
        83u8 ^ 72u8 == 27u8, 84u8 ^ 72u8 == 28u8, 86u8 ^ 43u8 == 125u8, 86u8 ^ 70u8 == 16u8,
        86u8 ^ 115u8 == 37u8, 86u8 ^ 130u8 == 212u8, 86u8 ^ 169u8 == 255u8, 86u8 ^ 178u8 == 228u8,
        87u8 ^ 61u8 == 106u8, 87u8 ^ 217u8 == 142u8, 87u8 ^ 229u8 == 178u8, 88u8 ^ 1u8 == 89u8,
        88u8 ^ 43u8 == 115u8, 88u8 ^ 61u8 == 101u8, 88u8 ^ 115u8 == 43u8, 88u8 ^ 237u8 == 181u8,
        89u8 ^ 73u8 == 16u8, 89u8 ^ 127u8 == 38u8, 89u8 ^ 237u8 == 180u8, 90u8 ^ 122u8 == 32u8,
        90u8 ^ 237u8 == 183u8, 91u8 ^ 70u8 == 29u8, 91u8 ^ 237u8 == 182u8, 92u8 ^ 118u8 == 42u8,
        93u8 ^ 144u8 == 205u8, 94u8 ^ 206u8 == 144u8, 94u8 ^ 237u8 == 179u8, 96u8 ^ 1u8 == 97u8,
        97u8 ^ 206u8 == 175u8, 98u8 ^ 229u8 == 135u8, 99u8 ^ 237u8 == 142u8, 101u8 ^ 102u8 == 3u8,
        101u8 ^ 118u8 == 19u8, 101u8 ^ 217u8 == 188u8, 101u8 ^ 237u8 == 136u8, 102u8 ^ 150u8 == 240u8,
        102u8 ^ 169u8 == 207u8, 102u8 ^ 216u8 == 190u8, 102u8 ^ 229u8 == 131u8, 103u8 ^ 150u8 == 241u8,
        105u8 ^ 115u8 == 26u8, 105u8 ^ 206u8 == 167u8, 106u8 ^ 72u8 == 34u8, 106u8 ^ 115u8 == 25u8,
        107u8 ^ 1u8 == 106u8, 107u8 ^ 43u8 == 64u8, 107u8 ^ 127u8 == 20u8, 108u8 ^ 216u8 == 180u8,
        109u8 ^ 43u8 == 70u8, 109u8 ^ 70u8 == 43u8, 109u8 ^ 102u8 == 11u8, 109u8 ^ 127u8 == 18u8,
        109u8 ^ 178u8 == 223u8, 110u8 ^ 130u8 == 236u8, 111u8 ^ 115u8 == 28u8, 111u8 ^ 216u8 == 183u8,
        111u8 ^ 217u8 == 182u8, 112u8 ^ 61u8 == 77u8, 112u8 ^ 150u8 == 230u8, 112u8 ^ 178u8 == 194u8,
        112u8 ^ 216u8 == 168u8, 113u8 ^ 73u8 == 56u8, 113u8 ^ 169u8 == 216u8, 113u8 ^ 217u8 == 168u8,
        115u8 ^ 127u8 == 12u8, 115u8 ^ 229u8 == 150u8, 116u8 ^ 70u8 == 50u8, 116u8 ^ 118u8 == 2u8,
        116u8 ^ 122u8 == 14u8, 116u8 ^ 178u8 == 198u8, 116u8 ^ 247u8 == 131u8, 117u8 ^ 117u8 == 0u8,
        117u8 ^ 122u8 == 15u8, 117u8 ^ 169u8 == 220u8, 118u8 ^ 169u8 == 223u8, 119u8 ^ 127u8 == 8u8,
        120u8 ^ 115u8 == 11u8, 120u8 ^ 144u8 == 232u8, 120u8 ^ 178u8 == 202u8, 121u8 ^ 216u8 == 161u8,
        122u8 ^ 102u8 == 28u8, 123u8 ^ 118u8 == 13u8, 124u8 ^ 43u8 == 87u8, 124u8 ^ 72u8 == 52u8,
        125u8 ^ 247u8 == 138u8, 126u8 ^ 127u8 == 1u8, 128u8 ^ 61u8 == 189u8, 128u8 ^ 73u8 == 201u8,
        128u8 ^ 122u8 == 250u8, 128u8 ^ 144u8 == 16u8, 128u8 ^ 237u8 == 109u8, 129u8 ^ 118u8 == 247u8,
        129u8 ^ 216u8 == 89u8, 130u8 ^ 1u8 == 131u8, 130u8 ^ 247u8 == 117u8, 131u8 ^ 1u8 == 130u8,
        131u8 ^ 144u8 == 19u8, 131u8 ^ 217u8 == 90u8, 132u8 ^ 206u8 == 74u8, 133u8 ^ 1u8 == 132u8,
        134u8 ^ 43u8 == 173u8, 134u8 ^ 150u8 == 16u8, 134u8 ^ 229u8 == 99u8, 135u8 ^ 122u8 == 253u8,
        135u8 ^ 229u8 == 98u8, 136u8 ^ 1u8 == 137u8, 137u8 ^ 72u8 == 193u8, 137u8 ^ 217u8 == 80u8,
        137u8 ^ 229u8 == 108u8, 137u8 ^ 237u8 == 100u8, 138u8 ^ 216u8 == 82u8, 139u8 ^ 216u8 == 83u8,
        140u8 ^ 216u8 == 84u8, 141u8 ^ 1u8 == 140u8, 141u8 ^ 70u8 == 203u8, 141u8 ^ 144u8 == 29u8,
        141u8 ^ 169u8 == 36u8, 142u8 ^ 73u8 == 199u8, 142u8 ^ 115u8 == 253u8, 142u8 ^ 150u8 == 24u8,
        142u8 ^ 216u8 == 86u8, 143u8 ^ 118u8 == 249u8, 143u8 ^ 130u8 == 13u8, 143u8 ^ 247u8 == 120u8,
        144u8 ^ 73u8 == 217u8, 144u8 ^ 178u8 == 34u8, 145u8 ^ 1u8 == 144u8, 145u8 ^ 73u8 == 216u8,
        145u8 ^ 102u8 == 247u8, 145u8 ^ 115u8 == 226u8, 145u8 ^ 144u8 == 1u8, 145u8 ^ 217u8 == 72u8,
        145u8 ^ 247u8 == 102u8, 146u8 ^ 43u8 == 185u8, 146u8 ^ 115u8 == 225u8, 146u8 ^ 144u8 == 2u8,
        146u8 ^ 150u8 == 4u8, 147u8 ^ 247u8 == 100u8, 148u8 ^ 70u8 == 210u8, 148u8 ^ 72u8 == 220u8,
        148u8 ^ 127u8 == 235u8, 148u8 ^ 144u8 == 4u8, 148u8 ^ 217u8 == 77u8, 150u8 ^ 70u8 == 208u8,
        150u8 ^ 206u8 == 88u8, 150u8 ^ 216u8 == 78u8, 151u8 ^ 102u8 == 241u8, 151u8 ^ 247u8 == 96u8,
        152u8 ^ 122u8 == 226u8, 152u8 ^ 130u8 == 26u8, 152u8 ^ 144u8 == 8u8, 152u8 ^ 169u8 == 49u8,
        154u8 ^ 118u8 == 236u8, 155u8 ^ 217u8 == 66u8, 157u8 ^ 61u8 == 160u8, 157u8 ^ 102u8 == 251u8,
        157u8 ^ 115u8 == 238u8, 158u8 ^ 127u8 == 225u8, 158u8 ^ 169u8 == 55u8, 159u8 ^ 102u8 == 249u8,
        160u8 ^ 43u8 == 139u8, 160u8 ^ 70u8 == 230u8, 160u8 ^ 150u8 == 54u8, 160u8 ^ 229u8 == 69u8,
        160u8 ^ 237u8 == 77u8, 161u8 ^ 70u8 == 231u8, 161u8 ^ 169u8 == 8u8, 162u8 ^ 118u8 == 212u8,
        163u8 ^ 1u8 == 162u8, 164u8 ^ 61u8 == 153u8, 164u8 ^ 70u8 == 226u8, 164u8 ^ 206u8 == 106u8,
        164u8 ^ 237u8 == 73u8, 165u8 ^ 1u8 == 164u8, 165u8 ^ 115u8 == 214u8, 165u8 ^ 229u8 == 64u8,
        165u8 ^ 247u8 == 82u8, 166u8 ^ 70u8 == 224u8, 166u8 ^ 118u8 == 208u8, 166u8 ^ 217u8 == 127u8,
        167u8 ^ 61u8 == 154u8, 167u8 ^ 127u8 == 216u8, 167u8 ^ 130u8 == 37u8, 167u8 ^ 178u8 == 21u8,
        168u8 ^ 1u8 == 169u8, 169u8 ^ 206u8 == 103u8, 170u8 ^ 102u8 == 204u8, 170u8 ^ 144u8 == 58u8,
        170u8 ^ 237u8 == 71u8, 171u8 ^ 73u8 == 226u8, 171u8 ^ 206u8 == 101u8, 172u8 ^ 72u8 == 228u8,
        173u8 ^ 178u8 == 31u8, 173u8 ^ 229u8 == 72u8, 173u8 ^ 237u8 == 64u8, 175u8 ^ 102u8 == 201u8,
        175u8 ^ 217u8 == 118u8, 176u8 ^ 43u8 == 155u8, 176u8 ^ 144u8 == 32u8, 178u8 ^ 102u8 == 212u8,
        178u8 ^ 127u8 == 205u8, 179u8 ^ 178u8 == 1u8, 180u8 ^ 122u8 == 206u8, 180u8 ^ 217u8 == 109u8,
        180u8 ^ 247u8 == 67u8, 181u8 ^ 127u8 == 202u8, 181u8 ^ 216u8 == 109u8, 182u8 ^ 118u8 == 192u8,
        182u8 ^ 144u8 == 38u8, 182u8 ^ 150u8 == 32u8, 182u8 ^ 178u8 == 4u8, 183u8 ^ 61u8 == 138u8,
        183u8 ^ 118u8 == 193u8, 183u8 ^ 237u8 == 90u8, 184u8 ^ 102u8 == 222u8, 184u8 ^ 150u8 == 46u8,
        184u8 ^ 247u8 == 79u8, 185u8 ^ 150u8 == 47u8, 185u8 ^ 169u8 == 16u8, 187u8 ^ 217u8 == 98u8,
        187u8 ^ 237u8 == 86u8, 188u8 ^ 43u8 == 151u8, 188u8 ^ 73u8 == 245u8, 188u8 ^ 237u8 == 81u8,
        189u8 ^ 43u8 == 150u8, 189u8 ^ 144u8 == 45u8, 189u8 ^ 216u8 == 101u8, 189u8 ^ 237u8 == 80u8,
        189u8 ^ 247u8 == 74u8, 191u8 ^ 169u8 == 22u8, 191u8 ^ 216u8 == 103u8, 191u8 ^ 237u8 == 82u8,
        192u8 ^ 1u8 == 193u8, 194u8 ^ 102u8 == 164u8, 195u8 ^ 150u8 == 85u8, 195u8 ^ 237u8 == 46u8,
        196u8 ^ 150u8 == 82u8, 196u8 ^ 237u8 == 41u8, 197u8 ^ 247u8 == 50u8, 198u8 ^ 43u8 == 237u8,
        198u8 ^ 61u8 == 251u8, 198u8 ^ 72u8 == 142u8, 198u8 ^ 118u8 == 176u8, 199u8 ^ 73u8 == 142u8,
        199u8 ^ 118u8 == 177u8, 199u8 ^ 169u8 == 110u8, 199u8 ^ 247u8 == 48u8, 200u8 ^ 72u8 == 128u8,
        200u8 ^ 237u8 == 37u8, 201u8 ^ 73u8 == 128u8, 201u8 ^ 122u8 == 179u8, 201u8 ^ 216u8 == 17u8,
        202u8 ^ 144u8 == 90u8, 203u8 ^ 217u8 == 18u8, 204u8 ^ 1u8 == 205u8, 204u8 ^ 127u8 == 179u8,
        204u8 ^ 247u8 == 59u8, 205u8 ^ 70u8 == 139u8, 205u8 ^ 122u8 == 183u8, 205u8 ^ 229u8 == 40u8,
        206u8 ^ 1u8 == 207u8, 206u8 ^ 72u8 == 134u8, 207u8 ^ 178u8 == 125u8, 207u8 ^ 216u8 == 23u8,
        208u8 ^ 70u8 == 150u8, 208u8 ^ 144u8 == 64u8, 208u8 ^ 237u8 == 61u8, 209u8 ^ 237u8 == 60u8,
        210u8 ^ 150u8 == 68u8, 211u8 ^ 229u8 == 54u8, 213u8 ^ 237u8 == 56u8, 215u8 ^ 72u8 == 159u8,
        215u8 ^ 118u8 == 161u8, 215u8 ^ 144u8 == 71u8, 216u8 ^ 73u8 == 145u8, 216u8 ^ 118u8 == 174u8,
        216u8 ^ 127u8 == 167u8, 216u8 ^ 237u8 == 53u8, 217u8 ^ 73u8 == 144u8, 217u8 ^ 118u8 == 175u8,
        217u8 ^ 237u8 == 52u8, 218u8 ^ 130u8 == 88u8, 219u8 ^ 127u8 == 164u8, 219u8 ^ 216u8 == 3u8,
        220u8 ^ 144u8 == 76u8, 220u8 ^ 206u8 == 18u8, 222u8 ^ 43u8 == 245u8, 222u8 ^ 216u8 == 6u8,
        222u8 ^ 237u8 == 51u8, 222u8 ^ 247u8 == 41u8, 223u8 ^ 216u8 == 7u8, 224u8 ^ 127u8 == 159u8,
        224u8 ^ 130u8 == 98u8, 224u8 ^ 178u8 == 82u8, 224u8 ^ 206u8 == 46u8, 224u8 ^ 247u8 == 23u8,
        225u8 ^ 237u8 == 12u8, 225u8 ^ 247u8 == 22u8, 226u8 ^ 72u8 == 170u8, 226u8 ^ 73u8 == 171u8,
        226u8 ^ 178u8 == 80u8, 227u8 ^ 61u8 == 222u8, 227u8 ^ 72u8 == 171u8, 228u8 ^ 144u8 == 116u8,
        229u8 ^ 70u8 == 163u8, 229u8 ^ 102u8 == 131u8, 229u8 ^ 118u8 == 147u8, 229u8 ^ 144u8 == 117u8,
        229u8 ^ 237u8 == 8u8, 230u8 ^ 102u8 == 128u8, 230u8 ^ 229u8 == 3u8, 231u8 ^ 229u8 == 2u8,
        232u8 ^ 43u8 == 195u8, 232u8 ^ 70u8 == 174u8, 232u8 ^ 122u8 == 146u8, 232u8 ^ 237u8 == 5u8,
        234u8 ^ 122u8 == 144u8, 234u8 ^ 229u8 == 15u8, 237u8 ^ 43u8 == 198u8, 237u8 ^ 150u8 == 123u8,
        237u8 ^ 217u8 == 52u8, 238u8 ^ 118u8 == 152u8, 238u8 ^ 169u8 == 71u8, 238u8 ^ 229u8 == 11u8,
        238u8 ^ 247u8 == 25u8, 239u8 ^ 1u8 == 238u8, 239u8 ^ 206u8 == 33u8, 239u8 ^ 237u8 == 2u8,
        240u8 ^ 118u8 == 134u8, 240u8 ^ 206u8 == 62u8, 240u8 ^ 217u8 == 41u8, 241u8 ^ 1u8 == 240u8,
        241u8 ^ 61u8 == 204u8, 243u8 ^ 72u8 == 187u8, 243u8 ^ 169u8 == 90u8, 245u8 ^ 1u8 == 244u8,
        245u8 ^ 73u8 == 188u8, 245u8 ^ 115u8 == 134u8, 245u8 ^ 206u8 == 59u8, 245u8 ^ 217u8 == 44u8,
        246u8 ^ 229u8 == 19u8, 247u8 ^ 70u8 == 177u8, 248u8 ^ 1u8 == 249u8, 248u8 ^ 61u8 == 197u8,
        250u8 ^ 130u8 == 120u8, 250u8 ^ 206u8 == 52u8, 250u8 ^ 217u8 == 35u8, 251u8 ^ 130u8 == 121u8,
        251u8 ^ 237u8 == 22u8, 252u8 ^ 61u8 == 193u8, 253u8 ^ 237u8 == 16u8, 254u8 ^ 102u8 == 152u8,
{
}

proof fn lemma_generator_24_root_0()
    ensures
        eval_prefix(generator_coeffs_24(), GF_LOGS[0], 25) == 0,
{
    lemma_sums_24();
    let p = generator_coeffs_24();
    let x = GF_LOGS[0];
    assert(eval_prefix(p, x, 0) == 0u8);
    assert(eval_prefix(p, x, 1) == 1u8);
    assert(eval_prefix(p, x, 2) == 123u8);
    assert(eval_prefix(p, x, 3) == 13u8);
    assert(eval_prefix(p, x, 4) == 164u8);
    assert(eval_prefix(p, x, 5) == 226u8);
    assert(eval_prefix(p, x, 6) == 80u8);
    assert(eval_prefix(p, x, 7) == 189u8);
    assert(eval_prefix(p, x, 8) == 101u8);
    assert(eval_prefix(p, x, 9) == 3u8);
    assert(eval_prefix(p, x, 10) == 112u8);
    assert(eval_prefix(p, x, 11) == 230u8);
    assert(eval_prefix(p, x, 12) == 3u8);
    assert(eval_prefix(p, x, 13) == 74u8);
    assert(eval_prefix(p, x, 14) == 200u8);
    assert(eval_prefix(p, x, 15) == 128u8);
    assert(eval_prefix(p, x, 16) == 189u8);
    assert(eval_prefix(p, x, 17) == 150u8);
    assert(eval_prefix(p, x, 18) == 88u8);
    assert(eval_prefix(p, x, 19) == 89u8);
    assert(eval_prefix(p, x, 20) == 180u8);
    assert(eval_prefix(p, x, 21) == 67u8);
    assert(eval_prefix(p, x, 22) == 60u8);
    assert(eval_prefix(p, x, 23) == 229u8);
    assert(eval_prefix(p, x, 24) == 117u8);
    assert(eval_prefix(p, x, 25) == 0u8);
}

proof fn lemma_generator_24_root_1()
    ensures
        eval_prefix(generator_coeffs_24(), GF_LOGS[1], 25) == 0,
{
    lemma_sums_24();
    let p = generator_coeffs_24();
    let x = GF_LOGS[1];
    assert(eval_prefix(p, x, 0) == 0u8);
    assert(eval_prefix(p, x, 1) == 1u8);
    assert(eval_prefix(p, x, 2) == 120u8);
    assert(eval_prefix(p, x, 3) == 134u8);
    assert(eval_prefix(p, x, 4) == 184u8);
    assert(eval_prefix(p, x, 5) == 43u8);
    assert(eval_prefix(p, x, 6) == 228u8);
    assert(eval_prefix(p, x, 7) == 56u8);
    assert(eval_prefix(p, x, 8) == 168u8);
    assert(eval_prefix(p, x, 9) == 43u8);
    assert(eval_prefix(p, x, 10) == 37u8);
    assert(eval_prefix(p, x, 11) == 220u8);
    assert(eval_prefix(p, x, 12) == 64u8);
    assert(eval_prefix(p, x, 13) == 201u8);
    assert(eval_prefix(p, x, 14) == 13u8);
    assert(eval_prefix(p, x, 15) == 82u8);
    assert(eval_prefix(p, x, 16) == 153u8);
    assert(eval_prefix(p, x, 17) == 4u8);
    assert(eval_prefix(p, x, 18) == 198u8);
    assert(eval_prefix(p, x, 19) == 144u8);
    assert(eval_prefix(p, x, 20) == 208u8);
    assert(eval_prefix(p, x, 21) == 74u8);
    assert(eval_prefix(p, x, 22) == 235u8);
    assert(eval_prefix(p, x, 23) == 18u8);
    assert(eval_prefix(p, x, 24) == 180u8);
    assert(eval_prefix(p, x, 25) == 0u8);
}

proof fn lemma_generator_24_root_2()
    ensures
        eval_prefix(generator_coeffs_24(), GF_LOGS[2], 25) == 0,
{
    lemma_sums_24();
    let p = generator_coeffs_24();
    let x = GF_LOGS[2];
    assert(eval_prefix(p, x, 0) == 0u8);
    assert(eval_prefix(p, x, 1) == 1u8);
    assert(eval_prefix(p, x, 2) == 126u8);
    assert(eval_prefix(p, x, 3) == 147u8);
    assert(eval_prefix(p, x, 4) == 223u8);
    assert(eval_prefix(p, x, 5) == 29u8);
    assert(eval_prefix(p, x, 6) == 198u8);
    assert(eval_prefix(p, x, 7) == 210u8);
    assert(eval_prefix(p, x, 8) == 183u8);
    assert(eval_prefix(p, x, 9) == 128u8);
    assert(eval_prefix(p, x, 10) == 73u8);
    assert(eval_prefix(p, x, 11) == 175u8);
    assert(eval_prefix(p, x, 12) == 99u8);
    assert(eval_prefix(p, x, 13) == 216u8);
    assert(eval_prefix(p, x, 14) == 197u8);
    assert(eval_prefix(p, x, 15) == 123u8);
    assert(eval_prefix(p, x, 16) == 204u8);
    assert(eval_prefix(p, x, 17) == 60u8);
    assert(eval_prefix(p, x, 18) == 62u8);
    assert(eval_prefix(p, x, 19) == 249u8);
    assert(eval_prefix(p, x, 20) == 46u8);
    assert(eval_prefix(p, x, 21) == 79u8);
    assert(eval_prefix(p, x, 22) == 94u8);
    assert(eval_prefix(p, x, 23) == 188u8);
    assert(eval_prefix(p, x, 24) == 90u8);
    assert(eval_prefix(p, x, 25) == 0u8);
}

proof fn lemma_generator_24_root_3()
    ensures
        eval_prefix(generator_coeffs_24(), GF_LOGS[3], 25) == 0,
{
    lemma_sums_24();
    let p = generator_coeffs_24();
    let x = GF_LOGS[3];
    assert(eval_prefix(p, x, 0) == 0u8);
    assert(eval_prefix(p, x, 1) == 1u8);
    assert(eval_prefix(p, x, 2) == 114u8);
    assert(eval_prefix(p, x, 3) == 193u8);
    assert(eval_prefix(p, x, 4) == 239u8);
    assert(eval_prefix(p, x, 5) == 109u8);
    assert(eval_prefix(p, x, 6) == 253u8);
    assert(eval_prefix(p, x, 7) == 86u8);
    assert(eval_prefix(p, x, 8) == 82u8);
    assert(eval_prefix(p, x, 9) == 204u8);
    assert(eval_prefix(p, x, 10) == 93u8);
    assert(eval_prefix(p, x, 11) == 68u8);
    assert(eval_prefix(p, x, 12) == 255u8);
    assert(eval_prefix(p, x, 13) == 226u8);
    assert(eval_prefix(p, x, 14) == 193u8);
    assert(eval_prefix(p, x, 15) == 14u8);
    assert(eval_prefix(p, x, 16) == 77u8);
    assert(eval_prefix(p, x, 17) == 121u8);
    assert(eval_prefix(p, x, 18) == 33u8);
    assert(eval_prefix(p, x, 19) == 20u8);
    assert(eval_prefix(p, x, 20) == 77u8);
    assert(eval_prefix(p, x, 21) == 165u8);
    assert(eval_prefix(p, x, 22) == 62u8);
    assert(eval_prefix(p, x, 23) == 52u8);
    assert(eval_prefix(p, x, 24) == 45u8);
    assert(eval_prefix(p, x, 25) == 0u8);
}

proof fn lemma_generator_24_root_4()
    ensures
        eval_prefix(generator_coeffs_24(), GF_LOGS[4], 25) == 0,
{
    lemma_sums_24();
    let p = generator_coeffs_24();
    let x = GF_LOGS[4];
    assert(eval_prefix(p, x, 0) == 0u8);
    assert(eval_prefix(p, x, 1) == 1u8);
    assert(eval_prefix(p, x, 2) == 106u8);
    assert(eval_prefix(p, x, 3) == 152u8);
    assert(eval_prefix(p, x, 4) == 220u8);
    assert(eval_prefix(p, x, 5) == 7u8);
    assert(eval_prefix(p, x, 6) == 194u8);
    assert(eval_prefix(p, x, 7) == 81u8);
    assert(eval_prefix(p, x, 8) == 161u8);
    assert(eval_prefix(p, x, 9) == 164u8);
    assert(eval_prefix(p, x, 10) == 225u8);
    assert(eval_prefix(p, x, 11) == 32u8);
    assert(eval_prefix(p, x, 12) == 223u8);
    assert(eval_prefix(p, x, 13) == 56u8);
    assert(eval_prefix(p, x, 14) == 37u8);
    assert(eval_prefix(p, x, 15) == 34u8);
    assert(eval_prefix(p, x, 16) == 39u8);
    assert(eval_prefix(p, x, 17) == 97u8);
    assert(eval_prefix(p, x, 18) == 144u8);
    assert(eval_prefix(p, x, 19) == 244u8);
    assert(eval_prefix(p, x, 20) == 22u8);
    assert(eval_prefix(p, x, 21) == 138u8);
    assert(eval_prefix(p, x, 22) == 55u8);
    assert(eval_prefix(p, x, 23) == 142u8);
    assert(eval_prefix(p, x, 24) == 152u8);
    assert(eval_prefix(p, x, 25) == 0u8);
}

proof fn lemma_generator_24_root_5()
    ensures
        eval_prefix(generator_coeffs_24(), GF_LOGS[5], 25) == 0,
{
    lemma_sums_24();
    let p = generator_coeffs_24();
    let x = GF_LOGS[5];
    assert(eval_prefix(p, x, 0) == 0u8);
    assert(eval_prefix(p, x, 1) == 1u8);
    assert(eval_prefix(p, x, 2) == 90u8);
    assert(eval_prefix(p, x, 3) == 249u8);
    assert(eval_prefix(p, x, 4) == 255u8);
    assert(eval_prefix(p, x, 5) == 208u8);
    assert(eval_prefix(p, x, 6) == 173u8);
    assert(eval_prefix(p, x, 7) == 233u8);
    assert(eval_prefix(p, x, 8) == 180u8);
    assert(eval_prefix(p, x, 9) == 101u8);
    assert(eval_prefix(p, x, 10) == 79u8);
    assert(eval_prefix(p, x, 11) == 131u8);
    assert(eval_prefix(p, x, 12) == 72u8);
    assert(eval_prefix(p, x, 13) == 188u8);
    assert(eval_prefix(p, x, 14) == 156u8);
    assert(eval_prefix(p, x, 15) == 34u8);
    assert(eval_prefix(p, x, 16) == 9u8);
    assert(eval_prefix(p, x, 17) == 22u8);
    assert(eval_prefix(p, x, 18) == 52u8);
    assert(eval_prefix(p, x, 19) == 207u8);
    assert(eval_prefix(p, x, 20) == 53u8);
    assert(eval_prefix(p, x, 21) == 25u8);
    assert(eval_prefix(p, x, 22) == 120u8);
    assert(eval_prefix(p, x, 23) == 98u8);
    assert(eval_prefix(p, x, 24) == 76u8);
    assert(eval_prefix(p, x, 25) == 0u8);
}

proof fn lemma_generator_24_root_6()
    ensures
        eval_prefix(generator_coeffs_24(), GF_LOGS[6], 25) == 0,
{
    lemma_sums_24();
    let p = generator_coeffs_24();
    let x = GF_LOGS[6];
    assert(eval_prefix(p, x, 0) == 0u8);
    assert(eval_prefix(p, x, 1) == 1u8);
    assert(eval_prefix(p, x, 2) == 58u8);
    assert(eval_prefix(p, x, 3) == 80u8);
    assert(eval_prefix(p, x, 4) == 16u8);
    assert(eval_prefix(p, x, 5) == 50u8);
    assert(eval_prefix(p, x, 6) == 174u8);
    assert(eval_prefix(p, x, 7) == 37u8);
    assert(eval_prefix(p, x, 8) == 109u8);
    assert(eval_prefix(p, x, 9) == 36u8);
    assert(eval_prefix(p, x, 10) == 134u8);
    assert(eval_prefix(p, x, 11) == 140u8);
    assert(eval_prefix(p, x, 12) == 69u8);
    assert(eval_prefix(p, x, 13) == 217u8);
    assert(eval_prefix(p, x, 14) == 198u8);
    assert(eval_prefix(p, x, 15) == 159u8);
    assert(eval_prefix(p, x, 16) == 41u8);
    assert(eval_prefix(p, x, 17) == 185u8);
    assert(eval_prefix(p, x, 18) == 175u8);
    assert(eval_prefix(p, x, 19) == 137u8);
    assert(eval_prefix(p, x, 20) == 16u8);
    assert(eval_prefix(p, x, 21) == 131u8);
    assert(eval_prefix(p, x, 22) == 56u8);
    assert(eval_prefix(p, x, 23) == 127u8);
    assert(eval_prefix(p, x, 24) == 38u8);
    assert(eval_prefix(p, x, 25) == 0u8);
}

proof fn lemma_generator_24_root_7()
    ensures
        eval_prefix(generator_coeffs_24(), GF_LOGS[7], 25) == 0,
{
    lemma_sums_24();
    let p = generator_coeffs_24();
    let x = GF_LOGS[7];
    assert(eval_prefix(p, x, 0) == 0u8);
    assert(eval_prefix(p, x, 1) == 1u8);
    assert(eval_prefix(p, x, 2) == 250u8);
    assert(eval_prefix(p, x, 3) == 174u8);
    assert(eval_prefix(p, x, 4) == 36u8);
    assert(eval_prefix(p, x, 5) == 177u8);
    assert(eval_prefix(p, x, 6) == 4u8);
    assert(eval_prefix(p, x, 7) == 215u8);
    assert(eval_prefix(p, x, 8) == 3u8);
    assert(eval_prefix(p, x, 9) == 251u8);
    assert(eval_prefix(p, x, 10) == 43u8);
    assert(eval_prefix(p, x, 11) == 178u8);
    assert(eval_prefix(p, x, 12) == 206u8);
    assert(eval_prefix(p, x, 13) == 142u8);
    assert(eval_prefix(p, x, 14) == 194u8);
    assert(eval_prefix(p, x, 15) == 193u8);
    assert(eval_prefix(p, x, 16) == 41u8);
    assert(eval_prefix(p, x, 17) == 18u8);
    assert(eval_prefix(p, x, 18) == 59u8);
    assert(eval_prefix(p, x, 19) == 205u8);
    assert(eval_prefix(p, x, 20) == 183u8);
    assert(eval_prefix(p, x, 21) == 102u8);
    assert(eval_prefix(p, x, 22) == 18u8);
    assert(eval_prefix(p, x, 23) == 44u8);
    assert(eval_prefix(p, x, 24) == 19u8);
    assert(eval_prefix(p, x, 25) == 0u8);
}

proof fn lemma_generator_24_root_8()
    ensures
        eval_prefix(generator_coeffs_24(), GF_LOGS[8], 25) == 0,
{
    lemma_sums_24();
    let p = generator_coeffs_24();
    let x = GF_LOGS[8];
    assert(eval_prefix(p, x, 0) == 0u8);
    assert(eval_prefix(p, x, 1) == 1u8);
    assert(eval_prefix(p, x, 2) == 103u8);
    assert(eval_prefix(p, x, 3) == 177u8);
    assert(eval_prefix(p, x, 4) == 216u8);
    assert(eval_prefix(p, x, 5) == 86u8);
    assert(eval_prefix(p, x, 6) == 34u8);
    assert(eval_prefix(p, x, 7) == 80u8);
    assert(eval_prefix(p, x, 8) == 6u8);
    assert(eval_prefix(p, x, 9) == 40u8);
    assert(eval_prefix(p, x, 10) == 28u8);
    assert(eval_prefix(p, x, 11) == 199u8);
    assert(eval_prefix(p, x, 12) == 131u8);
    assert(eval_prefix(p, x, 13) == 72u8);
    assert(eval_prefix(p, x, 14) == 121u8);
    assert(eval_prefix(p, x, 15) == 228u8);
    assert(eval_prefix(p, x, 16) == 251u8);
    assert(eval_prefix(p, x, 17) == 155u8);
    assert(eval_prefix(p, x, 18) == 234u8);
    assert(eval_prefix(p, x, 19) == 97u8);
    assert(eval_prefix(p, x, 20) == 100u8);
    assert(eval_prefix(p, x, 21) == 23u8);
    assert(eval_prefix(p, x, 22) == 225u8);
    assert(eval_prefix(p, x, 23) == 118u8);
    assert(eval_prefix(p, x, 24) == 135u8);
    assert(eval_prefix(p, x, 25) == 0u8);
}

proof fn lemma_generator_24_root_9()
    ensures
        eval_prefix(generator_coeffs_24(), GF_LOGS[9], 25) == 0,
{
    lemma_sums_24();
    let p = generator_coeffs_24();
    let x = GF_LOGS[9];
    assert(eval_prefix(p, x, 0) == 0u8);
    assert(eval_prefix(p, x, 1) == 1u8);
    assert(eval_prefix(p, x, 2) == 64u8);
    assert(eval_prefix(p, x, 3) == 80u8);
    assert(eval_prefix(p, x, 4) == 8u8);
    assert(eval_prefix(p, x, 5) == 139u8);
    assert(eval_prefix(p, x, 6) == 125u8);
    assert(eval_prefix(p, x, 7) == 64u8);
    assert(eval_prefix(p, x, 8) == 254u8);
    assert(eval_prefix(p, x, 9) == 201u8);
    assert(eval_prefix(p, x, 10) == 238u8);
    assert(eval_prefix(p, x, 11) == 190u8);
    assert(eval_prefix(p, x, 12) == 108u8);
    assert(eval_prefix(p, x, 13) == 89u8);
    assert(eval_prefix(p, x, 14) == 212u8);
    assert(eval_prefix(p, x, 15) == 77u8);
    assert(eval_prefix(p, x, 16) == 4u8);
    assert(eval_prefix(p, x, 17) == 195u8);
    assert(eval_prefix(p, x, 18) == 234u8);
    assert(eval_prefix(p, x, 19) == 193u8);
    assert(eval_prefix(p, x, 20) == 189u8);
    assert(eval_prefix(p, x, 21) == 48u8);
    assert(eval_prefix(p, x, 22) == 235u8);
    assert(eval_prefix(p, x, 23) == 35u8);
    assert(eval_prefix(p, x, 24) == 205u8);
    assert(eval_prefix(p, x, 25) == 0u8);
}

proof fn lemma_generator_24_root_10()
    ensures
        eval_prefix(generator_coeffs_24(), GF_LOGS[10], 25) == 0,
{
    lemma_sums_24();
    let p = generator_coeffs_24();
    let x = GF_LOGS[10];
    assert(eval_prefix(p, x, 0) == 0u8);
    assert(eval_prefix(p, x, 1) == 1u8);
    assert(eval_prefix(p, x, 2) == 14u8);
    assert(eval_prefix(p, x, 3) == 212u8);
    assert(eval_prefix(p, x, 4) == 163u8);
    assert(eval_prefix(p, x, 5) == 100u8);
    assert(eval_prefix(p, x, 6) == 21u8);
    assert(eval_prefix(p, x, 7) == 71u8);
    assert(eval_prefix(p, x, 8) == 197u8);
    assert(eval_prefix(p, x, 9) == 11u8);
    assert(eval_prefix(p, x, 10) == 104u8);
    assert(eval_prefix(p, x, 11) == 123u8);
    assert(eval_prefix(p, x, 12) == 135u8);
    assert(eval_prefix(p, x, 13) == 128u8);
    assert(eval_prefix(p, x, 14) == 26u8);
    assert(eval_prefix(p, x, 15) == 52u8);
    assert(eval_prefix(p, x, 16) == 197u8);
    assert(eval_prefix(p, x, 17) == 70u8);
    assert(eval_prefix(p, x, 18) == 167u8);
    assert(eval_prefix(p, x, 19) == 238u8);
    assert(eval_prefix(p, x, 20) == 189u8);
    assert(eval_prefix(p, x, 21) == 100u8);
    assert(eval_prefix(p, x, 22) == 216u8);
    assert(eval_prefix(p, x, 23) == 153u8);
    assert(eval_prefix(p, x, 24) == 232u8);
    assert(eval_prefix(p, x, 25) == 0u8);
}

proof fn lemma_generator_24_root_11()
    ensures
        eval_prefix(generator_coeffs_24(), GF_LOGS[11], 25) == 0,
{
    lemma_sums_24();
    let p = generator_coeffs_24();
    let x = GF_LOGS[11];
    assert(eval_prefix(p, x, 0) == 0u8);
    assert(eval_prefix(p, x, 1) == 1u8);
    assert(eval_prefix(p, x, 2) == 146u8);
    assert(eval_prefix(p, x, 3) == 176u8);
    assert(eval_prefix(p, x, 4) == 238u8);
    assert(eval_prefix(p, x, 5) == 230u8);
    assert(eval_prefix(p, x, 6) == 1u8);
    assert(eval_prefix(p, x, 7) == 5u8);
    assert(eval_prefix(p, x, 8) == 183u8);
    assert(eval_prefix(p, x, 9) == 131u8);
    assert(eval_prefix(p, x, 10) == 123u8);
    assert(eval_prefix(p, x, 11) == 82u8);
    assert(eval_prefix(p, x, 12) == 150u8);
    assert(eval_prefix(p, x, 13) == 8u8);
    assert(eval_prefix(p, x, 14) == 145u8);
    assert(eval_prefix(p, x, 15) == 171u8);
    assert(eval_prefix(p, x, 16) == 106u8);
    assert(eval_prefix(p, x, 17) == 33u8);
    assert(eval_prefix(p, x, 18) == 106u8);
    assert(eval_prefix(p, x, 19) == 11u8);
    assert(eval_prefix(p, x, 20) == 219u8);
    assert(eval_prefix(p, x, 21) == 82u8);
    assert(eval_prefix(p, x, 22) == 12u8);
    assert(eval_prefix(p, x, 23) == 77u8);
    assert(eval_prefix(p, x, 24) == 116u8);
    assert(eval_prefix(p, x, 25) == 0u8);
}

proof fn lemma_generator_24_root_12()
    ensures
        eval_prefix(generator_coeffs_24(), GF_LOGS[12], 25) == 0,
{
    lemma_sums_24();
    let p = generator_coeffs_24();
    let x = GF_LOGS[12];
    assert(eval_prefix(p, x, 0) == 0u8);
    assert(eval_prefix(p, x, 1) == 1u8);
    assert(eval_prefix(p, x, 2) == 183u8);
    assert(eval_prefix(p, x, 3) == 161u8);
    assert(eval_prefix(p, x, 4) == 166u8);
    assert(eval_prefix(p, x, 5) == 16u8);
    assert(eval_prefix(p, x, 6) == 254u8);
    assert(eval_prefix(p, x, 7) == 252u8);
    assert(eval_prefix(p, x, 8) == 78u8);
    assert(eval_prefix(p, x, 9) == 249u8);
    assert(eval_prefix(p, x, 10) == 59u8);
    assert(eval_prefix(p, x, 11) == 46u8);
    assert(eval_prefix(p, x, 12) == 207u8);
    assert(eval_prefix(p, x, 13) == 65u8);
    assert(eval_prefix(p, x, 14) == 98u8);
    assert(eval_prefix(p, x, 15) == 122u8);
    assert(eval_prefix(p, x, 16) == 101u8);
    assert(eval_prefix(p, x, 17) == 64u8);
    assert(eval_prefix(p, x, 18) == 227u8);
    assert(eval_prefix(p, x, 19) == 164u8);
    assert(eval_prefix(p, x, 20) == 60u8);
    assert(eval_prefix(p, x, 21) == 22u8);
    assert(eval_prefix(p, x, 22) == 167u8);
    assert(eval_prefix(p, x, 23) == 66u8);
    assert(eval_prefix(p, x, 24) == 58u8);
    assert(eval_prefix(p, x, 25) == 0u8);
}

proof fn lemma_generator_24_root_13()
    ensures
        eval_prefix(generator_coeffs_24(), GF_LOGS[13], 25) == 0,
{
    lemma_sums_24();
    let p = generator_coeffs_24();
    let x = GF_LOGS[13];
    assert(eval_prefix(p, x, 0) == 0u8);
    assert(eval_prefix(p, x, 1) == 1u8);
    assert(eval_prefix(p, x, 2) == 253u8);
    assert(eval_prefix(p, x, 3) == 192u8);
    assert(eval_prefix(p, x, 4) == 71u8);
    assert(eval_prefix(p, x, 5) == 174u8);
    assert(eval_prefix(p, x, 6) == 82u8);
    assert(eval_prefix(p, x, 7) == 60u8);
    assert(eval_prefix(p, x, 8) == 7u8);
    assert(eval_prefix(p, x, 9) == 212u8);
    assert(eval_prefix(p, x, 10) == 35u8);
    assert(eval_prefix(p, x, 11) == 47u8);
    assert(eval_prefix(p, x, 12) == 54u8);
    assert(eval_prefix(p, x, 13) == 201u8);
    assert(eval_prefix(p, x, 14) == 167u8);
    assert(eval_prefix(p, x, 15) == 99u8);
    assert(eval_prefix(p, x, 16) == 222u8);
    assert(eval_prefix(p, x, 17) == 36u8);
    assert(eval_prefix(p, x, 18) == 197u8);
    assert(eval_prefix(p, x, 19) == 78u8);
    assert(eval_prefix(p, x, 20) == 206u8);
    assert(eval_prefix(p, x, 21) == 96u8);
    assert(eval_prefix(p, x, 22) == 8u8);
    assert(eval_prefix(p, x, 23) == 149u8);
    assert(eval_prefix(p, x, 24) == 29u8);
    assert(eval_prefix(p, x, 25) == 0u8);
}

proof fn lemma_generator_24_root_14()
    ensures
        eval_prefix(generator_coeffs_24(), GF_LOGS[14], 25) == 0,
{
    lemma_sums_24();
    let p = generator_coeffs_24();
    let x = GF_LOGS[14];
    assert(eval_prefix(p, x, 0) == 0u8);
    assert(eval_prefix(p, x, 1) == 1u8);
    assert(eval_prefix(p, x, 2) == 105u8);
    assert(eval_prefix(p, x, 3) == 19u8);
    assert(eval_prefix(p, x, 4) == 177u8);
    assert(eval_prefix(p, x, 5) == 87u8);
    assert(eval_prefix(p, x, 6) == 82u8);
    assert(eval_prefix(p, x, 7) == 82u8);
    assert(eval_prefix(p, x, 8) == 103u8);
    assert(eval_prefix(p, x, 9) == 241u8);
    assert(eval_prefix(p, x, 10) == 214u8);
    assert(eval_prefix(p, x, 11) == 16u8);
    assert(eval_prefix(p, x, 12) == 200u8);
    assert(eval_prefix(p, x, 13) == 16u8);
    assert(eval_prefix(p, x, 14) == 175u8);
    assert(eval_prefix(p, x, 15) == 134u8);
    assert(eval_prefix(p, x, 16) == 34u8);
    assert(eval_prefix(p, x, 17) == 87u8);
    assert(eval_prefix(p, x, 18) == 46u8);
    assert(eval_prefix(p, x, 19) == 169u8);
    assert(eval_prefix(p, x, 20) == 73u8);
    assert(eval_prefix(p, x, 21) == 200u8);
    assert(eval_prefix(p, x, 22) == 38u8);
    assert(eval_prefix(p, x, 23) == 233u8);
    assert(eval_prefix(p, x, 24) == 128u8);
    assert(eval_prefix(p, x, 25) == 0u8);
}

proof fn lemma_generator_24_root_15()
    ensures
        eval_prefix(generator_coeffs_24(), GF_LOGS[15], 25) == 0,
{
    lemma_sums_24();
    let p = generator_coeffs_24();
    let x = GF_LOGS[15];
    assert(eval_prefix(p, x, 0) == 0u8);
    assert(eval_prefix(p, x, 1) == 1u8);
    assert(eval_prefix(p, x, 2) == 92u8);
    assert(eval_prefix(p, x, 3) == 236u8);
    assert(eval_prefix(p, x, 4) == 55u8);
    assert(eval_prefix(p, x, 5) == 90u8);
    assert(eval_prefix(p, x, 6) == 252u8);
    assert(eval_prefix(p, x, 7) == 41u8);
    assert(eval_prefix(p, x, 8) == 103u8);
    assert(eval_prefix(p, x, 9) == 85u8);
    assert(eval_prefix(p, x, 10) == 226u8);
    assert(eval_prefix(p, x, 11) == 241u8);
    assert(eval_prefix(p, x, 12) == 178u8);
    assert(eval_prefix(p, x, 13) == 1u8);
    assert(eval_prefix(p, x, 14) == 164u8);
    assert(eval_prefix(p, x, 15) == 142u8);
    assert(eval_prefix(p, x, 16) == 46u8);
    assert(eval_prefix(p, x, 17) == 102u8);
    assert(eval_prefix(p, x, 18) == 219u8);
    assert(eval_prefix(p, x, 19) == 131u8);
    assert(eval_prefix(p, x, 20) == 109u8);
    assert(eval_prefix(p, x, 21) == 165u8);
    assert(eval_prefix(p, x, 22) == 159u8);
    assert(eval_prefix(p, x, 23) == 182u8);
    assert(eval_prefix(p, x, 24) == 64u8);
    assert(eval_prefix(p, x, 25) == 0u8);
}

proof fn lemma_generator_24_root_16()
    ensures
        eval_prefix(generator_coeffs_24(), GF_LOGS[16], 25) == 0,
{
    lemma_sums_24();
    let p = generator_coeffs_24();
    let x = GF_LOGS[16];
    assert(eval_prefix(p, x, 0) == 0u8);
    assert(eval_prefix(p, x, 1) == 1u8);
    assert(eval_prefix(p, x, 2) == 54u8);
    assert(eval_prefix(p, x, 3) == 2u8);
    assert(eval_prefix(p, x, 4) == 49u8);
    assert(eval_prefix(p, x, 5) == 203u8);
    assert(eval_prefix(p, x, 6) == 31u8);
    assert(eval_prefix(p, x, 7) == 250u8);
    assert(eval_prefix(p, x, 8) == 248u8);
    assert(eval_prefix(p, x, 9) == 222u8);
    assert(eval_prefix(p, x, 10) == 11u8);
    assert(eval_prefix(p, x, 11) == 24u8);
    assert(eval_prefix(p, x, 12) == 11u8);
    assert(eval_prefix(p, x, 13) == 199u8);
    assert(eval_prefix(p, x, 14) == 88u8);
    assert(eval_prefix(p, x, 15) == 76u8);
    assert(eval_prefix(p, x, 16) == 160u8);
    assert(eval_prefix(p, x, 17) == 151u8);
    assert(eval_prefix(p, x, 18) == 74u8);
    assert(eval_prefix(p, x, 19) == 41u8);
    assert(eval_prefix(p, x, 20) == 142u8);
    assert(eval_prefix(p, x, 21) == 209u8);
    assert(eval_prefix(p, x, 22) == 164u8);
    assert(eval_prefix(p, x, 23) == 72u8);
    assert(eval_prefix(p, x, 24) == 32u8);
    assert(eval_prefix(p, x, 25) == 0u8);
}

proof fn lemma_generator_24_root_17()
    ensures
        eval_prefix(generator_coeffs_24(), GF_LOGS[17], 25) == 0,
{
    lemma_sums_24();
    let p = generator_coeffs_24();
    let x = GF_LOGS[17];
    assert(eval_prefix(p, x, 0) == 0u8);
    assert(eval_prefix(p, x, 1) == 1u8);
    assert(eval_prefix(p, x, 2) == 226u8);
    assert(eval_prefix(p, x, 3) == 247u8);
    assert(eval_prefix(p, x, 4) == 159u8);
    assert(eval_prefix(p, x, 5) == 231u8);
    assert(eval_prefix(p, x, 6) == 241u8);
    assert(eval_prefix(p, x, 7) == 172u8);
    assert(eval_prefix(p, x, 8) == 83u8);
    assert(eval_prefix(p, x, 9) == 111u8);
    assert(eval_prefix(p, x, 10) == 11u8);
    assert(eval_prefix(p, x, 11) == 151u8);
    assert(eval_prefix(p, x, 12) == 240u8);
    assert(eval_prefix(p, x, 13) == 144u8);
    assert(eval_prefix(p, x, 14) == 120u8);
    assert(eval_prefix(p, x, 15) == 170u8);
    assert(eval_prefix(p, x, 16) == 193u8);
    assert(eval_prefix(p, x, 17) == 245u8);
    assert(eval_prefix(p, x, 18) == 213u8);
    assert(eval_prefix(p, x, 19) == 240u8);
    assert(eval_prefix(p, x, 20) == 52u8);
    assert(eval_prefix(p, x, 21) == 50u8);
    assert(eval_prefix(p, x, 22) == 205u8);
    assert(eval_prefix(p, x, 23) == 233u8);
    assert(eval_prefix(p, x, 24) == 16u8);
    assert(eval_prefix(p, x, 25) == 0u8);
}

proof fn lemma_generator_24_root_18()
    ensures
        eval_prefix(generator_coeffs_24(), GF_LOGS[18], 25) == 0,
{
    lemma_sums_24();
    let p = generator_coeffs_24();
    let x = GF_LOGS[18];
    assert(eval_prefix(p, x, 0) == 0u8);
    assert(eval_prefix(p, x, 1) == 1u8);
    assert(eval_prefix(p, x, 2) == 87u8);
    assert(eval_prefix(p, x, 3) == 208u8);
    assert(eval_prefix(p, x, 4) == 207u8);
    assert(eval_prefix(p, x, 5) == 124u8);
    assert(eval_prefix(p, x, 6) == 223u8);
    assert(eval_prefix(p, x, 7) == 61u8);
    assert(eval_prefix(p, x, 8) == 23u8);
    assert(eval_prefix(p, x, 9) == 79u8);
    assert(eval_prefix(p, x, 10) == 74u8);
    assert(eval_prefix(p, x, 11) == 54u8);
    assert(eval_prefix(p, x, 12) == 40u8);
    assert(eval_prefix(p, x, 13) == 245u8);
    assert(eval_prefix(p, x, 14) == 180u8);
    assert(eval_prefix(p, x, 15) == 220u8);
    assert(eval_prefix(p, x, 16) == 154u8);
    assert(eval_prefix(p, x, 17) == 237u8);
    assert(eval_prefix(p, x, 18) == 103u8);
    assert(eval_prefix(p, x, 19) == 132u8);
    assert(eval_prefix(p, x, 20) == 90u8);
    assert(eval_prefix(p, x, 21) == 189u8);
    assert(eval_prefix(p, x, 22) == 179u8);
    assert(eval_prefix(p, x, 23) == 142u8);
    assert(eval_prefix(p, x, 24) == 8u8);
    assert(eval_prefix(p, x, 25) == 0u8);
}

proof fn lemma_generator_24_root_19()
    ensures
        eval_prefix(generator_coeffs_24(), GF_LOGS[19], 25) == 0,
{
    lemma_sums_24();
    let p = generator_coeffs_24();
    let x = GF_LOGS[19];
    assert(eval_prefix(p, x, 0) == 0u8);
    assert(eval_prefix(p, x, 1) == 1u8);
    assert(eval_prefix(p, x, 2) == 32u8);
    assert(eval_prefix(p, x, 3) == 249u8);
    assert(eval_prefix(p, x, 4) == 90u8);
    assert(eval_prefix(p, x, 5) == 210u8);
    assert(eval_prefix(p, x, 6) == 202u8);
    assert(eval_prefix(p, x, 7) == 182u8);
    assert(eval_prefix(p, x, 8) == 89u8);
    assert(eval_prefix(p, x, 9) == 28u8);
    assert(eval_prefix(p, x, 10) == 37u8);
    assert(eval_prefix(p, x, 11) == 54u8);
    assert(eval_prefix(p, x, 12) == 98u8);
    assert(eval_prefix(p, x, 13) == 113u8);
    assert(eval_prefix(p, x, 14) == 157u8);
    assert(eval_prefix(p, x, 15) == 66u8);
    assert(eval_prefix(p, x, 16) == 138u8);
    assert(eval_prefix(p, x, 17) == 115u8);
    assert(eval_prefix(p, x, 18) == 101u8);
    assert(eval_prefix(p, x, 19) == 162u8);
    assert(eval_prefix(p, x, 20) == 208u8);
    assert(eval_prefix(p, x, 21) == 59u8);
    assert(eval_prefix(p, x, 22) == 61u8);
    assert(eval_prefix(p, x, 23) == 90u8);
    assert(eval_prefix(p, x, 24) == 4u8);
    assert(eval_prefix(p, x, 25) == 0u8);
}

proof fn lemma_generator_24_root_20()
    ensures
        eval_prefix(generator_coeffs_24(), GF_LOGS[20], 25) == 0,
{
    lemma_sums_24();
    let p = generator_coeffs_24();
    let x = GF_LOGS[20];
    assert(eval_prefix(p, x, 0) == 0u8);
    assert(eval_prefix(p, x, 1) == 1u8);
    assert(eval_prefix(p, x, 2) == 206u8);
    assert(eval_prefix(p, x, 3) == 42u8);
    assert(eval_prefix(p, x, 4) == 22u8);
    assert(eval_prefix(p, x, 5) == 86u8);
    assert(eval_prefix(p, x, 6) == 164u8);
    assert(eval_prefix(p, x, 7) == 8u8);
    assert(eval_prefix(p, x, 8) == 17u8);
    assert(eval_prefix(p, x, 9) == 93u8);
    assert(eval_prefix(p, x, 10) == 109u8);
    assert(eval_prefix(p, x, 11) == 4u8);
    assert(eval_prefix(p, x, 12) == 15u8);
    assert(eval_prefix(p, x, 13) == 171u8);
    assert(eval_prefix(p, x, 14) == 133u8);
    assert(eval_prefix(p, x, 15) == 26u8);
    assert(eval_prefix(p, x, 16) == 14u8);
    assert(eval_prefix(p, x, 17) == 125u8);
    assert(eval_prefix(p, x, 18) == 211u8);
    assert(eval_prefix(p, x, 19) == 69u8);
    assert(eval_prefix(p, x, 20) == 181u8);
    assert(eval_prefix(p, x, 21) == 41u8);
    assert(eval_prefix(p, x, 22) == 1u8);
    assert(eval_prefix(p, x, 23) == 109u8);
    assert(eval_prefix(p, x, 24) == 2u8);
    assert(eval_prefix(p, x, 25) == 0u8);
}

proof fn lemma_generator_24_root_21()
    ensures
        eval_prefix(generator_coeffs_24(), GF_LOGS[21], 25) == 0,
{
    lemma_sums_24();
    let p = generator_coeffs_24();
    let x = GF_LOGS[21];
    assert(eval_prefix(p, x, 0) == 0u8);
    assert(eval_prefix(p, x, 1) == 1u8);
    assert(eval_prefix(p, x, 2) == 15u8);
    assert(eval_prefix(p, x, 3) == 175u8);
    assert(eval_prefix(p, x, 4) == 110u8);
    assert(eval_prefix(p, x, 5) == 224u8);
    assert(eval_prefix(p, x, 6) == 160u8);
    assert(eval_prefix(p, x, 7) == 243u8);
    assert(eval_prefix(p, x, 8) == 86u8);
    assert(eval_prefix(p, x, 9) == 74u8);
    assert(eval_prefix(p, x, 10) == 26u8);
    assert(eval_prefix(p, x, 11) == 240u8);
    assert(eval_prefix(p, x, 12) == 244u8);
    assert(eval_prefix(p, x, 13) == 145u8);
    assert(eval_prefix(p, x, 14) == 236u8);
    assert(eval_prefix(p, x, 15) == 28u8);
    assert(eval_prefix(p, x, 16) == 120u8);
    assert(eval_prefix(p, x, 17) == 173u8);
    assert(eval_prefix(p, x, 18) == 227u8);
    assert(eval_prefix(p, x, 19) == 140u8);
    assert(eval_prefix(p, x, 20) == 179u8);
    assert(eval_prefix(p, x, 21) == 117u8);
    assert(eval_prefix(p, x, 22) == 202u8);
    assert(eval_prefix(p, x, 23) == 168u8);
    assert(eval_prefix(p, x, 24) == 1u8);
    assert(eval_prefix(p, x, 25) == 0u8);
}

proof fn lemma_generator_24_root_22()
    ensures
        eval_prefix(generator_coeffs_24(), GF_LOGS[22], 25) == 0,
{
    lemma_sums_24();
    let p = generator_coeffs_24();
    let x = GF_LOGS[22];
    assert(eval_prefix(p, x, 0) == 0u8);
    assert(eval_prefix(p, x, 1) == 1u8);
    assert(eval_prefix(p, x, 2) == 144u8);
    assert(eval_prefix(p, x, 3) == 64u8);
    assert(eval_prefix(p, x, 4) == 177u8);
    assert(eval_prefix(p, x, 5) == 150u8);
    assert(eval_prefix(p, x, 6) == 194u8);
    assert(eval_prefix(p, x, 7) == 12u8);
    assert(eval_prefix(p, x, 8) == 84u8);
    assert(eval_prefix(p, x, 9) == 247u8);
    assert(eval_prefix(p, x, 10) == 253u8);
    assert(eval_prefix(p, x, 11) == 210u8);
    assert(eval_prefix(p, x, 12) == 2u8);
    assert(eval_prefix(p, x, 13) == 128u8);
    assert(eval_prefix(p, x, 14) == 178u8);
    assert(eval_prefix(p, x, 15) == 187u8);
    assert(eval_prefix(p, x, 16) == 39u8);
    assert(eval_prefix(p, x, 17) == 139u8);
    assert(eval_prefix(p, x, 18) == 222u8);
    assert(eval_prefix(p, x, 19) == 106u8);
    assert(eval_prefix(p, x, 20) == 51u8);
    assert(eval_prefix(p, x, 21) == 222u8);
    assert(eval_prefix(p, x, 22) == 20u8);
    assert(eval_prefix(p, x, 23) == 80u8);
    assert(eval_prefix(p, x, 24) == 142u8);
    assert(eval_prefix(p, x, 25) == 0u8);
}

proof fn lemma_generator_24_root_23()
    ensures
        eval_prefix(generator_coeffs_24(), GF_LOGS[23], 25) == 0,
{
    lemma_sums_24();
    let p = generator_coeffs_24();
    let x = GF_LOGS[23];
    assert(eval_prefix(p, x, 0) == 0u8);
    assert(eval_prefix(p, x, 1) == 1u8);
    assert(eval_prefix(p, x, 2) == 179u8);
    assert(eval_prefix(p, x, 3) == 68u8);
    assert(eval_prefix(p, x, 4) == 154u8);
    assert(eval_prefix(p, x, 5) == 163u8);
    assert(eval_prefix(p, x, 6) == 140u8);
    assert(eval_prefix(p, x, 7) == 136u8);
    assert(eval_prefix(p, x, 8) == 190u8);
    assert(eval_prefix(p, x, 9) == 152u8);
    assert(eval_prefix(p, x, 10) == 25u8);
    assert(eval_prefix(p, x, 11) == 85u8);
    assert(eval_prefix(p, x, 12) == 19u8);
    assert(eval_prefix(p, x, 13) == 3u8);
    assert(eval_prefix(p, x, 14) == 196u8);
    assert(eval_prefix(p, x, 15) == 27u8);
    assert(eval_prefix(p, x, 16) == 113u8);
    assert(eval_prefix(p, x, 17) == 198u8);
    assert(eval_prefix(p, x, 18) == 18u8);
    assert(eval_prefix(p, x, 19) == 130u8);
    assert(eval_prefix(p, x, 20) == 2u8);
    assert(eval_prefix(p, x, 21) == 120u8);
    assert(eval_prefix(p, x, 22) == 93u8);
    assert(eval_prefix(p, x, 23) == 41u8);
    assert(eval_prefix(p, x, 24) == 71u8);
    assert(eval_prefix(p, x, 25) == 0u8);
}

/// The generator polynomial of degree 24 vanishes at the first 24 powers of `x`.
proof fn lemma_generator_24_roots()
    ensures
        forall|i: int|
            0 <= i < 24 ==> eval_prefix(generator_poly(24), #[trigger] GF_LOGS[i], 25) == 0,
{
    assert(generator_poly(24) =~= generator_coeffs_24());
    lemma_generator_24_root_0();
    lemma_generator_24_root_1();
    lemma_generator_24_root_2();
    lemma_generator_24_root_3();
    lemma_generator_24_root_4();
    lemma_generator_24_root_5();
    lemma_generator_24_root_6();
    lemma_generator_24_root_7();
    lemma_generator_24_root_8();
    lemma_generator_24_root_9();
    lemma_generator_24_root_10();
    lemma_generator_24_root_11();
    lemma_generator_24_root_12();
    lemma_generator_24_root_13();
    lemma_generator_24_root_14();
    lemma_generator_24_root_15();
    lemma_generator_24_root_16();
    lemma_generator_24_root_17();
    lemma_generator_24_root_18();
    lemma_generator_24_root_19();
    lemma_generator_24_root_20();
    lemma_generator_24_root_21();
    lemma_generator_24_root_22();
    lemma_generator_24_root_23();
}

/// The coefficients of the generator polynomial of degree 26.
spec fn generator_coeffs_26() -> Seq<u8> {
    seq![
        1u8, 246u8, 51u8, 183u8, 4u8, 136u8, 98u8, 199u8, 152u8, 77u8, 56u8, 206u8,
        24u8, 145u8, 40u8, 209u8, 117u8, 233u8, 42u8, 135u8, 68u8, 70u8, 144u8, 146u8,
        77u8, 43u8, 94u8,
    ]
}

/// The sums that evaluating the generator polynomial of degree 26 at its roots takes.
proof fn lemma_sums_26()
    by (bit_vector)
    ensures
        0u8 ^ 1u8 == 1u8, 1u8 ^ 146u8 == 147u8, 1u8 ^ 246u8 == 247u8, 2u8 ^ 51u8 == 49u8,
        2u8 ^ 135u8 == 133u8, 2u8 ^ 136u8 == 138u8, 2u8 ^ 246u8 == 244u8, 3u8 ^ 24u8 == 27u8,
        3u8 ^ 43u8 == 40u8, 3u8 ^ 136u8 == 139u8, 3u8 ^ 144u8 == 147u8, 3u8 ^ 246u8 == 245u8,
        4u8 ^ 43u8 == 47u8, 4u8 ^ 77u8 == 73u8, 4u8 ^ 246u8 == 242u8, 5u8 ^ 144u8 == 149u8,
        5u8 ^ 199u8 == 194u8, 5u8 ^ 206u8 == 203u8, 6u8 ^ 77u8 == 75u8, 6u8 ^ 183u8 == 177u8,
        7u8 ^ 4u8 == 3u8, 7u8 ^ 146u8 == 149u8, 8u8 ^ 40u8 == 32u8, 8u8 ^ 43u8 == 35u8,
        8u8 ^ 145u8 == 153u8, 8u8 ^ 152u8 == 144u8, 8u8 ^ 246u8 == 254u8, 9u8 ^ 117u8 == 124u8,
        10u8 ^ 42u8 == 32u8, 10u8 ^ 199u8 == 205u8, 11u8 ^ 77u8 == 70u8, 11u8 ^ 136u8 == 131u8,
        11u8 ^ 145u8 == 154u8, 11u8 ^ 206u8 == 197u8, 12u8 ^ 183u8 == 187u8, 13u8 ^ 70u8 == 75u8,
        13u8 ^ 206u8 == 195u8, 15u8 ^ 206u8 == 193u8, 16u8 ^ 135u8 == 151u8, 16u8 ^ 246u8 == 230u8,
        17u8 ^ 56u8 == 41u8, 17u8 ^ 117u8 == 100u8, 17u8 ^ 183u8 == 166u8, 19u8 ^ 4u8 == 23u8,
        19u8 ^ 145u8 == 130u8, 19u8 ^ 246u8 == 229u8, 20u8 ^ 199u8 == 211u8, 22u8 ^ 4u8 == 18u8,
        22u8 ^ 51u8 == 37u8, 22u8 ^ 98u8 == 116u8, 22u8 ^ 136u8 == 158u8, 25u8 ^ 77u8 == 84u8,
        25u8 ^ 117u8 == 108u8, 25u8 ^ 145u8 == 136u8, 25u8 ^ 209u8 == 200u8, 26u8 ^ 70u8 == 92u8,
        26u8 ^ 77u8 == 87u8, 26u8 ^ 146u8 == 136u8, 26u8 ^ 183u8 == 173u8, 27u8 ^ 68u8 == 95u8,
        28u8 ^ 40u8 == 52u8, 28u8 ^ 42u8 == 54u8, 28u8 ^ 199u8 == 219u8, 29u8 ^ 42u8 == 55u8,
        29u8 ^ 246u8 == 235u8, 30u8 ^ 42u8 == 52u8, 30u8 ^ 117u8 == 107u8, 31u8 ^ 42u8 == 53u8,
        31u8 ^ 77u8 == 82u8, 32u8 ^ 77u8 == 109u8, 32u8 ^ 135u8 == 167u8, 32u8 ^ 206u8 == 238u8,
        32u8 ^ 246u8 == 214u8, 33u8 ^ 43u8 == 10u8, 33u8 ^ 68u8 == 101u8, 33u8 ^ 136u8 == 169u8,
        34u8 ^ 4u8 == 38u8, 34u8 ^ 117u8 == 87u8, 35u8 ^ 24u8 == 59u8, 35u8 ^ 42u8 == 9u8,
        35u8 ^ 135u8 == 164u8, 35u8 ^ 209u8 == 242u8, 36u8 ^ 145u8 == 181u8, 36u8 ^ 233u8 == 205u8,
        37u8 ^ 77u8 == 104u8, 37u8 ^ 117u8 == 80u8, 38u8 ^ 246u8 == 208u8, 40u8 ^ 98u8 == 74u8,
        41u8 ^ 135u8 == 174u8, 42u8 ^ 68u8 == 110u8, 42u8 ^ 77u8 == 103u8, 42u8 ^ 117u8 == 95u8,
        42u8 ^ 145u8 == 187u8, 42u8 ^ 206u8 == 228u8, 43u8 ^ 183u8 == 156u8, 43u8 ^ 199u8 == 236u8,
        44u8 ^ 70u8 == 106u8, 44u8 ^ 98u8 == 78u8, 44u8 ^ 144u8 == 188u8, 44u8 ^ 209u8 == 253u8,
        45u8 ^ 40u8 == 5u8, 45u8 ^ 98u8 == 79u8, 45u8 ^ 136u8 == 165u8, 45u8 ^ 246u8 == 219u8,
        46u8 ^ 24u8 == 54u8, 46u8 ^ 43u8 == 5u8, 47u8 ^ 42u8 == 5u8, 48u8 ^ 24u8 == 40u8,
        48u8 ^ 70u8 == 118u8, 48u8 ^ 98u8 == 82u8, 49u8 ^ 4u8 == 53u8, 49u8 ^ 98u8 == 83u8,
        50u8 ^ 24u8 == 42u8, 50u8 ^ 77u8 == 127u8, 50u8 ^ 144u8 == 162u8, 51u8 ^ 68u8 == 119u8,
        51u8 ^ 233u8 == 218u8, 52u8 ^ 4u8 == 48u8, 52u8 ^ 77u8 == 121u8, 52u8 ^ 135u8 == 179u8,
        52u8 ^ 209u8 == 229u8, 53u8 ^ 199u8 == 242u8, 54u8 ^ 183u8 == 129u8, 55u8 ^ 68u8 == 115u8,
        55u8 ^ 117u8 == 66u8, 55u8 ^ 152u8 == 175u8, 55u8 ^ 233u8 == 222u8, 56u8 ^ 40u8 == 16u8,
        56u8 ^ 68u8 == 124u8, 56u8 ^ 77u8 == 117u8, 56u8 ^ 209u8 == 233u8, 57u8 ^ 146u8 == 171u8,
        58u8 ^ 4u8 == 62u8, 58u8 ^ 56u8 == 2u8, 58u8 ^ 117u8 == 79u8, 58u8 ^ 144u8 == 170u8,
        58u8 ^ 246u8 == 204u8, 59u8 ^ 4u8 == 63u8, 59u8 ^ 40u8 == 19u8, 59u8 ^ 56u8 == 3u8,
        59u8 ^ 70u8 == 125u8, 59u8 ^ 146u8 == 169u8, 59u8 ^ 152u8 == 163u8, 59u8 ^ 209u8 == 234u8,
        60u8 ^ 145u8 == 173u8, 61u8 ^ 70u8 == 123u8, 61u8 ^ 209u8 == 236u8, 62u8 ^ 4u8 == 58u8,
        62u8 ^ 56u8 == 6u8, 63u8 ^ 43u8 == 20u8, 64u8 ^ 56u8 == 120u8, 64u8 ^ 246u8 == 182u8,
        65u8 ^ 98u8 == 35u8, 65u8 ^ 152u8 == 217u8, 66u8 ^ 24u8 == 90u8, 66u8 ^ 42u8 == 104u8,
        66u8 ^ 43u8 == 105u8, 67u8 ^ 152u8 == 219u8, 68u8 ^ 42u8 == 110u8, 68u8 ^ 43u8 == 111u8,
        68u8 ^ 56u8 == 124u8, 68u8 ^ 77u8 == 9u8, 68u8 ^ 98u8 == 38u8, 69u8 ^ 42u8 == 111u8,
        70u8 ^ 183u8 == 241u8, 71u8 ^ 98u8 == 37u8, 72u8 ^ 24u8 == 80u8, 72u8 ^ 98u8 == 42u8,
        72u8 ^ 135u8 == 207u8, 73u8 ^ 98u8 == 43u8, 74u8 ^ 43u8 == 97u8, 74u8 ^ 152u8 == 210u8,
        75u8 ^ 70u8 == 13u8, 76u8 ^ 4u8 == 72u8, 76u8 ^ 144u8 == 220u8, 76u8 ^ 246u8 == 186u8,
        77u8 ^ 24u8 == 85u8, 77u8 ^ 40u8 == 101u8, 78u8 ^ 42u8 == 100u8, 78u8 ^ 77u8 == 3u8,
        78u8 ^ 144u8 == 222u8, 78u8 ^ 233u8 == 167u8, 79u8 ^ 51u8 == 124u8, 79u8 ^ 77u8 == 2u8,
        79u8 ^ 144u8 == 223u8, 80u8 ^ 24u8 == 72u8, 80u8 ^ 77u8 == 29u8, 81u8 ^ 117u8 == 36u8,
        82u8 ^ 4u8 == 86u8, 82u8 ^ 117u8 == 39u8, 82u8 ^ 199u8 == 149u8, 82u8 ^ 233u8 == 187u8,
        83u8 ^ 135u8 == 212u8, 83u8 ^ 183u8 == 228u8, 83u8 ^ 209u8 == 130u8, 85u8 ^ 56u8 == 109u8,
        85u8 ^ 206u8 == 155u8, 86u8 ^ 146u8 == 196u8, 87u8 ^ 40u8 == 127u8, 87u8 ^ 51u8 == 100u8,
        87u8 ^ 68u8 == 19u8, 87u8 ^ 144u8 == 199u8, 87u8 ^ 183u8 == 224u8, 87u8 ^ 209u8 == 134u8,
        88u8 ^ 70u8 == 30u8, 88u8 ^ 77u8 == 21u8, 88u8 ^ 199u8 == 159u8, 88u8 ^ 233u8 == 177u8,
        89u8 ^ 145u8 == 200u8, 89u8 ^ 152u8 == 193u8, 89u8 ^ 233u8 == 176u8, 90u8 ^ 40u8 == 114u8,
        90u8 ^ 152u8 == 194u8, 90u8 ^ 233u8 == 179u8, 90u8 ^ 246u8 == 172u8, 91u8 ^ 4u8 == 95u8,
        91u8 ^ 77u8 == 22u8, 92u8 ^ 136u8 == 212u8, 93u8 ^ 68u8 == 25u8, 93u8 ^ 77u8 == 16u8,
        93u8 ^ 233u8 == 180u8, 94u8 ^ 94u8 == 0u8, 94u8 ^ 152u8 == 198u8, 95u8 ^ 56u8 == 103u8,
        95u8 ^ 136u8 == 215u8, 95u8 ^ 209u8 == 142u8, 96u8 ^ 146u8 == 242u8, 96u8 ^ 206u8 == 174u8,
        97u8 ^ 24u8 == 121u8, 97u8 ^ 68u8 == 37u8, 97u8 ^ 77u8 == 44u8, 97u8 ^ 145u8 == 240u8,
        98u8 ^ 70u8 == 36u8, 98u8 ^ 145u8 == 243u8, 98u8 ^ 233u8 == 139u8, 99u8 ^ 24u8 == 123u8,
        99u8 ^ 206u8 == 173u8, 100u8 ^ 42u8 == 78u8, 100u8 ^ 51u8 == 87u8, 100u8 ^ 70u8 == 34u8,
        100u8 ^ 98u8 == 6u8, 100u8 ^ 206u8 == 170u8, 101u8 ^ 135u8 == 226u8, 101u8 ^ 206u8 == 171u8,
        102u8 ^ 68u8 == 34u8, 102u8 ^ 146u8 == 244u8, 104u8 ^ 51u8 == 91u8, 104u8 ^ 146u8 == 250u8,
        105u8 ^ 4u8 == 109u8, 105u8 ^ 135u8 == 238u8, 106u8 ^ 56u8 == 82u8, 106u8 ^ 77u8 == 39u8,
        106u8 ^ 199u8 == 173u8, 107u8 ^ 77u8 == 38u8, 107u8 ^ 135u8 == 236u8, 107u8 ^ 144u8 == 251u8,
        107u8 ^ 233u8 == 130u8, 108u8 ^ 144u8 == 252u8, 109u8 ^ 43u8 == 70u8, 109u8 ^ 70u8 == 43u8,
        110u8 ^ 40u8 == 70u8, 110u8 ^ 136u8 == 230u8, 110u8 ^ 144u8 == 254u8, 110u8 ^ 145u8 == 255u8,
        110u8 ^ 152u8 == 246u8, 110u8 ^ 209u8 == 191u8, 111u8 ^ 56u8 == 87u8, 111u8 ^ 144u8 == 255u8,
        111u8 ^ 152u8 == 247u8, 112u8 ^ 51u8 == 67u8, 112u8 ^ 70u8 == 54u8, 112u8 ^ 135u8 == 247u8,
        112u8 ^ 146u8 == 226u8, 113u8 ^ 4u8 == 117u8, 113u8 ^ 98u8 == 19u8, 113u8 ^ 209u8 == 160u8,
        115u8 ^ 4u8 == 119u8, 115u8 ^ 51u8 == 64u8, 115u8 ^ 56u8 == 75u8, 115u8 ^ 136u8 == 251u8,
        115u8 ^ 199u8 == 180u8, 116u8 ^ 4u8 == 112u8, 116u8 ^ 43u8 == 95u8, 116u8 ^ 146u8 == 230u8,
        116u8 ^ 246u8 == 130u8, 117u8 ^ 43u8 == 94u8, 117u8 ^ 152u8 == 237u8, 117u8 ^ 199u8 == 178u8,
        117u8 ^ 209u8 == 164u8, 117u8 ^ 246u8 == 131u8, 118u8 ^ 43u8 == 93u8, 118u8 ^ 135u8 == 241u8,
        118u8 ^ 152u8 == 238u8, 119u8 ^ 42u8 == 93u8, 119u8 ^ 136u8 == 255u8, 119u8 ^ 152u8 == 239u8,
        120u8 ^ 24u8 == 96u8, 120u8 ^ 40u8 == 80u8, 120u8 ^ 136u8 == 240u8, 120u8 ^ 146u8 == 234u8,
        120u8 ^ 199u8 == 191u8, 121u8 ^ 24u8 == 97u8, 121u8 ^ 40u8 == 81u8, 121u8 ^ 42u8 == 83u8,
        121u8 ^ 68u8 == 61u8, 122u8 ^ 199u8 == 189u8, 123u8 ^ 43u8 == 80u8, 123u8 ^ 144u8 == 235u8,
        123u8 ^ 145u8 == 234u8, 124u8 ^ 70u8 == 58u8, 124u8 ^ 233u8 == 149u8, 125u8 ^ 51u8 == 78u8,
        125u8 ^ 145u8 == 236u8, 125u8 ^ 233u8 == 148u8, 126u8 ^ 24u8 == 102u8, 126u8 ^ 40u8 == 86u8,
        126u8 ^ 70u8 == 56u8, 126u8 ^ 77u8 == 51u8, 126u8 ^ 146u8 == 236u8, 127u8 ^ 51u8 == 76u8,
        127u8 ^ 136u8 == 247u8, 128u8 ^ 209u8 == 81u8, 128u8 ^ 246u8 == 118u8, 129u8 ^ 68u8 == 197u8,
        129u8 ^ 77u8 == 204u8, 129u8 ^ 206u8 == 79u8, 130u8 ^ 42u8 == 168u8, 130u8 ^ 70u8 == 196u8,
        130u8 ^ 145u8 == 19u8, 131u8 ^ 24u8 == 155u8, 131u8 ^ 77u8 == 206u8, 131u8 ^ 146u8 == 17u8,
        132u8 ^ 42u8 == 174u8, 132u8 ^ 70u8 == 194u8, 132u8 ^ 183u8 == 51u8, 133u8 ^ 51u8 == 182u8,
        133u8 ^ 56u8 == 189u8, 134u8 ^ 40u8 == 174u8, 134u8 ^ 51u8 == 181u8, 134u8 ^ 144u8 == 22u8,
        134u8 ^ 183u8 == 49u8, 134u8 ^ 206u8 == 72u8, 134u8 ^ 233u8 == 111u8, 135u8 ^ 51u8 == 180u8,
        135u8 ^ 144u8 == 23u8, 135u8 ^ 246u8 == 113u8, 136u8 ^ 56u8 == 176u8, 136u8 ^ 144u8 == 24u8,
        136u8 ^ 145u8 == 25u8, 136u8 ^ 209u8 == 89u8, 137u8 ^ 135u8 == 14u8, 138u8 ^ 42u8 == 160u8,
        138u8 ^ 43u8 == 161u8, 138u8 ^ 51u8 == 185u8, 138u8 ^ 68u8 == 206u8, 138u8 ^ 117u8 == 255u8,
        138u8 ^ 144u8 == 26u8, 139u8 ^ 40u8 == 163u8, 139u8 ^ 43u8 == 160u8, 139u8 ^ 152u8 == 19u8,
        140u8 ^ 136u8 == 4u8, 140u8 ^ 199u8 == 75u8, 140u8 ^ 206u8 == 66u8, 141u8 ^ 40u8 == 165u8,
        141u8 ^ 56u8 == 181u8, 142u8 ^ 117u8 == 251u8, 142u8 ^ 144u8 == 30u8, 142u8 ^ 199u8 == 73u8,
        143u8 ^ 56u8 == 183u8, 143u8 ^ 70u8 == 201u8, 143u8 ^ 199u8 == 72u8, 143u8 ^ 246u8 == 121u8,
        144u8 ^ 136u8 == 24u8, 144u8 ^ 199u8 == 87u8, 144u8 ^ 206u8 == 94u8, 145u8 ^ 24u8 == 137u8,
        145u8 ^ 43u8 == 186u8, 145u8 ^ 183u8 == 38u8, 145u8 ^ 233u8 == 120u8, 146u8 ^ 43u8 == 185u8,
        146u8 ^ 117u8 == 231u8, 147u8 ^ 206u8 == 93u8, 148u8 ^ 77u8 == 217u8, 149u8 ^ 4u8 == 145u8,
        149u8 ^ 42u8 == 191u8, 149u8 ^ 43u8 == 190u8, 149u8 ^ 77u8 == 216u8, 149u8 ^ 117u8 == 224u8,
        150u8 ^ 4u8 == 146u8, 150u8 ^ 152u8 == 14u8, 151u8 ^ 4u8 == 147u8, 151u8 ^ 146u8 == 5u8,
        151u8 ^ 152u8 == 15u8, 151u8 ^ 183u8 == 32u8, 151u8 ^ 233u8 == 126u8, 152u8 ^ 135u8 == 31u8,
        152u8 ^ 199u8 == 95u8, 152u8 ^ 246u8 == 110u8, 153u8 ^ 68u8 == 221u8, 153u8 ^ 136u8 == 17u8,
        153u8 ^ 145u8 == 8u8, 153u8 ^ 233u8 == 112u8, 154u8 ^ 145u8 == 11u8, 154u8 ^ 199u8 == 93u8,
        154u8 ^ 206u8 == 84u8, 154u8 ^ 233u8 == 115u8, 155u8 ^ 4u8 == 159u8, 155u8 ^ 77u8 == 214u8,
        155u8 ^ 135u8 == 28u8, 157u8 ^ 136u8 == 21u8, 157u8 ^ 199u8 == 90u8, 158u8 ^ 77u8 == 211u8,
        160u8 ^ 40u8 == 136u8, 160u8 ^ 70u8 == 230u8, 160u8 ^ 183u8 == 23u8, 160u8 ^ 199u8 == 103u8,
        162u8 ^ 42u8 == 136u8, 162u8 ^ 68u8 == 230u8, 162u8 ^ 77u8 == 239u8, 163u8 ^ 40u8 == 139u8,
        163u8 ^ 51u8 == 144u8, 164u8 ^ 4u8 == 160u8, 164u8 ^ 24u8 == 188u8, 164u8 ^ 199u8 == 99u8,
        165u8 ^ 183u8 == 18u8, 166u8 ^ 68u8 == 226u8, 166u8 ^ 77u8 == 235u8, 166u8 ^ 183u8 == 17u8,
        167u8 ^ 4u8 == 163u8, 167u8 ^ 43u8 == 140u8, 168u8 ^ 98u8 == 202u8, 169u8 ^ 4u8 == 173u8,
        169u8 ^ 77u8 == 228u8, 169u8 ^ 144u8 == 57u8, 169u8 ^ 152u8 == 49u8, 169u8 ^ 206u8 == 103u8,
        170u8 ^ 40u8 == 130u8, 170u8 ^ 135u8 == 45u8, 170u8 ^ 146u8 == 56u8, 173u8 ^ 77u8 == 224u8,
        173u8 ^ 145u8 == 60u8, 174u8 ^ 68u8 == 234u8, 174u8 ^ 117u8 == 219u8, 174u8 ^ 146u8 == 60u8,
        175u8 ^ 42u8 == 133u8, 175u8 ^ 206u8 == 97u8, 175u8 ^ 209u8 == 126u8, 176u8 ^ 40u8 == 152u8,
        176u8 ^ 42u8 == 154u8, 177u8 ^ 70u8 == 247u8, 178u8 ^ 43u8 == 153u8, 178u8 ^ 68u8 == 246u8,
        180u8 ^ 24u8 == 172u8, 180u8 ^ 43u8 == 159u8, 180u8 ^ 246u8 == 66u8, 181u8 ^ 136u8 == 61u8,
        181u8 ^ 145u8 == 36u8, 181u8 ^ 183u8 == 2u8, 182u8 ^ 98u8 == 212u8, 182u8 ^ 136u8 == 62u8,
        182u8 ^ 146u8 == 36u8, 183u8 ^ 146u8 == 37u8, 183u8 ^ 206u8 == 121u8, 184u8 ^ 51u8 == 139u8,
        184u8 ^ 233u8 == 81u8, 185u8 ^ 144u8 == 41u8, 185u8 ^ 152u8 == 33u8, 186u8 ^ 24u8 == 162u8,
        186u8 ^ 135u8 == 61u8, 186u8 ^ 233u8 == 83u8, 187u8 ^ 145u8 == 42u8, 188u8 ^ 56u8 == 132u8,
        188u8 ^ 77u8 == 241u8, 188u8 ^ 152u8 == 36u8, 190u8 ^ 152u8 == 38u8, 190u8 ^ 209u8 == 111u8,
        190u8 ^ 233u8 == 87u8, 191u8 ^ 135u8 == 56u8, 192u8 ^ 209u8 == 17u8, 193u8 ^ 70u8 == 135u8,
        193u8 ^ 98u8 == 163u8, 194u8 ^ 77u8 == 143u8, 195u8 ^ 42u8 == 233u8, 195u8 ^ 68u8 == 135u8,
        195u8 ^ 77u8 == 142u8, 196u8 ^ 24u8 == 220u8, 196u8 ^ 51u8 == 247u8, 196u8 ^ 183u8 == 115u8,
        197u8 ^ 51u8 == 246u8, 197u8 ^ 98u8 == 167u8, 197u8 ^ 144u8 == 85u8, 197u8 ^ 199u8 == 2u8,
        198u8 ^ 51u8 == 245u8, 198u8 ^ 152u8 == 94u8, 199u8 ^ 4u8 == 195u8, 199u8 ^ 77u8 == 138u8,
        200u8 ^ 135u8 == 79u8, 200u8 ^ 144u8 == 88u8, 200u8 ^ 145u8 == 89u8, 200u8 ^ 233u8 == 33u8,
        201u8 ^ 24u8 == 209u8, 201u8 ^ 68u8 == 141u8, 201u8 ^ 70u8 == 143u8, 201u8 ^ 246u8 == 63u8,
        202u8 ^ 51u8 == 249u8, 202u8 ^ 146u8 == 88u8, 203u8 ^ 51u8 == 248u8, 203u8 ^ 152u8 == 83u8,
        204u8 ^ 183u8 == 123u8, 205u8 ^ 209u8 == 28u8, 205u8 ^ 246u8 == 59u8, 207u8 ^ 144u8 == 95u8,
        207u8 ^ 183u8 == 120u8, 208u8 ^ 77u8 == 157u8, 208u8 ^ 135u8 == 87u8, 208u8 ^ 183u8 == 103u8,
        210u8 ^ 70u8 == 148u8, 210u8 ^ 77u8 == 159u8, 210u8 ^ 209u8 == 3u8, 211u8 ^ 70u8 == 149u8,
        211u8 ^ 183u8 == 100u8, 211u8 ^ 199u8 == 20u8, 212u8 ^ 183u8 == 99u8, 213u8 ^ 68u8 == 145u8,
        213u8 ^ 233u8 == 60u8, 214u8 ^ 42u8 == 252u8, 214u8 ^ 233u8 == 63u8, 215u8 ^ 42u8 == 253u8,
        215u8 ^ 135u8 == 80u8, 216u8 ^ 40u8 == 240u8, 216u8 ^ 77u8 == 149u8, 216u8 ^ 146u8 == 74u8,
        216u8 ^ 209u8 == 9u8, 217u8 ^ 40u8 == 241u8, 217u8 ^ 199u8 == 30u8, 219u8 ^ 4u8 == 223u8,
        219u8 ^ 70u8 == 157u8, 219u8 ^ 98u8 == 185u8, 220u8 ^ 233u8 == 53u8, 221u8 ^ 206u8 == 19u8,
        222u8 ^ 24u8 == 198u8, 222u8 ^ 68u8 == 154u8, 222u8 ^ 77u8 == 147u8, 222u8 ^ 117u8 == 171u8,
        223u8 ^ 51u8 == 236u8, 224u8 ^ 51u8 == 211u8, 224u8 ^ 77u8 == 173u8, 224u8 ^ 98u8 == 130u8,
        225u8 ^ 77u8 == 172u8, 225u8 ^ 144u8 == 113u8, 226u8 ^ 42u8 == 200u8, 226u8 ^ 136u8 == 106u8,
        226u8 ^ 146u8 == 112u8, 226u8 ^ 209u8 == 51u8, 227u8 ^ 136u8 == 107u8, 227u8 ^ 146u8 == 113u8,
        228u8 ^ 136u8 == 108u8, 229u8 ^ 42u8 == 207u8, 229u8 ^ 135u8 == 98u8, 229u8 ^ 146u8 == 119u8,
        229u8 ^ 152u8 == 125u8, 230u8 ^ 117u8 == 147u8, 230u8 ^ 206u8 == 40u8, 230u8 ^ 209u8 == 55u8,
        231u8 ^ 24u8 == 255u8, 231u8 ^ 146u8 == 117u8, 231u8 ^ 152u8 == 127u8, 232u8 ^ 68u8 == 172u8,
        232u8 ^ 98u8 == 138u8, 232u8 ^ 206u8 == 38u8, 232u8 ^ 209u8 == 57u8, 232u8 ^ 246u8 == 30u8,
        233u8 ^ 40u8 == 193u8, 233u8 ^ 43u8 == 194u8, 233u8 ^ 98u8 == 139u8, 234u8 ^ 43u8 == 193u8,
        234u8 ^ 98u8 == 136u8, 234u8 ^ 145u8 == 123u8, 234u8 ^ 246u8 == 28u8, 235u8 ^ 24u8 == 243u8,
        235u8 ^ 68u8 == 175u8, 235u8 ^ 183u8 == 92u8, 236u8 ^ 98u8 == 142u8, 236u8 ^ 136u8 == 100u8,
        236u8 ^ 145u8 == 125u8, 237u8 ^ 117u8 == 152u8, 237u8 ^ 206u8 == 35u8, 238u8 ^ 40u8 == 198u8,
        238u8 ^ 56u8 == 214u8, 239u8 ^ 51u8 == 220u8, 239u8 ^ 77u8 == 162u8, 239u8 ^ 117u8 == 154u8,
        239u8 ^ 136u8 == 103u8, 240u8 ^ 40u8 == 216u8, 240u8 ^ 135u8 == 119u8, 240u8 ^ 136u8 == 120u8,
        240u8 ^ 145u8 == 97u8, 241u8 ^ 68u8 == 181u8, 242u8 ^ 56u8 == 202u8, 243u8 ^ 77u8 == 190u8,
        243u8 ^ 117u8 == 134u8, 243u8 ^ 145u8 == 98u8, 243u8 ^ 152u8 == 107u8, 243u8 ^ 199u8 == 52u8,
        243u8 ^ 233u8 == 26u8, 244u8 ^ 183u8 == 67u8, 244u8 ^ 206u8 == 58u8, 245u8 ^ 43u8 == 222u8,
        245u8 ^ 51u8 == 198u8, 246u8 ^ 70u8 == 176u8, 246u8 ^ 206u8 == 56u8, 246u8 ^ 209u8 == 39u8,
        247u8 ^ 51u8 == 196u8, 247u8 ^ 77u8 == 186u8, 247u8 ^ 135u8 == 112u8, 248u8 ^ 98u8 == 154u8,
        248u8 ^ 209u8 == 41u8, 249u8 ^ 4u8 == 253u8, 249u8 ^ 43u8 == 210u8, 249u8 ^ 135u8 == 126u8,
        250u8 ^ 24u8 == 226u8, 250u8 ^ 56u8 == 194u8, 251u8 ^ 24u8 == 227u8, 251u8 ^ 40u8 == 211u8,
        251u8 ^ 56u8 == 195u8, 251u8 ^ 77u8 == 182u8, 251u8 ^ 136u8 == 115u8, 251u8 ^ 144u8 == 107u8,
        253u8 ^ 70u8 == 187u8, 253u8 ^ 77u8 == 176u8, 255u8 ^ 40u8 == 215u8, 255u8 ^ 56u8 == 199u8,
        255u8 ^ 77u8 == 178u8, 255u8 ^ 98u8 == 157u8, 255u8 ^ 145u8 == 110u8,
{
}

proof fn lemma_generator_26_root_0()
    ensures
        eval_prefix(generator_coeffs_26(), GF_LOGS[0], 27) == 0,
{
    lemma_sums_26();
    let p = generator_coeffs_26();
    let x = GF_LOGS[0];
    assert(eval_prefix(p, x, 0) == 0u8);
    assert(eval_prefix(p, x, 1) == 1u8);
    assert(eval_prefix(p, x, 2) == 247u8);
    assert(eval_prefix(p, x, 3) == 196u8);
    assert(eval_prefix(p, x, 4) == 115u8);
    assert(eval_prefix(p, x, 5) == 119u8);
    assert(eval_prefix(p, x, 6) == 255u8);
    assert(eval_prefix(p, x, 7) == 157u8);
    assert(eval_prefix(p, x, 8) == 90u8);
    assert(eval_prefix(p, x, 9) == 194u8);
    assert(eval_prefix(p, x, 10) == 143u8);
    assert(eval_prefix(p, x, 11) == 183u8);
    assert(eval_prefix(p, x, 12) == 121u8);
    assert(eval_prefix(p, x, 13) == 97u8);
    assert(eval_prefix(p, x, 14) == 240u8);
    assert(eval_prefix(p, x, 15) == 216u8);
    assert(eval_prefix(p, x, 16) == 9u8);
    assert(eval_prefix(p, x, 17) == 124u8);
    assert(eval_prefix(p, x, 18) == 149u8);
    assert(eval_prefix(p, x, 19) == 191u8);
    assert(eval_prefix(p, x, 20) == 56u8);
    assert(eval_prefix(p, x, 21) == 124u8);
    assert(eval_prefix(p, x, 22) == 58u8);
    assert(eval_prefix(p, x, 23) == 170u8);
    assert(eval_prefix(p, x, 24) == 56u8);
    assert(eval_prefix(p, x, 25) == 117u8);
    assert(eval_prefix(p, x, 26) == 94u8);
    assert(eval_prefix(p, x, 27) == 0u8);
}

proof fn lemma_generator_26_root_1()
    ensures
        eval_prefix(generator_coeffs_26(), GF_LOGS[1], 27) == 0,
{
    lemma_sums_26();
    let p = generator_coeffs_26();
    let x = GF_LOGS[1];
    assert(eval_prefix(p, x, 0) == 0u8);
    assert(eval_prefix(p, x, 1) == 1u8);
    assert(eval_prefix(p, x, 2) == 244u8);
    assert(eval_prefix(p, x, 3) == 198u8);
    assert(eval_prefix(p, x, 4) == 38u8);
    assert(eval_prefix(p, x, 5) == 72u8);
    assert(eval_prefix(p, x, 6) == 24u8);
    assert(eval_prefix(p, x, 7) == 82u8);
    assert(eval_prefix(p, x, 8) == 99u8);
    assert(eval_prefix(p, x, 9) == 94u8);
    assert(eval_prefix(p, x, 10) == 241u8);
    assert(eval_prefix(p, x, 11) == 199u8);
    assert(eval_prefix(p, x, 12) == 93u8);
    assert(eval_prefix(p, x, 13) == 162u8);
    assert(eval_prefix(p, x, 14) == 200u8);
    assert(eval_prefix(p, x, 15) == 165u8);
    assert(eval_prefix(p, x, 16) == 134u8);
    assert(eval_prefix(p, x, 17) == 100u8);
    assert(eval_prefix(p, x, 18) == 33u8);
    assert(eval_prefix(p, x, 19) == 104u8);
    assert(eval_prefix(p, x, 20) == 87u8);
    assert(eval_prefix(p, x, 21) == 234u8);
    assert(eval_prefix(p, x, 22) == 143u8);
    assert(eval_prefix(p, x, 23) == 147u8);
    assert(eval_prefix(p, x, 24) == 169u8);
    assert(eval_prefix(p, x, 25) == 2u8);
    assert(eval_prefix(p, x, 26) == 47u8);
    assert(eval_prefix(p, x, 27) == 0u8);
}

proof fn lemma_generator_26_root_2()
    ensures
        eval_prefix(generator_coeffs_26(), GF_LOGS[2], 27) == 0,
{
    lemma_sums_26();
    let p = generator_coeffs_26();
    let x = GF_LOGS[2];
    assert(eval_prefix(p, x, 0) == 0u8);
    assert(eval_prefix(p, x, 1) == 1u8);
    assert(eval_prefix(p, x, 2) == 242u8);
    assert(eval_prefix(p, x, 3) == 220u8);
    assert(eval_prefix(p, x, 4) == 224u8);
    assert(eval_prefix(p, x, 5) == 163u8);
    assert(eval_prefix(p, x, 6) == 62u8);
    assert(eval_prefix(p, x, 7) == 154u8);
    assert(eval_prefix(p, x, 8) == 149u8);
    assert(eval_prefix(p, x, 9) == 246u8);
    assert(eval_prefix(p, x, 10) == 178u8);
    assert(eval_prefix(p, x, 11) == 202u8);
    assert(eval_prefix(p, x, 12) == 193u8);
    assert(eval_prefix(p, x, 13) == 59u8);
    assert(eval_prefix(p, x, 14) == 125u8);
    assert(eval_prefix(p, x, 15) == 193u8);
    assert(eval_prefix(p, x, 16) == 242u8);
    assert(eval_prefix(p, x, 17) == 154u8);
    assert(eval_prefix(p, x, 18) == 187u8);
    assert(eval_prefix(p, x, 19) == 252u8);
    assert(eval_prefix(p, x, 20) == 80u8);
    assert(eval_prefix(p, x, 21) == 25u8);
    assert(eval_prefix(p, x, 22) == 34u8);
    assert(eval_prefix(p, x, 23) == 24u8);
    assert(eval_prefix(p, x, 24) == 242u8);
    assert(eval_prefix(p, x, 25) == 162u8);
    assert(eval_prefix(p, x, 26) == 153u8);
    assert(eval_prefix(p, x, 27) == 0u8);
}

proof fn lemma_generator_26_root_3()
    ensures
        eval_prefix(generator_coeffs_26(), GF_LOGS[3], 27) == 0,
{
    lemma_sums_26();
    let p = generator_coeffs_26();
    let x = GF_LOGS[3];
    assert(eval_prefix(p, x, 0) == 0u8);
    assert(eval_prefix(p, x, 1) == 1u8);
    assert(eval_prefix(p, x, 2) == 254u8);
    assert(eval_prefix(p, x, 3) == 144u8);
    assert(eval_prefix(p, x, 4) == 67u8);
    assert(eval_prefix(p, x, 5) == 38u8);
    assert(eval_prefix(p, x, 6) == 165u8);
    assert(eval_prefix(p, x, 7) == 35u8);
    assert(eval_prefix(p, x, 8) == 194u8);
    assert(eval_prefix(p, x, 9) == 198u8);
    assert(eval_prefix(p, x, 10) == 51u8);
    assert(eval_prefix(p, x, 11) == 189u8);
    assert(eval_prefix(p, x, 12) == 79u8);
    assert(eval_prefix(p, x, 13) == 90u8);
    assert(eval_prefix(p, x, 14) == 123u8);
    assert(eval_prefix(p, x, 15) == 215u8);
    assert(eval_prefix(p, x, 16) == 39u8);
    assert(eval_prefix(p, x, 17) == 80u8);
    assert(eval_prefix(p, x, 18) == 83u8);
    assert(eval_prefix(p, x, 19) == 136u8);
    assert(eval_prefix(p, x, 20) == 179u8);
    assert(eval_prefix(p, x, 21) == 181u8);
    assert(eval_prefix(p, x, 22) == 135u8);
    assert(eval_prefix(p, x, 23) == 220u8);
    assert(eval_prefix(p, x, 24) == 60u8);
    assert(eval_prefix(p, x, 25) == 176u8);
    assert(eval_prefix(p, x, 26) == 194u8);
    assert(eval_prefix(p, x, 27) == 0u8);
}

proof fn lemma_generator_26_root_4()
    ensures
        eval_prefix(generator_coeffs_26(), GF_LOGS[4], 27) == 0,
{
    lemma_sums_26();
    let p = generator_coeffs_26();
    let x = GF_LOGS[4];
    assert(eval_prefix(p, x, 0) == 0u8);
    assert(eval_prefix(p, x, 1) == 1u8);
    assert(eval_prefix(p, x, 2) == 230u8);
    assert(eval_prefix(p, x, 3) == 245u8);
    assert(eval_prefix(p, x, 4) == 92u8);
    assert(eval_prefix(p, x, 5) == 173u8);
    assert(eval_prefix(p, x, 6) == 138u8);
    assert(eval_prefix(p, x, 7) == 42u8);
    assert(eval_prefix(p, x, 8) == 93u8);
    assert(eval_prefix(p, x, 9) == 33u8);
    assert(eval_prefix(p, x, 10) == 103u8);
    assert(eval_prefix(p, x, 11) == 6u8);
    assert(eval_prefix(p, x, 12) == 174u8);
    assert(eval_prefix(p, x, 13) == 42u8);
    assert(eval_prefix(p, x, 14) == 11u8);
    assert(eval_prefix(p, x, 15) == 152u8);
    assert(eval_prefix(p, x, 16) == 164u8);
    assert(eval_prefix(p, x, 17) == 231u8);
    assert(eval_prefix(p, x, 18) == 63u8);
    assert(eval_prefix(p, x, 19) == 253u8);
    assert(eval_prefix(p, x, 20) == 236u8);
    assert(eval_prefix(p, x, 21) == 34u8);
    assert(eval_prefix(p, x, 22) == 92u8);
    assert(eval_prefix(p, x, 23) == 57u8);
    assert(eval_prefix(p, x, 24) == 37u8);
    assert(eval_prefix(p, x, 25) == 39u8);
    assert(eval_prefix(p, x, 26) == 97u8);
    assert(eval_prefix(p, x, 27) == 0u8);
}

proof fn lemma_generator_26_root_5()
    ensures
        eval_prefix(generator_coeffs_26(), GF_LOGS[5], 27) == 0,
{
    lemma_sums_26();
    let p = generator_coeffs_26();
    let x = GF_LOGS[5];
    assert(eval_prefix(p, x, 0) == 0u8);
    assert(eval_prefix(p, x, 1) == 1u8);
    assert(eval_prefix(p, x, 2) == 214u8);
    assert(eval_prefix(p, x, 3) == 236u8);
    assert(eval_prefix(p, x, 4) == 123u8);
    assert(eval_prefix(p, x, 5) == 223u8);
    assert(eval_prefix(p, x, 6) == 106u8);
    assert(eval_prefix(p, x, 7) == 163u8);
    assert(eval_prefix(p, x, 8) == 30u8);
    assert(eval_prefix(p, x, 9) == 127u8);
    assert(eval_prefix(p, x, 10) == 22u8);
    assert(eval_prefix(p, x, 11) == 194u8);
    assert(eval_prefix(p, x, 12) == 171u8);
    assert(eval_prefix(p, x, 13) == 220u8);
    assert(eval_prefix(p, x, 14) == 19u8);
    assert(eval_prefix(p, x, 15) == 114u8);
    assert(eval_prefix(p, x, 16) == 55u8);
    assert(eval_prefix(p, x, 17) == 219u8);
    assert(eval_prefix(p, x, 18) == 139u8);
    assert(eval_prefix(p, x, 19) == 154u8);
    assert(eval_prefix(p, x, 20) == 45u8);
    assert(eval_prefix(p, x, 21) == 141u8);
    assert(eval_prefix(p, x, 22) == 54u8);
    assert(eval_prefix(p, x, 23) == 30u8);
    assert(eval_prefix(p, x, 24) == 117u8);
    assert(eval_prefix(p, x, 25) == 75u8);
    assert(eval_prefix(p, x, 26) == 190u8);
    assert(eval_prefix(p, x, 27) == 0u8);
}

proof fn lemma_generator_26_root_6()
    ensures
        eval_prefix(generator_coeffs_26(), GF_LOGS[6], 27) == 0,
{
    lemma_sums_26();
    let p = generator_coeffs_26();
    let x = GF_LOGS[6];
    assert(eval_prefix(p, x, 0) == 0u8);
    assert(eval_prefix(p, x, 1) == 1u8);
    assert(eval_prefix(p, x, 2) == 182u8);
    assert(eval_prefix(p, x, 3) == 181u8);
    assert(eval_prefix(p, x, 4) == 241u8);
    assert(eval_prefix(p, x, 5) == 146u8);
    assert(eval_prefix(p, x, 6) == 251u8);
    assert(eval_prefix(p, x, 7) == 78u8);
    assert(eval_prefix(p, x, 8) == 173u8);
    assert(eval_prefix(p, x, 9) == 144u8);
    assert(eval_prefix(p, x, 10) == 190u8);
    assert(eval_prefix(p, x, 11) == 132u8);
    assert(eval_prefix(p, x, 12) == 84u8);
    assert(eval_prefix(p, x, 13) == 188u8);
    assert(eval_prefix(p, x, 14) == 173u8);
    assert(eval_prefix(p, x, 15) == 32u8);
    assert(eval_prefix(p, x, 16) == 57u8);
    assert(eval_prefix(p, x, 17) == 147u8);
    assert(eval_prefix(p, x, 18) == 218u8);
    assert(eval_prefix(p, x, 19) == 174u8);
    assert(eval_prefix(p, x, 20) == 79u8);
    assert(eval_prefix(p, x, 21) == 110u8);
    assert(eval_prefix(p, x, 22) == 196u8);
    assert(eval_prefix(p, x, 23) == 199u8);
    assert(eval_prefix(p, x, 24) == 5u8);
    assert(eval_prefix(p, x, 25) == 16u8);
    assert(eval_prefix(p, x, 26) == 95u8);
    assert(eval_prefix(p, x, 27) == 0u8);
}

proof fn lemma_generator_26_root_7()
    ensures
        eval_prefix(generator_coeffs_26(), GF_LOGS[7], 27) == 0,
{
    lemma_sums_26();
    let p = generator_coeffs_26();
    let x = GF_LOGS[7];
    assert(eval_prefix(p, x, 0) == 0u8);
    assert(eval_prefix(p, x, 1) == 1u8);
    assert(eval_prefix(p, x, 2) == 118u8);
    assert(eval_prefix(p, x, 3) == 182u8);
    assert(eval_prefix(p, x, 4) == 166u8);
    assert(eval_prefix(p, x, 5) == 253u8);
    assert(eval_prefix(p, x, 6) == 247u8);
    assert(eval_prefix(p, x, 7) == 116u8);
    assert(eval_prefix(p, x, 8) == 95u8);
    assert(eval_prefix(p, x, 9) == 36u8);
    assert(eval_prefix(p, x, 10) == 186u8);
    assert(eval_prefix(p, x, 11) == 103u8);
    assert(eval_prefix(p, x, 12) == 35u8);
    assert(eval_prefix(p, x, 13) == 72u8);
    assert(eval_prefix(p, x, 14) == 98u8);
    assert(eval_prefix(p, x, 15) == 127u8);
    assert(eval_prefix(p, x, 16) == 160u8);
    assert(eval_prefix(p, x, 17) == 171u8);
    assert(eval_prefix(p, x, 18) == 222u8);
    assert(eval_prefix(p, x, 19) == 5u8);
    assert(eval_prefix(p, x, 20) == 61u8);
    assert(eval_prefix(p, x, 21) == 175u8);
    assert(eval_prefix(p, x, 22) == 75u8);
    assert(eval_prefix(p, x, 23) == 254u8);
    assert(eval_prefix(p, x, 24) == 112u8);
    assert(eval_prefix(p, x, 25) == 239u8);
    assert(eval_prefix(p, x, 26) == 161u8);
    assert(eval_prefix(p, x, 27) == 0u8);
}

proof fn lemma_generator_26_root_8()
    ensures
        eval_prefix(generator_coeffs_26(), GF_LOGS[8], 27) == 0,
{
    lemma_sums_26();
    let p = generator_coeffs_26();
    let x = GF_LOGS[8];
    assert(eval_prefix(p, x, 0) == 0u8);
    assert(eval_prefix(p, x, 1) == 1u8);
    assert(eval_prefix(p, x, 2) == 235u8);
    assert(eval_prefix(p, x, 3) == 78u8);
    assert(eval_prefix(p, x, 4) == 2u8);
    assert(eval_prefix(p, x, 5) == 62u8);
    assert(eval_prefix(p, x, 6) == 100u8);
    assert(eval_prefix(p, x, 7) == 130u8);
    assert(eval_prefix(p, x, 8) == 219u8);
    assert(eval_prefix(p, x, 9) == 175u8);
    assert(eval_prefix(p, x, 10) == 87u8);
    assert(eval_prefix(p, x, 11) == 181u8);
    assert(eval_prefix(p, x, 12) == 203u8);
    assert(eval_prefix(p, x, 13) == 226u8);
    assert(eval_prefix(p, x, 14) == 25u8);
    assert(eval_prefix(p, x, 15) == 16u8);
    assert(eval_prefix(p, x, 16) == 28u8);
    assert(eval_prefix(p, x, 17) == 36u8);
    assert(eval_prefix(p, x, 18) == 26u8);
    assert(eval_prefix(p, x, 19) == 53u8);
    assert(eval_prefix(p, x, 20) == 164u8);
    assert(eval_prefix(p, x, 21) == 145u8);
    assert(eval_prefix(p, x, 22) == 176u8);
    assert(eval_prefix(p, x, 23) == 252u8);
    assert(eval_prefix(p, x, 24) == 113u8);
    assert(eval_prefix(p, x, 25) == 9u8);
    assert(eval_prefix(p, x, 26) == 222u8);
    assert(eval_prefix(p, x, 27) == 0u8);
}

proof fn lemma_generator_26_root_9()
    ensures
        eval_prefix(generator_coeffs_26(), GF_LOGS[9], 27) == 0,
{
    lemma_sums_26();
    let p = generator_coeffs_26();
    let x = GF_LOGS[9];
    assert(eval_prefix(p, x, 0) == 0u8);
    assert(eval_prefix(p, x, 1) == 1u8);
    assert(eval_prefix(p, x, 2) == 204u8);
    assert(eval_prefix(p, x, 3) == 124u8);
    assert(eval_prefix(p, x, 4) == 32u8);
    assert(eval_prefix(p, x, 5) == 23u8);
    assert(eval_prefix(p, x, 6) == 169u8);
    assert(eval_prefix(p, x, 7) == 202u8);
    assert(eval_prefix(p, x, 8) == 20u8);
    assert(eval_prefix(p, x, 9) == 247u8);
    assert(eval_prefix(p, x, 10) == 21u8);
    assert(eval_prefix(p, x, 11) == 109u8);
    assert(eval_prefix(p, x, 12) == 228u8);
    assert(eval_prefix(p, x, 13) == 137u8);
    assert(eval_prefix(p, x, 14) == 42u8);
    assert(eval_prefix(p, x, 15) == 130u8);
    assert(eval_prefix(p, x, 16) == 233u8);
    assert(eval_prefix(p, x, 17) == 251u8);
    assert(eval_prefix(p, x, 18) == 148u8);
    assert(eval_prefix(p, x, 19) == 9u8);
    assert(eval_prefix(p, x, 20) == 112u8);
    assert(eval_prefix(p, x, 21) == 246u8);
    assert(eval_prefix(p, x, 22) == 36u8);
    assert(eval_prefix(p, x, 23) == 107u8);
    assert(eval_prefix(p, x, 24) == 36u8);
    assert(eval_prefix(p, x, 25) == 182u8);
    assert(eval_prefix(p, x, 26) == 111u8);
    assert(eval_prefix(p, x, 27) == 0u8);
}

proof fn lemma_generator_26_root_10()
    ensures
        eval_prefix(generator_coeffs_26(), GF_LOGS[10], 27) == 0,
{
    lemma_sums_26();
    let p = generator_coeffs_26();
    let x = GF_LOGS[10];
    assert(eval_prefix(p, x, 0) == 0u8);
    assert(eval_prefix(p, x, 1) == 1u8);
    assert(eval_prefix(p, x, 2) == 130u8);
    assert(eval_prefix(p, x, 3) == 67u8);
    assert(eval_prefix(p, x, 4) == 103u8);
    assert(eval_prefix(p, x, 5) == 63u8);
    assert(eval_prefix(p, x, 6) == 107u8);
    assert(eval_prefix(p, x, 7) == 19u8);
    assert(eval_prefix(p, x, 8) == 72u8);
    assert(eval_prefix(p, x, 9) == 83u8);
    assert(eval_prefix(p, x, 10) == 142u8);
    assert(eval_prefix(p, x, 11) == 2u8);
    assert(eval_prefix(p, x, 12) == 38u8);
    assert(eval_prefix(p, x, 13) == 27u8);
    assert(eval_prefix(p, x, 14) == 153u8);
    assert(eval_prefix(p, x, 15) == 80u8);
    assert(eval_prefix(p, x, 16) == 142u8);
    assert(eval_prefix(p, x, 17) == 79u8);
    assert(eval_prefix(p, x, 18) == 115u8);
    assert(eval_prefix(p, x, 19) == 207u8);
    assert(eval_prefix(p, x, 20) == 133u8);
    assert(eval_prefix(p, x, 21) == 101u8);
    assert(eval_prefix(p, x, 22) == 149u8);
    assert(eval_prefix(p, x, 23) == 162u8);
    assert(eval_prefix(p, x, 24) == 196u8);
    assert(eval_prefix(p, x, 25) == 84u8);
    assert(eval_prefix(p, x, 26) == 185u8);
    assert(eval_prefix(p, x, 27) == 0u8);
}

proof fn lemma_generator_26_root_11()
    ensures
        eval_prefix(generator_coeffs_26(), GF_LOGS[11], 27) == 0,
{
    lemma_sums_26();
    let p = generator_coeffs_26();
    let x = GF_LOGS[11];
    assert(eval_prefix(p, x, 0) == 0u8);
    assert(eval_prefix(p, x, 1) == 1u8);
    assert(eval_prefix(p, x, 2) == 30u8);
    assert(eval_prefix(p, x, 3) == 76u8);
    assert(eval_prefix(p, x, 4) == 187u8);
    assert(eval_prefix(p, x, 5) == 117u8);
    assert(eval_prefix(p, x, 6) == 21u8);
    assert(eval_prefix(p, x, 7) == 43u8);
    assert(eval_prefix(p, x, 8) == 189u8);
    assert(eval_prefix(p, x, 9) == 163u8);
    assert(eval_prefix(p, x, 10) == 9u8);
    assert(eval_prefix(p, x, 11) == 195u8);
    assert(eval_prefix(p, x, 12) == 94u8);
    assert(eval_prefix(p, x, 13) == 255u8);
    assert(eval_prefix(p, x, 14) == 255u8);
    assert(eval_prefix(p, x, 15) == 70u8);
    assert(eval_prefix(p, x, 16) == 3u8);
    assert(eval_prefix(p, x, 17) == 80u8);
    assert(eval_prefix(p, x, 18) == 87u8);
    assert(eval_prefix(p, x, 19) == 54u8);
    assert(eval_prefix(p, x, 20) == 167u8);
    assert(eval_prefix(p, x, 21) == 135u8);
    assert(eval_prefix(p, x, 22) == 201u8);
    assert(eval_prefix(p, x, 23) == 222u8);
    assert(eval_prefix(p, x, 24) == 88u8);
    assert(eval_prefix(p, x, 25) == 224u8);
    assert(eval_prefix(p, x, 26) == 210u8);
    assert(eval_prefix(p, x, 27) == 0u8);
}

proof fn lemma_generator_26_root_12()
    ensures
        eval_prefix(generator_coeffs_26(), GF_LOGS[12], 27) == 0,
{
    lemma_sums_26();
    let p = generator_coeffs_26();
    let x = GF_LOGS[12];
    assert(eval_prefix(p, x, 0) == 0u8);
    assert(eval_prefix(p, x, 1) == 1u8);
    assert(eval_prefix(p, x, 2) == 59u8);
    assert(eval_prefix(p, x, 3) == 139u8);
    assert(eval_prefix(p, x, 4) == 129u8);
    assert(eval_prefix(p, x, 5) == 147u8);
    assert(eval_prefix(p, x, 6) == 212u8);
    assert(eval_prefix(p, x, 7) == 74u8);
    assert(eval_prefix(p, x, 8) == 75u8);
    assert(eval_prefix(p, x, 9) == 217u8);
    assert(eval_prefix(p, x, 10) == 157u8);
    assert(eval_prefix(p, x, 11) == 214u8);
    assert(eval_prefix(p, x, 12) == 97u8);
    assert(eval_prefix(p, x, 13) == 96u8);
    assert(eval_prefix(p, x, 14) == 36u8);
    assert(eval_prefix(p, x, 15) == 163u8);
    assert(eval_prefix(p, x, 16) == 89u8);
    assert(eval_prefix(p, x, 17) == 255u8);
    assert(eval_prefix(p, x, 18) == 53u8);
    assert(eval_prefix(p, x, 19) == 32u8);
    assert(eval_prefix(p, x, 20) == 31u8);
    assert(eval_prefix(p, x, 21) == 119u8);
    assert(eval_prefix(p, x, 22) == 230u8);
    assert(eval_prefix(p, x, 23) == 235u8);
    assert(eval_prefix(p, x, 24) == 17u8);
    assert(eval_prefix(p, x, 25) == 204u8);
    assert(eval_prefix(p, x, 26) == 105u8);
    assert(eval_prefix(p, x, 27) == 0u8);
}

proof fn lemma_generator_26_root_13()
    ensures
        eval_prefix(generator_coeffs_26(), GF_LOGS[13], 27) == 0,
{
    lemma_sums_26();
    let p = generator_coeffs_26();
    let x = GF_LOGS[13];
    assert(eval_prefix(p, x, 0) == 0u8);
    assert(eval_prefix(p, x, 1) == 1u8);
    assert(eval_prefix(p, x, 2) == 113u8);
    assert(eval_prefix(p, x, 3) == 91u8);
    assert(eval_prefix(p, x, 4) == 173u8);
    assert(eval_prefix(p, x, 5) == 112u8);
    assert(eval_prefix(p, x, 6) == 103u8);
    assert(eval_prefix(p, x, 7) == 167u8);
    assert(eval_prefix(p, x, 8) == 236u8);
    assert(eval_prefix(p, x, 9) == 49u8);
    assert(eval_prefix(p, x, 10) == 127u8);
    assert(eval_prefix(p, x, 11) == 41u8);
    assert(eval_prefix(p, x, 12) == 40u8);
    assert(eval_prefix(p, x, 13) == 121u8);
    assert(eval_prefix(p, x, 14) == 181u8);
    assert(eval_prefix(p, x, 15) == 136u8);
    assert(eval_prefix(p, x, 16) == 41u8);
    assert(eval_prefix(p, x, 17) == 147u8);
    assert(eval_prefix(p, x, 18) == 81u8);
    assert(eval_prefix(p, x, 19) == 111u8);
    assert(eval_prefix(p, x, 20) == 14u8);
    assert(eval_prefix(p, x, 21) == 61u8);
    assert(eval_prefix(p, x, 22) == 30u8);
    assert(eval_prefix(p, x, 23) == 113u8);
    assert(eval_prefix(p, x, 24) == 250u8);
    assert(eval_prefix(p, x, 25) == 73u8);
    assert(eval_prefix(p, x, 26) == 186u8);
    assert(eval_prefix(p, x, 27) == 0u8);
}

proof fn lemma_generator_26_root_14()
    ensures
        eval_prefix(generator_coeffs_26(), GF_LOGS[14], 27) == 0,
{
    lemma_sums_26();
    let p = generator_coeffs_26();
    let x = GF_LOGS[14];
    assert(eval_prefix(p, x, 0) == 0u8);
    assert(eval_prefix(p, x, 1) == 1u8);
    assert(eval_prefix(p, x, 2) == 229u8);
    assert(eval_prefix(p, x, 3) == 247u8);
    assert(eval_prefix(p, x, 4) == 120u8);
    assert(eval_prefix(p, x, 5) == 95u8);
    assert(eval_prefix(p, x, 6) == 240u8);
    assert(eval_prefix(p, x, 7) == 212u8);
    assert(eval_prefix(p, x, 8) == 103u8);
    assert(eval_prefix(p, x, 9) == 15u8);
    assert(eval_prefix(p, x, 10) == 172u8);
    assert(eval_prefix(p, x, 11) == 195u8);
    assert(eval_prefix(p, x, 12) == 58u8);
    assert(eval_prefix(p, x, 13) == 209u8);
    assert(eval_prefix(p, x, 14) == 110u8);
    assert(eval_prefix(p, x, 15) == 52u8);
    assert(eval_prefix(p, x, 16) == 234u8);
    assert(eval_prefix(p, x, 17) == 80u8);
    assert(eval_prefix(p, x, 18) == 112u8);
    assert(eval_prefix(p, x, 19) == 233u8);
    assert(eval_prefix(p, x, 20) == 151u8);
    assert(eval_prefix(p, x, 21) == 101u8);
    assert(eval_prefix(p, x, 22) == 247u8);
    assert(eval_prefix(p, x, 23) == 95u8);
    assert(eval_prefix(p, x, 24) == 234u8);
    assert(eval_prefix(p, x, 25) == 104u8);
    assert(eval_prefix(p, x, 26) == 93u8);
    assert(eval_prefix(p, x, 27) == 0u8);
}

proof fn lemma_generator_26_root_15()
    ensures
        eval_prefix(generator_coeffs_26(), GF_LOGS[15], 27) == 0,
{
    lemma_sums_26();
    let p = generator_coeffs_26();
    let x = GF_LOGS[15];
    assert(eval_prefix(p, x, 0) == 0u8);
    assert(eval_prefix(p, x, 1) == 1u8);
    assert(eval_prefix(p, x, 2) == 208u8);
    assert(eval_prefix(p, x, 3) == 246u8);
    assert(eval_prefix(p, x, 4) == 18u8);
    assert(eval_prefix(p, x, 5) == 18u8);
    assert(eval_prefix(p, x, 6) == 158u8);
    assert(eval_prefix(p, x, 7) == 43u8);
    assert(eval_prefix(p, x, 8) == 52u8);
    assert(eval_prefix(p, x, 9) == 238u8);
    assert(eval_prefix(p, x, 10) == 159u8);
    assert(eval_prefix(p, x, 11) == 87u8);
    assert(eval_prefix(p, x, 12) == 19u8);
    assert(eval_prefix(p, x, 13) == 40u8);
    assert(eval_prefix(p, x, 14) == 8u8);
    assert(eval_prefix(p, x, 15) == 5u8);
    assert(eval_prefix(p, x, 16) == 111u8);
    assert(eval_prefix(p, x, 17) == 107u8);
    assert(eval_prefix(p, x, 18) == 111u8);
    assert(eval_prefix(p, x, 19) == 52u8);
    assert(eval_prefix(p, x, 20) == 241u8);
    assert(eval_prefix(p, x, 21) == 19u8);
    assert(eval_prefix(p, x, 22) == 118u8);
    assert(eval_prefix(p, x, 23) == 223u8);
    assert(eval_prefix(p, x, 24) == 136u8);
    assert(eval_prefix(p, x, 25) == 138u8);
    assert(eval_prefix(p, x, 26) == 160u8);
    assert(eval_prefix(p, x, 27) == 0u8);
}

proof fn lemma_generator_26_root_16()
    ensures
        eval_prefix(generator_coeffs_26(), GF_LOGS[16], 27) == 0,
{
    lemma_sums_26();
    let p = generator_coeffs_26();
    let x = GF_LOGS[16];
    assert(eval_prefix(p, x, 0) == 0u8);
    assert(eval_prefix(p, x, 1) == 1u8);
    assert(eval_prefix(p, x, 2) == 186u8);
    assert(eval_prefix(p, x, 3) == 249u8);
    assert(eval_prefix(p, x, 4) == 67u8);
    assert(eval_prefix(p, x, 5) == 58u8);
    assert(eval_prefix(p, x, 6) == 139u8);
    assert(eval_prefix(p, x, 7) == 37u8);
    assert(eval_prefix(p, x, 8) == 211u8);
    assert(eval_prefix(p, x, 9) == 219u8);
    assert(eval_prefix(p, x, 10) == 84u8);
    assert(eval_prefix(p, x, 11) == 75u8);
    assert(eval_prefix(p, x, 12) == 170u8);
    assert(eval_prefix(p, x, 13) == 102u8);
    assert(eval_prefix(p, x, 14) == 187u8);
    assert(eval_prefix(p, x, 15) == 174u8);
    assert(eval_prefix(p, x, 16) == 130u8);
    assert(eval_prefix(p, x, 17) == 36u8);
    assert(eval_prefix(p, x, 18) == 177u8);
    assert(eval_prefix(p, x, 19) == 110u8);
    assert(eval_prefix(p, x, 20) == 247u8);
    assert(eval_prefix(p, x, 21) == 95u8);
    assert(eval_prefix(p, x, 22) == 187u8);
    assert(eval_prefix(p, x, 23) == 22u8);
    assert(eval_prefix(p, x, 24) == 147u8);
    assert(eval_prefix(p, x, 25) == 228u8);
    assert(eval_prefix(p, x, 26) == 80u8);
    assert(eval_prefix(p, x, 27) == 0u8);
}

proof fn lemma_generator_26_root_17()
    ensures
        eval_prefix(generator_coeffs_26(), GF_LOGS[17], 27) == 0,
{
    lemma_sums_26();
    let p = generator_coeffs_26();
    let x = GF_LOGS[17];
    assert(eval_prefix(p, x, 0) == 0u8);
    assert(eval_prefix(p, x, 1) == 1u8);
    assert(eval_prefix(p, x, 2) == 110u8);
    assert(eval_prefix(p, x, 3) == 211u8);
    assert(eval_prefix(p, x, 4) == 49u8);
    assert(eval_prefix(p, x, 5) == 3u8);
    assert(eval_prefix(p, x, 6) == 61u8);
    assert(eval_prefix(p, x, 7) == 139u8);
    assert(eval_prefix(p, x, 8) == 73u8);
    assert(eval_prefix(p, x, 9) == 125u8);
    assert(eval_prefix(p, x, 10) == 109u8);
    assert(eval_prefix(p, x, 11) == 109u8);
    assert(eval_prefix(p, x, 12) == 155u8);
    assert(eval_prefix(p, x, 13) == 227u8);
    assert(eval_prefix(p, x, 14) == 136u8);
    assert(eval_prefix(p, x, 15) == 19u8);
    assert(eval_prefix(p, x, 16) == 17u8);
    assert(eval_prefix(p, x, 17) == 152u8);
    assert(eval_prefix(p, x, 18) == 167u8);
    assert(eval_prefix(p, x, 19) == 160u8);
    assert(eval_prefix(p, x, 20) == 226u8);
    assert(eval_prefix(p, x, 21) == 197u8);
    assert(eval_prefix(p, x, 22) == 194u8);
    assert(eval_prefix(p, x, 23) == 251u8);
    assert(eval_prefix(p, x, 24) == 74u8);
    assert(eval_prefix(p, x, 25) == 29u8);
    assert(eval_prefix(p, x, 26) == 40u8);
    assert(eval_prefix(p, x, 27) == 0u8);
}

proof fn lemma_generator_26_root_18()
    ensures
        eval_prefix(generator_coeffs_26(), GF_LOGS[18], 27) == 0,
{
    lemma_sums_26();
    let p = generator_coeffs_26();
    let x = GF_LOGS[18];
    assert(eval_prefix(p, x, 0) == 0u8);
    assert(eval_prefix(p, x, 1) == 1u8);
    assert(eval_prefix(p, x, 2) == 219u8);
    assert(eval_prefix(p, x, 3) == 87u8);
    assert(eval_prefix(p, x, 4) == 17u8);
    assert(eval_prefix(p, x, 5) == 195u8);
    assert(eval_prefix(p, x, 6) == 115u8);
    assert(eval_prefix(p, x, 7) == 185u8);
    assert(eval_prefix(p, x, 8) == 191u8);
    assert(eval_prefix(p, x, 9) == 14u8);
    assert(eval_prefix(p, x, 10) == 214u8);
    assert(eval_prefix(p, x, 11) == 176u8);
    assert(eval_prefix(p, x, 12) == 238u8);
    assert(eval_prefix(p, x, 13) == 198u8);
    assert(eval_prefix(p, x, 14) == 243u8);
    assert(eval_prefix(p, x, 15) == 240u8);
    assert(eval_prefix(p, x, 16) == 126u8);
    assert(eval_prefix(p, x, 17) == 66u8);
    assert(eval_prefix(p, x, 18) == 60u8);
    assert(eval_prefix(p, x, 19) == 200u8);
    assert(eval_prefix(p, x, 20) == 126u8);
    assert(eval_prefix(p, x, 21) == 115u8);
    assert(eval_prefix(p, x, 22) == 157u8);
    assert(eval_prefix(p, x, 23) == 149u8);
    assert(eval_prefix(p, x, 24) == 226u8);
    assert(eval_prefix(p, x, 25) == 82u8);
    assert(eval_prefix(p, x, 26) == 20u8);
    assert(eval_prefix(p, x, 27) == 0u8);
}

proof fn lemma_generator_26_root_19()
    ensures
        eval_prefix(generator_coeffs_26(), GF_LOGS[19], 27) == 0,
{
    lemma_sums_26();
    let p = generator_coeffs_26();
    let x = GF_LOGS[19];
    assert(eval_prefix(p, x, 0) == 0u8);
    assert(eval_prefix(p, x, 1) == 1u8);
    assert(eval_prefix(p, x, 2) == 172u8);
    assert(eval_prefix(p, x, 3) == 37u8);
    assert(eval_prefix(p, x, 4) == 23u8);
    assert(eval_prefix(p, x, 5) == 86u8);
    assert(eval_prefix(p, x, 6) == 131u8);
    assert(eval_prefix(p, x, 7) == 138u8);
    assert(eval_prefix(p, x, 8) == 159u8);
    assert(eval_prefix(p, x, 9) == 38u8);
    assert(eval_prefix(p, x, 10) == 3u8);
    assert(eval_prefix(p, x, 11) == 214u8);
    assert(eval_prefix(p, x, 12) == 195u8);
    assert(eval_prefix(p, x, 13) == 243u8);
    assert(eval_prefix(p, x, 14) == 60u8);
    assert(eval_prefix(p, x, 15) == 241u8);
    assert(eval_prefix(p, x, 16) == 200u8);
    assert(eval_prefix(p, x, 17) == 154u8);
    assert(eval_prefix(p, x, 18) == 120u8);
    assert(eval_prefix(p, x, 19) == 133u8);
    assert(eval_prefix(p, x, 20) == 174u8);
    assert(eval_prefix(p, x, 21) == 230u8);
    assert(eval_prefix(p, x, 22) == 13u8);
    assert(eval_prefix(p, x, 23) == 85u8);
    assert(eval_prefix(p, x, 24) == 119u8);
    assert(eval_prefix(p, x, 25) == 147u8);
    assert(eval_prefix(p, x, 26) == 10u8);
    assert(eval_prefix(p, x, 27) == 0u8);
}

proof fn lemma_generator_26_root_20()
    ensures
        eval_prefix(generator_coeffs_26(), GF_LOGS[20], 27) == 0,
{
    lemma_sums_26();
    let p = generator_coeffs_26();
    let x = GF_LOGS[20];
    assert(eval_prefix(p, x, 0) == 0u8);
    assert(eval_prefix(p, x, 1) == 1u8);
    assert(eval_prefix(p, x, 2) == 66u8);
    assert(eval_prefix(p, x, 3) == 64u8);
    assert(eval_prefix(p, x, 4) == 177u8);
    assert(eval_prefix(p, x, 5) == 48u8);
    assert(eval_prefix(p, x, 6) == 4u8);
    assert(eval_prefix(p, x, 7) == 136u8);
    assert(eval_prefix(p, x, 8) == 2u8);
    assert(eval_prefix(p, x, 9) == 237u8);
    assert(eval_prefix(p, x, 10) == 211u8);
    assert(eval_prefix(p, x, 11) == 124u8);
    assert(eval_prefix(p, x, 12) == 103u8);
    assert(eval_prefix(p, x, 13) == 54u8);
    assert(eval_prefix(p, x, 14) == 130u8);
    assert(eval_prefix(p, x, 15) == 81u8);
    assert(eval_prefix(p, x, 16) == 236u8);
    assert(eval_prefix(p, x, 17) == 95u8);
    assert(eval_prefix(p, x, 18) == 130u8);
    assert(eval_prefix(p, x, 19) == 83u8);
    assert(eval_prefix(p, x, 20) == 207u8);
    assert(eval_prefix(p, x, 21) == 172u8);
    assert(eval_prefix(p, x, 22) == 106u8);
    assert(eval_prefix(p, x, 23) == 41u8);
    assert(eval_prefix(p, x, 24) == 236u8);
    assert(eval_prefix(p, x, 25) == 103u8);
    assert(eval_prefix(p, x, 26) == 5u8);
    assert(eval_prefix(p, x, 27) == 0u8);
}

proof fn lemma_generator_26_root_21()
    ensures
        eval_prefix(generator_coeffs_26(), GF_LOGS[21], 27) == 0,
{
    lemma_sums_26();
    let p = generator_coeffs_26();
    let x = GF_LOGS[21];
    assert(eval_prefix(p, x, 0) == 0u8);
    assert(eval_prefix(p, x, 1) == 1u8);
    assert(eval_prefix(p, x, 2) == 131u8);
    assert(eval_prefix(p, x, 3) == 180u8);
    assert(eval_prefix(p, x, 4) == 99u8);
    assert(eval_prefix(p, x, 5) == 145u8);
    assert(eval_prefix(p, x, 6) == 230u8);
    assert(eval_prefix(p, x, 7) == 83u8);
    assert(eval_prefix(p, x, 8) == 87u8);
    assert(eval_prefix(p, x, 9) == 193u8);
    assert(eval_prefix(p, x, 10) == 44u8);
    assert(eval_prefix(p, x, 11) == 120u8);
    assert(eval_prefix(p, x, 12) == 72u8);
    assert(eval_prefix(p, x, 13) == 155u8);
    assert(eval_prefix(p, x, 14) == 154u8);
    assert(eval_prefix(p, x, 15) == 86u8);
    assert(eval_prefix(p, x, 16) == 253u8);
    assert(eval_prefix(p, x, 17) == 87u8);
    assert(eval_prefix(p, x, 18) == 176u8);
    assert(eval_prefix(p, x, 19) == 55u8);
    assert(eval_prefix(p, x, 20) == 212u8);
    assert(eval_prefix(p, x, 21) == 154u8);
    assert(eval_prefix(p, x, 22) == 56u8);
    assert(eval_prefix(p, x, 23) == 26u8);
    assert(eval_prefix(p, x, 24) == 244u8);
    assert(eval_prefix(p, x, 25) == 149u8);
    assert(eval_prefix(p, x, 26) == 140u8);
    assert(eval_prefix(p, x, 27) == 0u8);
}

proof fn lemma_generator_26_root_22()
    ensures
        eval_prefix(generator_coeffs_26(), GF_LOGS[22], 27) == 0,
{
    lemma_sums_26();
    let p = generator_coeffs_26();
    let x = GF_LOGS[22];
    assert(eval_prefix(p, x, 0) == 0u8);
    assert(eval_prefix(p, x, 1) == 1u8);
    assert(eval_prefix(p, x, 2) == 28u8);
    assert(eval_prefix(p, x, 3) == 185u8);
    assert(eval_prefix(p, x, 4) == 100u8);
    assert(eval_prefix(p, x, 5) == 159u8);
    assert(eval_prefix(p, x, 6) == 17u8);
    assert(eval_prefix(p, x, 7) == 142u8);
    assert(eval_prefix(p, x, 8) == 178u8);
    assert(eval_prefix(p, x, 9) == 107u8);
    assert(eval_prefix(p, x, 10) == 121u8);
    assert(eval_prefix(p, x, 11) == 195u8);
    assert(eval_prefix(p, x, 12) == 197u8);
    assert(eval_prefix(p, x, 13) == 85u8);
    assert(eval_prefix(p, x, 14) == 234u8);
    assert(eval_prefix(p, x, 15) == 198u8);
    assert(eval_prefix(p, x, 16) == 191u8);
    assert(eval_prefix(p, x, 17) == 224u8);
    assert(eval_prefix(p, x, 18) == 205u8);
    assert(eval_prefix(p, x, 19) == 100u8);
    assert(eval_prefix(p, x, 20) == 28u8);
    assert(eval_prefix(p, x, 21) == 206u8);
    assert(eval_prefix(p, x, 22) == 43u8);
    assert(eval_prefix(p, x, 23) == 188u8);
    assert(eval_prefix(p, x, 24) == 36u8);
    assert(eval_prefix(p, x, 25) == 206u8);
    assert(eval_prefix(p, x, 26) == 70u8);
    assert(eval_prefix(p, x, 27) == 0u8);
}

proof fn lemma_generator_26_root_23()
    ensures
        eval_prefix(generator_coeffs_26(), GF_LOGS[23], 27) == 0,
{
    lemma_sums_26();
    let p = generator_coeffs_26();
    let x = GF_LOGS[23];
    assert(eval_prefix(p, x, 0) == 0u8);
    assert(eval_prefix(p, x, 1) == 1u8);
    assert(eval_prefix(p, x, 2) == 63u8);
    assert(eval_prefix(p, x, 3) == 100u8);
    assert(eval_prefix(p, x, 4) == 156u8);
    assert(eval_prefix(p, x, 5) == 109u8);
    assert(eval_prefix(p, x, 6) == 108u8);
    assert(eval_prefix(p, x, 7) == 79u8);
    assert(eval_prefix(p, x, 8) == 180u8);
    assert(eval_prefix(p, x, 9) == 239u8);
    assert(eval_prefix(p, x, 10) == 70u8);
    assert(eval_prefix(p, x, 11) == 132u8);
    assert(eval_prefix(p, x, 12) == 173u8);
    assert(eval_prefix(p, x, 13) == 172u8);
    assert(eval_prefix(p, x, 14) == 236u8);
    assert(eval_prefix(p, x, 15) == 101u8);
    assert(eval_prefix(p, x, 16) == 51u8);
    assert(eval_prefix(p, x, 17) == 39u8);
    assert(eval_prefix(p, x, 18) == 180u8);
    assert(eval_prefix(p, x, 19) == 93u8);
    assert(eval_prefix(p, x, 20) == 119u8);
    assert(eval_prefix(p, x, 21) == 37u8);
    assert(eval_prefix(p, x, 22) == 148u8);
    assert(eval_prefix(p, x, 23) == 255u8);
    assert(eval_prefix(p, x, 24) == 149u8);
    assert(eval_prefix(p, x, 25) == 235u8);
    assert(eval_prefix(p, x, 26) == 35u8);
    assert(eval_prefix(p, x, 27) == 0u8);
}

proof fn lemma_generator_26_root_24()
    ensures
        eval_prefix(generator_coeffs_26(), GF_LOGS[24], 27) == 0,
{
    lemma_sums_26();
    let p = generator_coeffs_26();
    let x = GF_LOGS[24];
    assert(eval_prefix(p, x, 0) == 0u8);
    assert(eval_prefix(p, x, 1) == 1u8);
    assert(eval_prefix(p, x, 2) == 121u8);
    assert(eval_prefix(p, x, 3) == 248u8);
    assert(eval_prefix(p, x, 4) == 51u8);
    assert(eval_prefix(p, x, 5) == 160u8);
    assert(eval_prefix(p, x, 6) == 120u8);
    assert(eval_prefix(p, x, 7) == 38u8);
    assert(eval_prefix(p, x, 8) == 242u8);
    assert(eval_prefix(p, x, 9) == 19u8);
    assert(eval_prefix(p, x, 10) == 217u8);
    assert(eval_prefix(p, x, 11) == 3u8);
    assert(eval_prefix(p, x, 12) == 66u8);
    assert(eval_prefix(p, x, 13) == 123u8);
    assert(eval_prefix(p, x, 14) == 89u8);
    assert(eval_prefix(p, x, 15) == 211u8);
    assert(eval_prefix(p, x, 16) == 229u8);
    assert(eval_prefix(p, x, 17) == 108u8);
    assert(eval_prefix(p, x, 18) == 179u8);
    assert(eval_prefix(p, x, 19) == 78u8);
    assert(eval_prefix(p, x, 20) == 238u8);
    assert(eval_prefix(p, x, 21) == 221u8);
    assert(eval_prefix(p, x, 22) == 123u8);
    assert(eval_prefix(p, x, 23) == 88u8);
    assert(eval_prefix(p, x, 24) == 230u8);
    assert(eval_prefix(p, x, 25) == 216u8);
    assert(eval_prefix(p, x, 26) == 159u8);
    assert(eval_prefix(p, x, 27) == 0u8);
}

proof fn lemma_generator_26_root_25()
    ensures
        eval_prefix(generator_coeffs_26(), GF_LOGS[25], 27) == 0,
{
    lemma_sums_26();
    let p = generator_coeffs_26();
    let x = GF_LOGS[25];
    assert(eval_prefix(p, x, 0) == 0u8);
    assert(eval_prefix(p, x, 1) == 1u8);
    assert(eval_prefix(p, x, 2) == 245u8);
    assert(eval_prefix(p, x, 3) == 49u8);
    assert(eval_prefix(p, x, 4) == 228u8);
    assert(eval_prefix(p, x, 5) == 53u8);
    assert(eval_prefix(p, x, 6) == 215u8);
    assert(eval_prefix(p, x, 7) == 6u8);
    assert(eval_prefix(p, x, 8) == 205u8);
    assert(eval_prefix(p, x, 9) == 210u8);
    assert(eval_prefix(p, x, 10) == 38u8);
    assert(eval_prefix(p, x, 11) == 82u8);
    assert(eval_prefix(p, x, 12) == 56u8);
    assert(eval_prefix(p, x, 13) == 80u8);
    assert(eval_prefix(p, x, 14) == 97u8);
    assert(eval_prefix(p, x, 15) == 139u8);
    assert(eval_prefix(p, x, 16) == 81u8);
    assert(eval_prefix(p, x, 17) == 134u8);
    assert(eval_prefix(p, x, 18) == 126u8);
    assert(eval_prefix(p, x, 19) == 168u8);
    assert(eval_prefix(p, x, 20) == 98u8);
    assert(eval_prefix(p, x, 21) == 226u8);
    assert(eval_prefix(p, x, 22) == 125u8);
    assert(eval_prefix(p, x, 23) == 23u8);
    assert(eval_prefix(p, x, 24) == 171u8);
    assert(eval_prefix(p, x, 25) == 173u8);
    assert(eval_prefix(p, x, 26) == 193u8);
    assert(eval_prefix(p, x, 27) == 0u8);
}

/// The generator polynomial of degree 26 vanishes at the first 26 powers of `x`.
proof fn lemma_generator_26_roots()
    ensures
        forall|i: int|
            0 <= i < 26 ==> eval_prefix(generator_poly(26), #[trigger] GF_LOGS[i], 27) == 0,
{
    assert(generator_poly(26) =~= generator_coeffs_26());
    lemma_generator_26_root_0();
    lemma_generator_26_root_1();
    lemma_generator_26_root_2();
    lemma_generator_26_root_3();
    lemma_generator_26_root_4();
    lemma_generator_26_root_5();
    lemma_generator_26_root_6();
    lemma_generator_26_root_7();
    lemma_generator_26_root_8();
    lemma_generator_26_root_9();
    lemma_generator_26_root_10();
    lemma_generator_26_root_11();
    lemma_generator_26_root_12();
    lemma_generator_26_root_13();
    lemma_generator_26_root_14();
    lemma_generator_26_root_15();
    lemma_generator_26_root_16();
    lemma_generator_26_root_17();
    lemma_generator_26_root_18();
    lemma_generator_26_root_19();
    lemma_generator_26_root_20();
    lemma_generator_26_root_21();
    lemma_generator_26_root_22();
    lemma_generator_26_root_23();
    lemma_generator_26_root_24();
    lemma_generator_26_root_25();
}

/// The coefficients of the generator polynomial of degree 28.
spec fn generator_coeffs_28() -> Seq<u8> {
    seq![
        1u8, 252u8, 9u8, 28u8, 13u8, 18u8, 251u8, 208u8, 150u8, 103u8, 174u8, 100u8,
        41u8, 167u8, 12u8, 247u8, 56u8, 117u8, 119u8, 233u8, 127u8, 181u8, 100u8, 121u8,
        147u8, 176u8, 74u8, 58u8, 197u8,
    ]
}

/// The sums that evaluating the generator polynomial of degree 28 at its roots takes.
proof fn lemma_sums_28()
    by (bit_vector)
    ensures
        0u8 ^ 1u8 == 1u8, 1u8 ^ 28u8 == 29u8, 1u8 ^ 58u8 == 59u8, 1u8 ^ 117u8 == 116u8,
        1u8 ^ 252u8 == 253u8, 2u8 ^ 12u8 == 14u8, 2u8 ^ 28u8 == 30u8, 2u8 ^ 100u8 == 102u8,
        2u8 ^ 119u8 == 117u8, 2u8 ^ 167u8 == 165u8, 2u8 ^ 252u8 == 254u8, 3u8 ^ 12u8 == 15u8,
        3u8 ^ 41u8 == 42u8, 3u8 ^ 103u8 == 100u8, 3u8 ^ 252u8 == 255u8, 4u8 ^ 18u8 == 22u8,
        4u8 ^ 41u8 == 45u8, 4u8 ^ 58u8 == 62u8, 4u8 ^ 100u8 == 96u8, 4u8 ^ 252u8 == 248u8,
        5u8 ^ 100u8 == 97u8, 5u8 ^ 119u8 == 114u8, 5u8 ^ 176u8 == 181u8, 5u8 ^ 181u8 == 176u8,
        5u8 ^ 247u8 == 242u8, 6u8 ^ 100u8 == 98u8, 6u8 ^ 252u8 == 250u8, 7u8 ^ 121u8 == 126u8,
        7u8 ^ 247u8 == 240u8, 8u8 ^ 9u8 == 1u8, 8u8 ^ 100u8 == 108u8, 8u8 ^ 247u8 == 255u8,
        8u8 ^ 251u8 == 243u8, 8u8 ^ 252u8 == 244u8, 9u8 ^ 150u8 == 159u8, 9u8 ^ 208u8 == 217u8,
        10u8 ^ 56u8 == 50u8, 10u8 ^ 74u8 == 64u8, 11u8 ^ 74u8 == 65u8, 12u8 ^ 13u8 == 1u8,
        12u8 ^ 208u8 == 220u8, 12u8 ^ 252u8 == 240u8, 13u8 ^ 100u8 == 105u8, 14u8 ^ 12u8 == 2u8,
        14u8 ^ 58u8 == 52u8, 14u8 ^ 127u8 == 113u8, 15u8 ^ 12u8 == 3u8, 15u8 ^ 41u8 == 38u8,
        15u8 ^ 233u8 == 230u8, 16u8 ^ 41u8 == 57u8, 16u8 ^ 100u8 == 116u8, 16u8 ^ 103u8 == 119u8,
        16u8 ^ 117u8 == 101u8, 16u8 ^ 127u8 == 111u8, 16u8 ^ 252u8 == 236u8, 17u8 ^ 119u8 == 102u8,
        17u8 ^ 127u8 == 110u8, 18u8 ^ 147u8 == 129u8, 18u8 ^ 181u8 == 167u8, 18u8 ^ 247u8 == 229u8,
        19u8 ^ 252u8 == 239u8, 20u8 ^ 100u8 == 112u8, 20u8 ^ 167u8 == 179u8, 20u8 ^ 208u8 == 196u8,
        21u8 ^ 18u8 == 7u8, 21u8 ^ 103u8 == 114u8, 21u8 ^ 117u8 == 96u8, 21u8 ^ 121u8 == 108u8,
        21u8 ^ 150u8 == 131u8, 21u8 ^ 247u8 == 226u8, 22u8 ^ 74u8 == 92u8, 22u8 ^ 121u8 == 111u8,
        23u8 ^ 251u8 == 236u8, 24u8 ^ 58u8 == 34u8, 24u8 ^ 100u8 == 124u8, 24u8 ^ 103u8 == 127u8,
        25u8 ^ 9u8 == 16u8, 25u8 ^ 28u8 == 5u8, 26u8 ^ 56u8 == 34u8, 26u8 ^ 167u8 == 189u8,
        26u8 ^ 251u8 == 225u8, 28u8 ^ 9u8 == 21u8, 28u8 ^ 56u8 == 36u8, 28u8 ^ 167u8 == 187u8,
        28u8 ^ 174u8 == 178u8, 29u8 ^ 176u8 == 173u8, 29u8 ^ 181u8 == 168u8, 29u8 ^ 252u8 == 225u8,
        30u8 ^ 100u8 == 122u8, 30u8 ^ 117u8 == 107u8, 30u8 ^ 147u8 == 141u8, 31u8 ^ 9u8 == 22u8,
        31u8 ^ 28u8 == 3u8, 31u8 ^ 208u8 == 207u8, 32u8 ^ 58u8 == 26u8, 32u8 ^ 74u8 == 106u8,
        32u8 ^ 121u8 == 89u8, 32u8 ^ 208u8 == 240u8, 32u8 ^ 252u8 == 220u8, 33u8 ^ 74u8 == 107u8,
        33u8 ^ 174u8 == 143u8, 34u8 ^ 103u8 == 69u8, 34u8 ^ 233u8 == 203u8, 34u8 ^ 247u8 == 213u8,
        35u8 ^ 41u8 == 10u8, 35u8 ^ 56u8 == 27u8, 35u8 ^ 103u8 == 68u8, 35u8 ^ 174u8 == 141u8,
        36u8 ^ 13u8 == 41u8, 36u8 ^ 103u8 == 67u8, 36u8 ^ 121u8 == 93u8, 36u8 ^ 181u8 == 145u8,
        37u8 ^ 13u8 == 40u8, 37u8 ^ 28u8 == 57u8, 37u8 ^ 58u8 == 31u8, 37u8 ^ 174u8 == 139u8,
        37u8 ^ 233u8 == 204u8, 38u8 ^ 9u8 == 47u8, 38u8 ^ 147u8 == 181u8, 38u8 ^ 150u8 == 176u8,
        38u8 ^ 233u8 == 207u8, 38u8 ^ 252u8 == 218u8, 39u8 ^ 100u8 == 67u8, 39u8 ^ 119u8 == 80u8,
        39u8 ^ 251u8 == 220u8, 40u8 ^ 74u8 == 98u8, 40u8 ^ 176u8 == 152u8, 40u8 ^ 208u8 == 248u8,
        42u8 ^ 167u8 == 141u8, 43u8 ^ 58u8 == 17u8, 43u8 ^ 174u8 == 133u8, 43u8 ^ 181u8 == 158u8,
        44u8 ^ 13u8 == 33u8, 45u8 ^ 18u8 == 63u8, 45u8 ^ 174u8 == 131u8, 45u8 ^ 252u8 == 209u8,
        46u8 ^ 74u8 == 100u8, 46u8 ^ 127u8 == 81u8, 46u8 ^ 147u8 == 189u8, 46u8 ^ 167u8 == 137u8,
        46u8 ^ 176u8 == 158u8, 47u8 ^ 56u8 == 23u8, 47u8 ^ 74u8 == 101u8, 47u8 ^ 121u8 == 86u8,
        49u8 ^ 100u8 == 85u8, 49u8 ^ 251u8 == 202u8, 50u8 ^ 41u8 == 27u8, 50u8 ^ 56u8 == 10u8,
        50u8 ^ 100u8 == 86u8, 50u8 ^ 103u8 == 85u8, 51u8 ^ 12u8 == 63u8, 51u8 ^ 100u8 == 87u8,
        52u8 ^ 9u8 == 61u8, 52u8 ^ 121u8 == 77u8, 53u8 ^ 167u8 == 146u8, 53u8 ^ 247u8 == 194u8,
        54u8 ^ 28u8 == 42u8, 54u8 ^ 41u8 == 31u8, 54u8 ^ 208u8 == 230u8, 55u8 ^ 9u8 == 62u8,
        55u8 ^ 18u8 == 37u8, 55u8 ^ 58u8 == 13u8, 55u8 ^ 233u8 == 222u8, 56u8 ^ 174u8 == 150u8,
        57u8 ^ 121u8 == 64u8, 57u8 ^ 127u8 == 70u8, 57u8 ^ 150u8 == 175u8, 58u8 ^ 100u8 == 94u8,
        58u8 ^ 233u8 == 211u8, 58u8 ^ 252u8 == 198u8, 59u8 ^ 100u8 == 95u8, 59u8 ^ 121u8 == 66u8,
        59u8 ^ 127u8 == 68u8, 59u8 ^ 167u8 == 156u8, 60u8 ^ 9u8 == 53u8, 60u8 ^ 233u8 == 213u8,
        61u8 ^ 74u8 == 119u8, 61u8 ^ 121u8 == 68u8, 61u8 ^ 176u8 == 141u8, 61u8 ^ 251u8 == 198u8,
        62u8 ^ 13u8 == 51u8, 62u8 ^ 18u8 == 44u8, 62u8 ^ 119u8 == 73u8, 62u8 ^ 167u8 == 153u8,
        62u8 ^ 181u8 == 139u8, 63u8 ^ 12u8 == 51u8, 63u8 ^ 28u8 == 35u8, 63u8 ^ 100u8 == 91u8,
        63u8 ^ 127u8 == 64u8, 63u8 ^ 150u8 == 169u8, 63u8 ^ 233u8 == 214u8, 64u8 ^ 9u8 == 73u8,
        64u8 ^ 117u8 == 53u8, 64u8 ^ 181u8 == 245u8, 64u8 ^ 252u8 == 188u8, 65u8 ^ 41u8 == 104u8,
        65u8 ^ 127u8 == 62u8, 66u8 ^ 13u8 == 79u8, 66u8 ^ 100u8 == 38u8, 66u8 ^ 121u8 == 59u8,
        67u8 ^ 150u8 == 213u8, 67u8 ^ 233u8 == 170u8, 68u8 ^ 18u8 == 86u8, 69u8 ^ 74u8 == 15u8,
        69u8 ^ 100u8 == 33u8, 69u8 ^ 103u8 == 34u8, 69u8 ^ 147u8 == 214u8, 69u8 ^ 251u8 == 190u8,
        70u8 ^ 12u8 == 74u8, 70u8 ^ 58u8 == 124u8, 70u8 ^ 174u8 == 232u8, 70u8 ^ 208u8 == 150u8,
        71u8 ^ 103u8 == 32u8, 72u8 ^ 9u8 == 65u8, 72u8 ^ 56u8 == 112u8, 72u8 ^ 147u8 == 219u8,
        72u8 ^ 233u8 == 161u8, 73u8 ^ 13u8 == 68u8, 73u8 ^ 18u8 == 91u8, 73u8 ^ 167u8 == 238u8,
        74u8 ^ 12u8 == 70u8, 74u8 ^ 103u8 == 45u8, 74u8 ^ 167u8 == 237u8, 75u8 ^ 9u8 == 66u8,
        75u8 ^ 18u8 == 89u8, 75u8 ^ 117u8 == 62u8, 75u8 ^ 208u8 == 155u8, 76u8 ^ 28u8 == 80u8,
        76u8 ^ 58u8 == 118u8, 76u8 ^ 74u8 == 6u8, 76u8 ^ 100u8 == 40u8, 76u8 ^ 103u8 == 43u8,
        76u8 ^ 208u8 == 156u8, 76u8 ^ 252u8 == 176u8, 77u8 ^ 247u8 == 186u8, 78u8 ^ 100u8 == 42u8,
        78u8 ^ 119u8 == 57u8, 79u8 ^ 247u8 == 184u8, 80u8 ^ 12u8 == 92u8, 80u8 ^ 13u8 == 93u8,
        80u8 ^ 41u8 == 121u8, 80u8 ^ 233u8 == 185u8, 81u8 ^ 56u8 == 105u8, 81u8 ^ 74u8 == 27u8,
        81u8 ^ 127u8 == 46u8, 81u8 ^ 247u8 == 166u8, 82u8 ^ 41u8 == 123u8, 82u8 ^ 58u8 == 104u8,
        82u8 ^ 100u8 == 54u8, 82u8 ^ 121u8 == 43u8, 82u8 ^ 167u8 == 245u8, 82u8 ^ 208u8 == 130u8,
        83u8 ^ 119u8 == 36u8, 84u8 ^ 56u8 == 108u8, 84u8 ^ 208u8 == 132u8, 85u8 ^ 176u8 == 229u8,
        86u8 ^ 28u8 == 74u8, 87u8 ^ 12u8 == 91u8, 87u8 ^ 251u8 == 172u8, 88u8 ^ 13u8 == 85u8,
        88u8 ^ 117u8 == 45u8, 88u8 ^ 251u8 == 163u8, 89u8 ^ 13u8 == 84u8, 89u8 ^ 28u8 == 69u8,
        89u8 ^ 74u8 == 19u8, 89u8 ^ 150u8 == 207u8, 89u8 ^ 208u8 == 137u8, 89u8 ^ 251u8 == 162u8,
        90u8 ^ 56u8 == 98u8, 90u8 ^ 121u8 == 35u8, 90u8 ^ 208u8 == 138u8, 90u8 ^ 252u8 == 166u8,
        91u8 ^ 12u8 == 87u8, 91u8 ^ 176u8 == 235u8, 92u8 ^ 12u8 == 80u8, 92u8 ^ 119u8 == 43u8,
        92u8 ^ 181u8 == 233u8, 93u8 ^ 58u8 == 103u8, 93u8 ^ 103u8 == 58u8, 93u8 ^ 117u8 == 40u8,
        93u8 ^ 174u8 == 243u8, 93u8 ^ 208u8 == 141u8, 94u8 ^ 13u8 == 83u8, 95u8 ^ 119u8 == 40u8,
        95u8 ^ 127u8 == 32u8, 95u8 ^ 176u8 == 239u8, 95u8 ^ 181u8 == 234u8, 96u8 ^ 167u8 == 199u8,
        96u8 ^ 181u8 == 213u8, 96u8 ^ 233u8 == 137u8, 97u8 ^ 12u8 == 109u8, 97u8 ^ 13u8 == 108u8,
        97u8 ^ 74u8 == 43u8, 98u8 ^ 13u8 == 111u8, 98u8 ^ 103u8 == 5u8, 98u8 ^ 174u8 == 204u8,
        98u8 ^ 247u8 == 149u8, 100u8 ^ 119u8 == 19u8, 100u8 ^ 150u8 == 242u8, 101u8 ^ 12u8 == 105u8,
        101u8 ^ 13u8 == 104u8, 101u8 ^ 56u8 == 93u8, 101u8 ^ 121u8 == 28u8, 101u8 ^ 247u8 == 146u8,
        102u8 ^ 9u8 == 111u8, 102u8 ^ 100u8 == 2u8, 102u8 ^ 167u8 == 193u8, 102u8 ^ 181u8 == 211u8,
        103u8 ^ 41u8 == 78u8, 103u8 ^ 174u8 == 201u8, 103u8 ^ 247u8 == 144u8, 104u8 ^ 41u8 == 65u8,
        104u8 ^ 121u8 == 17u8, 104u8 ^ 174u8 == 198u8, 105u8 ^ 12u8 == 101u8, 105u8 ^ 74u8 == 35u8,
        105u8 ^ 103u8 == 14u8, 105u8 ^ 150u8 == 255u8, 106u8 ^ 167u8 == 205u8, 107u8 ^ 150u8 == 253u8,
        107u8 ^ 174u8 == 197u8, 109u8 ^ 12u8 == 97u8, 109u8 ^ 147u8 == 254u8, 109u8 ^ 208u8 == 189u8,
        110u8 ^ 121u8 == 23u8, 110u8 ^ 167u8 == 201u8, 111u8 ^ 119u8 == 24u8, 111u8 ^ 150u8 == 249u8,
        112u8 ^ 103u8 == 23u8, 113u8 ^ 13u8 == 124u8, 113u8 ^ 181u8 == 196u8, 113u8 ^ 208u8 == 161u8,
        114u8 ^ 28u8 == 110u8, 114u8 ^ 127u8 == 13u8, 115u8 ^ 119u8 == 4u8, 115u8 ^ 176u8 == 195u8,
        115u8 ^ 233u8 == 154u8, 116u8 ^ 117u8 == 1u8, 116u8 ^ 147u8 == 231u8, 116u8 ^ 174u8 == 218u8,
        116u8 ^ 252u8 == 136u8, 117u8 ^ 74u8 == 63u8, 117u8 ^ 150u8 == 227u8, 117u8 ^ 167u8 == 210u8,
        117u8 ^ 252u8 == 137u8, 118u8 ^ 13u8 == 123u8, 118u8 ^ 127u8 == 9u8, 118u8 ^ 181u8 == 195u8,
        119u8 ^ 181u8 == 194u8, 121u8 ^ 9u8 == 112u8, 121u8 ^ 18u8 == 107u8, 121u8 ^ 56u8 == 65u8,
        121u8 ^ 58u8 == 67u8, 122u8 ^ 9u8 == 115u8, 124u8 ^ 18u8 == 110u8, 125u8 ^ 100u8 == 25u8,
        125u8 ^ 181u8 == 200u8, 126u8 ^ 56u8 == 70u8, 126u8 ^ 58u8 == 68u8, 128u8 ^ 18u8 == 146u8,
        128u8 ^ 103u8 == 231u8, 128u8 ^ 176u8 == 48u8, 128u8 ^ 208u8 == 80u8, 128u8 ^ 252u8 == 124u8,
        129u8 ^ 18u8 == 147u8, 130u8 ^ 9u8 == 139u8, 130u8 ^ 18u8 == 144u8, 130u8 ^ 100u8 == 230u8,
        130u8 ^ 117u8 == 247u8, 130u8 ^ 174u8 == 44u8, 130u8 ^ 181u8 == 55u8, 131u8 ^ 28u8 == 159u8,
        131u8 ^ 100u8 == 231u8, 131u8 ^ 103u8 == 228u8, 132u8 ^ 41u8 == 173u8, 132u8 ^ 117u8 == 241u8,
        132u8 ^ 147u8 == 23u8, 132u8 ^ 233u8 == 109u8, 132u8 ^ 247u8 == 115u8, 133u8 ^ 41u8 == 172u8,
        133u8 ^ 150u8 == 19u8, 134u8 ^ 150u8 == 16u8, 134u8 ^ 251u8 == 125u8, 135u8 ^ 58u8 == 189u8,
        135u8 ^ 167u8 == 32u8, 135u8 ^ 181u8 == 50u8, 135u8 ^ 251u8 == 124u8, 135u8 ^ 252u8 == 123u8,
        136u8 ^ 174u8 == 38u8, 136u8 ^ 251u8 == 115u8, 137u8 ^ 181u8 == 60u8, 138u8 ^ 18u8 == 152u8,
        138u8 ^ 147u8 == 25u8, 138u8 ^ 233u8 == 99u8, 139u8 ^ 100u8 == 239u8, 139u8 ^ 119u8 == 252u8,
        139u8 ^ 150u8 == 29u8, 139u8 ^ 233u8 == 98u8, 140u8 ^ 13u8 == 129u8, 140u8 ^ 74u8 == 198u8,
        140u8 ^ 251u8 == 119u8, 141u8 ^ 13u8 == 128u8, 141u8 ^ 103u8 == 234u8, 141u8 ^ 117u8 == 248u8,
        141u8 ^ 150u8 == 27u8, 142u8 ^ 251u8 == 117u8, 143u8 ^ 121u8 == 246u8, 143u8 ^ 150u8 == 25u8,
        143u8 ^ 252u8 == 115u8, 144u8 ^ 100u8 == 244u8, 144u8 ^ 121u8 == 233u8, 145u8 ^ 56u8 == 169u8,
        145u8 ^ 147u8 == 2u8, 145u8 ^ 251u8 == 106u8, 146u8 ^ 56u8 == 170u8, 146u8 ^ 127u8 == 237u8,
        146u8 ^ 147u8 == 1u8, 146u8 ^ 150u8 == 4u8, 146u8 ^ 233u8 == 123u8, 147u8 ^ 119u8 == 228u8,
        149u8 ^ 28u8 == 137u8, 149u8 ^ 58u8 == 175u8, 149u8 ^ 100u8 == 241u8, 149u8 ^ 119u8 == 226u8,
        149u8 ^ 147u8 == 6u8, 149u8 ^ 176u8 == 37u8, 150u8 ^ 74u8 == 220u8, 150u8 ^ 103u8 == 241u8,
        150u8 ^ 127u8 == 233u8, 150u8 ^ 147u8 == 5u8, 150u8 ^ 167u8 == 49u8, 150u8 ^ 181u8 == 35u8,
        150u8 ^ 247u8 == 97u8, 151u8 ^ 100u8 == 243u8, 151u8 ^ 150u8 == 1u8, 152u8 ^ 103u8 == 255u8,
        152u8 ^ 119u8 == 239u8, 152u8 ^ 252u8 == 100u8, 153u8 ^ 18u8 == 139u8, 153u8 ^ 147u8 == 10u8,
        153u8 ^ 167u8 == 62u8, 155u8 ^ 100u8 == 255u8, 155u8 ^ 176u8 == 43u8, 156u8 ^ 13u8 == 145u8,
        156u8 ^ 100u8 == 248u8, 156u8 ^ 233u8 == 117u8, 157u8 ^ 56u8 == 165u8, 157u8 ^ 247u8 == 106u8,
        158u8 ^ 41u8 == 183u8, 158u8 ^ 251u8 == 101u8, 159u8 ^ 150u8 == 9u8, 159u8 ^ 174u8 == 49u8,
        159u8 ^ 251u8 == 100u8, 160u8 ^ 233u8 == 73u8, 161u8 ^ 9u8 == 168u8, 163u8 ^ 208u8 == 115u8,
        164u8 ^ 9u8 == 173u8, 164u8 ^ 18u8 == 182u8, 164u8 ^ 127u8 == 219u8, 164u8 ^ 174u8 == 10u8,
        166u8 ^ 12u8 == 170u8, 166u8 ^ 121u8 == 223u8, 166u8 ^ 150u8 == 48u8, 167u8 ^ 103u8 == 192u8,
        167u8 ^ 127u8 == 216u8, 168u8 ^ 233u8 == 65u8, 168u8 ^ 247u8 == 95u8, 169u8 ^ 18u8 == 187u8,
        169u8 ^ 58u8 == 147u8, 169u8 ^ 100u8 == 205u8, 169u8 ^ 127u8 == 214u8, 170u8 ^ 12u8 == 166u8,
        170u8 ^ 18u8 == 184u8, 170u8 ^ 100u8 == 206u8, 170u8 ^ 117u8 == 223u8, 170u8 ^ 147u8 == 57u8,
        170u8 ^ 181u8 == 31u8, 171u8 ^ 13u8 == 166u8, 171u8 ^ 41u8 == 130u8, 171u8 ^ 56u8 == 147u8,
        171u8 ^ 117u8 == 222u8, 171u8 ^ 150u8 == 61u8, 171u8 ^ 233u8 == 66u8, 172u8 ^ 121u8 == 213u8,
        172u8 ^ 174u8 == 2u8, 173u8 ^ 41u8 == 132u8, 173u8 ^ 181u8 == 24u8, 174u8 ^ 147u8 == 61u8,
        175u8 ^ 9u8 == 166u8, 175u8 ^ 13u8 == 162u8, 175u8 ^ 41u8 == 134u8, 175u8 ^ 100u8 == 203u8,
        175u8 ^ 251u8 == 84u8, 176u8 ^ 28u8 == 172u8, 176u8 ^ 119u8 == 199u8, 176u8 ^ 127u8 == 207u8,
        176u8 ^ 174u8 == 30u8, 177u8 ^ 56u8 == 137u8, 177u8 ^ 100u8 == 213u8, 177u8 ^ 119u8 == 198u8,
        177u8 ^ 247u8 == 70u8, 178u8 ^ 12u8 == 190u8, 178u8 ^ 58u8 == 136u8, 179u8 ^ 41u8 == 154u8,
        180u8 ^ 12u8 == 184u8, 180u8 ^ 41u8 == 157u8, 180u8 ^ 119u8 == 195u8, 180u8 ^ 176u8 == 4u8,
        180u8 ^ 252u8 == 72u8, 181u8 ^ 74u8 == 255u8, 181u8 ^ 119u8 == 194u8, 181u8 ^ 127u8 == 202u8,
        181u8 ^ 208u8 == 101u8, 182u8 ^ 100u8 == 210u8, 182u8 ^ 117u8 == 195u8, 182u8 ^ 119u8 == 193u8,
        182u8 ^ 181u8 == 3u8, 182u8 ^ 208u8 == 102u8, 183u8 ^ 12u8 == 187u8, 183u8 ^ 18u8 == 165u8,
        183u8 ^ 147u8 == 36u8, 183u8 ^ 251u8 == 76u8, 184u8 ^ 12u8 == 180u8, 184u8 ^ 18u8 == 170u8,
        184u8 ^ 119u8 == 207u8, 184u8 ^ 167u8 == 31u8, 184u8 ^ 208u8 == 104u8, 185u8 ^ 174u8 == 23u8,
        185u8 ^ 181u8 == 12u8, 187u8 ^ 12u8 == 183u8, 187u8 ^ 13u8 == 182u8, 187u8 ^ 58u8 == 129u8,
        187u8 ^ 100u8 == 223u8, 187u8 ^ 127u8 == 196u8, 187u8 ^ 150u8 == 45u8, 188u8 ^ 58u8 == 134u8,
        188u8 ^ 121u8 == 197u8, 188u8 ^ 147u8 == 47u8, 188u8 ^ 247u8 == 75u8, 189u8 ^ 119u8 == 202u8,
        190u8 ^ 12u8 == 178u8, 190u8 ^ 28u8 == 162u8, 190u8 ^ 41u8 == 151u8, 190u8 ^ 100u8 == 218u8,
        190u8 ^ 176u8 == 14u8, 191u8 ^ 13u8 == 178u8, 191u8 ^ 117u8 == 202u8, 191u8 ^ 127u8 == 192u8,
        191u8 ^ 147u8 == 44u8, 193u8 ^ 28u8 == 221u8, 193u8 ^ 150u8 == 87u8, 194u8 ^ 18u8 == 208u8,
        194u8 ^ 58u8 == 248u8, 194u8 ^ 176u8 == 114u8, 195u8 ^ 100u8 == 167u8, 195u8 ^ 233u8 == 42u8,
        196u8 ^ 9u8 == 205u8, 196u8 ^ 74u8 == 142u8, 196u8 ^ 103u8 == 163u8, 197u8 ^ 119u8 == 178u8,
        197u8 ^ 197u8 == 0u8, 198u8 ^ 127u8 == 185u8, 199u8 ^ 9u8 == 206u8, 199u8 ^ 176u8 == 119u8,
        200u8 ^ 41u8 == 225u8, 200u8 ^ 56u8 == 240u8, 200u8 ^ 117u8 == 189u8, 200u8 ^ 167u8 == 111u8,
        200u8 ^ 176u8 == 120u8, 200u8 ^ 251u8 == 51u8, 201u8 ^ 252u8 == 53u8, 202u8 ^ 13u8 == 199u8,
        202u8 ^ 18u8 == 216u8, 202u8 ^ 74u8 == 128u8, 203u8 ^ 100u8 == 175u8, 203u8 ^ 119u8 == 188u8,
        203u8 ^ 233u8 == 34u8, 204u8 ^ 28u8 == 208u8, 204u8 ^ 147u8 == 95u8, 205u8 ^ 28u8 == 209u8,
        205u8 ^ 252u8 == 49u8, 206u8 ^ 103u8 == 169u8, 206u8 ^ 117u8 == 187u8, 206u8 ^ 147u8 == 93u8,
        206u8 ^ 167u8 == 105u8, 207u8 ^ 9u8 == 198u8, 207u8 ^ 56u8 == 247u8, 207u8 ^ 100u8 == 171u8,
        207u8 ^ 176u8 == 127u8, 208u8 ^ 74u8 == 154u8, 208u8 ^ 147u8 == 67u8, 208u8 ^ 174u8 == 126u8,
        209u8 ^ 56u8 == 233u8, 209u8 ^ 174u8 == 127u8, 210u8 ^ 18u8 == 192u8, 210u8 ^ 117u8 == 167u8,
        210u8 ^ 147u8 == 65u8, 211u8 ^ 117u8 == 166u8, 211u8 ^ 127u8 == 172u8, 212u8 ^ 13u8 == 217u8,
        212u8 ^ 181u8 == 97u8, 213u8 ^ 18u8 == 199u8, 213u8 ^ 28u8 == 201u8, 213u8 ^ 167u8 == 114u8,
        213u8 ^ 233u8 == 60u8, 214u8 ^ 58u8 == 236u8, 214u8 ^ 247u8 == 33u8, 214u8 ^ 251u8 == 45u8,
        215u8 ^ 58u8 == 237u8, 215u8 ^ 100u8 == 179u8, 215u8 ^ 127u8 == 168u8, 215u8 ^ 233u8 == 62u8,
        216u8 ^ 176u8 == 104u8, 216u8 ^ 208u8 == 8u8, 217u8 ^ 117u8 == 172u8, 217u8 ^ 121u8 == 160u8,
        217u8 ^ 127u8 == 166u8, 217u8 ^ 176u8 == 105u8, 218u8 ^ 41u8 == 243u8, 218u8 ^ 117u8 == 175u8,
        219u8 ^ 56u8 == 227u8, 219u8 ^ 247u8 == 44u8, 219u8 ^ 251u8 == 32u8, 220u8 ^ 147u8 == 79u8,
        220u8 ^ 150u8 == 74u8, 221u8 ^ 100u8 == 185u8, 221u8 ^ 181u8 == 104u8, 222u8 ^ 9u8 == 215u8,
        222u8 ^ 117u8 == 171u8, 222u8 ^ 247u8 == 41u8, 223u8 ^ 100u8 == 187u8, 223u8 ^ 119u8 == 168u8,
        224u8 ^ 12u8 == 236u8, 224u8 ^ 176u8 == 80u8, 224u8 ^ 208u8 == 48u8, 225u8 ^ 9u8 == 232u8,
        225u8 ^ 150u8 == 119u8, 225u8 ^ 176u8 == 81u8, 226u8 ^ 9u8 == 235u8, 226u8 ^ 28u8 == 254u8,
        226u8 ^ 247u8 == 21u8, 227u8 ^ 13u8 == 238u8, 227u8 ^ 28u8 == 255u8, 227u8 ^ 58u8 == 217u8,
        227u8 ^ 121u8 == 154u8, 227u8 ^ 127u8 == 156u8, 227u8 ^ 251u8 == 24u8, 228u8 ^ 100u8 == 128u8,
        228u8 ^ 181u8 == 81u8, 229u8 ^ 18u8 == 247u8, 231u8 ^ 41u8 == 206u8, 231u8 ^ 74u8 == 173u8,
        231u8 ^ 121u8 == 158u8, 231u8 ^ 247u8 == 16u8, 232u8 ^ 13u8 == 229u8, 232u8 ^ 56u8 == 208u8,
        232u8 ^ 103u8 == 143u8, 232u8 ^ 252u8 == 20u8, 233u8 ^ 56u8 == 209u8, 234u8 ^ 58u8 == 208u8,
        234u8 ^ 103u8 == 141u8, 234u8 ^ 147u8 == 121u8, 234u8 ^ 252u8 == 22u8, 235u8 ^ 119u8 == 156u8,
        236u8 ^ 9u8 == 229u8, 236u8 ^ 12u8 == 224u8, 236u8 ^ 41u8 == 197u8, 236u8 ^ 147u8 == 127u8,
        236u8 ^ 251u8 == 23u8, 237u8 ^ 147u8 == 126u8, 237u8 ^ 150u8 == 123u8, 237u8 ^ 174u8 == 67u8,
        237u8 ^ 181u8 == 88u8, 238u8 ^ 74u8 == 164u8, 238u8 ^ 174u8 == 64u8, 239u8 ^ 28u8 == 243u8,
        239u8 ^ 117u8 == 154u8, 239u8 ^ 121u8 == 150u8, 239u8 ^ 247u8 == 24u8, 240u8 ^ 127u8 == 143u8,
        240u8 ^ 176u8 == 64u8, 240u8 ^ 233u8 == 25u8, 241u8 ^ 12u8 == 253u8, 241u8 ^ 28u8 == 237u8,
        241u8 ^ 100u8 == 149u8, 241u8 ^ 121u8 == 136u8, 242u8 ^ 13u8 == 255u8, 242u8 ^ 74u8 == 184u8,
        242u8 ^ 100u8 == 150u8, 242u8 ^ 167u8 == 85u8, 243u8 ^ 9u8 == 250u8, 243u8 ^ 74u8 == 185u8,
        243u8 ^ 233u8 == 26u8, 244u8 ^ 18u8 == 230u8, 244u8 ^ 28u8 == 232u8, 244u8 ^ 58u8 == 206u8,
        245u8 ^ 18u8 == 231u8, 245u8 ^ 119u8 == 130u8, 245u8 ^ 208u8 == 37u8, 246u8 ^ 9u8 == 255u8,
        246u8 ^ 28u8 == 234u8, 246u8 ^ 117u8 == 131u8, 246u8 ^ 208u8 == 38u8, 247u8 ^ 100u8 == 147u8,
        247u8 ^ 167u8 == 80u8, 247u8 ^ 251u8 == 12u8, 248u8 ^ 176u8 == 72u8, 249u8 ^ 174u8 == 87u8,
        249u8 ^ 251u8 == 2u8, 250u8 ^ 74u8 == 176u8, 250u8 ^ 100u8 == 158u8, 250u8 ^ 251u8 == 1u8,
        251u8 ^ 100u8 == 159u8, 251u8 ^ 103u8 == 156u8, 252u8 ^ 174u8 == 82u8, 253u8 ^ 9u8 == 244u8,
        253u8 ^ 12u8 == 241u8, 253u8 ^ 58u8 == 199u8, 253u8 ^ 74u8 == 183u8, 253u8 ^ 121u8 == 132u8,
        254u8 ^ 56u8 == 198u8, 254u8 ^ 176u8 == 78u8, 254u8 ^ 208u8 == 46u8, 254u8 ^ 247u8 == 9u8,
        255u8 ^ 58u8 == 197u8, 255u8 ^ 174u8 == 81u8,
{
}

proof fn lemma_generator_28_root_0()
    ensures
        eval_prefix(generator_coeffs_28(), GF_LOGS[0], 29) == 0,
{
    lemma_sums_28();
    let p = generator_coeffs_28();
    let x = GF_LOGS[0];
    assert(eval_prefix(p, x, 0) == 0u8);
    assert(eval_prefix(p, x, 1) == 1u8);
    assert(eval_prefix(p, x, 2) == 253u8);
    assert(eval_prefix(p, x, 3) == 244u8);
    assert(eval_prefix(p, x, 4) == 232u8);
    assert(eval_prefix(p, x, 5) == 229u8);
    assert(eval_prefix(p, x, 6) == 247u8);
    assert(eval_prefix(p, x, 7) == 12u8);
    assert(eval_prefix(p, x, 8) == 220u8);
    assert(eval_prefix(p, x, 9) == 74u8);
    assert(eval_prefix(p, x, 10) == 45u8);
    assert(eval_prefix(p, x, 11) == 131u8);
    assert(eval_prefix(p, x, 12) == 231u8);
    assert(eval_prefix(p, x, 13) == 206u8);
    assert(eval_prefix(p, x, 14) == 105u8);
    assert(eval_prefix(p, x, 15) == 101u8);
    assert(eval_prefix(p, x, 16) == 146u8);
    assert(eval_prefix(p, x, 17) == 170u8);
    assert(eval_prefix(p, x, 18) == 223u8);
    assert(eval_prefix(p, x, 19) == 168u8);
    assert(eval_prefix(p, x, 20) == 65u8);
    assert(eval_prefix(p, x, 21) == 62u8);
    assert(eval_prefix(p, x, 22) == 139u8);
    assert(eval_prefix(p, x, 23) == 239u8);
    assert(eval_prefix(p, x, 24) == 150u8);
    assert(eval_prefix(p, x, 25) == 5u8);
    assert(eval_prefix(p, x, 26) == 181u8);
    assert(eval_prefix(p, x, 27) == 255u8);
    assert(eval_prefix(p, x, 28) == 197u8);
    assert(eval_prefix(p, x, 29) == 0u8);
}

proof fn lemma_generator_28_root_1()
    ensures
        eval_prefix(generator_coeffs_28(), GF_LOGS[1], 29) == 0,
{
    lemma_sums_28();
    let p = generator_coeffs_28();
    let x = GF_LOGS[1];
    assert(eval_prefix(p, x, 0) == 0u8);
    assert(eval_prefix(p, x, 1) == 1u8);
    assert(eval_prefix(p, x, 2) == 254u8);
    assert(eval_prefix(p, x, 3) == 232u8);
    assert(eval_prefix(p, x, 4) == 209u8);
    assert(eval_prefix(p, x, 5) == 178u8);
    assert(eval_prefix(p, x, 6) == 107u8);
    assert(eval_prefix(p, x, 7) == 45u8);
    assert(eval_prefix(p, x, 8) == 138u8);
    assert(eval_prefix(p, x, 9) == 159u8);
    assert(eval_prefix(p, x, 10) == 68u8);
    assert(eval_prefix(p, x, 11) == 38u8);
    assert(eval_prefix(p, x, 12) == 40u8);
    assert(eval_prefix(p, x, 13) == 121u8);
    assert(eval_prefix(p, x, 14) == 85u8);
    assert(eval_prefix(p, x, 15) == 166u8);
    assert(eval_prefix(p, x, 16) == 166u8);
    assert(eval_prefix(p, x, 17) == 105u8);
    assert(eval_prefix(p, x, 18) == 167u8);
    assert(eval_prefix(p, x, 19) == 36u8);
    assert(eval_prefix(p, x, 20) == 161u8);
    assert(eval_prefix(p, x, 21) == 32u8);
    assert(eval_prefix(p, x, 22) == 245u8);
    assert(eval_prefix(p, x, 23) == 147u8);
    assert(eval_prefix(p, x, 24) == 66u8);
    assert(eval_prefix(p, x, 25) == 23u8);
    assert(eval_prefix(p, x, 26) == 158u8);
    assert(eval_prefix(p, x, 27) == 107u8);
    assert(eval_prefix(p, x, 28) == 236u8);
    assert(eval_prefix(p, x, 29) == 0u8);
}

proof fn lemma_generator_28_root_2()
    ensures
        eval_prefix(generator_coeffs_28(), GF_LOGS[2], 29) == 0,
{
    lemma_sums_28();
    let p = generator_coeffs_28();
    let x = GF_LOGS[2];
    assert(eval_prefix(p, x, 0) == 0u8);
    assert(eval_prefix(p, x, 1) == 1u8);
    assert(eval_prefix(p, x, 2) == 248u8);
    assert(eval_prefix(p, x, 3) == 206u8);
    assert(eval_prefix(p, x, 4) == 3u8);
    assert(eval_prefix(p, x, 5) == 1u8);
    assert(eval_prefix(p, x, 6) == 22u8);
    assert(eval_prefix(p, x, 7) == 163u8);
    assert(eval_prefix(p, x, 8) == 102u8);
    assert(eval_prefix(p, x, 9) == 19u8);
    assert(eval_prefix(p, x, 10) == 43u8);
    assert(eval_prefix(p, x, 11) == 2u8);
    assert(eval_prefix(p, x, 12) == 108u8);
    assert(eval_prefix(p, x, 13) == 132u8);
    assert(eval_prefix(p, x, 14) == 141u8);
    assert(eval_prefix(p, x, 15) == 2u8);
    assert(eval_prefix(p, x, 16) == 255u8);
    assert(eval_prefix(p, x, 17) == 227u8);
    assert(eval_prefix(p, x, 18) == 222u8);
    assert(eval_prefix(p, x, 19) == 40u8);
    assert(eval_prefix(p, x, 20) == 73u8);
    assert(eval_prefix(p, x, 21) == 70u8);
    assert(eval_prefix(p, x, 22) == 176u8);
    assert(eval_prefix(p, x, 23) == 158u8);
    assert(eval_prefix(p, x, 24) == 59u8);
    assert(eval_prefix(p, x, 25) == 127u8);
    assert(eval_prefix(p, x, 26) == 81u8);
    assert(eval_prefix(p, x, 27) == 19u8);
    assert(eval_prefix(p, x, 28) == 118u8);
    assert(eval_prefix(p, x, 29) == 0u8);
}

proof fn lemma_generator_28_root_3()
    ensures
        eval_prefix(generator_coeffs_28(), GF_LOGS[3], 29) == 0,
{
    lemma_sums_28();
    let p = generator_coeffs_28();
    let x = GF_LOGS[3];
    assert(eval_prefix(p, x, 0) == 0u8);
    assert(eval_prefix(p, x, 1) == 1u8);
    assert(eval_prefix(p, x, 2) == 244u8);
    assert(eval_prefix(p, x, 3) == 250u8);
    assert(eval_prefix(p, x, 4) == 159u8);
    assert(eval_prefix(p, x, 5) == 129u8);
    assert(eval_prefix(p, x, 6) == 110u8);
    assert(eval_prefix(p, x, 7) == 172u8);
    assert(eval_prefix(p, x, 8) == 217u8);
    assert(eval_prefix(p, x, 9) == 16u8);
    assert(eval_prefix(p, x, 10) == 231u8);
    assert(eval_prefix(p, x, 11) == 197u8);
    assert(eval_prefix(p, x, 12) == 2u8);
    assert(eval_prefix(p, x, 13) == 57u8);
    assert(eval_prefix(p, x, 14) == 114u8);
    assert(eval_prefix(p, x, 15) == 187u8);
    assert(eval_prefix(p, x, 16) == 70u8);
    assert(eval_prefix(p, x, 17) == 50u8);
    assert(eval_prefix(p, x, 18) == 248u8);
    assert(eval_prefix(p, x, 19) == 228u8);
    assert(eval_prefix(p, x, 20) == 154u8);
    assert(eval_prefix(p, x, 21) == 219u8);
    assert(eval_prefix(p, x, 22) == 35u8);
    assert(eval_prefix(p, x, 23) == 97u8);
    assert(eval_prefix(p, x, 24) == 86u8);
    assert(eval_prefix(p, x, 25) == 25u8);
    assert(eval_prefix(p, x, 26) == 120u8);
    assert(eval_prefix(p, x, 27) == 173u8);
    assert(eval_prefix(p, x, 28) == 59u8);
    assert(eval_prefix(p, x, 29) == 0u8);
}

proof fn lemma_generator_28_root_4()
    ensures
        eval_prefix(generator_coeffs_28(), GF_LOGS[4], 29) == 0,
{
    lemma_sums_28();
    let p = generator_coeffs_28();
    let x = GF_LOGS[4];
    assert(eval_prefix(p, x, 0) == 0u8);
    assert(eval_prefix(p, x, 1) == 1u8);
    assert(eval_prefix(p, x, 2) == 236u8);
    assert(eval_prefix(p, x, 3) == 111u8);
    assert(eval_prefix(p, x, 4) == 162u8);
    assert(eval_prefix(p, x, 5) == 255u8);
    assert(eval_prefix(p, x, 6) == 89u8);
    assert(eval_prefix(p, x, 7) == 2u8);
    assert(eval_prefix(p, x, 8) == 240u8);
    assert(eval_prefix(p, x, 9) == 45u8);
    assert(eval_prefix(p, x, 10) == 141u8);
    assert(eval_prefix(p, x, 11) == 150u8);
    assert(eval_prefix(p, x, 12) == 241u8);
    assert(eval_prefix(p, x, 13) == 130u8);
    assert(eval_prefix(p, x, 14) == 111u8);
    assert(eval_prefix(p, x, 15) == 178u8);
    assert(eval_prefix(p, x, 16) == 24u8);
    assert(eval_prefix(p, x, 17) == 165u8);
    assert(eval_prefix(p, x, 18) == 247u8);
    assert(eval_prefix(p, x, 19) == 188u8);
    assert(eval_prefix(p, x, 20) == 230u8);
    assert(eval_prefix(p, x, 21) == 185u8);
    assert(eval_prefix(p, x, 22) == 234u8);
    assert(eval_prefix(p, x, 23) == 98u8);
    assert(eval_prefix(p, x, 24) == 23u8);
    assert(eval_prefix(p, x, 25) == 254u8);
    assert(eval_prefix(p, x, 26) == 235u8);
    assert(eval_prefix(p, x, 27) == 92u8);
    assert(eval_prefix(p, x, 28) == 147u8);
    assert(eval_prefix(p, x, 29) == 0u8);
}

proof fn lemma_generator_28_root_5()
    ensures
        eval_prefix(generator_coeffs_28(), GF_LOGS[5], 29) == 0,
{
    lemma_sums_28();
    let p = generator_coeffs_28();
    let x = GF_LOGS[5];
    assert(eval_prefix(p, x, 0) == 0u8);
    assert(eval_prefix(p, x, 1) == 1u8);
    assert(eval_prefix(p, x, 2) == 220u8);
    assert(eval_prefix(p, x, 3) == 139u8);
    assert(eval_prefix(p, x, 4) == 172u8);
    assert(eval_prefix(p, x, 5) == 41u8);
    assert(eval_prefix(p, x, 6) == 91u8);
    assert(eval_prefix(p, x, 7) == 84u8);
    assert(eval_prefix(p, x, 8) == 130u8);
    assert(eval_prefix(p, x, 9) == 27u8);
    assert(eval_prefix(p, x, 10) == 32u8);
    assert(eval_prefix(p, x, 11) == 218u8);
    assert(eval_prefix(p, x, 12) == 38u8);
    assert(eval_prefix(p, x, 13) == 157u8);
    assert(eval_prefix(p, x, 14) == 237u8);
    assert(eval_prefix(p, x, 15) == 224u8);
    assert(eval_prefix(p, x, 16) == 166u8);
    assert(eval_prefix(p, x, 17) == 65u8);
    assert(eval_prefix(p, x, 18) == 189u8);
    assert(eval_prefix(p, x, 19) == 73u8);
    assert(eval_prefix(p, x, 20) == 60u8);
    assert(eval_prefix(p, x, 21) == 172u8);
    assert(eval_prefix(p, x, 22) == 145u8);
    assert(eval_prefix(p, x, 23) == 179u8);
    assert(eval_prefix(p, x, 24) == 154u8);
    assert(eval_prefix(p, x, 25) == 57u8);
    assert(eval_prefix(p, x, 26) == 195u8);
    assert(eval_prefix(p, x, 27) == 15u8);
    assert(eval_prefix(p, x, 28) == 199u8);
    assert(eval_prefix(p, x, 29) == 0u8);
}

proof fn lemma_generator_28_root_6()
    ensures
        eval_prefix(generator_coeffs_28(), GF_LOGS[6], 29) == 0,
{
    lemma_sums_28();
    let p = generator_coeffs_28();
    let x = GF_LOGS[6];
    assert(eval_prefix(p, x, 0) == 0u8);
    assert(eval_prefix(p, x, 1) == 1u8);
    assert(eval_prefix(p, x, 2) == 188u8);
    assert(eval_prefix(p, x, 3) == 53u8);
    assert(eval_prefix(p, x, 4) == 221u8);
    assert(eval_prefix(p, x, 5) == 84u8);
    assert(eval_prefix(p, x, 6) == 182u8);
    assert(eval_prefix(p, x, 7) == 125u8);
    assert(eval_prefix(p, x, 8) == 230u8);
    assert(eval_prefix(p, x, 9) == 169u8);
    assert(eval_prefix(p, x, 10) == 114u8);
    assert(eval_prefix(p, x, 11) == 127u8);
    assert(eval_prefix(p, x, 12) == 210u8);
    assert(eval_prefix(p, x, 13) == 151u8);
    assert(eval_prefix(p, x, 14) == 137u8);
    assert(eval_prefix(p, x, 15) == 241u8);
    assert(eval_prefix(p, x, 16) == 97u8);
    assert(eval_prefix(p, x, 17) == 93u8);
    assert(eval_prefix(p, x, 18) == 171u8);
    assert(eval_prefix(p, x, 19) == 226u8);
    assert(eval_prefix(p, x, 20) == 203u8);
    assert(eval_prefix(p, x, 21) == 207u8);
    assert(eval_prefix(p, x, 22) == 24u8);
    assert(eval_prefix(p, x, 23) == 42u8);
    assert(eval_prefix(p, x, 24) == 43u8);
    assert(eval_prefix(p, x, 25) == 129u8);
    assert(eval_prefix(p, x, 26) == 119u8);
    assert(eval_prefix(p, x, 27) == 198u8);
    assert(eval_prefix(p, x, 28) == 237u8);
    assert(eval_prefix(p, x, 29) == 0u8);
}

proof fn lemma_generator_28_root_7()
    ensures
        eval_prefix(generator_coeffs_28(), GF_LOGS[7], 29) == 0,
{
    lemma_sums_28();
    let p = generator_coeffs_28();
    let x = GF_LOGS[7];
    assert(eval_prefix(p, x, 0) == 0u8);
    assert(eval_prefix(p, x, 1) == 1u8);
    assert(eval_prefix(p, x, 2) == 124u8);
    assert(eval_prefix(p, x, 3) == 229u8);
    assert(eval_prefix(p, x, 4) == 255u8);
    assert(eval_prefix(p, x, 5) == 111u8);
    assert(eval_prefix(p, x, 6) == 139u8);
    assert(eval_prefix(p, x, 7) == 1u8);
    assert(eval_prefix(p, x, 8) == 80u8);
    assert(eval_prefix(p, x, 9) == 249u8);
    assert(eval_prefix(p, x, 10) == 34u8);
    assert(eval_prefix(p, x, 11) == 126u8);
    assert(eval_prefix(p, x, 12) == 149u8);
    assert(eval_prefix(p, x, 13) == 104u8);
    assert(eval_prefix(p, x, 14) == 153u8);
    assert(eval_prefix(p, x, 15) == 3u8);
    assert(eval_prefix(p, x, 16) == 106u8);
    assert(eval_prefix(p, x, 17) == 27u8);
    assert(eval_prefix(p, x, 18) == 116u8);
    assert(eval_prefix(p, x, 19) == 239u8);
    assert(eval_prefix(p, x, 20) == 99u8);
    assert(eval_prefix(p, x, 21) == 168u8);
    assert(eval_prefix(p, x, 22) == 31u8);
    assert(eval_prefix(p, x, 23) == 95u8);
    assert(eval_prefix(p, x, 24) == 197u8);
    assert(eval_prefix(p, x, 25) == 189u8);
    assert(eval_prefix(p, x, 26) == 72u8);
    assert(eval_prefix(p, x, 27) == 185u8);
    assert(eval_prefix(p, x, 28) == 248u8);
    assert(eval_prefix(p, x, 29) == 0u8);
}

proof fn lemma_generator_28_root_8()
    ensures
        eval_prefix(generator_coeffs_28(), GF_LOGS[8], 29) == 0,
{
    lemma_sums_28();
    let p = generator_coeffs_28();
    let x = GF_LOGS[8];
    assert(eval_prefix(p, x, 0) == 0u8);
    assert(eval_prefix(p, x, 1) == 1u8);
    assert(eval_prefix(p, x, 2) == 225u8);
    assert(eval_prefix(p, x, 3) == 166u8);
    assert(eval_prefix(p, x, 4) == 243u8);
    assert(eval_prefix(p, x, 5) == 85u8);
    assert(eval_prefix(p, x, 6) == 165u8);
    assert(eval_prefix(p, x, 7) == 51u8);
    assert(eval_prefix(p, x, 8) == 189u8);
    assert(eval_prefix(p, x, 9) == 123u8);
    assert(eval_prefix(p, x, 10) == 241u8);
    assert(eval_prefix(p, x, 11) == 204u8);
    assert(eval_prefix(p, x, 12) == 205u8);
    assert(eval_prefix(p, x, 13) == 157u8);
    assert(eval_prefix(p, x, 14) == 205u8);
    assert(eval_prefix(p, x, 15) == 184u8);
    assert(eval_prefix(p, x, 16) == 115u8);
    assert(eval_prefix(p, x, 17) == 70u8);
    assert(eval_prefix(p, x, 18) == 40u8);
    assert(eval_prefix(p, x, 19) == 24u8);
    assert(eval_prefix(p, x, 20) == 204u8);
    assert(eval_prefix(p, x, 21) == 214u8);
    assert(eval_prefix(p, x, 22) == 3u8);
    assert(eval_prefix(p, x, 23) == 67u8);
    assert(eval_prefix(p, x, 24) == 77u8);
    assert(eval_prefix(p, x, 25) == 1u8);
    assert(eval_prefix(p, x, 26) == 173u8);
    assert(eval_prefix(p, x, 27) == 106u8);
    assert(eval_prefix(p, x, 28) == 124u8);
    assert(eval_prefix(p, x, 29) == 0u8);
}

proof fn lemma_generator_28_root_9()
    ensures
        eval_prefix(generator_coeffs_28(), GF_LOGS[9], 29) == 0,
{
    lemma_sums_28();
    let p = generator_coeffs_28();
    let x = GF_LOGS[9];
    assert(eval_prefix(p, x, 0) == 0u8);
    assert(eval_prefix(p, x, 1) == 1u8);
    assert(eval_prefix(p, x, 2) == 198u8);
    assert(eval_prefix(p, x, 3) == 255u8);
    assert(eval_prefix(p, x, 4) == 137u8);
    assert(eval_prefix(p, x, 5) == 182u8);
    assert(eval_prefix(p, x, 6) == 86u8);
    assert(eval_prefix(p, x, 7) == 198u8);
    assert(eval_prefix(p, x, 8) == 38u8);
    assert(eval_prefix(p, x, 9) == 25u8);
    assert(eval_prefix(p, x, 10) == 23u8);
    assert(eval_prefix(p, x, 11) == 143u8);
    assert(eval_prefix(p, x, 12) == 67u8);
    assert(eval_prefix(p, x, 13) == 65u8);
    assert(eval_prefix(p, x, 14) == 187u8);
    assert(eval_prefix(p, x, 15) == 87u8);
    assert(eval_prefix(p, x, 16) == 240u8);
    assert(eval_prefix(p, x, 17) == 198u8);
    assert(eval_prefix(p, x, 18) == 131u8);
    assert(eval_prefix(p, x, 19) == 117u8);
    assert(eval_prefix(p, x, 20) == 137u8);
    assert(eval_prefix(p, x, 21) == 196u8);
    assert(eval_prefix(p, x, 22) == 55u8);
    assert(eval_prefix(p, x, 23) == 86u8);
    assert(eval_prefix(p, x, 24) == 68u8);
    assert(eval_prefix(p, x, 25) == 93u8);
    assert(eval_prefix(p, x, 26) == 14u8);
    assert(eval_prefix(p, x, 27) == 27u8);
    assert(eval_prefix(p, x, 28) == 62u8);
    assert(eval_prefix(p, x, 29) == 0u8);
}

proof fn lemma_generator_28_root_10()
    ensures
        eval_prefix(generator_coeffs_28(), GF_LOGS[10], 29) == 0,
{
    lemma_sums_28();
    let p = generator_coeffs_28();
    let x = GF_LOGS[10];
    assert(eval_prefix(p, x, 0) == 0u8);
    assert(eval_prefix(p, x, 1) == 1u8);
    assert(eval_prefix(p, x, 2) == 136u8);
    assert(eval_prefix(p, x, 3) == 22u8);
    assert(eval_prefix(p, x, 4) == 42u8);
    assert(eval_prefix(p, x, 5) == 68u8);
    assert(eval_prefix(p, x, 6) == 147u8);
    assert(eval_prefix(p, x, 7) == 236u8);
    assert(eval_prefix(p, x, 8) == 104u8);
    assert(eval_prefix(p, x, 9) == 123u8);
    assert(eval_prefix(p, x, 10) == 5u8);
    assert(eval_prefix(p, x, 11) == 23u8);
    assert(eval_prefix(p, x, 12) == 38u8);
    assert(eval_prefix(p, x, 13) == 42u8);
    assert(eval_prefix(p, x, 14) == 238u8);
    assert(eval_prefix(p, x, 15) == 92u8);
    assert(eval_prefix(p, x, 16) == 226u8);
    assert(eval_prefix(p, x, 17) == 34u8);
    assert(eval_prefix(p, x, 18) == 187u8);
    assert(eval_prefix(p, x, 19) == 193u8);
    assert(eval_prefix(p, x, 20) == 73u8);
    assert(eval_prefix(p, x, 21) == 192u8);
    assert(eval_prefix(p, x, 22) == 97u8);
    assert(eval_prefix(p, x, 23) == 122u8);
    assert(eval_prefix(p, x, 24) == 111u8);
    assert(eval_prefix(p, x, 25) == 47u8);
    assert(eval_prefix(p, x, 26) == 64u8);
    assert(eval_prefix(p, x, 27) == 6u8);
    assert(eval_prefix(p, x, 28) == 31u8);
    assert(eval_prefix(p, x, 29) == 0u8);
}

proof fn lemma_generator_28_root_11()
    ensures
        eval_prefix(generator_coeffs_28(), GF_LOGS[11], 29) == 0,
{
    lemma_sums_28();
    let p = generator_coeffs_28();
    let x = GF_LOGS[11];
    assert(eval_prefix(p, x, 0) == 0u8);
    assert(eval_prefix(p, x, 1) == 1u8);
    assert(eval_prefix(p, x, 2) == 20u8);
    assert(eval_prefix(p, x, 3) == 168u8);
    assert(eval_prefix(p, x, 4) == 110u8);
    assert(eval_prefix(p, x, 5) == 128u8);
    assert(eval_prefix(p, x, 6) == 63u8);
    assert(eval_prefix(p, x, 7) == 32u8);
    assert(eval_prefix(p, x, 8) == 156u8);
    assert(eval_prefix(p, x, 9) == 9u8);
    assert(eval_prefix(p, x, 10) == 156u8);
    assert(eval_prefix(p, x, 11) == 49u8);
    assert(eval_prefix(p, x, 12) == 230u8);
    assert(eval_prefix(p, x, 13) == 154u8);
    assert(eval_prefix(p, x, 14) == 114u8);
    assert(eval_prefix(p, x, 15) == 51u8);
    assert(eval_prefix(p, x, 16) == 184u8);
    assert(eval_prefix(p, x, 17) == 108u8);
    assert(eval_prefix(p, x, 18) == 53u8);
    assert(eval_prefix(p, x, 19) == 114u8);
    assert(eval_prefix(p, x, 20) == 214u8);
    assert(eval_prefix(p, x, 21) == 166u8);
    assert(eval_prefix(p, x, 22) == 158u8);
    assert(eval_prefix(p, x, 23) == 54u8);
    assert(eval_prefix(p, x, 24) == 89u8);
    assert(eval_prefix(p, x, 25) == 214u8);
    assert(eval_prefix(p, x, 26) == 105u8);
    assert(eval_prefix(p, x, 27) == 101u8);
    assert(eval_prefix(p, x, 28) == 129u8);
    assert(eval_prefix(p, x, 29) == 0u8);
}

proof fn lemma_generator_28_root_12()
    ensures
        eval_prefix(generator_coeffs_28(), GF_LOGS[12], 29) == 0,
{
    lemma_sums_28();
    let p = generator_coeffs_28();
    let x = GF_LOGS[12];
    assert(eval_prefix(p, x, 0) == 0u8);
    assert(eval_prefix(p, x, 1) == 1u8);
    assert(eval_prefix(p, x, 2) == 49u8);
    assert(eval_prefix(p, x, 3) == 16u8);
    assert(eval_prefix(p, x, 4) == 80u8);
    assert(eval_prefix(p, x, 5) == 108u8);
    assert(eval_prefix(p, x, 6) == 146u8);
    assert(eval_prefix(p, x, 7) == 106u8);
    assert(eval_prefix(p, x, 8) == 196u8);
    assert(eval_prefix(p, x, 9) == 242u8);
    assert(eval_prefix(p, x, 10) == 67u8);
    assert(eval_prefix(p, x, 11) == 201u8);
    assert(eval_prefix(p, x, 12) == 248u8);
    assert(eval_prefix(p, x, 13) == 172u8);
    assert(eval_prefix(p, x, 14) == 80u8);
    assert(eval_prefix(p, x, 15) == 109u8);
    assert(eval_prefix(p, x, 16) == 186u8);
    assert(eval_prefix(p, x, 17) == 23u8);
    assert(eval_prefix(p, x, 18) == 96u8);
    assert(eval_prefix(p, x, 19) == 194u8);
    assert(eval_prefix(p, x, 20) == 25u8);
    assert(eval_prefix(p, x, 21) == 216u8);
    assert(eval_prefix(p, x, 22) == 168u8);
    assert(eval_prefix(p, x, 23) == 128u8);
    assert(eval_prefix(p, x, 24) == 35u8);
    assert(eval_prefix(p, x, 25) == 65u8);
    assert(eval_prefix(p, x, 26) == 80u8);
    assert(eval_prefix(p, x, 27) == 43u8);
    assert(eval_prefix(p, x, 28) == 206u8);
    assert(eval_prefix(p, x, 29) == 0u8);
}

proof fn lemma_generator_28_root_13()
    ensures
        eval_prefix(generator_coeffs_28(), GF_LOGS[13], 29) == 0,
{
    lemma_sums_28();
    let p = generator_coeffs_28();
    let x = GF_LOGS[13];
    assert(eval_prefix(p, x, 0) == 0u8);
    assert(eval_prefix(p, x, 1) == 1u8);
    assert(eval_prefix(p, x, 2) == 123u8);
    assert(eval_prefix(p, x, 3) == 62u8);
    assert(eval_prefix(p, x, 4) == 208u8);
    assert(eval_prefix(p, x, 5) == 123u8);
    assert(eval_prefix(p, x, 6) == 37u8);
    assert(eval_prefix(p, x, 7) == 119u8);
    assert(eval_prefix(p, x, 8) == 141u8);
    assert(eval_prefix(p, x, 9) == 207u8);
    assert(eval_prefix(p, x, 10) == 119u8);
    assert(eval_prefix(p, x, 11) == 243u8);
    assert(eval_prefix(p, x, 12) == 171u8);
    assert(eval_prefix(p, x, 13) == 104u8);
    assert(eval_prefix(p, x, 14) == 156u8);
    assert(eval_prefix(p, x, 15) == 74u8);
    assert(eval_prefix(p, x, 16) == 242u8);
    assert(eval_prefix(p, x, 17) == 112u8);
    assert(eval_prefix(p, x, 18) == 154u8);
    assert(eval_prefix(p, x, 19) == 4u8);
    assert(eval_prefix(p, x, 20) == 207u8);
    assert(eval_prefix(p, x, 21) == 111u8);
    assert(eval_prefix(p, x, 22) == 60u8);
    assert(eval_prefix(p, x, 23) == 187u8);
    assert(eval_prefix(p, x, 24) == 160u8);
    assert(eval_prefix(p, x, 25) == 10u8);
    assert(eval_prefix(p, x, 26) == 239u8);
    assert(eval_prefix(p, x, 27) == 119u8);
    assert(eval_prefix(p, x, 28) == 103u8);
    assert(eval_prefix(p, x, 29) == 0u8);
}

proof fn lemma_generator_28_root_14()
    ensures
        eval_prefix(generator_coeffs_28(), GF_LOGS[14], 29) == 0,
{
    lemma_sums_28();
    let p = generator_coeffs_28();
    let x = GF_LOGS[14];
    assert(eval_prefix(p, x, 0) == 0u8);
    assert(eval_prefix(p, x, 1) == 1u8);
    assert(eval_prefix(p, x, 2) == 239u8);
    assert(eval_prefix(p, x, 3) == 115u8);
    assert(eval_prefix(p, x, 4) == 234u8);
    assert(eval_prefix(p, x, 5) == 40u8);
    assert(eval_prefix(p, x, 6) == 208u8);
    assert(eval_prefix(p, x, 7) == 23u8);
    assert(eval_prefix(p, x, 8) == 132u8);
    assert(eval_prefix(p, x, 9) == 175u8);
    assert(eval_prefix(p, x, 10) == 169u8);
    assert(eval_prefix(p, x, 11) == 10u8);
    assert(eval_prefix(p, x, 12) == 218u8);
    assert(eval_prefix(p, x, 13) == 123u8);
    assert(eval_prefix(p, x, 14) == 201u8);
    assert(eval_prefix(p, x, 15) == 70u8);
    assert(eval_prefix(p, x, 16) == 41u8);
    assert(eval_prefix(p, x, 17) == 233u8);
    assert(eval_prefix(p, x, 18) == 101u8);
    assert(eval_prefix(p, x, 19) == 198u8);
    assert(eval_prefix(p, x, 20) == 66u8);
    assert(eval_prefix(p, x, 21) == 237u8);
    assert(eval_prefix(p, x, 22) == 233u8);
    assert(eval_prefix(p, x, 23) == 116u8);
    assert(eval_prefix(p, x, 24) == 246u8);
    assert(eval_prefix(p, x, 25) == 79u8);
    assert(eval_prefix(p, x, 26) == 229u8);
    assert(eval_prefix(p, x, 27) == 142u8);
    assert(eval_prefix(p, x, 28) == 189u8);
    assert(eval_prefix(p, x, 29) == 0u8);
}

proof fn lemma_generator_28_root_15()
    ensures
        eval_prefix(generator_coeffs_28(), GF_LOGS[15], 29) == 0,
{
    lemma_sums_28();
    let p = generator_coeffs_28();
    let x = GF_LOGS[15];
    assert(eval_prefix(p, x, 0) == 0u8);
    assert(eval_prefix(p, x, 1) == 1u8);
    assert(eval_prefix(p, x, 2) == 218u8);
    assert(eval_prefix(p, x, 3) == 173u8);
    assert(eval_prefix(p, x, 4) == 209u8);
    assert(eval_prefix(p, x, 5) == 238u8);
    assert(eval_prefix(p, x, 6) == 192u8);
    assert(eval_prefix(p, x, 7) == 100u8);
    assert(eval_prefix(p, x, 8) == 137u8);
    assert(eval_prefix(p, x, 9) == 119u8);
    assert(eval_prefix(p, x, 10) == 14u8);
    assert(eval_prefix(p, x, 11) == 87u8);
    assert(eval_prefix(p, x, 12) == 185u8);
    assert(eval_prefix(p, x, 13) == 38u8);
    assert(eval_prefix(p, x, 14) == 199u8);
    assert(eval_prefix(p, x, 15) == 97u8);
    assert(eval_prefix(p, x, 16) == 16u8);
    assert(eval_prefix(p, x, 17) == 98u8);
    assert(eval_prefix(p, x, 18) == 248u8);
    assert(eval_prefix(p, x, 19) == 43u8);
    assert(eval_prefix(p, x, 20) == 26u8);
    assert(eval_prefix(p, x, 21) == 68u8);
    assert(eval_prefix(p, x, 22) == 88u8);
    assert(eval_prefix(p, x, 23) == 102u8);
    assert(eval_prefix(p, x, 24) == 108u8);
    assert(eval_prefix(p, x, 25) == 231u8);
    assert(eval_prefix(p, x, 26) == 105u8);
    assert(eval_prefix(p, x, 27) == 128u8);
    assert(eval_prefix(p, x, 28) == 208u8);
    assert(eval_prefix(p, x, 29) == 0u8);
}

proof fn lemma_generator_28_root_16()
    ensures
        eval_prefix(generator_coeffs_28(), GF_LOGS[16], 29) == 0,
{
    lemma_sums_28();
    let p = generator_coeffs_28();
    let x = GF_LOGS[16];
    assert(eval_prefix(p, x, 0) == 0u8);
    assert(eval_prefix(p, x, 1) == 1u8);
    assert(eval_prefix(p, x, 2) == 176u8);
    assert(eval_prefix(p, x, 3) == 1u8);
    assert(eval_prefix(p, x, 4) == 80u8);
    assert(eval_prefix(p, x, 5) == 83u8);
    assert(eval_prefix(p, x, 6) == 152u8);
    assert(eval_prefix(p, x, 7) == 220u8);
    assert(eval_prefix(p, x, 8) == 48u8);
    assert(eval_prefix(p, x, 9) == 87u8);
    assert(eval_prefix(p, x, 10) == 192u8);
    assert(eval_prefix(p, x, 11) == 141u8);
    assert(eval_prefix(p, x, 12) == 150u8);
    assert(eval_prefix(p, x, 13) == 225u8);
    assert(eval_prefix(p, x, 14) == 189u8);
    assert(eval_prefix(p, x, 15) == 63u8);
    assert(eval_prefix(p, x, 16) == 149u8);
    assert(eval_prefix(p, x, 17) == 36u8);
    assert(eval_prefix(p, x, 18) == 45u8);
    assert(eval_prefix(p, x, 19) == 57u8);
    assert(eval_prefix(p, x, 20) == 62u8);
    assert(eval_prefix(p, x, 21) == 81u8);
    assert(eval_prefix(p, x, 22) == 167u8);
    assert(eval_prefix(p, x, 23) == 33u8);
    assert(eval_prefix(p, x, 24) == 64u8);
    assert(eval_prefix(p, x, 25) == 121u8);
    assert(eval_prefix(p, x, 26) == 141u8);
    assert(eval_prefix(p, x, 27) == 184u8);
    assert(eval_prefix(p, x, 28) == 104u8);
    assert(eval_prefix(p, x, 29) == 0u8);
}

proof fn lemma_generator_28_root_17()
    ensures
        eval_prefix(generator_coeffs_28(), GF_LOGS[17], 29) == 0,
{
    lemma_sums_28();
    let p = generator_coeffs_28();
    let x = GF_LOGS[17];
    assert(eval_prefix(p, x, 0) == 0u8);
    assert(eval_prefix(p, x, 1) == 1u8);
    assert(eval_prefix(p, x, 2) == 100u8);
    assert(eval_prefix(p, x, 3) == 112u8);
    assert(eval_prefix(p, x, 4) == 74u8);
    assert(eval_prefix(p, x, 5) == 93u8);
    assert(eval_prefix(p, x, 6) == 216u8);
    assert(eval_prefix(p, x, 7) == 124u8);
    assert(eval_prefix(p, x, 8) == 104u8);
    assert(eval_prefix(p, x, 9) == 1u8);
    assert(eval_prefix(p, x, 10) == 255u8);
    assert(eval_prefix(p, x, 11) == 44u8);
    assert(eval_prefix(p, x, 12) == 96u8);
    assert(eval_prefix(p, x, 13) == 10u8);
    assert(eval_prefix(p, x, 14) == 62u8);
    assert(eval_prefix(p, x, 15) == 80u8);
    assert(eval_prefix(p, x, 16) == 75u8);
    assert(eval_prefix(p, x, 17) == 240u8);
    assert(eval_prefix(p, x, 18) == 172u8);
    assert(eval_prefix(p, x, 19) == 252u8);
    assert(eval_prefix(p, x, 20) == 222u8);
    assert(eval_prefix(p, x, 21) == 143u8);
    assert(eval_prefix(p, x, 22) == 97u8);
    assert(eval_prefix(p, x, 23) == 223u8);
    assert(eval_prefix(p, x, 24) == 17u8);
    assert(eval_prefix(p, x, 25) == 126u8);
    assert(eval_prefix(p, x, 26) == 37u8);
    assert(eval_prefix(p, x, 27) == 98u8);
    assert(eval_prefix(p, x, 28) == 52u8);
    assert(eval_prefix(p, x, 29) == 0u8);
}

proof fn lemma_generator_28_root_18()
    ensures
        eval_prefix(generator_coeffs_28(), GF_LOGS[18], 29) == 0,
{
    lemma_sums_28();
    let p = generator_coeffs_28();
    let x = GF_LOGS[18];
    assert(eval_prefix(p, x, 0) == 0u8);
    assert(eval_prefix(p, x, 1) == 1u8);
    assert(eval_prefix(p, x, 2) == 209u8);
    assert(eval_prefix(p, x, 3) == 66u8);
    assert(eval_prefix(p, x, 4) == 201u8);
    assert(eval_prefix(p, x, 5) == 217u8);
    assert(eval_prefix(p, x, 6) == 44u8);
    assert(eval_prefix(p, x, 7) == 243u8);
    assert(eval_prefix(p, x, 8) == 8u8);
    assert(eval_prefix(p, x, 9) == 227u8);
    assert(eval_prefix(p, x, 10) == 85u8);
    assert(eval_prefix(p, x, 11) == 82u8);
    assert(eval_prefix(p, x, 12) == 91u8);
    assert(eval_prefix(p, x, 13) == 78u8);
    assert(eval_prefix(p, x, 14) == 179u8);
    assert(eval_prefix(p, x, 15) == 91u8);
    assert(eval_prefix(p, x, 16) == 144u8);
    assert(eval_prefix(p, x, 17) == 209u8);
    assert(eval_prefix(p, x, 18) == 62u8);
    assert(eval_prefix(p, x, 19) == 207u8);
    assert(eval_prefix(p, x, 20) == 211u8);
    assert(eval_prefix(p, x, 21) == 110u8);
    assert(eval_prefix(p, x, 22) == 104u8);
    assert(eval_prefix(p, x, 23) == 87u8);
    assert(eval_prefix(p, x, 24) == 223u8);
    assert(eval_prefix(p, x, 25) == 67u8);
    assert(eval_prefix(p, x, 26) == 72u8);
    assert(eval_prefix(p, x, 27) == 176u8);
    assert(eval_prefix(p, x, 28) == 26u8);
    assert(eval_prefix(p, x, 29) == 0u8);
}

proof fn lemma_generator_28_root_19()
    ensures
        eval_prefix(generator_coeffs_28(), GF_LOGS[19], 29) == 0,
{
    lemma_sums_28();
    let p = generator_coeffs_28();
    let x = GF_LOGS[19];
    assert(eval_prefix(p, x, 0) == 0u8);
    assert(eval_prefix(p, x, 1) == 1u8);
    assert(eval_prefix(p, x, 2) == 166u8);
    assert(eval_prefix(p, x, 3) == 65u8);
    assert(eval_prefix(p, x, 4) == 69u8);
    assert(eval_prefix(p, x, 5) == 33u8);
    assert(eval_prefix(p, x, 6) == 199u8);
    assert(eval_prefix(p, x, 7) == 101u8);
    assert(eval_prefix(p, x, 8) == 115u8);
    assert(eval_prefix(p, x, 9) == 61u8);
    assert(eval_prefix(p, x, 10) == 228u8);
    assert(eval_prefix(p, x, 11) == 81u8);
    assert(eval_prefix(p, x, 12) == 244u8);
    assert(eval_prefix(p, x, 13) == 31u8);
    assert(eval_prefix(p, x, 14) == 31u8);
    assert(eval_prefix(p, x, 15) == 180u8);
    assert(eval_prefix(p, x, 16) == 194u8);
    assert(eval_prefix(p, x, 17) == 137u8);
    assert(eval_prefix(p, x, 18) == 195u8);
    assert(eval_prefix(p, x, 19) == 156u8);
    assert(eval_prefix(p, x, 20) == 185u8);
    assert(eval_prefix(p, x, 21) == 143u8);
    assert(eval_prefix(p, x, 22) == 194u8);
    assert(eval_prefix(p, x, 23) == 213u8);
    assert(eval_prefix(p, x, 24) == 154u8);
    assert(eval_prefix(p, x, 25) == 2u8);
    assert(eval_prefix(p, x, 26) == 4u8);
    assert(eval_prefix(p, x, 27) == 63u8);
    assert(eval_prefix(p, x, 28) == 13u8);
    assert(eval_prefix(p, x, 29) == 0u8);
}

proof fn lemma_generator_28_root_20()
    ensures
        eval_prefix(generator_coeffs_28(), GF_LOGS[20], 29) == 0,
{
    lemma_sums_28();
    let p = generator_coeffs_28();
    let x = GF_LOGS[20];
    assert(eval_prefix(p, x, 0) == 0u8);
    assert(eval_prefix(p, x, 1) == 1u8);
    assert(eval_prefix(p, x, 2) == 72u8);
    assert(eval_prefix(p, x, 3) == 198u8);
    assert(eval_prefix(p, x, 4) == 137u8);
    assert(eval_prefix(p, x, 5) == 124u8);
    assert(eval_prefix(p, x, 6) == 187u8);
    assert(eval_prefix(p, x, 7) == 115u8);
    assert(eval_prefix(p, x, 8) == 155u8);
    assert(eval_prefix(p, x, 9) == 29u8);
    assert(eval_prefix(p, x, 10) == 127u8);
    assert(eval_prefix(p, x, 11) == 198u8);
    assert(eval_prefix(p, x, 12) == 241u8);
    assert(eval_prefix(p, x, 13) == 27u8);
    assert(eval_prefix(p, x, 14) == 32u8);
    assert(eval_prefix(p, x, 15) == 15u8);
    assert(eval_prefix(p, x, 16) == 21u8);
    assert(eval_prefix(p, x, 17) == 233u8);
    assert(eval_prefix(p, x, 18) == 1u8);
    assert(eval_prefix(p, x, 19) == 195u8);
    assert(eval_prefix(p, x, 20) == 34u8);
    assert(eval_prefix(p, x, 21) == 9u8);
    assert(eval_prefix(p, x, 22) == 200u8);
    assert(eval_prefix(p, x, 23) == 167u8);
    assert(eval_prefix(p, x, 24) == 93u8);
    assert(eval_prefix(p, x, 25) == 141u8);
    assert(eval_prefix(p, x, 26) == 43u8);
    assert(eval_prefix(p, x, 27) == 65u8);
    assert(eval_prefix(p, x, 28) == 136u8);
    assert(eval_prefix(p, x, 29) == 0u8);
}

proof fn lemma_generator_28_root_21()
    ensures
        eval_prefix(generator_coeffs_28(), GF_LOGS[21], 29) == 0,
{
    lemma_sums_28();
    let p = generator_coeffs_28();
    let x = GF_LOGS[21];
    assert(eval_prefix(p, x, 0) == 0u8);
    assert(eval_prefix(p, x, 1) == 1u8);
    assert(eval_prefix(p, x, 2) == 137u8);
    assert(eval_prefix(p, x, 3) == 235u8);
    assert(eval_prefix(p, x, 4) == 30u8);
    assert(eval_prefix(p, x, 5) == 162u8);
    assert(eval_prefix(p, x, 6) == 230u8);
    assert(eval_prefix(p, x, 7) == 202u8);
    assert(eval_prefix(p, x, 8) == 161u8);
    assert(eval_prefix(p, x, 9) == 253u8);
    assert(eval_prefix(p, x, 10) == 69u8);
    assert(eval_prefix(p, x, 11) == 30u8);
    assert(eval_prefix(p, x, 12) == 203u8);
    assert(eval_prefix(p, x, 13) == 45u8);
    assert(eval_prefix(p, x, 14) == 146u8);
    assert(eval_prefix(p, x, 15) == 253u8);
    assert(eval_prefix(p, x, 16) == 213u8);
    assert(eval_prefix(p, x, 17) == 147u8);
    assert(eval_prefix(p, x, 18) == 241u8);
    assert(eval_prefix(p, x, 19) == 19u8);
    assert(eval_prefix(p, x, 20) == 117u8);
    assert(eval_prefix(p, x, 21) == 202u8);
    assert(eval_prefix(p, x, 22) == 196u8);
    assert(eval_prefix(p, x, 23) == 185u8);
    assert(eval_prefix(p, x, 24) == 158u8);
    assert(eval_prefix(p, x, 25) == 36u8);
    assert(eval_prefix(p, x, 26) == 127u8);
    assert(eval_prefix(p, x, 27) == 154u8);
    assert(eval_prefix(p, x, 28) == 68u8);
    assert(eval_prefix(p, x, 29) == 0u8);
}

proof fn lemma_generator_28_root_22()
    ensures
        eval_prefix(generator_coeffs_28(), GF_LOGS[22], 29) == 0,
{
    lemma_sums_28();
    let p = generator_coeffs_28();
    let x = GF_LOGS[22];
    assert(eval_prefix(p, x, 0) == 0u8);
    assert(eval_prefix(p, x, 1) == 1u8);
    assert(eval_prefix(p, x, 2) == 22u8);
    assert(eval_prefix(p, x, 3) == 73u8);
    assert(eval_prefix(p, x, 4) == 237u8);
    assert(eval_prefix(p, x, 5) == 79u8);
    assert(eval_prefix(p, x, 6) == 165u8);
    assert(eval_prefix(p, x, 7) == 162u8);
    assert(eval_prefix(p, x, 8) == 37u8);
    assert(eval_prefix(p, x, 9) == 255u8);
    assert(eval_prefix(p, x, 10) == 234u8);
    assert(eval_prefix(p, x, 11) == 64u8);
    assert(eval_prefix(p, x, 12) == 124u8);
    assert(eval_prefix(p, x, 13) == 183u8);
    assert(eval_prefix(p, x, 14) == 49u8);
    assert(eval_prefix(p, x, 15) == 236u8);
    assert(eval_prefix(p, x, 16) == 95u8);
    assert(eval_prefix(p, x, 17) == 137u8);
    assert(eval_prefix(p, x, 18) == 172u8);
    assert(eval_prefix(p, x, 19) == 199u8);
    assert(eval_prefix(p, x, 20) == 109u8);
    assert(eval_prefix(p, x, 21) == 13u8);
    assert(eval_prefix(p, x, 22) == 211u8);
    assert(eval_prefix(p, x, 23) == 105u8);
    assert(eval_prefix(p, x, 24) == 132u8);
    assert(eval_prefix(p, x, 25) == 44u8);
    assert(eval_prefix(p, x, 26) == 48u8);
    assert(eval_prefix(p, x, 27) == 64u8);
    assert(eval_prefix(p, x, 28) == 34u8);
    assert(eval_prefix(p, x, 29) == 0u8);
}

proof fn lemma_generator_28_root_23()
    ensures
        eval_prefix(generator_coeffs_28(), GF_LOGS[23], 29) == 0,
{
    lemma_sums_28();
    let p = generator_coeffs_28();
    let x = GF_LOGS[23];
    assert(eval_prefix(p, x, 0) == 0u8);
    assert(eval_prefix(p, x, 1) == 1u8);
    assert(eval_prefix(p, x, 2) == 53u8);
    assert(eval_prefix(p, x, 3) == 215u8);
    assert(eval_prefix(p, x, 4) == 5u8);
    assert(eval_prefix(p, x, 5) == 199u8);
    assert(eval_prefix(p, x, 6) == 7u8);
    assert(eval_prefix(p, x, 7) == 190u8);
    assert(eval_prefix(p, x, 8) == 46u8);
    assert(eval_prefix(p, x, 9) == 4u8);
    assert(eval_prefix(p, x, 10) == 100u8);
    assert(eval_prefix(p, x, 11) == 133u8);
    assert(eval_prefix(p, x, 12) == 206u8);
    assert(eval_prefix(p, x, 13) == 243u8);
    assert(eval_prefix(p, x, 14) == 165u8);
    assert(eval_prefix(p, x, 15) == 190u8);
    assert(eval_prefix(p, x, 16) == 9u8);
    assert(eval_prefix(p, x, 17) == 247u8);
    assert(eval_prefix(p, x, 18) == 116u8);
    assert(eval_prefix(p, x, 19) == 80u8);
    assert(eval_prefix(p, x, 20) == 213u8);
    assert(eval_prefix(p, x, 21) == 233u8);
    assert(eval_prefix(p, x, 22) == 50u8);
    assert(eval_prefix(p, x, 23) == 255u8);
    assert(eval_prefix(p, x, 24) == 126u8);
    assert(eval_prefix(p, x, 25) == 61u8);
    assert(eval_prefix(p, x, 26) == 104u8);
    assert(eval_prefix(p, x, 27) == 100u8);
    assert(eval_prefix(p, x, 28) == 17u8);
    assert(eval_prefix(p, x, 29) == 0u8);
}

proof fn lemma_generator_28_root_24()
    ensures
        eval_prefix(generator_coeffs_28(), GF_LOGS[24], 29) == 0,
{
    lemma_sums_28();
    let p = generator_coeffs_28();
    let x = GF_LOGS[24];
    assert(eval_prefix(p, x, 0) == 0u8);
    assert(eval_prefix(p, x, 1) == 1u8);
    assert(eval_prefix(p, x, 2) == 115u8);
    assert(eval_prefix(p, x, 3) == 205u8);
    assert(eval_prefix(p, x, 4) == 57u8);
    assert(eval_prefix(p, x, 5) == 166u8);
    assert(eval_prefix(p, x, 6) == 231u8);
    assert(eval_prefix(p, x, 7) == 225u8);
    assert(eval_prefix(p, x, 8) == 207u8);
    assert(eval_prefix(p, x, 9) == 176u8);
    assert(eval_prefix(p, x, 10) == 143u8);
    assert(eval_prefix(p, x, 11) == 232u8);
    assert(eval_prefix(p, x, 12) == 248u8);
    assert(eval_prefix(p, x, 13) == 173u8);
    assert(eval_prefix(p, x, 14) == 210u8);
    assert(eval_prefix(p, x, 15) == 183u8);
    assert(eval_prefix(p, x, 16) == 149u8);
    assert(eval_prefix(p, x, 17) == 105u8);
    assert(eval_prefix(p, x, 18) == 166u8);
    assert(eval_prefix(p, x, 19) == 130u8);
    assert(eval_prefix(p, x, 20) == 42u8);
    assert(eval_prefix(p, x, 21) == 64u8);
    assert(eval_prefix(p, x, 22) == 213u8);
    assert(eval_prefix(p, x, 23) == 85u8);
    assert(eval_prefix(p, x, 24) == 136u8);
    assert(eval_prefix(p, x, 25) == 95u8);
    assert(eval_prefix(p, x, 26) == 78u8);
    assert(eval_prefix(p, x, 27) == 35u8);
    assert(eval_prefix(p, x, 28) == 134u8);
    assert(eval_prefix(p, x, 29) == 0u8);
}

proof fn lemma_generator_28_root_25()
    ensures
        eval_prefix(generator_coeffs_28(), GF_LOGS[25], 29) == 0,
{
    lemma_sums_28();
    let p = generator_coeffs_28();
    let x = GF_LOGS[25];
    assert(eval_prefix(p, x, 0) == 0u8);
    assert(eval_prefix(p, x, 1) == 1u8);
    assert(eval_prefix(p, x, 2) == 255u8);
    assert(eval_prefix(p, x, 3) == 21u8);
    assert(eval_prefix(p, x, 4) == 35u8);
    assert(eval_prefix(p, x, 5) == 104u8);
    assert(eval_prefix(p, x, 6) == 170u8);
    assert(eval_prefix(p, x, 7) == 24u8);
    assert(eval_prefix(p, x, 8) == 248u8);
    assert(eval_prefix(p, x, 9) == 131u8);
    assert(eval_prefix(p, x, 10) == 255u8);
    assert(eval_prefix(p, x, 11) == 178u8);
    assert(eval_prefix(p, x, 12) == 175u8);
    assert(eval_prefix(p, x, 13) == 197u8);
    assert(eval_prefix(p, x, 14) == 245u8);
    assert(eval_prefix(p, x, 15) == 14u8);
    assert(eval_prefix(p, x, 16) == 229u8);
    assert(eval_prefix(p, x, 17) == 10u8);
    assert(eval_prefix(p, x, 18) == 107u8);
    assert(eval_prefix(p, x, 19) == 202u8);
    assert(eval_prefix(p, x, 20) == 170u8);
    assert(eval_prefix(p, x, 21) == 156u8);
    assert(eval_prefix(p, x, 22) == 12u8);
    assert(eval_prefix(p, x, 23) == 112u8);
    assert(eval_prefix(p, x, 24) == 233u8);
    assert(eval_prefix(p, x, 25) == 181u8);
    assert(eval_prefix(p, x, 26) == 114u8);
    assert(eval_prefix(p, x, 27) == 220u8);
    assert(eval_prefix(p, x, 28) == 67u8);
    assert(eval_prefix(p, x, 29) == 0u8);
}

proof fn lemma_generator_28_root_26()
    ensures
        eval_prefix(generator_coeffs_28(), GF_LOGS[26], 29) == 0,
{
    lemma_sums_28();
    let p = generator_coeffs_28();
    let x = GF_LOGS[26];
    assert(eval_prefix(p, x, 0) == 0u8);
    assert(eval_prefix(p, x, 1) == 1u8);
    assert(eval_prefix(p, x, 2) == 250u8);
    assert(eval_prefix(p, x, 3) == 47u8);
    assert(eval_prefix(p, x, 4) == 254u8);
    assert(eval_prefix(p, x, 5) == 51u8);
    assert(eval_prefix(p, x, 6) == 184u8);
    assert(eval_prefix(p, x, 7) == 76u8);
    assert(eval_prefix(p, x, 8) == 101u8);
    assert(eval_prefix(p, x, 9) == 213u8);
    assert(eval_prefix(p, x, 10) == 163u8);
    assert(eval_prefix(p, x, 11) == 67u8);
    assert(eval_prefix(p, x, 12) == 243u8);
    assert(eval_prefix(p, x, 13) == 57u8);
    assert(eval_prefix(p, x, 14) == 49u8);
    assert(eval_prefix(p, x, 15) == 170u8);
    assert(eval_prefix(p, x, 16) == 44u8);
    assert(eval_prefix(p, x, 17) == 208u8);
    assert(eval_prefix(p, x, 18) == 175u8);
    assert(eval_prefix(p, x, 19) == 178u8);
    assert(eval_prefix(p, x, 20) == 98u8);
    assert(eval_prefix(p, x, 21) == 46u8);
    assert(eval_prefix(p, x, 22) == 81u8);
    assert(eval_prefix(p, x, 23) == 159u8);
    assert(eval_prefix(p, x, 24) == 28u8);
    assert(eval_prefix(p, x, 25) == 219u8);
    assert(eval_prefix(p, x, 26) == 80u8);
    assert(eval_prefix(p, x, 27) == 183u8);
    assert(eval_prefix(p, x, 28) == 175u8);
    assert(eval_prefix(p, x, 29) == 0u8);
}

proof fn lemma_generator_28_root_27()
    ensures
        eval_prefix(generator_coeffs_28(), GF_LOGS[27], 29) == 0,
{
    lemma_sums_28();
    let p = generator_coeffs_28();
    let x = GF_LOGS[27];
    assert(eval_prefix(p, x, 0) == 0u8);
    assert(eval_prefix(p, x, 1) == 1u8);
    assert(eval_prefix(p, x, 2) == 240u8);
    assert(eval_prefix(p, x, 3) == 61u8);
    assert(eval_prefix(p, x, 4) == 29u8);
    assert(eval_prefix(p, x, 5) == 145u8);
    assert(eval_prefix(p, x, 6) == 144u8);
    assert(eval_prefix(p, x, 7) == 117u8);
    assert(eval_prefix(p, x, 8) == 150u8);
    assert(eval_prefix(p, x, 9) == 48u8);
    assert(eval_prefix(p, x, 10) == 58u8);
    assert(eval_prefix(p, x, 11) == 139u8);
    assert(eval_prefix(p, x, 12) == 94u8);
    assert(eval_prefix(p, x, 13) == 134u8);
    assert(eval_prefix(p, x, 14) == 193u8);
    assert(eval_prefix(p, x, 15) == 105u8);
    assert(eval_prefix(p, x, 16) == 33u8);
    assert(eval_prefix(p, x, 17) == 169u8);
    assert(eval_prefix(p, x, 18) == 202u8);
    assert(eval_prefix(p, x, 19) == 102u8);
    assert(eval_prefix(p, x, 20) == 123u8);
    assert(eval_prefix(p, x, 21) == 113u8);
    assert(eval_prefix(p, x, 22) == 195u8);
    assert(eval_prefix(p, x, 23) == 25u8);
    assert(eval_prefix(p, x, 24) == 213u8);
    assert(eval_prefix(p, x, 25) == 6u8);
    assert(eval_prefix(p, x, 26) == 152u8);
    assert(eval_prefix(p, x, 27) == 164u8);
    assert(eval_prefix(p, x, 28) == 217u8);
    assert(eval_prefix(p, x, 29) == 0u8);
}

/// The generator polynomial of degree 28 vanishes at the first 28 powers of `x`.
proof fn lemma_generator_28_roots()
    ensures
        forall|i: int|
            0 <= i < 28 ==> eval_prefix(generator_poly(28), #[trigger] GF_LOGS[i], 29) == 0,
{
    assert(generator_poly(28) =~= generator_coeffs_28());
    lemma_generator_28_root_0();
    lemma_generator_28_root_1();
    lemma_generator_28_root_2();
    lemma_generator_28_root_3();
    lemma_generator_28_root_4();
    lemma_generator_28_root_5();
    lemma_generator_28_root_6();
    lemma_generator_28_root_7();
    lemma_generator_28_root_8();
    lemma_generator_28_root_9();
    lemma_generator_28_root_10();
    lemma_generator_28_root_11();
    lemma_generator_28_root_12();
    lemma_generator_28_root_13();
    lemma_generator_28_root_14();
    lemma_generator_28_root_15();
    lemma_generator_28_root_16();
    lemma_generator_28_root_17();
    lemma_generator_28_root_18();
    lemma_generator_28_root_19();
    lemma_generator_28_root_20();
    lemma_generator_28_root_21();
    lemma_generator_28_root_22();
    lemma_generator_28_root_23();
    lemma_generator_28_root_24();
    lemma_generator_28_root_25();
    lemma_generator_28_root_26();
    lemma_generator_28_root_27();
}

/// The coefficients of the generator polynomial of degree 30.
spec fn generator_coeffs_30() -> Seq<u8> {
    seq![
        1u8, 212u8, 246u8, 77u8, 73u8, 195u8, 192u8, 75u8, 98u8, 5u8, 70u8, 103u8,
        177u8, 22u8, 217u8, 138u8, 51u8, 181u8, 246u8, 72u8, 25u8, 18u8, 46u8, 228u8,
        74u8, 216u8, 195u8, 11u8, 106u8, 130u8, 150u8,
    ]
}

/// The sums that evaluating the generator polynomial of degree 30 at its roots takes.
proof fn lemma_sums_30()
    by (bit_vector)
    ensures
        0u8 ^ 1u8 == 1u8, 1u8 ^ 18u8 == 19u8, 1u8 ^ 212u8 == 213u8, 2u8 ^ 212u8 == 214u8,
        3u8 ^ 70u8 == 69u8, 3u8 ^ 74u8 == 73u8, 3u8 ^ 212u8 == 215u8, 4u8 ^ 25u8 == 29u8,
        4u8 ^ 72u8 == 76u8, 4u8 ^ 77u8 == 73u8, 4u8 ^ 192u8 == 196u8, 4u8 ^ 195u8 == 199u8,
        4u8 ^ 212u8 == 208u8, 5u8 ^ 75u8 == 78u8, 5u8 ^ 103u8 == 98u8, 5u8 ^ 177u8 == 180u8,
        5u8 ^ 246u8 == 243u8, 6u8 ^ 75u8 == 77u8, 6u8 ^ 212u8 == 210u8, 7u8 ^ 70u8 == 65u8,
        7u8 ^ 75u8 == 76u8, 7u8 ^ 177u8 == 182u8, 7u8 ^ 246u8 == 241u8, 8u8 ^ 51u8 == 59u8,
        8u8 ^ 70u8 == 78u8, 8u8 ^ 181u8 == 189u8, 8u8 ^ 212u8 == 220u8, 9u8 ^ 73u8 == 64u8,
        9u8 ^ 77u8 == 68u8, 9u8 ^ 181u8 == 188u8, 10u8 ^ 22u8 == 28u8, 10u8 ^ 51u8 == 57u8,
        10u8 ^ 70u8 == 76u8, 10u8 ^ 72u8 == 66u8, 10u8 ^ 228u8 == 238u8, 11u8 ^ 25u8 == 18u8,
        11u8 ^ 46u8 == 37u8, 12u8 ^ 212u8 == 216u8, 13u8 ^ 5u8 == 8u8, 13u8 ^ 192u8 == 205u8,
        13u8 ^ 246u8 == 251u8, 14u8 ^ 46u8 == 32u8, 14u8 ^ 73u8 == 71u8, 14u8 ^ 74u8 == 68u8,
        15u8 ^ 106u8 == 101u8, 15u8 ^ 177u8 == 190u8, 15u8 ^ 217u8 == 214u8, 16u8 ^ 74u8 == 90u8,
        16u8 ^ 130u8 == 146u8, 16u8 ^ 192u8 == 208u8, 16u8 ^ 212u8 == 196u8, 17u8 ^ 106u8 == 123u8,
        18u8 ^ 5u8 == 23u8, 19u8 ^ 77u8 == 94u8, 19u8 ^ 130u8 == 145u8, 19u8 ^ 212u8 == 199u8,
        19u8 ^ 216u8 == 203u8, 20u8 ^ 5u8 == 17u8, 20u8 ^ 46u8 == 58u8, 20u8 ^ 74u8 == 94u8,
        20u8 ^ 130u8 == 150u8, 21u8 ^ 72u8 == 93u8, 21u8 ^ 177u8 == 164u8, 22u8 ^ 5u8 == 19u8,
        22u8 ^ 72u8 == 94u8, 22u8 ^ 195u8 == 213u8, 23u8 ^ 75u8 == 92u8, 23u8 ^ 217u8 == 206u8,
        24u8 ^ 18u8 == 10u8, 24u8 ^ 106u8 == 114u8, 24u8 ^ 212u8 == 204u8, 24u8 ^ 216u8 == 192u8,
        25u8 ^ 77u8 == 84u8, 26u8 ^ 138u8 == 144u8, 26u8 ^ 177u8 == 171u8, 26u8 ^ 195u8 == 217u8,
        26u8 ^ 216u8 == 194u8, 27u8 ^ 18u8 == 9u8, 27u8 ^ 75u8 == 80u8, 27u8 ^ 228u8 == 255u8,
        27u8 ^ 246u8 == 237u8, 28u8 ^ 51u8 == 47u8, 28u8 ^ 98u8 == 126u8, 29u8 ^ 5u8 == 24u8,
        29u8 ^ 11u8 == 22u8, 29u8 ^ 22u8 == 11u8, 29u8 ^ 72u8 == 85u8, 29u8 ^ 103u8 == 122u8,
        29u8 ^ 212u8 == 201u8, 30u8 ^ 11u8 == 21u8, 31u8 ^ 195u8 == 220u8, 32u8 ^ 138u8 == 170u8,
        32u8 ^ 212u8 == 244u8, 32u8 ^ 246u8 == 214u8, 33u8 ^ 103u8 == 70u8, 33u8 ^ 138u8 == 171u8,
        33u8 ^ 195u8 == 226u8, 33u8 ^ 217u8 == 248u8, 34u8 ^ 18u8 == 48u8, 34u8 ^ 22u8 == 52u8,
        34u8 ^ 72u8 == 106u8, 34u8 ^ 73u8 == 107u8, 35u8 ^ 77u8 == 110u8, 35u8 ^ 192u8 == 227u8,
        36u8 ^ 5u8 == 33u8, 36u8 ^ 74u8 == 110u8, 36u8 ^ 75u8 == 111u8, 36u8 ^ 192u8 == 228u8,
        36u8 ^ 217u8 == 253u8, 37u8 ^ 18u8 == 55u8, 37u8 ^ 22u8 == 51u8, 37u8 ^ 246u8 == 211u8,
        38u8 ^ 51u8 == 21u8, 38u8 ^ 75u8 == 109u8, 38u8 ^ 212u8 == 242u8, 38u8 ^ 217u8 == 255u8,
        39u8 ^ 46u8 == 9u8, 39u8 ^ 75u8 == 108u8, 39u8 ^ 103u8 == 64u8, 39u8 ^ 106u8 == 77u8,
        39u8 ^ 138u8 == 173u8, 39u8 ^ 195u8 == 228u8, 39u8 ^ 217u8 == 254u8, 39u8 ^ 246u8 == 209u8,
        40u8 ^ 5u8 == 45u8, 40u8 ^ 77u8 == 101u8, 40u8 ^ 103u8 == 79u8, 40u8 ^ 130u8 == 170u8,
        40u8 ^ 177u8 == 153u8, 40u8 ^ 192u8 == 232u8, 40u8 ^ 246u8 == 222u8, 41u8 ^ 72u8 == 97u8,
        41u8 ^ 73u8 == 96u8, 41u8 ^ 130u8 == 171u8, 41u8 ^ 177u8 == 152u8, 42u8 ^ 70u8 == 108u8,
        43u8 ^ 11u8 == 32u8, 43u8 ^ 51u8 == 24u8, 44u8 ^ 18u8 == 62u8, 44u8 ^ 74u8 == 102u8,
        44u8 ^ 75u8 == 103u8, 44u8 ^ 192u8 == 236u8, 44u8 ^ 195u8 == 239u8, 44u8 ^ 228u8 == 200u8,
        45u8 ^ 11u8 == 38u8, 45u8 ^ 46u8 == 3u8, 45u8 ^ 74u8 == 103u8, 45u8 ^ 75u8 == 102u8,
        45u8 ^ 77u8 == 96u8, 45u8 ^ 177u8 == 156u8, 45u8 ^ 181u8 == 152u8, 45u8 ^ 212u8 == 249u8,
        45u8 ^ 216u8 == 245u8, 45u8 ^ 246u8 == 219u8, 46u8 ^ 18u8 == 60u8, 46u8 ^ 51u8 == 29u8,
        46u8 ^ 106u8 == 68u8, 46u8 ^ 195u8 == 237u8, 46u8 ^ 217u8 == 247u8, 46u8 ^ 246u8 == 216u8,
        47u8 ^ 74u8 == 101u8, 47u8 ^ 192u8 == 239u8, 47u8 ^ 246u8 == 217u8, 48u8 ^ 212u8 == 228u8,
        49u8 ^ 22u8 == 39u8, 49u8 ^ 98u8 == 83u8, 49u8 ^ 130u8 == 179u8, 50u8 ^ 103u8 == 85u8,
        51u8 ^ 5u8 == 54u8, 51u8 ^ 25u8 == 42u8, 51u8 ^ 106u8 == 89u8, 51u8 ^ 217u8 == 234u8,
        52u8 ^ 181u8 == 129u8, 53u8 ^ 103u8 == 82u8, 53u8 ^ 130u8 == 183u8, 53u8 ^ 192u8 == 245u8,
        53u8 ^ 195u8 == 246u8, 54u8 ^ 70u8 == 112u8, 54u8 ^ 75u8 == 125u8, 54u8 ^ 217u8 == 239u8,
        55u8 ^ 22u8 == 33u8, 55u8 ^ 72u8 == 127u8, 55u8 ^ 73u8 == 126u8, 55u8 ^ 246u8 == 193u8,
        56u8 ^ 195u8 == 251u8, 57u8 ^ 22u8 == 47u8, 57u8 ^ 25u8 == 32u8, 57u8 ^ 46u8 == 23u8,
        57u8 ^ 72u8 == 113u8, 57u8 ^ 103u8 == 94u8, 57u8 ^ 106u8 == 83u8, 57u8 ^ 195u8 == 250u8,
        58u8 ^ 25u8 == 35u8, 58u8 ^ 72u8 == 114u8, 58u8 ^ 106u8 == 80u8, 58u8 ^ 177u8 == 139u8,
        58u8 ^ 212u8 == 238u8, 58u8 ^ 216u8 == 226u8, 58u8 ^ 217u8 == 227u8, 59u8 ^ 106u8 == 81u8,
        59u8 ^ 192u8 == 251u8, 60u8 ^ 25u8 == 37u8, 60u8 ^ 74u8 == 118u8, 60u8 ^ 75u8 == 119u8,
        60u8 ^ 98u8 == 94u8, 60u8 ^ 192u8 == 252u8, 61u8 ^ 130u8 == 191u8, 61u8 ^ 246u8 == 203u8,
        62u8 ^ 25u8 == 39u8, 62u8 ^ 51u8 == 13u8, 62u8 ^ 73u8 == 119u8, 62u8 ^ 74u8 == 116u8,
        62u8 ^ 217u8 == 231u8, 62u8 ^ 246u8 == 200u8, 63u8 ^ 11u8 == 52u8, 63u8 ^ 46u8 == 17u8,
        63u8 ^ 75u8 == 116u8, 64u8 ^ 51u8 == 115u8, 64u8 ^ 74u8 == 10u8, 64u8 ^ 98u8 == 34u8,
        64u8 ^ 177u8 == 241u8, 64u8 ^ 195u8 == 131u8, 64u8 ^ 212u8 == 148u8, 64u8 ^ 246u8 == 182u8,
        65u8 ^ 216u8 == 153u8, 66u8 ^ 181u8 == 247u8, 66u8 ^ 195u8 == 129u8, 66u8 ^ 228u8 == 166u8,
        67u8 ^ 77u8 == 14u8, 67u8 ^ 103u8 == 36u8, 68u8 ^ 130u8 == 198u8, 69u8 ^ 11u8 == 78u8,
        69u8 ^ 51u8 == 118u8, 69u8 ^ 70u8 == 3u8, 69u8 ^ 74u8 == 15u8, 70u8 ^ 18u8 == 84u8,
        70u8 ^ 73u8 == 15u8, 70u8 ^ 77u8 == 11u8, 70u8 ^ 98u8 == 36u8, 70u8 ^ 228u8 == 162u8,
        71u8 ^ 11u8 == 76u8, 71u8 ^ 77u8 == 10u8, 71u8 ^ 177u8 == 246u8, 72u8 ^ 5u8 == 77u8,
        72u8 ^ 22u8 == 94u8, 72u8 ^ 103u8 == 47u8, 72u8 ^ 216u8 == 144u8, 73u8 ^ 5u8 == 76u8,
        73u8 ^ 98u8 == 43u8, 73u8 ^ 216u8 == 145u8, 73u8 ^ 228u8 == 173u8, 73u8 ^ 246u8 == 191u8,
        74u8 ^ 11u8 == 65u8, 74u8 ^ 25u8 == 83u8, 75u8 ^ 11u8 == 64u8, 75u8 ^ 25u8 == 82u8,
        75u8 ^ 51u8 == 120u8, 75u8 ^ 98u8 == 41u8, 75u8 ^ 103u8 == 44u8, 76u8 ^ 212u8 == 152u8,
        77u8 ^ 51u8 == 126u8, 77u8 ^ 70u8 == 11u8, 77u8 ^ 228u8 == 169u8, 78u8 ^ 22u8 == 88u8,
        78u8 ^ 77u8 == 3u8, 78u8 ^ 98u8 == 44u8, 78u8 ^ 103u8 == 41u8, 78u8 ^ 138u8 == 196u8,
        78u8 ^ 177u8 == 255u8, 79u8 ^ 5u8 == 74u8, 79u8 ^ 195u8 == 140u8, 79u8 ^ 246u8 == 185u8,
        80u8 ^ 11u8 == 91u8, 80u8 ^ 22u8 == 70u8, 80u8 ^ 51u8 == 99u8, 80u8 ^ 73u8 == 25u8,
        81u8 ^ 75u8 == 26u8, 81u8 ^ 246u8 == 167u8, 82u8 ^ 22u8 == 68u8, 82u8 ^ 195u8 == 145u8,
        83u8 ^ 46u8 == 125u8, 83u8 ^ 73u8 == 26u8, 83u8 ^ 130u8 == 209u8, 83u8 ^ 195u8 == 144u8,
        84u8 ^ 70u8 == 18u8, 85u8 ^ 103u8 == 50u8, 85u8 ^ 106u8 == 63u8, 85u8 ^ 130u8 == 215u8,
        85u8 ^ 138u8 == 223u8, 85u8 ^ 246u8 == 163u8, 86u8 ^ 18u8 == 68u8, 86u8 ^ 72u8 == 30u8,
        86u8 ^ 75u8 == 29u8, 86u8 ^ 246u8 == 160u8, 87u8 ^ 74u8 == 29u8, 87u8 ^ 130u8 == 213u8,
        87u8 ^ 138u8 == 221u8, 89u8 ^ 130u8 == 219u8, 89u8 ^ 192u8 == 153u8, 90u8 ^ 18u8 == 72u8,
        90u8 ^ 22u8 == 76u8, 90u8 ^ 212u8 == 142u8, 91u8 ^ 25u8 == 66u8, 91u8 ^ 51u8 == 104u8,
        91u8 ^ 177u8 == 234u8, 91u8 ^ 217u8 == 130u8, 91u8 ^ 246u8 == 173u8, 92u8 ^ 22u8 == 74u8,
        92u8 ^ 46u8 == 114u8, 92u8 ^ 216u8 == 132u8, 93u8 ^ 51u8 == 110u8, 93u8 ^ 216u8 == 133u8,
        94u8 ^ 25u8 == 71u8, 94u8 ^ 74u8 == 20u8, 94u8 ^ 195u8 == 157u8, 95u8 ^ 18u8 == 77u8,
        95u8 ^ 46u8 == 113u8, 95u8 ^ 192u8 == 159u8, 96u8 ^ 70u8 == 38u8, 96u8 ^ 75u8 == 43u8,
        96u8 ^ 177u8 == 209u8, 97u8 ^ 106u8 == 11u8, 97u8 ^ 130u8 == 227u8, 97u8 ^ 192u8 == 161u8,
        98u8 ^ 11u8 == 105u8, 98u8 ^ 74u8 == 40u8, 98u8 ^ 106u8 == 8u8, 99u8 ^ 11u8 == 104u8,
        99u8 ^ 103u8 == 4u8, 99u8 ^ 217u8 == 186u8, 100u8 ^ 5u8 == 97u8, 100u8 ^ 11u8 == 111u8,
        100u8 ^ 75u8 == 47u8, 100u8 ^ 103u8 == 3u8, 100u8 ^ 130u8 == 230u8, 100u8 ^ 228u8 == 128u8,
        100u8 ^ 246u8 == 146u8, 101u8 ^ 22u8 == 115u8, 101u8 ^ 228u8 == 129u8, 102u8 ^ 73u8 == 47u8,
        102u8 ^ 130u8 == 228u8, 102u8 ^ 181u8 == 211u8, 103u8 ^ 5u8 == 98u8, 103u8 ^ 25u8 == 126u8,
        103u8 ^ 51u8 == 84u8, 103u8 ^ 130u8 == 229u8, 103u8 ^ 228u8 == 131u8, 103u8 ^ 246u8 == 145u8,
        104u8 ^ 75u8 == 35u8, 104u8 ^ 98u8 == 10u8, 104u8 ^ 195u8 == 171u8, 104u8 ^ 246u8 == 158u8,
        105u8 ^ 25u8 == 112u8, 105u8 ^ 195u8 == 170u8, 106u8 ^ 98u8 == 8u8, 106u8 ^ 138u8 == 224u8,
        106u8 ^ 181u8 == 223u8, 106u8 ^ 195u8 == 169u8, 106u8 ^ 217u8 == 179u8, 107u8 ^ 138u8 == 225u8,
        107u8 ^ 216u8 == 179u8, 107u8 ^ 246u8 == 157u8, 108u8 ^ 11u8 == 103u8, 108u8 ^ 103u8 == 11u8,
        108u8 ^ 177u8 == 221u8, 108u8 ^ 216u8 == 180u8, 108u8 ^ 246u8 == 154u8, 109u8 ^ 195u8 == 174u8,
        110u8 ^ 72u8 == 38u8, 110u8 ^ 73u8 == 39u8, 110u8 ^ 195u8 == 173u8, 110u8 ^ 216u8 == 182u8,
        110u8 ^ 217u8 == 183u8, 111u8 ^ 70u8 == 41u8, 111u8 ^ 98u8 == 13u8, 111u8 ^ 138u8 == 229u8,
        112u8 ^ 18u8 == 98u8, 112u8 ^ 138u8 == 250u8, 113u8 ^ 46u8 == 95u8, 113u8 ^ 195u8 == 178u8,
        113u8 ^ 217u8 == 168u8, 114u8 ^ 46u8 == 92u8, 114u8 ^ 51u8 == 65u8, 114u8 ^ 103u8 == 21u8,
        114u8 ^ 192u8 == 178u8, 114u8 ^ 246u8 == 132u8, 115u8 ^ 46u8 == 93u8, 115u8 ^ 73u8 == 58u8,
        115u8 ^ 130u8 == 241u8, 116u8 ^ 5u8 == 113u8, 116u8 ^ 18u8 == 102u8, 116u8 ^ 98u8 == 22u8,
        116u8 ^ 130u8 == 246u8, 116u8 ^ 212u8 == 160u8, 116u8 ^ 246u8 == 130u8, 117u8 ^ 11u8 == 126u8,
        117u8 ^ 212u8 == 161u8, 117u8 ^ 228u8 == 145u8, 118u8 ^ 25u8 == 111u8, 118u8 ^ 46u8 == 88u8,
        118u8 ^ 103u8 == 17u8, 118u8 ^ 138u8 == 252u8, 119u8 ^ 72u8 == 63u8, 120u8 ^ 73u8 == 49u8,
        120u8 ^ 216u8 == 160u8, 120u8 ^ 217u8 == 161u8, 121u8 ^ 73u8 == 48u8, 121u8 ^ 74u8 == 51u8,
        122u8 ^ 181u8 == 207u8, 123u8 ^ 5u8 == 126u8, 124u8 ^ 18u8 == 110u8, 124u8 ^ 46u8 == 82u8,
        124u8 ^ 70u8 == 58u8, 124u8 ^ 72u8 == 52u8, 124u8 ^ 138u8 == 246u8, 124u8 ^ 181u8 == 201u8,
        124u8 ^ 192u8 == 188u8, 125u8 ^ 130u8 == 255u8, 125u8 ^ 228u8 == 153u8, 126u8 ^ 22u8 == 104u8,
        126u8 ^ 77u8 == 51u8, 126u8 ^ 106u8 == 20u8, 126u8 ^ 130u8 == 252u8, 126u8 ^ 181u8 == 203u8,
        127u8 ^ 177u8 == 206u8, 127u8 ^ 216u8 == 167u8, 127u8 ^ 228u8 == 155u8, 127u8 ^ 246u8 == 137u8,
        128u8 ^ 106u8 == 234u8, 128u8 ^ 212u8 == 84u8, 128u8 ^ 216u8 == 88u8, 128u8 ^ 246u8 == 118u8,
        129u8 ^ 74u8 == 203u8, 129u8 ^ 195u8 == 66u8, 129u8 ^ 217u8 == 88u8, 130u8 ^ 5u8 == 135u8,
        130u8 ^ 11u8 == 137u8, 130u8 ^ 18u8 == 144u8, 130u8 ^ 51u8 == 177u8, 130u8 ^ 195u8 == 65u8,
        131u8 ^ 46u8 == 173u8, 131u8 ^ 75u8 == 200u8, 132u8 ^ 25u8 == 157u8, 132u8 ^ 51u8 == 183u8,
        132u8 ^ 216u8 == 92u8, 132u8 ^ 246u8 == 114u8, 133u8 ^ 25u8 == 156u8, 133u8 ^ 46u8 == 171u8,
        133u8 ^ 74u8 == 207u8, 133u8 ^ 181u8 == 48u8, 133u8 ^ 195u8 == 70u8, 133u8 ^ 217u8 == 92u8,
        134u8 ^ 18u8 == 148u8, 134u8 ^ 72u8 == 206u8, 134u8 ^ 75u8 == 205u8, 135u8 ^ 18u8 == 149u8,
        135u8 ^ 22u8 == 145u8, 135u8 ^ 77u8 == 202u8, 135u8 ^ 192u8 == 71u8, 135u8 ^ 195u8 == 68u8,
        135u8 ^ 212u8 == 83u8, 136u8 ^ 25u8 == 145u8, 136u8 ^ 106u8 == 226u8, 136u8 ^ 228u8 == 108u8,
        137u8 ^ 74u8 == 195u8, 137u8 ^ 77u8 == 196u8, 137u8 ^ 181u8 == 60u8, 138u8 ^ 70u8 == 204u8,
        138u8 ^ 177u8 == 59u8, 138u8 ^ 216u8 == 82u8, 139u8 ^ 74u8 == 193u8, 140u8 ^ 5u8 == 137u8,
        140u8 ^ 46u8 == 162u8, 140u8 ^ 98u8 == 238u8, 140u8 ^ 195u8 == 79u8, 140u8 ^ 217u8 == 85u8,
        142u8 ^ 5u8 == 139u8, 142u8 ^ 46u8 == 160u8, 142u8 ^ 77u8 == 195u8, 142u8 ^ 195u8 == 77u8,
        142u8 ^ 217u8 == 87u8, 143u8 ^ 11u8 == 132u8, 143u8 ^ 22u8 == 153u8, 143u8 ^ 25u8 == 150u8,
        143u8 ^ 74u8 == 197u8, 143u8 ^ 75u8 == 196u8, 143u8 ^ 212u8 == 91u8, 143u8 ^ 228u8 == 107u8,
        144u8 ^ 138u8 == 26u8, 144u8 ^ 228u8 == 116u8, 145u8 ^ 11u8 == 154u8, 145u8 ^ 18u8 == 131u8,
        145u8 ^ 72u8 == 217u8, 145u8 ^ 177u8 == 32u8, 145u8 ^ 181u8 == 36u8, 146u8 ^ 74u8 == 216u8,
        147u8 ^ 5u8 == 150u8, 147u8 ^ 192u8 == 83u8, 148u8 ^ 98u8 == 246u8, 148u8 ^ 228u8 == 112u8,
        149u8 ^ 51u8 == 166u8, 149u8 ^ 106u8 == 255u8, 150u8 ^ 22u8 == 128u8, 150u8 ^ 73u8 == 223u8,
        150u8 ^ 150u8 == 0u8, 150u8 ^ 192u8 == 86u8, 150u8 ^ 246u8 == 96u8, 152u8 ^ 22u8 == 142u8,
        152u8 ^ 25u8 == 129u8, 152u8 ^ 74u8 == 210u8, 152u8 ^ 77u8 == 213u8, 152u8 ^ 212u8 == 76u8,
        153u8 ^ 25u8 == 128u8, 153u8 ^ 77u8 == 212u8, 153u8 ^ 177u8 == 40u8, 154u8 ^ 70u8 == 220u8,
        154u8 ^ 77u8 == 215u8, 154u8 ^ 98u8 == 248u8, 154u8 ^ 192u8 == 90u8, 155u8 ^ 73u8 == 210u8,
        155u8 ^ 74u8 == 209u8, 155u8 ^ 181u8 == 46u8, 155u8 ^ 195u8 == 88u8, 156u8 ^ 11u8 == 151u8,
        156u8 ^ 70u8 == 218u8, 157u8 ^ 22u8 == 139u8, 157u8 ^ 106u8 == 247u8, 157u8 ^ 195u8 == 94u8,
        157u8 ^ 216u8 == 69u8, 158u8 ^ 98u8 == 252u8, 158u8 ^ 216u8 == 70u8, 159u8 ^ 25u8 == 134u8,
        159u8 ^ 192u8 == 95u8, 159u8 ^ 228u8 == 123u8, 160u8 ^ 72u8 == 232u8, 162u8 ^ 70u8 == 228u8,
        162u8 ^ 103u8 == 197u8, 162u8 ^ 181u8 == 23u8, 163u8 ^ 70u8 == 229u8, 163u8 ^ 75u8 == 232u8,
        163u8 ^ 181u8 == 22u8, 163u8 ^ 217u8 == 122u8, 164u8 ^ 216u8 == 124u8, 165u8 ^ 18u8 == 183u8,
        165u8 ^ 22u8 == 179u8, 165u8 ^ 46u8 == 139u8, 165u8 ^ 75u8 == 238u8, 165u8 ^ 103u8 == 194u8,
        166u8 ^ 5u8 == 163u8, 166u8 ^ 72u8 == 238u8, 166u8 ^ 98u8 == 196u8, 166u8 ^ 177u8 == 23u8,
        166u8 ^ 246u8 == 80u8, 167u8 ^ 51u8 == 148u8, 167u8 ^ 98u8 == 197u8, 167u8 ^ 103u8 == 192u8,
        167u8 ^ 246u8 == 81u8, 168u8 ^ 11u8 == 163u8, 169u8 ^ 75u8 == 226u8, 170u8 ^ 70u8 == 236u8,
        170u8 ^ 138u8 == 32u8, 171u8 ^ 22u8 == 189u8, 171u8 ^ 77u8 == 230u8, 171u8 ^ 138u8 == 33u8,
        171u8 ^ 217u8 == 114u8, 172u8 ^ 22u8 == 186u8, 172u8 ^ 77u8 == 225u8, 172u8 ^ 195u8 == 111u8,
        172u8 ^ 228u8 == 72u8, 173u8 ^ 70u8 == 235u8, 173u8 ^ 72u8 == 229u8, 173u8 ^ 73u8 == 228u8,
        173u8 ^ 138u8 == 39u8, 174u8 ^ 18u8 == 188u8, 174u8 ^ 46u8 == 128u8, 174u8 ^ 246u8 == 88u8,
        175u8 ^ 195u8 == 108u8, 176u8 ^ 177u8 == 1u8, 176u8 ^ 228u8 == 84u8, 177u8 ^ 18u8 == 163u8,
        177u8 ^ 51u8 == 130u8, 177u8 ^ 72u8 == 249u8, 177u8 ^ 246u8 == 71u8, 178u8 ^ 18u8 == 160u8,
        179u8 ^ 70u8 == 245u8, 179u8 ^ 177u8 == 2u8, 179u8 ^ 216u8 == 107u8, 180u8 ^ 70u8 == 242u8,
        180u8 ^ 75u8 == 255u8, 180u8 ^ 98u8 == 214u8, 180u8 ^ 106u8 == 222u8, 180u8 ^ 195u8 == 119u8,
        180u8 ^ 212u8 == 96u8, 180u8 ^ 228u8 == 80u8, 181u8 ^ 18u8 == 167u8, 181u8 ^ 177u8 == 4u8,
        182u8 ^ 73u8 == 255u8, 182u8 ^ 106u8 == 220u8, 182u8 ^ 195u8 == 117u8, 183u8 ^ 5u8 == 178u8,
        183u8 ^ 75u8 == 252u8, 184u8 ^ 5u8 == 189u8, 184u8 ^ 246u8 == 78u8, 185u8 ^ 195u8 == 122u8,
        185u8 ^ 216u8 == 97u8, 186u8 ^ 18u8 == 168u8, 186u8 ^ 22u8 == 172u8, 186u8 ^ 70u8 == 252u8,
        186u8 ^ 98u8 == 216u8, 186u8 ^ 181u8 == 15u8, 186u8 ^ 217u8 == 99u8, 187u8 ^ 98u8 == 217u8,
        187u8 ^ 130u8 == 57u8, 187u8 ^ 216u8 == 99u8, 188u8 ^ 22u8 == 170u8, 188u8 ^ 46u8 == 146u8,
        188u8 ^ 73u8 == 245u8, 188u8 ^ 77u8 == 241u8, 188u8 ^ 195u8 == 127u8, 189u8 ^ 51u8 == 142u8,
        189u8 ^ 73u8 == 244u8, 189u8 ^ 130u8 == 63u8, 189u8 ^ 177u8 == 12u8, 189u8 ^ 246u8 == 75u8,
        190u8 ^ 181u8 == 11u8, 190u8 ^ 246u8 == 72u8, 191u8 ^ 74u8 == 245u8, 191u8 ^ 177u8 == 14u8,
        191u8 ^ 217u8 == 102u8, 192u8 ^ 5u8 == 197u8, 192u8 ^ 46u8 == 238u8, 192u8 ^ 73u8 == 137u8,
        192u8 ^ 74u8 == 138u8, 192u8 ^ 77u8 == 141u8, 192u8 ^ 195u8 == 3u8, 192u8 ^ 228u8 == 36u8,
        192u8 ^ 246u8 == 54u8, 193u8 ^ 192u8 == 1u8, 194u8 ^ 75u8 == 137u8, 194u8 ^ 177u8 == 115u8,
        195u8 ^ 72u8 == 139u8, 195u8 ^ 192u8 == 3u8, 195u8 ^ 217u8 == 26u8, 195u8 ^ 246u8 == 53u8,
        196u8 ^ 5u8 == 193u8, 196u8 ^ 72u8 == 140u8, 196u8 ^ 73u8 == 141u8, 196u8 ^ 98u8 == 166u8,
        196u8 ^ 103u8 == 163u8, 196u8 ^ 138u8 == 78u8, 196u8 ^ 181u8 == 113u8, 197u8 ^ 11u8 == 206u8,
        197u8 ^ 195u8 == 6u8, 198u8 ^ 72u8 == 142u8, 198u8 ^ 177u8 == 119u8, 198u8 ^ 181u8 == 115u8,
        198u8 ^ 195u8 == 5u8, 199u8 ^ 11u8 == 204u8, 199u8 ^ 70u8 == 129u8, 199u8 ^ 72u8 == 143u8,
        199u8 ^ 177u8 == 118u8, 200u8 ^ 18u8 == 218u8, 200u8 ^ 73u8 == 129u8, 200u8 ^ 77u8 == 133u8,
        200u8 ^ 181u8 == 125u8, 200u8 ^ 195u8 == 11u8, 201u8 ^ 70u8 == 143u8, 201u8 ^ 103u8 == 174u8,
        201u8 ^ 130u8 == 75u8, 201u8 ^ 181u8 == 124u8, 201u8 ^ 212u8 == 29u8, 201u8 ^ 246u8 == 63u8,
        202u8 ^ 5u8 == 207u8, 202u8 ^ 195u8 == 9u8, 203u8 ^ 11u8 == 192u8, 203u8 ^ 77u8 == 134u8,
        203u8 ^ 130u8 == 73u8, 203u8 ^ 192u8 == 11u8, 203u8 ^ 246u8 == 61u8, 204u8 ^ 73u8 == 133u8,
        204u8 ^ 106u8 == 166u8, 204u8 ^ 181u8 == 121u8, 205u8 ^ 5u8 == 200u8, 205u8 ^ 11u8 == 198u8,
        205u8 ^ 25u8 == 212u8, 205u8 ^ 212u8 == 25u8, 206u8 ^ 25u8 == 215u8, 207u8 ^ 246u8 == 57u8,
        208u8 ^ 70u8 == 150u8, 208u8 ^ 98u8 == 178u8, 208u8 ^ 106u8 == 186u8, 208u8 ^ 228u8 == 52u8,
        209u8 ^ 25u8 == 200u8, 209u8 ^ 73u8 == 152u8, 209u8 ^ 195u8 == 18u8, 209u8 ^ 228u8 == 53u8,
        210u8 ^ 25u8 == 203u8, 210u8 ^ 98u8 == 176u8, 210u8 ^ 177u8 == 99u8, 211u8 ^ 77u8 == 158u8,
        211u8 ^ 228u8 == 55u8, 212u8 ^ 181u8 == 97u8, 213u8 ^ 70u8 == 147u8, 213u8 ^ 217u8 == 12u8,
        213u8 ^ 246u8 == 35u8, 214u8 ^ 216u8 == 14u8, 214u8 ^ 246u8 == 32u8, 215u8 ^ 25u8 == 206u8,
        215u8 ^ 73u8 == 158u8, 215u8 ^ 195u8 == 20u8, 216u8 ^ 11u8 == 211u8, 216u8 ^ 77u8 == 149u8,
        216u8 ^ 195u8 == 27u8, 217u8 ^ 98u8 == 187u8, 217u8 ^ 192u8 == 25u8, 217u8 ^ 195u8 == 26u8,
        218u8 ^ 11u8 == 209u8, 218u8 ^ 51u8 == 233u8, 218u8 ^ 217u8 == 3u8, 219u8 ^ 18u8 == 201u8,
        219u8 ^ 73u8 == 146u8, 219u8 ^ 77u8 == 150u8, 219u8 ^ 106u8 == 177u8, 220u8 ^ 18u8 == 206u8,
        220u8 ^ 46u8 == 242u8, 220u8 ^ 51u8 == 239u8, 220u8 ^ 246u8 == 42u8, 221u8 ^ 51u8 == 238u8,
        221u8 ^ 138u8 == 87u8, 222u8 ^ 75u8 == 149u8, 222u8 ^ 195u8 == 29u8, 223u8 ^ 72u8 == 151u8,
        223u8 ^ 138u8 == 85u8, 224u8 ^ 138u8 == 106u8, 225u8 ^ 130u8 == 99u8, 225u8 ^ 138u8 == 107u8,
        225u8 ^ 246u8 == 23u8, 226u8 ^ 5u8 == 231u8, 226u8 ^ 46u8 == 204u8, 226u8 ^ 181u8 == 87u8,
        227u8 ^ 195u8 == 32u8, 228u8 ^ 18u8 == 246u8, 228u8 ^ 106u8 == 142u8, 228u8 ^ 192u8 == 36u8,
        229u8 ^ 25u8 == 252u8, 229u8 ^ 106u8 == 143u8, 229u8 ^ 138u8 == 111u8, 229u8 ^ 195u8 == 38u8,
        230u8 ^ 25u8 == 255u8, 230u8 ^ 51u8 == 213u8, 230u8 ^ 73u8 == 175u8, 230u8 ^ 181u8 == 83u8,
        230u8 ^ 228u8 == 2u8, 231u8 ^ 25u8 == 254u8, 231u8 ^ 73u8 == 174u8, 231u8 ^ 195u8 == 36u8,
        232u8 ^ 5u8 == 237u8, 232u8 ^ 72u8 == 160u8, 232u8 ^ 212u8 == 60u8, 232u8 ^ 228u8 == 12u8,
        233u8 ^ 11u8 == 226u8, 233u8 ^ 103u8 == 142u8, 233u8 ^ 192u8 == 41u8, 233u8 ^ 195u8 == 42u8,
        234u8 ^ 11u8 == 225u8, 234u8 ^ 25u8 == 243u8, 234u8 ^ 70u8 == 172u8, 234u8 ^ 212u8 == 62u8,
        235u8 ^ 103u8 == 140u8, 235u8 ^ 246u8 == 29u8, 236u8 ^ 72u8 == 164u8, 236u8 ^ 106u8 == 134u8,
        236u8 ^ 216u8 == 52u8, 236u8 ^ 228u8 == 8u8, 236u8 ^ 246u8 == 26u8, 237u8 ^ 51u8 == 222u8,
        237u8 ^ 70u8 == 171u8, 237u8 ^ 192u8 == 45u8, 238u8 ^ 22u8 == 248u8, 238u8 ^ 46u8 == 192u8,
        238u8 ^ 106u8 == 132u8, 238u8 ^ 181u8 == 91u8, 238u8 ^ 246u8 == 24u8, 239u8 ^ 5u8 == 234u8,
        239u8 ^ 103u8 == 136u8, 240u8 ^ 70u8 == 182u8, 240u8 ^ 130u8 == 114u8, 241u8 ^ 22u8 == 231u8,
        241u8 ^ 73u8 == 184u8, 241u8 ^ 74u8 == 187u8, 241u8 ^ 130u8 == 115u8, 241u8 ^ 181u8 == 68u8,
        241u8 ^ 216u8 == 41u8, 242u8 ^ 106u8 == 152u8, 243u8 ^ 103u8 == 148u8, 244u8 ^ 11u8 == 255u8,
        244u8 ^ 75u8 == 191u8, 244u8 ^ 98u8 == 150u8, 244u8 ^ 177u8 == 69u8, 244u8 ^ 192u8 == 52u8,
        245u8 ^ 74u8 == 191u8, 245u8 ^ 195u8 == 54u8, 246u8 ^ 46u8 == 216u8, 246u8 ^ 51u8 == 197u8,
        246u8 ^ 138u8 == 124u8, 246u8 ^ 228u8 == 18u8, 247u8 ^ 75u8 == 188u8, 247u8 ^ 246u8 == 1u8,
        248u8 ^ 46u8 == 214u8, 248u8 ^ 98u8 == 154u8, 248u8 ^ 106u8 == 146u8, 248u8 ^ 246u8 == 14u8,
        249u8 ^ 22u8 == 239u8, 249u8 ^ 130u8 == 123u8, 250u8 ^ 51u8 == 201u8, 250u8 ^ 74u8 == 176u8,
        250u8 ^ 77u8 == 183u8, 250u8 ^ 138u8 == 112u8, 250u8 ^ 228u8 == 30u8, 251u8 ^ 217u8 == 34u8,
        252u8 ^ 18u8 == 238u8, 252u8 ^ 77u8 == 177u8, 252u8 ^ 130u8 == 126u8, 252u8 ^ 138u8 == 118u8,
        253u8 ^ 195u8 == 62u8, 254u8 ^ 70u8 == 184u8, 254u8 ^ 98u8 == 156u8, 254u8 ^ 246u8 == 8u8,
{
}

proof fn lemma_generator_30_root_0()
    ensures
        eval_prefix(generator_coeffs_30(), GF_LOGS[0], 31) == 0,
{
    lemma_sums_30();
    let p = generator_coeffs_30();
    let x = GF_LOGS[0];
    assert(eval_prefix(p, x, 0) == 0u8);
    assert(eval_prefix(p, x, 1) == 1u8);
    assert(eval_prefix(p, x, 2) == 213u8);
    assert(eval_prefix(p, x, 3) == 35u8);
    assert(eval_prefix(p, x, 4) == 110u8);
    assert(eval_prefix(p, x, 5) == 39u8);
    assert(eval_prefix(p, x, 6) == 228u8);
    assert(eval_prefix(p, x, 7) == 36u8);
    assert(eval_prefix(p, x, 8) == 111u8);
    assert(eval_prefix(p, x, 9) == 13u8);
    assert(eval_prefix(p, x, 10) == 8u8);
    assert(eval_prefix(p, x, 11) == 78u8);
    assert(eval_prefix(p, x, 12) == 41u8);
    assert(eval_prefix(p, x, 13) == 152u8);
    assert(eval_prefix(p, x, 14) == 142u8);
    assert(eval_prefix(p, x, 15) == 87u8);
    assert(eval_prefix(p, x, 16) == 221u8);
    assert(eval_prefix(p, x, 17) == 238u8);
    assert(eval_prefix(p, x, 18) == 91u8);
    assert(eval_prefix(p, x, 19) == 173u8);
    assert(eval_prefix(p, x, 20) == 229u8);
    assert(eval_prefix(p, x, 21) == 252u8);
    assert(eval_prefix(p, x, 22) == 238u8);
    assert(eval_prefix(p, x, 23) == 192u8);
    assert(eval_prefix(p, x, 24) == 36u8);
    assert(eval_prefix(p, x, 25) == 110u8);
    assert(eval_prefix(p, x, 26) == 182u8);
    assert(eval_prefix(p, x, 27) == 117u8);
    assert(eval_prefix(p, x, 28) == 126u8);
    assert(eval_prefix(p, x, 29) == 20u8);
    assert(eval_prefix(p, x, 30) == 150u8);
    assert(eval_prefix(p, x, 31) == 0u8);
}

proof fn lemma_generator_30_root_1()
    ensures
        eval_prefix(generator_coeffs_30(), GF_LOGS[1], 31) == 0,
{
    lemma_sums_30();
    let p = generator_coeffs_30();
    let x = GF_LOGS[1];
    assert(eval_prefix(p, x, 0) == 0u8);
    assert(eval_prefix(p, x, 1) == 1u8);
    assert(eval_prefix(p, x, 2) == 214u8);
    assert(eval_prefix(p, x, 3) == 71u8);
    assert(eval_prefix(p, x, 4) == 195u8);
    assert(eval_prefix(p, x, 5) == 210u8);
    assert(eval_prefix(p, x, 6) == 122u8);
    assert(eval_prefix(p, x, 7) == 52u8);
    assert(eval_prefix(p, x, 8) == 35u8);
    assert(eval_prefix(p, x, 9) == 36u8);
    assert(eval_prefix(p, x, 10) == 77u8);
    assert(eval_prefix(p, x, 11) == 220u8);
    assert(eval_prefix(p, x, 12) == 194u8);
    assert(eval_prefix(p, x, 13) == 40u8);
    assert(eval_prefix(p, x, 14) == 70u8);
    assert(eval_prefix(p, x, 15) == 85u8);
    assert(eval_prefix(p, x, 16) == 32u8);
    assert(eval_prefix(p, x, 17) == 115u8);
    assert(eval_prefix(p, x, 18) == 83u8);
    assert(eval_prefix(p, x, 19) == 80u8);
    assert(eval_prefix(p, x, 20) == 232u8);
    assert(eval_prefix(p, x, 21) == 212u8);
    assert(eval_prefix(p, x, 22) == 167u8);
    assert(eval_prefix(p, x, 23) == 125u8);
    assert(eval_prefix(p, x, 24) == 30u8);
    assert(eval_prefix(p, x, 25) == 118u8);
    assert(eval_prefix(p, x, 26) == 52u8);
    assert(eval_prefix(p, x, 27) == 171u8);
    assert(eval_prefix(p, x, 28) == 64u8);
    assert(eval_prefix(p, x, 29) == 234u8);
    assert(eval_prefix(p, x, 30) == 75u8);
    assert(eval_prefix(p, x, 31) == 0u8);
}

proof fn lemma_generator_30_root_2()
    ensures
        eval_prefix(generator_coeffs_30(), GF_LOGS[2], 31) == 0,
{
    lemma_sums_30();
    let p = generator_coeffs_30();
    let x = GF_LOGS[2];
    assert(eval_prefix(p, x, 0) == 0u8);
    assert(eval_prefix(p, x, 1) == 1u8);
    assert(eval_prefix(p, x, 2) == 208u8);
    assert(eval_prefix(p, x, 3) == 145u8);
    assert(eval_prefix(p, x, 4) == 51u8);
    assert(eval_prefix(p, x, 5) == 133u8);
    assert(eval_prefix(p, x, 6) == 237u8);
    assert(eval_prefix(p, x, 7) == 83u8);
    assert(eval_prefix(p, x, 8) == 26u8);
    assert(eval_prefix(p, x, 9) == 10u8);
    assert(eval_prefix(p, x, 10) == 45u8);
    assert(eval_prefix(p, x, 11) == 242u8);
    assert(eval_prefix(p, x, 12) == 136u8);
    assert(eval_prefix(p, x, 13) == 171u8);
    assert(eval_prefix(p, x, 14) == 128u8);
    assert(eval_prefix(p, x, 15) == 227u8);
    assert(eval_prefix(p, x, 16) == 33u8);
    assert(eval_prefix(p, x, 17) == 183u8);
    assert(eval_prefix(p, x, 18) == 83u8);
    assert(eval_prefix(p, x, 19) == 167u8);
    assert(eval_prefix(p, x, 20) == 238u8);
    assert(eval_prefix(p, x, 21) == 134u8);
    assert(eval_prefix(p, x, 22) == 48u8);
    assert(eval_prefix(p, x, 23) == 238u8);
    assert(eval_prefix(p, x, 24) == 123u8);
    assert(eval_prefix(p, x, 25) == 187u8);
    assert(eval_prefix(p, x, 26) == 14u8);
    assert(eval_prefix(p, x, 27) == 251u8);
    assert(eval_prefix(p, x, 28) == 192u8);
    assert(eval_prefix(p, x, 29) == 77u8);
    assert(eval_prefix(p, x, 30) == 171u8);
    assert(eval_prefix(p, x, 31) == 0u8);
}

proof fn lemma_generator_30_root_3()
    ensures
        eval_prefix(generator_coeffs_30(), GF_LOGS[3], 31) == 0,
{
    lemma_sums_30();
    let p = generator_coeffs_30();
    let x = GF_LOGS[3];
    assert(eval_prefix(p, x, 0) == 0u8);
    assert(eval_prefix(p, x, 1) == 1u8);
    assert(eval_prefix(p, x, 2) == 220u8);
    assert(eval_prefix(p, x, 3) == 88u8);
    assert(eval_prefix(p, x, 4) == 183u8);
    assert(eval_prefix(p, x, 5) == 152u8);
    assert(eval_prefix(p, x, 6) == 119u8);
    assert(eval_prefix(p, x, 7) == 95u8);
    assert(eval_prefix(p, x, 8) == 137u8);
    assert(eval_prefix(p, x, 9) == 94u8);
    assert(eval_prefix(p, x, 10) == 207u8);
    assert(eval_prefix(p, x, 11) == 112u8);
    assert(eval_prefix(p, x, 12) == 192u8);
    assert(eval_prefix(p, x, 13) == 255u8);
    assert(eval_prefix(p, x, 14) == 189u8);
    assert(eval_prefix(p, x, 15) == 88u8);
    assert(eval_prefix(p, x, 16) == 112u8);
    assert(eval_prefix(p, x, 17) == 148u8);
    assert(eval_prefix(p, x, 18) == 97u8);
    assert(eval_prefix(p, x, 19) == 217u8);
    assert(eval_prefix(p, x, 20) == 206u8);
    assert(eval_prefix(p, x, 21) == 39u8);
    assert(eval_prefix(p, x, 22) == 55u8);
    assert(eval_prefix(p, x, 23) == 139u8);
    assert(eval_prefix(p, x, 24) == 200u8);
    assert(eval_prefix(p, x, 25) == 68u8);
    assert(eval_prefix(p, x, 26) == 194u8);
    assert(eval_prefix(p, x, 27) == 157u8);
    assert(eval_prefix(p, x, 28) == 151u8);
    assert(eval_prefix(p, x, 29) == 166u8);
    assert(eval_prefix(p, x, 30) == 219u8);
    assert(eval_prefix(p, x, 31) == 0u8);
}

proof fn lemma_generator_30_root_4()
    ensures
        eval_prefix(generator_coeffs_30(), GF_LOGS[4], 31) == 0,
{
    lemma_sums_30();
    let p = generator_coeffs_30();
    let x = GF_LOGS[4];
    assert(eval_prefix(p, x, 0) == 0u8);
    assert(eval_prefix(p, x, 1) == 1u8);
    assert(eval_prefix(p, x, 2) == 196u8);
    assert(eval_prefix(p, x, 3) == 42u8);
    assert(eval_prefix(p, x, 4) == 215u8);
    assert(eval_prefix(p, x, 5) == 184u8);
    assert(eval_prefix(p, x, 6) == 140u8);
    assert(eval_prefix(p, x, 7) == 232u8);
    assert(eval_prefix(p, x, 8) == 109u8);
    assert(eval_prefix(p, x, 9) == 252u8);
    assert(eval_prefix(p, x, 10) == 126u8);
    assert(eval_prefix(p, x, 11) == 245u8);
    assert(eval_prefix(p, x, 12) == 140u8);
    assert(eval_prefix(p, x, 13) == 153u8);
    assert(eval_prefix(p, x, 14) == 115u8);
    assert(eval_prefix(p, x, 15) == 186u8);
    assert(eval_prefix(p, x, 16) == 229u8);
    assert(eval_prefix(p, x, 17) == 197u8);
    assert(eval_prefix(p, x, 18) == 121u8);
    assert(eval_prefix(p, x, 19) == 53u8);
    assert(eval_prefix(p, x, 20) == 63u8);
    assert(eval_prefix(p, x, 21) == 206u8);
    assert(eval_prefix(p, x, 22) == 110u8);
    assert(eval_prefix(p, x, 23) == 128u8);
    assert(eval_prefix(p, x, 24) == 12u8);
    assert(eval_prefix(p, x, 25) == 138u8);
    assert(eval_prefix(p, x, 26) == 144u8);
    assert(eval_prefix(p, x, 27) == 54u8);
    assert(eval_prefix(p, x, 28) == 76u8);
    assert(eval_prefix(p, x, 29) == 222u8);
    assert(eval_prefix(p, x, 30) == 227u8);
    assert(eval_prefix(p, x, 31) == 0u8);
}

proof fn lemma_generator_30_root_5()
    ensures
        eval_prefix(generator_coeffs_30(), GF_LOGS[5], 31) == 0,
{
    lemma_sums_30();
    let p = generator_coeffs_30();
    let x = GF_LOGS[5];
    assert(eval_prefix(p, x, 0) == 0u8);
    assert(eval_prefix(p, x, 1) == 1u8);
    assert(eval_prefix(p, x, 2) == 244u8);
    assert(eval_prefix(p, x, 3) == 29u8);
    assert(eval_prefix(p, x, 4) == 202u8);
    assert(eval_prefix(p, x, 5) == 49u8);
    assert(eval_prefix(p, x, 6) == 173u8);
    assert(eval_prefix(p, x, 7) == 196u8);
    assert(eval_prefix(p, x, 8) == 238u8);
    assert(eval_prefix(p, x, 9) == 238u8);
    assert(eval_prefix(p, x, 10) == 137u8);
    assert(eval_prefix(p, x, 11) == 182u8);
    assert(eval_prefix(p, x, 12) == 36u8);
    assert(eval_prefix(p, x, 13) == 69u8);
    assert(eval_prefix(p, x, 14) == 94u8);
    assert(eval_prefix(p, x, 15) == 214u8);
    assert(eval_prefix(p, x, 16) == 85u8);
    assert(eval_prefix(p, x, 17) == 65u8);
    assert(eval_prefix(p, x, 18) == 125u8);
    assert(eval_prefix(p, x, 19) == 237u8);
    assert(eval_prefix(p, x, 20) == 164u8);
    assert(eval_prefix(p, x, 21) == 32u8);
    assert(eval_prefix(p, x, 22) == 102u8);
    assert(eval_prefix(p, x, 23) == 114u8);
    assert(eval_prefix(p, x, 24) == 2u8);
    assert(eval_prefix(p, x, 25) == 10u8);
    assert(eval_prefix(p, x, 26) == 133u8);
    assert(eval_prefix(p, x, 27) == 174u8);
    assert(eval_prefix(p, x, 28) == 111u8);
    assert(eval_prefix(p, x, 29) == 11u8);
    assert(eval_prefix(p, x, 30) == 255u8);
    assert(eval_prefix(p, x, 31) == 0u8);
}

proof fn lemma_generator_30_root_6()
    ensures
        eval_prefix(generator_coeffs_30(), GF_LOGS[6], 31) == 0,
{
    lemma_sums_30();
    let p = generator_coeffs_30();
    let x = GF_LOGS[6];
    assert(eval_prefix(p, x, 0) == 0u8);
    assert(eval_prefix(p, x, 1) == 1u8);
    assert(eval_prefix(p, x, 2) == 148u8);
    assert(eval_prefix(p, x, 3) == 24u8);
    assert(eval_prefix(p, x, 4) == 3u8);
    assert(eval_prefix(p, x, 5) == 137u8);
    assert(eval_prefix(p, x, 6) == 62u8);
    assert(eval_prefix(p, x, 7) == 251u8);
    assert(eval_prefix(p, x, 8) == 103u8);
    assert(eval_prefix(p, x, 9) == 154u8);
    assert(eval_prefix(p, x, 10) == 76u8);
    assert(eval_prefix(p, x, 11) == 172u8);
    assert(eval_prefix(p, x, 12) == 47u8);
    assert(eval_prefix(p, x, 13) == 190u8);
    assert(eval_prefix(p, x, 14) == 170u8);
    assert(eval_prefix(p, x, 15) == 12u8);
    assert(eval_prefix(p, x, 16) == 173u8);
    assert(eval_prefix(p, x, 17) == 59u8);
    assert(eval_prefix(p, x, 18) == 211u8);
    assert(eval_prefix(p, x, 19) == 8u8);
    assert(eval_prefix(p, x, 20) == 114u8);
    assert(eval_prefix(p, x, 21) == 200u8);
    assert(eval_prefix(p, x, 22) == 98u8);
    assert(eval_prefix(p, x, 23) == 139u8);
    assert(eval_prefix(p, x, 24) == 153u8);
    assert(eval_prefix(p, x, 25) == 195u8);
    assert(eval_prefix(p, x, 26) == 82u8);
    assert(eval_prefix(p, x, 27) == 250u8);
    assert(eval_prefix(p, x, 28) == 103u8);
    assert(eval_prefix(p, x, 29) == 146u8);
    assert(eval_prefix(p, x, 30) == 241u8);
    assert(eval_prefix(p, x, 31) == 0u8);
}

proof fn lemma_generator_30_root_7()
    ensures
        eval_prefix(generator_coeffs_30(), GF_LOGS[7], 31) == 0,
{
    lemma_sums_30();
    let p = generator_coeffs_30();
    let x = GF_LOGS[7];
    assert(eval_prefix(p, x, 0) == 0u8);
    assert(eval_prefix(p, x, 1) == 1u8);
    assert(eval_prefix(p, x, 2) == 84u8);
    assert(eval_prefix(p, x, 3) == 163u8);
    assert(eval_prefix(p, x, 4) == 14u8);
    assert(eval_prefix(p, x, 5) == 26u8);
    assert(eval_prefix(p, x, 6) == 66u8);
    assert(eval_prefix(p, x, 7) == 90u8);
    assert(eval_prefix(p, x, 8) == 77u8);
    assert(eval_prefix(p, x, 9) == 43u8);
    assert(eval_prefix(p, x, 10) == 33u8);
    assert(eval_prefix(p, x, 11) == 11u8);
    assert(eval_prefix(p, x, 12) == 142u8);
    assert(eval_prefix(p, x, 13) == 241u8);
    assert(eval_prefix(p, x, 14) == 39u8);
    assert(eval_prefix(p, x, 15) == 179u8);
    assert(eval_prefix(p, x, 16) == 33u8);
    assert(eval_prefix(p, x, 17) == 126u8);
    assert(eval_prefix(p, x, 18) == 68u8);
    assert(eval_prefix(p, x, 19) == 75u8);
    assert(eval_prefix(p, x, 20) == 38u8);
    assert(eval_prefix(p, x, 21) == 243u8);
    assert(eval_prefix(p, x, 22) == 62u8);
    assert(eval_prefix(p, x, 23) == 88u8);
    assert(eval_prefix(p, x, 24) == 255u8);
    assert(eval_prefix(p, x, 25) == 40u8);
    assert(eval_prefix(p, x, 26) == 97u8);
    assert(eval_prefix(p, x, 27) == 9u8);
    assert(eval_prefix(p, x, 28) == 255u8);
    assert(eval_prefix(p, x, 29) == 8u8);
    assert(eval_prefix(p, x, 30) == 246u8);
    assert(eval_prefix(p, x, 31) == 0u8);
}

proof fn lemma_generator_30_root_8()
    ensures
        eval_prefix(generator_coeffs_30(), GF_LOGS[8], 31) == 0,
{
    lemma_sums_30();
    let p = generator_coeffs_30();
    let x = GF_LOGS[8];
    assert(eval_prefix(p, x, 0) == 0u8);
    assert(eval_prefix(p, x, 1) == 1u8);
    assert(eval_prefix(p, x, 2) == 201u8);
    assert(eval_prefix(p, x, 3) == 54u8);
    assert(eval_prefix(p, x, 4) == 73u8);
    assert(eval_prefix(p, x, 5) == 175u8);
    assert(eval_prefix(p, x, 6) == 217u8);
    assert(eval_prefix(p, x, 7) == 205u8);
    assert(eval_prefix(p, x, 8) == 255u8);
    assert(eval_prefix(p, x, 9) == 166u8);
    assert(eval_prefix(p, x, 10) == 234u8);
    assert(eval_prefix(p, x, 11) == 38u8);
    assert(eval_prefix(p, x, 12) == 174u8);
    assert(eval_prefix(p, x, 13) == 182u8);
    assert(eval_prefix(p, x, 14) == 52u8);
    assert(eval_prefix(p, x, 15) == 231u8);
    assert(eval_prefix(p, x, 16) == 107u8);
    assert(eval_prefix(p, x, 17) == 104u8);
    assert(eval_prefix(p, x, 18) == 201u8);
    assert(eval_prefix(p, x, 19) == 54u8);
    assert(eval_prefix(p, x, 20) == 76u8);
    assert(eval_prefix(p, x, 21) == 150u8);
    assert(eval_prefix(p, x, 22) == 183u8);
    assert(eval_prefix(p, x, 23) == 17u8);
    assert(eval_prefix(p, x, 24) == 52u8);
    assert(eval_prefix(p, x, 25) == 116u8);
    assert(eval_prefix(p, x, 26) == 245u8);
    assert(eval_prefix(p, x, 27) == 213u8);
    assert(eval_prefix(p, x, 28) == 154u8);
    assert(eval_prefix(p, x, 29) == 83u8);
    assert(eval_prefix(p, x, 30) == 123u8);
    assert(eval_prefix(p, x, 31) == 0u8);
}

proof fn lemma_generator_30_root_9()
    ensures
        eval_prefix(generator_coeffs_30(), GF_LOGS[9], 31) == 0,
{
    lemma_sums_30();
    let p = generator_coeffs_30();
    let x = GF_LOGS[9];
    assert(eval_prefix(p, x, 0) == 0u8);
    assert(eval_prefix(p, x, 1) == 1u8);
    assert(eval_prefix(p, x, 2) == 238u8);
    assert(eval_prefix(p, x, 3) == 222u8);
    assert(eval_prefix(p, x, 4) == 241u8);
    assert(eval_prefix(p, x, 5) == 141u8);
    assert(eval_prefix(p, x, 6) == 144u8);
    assert(eval_prefix(p, x, 7) == 11u8);
    assert(eval_prefix(p, x, 8) == 200u8);
    assert(eval_prefix(p, x, 9) == 197u8);
    assert(eval_prefix(p, x, 10) == 189u8);
    assert(eval_prefix(p, x, 11) == 129u8);
    assert(eval_prefix(p, x, 12) == 17u8);
    assert(eval_prefix(p, x, 13) == 12u8);
    assert(eval_prefix(p, x, 14) == 51u8);
    assert(eval_prefix(p, x, 15) == 3u8);
    assert(eval_prefix(p, x, 16) == 196u8);
    assert(eval_prefix(p, x, 17) == 177u8);
    assert(eval_prefix(p, x, 18) == 87u8);
    assert(eval_prefix(p, x, 19) == 241u8);
    assert(eval_prefix(p, x, 20) == 140u8);
    assert(eval_prefix(p, x, 21) == 112u8);
    assert(eval_prefix(p, x, 22) == 160u8);
    assert(eval_prefix(p, x, 23) == 113u8);
    assert(eval_prefix(p, x, 24) == 108u8);
    assert(eval_prefix(p, x, 25) == 90u8);
    assert(eval_prefix(p, x, 26) == 192u8);
    assert(eval_prefix(p, x, 27) == 169u8);
    assert(eval_prefix(p, x, 28) == 163u8);
    assert(eval_prefix(p, x, 29) == 123u8);
    assert(eval_prefix(p, x, 30) == 179u8);
    assert(eval_prefix(p, x, 31) == 0u8);
}

proof fn lemma_generator_30_root_10()
    ensures
        eval_prefix(generator_coeffs_30(), GF_LOGS[10], 31) == 0,
{
    lemma_sums_30();
    let p = generator_coeffs_30();
    let x = GF_LOGS[10];
    assert(eval_prefix(p, x, 0) == 0u8);
    assert(eval_prefix(p, x, 1) == 1u8);
    assert(eval_prefix(p, x, 2) == 160u8);
    assert(eval_prefix(p, x, 3) == 72u8);
    assert(eval_prefix(p, x, 4) == 134u8);
    assert(eval_prefix(p, x, 5) == 244u8);
    assert(eval_prefix(p, x, 6) == 239u8);
    assert(eval_prefix(p, x, 7) == 228u8);
    assert(eval_prefix(p, x, 8) == 116u8);
    assert(eval_prefix(p, x, 9) == 214u8);
    assert(eval_prefix(p, x, 10) == 231u8);
    assert(eval_prefix(p, x, 11) == 229u8);
    assert(eval_prefix(p, x, 12) == 44u8);
    assert(eval_prefix(p, x, 13) == 221u8);
    assert(eval_prefix(p, x, 14) == 239u8);
    assert(eval_prefix(p, x, 15) == 253u8);
    assert(eval_prefix(p, x, 16) == 85u8);
    assert(eval_prefix(p, x, 17) == 213u8);
    assert(eval_prefix(p, x, 18) == 203u8);
    assert(eval_prefix(p, x, 19) == 57u8);
    assert(eval_prefix(p, x, 20) == 142u8);
    assert(eval_prefix(p, x, 21) == 35u8);
    assert(eval_prefix(p, x, 22) == 168u8);
    assert(eval_prefix(p, x, 23) == 23u8);
    assert(eval_prefix(p, x, 24) == 166u8);
    assert(eval_prefix(p, x, 25) == 209u8);
    assert(eval_prefix(p, x, 26) == 107u8);
    assert(eval_prefix(p, x, 27) == 178u8);
    assert(eval_prefix(p, x, 28) == 78u8);
    assert(eval_prefix(p, x, 29) == 132u8);
    assert(eval_prefix(p, x, 30) == 215u8);
    assert(eval_prefix(p, x, 31) == 0u8);
}

proof fn lemma_generator_30_root_11()
    ensures
        eval_prefix(generator_coeffs_30(), GF_LOGS[11], 31) == 0,
{
    lemma_sums_30();
    let p = generator_coeffs_30();
    let x = GF_LOGS[11];
    assert(eval_prefix(p, x, 0) == 0u8);
    assert(eval_prefix(p, x, 1) == 1u8);
    assert(eval_prefix(p, x, 2) == 60u8);
    assert(eval_prefix(p, x, 3) == 8u8);
    assert(eval_prefix(p, x, 4) == 94u8);
    assert(eval_prefix(p, x, 5) == 174u8);
    assert(eval_prefix(p, x, 6) == 251u8);
    assert(eval_prefix(p, x, 7) == 41u8);
    assert(eval_prefix(p, x, 8) == 252u8);
    assert(eval_prefix(p, x, 9) == 41u8);
    assert(eval_prefix(p, x, 10) == 178u8);
    assert(eval_prefix(p, x, 11) == 204u8);
    assert(eval_prefix(p, x, 12) == 70u8);
    assert(eval_prefix(p, x, 13) == 99u8);
    assert(eval_prefix(p, x, 14) == 231u8);
    assert(eval_prefix(p, x, 15) == 130u8);
    assert(eval_prefix(p, x, 16) == 106u8);
    assert(eval_prefix(p, x, 17) == 57u8);
    assert(eval_prefix(p, x, 18) == 36u8);
    assert(eval_prefix(p, x, 19) == 61u8);
    assert(eval_prefix(p, x, 20) == 94u8);
    assert(eval_prefix(p, x, 21) == 254u8);
    assert(eval_prefix(p, x, 22) == 148u8);
    assert(eval_prefix(p, x, 23) == 162u8);
    assert(eval_prefix(p, x, 24) == 72u8);
    assert(eval_prefix(p, x, 25) == 193u8);
    assert(eval_prefix(p, x, 26) == 133u8);
    assert(eval_prefix(p, x, 27) == 129u8);
    assert(eval_prefix(p, x, 28) == 206u8);
    assert(eval_prefix(p, x, 29) == 134u8);
    assert(eval_prefix(p, x, 30) == 229u8);
    assert(eval_prefix(p, x, 31) == 0u8);
}

proof fn lemma_generator_30_root_12()
    ensures
        eval_prefix(generator_coeffs_30(), GF_LOGS[12], 31) == 0,
{
    lemma_sums_30();
    let p = generator_coeffs_30();
    let x = GF_LOGS[12];
    assert(eval_prefix(p, x, 0) == 0u8);
    assert(eval_prefix(p, x, 1) == 1u8);
    assert(eval_prefix(p, x, 2) == 25u8);
    assert(eval_prefix(p, x, 3) == 81u8);
    assert(eval_prefix(p, x, 4) == 225u8);
    assert(eval_prefix(p, x, 5) == 107u8);
    assert(eval_prefix(p, x, 6) == 26u8);
    assert(eval_prefix(p, x, 7) == 45u8);
    assert(eval_prefix(p, x, 8) == 43u8);
    assert(eval_prefix(p, x, 9) == 150u8);
    assert(eval_prefix(p, x, 10) == 135u8);
    assert(eval_prefix(p, x, 11) == 69u8);
    assert(eval_prefix(p, x, 12) == 148u8);
    assert(eval_prefix(p, x, 13) == 180u8);
    assert(eval_prefix(p, x, 14) == 139u8);
    assert(eval_prefix(p, x, 15) == 239u8);
    assert(eval_prefix(p, x, 16) == 26u8);
    assert(eval_prefix(p, x, 17) == 222u8);
    assert(eval_prefix(p, x, 18) == 60u8);
    assert(eval_prefix(p, x, 19) == 23u8);
    assert(eval_prefix(p, x, 20) == 93u8);
    assert(eval_prefix(p, x, 21) == 128u8);
    assert(eval_prefix(p, x, 22) == 72u8);
    assert(eval_prefix(p, x, 23) == 37u8);
    assert(eval_prefix(p, x, 24) == 162u8);
    assert(eval_prefix(p, x, 25) == 15u8);
    assert(eval_prefix(p, x, 26) == 167u8);
    assert(eval_prefix(p, x, 27) == 88u8);
    assert(eval_prefix(p, x, 28) == 76u8);
    assert(eval_prefix(p, x, 29) == 114u8);
    assert(eval_prefix(p, x, 30) == 252u8);
    assert(eval_prefix(p, x, 31) == 0u8);
}

proof fn lemma_generator_30_root_13()
    ensures
        eval_prefix(generator_coeffs_30(), GF_LOGS[13], 31) == 0,
{
    lemma_sums_30();
    let p = generator_coeffs_30();
    let x = GF_LOGS[13];
    assert(eval_prefix(p, x, 0) == 0u8);
    assert(eval_prefix(p, x, 1) == 1u8);
    assert(eval_prefix(p, x, 2) == 83u8);
    assert(eval_prefix(p, x, 3) == 160u8);
    assert(eval_prefix(p, x, 4) == 212u8);
    assert(eval_prefix(p, x, 5) == 25u8);
    assert(eval_prefix(p, x, 6) == 144u8);
    assert(eval_prefix(p, x, 7) == 236u8);
    assert(eval_prefix(p, x, 8) == 226u8);
    assert(eval_prefix(p, x, 9) == 178u8);
    assert(eval_prefix(p, x, 10) == 23u8);
    assert(eval_prefix(p, x, 11) == 108u8);
    assert(eval_prefix(p, x, 12) == 122u8);
    assert(eval_prefix(p, x, 13) == 1u8);
    assert(eval_prefix(p, x, 14) == 145u8);
    assert(eval_prefix(p, x, 15) == 114u8);
    assert(eval_prefix(p, x, 16) == 118u8);
    assert(eval_prefix(p, x, 17) == 233u8);
    assert(eval_prefix(p, x, 18) == 189u8);
    assert(eval_prefix(p, x, 19) == 26u8);
    assert(eval_prefix(p, x, 20) == 143u8);
    assert(eval_prefix(p, x, 21) == 83u8);
    assert(eval_prefix(p, x, 22) == 68u8);
    assert(eval_prefix(p, x, 23) == 82u8);
    assert(eval_prefix(p, x, 24) == 53u8);
    assert(eval_prefix(p, x, 25) == 94u8);
    assert(eval_prefix(p, x, 26) == 99u8);
    assert(eval_prefix(p, x, 27) == 32u8);
    assert(eval_prefix(p, x, 28) == 38u8);
    assert(eval_prefix(p, x, 29) == 114u8);
    assert(eval_prefix(p, x, 30) == 126u8);
    assert(eval_prefix(p, x, 31) == 0u8);
}

proof fn lemma_generator_30_root_14()
    ensures
        eval_prefix(generator_coeffs_30(), GF_LOGS[14], 31) == 0,
{
    lemma_sums_30();
    let p = generator_coeffs_30();
    let x = GF_LOGS[14];
    assert(eval_prefix(p, x, 0) == 0u8);
    assert(eval_prefix(p, x, 1) == 1u8);
    assert(eval_prefix(p, x, 2) == 199u8);
    assert(eval_prefix(p, x, 3) == 78u8);
    assert(eval_prefix(p, x, 4) == 11u8);
    assert(eval_prefix(p, x, 5) == 228u8);
    assert(eval_prefix(p, x, 6) == 20u8);
    assert(eval_prefix(p, x, 7) == 161u8);
    assert(eval_prefix(p, x, 8) == 119u8);
    assert(eval_prefix(p, x, 9) == 216u8);
    assert(eval_prefix(p, x, 10) == 113u8);
    assert(eval_prefix(p, x, 11) == 150u8);
    assert(eval_prefix(p, x, 12) == 85u8);
    assert(eval_prefix(p, x, 13) == 119u8);
    assert(eval_prefix(p, x, 14) == 172u8);
    assert(eval_prefix(p, x, 15) == 34u8);
    assert(eval_prefix(p, x, 16) == 246u8);
    assert(eval_prefix(p, x, 17) == 239u8);
    assert(eval_prefix(p, x, 18) == 207u8);
    assert(eval_prefix(p, x, 19) == 214u8);
    assert(eval_prefix(p, x, 20) == 206u8);
    assert(eval_prefix(p, x, 21) == 42u8);
    assert(eval_prefix(p, x, 22) == 246u8);
    assert(eval_prefix(p, x, 23) == 242u8);
    assert(eval_prefix(p, x, 24) == 116u8);
    assert(eval_prefix(p, x, 25) == 197u8);
    assert(eval_prefix(p, x, 26) == 70u8);
    assert(eval_prefix(p, x, 27) == 29u8);
    assert(eval_prefix(p, x, 28) == 225u8);
    assert(eval_prefix(p, x, 29) == 226u8);
    assert(eval_prefix(p, x, 30) == 63u8);
    assert(eval_prefix(p, x, 31) == 0u8);
}

proof fn lemma_generator_30_root_15()
    ensures
        eval_prefix(generator_coeffs_30(), GF_LOGS[15], 31) == 0,
{
    lemma_sums_30();
    let p = generator_coeffs_30();
    let x = GF_LOGS[15];
    assert(eval_prefix(p, x, 0) == 0u8);
    assert(eval_prefix(p, x, 1) == 1u8);
    assert(eval_prefix(p, x, 2) == 242u8);
    assert(eval_prefix(p, x, 3) == 203u8);
    assert(eval_prefix(p, x, 4) == 149u8);
    assert(eval_prefix(p, x, 5) == 71u8);
    assert(eval_prefix(p, x, 6) == 68u8);
    assert(eval_prefix(p, x, 7) == 45u8);
    assert(eval_prefix(p, x, 8) == 108u8);
    assert(eval_prefix(p, x, 9) == 22u8);
    assert(eval_prefix(p, x, 10) == 139u8);
    assert(eval_prefix(p, x, 11) == 235u8);
    assert(eval_prefix(p, x, 12) == 11u8);
    assert(eval_prefix(p, x, 13) == 246u8);
    assert(eval_prefix(p, x, 14) == 179u8);
    assert(eval_prefix(p, x, 15) == 183u8);
    assert(eval_prefix(p, x, 16) == 124u8);
    assert(eval_prefix(p, x, 17) == 29u8);
    assert(eval_prefix(p, x, 18) == 124u8);
    assert(eval_prefix(p, x, 19) == 216u8);
    assert(eval_prefix(p, x, 20) == 160u8);
    assert(eval_prefix(p, x, 21) == 71u8);
    assert(eval_prefix(p, x, 22) == 149u8);
    assert(eval_prefix(p, x, 23) == 32u8);
    assert(eval_prefix(p, x, 24) == 80u8);
    assert(eval_prefix(p, x, 25) == 101u8);
    assert(eval_prefix(p, x, 26) == 167u8);
    assert(eval_prefix(p, x, 27) == 111u8);
    assert(eval_prefix(p, x, 28) == 21u8);
    assert(eval_prefix(p, x, 29) == 142u8);
    assert(eval_prefix(p, x, 30) == 145u8);
    assert(eval_prefix(p, x, 31) == 0u8);
}

proof fn lemma_generator_30_root_16()
    ensures
        eval_prefix(generator_coeffs_30(), GF_LOGS[16], 31) == 0,
{
    lemma_sums_30();
    let p = generator_coeffs_30();
    let x = GF_LOGS[16];
    assert(eval_prefix(p, x, 0) == 0u8);
    assert(eval_prefix(p, x, 1) == 1u8);
    assert(eval_prefix(p, x, 2) == 152u8);
    assert(eval_prefix(p, x, 3) == 209u8);
    assert(eval_prefix(p, x, 4) == 150u8);
    assert(eval_prefix(p, x, 5) == 129u8);
    assert(eval_prefix(p, x, 6) == 70u8);
    assert(eval_prefix(p, x, 7) == 159u8);
    assert(eval_prefix(p, x, 8) == 149u8);
    assert(eval_prefix(p, x, 9) == 126u8);
    assert(eval_prefix(p, x, 10) == 193u8);
    assert(eval_prefix(p, x, 11) == 41u8);
    assert(eval_prefix(p, x, 12) == 4u8);
    assert(eval_prefix(p, x, 13) == 156u8);
    assert(eval_prefix(p, x, 14) == 28u8);
    assert(eval_prefix(p, x, 15) == 26u8);
    assert(eval_prefix(p, x, 16) == 252u8);
    assert(eval_prefix(p, x, 17) == 166u8);
    assert(eval_prefix(p, x, 18) == 188u8);
    assert(eval_prefix(p, x, 19) == 137u8);
    assert(eval_prefix(p, x, 20) == 151u8);
    assert(eval_prefix(p, x, 21) == 157u8);
    assert(eval_prefix(p, x, 22) == 84u8);
    assert(eval_prefix(p, x, 23) == 93u8);
    assert(eval_prefix(p, x, 24) == 129u8);
    assert(eval_prefix(p, x, 25) == 207u8);
    assert(eval_prefix(p, x, 26) == 88u8);
    assert(eval_prefix(p, x, 27) == 199u8);
    assert(eval_prefix(p, x, 28) == 209u8);
    assert(eval_prefix(p, x, 29) == 177u8);
    assert(eval_prefix(p, x, 30) == 198u8);
    assert(eval_prefix(p, x, 31) == 0u8);
}

proof fn lemma_generator_30_root_17()
    ensures
        eval_prefix(generator_coeffs_30(), GF_LOGS[17], 31) == 0,
{
    lemma_sums_30();
    let p = generator_coeffs_30();
    let x = GF_LOGS[17];
    assert(eval_prefix(p, x, 0) == 0u8);
    assert(eval_prefix(p, x, 1) == 1u8);
    assert(eval_prefix(p, x, 2) == 76u8);
    assert(eval_prefix(p, x, 3) == 209u8);
    assert(eval_prefix(p, x, 4) == 230u8);
    assert(eval_prefix(p, x, 5) == 146u8);
    assert(eval_prefix(p, x, 6) == 20u8);
    assert(eval_prefix(p, x, 7) == 239u8);
    assert(eval_prefix(p, x, 8) == 188u8);
    assert(eval_prefix(p, x, 9) == 156u8);
    assert(eval_prefix(p, x, 10) == 17u8);
    assert(eval_prefix(p, x, 11) == 171u8);
    assert(eval_prefix(p, x, 12) == 3u8);
    assert(eval_prefix(p, x, 13) == 4u8);
    assert(eval_prefix(p, x, 14) == 76u8);
    assert(eval_prefix(p, x, 15) == 254u8);
    assert(eval_prefix(p, x, 16) == 144u8);
    assert(eval_prefix(p, x, 17) == 201u8);
    assert(eval_prefix(p, x, 18) == 223u8);
    assert(eval_prefix(p, x, 19) == 158u8);
    assert(eval_prefix(p, x, 20) == 113u8);
    assert(eval_prefix(p, x, 21) == 215u8);
    assert(eval_prefix(p, x, 22) == 206u8);
    assert(eval_prefix(p, x, 23) == 171u8);
    assert(eval_prefix(p, x, 24) == 128u8);
    assert(eval_prefix(p, x, 25) == 197u8);
    assert(eval_prefix(p, x, 26) == 92u8);
    assert(eval_prefix(p, x, 27) == 145u8);
    assert(eval_prefix(p, x, 28) == 105u8);
    assert(eval_prefix(p, x, 29) == 101u8);
    assert(eval_prefix(p, x, 30) == 99u8);
    assert(eval_prefix(p, x, 31) == 0u8);
}

proof fn lemma_generator_30_root_18()
    ensures
        eval_prefix(generator_coeffs_30(), GF_LOGS[18], 31) == 0,
{
    lemma_sums_30();
    let p = generator_coeffs_30();
    let x = GF_LOGS[18];
    assert(eval_prefix(p, x, 0) == 0u8);
    assert(eval_prefix(p, x, 1) == 1u8);
    assert(eval_prefix(p, x, 2) == 249u8);
    assert(eval_prefix(p, x, 3) == 1u8);
    assert(eval_prefix(p, x, 4) == 96u8);
    assert(eval_prefix(p, x, 5) == 15u8);
    assert(eval_prefix(p, x, 6) == 117u8);
    assert(eval_prefix(p, x, 7) == 245u8);
    assert(eval_prefix(p, x, 8) == 125u8);
    assert(eval_prefix(p, x, 9) == 34u8);
    assert(eval_prefix(p, x, 10) == 150u8);
    assert(eval_prefix(p, x, 11) == 65u8);
    assert(eval_prefix(p, x, 12) == 197u8);
    assert(eval_prefix(p, x, 13) == 164u8);
    assert(eval_prefix(p, x, 14) == 104u8);
    assert(eval_prefix(p, x, 15) == 234u8);
    assert(eval_prefix(p, x, 16) == 224u8);
    assert(eval_prefix(p, x, 17) == 118u8);
    assert(eval_prefix(p, x, 18) == 247u8);
    assert(eval_prefix(p, x, 19) == 154u8);
    assert(eval_prefix(p, x, 20) == 142u8);
    assert(eval_prefix(p, x, 21) == 129u8);
    assert(eval_prefix(p, x, 22) == 60u8);
    assert(eval_prefix(p, x, 23) == 204u8);
    assert(eval_prefix(p, x, 24) == 169u8);
    assert(eval_prefix(p, x, 25) == 216u8);
    assert(eval_prefix(p, x, 26) == 203u8);
    assert(eval_prefix(p, x, 27) == 77u8);
    assert(eval_prefix(p, x, 28) == 104u8);
    assert(eval_prefix(p, x, 29) == 89u8);
    assert(eval_prefix(p, x, 30) == 191u8);
    assert(eval_prefix(p, x, 31) == 0u8);
}

proof fn lemma_generator_30_root_19()
    ensures
        eval_prefix(generator_coeffs_30(), GF_LOGS[19], 31) == 0,
{
    lemma_sums_30();
    let p = generator_coeffs_30();
    let x = GF_LOGS[19];
    assert(eval_prefix(p, x, 0) == 0u8);
    assert(eval_prefix(p, x, 1) == 1u8);
    assert(eval_prefix(p, x, 2) == 142u8);
    assert(eval_prefix(p, x, 3) == 219u8);
    assert(eval_prefix(p, x, 4) == 133u8);
    assert(eval_prefix(p, x, 5) == 96u8);
    assert(eval_prefix(p, x, 6) == 79u8);
    assert(eval_prefix(p, x, 7) == 178u8);
    assert(eval_prefix(p, x, 8) == 191u8);
    assert(eval_prefix(p, x, 9) == 83u8);
    assert(eval_prefix(p, x, 10) == 33u8);
    assert(eval_prefix(p, x, 11) == 147u8);
    assert(eval_prefix(p, x, 12) == 70u8);
    assert(eval_prefix(p, x, 13) == 115u8);
    assert(eval_prefix(p, x, 14) == 189u8);
    assert(eval_prefix(p, x, 15) == 92u8);
    assert(eval_prefix(p, x, 16) == 223u8);
    assert(eval_prefix(p, x, 17) == 142u8);
    assert(eval_prefix(p, x, 18) == 152u8);
    assert(eval_prefix(p, x, 19) == 211u8);
    assert(eval_prefix(p, x, 20) == 106u8);
    assert(eval_prefix(p, x, 21) == 203u8);
    assert(eval_prefix(p, x, 22) == 19u8);
    assert(eval_prefix(p, x, 23) == 9u8);
    assert(eval_prefix(p, x, 24) == 84u8);
    assert(eval_prefix(p, x, 25) == 245u8);
    assert(eval_prefix(p, x, 26) == 180u8);
    assert(eval_prefix(p, x, 27) == 246u8);
    assert(eval_prefix(p, x, 28) == 137u8);
    assert(eval_prefix(p, x, 29) == 220u8);
    assert(eval_prefix(p, x, 30) == 209u8);
    assert(eval_prefix(p, x, 31) == 0u8);
}

proof fn lemma_generator_30_root_20()
    ensures
        eval_prefix(generator_coeffs_30(), GF_LOGS[20], 31) == 0,
{
    lemma_sums_30();
    let p = generator_coeffs_30();
    let x = GF_LOGS[20];
    assert(eval_prefix(p, x, 0) == 0u8);
    assert(eval_prefix(p, x, 1) == 1u8);
    assert(eval_prefix(p, x, 2) == 96u8);
    assert(eval_prefix(p, x, 3) == 243u8);
    assert(eval_prefix(p, x, 4) == 10u8);
    assert(eval_prefix(p, x, 5) == 245u8);
    assert(eval_prefix(p, x, 6) == 27u8);
    assert(eval_prefix(p, x, 7) == 71u8);
    assert(eval_prefix(p, x, 8) == 102u8);
    assert(eval_prefix(p, x, 9) == 248u8);
    assert(eval_prefix(p, x, 10) == 74u8);
    assert(eval_prefix(p, x, 11) == 252u8);
    assert(eval_prefix(p, x, 12) == 194u8);
    assert(eval_prefix(p, x, 13) == 206u8);
    assert(eval_prefix(p, x, 14) == 74u8);
    assert(eval_prefix(p, x, 15) == 99u8);
    assert(eval_prefix(p, x, 16) == 78u8);
    assert(eval_prefix(p, x, 17) == 99u8);
    assert(eval_prefix(p, x, 18) == 113u8);
    assert(eval_prefix(p, x, 19) == 200u8);
    assert(eval_prefix(p, x, 20) == 139u8);
    assert(eval_prefix(p, x, 21) == 29u8);
    assert(eval_prefix(p, x, 22) == 10u8);
    assert(eval_prefix(p, x, 23) == 146u8);
    assert(eval_prefix(p, x, 24) == 18u8);
    assert(eval_prefix(p, x, 25) == 176u8);
    assert(eval_prefix(p, x, 26) == 88u8);
    assert(eval_prefix(p, x, 27) == 131u8);
    assert(eval_prefix(p, x, 28) == 198u8);
    assert(eval_prefix(p, x, 29) == 255u8);
    assert(eval_prefix(p, x, 30) == 230u8);
    assert(eval_prefix(p, x, 31) == 0u8);
}

proof fn lemma_generator_30_root_21()
    ensures
        eval_prefix(generator_coeffs_30(), GF_LOGS[21], 31) == 0,
{
    lemma_sums_30();
    let p = generator_coeffs_30();
    let x = GF_LOGS[21];
    assert(eval_prefix(p, x, 0) == 0u8);
    assert(eval_prefix(p, x, 1) == 1u8);
    assert(eval_prefix(p, x, 2) == 161u8);
    assert(eval_prefix(p, x, 3) == 157u8);
    assert(eval_prefix(p, x, 4) == 101u8);
    assert(eval_prefix(p, x, 5) == 255u8);
    assert(eval_prefix(p, x, 6) == 11u8);
    assert(eval_prefix(p, x, 7) == 208u8);
    assert(eval_prefix(p, x, 8) == 92u8);
    assert(eval_prefix(p, x, 9) == 43u8);
    assert(eval_prefix(p, x, 10) == 19u8);
    assert(eval_prefix(p, x, 11) == 218u8);
    assert(eval_prefix(p, x, 12) == 21u8);
    assert(eval_prefix(p, x, 13) == 14u8);
    assert(eval_prefix(p, x, 14) == 186u8);
    assert(eval_prefix(p, x, 15) == 161u8);
    assert(eval_prefix(p, x, 16) == 225u8);
    assert(eval_prefix(p, x, 17) == 84u8);
    assert(eval_prefix(p, x, 18) == 115u8);
    assert(eval_prefix(p, x, 19) == 96u8);
    assert(eval_prefix(p, x, 20) == 66u8);
    assert(eval_prefix(p, x, 21) == 255u8);
    assert(eval_prefix(p, x, 22) == 218u8);
    assert(eval_prefix(p, x, 23) == 92u8);
    assert(eval_prefix(p, x, 24) == 173u8);
    assert(eval_prefix(p, x, 25) == 103u8);
    assert(eval_prefix(p, x, 26) == 132u8);
    assert(eval_prefix(p, x, 27) == 18u8);
    assert(eval_prefix(p, x, 28) == 226u8);
    assert(eval_prefix(p, x, 29) == 146u8);
    assert(eval_prefix(p, x, 30) == 115u8);
    assert(eval_prefix(p, x, 31) == 0u8);
}

proof fn lemma_generator_30_root_22()
    ensures
        eval_prefix(generator_coeffs_30(), GF_LOGS[22], 31) == 0,
{
    lemma_sums_30();
    let p = generator_coeffs_30();
    let x = GF_LOGS[22];
    assert(eval_prefix(p, x, 0) == 0u8);
    assert(eval_prefix(p, x, 1) == 1u8);
    assert(eval_prefix(p, x, 2) == 62u8);
    assert(eval_prefix(p, x, 3) == 185u8);
    assert(eval_prefix(p, x, 4) == 158u8);
    assert(eval_prefix(p, x, 5) == 58u8);
    assert(eval_prefix(p, x, 6) == 3u8);
    assert(eval_prefix(p, x, 7) == 227u8);
    assert(eval_prefix(p, x, 8) == 76u8);
    assert(eval_prefix(p, x, 9) == 246u8);
    assert(eval_prefix(p, x, 10) == 97u8);
    assert(eval_prefix(p, x, 11) == 184u8);
    assert(eval_prefix(p, x, 12) == 94u8);
    assert(eval_prefix(p, x, 13) == 234u8);
    assert(eval_prefix(p, x, 14) == 248u8);
    assert(eval_prefix(p, x, 15) == 248u8);
    assert(eval_prefix(p, x, 16) == 171u8);
    assert(eval_prefix(p, x, 17) == 47u8);
    assert(eval_prefix(p, x, 18) == 22u8);
    assert(eval_prefix(p, x, 19) == 182u8);
    assert(eval_prefix(p, x, 20) == 52u8);
    assert(eval_prefix(p, x, 21) == 156u8);
    assert(eval_prefix(p, x, 22) == 168u8);
    assert(eval_prefix(p, x, 23) == 17u8);
    assert(eval_prefix(p, x, 24) == 8u8);
    assert(eval_prefix(p, x, 25) == 73u8);
    assert(eval_prefix(p, x, 26) == 41u8);
    assert(eval_prefix(p, x, 27) == 38u8);
    assert(eval_prefix(p, x, 28) == 65u8);
    assert(eval_prefix(p, x, 29) == 152u8);
    assert(eval_prefix(p, x, 30) == 183u8);
    assert(eval_prefix(p, x, 31) == 0u8);
}

proof fn lemma_generator_30_root_23()
    ensures
        eval_prefix(generator_coeffs_30(), GF_LOGS[23], 31) == 0,
{
    lemma_sums_30();
    let p = generator_coeffs_30();
    let x = GF_LOGS[23];
    assert(eval_prefix(p, x, 0) == 0u8);
    assert(eval_prefix(p, x, 1) == 1u8);
    assert(eval_prefix(p, x, 2) == 29u8);
    assert(eval_prefix(p, x, 3) == 54u8);
    assert(eval_prefix(p, x, 4) == 213u8);
    assert(eval_prefix(p, x, 5) == 223u8);
    assert(eval_prefix(p, x, 6) == 220u8);
    assert(eval_prefix(p, x, 7) == 153u8);
    assert(eval_prefix(p, x, 8) == 232u8);
    assert(eval_prefix(p, x, 9) == 44u8);
    assert(eval_prefix(p, x, 10) == 24u8);
    assert(eval_prefix(p, x, 11) == 76u8);
    assert(eval_prefix(p, x, 12) == 82u8);
    assert(eval_prefix(p, x, 13) == 2u8);
    assert(eval_prefix(p, x, 14) == 153u8);
    assert(eval_prefix(p, x, 15) == 122u8);
    assert(eval_prefix(p, x, 16) == 39u8);
    assert(eval_prefix(p, x, 17) == 110u8);
    assert(eval_prefix(p, x, 18) == 23u8);
    assert(eval_prefix(p, x, 19) == 191u8);
    assert(eval_prefix(p, x, 20) == 127u8);
    assert(eval_prefix(p, x, 21) == 126u8);
    assert(eval_prefix(p, x, 22) == 188u8);
    assert(eval_prefix(p, x, 23) == 95u8);
    assert(eval_prefix(p, x, 24) == 155u8);
    assert(eval_prefix(p, x, 25) == 102u8);
    assert(eval_prefix(p, x, 26) == 124u8);
    assert(eval_prefix(p, x, 27) == 226u8);
    assert(eval_prefix(p, x, 28) == 204u8);
    assert(eval_prefix(p, x, 29) == 63u8);
    assert(eval_prefix(p, x, 30) == 213u8);
    assert(eval_prefix(p, x, 31) == 0u8);
}

proof fn lemma_generator_30_root_24()
    ensures
        eval_prefix(generator_coeffs_30(), GF_LOGS[24], 31) == 0,
{
    lemma_sums_30();
    let p = generator_coeffs_30();
    let x = GF_LOGS[24];
    assert(eval_prefix(p, x, 0) == 0u8);
    assert(eval_prefix(p, x, 1) == 1u8);
    assert(eval_prefix(p, x, 2) == 91u8);
    assert(eval_prefix(p, x, 3) == 14u8);
    assert(eval_prefix(p, x, 4) == 68u8);
    assert(eval_prefix(p, x, 5) == 47u8);
    assert(eval_prefix(p, x, 6) == 117u8);
    assert(eval_prefix(p, x, 7) == 1u8);
    assert(eval_prefix(p, x, 8) == 196u8);
    assert(eval_prefix(p, x, 9) == 196u8);
    assert(eval_prefix(p, x, 10) == 163u8);
    assert(eval_prefix(p, x, 11) == 58u8);
    assert(eval_prefix(p, x, 12) == 64u8);
    assert(eval_prefix(p, x, 13) == 209u8);
    assert(eval_prefix(p, x, 14) == 33u8);
    assert(eval_prefix(p, x, 15) == 102u8);
    assert(eval_prefix(p, x, 16) == 223u8);
    assert(eval_prefix(p, x, 17) == 13u8);
    assert(eval_prefix(p, x, 18) == 48u8);
    assert(eval_prefix(p, x, 19) == 222u8);
    assert(eval_prefix(p, x, 20) == 249u8);
    assert(eval_prefix(p, x, 21) == 18u8);
    assert(eval_prefix(p, x, 22) == 9u8);
    assert(eval_prefix(p, x, 23) == 173u8);
    assert(eval_prefix(p, x, 24) == 145u8);
    assert(eval_prefix(p, x, 25) == 29u8);
    assert(eval_prefix(p, x, 26) == 69u8);
    assert(eval_prefix(p, x, 27) == 42u8);
    assert(eval_prefix(p, x, 28) == 52u8);
    assert(eval_prefix(p, x, 29) == 68u8);
    assert(eval_prefix(p, x, 30) == 228u8);
    assert(eval_prefix(p, x, 31) == 0u8);
}

proof fn lemma_generator_30_root_25()
    ensures
        eval_prefix(generator_coeffs_30(), GF_LOGS[25], 31) == 0,
{
    lemma_sums_30();
    let p = generator_coeffs_30();
    let x = GF_LOGS[25];
    assert(eval_prefix(p, x, 0) == 0u8);
    assert(eval_prefix(p, x, 1) == 1u8);
    assert(eval_prefix(p, x, 2) == 215u8);
    assert(eval_prefix(p, x, 3) == 146u8);
    assert(eval_prefix(p, x, 4) == 230u8);
    assert(eval_prefix(p, x, 5) == 126u8);
    assert(eval_prefix(p, x, 6) == 65u8);
    assert(eval_prefix(p, x, 7) == 3u8);
    assert(eval_prefix(p, x, 8) == 78u8);
    assert(eval_prefix(p, x, 9) == 176u8);
    assert(eval_prefix(p, x, 10) == 200u8);
    assert(eval_prefix(p, x, 11) == 3u8);
    assert(eval_prefix(p, x, 12) == 98u8);
    assert(eval_prefix(p, x, 13) == 23u8);
    assert(eval_prefix(p, x, 14) == 47u8);
    assert(eval_prefix(p, x, 15) == 168u8);
    assert(eval_prefix(p, x, 16) == 111u8);
    assert(eval_prefix(p, x, 17) == 130u8);
    assert(eval_prefix(p, x, 18) == 46u8);
    assert(eval_prefix(p, x, 19) == 132u8);
    assert(eval_prefix(p, x, 20) == 217u8);
    assert(eval_prefix(p, x, 21) == 111u8);
    assert(eval_prefix(p, x, 22) == 163u8);
    assert(eval_prefix(p, x, 23) == 214u8);
    assert(eval_prefix(p, x, 24) == 131u8);
    assert(eval_prefix(p, x, 25) == 210u8);
    assert(eval_prefix(p, x, 26) == 179u8);
    assert(eval_prefix(p, x, 27) == 11u8);
    assert(eval_prefix(p, x, 28) == 22u8);
    assert(eval_prefix(p, x, 29) == 80u8);
    assert(eval_prefix(p, x, 30) == 114u8);
    assert(eval_prefix(p, x, 31) == 0u8);
}

proof fn lemma_generator_30_root_26()
    ensures
        eval_prefix(generator_coeffs_30(), GF_LOGS[26], 31) == 0,
{
    lemma_sums_30();
    let p = generator_coeffs_30();
    let x = GF_LOGS[26];
    assert(eval_prefix(p, x, 0) == 0u8);
    assert(eval_prefix(p, x, 1) == 1u8);
    assert(eval_prefix(p, x, 2) == 210u8);
    assert(eval_prefix(p, x, 3) == 32u8);
    assert(eval_prefix(p, x, 4) == 141u8);
    assert(eval_prefix(p, x, 5) == 64u8);
    assert(eval_prefix(p, x, 6) == 94u8);
    assert(eval_prefix(p, x, 7) == 25u8);
    assert(eval_prefix(p, x, 8) == 29u8);
    assert(eval_prefix(p, x, 9) == 44u8);
    assert(eval_prefix(p, x, 10) == 237u8);
    assert(eval_prefix(p, x, 11) == 18u8);
    assert(eval_prefix(p, x, 12) == 11u8);
    assert(eval_prefix(p, x, 13) == 139u8);
    assert(eval_prefix(p, x, 14) == 11u8);
    assert(eval_prefix(p, x, 15) == 227u8);
    assert(eval_prefix(p, x, 16) == 250u8);
    assert(eval_prefix(p, x, 17) == 21u8);
    assert(eval_prefix(p, x, 18) == 203u8);
    assert(eval_prefix(p, x, 19) == 118u8);
    assert(eval_prefix(p, x, 20) == 97u8);
    assert(eval_prefix(p, x, 21) == 66u8);
    assert(eval_prefix(p, x, 22) == 131u8);
    assert(eval_prefix(p, x, 23) == 3u8);
    assert(eval_prefix(p, x, 24) == 238u8);
    assert(eval_prefix(p, x, 25) == 20u8);
    assert(eval_prefix(p, x, 26) == 160u8);
    assert(eval_prefix(p, x, 27) == 36u8);
    assert(eval_prefix(p, x, 28) == 211u8);
    assert(eval_prefix(p, x, 29) == 186u8);
    assert(eval_prefix(p, x, 30) == 57u8);
    assert(eval_prefix(p, x, 31) == 0u8);
}

proof fn lemma_generator_30_root_27()
    ensures
        eval_prefix(generator_coeffs_30(), GF_LOGS[27], 31) == 0,
{
    lemma_sums_30();
    let p = generator_coeffs_30();
    let x = GF_LOGS[27];
    assert(eval_prefix(p, x, 0) == 0u8);
    assert(eval_prefix(p, x, 1) == 1u8);
    assert(eval_prefix(p, x, 2) == 216u8);
    assert(eval_prefix(p, x, 3) == 63u8);
    assert(eval_prefix(p, x, 4) == 84u8);
    assert(eval_prefix(p, x, 5) == 158u8);
    assert(eval_prefix(p, x, 6) == 5u8);
    assert(eval_prefix(p, x, 7) == 252u8);
    assert(eval_prefix(p, x, 8) == 47u8);
    assert(eval_prefix(p, x, 9) == 187u8);
    assert(eval_prefix(p, x, 10) == 98u8);
    assert(eval_prefix(p, x, 11) == 228u8);
    assert(eval_prefix(p, x, 12) == 163u8);
    assert(eval_prefix(p, x, 13) == 118u8);
    assert(eval_prefix(p, x, 14) == 68u8);
    assert(eval_prefix(p, x, 15) == 206u8);
    assert(eval_prefix(p, x, 16) == 171u8);
    assert(eval_prefix(p, x, 17) == 148u8);
    assert(eval_prefix(p, x, 18) == 11u8);
    assert(eval_prefix(p, x, 19) == 130u8);
    assert(eval_prefix(p, x, 20) == 30u8);
    assert(eval_prefix(p, x, 21) == 145u8);
    assert(eval_prefix(p, x, 22) == 144u8);
    assert(eval_prefix(p, x, 23) == 160u8);
    assert(eval_prefix(p, x, 24) == 55u8);
    assert(eval_prefix(p, x, 25) == 51u8);
    assert(eval_prefix(p, x, 26) == 145u8);
    assert(eval_prefix(p, x, 27) == 65u8);
    assert(eval_prefix(p, x, 28) == 32u8);
    assert(eval_prefix(p, x, 29) == 247u8);
    assert(eval_prefix(p, x, 30) == 146u8);
    assert(eval_prefix(p, x, 31) == 0u8);
}

proof fn lemma_generator_30_root_28()
    ensures
        eval_prefix(generator_coeffs_30(), GF_LOGS[28], 31) == 0,
{
    lemma_sums_30();
    let p = generator_coeffs_30();
    let x = GF_LOGS[28];
    assert(eval_prefix(p, x, 0) == 0u8);
    assert(eval_prefix(p, x, 1) == 1u8);
    assert(eval_prefix(p, x, 2) == 204u8);
    assert(eval_prefix(p, x, 3) == 132u8);
    assert(eval_prefix(p, x, 4) == 177u8);
    assert(eval_prefix(p, x, 5) == 119u8);
    assert(eval_prefix(p, x, 6) == 127u8);
    assert(eval_prefix(p, x, 7) == 188u8);
    assert(eval_prefix(p, x, 8) == 205u8);
    assert(eval_prefix(p, x, 9) == 8u8);
    assert(eval_prefix(p, x, 10) == 197u8);
    assert(eval_prefix(p, x, 11) == 236u8);
    assert(eval_prefix(p, x, 12) == 50u8);
    assert(eval_prefix(p, x, 13) == 59u8);
    assert(eval_prefix(p, x, 14) == 68u8);
    assert(eval_prefix(p, x, 15) == 247u8);
    assert(eval_prefix(p, x, 16) == 170u8);
    assert(eval_prefix(p, x, 17) == 120u8);
    assert(eval_prefix(p, x, 18) == 129u8);
    assert(eval_prefix(p, x, 19) == 114u8);
    assert(eval_prefix(p, x, 20) == 140u8);
    assert(eval_prefix(p, x, 21) == 37u8);
    assert(eval_prefix(p, x, 22) == 77u8);
    assert(eval_prefix(p, x, 23) == 216u8);
    assert(eval_prefix(p, x, 24) == 107u8);
    assert(eval_prefix(p, x, 25) == 203u8);
    assert(eval_prefix(p, x, 26) == 226u8);
    assert(eval_prefix(p, x, 27) == 6u8);
    assert(eval_prefix(p, x, 28) == 91u8);
    assert(eval_prefix(p, x, 29) == 81u8);
    assert(eval_prefix(p, x, 30) == 73u8);
    assert(eval_prefix(p, x, 31) == 0u8);
}

proof fn lemma_generator_30_root_29()
    ensures
        eval_prefix(generator_coeffs_30(), GF_LOGS[29], 31) == 0,
{
    lemma_sums_30();
    let p = generator_coeffs_30();
    let x = GF_LOGS[29];
    assert(eval_prefix(p, x, 0) == 0u8);
    assert(eval_prefix(p, x, 1) == 1u8);
    assert(eval_prefix(p, x, 2) == 228u8);
    assert(eval_prefix(p, x, 3) == 193u8);
    assert(eval_prefix(p, x, 4) == 196u8);
    assert(eval_prefix(p, x, 5) == 48u8);
    assert(eval_prefix(p, x, 6) == 170u8);
    assert(eval_prefix(p, x, 7) == 86u8);
    assert(eval_prefix(p, x, 8) == 80u8);
    assert(eval_prefix(p, x, 9) == 217u8);
    assert(eval_prefix(p, x, 10) == 54u8);
    assert(eval_prefix(p, x, 11) == 143u8);
    assert(eval_prefix(p, x, 12) == 79u8);
    assert(eval_prefix(p, x, 13) == 32u8);
    assert(eval_prefix(p, x, 14) == 88u8);
    assert(eval_prefix(p, x, 15) == 255u8);
    assert(eval_prefix(p, x, 16) == 87u8);
    assert(eval_prefix(p, x, 17) == 24u8);
    assert(eval_prefix(p, x, 18) == 15u8);
    assert(eval_prefix(p, x, 19) == 251u8);
    assert(eval_prefix(p, x, 20) == 85u8);
    assert(eval_prefix(p, x, 21) == 82u8);
    assert(eval_prefix(p, x, 22) == 201u8);
    assert(eval_prefix(p, x, 23) == 58u8);
    assert(eval_prefix(p, x, 24) == 112u8);
    assert(eval_prefix(p, x, 25) == 191u8);
    assert(eval_prefix(p, x, 26) == 153u8);
    assert(eval_prefix(p, x, 27) == 108u8);
    assert(eval_prefix(p, x, 28) == 132u8);
    assert(eval_prefix(p, x, 29) == 143u8);
    assert(eval_prefix(p, x, 30) == 170u8);
    assert(eval_prefix(p, x, 31) == 0u8);
}

/// The generator polynomial of degree 30 vanishes at the first 30 powers of `x`.
proof fn lemma_generator_30_roots()
    ensures
        forall|i: int|
            0 <= i < 30 ==> eval_prefix(generator_poly(30), #[trigger] GF_LOGS[i], 31) == 0,
{
    assert(generator_poly(30) =~= generator_coeffs_30());
    lemma_generator_30_root_0();
    lemma_generator_30_root_1();
    lemma_generator_30_root_2();
    lemma_generator_30_root_3();
    lemma_generator_30_root_4();
    lemma_generator_30_root_5();
    lemma_generator_30_root_6();
    lemma_generator_30_root_7();
    lemma_generator_30_root_8();
    lemma_generator_30_root_9();
    lemma_generator_30_root_10();
    lemma_generator_30_root_11();
    lemma_generator_30_root_12();
    lemma_generator_30_root_13();
    lemma_generator_30_root_14();
    lemma_generator_30_root_15();
    lemma_generator_30_root_16();
    lemma_generator_30_root_17();
    lemma_generator_30_root_18();
    lemma_generator_30_root_19();
    lemma_generator_30_root_20();
    lemma_generator_30_root_21();
    lemma_generator_30_root_22();
    lemma_generator_30_root_23();
    lemma_generator_30_root_24();
    lemma_generator_30_root_25();
    lemma_generator_30_root_26();
    lemma_generator_30_root_27();
    lemma_generator_30_root_28();
    lemma_generator_30_root_29();
}

/// Horner's rule on each generator polynomial for `g` codewords gives zero at the
/// first `g` powers of the primitive element `x`.
pub(crate) proof fn lemma_generator_roots(g: int, i: int)
    requires
        is_generator_length(g),
        0 <= i < g,
    ensures
        eval_prefix(generator_poly(g), GF_LOGS[i], (g + 1) as nat) == 0,
{
    if g == 7 {
        lemma_generator_7_roots();
    } else if g == 10 {
        lemma_generator_10_roots();
    } else if g == 13 {
        lemma_generator_13_roots();
    } else if g == 15 {
        lemma_generator_15_roots();
    } else if g == 16 {
        lemma_generator_16_roots();
    } else if g == 17 {
        lemma_generator_17_roots();
    } else if g == 18 {
        lemma_generator_18_roots();
    } else if g == 20 {
        lemma_generator_20_roots();
    } else if g == 22 {
        lemma_generator_22_roots();
    } else if g == 24 {
        lemma_generator_24_roots();
    } else if g == 26 {
        lemma_generator_26_roots();
    } else if g == 28 {
        lemma_generator_28_roots();
    } else {
        lemma_generator_30_roots();
    }
}

} // verus!
