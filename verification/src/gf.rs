use vstd::prelude::*;

verus! {

/// The powers of the primitive element of GF(256): entry `e` is x^e.
pub const GF_LOGS: [u8; 256] = [
    1, 2, 4, 8, 16, 32, 64, 128, 29, 58, 116, 232, 205, 135, 19, 38,
    76, 152, 45, 90, 180, 117, 234, 201, 143, 3, 6, 12, 24, 48, 96, 192,
    157, 39, 78, 156, 37, 74, 148, 53, 106, 212, 181, 119, 238, 193, 159, 35,
    70, 140, 5, 10, 20, 40, 80, 160, 93, 186, 105, 210, 185, 111, 222, 161,
    95, 190, 97, 194, 153, 47, 94, 188, 101, 202, 137, 15, 30, 60, 120, 240,
    253, 231, 211, 187, 107, 214, 177, 127, 254, 225, 223, 163, 91, 182, 113, 226,
    217, 175, 67, 134, 17, 34, 68, 136, 13, 26, 52, 104, 208, 189, 103, 206,
    129, 31, 62, 124, 248, 237, 199, 147, 59, 118, 236, 197, 151, 51, 102, 204,
    133, 23, 46, 92, 184, 109, 218, 169, 79, 158, 33, 66, 132, 21, 42, 84,
    168, 77, 154, 41, 82, 164, 85, 170, 73, 146, 57, 114, 228, 213, 183, 115,
    230, 209, 191, 99, 198, 145, 63, 126, 252, 229, 215, 179, 123, 246, 241, 255,
    227, 219, 171, 75, 150, 49, 98, 196, 149, 55, 110, 220, 165, 87, 174, 65,
    130, 25, 50, 100, 200, 141, 7, 14, 28, 56, 112, 224, 221, 167, 83, 166,
    81, 162, 89, 178, 121, 242, 249, 239, 195, 155, 43, 86, 172, 69, 138, 9,
    18, 36, 72, 144, 61, 122, 244, 245, 247, 243, 251, 235, 203, 139, 11, 22,
    44, 88, 176, 125, 250, 233, 207, 131, 27, 54, 108, 216, 173, 71, 142, 1,
];

/// The logarithms of the nonzero elements of GF(256); entry 0 is unused.
pub const GF_ANTILOGS: [u8; 256] = [
    0, 0, 1, 25, 2, 50, 26, 198, 3, 223, 51, 238, 27, 104, 199, 75,
    4, 100, 224, 14, 52, 141, 239, 129, 28, 193, 105, 248, 200, 8, 76, 113,
    5, 138, 101, 47, 225, 36, 15, 33, 53, 147, 142, 218, 240, 18, 130, 69,
    29, 181, 194, 125, 106, 39, 249, 185, 201, 154, 9, 120, 77, 228, 114, 166,
    6, 191, 139, 98, 102, 221, 48, 253, 226, 152, 37, 179, 16, 145, 34, 136,
    54, 208, 148, 206, 143, 150, 219, 189, 241, 210, 19, 92, 131, 56, 70, 64,
    30, 66, 182, 163, 195, 72, 126, 110, 107, 58, 40, 84, 250, 133, 186, 61,
    202, 94, 155, 159, 10, 21, 121, 43, 78, 212, 229, 172, 115, 243, 167, 87,
    7, 112, 192, 247, 140, 128, 99, 13, 103, 74, 222, 237, 49, 197, 254, 24,
    227, 165, 153, 119, 38, 184, 180, 124, 17, 68, 146, 217, 35, 32, 137, 46,
    55, 63, 209, 91, 149, 188, 207, 205, 144, 135, 151, 178, 220, 252, 190, 97,
    242, 86, 211, 171, 20, 42, 93, 158, 132, 60, 57, 83, 71, 109, 65, 162,
    31, 45, 67, 216, 183, 123, 164, 118, 196, 23, 73, 236, 127, 12, 111, 246,
    108, 161, 59, 82, 41, 157, 85, 170, 251, 96, 134, 177, 187, 204, 62, 90,
    203, 89, 95, 176, 156, 169, 160, 81, 11, 245, 22, 235, 122, 117, 44, 215,
    79, 174, 213, 233, 230, 231, 173, 232, 116, 214, 244, 234, 168, 80, 88, 175,
];

/// Multiplication in GF(256) by way of the exponent and logarithm tables:
/// the product of two nonzero elements is the power of the primitive element
/// whose exponent is the sum of their logarithms, modulo 255.
pub open spec fn gf_mul(a: u8, b: u8) -> u8 {
    if a == 0 || b == 0 {
        0
    } else {
        GF_LOGS[((GF_ANTILOGS[a as int] + GF_ANTILOGS[b as int]) % 255) as int]
    }
}

/// Every coefficient of `p` multiplied by `c`.
pub open spec fn gf_scale(c: u8, p: Seq<u8>) -> Seq<u8> {
    Seq::new(p.len(), |i: int| gf_mul(c, p[i]))
}

/// A polynomial given by the logarithms of its coefficients, turned into its coefficients.
pub open spec fn poly_from_logs(logs: Seq<u8>) -> Seq<u8> {
    Seq::new(logs.len(), |i: int| GF_LOGS[logs[i] as int])
}

spec fn logs_inverted_below(n: nat) -> bool
    decreases n,
{
    if n == 0 {
        true
    } else {
        &&& logs_inverted_below((n - 1) as nat)
        &&& GF_ANTILOGS[GF_LOGS[n - 1] as int] == (n - 1) % 255
        &&& GF_LOGS[n - 1] != 0
    }
}

spec fn antilogs_inverted_below(n: nat) -> bool
    decreases n,
{
    if n <= 1 {
        true
    } else {
        antilogs_inverted_below((n - 1) as nat) && GF_LOGS[GF_ANTILOGS[n - 1] as int] == n - 1
    }
}

proof fn lemma_logs_inverted_below(n: nat)
    requires
        logs_inverted_below(n),
    ensures
        forall|e: int| 0 <= e < n ==> GF_ANTILOGS[GF_LOGS[e] as int] == e % 255 && GF_LOGS[e] != 0,
    decreases n,
{
    if n > 0 {
        lemma_logs_inverted_below((n - 1) as nat);
    }
}

proof fn lemma_antilogs_inverted_below(n: nat)
    requires
        antilogs_inverted_below(n),
    ensures
        forall|a: int| 1 <= a < n ==> GF_LOGS[GF_ANTILOGS[a] as int] == a,
    decreases n,
{
    if n > 1 {
        lemma_antilogs_inverted_below((n - 1) as nat);
    }
}

/// The two tables are mutually inverse: `GF_LOGS` maps each exponent to a nonzero
/// element (the exponent 255 wrapping round to 0), and `GF_ANTILOGS` maps each
/// nonzero element back to its exponent.
pub proof fn lemma_log_tables_inverse()
    ensures
        forall|e: int|
            0 <= e < 256 ==> #[trigger] GF_ANTILOGS[GF_LOGS[e] as int] == e % 255 && GF_LOGS[e]
                != 0,
        forall|a: int| 1 <= a < 256 ==> #[trigger] GF_LOGS[GF_ANTILOGS[a] as int] == a,
{
    assert(logs_inverted_below(64)) by {
        reveal_with_fuel(logs_inverted_below, 65);
    }
    assert(logs_inverted_below(128)) by {
        reveal_with_fuel(logs_inverted_below, 65);
    }
    assert(logs_inverted_below(192)) by {
        reveal_with_fuel(logs_inverted_below, 65);
    }
    assert(logs_inverted_below(256)) by {
        reveal_with_fuel(logs_inverted_below, 65);
    }
    lemma_logs_inverted_below(256);
    assert(antilogs_inverted_below(64)) by {
        reveal_with_fuel(antilogs_inverted_below, 65);
    }
    assert(antilogs_inverted_below(128)) by {
        reveal_with_fuel(antilogs_inverted_below, 65);
    }
    assert(antilogs_inverted_below(192)) by {
        reveal_with_fuel(antilogs_inverted_below, 65);
    }
    assert(antilogs_inverted_below(256)) by {
        reveal_with_fuel(antilogs_inverted_below, 65);
    }
    lemma_antilogs_inverted_below(256);
}

/// The exponent that the division step looks up, reduced as the step reduces it.
pub(crate) open spec fn reduced_exponent(t: int) -> int {
    if t > 255 {
        t % 255
    } else {
        t
    }
}

/// The division step's table lookup is the product in GF(256).
pub(crate) proof fn lemma_scaled_coefficient(m0: u8, e: u8)
    requires
        m0 != 0,
    ensures
        GF_ANTILOGS[m0 as int] < 255,
        GF_LOGS[reduced_exponent(e + GF_ANTILOGS[m0 as int])] == gf_mul(m0, GF_LOGS[e as int]),
{
    lemma_log_tables_inverse();
    let a = GF_ANTILOGS[m0 as int];
    assert(GF_LOGS[a as int] == m0);
    assert(GF_ANTILOGS[GF_LOGS[a as int] as int] == a % 255);
    assert(GF_ANTILOGS[GF_LOGS[e as int] as int] == e % 255);
}

/// 1 is the unit of the multiplication.
pub(crate) proof fn lemma_gf_mul_one(a: u8)
    ensures
        gf_mul(a, 1) == a,
{
    if a != 0 {
        lemma_log_tables_inverse();
        lemma_scaled_coefficient(a, 0);
        assert(GF_LOGS[GF_ANTILOGS[a as int] as int] == a);
    }
}

} // verus!
