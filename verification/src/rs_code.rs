use vstd::arithmetic::div_mod::{lemma_add_mod_noop, lemma_small_mod};
use vstd::prelude::*;

use crate::ec::{generator_poly, is_generator_length, lemma_generator_shape};
use crate::generator_roots::{eval_prefix, lemma_generator_roots};
use crate::gf::{gf_mul, gf_scale, lemma_log_tables_inverse, GF_ANTILOGS, GF_LOGS};
use crate::gf_powers::lemma_gf_mul_distributes;
use crate::poly::{is_ec_remainder, lemma_poly_mul_len, lemma_xor_facts, place, poly_mul, seq_xor};

verus! {

/// The value at `x` of the polynomial with coefficients `p`, highest degree first,
/// by Horner's rule.
pub open spec fn poly_eval(p: Seq<u8>, x: u8) -> u8
    decreases p.len(),
{
    if p.len() == 0 {
        0
    } else {
        gf_mul(poly_eval(p.drop_last(), x), x) ^ p.last()
    }
}

/// `n` zero coefficients.
pub open spec fn zeros(n: nat) -> Seq<u8> {
    Seq::new(n, |i: int| 0u8)
}

/// Multiplication in GF(256) is associative.
proof fn lemma_gf_mul_assoc(a: u8, b: u8, c: u8)
    ensures
        gf_mul(gf_mul(a, b), c) == gf_mul(a, gf_mul(b, c)),
{
    if a != 0 && b != 0 && c != 0 {
        lemma_log_tables_inverse();
        let la = GF_ANTILOGS[a as int] as int;
        let lb = GF_ANTILOGS[b as int] as int;
        let lc = GF_ANTILOGS[c as int] as int;
        let ab = (la + lb) % 255;
        let bc = (lb + lc) % 255;
        assert(GF_ANTILOGS[GF_LOGS[ab] as int] == ab % 255);
        assert(GF_ANTILOGS[GF_LOGS[bc] as int] == bc % 255);
        assert(la < 255 && lb < 255 && lc < 255);
        lemma_add_mod_noop(la + lb, lc, 255);
        lemma_add_mod_noop(la, lb + lc, 255);
        lemma_small_mod(lc as nat, 255);
        lemma_small_mod(la as nat, 255);
        assert((ab + lc) % 255 == (la + lb + lc) % 255);
        assert((la + bc) % 255 == (la + lb + lc) % 255);
    }
}

/// Zero times anything is zero.
proof fn lemma_gf_mul_zero(a: u8)
    ensures
        gf_mul(0, a) == 0,
        gf_mul(a, 0) == 0,
{
}

/// Zeros put in front do not change the value.
proof fn lemma_eval_leading_zeros(k: nat, p: Seq<u8>, x: u8)
    ensures
        poly_eval(zeros(k) + p, x) == poly_eval(p, x),
    decreases p.len(),
{
    if p.len() == 0 {
        assert(zeros(k) + p =~= zeros(k));
        lemma_eval_zeros(k, x);
    } else {
        assert((zeros(k) + p).drop_last() =~= zeros(k) + p.drop_last());
        assert((zeros(k) + p).last() == p.last());
        lemma_eval_leading_zeros(k, p.drop_last(), x);
    }
}

/// The zero polynomial is zero everywhere.
proof fn lemma_eval_zeros(k: nat, x: u8)
    ensures
        poly_eval(zeros(k), x) == 0,
    decreases k,
{
    if k > 0 {
        assert(zeros(k).drop_last() =~= zeros((k - 1) as nat));
        lemma_eval_zeros((k - 1) as nat, x);
        lemma_gf_mul_zero(x);
        lemma_xor_facts(0, 0, 0);
    }
}

/// Zeros put after a polynomial that vanishes at `x` keep it vanishing there.
proof fn lemma_eval_trailing_zeros(p: Seq<u8>, m: nat, x: u8)
    requires
        poly_eval(p, x) == 0,
    ensures
        poly_eval(p + zeros(m), x) == 0,
    decreases m,
{
    if m > 0 {
        assert((p + zeros(m)).drop_last() =~= p + zeros((m - 1) as nat));
        lemma_eval_trailing_zeros(p, (m - 1) as nat, x);
        lemma_gf_mul_zero(x);
        lemma_xor_facts(0, 0, 0);
    }
}

/// Scaling the coefficients scales the value.
proof fn lemma_eval_scale(c: u8, p: Seq<u8>, x: u8)
    ensures
        poly_eval(gf_scale(c, p), x) == gf_mul(c, poly_eval(p, x)),
    decreases p.len(),
{
    if p.len() == 0 {
        lemma_gf_mul_zero(c);
    } else {
        let q = p.drop_last();
        assert(gf_scale(c, p).drop_last() =~= gf_scale(c, q));
        lemma_eval_scale(c, q, x);
        let e = poly_eval(q, x);
        lemma_gf_mul_assoc(c, e, x);
        lemma_gf_mul_distributes(gf_mul(e, x), p.last(), c);
    }
}

/// The value of a coefficientwise sum is the sum of the values.
proof fn lemma_eval_xor(a: Seq<u8>, b: Seq<u8>, x: u8)
    requires
        a.len() == b.len(),
    ensures
        poly_eval(seq_xor(a, b), x) == poly_eval(a, x) ^ poly_eval(b, x),
    decreases a.len(),
{
    if a.len() == 0 {
        lemma_xor_facts(0, 0, 0);
    } else {
        assert(seq_xor(a, b).drop_last() =~= seq_xor(a.drop_last(), b.drop_last()));
        lemma_eval_xor(a.drop_last(), b.drop_last(), x);
        let ea = poly_eval(a.drop_last(), x);
        let eb = poly_eval(b.drop_last(), x);
        lemma_gf_mul_distributes(ea, eb, x);
        let u = gf_mul(ea, x);
        let v = gf_mul(eb, x);
        let s = a.last();
        let t = b.last();
        assert((u ^ v) ^ (s ^ t) == (u ^ s) ^ (v ^ t)) by (bit_vector);
    }
}

/// A polynomial placed inside zeros keeps its value at a root.
proof fn lemma_eval_place_root(s: Seq<u8>, k: nat, t: nat, x: u8)
    requires
        poly_eval(s, x) == 0,
        k + s.len() <= t,
    ensures
        poly_eval(place(s, k as int, t), x) == 0,
{
    let m = (t - k - s.len()) as nat;
    assert(place(s, k as int, t) =~= (zeros(k) + s) + zeros(m));
    lemma_eval_leading_zeros(k, s, x);
    lemma_eval_trailing_zeros(zeros(k) + s, m, x);
}

/// A multiple of a polynomial vanishes wherever the polynomial does.
proof fn lemma_eval_multiple(q: Seq<u8>, g: Seq<u8>, t: nat, x: u8)
    requires
        poly_eval(g, x) == 0,
        q.len() + g.len() <= t + 1,
    ensures
        poly_eval(poly_mul(q, g, t), x) == 0,
    decreases q.len(),
{
    if q.len() == 0 {
        assert(poly_mul(q, g, t) =~= zeros(t));
        lemma_eval_zeros(t, x);
    } else {
        let k = (q.len() - 1) as nat;
        let p = q.drop_last();
        lemma_eval_multiple(p, g, t, x);
        lemma_eval_scale(q.last(), g, x);
        lemma_gf_mul_zero(q.last());
        if g.len() > 0 {
            lemma_eval_place_root(gf_scale(q.last(), g), k, t, x);
        } else {
            assert(place(gf_scale(q.last(), g), k as int, t) =~= zeros(t));
            lemma_eval_zeros(t, x);
        }
        lemma_poly_mul_len(p, g, t);
        lemma_eval_xor(poly_mul(p, g, t), place(gf_scale(q.last(), g), k as int, t), x);
        lemma_xor_facts(0, 0, 0);
    }
}

/// Horner's rule over a prefix reads only the coefficients of the prefix.
proof fn lemma_eval_prefix_agree(p: Seq<u8>, q: Seq<u8>, x: u8, m: nat)
    requires
        m <= p.len(),
        m <= q.len(),
        forall|j: int| 0 <= j < m ==> p[j] == q[j],
    ensures
        eval_prefix(p, x, m) == eval_prefix(q, x, m),
    decreases m,
{
    if m > 0 {
        lemma_eval_prefix_agree(p, q, x, (m - 1) as nat);
    }
}

/// Horner's rule from the last coefficient back and from the first one on agree.
proof fn lemma_poly_eval_by_prefix(p: Seq<u8>, x: u8)
    ensures
        poly_eval(p, x) == eval_prefix(p, x, p.len()),
    decreases p.len(),
{
    if p.len() > 0 {
        let q = p.drop_last();
        lemma_poly_eval_by_prefix(q, x);
        lemma_eval_prefix_agree(p, q, x, q.len());
    }
}

/// Each generator polynomial for `g` codewords vanishes at the first `g` powers of
/// the primitive element `x`: x^0, x^1, ..., x^(g - 1).
pub proof fn lemma_generator_poly_roots(g: int, i: int)
    requires
        is_generator_length(g),
        0 <= i < g,
    ensures
        poly_eval(generator_poly(g), GF_LOGS[i]) == 0,
{
    lemma_generator_shape(g);
    lemma_generator_roots(g, i);
    lemma_poly_eval_by_prefix(generator_poly(g), GF_LOGS[i]);
}

/// A data block followed by its error correction codewords is a Reed–Solomon
/// codeword: it vanishes at the roots of the generator polynomial, the first `g`
/// powers of the primitive element `x`.
pub proof fn lemma_codeword_vanishes(msg: Seq<u8>, ec: Seq<u8>, g: int, i: int)
    requires
        is_generator_length(g),
        msg.len() > 0,
        is_ec_remainder(msg, ec, generator_poly(g)),
        0 <= i < g,
    ensures
        poly_eval(msg + ec, GF_LOGS[i]) == 0,
{
    let gen = generator_poly(g);
    let t = msg.len() + ec.len();
    let x = GF_LOGS[i];
    lemma_generator_poly_roots(g, i);
    let q = choose|q: Seq<u8>| q.len() == msg.len() && msg + ec == #[trigger] poly_mul(q, gen, t);
    lemma_eval_multiple(q, gen, t, x);
}

} // verus!
