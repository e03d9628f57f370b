use vstd::prelude::*;

use crate::gf::{gf_scale, lemma_gf_mul_one};
use crate::gf_powers::lemma_gf_mul_distributes;

verus! {

/// The coefficient at index `i`, or zero past either end.
pub open spec fn byte_at(s: Seq<u8>, i: int) -> u8 {
    if 0 <= i < s.len() {
        s[i]
    } else {
        0
    }
}

/// The sum of two coefficient sequences (highest degree first), the shorter one
/// padded with zeros at its end, with the leading coefficient of the sum dropped.
pub open spec fn xor_tail(a: Seq<u8>, b: Seq<u8>) -> Seq<u8> {
    let n = if a.len() >= b.len() {
        a.len()
    } else {
        b.len()
    };
    Seq::new(
        if n == 0 {
            0
        } else {
            (n - 1) as nat
        },
        |i: int| byte_at(b, i + 1) ^ byte_at(a, i + 1),
    )
}

/// `s` placed at index `k` of a sequence of `t` coefficients, zeros elsewhere.
pub open spec fn place(s: Seq<u8>, k: int, t: nat) -> Seq<u8> {
    Seq::new(t, |d: int| byte_at(s, d - k))
}

/// The coefficientwise sum of two sequences of the same length.
pub open spec fn seq_xor(a: Seq<u8>, b: Seq<u8>) -> Seq<u8> {
    Seq::new(a.len(), |i: int| a[i] ^ b[i])
}

/// The product of the polynomials `q` and `g` over GF(256), as `t` coefficients,
/// highest degree first: the sum over `j` of `q[j]` times `g`, placed at index `j`.
/// With `t == q.len() + g.len() - 1` this is the full product.
pub open spec fn poly_mul(q: Seq<u8>, g: Seq<u8>, t: nat) -> Seq<u8>
    decreases q.len(),
{
    if q.len() == 0 {
        Seq::new(t, |d: int| 0u8)
    } else {
        seq_xor(
            poly_mul(q.drop_last(), g, t),
            place(gf_scale(q.last(), g), q.len() - 1, t),
        )
    }
}

/// `ec` is the block of error correction codewords of the data block `msg` under
/// the generator `gen`: the codeword `msg` followed by `ec` is a multiple of `gen`,
/// and `ec` has one coefficient fewer than `gen`; so `ec` is the remainder of
/// `msg` times `x` to the degree of `gen`, divided by `gen`. An empty block has none.
pub open spec fn is_ec_remainder(msg: Seq<u8>, ec: Seq<u8>, gen: Seq<u8>) -> bool {
    if msg.len() == 0 {
        ec.len() == 0
    } else {
        &&& ec.len() + 1 == gen.len()
        &&& exists|q: Seq<u8>|
            q.len() == msg.len() && msg + ec == #[trigger] poly_mul(q, gen, msg.len() + ec.len())
    }
}

/// Addition of bytes (`^`) is associative and commutative, with 0 as its unit,
/// and every byte is its own negative.
pub(crate) proof fn lemma_xor_facts(a: u8, b: u8, c: u8)
    by (bit_vector)
    ensures
        (a ^ b) ^ c == a ^ (b ^ c),
        a ^ 0 == a,
        0 ^ a == a,
        a ^ a == 0,
        a ^ b == b ^ a,
{
}

/// After one division step, the remainder placed one index further on is the old
/// remainder with the scaled generator added at the old index.
proof fn lemma_step_alignment(rem: Seq<u8>, s: Seq<u8>, k: int, t: nat)
    requires
        rem.len() > 0,
        s.len() > 0,
        s[0] == rem[0],
        0 <= k,
        k + rem.len() <= t,
        k + s.len() <= t,
    ensures
        place(xor_tail(s, rem), k + 1, t) == seq_xor(place(rem, k, t), place(s, k, t)),
{
    let lhs = place(xor_tail(s, rem), k + 1, t);
    let rhs = seq_xor(place(rem, k, t), place(s, k, t));
    assert forall|d: int| 0 <= d < t implies lhs[d] == rhs[d] by {
        lemma_xor_facts(byte_at(rem, d - k), byte_at(s, d - k), 0);
        lemma_xor_facts(0, 0, 0);
    }
    assert(lhs =~= rhs);
}

/// Coefficientwise addition is associative.
proof fn lemma_seq_xor_assoc(a: Seq<u8>, b: Seq<u8>, c: Seq<u8>)
    requires
        a.len() == b.len(),
        b.len() == c.len(),
    ensures
        seq_xor(a, seq_xor(b, c)) == seq_xor(seq_xor(a, b), c),
{
    assert forall|i: int| 0 <= i < a.len() implies seq_xor(a, seq_xor(b, c))[i] == seq_xor(
        seq_xor(a, b),
        c,
    )[i] by {
        lemma_xor_facts(a[i], b[i], c[i]);
    }
    assert(seq_xor(a, seq_xor(b, c)) =~= seq_xor(seq_xor(a, b), c));
}

pub(crate) proof fn lemma_poly_mul_len(q: Seq<u8>, g: Seq<u8>, t: nat)
    ensures
        poly_mul(q, g, t).len() == t,
    decreases q.len(),
{
    if q.len() > 0 {
        lemma_poly_mul_len(q.drop_last(), g, t);
    }
}

/// Before the first division step the dividend and the placed remainder agree:
/// they are apart by the empty product.
pub(crate) proof fn lemma_division_start(msg: Seq<u8>, gen: Seq<u8>, t: nat)
    ensures
        seq_xor(place(msg, 0, t), place(msg, 0, t)) == poly_mul(Seq::empty(), gen, t),
{
    assert forall|d: int| 0 <= d < t implies seq_xor(place(msg, 0, t), place(msg, 0, t))[d]
        == poly_mul(Seq::<u8>::empty(), gen, t)[d] by {
        lemma_xor_facts(byte_at(msg, d), 0, 0);
    }
    assert(seq_xor(place(msg, 0, t), place(msg, 0, t)) =~= poly_mul(Seq::empty(), gen, t));
}

/// One division step keeps the dividend and the placed remainder apart by a
/// multiple of the generator, whose quotient gains the step's leading coefficient.
pub(crate) proof fn lemma_division_step(msg: Seq<u8>, rem: Seq<u8>, gen: Seq<u8>, q: Seq<u8>, t: nat)
    requires
        gen.len() > 0,
        gen[0] == 1,
        rem.len() > 0,
        q.len() + rem.len() <= t,
        q.len() + gen.len() <= t,
        seq_xor(place(msg, 0, t), place(rem, q.len() as int, t)) == poly_mul(q, gen, t),
    ensures
        seq_xor(
            place(msg, 0, t),
            place(xor_tail(gf_scale(rem[0], gen), rem), q.len() + 1int, t),
        ) == poly_mul(q.push(rem[0]), gen, t),
{
    let k = q.len() as int;
    let s = gf_scale(rem[0], gen);
    lemma_gf_mul_one(rem[0]);
    lemma_step_alignment(rem, s, k, t);
    lemma_seq_xor_assoc(place(msg, 0, t), place(rem, k, t), place(s, k, t));
    assert(q.push(rem[0]).drop_last() =~= q);
}

/// The dividend placed at the start with the final remainder placed after it is
/// the message followed by the remainder.
pub(crate) proof fn lemma_codeword_layout(msg: Seq<u8>, ec: Seq<u8>)
    ensures
        seq_xor(place(msg, 0, msg.len() + ec.len()), place(ec, msg.len() as int, msg.len() + ec.len()))
            == msg + ec,
{
    let t = msg.len() + ec.len();
    let lhs = seq_xor(place(msg, 0, t), place(ec, msg.len() as int, t));
    assert forall|d: int| 0 <= d < t implies lhs[d] == (msg + ec)[d] by {
        lemma_xor_facts(byte_at(msg, d), 0, 0);
        lemma_xor_facts(byte_at(ec, d - msg.len()), 0, 0);
        if d < msg.len() {
            assert((msg + ec)[d] == msg[d]);
        } else {
            assert((msg + ec)[d] == ec[d - msg.len()]);
        }
    }
    assert(lhs =~= msg + ec);
}

/// The sum that `xor` computes does not depend on the order of its operands.
pub proof fn lemma_xor_tail_commutes(a: Seq<u8>, b: Seq<u8>)
    ensures
        xor_tail(a, b) == xor_tail(b, a),
{
    assert forall|i: int| 0 <= i < xor_tail(a, b).len() implies xor_tail(a, b)[i] == xor_tail(
        b,
        a,
    )[i] by {
        lemma_xor_facts(byte_at(b, i + 1), byte_at(a, i + 1), 0);
    }
    assert(xor_tail(a, b) =~= xor_tail(b, a));
}

/// The product by a sequence of zeros is zero.
proof fn lemma_poly_mul_of_zeros(q: Seq<u8>, g: Seq<u8>, t: nat)
    requires
        forall|j: int| 0 <= j < q.len() ==> q[j] == 0,
    ensures
        forall|d: int| 0 <= d < t ==> #[trigger] poly_mul(q, g, t)[d] == 0,
    decreases q.len(),
{
    lemma_poly_mul_len(q, g, t);
    if q.len() > 0 {
        lemma_poly_mul_of_zeros(q.drop_last(), g, t);
        lemma_poly_mul_len(q.drop_last(), g, t);
        assert forall|d: int| 0 <= d < t implies #[trigger] poly_mul(q, g, t)[d] == 0 by {
            let k = q.len() - 1;
            assert(byte_at(gf_scale(q.last(), g), d - k) == 0);
            lemma_xor_facts(0, 0, 0);
        }
    }
}

/// With a monic `g` and the first `m` entries of `q` zero, coefficient `m` of the
/// product is `q[m]`.
proof fn lemma_poly_mul_lead_coefficient(q: Seq<u8>, g: Seq<u8>, t: nat, m: int)
    requires
        g.len() > 0,
        g[0] == 1,
        0 <= m < q.len(),
        m < t,
        forall|j: int| 0 <= j < m ==> q[j] == 0,
    ensures
        poly_mul(q, g, t)[m] == q[m],
    decreases q.len(),
{
    let k = q.len() - 1;
    let p = q.drop_last();
    lemma_poly_mul_len(p, g, t);
    if m == k {
        lemma_poly_mul_of_zeros(p, g, t);
        lemma_gf_mul_one(q.last());
        lemma_xor_facts(q.last(), 0, 0);
        assert(byte_at(gf_scale(q.last(), g), 0) == q.last());
    } else {
        lemma_poly_mul_lead_coefficient(p, g, t, m);
        lemma_xor_facts(q[m], 0, 0);
        assert(byte_at(gf_scale(q.last(), g), m - k) == 0);
    }
}

/// The product is additive in its first factor.
proof fn lemma_poly_mul_additive(q1: Seq<u8>, q2: Seq<u8>, g: Seq<u8>, t: nat)
    requires
        q1.len() == q2.len(),
    ensures
        seq_xor(poly_mul(q1, g, t), poly_mul(q2, g, t)) == poly_mul(seq_xor(q1, q2), g, t),
    decreases q1.len(),
{
    let q = seq_xor(q1, q2);
    lemma_poly_mul_len(q1, g, t);
    lemma_poly_mul_len(q2, g, t);
    lemma_poly_mul_len(q, g, t);
    if q1.len() == 0 {
        assert forall|d: int| 0 <= d < t implies seq_xor(poly_mul(q1, g, t), poly_mul(q2, g, t))[d]
            == poly_mul(q, g, t)[d] by {
            lemma_xor_facts(0, 0, 0);
        }
        assert(seq_xor(poly_mul(q1, g, t), poly_mul(q2, g, t)) =~= poly_mul(q, g, t));
    } else {
        let k = q1.len() - 1;
        let p1 = q1.drop_last();
        let p2 = q2.drop_last();
        assert(q.drop_last() =~= seq_xor(p1, p2));
        lemma_poly_mul_additive(p1, p2, g, t);
        lemma_poly_mul_len(p1, g, t);
        lemma_poly_mul_len(p2, g, t);
        let c1 = q1.last();
        let c2 = q2.last();
        assert(q.last() == c1 ^ c2);
        let lhs = seq_xor(poly_mul(q1, g, t), poly_mul(q2, g, t));
        let rhs = poly_mul(q, g, t);
        assert forall|d: int| 0 <= d < t implies lhs[d] == rhs[d] by {
            let x1 = poly_mul(p1, g, t)[d];
            let x2 = poly_mul(p2, g, t)[d];
            let y1 = byte_at(gf_scale(c1, g), d - k);
            let y2 = byte_at(gf_scale(c2, g), d - k);
            let y = byte_at(gf_scale(c1 ^ c2, g), d - k);
            if 0 <= d - k < g.len() {
                lemma_gf_mul_distributes(c1, c2, g[d - k]);
            } else {
                lemma_xor_facts(0, 0, 0);
            }
            assert(y == y1 ^ y2);
            assert((x1 ^ y1) ^ (x2 ^ y2) == (x1 ^ x2) ^ (y1 ^ y2)) by (bit_vector);
        }
        assert(lhs =~= rhs);
    }
}

/// The error correction codewords of a block are unique: two blocks that both
/// complete the data block to a multiple of the same monic generator are equal.
pub proof fn lemma_ec_remainder_unique(msg: Seq<u8>, ec1: Seq<u8>, ec2: Seq<u8>, gen: Seq<u8>)
    requires
        gen.len() > 0,
        gen[0] == 1,
        is_ec_remainder(msg, ec1, gen),
        is_ec_remainder(msg, ec2, gen),
    ensures
        ec1 == ec2,
{
    if msg.len() == 0 {
        assert(ec1 =~= ec2);
    } else {
        let n = msg.len();
        let t = msg.len() + ec1.len();
        let q1 = choose|q: Seq<u8>| q.len() == msg.len() && msg + ec1 == #[trigger] poly_mul(q, gen, t);
        let q2 = choose|q: Seq<u8>| q.len() == msg.len() && msg + ec2 == #[trigger] poly_mul(q, gen, t);
        let q = seq_xor(q1, q2);
        lemma_poly_mul_additive(q1, q2, gen, t);
        lemma_poly_mul_len(q1, gen, t);
        assert forall|m: int| 0 <= m < n implies q[m] == 0 by {
            lemma_quotient_prefix_zero(msg, ec1, ec2, q, gen, t, m);
        }
        assert forall|j: int| 0 <= j < n implies q1[j] == q2[j] by {
            let a = q1[j];
            let b = q2[j];
            assert(q[j] == a ^ b);
            assert(a ^ b == 0u8 ==> a == b) by (bit_vector);
        }
        assert(q1 =~= q2);
        assert forall|i: int| 0 <= i < ec1.len() implies ec1[i] == ec2[i] by {
            assert((msg + ec1)[n + i] == ec1[i]);
            assert((msg + ec2)[n + i] == ec2[i]);
        }
        assert(ec1 =~= ec2);
    }
}

/// The sum of the two quotients vanishes on its first `m + 1` entries.
proof fn lemma_quotient_prefix_zero(
    msg: Seq<u8>,
    ec1: Seq<u8>,
    ec2: Seq<u8>,
    q: Seq<u8>,
    gen: Seq<u8>,
    t: nat,
    m: int,
)
    requires
        gen.len() > 0,
        gen[0] == 1,
        q.len() == msg.len(),
        t == msg.len() + ec1.len(),
        ec1.len() == ec2.len(),
        seq_xor(msg + ec1, msg + ec2) == poly_mul(q, gen, t),
        0 <= m < q.len(),
    ensures
        forall|j: int| 0 <= j <= m ==> q[j] == 0,
    decreases m,
{
    if m > 0 {
        lemma_quotient_prefix_zero(msg, ec1, ec2, q, gen, t, m - 1);
    }
    lemma_poly_mul_lead_coefficient(q, gen, t, m);
    let a = msg[m];
    assert((msg + ec1)[m] == a);
    assert((msg + ec2)[m] == a);
    lemma_xor_facts(a, 0, 0);
}

} // verus!
