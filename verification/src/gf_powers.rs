use vstd::prelude::*;

use crate::gf::{gf_mul, lemma_gf_mul_one, lemma_log_tables_inverse, GF_ANTILOGS, GF_LOGS};

verus! {

/// Multiplication by the primitive element `x` in GF(256), reduced by the
/// polynomial x^8 + x^4 + x^3 + x^2 + 1.
pub open spec fn xtime(a: u8) -> u8 {
    if a < 128 {
        (2 * a) as u8
    } else {
        ((2 * a - 256) as u8) ^ 0x1d
    }
}

/// The successive products by `x`, starting from 1, evaluated bit by bit.
proof fn lemma_xtime_chain()
    by (bit_vector)
    ensures
        xtime(1u8) == 2u8, xtime(2u8) == 4u8, xtime(4u8) == 8u8, xtime(8u8) == 16u8,
        xtime(16u8) == 32u8, xtime(32u8) == 64u8, xtime(64u8) == 128u8, xtime(128u8) == 29u8,
        xtime(29u8) == 58u8, xtime(58u8) == 116u8, xtime(116u8) == 232u8, xtime(232u8) == 205u8,
        xtime(205u8) == 135u8, xtime(135u8) == 19u8, xtime(19u8) == 38u8, xtime(38u8) == 76u8,
        xtime(76u8) == 152u8, xtime(152u8) == 45u8, xtime(45u8) == 90u8, xtime(90u8) == 180u8,
        xtime(180u8) == 117u8, xtime(117u8) == 234u8, xtime(234u8) == 201u8, xtime(201u8) == 143u8,
        xtime(143u8) == 3u8, xtime(3u8) == 6u8, xtime(6u8) == 12u8, xtime(12u8) == 24u8,
        xtime(24u8) == 48u8, xtime(48u8) == 96u8, xtime(96u8) == 192u8, xtime(192u8) == 157u8,
        xtime(157u8) == 39u8, xtime(39u8) == 78u8, xtime(78u8) == 156u8, xtime(156u8) == 37u8,
        xtime(37u8) == 74u8, xtime(74u8) == 148u8, xtime(148u8) == 53u8, xtime(53u8) == 106u8,
        xtime(106u8) == 212u8, xtime(212u8) == 181u8, xtime(181u8) == 119u8, xtime(119u8) == 238u8,
        xtime(238u8) == 193u8, xtime(193u8) == 159u8, xtime(159u8) == 35u8, xtime(35u8) == 70u8,
        xtime(70u8) == 140u8, xtime(140u8) == 5u8, xtime(5u8) == 10u8, xtime(10u8) == 20u8,
        xtime(20u8) == 40u8, xtime(40u8) == 80u8, xtime(80u8) == 160u8, xtime(160u8) == 93u8,
        xtime(93u8) == 186u8, xtime(186u8) == 105u8, xtime(105u8) == 210u8, xtime(210u8) == 185u8,
        xtime(185u8) == 111u8, xtime(111u8) == 222u8, xtime(222u8) == 161u8, xtime(161u8) == 95u8,
        xtime(95u8) == 190u8, xtime(190u8) == 97u8, xtime(97u8) == 194u8, xtime(194u8) == 153u8,
        xtime(153u8) == 47u8, xtime(47u8) == 94u8, xtime(94u8) == 188u8, xtime(188u8) == 101u8,
        xtime(101u8) == 202u8, xtime(202u8) == 137u8, xtime(137u8) == 15u8, xtime(15u8) == 30u8,
        xtime(30u8) == 60u8, xtime(60u8) == 120u8, xtime(120u8) == 240u8, xtime(240u8) == 253u8,
        xtime(253u8) == 231u8, xtime(231u8) == 211u8, xtime(211u8) == 187u8, xtime(187u8) == 107u8,
        xtime(107u8) == 214u8, xtime(214u8) == 177u8, xtime(177u8) == 127u8, xtime(127u8) == 254u8,
        xtime(254u8) == 225u8, xtime(225u8) == 223u8, xtime(223u8) == 163u8, xtime(163u8) == 91u8,
        xtime(91u8) == 182u8, xtime(182u8) == 113u8, xtime(113u8) == 226u8, xtime(226u8) == 217u8,
        xtime(217u8) == 175u8, xtime(175u8) == 67u8, xtime(67u8) == 134u8, xtime(134u8) == 17u8,
        xtime(17u8) == 34u8, xtime(34u8) == 68u8, xtime(68u8) == 136u8, xtime(136u8) == 13u8,
        xtime(13u8) == 26u8, xtime(26u8) == 52u8, xtime(52u8) == 104u8, xtime(104u8) == 208u8,
        xtime(208u8) == 189u8, xtime(189u8) == 103u8, xtime(103u8) == 206u8, xtime(206u8) == 129u8,
        xtime(129u8) == 31u8, xtime(31u8) == 62u8, xtime(62u8) == 124u8, xtime(124u8) == 248u8,
        xtime(248u8) == 237u8, xtime(237u8) == 199u8, xtime(199u8) == 147u8, xtime(147u8) == 59u8,
        xtime(59u8) == 118u8, xtime(118u8) == 236u8, xtime(236u8) == 197u8, xtime(197u8) == 151u8,
        xtime(151u8) == 51u8, xtime(51u8) == 102u8, xtime(102u8) == 204u8, xtime(204u8) == 133u8,
        xtime(133u8) == 23u8, xtime(23u8) == 46u8, xtime(46u8) == 92u8, xtime(92u8) == 184u8,
        xtime(184u8) == 109u8, xtime(109u8) == 218u8, xtime(218u8) == 169u8, xtime(169u8) == 79u8,
        xtime(79u8) == 158u8, xtime(158u8) == 33u8, xtime(33u8) == 66u8, xtime(66u8) == 132u8,
        xtime(132u8) == 21u8, xtime(21u8) == 42u8, xtime(42u8) == 84u8, xtime(84u8) == 168u8,
        xtime(168u8) == 77u8, xtime(77u8) == 154u8, xtime(154u8) == 41u8, xtime(41u8) == 82u8,
        xtime(82u8) == 164u8, xtime(164u8) == 85u8, xtime(85u8) == 170u8, xtime(170u8) == 73u8,
        xtime(73u8) == 146u8, xtime(146u8) == 57u8, xtime(57u8) == 114u8, xtime(114u8) == 228u8,
        xtime(228u8) == 213u8, xtime(213u8) == 183u8, xtime(183u8) == 115u8, xtime(115u8) == 230u8,
        xtime(230u8) == 209u8, xtime(209u8) == 191u8, xtime(191u8) == 99u8, xtime(99u8) == 198u8,
        xtime(198u8) == 145u8, xtime(145u8) == 63u8, xtime(63u8) == 126u8, xtime(126u8) == 252u8,
        xtime(252u8) == 229u8, xtime(229u8) == 215u8, xtime(215u8) == 179u8, xtime(179u8) == 123u8,
        xtime(123u8) == 246u8, xtime(246u8) == 241u8, xtime(241u8) == 255u8, xtime(255u8) == 227u8,
        xtime(227u8) == 219u8, xtime(219u8) == 171u8, xtime(171u8) == 75u8, xtime(75u8) == 150u8,
        xtime(150u8) == 49u8, xtime(49u8) == 98u8, xtime(98u8) == 196u8, xtime(196u8) == 149u8,
        xtime(149u8) == 55u8, xtime(55u8) == 110u8, xtime(110u8) == 220u8, xtime(220u8) == 165u8,
        xtime(165u8) == 87u8, xtime(87u8) == 174u8, xtime(174u8) == 65u8, xtime(65u8) == 130u8,
        xtime(130u8) == 25u8, xtime(25u8) == 50u8, xtime(50u8) == 100u8, xtime(100u8) == 200u8,
        xtime(200u8) == 141u8, xtime(141u8) == 7u8, xtime(7u8) == 14u8, xtime(14u8) == 28u8,
        xtime(28u8) == 56u8, xtime(56u8) == 112u8, xtime(112u8) == 224u8, xtime(224u8) == 221u8,
        xtime(221u8) == 167u8, xtime(167u8) == 83u8, xtime(83u8) == 166u8, xtime(166u8) == 81u8,
        xtime(81u8) == 162u8, xtime(162u8) == 89u8, xtime(89u8) == 178u8, xtime(178u8) == 121u8,
        xtime(121u8) == 242u8, xtime(242u8) == 249u8, xtime(249u8) == 239u8, xtime(239u8) == 195u8,
        xtime(195u8) == 155u8, xtime(155u8) == 43u8, xtime(43u8) == 86u8, xtime(86u8) == 172u8,
        xtime(172u8) == 69u8, xtime(69u8) == 138u8, xtime(138u8) == 9u8, xtime(9u8) == 18u8,
        xtime(18u8) == 36u8, xtime(36u8) == 72u8, xtime(72u8) == 144u8, xtime(144u8) == 61u8,
        xtime(61u8) == 122u8, xtime(122u8) == 244u8, xtime(244u8) == 245u8, xtime(245u8) == 247u8,
        xtime(247u8) == 243u8, xtime(243u8) == 251u8, xtime(251u8) == 235u8, xtime(235u8) == 203u8,
        xtime(203u8) == 139u8, xtime(139u8) == 11u8, xtime(11u8) == 22u8, xtime(22u8) == 44u8,
        xtime(44u8) == 88u8, xtime(88u8) == 176u8, xtime(176u8) == 125u8, xtime(125u8) == 250u8,
        xtime(250u8) == 233u8, xtime(233u8) == 207u8, xtime(207u8) == 131u8, xtime(131u8) == 27u8,
        xtime(27u8) == 54u8, xtime(54u8) == 108u8, xtime(108u8) == 216u8, xtime(216u8) == 173u8,
        xtime(173u8) == 71u8, xtime(71u8) == 142u8, xtime(142u8) == 1u8,
{
}

/// Entry `i + 1` of `GF_LOGS` is entry `i` times `x`.
#[verifier::opaque]
spec fn power_step(i: int) -> bool {
    GF_LOGS[i + 1] == xtime(GF_LOGS[i])
}

spec fn logs_are_powers_below(n: nat) -> bool
    decreases n,
{
    if n == 0 {
        true
    } else {
        logs_are_powers_below((n - 1) as nat) && power_step(n - 1)
    }
}

proof fn lemma_logs_are_powers_below(n: nat)
    requires
        logs_are_powers_below(n),
        n <= 255,
    ensures
        forall|i: int| 0 <= i < n ==> #[trigger] power_step(i),
    decreases n,
{
    if n > 0 {
        lemma_logs_are_powers_below((n - 1) as nat);
    }
}

/// `GF_LOGS` lists the successive powers of the primitive element `x` of GF(256):
/// it starts at 1, and each entry is the one before it times `x`.
pub proof fn lemma_logs_are_powers()
    ensures
        GF_LOGS[0] == 1,
        forall|i: int| 0 <= i < 255 ==> #[trigger] GF_LOGS[i + 1] == xtime(GF_LOGS[i]),
{
    lemma_xtime_chain();
    assert(logs_are_powers_below(64)) by {
        reveal(power_step);
        reveal_with_fuel(logs_are_powers_below, 65);
    }
    assert(logs_are_powers_below(128)) by {
        reveal(power_step);
        reveal_with_fuel(logs_are_powers_below, 65);
    }
    assert(logs_are_powers_below(192)) by {
        reveal(power_step);
        reveal_with_fuel(logs_are_powers_below, 65);
    }
    assert(logs_are_powers_below(255)) by {
        reveal(power_step);
        reveal_with_fuel(logs_are_powers_below, 64);
    }
    lemma_logs_are_powers_below(255);
    assert forall|i: int| 0 <= i < 255 implies #[trigger] GF_LOGS[i + 1] == xtime(GF_LOGS[i]) by {
        assert(power_step(i));
        reveal(power_step);
    }
}

/// `a` multiplied by `x`, `k` times over.
pub open spec fn xtime_pow(a: u8, k: nat) -> u8
    decreases k,
{
    if k == 0 {
        a
    } else {
        xtime(xtime_pow(a, (k - 1) as nat))
    }
}

/// Multiplication by `x` is linear, and keeps 0.
proof fn lemma_xtime_linear(a: u8, b: u8)
    by (bit_vector)
    ensures
        xtime(a ^ b) == xtime(a) ^ xtime(b),
        xtime(0) == 0,
{
}

/// Multiplication by a power of `x` is linear.
proof fn lemma_xtime_pow_linear(a: u8, b: u8, k: nat)
    ensures
        xtime_pow(a ^ b, k) == xtime_pow(a, k) ^ xtime_pow(b, k),
    decreases k,
{
    if k > 0 {
        lemma_xtime_pow_linear(a, b, (k - 1) as nat);
        lemma_xtime_linear(xtime_pow(a, (k - 1) as nat), xtime_pow(b, (k - 1) as nat));
    }
}

/// Multiplying by the `k`-th power of `x` is multiplying by `x`, `k` times over.
proof fn lemma_mul_by_power(a: u8, k: nat)
    requires
        k < 256,
    ensures
        gf_mul(a, GF_LOGS[k as int]) == xtime_pow(a, k),
    decreases k,
{
    lemma_log_tables_inverse();
    if k == 0 {
        lemma_gf_mul_one(a);
    } else {
        lemma_mul_by_power(a, (k - 1) as nat);
        lemma_xtime_linear(0, 0);
        if a != 0 {
            lemma_logs_are_powers();
            let la = GF_ANTILOGS[a as int] as int;
            assert(GF_LOGS[la] == a);
            assert(GF_ANTILOGS[GF_LOGS[la] as int] == la % 255);
            let e = (la + (k - 1)) % 255;
            assert(GF_ANTILOGS[GF_LOGS[(k - 1) as int] as int] == (k - 1) % 255);
            assert(GF_ANTILOGS[GF_LOGS[k as int] as int] == k % 255);
            assert(xtime_pow(a, (k - 1) as nat) == GF_LOGS[e]);
            assert(GF_LOGS[e + 1] == xtime(GF_LOGS[e]));
            assert(GF_LOGS[255] == GF_LOGS[0]);
            assert((la + k % 255) % 255 == (e + 1) % 255);
        } else {
            assert(xtime_pow(0, k) == xtime(xtime_pow(0, (k - 1) as nat)));
        }
    }
}

/// Multiplication in GF(256) distributes over addition (`^`).
pub proof fn lemma_gf_mul_distributes(a: u8, b: u8, c: u8)
    ensures
        gf_mul(a ^ b, c) == gf_mul(a, c) ^ gf_mul(b, c),
        gf_mul(c, a ^ b) == gf_mul(c, a) ^ gf_mul(c, b),
{
    if c == 0 {
        assert(0u8 ^ 0u8 == 0u8) by (bit_vector);
    } else {
        lemma_log_tables_inverse();
        let k = GF_ANTILOGS[c as int];
        assert(GF_LOGS[k as int] == c);
        lemma_mul_by_power(a ^ b, k as nat);
        lemma_mul_by_power(a, k as nat);
        lemma_mul_by_power(b, k as nat);
        lemma_xtime_pow_linear(a, b, k as nat);
    }
}

}
