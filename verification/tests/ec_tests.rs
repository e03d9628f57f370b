use qr_encoder::ec::{divide, error_correction, get_ec, get_eclength, xor, ErrorCorrectionLevel};
use qr_encoder::gf::{GF_ANTILOGS, GF_LOGS};

/// Product in GF(256) reduced by x^8 + x^4 + x^3 + x^2 + 1, bit by bit.
fn slow_mul(mut a: u8, mut b: u8) -> u8 {
    let mut p: u8 = 0;
    while b != 0 {
        if b & 1 != 0 {
            p ^= a;
        }
        let carry = a & 0x80 != 0;
        a <<= 1;
        if carry {
            a ^= 0x1d;
        }
        b >>= 1;
    }
    p
}

/// The value at `x` of the polynomial with coefficients `p`, highest degree first.
fn eval(p: &[u8], x: u8) -> u8 {
    p.iter().fold(0u8, |acc, &c| slow_mul(acc, x) ^ c)
}

fn alpha_pow(i: usize) -> u8 {
    (0..i).fold(1u8, |acc, _| slow_mul(acc, 2))
}

#[test]
fn get_eclength_test() {
    assert_eq!(get_eclength(ErrorCorrectionLevel::M, 1), 10);
}

#[test]
fn get_ec_test() {
    assert_eq!(
        get_ec(&vec![32, 91, 11, 120, 209, 114, 220, 77, 67, 64, 236, 17, 236, 17, 236, 17], 10),
        vec![196, 35, 39, 119, 235, 215, 231, 226, 93, 23]
    );
}

#[test]
fn get_eclength_corners() {
    assert_eq!(get_eclength(ErrorCorrectionLevel::L, 1), 7);
    assert_eq!(get_eclength(ErrorCorrectionLevel::Q, 1), 13);
    assert_eq!(get_eclength(ErrorCorrectionLevel::H, 1), 17);
    assert_eq!(get_eclength(ErrorCorrectionLevel::L, 40), 30);
    assert_eq!(get_eclength(ErrorCorrectionLevel::M, 40), 28);
    assert_eq!(get_eclength(ErrorCorrectionLevel::H, 4), 16);
    assert_eq!(get_eclength(ErrorCorrectionLevel::Q, 14), 20);
}

#[test]
fn every_table_length_has_a_generator() {
    let levels = [ErrorCorrectionLevel::L, ErrorCorrectionLevel::M, ErrorCorrectionLevel::Q, ErrorCorrectionLevel::H];
    let lengths = [7, 10, 13, 15, 16, 17, 18, 20, 22, 24, 26, 28, 30];
    for level in levels {
        for version in 1..=40u8 {
            assert!(lengths.contains(&get_eclength(level, version)));
        }
    }
}

#[test]
fn xor_pads_and_drops_the_lead() {
    assert_eq!(xor(&vec![1, 2, 3], &vec![1, 5]), vec![7, 3]);
    assert_eq!(xor(&vec![1, 5], &vec![1, 2, 3]), vec![7, 3]);
    assert_eq!(xor(&vec![], &vec![]), Vec::<u8>::new());
    assert_eq!(xor(&vec![9], &vec![]), Vec::<u8>::new());
    assert_eq!(xor(&vec![], &vec![4, 6, 8]), vec![6, 8]);
}

#[test]
fn xor_commutes() {
    let a = vec![3, 200, 17, 0, 255];
    let b = vec![100, 7];
    assert_eq!(xor(&a, &b), xor(&b, &a));
}

#[test]
fn divide_cancels_the_leading_coefficient() {
    // generator (x - 1)(x - 2) = x^2 + 3x + 2, by logarithms [0, 25, 1]
    let gp = vec![0, 25, 1];
    // x^2 * 5: lead 5 times the generator is [5, 15, 10]
    assert_eq!(divide(&vec![5, 0, 0], &gp), vec![15, 10]);
    // a zero lead only shifts
    assert_eq!(divide(&vec![0, 4], &gp), vec![4, 0]);
    assert_eq!(divide(&vec![0], &gp), vec![0, 0]);
}

#[test]
fn divide_matches_field_multiplication() {
    let gp = vec![0, 87, 229, 146, 149, 238, 102, 21];
    for lead in [1u8, 2, 29, 128, 255] {
        let mp = vec![lead, 3, 1, 4, 1, 5, 9, 2];
        let r = divide(&mp, &gp);
        let expected: Vec<u8> = (1..8)
            .map(|i| mp[i] ^ slow_mul(lead, GF_LOGS[gp[i] as usize]))
            .collect();
        assert_eq!(r, expected);
    }
}

#[test]
fn get_ec_of_an_empty_block_is_empty() {
    assert_eq!(get_ec(&vec![], 10), Vec::<u8>::new());
}

#[test]
fn get_ec_has_one_codeword_per_generator_degree() {
    for g in [7usize, 10, 13, 15, 16, 17, 18, 20, 22, 24, 26, 28, 30] {
        assert_eq!(get_ec(&vec![1], g).len(), g);
        assert_eq!(get_ec(&vec![5; 40], g).len(), g);
    }
}

#[test]
fn codewords_vanish_at_the_generator_roots() {
    let msg: Vec<u8> = (0..19u32).map(|i| (i * 37 + 11) as u8).collect();
    for g in [7usize, 10, 13, 15, 16, 17, 18, 20, 22, 24, 26, 28, 30] {
        let ec = get_ec(&msg, g);
        let mut codeword = msg.clone();
        codeword.extend_from_slice(&ec);
        for i in 0..g {
            assert_eq!(eval(&codeword, alpha_pow(i)), 0, "degree {} root {}", g, i);
        }
    }
}

#[test]
fn error_correction_per_block() {
    let blocks = vec![
        vec![32, 91, 11, 120, 209, 114, 220, 77, 67, 64, 236, 17, 236, 17, 236, 17],
        vec![],
        vec![1, 2, 3],
    ];
    let ecpool = error_correction(&blocks, ErrorCorrectionLevel::M, 1);
    assert_eq!(ecpool.len(), 3);
    assert_eq!(ecpool[0], vec![196, 35, 39, 119, 235, 215, 231, 226, 93, 23]);
    assert_eq!(ecpool[1], Vec::<u8>::new());
    assert_eq!(ecpool[2], get_ec(&vec![1, 2, 3], 10));
    assert!(error_correction(&vec![], ErrorCorrectionLevel::H, 40).is_empty());
}

#[test]
fn log_tables_are_inverse_powers_of_two() {
    assert_eq!(GF_LOGS[0], 1);
    for e in 0..255usize {
        assert_eq!(GF_LOGS[e], alpha_pow(e));
        assert_eq!(GF_ANTILOGS[GF_LOGS[e] as usize] as usize, e);
    }
    assert_eq!(GF_LOGS[255], 1);
    for a in 1..256usize {
        assert_eq!(GF_LOGS[GF_ANTILOGS[a] as usize] as usize, a);
    }
}

#[test]
fn serde_variants_of_levels() {
    assert_eq!(ErrorCorrectionLevel::L.serde_variant(), (0, "L"));
    assert_eq!(ErrorCorrectionLevel::M.serde_variant(), (1, "M"));
    assert_eq!(ErrorCorrectionLevel::Q.serde_variant(), (2, "Q"));
    assert_eq!(ErrorCorrectionLevel::H.serde_variant(), (3, "M"));
}

fn table_mul(a: u8, b: u8) -> u8 {
    if a == 0 || b == 0 {
        0
    } else {
        GF_LOGS[(GF_ANTILOGS[a as usize] as usize + GF_ANTILOGS[b as usize] as usize) % 255]
    }
}

#[test]
fn table_product_is_the_field_product() {
    for a in 0..=255u8 {
        for b in 0..=255u8 {
            assert_eq!(table_mul(a, b), slow_mul(a, b));
        }
    }
    // distributivity on a few values
    for (a, b, c) in [(3u8, 200u8, 17u8), (255, 1, 128), (0, 9, 9)] {
        assert_eq!(table_mul(a ^ b, c), table_mul(a, c) ^ table_mul(b, c));
    }
}

#[test]
fn a_changed_codeword_is_no_multiple() {
    let msg = vec![32, 91, 11, 120, 209, 114, 220, 77, 67, 64, 236, 17, 236, 17, 236, 17];
    let mut ec = get_ec(&msg, 10);
    ec[3] ^= 1;
    let mut codeword = msg.clone();
    codeword.extend_from_slice(&ec);
    assert!((0..10).any(|i| eval(&codeword, alpha_pow(i)) != 0));
}
