use qr_encoder::bit_matrix::BitMatrix;
use qr_encoder::ec::ErrorCorrectionLevel;
use qr_encoder::encode::EncodeMode;
use qr_encoder::qr::QrMatrix;

fn sample_rows() -> Vec<Vec<bool>> {
    vec![
        vec![true, false, true],
        vec![false, false, true],
    ]
}

#[test]
fn from_rows_keeps_the_cells() {
    let m = BitMatrix::from_rows(&sample_rows()).unwrap();
    assert_eq!(m.nrows(), 2);
    assert_eq!(m.ncols(), 3);
    assert!(m.get(0, 0));
    assert!(!m.get(0, 1));
    assert!(!m.get(1, 0));
    assert!(m.get(1, 2));
    assert_eq!(m.to_rows(), sample_rows());
}

#[test]
fn from_rows_refuses_ragged_rows() {
    assert!(BitMatrix::from_rows(&vec![vec![true], vec![true, false]]).is_none());
}

#[test]
fn from_rows_of_nothing() {
    let m = BitMatrix::from_rows(&vec![]).unwrap();
    assert_eq!(m.nrows(), 0);
    assert_eq!(m.to_rows(), Vec::<Vec<bool>>::new());
}

#[test]
fn to_01_vec_marks_dark_modules() {
    let qr = QrMatrix {
        version: 1,
        encode_mode: EncodeMode::Byte,
        error_correction_level: ErrorCorrectionLevel::Q,
        matrix: BitMatrix::from_rows(&sample_rows()).unwrap(),
    };
    assert_eq!(qr.to_01_vec(), vec![vec![1, 0, 1], vec![0, 0, 1]]);
}

#[test]
fn serde_variants_of_modes() {
    assert_eq!(EncodeMode::Numeric.serde_variant(), (0, "Numeric"));
    assert_eq!(EncodeMode::Alphanumeric.serde_variant(), (1, "Alphanumeric"));
    assert_eq!(EncodeMode::Byte.serde_variant(), (2, "Byte"));
    assert_eq!(EncodeMode::Kanji.serde_variant(), (3, "Kanji"));
}
