pub use crate::bit_matrix::BitMatrix;
pub use crate::ec::ErrorCorrectionLevel;
pub use crate::encode::EncodeMode;
pub use crate::qr::QrMatrix;
