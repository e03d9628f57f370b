use vstd::prelude::*;

verus! {

/// The mode in which the text of a QR code is encoded.
#[derive(Clone, Copy, Debug, PartialEq, Eq)]
pub enum EncodeMode {
    Numeric,
    Alphanumeric,
    Byte,
    Kanji,
}

impl EncodeMode {
    /// The index and the name of the variant that serialization writes for the mode.
    pub fn serde_variant(&self) -> (r: (u32, &'static str))
        ensures
            r == (match *self {
                EncodeMode::Numeric => (0u32, "Numeric"),
                EncodeMode::Alphanumeric => (1u32, "Alphanumeric"),
                EncodeMode::Byte => (2u32, "Byte"),
                EncodeMode::Kanji => (3u32, "Kanji"),
            }),
    {
        match *self {
            EncodeMode::Numeric => (0, "Numeric"),
            EncodeMode::Alphanumeric => (1, "Alphanumeric"),
            EncodeMode::Byte => (2, "Byte"),
            EncodeMode::Kanji => (3, "Kanji"),
        }
    }
}

} // verus!
