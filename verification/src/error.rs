use vstd::prelude::*;

verus! {

/// Failure conditions of encoding and decoding, always returned as values.
#[derive(Debug, Clone, PartialEq, Eq)]
pub enum Error {
    /// A byte length that no size class can represent.
    LengthOverflow,
    /// Encoding refused: the text's byte length exceeds the largest size class.
    StringTooLong,
    /// The byte read as a marker belongs to no size class of this value kind;
    /// the offending byte is carried for diagnostics.
    InvalidTypeMarker { marker: u8 },
    /// The extracted payload bytes are not valid UTF-8.
    DeserializationError { detail: String },
    /// The cursor holds fewer bytes than the marker, size field or payload requires.
    CursorUnderflow,
}

} // verus!
