//! The closed set of decode failure kinds. Every failure is surfaced to the
//! caller as a typed result; no partial record is ever returned.

use vstd::prelude::*;

verus! {

/// The text of `TcsError::InsufficientLength`.
pub const INSUFFICIENT_LENGTH: &'static str = "ERR_INSUFFICIENT_LENGTH";

/// The text of `TcsError::UnsupportedVersion`.
pub const UNSUPPORTED_VERSION: &'static str = "ERR_UNSUPPORTED_VERSION";

/// The text of `TcsError::InvalidUrlSafeBase64`.
pub const INVALID_URL_SAFE_BASE64: &'static str = "ERR_INVALID_URL_SAFE_BASE64";

/// The text of `TcsError::InvalidAlphabetOffset`.
pub const INVALID_ALPHABET_OFFSET: &'static str = "ERR_INVALID_ALPHABET_OFFSET";

/// The text of `TcsError::InvalidSectionDefinition`.
pub const INVALID_SECTION_DEFINITION: &'static str = "ERR_INVALID_SECTION_DEFINITION";

/// The text of `TcsError::InvalidSegmentDefinition`.
pub const INVALID_SEGMENT_DEFINITION: &'static str = "ERR_INVALID_SEGMENT_DEFINITION";

/// The text of `TcsError::UnexpectedRangeSection`.
pub const UNEXPECTED_RANGE_SECTION: &'static str = "ERR_UNEXPECTED_RANGE_SECTION";

/// The reason a buffer was not valid URL-safe base64, mirroring the failure
/// reported by the base64 decoder: the offending offset and byte for an
/// invalid or nonsensical symbol, or an input of invalid length.
#[derive(Clone, Copy, Debug, PartialEq, Eq, Structural, Hash)]
pub enum Base64Error {
    /// An invalid byte was found in the input, at the given offset.
    InvalidByte(usize, u8),
    /// The length of the input is not a possible base64 length.
    InvalidLength,
    /// The last symbol's encoded bits have nonzero bits that would be
    /// discarded, at the given offset.
    InvalidLastSymbol(usize, u8),
}

/// Errors that can occur while decoding a TC string.
#[derive(Clone, Copy, Debug, PartialEq, Eq, Structural, Hash)]
pub enum TcsError {
    /// The TC string doesn't have enough bits for a field or section.
    InsufficientLength,
    /// The TC string carries an invalid or unsupported version.
    UnsupportedVersion,
    /// The TC string isn't valid URL-safe base64.
    InvalidUrlSafeBase64(Base64Error),
    /// A decoded character code lies outside the A-Z alphabet.
    InvalidAlphabetOffset,
    /// The TC string contains an invalid section definition.
    InvalidSectionDefinition,
    /// The TC string contains an invalid segment definition.
    InvalidSegmentDefinition,
    /// A vendor segment decoded to an unexpected range section kind.
    UnexpectedRangeSection,
}

impl TcsError {
    /// The error's name: the fixed text that describes each kind of decode
    /// failure.
    pub fn message(&self) -> (r: &'static str)
        ensures
            r == match self {
                TcsError::InsufficientLength => INSUFFICIENT_LENGTH,
                TcsError::UnsupportedVersion => UNSUPPORTED_VERSION,
                TcsError::InvalidUrlSafeBase64(_) => INVALID_URL_SAFE_BASE64,
                TcsError::InvalidAlphabetOffset => INVALID_ALPHABET_OFFSET,
                TcsError::InvalidSectionDefinition => INVALID_SECTION_DEFINITION,
                TcsError::InvalidSegmentDefinition => INVALID_SEGMENT_DEFINITION,
                TcsError::UnexpectedRangeSection => UNEXPECTED_RANGE_SECTION,
            },
    {
        match self {
            TcsError::InsufficientLength => INSUFFICIENT_LENGTH,
            TcsError::UnsupportedVersion => UNSUPPORTED_VERSION,
            TcsError::InvalidUrlSafeBase64(_) => INVALID_URL_SAFE_BASE64,
            TcsError::InvalidAlphabetOffset => INVALID_ALPHABET_OFFSET,
            TcsError::InvalidSectionDefinition => INVALID_SECTION_DEFINITION,
            TcsError::InvalidSegmentDefinition => INVALID_SEGMENT_DEFINITION,
            TcsError::UnexpectedRangeSection => UNEXPECTED_RANGE_SECTION,
        }
    }
}

} // verus!
