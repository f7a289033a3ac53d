//! The decoder's one external collaborator: URL-safe base64 decoding of
//! text into raw bytes, treated as a pure function at its interface.

use vstd::prelude::*;
use vstd::utf8::encode_utf8;
use crate::error::Base64Error;

verus! {

/// What URL-safe, unpadded base64 decoding yields on a byte buffer: the
/// decoded bytes, or the reason the buffer is not valid base64.
pub uninterp spec fn base64url_decoded(input: Seq<u8>) -> Result<Seq<u8>, Base64Error>;

/// Relies on base64::decode_config with the URL_SAFE_NO_PAD config: URL-safe
/// alphabet, no padding accepted; the result depends on the input bytes
/// alone. The length guard keeps clear of the decoder's buffer-size
/// calculation, which cannot exceed the address space.
#[verifier::external_body]
pub(crate) fn base64url_decode(input: &[u8]) -> (r: Result<Vec<u8>, Base64Error>)
    requires
        input@.len() + 3 <= usize::MAX,
    ensures
        match r {
            Ok(bytes) => base64url_decoded(input@) == Ok::<Seq<u8>, Base64Error>(bytes@),
            Err(e) => base64url_decoded(input@) == Err::<Seq<u8>, Base64Error>(e),
        },
{
    match base64::decode_config(input, base64::URL_SAFE_NO_PAD) {
        Ok(bytes) => Ok(bytes),
        Err(base64::DecodeError::InvalidByte(offset, byte)) => Err(
            Base64Error::InvalidByte(offset, byte),
        ),
        Err(base64::DecodeError::InvalidLength) => Err(Base64Error::InvalidLength),
        Err(base64::DecodeError::InvalidLastSymbol(offset, byte)) => Err(
            Base64Error::InvalidLastSymbol(offset, byte),
        ),
    }
}

/// A character encodes to at most four UTF-8 bytes, so a text's byte length
/// is at most four times its character count.
pub proof fn lemma_encode_utf8_len(chars: Seq<char>)
    ensures
        encode_utf8(chars).len() <= 4 * chars.len(),
    decreases chars.len(),
{
    if chars.len() == 0 {
    } else {
        lemma_encode_utf8_len(chars.drop_first());
        assert(vstd::utf8::encode_scalar(chars[0] as u32).len() <= 4);
    }
}

} // verus!
