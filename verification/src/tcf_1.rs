//! The V1 assembler: decodes a V1 consent string from a single buffer.
//!
//! Wire layout of the fixed header, offsets in bits: version 6@0,
//! created 36@6, updated 36@42, CMP ID 12@78, CMP version 12@90,
//! consent screen 6@102, language 12@108, vendor list version 12@120,
//! purposes bitmap 24@132, max vendor ID 16@156, encoding selector 1@172.
//! With selector 0 a vendor bitmap of max-vendor-ID bits follows at 173;
//! with selector 1 a blocklist bit at 173 and a range section at 174.

use vstd::prelude::*;
use vstd::utf8::encode_utf8;
use crate::b64::base64url_decode;
use crate::b64::base64url_decoded;
use crate::b64::lemma_encode_utf8_len;
use crate::error::TcsError;
use crate::model::TcModelV1;
use crate::model::TcModelV1View;
use crate::model::VendorSet;
use crate::util::bit_at;
use crate::util::bit_val;
use crate::util::bitfield_set_u8;
use crate::util::bits_value;
use crate::util::byte_list_bit_boundary_check;
use crate::util::id_list_matches_u16;
use crate::util::id_list_matches_u8;
use crate::util::lemma_ascending_listing_unique_u16;
use crate::util::lemma_ascending_listing_unique_u8;
use crate::util::lemma_bits_value_bound;
use crate::util::parse_from_bytes;
use crate::util::parse_string_from_bytes;
use crate::util::parse_u16_bitfield_from_bytes;
use crate::util::parse_u8_bitfield_from_bytes;
use crate::util::parse_vendor_range_from_bytes;
use crate::util::spec_parse_string;
use crate::util::spec_parse_u16_bitfield;
use crate::util::spec_parse_u8_bitfield;
use crate::util::spec_parse_vendor_range;

verus! {

/// The content a V1 buffer encodes, with each ID collection as the set of
/// IDs it holds.
pub ghost struct V1Fields {
    /// Raw creation timestamp.
    pub created_at: u64,
    /// Raw update timestamp.
    pub updated_at: u64,
    /// CMP ID.
    pub cmp_id: u16,
    /// CMP version.
    pub cmp_version: u16,
    /// Consent screen number.
    pub consent_screen: u8,
    /// Language code characters.
    pub consent_language: Seq<char>,
    /// Vendor list version.
    pub vendor_list_version: u16,
    /// The permitted purpose IDs.
    pub purposes_consent: Set<u8>,
    /// Whether the vendor list is a blocklist.
    pub is_blocklist: bool,
    /// The vendor IDs.
    pub vendors: Set<u16>,
}

/// What the vendor block at bit 172 encodes: a flat bitmap of max-vendor-ID
/// flags when the selector bit is 0 (never a blocklist), or a blocklist bit
/// and a range section when it is 1.
pub open spec fn spec_v1_vendors(b: Seq<u8>) -> Result<(bool, Set<u16>), TcsError> {
    if !bit_at(b, 172) {
        match spec_parse_u16_bitfield(b, 173, bits_value(b, 156, 16) as int) {
            Ok(s) => Ok((false, s)),
            Err(e) => Err(e),
        }
    } else {
        match spec_parse_vendor_range(b, 174) {
            Ok(p) => Ok((bit_at(b, 173), p.0)),
            Err(e) => Err(e),
        }
    }
}

/// What a V1 buffer decodes to, version field aside: the fixed header must
/// fit, the language code must be alphabetic, and the vendor block must fit.
pub open spec fn spec_v1_from_bytes(b: Seq<u8>) -> Result<V1Fields, TcsError> {
    if b.len() * 8 < 173 {
        Err(TcsError::InsufficientLength)
    } else {
        match spec_parse_string(b, 108, 6, 2) {
            Err(e) => Err(e),
            Ok(lang) => match spec_v1_vendors(b) {
                Err(e) => Err(e),
                Ok(v) => Ok(
                    V1Fields {
                        created_at: bits_value(b, 6, 36) as u64,
                        updated_at: bits_value(b, 42, 36) as u64,
                        cmp_id: bits_value(b, 78, 12) as u16,
                        cmp_version: bits_value(b, 90, 12) as u16,
                        consent_screen: bits_value(b, 102, 6) as u8,
                        consent_language: lang,
                        vendor_list_version: bits_value(b, 120, 12) as u16,
                        purposes_consent: bitfield_set_u8(b, 132, 24),
                        is_blocklist: v.0,
                        vendors: v.1,
                    },
                ),
            },
        }
    }
}

/// What a V1 byte buffer decodes to: its version field, bits 0 to 5, must
/// hold 1, and then the buffer decodes as `spec_v1_from_bytes` says.
pub open spec fn spec_v1_decode_bytes(b: Seq<u8>) -> Result<V1Fields, TcsError> {
    if b.len() * 8 < 6 {
        Err(TcsError::InsufficientLength)
    } else if bits_value(b, 0, 6) != 1 {
        Err(TcsError::UnsupportedVersion)
    } else {
        spec_v1_from_bytes(b)
    }
}

/// What a V1 text decodes to: the text is base64url-decoded as a whole, and
/// the bytes decode as `spec_v1_decode_bytes` says.
pub open spec fn spec_v1_decode(s: Seq<char>) -> Result<V1Fields, TcsError> {
    match base64url_decoded(encode_utf8(s)) {
        Err(e) => Err(TcsError::InvalidUrlSafeBase64(e)),
        Ok(b) => spec_v1_decode_bytes(b),
    }
}

/// A decoded V1 record carries exactly the encoded content: scalar fields
/// as decoded, and each ID set as its strictly ascending listing.
pub open spec fn v1_matches(m: TcModelV1View, f: V1Fields) -> bool {
    &&& m.created_at == f.created_at
    &&& m.updated_at == f.updated_at
    &&& m.cmp_id == f.cmp_id
    &&& m.cmp_version == f.cmp_version
    &&& m.consent_screen == f.consent_screen
    &&& m.consent_language == f.consent_language
    &&& m.vendor_list_version == f.vendor_list_version
    &&& id_list_matches_u8(m.purposes_consent, f.purposes_consent)
    &&& m.vendors.is_blocklist == f.is_blocklist
    &&& id_list_matches_u16(m.vendors.list, f.vendors)
}

impl TcModelV1 {
    /// Decodes a V1 record from an already base64url-decoded buffer; the
    /// version field is not checked here.
    pub fn try_from_vec(val: Vec<u8>) -> (r: Result<TcModelV1, TcsError>)
        ensures
            match r {
                Ok(m) => spec_v1_from_bytes(val@) matches Ok(f) && v1_matches(m@, f),
                Err(e) => spec_v1_from_bytes(val@) == Err::<V1Fields, TcsError>(e),
            },
    {
        let s = val.as_slice();
        byte_list_bit_boundary_check(s, 173)?;
        proof {
            assert(val@.len() * 8 >= 176) by (nonlinear_arith)
                requires
                    val@.len() * 8 >= 173,
            ;
            lemma_bits_value_bound(val@, 6, 36);
            lemma_bits_value_bound(val@, 42, 36);
            lemma_bits_value_bound(val@, 78, 12);
            lemma_bits_value_bound(val@, 90, 12);
            lemma_bits_value_bound(val@, 102, 6);
            lemma_bits_value_bound(val@, 120, 12);
            lemma_bits_value_bound(val@, 156, 16);
            vstd::arithmetic::power2::lemma2_to64();
            vstd::arithmetic::power2::lemma2_to64_rest();
        }
        let max_vendor_id = parse_from_bytes(s, 156, 16);
        let created_at = parse_from_bytes(s, 6, 36);
        let updated_at = parse_from_bytes(s, 42, 36);
        let cmp_id = parse_from_bytes(s, 78, 12) as u16;
        let cmp_version = parse_from_bytes(s, 90, 12) as u16;
        let consent_screen = parse_from_bytes(s, 102, 6) as u8;
        let consent_language = parse_string_from_bytes(s, 108, 6, 2)?;
        let vendor_list_version = parse_from_bytes(s, 120, 12) as u16;
        let purposes_consent = parse_u8_bitfield_from_bytes(s, 132, 24)?;
        proof {
            assert(bits_value(val@, 172, 0) == 0 && bits_value(val@, 173, 0) == 0);
            assert(bits_value(val@, 172, 1) == bit_val(val@, 172));
            assert(bits_value(val@, 173, 1) == bit_val(val@, 173));
        }
        let vendors = if parse_from_bytes(s, 172, 1) == 0 {
            let list = parse_u16_bitfield_from_bytes(s, 173, max_vendor_id as usize)?;
            VendorSet { is_blocklist: false, list }
        } else {
            let section = parse_vendor_range_from_bytes(s, 174)?;
            VendorSet { is_blocklist: parse_from_bytes(s, 173, 1) == 1, list: section.list }
        };
        Ok(
            TcModelV1 {
                created_at,
                updated_at,
                cmp_id,
                cmp_version,
                consent_screen,
                consent_language,
                vendor_list_version,
                purposes_consent,
                vendors,
            },
        )
    }

    /// Decodes a V1 record from consent-string text: base64url decoding of
    /// the whole text, a version check on bits 0 to 5, then the assembly of
    /// `try_from_vec`. The length bound is a machine limit: the text's UTF-8
    /// form must leave the decoder's length calculation inside `usize`.
    pub fn try_from(val: &str) -> (r: Result<TcModelV1, TcsError>)
        requires
            4 * val@.len() + 3 <= usize::MAX,
        ensures
            match r {
                Ok(m) => spec_v1_decode(val@) matches Ok(f) && v1_matches(m@, f),
                Err(e) => spec_v1_decode(val@) == Err::<V1Fields, TcsError>(e),
            },
    {
        proof {
            lemma_encode_utf8_len(val@);
        }
        match base64url_decode(val.as_bytes()) {
            Err(err) => Err(TcsError::InvalidUrlSafeBase64(err)),
            Ok(decoded_bytes) => {
                byte_list_bit_boundary_check(decoded_bytes.as_slice(), 6)?;
                if parse_from_bytes(decoded_bytes.as_slice(), 0, 6) != 1 {
                    return Err(TcsError::UnsupportedVersion);
                }
                Self::try_from_vec(decoded_bytes)
            },
        }
    }
}

/// Decoding is deterministic: one buffer content admits exactly one record,
/// because an ID set has exactly one strictly ascending listing. Two records
/// that both carry the same decoded content are structurally equal.
pub proof fn lemma_v1_decode_deterministic(m1: TcModelV1View, m2: TcModelV1View, f: V1Fields)
    requires
        v1_matches(m1, f),
        v1_matches(m2, f),
    ensures
        m1 == m2,
{
    lemma_ascending_listing_unique_u8(m1.purposes_consent, m2.purposes_consent);
    lemma_ascending_listing_unique_u16(m1.vendors.list, m2.vendors.list);
}

/// Truncating a buffer below the 173 bits of the fixed V1 header yields
/// `InsufficientLength`, for any buffer whose version field still reads 1
/// (or is itself cut off), never a partial record.
pub proof fn lemma_v1_short_buffer_rejected(b: Seq<u8>)
    requires
        b.len() * 8 < 173,
        b.len() * 8 < 6 || bits_value(b, 0, 6) == 1,
    ensures
        spec_v1_decode_bytes(b) == Err::<V1Fields, TcsError>(TcsError::InsufficientLength),
{
}

/// A V1 buffer whose version field, bits 0 to 5, is not 1 is rejected with
/// `UnsupportedVersion`, however well-formed the rest may be.
pub proof fn lemma_v1_wrong_version_rejected(b: Seq<u8>)
    requires
        b.len() * 8 >= 6,
        bits_value(b, 0, 6) != 1,
    ensures
        spec_v1_decode_bytes(b) == Err::<V1Fields, TcsError>(TcsError::UnsupportedVersion),
{
}

} // verus!
