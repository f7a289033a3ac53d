//! Behaviour at the edges: determinism of decoding, inclusive and
//! overlapping range expansion, truncated input, version checks, and each
//! decode error on an input that produces it.

use lib_tcstring::Base64Error;
use lib_tcstring::TcModel;
use lib_tcstring::TcModelV1;
use lib_tcstring::TcModelV2;
use lib_tcstring::TcsError;
use lib_tcstring::VendorSet;

fn set_bits(buf: &mut [u8], start: usize, len: usize, value: u64) {
    for k in 0..len {
        if (value >> (len - 1 - k)) & 1 == 1 {
            let pos = start + k;
            buf[pos / 8] |= 1 << (7 - pos % 8);
        }
    }
}

#[test]
fn decode_is_deterministic() {
    let v1 = "BOEFEAyOEFEAyAHABDENAI4AAAB9vABAASA";
    let v2 = "COvFyGBOvFyGBAbAAAENAPCAAOAAAAAAAAAAAEEUACCKAAA";
    assert_eq!(TcModel::try_from(v1), TcModel::try_from(v1));
    assert_eq!(TcModel::try_from(v2), TcModel::try_from(v2));
}

#[test]
fn range_expansion_is_inclusive_and_collapses_overlap() {
    // A V1 string whose vendor section range-encodes [3, 5] and the
    // singleton 4: the decoded list is {3, 4, 5} with no duplicate.
    let mut buf = vec![0u8; 30];
    set_bits(&mut buf, 0, 6, 1); // version
    set_bits(&mut buf, 156, 16, 5); // max vendor ID
    set_bits(&mut buf, 172, 1, 1); // range encoding
    set_bits(&mut buf, 173, 1, 0); // allowlist
    set_bits(&mut buf, 174, 12, 2); // two entries
    set_bits(&mut buf, 186, 1, 1); // a range entry
    set_bits(&mut buf, 187, 16, 3);
    set_bits(&mut buf, 203, 16, 5);
    set_bits(&mut buf, 219, 1, 0); // a singleton entry
    set_bits(&mut buf, 220, 16, 4);
    let text = base64::encode_config(&buf, base64::URL_SAFE_NO_PAD);
    assert_eq!(
        TcModelV1::try_from(&text),
        Ok(TcModelV1 {
            created_at: 0,
            updated_at: 0,
            cmp_id: 0,
            cmp_version: 0,
            consent_screen: 0,
            consent_language: String::from("AA"),
            vendor_list_version: 0,
            purposes_consent: vec![],
            vendors: VendorSet {
                is_blocklist: false,
                list: vec![3, 4, 5],
            },
        })
    );
}

#[test]
fn truncated_v1_yields_insufficient_length() {
    // Valid base64 with version field 1, but far fewer than the 173 header
    // bits.
    assert_eq!(
        TcModelV1::try_from("BOEFEAyO"),
        Err(TcsError::InsufficientLength)
    );
}

#[test]
fn truncated_v2_core_yields_insufficient_length() {
    assert_eq!(
        TcModelV2::try_from("COvFyGBO"),
        Err(TcsError::InsufficientLength)
    );
}

#[test]
fn truncated_v2_vendor_segment_yields_insufficient_length() {
    // The optional segment "IA" decodes to one byte: a Disclosed-Vendors
    // tag with no room for the vendor block behind it.
    assert_eq!(
        TcModelV2::try_from("COvFyGBOvFyGBAbAAAENAPCAAOAAAAAAAAAAAEEUACCKAAA.IA"),
        Err(TcsError::InsufficientLength)
    );
}

#[test]
fn unknown_version_character_is_rejected() {
    assert_eq!(
        TcModel::try_from("AOEFEAyOEFEAyAHABDENAI4AAAB9vABAASA"),
        Err(TcsError::UnsupportedVersion)
    );
    assert_eq!(TcModel::try_from(""), Err(TcsError::UnsupportedVersion));
}

#[test]
fn v1_version_field_other_than_one_is_rejected() {
    // 'q' encodes the six-bit version 42; the rest is the well-formed V1
    // sample.
    assert_eq!(
        TcModelV1::try_from("qOEFEAyOEFEAyAHABDENAI4AAAB9vABAASA"),
        Err(TcsError::UnsupportedVersion)
    );
}

#[test]
fn invalid_base64_is_rejected() {
    assert!(matches!(
        TcModel::try_from("B!!!"),
        Err(TcsError::InvalidUrlSafeBase64(Base64Error::InvalidByte(_, _)))
    ));
}

#[test]
fn padded_base64_is_rejected() {
    assert!(matches!(
        TcModelV1::try_from("BOEFEAyOEFEAyAHABDENAI4AAAB9vABAASA=="),
        Err(TcsError::InvalidUrlSafeBase64(_))
    ));
}

#[test]
fn language_code_outside_alphabet_is_rejected() {
    let mut buf = vec![0u8; 22];
    set_bits(&mut buf, 0, 6, 1); // version
    set_bits(&mut buf, 108, 6, 63); // language code beyond 'Z'
    let text = base64::encode_config(&buf, base64::URL_SAFE_NO_PAD);
    assert_eq!(
        TcModelV1::try_from(&text),
        Err(TcsError::InvalidAlphabetOffset)
    );
}

#[test]
fn core_ending_between_sections_is_rejected() {
    // A 32-byte core whose first vendor section ends exactly at the
    // buffer's end, leaving no room for the two remaining sections.
    let mut buf = vec![0u8; 32];
    set_bits(&mut buf, 0, 6, 2); // version, so the text begins with 'C'
    set_bits(&mut buf, 213, 16, 26); // max vendor ID: bitmap fills the rest
    let text = base64::encode_config(&buf, base64::URL_SAFE_NO_PAD);
    assert_eq!(
        TcModelV2::try_from(&text),
        Err(TcsError::InvalidSectionDefinition)
    );
}

#[test]
fn unknown_segment_tag_is_rejected() {
    // "gA" decodes to a byte with segment type tag 4.
    assert_eq!(
        TcModelV2::try_from("COvFyGBOvFyGBAbAAAENAPCAAOAAAAAAAAAAAEEUACCKAAA.gA"),
        Err(TcsError::InvalidSegmentDefinition)
    );
}

#[test]
fn empty_segment_is_rejected() {
    assert_eq!(
        TcModelV2::try_from("COvFyGBOvFyGBAbAAAENAPCAAOAAAAAAAAAAAEEUACCKAAA."),
        Err(TcsError::InsufficientLength)
    );
}

#[test]
fn error_messages_name_each_kind() {
    assert_eq!(
        TcsError::InsufficientLength.message(),
        "ERR_INSUFFICIENT_LENGTH"
    );
    assert_eq!(
        TcsError::UnsupportedVersion.message(),
        "ERR_UNSUPPORTED_VERSION"
    );
    assert_eq!(
        TcsError::InvalidUrlSafeBase64(Base64Error::InvalidLength).message(),
        "ERR_INVALID_URL_SAFE_BASE64"
    );
    assert_eq!(
        TcsError::InvalidAlphabetOffset.message(),
        "ERR_INVALID_ALPHABET_OFFSET"
    );
    assert_eq!(
        TcsError::InvalidSectionDefinition.message(),
        "ERR_INVALID_SECTION_DEFINITION"
    );
    assert_eq!(
        TcsError::InvalidSegmentDefinition.message(),
        "ERR_INVALID_SEGMENT_DEFINITION"
    );
    assert_eq!(
        TcsError::UnexpectedRangeSection.message(),
        "ERR_UNEXPECTED_RANGE_SECTION"
    );
}
