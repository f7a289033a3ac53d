//! The V2 assembler: decodes the core segment of a V2 consent string plus
//! zero or more optional segments into one merged record.
//!
//! Wire layout of the core's fixed header, offsets in bits: version 6@0,
//! created 36@6, updated 36@42, CMP ID 12@78, CMP version 12@90, consent
//! screen 6@102, language 12@108, vendor list version 12@120, policy
//! version 6@132, service-specific 1@138, non-standard stacks 1@139,
//! special features bitmap 12@140, purposes bitmap 24@152, purposes LI
//! bitmap 24@176, purpose-one treatment 1@200, country code 12@201. Three
//! sections follow at bit 213, each resuming at the previous section's end:
//! vendor consents, vendor LI consents (both polymorphic bitmap-or-range
//! blocks), and the publisher restrictions.

use vstd::prelude::*;
use crate::b64::base64url_decoded;
use crate::error::TcsError;
use vstd::utf8::encode_utf8;
use crate::model::PublisherRestriction;
use crate::model::PublisherTc;
use crate::model::TcSegment;
use crate::model::TcModelV2;
use crate::model::TcModelV2View;
use crate::model::PublisherRestrictionType;
use crate::model::PublisherRestrictionView;
use crate::util::bit_at;
use crate::util::bit_val;
use crate::util::bitfield_set_u8;
use crate::util::bits_value;
use crate::util::byte_list_bit_boundary_check;
use crate::util::id_list_matches_u16;
use crate::util::id_list_matches_u8;
use crate::util::lemma_ascending_listing_unique_u16;
use crate::util::lemma_ascending_listing_unique_u8;
use crate::util::lemma_bits_value_bound;
use crate::util::parse_from_bytes;
use crate::util::parse_string_from_bytes;
use crate::util::parse_u16_bitfield_from_bytes;
use crate::util::parse_u8_bitfield_from_bytes;
use crate::util::parse_vendor_range_from_bytes;
use crate::util::spec_parse_string;
use crate::util::spec_parse_u16_bitfield;
use crate::util::spec_parse_vendor_range;

verus! {

/// What a polymorphic vendor block encodes: a 16-bit max vendor ID, a
/// one-bit selector, then either a flat bitmap of max-vendor-ID flags
/// (selector 0) or a range section (selector 1), together with the bit
/// offset just past the block.
pub open spec fn spec_vendor_block(b: Seq<u8>, start: int) -> Result<(Set<u16>, int), TcsError> {
    if b.len() * 8 < start + 17 {
        Err(TcsError::InsufficientLength)
    } else {
        let max_id = bits_value(b, start, 16) as int;
        if !bit_at(b, start + 16) {
            match spec_parse_u16_bitfield(b, start + 17, max_id) {
                Ok(s) => Ok((s, start + 17 + max_id)),
                Err(e) => Err(e),
            }
        } else {
            spec_parse_vendor_range(b, start + 17)
        }
    }
}

/// The restriction kind a two-bit code denotes; unmapped codes become
/// `Undefined`, not an error.
pub open spec fn spec_restriction_type(code: nat) -> PublisherRestrictionType {
    if code == 0 {
        PublisherRestrictionType::NotAllowed
    } else if code == 1 {
        PublisherRestrictionType::RequireConsent
    } else if code == 2 {
        PublisherRestrictionType::RequireLegitimateInterest
    } else {
        PublisherRestrictionType::Undefined
    }
}

/// The content one publisher restriction encodes, with its vendor list as
/// the set of IDs it holds.
pub ghost struct RestrictionFields {
    /// ID of the restricted purpose.
    pub purpose_id: u8,
    /// The restriction kind.
    pub restriction_type: PublisherRestrictionType,
    /// The vendors the restriction applies to.
    pub vendors: Set<u16>,
}

/// What decoding `n` publisher-restriction entries starting at `idx`
/// yields: per entry a 6-bit purpose ID, a 2-bit restriction-type code, and
/// an embedded range section (with no leading max-ID or selector), each
/// entry resuming at the previous one's end.
pub open spec fn spec_restriction_entries(b: Seq<u8>, idx: int, n: nat) -> Result<
    (Seq<RestrictionFields>, int),
    TcsError,
>
    decreases n,
{
    if n == 0 {
        Ok((Seq::<RestrictionFields>::empty(), idx))
    } else if b.len() * 8 < idx + 8 {
        Err(TcsError::InsufficientLength)
    } else {
        match spec_parse_vendor_range(b, idx + 8) {
            Err(e) => Err(e),
            Ok(p) => {
                let entry = RestrictionFields {
                    purpose_id: bits_value(b, idx, 6) as u8,
                    restriction_type: spec_restriction_type(bits_value(b, idx + 6, 2)),
                    vendors: p.0,
                };
                match spec_restriction_entries(b, p.1, (n - 1) as nat) {
                    Err(e) => Err(e),
                    Ok(q) => Ok((seq![entry] + q.0, q.1)),
                }
            },
        }
    }
}

/// What the publisher-restrictions section encodes: a 12-bit entry count at
/// `start`, then that many restriction entries.
pub open spec fn spec_parse_publisher_restrictions(b: Seq<u8>, start: int) -> Result<
    (Seq<RestrictionFields>, int),
    TcsError,
> {
    if b.len() * 8 < start + 12 {
        Err(TcsError::InsufficientLength)
    } else {
        spec_restriction_entries(b, start + 12, bits_value(b, start, 12))
    }
}

/// A decoded restriction carries exactly the encoded entry: scalar fields
/// as decoded and the vendor list as its strictly ascending listing.
pub open spec fn restriction_matches(r: PublisherRestrictionView, f: RestrictionFields) -> bool {
    &&& r.purpose_id == f.purpose_id
    &&& r.restriction_type == f.restriction_type
    &&& id_list_matches_u16(r.vendor_list, f.vendors)
}

/// A decoded restriction list carries exactly the encoded entries, in wire
/// order.
pub open spec fn restrictions_match(
    rs: Seq<PublisherRestrictionView>,
    fs: Seq<RestrictionFields>,
) -> bool {
    rs.len() == fs.len() && forall|i: int|
        0 <= i < rs.len() ==> restriction_matches(#[trigger] rs[i], fs[i])
}

/// The decoder's progress through the restrictions section: the entries
/// gathered so far together with what remains at `idx` determine the whole
/// section's result.
pub open spec fn restriction_suffix_ok(
    b: Seq<u8>,
    start: int,
    n: nat,
    acc: Seq<RestrictionFields>,
    idx: int,
    rem: nat,
) -> bool {
    match spec_restriction_entries(b, idx, rem) {
        Ok((fs, e)) => spec_restriction_entries(b, start, n) == Ok::<
            (Seq<RestrictionFields>, int),
            TcsError,
        >((acc + fs, e)),
        Err(e) => spec_restriction_entries(b, start, n) == Err::<
            (Seq<RestrictionFields>, int),
            TcsError,
        >(e),
    }
}

/// Decodes one polymorphic vendor block and hands back the vendor list and
/// the bit offset just past the block. The bound on
/// `bit_start` is a machine limit: the section's largest possible extent
/// must stay inside `usize`.
fn parse_vendor_block(val: &[u8], bit_start: usize) -> (r: Result<(Vec<u16>, usize), TcsError>)
    requires
        bit_start + 200000 <= usize::MAX,
    ensures
        match r {
            Ok(p) => spec_vendor_block(val@, bit_start as int) matches Ok(q)
                && id_list_matches_u16(p.0@, q.0) && p.1 == q.1 && bit_start + 17 <= p.1
                <= bit_start + 17 + 135147,
            Err(e) => spec_vendor_block(val@, bit_start as int) == Err::<
                (Set<u16>, int),
                TcsError,
            >(e),
        },
{
    byte_list_bit_boundary_check(val, bit_start + 17)?;
    proof {
        lemma_bits_value_bound(val@, bit_start as int, 16);
        vstd::arithmetic::power2::lemma2_to64();
        assert(bits_value(val@, bit_start + 16, 0) == 0);
        assert(bits_value(val@, bit_start + 16, 1) == bit_val(val@, bit_start + 16));
    }
    let max_vendor_id = parse_from_bytes(val, bit_start, 16);
    if parse_from_bytes(val, bit_start + 16, 1) == 0 {
        let list = parse_u16_bitfield_from_bytes(val, bit_start + 17, max_vendor_id as usize)?;
        Ok((list, bit_start + 17 + max_vendor_id as usize))
    } else {
        let section = parse_vendor_range_from_bytes(val, bit_start + 17)?;
        Ok((section.list, section.last_bit))
    }
}

/// Decodes the publisher-restrictions section starting at `bit_start`: a
/// 12-bit count, then per entry a 6-bit purpose ID, a 2-bit restriction
/// type and an embedded range-encoded vendor list. Returns the entries in
/// wire order and the bit offset just past the section. The bound on
/// `bit_start` is a machine limit: the section's largest possible extent
/// must stay inside `usize`.
pub fn parse_publisher_restrictions_from_bytes(val: &[u8], bit_start: usize) -> (r: Result<
    (Vec<PublisherRestriction>, usize),
    TcsError,
>)
    requires
        bit_start + 560000000 <= usize::MAX,
    ensures
        match r {
            Ok(p) => spec_parse_publisher_restrictions(val@, bit_start as int) matches Ok(q)
                && restrictions_match(
                p.0@.map_values(|x: PublisherRestriction| x@),
                q.0,
            ) && p.1 == q.1 && bit_start + 12 <= p.1 <= bit_start + 12 + 4095 * 135155,
            Err(e) => spec_parse_publisher_restrictions(val@, bit_start as int) == Err::<
                (Seq<RestrictionFields>, int),
                TcsError,
            >(e),
        },
{
    byte_list_bit_boundary_check(val, bit_start + 12)?;
    proof {
        lemma_bits_value_bound(val@, bit_start as int, 12);
        vstd::arithmetic::power2::lemma2_to64();
    }
    let restriction_count = parse_from_bytes(val, bit_start, 12) as u16;
    let mut publisher_restrictions: Vec<PublisherRestriction> = Vec::new();
    let mut index: u16 = 0;
    let mut bit_index: usize = bit_start + 12;
    let ghost mut acc_fields = Seq::<RestrictionFields>::empty();
    proof {
        assert(publisher_restrictions@.map_values(|x: PublisherRestriction| x@)
            =~= Seq::<PublisherRestrictionView>::empty());
        let n = restriction_count as nat;
        if spec_restriction_entries(val@, bit_start + 12, n) is Ok {
            let p = spec_restriction_entries(val@, bit_start + 12, n)->Ok_0;
            assert(acc_fields + p.0 =~= p.0);
        }
    }
    while index < restriction_count
        invariant
            0 <= index <= restriction_count,
            restriction_count < 4096,
            restriction_count == bits_value(val@, bit_start as int, 12),
            bit_start + 560000000 <= usize::MAX,
            bit_start + 12 <= bit_index,
            bit_index <= bit_start + 12 + 135155 * (index as int),
            restrictions_match(
                publisher_restrictions@.map_values(|x: PublisherRestriction| x@),
                acc_fields,
            ),
            restriction_suffix_ok(
                val@,
                bit_start + 12,
                restriction_count as nat,
                acc_fields,
                bit_index as int,
                (restriction_count - index) as nat,
            ),
        decreases restriction_count - index,
    {
        let ghost old_idx = bit_index as int;
        let ghost old_acc = acc_fields;
        byte_list_bit_boundary_check(val, bit_index + 8)?;
        proof {
            lemma_bits_value_bound(val@, old_idx, 6);
            vstd::arithmetic::power2::lemma2_to64();
        }
        let purpose_id = parse_from_bytes(val, bit_index, 6) as u8;
        let restriction_code = parse_from_bytes(val, bit_index + 6, 2);
        let restriction_type = if restriction_code == 0 {
            PublisherRestrictionType::NotAllowed
        } else if restriction_code == 1 {
            PublisherRestrictionType::RequireConsent
        } else if restriction_code == 2 {
            PublisherRestrictionType::RequireLegitimateInterest
        } else {
            PublisherRestrictionType::Undefined
        };
        let section = parse_vendor_range_from_bytes(val, bit_index + 8)?;
        let ghost entry_fields = RestrictionFields {
            purpose_id: bits_value(val@, old_idx, 6) as u8,
            restriction_type: spec_restriction_type(bits_value(val@, old_idx + 6, 2)),
            vendors: spec_parse_vendor_range(val@, old_idx + 8)->Ok_0.0,
        };
        let ghost prev_views = publisher_restrictions@.map_values(|x: PublisherRestriction| x@);
        publisher_restrictions.push(
            PublisherRestriction { purpose_id, restriction_type, vendor_list: section.list },
        );
        proof {
            acc_fields = acc_fields + seq![entry_fields];
            assert(publisher_restrictions@.map_values(|x: PublisherRestriction| x@)
                =~= prev_views.push(publisher_restrictions@.last()@));
            assert(restriction_matches(publisher_restrictions@.last()@, entry_fields));
            assert(restrictions_match(
                publisher_restrictions@.map_values(|x: PublisherRestriction| x@),
                acc_fields,
            ));
        }
        bit_index = section.last_bit;
        index = index + 1;
        proof {
            let rem = (restriction_count - index) as nat;
            if spec_restriction_entries(val@, bit_index as int, rem) is Ok {
                let q = spec_restriction_entries(val@, bit_index as int, rem)->Ok_0;
                assert(old_acc + (seq![entry_fields] + q.0) =~= (old_acc + seq![entry_fields])
                    + q.0);
            }
        }
    }
    proof {
        assert(spec_restriction_entries(val@, bit_index as int, 0) == Ok::<
            (Seq<RestrictionFields>, int),
            TcsError,
        >((Seq::<RestrictionFields>::empty(), bit_index as int)));
        assert(acc_fields + Seq::<RestrictionFields>::empty() =~= acc_fields);
    }
    Ok((publisher_restrictions, bit_index))
}


/// The decoded content of the three core sections that follow the fixed
/// header, and the bit offset just past them.
pub ghost struct CoreSectionFields {
    /// The vendors with consent.
    pub vendor_consents: Set<u16>,
    /// The vendors with "Legitimate Interest" disclosures.
    pub vendor_li_consents: Set<u16>,
    /// The publisher restrictions, in wire order.
    pub publisher_restrictions: Seq<RestrictionFields>,
    /// The bit offset just past the third section.
    pub last_bit: int,
}

/// What the three core sections encode, in fixed order, each resuming at
/// the previous section's end: vendor consents, vendor LI consents, and
/// publisher restrictions. A buffer that runs out before all three begin
/// has an invalid section definition.
pub open spec fn spec_core_sections(b: Seq<u8>, start: int) -> Result<
    CoreSectionFields,
    TcsError,
> {
    if start >= b.len() * 8 {
        Err(TcsError::InvalidSectionDefinition)
    } else {
        match spec_vendor_block(b, start) {
            Err(e) => Err(e),
            Ok((vc, e1)) => {
                if e1 >= b.len() * 8 {
                    Err(TcsError::InvalidSectionDefinition)
                } else {
                    match spec_vendor_block(b, e1) {
                        Err(e) => Err(e),
                        Ok((vli, e2)) => {
                            if e2 >= b.len() * 8 {
                                Err(TcsError::InvalidSectionDefinition)
                            } else {
                                match spec_parse_publisher_restrictions(b, e2) {
                                    Err(e) => Err(e),
                                    Ok((rs, e3)) => Ok(
                                        CoreSectionFields {
                                            vendor_consents: vc,
                                            vendor_li_consents: vli,
                                            publisher_restrictions: rs,
                                            last_bit: e3,
                                        },
                                    ),
                                }
                            }
                        },
                    }
                }
            },
        }
    }
}

/// The three decoded core sections: the vendor lists, the publisher
/// restrictions, and the bit offset just past them.
pub struct CoreSections {
    /// The vendors with consent, strictly ascending.
    pub vendor_consents: Vec<u16>,
    /// The vendors with "Legitimate Interest" disclosures, strictly
    /// ascending.
    pub vendor_li_consents: Vec<u16>,
    /// The publisher restrictions, in wire order.
    pub publisher_restrictions: Vec<PublisherRestriction>,
    /// The bit offset just past the third section.
    pub last_bit: usize,
}

/// A decoded section group carries exactly the encoded content of the
/// three core sections.
pub open spec fn core_sections_match(c: CoreSections, f: CoreSectionFields) -> bool {
    &&& id_list_matches_u16(c.vendor_consents@, f.vendor_consents)
    &&& id_list_matches_u16(c.vendor_li_consents@, f.vendor_li_consents)
    &&& restrictions_match(
        c.publisher_restrictions@.map_values(|x: PublisherRestriction| x@),
        f.publisher_restrictions,
    )
    &&& c.last_bit == f.last_bit
}

/// Decodes the three core sections in fixed order starting at `bit_start`,
/// each section resuming at the previous section's end offset. The bound on
/// `bit_start` is a machine limit: the section's largest possible extent
/// must stay inside `usize`.
pub fn parse_range_sections_from_bytes(val: &[u8], bit_start: usize) -> (r: Result<
    CoreSections,
    TcsError,
>)
    requires
        bit_start + 600000000 <= usize::MAX,
    ensures
        match r {
            Ok(c) => spec_core_sections(val@, bit_start as int) matches Ok(f)
                && core_sections_match(c, f),
            Err(e) => spec_core_sections(val@, bit_start as int) == Err::<
                CoreSectionFields,
                TcsError,
            >(e),
        },
{
    if byte_list_bit_boundary_check(val, bit_start + 1).is_err() {
        return Err(TcsError::InvalidSectionDefinition);
    }
    let (vendor_consents, end_1) = parse_vendor_block(val, bit_start)?;
    if byte_list_bit_boundary_check(val, end_1 + 1).is_err() {
        return Err(TcsError::InvalidSectionDefinition);
    }
    let (vendor_li_consents, end_2) = parse_vendor_block(val, end_1)?;
    if byte_list_bit_boundary_check(val, end_2 + 1).is_err() {
        return Err(TcsError::InvalidSectionDefinition);
    }
    let (publisher_restrictions, last_bit) = parse_publisher_restrictions_from_bytes(
        val,
        end_2,
    )?;
    Ok(CoreSections { vendor_consents, vendor_li_consents, publisher_restrictions, last_bit })
}

/// The content a "Publisher TC" segment encodes, with each bitmap as the
/// set of IDs it holds.
pub ghost struct PublisherTcFields {
    /// Publisher purposes established on consent.
    pub publisher_purposes_consent: Set<u8>,
    /// Publisher purposes established on "Legitimate Interest".
    pub publisher_purposes_li_transparency: Set<u8>,
    /// Custom publisher purposes established on consent.
    pub custom_purposes_consent: Set<u8>,
    /// Custom publisher purposes established on "Legitimate Interest".
    pub custom_purposes_li_transparency: Set<u8>,
}

/// What a "Publisher TC" segment encodes past its type tag: a 24-bit
/// purposes bitmap, a 24-bit purposes LI bitmap, a 6-bit custom-purpose
/// count, and, only when that count is positive, two count-bit custom
/// bitmaps.
pub open spec fn spec_parse_publisher_tc(b: Seq<u8>, start: int) -> Result<
    PublisherTcFields,
    TcsError,
> {
    if b.len() * 8 < start + 54 {
        Err(TcsError::InsufficientLength)
    } else {
        let cnt = bits_value(b, start + 48, 6) as int;
        if cnt > 0 && b.len() * 8 < start + 54 + cnt {
            Err(TcsError::InsufficientLength)
        } else if cnt > 0 && b.len() * 8 < start + 54 + 2 * cnt {
            Err(TcsError::InsufficientLength)
        } else {
            Ok(
                PublisherTcFields {
                    publisher_purposes_consent: bitfield_set_u8(b, start, 24),
                    publisher_purposes_li_transparency: bitfield_set_u8(b, start + 24, 24),
                    custom_purposes_consent: if cnt > 0 {
                        bitfield_set_u8(b, start + 54, cnt)
                    } else {
                        Set::<u8>::empty()
                    },
                    custom_purposes_li_transparency: if cnt > 0 {
                        bitfield_set_u8(b, start + 54 + cnt, cnt)
                    } else {
                        Set::<u8>::empty()
                    },
                },
            )
        }
    }
}

/// A decoded "Publisher TC" payload carries exactly the encoded bitmaps,
/// each as its strictly ascending listing.
pub open spec fn publisher_tc_matches(p: PublisherTc, f: PublisherTcFields) -> bool {
    &&& id_list_matches_u8(p.publisher_purposes_consent@, f.publisher_purposes_consent)
    &&& id_list_matches_u8(
        p.publisher_purposes_li_transparency@,
        f.publisher_purposes_li_transparency,
    )
    &&& id_list_matches_u8(p.custom_purposes_consent@, f.custom_purposes_consent)
    &&& id_list_matches_u8(p.custom_purposes_li_transparency@, f.custom_purposes_li_transparency)
}

/// Decodes a "Publisher TC" segment's payload starting at `bit_start`. The bound on
/// `bit_start` is a machine limit: the section's largest possible extent
/// must stay inside `usize`.
pub fn parse_publisher_tc_from_bytes(val: &[u8], bit_start: usize) -> (r: Result<
    PublisherTc,
    TcsError,
>)
    requires
        bit_start + 200 <= usize::MAX,
    ensures
        match r {
            Ok(p) => spec_parse_publisher_tc(val@, bit_start as int) matches Ok(f)
                && publisher_tc_matches(p, f),
            Err(e) => spec_parse_publisher_tc(val@, bit_start as int) == Err::<
                PublisherTcFields,
                TcsError,
            >(e),
        },
{
    byte_list_bit_boundary_check(val, bit_start + 54)?;
    proof {
        lemma_bits_value_bound(val@, bit_start + 48, 6);
        vstd::arithmetic::power2::lemma2_to64();
    }
    let custom_purposes_count = parse_from_bytes(val, bit_start + 48, 6) as usize;
    let publisher_purposes_consent = parse_u8_bitfield_from_bytes(val, bit_start, 24)?;
    let publisher_purposes_li_transparency = parse_u8_bitfield_from_bytes(
        val,
        bit_start + 24,
        24,
    )?;
    let custom_purposes_consent = if custom_purposes_count > 0 {
        parse_u8_bitfield_from_bytes(val, bit_start + 54, custom_purposes_count)?
    } else {
        Vec::new()
    };
    let custom_purposes_li_transparency = if custom_purposes_count > 0 {
        parse_u8_bitfield_from_bytes(
            val,
            bit_start + 54 + custom_purposes_count,
            custom_purposes_count,
        )?
    } else {
        Vec::new()
    };
    proof {
        assert(Seq::<u8>::empty().to_set() =~= Set::<u8>::empty());
    }
    Ok(
        PublisherTc {
            publisher_purposes_consent,
            publisher_purposes_li_transparency,
            custom_purposes_consent,
            custom_purposes_li_transparency,
        },
    )
}


/// The content the optional segments encode, each field present exactly
/// when a segment of its type occurred.
pub ghost struct SegmentFields {
    /// The disclosed vendors, when a Disclosed-Vendors segment occurred.
    pub disclosed_vendors: Option<Set<u16>>,
    /// The allowed vendors, when an Allowed-Vendors segment occurred.
    pub allowed_vendors: Option<Set<u16>>,
    /// The publisher-TC payload, when a Publisher-TC segment occurred.
    pub publisher_tc: Option<PublisherTcFields>,
}

/// What one optional segment encodes: its first three bits are a type tag,
/// 1 for Disclosed Vendors, 2 for Allowed Vendors, 3 for Publisher TC; any
/// other tag is an invalid segment definition. Vendor segments hold a
/// polymorphic vendor block at bit 3, the Publisher-TC segment its payload
/// at bit 3.
pub open spec fn spec_parse_segment(b: Seq<u8>) -> Result<SegmentFields, TcsError> {
    if b.len() * 8 < 3 {
        Err(TcsError::InsufficientLength)
    } else {
        let tag = bits_value(b, 0, 3);
        if tag == 1 {
            match spec_vendor_block(b, 3) {
                Ok(p) => Ok(
                    SegmentFields {
                        disclosed_vendors: Some(p.0),
                        allowed_vendors: None,
                        publisher_tc: None,
                    },
                ),
                Err(e) => Err(e),
            }
        } else if tag == 2 {
            match spec_vendor_block(b, 3) {
                Ok(p) => Ok(
                    SegmentFields {
                        disclosed_vendors: None,
                        allowed_vendors: Some(p.0),
                        publisher_tc: None,
                    },
                ),
                Err(e) => Err(e),
            }
        } else if tag == 3 {
            match spec_parse_publisher_tc(b, 3) {
                Ok(p) => Ok(
                    SegmentFields {
                        disclosed_vendors: None,
                        allowed_vendors: None,
                        publisher_tc: Some(p),
                    },
                ),
                Err(e) => Err(e),
            }
        } else {
            Err(TcsError::InvalidSegmentDefinition)
        }
    }
}

/// No segment of any type.
pub open spec fn segment_fields_empty() -> SegmentFields {
    SegmentFields { disclosed_vendors: None, allowed_vendors: None, publisher_tc: None }
}

/// Merges an earlier segment state with what later segments produced: a
/// later segment of a given type overwrites an earlier one.
pub open spec fn merge_segments(first: SegmentFields, rest: SegmentFields) -> SegmentFields {
    SegmentFields {
        disclosed_vendors: if rest.disclosed_vendors is Some {
            rest.disclosed_vendors
        } else {
            first.disclosed_vendors
        },
        allowed_vendors: if rest.allowed_vendors is Some {
            rest.allowed_vendors
        } else {
            first.allowed_vendors
        },
        publisher_tc: if rest.publisher_tc is Some {
            rest.publisher_tc
        } else {
            first.publisher_tc
        },
    }
}

/// What a run of optional segments encodes, in order, with a later segment
/// of a type overwriting an earlier one; the first failing segment's error
/// surfaces.
pub open spec fn spec_parse_segments(bufs: Seq<Seq<u8>>) -> Result<SegmentFields, TcsError>
    decreases bufs.len(),
{
    if bufs.len() == 0 {
        Ok(segment_fields_empty())
    } else {
        match spec_parse_segment(bufs[0]) {
            Err(e) => Err(e),
            Ok(first) => match spec_parse_segments(bufs.drop_first()) {
                Err(e) => Err(e),
                Ok(rest) => Ok(merge_segments(first, rest)),
            },
        }
    }
}

/// A decoded segment carrier holds exactly the encoded optional-segment
/// content: each field present exactly when its segment occurred, vendor
/// lists as strictly ascending listings.
pub open spec fn segments_match(t: TcSegment, f: SegmentFields) -> bool {
    &&& match t.disclosed_vendors {
        Some(l) => f.disclosed_vendors is Some && id_list_matches_u16(
            l@,
            f.disclosed_vendors->0,
        ),
        None => f.disclosed_vendors is None,
    }
    &&& match t.allowed_vendors {
        Some(l) => f.allowed_vendors is Some && id_list_matches_u16(l@, f.allowed_vendors->0),
        None => f.allowed_vendors is None,
    }
    &&& match t.publisher_tc {
        Some(p) => f.publisher_tc is Some && publisher_tc_matches(p, f.publisher_tc->0),
        None => f.publisher_tc is None,
    }
}

/// Decodes one vendor segment's polymorphic vendor block at `bit_start`,
/// handing back only the vendor list. The bound on
/// `bit_start` is a machine limit: the section's largest possible extent
/// must stay inside `usize`.
pub fn parse_vendor_segment_from_bytes(val: &[u8], bit_start: usize) -> (r: Result<
    Vec<u16>,
    TcsError,
>)
    requires
        bit_start + 200000 <= usize::MAX,
    ensures
        match r {
            Ok(l) => spec_vendor_block(val@, bit_start as int) matches Ok(q)
                && id_list_matches_u16(l@, q.0),
            Err(e) => spec_vendor_block(val@, bit_start as int) == Err::<
                (Set<u16>, int),
                TcsError,
            >(e),
        },
{
    let (list, _) = parse_vendor_block(val, bit_start)?;
    Ok(list)
}

/// Classifies and decodes every optional segment by its three-bit type
/// tag, merging them so that a later segment of a type overwrites an
/// earlier one.
pub fn parse_tc_segments_from_slice(val: &[Vec<u8>]) -> (r: Result<TcSegment, TcsError>)
    ensures
        match r {
            Ok(t) => spec_parse_segments(val.deep_view()) matches Ok(f) && segments_match(t, f),
            Err(e) => spec_parse_segments(val.deep_view()) == Err::<SegmentFields, TcsError>(e),
        },
{
    let mut tc_segment = TcSegment {
        disclosed_vendors: None,
        allowed_vendors: None,
        publisher_tc: None,
    };
    let ghost mut acc_fields = segment_fields_empty();
    let mut idx: usize = 0;
    proof {
        assert(val.deep_view().skip(0) =~= val.deep_view());
        if spec_parse_segments(val.deep_view()) is Ok {
            let f = spec_parse_segments(val.deep_view())->Ok_0;
            assert(merge_segments(acc_fields, f) == f);
        }
    }
    while idx < val.len()
        invariant
            0 <= idx <= val@.len(),
            val.deep_view().len() == val@.len(),
            segments_match(tc_segment, acc_fields),
            match spec_parse_segments(val.deep_view().skip(idx as int)) {
                Ok(rest) => spec_parse_segments(val.deep_view()) == Ok::<
                    SegmentFields,
                    TcsError,
                >(merge_segments(acc_fields, rest)),
                Err(e) => spec_parse_segments(val.deep_view()) == Err::<
                    SegmentFields,
                    TcsError,
                >(e),
            },
        decreases val@.len() - idx,
    {
        let ghost old_acc = acc_fields;
        let ghost remaining = val.deep_view().skip(idx as int);
        proof {
            assert(remaining[0] == val.deep_view()[idx as int]);
            assert(remaining.drop_first() =~= val.deep_view().skip(idx as int + 1));
        }
        let segment_bytes: &[u8] = val[idx].as_slice();
        proof {
            assert(segment_bytes@ == val.deep_view()[idx as int]);
            assert(bits_value(segment_bytes@, 0, 0) == 0);
            assert(bits_value(segment_bytes@, 0, 1) == bit_val(segment_bytes@, 0));
            assert(bits_value(segment_bytes@, 0, 2) == 2 * bit_val(segment_bytes@, 0) + bit_val(
                segment_bytes@,
                1,
            ));
        }
        byte_list_bit_boundary_check(segment_bytes, 3)?;
        let tag = parse_from_bytes(segment_bytes, 0, 3);
        if tag == 1 {
            let list = parse_vendor_segment_from_bytes(segment_bytes, 3)?;
            tc_segment.disclosed_vendors = Some(list);
            proof {
                acc_fields = SegmentFields {
                    disclosed_vendors: spec_parse_segment(remaining[0])->Ok_0.disclosed_vendors,
                    ..old_acc
                };
            }
        } else if tag == 2 {
            let list = parse_vendor_segment_from_bytes(segment_bytes, 3)?;
            tc_segment.allowed_vendors = Some(list);
            proof {
                acc_fields = SegmentFields {
                    allowed_vendors: spec_parse_segment(remaining[0])->Ok_0.allowed_vendors,
                    ..old_acc
                };
            }
        } else if tag == 3 {
            let publisher_tc = parse_publisher_tc_from_bytes(segment_bytes, 3)?;
            tc_segment.publisher_tc = Some(publisher_tc);
            proof {
                acc_fields = SegmentFields {
                    publisher_tc: spec_parse_segment(remaining[0])->Ok_0.publisher_tc,
                    ..old_acc
                };
            }
        } else {
            return Err(TcsError::InvalidSegmentDefinition);
        }
        proof {
            let one = spec_parse_segment(remaining[0])->Ok_0;
            assert(acc_fields == merge_segments(old_acc, one));
            if spec_parse_segments(remaining.drop_first()) is Ok {
                let rest = spec_parse_segments(remaining.drop_first())->Ok_0;
                assert(merge_segments(old_acc, merge_segments(one, rest)) == merge_segments(
                    merge_segments(old_acc, one),
                    rest,
                ));
            }
        }
        idx = idx + 1;
    }
    proof {
        assert(val.deep_view().skip(idx as int) =~= Seq::<Seq<u8>>::empty());
        assert(merge_segments(acc_fields, segment_fields_empty()) == acc_fields);
    }
    Ok(tc_segment)
}


/// The vendor set an optional segment produced, or the empty set where the
/// segment was absent.
pub open spec fn segment_set_or_empty(o: Option<Set<u16>>) -> Set<u16> {
    match o {
        Some(s) => s,
        None => Set::<u16>::empty(),
    }
}

/// The publisher-TC payload the optional segment produced, or empty
/// bitmaps where the segment was absent.
pub open spec fn publisher_tc_or_empty(o: Option<PublisherTcFields>) -> PublisherTcFields {
    match o {
        Some(p) => p,
        None => PublisherTcFields {
            publisher_purposes_consent: Set::<u8>::empty(),
            publisher_purposes_li_transparency: Set::<u8>::empty(),
            custom_purposes_consent: Set::<u8>::empty(),
            custom_purposes_li_transparency: Set::<u8>::empty(),
        },
    }
}

/// The content a V2 string encodes, with each ID collection as the set of
/// IDs it holds.
pub ghost struct V2Fields {
    /// Creation time in epoch milliseconds.
    pub created_at: u64,
    /// Update time in epoch milliseconds.
    pub updated_at: u64,
    /// CMP ID.
    pub cmp_id: u16,
    /// CMP version.
    pub cmp_version: u16,
    /// Consent screen number.
    pub consent_screen: u8,
    /// Language code characters.
    pub consent_language: Seq<char>,
    /// Vendor list version.
    pub vendor_list_version: u16,
    /// TCF policy version.
    pub tcf_policy_version: u16,
    /// Service-specific flag.
    pub is_service_specific: bool,
    /// Non-standard stacks flag.
    pub use_non_standard_stacks: bool,
    /// The opted-in special features.
    pub special_feature_opt_ins: Set<u8>,
    /// The allowed purposes.
    pub purposes_consent: Set<u8>,
    /// The allowed "Legitimate Interest" purposes.
    pub purposes_li_transparency: Set<u8>,
    /// Purpose-one treatment flag.
    pub purpose_one_treatment: bool,
    /// Country code characters.
    pub publisher_country_code: Seq<char>,
    /// The vendors with consent.
    pub vendor_consents: Set<u16>,
    /// The vendors with "Legitimate Interest" disclosures.
    pub vendor_li_consents: Set<u16>,
    /// The publisher restrictions, in wire order.
    pub publisher_restrictions: Seq<RestrictionFields>,
    /// The disclosed vendors; empty where the segment was absent.
    pub disclosed_vendors: Set<u16>,
    /// The allowed vendors; empty where the segment was absent.
    pub allowed_vendors: Set<u16>,
    /// Publisher purposes on consent; empty where the segment was absent.
    pub publisher_purposes_consent: Set<u8>,
    /// Publisher purposes on LI; empty where the segment was absent.
    pub publisher_purposes_li_transparency: Set<u8>,
    /// Custom purposes on consent; empty where the segment was absent.
    pub custom_purposes_consent: Set<u8>,
    /// Custom purposes on LI; empty where the segment was absent.
    pub custom_purposes_li_transparency: Set<u8>,
}

/// What a run of already base64url-decoded buffers decodes to: the first
/// buffer is the core segment and must hold the 213-bit fixed header, its
/// three sections must decode, every further buffer is an optional
/// segment, both letter codes must be alphabetic, and the optional
/// segments' content defaults to empty where a segment is absent. The raw
/// 36-bit timestamps are scaled by 100 to epoch milliseconds.
pub open spec fn spec_v2_from_bufs(bufs: Seq<Seq<u8>>) -> Result<V2Fields, TcsError>
    recommends
        bufs.len() >= 1,
{
    let core = bufs[0];
    if core.len() * 8 < 213 {
        Err(TcsError::InsufficientLength)
    } else {
        match spec_core_sections(core, 213) {
            Err(e) => Err(e),
            Ok(cs) => match spec_parse_segments(bufs.drop_first()) {
                Err(e) => Err(e),
                Ok(seg) => match spec_parse_string(core, 108, 6, 2) {
                    Err(e) => Err(e),
                    Ok(lang) => match spec_parse_string(core, 201, 6, 2) {
                        Err(e) => Err(e),
                        Ok(country) => {
                            let ptc = publisher_tc_or_empty(seg.publisher_tc);
                            Ok(
                                V2Fields {
                                    created_at: (bits_value(core, 6, 36) * 100) as u64,
                                    updated_at: (bits_value(core, 42, 36) * 100) as u64,
                                    cmp_id: bits_value(core, 78, 12) as u16,
                                    cmp_version: bits_value(core, 90, 12) as u16,
                                    consent_screen: bits_value(core, 102, 6) as u8,
                                    consent_language: lang,
                                    vendor_list_version: bits_value(core, 120, 12) as u16,
                                    tcf_policy_version: bits_value(core, 132, 6) as u16,
                                    is_service_specific: bit_at(core, 138),
                                    use_non_standard_stacks: bit_at(core, 139),
                                    special_feature_opt_ins: bitfield_set_u8(core, 140, 12),
                                    purposes_consent: bitfield_set_u8(core, 152, 24),
                                    purposes_li_transparency: bitfield_set_u8(core, 176, 24),
                                    purpose_one_treatment: bit_at(core, 200),
                                    publisher_country_code: country,
                                    vendor_consents: cs.vendor_consents,
                                    vendor_li_consents: cs.vendor_li_consents,
                                    publisher_restrictions: cs.publisher_restrictions,
                                    disclosed_vendors: segment_set_or_empty(
                                        seg.disclosed_vendors,
                                    ),
                                    allowed_vendors: segment_set_or_empty(seg.allowed_vendors),
                                    publisher_purposes_consent: ptc.publisher_purposes_consent,
                                    publisher_purposes_li_transparency:
                                        ptc.publisher_purposes_li_transparency,
                                    custom_purposes_consent: ptc.custom_purposes_consent,
                                    custom_purposes_li_transparency:
                                        ptc.custom_purposes_li_transparency,
                                },
                            )
                        },
                    },
                },
            },
        }
    }
}

/// A decoded V2 record carries exactly the encoded content: scalar fields
/// as decoded, and each ID collection as its strictly ascending listing.
pub open spec fn v2_matches(m: TcModelV2View, f: V2Fields) -> bool {
    &&& m.created_at == f.created_at
    &&& m.updated_at == f.updated_at
    &&& m.cmp_id == f.cmp_id
    &&& m.cmp_version == f.cmp_version
    &&& m.consent_screen == f.consent_screen
    &&& m.consent_language == f.consent_language
    &&& m.vendor_list_version == f.vendor_list_version
    &&& m.tcf_policy_version == f.tcf_policy_version
    &&& m.is_service_specific == f.is_service_specific
    &&& m.use_non_standard_stacks == f.use_non_standard_stacks
    &&& id_list_matches_u8(m.special_feature_opt_ins, f.special_feature_opt_ins)
    &&& id_list_matches_u8(m.purposes_consent, f.purposes_consent)
    &&& id_list_matches_u8(m.purposes_li_transparency, f.purposes_li_transparency)
    &&& m.purpose_one_treatment == f.purpose_one_treatment
    &&& m.publisher_country_code == f.publisher_country_code
    &&& id_list_matches_u16(m.vendor_consents, f.vendor_consents)
    &&& id_list_matches_u16(m.vendor_li_consents, f.vendor_li_consents)
    &&& restrictions_match(m.publisher_restrictions, f.publisher_restrictions)
    &&& id_list_matches_u16(m.disclosed_vendors, f.disclosed_vendors)
    &&& id_list_matches_u16(m.allowed_vendors, f.allowed_vendors)
    &&& id_list_matches_u8(m.publisher_purposes_consent, f.publisher_purposes_consent)
    &&& id_list_matches_u8(
        m.publisher_purposes_li_transparency,
        f.publisher_purposes_li_transparency,
    )
    &&& id_list_matches_u8(m.custom_purposes_consent, f.custom_purposes_consent)
    &&& id_list_matches_u8(m.custom_purposes_li_transparency, f.custom_purposes_li_transparency)
}

impl TcModelV2 {
    /// Assembles a V2 record from already base64url-decoded buffers: the
    /// core segment first, then the optional segments. The core segment's
    /// presence is the one obligation put on the caller.
    pub fn try_from_vec(val: Vec<Vec<u8>>) -> (r: Result<TcModelV2, TcsError>)
        requires
            val@.len() >= 1,
        ensures
            match r {
                Ok(m) => spec_v2_from_bufs(val.deep_view()) matches Ok(f) && v2_matches(m@, f),
                Err(e) => spec_v2_from_bufs(val.deep_view()) == Err::<V2Fields, TcsError>(e),
            },
    {
        let core_segment: &[u8] = val[0].as_slice();
        proof {
            assert(core_segment@ == val.deep_view()[0]);
        }
        byte_list_bit_boundary_check(core_segment, 213)?;
        proof {
            lemma_bits_value_bound(core_segment@, 6, 36);
            lemma_bits_value_bound(core_segment@, 42, 36);
            lemma_bits_value_bound(core_segment@, 78, 12);
            lemma_bits_value_bound(core_segment@, 90, 12);
            lemma_bits_value_bound(core_segment@, 102, 6);
            lemma_bits_value_bound(core_segment@, 120, 12);
            lemma_bits_value_bound(core_segment@, 132, 6);
            vstd::arithmetic::power2::lemma2_to64();
            vstd::arithmetic::power2::lemma2_to64_rest();
            assert(bits_value(core_segment@, 138, 0) == 0 && bits_value(core_segment@, 139, 0)
                == 0 && bits_value(core_segment@, 200, 0) == 0);
            assert(bits_value(core_segment@, 138, 1) == bit_val(core_segment@, 138));
            assert(bits_value(core_segment@, 139, 1) == bit_val(core_segment@, 139));
            assert(bits_value(core_segment@, 200, 1) == bit_val(core_segment@, 200));
        }
        let core_sections = parse_range_sections_from_bytes(core_segment, 213)?;
        let rest_segments: &[Vec<u8>] = vstd::slice::slice_subrange(
            val.as_slice(),
            1,
            val.len(),
        );
        proof {
            assert forall|i: int|
                0 <= i < rest_segments@.len() implies rest_segments.deep_view()[i]
                == val.deep_view().drop_first()[i] by {
                assert(rest_segments@[i] == val@[i + 1]);
            }
            assert(rest_segments.deep_view() =~= val.deep_view().drop_first());
        }
        let segments = parse_tc_segments_from_slice(rest_segments)?;
        let consent_language = parse_string_from_bytes(core_segment, 108, 6, 2)?;
        let publisher_country_code = parse_string_from_bytes(core_segment, 201, 6, 2)?;
        let created_at = parse_from_bytes(core_segment, 6, 36) * 100;
        let updated_at = parse_from_bytes(core_segment, 42, 36) * 100;
        let cmp_id = parse_from_bytes(core_segment, 78, 12) as u16;
        let cmp_version = parse_from_bytes(core_segment, 90, 12) as u16;
        let consent_screen = parse_from_bytes(core_segment, 102, 6) as u8;
        let vendor_list_version = parse_from_bytes(core_segment, 120, 12) as u16;
        let tcf_policy_version = parse_from_bytes(core_segment, 132, 6) as u16;
        let is_service_specific = parse_from_bytes(core_segment, 138, 1) == 1;
        let use_non_standard_stacks = parse_from_bytes(core_segment, 139, 1) == 1;
        let special_feature_opt_ins = parse_u8_bitfield_from_bytes(core_segment, 140, 12)?;
        let purposes_consent = parse_u8_bitfield_from_bytes(core_segment, 152, 24)?;
        let purposes_li_transparency = parse_u8_bitfield_from_bytes(core_segment, 176, 24)?;
        let purpose_one_treatment = parse_from_bytes(core_segment, 200, 1) == 1;
        let disclosed_vendors = match segments.disclosed_vendors {
            Some(l) => l,
            None => Vec::new(),
        };
        let allowed_vendors = match segments.allowed_vendors {
            Some(l) => l,
            None => Vec::new(),
        };
        let publisher_segment = match segments.publisher_tc {
            Some(p) => p,
            None => PublisherTc::default(),
        };
        proof {
            assert(Seq::<u8>::empty().to_set() =~= Set::<u8>::empty());
            assert(Seq::<u16>::empty().to_set() =~= Set::<u16>::empty());
        }
        Ok(
            TcModelV2 {
                created_at,
                updated_at,
                cmp_id,
                cmp_version,
                consent_screen,
                consent_language,
                vendor_list_version,
                tcf_policy_version,
                is_service_specific,
                use_non_standard_stacks,
                special_feature_opt_ins,
                purposes_consent,
                purposes_li_transparency,
                purpose_one_treatment,
                publisher_country_code,
                vendor_consents: core_sections.vendor_consents,
                vendor_li_consents: core_sections.vendor_li_consents,
                publisher_restrictions: core_sections.publisher_restrictions,
                disclosed_vendors,
                allowed_vendors,
                publisher_purposes_consent: publisher_segment.publisher_purposes_consent,
                publisher_purposes_li_transparency:
                    publisher_segment.publisher_purposes_li_transparency,
                custom_purposes_consent: publisher_segment.custom_purposes_consent,
                custom_purposes_li_transparency:
                    publisher_segment.custom_purposes_li_transparency,
            },
        )
    }
}


/// The position of the first `.` in the text, or the text's length when it
/// has none.
pub open spec fn dot_index(s: Seq<char>) -> int
    decreases s.len(),
{
    if s.len() == 0 {
        0
    } else if s[0] == '.' {
        0
    } else {
        1 + dot_index(s.drop_first())
    }
}

/// `dot_index` finds the first dot: nothing before it is a dot, and it is
/// a dot unless the text has none and it is the text's length.
pub proof fn lemma_dot_index(s: Seq<char>)
    ensures
        0 <= dot_index(s) <= s.len(),
        dot_index(s) < s.len() ==> s[dot_index(s)] == '.',
        forall|j: int| 0 <= j < dot_index(s) ==> s[j] != '.',
    decreases s.len(),
{
    if s.len() == 0 || s[0] == '.' {
    } else {
        lemma_dot_index(s.drop_first());
        assert forall|j: int| 0 <= j < dot_index(s) implies s[j] != '.' by {
            if j > 0 {
                assert(s.drop_first()[j - 1] == s[j]);
            }
        }
        if dot_index(s) < s.len() {
            assert(s[dot_index(s)] == s.drop_first()[dot_index(s.drop_first())]);
        }
    }
}

/// The text split on `.`: the piece before the first dot, then the split of
/// what follows that dot; a text without a dot is one piece. Empty pieces
/// are kept.
pub open spec fn spec_split_dots(s: Seq<char>) -> Seq<Seq<char>>
    decreases s.len(),
{
    if !(0 <= dot_index(s) < s.len()) {
        seq![s]
    } else {
        seq![s.take(dot_index(s))] + spec_split_dots(s.skip(dot_index(s) + 1))
    }
}

/// Splits the text on `.` into its pieces, in order.
fn split_dots<'a>(s: &'a str) -> (r: Vec<&'a str>)
    ensures
        r@.map_values(|t: &str| t@) == spec_split_dots(s@),
        r@.len() >= 1,
        forall|k: int| 0 <= k < r@.len() ==> (#[trigger] r@[k])@.len() <= s@.len(),
{
    let text_len = s.unicode_len();
    let mut parts: Vec<&'a str> = Vec::new();
    let mut seg_start: usize = 0;
    let mut i: usize = 0;
    proof {
        assert(s@.skip(0) =~= s@);
        assert(parts@.map_values(|t: &str| t@) + spec_split_dots(s@) =~= spec_split_dots(s@));
    }
    while i < text_len
        invariant
            0 <= seg_start <= i <= text_len,
            text_len == s@.len(),
            forall|j: int| seg_start <= j < i ==> s@[j] != '.',
            forall|k: int| 0 <= k < parts@.len() ==> (#[trigger] parts@[k])@.len() <= s@.len(),
            spec_split_dots(s@) == parts@.map_values(|t: &str| t@) + spec_split_dots(
                s@.skip(seg_start as int),
            ),
        decreases text_len - i,
    {
        if s.get_char(i) == '.' {
            let piece = s.substring_char(seg_start, i);
            let ghost suffix = s@.skip(seg_start as int);
            proof {
                lemma_dot_index(suffix);
                assert forall|j: int| 0 <= j < i - seg_start implies suffix[j] != '.' by {
                    assert(suffix[j] == s@[seg_start + j]);
                }
                assert(suffix[i - seg_start] == '.');
                if dot_index(suffix) < i - seg_start {
                    assert(suffix[dot_index(suffix)] != '.');
                }
                assert(dot_index(suffix) == i - seg_start);
                assert(piece@ =~= suffix.take(i - seg_start));
                assert(suffix.skip(i - seg_start + 1) =~= s@.skip(i + 1));
                let old_parts = parts@.map_values(|t: &str| t@);
                assert(spec_split_dots(suffix) == seq![piece@] + spec_split_dots(s@.skip(i + 1)));
                assert(old_parts + (seq![piece@] + spec_split_dots(s@.skip(i + 1)))
                    =~= (old_parts + seq![piece@]) + spec_split_dots(s@.skip(i + 1)));
            }
            let ghost prev_views = parts@.map_values(|t: &str| t@);
            parts.push(piece);
            proof {
                assert(parts@.map_values(|t: &str| t@) =~= prev_views + seq![piece@]);
            }
            seg_start = i + 1;
        }
        i = i + 1;
    }
    let piece = s.substring_char(seg_start, text_len);
    let ghost suffix = s@.skip(seg_start as int);
    proof {
        lemma_dot_index(suffix);
        assert forall|j: int| 0 <= j < suffix.len() implies suffix[j] != '.' by {
            assert(suffix[j] == s@[seg_start + j]);
        }
        if dot_index(suffix) < suffix.len() {
            assert(suffix[dot_index(suffix)] != '.');
        }
        assert(dot_index(suffix) == suffix.len());
        assert(spec_split_dots(suffix) == seq![suffix]);
        assert(piece@ =~= suffix);
        let old_parts = parts@.map_values(|t: &str| t@);
        assert(old_parts + seq![suffix] =~= old_parts.push(piece@));
    }
    let ghost prev_views = parts@.map_values(|t: &str| t@);
    parts.push(piece);
    proof {
        assert(parts@.map_values(|t: &str| t@) =~= prev_views.push(piece@));
    }
    parts
}


/// What base64url-decoding every `.`-separated piece yields: an empty
/// piece is a hard error, a piece that is not valid base64 surfaces the
/// wrapped decode failure, and the first failing piece's error wins.
pub open spec fn spec_decode_parts(parts: Seq<Seq<char>>) -> Result<Seq<Seq<u8>>, TcsError>
    decreases parts.len(),
{
    if parts.len() == 0 {
        Ok(Seq::<Seq<u8>>::empty())
    } else if parts[0].len() == 0 {
        Err(TcsError::InsufficientLength)
    } else {
        match base64url_decoded(encode_utf8(parts[0])) {
            Err(e) => Err(TcsError::InvalidUrlSafeBase64(e)),
            Ok(b) => match spec_decode_parts(parts.drop_first()) {
                Err(e) => Err(e),
                Ok(rest) => Ok(seq![b] + rest),
            },
        }
    }
}

/// What a V2 text decodes to: it must begin with the version character
/// `C`, each `.`-separated piece must base64url-decode, and the buffers
/// then decode as `spec_v2_from_bufs` says.
pub open spec fn spec_v2_decode(s: Seq<char>) -> Result<V2Fields, TcsError> {
    if s.len() == 0 || s[0] != 'C' {
        Err(TcsError::UnsupportedVersion)
    } else {
        match spec_decode_parts(spec_split_dots(s)) {
            Err(e) => Err(e),
            Ok(bufs) => spec_v2_from_bufs(bufs),
        }
    }
}

impl TcModelV2 {
    /// Decodes a V2 record from consent-string text: a check of the
    /// version character, the split on `.`, base64url decoding of every
    /// piece, then the assembly of `try_from_vec`. The length bound is a
    /// machine limit: the text's UTF-8 form must leave the base64
    /// decoder's length calculation inside `usize`.
    pub fn try_from(val: &str) -> (r: Result<TcModelV2, TcsError>)
        requires
            4 * val@.len() + 3 <= usize::MAX,
        ensures
            match r {
                Ok(m) => spec_v2_decode(val@) matches Ok(f) && v2_matches(m@, f),
                Err(e) => spec_v2_decode(val@) == Err::<V2Fields, TcsError>(e),
            },
    {
        if val.unicode_len() == 0 {
            return Err(TcsError::UnsupportedVersion);
        }
        if val.get_char(0) != 'C' {
            return Err(TcsError::UnsupportedVersion);
        }
        let parts = split_dots(val);
        let ghost part_views = parts@.map_values(|t: &str| t@);
        let mut tcs_segments: Vec<Vec<u8>> = Vec::new();
        let mut i: usize = 0;
        proof {
            assert(part_views.skip(0) =~= part_views);
            if spec_decode_parts(part_views) is Ok {
                let bs = spec_decode_parts(part_views)->Ok_0;
                assert(tcs_segments.deep_view() + bs =~= bs);
            }
        }
        while i < parts.len()
            invariant
                0 <= i <= parts@.len(),
                val@.len() > 0 && val@[0] == 'C',
                part_views == spec_split_dots(val@),
                part_views == parts@.map_values(|t: &str| t@),
                4 * val@.len() + 3 <= usize::MAX,
                forall|k: int|
                    0 <= k < parts@.len() ==> (#[trigger] parts@[k])@.len() <= val@.len(),
                tcs_segments.deep_view().len() == i,
                match spec_decode_parts(part_views.skip(i as int)) {
                    Ok(rest) => spec_decode_parts(part_views) == Ok::<Seq<Seq<u8>>, TcsError>(
                        tcs_segments.deep_view() + rest,
                    ),
                    Err(e) => spec_decode_parts(part_views) == Err::<Seq<Seq<u8>>, TcsError>(e),
                },
            decreases parts@.len() - i,
        {
            let ghost remaining = part_views.skip(i as int);
            proof {
                assert(remaining[0] == parts@[i as int]@);
                assert(remaining.drop_first() =~= part_views.skip(i as int + 1));
            }
            let part: &str = parts[i];
            if part.is_empty() {
                return Err(TcsError::InsufficientLength);
            }
            proof {
                crate::b64::lemma_encode_utf8_len(part@);
            }
            match crate::b64::base64url_decode(part.as_bytes()) {
                Err(err) => {
                    return Err(TcsError::InvalidUrlSafeBase64(err));
                },
                Ok(decoded_bytes) => {
                    let ghost decoded_view = decoded_bytes@;
                    let ghost prev = tcs_segments.deep_view();
                    tcs_segments.push(decoded_bytes);
                    proof {
                        assert(tcs_segments@.last().deep_view() =~= decoded_view);
                        assert(tcs_segments.deep_view() =~= prev.push(decoded_view));
                        assert(base64url_decoded(encode_utf8(remaining[0])) == Ok::<
                            Seq<u8>,
                            crate::error::Base64Error,
                        >(decoded_view));
                        if spec_decode_parts(part_views.skip(i as int + 1)) is Ok {
                            let rest = spec_decode_parts(part_views.skip(i as int + 1))->Ok_0;
                            assert(spec_decode_parts(remaining) == Ok::<Seq<Seq<u8>>, TcsError>(
                                seq![decoded_view] + rest,
                            ));
                            assert(prev + (seq![decoded_view] + rest) =~= prev.push(decoded_view)
                                + rest);
                        } else {
                            assert(spec_decode_parts(remaining) == spec_decode_parts(
                                remaining.drop_first(),
                            ));
                        }
                    }
                },
            }
            i = i + 1;
        }
        proof {
            assert(part_views.skip(parts@.len() as int) =~= Seq::<Seq<char>>::empty());
            assert(tcs_segments.deep_view() + Seq::<Seq<u8>>::empty()
                =~= tcs_segments.deep_view());
        }
        Self::try_from_vec(tcs_segments)
    }
}


/// Decoding is deterministic: one string content admits exactly one V2
/// record, because an ID set has exactly one strictly ascending listing.
/// Two records that both carry the same decoded content are structurally
/// equal.
pub proof fn lemma_v2_decode_deterministic(m1: TcModelV2View, m2: TcModelV2View, f: V2Fields)
    requires
        v2_matches(m1, f),
        v2_matches(m2, f),
    ensures
        m1 == m2,
{
    lemma_ascending_listing_unique_u8(m1.special_feature_opt_ins, m2.special_feature_opt_ins);
    lemma_ascending_listing_unique_u8(m1.purposes_consent, m2.purposes_consent);
    lemma_ascending_listing_unique_u8(m1.purposes_li_transparency, m2.purposes_li_transparency);
    lemma_ascending_listing_unique_u16(m1.vendor_consents, m2.vendor_consents);
    lemma_ascending_listing_unique_u16(m1.vendor_li_consents, m2.vendor_li_consents);
    lemma_ascending_listing_unique_u16(m1.disclosed_vendors, m2.disclosed_vendors);
    lemma_ascending_listing_unique_u16(m1.allowed_vendors, m2.allowed_vendors);
    lemma_ascending_listing_unique_u8(
        m1.publisher_purposes_consent,
        m2.publisher_purposes_consent,
    );
    lemma_ascending_listing_unique_u8(
        m1.publisher_purposes_li_transparency,
        m2.publisher_purposes_li_transparency,
    );
    lemma_ascending_listing_unique_u8(m1.custom_purposes_consent, m2.custom_purposes_consent);
    lemma_ascending_listing_unique_u8(
        m1.custom_purposes_li_transparency,
        m2.custom_purposes_li_transparency,
    );
    assert forall|i: int|
        0 <= i < m1.publisher_restrictions.len() implies m1.publisher_restrictions[i]
        == m2.publisher_restrictions[i] by {
        assert(restriction_matches(m1.publisher_restrictions[i], f.publisher_restrictions[i]));
        assert(restriction_matches(m2.publisher_restrictions[i], f.publisher_restrictions[i]));
        lemma_ascending_listing_unique_u16(
            m1.publisher_restrictions[i].vendor_list,
            m2.publisher_restrictions[i].vendor_list,
        );
    }
    assert(m1.publisher_restrictions =~= m2.publisher_restrictions);
}

/// Truncating a core segment below the 213 bits of its fixed header yields
/// `InsufficientLength`, never a partial record.
pub proof fn lemma_v2_short_core_rejected(bufs: Seq<Seq<u8>>)
    requires
        bufs.len() >= 1,
        bufs[0].len() * 8 < 213,
    ensures
        spec_v2_from_bufs(bufs) == Err::<V2Fields, TcsError>(TcsError::InsufficientLength),
{
}

/// The optional-segment merge is order-independent for segments of
/// different types: appending two well-formed segments of different type
/// tags in either order yields the same merged content.
pub proof fn lemma_segment_order_irrelevant(a: Seq<u8>, b: Seq<u8>)
    requires
        spec_parse_segment(a) is Ok,
        spec_parse_segment(b) is Ok,
        a.len() * 8 >= 3,
        b.len() * 8 >= 3,
        bits_value(a, 0, 3) != bits_value(b, 0, 3),
    ensures
        spec_parse_segments(seq![a, b]) == spec_parse_segments(seq![b, a]),
{
    let ea = spec_parse_segment(a)->Ok_0;
    let eb = spec_parse_segment(b)->Ok_0;
    assert(seq![a, b].drop_first() =~= seq![b]);
    assert(seq![b, a].drop_first() =~= seq![a]);
    assert(seq![b].drop_first() =~= Seq::<Seq<u8>>::empty());
    assert(seq![a].drop_first() =~= Seq::<Seq<u8>>::empty());
    assert(merge_segments(eb, segment_fields_empty()) == eb);
    assert(merge_segments(ea, segment_fields_empty()) == ea);
    assert(spec_parse_segments(Seq::<Seq<u8>>::empty()) == Ok::<SegmentFields, TcsError>(
        segment_fields_empty(),
    ));
    assert(spec_parse_segments(seq![b]) == Ok::<SegmentFields, TcsError>(eb));
    assert(spec_parse_segments(seq![a]) == Ok::<SegmentFields, TcsError>(ea));
    assert(spec_parse_segments(seq![a, b]) == Ok::<SegmentFields, TcsError>(
        merge_segments(ea, eb),
    ));
    assert(spec_parse_segments(seq![b, a]) == Ok::<SegmentFields, TcsError>(
        merge_segments(eb, ea),
    ));
    let ta = bits_value(a, 0, 3);
    let tb = bits_value(b, 0, 3);
    assert(ea.disclosed_vendors is Some ==> ta == 1);
    assert(ea.allowed_vendors is Some ==> ta == 2);
    assert(ea.publisher_tc is Some ==> ta == 3);
    assert(eb.disclosed_vendors is Some ==> tb == 1);
    assert(eb.allowed_vendors is Some ==> tb == 2);
    assert(eb.publisher_tc is Some ==> tb == 3);
    assert(merge_segments(ea, eb) == merge_segments(eb, ea));
}

} // verus!
