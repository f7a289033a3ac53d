//! The decoded record types: the V1 and V2 models, the vendor set, the
//! publisher restrictions, and the transient section and segment carriers
//! used while assembling a record.
//!
//! Records are value types: constructed once by a decoder, never mutated
//! afterward. Every ordered ID list in a decoded record is strictly
//! ascending with no duplicates.

use vstd::prelude::*;

verus! {

/// Contains restriction types as defined for the V2 core string's publisher
/// restrictions section; `Undefined` is the decode fallback for any unmapped
/// two-bit code.
#[derive(Clone, Copy, Debug, PartialEq, Eq, Structural, PartialOrd, Hash)]
pub enum PublisherRestrictionType {
    /// Purpose flatly not allowed by the publisher.
    NotAllowed,
    /// Vendors need to have consent.
    RequireConsent,
    /// Vendors need to have "Legitimate Interest".
    RequireLegitimateInterest,
    /// Fallback for any other code; should not be used.
    Undefined,
}

impl Default for PublisherRestrictionType {
    fn default() -> (r: Self)
        ensures
            r == PublisherRestrictionType::Undefined,
    {
        Self::Undefined
    }
}

/// A list of vendors which are either allowed or blocked based on the
/// `is_blocklist` field.
#[derive(Clone, Debug, PartialEq, PartialOrd, Hash)]
pub struct VendorSet {
    /// Whether `list` is a blocklist or an allowlist.
    pub is_blocklist: bool,
    /// The vendors which are allowed or blocked, strictly ascending.
    pub list: Vec<u16>,
}

/// The content of a `VendorSet`, with the vendor list as a sequence.
pub ghost struct VendorSetView {
    /// Whether the list is a blocklist.
    pub is_blocklist: bool,
    /// The vendor IDs in list order.
    pub list: Seq<u16>,
}

impl View for VendorSet {
    type V = VendorSetView;

    open spec fn view(&self) -> VendorSetView {
        VendorSetView { is_blocklist: self.is_blocklist, list: self.list@ }
    }
}

impl Default for VendorSet {
    fn default() -> (r: Self)
        ensures
            r@ == (VendorSetView { is_blocklist: false, list: Seq::<u16>::empty() }),
    {
        VendorSet { is_blocklist: false, list: Vec::new() }
    }
}

impl VendorSet {
    /// An empty allowlist.
    pub fn new() -> (r: Self)
        ensures
            r@ == (VendorSetView { is_blocklist: false, list: Seq::<u16>::empty() }),
    {
        Self::default()
    }
}

/// A publisher-declared override of the legal basis required for specific
/// vendors on a specific purpose.
#[derive(Clone, Debug, PartialEq, PartialOrd, Hash)]
pub struct PublisherRestriction {
    /// ID of the restricted purpose.
    pub purpose_id: u8,
    /// The publisher restriction for this purpose.
    pub restriction_type: PublisherRestrictionType,
    /// The vendors the restriction applies to, strictly ascending.
    pub vendor_list: Vec<u16>,
}

/// The content of a `PublisherRestriction`, with the vendor list as a
/// sequence.
pub ghost struct PublisherRestrictionView {
    /// ID of the restricted purpose.
    pub purpose_id: u8,
    /// The restriction kind.
    pub restriction_type: PublisherRestrictionType,
    /// The vendor IDs in list order.
    pub vendor_list: Seq<u16>,
}

impl View for PublisherRestriction {
    type V = PublisherRestrictionView;

    open spec fn view(&self) -> PublisherRestrictionView {
        PublisherRestrictionView {
            purpose_id: self.purpose_id,
            restriction_type: self.restriction_type,
            vendor_list: self.vendor_list@,
        }
    }
}

impl Default for PublisherRestriction {
    fn default() -> (r: Self)
        ensures
            r@ == (PublisherRestrictionView {
                purpose_id: 0,
                restriction_type: PublisherRestrictionType::Undefined,
                vendor_list: Seq::<u16>::empty(),
            }),
    {
        PublisherRestriction {
            purpose_id: 0,
            restriction_type: PublisherRestrictionType::Undefined,
            vendor_list: Vec::new(),
        }
    }
}

impl PublisherRestriction {
    /// An empty restriction of the `Undefined` kind.
    pub fn new() -> (r: Self)
        ensures
            r@ == (PublisherRestrictionView {
                purpose_id: 0,
                restriction_type: PublisherRestrictionType::Undefined,
                vendor_list: Seq::<u16>::empty(),
            }),
    {
        Self::default()
    }
}

/// The record decoded from a V1 consent string; the version field is
/// omitted.
#[derive(Clone, Debug, PartialEq, PartialOrd, Hash)]
pub struct TcModelV1 {
    /// Raw 36-bit timestamp of when the consent string was first created.
    pub created_at: u64,
    /// Raw 36-bit timestamp of when the consent string was last updated.
    pub updated_at: u64,
    /// Consent Manager Provider ID that last updated the consent string.
    pub cmp_id: u16,
    /// Consent Manager Provider version.
    pub cmp_version: u16,
    /// Screen number in the CMP where consent was given.
    pub consent_screen: u8,
    /// Two-letter uppercase code of the language the CMP UI was presented in.
    pub consent_language: String,
    /// Version of the vendor list used in the most recent update.
    pub vendor_list_version: u16,
    /// The permitted purposes, strictly ascending 1-based IDs.
    pub purposes_consent: Vec<u8>,
    /// The allowed or blocked vendors.
    pub vendors: VendorSet,
}

/// The content of a `TcModelV1`, with lists and text as sequences.
pub ghost struct TcModelV1View {
    /// Raw creation timestamp.
    pub created_at: u64,
    /// Raw update timestamp.
    pub updated_at: u64,
    /// CMP ID.
    pub cmp_id: u16,
    /// CMP version.
    pub cmp_version: u16,
    /// Consent screen number.
    pub consent_screen: u8,
    /// Language code characters.
    pub consent_language: Seq<char>,
    /// Vendor list version.
    pub vendor_list_version: u16,
    /// Permitted purpose IDs in list order.
    pub purposes_consent: Seq<u8>,
    /// Allowed or blocked vendors.
    pub vendors: VendorSetView,
}

impl View for TcModelV1 {
    type V = TcModelV1View;

    open spec fn view(&self) -> TcModelV1View {
        TcModelV1View {
            created_at: self.created_at,
            updated_at: self.updated_at,
            cmp_id: self.cmp_id,
            cmp_version: self.cmp_version,
            consent_screen: self.consent_screen,
            consent_language: self.consent_language@,
            vendor_list_version: self.vendor_list_version,
            purposes_consent: self.purposes_consent@,
            vendors: self.vendors@,
        }
    }
}

/// The empty V1 record.
pub open spec fn tc_model_v1_empty() -> TcModelV1View {
    TcModelV1View {
        created_at: 0,
        updated_at: 0,
        cmp_id: 0,
        cmp_version: 0,
        consent_screen: 0,
        consent_language: Seq::<char>::empty(),
        vendor_list_version: 0,
        purposes_consent: Seq::<u8>::empty(),
        vendors: VendorSetView { is_blocklist: false, list: Seq::<u16>::empty() },
    }
}

impl Default for TcModelV1 {
    fn default() -> (r: Self)
        ensures
            r@ == tc_model_v1_empty(),
    {
        TcModelV1 {
            created_at: 0,
            updated_at: 0,
            cmp_id: 0,
            cmp_version: 0,
            consent_screen: 0,
            consent_language: String::new(),
            vendor_list_version: 0,
            purposes_consent: Vec::new(),
            vendors: VendorSet::new(),
        }
    }
}

impl TcModelV1 {
    /// The empty V1 record.
    pub fn new() -> (r: Self)
        ensures
            r@ == tc_model_v1_empty(),
    {
        Self::default()
    }
}

/// The record decoded from a V2 consent string: the core-segment fields plus
/// the fields of the optional segments, which equal their defaults exactly
/// when the corresponding segment was absent. The version field is omitted.
#[derive(Clone, Debug, PartialEq, PartialOrd, Hash)]
pub struct TcModelV2 {
    /// Epoch milliseconds when this TC string was first created.
    pub created_at: u64,
    /// Epoch milliseconds when this TC string was last updated.
    pub updated_at: u64,
    /// Consent Management Platform ID that last updated the TC string.
    pub cmp_id: u16,
    /// Version of the CMP that last updated this TC string.
    pub cmp_version: u16,
    /// CMP screen number at which consent was given.
    pub consent_screen: u8,
    /// Two-letter uppercase code of the language the CMP UI was presented in.
    pub consent_language: String,
    /// Version of the global vendor list used to create this TC string.
    pub vendor_list_version: u16,
    /// Version of the policy used within the global vendor list.
    pub tcf_policy_version: u16,
    /// Whether the signals were from service-specific storage.
    pub is_service_specific: bool,
    /// Whether the CMP used non-standard stack descriptions.
    pub use_non_standard_stacks: bool,
    /// Opted-in special features, strictly ascending 1-based IDs.
    pub special_feature_opt_ins: Vec<u8>,
    /// The allowed purposes, strictly ascending 1-based IDs.
    pub purposes_consent: Vec<u8>,
    /// The allowed "Legitimate Interest" purposes, strictly ascending.
    pub purposes_li_transparency: Vec<u8>,
    /// Whether "Purpose 1" was not disclosed.
    pub purpose_one_treatment: bool,
    /// Two-letter uppercase country code of the publisher.
    pub publisher_country_code: String,
    /// The allowed vendors, strictly ascending.
    pub vendor_consents: Vec<u16>,
    /// The vendors with "Legitimate Interest" disclosures, strictly ascending.
    pub vendor_li_consents: Vec<u16>,
    /// Publisher restrictions, in wire order.
    pub publisher_restrictions: Vec<PublisherRestriction>,
    /// The vendors disclosed to the user by the CMP, strictly ascending.
    pub disclosed_vendors: Vec<u16>,
    /// The vendors the publisher permits to use OOB legal bases.
    pub allowed_vendors: Vec<u16>,
    /// Publisher purposes established on the legal basis of consent.
    pub publisher_purposes_consent: Vec<u8>,
    /// Publisher purposes established on "Legitimate Interest".
    pub publisher_purposes_li_transparency: Vec<u8>,
    /// Custom publisher purposes established on consent.
    pub custom_purposes_consent: Vec<u8>,
    /// Custom publisher purposes established on "Legitimate Interest".
    pub custom_purposes_li_transparency: Vec<u8>,
}

/// The content of a `TcModelV2`, with lists and text as sequences.
pub ghost struct TcModelV2View {
    /// Creation time in epoch milliseconds.
    pub created_at: u64,
    /// Update time in epoch milliseconds.
    pub updated_at: u64,
    /// CMP ID.
    pub cmp_id: u16,
    /// CMP version.
    pub cmp_version: u16,
    /// Consent screen number.
    pub consent_screen: u8,
    /// Language code characters.
    pub consent_language: Seq<char>,
    /// Vendor list version.
    pub vendor_list_version: u16,
    /// TCF policy version.
    pub tcf_policy_version: u16,
    /// Service-specific flag.
    pub is_service_specific: bool,
    /// Non-standard stacks flag.
    pub use_non_standard_stacks: bool,
    /// Special feature opt-in IDs in list order.
    pub special_feature_opt_ins: Seq<u8>,
    /// Purpose consent IDs in list order.
    pub purposes_consent: Seq<u8>,
    /// Purpose LI transparency IDs in list order.
    pub purposes_li_transparency: Seq<u8>,
    /// Purpose-one treatment flag.
    pub purpose_one_treatment: bool,
    /// Country code characters.
    pub publisher_country_code: Seq<char>,
    /// Vendor consent IDs in list order.
    pub vendor_consents: Seq<u16>,
    /// Vendor LI consent IDs in list order.
    pub vendor_li_consents: Seq<u16>,
    /// Publisher restrictions in wire order.
    pub publisher_restrictions: Seq<PublisherRestrictionView>,
    /// Disclosed vendor IDs in list order.
    pub disclosed_vendors: Seq<u16>,
    /// Allowed vendor IDs in list order.
    pub allowed_vendors: Seq<u16>,
    /// Publisher purpose consent IDs in list order.
    pub publisher_purposes_consent: Seq<u8>,
    /// Publisher purpose LI transparency IDs in list order.
    pub publisher_purposes_li_transparency: Seq<u8>,
    /// Custom purpose consent IDs in list order.
    pub custom_purposes_consent: Seq<u8>,
    /// Custom purpose LI transparency IDs in list order.
    pub custom_purposes_li_transparency: Seq<u8>,
}

impl View for TcModelV2 {
    type V = TcModelV2View;

    open spec fn view(&self) -> TcModelV2View {
        TcModelV2View {
            created_at: self.created_at,
            updated_at: self.updated_at,
            cmp_id: self.cmp_id,
            cmp_version: self.cmp_version,
            consent_screen: self.consent_screen,
            consent_language: self.consent_language@,
            vendor_list_version: self.vendor_list_version,
            tcf_policy_version: self.tcf_policy_version,
            is_service_specific: self.is_service_specific,
            use_non_standard_stacks: self.use_non_standard_stacks,
            special_feature_opt_ins: self.special_feature_opt_ins@,
            purposes_consent: self.purposes_consent@,
            purposes_li_transparency: self.purposes_li_transparency@,
            purpose_one_treatment: self.purpose_one_treatment,
            publisher_country_code: self.publisher_country_code@,
            vendor_consents: self.vendor_consents@,
            vendor_li_consents: self.vendor_li_consents@,
            publisher_restrictions: self.publisher_restrictions@.map_values(
                |r: PublisherRestriction| r@,
            ),
            disclosed_vendors: self.disclosed_vendors@,
            allowed_vendors: self.allowed_vendors@,
            publisher_purposes_consent: self.publisher_purposes_consent@,
            publisher_purposes_li_transparency: self.publisher_purposes_li_transparency@,
            custom_purposes_consent: self.custom_purposes_consent@,
            custom_purposes_li_transparency: self.custom_purposes_li_transparency@,
        }
    }
}

/// The empty V2 record.
pub open spec fn tc_model_v2_empty() -> TcModelV2View {
    TcModelV2View {
        created_at: 0,
        updated_at: 0,
        cmp_id: 0,
        cmp_version: 0,
        consent_screen: 0,
        consent_language: Seq::<char>::empty(),
        vendor_list_version: 0,
        tcf_policy_version: 0,
        is_service_specific: false,
        use_non_standard_stacks: false,
        special_feature_opt_ins: Seq::<u8>::empty(),
        purposes_consent: Seq::<u8>::empty(),
        purposes_li_transparency: Seq::<u8>::empty(),
        purpose_one_treatment: false,
        publisher_country_code: Seq::<char>::empty(),
        vendor_consents: Seq::<u16>::empty(),
        vendor_li_consents: Seq::<u16>::empty(),
        publisher_restrictions: Seq::<PublisherRestrictionView>::empty(),
        disclosed_vendors: Seq::<u16>::empty(),
        allowed_vendors: Seq::<u16>::empty(),
        publisher_purposes_consent: Seq::<u8>::empty(),
        publisher_purposes_li_transparency: Seq::<u8>::empty(),
        custom_purposes_consent: Seq::<u8>::empty(),
        custom_purposes_li_transparency: Seq::<u8>::empty(),
    }
}

impl Default for TcModelV2 {
    fn default() -> (r: Self)
        ensures
            r@ == tc_model_v2_empty(),
    {
        let r = TcModelV2 {
            created_at: 0,
            updated_at: 0,
            cmp_id: 0,
            cmp_version: 0,
            consent_screen: 0,
            consent_language: String::new(),
            vendor_list_version: 0,
            tcf_policy_version: 0,
            is_service_specific: false,
            use_non_standard_stacks: false,
            special_feature_opt_ins: Vec::new(),
            purposes_consent: Vec::new(),
            purposes_li_transparency: Vec::new(),
            purpose_one_treatment: false,
            publisher_country_code: String::new(),
            vendor_consents: Vec::new(),
            vendor_li_consents: Vec::new(),
            publisher_restrictions: Vec::new(),
            disclosed_vendors: Vec::new(),
            allowed_vendors: Vec::new(),
            publisher_purposes_consent: Vec::new(),
            publisher_purposes_li_transparency: Vec::new(),
            custom_purposes_consent: Vec::new(),
            custom_purposes_li_transparency: Vec::new(),
        };
        proof {
            assert(r.publisher_restrictions@.map_values(|x: PublisherRestriction| x@)
                =~= Seq::<PublisherRestrictionView>::empty());
        }
        r
    }
}

impl TcModelV2 {
    /// The empty V2 record.
    pub fn new() -> (r: Self)
        ensures
            r@ == tc_model_v2_empty(),
    {
        Self::default()
    }
}

/// The result of a decode: a V1 or a V2 record, chosen by the version
/// discriminator of the input text.
#[derive(Clone, Debug, PartialEq)]
pub enum TcModel {
    /// A record decoded from a V1 string.
    V1(Box<TcModelV1>),
    /// A record decoded from a V2 string.
    V2(Box<TcModelV2>),
}

/// The content of a `TcModel`.
pub ghost enum TcModelView {
    /// A V1 record.
    V1(TcModelV1View),
    /// A V2 record.
    V2(TcModelV2View),
}

impl View for TcModel {
    type V = TcModelView;

    open spec fn view(&self) -> TcModelView {
        match self {
            TcModel::V1(m) => TcModelView::V1(m@),
            TcModel::V2(m) => TcModelView::V2(m@),
        }
    }
}

/// The four publisher-purpose bitmaps of a "Publisher TC" segment before they
/// are merged into the V2 record.
#[derive(Clone, Debug, PartialEq)]
pub struct PublisherTc {
    /// Publisher purposes established on consent, strictly ascending.
    pub publisher_purposes_consent: Vec<u8>,
    /// Publisher purposes established on "Legitimate Interest".
    pub publisher_purposes_li_transparency: Vec<u8>,
    /// Custom publisher purposes established on consent.
    pub custom_purposes_consent: Vec<u8>,
    /// Custom publisher purposes established on "Legitimate Interest".
    pub custom_purposes_li_transparency: Vec<u8>,
}

impl Default for PublisherTc {
    fn default() -> (r: Self)
        ensures
            r.publisher_purposes_consent@ == Seq::<u8>::empty(),
            r.publisher_purposes_li_transparency@ == Seq::<u8>::empty(),
            r.custom_purposes_consent@ == Seq::<u8>::empty(),
            r.custom_purposes_li_transparency@ == Seq::<u8>::empty(),
    {
        PublisherTc {
            publisher_purposes_consent: Vec::new(),
            publisher_purposes_li_transparency: Vec::new(),
            custom_purposes_consent: Vec::new(),
            custom_purposes_li_transparency: Vec::new(),
        }
    }
}

/// The optional-segment payloads of a V2 string before they are merged into
/// the record: `None` where the corresponding segment was absent.
#[derive(Clone, Debug, PartialEq)]
pub struct TcSegment {
    /// Payload of the "Disclosed Vendors" segment.
    pub disclosed_vendors: Option<Vec<u16>>,
    /// Payload of the "Allowed Vendors" segment.
    pub allowed_vendors: Option<Vec<u16>>,
    /// Payload of the "Publisher TC" segment.
    pub publisher_tc: Option<PublisherTc>,
}

/// One decoded range section: the decoded vendor list together with the
/// absolute bit offset immediately following the section, so that callers
/// can resume reading there.
#[derive(Clone, Debug, PartialEq)]
pub struct RangeSection {
    /// The absolute bit offset just past the section.
    pub last_bit: usize,
    /// The decoded vendor IDs, strictly ascending.
    pub list: Vec<u16>,
}

} // verus!
