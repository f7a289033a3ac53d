//! Decoder for IAB Transparency & Consent Framework (TCF) consent strings.
//!
//! A consent string is a compact, base64url-encoded, bit-packed record that
//! communicates a user's privacy consent choices. Two wire formats exist
//! (V1 and V2); both are built from variable-width bit fields, flag bitmaps
//! and range-encoded integer sets. This crate decodes such strings into
//! structured records, and each decoder carries a contract that pins its
//! result down against a bit-level specification of the wire format.

pub mod b64;
pub mod decode;
pub mod error;
pub mod model;
pub mod tcf_1;
pub mod tcf_2;
pub mod util;

pub use error::Base64Error;
pub use error::TcsError;
pub use model::PublisherRestriction;
pub use model::PublisherRestrictionType;
pub use model::TcModel;
pub use model::TcModelV1;
pub use model::TcModelV2;
pub use model::VendorSet;
