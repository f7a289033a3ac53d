//! The public facade: decodes a consent string of either wire format,
//! choosing V1 or V2 by the text's first character.

use vstd::prelude::*;
use crate::error::TcsError;
use crate::model::TcModel;
use crate::model::TcModelView;
use crate::tcf_1::spec_v1_decode;
use crate::tcf_1::v1_matches;
use crate::tcf_1::lemma_v1_decode_deterministic;
use crate::tcf_2::spec_v2_decode;
use crate::tcf_2::v2_matches;
use crate::tcf_2::lemma_v2_decode_deterministic;
use crate::model::TcModelV1;
use crate::model::TcModelV2;

verus! {

/// A decoded record carries exactly what the text encodes: a `B` text
/// yields its V1 record, a `C` text its V2 record.
pub open spec fn decode_matches(m: TcModelView, s: Seq<char>) -> bool {
    match m {
        TcModelView::V1(v) => s.len() > 0 && s[0] == 'B' && (spec_v1_decode(s) matches Ok(f)
            && v1_matches(v, f)),
        TcModelView::V2(v) => s.len() > 0 && s[0] == 'C' && (spec_v2_decode(s) matches Ok(f)
            && v2_matches(v, f)),
    }
}

/// The error a text fails with: a text that begins with neither version
/// character fails with `UnsupportedVersion`; otherwise the chosen
/// decoder's error surfaces.
pub open spec fn spec_decode_err(s: Seq<char>, e: TcsError) -> bool {
    if s.len() == 0 || (s[0] != 'B' && s[0] != 'C') {
        e == TcsError::UnsupportedVersion
    } else if s[0] == 'B' {
        spec_v1_decode(s) == Err::<crate::tcf_1::V1Fields, TcsError>(e)
    } else {
        spec_v2_decode(s) == Err::<crate::tcf_2::V2Fields, TcsError>(e)
    }
}

impl TcModel {
    /// Decodes a consent string of either wire format: a text beginning
    /// with `B` decodes as V1, one beginning with `C` as V2, and any other
    /// text fails with `UnsupportedVersion`. Succeeds exactly when the
    /// chosen decoder does. The length bound is a machine limit: the
    /// text's UTF-8 form must leave the base64 decoder's length
    /// calculation inside `usize`.
    pub fn try_from(val: &str) -> (r: Result<TcModel, TcsError>)
        requires
            4 * val@.len() + 3 <= usize::MAX,
        ensures
            match r {
                Ok(m) => decode_matches(m@, val@),
                Err(e) => spec_decode_err(val@, e),
            },
            val@.len() > 0 && val@[0] == 'B' && spec_v1_decode(val@) is Ok ==> r is Ok,
            val@.len() > 0 && val@[0] == 'C' && spec_v2_decode(val@) is Ok ==> r is Ok,
    {
        if val.unicode_len() == 0 {
            return Err(TcsError::UnsupportedVersion);
        }
        let first = val.get_char(0);
        if first == 'B' {
            match TcModelV1::try_from(val) {
                Ok(m) => Ok(TcModel::V1(Box::new(m))),
                Err(e) => Err(e),
            }
        } else if first == 'C' {
            match TcModelV2::try_from(val) {
                Ok(m) => Ok(TcModel::V2(Box::new(m))),
                Err(e) => Err(e),
            }
        } else {
            Err(TcsError::UnsupportedVersion)
        }
    }
}

/// Decoding is deterministic: re-decoding identical text yields a
/// structurally equal record, whichever wire format the text carries.
pub proof fn lemma_decode_deterministic(m1: TcModelView, m2: TcModelView, s: Seq<char>)
    requires
        decode_matches(m1, s),
        decode_matches(m2, s),
    ensures
        m1 == m2,
{
    match (m1, m2) {
        (TcModelView::V1(v1), TcModelView::V1(v2)) => {
            lemma_v1_decode_deterministic(v1, v2, spec_v1_decode(s)->Ok_0);
        },
        (TcModelView::V2(v1), TcModelView::V2(v2)) => {
            lemma_v2_decode_deterministic(v1, v2, spec_v2_decode(s)->Ok_0);
        },
        _ => {
            assert(false);
        },
    }
}

} // verus!
