//! One round's beacon record: decoded from a fetched response, handed to the
//! active scheme's verification, and returned unchanged when it verifies.

use vstd::prelude::*;
use crate::codec::hex_decode;
use crate::codec::hex_decoded;
use crate::codec::is_hex_seq;
use crate::json::extract_str;
use crate::json::extract_u64;
use crate::json::has_field;
use crate::json::json_has_field;
use crate::json::json_str_field;
use crate::json::json_u64_field;
use crate::DrandClientError;

verus! {

/// A beacon record. The previous-signature field is present only in the
/// chained wire format; the unchained scheme ignores it when it appears.
#[derive(Clone, Debug)]
#[verifier::ext_equal]
pub struct Beacon {
    pub round_number: u64,
    pub signature: Vec<u8>,
    pub previous_signature: Option<Vec<u8>>,
}

/// Whether a body decodes to a beacon record: a round number, a hex
/// signature, and — only where the field is present at all — a
/// previous-signature that is a string of well-formed hex.
pub open spec fn beacon_decodes(body: Seq<char>) -> bool {
    &&& json_u64_field(body, "round"@) is Some
    &&& json_str_field(body, "signature"@) matches Some(s) && is_hex_seq(s)
    &&& json_has_field(body, "previous_signature"@) ==> (json_str_field(
        body,
        "previous_signature"@,
    ) matches Some(p) && is_hex_seq(p))
}

/// Whether a beacon value is exactly what a body decodes to: the round and
/// the decoded hex fields taken from the document, the previous signature
/// present in the record iff its field is in the document.
pub open spec fn beacon_matches(body: Seq<char>, b: Beacon) -> bool {
    &&& json_u64_field(body, "round"@) == Some(b.round_number)
    &&& json_str_field(body, "signature"@) matches Some(s) && b.signature@ == hex_decoded(s)
    &&& match b.previous_signature {
        Some(p) => json_has_field(body, "previous_signature"@) && (json_str_field(
            body,
            "previous_signature"@,
        ) matches Some(h) && p@ == hex_decoded(h)),
        None => !json_has_field(body, "previous_signature"@),
    }
}

/// Decodes a beacon record: `Ok` exactly when the body decodes, and then the
/// result is the document's record, verbatim; every failure — a body that is
/// not JSON, a missing or mistyped field, malformed hex — is the
/// invalid-beacon error. Whether an absent previous signature is acceptable
/// is the active scheme's decision, not this parser's.
pub fn parse_beacon(body: &str) -> (r: Result<Beacon, DrandClientError>)
    ensures
        r is Ok <==> beacon_decodes(body@),
        r matches Ok(b) ==> beacon_matches(body@, b),
        r matches Err(e) ==> e == DrandClientError::InvalidBeacon,
{
    let round_number = match extract_u64(body, "round") {
        Some(n) => n,
        None => {
            return Err(DrandClientError::InvalidBeacon);
        },
    };
    let signature_hex = match extract_str(body, "signature") {
        Some(s) => s,
        None => {
            return Err(DrandClientError::InvalidBeacon);
        },
    };
    let signature = match hex_decode(signature_hex.as_str()) {
        Some(b) => b,
        None => {
            return Err(DrandClientError::InvalidBeacon);
        },
    };
    let previous_signature = if has_field(body, "previous_signature") {
        let prev_hex = match extract_str(body, "previous_signature") {
            Some(s) => s,
            None => {
                return Err(DrandClientError::InvalidBeacon);
            },
        };
        match hex_decode(prev_hex.as_str()) {
            Some(b) => Some(b),
            None => {
                return Err(DrandClientError::InvalidBeacon);
            },
        }
    } else {
        None
    };
    Ok(Beacon { round_number, signature, previous_signature })
}

} // verus!
