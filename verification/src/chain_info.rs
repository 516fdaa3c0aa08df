//! The immutable descriptor of a beacon chain, parsed once per client
//! lifetime from the fetched info document.

use vstd::prelude::*;
use crate::codec::hex_decode;
use crate::codec::hex_decoded;
use crate::codec::is_hex_seq;
use crate::json::extract_str;
use crate::json::extract_u64;
use crate::json::json_str_field;
use crate::json::json_u64_field;
use crate::DrandClientError;

verus! {

/// The trust anchor of one chain: its public key, timing parameters, genesis
/// seed digest and scheme identifier. Never mutated once parsed.
pub struct ChainInfo {
    pub public_key: Vec<u8>,
    pub period_seconds: u64,
    pub genesis_time: u64,
    pub hash: Vec<u8>,
    pub scheme_id: String,
}

impl ChainInfo {
    /// Well-formedness: the public key is a compressed G1 element's 48 bytes,
    /// the genesis seed digest is 32 bytes.
    pub open spec fn wf(&self) -> bool {
        self.public_key@.len() == 48 && self.hash@.len() == 32
    }
}

/// Whether a body decodes to a chain info document: every field present with
/// its type, the key and hash well-formed hex of the right length.
pub open spec fn chain_info_decodes(body: Seq<char>) -> bool {
    &&& json_str_field(body, "public_key"@) matches Some(pk) && is_hex_seq(pk) && hex_decoded(
        pk,
    ).len() == 48
    &&& json_u64_field(body, "period"@) is Some
    &&& json_u64_field(body, "genesis_time"@) is Some
    &&& json_str_field(body, "hash"@) matches Some(h) && is_hex_seq(h) && hex_decoded(h).len()
        == 32
    &&& json_str_field(body, "scheme_id"@) is Some
}

/// Whether a chain info value is exactly what a body decodes to: each field
/// taken from the document, the hex fields decoded.
pub open spec fn chain_info_matches(body: Seq<char>, info: ChainInfo) -> bool {
    &&& json_str_field(body, "public_key"@) matches Some(pk) && info.public_key@ == hex_decoded(
        pk,
    )
    &&& json_u64_field(body, "period"@) == Some(info.period_seconds)
    &&& json_u64_field(body, "genesis_time"@) == Some(info.genesis_time)
    &&& json_str_field(body, "hash"@) matches Some(h) && info.hash@ == hex_decoded(h)
    &&& json_str_field(body, "scheme_id"@) == Some(info.scheme_id@)
}

/// Decodes a chain info document: `Ok` exactly when the body decodes, and
/// then the result's fields are the document's, verbatim; every failure — a
/// body that is not JSON, a missing or mistyped field, malformed hex, a
/// public key or hash of the wrong length — is the invalid-chain-info error.
pub fn parse_chain_info(body: &str) -> (r: Result<ChainInfo, DrandClientError>)
    ensures
        r is Ok <==> chain_info_decodes(body@),
        r matches Ok(info) ==> chain_info_matches(body@, info) && info.wf(),
        r matches Err(e) ==> e == DrandClientError::InvalidChainInfo,
{
    let public_key_hex = match extract_str(body, "public_key") {
        Some(s) => s,
        None => {
            return Err(DrandClientError::InvalidChainInfo);
        },
    };
    let public_key = match hex_decode(public_key_hex.as_str()) {
        Some(b) => b,
        None => {
            return Err(DrandClientError::InvalidChainInfo);
        },
    };
    if public_key.len() != 48 {
        return Err(DrandClientError::InvalidChainInfo);
    }
    let period_seconds = match extract_u64(body, "period") {
        Some(n) => n,
        None => {
            return Err(DrandClientError::InvalidChainInfo);
        },
    };
    let genesis_time = match extract_u64(body, "genesis_time") {
        Some(n) => n,
        None => {
            return Err(DrandClientError::InvalidChainInfo);
        },
    };
    let hash_hex = match extract_str(body, "hash") {
        Some(s) => s,
        None => {
            return Err(DrandClientError::InvalidChainInfo);
        },
    };
    let hash = match hex_decode(hash_hex.as_str()) {
        Some(b) => b,
        None => {
            return Err(DrandClientError::InvalidChainInfo);
        },
    };
    if hash.len() != 32 {
        return Err(DrandClientError::InvalidChainInfo);
    }
    let scheme_id = match extract_str(body, "scheme_id") {
        Some(s) => s,
        None => {
            return Err(DrandClientError::InvalidChainInfo);
        },
    };
    Ok(ChainInfo { public_key, period_seconds, genesis_time, hash, scheme_id })
}

} // verus!
