//! The unchained protocol variant: each round signs its own round number
//! alone, so rounds are independently verifiable in any order.

use vstd::prelude::*;
use vstd::string::StringExecFns;
use crate::beacon::Beacon;
use crate::bls::bls_verify;
use crate::bls::hash_unchained;
use crate::bls::unchained_message;
use crate::chain_info::ChainInfo;
use crate::Scheme;
use crate::SchemeError;

verus! {

/// The scheme identifier the unchained variant supports.
pub open spec fn unchained_scheme_id() -> Seq<char> {
    "pedersen-bls-unchained"@
}

/// The unchained scheme. Stateless: every verification is a pure function of
/// the chain info and the record.
#[derive(Debug, Clone, Copy, PartialEq, Eq, Structural)]
pub struct UnchainedScheme {}

impl Scheme for UnchainedScheme {
    open spec fn spec_supports(&self, scheme_id: Seq<char>) -> bool {
        scheme_id == unchained_scheme_id()
    }

    /// No structural precondition: a previous-signature field, if present, is
    /// ignored rather than rejected.
    open spec fn spec_precheck(&self, b: Beacon) -> bool {
        true
    }

    open spec fn spec_message(&self, b: Beacon) -> Seq<u8> {
        unchained_message(b.round_number)
    }

    fn supports(&self, scheme_id: &str) -> (r: bool) {
        String::from_str(scheme_id).eq(&String::from_str("pedersen-bls-unchained"))
    }

    fn verify(&self, info: &ChainInfo, beacon: Beacon) -> (r: Result<Beacon, SchemeError>) {
        if !self.supports(info.scheme_id.as_str()) {
            return Err(SchemeError::InvalidScheme);
        }
        let message = hash_unchained(beacon.round_number);
        let accepted = bls_verify(
            info.public_key.as_slice(),
            message.as_slice(),
            beacon.signature.as_slice(),
        );
        if accepted {
            Ok(beacon)
        } else {
            Err(SchemeError::InvalidBeacon)
        }
    }
}

} // verus!
