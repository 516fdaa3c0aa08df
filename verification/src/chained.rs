//! The chained protocol variant: each round's signed message commits to the
//! previous round's signature, which gives the chain its append-only
//! ordering. Only the single presented signature is checked here; linkage
//! trust is transitive, rooted in whichever round the caller first trusted.

use vstd::prelude::*;
use vstd::string::StringExecFns;
use crate::beacon::Beacon;
use crate::bls::bls_verify;
use crate::bls::chained_message;
use crate::bls::hash_chained;
use crate::chain_info::ChainInfo;
use crate::Scheme;
use crate::SchemeError;

verus! {

/// The scheme identifier the chained variant supports.
pub open spec fn chained_scheme_id() -> Seq<char> {
    "pedersen-bls-chained"@
}

/// The chained scheme. Stateless: every verification is a pure function of
/// the chain info and the record.
#[derive(Debug, Clone, Copy, PartialEq, Eq, Structural)]
pub struct ChainedScheme {}

impl Scheme for ChainedScheme {
    open spec fn spec_supports(&self, scheme_id: Seq<char>) -> bool {
        scheme_id == chained_scheme_id()
    }

    /// The structural precondition: a chained record must carry the previous
    /// round's signature.
    open spec fn spec_precheck(&self, b: Beacon) -> bool {
        b.previous_signature is Some
    }

    open spec fn spec_message(&self, b: Beacon) -> Seq<u8> {
        match b.previous_signature {
            Some(prev) => chained_message(prev@, b.round_number),
            None => Seq::empty(),
        }
    }

    fn supports(&self, scheme_id: &str) -> (r: bool) {
        String::from_str(scheme_id).eq(&String::from_str("pedersen-bls-chained"))
    }

    fn verify(&self, info: &ChainInfo, beacon: Beacon) -> (r: Result<Beacon, SchemeError>) {
        if !self.supports(info.scheme_id.as_str()) {
            return Err(SchemeError::InvalidScheme);
        }
        let Beacon { round_number, signature, previous_signature } = beacon;
        match previous_signature {
            None => Err(SchemeError::InvalidBeacon),
            Some(prev) => {
                let message = hash_chained(prev.as_slice(), round_number);
                let accepted = bls_verify(
                    info.public_key.as_slice(),
                    message.as_slice(),
                    signature.as_slice(),
                );
                let out = Beacon { round_number, signature, previous_signature: Some(prev) };
                proof {
                    assert(out =~= beacon);
                }
                if accepted {
                    Ok(out)
                } else {
                    Err(SchemeError::InvalidBeacon)
                }
            },
        }
    }
}

} // verus!
