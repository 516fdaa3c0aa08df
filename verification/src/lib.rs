//! A client for a publicly verifiable randomness beacon. It fetches signed
//! beacon records over HTTP and proves each one authentic before returning
//! it: the active scheme recomputes the message the round must have signed —
//! chained rounds commit to the previous round's signature, unchained rounds
//! sign their own round number alone — and checks the BLS pairing equation
//! against the chain's public key. Verification is pure and stateless: each
//! call's outcome is a function of the chain info and the record alone.

use vstd::prelude::*;
use vstd::string::StringExecFns;

pub mod beacon;
pub mod bls;
pub mod chain_info;
pub mod chained;
pub mod codec;
pub mod http;
pub mod json;
pub mod unchained;

use crate::beacon::Beacon;
use crate::beacon::parse_beacon;
use crate::bls::bls_verify_spec;
use crate::chain_info::ChainInfo;
use crate::chain_info::parse_chain_info;
use crate::chained::ChainedScheme;
use crate::codec::u64_to_dec;
use crate::http::HttpTransport;
use crate::http::Transport;
use crate::unchained::UnchainedScheme;

verus! {

/// The errors a client call can return. All non-fatal; nothing is retried.
#[derive(Debug, PartialEq, Eq, Structural, Clone, Copy)]
pub enum DrandClientError {
    /// The requested round number is zero; checked before any request.
    InvalidRound,
    /// The fetched record failed to decode, failed the active scheme's
    /// structural precondition, came from a chain of another scheme, or its
    /// signature failed verification.
    InvalidBeacon,
    /// The chain info document failed to decode; construction fails outright.
    InvalidChainInfo,
    /// The transport could not complete the request.
    NotResponding,
}

impl DrandClientError {
    /// A short description of the error.
    pub fn message(&self) -> (s: &'static str)
        ensures
            *self == DrandClientError::InvalidRound ==> s@ == "invalid round"@,
            *self == DrandClientError::InvalidBeacon ==> s@ == "invalid beacon"@,
            *self == DrandClientError::InvalidChainInfo ==> s@ == "invalid chain info"@,
            *self == DrandClientError::NotResponding ==> s@ == "not responding"@,
    {
        match self {
            DrandClientError::InvalidRound => "invalid round",
            DrandClientError::InvalidBeacon => "invalid beacon",
            DrandClientError::InvalidChainInfo => "invalid chain info",
            DrandClientError::NotResponding => "not responding",
        }
    }
}

/// The finer-grained outcome of a scheme's verification. At the public client
/// boundary every variant narrows to `DrandClientError::InvalidBeacon`.
#[derive(Debug, PartialEq, Eq, Structural, Clone, Copy)]
pub enum SchemeError {
    /// The record failed the scheme's structural precondition, or its
    /// signature failed the pairing check.
    InvalidBeacon,
    /// The chain's scheme identifier is not one this scheme supports.
    InvalidScheme,
    /// The chain info is unusable for this scheme.
    InvalidChainInfo,
}

impl SchemeError {
    /// A short description of the error.
    pub fn message(&self) -> (s: &'static str)
        ensures
            *self == SchemeError::InvalidBeacon ==> s@ == "invalid beacon"@,
            *self == SchemeError::InvalidScheme ==> s@ == "invalid scheme"@,
            *self == SchemeError::InvalidChainInfo ==> s@ == "invalid chain info"@,
    {
        match self {
            SchemeError::InvalidBeacon => "invalid beacon",
            SchemeError::InvalidScheme => "invalid scheme",
            SchemeError::InvalidChainInfo => "invalid chain info",
        }
    }
}

/// A beacon protocol variant: the scheme identifiers it accepts, the
/// structural precondition a record must meet, and the message the round must
/// have signed. Dispatch is static, chosen at client construction.
pub trait Scheme: Sized {
    /// Whether this scheme accepts a chain's scheme identifier.
    spec fn spec_supports(&self, scheme_id: Seq<char>) -> bool;

    /// The structural precondition on a record, checked before the signature.
    spec fn spec_precheck(&self, b: Beacon) -> bool;

    /// The message the round must have signed, given the precondition holds.
    spec fn spec_message(&self, b: Beacon) -> Seq<u8>;

    fn supports(&self, scheme_id: &str) -> (r: bool)
        ensures
            r == self.spec_supports(scheme_id@),
    ;

    /// Verification is a gate, not a transform: on success the record comes
    /// back unchanged, and the outcome is a pure function of the scheme, the
    /// chain info and the record — verifying twice yields the same result.
    fn verify(&self, info: &ChainInfo, beacon: Beacon) -> (r: Result<Beacon, SchemeError>)
        ensures
            r == verdict(
                self.spec_supports(info.scheme_id@),
                self.spec_precheck(beacon),
                bls_verify_spec(info.public_key@, self.spec_message(beacon), beacon.signature@),
                beacon,
            ),
    ;
}

/// The outcome every scheme's `verify` is held to, by the three questions it
/// must ask in order: reject a chain the scheme does not support, then a
/// record failing the structural precondition, then a signature failing the
/// pairing check; otherwise return the record unchanged.
pub open spec fn verdict(supports: bool, precheck: bool, signature_ok: bool, b: Beacon) -> Result<
    Beacon,
    SchemeError,
> {
    if !supports {
        Err(SchemeError::InvalidScheme)
    } else if !precheck {
        Err(SchemeError::InvalidBeacon)
    } else if signature_ok {
        Ok(b)
    } else {
        Err(SchemeError::InvalidBeacon)
    }
}

/// The outcome of one scheme's verification on one chain and one record.
pub open spec fn scheme_outcome<S: Scheme>(s: S, info: ChainInfo, b: Beacon) -> Result<
    Beacon,
    SchemeError,
> {
    verdict(
        s.spec_supports(info.scheme_id@),
        s.spec_precheck(b),
        bls_verify_spec(info.public_key@, s.spec_message(b), b.signature@),
        b,
    )
}

/// A ready client: chain info fetched and parsed once at construction, then
/// reusable for any number of independent requests.
pub struct DrandClient<S: Scheme, T: Transport> {
    scheme: S,
    transport: T,
    base_url: String,
    chain_info: ChainInfo,
}

/// Fetches and decodes the chain info document at `{base_url}/info`. One
/// attempt: a transport failure is `NotResponding`, a body that does not
/// decode is `InvalidChainInfo`.
pub fn fetch_chain_info<T: Transport>(transport: &T, base_url: &str) -> (r: Result<
    ChainInfo,
    DrandClientError,
>)
    ensures
        r matches Ok(info) ==> info.wf(),
        r matches Err(e) ==> e == DrandClientError::NotResponding || e
            == DrandClientError::InvalidChainInfo,
{
    let mut url = String::from_str(base_url);
    url.append("/info");
    match transport.fetch(url.as_str()) {
        Err(_) => Err(DrandClientError::NotResponding),
        Ok(body) => parse_chain_info(body.as_str()),
    }
}

/// Constructs a client for the given scheme over the given transport:
/// fetches the chain info once; on any failure no client is produced.
pub fn new_client<S: Scheme, T: Transport>(scheme: S, transport: T, base_url: &str) -> (r: Result<
    DrandClient<S, T>,
    DrandClientError,
>)
    ensures
        r matches Ok(c) ==> c.spec_scheme() == scheme && c.spec_base_url() == base_url@
            && c.spec_chain_info().wf(),
        r matches Err(e) ==> e == DrandClientError::NotResponding || e
            == DrandClientError::InvalidChainInfo,
{
    let chain_info = match fetch_chain_info(&transport, base_url) {
        Ok(info) => info,
        Err(e) => {
            return Err(e);
        },
    };
    Ok(DrandClient { scheme, transport, base_url: String::from_str(base_url), chain_info })
}

/// A client for the chained scheme over the default HTTP transport.
pub fn new_chained_client(base_url: &str) -> (r: Result<
    DrandClient<ChainedScheme, HttpTransport>,
    DrandClientError,
>)
    ensures
        r matches Ok(c) ==> c.spec_scheme() == (ChainedScheme {  }) && c.spec_base_url()
            == base_url@ && c.spec_chain_info().wf(),
        r matches Err(e) ==> e == DrandClientError::NotResponding || e
            == DrandClientError::InvalidChainInfo,
{
    new_client(ChainedScheme {  }, HttpTransport::new(), base_url)
}

/// A client for the unchained scheme over the default HTTP transport.
pub fn new_unchained_client(base_url: &str) -> (r: Result<
    DrandClient<UnchainedScheme, HttpTransport>,
    DrandClientError,
>)
    ensures
        r matches Ok(c) ==> c.spec_scheme() == (UnchainedScheme {  }) && c.spec_base_url()
            == base_url@ && c.spec_chain_info().wf(),
        r matches Err(e) ==> e == DrandClientError::NotResponding || e
            == DrandClientError::InvalidChainInfo,
{
    new_client(UnchainedScheme {  }, HttpTransport::new(), base_url)
}

impl<S: Scheme, T: Transport> DrandClient<S, T> {
    /// The scheme this client was constructed for.
    pub closed spec fn spec_scheme(&self) -> S {
        self.scheme
    }

    /// The chain info fetched at construction.
    pub closed spec fn spec_chain_info(&self) -> ChainInfo {
        self.chain_info
    }

    /// The base URL this client was constructed for.
    pub closed spec fn spec_base_url(&self) -> Seq<char> {
        self.base_url@
    }

    /// Fetches and verifies the latest beacon. A returned record passed the
    /// active scheme's verification against this client's chain info; a
    /// client whose scheme does not match the chain returns only errors.
    pub fn latest_randomness(&self) -> (r: Result<Beacon, DrandClientError>)
        ensures
            r matches Ok(b) ==> scheme_outcome(self.spec_scheme(), self.spec_chain_info(), b)
                == Ok::<Beacon, SchemeError>(b),
            r matches Ok(b) ==> self.spec_scheme().spec_supports(
                self.spec_chain_info().scheme_id@,
            ) && self.spec_scheme().spec_precheck(b) && bls_verify_spec(
                self.spec_chain_info().public_key@,
                self.spec_scheme().spec_message(b),
                b.signature@,
            ),
            !self.spec_scheme().spec_supports(self.spec_chain_info().scheme_id@) ==> r is Err,
            r matches Err(e) ==> e == DrandClientError::NotResponding || e
                == DrandClientError::InvalidBeacon,
    {
        self.fetch_beacon_tag("latest")
    }

    /// Fetches and verifies the beacon of one round. Round zero is rejected
    /// as `InvalidRound` before any request is made; for any other round a
    /// returned record passed the active scheme's verification against this
    /// client's chain info.
    pub fn randomness(&self, round_number: u64) -> (r: Result<Beacon, DrandClientError>)
        ensures
            round_number == 0 <==> r == Err::<Beacon, DrandClientError>(
                DrandClientError::InvalidRound,
            ),
            r matches Ok(b) ==> scheme_outcome(self.spec_scheme(), self.spec_chain_info(), b)
                == Ok::<Beacon, SchemeError>(b),
            r matches Ok(b) ==> self.spec_scheme().spec_supports(
                self.spec_chain_info().scheme_id@,
            ) && self.spec_scheme().spec_precheck(b) && bls_verify_spec(
                self.spec_chain_info().public_key@,
                self.spec_scheme().spec_message(b),
                b.signature@,
            ),
            !self.spec_scheme().spec_supports(self.spec_chain_info().scheme_id@) ==> r is Err,
            r matches Err(e) ==> e == DrandClientError::InvalidRound || e
                == DrandClientError::NotResponding || e == DrandClientError::InvalidBeacon,
    {
        if round_number == 0 {
            return Err(DrandClientError::InvalidRound);
        }
        let tag = u64_to_dec(round_number);
        self.fetch_beacon_tag(tag.as_str())
    }

    /// The shared fetch-and-verify path: GET `{base_url}/public/{tag}`,
    /// decode, verify under the active scheme. Any scheme-layer error
    /// narrows to `InvalidBeacon`.
    fn fetch_beacon_tag(&self, tag: &str) -> (r: Result<Beacon, DrandClientError>)
        ensures
            r matches Ok(b) ==> scheme_outcome(self.spec_scheme(), self.spec_chain_info(), b)
                == Ok::<Beacon, SchemeError>(b),
            !self.spec_scheme().spec_supports(self.spec_chain_info().scheme_id@) ==> r is Err,
            r matches Err(e) ==> e == DrandClientError::NotResponding || e
                == DrandClientError::InvalidBeacon,
    {
        let mut url = String::from_str(self.base_url.as_str());
        url.append("/public/");
        url.append(tag);
        match self.transport.fetch(url.as_str()) {
            Err(_) => Err(DrandClientError::NotResponding),
            Ok(body) => match parse_beacon(body.as_str()) {
                Err(_) => Err(DrandClientError::InvalidBeacon),
                Ok(b) => match self.scheme.verify(&self.chain_info, b) {
                    Ok(verified) => Ok(verified),
                    Err(_) => Err(DrandClientError::InvalidBeacon),
                },
            },
        }
    }
}

/// A scheme rejects every beacon from a chain whose scheme identifier it does
/// not support, whatever the record or its signature.
pub proof fn lemma_scheme_mismatch_rejected<S: Scheme>(s: S, info: ChainInfo, b: Beacon)
    requires
        !s.spec_supports(info.scheme_id@),
    ensures
        scheme_outcome(s, info, b) == Err::<Beacon, SchemeError>(SchemeError::InvalidScheme),
{
}

/// A chained-scheme beacon without a previous signature never verifies: on a
/// matching chain it is rejected as an invalid beacon, on any other as an
/// invalid scheme — never accepted, whatever its signature.
pub proof fn lemma_chained_missing_prev_rejected(info: ChainInfo, b: Beacon)
    requires
        b.previous_signature is None,
    ensures
        scheme_outcome(ChainedScheme {  }, info, b) is Err,
        (ChainedScheme {  }).spec_supports(info.scheme_id@) ==> scheme_outcome(
            ChainedScheme {  },
            info,
            b,
        ) == Err::<Beacon, SchemeError>(SchemeError::InvalidBeacon),
{
}

} // verus!

