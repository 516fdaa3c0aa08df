//! The pairing-based signature check shared by both beacon schemes, and the
//! construction of the signed message each scheme expects.
//!
//! The digest and the pairing check themselves are outside computations; each
//! is named by an uninterpreted spec function, so every contract above this
//! module speaks of `sha256_spec` and `bls_verify_spec` exactly.

use vstd::prelude::*;
use crate::codec::round_bytes;
use crate::codec::round_to_bytes;
use sha2::Digest;
use sha2::Sha256;
use bls12_381::hash_to_curve::ExpandMsgXmd;
use bls12_381::hash_to_curve::HashToCurve;
use bls12_381::pairing;
use bls12_381::G1Affine;
use bls12_381::G2Affine;
use bls12_381::G2Projective;

verus! {

/// The SHA-256 digest of a byte sequence. A function of the input alone.
pub uninterp spec fn sha256_spec(data: Seq<u8>) -> Seq<u8>;

/// Whether a BLS signature over the BLS12-381 curve verifies for a public key
/// and a message. A function of the three byte strings alone; a malformed
/// public-key or signature encoding makes it false, never an error.
pub uninterp spec fn bls_verify_spec(public_key: Seq<u8>, message: Seq<u8>, signature: Seq<u8>) -> bool;

/// Relies on sha2::Sha256: a 32-byte digest determined by the input alone.
#[verifier::external_body]
pub fn sha256(data: &[u8]) -> (r: Vec<u8>)
    ensures
        r@ == sha256_spec(data@),
        r@.len() == 32,
{
    Sha256::digest(data).to_vec()
}

/// Relies on bls12_381: decompression of the G1 public key and G2 signature
/// (`from_compressed` rejects malformed encodings), hash-to-curve of the
/// message into G2 under the standard signature domain tag, and the pairing
/// equality e(pk, H(m)) == e(g1, sig). Deterministic in its inputs; every
/// failure is the result `false`.
#[verifier::external_body]
pub fn bls_verify(public_key: &[u8], message: &[u8], signature: &[u8]) -> (r: bool)
    ensures
        r == bls_verify_spec(public_key@, message@, signature@),
{
    let pk = <[u8; 48]>::try_from(public_key).ok().and_then(|b| Option::<G1Affine>::from(G1Affine::from_compressed(&b)));
    let sig = <[u8; 96]>::try_from(signature).ok().and_then(|b| Option::<G2Affine>::from(G2Affine::from_compressed(&b)));
    let (pk, sig) = match (pk, sig) { (Some(p), Some(s)) => (p, s), _ => return false };
    let h = <G2Projective as HashToCurve<ExpandMsgXmd<Sha256>>>::hash_to_curve([message], b"BLS_SIG_BLS12381G2_XMD:SHA-256_SSWU_RO_NUL_");
    pairing(&pk, &G2Affine::from(h)) == pairing(&G1Affine::generator(), &sig)
}

/// The signed message of the chained scheme: the digest of the previous
/// round's signature followed by the round number in big-endian bytes.
pub open spec fn chained_message(prev_signature: Seq<u8>, round: u64) -> Seq<u8> {
    sha256_spec(prev_signature + round_bytes(round))
}

/// The signed message of the unchained scheme: the digest of the round
/// number's big-endian bytes alone.
pub open spec fn unchained_message(round: u64) -> Seq<u8> {
    sha256_spec(round_bytes(round))
}

/// Builds the chained scheme's message for a round.
pub fn hash_chained(prev_signature: &[u8], round: u64) -> (r: Vec<u8>)
    ensures
        r@ == chained_message(prev_signature@, round),
{
    let mut data: Vec<u8> = Vec::new();
    let n: usize = prev_signature.len();
    let mut i: usize = 0;
    while i < n
        invariant
            n == prev_signature@.len(),
            i <= n,
            data@ =~= prev_signature@.take(i as int),
        decreases n - i,
    {
        data.push(prev_signature[i]);
        i += 1;
    }
    let mut round_part = round_to_bytes(round);
    data.append(&mut round_part);
    proof {
        assert(data@ =~= prev_signature@ + round_bytes(round));
    }
    sha256(data.as_slice())
}

/// Builds the unchained scheme's message for a round.
pub fn hash_unchained(round: u64) -> (r: Vec<u8>)
    ensures
        r@ == unchained_message(round),
{
    let data = round_to_bytes(round);
    sha256(data.as_slice())
}

} // verus!
