//! The Ed25519 primitive under the single-period schemes.
use ed25519_dalek::{Signer, Verifier};
use vstd::prelude::*;

verus! {

/// The Ed25519 public key derived from a 32-byte secret seed.
pub uninterp spec fn ed25519_public_of(seed: Seq<u8>) -> [u8; 32];

/// The deterministic Ed25519 signature of a message under a secret seed.
pub uninterp spec fn ed25519_signature_of(seed: Seq<u8>, msg: Seq<u8>) -> [u8; 64];

/// Whether Ed25519 verification accepts a signature of a message under a
/// public key.
pub uninterp spec fn ed25519_accepts(public: Seq<u8>, msg: Seq<u8>, sig: Seq<u8>) -> bool;

/// Relies on ed25519_dalek's `SigningKey::from_bytes` and `verifying_key`:
/// the public key is a function of the seed alone.
#[verifier::external_body]
pub(crate) fn ed25519_public_key(seed: &[u8; 32]) -> (r: [u8; 32])
    ensures
        r == ed25519_public_of(seed@),
{
    ed25519_dalek::SigningKey::from_bytes(seed).verifying_key().to_bytes()
}

/// Relies on ed25519_dalek's `SigningKey::sign`: deterministic RFC 8032
/// signing, and a signature made with a signing key verifies under that
/// key's verifying key.
#[verifier::external_body]
pub(crate) fn ed25519_sign(seed: &[u8; 32], msg: &[u8]) -> (r: [u8; 64])
    ensures
        r == ed25519_signature_of(seed@, msg@),
        ed25519_accepts(ed25519_public_of(seed@)@, msg@, r@),
{
    ed25519_dalek::SigningKey::from_bytes(seed).sign(msg).to_bytes()
}

/// Relies on ed25519_dalek's `VerifyingKey::from_bytes` and `verify`: the
/// verdict depends on the three byte strings alone; bytes that are no point
/// of the curve are rejected.
#[verifier::external_body]
pub(crate) fn ed25519_verify(public: &[u8; 32], msg: &[u8], sig: &[u8; 64]) -> (r: bool)
    ensures
        r == ed25519_accepts(public@, msg@, sig@),
{
    match ed25519_dalek::VerifyingKey::from_bytes(public) {
        Ok(key) => key.verify(msg, &ed25519_dalek::Signature::from_bytes(sig)).is_ok(),
        Err(_) => false,
    }
}

} // verus!
