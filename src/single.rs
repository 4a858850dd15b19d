//! The single-period scheme: Ed25519 usable at period 0 only.
use crate::bytes::{take32, take64, to_vec, wipe32, SecretSeed};
use crate::ed25519::{
    ed25519_accepts, ed25519_signature_of, ed25519_public_key, ed25519_public_of, ed25519_sign, ed25519_verify,
};
use crate::error::{KesError, KesMError, Period};
use crate::traits::{
    KesAlgorithm, UnsoundKesAlgorithm, VerificationKey, SEED_SIZE,
};
use vstd::prelude::*;

verus! {

/// The single-period scheme over Ed25519.
pub struct SingleKes;

/// A single-period signing key: the 32-byte Ed25519 seed.
pub struct SingleSigningKey {
    seed: SecretSeed,
}

/// A single-period signature: a 64-byte Ed25519 signature.
#[derive(Clone, Copy, Debug, PartialEq, Eq)]
pub struct SingleSignature {
    /// The Ed25519 signature bytes.
    pub bytes: [u8; 64],
}

impl SingleSigningKey {
    /// The seed bytes.
    pub closed spec fn seed_view(&self) -> Seq<u8> {
        self.seed.bytes@
    }
}

impl KesAlgorithm for SingleKes {
    type SigningKey = SingleSigningKey;

    type Signature = SingleSignature;

    type Context = ();

    open spec fn fits() -> bool {
        true
    }

    open spec fn periods() -> nat {
        1
    }

    open spec fn sig_len() -> nat {
        64
    }

    open spec fn sk_len() -> nat {
        32
    }

    open spec fn sig_view(sig: SingleSignature) -> Seq<u8> {
        sig.bytes@
    }

    open spec fn sk_view(sk: SingleSigningKey) -> Seq<u8> {
        sk.seed_view()
    }

    open spec fn sk_inv(sk: SingleSigningKey) -> bool {
        sk.seed_view().len() == SEED_SIZE
    }

    open spec fn sk_period(sk: SingleSigningKey) -> nat {
        0
    }

    open spec fn sk_vk(sk: SingleSigningKey) -> Seq<u8> {
        ed25519_public_of(sk.seed_view())@
    }

    open spec fn vk_of_seed(seed: Seq<u8>) -> Seq<u8> {
        ed25519_public_of(seed)@
    }

    open spec fn sig_of(sk: SingleSigningKey, msg: Seq<u8>) -> Seq<u8> {
        ed25519_signature_of(sk.seed_view(), msg)@
    }

    open spec fn sk_of_seed(seed: Seq<u8>) -> Seq<u8> {
        seed
    }

    open spec fn next_view(sk: SingleSigningKey) -> Seq<u8> {
        sk.seed_view()
    }

    open spec fn accepts(vk: Seq<u8>, period: nat, msg: Seq<u8>, sig: Seq<u8>) -> bool {
        &&& period == 0
        &&& sig.len() == 64
        &&& vk.len() == 32
        &&& ed25519_accepts(vk, msg, sig)
    }

    proof fn lemma_sizes() {
    }

    proof fn lemma_sig_len(sig: SingleSignature) {
    }

    proof fn lemma_sig_view_injective(a: SingleSignature, b: SingleSignature) {
        assert(a.bytes == b.bytes);
    }

    proof fn lemma_sk_inv(sk: SingleSigningKey) {
    }

    proof fn lemma_sig_of_view(a: SingleSigningKey, b: SingleSigningKey, msg: Seq<u8>) {
    }

    proof fn lemma_vk_of_seed_len(seed: Seq<u8>) {
    }

    proof fn lemma_accepts_bounds(vk: Seq<u8>, period: nat, msg: Seq<u8>, sig: Seq<u8>) {
    }

    fn total_periods() -> (r: Period) {
        1
    }

    fn signature_size() -> (r: usize) {
        64
    }

    fn signing_key_size() -> (r: usize) {
        32
    }

    fn derive_verification_key(signing_key: &SingleSigningKey) -> (r: Result<
        VerificationKey,
        KesMError,
    >) {
        Ok(VerificationKey { bytes: ed25519_public_key(&signing_key.seed.bytes) })
    }

    fn sign_kes(context: &(), period: Period, message: &[u8], signing_key: &SingleSigningKey) -> (r:
        Result<SingleSignature, KesMError>) {
        if period >= 1 {
            return Err(KesMError::Kes(KesError::KeyExpired));
        }
        let bytes = ed25519_sign(&signing_key.seed.bytes, message);
        Ok(SingleSignature { bytes })
    }

    fn verify_kes(
        context: &(),
        verification_key: &VerificationKey,
        period: Period,
        message: &[u8],
        signature: &SingleSignature,
    ) -> (r: Result<(), KesError>) {
        if period != 0 {
            return Err(KesError::VerificationFailed);
        }
        if ed25519_verify(&verification_key.bytes, message, &signature.bytes) {
            Ok(())
        } else {
            Err(KesError::VerificationFailed)
        }
    }

    fn update_kes(context: &(), signing_key: SingleSigningKey, period: Period) -> (r: Result<
        Option<SingleSigningKey>,
        KesMError,
    >) {
        if period != 0 {
            Self::forget_signing_key_kes(signing_key);
            return Err(KesMError::Kes(KesError::PeriodOutOfRange { period, max_period: 1 }));
        }
        Self::forget_signing_key_kes(signing_key);
        Ok(None)
    }

    fn gen_key_kes_from_seed_bytes(seed: &[u8]) -> (r: Result<SingleSigningKey, KesMError>) {
        if seed.len() != SEED_SIZE {
            return Err(
                KesMError::Kes(KesError::WrongLength { context: "seed", expected: SEED_SIZE, actual: seed.len() }),
            );
        }
        let s = take32(seed, 0);
        assert(seed@.subrange(0, 32) == seed@);
        Ok(SingleSigningKey { seed: SecretSeed { bytes: s } })
    }

    fn raw_serialize_signature_kes(signature: &SingleSignature) -> (r: Vec<u8>) {
        to_vec(&signature.bytes)
    }

    fn raw_deserialize_signature_kes(bytes: &[u8]) -> (r: Option<SingleSignature>) {
        if bytes.len() == 64 {
            let b = take64(bytes, 0);
            assert(bytes@.subrange(0, 64) == bytes@);
            Some(SingleSignature { bytes: b })
        } else {
            None
        }
    }

    fn forget_signing_key_kes(signing_key: SingleSigningKey) {
        let mut key = signing_key;
        wipe32(&mut key.seed.bytes);
    }
}

impl UnsoundKesAlgorithm for SingleKes {
    fn raw_serialize_signing_key_kes(key: &SingleSigningKey) -> (r: Vec<u8>) {
        to_vec(&key.seed.bytes)
    }
}

} // verus!
