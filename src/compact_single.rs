//! The compact single-period scheme: an Ed25519 signature that carries its
//! own verification key, the base of the compact sum tower.
use crate::bytes::{append_bytes, bytes_eq, take32, take64, to_vec};
use crate::ed25519::{ed25519_accepts, ed25519_verify};
use crate::error::{KesError, KesMError, Period};
use crate::single::{SingleKes, SingleSigningKey};
use crate::traits::{KesAlgorithm, UnsoundKesAlgorithm, VerificationKey, VERIFICATION_KEY_SIZE};
use vstd::prelude::*;

verus! {

/// A scheme whose signatures determine the verification key they verify
/// under, given the period.
pub trait OptimizedKesSignature: KesAlgorithm {
    /// The verification key a serialized signature carries for a period.
    spec fn vk_from_sig(period: nat, sig: Seq<u8>) -> Seq<u8>;

    /// An accepted signature verifies only under the key it carries.
    proof fn lemma_accepts_embedded(vk: Seq<u8>, period: nat, msg: Seq<u8>, sig: Seq<u8>)
        requires
            Self::accepts(vk, period, msg, sig),
        ensures
            vk == Self::vk_from_sig(period, sig),
    ;

    /// The key carried by a signature of the scheme's length has 32 bytes.
    proof fn lemma_vk_from_sig_len(period: nat, sig: Seq<u8>)
        requires
            Self::fits(),
            sig.len() == Self::sig_len(),
        ensures
            Self::vk_from_sig(period, sig).len() == VERIFICATION_KEY_SIZE,
    ;

    /// The verification key a signature carries for a period.
    fn embedded_verification_key(period: Period, signature: &Self::Signature) -> (r:
        VerificationKey)
        requires
            Self::fits(),
        ensures
            r.bytes@ == Self::vk_from_sig(period as nat, Self::sig_view(*signature)),
    ;
}

/// The compact single-period scheme over Ed25519.
pub struct CompactSingleKes;

/// A compact single-period signature: the Ed25519 signature and the
/// verification key it was made for (96 bytes).
#[derive(Clone, Copy, Debug, PartialEq, Eq)]
pub struct CompactSingleSig {
    /// The Ed25519 signature.
    pub sig: [u8; 64],
    /// The verification key.
    pub vk: VerificationKey,
}

impl KesAlgorithm for CompactSingleKes {
    type SigningKey = SingleSigningKey;

    type Signature = CompactSingleSig;

    type Context = ();

    open spec fn fits() -> bool {
        true
    }

    open spec fn periods() -> nat {
        1
    }

    open spec fn sig_len() -> nat {
        96
    }

    open spec fn sk_len() -> nat {
        32
    }

    open spec fn sig_view(sig: CompactSingleSig) -> Seq<u8> {
        sig.sig@ + sig.vk.bytes@
    }

    open spec fn sk_view(sk: SingleSigningKey) -> Seq<u8> {
        SingleKes::sk_view(sk)
    }

    open spec fn sk_inv(sk: SingleSigningKey) -> bool {
        SingleKes::sk_inv(sk)
    }

    open spec fn sk_period(sk: SingleSigningKey) -> nat {
        0
    }

    open spec fn sk_vk(sk: SingleSigningKey) -> Seq<u8> {
        SingleKes::sk_vk(sk)
    }

    open spec fn vk_of_seed(seed: Seq<u8>) -> Seq<u8> {
        SingleKes::vk_of_seed(seed)
    }

    open spec fn sig_of(sk: SingleSigningKey, msg: Seq<u8>) -> Seq<u8> {
        SingleKes::sig_of(sk, msg) + SingleKes::sk_vk(sk)
    }

    open spec fn sk_of_seed(seed: Seq<u8>) -> Seq<u8> {
        seed
    }

    open spec fn next_view(sk: SingleSigningKey) -> Seq<u8> {
        SingleKes::next_view(sk)
    }

    open spec fn accepts(vk: Seq<u8>, period: nat, msg: Seq<u8>, sig: Seq<u8>) -> bool {
        &&& period == 0
        &&& sig.len() == 96
        &&& vk.len() == 32
        &&& sig.subrange(64, 96) == vk
        &&& ed25519_accepts(vk, msg, sig.subrange(0, 64))
    }

    proof fn lemma_sizes() {
    }

    proof fn lemma_sig_len(sig: CompactSingleSig) {
    }

    proof fn lemma_sig_view_injective(a: CompactSingleSig, b: CompactSingleSig) {
        assert(a.sig@ =~= Self::sig_view(a).subrange(0, 64));
        assert(b.sig@ =~= Self::sig_view(b).subrange(0, 64));
        assert(a.vk.bytes@ =~= Self::sig_view(a).subrange(64, 96));
        assert(b.vk.bytes@ =~= Self::sig_view(b).subrange(64, 96));
        assert(a.sig == b.sig);
        assert(a.vk.bytes == b.vk.bytes);
    }

    proof fn lemma_sk_inv(sk: SingleSigningKey) {
        SingleKes::lemma_sk_inv(sk);
    }

    proof fn lemma_sig_of_view(a: SingleSigningKey, b: SingleSigningKey, msg: Seq<u8>) {
    }

    proof fn lemma_vk_of_seed_len(seed: Seq<u8>) {
        SingleKes::lemma_vk_of_seed_len(seed);
    }

    proof fn lemma_accepts_bounds(vk: Seq<u8>, period: nat, msg: Seq<u8>, sig: Seq<u8>) {
    }

    fn total_periods() -> (r: Period) {
        1
    }

    fn signature_size() -> (r: usize) {
        96
    }

    fn signing_key_size() -> (r: usize) {
        32
    }

    fn derive_verification_key(signing_key: &SingleSigningKey) -> (r: Result<
        VerificationKey,
        KesMError,
    >) {
        SingleKes::derive_verification_key(signing_key)
    }

    fn sign_kes(context: &(), period: Period, message: &[u8], signing_key: &SingleSigningKey) -> (r:
        Result<CompactSingleSig, KesMError>) {
        match SingleKes::sign_kes(context, period, message, signing_key) {
            Ok(s) => {
                let vk = match SingleKes::derive_verification_key(signing_key) {
                    Ok(v) => v,
                    Err(e) => {
                        return Err(e);
                    },
                };
                let sig = CompactSingleSig { sig: s.bytes, vk };
                assert(Self::sig_view(sig).subrange(0, 64) =~= s.bytes@);
                assert(Self::sig_view(sig).subrange(64, 96) =~= vk.bytes@);
                Ok(sig)
            },
            Err(e) => Err(e),
        }
    }

    fn verify_kes(
        context: &(),
        verification_key: &VerificationKey,
        period: Period,
        message: &[u8],
        signature: &CompactSingleSig,
    ) -> (r: Result<(), KesError>) {
        assert(Self::sig_view(*signature).subrange(0, 64) =~= signature.sig@);
        assert(Self::sig_view(*signature).subrange(64, 96) =~= signature.vk.bytes@);
        if period != 0 {
            return Err(KesError::VerificationFailed);
        }
        if !bytes_eq(&signature.vk.bytes, &verification_key.bytes) {
            return Err(KesError::VerificationFailed);
        }
        if ed25519_verify(&verification_key.bytes, message, &signature.sig) {
            Ok(())
        } else {
            Err(KesError::VerificationFailed)
        }
    }

    fn update_kes(context: &(), signing_key: SingleSigningKey, period: Period) -> (r: Result<
        Option<SingleSigningKey>,
        KesMError,
    >) {
        SingleKes::update_kes(context, signing_key, period)
    }

    fn gen_key_kes_from_seed_bytes(seed: &[u8]) -> (r: Result<SingleSigningKey, KesMError>) {
        SingleKes::gen_key_kes_from_seed_bytes(seed)
    }

    fn raw_serialize_signature_kes(signature: &CompactSingleSig) -> (r: Vec<u8>) {
        let mut out = to_vec(&signature.sig);
        append_bytes(&mut out, &signature.vk.bytes);
        out
    }

    fn raw_deserialize_signature_kes(bytes: &[u8]) -> (r: Option<CompactSingleSig>) {
        if bytes.len() == 96 {
            let sig = CompactSingleSig {
                sig: take64(bytes, 0),
                vk: VerificationKey { bytes: take32(bytes, 64) },
            };
            assert(Self::sig_view(sig) =~= bytes@);
            Some(sig)
        } else {
            None
        }
    }

    fn forget_signing_key_kes(signing_key: SingleSigningKey) {
        SingleKes::forget_signing_key_kes(signing_key)
    }
}

impl OptimizedKesSignature for CompactSingleKes {
    open spec fn vk_from_sig(period: nat, sig: Seq<u8>) -> Seq<u8> {
        sig.subrange(64, 96)
    }

    proof fn lemma_accepts_embedded(vk: Seq<u8>, period: nat, msg: Seq<u8>, sig: Seq<u8>) {
    }

    proof fn lemma_vk_from_sig_len(period: nat, sig: Seq<u8>) {
    }

    fn embedded_verification_key(period: Period, signature: &CompactSingleSig) -> (r:
        VerificationKey) {
        assert(Self::sig_view(*signature).subrange(64, 96) =~= signature.vk.bytes@);
        signature.vk
    }
}

impl UnsoundKesAlgorithm for CompactSingleKes {
    fn raw_serialize_signing_key_kes(key: &SingleSigningKey) -> (r: Vec<u8>) {
        SingleKes::raw_serialize_signing_key_kes(key)
    }
}

} // verus!
