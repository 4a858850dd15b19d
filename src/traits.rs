//! The interface every key evolving signature scheme provides.
use crate::bytes::to_vec;
use crate::error::{KesError, KesMError, Period};
use vstd::prelude::*;

verus! {

/// The length of every seed, in bytes.
pub const SEED_SIZE: usize = 32;

/// The length of every verification key, in bytes.
pub const VERIFICATION_KEY_SIZE: usize = 32;

/// The largest signature or signing key length a scheme may have.
pub const MAX_ENCODED_SIZE: usize = 0x1_0000;

/// A verification key: 32 bytes (an Ed25519 public key at the leaves, a hash
/// of the two subtrees' keys above them).
#[derive(Clone, Copy, Debug, PartialEq, Eq)]
pub struct VerificationKey {
    /// The key's bytes.
    pub bytes: [u8; 32],
}

/// A key evolving signature scheme.
pub trait KesAlgorithm: Sized {
    /// The secret key, which evolves from period to period.
    type SigningKey;

    /// A signature.
    type Signature;

    /// A context parameter; `()` for every scheme here.
    type Context;

    /// The scheme's sizes and period count fit machine integers.
    spec fn fits() -> bool;

    /// The number of periods.
    spec fn periods() -> nat;

    /// The length of a serialized signature.
    spec fn sig_len() -> nat;

    /// The length of a serialized signing key.
    spec fn sk_len() -> nat;

    /// The serialized form of a signature.
    spec fn sig_view(sig: Self::Signature) -> Seq<u8>;

    /// The serialized form of a signing key.
    spec fn sk_view(sk: Self::SigningKey) -> Seq<u8>;

    /// The well-formedness of a signing key.
    spec fn sk_inv(sk: Self::SigningKey) -> bool;

    /// The period a signing key is at.
    spec fn sk_period(sk: Self::SigningKey) -> nat;

    /// The verification key of a signing key.
    spec fn sk_vk(sk: Self::SigningKey) -> Seq<u8>;

    /// The verification key generated from a seed.
    spec fn vk_of_seed(seed: Seq<u8>) -> Seq<u8>;

    /// The serialized signature a signing key makes for a message.
    spec fn sig_of(sk: Self::SigningKey, msg: Seq<u8>) -> Seq<u8>;

    /// The serialized period-0 signing key generated from a seed.
    spec fn sk_of_seed(seed: Seq<u8>) -> Seq<u8>;

    /// The serialized signing key that evolving a key one period yields.
    spec fn next_view(sk: Self::SigningKey) -> Seq<u8>;

    /// Whether a signature of a message verifies under a key at a period.
    spec fn accepts(vk: Seq<u8>, period: nat, msg: Seq<u8>, sig: Seq<u8>) -> bool;

    /// Bounds that follow from `fits`.
    proof fn lemma_sizes()
        requires
            Self::fits(),
        ensures
            1 <= Self::periods() <= u64::MAX,
            Self::sig_len() <= MAX_ENCODED_SIZE,
            Self::sk_len() <= MAX_ENCODED_SIZE,
    ;

    /// Every signature serializes to the scheme's signature length.
    proof fn lemma_sig_len(sig: Self::Signature)
        requires
            Self::fits(),
        ensures
            Self::sig_view(sig).len() == Self::sig_len(),
    ;

    /// Two signatures with the same serialization are the same signature.
    proof fn lemma_sig_view_injective(a: Self::Signature, b: Self::Signature)
        requires
            Self::sig_view(a) == Self::sig_view(b),
        ensures
            a == b,
    ;

    /// What a well-formed signing key satisfies.
    proof fn lemma_sk_inv(sk: Self::SigningKey)
        requires
            Self::fits(),
            Self::sk_inv(sk),
        ensures
            Self::sk_period(sk) < Self::periods(),
            Self::sk_view(sk).len() == Self::sk_len(),
            Self::sk_vk(sk).len() == VERIFICATION_KEY_SIZE,
    ;

    /// Two well-formed keys with the same serialization sign alike.
    proof fn lemma_sig_of_view(a: Self::SigningKey, b: Self::SigningKey, msg: Seq<u8>)
        requires
            Self::fits(),
            Self::sk_inv(a),
            Self::sk_inv(b),
            Self::sk_view(a) == Self::sk_view(b),
        ensures
            Self::sig_of(a, msg) == Self::sig_of(b, msg),
    ;

    /// Every verification key generated from a seed has 32 bytes.
    proof fn lemma_vk_of_seed_len(seed: Seq<u8>)
        requires
            Self::fits(),
        ensures
            Self::vk_of_seed(seed).len() == VERIFICATION_KEY_SIZE,
    ;

    /// A signature is accepted only at a period of the scheme and with the
    /// scheme's signature length.
    proof fn lemma_accepts_bounds(vk: Seq<u8>, period: nat, msg: Seq<u8>, sig: Seq<u8>)
        requires
            Self::accepts(vk, period, msg, sig),
        ensures
            period < Self::periods(),
            sig.len() == Self::sig_len(),
    ;

    /// The number of periods.
    fn total_periods() -> (r: Period)
        requires
            Self::fits(),
        ensures
            r == Self::periods(),
    ;

    /// The length of a serialized signature.
    fn signature_size() -> (r: usize)
        requires
            Self::fits(),
        ensures
            r == Self::sig_len(),
    ;

    /// The length of a serialized signing key.
    fn signing_key_size() -> (r: usize)
        requires
            Self::fits(),
        ensures
            r == Self::sk_len(),
    ;

    /// The verification key of a signing key.
    fn derive_verification_key(signing_key: &Self::SigningKey) -> (r: Result<
        VerificationKey,
        KesMError,
    >)
        requires
            Self::fits(),
            Self::sk_inv(*signing_key),
        ensures
            r is Ok,
            r matches Ok(vk) ==> vk.bytes@ == Self::sk_vk(*signing_key),
    ;

    /// Signs a message at the key's current period.
    fn sign_kes(
        context: &Self::Context,
        period: Period,
        message: &[u8],
        signing_key: &Self::SigningKey,
    ) -> (r: Result<Self::Signature, KesMError>)
        requires
            Self::fits(),
            Self::sk_inv(*signing_key),
        ensures
            period >= Self::periods() ==> r == Err::<Self::Signature, KesMError>(
                KesMError::Kes(KesError::KeyExpired),
            ),
            period < Self::periods() && period != Self::sk_period(*signing_key) ==> r == Err::<
                Self::Signature,
                KesMError,
            >(KesMError::Kes(KesError::PeriodOutOfRange { period, max_period: Self::periods() as u64 })),
            period == Self::sk_period(*signing_key) ==> r is Ok,
            r matches Ok(sig) ==> Self::sig_view(sig) == Self::sig_of(*signing_key, message@),
            r matches Ok(sig) ==> Self::accepts(
                Self::sk_vk(*signing_key),
                period as nat,
                message@,
                Self::sig_view(sig),
            ),
    ;

    /// Verifies a signature of a message under a key at a period.
    fn verify_kes(
        context: &Self::Context,
        verification_key: &VerificationKey,
        period: Period,
        message: &[u8],
        signature: &Self::Signature,
    ) -> (r: Result<(), KesError>)
        requires
            Self::fits(),
        ensures
            r is Ok <==> Self::accepts(
                verification_key.bytes@,
                period as nat,
                message@,
                Self::sig_view(*signature),
            ),
            r is Err ==> r == Err::<(), KesError>(KesError::VerificationFailed),
    ;

    /// Evolves a signing key from `period` to the next period; `None` once
    /// the key has served its last period. The given key is consumed and its
    /// superseded secrets are wiped.
    fn update_kes(context: &Self::Context, signing_key: Self::SigningKey, period: Period) -> (r:
        Result<Option<Self::SigningKey>, KesMError>)
        requires
            Self::fits(),
            Self::sk_inv(signing_key),
        ensures
            period != Self::sk_period(signing_key) ==> r is Err && r->Err_0 == KesMError::Kes(
                KesError::PeriodOutOfRange { period, max_period: Self::periods() as u64 },
            ),
            period == Self::sk_period(signing_key) && period + 1 >= Self::periods() ==> r is Ok
                && r->Ok_0 is None,
            period == Self::sk_period(signing_key) && period + 1 < Self::periods() ==> r is Ok
                && r->Ok_0 is Some,
            r matches Ok(Some(k)) ==> Self::sk_inv(k) && Self::sk_period(k) == period + 1
                && Self::sk_vk(k) == Self::sk_vk(signing_key) && Self::sk_view(k) == Self::next_view(
                signing_key,
            ),
    ;

    /// Generates the period-0 signing key of a 32-byte seed.
    fn gen_key_kes_from_seed_bytes(seed: &[u8]) -> (r: Result<Self::SigningKey, KesMError>)
        requires
            Self::fits(),
        ensures
            r is Ok <==> seed@.len() == SEED_SIZE,
            seed@.len() != SEED_SIZE ==> r is Err && r->Err_0 == KesMError::Kes(
                KesError::WrongLength { context: "seed", expected: SEED_SIZE, actual: seed@.len() as usize },
            ),
            r matches Ok(k) ==> Self::sk_inv(k) && Self::sk_period(k) == 0 && Self::sk_vk(k)
                == Self::vk_of_seed(seed@) && Self::sk_view(k) == Self::sk_of_seed(seed@),
    ;

    /// The bytes of a verification key.
    fn raw_serialize_verification_key_kes(key: &VerificationKey) -> (r: Vec<u8>)
        ensures
            r@ == key.bytes@,
    {
        to_vec(&key.bytes)
    }

    /// Reads a verification key; `None` unless there are exactly 32 bytes.
    fn raw_deserialize_verification_key_kes(bytes: &[u8]) -> (r: Option<VerificationKey>)
        ensures
            r is Some <==> bytes@.len() == VERIFICATION_KEY_SIZE,
            r matches Some(vk) ==> vk.bytes@ == bytes@,
    {
        if bytes.len() == VERIFICATION_KEY_SIZE {
            let b = crate::bytes::take32(bytes, 0);
            assert(bytes@.subrange(0, 32) == bytes@);
            Some(VerificationKey { bytes: b })
        } else {
            None
        }
    }

    /// The bytes of a signature.
    fn raw_serialize_signature_kes(signature: &Self::Signature) -> (r: Vec<u8>)
        requires
            Self::fits(),
        ensures
            r@ == Self::sig_view(*signature),
    ;

    /// Reads a signature; `None` unless the length is the scheme's.
    fn raw_deserialize_signature_kes(bytes: &[u8]) -> (r: Option<Self::Signature>)
        requires
            Self::fits(),
        ensures
            r is Some <==> bytes@.len() == Self::sig_len(),
            r matches Some(sig) ==> Self::sig_view(sig) == bytes@,
    ;

    /// Wipes a signing key's secrets and drops it.
    fn forget_signing_key_kes(signing_key: Self::SigningKey)
        requires
            Self::fits(),
    ;
}

/// Signing-key serialization, for producing test vectors only.
pub trait UnsoundKesAlgorithm: KesAlgorithm {
    /// The bytes of a signing key.
    fn raw_serialize_signing_key_kes(key: &Self::SigningKey) -> (r: Vec<u8>)
        requires
            Self::fits(),
            Self::sk_inv(*key),
        ensures
            r@ == Self::sk_view(*key),
    ;
}

} // verus!
