//! The compact sum composition: like the sum, but a signature carries only
//! the sibling's verification key, since the active child's key can be
//! recovered from the child signature.
use crate::bytes::{append_bytes, bytes_eq, take32, wipe32, wipe_vec, zeros32, SecretSeed};
use crate::compact_single::{CompactSingleKes, OptimizedKesSignature};
use crate::error::{KesError, KesMError, Period};
use crate::hash::{left_seed_input, right_seed_input, Blake2b256, KesHashAlgorithm};
use crate::sum::parent_vk;
use crate::traits::{
    KesAlgorithm, UnsoundKesAlgorithm, VerificationKey, MAX_ENCODED_SIZE, SEED_SIZE,
    VERIFICATION_KEY_SIZE,
};
use core::marker::PhantomData;
use vstd::prelude::*;

verus! {

/// The compact sum of two copies of the compact child scheme `D`, joined by
/// the hash `H`.
pub struct CompactSumKes<D, H> {
    _child: PhantomData<D>,
    _hash: PhantomData<H>,
}

/// A compact sum signing key: the child key in use, the seed reserved for
/// the right subtree (zero once consumed), the sibling subtree's
/// verification key and the current period.
pub struct CompactSumSigningKey<D: KesAlgorithm> {
    child: D::SigningKey,
    r1: SecretSeed,
    vk_other: VerificationKey,
    period: Period,
}

/// A compact sum signature: the child signature and the sibling subtree's
/// verification key.
pub struct CompactSumSig<D: KesAlgorithm> {
    /// The signature of the child in use.
    pub sigma: D::Signature,
    /// The verification key of the subtree not in use.
    pub vk_other: VerificationKey,
}

impl<D: KesAlgorithm> CompactSumSigningKey<D> {
    /// The child key in use.
    pub closed spec fn child_key(self) -> D::SigningKey {
        self.child
    }

    /// The reserved right seed.
    pub closed spec fn right_seed(self) -> Seq<u8> {
        self.r1.bytes@
    }

    /// The sibling subtree's verification key.
    pub closed spec fn other_vk(self) -> Seq<u8> {
        self.vk_other.bytes@
    }

    /// The current period.
    pub closed spec fn current_period(self) -> nat {
        self.period as nat
    }
}

/// The parent key of an active child key and its sibling, ordered by side.
pub open spec fn ordered_parent_vk<H: KesHashAlgorithm>(
    left_active: bool,
    active: Seq<u8>,
    other: Seq<u8>,
) -> Seq<u8> {
    if left_active {
        parent_vk::<H>(active, other)
    } else {
        parent_vk::<H>(other, active)
    }
}

impl<D: OptimizedKesSignature, H: KesHashAlgorithm> KesAlgorithm for CompactSumKes<D, H> {
    type SigningKey = CompactSumSigningKey<D>;

    type Signature = CompactSumSig<D>;

    type Context = D::Context;

    open spec fn fits() -> bool {
        &&& D::fits()
        &&& H::output_len() == VERIFICATION_KEY_SIZE
        &&& D::periods() * 2 <= u64::MAX
        &&& D::sig_len() + 32 <= MAX_ENCODED_SIZE
        &&& D::sk_len() + 64 <= MAX_ENCODED_SIZE
    }

    open spec fn periods() -> nat {
        D::periods() * 2
    }

    open spec fn sig_len() -> nat {
        D::sig_len() + 32
    }

    open spec fn sk_len() -> nat {
        D::sk_len() + 64
    }

    open spec fn sig_view(sig: CompactSumSig<D>) -> Seq<u8> {
        D::sig_view(sig.sigma) + sig.vk_other.bytes@
    }

    open spec fn sk_view(sk: CompactSumSigningKey<D>) -> Seq<u8> {
        D::sk_view(sk.child_key()) + sk.right_seed() + sk.other_vk()
    }

    open spec fn sk_inv(sk: CompactSumSigningKey<D>) -> bool {
        &&& D::sk_inv(sk.child_key())
        &&& sk.current_period() < Self::periods()
        &&& if sk.current_period() < D::periods() {
            &&& D::sk_period(sk.child_key()) == sk.current_period()
            &&& D::vk_of_seed(sk.right_seed()) == sk.other_vk()
        } else {
            &&& D::sk_period(sk.child_key()) == sk.current_period() - D::periods()
            &&& sk.right_seed() == zeros32()
        }
    }

    open spec fn sk_period(sk: CompactSumSigningKey<D>) -> nat {
        sk.current_period()
    }

    open spec fn sk_vk(sk: CompactSumSigningKey<D>) -> Seq<u8> {
        ordered_parent_vk::<H>(
            sk.current_period() < D::periods(),
            D::sk_vk(sk.child_key()),
            sk.other_vk(),
        )
    }

    open spec fn vk_of_seed(seed: Seq<u8>) -> Seq<u8> {
        parent_vk::<H>(
            D::vk_of_seed(H::digest(left_seed_input(seed))),
            D::vk_of_seed(H::digest(right_seed_input(seed))),
        )
    }

    open spec fn sig_of(sk: CompactSumSigningKey<D>, msg: Seq<u8>) -> Seq<u8> {
        D::sig_of(sk.child_key(), msg) + sk.other_vk()
    }

    open spec fn sk_of_seed(seed: Seq<u8>) -> Seq<u8> {
        let r0 = H::digest(left_seed_input(seed));
        let r1 = H::digest(right_seed_input(seed));
        D::sk_of_seed(r0) + r1 + D::vk_of_seed(r1)
    }

    open spec fn next_view(sk: CompactSumSigningKey<D>) -> Seq<u8> {
        let next = sk.current_period() + 1;
        if next < D::periods() {
            D::next_view(sk.child_key()) + sk.right_seed() + sk.other_vk()
        } else if next == D::periods() {
            D::sk_of_seed(sk.right_seed()) + zeros32() + D::sk_vk(sk.child_key())
        } else {
            D::next_view(sk.child_key()) + zeros32() + sk.other_vk()
        }
    }

    open spec fn accepts(vk: Seq<u8>, period: nat, msg: Seq<u8>, sig: Seq<u8>) -> bool {
        let a = D::sig_len() as int;
        let sigma = sig.subrange(0, a);
        let left = period < D::periods();
        let child_period = if left {
            period
        } else {
            (period - D::periods()) as nat
        };
        let active = D::vk_from_sig(child_period, sigma);
        &&& period < Self::periods()
        &&& sig.len() == Self::sig_len()
        &&& ordered_parent_vk::<H>(left, active, sig.subrange(a, a + 32)) == vk
        &&& D::accepts(active, child_period, msg, sigma)
    }

    proof fn lemma_sizes() {
        D::lemma_sizes();
    }

    proof fn lemma_sig_len(sig: CompactSumSig<D>) {
        D::lemma_sig_len(sig.sigma);
    }

    proof fn lemma_sig_view_injective(a: CompactSumSig<D>, b: CompactSumSig<D>) {
        let sa = D::sig_view(a.sigma);
        let sb = D::sig_view(b.sigma);
        let n = sa.len() as int;
        assert(a.vk_other.bytes@.len() == 32 && b.vk_other.bytes@.len() == 32);
        assert(Self::sig_view(a) == sa + a.vk_other.bytes@);
        assert(Self::sig_view(b) == sb + b.vk_other.bytes@);
        assert((sa + a.vk_other.bytes@).len() == sa.len() + 32);
        assert((sb + b.vk_other.bytes@).len() == sb.len() + 32);
        assert(sb.len() == sa.len());
        assert(sa =~= Self::sig_view(a).subrange(0, n));
        assert(sb =~= Self::sig_view(b).subrange(0, n));
        D::lemma_sig_view_injective(a.sigma, b.sigma);
        assert(a.vk_other.bytes@ =~= Self::sig_view(a).subrange(n, n + 32));
        assert(b.vk_other.bytes@ =~= Self::sig_view(b).subrange(n, n + 32));
        assert(a.vk_other.bytes == b.vk_other.bytes);
    }

    proof fn lemma_sk_inv(sk: CompactSumSigningKey<D>) {
        D::lemma_sk_inv(sk.child_key());
        H::lemma_digest_len(D::sk_vk(sk.child_key()) + sk.other_vk());
        H::lemma_digest_len(sk.other_vk() + D::sk_vk(sk.child_key()));
    }

    proof fn lemma_sig_of_view(a: CompactSumSigningKey<D>, b: CompactSumSigningKey<D>, msg: Seq<
        u8,
    >) {
        D::lemma_sk_inv(a.child_key());
        D::lemma_sk_inv(b.child_key());
        let va = Self::sk_view(a);
        let vb = Self::sk_view(b);
        let n = D::sk_len() as int;
        assert(va.subrange(0, n) =~= D::sk_view(a.child_key()));
        assert(vb.subrange(0, n) =~= D::sk_view(b.child_key()));
        D::lemma_sig_of_view(a.child_key(), b.child_key(), msg);
        assert(va.subrange(n + 32, n + 64) =~= a.other_vk());
        assert(vb.subrange(n + 32, n + 64) =~= b.other_vk());
    }

    proof fn lemma_vk_of_seed_len(seed: Seq<u8>) {
        H::lemma_digest_len(
            D::vk_of_seed(H::digest(left_seed_input(seed))) + D::vk_of_seed(
                H::digest(right_seed_input(seed)),
            ),
        );
    }

    proof fn lemma_accepts_bounds(vk: Seq<u8>, period: nat, msg: Seq<u8>, sig: Seq<u8>) {
    }

    fn total_periods() -> (r: Period) {
        proof {
            D::lemma_sizes();
        }
        D::total_periods() * 2
    }

    fn signature_size() -> (r: usize) {
        D::signature_size() + 32
    }

    fn signing_key_size() -> (r: usize) {
        D::signing_key_size() + 64
    }

    fn derive_verification_key(signing_key: &CompactSumSigningKey<D>) -> (r: Result<
        VerificationKey,
        KesMError,
    >) {
        proof {
            D::lemma_sizes();
            D::lemma_sk_inv(signing_key.child);
        }
        let active = match D::derive_verification_key(&signing_key.child) {
            Ok(v) => v,
            Err(e) => {
                return Err(e);
            },
        };
        let h = if signing_key.period < D::total_periods() {
            H::hash_concat(&active.bytes, &signing_key.vk_other.bytes)
        } else {
            H::hash_concat(&signing_key.vk_other.bytes, &active.bytes)
        };
        let bytes = take32(h.as_slice(), 0);
        assert(h@.subrange(0, 32) == h@);
        Ok(VerificationKey { bytes })
    }

    fn sign_kes(
        context: &D::Context,
        period: Period,
        message: &[u8],
        signing_key: &CompactSumSigningKey<D>,
    ) -> (r: Result<CompactSumSig<D>, KesMError>) {
        proof {
            D::lemma_sizes();
        }
        let half = D::total_periods();
        if period >= half * 2 {
            return Err(KesMError::Kes(KesError::KeyExpired));
        }
        if period != signing_key.period {
            return Err(
                KesMError::Kes(KesError::PeriodOutOfRange { period, max_period: half * 2 }),
            );
        }
        let child_period = if period < half {
            period
        } else {
            period - half
        };
        match D::sign_kes(context, child_period, message, &signing_key.child) {
            Ok(sigma) => {
                let sig = CompactSumSig { sigma, vk_other: signing_key.vk_other };
                proof {
                    D::lemma_sig_len(sigma);
                    let a = D::sig_len() as int;
                    let v = Self::sig_view(sig);
                    assert(v.subrange(0, a) =~= D::sig_view(sigma));
                    assert(v.subrange(a, a + 32) =~= signing_key.vk_other.bytes@);
                    D::lemma_accepts_embedded(
                        D::sk_vk(signing_key.child),
                        child_period as nat,
                        message@,
                        D::sig_view(sigma),
                    );
                }
                Ok(sig)
            },
            Err(e) => Err(e),
        }
    }

    fn verify_kes(
        context: &D::Context,
        verification_key: &VerificationKey,
        period: Period,
        message: &[u8],
        signature: &CompactSumSig<D>,
    ) -> (r: Result<(), KesError>) {
        proof {
            D::lemma_sizes();
            D::lemma_sig_len(signature.sigma);
            let a = D::sig_len() as int;
            let v = Self::sig_view(*signature);
            assert(v.subrange(0, a) =~= D::sig_view(signature.sigma));
            assert(v.subrange(a, a + 32) =~= signature.vk_other.bytes@);
        }
        let half = D::total_periods();
        if period >= half * 2 {
            return Err(KesError::VerificationFailed);
        }
        let child_period = if period < half {
            period
        } else {
            period - half
        };
        let active = D::embedded_verification_key(child_period, &signature.sigma);
        let h = if period < half {
            H::hash_concat(&active.bytes, &signature.vk_other.bytes)
        } else {
            H::hash_concat(&signature.vk_other.bytes, &active.bytes)
        };
        if !bytes_eq(h.as_slice(), &verification_key.bytes) {
            return Err(KesError::VerificationFailed);
        }
        D::verify_kes(context, &active, child_period, message, &signature.sigma)
    }

    fn update_kes(context: &D::Context, signing_key: CompactSumSigningKey<D>, period: Period) -> (r:
        Result<Option<CompactSumSigningKey<D>>, KesMError>) {
        proof {
            D::lemma_sizes();
            D::lemma_sk_inv(signing_key.child);
        }
        let half = D::total_periods();
        if period != signing_key.period {
            Self::forget_signing_key_kes(signing_key);
            return Err(
                KesMError::Kes(KesError::PeriodOutOfRange { period, max_period: half * 2 }),
            );
        }
        if period + 1 >= half * 2 {
            Self::forget_signing_key_kes(signing_key);
            return Ok(None);
        }
        let CompactSumSigningKey { child, r1, vk_other, period: _ } = signing_key;
        let mut r1 = r1;
        if period + 1 < half {
            match D::update_kes(context, child, period) {
                Ok(Some(c)) => Ok(
                    Some(CompactSumSigningKey { child: c, r1, vk_other, period: period + 1 }),
                ),
                // The child's contract rules this arm out: it serves the next period.
                Ok(None) => {
                    wipe32(&mut r1.bytes);
                    Err(KesMError::Kes(KesError::KeyExpired))
                },
                Err(e) => {
                    wipe32(&mut r1.bytes);
                    Err(e)
                },
            }
        } else if period + 1 == half {
            let vk0 = match D::derive_verification_key(&child) {
                Ok(v) => v,
                Err(e) => {
                    wipe32(&mut r1.bytes);
                    D::forget_signing_key_kes(child);
                    return Err(e);
                },
            };
            match D::gen_key_kes_from_seed_bytes(&r1.bytes) {
                Ok(c1) => {
                    wipe32(&mut r1.bytes);
                    D::forget_signing_key_kes(child);
                    Ok(Some(CompactSumSigningKey { child: c1, r1, vk_other: vk0, period: period + 1 }))
                },
                Err(e) => {
                    wipe32(&mut r1.bytes);
                    D::forget_signing_key_kes(child);
                    Err(e)
                },
            }
        } else {
            match D::update_kes(context, child, period - half) {
                Ok(Some(c)) => Ok(
                    Some(CompactSumSigningKey { child: c, r1, vk_other, period: period + 1 }),
                ),
                // The child's contract rules this arm out: it serves the next period.
                Ok(None) => Err(KesMError::Kes(KesError::KeyExpired)),
                Err(e) => Err(e),
            }
        }
    }

    fn gen_key_kes_from_seed_bytes(seed: &[u8]) -> (r: Result<CompactSumSigningKey<D>, KesMError>) {
        if seed.len() != SEED_SIZE {
            return Err(
                KesMError::Kes(KesError::WrongLength { context: "seed", expected: SEED_SIZE, actual: seed.len() }),
            );
        }
        let (mut r0, mut r1v) = H::expand_seed(seed);
        let sk0 = match D::gen_key_kes_from_seed_bytes(r0.as_slice()) {
            Ok(k) => k,
            Err(e) => {
                wipe_vec(&mut r0);
                wipe_vec(&mut r1v);
                return Err(e);
            },
        };
        wipe_vec(&mut r0);
        let tmp = match D::gen_key_kes_from_seed_bytes(r1v.as_slice()) {
            Ok(k) => k,
            Err(e) => {
                D::forget_signing_key_kes(sk0);
                wipe_vec(&mut r1v);
                return Err(e);
            },
        };
        let vk1 = match D::derive_verification_key(&tmp) {
            Ok(v) => v,
            Err(e) => {
                D::forget_signing_key_kes(sk0);
                D::forget_signing_key_kes(tmp);
                wipe_vec(&mut r1v);
                return Err(e);
            },
        };
        D::forget_signing_key_kes(tmp);
        let r1 = SecretSeed { bytes: take32(r1v.as_slice(), 0) };
        assert(r1v@.subrange(0, 32) == r1v@);
        assert(r1.bytes@ == H::digest(right_seed_input(seed@)));
        assert(D::vk_of_seed(r1.bytes@) == vk1.bytes@);
        wipe_vec(&mut r1v);
        proof {
            D::lemma_sizes();
        }
        Ok(CompactSumSigningKey { child: sk0, r1, vk_other: vk1, period: 0 })
    }

    fn raw_serialize_signature_kes(signature: &CompactSumSig<D>) -> (r: Vec<u8>) {
        proof {
            D::lemma_sizes();
            D::lemma_sig_len(signature.sigma);
        }
        let mut out = D::raw_serialize_signature_kes(&signature.sigma);
        append_bytes(&mut out, &signature.vk_other.bytes);
        out
    }

    fn raw_deserialize_signature_kes(bytes: &[u8]) -> (r: Option<CompactSumSig<D>>) {
        proof {
            D::lemma_sizes();
        }
        let a = D::signature_size();
        if bytes.len() != a + 32 {
            return None;
        }
        let head = vstd::slice::slice_subrange(bytes, 0, a);
        match D::raw_deserialize_signature_kes(head) {
            Some(sigma) => {
                let vk_other = VerificationKey { bytes: take32(bytes, a) };
                let sig = CompactSumSig { sigma, vk_other };
                assert(Self::sig_view(sig) =~= bytes@);
                Some(sig)
            },
            None => None,
        }
    }

    fn forget_signing_key_kes(signing_key: CompactSumSigningKey<D>) {
        let CompactSumSigningKey { child, r1, vk_other: _, period: _ } = signing_key;
        let mut r1 = r1;
        wipe32(&mut r1.bytes);
        D::forget_signing_key_kes(child);
    }
}

impl<D: OptimizedKesSignature, H: KesHashAlgorithm> OptimizedKesSignature for CompactSumKes<D, H> {
    open spec fn vk_from_sig(period: nat, sig: Seq<u8>) -> Seq<u8> {
        let a = D::sig_len() as int;
        let left = period < D::periods();
        let child_period = if left {
            period
        } else {
            (period - D::periods()) as nat
        };
        ordered_parent_vk::<H>(
            left,
            D::vk_from_sig(child_period, sig.subrange(0, a)),
            sig.subrange(a, a + 32),
        )
    }

    proof fn lemma_accepts_embedded(vk: Seq<u8>, period: nat, msg: Seq<u8>, sig: Seq<u8>) {
    }

    proof fn lemma_vk_from_sig_len(period: nat, sig: Seq<u8>) {
        let a = D::sig_len() as int;
        let left = period < D::periods();
        let child_period = if left {
            period
        } else {
            (period - D::periods()) as nat
        };
        let active = D::vk_from_sig(child_period, sig.subrange(0, a));
        let other = sig.subrange(a, a + 32);
        H::lemma_digest_len(active + other);
        H::lemma_digest_len(other + active);
    }

    fn embedded_verification_key(period: Period, signature: &CompactSumSig<D>) -> (r:
        VerificationKey) {
        proof {
            D::lemma_sizes();
            D::lemma_sig_len(signature.sigma);
            let a = D::sig_len() as int;
            let v = Self::sig_view(*signature);
            assert(v.subrange(0, a) =~= D::sig_view(signature.sigma));
            assert(v.subrange(a, a + 32) =~= signature.vk_other.bytes@);
        }
        let half = D::total_periods();
        let child_period = if period < half {
            period
        } else {
            period - half
        };
        let active = D::embedded_verification_key(child_period, &signature.sigma);
        let h = if period < half {
            H::hash_concat(&active.bytes, &signature.vk_other.bytes)
        } else {
            H::hash_concat(&signature.vk_other.bytes, &active.bytes)
        };
        let bytes = take32(h.as_slice(), 0);
        assert(h@.subrange(0, 32) == h@);
        VerificationKey { bytes }
    }
}

impl<D: OptimizedKesSignature + UnsoundKesAlgorithm, H: KesHashAlgorithm> UnsoundKesAlgorithm for CompactSumKes<
    D,
    H,
> {
    fn raw_serialize_signing_key_kes(key: &CompactSumSigningKey<D>) -> (r: Vec<u8>) {
        proof {
            D::lemma_sizes();
            D::lemma_sk_inv(key.child);
        }
        let mut out = D::raw_serialize_signing_key_kes(&key.child);
        append_bytes(&mut out, &key.r1.bytes);
        append_bytes(&mut out, &key.vk_other.bytes);
        out
    }
}

/// The compact tower's base: the compact single-period scheme (1 period).
pub type CompactSum0Kes = CompactSingleKes;

/// 2 periods.
pub type CompactSum1Kes = CompactSumKes<CompactSum0Kes, Blake2b256>;

/// 4 periods.
pub type CompactSum2Kes = CompactSumKes<CompactSum1Kes, Blake2b256>;

/// 8 periods.
pub type CompactSum3Kes = CompactSumKes<CompactSum2Kes, Blake2b256>;

/// 16 periods.
pub type CompactSum4Kes = CompactSumKes<CompactSum3Kes, Blake2b256>;

/// 32 periods.
pub type CompactSum5Kes = CompactSumKes<CompactSum4Kes, Blake2b256>;

/// 64 periods.
pub type CompactSum6Kes = CompactSumKes<CompactSum5Kes, Blake2b256>;

/// 128 periods.
pub type CompactSum7Kes = CompactSumKes<CompactSum6Kes, Blake2b256>;

} // verus!
