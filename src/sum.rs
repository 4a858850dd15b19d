//! The binary sum composition: two child keys under one hashed verification
//! key, doubling the number of periods at each level.
use crate::bytes::{append_bytes, bytes_eq, take32, wipe32, wipe_vec, zeros32, SecretSeed};
use crate::error::{KesError, KesMError, Period};
use crate::hash::{left_seed_input, right_seed_input, Blake2b256, KesHashAlgorithm};
use crate::single::SingleKes;
use crate::traits::{
    KesAlgorithm, UnsoundKesAlgorithm, VerificationKey, MAX_ENCODED_SIZE, SEED_SIZE,
    VERIFICATION_KEY_SIZE,
};
use core::marker::PhantomData;
use vstd::prelude::*;

verus! {

/// The sum of two copies of the child scheme `D`, joined by the hash `H`.
pub struct SumKes<D, H> {
    _child: PhantomData<D>,
    _hash: PhantomData<H>,
}

/// A sum signing key: the child key in use, the seed reserved for the right
/// subtree (zero once consumed), both child verification keys and the
/// current period.
pub struct SumSigningKey<D: KesAlgorithm> {
    child: D::SigningKey,
    r1: SecretSeed,
    vk0: VerificationKey,
    vk1: VerificationKey,
    period: Period,
}

/// A sum signature: the child signature and both child verification keys.
pub struct SumSignature<D: KesAlgorithm> {
    /// The signature of the child in use.
    pub sigma: D::Signature,
    /// The verification key of the left subtree.
    pub vk0: VerificationKey,
    /// The verification key of the right subtree.
    pub vk1: VerificationKey,
}

impl<D: KesAlgorithm> SumSigningKey<D> {
    /// The child key in use.
    pub closed spec fn child_key(self) -> D::SigningKey {
        self.child
    }

    /// The reserved right seed.
    pub closed spec fn right_seed(self) -> Seq<u8> {
        self.r1.bytes@
    }

    /// The left child's verification key.
    pub closed spec fn left_vk(self) -> Seq<u8> {
        self.vk0.bytes@
    }

    /// The right child's verification key.
    pub closed spec fn right_vk(self) -> Seq<u8> {
        self.vk1.bytes@
    }

    /// The current period.
    pub closed spec fn current_period(self) -> nat {
        self.period as nat
    }
}

/// The verification key of a sum tree whose subtrees have keys `vk0` and `vk1`.
pub open spec fn parent_vk<H: KesHashAlgorithm>(vk0: Seq<u8>, vk1: Seq<u8>) -> Seq<u8> {
    H::digest(vk0 + vk1)
}

impl<D: KesAlgorithm, H: KesHashAlgorithm> KesAlgorithm for SumKes<D, H> {
    type SigningKey = SumSigningKey<D>;

    type Signature = SumSignature<D>;

    type Context = D::Context;

    open spec fn fits() -> bool {
        &&& D::fits()
        &&& H::output_len() == VERIFICATION_KEY_SIZE
        &&& D::periods() * 2 <= u64::MAX
        &&& D::sig_len() + 64 <= MAX_ENCODED_SIZE
        &&& D::sk_len() + 96 <= MAX_ENCODED_SIZE
    }

    open spec fn periods() -> nat {
        D::periods() * 2
    }

    open spec fn sig_len() -> nat {
        D::sig_len() + 64
    }

    open spec fn sk_len() -> nat {
        D::sk_len() + 96
    }

    open spec fn sig_view(sig: SumSignature<D>) -> Seq<u8> {
        D::sig_view(sig.sigma) + sig.vk0.bytes@ + sig.vk1.bytes@
    }

    open spec fn sk_view(sk: SumSigningKey<D>) -> Seq<u8> {
        D::sk_view(sk.child_key()) + sk.right_seed() + sk.left_vk() + sk.right_vk()
    }

    open spec fn sk_inv(sk: SumSigningKey<D>) -> bool {
        &&& D::sk_inv(sk.child_key())
        &&& sk.current_period() < Self::periods()
        &&& if sk.current_period() < D::periods() {
            &&& D::sk_period(sk.child_key()) == sk.current_period()
            &&& D::sk_vk(sk.child_key()) == sk.left_vk()
            &&& D::vk_of_seed(sk.right_seed()) == sk.right_vk()
        } else {
            &&& D::sk_period(sk.child_key()) == sk.current_period() - D::periods()
            &&& D::sk_vk(sk.child_key()) == sk.right_vk()
            &&& sk.right_seed() == zeros32()
        }
    }

    open spec fn sk_period(sk: SumSigningKey<D>) -> nat {
        sk.current_period()
    }

    open spec fn sk_vk(sk: SumSigningKey<D>) -> Seq<u8> {
        parent_vk::<H>(sk.left_vk(), sk.right_vk())
    }

    open spec fn vk_of_seed(seed: Seq<u8>) -> Seq<u8> {
        parent_vk::<H>(
            D::vk_of_seed(H::digest(left_seed_input(seed))),
            D::vk_of_seed(H::digest(right_seed_input(seed))),
        )
    }

    open spec fn sig_of(sk: SumSigningKey<D>, msg: Seq<u8>) -> Seq<u8> {
        D::sig_of(sk.child_key(), msg) + sk.left_vk() + sk.right_vk()
    }

    open spec fn sk_of_seed(seed: Seq<u8>) -> Seq<u8> {
        let r0 = H::digest(left_seed_input(seed));
        let r1 = H::digest(right_seed_input(seed));
        D::sk_of_seed(r0) + r1 + D::vk_of_seed(r0) + D::vk_of_seed(r1)
    }

    open spec fn next_view(sk: SumSigningKey<D>) -> Seq<u8> {
        let next = sk.current_period() + 1;
        if next < D::periods() {
            D::next_view(sk.child_key()) + sk.right_seed() + sk.left_vk() + sk.right_vk()
        } else if next == D::periods() {
            D::sk_of_seed(sk.right_seed()) + zeros32() + sk.left_vk() + sk.right_vk()
        } else {
            D::next_view(sk.child_key()) + zeros32() + sk.left_vk() + sk.right_vk()
        }
    }

    open spec fn accepts(vk: Seq<u8>, period: nat, msg: Seq<u8>, sig: Seq<u8>) -> bool {
        let a = D::sig_len() as int;
        let sigma = sig.subrange(0, a);
        let vk0 = sig.subrange(a, a + 32);
        let vk1 = sig.subrange(a + 32, a + 64);
        &&& period < Self::periods()
        &&& sig.len() == Self::sig_len()
        &&& parent_vk::<H>(vk0, vk1) == vk
        &&& if period < D::periods() {
            D::accepts(vk0, period, msg, sigma)
        } else {
            D::accepts(vk1, (period - D::periods()) as nat, msg, sigma)
        }
    }

    proof fn lemma_sizes() {
        D::lemma_sizes();
    }

    proof fn lemma_sig_len(sig: SumSignature<D>) {
        D::lemma_sig_len(sig.sigma);
    }

    proof fn lemma_sig_view_injective(a: SumSignature<D>, b: SumSignature<D>) {
        let sa = D::sig_view(a.sigma);
        let sb = D::sig_view(b.sigma);
        let n = sa.len() as int;
        assert(a.vk0.bytes@.len() == 32 && a.vk1.bytes@.len() == 32);
        assert(b.vk0.bytes@.len() == 32 && b.vk1.bytes@.len() == 32);
        assert(Self::sig_view(a) == sa + a.vk0.bytes@ + a.vk1.bytes@);
        assert(Self::sig_view(b) == sb + b.vk0.bytes@ + b.vk1.bytes@);
        assert((sa + a.vk0.bytes@ + a.vk1.bytes@).len() == sa.len() + 64);
        assert((sb + b.vk0.bytes@ + b.vk1.bytes@).len() == sb.len() + 64);
        assert(sb.len() == sa.len());
        assert(sa =~= Self::sig_view(a).subrange(0, n));
        assert(sb =~= Self::sig_view(b).subrange(0, n));
        D::lemma_sig_view_injective(a.sigma, b.sigma);
        assert(a.vk0.bytes@ =~= Self::sig_view(a).subrange(n, n + 32));
        assert(b.vk0.bytes@ =~= Self::sig_view(b).subrange(n, n + 32));
        assert(a.vk1.bytes@ =~= Self::sig_view(a).subrange(n + 32, n + 64));
        assert(b.vk1.bytes@ =~= Self::sig_view(b).subrange(n + 32, n + 64));
        assert(a.vk0.bytes == b.vk0.bytes);
        assert(a.vk1.bytes == b.vk1.bytes);
    }

    proof fn lemma_sk_inv(sk: SumSigningKey<D>) {
        D::lemma_sk_inv(sk.child_key());
        H::lemma_digest_len(sk.left_vk() + sk.right_vk());
    }

    proof fn lemma_sig_of_view(a: SumSigningKey<D>, b: SumSigningKey<D>, msg: Seq<u8>) {
        D::lemma_sk_inv(a.child_key());
        D::lemma_sk_inv(b.child_key());
        let va = Self::sk_view(a);
        let vb = Self::sk_view(b);
        let n = D::sk_len() as int;
        assert(va.subrange(0, n) =~= D::sk_view(a.child_key()));
        assert(vb.subrange(0, n) =~= D::sk_view(b.child_key()));
        D::lemma_sig_of_view(a.child_key(), b.child_key(), msg);
        assert(va.subrange(n + 32, n + 64) =~= a.left_vk());
        assert(vb.subrange(n + 32, n + 64) =~= b.left_vk());
        assert(va.subrange(n + 64, n + 96) =~= a.right_vk());
        assert(vb.subrange(n + 64, n + 96) =~= b.right_vk());
    }

    proof fn lemma_vk_of_seed_len(seed: Seq<u8>) {
        H::lemma_digest_len(
            D::vk_of_seed(H::digest(left_seed_input(seed))) + D::vk_of_seed(
                H::digest(right_seed_input(seed)),
            ),
        );
    }

    proof fn lemma_accepts_bounds(vk: Seq<u8>, period: nat, msg: Seq<u8>, sig: Seq<u8>) {
    }

    fn total_periods() -> (r: Period) {
        proof {
            D::lemma_sizes();
        }
        D::total_periods() * 2
    }

    fn signature_size() -> (r: usize) {
        D::signature_size() + 64
    }

    fn signing_key_size() -> (r: usize) {
        D::signing_key_size() + 96
    }

    fn derive_verification_key(signing_key: &SumSigningKey<D>) -> (r: Result<
        VerificationKey,
        KesMError,
    >) {
        let h = H::hash_concat(&signing_key.vk0.bytes, &signing_key.vk1.bytes);
        let bytes = take32(h.as_slice(), 0);
        assert(h@.subrange(0, 32) == h@);
        Ok(VerificationKey { bytes })
    }

    fn sign_kes(
        context: &D::Context,
        period: Period,
        message: &[u8],
        signing_key: &SumSigningKey<D>,
    ) -> (r: Result<SumSignature<D>, KesMError>) {
        proof {
            D::lemma_sizes();
        }
        let half = D::total_periods();
        if period >= half * 2 {
            return Err(KesMError::Kes(KesError::KeyExpired));
        }
        if period != signing_key.period {
            return Err(
                KesMError::Kes(KesError::PeriodOutOfRange { period, max_period: half * 2 }),
            );
        }
        let child_period = if period < half {
            period
        } else {
            period - half
        };
        match D::sign_kes(context, child_period, message, &signing_key.child) {
            Ok(sigma) => {
                let sig = SumSignature { sigma, vk0: signing_key.vk0, vk1: signing_key.vk1 };
                proof {
                    D::lemma_sig_len(sigma);
                    let a = D::sig_len() as int;
                    let v = Self::sig_view(sig);
                    assert(v.subrange(0, a) =~= D::sig_view(sigma));
                    assert(v.subrange(a, a + 32) =~= signing_key.vk0.bytes@);
                    assert(v.subrange(a + 32, a + 64) =~= signing_key.vk1.bytes@);
                }
                Ok(sig)
            },
            Err(e) => Err(e),
        }
    }

    fn verify_kes(
        context: &D::Context,
        verification_key: &VerificationKey,
        period: Period,
        message: &[u8],
        signature: &SumSignature<D>,
    ) -> (r: Result<(), KesError>) {
        proof {
            D::lemma_sizes();
            D::lemma_sig_len(signature.sigma);
            let a = D::sig_len() as int;
            let v = Self::sig_view(*signature);
            assert(v.subrange(0, a) =~= D::sig_view(signature.sigma));
            assert(v.subrange(a, a + 32) =~= signature.vk0.bytes@);
            assert(v.subrange(a + 32, a + 64) =~= signature.vk1.bytes@);
        }
        let half = D::total_periods();
        if period >= half * 2 {
            return Err(KesError::VerificationFailed);
        }
        let h = H::hash_concat(&signature.vk0.bytes, &signature.vk1.bytes);
        if !bytes_eq(h.as_slice(), &verification_key.bytes) {
            return Err(KesError::VerificationFailed);
        }
        if period < half {
            D::verify_kes(context, &signature.vk0, period, message, &signature.sigma)
        } else {
            D::verify_kes(context, &signature.vk1, period - half, message, &signature.sigma)
        }
    }

    fn update_kes(context: &D::Context, signing_key: SumSigningKey<D>, period: Period) -> (r:
        Result<Option<SumSigningKey<D>>, KesMError>) {
        proof {
            D::lemma_sizes();
            D::lemma_sk_inv(signing_key.child);
        }
        let half = D::total_periods();
        if period != signing_key.period {
            Self::forget_signing_key_kes(signing_key);
            return Err(
                KesMError::Kes(KesError::PeriodOutOfRange { period, max_period: half * 2 }),
            );
        }
        if period + 1 >= half * 2 {
            Self::forget_signing_key_kes(signing_key);
            return Ok(None);
        }
        let SumSigningKey { child, r1, vk0, vk1, period: _ } = signing_key;
        let mut r1 = r1;
        if period + 1 < half {
            match D::update_kes(context, child, period) {
                Ok(Some(c)) => Ok(Some(SumSigningKey { child: c, r1, vk0, vk1, period: period + 1 })),
                // The child's contract rules this arm out: it serves the next period.
                Ok(None) => {
                    wipe32(&mut r1.bytes);
                    Err(KesMError::Kes(KesError::KeyExpired))
                },
                Err(e) => {
                    wipe32(&mut r1.bytes);
                    Err(e)
                },
            }
        } else if period + 1 == half {
            match D::gen_key_kes_from_seed_bytes(&r1.bytes) {
                Ok(c1) => {
                    wipe32(&mut r1.bytes);
                    D::forget_signing_key_kes(child);
                    Ok(Some(SumSigningKey { child: c1, r1, vk0, vk1, period: period + 1 }))
                },
                Err(e) => {
                    wipe32(&mut r1.bytes);
                    D::forget_signing_key_kes(child);
                    Err(e)
                },
            }
        } else {
            match D::update_kes(context, child, period - half) {
                Ok(Some(c)) => Ok(Some(SumSigningKey { child: c, r1, vk0, vk1, period: period + 1 })),
                // The child's contract rules this arm out: it serves the next period.
                Ok(None) => Err(KesMError::Kes(KesError::KeyExpired)),
                Err(e) => Err(e),
            }
        }
    }

    fn gen_key_kes_from_seed_bytes(seed: &[u8]) -> (r: Result<SumSigningKey<D>, KesMError>) {
        if seed.len() != SEED_SIZE {
            return Err(
                KesMError::Kes(KesError::WrongLength { context: "seed", expected: SEED_SIZE, actual: seed.len() }),
            );
        }
        let (mut r0, mut r1v) = H::expand_seed(seed);
        let sk0 = match D::gen_key_kes_from_seed_bytes(r0.as_slice()) {
            Ok(k) => k,
            Err(e) => {
                wipe_vec(&mut r0);
                wipe_vec(&mut r1v);
                return Err(e);
            },
        };
        wipe_vec(&mut r0);
        let tmp = match D::gen_key_kes_from_seed_bytes(r1v.as_slice()) {
            Ok(k) => k,
            Err(e) => {
                D::forget_signing_key_kes(sk0);
                wipe_vec(&mut r1v);
                return Err(e);
            },
        };
        let vk0 = match D::derive_verification_key(&sk0) {
            Ok(v) => v,
            Err(e) => {
                D::forget_signing_key_kes(sk0);
                D::forget_signing_key_kes(tmp);
                wipe_vec(&mut r1v);
                return Err(e);
            },
        };
        let vk1 = match D::derive_verification_key(&tmp) {
            Ok(v) => v,
            Err(e) => {
                D::forget_signing_key_kes(sk0);
                D::forget_signing_key_kes(tmp);
                wipe_vec(&mut r1v);
                return Err(e);
            },
        };
        D::forget_signing_key_kes(tmp);
        let r1 = SecretSeed { bytes: take32(r1v.as_slice(), 0) };
        assert(r1v@.subrange(0, 32) == r1v@);
        assert(r1.bytes@ == H::digest(right_seed_input(seed@)));
        assert(D::vk_of_seed(r1.bytes@) == vk1.bytes@);
        wipe_vec(&mut r1v);
        proof {
            D::lemma_sizes();
        }
        Ok(SumSigningKey { child: sk0, r1, vk0, vk1, period: 0 })
    }

    fn raw_serialize_signature_kes(signature: &SumSignature<D>) -> (r: Vec<u8>) {
        proof {
            D::lemma_sizes();
            D::lemma_sig_len(signature.sigma);
        }
        let mut out = D::raw_serialize_signature_kes(&signature.sigma);
        append_bytes(&mut out, &signature.vk0.bytes);
        append_bytes(&mut out, &signature.vk1.bytes);
        out
    }

    fn raw_deserialize_signature_kes(bytes: &[u8]) -> (r: Option<SumSignature<D>>) {
        proof {
            D::lemma_sizes();
        }
        let a = D::signature_size();
        if bytes.len() != a + 64 {
            return None;
        }
        let head = vstd::slice::slice_subrange(bytes, 0, a);
        match D::raw_deserialize_signature_kes(head) {
            Some(sigma) => {
                let vk0 = VerificationKey { bytes: take32(bytes, a) };
                let vk1 = VerificationKey { bytes: take32(bytes, a + 32) };
                let sig = SumSignature { sigma, vk0, vk1 };
                assert(Self::sig_view(sig) =~= bytes@);
                Some(sig)
            },
            None => None,
        }
    }

    fn forget_signing_key_kes(signing_key: SumSigningKey<D>) {
        let SumSigningKey { child, r1, vk0: _, vk1: _, period: _ } = signing_key;
        let mut r1 = r1;
        wipe32(&mut r1.bytes);
        D::forget_signing_key_kes(child);
    }
}

impl<D: UnsoundKesAlgorithm, H: KesHashAlgorithm> UnsoundKesAlgorithm for SumKes<D, H> {
    fn raw_serialize_signing_key_kes(key: &SumSigningKey<D>) -> (r: Vec<u8>) {
        proof {
            D::lemma_sizes();
            D::lemma_sk_inv(key.child);
        }
        let mut out = D::raw_serialize_signing_key_kes(&key.child);
        append_bytes(&mut out, &key.r1.bytes);
        append_bytes(&mut out, &key.vk0.bytes);
        append_bytes(&mut out, &key.vk1.bytes);
        out
    }
}

/// The sum tower's base: the single-period scheme (1 period).
pub type Sum0Kes = SingleKes;

/// 2 periods.
pub type Sum1Kes = SumKes<Sum0Kes, Blake2b256>;

/// 4 periods.
pub type Sum2Kes = SumKes<Sum1Kes, Blake2b256>;

/// 8 periods.
pub type Sum3Kes = SumKes<Sum2Kes, Blake2b256>;

/// 16 periods.
pub type Sum4Kes = SumKes<Sum3Kes, Blake2b256>;

/// 32 periods.
pub type Sum5Kes = SumKes<Sum4Kes, Blake2b256>;

/// 64 periods.
pub type Sum6Kes = SumKes<Sum5Kes, Blake2b256>;

/// 128 periods.
pub type Sum7Kes = SumKes<Sum6Kes, Blake2b256>;

} // verus!
