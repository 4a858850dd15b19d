//! The ECVRF-ED25519-SHA512-Elligator2 verifiable random function of IETF
//! draft-03 (80-byte proofs), as deployed for slot-leader election.
use crate::bytes::{append_bytes, bytes_eq, take32};
use crate::curve::{
    base_mult, base_mult_of, cofactor_mult, cofactor_mult_of, map_to_curve, map_to_curve_of,
    mul_add, mul_add_of, point_negate, point_negate_of, point_reencode, point_reencode_of,
    point_sub, point_sub_of, reduce_wide, reduce_wide_of, scalar_mult, scalar_mult_of, sha512,
    sha512_of, small_order, small_order_of,
};
use crate::ed25519::{ed25519_public_key, ed25519_public_of};
use vstd::prelude::*;

verus! {

/// The length of a seed.
pub const SEED_SIZE: usize = 32;

/// The length of a public key.
pub const PUBLIC_KEY_SIZE: usize = 32;

/// The length of a secret key: the seed followed by the public key.
pub const SECRET_KEY_SIZE: usize = 64;

/// The length of a proof: Γ (32), c (16), s (32).
pub const PROOF_SIZE: usize = 80;

/// The length of an output.
pub const OUTPUT_SIZE: usize = 64;

/// The ciphersuite byte of ECVRF-ED25519-SHA512-Elligator2.
pub const SUITE: u8 = 4;

/// Why a VRF operation failed.
#[derive(Debug, Clone, Copy, PartialEq, Eq)]
pub enum VrfError {
    /// A proof of the wrong length; no cryptographic work was done.
    WrongLength {
        /// The proof length of this construction.
        expected: usize,
        /// The length given.
        actual: usize,
    },
    /// The public key is no canonical point, or has small order.
    InvalidPublicKey,
    /// The secret key's public half is no point.
    InvalidSecretKey,
    /// A point of the proof, or one derived from it, could not be decoded.
    InvalidProof,
    /// The recomputed challenge differs from the proof's.
    VerificationFailed,
}

/// The draft-03 VRF.
pub struct VrfDraft03;

/// The secret scalar: the first half of SHA-512 of the seed, clamped.
pub open spec fn clamp(az: Seq<u8>) -> Seq<u8> {
    Seq::new(
        32,
        |i: int|
            if i == 0 {
                az[0] & 248
            } else if i == 31 {
                (az[31] & 127) | 64
            } else {
                az[i]
            },
    )
}

/// What is hashed to the curve for a public key and a message.
pub open spec fn h2c_input(pk: Seq<u8>, alpha: Seq<u8>) -> Seq<u8> {
    seq![SUITE, 1u8] + pk + alpha
}

/// The point `H` of a public key and a message: the Elligator2 image with the
/// sign of x cleared, times the cofactor.
pub open spec fn hash_to_curve_spec(pk: Seq<u8>, alpha: Seq<u8>) -> Option<Seq<u8>> {
    let input = h2c_input(pk, alpha);
    let mapped = map_to_curve_of(input)@;
    if sha512_of(input)@[31] >= 128 {
        match point_negate_of(mapped) {
            Some(n) => Some(n@),
            None => None,
        }
    } else {
        Some(mapped)
    }
}

/// The 16-byte challenge over the points `H`, `Γ`, `U`, `V`.
pub open spec fn challenge_spec(h: Seq<u8>, gamma: Seq<u8>, u: Seq<u8>, v: Seq<u8>) -> Seq<u8> {
    sha512_of(seq![SUITE, 2u8] + h + gamma + u + v)@.subrange(0, 16)
}

/// A 16-byte challenge widened to a 32-byte scalar.
pub open spec fn widen(c: Seq<u8>) -> Seq<u8> {
    c + Seq::new(16, |i: int| 0u8)
}

/// The nonce: SHA-512 of the second half of the expanded seed and `H`,
/// reduced modulo the group order.
pub open spec fn nonce_spec(az: Seq<u8>, h: Seq<u8>) -> Seq<u8> {
    reduce_wide_of(sha512_of(az.subrange(32, 64) + h)@)@
}

/// The proof for a secret key and a message; `None` if the key's public half
/// is no point.
pub open spec fn prove_spec(sk: Seq<u8>, alpha: Seq<u8>) -> Option<Seq<u8>> {
    let az = sha512_of(sk.subrange(0, 32))@;
    let x = clamp(az);
    match point_reencode_of(sk.subrange(32, 64)) {
        None => None,
        Some(y) => match hash_to_curve_spec(y@, alpha) {
            None => None,
            Some(h) => match scalar_mult_of(x, h) {
                None => None,
                Some(gamma) => {
                    let k = nonce_spec(az, h);
                    match scalar_mult_of(k, h) {
                        None => None,
                        Some(v) => {
                            let c = challenge_spec(h, gamma@, base_mult_of(k)@, v@);
                            Some(gamma@ + c + mul_add_of(widen(c), x, k)@)
                        },
                    }
                },
            },
        },
    }
}

/// The output of a proof: SHA-512 over the suite, 3 and `8·Γ`; `None` if `Γ`
/// is no point.
pub open spec fn proof_to_hash_spec(pi: Seq<u8>) -> Option<Seq<u8>> {
    match cofactor_mult_of(pi.subrange(0, 32)) {
        None => None,
        Some(g8) => Some(sha512_of(seq![SUITE, 3u8] + g8@)@),
    }
}

/// A public key is a canonical encoding of a point not of small order.
pub open spec fn valid_public_key(pk: Seq<u8>) -> bool {
    &&& point_reencode_of(pk) matches Some(e) && e@ == pk
    &&& small_order_of(pk) == Some(false)
}

/// The challenge a verifier recomputes from a public key, an 80-byte proof
/// and a message; `None` if a point cannot be decoded.
pub open spec fn recomputed_challenge(pk: Seq<u8>, pi: Seq<u8>, alpha: Seq<u8>) -> Option<Seq<u8>> {
    let gamma = pi.subrange(0, 32);
    let c = widen(pi.subrange(32, 48));
    let s = pi.subrange(48, 80);
    match (point_reencode_of(gamma), hash_to_curve_spec(pk, alpha)) {
        (Some(g), Some(h)) => match (scalar_mult_of(c, pk), scalar_mult_of(s, h), scalar_mult_of(c, gamma)) {
            (Some(cy), Some(sh), Some(cg)) => match (
                point_sub_of(base_mult_of(s)@, cy@),
                point_sub_of(sh@, cg@),
            ) {
                (Some(u), Some(v)) => Some(challenge_spec(h, g@, u@, v@)),
                _ => None,
            },
            _ => None,
        },
        _ => None,
    }
}

/// Whether verification accepts an 80-byte proof of a message under a key.
pub open spec fn verify_accepts(pk: Seq<u8>, pi: Seq<u8>, alpha: Seq<u8>) -> bool {
    &&& valid_public_key(pk)
    &&& recomputed_challenge(pk, pi, alpha) == Some(pi.subrange(32, 48))
    &&& proof_to_hash_spec(pi) is Some
}

/// The clamped secret scalar of an expanded seed.
fn clamp_scalar(az: &[u8; 64]) -> (r: [u8; 32])
    ensures
        r@ == clamp(az@),
{
    let mut x = take32(az, 0);
    x[0] = x[0] & 248;
    x[31] = (x[31] & 127) | 64;
    assert(x@ =~= clamp(az@));
    x
}

/// Hashes a public key and a message to the curve.
fn hash_to_curve(pk: &[u8; 32], alpha: &[u8]) -> (r: Option<[u8; 32]>)
    requires
        alpha@.len() + 128 <= usize::MAX,
    ensures
        r matches Some(h) ==> hash_to_curve_spec(pk@, alpha@) == Some(h@),
        r is None ==> hash_to_curve_spec(pk@, alpha@) is None,
{
    let mut input: Vec<u8> = Vec::new();
    input.push(SUITE);
    input.push(1u8);
    append_bytes(&mut input, pk);
    append_bytes(&mut input, alpha);
    assert(input@ =~= h2c_input(pk@, alpha@));
    let digest = sha512(input.as_slice());
    let mapped = map_to_curve(input.as_slice());
    if digest[31] >= 128 {
        point_negate(&mapped)
    } else {
        Some(mapped)
    }
}

/// The 16-byte challenge over four encoded points.
fn challenge(h: &[u8; 32], gamma: &[u8; 32], u: &[u8; 32], v: &[u8; 32]) -> (r: [u8; 16])
    ensures
        r@ == challenge_spec(h@, gamma@, u@, v@),
{
    let mut input: Vec<u8> = Vec::new();
    input.push(SUITE);
    input.push(2u8);
    append_bytes(&mut input, h);
    append_bytes(&mut input, gamma);
    append_bytes(&mut input, u);
    append_bytes(&mut input, v);
    assert(input@ =~= seq![SUITE, 2u8] + h@ + gamma@ + u@ + v@);
    let digest = sha512(input.as_slice());
    let mut c: [u8; 16] = [0u8; 16];
    let mut i: usize = 0;
    while i < 16
        invariant
            i <= 16,
            forall|j: int| 0 <= j < i ==> c@[j] == digest@[j],
        decreases 16 - i,
    {
        c[i] = digest[i];
        i = i + 1;
    }
    assert(c@ =~= digest@.subrange(0, 16));
    c
}

/// A 16-byte challenge widened to a scalar.
fn widen_challenge(c: &[u8]) -> (r: [u8; 32])
    requires
        c@.len() == 16,
    ensures
        r@ == widen(c@),
{
    let mut w: [u8; 32] = [0u8; 32];
    let mut i: usize = 0;
    while i < 16
        invariant
            i <= 16,
            c@.len() == 16,
            forall|j: int| 0 <= j < i ==> w@[j] == c@[j],
            forall|j: int| 16 <= j < 32 ==> w@[j] == 0,
        decreases 16 - i,
    {
        w[i] = c[i];
        i = i + 1;
    }
    assert(w@ =~= widen(c@));
    w
}

impl VrfDraft03 {
    /// The key pair of a seed: the secret key is the seed followed by the
    /// Ed25519 public key of the seed.
    pub fn keypair_from_seed(seed: &[u8; 32]) -> (r: ([u8; 64], [u8; 32]))
        ensures
            r.1 == ed25519_public_of(seed@),
            r.0@ == seed@ + r.1@,
    {
        let pk = ed25519_public_key(seed);
        let mut sk: [u8; 64] = [0u8; 64];
        let mut i: usize = 0;
        while i < 32
            invariant
                i <= 32,
                forall|j: int| 0 <= j < i ==> sk@[j] == seed@[j],
                forall|j: int| 32 <= j < 32 + i ==> sk@[j] == pk@[j - 32],
            decreases 32 - i,
        {
            sk[i] = seed[i];
            sk[32 + i] = pk[i];
            i = i + 1;
        }
        assert(sk@ =~= seed@ + pk@);
        (sk, pk)
    }

    /// The proof of a message under a secret key.
    pub fn prove(secret_key: &[u8; 64], alpha: &[u8]) -> (r: Result<[u8; 80], VrfError>)
        requires
            alpha@.len() + 128 <= usize::MAX,
        ensures
            r matches Ok(pi) ==> prove_spec(secret_key@, alpha@) == Some(pi@),
            r is Err ==> prove_spec(secret_key@, alpha@) is None,
            r is Err ==> r == Err::<[u8; 80], VrfError>(VrfError::InvalidSecretKey),
    {
        let seed = take32(secret_key, 0);
        let pk = take32(secret_key, 32);
        let az = sha512(&seed);
        let x = clamp_scalar(&az);
        let y = match point_reencode(&pk) {
            Some(y) => y,
            None => {
                return Err(VrfError::InvalidSecretKey);
            },
        };
        let h = match hash_to_curve(&y, alpha) {
            Some(h) => h,
            None => {
                return Err(VrfError::InvalidSecretKey);
            },
        };
        let gamma = match scalar_mult(&x, &h) {
            Some(g) => g,
            None => {
                return Err(VrfError::InvalidSecretKey);
            },
        };
        let mut nonce_input: Vec<u8> = Vec::new();
        let az_upper = take32(&az, 32);
        append_bytes(&mut nonce_input, &az_upper);
        append_bytes(&mut nonce_input, &h);
        assert(nonce_input@ =~= az@.subrange(32, 64) + h@);
        let k = reduce_wide(&sha512(nonce_input.as_slice()));
        let u = base_mult(&k);
        let v = match scalar_mult(&k, &h) {
            Some(v) => v,
            None => {
                return Err(VrfError::InvalidSecretKey);
            },
        };
        let c = challenge(&h, &gamma, &u, &v);
        let s = mul_add(&widen_challenge(&c), &x, &k);
        let mut pi: [u8; 80] = [0u8; 80];
        let mut i: usize = 0;
        while i < 32
            invariant
                i <= 32,
                forall|j: int| 0 <= j < i ==> pi@[j] == gamma@[j],
                forall|j: int| 48 <= j < 48 + i ==> pi@[j] == s@[j - 48],
                forall|j: int| 32 <= j < 48 && j - 32 < i ==> pi@[j] == c@[j - 32],
            decreases 32 - i,
        {
            pi[i] = gamma[i];
            pi[48 + i] = s[i];
            if i < 16 {
                pi[32 + i] = c[i];
            }
            i = i + 1;
        }
        assert(pi@ =~= gamma@ + c@ + s@);
        Ok(pi)
    }

    /// The output of a proof: `None`-like failure if `Γ` is no point, and
    /// a length error before any other work.
    pub fn proof_to_hash(proof: &[u8]) -> (r: Result<[u8; 64], VrfError>)
        ensures
            proof@.len() != PROOF_SIZE ==> r == Err::<[u8; 64], VrfError>(
                VrfError::WrongLength { expected: PROOF_SIZE, actual: proof@.len() as usize },
            ),
            proof@.len() == PROOF_SIZE ==> match proof_to_hash_spec(proof@) {
                Some(b) => r is Ok && r->Ok_0@ == b,
                None => r == Err::<[u8; 64], VrfError>(VrfError::InvalidProof),
            },
    {
        if proof.len() != PROOF_SIZE {
            return Err(VrfError::WrongLength { expected: PROOF_SIZE, actual: proof.len() });
        }
        let gamma = take32(proof, 0);
        let g8 = match cofactor_mult(&gamma) {
            Some(g) => g,
            None => {
                return Err(VrfError::InvalidProof);
            },
        };
        let mut input: Vec<u8> = Vec::new();
        input.push(SUITE);
        input.push(3u8);
        append_bytes(&mut input, &g8);
        assert(input@ =~= seq![SUITE, 3u8] + g8@);
        Ok(sha512(input.as_slice()))
    }

    /// Verifies a proof of a message under a public key and returns its
    /// output.
    pub fn verify(public_key: &[u8; 32], proof: &[u8], alpha: &[u8]) -> (r: Result<
        [u8; 64],
        VrfError,
    >)
        requires
            alpha@.len() + 128 <= usize::MAX,
        ensures
            proof@.len() != PROOF_SIZE ==> r == Err::<[u8; 64], VrfError>(
                VrfError::WrongLength { expected: PROOF_SIZE, actual: proof@.len() as usize },
            ),
            proof@.len() == PROOF_SIZE && !valid_public_key(public_key@) ==> r == Err::<
                [u8; 64],
                VrfError,
            >(VrfError::InvalidPublicKey),
            proof@.len() == PROOF_SIZE ==> (r is Ok <==> verify_accepts(
                public_key@,
                proof@,
                alpha@,
            )),
            proof@.len() == PROOF_SIZE && valid_public_key(public_key@) && recomputed_challenge(
                public_key@,
                proof@,
                alpha@,
            ) is None ==> r == Err::<[u8; 64], VrfError>(VrfError::InvalidProof),
            proof@.len() == PROOF_SIZE && valid_public_key(public_key@) && recomputed_challenge(
                public_key@,
                proof@,
                alpha@,
            ) is Some && recomputed_challenge(public_key@, proof@, alpha@) != Some(
                proof@.subrange(32, 48),
            ) ==> r == Err::<[u8; 64], VrfError>(VrfError::VerificationFailed),
            r matches Ok(beta) ==> proof_to_hash_spec(proof@) == Some(beta@),
    {
        if proof.len() != PROOF_SIZE {
            return Err(VrfError::WrongLength { expected: PROOF_SIZE, actual: proof.len() });
        }
        let canonical = match point_reencode(public_key) {
            Some(e) => bytes_eq(&e, public_key),
            None => false,
        };
        let small = match small_order(public_key) {
            Some(b) => b,
            None => true,
        };
        if !canonical || small {
            return Err(VrfError::InvalidPublicKey);
        }
        let gamma = take32(proof, 0);
        let c = widen_challenge(vstd::slice::slice_subrange(proof, 32, 48));
        let s = take32(proof, 48);
        let g = match point_reencode(&gamma) {
            Some(g) => g,
            None => {
                return Err(VrfError::InvalidProof);
            },
        };
        let h = match hash_to_curve(public_key, alpha) {
            Some(h) => h,
            None => {
                return Err(VrfError::InvalidProof);
            },
        };
        let cy = match scalar_mult(&c, public_key) {
            Some(p) => p,
            None => {
                return Err(VrfError::InvalidProof);
            },
        };
        let sh = match scalar_mult(&s, &h) {
            Some(p) => p,
            None => {
                return Err(VrfError::InvalidProof);
            },
        };
        let cg = match scalar_mult(&c, &gamma) {
            Some(p) => p,
            None => {
                return Err(VrfError::InvalidProof);
            },
        };
        let u = match point_sub(&base_mult(&s), &cy) {
            Some(p) => p,
            None => {
                return Err(VrfError::InvalidProof);
            },
        };
        let v = match point_sub(&sh, &cg) {
            Some(p) => p,
            None => {
                return Err(VrfError::InvalidProof);
            },
        };
        let expected = challenge(&h, &g, &u, &v);
        if !bytes_eq(&expected, vstd::slice::slice_subrange(proof, 32, 48)) {
            return Err(VrfError::VerificationFailed);
        }
        Self::proof_to_hash(proof)
    }
}

} // verus!
