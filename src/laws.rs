//! Properties that relate several operations of a scheme, proved for every
//! scheme that meets the `KesAlgorithm` contract.
use crate::hash::{left_seed_input, right_seed_input, KesHashAlgorithm};
use crate::sum::{parent_vk, SumKes};
use crate::compact_single::OptimizedKesSignature;
use crate::compact_sum::CompactSumKes;
use crate::traits::KesAlgorithm;
use crate::bytes::zeros32;
use crate::vrf::{proof_to_hash_spec, verify_accepts};
use vstd::prelude::*;

verus! {

/// Sign/verify correctness. Take a chain of keys: the first as
/// `gen_key_kes_from_seed_bytes(seed)` returns it, each next one as
/// `update_kes` returns it from the one before. A signature that
/// `sign_kes` made with the last key, at its period `t`, is accepted by
/// `verify_kes` under the seed's verification key at `t`, whatever the
/// length of the chain.
pub proof fn law_sign_verify<K: KesAlgorithm>(
    seed: Seq<u8>,
    keys: Seq<K::SigningKey>,
    message: Seq<u8>,
    sig: K::Signature,
)
    requires
        K::fits(),
        keys.len() > 0,
        K::sk_inv(keys[0]),
        K::sk_period(keys[0]) == 0,
        K::sk_vk(keys[0]) == K::vk_of_seed(seed),
        forall|i: int|
            0 <= i < keys.len() - 1 ==> {
                &&& K::sk_inv(#[trigger] keys[i + 1])
                &&& K::sk_period(keys[i + 1]) == K::sk_period(keys[i]) + 1
                &&& K::sk_vk(keys[i + 1]) == K::sk_vk(keys[i])
            },
        K::accepts(
            K::sk_vk(keys.last()),
            K::sk_period(keys.last()),
            message,
            K::sig_view(sig),
        ),
    ensures
        K::accepts(K::vk_of_seed(seed), (keys.len() - 1) as nat, message, K::sig_view(sig)),
{
    lemma_chain::<K>(seed, keys, (keys.len() - 1) as nat);
}

/// Every key of such a chain is at its index's period and keeps the seed's
/// verification key.
proof fn lemma_chain<K: KesAlgorithm>(seed: Seq<u8>, keys: Seq<K::SigningKey>, n: nat)
    requires
        n < keys.len(),
        K::sk_period(keys[0]) == 0,
        K::sk_vk(keys[0]) == K::vk_of_seed(seed),
        forall|i: int|
            0 <= i < keys.len() - 1 ==> {
                &&& K::sk_inv(#[trigger] keys[i + 1])
                &&& K::sk_period(keys[i + 1]) == K::sk_period(keys[i]) + 1
                &&& K::sk_vk(keys[i + 1]) == K::sk_vk(keys[i])
            },
    ensures
        K::sk_period(keys[n as int]) == n,
        K::sk_vk(keys[n as int]) == K::vk_of_seed(seed),
    decreases n,
{
    if n > 0 {
        lemma_chain::<K>(seed, keys, (n - 1) as nat);
        assert(K::sk_period(keys[(n - 1) + 1]) == K::sk_period(keys[n - 1]) + 1);
    }
}

/// Forward security, structurally: once a sum key has moved into its right
/// subtree, the field that held the right subtree's seed holds only zeros,
/// and the left subtree's key is gone (the child key in use is the right
/// one).
pub proof fn law_right_seed_consumed<D: KesAlgorithm, H: KesHashAlgorithm>(
    sk: <SumKes<D, H> as KesAlgorithm>::SigningKey,
)
    requires
        SumKes::<D, H>::fits(),
        SumKes::<D, H>::sk_inv(sk),
        SumKes::<D, H>::sk_period(sk) >= D::periods(),
    ensures
        SumKes::<D, H>::sk_view(sk).subrange(D::sk_len() as int, D::sk_len() + 32 as int) == zeros32(),
        D::sk_vk(sk.child_key()) == sk.right_vk(),
{
    D::lemma_sk_inv(sk.child_key());
    let v = SumKes::<D, H>::sk_view(sk);
    let n = D::sk_len() as int;
    assert(v.subrange(n, n + 32) =~= sk.right_seed());
}

/// Signing is a function of the key's state: two keys with the same
/// serialization, in particular two keys generated from one seed, make the
/// same signature of every message.
pub proof fn law_sign_deterministic<K: KesAlgorithm>(
    a: K::SigningKey,
    b: K::SigningKey,
    message: Seq<u8>,
)
    requires
        K::fits(),
        K::sk_inv(a),
        K::sk_inv(b),
        K::sk_view(a) == K::sk_view(b),
    ensures
        K::sig_of(a, message) == K::sig_of(b, message),
{
    K::lemma_sig_of_view(a, b, message);
}

/// A signature is accepted only at a period of the scheme: no signature
/// verifies at a period past the key's lifetime.
pub proof fn law_no_signature_past_expiry<K: KesAlgorithm>(
    vk: Seq<u8>,
    period: nat,
    message: Seq<u8>,
    sig: Seq<u8>,
)
    requires
        period >= K::periods(),
    ensures
        !K::accepts(vk, period, message, sig),
{
    if K::accepts(vk, period, message, sig) {
        K::lemma_accepts_bounds(vk, period, message, sig);
    }
}

/// The verification key tree: the key of a sum tree generated from a seed is
/// the hash of the keys its two subtrees get from `hash(1 ‖ seed)` and
/// `hash(2 ‖ seed)`, left before right.
pub proof fn law_sum_vk_tree<D: KesAlgorithm, H: KesHashAlgorithm>(seed: Seq<u8>)
    ensures
        SumKes::<D, H>::vk_of_seed(seed) == H::digest(
            D::vk_of_seed(H::digest(left_seed_input(seed))) + D::vk_of_seed(
                H::digest(right_seed_input(seed)),
            ),
        ),
{
}

/// The compact sum builds the same verification key tree as the sum.
pub proof fn law_compact_sum_vk_tree<D: OptimizedKesSignature, H: KesHashAlgorithm>(
    seed: Seq<u8>,
)
    ensures
        CompactSumKes::<D, H>::vk_of_seed(seed) == parent_vk::<H>(
            D::vk_of_seed(H::digest(left_seed_input(seed))),
            D::vk_of_seed(H::digest(right_seed_input(seed))),
        ),
{
}

/// Signature round trip: a signature read back from the bytes another
/// signature serializes to is that signature.
pub proof fn law_signature_round_trip<K: KesAlgorithm>(sig: K::Signature, decoded: K::Signature)
    requires
        K::sig_view(decoded) == K::sig_view(sig),
    ensures
        decoded == sig,
{
    K::lemma_sig_view_injective(decoded, sig);
}

/// Signature round trip, the other way: the bytes of a signature read from
/// bytes of the right length are those bytes, and have the scheme's length.
pub proof fn law_signature_bytes_round_trip<K: KesAlgorithm>(bytes: Seq<u8>, decoded: K::Signature)
    requires
        K::fits(),
        K::sig_view(decoded) == bytes,
    ensures
        bytes.len() == K::sig_len(),
{
    K::lemma_sig_len(decoded);
}

/// VRF output agreement: whenever verification accepts a proof, the proof
/// has an output, the one that `proof_to_hash` returns.
pub proof fn law_vrf_output_agreement(pk: Seq<u8>, pi: Seq<u8>, alpha: Seq<u8>)
    requires
        verify_accepts(pk, pi, alpha),
    ensures
        proof_to_hash_spec(pi) is Some,
{
}

} // verus!
