//! Fixed-output hash algorithms and the seed expansion of the sum schemes.
use crate::bytes::append_bytes;
use blake2::Digest;
use vstd::prelude::*;

verus! {

/// What Blake2b with a 28-byte output gives for a message.
pub uninterp spec fn blake2b224_of(data: Seq<u8>) -> [u8; 28];

/// What Blake2b with a 32-byte output gives for a message.
pub uninterp spec fn blake2b256_of(data: Seq<u8>) -> [u8; 32];

/// What Blake2b with a 64-byte output gives for a message.
pub uninterp spec fn blake2b512_of(data: Seq<u8>) -> [u8; 64];

/// Relies on blake2's `Blake2b<U28>`: the 28-byte Blake2b digest of `data`,
/// a function of the bytes alone.
#[verifier::external_body]
fn blake2b224_digest(data: &[u8]) -> (r: [u8; 28])
    ensures
        r == blake2b224_of(data@),
{
    let mut h = blake2::Blake2b::<blake2::digest::consts::U28>::new();
    h.update(data);
    h.finalize().into()
}

/// Relies on blake2's `Blake2b<U32>`: the 32-byte Blake2b digest of `data`,
/// a function of the bytes alone.
#[verifier::external_body]
fn blake2b256_digest(data: &[u8]) -> (r: [u8; 32])
    ensures
        r == blake2b256_of(data@),
{
    let mut h = blake2::Blake2b::<blake2::digest::consts::U32>::new();
    h.update(data);
    h.finalize().into()
}

/// Relies on blake2's `Blake2b512`: the 64-byte Blake2b digest of `data`,
/// a function of the bytes alone.
#[verifier::external_body]
fn blake2b512_digest(data: &[u8]) -> (r: [u8; 64])
    ensures
        r == blake2b512_of(data@),
{
    let mut h = blake2::Blake2b512::new();
    h.update(data);
    h.finalize().into()
}

/// The first half of a seed expansion: the hash of `1 ‖ seed`.
pub open spec fn left_seed_input(seed: Seq<u8>) -> Seq<u8> {
    seq![1u8] + seed
}

/// The second half of a seed expansion: the hash of `2 ‖ seed`.
pub open spec fn right_seed_input(seed: Seq<u8>) -> Seq<u8> {
    seq![2u8] + seed
}

/// A hash algorithm with a fixed output length.
pub trait KesHashAlgorithm: Sized {
    /// The output length in bytes.
    spec fn output_len() -> nat;

    /// The digest of a message.
    spec fn digest(data: Seq<u8>) -> Seq<u8>;

    /// Every digest has the fixed output length.
    proof fn lemma_digest_len(data: Seq<u8>)
        ensures
            Self::digest(data).len() == Self::output_len(),
    ;

    /// The output length in bytes.
    fn output_size() -> (r: usize)
        ensures
            r == Self::output_len(),
    ;

    /// Hashes a single input.
    fn hash(data: &[u8]) -> (r: Vec<u8>)
        ensures
            r@ == Self::digest(data@),
            r@.len() == Self::output_len(),
    ;

    /// Hashes the concatenation of two inputs.
    fn hash_concat(left: &[u8], right: &[u8]) -> (r: Vec<u8>)
        requires
            left@.len() + right@.len() <= usize::MAX,
        ensures
            r@ == Self::digest(left@ + right@),
            r@.len() == Self::output_len(),
    {
        let mut combined: Vec<u8> = Vec::new();
        append_bytes(&mut combined, left);
        append_bytes(&mut combined, right);
        assert(combined@ == left@ + right@);
        Self::hash(combined.as_slice())
    }

    /// Expands a seed into the two seeds of a binary tree's subtrees:
    /// `hash(1 ‖ seed)` and `hash(2 ‖ seed)`.
    fn expand_seed(seed: &[u8]) -> (r: (Vec<u8>, Vec<u8>))
        requires
            seed@.len() < usize::MAX,
        ensures
            r.0@ == Self::digest(left_seed_input(seed@)),
            r.1@ == Self::digest(right_seed_input(seed@)),
            r.0@.len() == Self::output_len(),
            r.1@.len() == Self::output_len(),
    {
        let mut left_input: Vec<u8> = Vec::new();
        left_input.push(1u8);
        append_bytes(&mut left_input, seed);
        let mut right_input: Vec<u8> = Vec::new();
        right_input.push(2u8);
        append_bytes(&mut right_input, seed);
        assert(left_input@ == left_seed_input(seed@));
        assert(right_input@ == right_seed_input(seed@));
        (Self::hash(left_input.as_slice()), Self::hash(right_input.as_slice()))
    }
}

/// Blake2b with a 28-byte output.
#[derive(Clone, Copy, Debug)]
pub struct Blake2b224;

/// Blake2b with a 32-byte output: the hash of the sum schemes.
#[derive(Clone, Copy, Debug)]
pub struct Blake2b256;

/// Blake2b with a 64-byte output.
#[derive(Clone, Copy, Debug)]
pub struct Blake2b512;

impl KesHashAlgorithm for Blake2b224 {
    open spec fn output_len() -> nat {
        28
    }

    open spec fn digest(data: Seq<u8>) -> Seq<u8> {
        blake2b224_of(data)@
    }

    proof fn lemma_digest_len(data: Seq<u8>) {
    }

    fn output_size() -> (r: usize) {
        28
    }

    fn hash(data: &[u8]) -> (r: Vec<u8>) {
        let d = blake2b224_digest(data);
        crate::bytes::to_vec(&d)
    }
}

impl KesHashAlgorithm for Blake2b256 {
    open spec fn output_len() -> nat {
        32
    }

    open spec fn digest(data: Seq<u8>) -> Seq<u8> {
        blake2b256_of(data)@
    }

    proof fn lemma_digest_len(data: Seq<u8>) {
    }

    fn output_size() -> (r: usize) {
        32
    }

    fn hash(data: &[u8]) -> (r: Vec<u8>) {
        let d = blake2b256_digest(data);
        crate::bytes::to_vec(&d)
    }
}

impl KesHashAlgorithm for Blake2b512 {
    open spec fn output_len() -> nat {
        64
    }

    open spec fn digest(data: Seq<u8>) -> Seq<u8> {
        blake2b512_of(data)@
    }

    proof fn lemma_digest_len(data: Seq<u8>) {
    }

    fn output_size() -> (r: usize) {
        64
    }

    fn hash(data: &[u8]) -> (r: Vec<u8>) {
        let d = blake2b512_digest(data);
        crate::bytes::to_vec(&d)
    }
}

} // verus!
