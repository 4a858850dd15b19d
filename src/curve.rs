//! Edwards25519 group and scalar operations, on 32-byte encodings, and
//! SHA-512, as the VRF uses them.
use curve25519_dalek::edwards::{CompressedEdwardsY, EdwardsPoint};
use curve25519_dalek::scalar::Scalar;
use sha2::Digest;
use vstd::prelude::*;

verus! {

/// The SHA-512 digest of a message.
pub uninterp spec fn sha512_of(data: Seq<u8>) -> [u8; 64];

/// The encoding of the point that SHA-512 of the input is mapped to by
/// Elligator2, with the digest's top bit as the sign of x, times the cofactor.
pub uninterp spec fn map_to_curve_of(input: Seq<u8>) -> [u8; 32];

/// The encoding of the negation of an encoded point; `None` if the bytes
/// encode no point.
pub uninterp spec fn point_negate_of(p: Seq<u8>) -> Option<[u8; 32]>;

/// The canonical encoding of an encoded point; `None` if the bytes encode no
/// point.
pub uninterp spec fn point_reencode_of(p: Seq<u8>) -> Option<[u8; 32]>;

/// Whether an encoded point has small order; `None` if the bytes encode no
/// point.
pub uninterp spec fn small_order_of(p: Seq<u8>) -> Option<bool>;

/// The encoding of `s·P`, the scalar's bytes read modulo the group order;
/// `None` if the bytes encode no point.
pub uninterp spec fn scalar_mult_of(s: Seq<u8>, p: Seq<u8>) -> Option<[u8; 32]>;

/// The encoding of `s·B` for the base point `B`, the scalar's bytes read
/// modulo the group order.
pub uninterp spec fn base_mult_of(s: Seq<u8>) -> [u8; 32];

/// The encoding of `P − Q`; `None` if either encodes no point.
pub uninterp spec fn point_sub_of(p: Seq<u8>, q: Seq<u8>) -> Option<[u8; 32]>;

/// The encoding of `8·P`; `None` if the bytes encode no point.
pub uninterp spec fn cofactor_mult_of(p: Seq<u8>) -> Option<[u8; 32]>;

/// A 64-byte little-endian integer reduced modulo the group order.
pub uninterp spec fn reduce_wide_of(b: Seq<u8>) -> [u8; 32];

/// `a·b + c` modulo the group order, each read modulo the group order.
pub uninterp spec fn mul_add_of(a: Seq<u8>, b: Seq<u8>, c: Seq<u8>) -> [u8; 32];

/// Relies on sha2's `Sha512`: the digest is a function of the bytes alone.
#[verifier::external_body]
pub(crate) fn sha512(data: &[u8]) -> (r: [u8; 64])
    ensures
        r == sha512_of(data@),
{
    sha2::Sha512::digest(data).into()
}

/// Relies on curve25519_dalek's `EdwardsPoint::nonspec_map_to_curve::<Sha512>`
/// and `compress`: a function of the input bytes alone. It panics only where
/// the digest's Elligator2 image is the Montgomery point u = -1, which has no
/// Edwards counterpart; reaching it takes a SHA-512 preimage.
#[verifier::external_body]
#[allow(deprecated)]
pub(crate) fn map_to_curve(input: &[u8]) -> (r: [u8; 32])
    ensures
        r == map_to_curve_of(input@),
{
    EdwardsPoint::nonspec_map_to_curve::<sha2::Sha512>(input).compress().to_bytes()
}

/// Relies on curve25519_dalek's `CompressedEdwardsY::decompress`, point
/// negation and `compress`.
#[verifier::external_body]
pub(crate) fn point_negate(p: &[u8; 32]) -> (r: Option<[u8; 32]>)
    ensures
        r == point_negate_of(p@),
{
    match CompressedEdwardsY(*p).decompress() {
        Some(q) => Some((-q).compress().to_bytes()),
        None => None,
    }
}

/// Relies on curve25519_dalek's `CompressedEdwardsY::decompress` and
/// `compress`.
#[verifier::external_body]
pub(crate) fn point_reencode(p: &[u8; 32]) -> (r: Option<[u8; 32]>)
    ensures
        r == point_reencode_of(p@),
{
    match CompressedEdwardsY(*p).decompress() {
        Some(q) => Some(q.compress().to_bytes()),
        None => None,
    }
}

/// Relies on curve25519_dalek's `CompressedEdwardsY::decompress` and
/// `EdwardsPoint::is_small_order`.
#[verifier::external_body]
pub(crate) fn small_order(p: &[u8; 32]) -> (r: Option<bool>)
    ensures
        r == small_order_of(p@),
{
    match CompressedEdwardsY(*p).decompress() {
        Some(q) => Some(q.is_small_order()),
        None => None,
    }
}

/// Relies on curve25519_dalek's `Scalar::from_bytes_mod_order`,
/// `CompressedEdwardsY::decompress`, scalar multiplication and `compress`.
#[verifier::external_body]
pub(crate) fn scalar_mult(s: &[u8; 32], p: &[u8; 32]) -> (r: Option<[u8; 32]>)
    ensures
        r == scalar_mult_of(s@, p@),
{
    match CompressedEdwardsY(*p).decompress() {
        Some(q) => Some((Scalar::from_bytes_mod_order(*s) * q).compress().to_bytes()),
        None => None,
    }
}

/// Relies on curve25519_dalek's `Scalar::from_bytes_mod_order`,
/// `EdwardsPoint::mul_base` and `compress`.
#[verifier::external_body]
pub(crate) fn base_mult(s: &[u8; 32]) -> (r: [u8; 32])
    ensures
        r == base_mult_of(s@),
{
    EdwardsPoint::mul_base(&Scalar::from_bytes_mod_order(*s)).compress().to_bytes()
}

/// Relies on curve25519_dalek's `CompressedEdwardsY::decompress`, point
/// subtraction and `compress`.
#[verifier::external_body]
pub(crate) fn point_sub(p: &[u8; 32], q: &[u8; 32]) -> (r: Option<[u8; 32]>)
    ensures
        r == point_sub_of(p@, q@),
{
    match (CompressedEdwardsY(*p).decompress(), CompressedEdwardsY(*q).decompress()) {
        (Some(a), Some(b)) => Some((a - b).compress().to_bytes()),
        _ => None,
    }
}

/// Relies on curve25519_dalek's `CompressedEdwardsY::decompress`,
/// `EdwardsPoint::mul_by_cofactor` and `compress`.
#[verifier::external_body]
pub(crate) fn cofactor_mult(p: &[u8; 32]) -> (r: Option<[u8; 32]>)
    ensures
        r == cofactor_mult_of(p@),
{
    match CompressedEdwardsY(*p).decompress() {
        Some(q) => Some(q.mul_by_cofactor().compress().to_bytes()),
        None => None,
    }
}

/// Relies on curve25519_dalek's `Scalar::from_bytes_mod_order_wide`.
#[verifier::external_body]
pub(crate) fn reduce_wide(b: &[u8; 64]) -> (r: [u8; 32])
    ensures
        r == reduce_wide_of(b@),
{
    Scalar::from_bytes_mod_order_wide(b).to_bytes()
}

/// Relies on curve25519_dalek's `Scalar::from_bytes_mod_order` and scalar
/// multiplication and addition.
#[verifier::external_body]
pub(crate) fn mul_add(a: &[u8; 32], b: &[u8; 32], c: &[u8; 32]) -> (r: [u8; 32])
    ensures
        r == mul_add_of(a@, b@, c@),
{
    let x = Scalar::from_bytes_mod_order(*a) * Scalar::from_bytes_mod_order(*b);
    (x + Scalar::from_bytes_mod_order(*c)).to_bytes()
}

} // verus!
