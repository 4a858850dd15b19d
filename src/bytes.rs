//! Byte-string helpers shared by the schemes.
use vstd::prelude::*;
use zeroize::Zeroize;

verus! {

/// Appends `src` to `dst`.
pub fn append_bytes(dst: &mut Vec<u8>, src: &[u8])
    requires
        old(dst)@.len() + src@.len() <= usize::MAX,
    ensures
        final(dst)@ == old(dst)@ + src@,
{
    let ghost start = dst@;
    let mut i: usize = 0;
    while i < src.len()
        invariant
            i <= src@.len(),
            dst@ == start + src@.subrange(0, i as int),
            start.len() + src@.len() <= usize::MAX,
        decreases src@.len() - i,
    {
        dst.push(src[i]);
        i = i + 1;
        assert(src@.subrange(0, i as int) == src@.subrange(0, i - 1 as int).push(src@[i - 1]));
    }
    assert(src@.subrange(0, src@.len() as int) == src@);
}

/// Copies a byte string into a fresh vector.
pub fn to_vec(src: &[u8]) -> (r: Vec<u8>)
    ensures
        r@ == src@,
{
    vstd::slice::slice_to_vec(src)
}

/// Copies the bytes `src[start..start + 32]` into an array.
pub fn take32(src: &[u8], start: usize) -> (r: [u8; 32])
    requires
        start + 32 <= src@.len(),
    ensures
        r@ == src@.subrange(start as int, start + 32),
{
    let n: usize = src.len();
    let mut r: [u8; 32] = [0u8; 32];
    let mut i: usize = 0;
    while i < 32
        invariant
            i <= 32,
            n == src@.len(),
            start + 32 <= src@.len(),
            forall|j: int| 0 <= j < i ==> r@[j] == src@[start + j],
        decreases 32 - i,
    {
        r.set(i, src[start + i]);
        i = i + 1;
    }
    assert(r@ =~= src@.subrange(start as int, start + 32));
    r
}

/// Copies the bytes `src[start..start + 64]` into an array.
pub fn take64(src: &[u8], start: usize) -> (r: [u8; 64])
    requires
        start + 64 <= src@.len(),
    ensures
        r@ == src@.subrange(start as int, start + 64),
{
    let n: usize = src.len();
    let mut r: [u8; 64] = [0u8; 64];
    let mut i: usize = 0;
    while i < 64
        invariant
            i <= 64,
            n == src@.len(),
            start + 64 <= src@.len(),
            forall|j: int| 0 <= j < i ==> r@[j] == src@[start + j],
        decreases 64 - i,
    {
        r.set(i, src[start + i]);
        i = i + 1;
    }
    assert(r@ =~= src@.subrange(start as int, start + 64));
    r
}

/// Relies on zeroize's `Zeroize` for byte arrays: every byte is overwritten
/// with zero by volatile writes that the compiler keeps.
#[verifier::external_body]
pub(crate) fn wipe32(b: &mut [u8; 32])
    ensures
        final(b)@ == zeros32(),
    opens_invariants none
    no_unwind
{
    b.zeroize();
}

/// Relies on zeroize's `Zeroize` for `Vec`: the elements and the spare
/// capacity are overwritten with zeros, then the vector is cleared.
#[verifier::external_body]
pub(crate) fn wipe_vec(v: &mut Vec<u8>)
    ensures
        final(v)@.len() == 0,
{
    v.zeroize();
}

/// Thirty-two secret bytes (a seed), overwritten with zeros when dropped.
pub struct SecretSeed {
    pub(crate) bytes: [u8; 32],
}

impl SecretSeed {
    /// The bytes.
    pub closed spec fn view_bytes(&self) -> Seq<u8> {
        self.bytes@
    }
}

impl Drop for SecretSeed {
    fn drop(&mut self)
        opens_invariants none
        no_unwind
    {
        wipe32(&mut self.bytes);
    }
}

/// Thirty-two zero bytes: what a consumed seed holds.
pub open spec fn zeros32() -> Seq<u8> {
    Seq::new(32, |i: int| 0u8)
}

/// Whether two byte strings are equal.
pub fn bytes_eq(a: &[u8], b: &[u8]) -> (r: bool)
    ensures
        r == (a@ == b@),
{
    if a.len() != b.len() {
        return false;
    }
    let mut i: usize = 0;
    while i < a.len()
        invariant
            a@.len() == b@.len(),
            i <= a@.len(),
            forall|j: int| 0 <= j < i ==> a@[j] == b@[j],
        decreases a@.len() - i,
    {
        if a[i] != b[i] {
            return false;
        }
        i = i + 1;
    }
    assert(a@ =~= b@);
    true
}

} // verus!
