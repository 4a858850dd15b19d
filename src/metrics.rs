//! Advisory counters of key generation, signing and evolution.
//!
//! The counters are a plain value: whoever keeps a shared registry holds one
//! `KesMetrics` and applies these transitions to it. Counts wrap on overflow.
use vstd::prelude::*;

verus! {

/// A snapshot of the counters.
#[derive(Clone, Copy, Debug, Default, PartialEq, Eq)]
pub struct KesMetrics {
    /// Number of signing keys generated.
    pub signing_keys: u64,
    /// Total bytes of signing key material.
    pub signing_key_bytes: u64,
    /// Number of signatures created.
    pub signatures: u64,
    /// Total bytes of signature data.
    pub signature_bytes: u64,
    /// Number of key updates.
    pub updates: u64,
}

/// `a + b` modulo 2^64.
pub open spec fn wrap_add(a: u64, b: u64) -> u64 {
    ((a as int + b as int) % 0x1_0000_0000_0000_0000) as u64
}

/// Counts one generated signing key of `bytes` bytes.
pub fn record_signing_key(metrics: &mut KesMetrics, bytes: usize)
    ensures
        final(metrics).signing_keys == wrap_add(old(metrics).signing_keys, 1),
        final(metrics).signing_key_bytes == wrap_add(old(metrics).signing_key_bytes, bytes as u64),
        final(metrics).signatures == old(metrics).signatures,
        final(metrics).signature_bytes == old(metrics).signature_bytes,
        final(metrics).updates == old(metrics).updates,
{
    metrics.signing_keys = metrics.signing_keys.wrapping_add(1);
    metrics.signing_key_bytes = metrics.signing_key_bytes.wrapping_add(bytes as u64);
}

/// Counts one created signature of `bytes` bytes.
pub fn record_signature(metrics: &mut KesMetrics, bytes: usize)
    ensures
        final(metrics).signatures == wrap_add(old(metrics).signatures, 1),
        final(metrics).signature_bytes == wrap_add(old(metrics).signature_bytes, bytes as u64),
        final(metrics).signing_keys == old(metrics).signing_keys,
        final(metrics).signing_key_bytes == old(metrics).signing_key_bytes,
        final(metrics).updates == old(metrics).updates,
{
    metrics.signatures = metrics.signatures.wrapping_add(1);
    metrics.signature_bytes = metrics.signature_bytes.wrapping_add(bytes as u64);
}

/// Counts one key update.
pub fn record_update(metrics: &mut KesMetrics)
    ensures
        final(metrics).updates == wrap_add(old(metrics).updates, 1),
        final(metrics).signing_keys == old(metrics).signing_keys,
        final(metrics).signing_key_bytes == old(metrics).signing_key_bytes,
        final(metrics).signatures == old(metrics).signatures,
        final(metrics).signature_bytes == old(metrics).signature_bytes,
{
    metrics.updates = metrics.updates.wrapping_add(1);
}

/// A copy of the current counters.
pub fn snapshot(metrics: &KesMetrics) -> (r: KesMetrics)
    ensures
        r == *metrics,
{
    KesMetrics {
        signing_keys: metrics.signing_keys,
        signing_key_bytes: metrics.signing_key_bytes,
        signatures: metrics.signatures,
        signature_bytes: metrics.signature_bytes,
        updates: metrics.updates,
    }
}

/// Sets every counter to zero.
pub fn reset(metrics: &mut KesMetrics)
    ensures
        final(metrics).signing_keys == 0,
        final(metrics).signing_key_bytes == 0,
        final(metrics).signatures == 0,
        final(metrics).signature_bytes == 0,
        final(metrics).updates == 0,
{
    metrics.signing_keys = 0;
    metrics.signing_key_bytes = 0;
    metrics.signatures = 0;
    metrics.signature_bytes = 0;
    metrics.updates = 0;
}

} // verus!
