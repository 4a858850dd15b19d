//! Key evolving signatures and a verifiable random function.
//!
//! The signature schemes are the single-period scheme over Ed25519 and the
//! binary sum and compact sum towers built on it: a tower of depth `n`
//! serves `2^n` periods, and a key evolved past a period can no longer sign
//! for it. Each scheme meets the `KesAlgorithm` contract, which the sum
//! constructions are proved against for any child scheme that meets it too.
//!
//! The VRF is ECVRF-ED25519-SHA512-Elligator2 as of IETF draft-03.

pub mod bytes;
pub mod compact_single;
pub mod compact_sum;
pub mod curve;
pub mod ed25519;
pub mod error;
pub mod hash;
pub mod laws;
pub mod metrics;
pub mod single;
pub mod sum;
pub mod traits;
pub mod vrf;

pub use compact_single::{CompactSingleKes, CompactSingleSig, OptimizedKesSignature};
pub use compact_sum::{
    CompactSum0Kes, CompactSum1Kes, CompactSum2Kes, CompactSum3Kes, CompactSum4Kes, CompactSum5Kes,
    CompactSum6Kes, CompactSum7Kes, CompactSumKes,
};
pub use error::{KesError, KesMError, Period};
pub use hash::{Blake2b224, Blake2b256, Blake2b512, KesHashAlgorithm};
pub use metrics::KesMetrics;
pub use single::SingleKes;
pub use sum::{Sum0Kes, Sum1Kes, Sum2Kes, Sum3Kes, Sum4Kes, Sum5Kes, Sum6Kes, Sum7Kes, SumKes};
pub use traits::{KesAlgorithm, UnsoundKesAlgorithm, VerificationKey};
pub use vrf::{VrfDraft03, VrfError};
