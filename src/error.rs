//! Error kinds surfaced by the key evolving signature schemes.
use vstd::prelude::*;

verus! {

/// A KES period: an unsigned, 0-indexed time step.
pub type Period = u64;

/// Deterministic failures: cryptographic rejection or malformed input.
#[derive(Debug, Clone, PartialEq, Eq)]
pub enum KesError {
    /// The cryptographic check rejected the signature.
    VerificationFailed,
    /// A byte string had the wrong length.
    WrongLength {
        /// What was being decoded.
        context: &'static str,
        /// The length that was required.
        expected: usize,
        /// The length that was given.
        actual: usize,
    },
    /// An opaque failure described by its text.
    Message(String),
    /// The key has evolved beyond its last period.
    KeyExpired,
    /// The period lies outside what the key can serve.
    PeriodOutOfRange {
        /// The period that was asked for.
        period: Period,
        /// The number of periods of the scheme.
        max_period: Period,
    },
}

impl KesError {
    /// Builds a `WrongLength` error.
    pub fn wrong_length(context: &'static str, expected: usize, actual: usize) -> (r: Self)
        ensures
            r == (KesError::WrongLength { context, expected, actual }),
    {
        KesError::WrongLength { context, expected, actual }
    }
}

/// Failures of key construction and evolution: the deterministic kinds plus
/// resource failures.
#[derive(Debug)]
pub enum KesMError {
    /// A deterministic failure.
    Kes(KesError),
    /// A resource failure described by its text.
    Message(String),
}

impl From<KesError> for KesMError {
    fn from(err: KesError) -> (r: KesMError)
        ensures
            r == KesMError::Kes(err),
    {
        KesMError::Kes(err)
    }
}

impl vstd::std_specs::convert::FromSpecImpl<KesError> for KesMError {
    open spec fn obeys_from_spec() -> bool {
        true
    }

    open spec fn from_spec(err: KesError) -> KesMError {
        KesMError::Kes(err)
    }
}

} // verus!
