//! The ways a fetch can fail.

use vstd::prelude::*;

verus! {

/// Why a fetch did not yield a usable artifact.
#[derive(Debug, Clone, Copy, PartialEq, Eq, Structural)]
pub enum FetchError {
    /// The reference uses a tag that the policy does not allow.
    PolicyViolation,
    /// The normalized reference is not a registry reference.
    InvalidReference,
    /// An additional CA path could not be read or decoded.
    CertLoad,
    /// The manifest could not be fetched for the freshness check.
    ManifestFetch,
    /// The content could not be pulled.
    Pull,
    /// The pulled content breaks a structural rule; `layers` is the number
    /// of layers that were found where one was expected.
    Validation { layers: usize },
    /// The cache could not be written.
    CacheIo,
}

} // verus!
