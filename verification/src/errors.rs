//! Error taxonomy of the crate.
//!
//! Transport-facing operations fail with [`Error`]; configuration setters
//! fail with [`ConfigError`]. Local no-op conditions (not yet initialized,
//! nothing to change) are not errors: the operations report them as a normal
//! `false` result.

use vstd::prelude::*;

verus! {

/// Failure of a transport-facing operation.
#[derive(Debug, PartialEq, Eq)]
pub enum Error {
    /// No sender or receiver has been attached yet.
    NotConnected,
    /// The underlying send or receive failed; carries a description.
    Transport(String),
    /// Inbound bytes did not parse as a protocol envelope; carries a description.
    Decode(String),
}

/// Rejection of an out-of-range configuration value.
#[derive(Debug, Clone, Copy, PartialEq, Eq, Structural)]
pub enum ConfigError {
    /// The coarse step size must be greater than 0 and at most a gain of 0.10.
    IncrementRange,
    /// The fine step size must be greater than 0 and at most a gain of 0.05.
    FineIncrementRange,
    /// The volume ceiling must be between 0 and a gain of 1.0.
    MaxVolumeRange,
}

} // verus!
