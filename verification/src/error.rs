use vstd::prelude::*;

verus! {

/// The four failure kinds that may cross the engine boundary.
///
/// Every internal failure is mapped to exactly one of these at the point it
/// leaves the engine; no detail of an underlying primitive is propagated, so
/// that a caller (or an attacker) cannot tell which internal step failed.
#[derive(Clone, Copy, Debug, PartialEq, Eq, Structural)]
pub enum Error {
    /// The entropy source or key construction failed.
    GenerateKeyFailed,
    /// Some step of encryption failed: key agreement, derivation, or sealing.
    EncryptFailed,
    /// Some step of decryption failed: key agreement, derivation, or opening.
    DecryptFailed,
    /// The frame is too short to contain the fixed-size header fields.
    InvalidMessageLength,
}

} // verus!
