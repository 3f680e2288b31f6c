use vstd::prelude::*;

verus! {

/// Failures of the key-management and envelope-encryption subsystem.
///
/// Integrity failures are deliberately coarse: a wrong password and a
/// tampered blob both surface as `InvalidPassword` at the unlock boundary,
/// so the caller gains no tamper-detection oracle.
#[derive(Debug, Clone, Copy, PartialEq, Eq, Structural)]
pub enum IterateError {
    /// The single key-store row is absent: there is no root of trust here.
    MissingIntegrityRecord,
    /// The password is wrong, or the stored key material was tampered with.
    InvalidPassword,
    /// An AES-GCM tag did not match: tampering, wrong key, or wrong context.
    AeadIntegrityFailure,
    /// The password hash could not be computed: bad cost parameters, or the
    /// memory-hard pass could not obtain its working memory.
    KeyDerivationFailed,
    /// Expanding the master key into service keys failed.
    HkdfExpansionFailed,
    /// The wrapped master key decrypted to a value of the wrong size.
    DecryptionFailed,
    /// A persisted blob could not be parsed, or a value could not be framed.
    SerializationFailed,
    /// The system's randomness source failed. Fatal: the operation aborts
    /// rather than fall back to weaker randomness.
    SystemRngFailure,
}

} // verus!
