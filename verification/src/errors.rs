//! Error taxonomy of the backup pipeline.

use vstd::prelude::*;

verus! {

/// Errors surfaced by the consolidation / restoration pipeline.
#[derive(Clone, PartialEq, Eq, Structural, Debug)]
pub enum BackupError {
    /// An optional source is absent; only that source is skipped.
    NotFound,
    /// A cooperative interrupt was observed; the operation was aborted and
    /// its output must be discarded, not treated as a partial success.
    Cancelled,
    /// A read or write failed; the whole current operation is aborted.
    IoFailure,
    /// A consolidated container holds a top-level path segment that is not
    /// one of the known namespace tags; the restore is aborted.
    UnknownNamespace,
    /// The archive name carries the encryption marker but decryption was not
    /// requested.
    DecryptionRequired,
    /// Sealing the finished container failed; the plaintext container is
    /// still valid. The consolidator reports this case in-band — it hands
    /// the plaintext archive back unsealed — so this variant is reserved
    /// for callers that need to surface the failure as an error.
    SealFailure,
    /// Opening a sealed container failed (wrong key or corrupted data).
    OpenFailure,
    /// An external collaborator tool is not installed.
    ToolNotInstalled,
}

/// Errors of the authenticated-encryption boundary.
#[derive(Clone, PartialEq, Eq, Structural, Debug)]
pub enum CryptoError {
    /// Reading the file to transform failed.
    FileRead,
    /// The seal operation itself failed.
    Encryption,
    /// The open operation failed: wrong key or inauthentic data.
    Decryption,
    /// Writing the transformed file failed.
    FileWrite,
}

} // verus!
