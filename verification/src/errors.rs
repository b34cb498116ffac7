//! Failure taxonomy of the install/update pipeline.
use vstd::prelude::*;

verus! {

/// Every pipeline stage reports exactly one of these failures; the
/// orchestrator stops at the first one and the process exits with the
/// kind's own non-zero code.
#[derive(Debug, PartialEq)]
pub enum InstallError {
    /// The CLI dependency token was not `<name>~<version>`.
    MalformedSpec,
    /// The registry listing could not be fetched or parsed.
    RegistryUnavailable,
    /// The registry listing has no entry for the requested key.
    NotFoundInRegistry,
    /// Transport or status error while fetching the artifact.
    DownloadFailed,
    /// The downloaded archive is corrupt or unreadable.
    ArchiveInvalid,
    /// A filesystem error during extraction or cleanup.
    IOFailure,
    /// The manifest file could not be read or written.
    ManifestIOError,
    /// Post-install verification found no populated directory for the key.
    MissingDependency { name: String, version: String },
}

impl InstallError {
    /// The process exit code of this failure kind.
    pub open spec fn spec_exit_code(&self) -> u8 {
        match self {
            InstallError::MalformedSpec => 1,
            InstallError::RegistryUnavailable => 2,
            InstallError::NotFoundInRegistry => 3,
            InstallError::DownloadFailed => 4,
            InstallError::ArchiveInvalid => 5,
            InstallError::IOFailure => 6,
            InstallError::ManifestIOError => 7,
            InstallError::MissingDependency { .. } => 8,
        }
    }

    /// Each failure kind maps to its own fixed, non-zero exit code.
    pub fn exit_code(&self) -> (c: u8)
        ensures
            c == self.spec_exit_code(),
            c != 0,
    {
        match self {
            InstallError::MalformedSpec => 1,
            InstallError::RegistryUnavailable => 2,
            InstallError::NotFoundInRegistry => 3,
            InstallError::DownloadFailed => 4,
            InstallError::ArchiveInvalid => 5,
            InstallError::IOFailure => 6,
            InstallError::ManifestIOError => 7,
            InstallError::MissingDependency { .. } => 8,
        }
    }
}

} // verus!
