//! The error kinds a build can encounter, in the order it meets them.

use vstd::prelude::*;

verus! {

/// Why probing a candidate executable for its version banner failed.
#[derive(Clone, Copy, Debug, PartialEq, Eq, Structural)]
pub enum ProbeError {
    /// The process could not be spawned.
    Io,
    /// The captured output was not valid UTF-8.
    Decode,
    /// The process exited with a non-zero status.
    Exit,
}

/// Why system discovery did not yield a usable compiler. Every case is
/// recoverable: the orchestrator may still invoke the builder.
#[derive(Debug, Clone, PartialEq, Eq)]
pub enum DiscoveryError {
    /// No candidate executable was found on the host search path.
    NotFound,
    /// A candidate was found but its version could not be probed.
    Unreadable(ProbeError),
    /// The candidate's banner names a different version.
    VersionMismatch { found: String, required: String },
}

/// Mathematical model of a [`DiscoveryError`].
pub enum DiscoveryErrorModel {
    NotFound,
    Unreadable(ProbeError),
    VersionMismatch { found: Seq<char>, required: Seq<char> },
}

impl View for DiscoveryError {
    type V = DiscoveryErrorModel;

    open spec fn view(&self) -> DiscoveryErrorModel {
        match self {
            DiscoveryError::NotFound => DiscoveryErrorModel::NotFound,
            DiscoveryError::Unreadable(p) => DiscoveryErrorModel::Unreadable(*p),
            DiscoveryError::VersionMismatch { found, required } => {
                DiscoveryErrorModel::VersionMismatch { found: found@, required: required@ }
            },
        }
    }
}

/// A fatal failure of the acquisition as a whole.
#[derive(Debug, Clone, PartialEq, Eq)]
pub enum AcquireError {
    /// The mandatory output directory variable was absent.
    MissingOutDir,
    /// Discovery failed while the offline policy forbids building; the
    /// discovery error that was refused is carried along.
    DenyNetFetchAbort(DiscoveryError),
    /// The native build toolchain exited non-zero.
    BuilderFailure,
    /// The native builder installed somewhere other than the output
    /// directory; a programming error, not a user error.
    InstallPrefixMismatch { expected: String, actual: String },
    /// The host operating system is not one of the supported three; the
    /// reported name is carried along.
    UnsupportedHostOs(String),
    /// The emitted artifact could not be written.
    EmitterIo,
}

/// Mathematical model of an [`AcquireError`].
pub enum AcquireErrorModel {
    MissingOutDir,
    DenyNetFetchAbort(DiscoveryErrorModel),
    BuilderFailure,
    InstallPrefixMismatch { expected: Seq<char>, actual: Seq<char> },
    UnsupportedHostOs(Seq<char>),
    EmitterIo,
}

impl View for AcquireError {
    type V = AcquireErrorModel;

    open spec fn view(&self) -> AcquireErrorModel {
        match self {
            AcquireError::MissingOutDir => AcquireErrorModel::MissingOutDir,
            AcquireError::DenyNetFetchAbort(e) => AcquireErrorModel::DenyNetFetchAbort(e@),
            AcquireError::BuilderFailure => AcquireErrorModel::BuilderFailure,
            AcquireError::InstallPrefixMismatch { expected, actual } => {
                AcquireErrorModel::InstallPrefixMismatch {
                    expected: expected@,
                    actual: actual@,
                }
            },
            AcquireError::UnsupportedHostOs(n) => AcquireErrorModel::UnsupportedHostOs(n@),
            AcquireError::EmitterIo => AcquireErrorModel::EmitterIo,
        }
    }
}

} // verus!
