//! Native builder decisions: how the vendored compiler source is
//! configured per host, and how the builder's install directory is
//! checked against the output directory.

use vstd::prelude::*;

use crate::errors::{AcquireError, AcquireErrorModel};
use crate::host::HostOs;
use crate::location::{AcquiredLocation, LocationModel};

verus! {

/// The options the native build system is invoked with.
#[derive(Clone, Copy, Debug, PartialEq, Eq, Structural)]
pub struct BuilderConfig {
    /// Use the faster generator when it is available on the host path.
    pub use_ninja: bool,
    /// Pass the exception-handling flag the platform compiler requires.
    pub cxxflag_ehsc: bool,
    /// Whether the vendored project's own test targets are built.
    pub build_testing: bool,
}

/// Chooses the build options for a host: the faster generator exactly
/// when available, the exception-handling flag exactly on windows, and
/// the vendored tests always disabled.
pub fn builder_config(os: HostOs, ninja_available: bool) -> (c: BuilderConfig)
    ensures
        c.use_ninja == ninja_available,
        c.cxxflag_ehsc == (os is Windows),
        !c.build_testing,
{
    BuilderConfig {
        use_ninja: ninja_available,
        cxxflag_ehsc: os == HostOs::Windows,
        build_testing: false,
    }
}

/// Where, relative to the install directory, the built executable lands.
pub open spec fn spec_relative_path(os: HostOs) -> Seq<char> {
    match os {
        HostOs::Windows => "bin/capnp.exe"@,
        HostOs::Linux => "bin/capnp"@,
        HostOs::MacOs => "bin/capnp"@,
    }
}

/// Runtime value of [`spec_relative_path`].
pub fn builder_relative_path(os: HostOs) -> (r: &'static str)
    ensures
        r@ == spec_relative_path(os),
{
    match os {
        HostOs::Windows => "bin/capnp.exe",
        HostOs::Linux => "bin/capnp",
        HostOs::MacOs => "bin/capnp",
    }
}

/// The builder's closing judgement: the directory the native build
/// system installed into must equal the output directory exactly, and
/// only then is a locally built location produced.
pub open spec fn spec_finish_build(os: HostOs, out_dir: Seq<char>, install_dir: Seq<char>) -> Result<
    LocationModel,
    AcquireErrorModel,
> {
    if install_dir == out_dir {
        Ok(LocationModel::Locally(spec_relative_path(os)))
    } else {
        Err(AcquireErrorModel::InstallPrefixMismatch { expected: out_dir, actual: install_dir })
    }
}

/// Model of an acquisition result.
pub open spec fn acquire_result_view(r: Result<AcquiredLocation, AcquireError>) -> Result<
    LocationModel,
    AcquireErrorModel,
> {
    match r {
        Ok(l) => Ok(l@),
        Err(e) => Err(e@),
    }
}

/// Judges the directory the native build installed into, per
/// [`spec_finish_build`].
pub fn finish_build(os: HostOs, out_dir: &str, install_dir: &str) -> (r: Result<
    AcquiredLocation,
    AcquireError,
>)
    ensures
        acquire_result_view(r) == spec_finish_build(os, out_dir@, install_dir@),
{
    if install_dir.to_owned() == out_dir.to_owned() {
        Ok(AcquiredLocation::Locally(String::from_str(builder_relative_path(os))))
    } else {
        Err(
            AcquireError::InstallPrefixMismatch {
                expected: out_dir.to_owned(),
                actual: install_dir.to_owned(),
            },
        )
    }
}

/// Law: the install layout the builder reports contains no backslash,
/// on any supported host.
pub proof fn lemma_relative_path_no_backslash(os: HostOs)
    ensures
        forall|k: int|
            0 <= k < spec_relative_path(os).len() ==> spec_relative_path(os)[k] != '\\',
{
    reveal_strlit("bin/capnp.exe");
    reveal_strlit("bin/capnp");
}

} // verus!
