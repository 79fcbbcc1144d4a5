//! System discovery: judging what a search of the host path and a
//! version probe turned up.

use vstd::prelude::*;

use crate::errors::{DiscoveryError, DiscoveryErrorModel, ProbeError};
use crate::location::{AcquiredLocation, LocationModel};
use crate::version::{banner_matches, spec_banner_matches};

verus! {

/// What the host-side search and probe observed: no candidate, a
/// candidate whose probe failed, or a candidate with its banner.
#[derive(Debug, Clone, PartialEq, Eq)]
pub enum DiscoveryOutcome {
    NotFound,
    Unreadable(ProbeError),
    Probed { path: String, banner: String },
}

/// Mathematical model of a [`DiscoveryOutcome`].
pub enum DiscoveryModel {
    NotFound,
    Unreadable(ProbeError),
    Probed { path: Seq<char>, banner: Seq<char> },
}

impl View for DiscoveryOutcome {
    type V = DiscoveryModel;

    open spec fn view(&self) -> DiscoveryModel {
        match self {
            DiscoveryOutcome::NotFound => DiscoveryModel::NotFound,
            DiscoveryOutcome::Unreadable(p) => DiscoveryModel::Unreadable(*p),
            DiscoveryOutcome::Probed { path, banner } => {
                DiscoveryModel::Probed { path: path@, banner: banner@ }
            },
        }
    }
}

/// The discovery judgement: a probed candidate is accepted exactly when
/// its trimmed banner equals the banner of the required version; every
/// other observation becomes the corresponding recoverable error.
pub open spec fn spec_evaluate_discovery(o: DiscoveryModel, required: Seq<char>) -> Result<
    LocationModel,
    DiscoveryErrorModel,
> {
    match o {
        DiscoveryModel::NotFound => Err(DiscoveryErrorModel::NotFound),
        DiscoveryModel::Unreadable(p) => Err(DiscoveryErrorModel::Unreadable(p)),
        DiscoveryModel::Probed { path, banner } => {
            if spec_banner_matches(banner, required) {
                Ok(LocationModel::OnSystem(path))
            } else {
                Err(DiscoveryErrorModel::VersionMismatch { found: banner, required })
            }
        },
    }
}

/// Model of a discovery result.
pub open spec fn discovery_result_view(r: Result<AcquiredLocation, DiscoveryError>) -> Result<
    LocationModel,
    DiscoveryErrorModel,
> {
    match r {
        Ok(l) => Ok(l@),
        Err(e) => Err(e@),
    }
}

/// Judges a discovery observation, per [`spec_evaluate_discovery`].
pub fn evaluate_discovery(outcome: DiscoveryOutcome, required: &str) -> (r: Result<
    AcquiredLocation,
    DiscoveryError,
>)
    ensures
        discovery_result_view(r) == spec_evaluate_discovery(outcome@, required@),
{
    match outcome {
        DiscoveryOutcome::NotFound => Err(DiscoveryError::NotFound),
        DiscoveryOutcome::Unreadable(p) => Err(DiscoveryError::Unreadable(p)),
        DiscoveryOutcome::Probed { path, banner } => {
            if banner_matches(banner.as_str(), required) {
                Ok(AcquiredLocation::OnSystem(path))
            } else {
                Err(
                    DiscoveryError::VersionMismatch {
                        found: banner,
                        required: required.to_owned(),
                    },
                )
            }
        },
    }
}

/// The user-visible warning a version mismatch emits, naming both the
/// observed banner and the required version.
pub open spec fn spec_mismatch_warning(found: Seq<char>, required: Seq<char>) -> Seq<char> {
    "cargo:warning=System version of capnp found ("@ + found
        + ") does not meet version requirement "@ + required + "."@
}

/// Runtime construction of [`spec_mismatch_warning`].
pub fn mismatch_warning(found: &str, required: &str) -> (r: String)
    ensures
        r@ == spec_mismatch_warning(found@, required@),
{
    String::from_str("cargo:warning=System version of capnp found (").concat(found).concat(
        ") does not meet version requirement ",
    ).concat(required).concat(".")
}

} // verus!
