//! The acquisition state machine: discovery first; on a recoverable
//! discovery failure either abort under the offline policy or fall back
//! to the native builder.

use vstd::prelude::*;

use crate::builder::{spec_finish_build, spec_relative_path};
use crate::discovery::{
    discovery_result_view, spec_evaluate_discovery, DiscoveryModel,
};
use crate::errors::{AcquireError, AcquireErrorModel, DiscoveryError, DiscoveryErrorModel};
use crate::host::HostOs;
use crate::location::{AcquiredLocation, LocationModel};
use crate::version::{spec_banner_matches, spec_expected_banner, trim_spec};

verus! {

/// What the orchestrator decides after discovery: the acquisition is
/// finished, the builder must run, or the build aborts.
#[derive(Debug, Clone, PartialEq, Eq)]
pub enum OrchestratorStep {
    /// Terminal: the compiler was acquired.
    Acquired(AcquiredLocation),
    /// The native builder is to be invoked; the discovery error that
    /// made it necessary is carried along.
    Build(DiscoveryError),
    /// Terminal: the build fails with the carried error.
    Abort(AcquireError),
}

/// Mathematical model of an [`OrchestratorStep`].
pub enum StepModel {
    Acquired(LocationModel),
    Build(DiscoveryErrorModel),
    Abort(AcquireErrorModel),
}

impl View for OrchestratorStep {
    type V = StepModel;

    open spec fn view(&self) -> StepModel {
        match self {
            OrchestratorStep::Acquired(l) => StepModel::Acquired(l@),
            OrchestratorStep::Build(e) => StepModel::Build(e@),
            OrchestratorStep::Abort(e) => StepModel::Abort(e@),
        }
    }
}

/// The decision taken on a discovery result: success is terminal; a
/// failure aborts when the offline policy is set and otherwise moves to
/// building, carrying the discovery error either way.
pub open spec fn spec_after_discovery(
    r: Result<LocationModel, DiscoveryErrorModel>,
    deny_net_fetch: bool,
) -> StepModel {
    match r {
        Ok(l) => StepModel::Acquired(l),
        Err(e) => if deny_net_fetch {
            StepModel::Abort(AcquireErrorModel::DenyNetFetchAbort(e))
        } else {
            StepModel::Build(e)
        },
    }
}

/// Takes the orchestrator's decision on a discovery result, per
/// [`spec_after_discovery`].
pub fn after_discovery(r: Result<AcquiredLocation, DiscoveryError>, deny_net_fetch: bool) -> (s:
    OrchestratorStep)
    ensures
        s@ == spec_after_discovery(discovery_result_view(r), deny_net_fetch),
{
    match r {
        Ok(l) => OrchestratorStep::Acquired(l),
        Err(e) => if deny_net_fetch {
            OrchestratorStep::Abort(AcquireError::DenyNetFetchAbort(e))
        } else {
            OrchestratorStep::Build(e)
        },
    }
}

/// The acquisition from start to finish, over one build's facts: what
/// discovery observed, the offline policy, the host, the output
/// directory, and — where the builder would run — the directory the
/// native build system installed into, or its failure.
pub open spec fn spec_orchestrate(
    o: DiscoveryModel,
    required: Seq<char>,
    deny_net_fetch: bool,
    os: HostOs,
    out_dir: Seq<char>,
    builder: Result<Seq<char>, ()>,
) -> Result<LocationModel, AcquireErrorModel> {
    match spec_evaluate_discovery(o, required) {
        Ok(l) => Ok(l),
        Err(e) => if deny_net_fetch {
            Err(AcquireErrorModel::DenyNetFetchAbort(e))
        } else {
            match builder {
                Err(()) => Err(AcquireErrorModel::BuilderFailure),
                Ok(install_dir) => spec_finish_build(os, out_dir, install_dir),
            }
        },
    }
}

/// Law: the step functions the driver calls carry out exactly the whole
/// acquisition of [`spec_orchestrate`] — an `Acquired` or `Abort` step
/// is terminal with that outcome, and a `Build` step leaves the outcome
/// to the builder's install check alone.
pub proof fn lemma_steps_follow_orchestration(
    o: DiscoveryModel,
    required: Seq<char>,
    deny_net_fetch: bool,
    os: HostOs,
    out_dir: Seq<char>,
    builder: Result<Seq<char>, ()>,
)
    ensures
        spec_after_discovery(spec_evaluate_discovery(o, required), deny_net_fetch) matches
            StepModel::Acquired(l) ==> spec_orchestrate(
            o,
            required,
            deny_net_fetch,
            os,
            out_dir,
            builder,
        ) == Ok::<LocationModel, AcquireErrorModel>(l),
        spec_after_discovery(spec_evaluate_discovery(o, required), deny_net_fetch) matches
            StepModel::Abort(e) ==> spec_orchestrate(
            o,
            required,
            deny_net_fetch,
            os,
            out_dir,
            builder,
        ) == Err::<LocationModel, AcquireErrorModel>(e),
        builder is Ok && spec_after_discovery(
            spec_evaluate_discovery(o, required),
            deny_net_fetch,
        ) is Build ==> spec_orchestrate(
            o,
            required,
            deny_net_fetch,
            os,
            out_dir,
            builder,
        ) == spec_finish_build(os, out_dir, builder->Ok_0),
        spec_after_discovery(spec_evaluate_discovery(o, required), deny_net_fetch) is Build
            && builder is Err ==> spec_orchestrate(o, required, deny_net_fetch, os, out_dir, builder)
            == Err::<LocationModel, AcquireErrorModel>(AcquireErrorModel::BuilderFailure),
{
}

/// Law: a successful build acquires exactly one location — found on the
/// system exactly when discovery accepted a candidate, and locally
/// built exactly when discovery failed, the offline policy was unset,
/// and the builder installed into the output directory.
pub proof fn lemma_exactly_one_location(
    o: DiscoveryModel,
    required: Seq<char>,
    deny_net_fetch: bool,
    os: HostOs,
    out_dir: Seq<char>,
    builder: Result<Seq<char>, ()>,
)
    ensures
        spec_orchestrate(o, required, deny_net_fetch, os, out_dir, builder) matches Ok(l) ==> ((
        l is OnSystem) <==> spec_evaluate_discovery(o, required) is Ok),
        spec_orchestrate(o, required, deny_net_fetch, os, out_dir, builder) matches Ok(l) ==> ((
        l is Locally) <==> (builder matches Ok(d) && spec_evaluate_discovery(o, required) is Err
            && !deny_net_fetch && d == out_dir)),
{
}

/// Law: a system-acquired location comes from a probed candidate whose
/// trimmed banner is exactly the banner of the required version, and it
/// names that candidate's path.
pub proof fn lemma_system_location_has_matching_banner(
    o: DiscoveryModel,
    required: Seq<char>,
    deny_net_fetch: bool,
    os: HostOs,
    out_dir: Seq<char>,
    builder: Result<Seq<char>, ()>,
)
    ensures
        spec_orchestrate(o, required, deny_net_fetch, os, out_dir, builder) matches Ok(
            LocationModel::OnSystem(p),
        ) ==> (o matches DiscoveryModel::Probed { path, banner } && p == path
            && spec_banner_matches(banner, required) && trim_spec(banner) == spec_expected_banner(
            required,
        )),
{
}

/// Law: a locally built location names exactly the platform install
/// layout under the output directory.
pub proof fn lemma_built_location_is_install_layout(
    o: DiscoveryModel,
    required: Seq<char>,
    deny_net_fetch: bool,
    os: HostOs,
    out_dir: Seq<char>,
    builder: Result<Seq<char>, ()>,
)
    ensures
        spec_orchestrate(o, required, deny_net_fetch, os, out_dir, builder) matches Ok(
            LocationModel::Locally(rel),
        ) ==> rel == spec_relative_path(os),
{
}

/// Law: under the offline policy a discovery failure aborts with that
/// discovery error, and the outcome does not depend on the builder in
/// any way — no build is invoked.
pub proof fn lemma_deny_net_fetch_no_build(
    o: DiscoveryModel,
    required: Seq<char>,
    os: HostOs,
    out_dir: Seq<char>,
    b1: Result<Seq<char>, ()>,
    b2: Result<Seq<char>, ()>,
)
    requires
        spec_evaluate_discovery(o, required) is Err,
    ensures
        spec_orchestrate(o, required, true, os, out_dir, b1) == spec_orchestrate(
            o,
            required,
            true,
            os,
            out_dir,
            b2,
        ),
        spec_evaluate_discovery(o, required) matches Err(e) ==> spec_orchestrate(
            o,
            required,
            true,
            os,
            out_dir,
            b1,
        ) == Err::<LocationModel, AcquireErrorModel>(AcquireErrorModel::DenyNetFetchAbort(e)),
{
}

} // verus!
