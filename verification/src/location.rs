//! The acquired compiler location: either an executable found on the
//! host, or a path relative to the build output directory where the
//! native builder installed one.

use vstd::prelude::*;

verus! {

/// Where a build found its compiler. Exactly one value of this type is
/// produced per successful build.
#[derive(Debug, Clone, PartialEq, Eq)]
pub enum AcquiredLocation {
    /// Absolute path of an executable discovered on the host search path.
    OnSystem(String),
    /// Path of a locally built executable, relative to the output
    /// directory the native build system installed into.
    Locally(String),
}

/// Mathematical model of an [`AcquiredLocation`]: the same two cases
/// over character sequences.
pub enum LocationModel {
    OnSystem(Seq<char>),
    Locally(Seq<char>),
}

impl View for AcquiredLocation {
    type V = LocationModel;

    open spec fn view(&self) -> LocationModel {
        match self {
            AcquiredLocation::OnSystem(p) => LocationModel::OnSystem(p@),
            AcquiredLocation::Locally(p) => LocationModel::Locally(p@),
        }
    }
}

/// The characters of the path a location names, with the tag forgotten;
/// this is the text the emitted artifact bakes in.
pub open spec fn spec_location_text(l: LocationModel) -> Seq<char> {
    match l {
        LocationModel::OnSystem(p) => p,
        LocationModel::Locally(p) => p,
    }
}

/// Runtime access to [`spec_location_text`].
pub fn location_text(l: &AcquiredLocation) -> (r: &str)
    ensures
        r@ == spec_location_text(l@),
{
    match l {
        AcquiredLocation::OnSystem(p) => p.as_str(),
        AcquiredLocation::Locally(p) => p.as_str(),
    }
}

} // verus!
