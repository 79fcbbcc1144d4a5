//! Build-time acquisition of the Cap'n Proto schema compiler.
//!
//! The library decides whether a compatible `capnp` executable already
//! exists on the host, how a vendored copy is to be built when none does,
//! and what the source artifact handed to later build stages contains.
//! All decisions are pure functions with verified contracts; the
//! surrounding process spawning, environment reading and file writing is
//! left to an unverified driver.

pub mod builder;
pub mod discovery;
pub mod emitter;
pub mod errors;
pub mod host;
pub mod location;
pub mod orchestrator;
pub mod paths;
pub mod version;

use vstd::prelude::*;

verus! {

/// The version of the vendored compiler source tree; a system compiler
/// is accepted only when its banner names exactly this version.
pub fn required_version() -> (r: &'static str)
    ensures
        r@ == spec_required_version(),
{
    "0.11.0"
}

/// Spec-level value of [`required_version`].
pub open spec fn spec_required_version() -> Seq<char> {
    "0.11.0"@
}

/// The change tracker's single directive: it names the vendored source
/// directory as a rebuild trigger, so edits to the vendored tree force
/// the acquisition to run again.
pub fn rerun_directive() -> (r: &'static str)
    ensures
        r@ == spec_rerun_directive(),
{
    "cargo:rerun-if-changed=capnproto"
}

/// Spec-level value of [`rerun_directive`].
pub open spec fn spec_rerun_directive() -> Seq<char> {
    "cargo:rerun-if-changed=capnproto"@
}

} // verus!
