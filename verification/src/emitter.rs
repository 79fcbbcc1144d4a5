//! The handle emitter: assembling the source artifact that downstream
//! build stages compile, around the path at which they will find the
//! acquired compiler.
//!
//! The artifact's fixed opening and closing text is handed in by the
//! caller; what is verified here is the path baked between them — the
//! output directory with backslashes rewritten to forward slashes,
//! a slash, and the acquired location's own text — and that the whole
//! artifact is exactly that concatenation.

use vstd::prelude::*;

use crate::location::{spec_location_text, AcquiredLocation, LocationModel};

verus! {

/// The sequence with every backslash rewritten to a forward slash.
pub open spec fn spec_forward_slashes(s: Seq<char>) -> Seq<char> {
    s.map_values(
        |c: char|
            if c == '\\' {
                '/'
            } else {
                c
            },
    )
}

/// Rewrites every backslash of `s` to a forward slash.
pub fn forward_slashes(s: &str) -> (r: String)
    ensures
        r@ == spec_forward_slashes(s@),
{
    let n = s.unicode_len();
    let mut r = String::new();
    let mut i: usize = 0;
    while i < n
        invariant
            i <= n,
            n == s@.len(),
            r@ == spec_forward_slashes(s@.subrange(0, i as int)),
        decreases n - i,
    {
        let c = s.get_char(i);
        if c == '\\' {
            r.append("/");
        } else {
            let piece = s.substring_char(i, i + 1);
            r.append(piece);
        }
        proof {
            reveal_strlit("/");
            assert(spec_forward_slashes(s@.subrange(0, i + 1 as int)) =~= spec_forward_slashes(
                s@.subrange(0, i as int),
            ).push(
                if s@[i as int] == '\\' {
                    '/'
                } else {
                    s@[i as int]
                },
            ));
        }
        i = i + 1;
    }
    proof {
        assert(s@.subrange(0, n as int) =~= s@);
    }
    r
}

/// The include path baked into the artifact: the output directory with
/// backslashes rewritten, a slash, and the location's text verbatim.
pub open spec fn spec_baked_path(out_dir: Seq<char>, loc: LocationModel) -> Seq<char> {
    spec_forward_slashes(out_dir) + "/"@ + spec_location_text(loc)
}

/// Runtime construction of [`spec_baked_path`].
pub fn baked_path(out_dir: &str, loc: &AcquiredLocation) -> (r: String)
    ensures
        r@ == spec_baked_path(out_dir@, loc@),
{
    forward_slashes(out_dir).concat("/").concat(crate::location::location_text(loc))
}

/// The whole artifact: the fixed opening text, the baked path, and the
/// fixed closing text, in that order and with nothing else.
pub open spec fn spec_artifact(
    head: Seq<char>,
    out_dir: Seq<char>,
    loc: LocationModel,
    tail: Seq<char>,
) -> Seq<char> {
    head + spec_baked_path(out_dir, loc) + tail
}

/// Assembles the artifact, per [`spec_artifact`].
pub fn artifact_contents(head: &str, out_dir: &str, loc: &AcquiredLocation, tail: &str) -> (r:
    String)
    ensures
        r@ == spec_artifact(head@, out_dir@, loc@, tail@),
{
    String::from_str(head).concat(baked_path(out_dir, loc).as_str()).concat(tail)
}

/// Whether a piece of text can be baked into the artifact: the simple
/// slash rewriting performs no escaping, so a quotation mark or a line
/// break would break the generated source. Such paths are unsupported
/// and the build must fail loudly instead of emitting.
pub open spec fn spec_embeddable(s: Seq<char>) -> bool {
    forall|k: int| 0 <= k < s.len() ==> s[k] != '"' && s[k] != '\n' && s[k] != '\r'
}

/// Runtime test for [`spec_embeddable`].
pub fn embeddable_text(s: &str) -> (b: bool)
    ensures
        b == spec_embeddable(s@),
{
    let n = s.unicode_len();
    let mut i: usize = 0;
    while i < n
        invariant
            i <= n,
            n == s@.len(),
            forall|k: int| 0 <= k < i ==> s@[k] != '"' && s@[k] != '\n' && s@[k] != '\r',
        decreases n - i,
    {
        let c = s.get_char(i);
        if c == '"' || c == '\n' || c == '\r' {
            return false;
        }
        i = i + 1;
    }
    true
}

/// Law: emitting is deterministic — a re-run with unchanged inputs
/// produces a byte-identical artifact.
pub proof fn lemma_artifact_idempotent(
    head1: Seq<char>,
    out_dir1: Seq<char>,
    loc1: LocationModel,
    tail1: Seq<char>,
    head2: Seq<char>,
    out_dir2: Seq<char>,
    loc2: LocationModel,
    tail2: Seq<char>,
)
    requires
        head1 == head2,
        out_dir1 == out_dir2,
        loc1 == loc2,
        tail1 == tail2,
    ensures
        spec_artifact(head1, out_dir1, loc1, tail1) == spec_artifact(
            head2,
            out_dir2,
            loc2,
            tail2,
        ),
{
}

/// Law: the baked include path contains only forward slashes wherever
/// the location's own text does, whatever the output directory holds.
pub proof fn lemma_baked_path_forward_slashes(out_dir: Seq<char>, loc: LocationModel)
    requires
        forall|k: int|
            0 <= k < spec_location_text(loc).len() ==> spec_location_text(loc)[k] != '\\',
    ensures
        forall|k: int|
            0 <= k < spec_baked_path(out_dir, loc).len() ==> spec_baked_path(out_dir, loc)[k]
                != '\\',
{
    reveal_strlit("/");
    let baked = spec_baked_path(out_dir, loc);
    let fwd = spec_forward_slashes(out_dir);
    assert forall|k: int| 0 <= k < baked.len() implies baked[k] != '\\' by {
        if k < fwd.len() {
            assert(baked[k] == fwd[k]);
            assert(fwd[k] != '\\');
        } else if k == fwd.len() {
            assert(baked[k] == "/"@[0]);
        } else {
            assert(baked[k] == spec_location_text(loc)[k - fwd.len() - 1]);
        }
    }
}

} // verus!
