//! Path component filtering: reducing a walked path to its ordinary
//! name components before it is matched and handed on.

use vstd::prelude::*;

verus! {

/// One component of a filesystem path, as the host's path parsing
/// reports them.
#[derive(Debug, Clone, PartialEq, Eq)]
pub enum PathPart {
    /// A windows path prefix, such as a drive letter, verbatim.
    Prefix(String),
    /// The root directory separator.
    RootDir,
    /// A reference to the current directory.
    CurDir,
    /// A reference to the parent directory.
    ParentDir,
    /// An ordinary file or directory name.
    Normal(String),
}

/// Mathematical model of a [`PathPart`].
pub enum PathPartModel {
    Prefix(Seq<char>),
    RootDir,
    CurDir,
    ParentDir,
    Normal(Seq<char>),
}

impl View for PathPart {
    type V = PathPartModel;

    open spec fn view(&self) -> PathPartModel {
        match self {
            PathPart::Prefix(s) => PathPartModel::Prefix(s@),
            PathPart::RootDir => PathPartModel::RootDir,
            PathPart::CurDir => PathPartModel::CurDir,
            PathPart::ParentDir => PathPartModel::ParentDir,
            PathPart::Normal(s) => PathPartModel::Normal(s@),
        }
    }
}

/// Whether a component is an ordinary name.
pub open spec fn is_normal_part(p: PathPartModel) -> bool {
    p is Normal
}

/// Model of a component list.
pub open spec fn parts_view(s: Seq<PathPart>) -> Seq<PathPartModel> {
    s.map_values(|p: PathPart| p@)
}

/// The ordinary name components of a list, in order, with the prefix,
/// the root and every current- or parent-directory reference dropped.
pub open spec fn normal_parts(s: Seq<PathPartModel>) -> Seq<PathPartModel> {
    s.filter(|p: PathPartModel| is_normal_part(p))
}

proof fn lemma_normal_parts_push(s: Seq<PathPartModel>, x: PathPartModel)
    ensures
        normal_parts(s.push(x)) == if is_normal_part(x) {
            normal_parts(s).push(x)
        } else {
            normal_parts(s)
        },
{
    reveal(Seq::filter);
    assert(s.push(x).drop_last() =~= s);
    assert(s.push(x).last() == x);
}

fn clone_part(p: &PathPart) -> (r: PathPart)
    ensures
        r@ == p@,
{
    match p {
        PathPart::Prefix(s) => PathPart::Prefix(s.clone()),
        PathPart::RootDir => PathPart::RootDir,
        PathPart::CurDir => PathPart::CurDir,
        PathPart::ParentDir => PathPart::ParentDir,
        PathPart::Normal(s) => PathPart::Normal(s.clone()),
    }
}

/// Keeps only the ordinary name components of a path, per
/// [`normal_parts`]; what remains is the path relative to wherever the
/// walk began.
pub fn normalize_path(parts: &Vec<PathPart>) -> (r: Vec<PathPart>)
    ensures
        parts_view(r@) == normal_parts(parts_view(parts@)),
{
    let mut r: Vec<PathPart> = Vec::new();
    let mut i: usize = 0;
    while i < parts.len()
        invariant
            i <= parts.len(),
            parts_view(r@) == normal_parts(parts_view(parts@.subrange(0, i as int))),
        decreases parts.len() - i,
    {
        let p = &parts[i];
        let keep = match p {
            PathPart::Normal(_) => true,
            _ => false,
        };
        proof {
            let prev = parts_view(parts@.subrange(0, i as int));
            lemma_normal_parts_push(prev, parts@[i as int]@);
            assert(parts_view(parts@.subrange(0, i + 1 as int)) =~= prev.push(parts@[i as int]@));
        }
        if keep {
            let ghost old_r = r@;
            r.push(clone_part(p));
            proof {
                assert(parts_view(r@) =~= parts_view(old_r).push(parts@[i as int]@));
            }
        }
        i = i + 1;
    }
    proof {
        assert(parts@.subrange(0, parts@.len() as int) =~= parts@);
    }
    r
}

} // verus!
