//! The detector: walks the directory levels from a starting path upward
//! and binds the first provider whose marker entry exists, probing git
//! before Mercurial at every level. The caller performs the existence
//! checks and hands the levels in nearest-first; the decision — nearest
//! marked ancestor wins, git before Mercurial on a tie — is made here.

use vstd::prelude::*;

use crate::git::Git;
use crate::hg::Hg;

verus! {

/// What one directory level showed when probed: its path and whether a
/// `.git` or `.hg` entry exists directly in it.
#[derive(Debug, Clone)]
pub struct DirProbe {
    /// the directory that was probed
    pub path: String,
    /// a `.git` entry (file or directory) exists in it
    pub has_git: bool,
    /// a `.hg` entry exists in it
    pub has_hg: bool,
}

/// Which provider a detection bound.
#[derive(Debug, Clone, Copy, PartialEq, Eq, Structural)]
pub enum VcsKind {
    Git,
    Hg,
}

/// One of the supported version-control systems, bound to its repository
/// root. The supported list is fixed and small, so the uniform
/// `name`/`branch`/`modified` capability set is offered over a closed
/// tagged variant rather than an open trait-object set.
#[derive(Debug, Clone)]
pub enum VCS {
    Git(Git),
    Hg(Hg),
}

impl VCS {
    pub open spec fn spec_kind(&self) -> VcsKind {
        match self {
            VCS::Git(_) => VcsKind::Git,
            VCS::Hg(_) => VcsKind::Hg,
        }
    }

    pub open spec fn spec_root(&self) -> Seq<char> {
        match self {
            VCS::Git(g) => g.root@,
            VCS::Hg(h) => h.root@,
        }
    }

    pub open spec fn spec_name(&self) -> Seq<char> {
        match self {
            VCS::Git(_) => "git"@,
            VCS::Hg(_) => "hg"@,
        }
    }

    pub fn kind(&self) -> (k: VcsKind)
        ensures
            k == self.spec_kind(),
    {
        match self {
            VCS::Git(_) => VcsKind::Git,
            VCS::Hg(_) => VcsKind::Hg,
        }
    }

    /// The constant short identifier of the bound provider.
    pub fn name(&self) -> (r: &'static str)
        ensures
            r@ == self.spec_name(),
    {
        match self {
            VCS::Git(g) => g.name(),
            VCS::Hg(h) => h.name(),
        }
    }

    /// The repository root this handle owns.
    pub fn root(&self) -> (r: &str)
        ensures
            r@ == self.spec_root(),
    {
        match self {
            VCS::Git(g) => g.root.as_str(),
            VCS::Hg(h) => h.root.as_str(),
        }
    }
}

/// The outcome of the walk over probed levels, nearest level first: the
/// first level carrying any marker decides, with git before Mercurial on
/// a level carrying both; a walk with no marked level yields no match.
pub open spec fn spec_detect(levels: Seq<DirProbe>) -> Option<(VcsKind, Seq<char>)>
    decreases levels.len(),
{
    if levels.len() == 0 {
        None
    } else if levels[0].has_git {
        Some((VcsKind::Git, levels[0].path@))
    } else if levels[0].has_hg {
        Some((VcsKind::Hg, levels[0].path@))
    } else {
        spec_detect(levels.drop_first())
    }
}

/// Deduces the VCS governing the probed directory levels, given
/// nearest-first. Returns the handle of the first provider whose marker
/// exists at the nearest marked level, or `None` when no level is marked:
/// absence of VCS is a normal, non-exceptional outcome.
pub fn get_vcs(levels: &Vec<DirProbe>) -> (r: Option<VCS>)
    ensures
        spec_detect(levels@) is None ==> r is None,
        spec_detect(levels@) matches Some(d) ==> (r matches Some(v) && v.spec_kind() == d.0
            && v.spec_root() == d.1),
{
    proof {
        assert(levels@.skip(0) =~= levels@);
    }
    let mut i: usize = 0;
    while i < levels.len()
        invariant
            i <= levels@.len(),
            spec_detect(levels@) == spec_detect(levels@.skip(i as int)),
        decreases levels@.len() - i,
    {
        let probe = &levels[i];
        if let Some(g) = Git::new(probe.path.as_str(), probe.has_git) {
            return Some(VCS::Git(g));
        }
        if let Some(h) = Hg::new(probe.path.as_str(), probe.has_hg) {
            return Some(VCS::Hg(h));
        }
        proof {
            assert(levels@.skip(i as int).drop_first() =~= levels@.skip(i as int + 1));
        }
        i = i + 1;
    }
    None
}

/// The nearest marked ancestor decides, regardless of which marker it
/// carries: if every level nearer than `i` is unmarked and level `i`
/// carries a marker, the outcome is bound to level `i`'s path, a git
/// handle when its `.git` entry exists — never the other provider's —
/// whatever markers deeper levels may carry.
pub proof fn lemma_nearest_ancestor_wins(levels: Seq<DirProbe>, i: int)
    requires
        0 <= i < levels.len(),
        levels[i].has_git || levels[i].has_hg,
        forall|j: int| 0 <= j < i ==> !levels[j].has_git && !levels[j].has_hg,
    ensures
        spec_detect(levels) == Some(
            (
                if levels[i].has_git {
                    VcsKind::Git
                } else {
                    VcsKind::Hg
                },
                levels[i].path@,
            ),
        ),
    decreases i,
{
    if i > 0 {
        let rest = levels.drop_first();
        assert(!levels[0].has_git && !levels[0].has_hg);
        assert forall|j: int| 0 <= j < i - 1 implies !rest[j].has_git && !rest[j].has_hg by {
            assert(rest[j] == levels[j + 1]);
        }
        assert(rest[i - 1] == levels[i]);
        lemma_nearest_ancestor_wins(rest, i - 1);
    }
}

/// Fixed priority: a level carrying both `.git` and `.hg`, when it is the
/// nearest marked level, yields a git handle.
pub proof fn lemma_git_priority(levels: Seq<DirProbe>, i: int)
    requires
        0 <= i < levels.len(),
        levels[i].has_git && levels[i].has_hg,
        forall|j: int| 0 <= j < i ==> !levels[j].has_git && !levels[j].has_hg,
    ensures
        spec_detect(levels) == Some((VcsKind::Git, levels[i].path@)),
{
    lemma_nearest_ancestor_wins(levels, i);
}

/// A walk with no marked level, up to and including the last level probed,
/// yields no match.
pub proof fn lemma_no_vcs_no_match(levels: Seq<DirProbe>)
    requires
        forall|j: int| 0 <= j < levels.len() ==> !levels[j].has_git && !levels[j].has_hg,
    ensures
        spec_detect(levels) is None,
    decreases levels.len(),
{
    if levels.len() > 0 {
        let rest = levels.drop_first();
        assert forall|j: int| 0 <= j < rest.len() implies !rest[j].has_git && !rest[j].has_hg by {
            assert(rest[j] == levels[j + 1]);
        }
        lemma_no_vcs_no_match(rest);
    }
}

} // verus!
