//! The Mercurial provider: binds a repository root whose `.hg` entry
//! exists, reads the active branch from the `.hg/branch` file's trimmed
//! content, and interprets the exit status of Mercurial's own quiet status
//! check as the working-tree modification flag.

use vstd::prelude::*;

use crate::paths::join_path;
use crate::paths::join_path_str;
use crate::text::trim;
use crate::text::trim_str;

verus! {

/// A handle on a Mercurial repository rooted at `root`.
#[derive(Debug, Clone)]
pub struct Hg {
    /// the path bound at construction, a directory whose `.hg` entry exists
    pub root: String,
}

impl Hg {
    /// Binds a Mercurial handle to `path`. Construction succeeds iff the
    /// caller found a `.hg` entry there, and never fails otherwise: a
    /// missing marker only means this provider abstains.
    pub fn new(path: &str, has_hg_entry: bool) -> (r: Option<Hg>)
        ensures
            has_hg_entry ==> (r matches Some(h) && h.root@ == path@),
            !has_hg_entry ==> r is None,
    {
        if has_hg_entry {
            Some(Hg { root: path.to_owned() })
        } else {
            None
        }
    }

    /// The constant short identifier for Mercurial.
    pub fn name(&self) -> (r: &'static str)
        ensures
            r@ == "hg"@,
    {
        "hg"
    }

    /// Where the branch-name file of this repository stands.
    pub fn branch_file_path(&self) -> (r: String)
        ensures
            r@ == join_path(join_path(self.root@, ".hg"@), "branch"@),
    {
        let dir = join_path_str(self.root.as_str(), ".hg");
        join_path_str(dir.as_str(), "branch")
    }

    /// The active branch named by the `.hg/branch` file's content: the
    /// content with surrounding whitespace removed. Any content yields a
    /// branch; only failing to read the file at all is an error, and that
    /// stays with the caller that performed the read.
    pub fn branch_of_content(content: &str) -> (r: String)
        ensures
            r@ == trim(content@),
    {
        trim_str(content)
    }

    /// Whether uncommitted changes exist, per Mercurial's exit-code
    /// convention for `hg status --quiet --modified --added --removed`:
    /// modifications are present iff that subprocess exited non-zero.
    pub fn modified_from_status(status_success: bool) -> (r: bool)
        ensures
            r == !status_success,
    {
        !status_success
    }
}

} // verus!
