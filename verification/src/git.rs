//! The git provider: binds a repository root whose `.git` entry exists,
//! resolves the real metadata directory through the submodule pointer
//! indirection, and parses the `HEAD` reference file.
//!
//! `HEAD` is matched against the pattern `ref:` + whitespace +
//! `refs/heads/` + rest-of-line, searched from the leftmost position where
//! it fits; the captured rest of the line, trimmed, is the active branch.
//! A `.git` pointer file is matched the same way against `gitdir:` +
//! whitespace + rest-of-line, yielding a path fragment to resolve against
//! the repository root.

use vstd::prelude::*;
use vstd::string::StrSliceExecFns;

use crate::error::VcsError;
use crate::paths::join_path;
use crate::paths::join_path_str;
use crate::text::is_space;
use crate::text::lemma_line_end_at;
use crate::text::lemma_trim_clean;
use crate::text::line_end;
use crate::text::line_end_str;
use crate::text::skip_ws;
use crate::text::skip_ws_str;
use crate::text::starts_with_at;
use crate::text::starts_with_str;
use crate::text::trim;
use crate::text::trim_str;

verus! {

pub open spec fn ref_pat() -> Seq<char> {
    "ref:"@
}

pub open spec fn heads_pat() -> Seq<char> {
    "refs/heads/"@
}

pub open spec fn gitdir_pat() -> Seq<char> {
    "gitdir:"@
}

/// The `HEAD` pattern matches at position `i`: the literal `ref:`, then a
/// maximal whitespace run, then the literal `refs/heads/`.
pub open spec fn head_match_at(s: Seq<char>, i: int) -> bool {
    &&& starts_with_at(s, i, ref_pat())
    &&& starts_with_at(s, skip_ws(s, i + ref_pat().len()), heads_pat())
}

/// The leftmost position at or after `i` where the `HEAD` pattern matches.
pub open spec fn find_head_match_from(s: Seq<char>, i: int) -> Option<int>
    recommends
        0 <= i <= s.len(),
    decreases s.len() - i,
{
    if i >= s.len() {
        None
    } else if head_match_at(s, i) {
        Some(i)
    } else {
        find_head_match_from(s, i + 1)
    }
}

pub proof fn lemma_find_head_match_from(s: Seq<char>, i: int)
    requires
        0 <= i <= s.len(),
    ensures
        find_head_match_from(s, i) matches Some(j) ==> i <= j < s.len() && head_match_at(s, j),
    decreases s.len() - i,
{
    if i < s.len() && !head_match_at(s, i) {
        lemma_find_head_match_from(s, i + 1);
    }
}

/// The branch named by `HEAD` content `s`, if the `HEAD` pattern matches
/// anywhere: the rest of the line after `refs/heads/`, trimmed.
pub open spec fn git_branch_of(s: Seq<char>) -> Option<Seq<char>> {
    match find_head_match_from(s, 0) {
        Some(i) => {
            let c0 = skip_ws(s, i + ref_pat().len()) + heads_pat().len();
            Some(trim(s.subrange(c0, line_end(s, c0))))
        },
        None => None,
    }
}

/// The `gitdir:` pattern matches at position `i`.
pub open spec fn gitdir_match_at(s: Seq<char>, i: int) -> bool {
    starts_with_at(s, i, gitdir_pat())
}

pub open spec fn find_gitdir_from(s: Seq<char>, i: int) -> Option<int>
    recommends
        0 <= i <= s.len(),
    decreases s.len() - i,
{
    if i >= s.len() {
        None
    } else if gitdir_match_at(s, i) {
        Some(i)
    } else {
        find_gitdir_from(s, i + 1)
    }
}

pub proof fn lemma_find_gitdir_from(s: Seq<char>, i: int)
    requires
        0 <= i <= s.len(),
    ensures
        find_gitdir_from(s, i) matches Some(j) ==> i <= j < s.len() && gitdir_match_at(s, j),
    decreases s.len() - i,
{
    if i < s.len() && !gitdir_match_at(s, i) {
        lemma_find_gitdir_from(s, i + 1);
    }
}

/// The path fragment named by a submodule pointer file `s`, if the
/// `gitdir:` pattern matches anywhere: the rest of the line after the
/// whitespace run that follows `gitdir:`, trimmed.
pub open spec fn gitdir_of(s: Seq<char>) -> Option<Seq<char>> {
    match find_gitdir_from(s, 0) {
        Some(i) => {
            let c0 = skip_ws(s, i + gitdir_pat().len());
            Some(trim(s.subrange(c0, line_end(s, c0))))
        },
        None => None,
    }
}

pub open spec fn is_hex_digit(c: char) -> bool {
    ('0' <= c && c <= '9') || ('a' <= c && c <= 'f') || ('A' <= c && c <= 'F')
}

proof fn lemma_no_head_match(s: Seq<char>, j: int)
    requires
        0 <= j <= s.len(),
        forall|i: int| 0 <= i < s.len() ==> !head_match_at(s, i),
    ensures
        find_head_match_from(s, j) is None,
    decreases s.len() - j,
{
    if j < s.len() {
        lemma_no_head_match(s, j + 1);
    }
}

/// Detached-head content — or any other text of hexadecimal digits only,
/// such as a bare commit hash — parses as an error, never as a branch: the
/// `HEAD` pattern needs a `:`, which no hexadecimal digit is.
pub proof fn lemma_detached_head_fails(s: Seq<char>)
    requires
        forall|k: int| 0 <= k < s.len() ==> is_hex_digit(s[k]),
    ensures
        git_branch_of(s) is None,
{
    reveal_strlit("ref:");
    assert forall|i: int| 0 <= i < s.len() implies !head_match_at(s, i) by {
        if starts_with_at(s, i, ref_pat()) {
            assert(s[i + 3] == ref_pat()[3]);
            assert(is_hex_digit(s[i + 3]));
            assert(false);
        }
    }
    lemma_no_head_match(s, 0);
}

/// Round trip for symbolic references: `HEAD` content written as
/// `ref: refs/heads/` + `name` + a newline resolves to exactly `name`,
/// with no prefix and no surrounding whitespace, for every nonempty branch
/// name free of newlines and of whitespace at its ends.
pub proof fn lemma_head_round_trip(name: Seq<char>)
    requires
        name.len() > 0,
        forall|k: int| 0 <= k < name.len() ==> name[k] != '\n',
        !is_space(name[0]),
        !is_space(name[name.len() - 1]),
    ensures
        git_branch_of("ref: refs/heads/"@ + name + "\n"@) == Some(name),
{
    reveal_strlit("ref: refs/heads/");
    reveal_strlit("ref:");
    reveal_strlit("refs/heads/");
    reveal_strlit("\n");
    let s = "ref: refs/heads/"@ + name + "\n"@;
    assert(s.len() == 17 + name.len());
    assert forall|k: int| 0 <= k < name.len() implies s[16 + k] == name[k] by {}
    assert(s[16 + name.len() as int] == '\n');
    assert(starts_with_at(s, 0, ref_pat()));
    assert(skip_ws(s, 5) == 5);
    assert(skip_ws(s, 4) == 5);
    assert(starts_with_at(s, 5, heads_pat()));
    assert(head_match_at(s, 0));
    assert(find_head_match_from(s, 0) == Some(0int));
    lemma_line_end_at(s, 16, 16 + name.len() as int);
    assert(s.subrange(16, 16 + name.len() as int) =~= name);
    lemma_trim_clean(name);
}

/// Round trip for submodule pointer files: content written as `gitdir: ` +
/// `frag` + a newline names exactly the path fragment `frag`, for every
/// nonempty fragment free of newlines and of whitespace at its ends — so
/// `HEAD` is then read under `frag` resolved against the root, not under
/// the root's own `.git`.
pub proof fn lemma_gitdir_round_trip(frag: Seq<char>)
    requires
        frag.len() > 0,
        forall|k: int| 0 <= k < frag.len() ==> frag[k] != '\n',
        !is_space(frag[0]),
        !is_space(frag[frag.len() - 1]),
    ensures
        gitdir_of("gitdir: "@ + frag + "\n"@) == Some(frag),
{
    reveal_strlit("gitdir: ");
    reveal_strlit("gitdir:");
    reveal_strlit("\n");
    let s = "gitdir: "@ + frag + "\n"@;
    assert(s.len() == 9 + frag.len());
    assert forall|k: int| 0 <= k < frag.len() implies s[8 + k] == frag[k] by {}
    assert(s[8 + frag.len() as int] == '\n');
    assert(starts_with_at(s, 0, gitdir_pat()));
    assert(gitdir_match_at(s, 0));
    assert(find_gitdir_from(s, 0) == Some(0int));
    assert(skip_ws(s, 8) == 8);
    assert(skip_ws(s, 7) == 8);
    lemma_line_end_at(s, 8, 8 + frag.len() as int);
    assert(s.subrange(8, 8 + frag.len() as int) =~= frag);
    lemma_trim_clean(frag);
}

fn head_match_str(s: &str, n: usize, i: usize) -> (r: bool)
    requires
        n == s@.len(),
        i <= n,
    ensures
        r == head_match_at(s@, i as int),
{
    if !starts_with_str(s, n, i, "ref:") {
        return false;
    }
    proof {
        reveal_strlit("ref:");
    }
    let p = skip_ws_str(s, n, i + 4);
    starts_with_str(s, n, p, "refs/heads/")
}

fn find_head_match(s: &str, n: usize) -> (r: Option<usize>)
    requires
        n == s@.len(),
    ensures
        r matches Some(u) ==> find_head_match_from(s@, 0) == Some(u as int),
        r is None ==> find_head_match_from(s@, 0) is None,
{
    let mut i: usize = 0;
    while i < n
        invariant
            0 <= i <= n,
            n == s@.len(),
            find_head_match_from(s@, 0) == find_head_match_from(s@, i as int),
        decreases n - i,
    {
        if head_match_str(s, n, i) {
            return Some(i);
        }
        i = i + 1;
    }
    None
}

fn gitdir_match_str(s: &str, n: usize, i: usize) -> (r: bool)
    requires
        n == s@.len(),
        i <= n,
    ensures
        r == gitdir_match_at(s@, i as int),
{
    starts_with_str(s, n, i, "gitdir:")
}

fn find_gitdir(s: &str, n: usize) -> (r: Option<usize>)
    requires
        n == s@.len(),
    ensures
        r matches Some(u) ==> find_gitdir_from(s@, 0) == Some(u as int),
        r is None ==> find_gitdir_from(s@, 0) is None,
{
    let mut i: usize = 0;
    while i < n
        invariant
            0 <= i <= n,
            n == s@.len(),
            find_gitdir_from(s@, 0) == find_gitdir_from(s@, i as int),
        decreases n - i,
    {
        if gitdir_match_str(s, n, i) {
            return Some(i);
        }
        i = i + 1;
    }
    None
}

/// A handle on a git repository rooted at `root`.
#[derive(Debug, Clone)]
pub struct Git {
    /// the path bound at construction, a directory whose `.git` entry exists
    pub root: String,
}

impl Git {
    /// Binds a git handle to `path`. Construction succeeds iff the caller
    /// found a `.git` entry (file or directory) there, and never fails
    /// otherwise: a missing marker only means this provider abstains.
    pub fn new(path: &str, has_git_entry: bool) -> (r: Option<Git>)
        ensures
            has_git_entry ==> (r matches Some(g) && g.root@ == path@),
            !has_git_entry ==> r is None,
    {
        if has_git_entry {
            Some(Git { root: path.to_owned() })
        } else {
            None
        }
    }

    /// The constant short identifier for git.
    pub fn name(&self) -> (r: &'static str)
        ensures
            r@ == "git"@,
    {
        "git"
    }

    /// Where the `.git` entry of this repository stands.
    pub fn dot_git_path(&self) -> (r: String)
        ensures
            r@ == join_path(self.root@, ".git"@),
    {
        join_path_str(self.root.as_str(), ".git")
    }

    /// Extracts the metadata path fragment from a `.git` submodule pointer
    /// file. Fails with the trimmed offending content when the `gitdir:`
    /// pattern matches nowhere in it.
    pub fn parse_gitdir(content: &str) -> (r: Result<String, VcsError>)
        ensures
            gitdir_of(content@) matches Some(f) ==> (r matches Ok(s) && s@ == f),
            gitdir_of(content@) is None ==> (r matches Err(VcsError::Parse(m)) && m@ == trim(
                content@,
            )),
    {
        let n = content.unicode_len();
        match find_gitdir(content, n) {
            None => Err(VcsError::Parse(trim_str(content))),
            Some(i) => {
                proof {
                    lemma_find_gitdir_from(content@, 0);
                    reveal_strlit("gitdir:");
                }
                let c0 = skip_ws_str(content, n, i + 7);
                let e = line_end_str(content, n, c0);
                Ok(trim_str(content.substring_char(c0, e)))
            },
        }
    }

    /// The path of the `HEAD` file to read: under `<root>/.git` when that
    /// entry is a directory (`pointer` is `None`), or under the directory a
    /// submodule pointer file names, resolved against `root`.
    pub fn head_path(&self, pointer: Option<&str>) -> (r: Result<String, VcsError>)
        ensures
            pointer is None ==> (r matches Ok(p) && p@ == join_path(
                join_path(self.root@, ".git"@),
                "HEAD"@,
            )),
            pointer matches Some(c) ==> match gitdir_of(c@) {
                Some(frag) => (r matches Ok(p) && p@ == join_path(
                    join_path(self.root@, frag),
                    "HEAD"@,
                )),
                None => (r matches Err(VcsError::Parse(m)) && m@ == trim(c@)),
            },
    {
        match pointer {
            None => {
                let dir = join_path_str(self.root.as_str(), ".git");
                Ok(join_path_str(dir.as_str(), "HEAD"))
            },
            Some(c) => {
                match Self::parse_gitdir(c) {
                    Ok(frag) => {
                        let dir = join_path_str(self.root.as_str(), frag.as_str());
                        Ok(join_path_str(dir.as_str(), "HEAD"))
                    },
                    Err(e) => Err(e),
                }
            },
        }
    }

    /// The active branch named by the given `HEAD` content: the rest of the
    /// line after `ref:` + whitespace + `refs/heads/`, trimmed. Content the
    /// pattern matches nowhere in — a detached-head commit hash, or anything
    /// unexpected — fails with the trimmed offending content.
    pub fn branch_of_head(head: &str) -> (r: Result<String, VcsError>)
        ensures
            git_branch_of(head@) matches Some(b) ==> (r matches Ok(s) && s@ == b),
            git_branch_of(head@) is None ==> (r matches Err(VcsError::Parse(m)) && m@ == trim(
                head@,
            )),
    {
        let n = head.unicode_len();
        match find_head_match(head, n) {
            None => Err(VcsError::Parse(trim_str(head))),
            Some(i) => {
                proof {
                    lemma_find_head_match_from(head@, 0);
                    reveal_strlit("ref:");
                    reveal_strlit("refs/heads/");
                }
                let p = skip_ws_str(head, n, i + 4);
                let c0 = p + 11;
                let e = line_end_str(head, n, c0);
                Ok(trim_str(head.substring_char(c0, e)))
            },
        }
    }
}

} // verus!
