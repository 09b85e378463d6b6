//! Unix-style path joining over plain strings, mirroring how a path
//! fragment is pushed onto a base directory: an absolute fragment replaces
//! the base, otherwise a single separator is inserted unless the base
//! already ends with one.

use vstd::prelude::*;
use vstd::string::StrSliceExecFns;
use vstd::string::StringExecFns;

verus! {

/// The base directory `root` extended with `frag`.
pub open spec fn join_path(root: Seq<char>, frag: Seq<char>) -> Seq<char> {
    if frag.len() > 0 && frag[0] == '/' {
        frag
    } else if root.len() == 0 {
        frag
    } else if root[root.len() - 1] == '/' {
        root + frag
    } else {
        root + seq!['/'] + frag
    }
}

pub fn join_path_str(root: &str, frag: &str) -> (r: String)
    ensures
        r@ == join_path(root@, frag@),
{
    let fl = frag.unicode_len();
    let rl = root.unicode_len();
    if fl > 0 && frag.get_char(0) == '/' {
        return frag.to_owned();
    }
    if rl == 0 {
        return frag.to_owned();
    }
    let mut out = root.to_owned();
    if root.get_char(rl - 1) != '/' {
        out.append("/");
        proof {
            reveal_strlit("/");
            assert(("/")@ =~= seq!['/']);
        }
    }
    out.append(frag);
    proof {
        assert(out@ =~= join_path(root@, frag@));
    }
    out
}

} // verus!
