//! Token substitution for the output format string: `%n` becomes the VCS
//! short name and `%b` the branch text, in one left-to-right pass; every
//! other character passes through unchanged. A query that bound no VCS
//! renders to empty output, and a branch lookup that failed renders as the
//! fallback placeholder.

use vstd::prelude::*;
use vstd::string::StrSliceExecFns;
use vstd::string::StringExecFns;

use crate::error::VcsError;

verus! {

/// `fmt` with every `%n` replaced by `name` and every `%b` by `branch`,
/// scanning left to right; a replacement's text is emitted as-is, never
/// rescanned.
pub open spec fn subst(fmt: Seq<char>, name: Seq<char>, branch: Seq<char>) -> Seq<char>
    decreases fmt.len(),
{
    if fmt.len() == 0 {
        Seq::empty()
    } else if fmt.len() >= 2 && fmt[0] == '%' && fmt[1] == 'n' {
        name + subst(fmt.skip(2), name, branch)
    } else if fmt.len() >= 2 && fmt[0] == '%' && fmt[1] == 'b' {
        branch + subst(fmt.skip(2), name, branch)
    } else {
        seq![fmt[0]] + subst(fmt.skip(1), name, branch)
    }
}

/// Substitutes the format tokens: `%n` with `name`, `%b` with `branch`.
pub fn render(format: &str, name: &str, branch: &str) -> (r: String)
    ensures
        r@ == subst(format@, name@, branch@),
{
    let n = format.unicode_len();
    let mut out = String::new();
    proof {
        assert(format@.skip(0) =~= format@);
        assert(Seq::<char>::empty() + subst(format@, name@, branch@) =~= subst(
            format@,
            name@,
            branch@,
        ));
    }
    let mut i: usize = 0;
    while i < n
        invariant
            i <= n,
            n == format@.len(),
            subst(format@, name@, branch@) == out@ + subst(
                format@.skip(i as int),
                name@,
                branch@,
            ),
        decreases n - i,
    {
        let ghost prev = out@;
        let ghost tail = format@.skip(i as int);
        let c = format.get_char(i);
        if c == '%' && i + 1 < n && format.get_char(i + 1) == 'n' {
            out.append(name);
            proof {
                assert(tail.skip(2) =~= format@.skip(i as int + 2));
                assert((prev + name@) + subst(format@.skip(i as int + 2), name@, branch@) =~= prev
                    + (name@ + subst(format@.skip(i as int + 2), name@, branch@)));
            }
            i = i + 2;
        } else if c == '%' && i + 1 < n && format.get_char(i + 1) == 'b' {
            out.append(branch);
            proof {
                assert(tail.skip(2) =~= format@.skip(i as int + 2));
                assert((prev + branch@) + subst(format@.skip(i as int + 2), name@, branch@) =~= prev
                    + (branch@ + subst(format@.skip(i as int + 2), name@, branch@)));
            }
            i = i + 2;
        } else {
            let piece = format.substring_char(i, i + 1);
            out.append(piece);
            proof {
                assert(piece@ =~= seq![tail[0]]);
                assert(tail.skip(1) =~= format@.skip(i as int + 1));
                assert((prev + piece@) + subst(format@.skip(i as int + 1), name@, branch@) =~= prev
                    + (piece@ + subst(format@.skip(i as int + 1), name@, branch@)));
            }
            i = i + 1;
        }
    }
    proof {
        assert(subst(format@.skip(n as int), name@, branch@) == Seq::<char>::empty());
        assert(out@ + Seq::<char>::empty() =~= out@);
    }
    out
}

/// Renders the status line: the substituted format when a VCS was bound,
/// and empty output — no substitution at all — when none was.
pub fn render_status(format: &str, status: Option<(&str, &str)>) -> (r: String)
    ensures
        status matches Some(st) ==> r@ == subst(format@, st.0@, st.1@),
        status is None ==> r@ == Seq::<char>::empty(),
{
    match status {
        Some((name, branch)) => render(format, name, branch),
        None => String::new(),
    }
}

/// The branch text to substitute: the resolved branch, or the conventional
/// fallback placeholder when resolving it failed.
pub fn branch_or_fallback(r: &Result<String, VcsError>) -> (b: &str)
    ensures
        r matches Ok(s) ==> b@ == s@,
        r is Err ==> b@ == "(unknown)"@,
{
    match r {
        Ok(s) => s.as_str(),
        Err(_) => "(unknown)",
    }
}

} // verus!
