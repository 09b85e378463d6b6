//! Character-level text helpers shared by the parsers: whitespace
//! classification, whitespace runs, line boundaries, prefix matching and
//! trimming, each with a spec-level definition and a verified executable
//! counterpart.

use vstd::prelude::*;
use vstd::string::StrSliceExecFns;

verus! {

/// The whitespace class used throughout: the ASCII characters that the
/// repository metadata files can realistically carry around their payloads.
pub open spec fn is_space(c: char) -> bool {
    c == ' ' || c == '\t' || c == '\n' || c == '\r' || c == '\u{b}' || c == '\u{c}'
}

pub fn is_space_char(c: char) -> (r: bool)
    ensures
        r == is_space(c),
{
    c == ' ' || c == '\t' || c == '\n' || c == '\r' || c == '\u{b}' || c == '\u{c}'
}

/// Index of the first non-whitespace character at or after `i`.
pub open spec fn skip_ws(s: Seq<char>, i: int) -> int
    recommends
        0 <= i <= s.len(),
    decreases s.len() - i,
{
    if i < s.len() && is_space(s[i]) {
        skip_ws(s, i + 1)
    } else {
        i
    }
}

/// Index of the first `'\n'` at or after `i`, or the length of `s` if the
/// rest of the text holds none.
pub open spec fn line_end(s: Seq<char>, i: int) -> int
    recommends
        0 <= i <= s.len(),
    decreases s.len() - i,
{
    if i < s.len() && s[i] != '\n' {
        line_end(s, i + 1)
    } else {
        i
    }
}

/// The first newline after `i` bounds the line: if every character in
/// `[i, j)` differs from `'\n'` and `s[j]` is `'\n'`, the line ends at `j`.
pub proof fn lemma_line_end_at(s: Seq<char>, i: int, j: int)
    requires
        0 <= i <= j < s.len(),
        forall|k: int| i <= k < j ==> s[k] != '\n',
        s[j] == '\n',
    ensures
        line_end(s, i) == j,
    decreases j - i,
{
    if i < j {
        lemma_line_end_at(s, i + 1, j);
    }
}

/// End of the trailing whitespace run: the least `h` with `lo <= h <= hi`
/// such that every character in `[h, hi)` is whitespace and `s[h - 1]`,
/// if inside `[lo, hi)`, is not.
pub open spec fn rskip_ws(s: Seq<char>, lo: int, hi: int) -> int
    recommends
        0 <= lo <= hi <= s.len(),
    decreases hi - lo,
{
    if hi > lo && is_space(s[hi - 1]) {
        rskip_ws(s, lo, hi - 1)
    } else {
        hi
    }
}

/// `s` without leading and trailing whitespace.
pub open spec fn trim(s: Seq<char>) -> Seq<char> {
    let lo = skip_ws(s, 0);
    let hi = rskip_ws(s, lo, s.len() as int);
    s.subrange(lo, hi)
}

/// A text with no whitespace at either end trims to itself.
pub proof fn lemma_trim_clean(s: Seq<char>)
    requires
        s.len() > 0 ==> !is_space(s[0]),
        s.len() > 0 ==> !is_space(s[s.len() - 1]),
    ensures
        trim(s) == s,
{
    assert(skip_ws(s, 0) == 0);
    assert(rskip_ws(s, 0, s.len() as int) == s.len() as int);
    assert(s.subrange(0, s.len() as int) =~= s);
}

/// `pat` occurs in `s` starting at position `i`.
pub open spec fn starts_with_at(s: Seq<char>, i: int, pat: Seq<char>) -> bool {
    &&& 0 <= i
    &&& i + pat.len() <= s.len()
    &&& forall|k: int| 0 <= k < pat.len() ==> s[i + k] == pat[k]
}

/// Advances over the whitespace run beginning at `i`.
pub fn skip_ws_str(s: &str, n: usize, i: usize) -> (r: usize)
    requires
        n == s@.len(),
        i <= n,
    ensures
        r == skip_ws(s@, i as int),
        i <= r <= n,
{
    let mut j: usize = i;
    while j < n && is_space_char(s.get_char(j))
        invariant
            i <= j <= n,
            n == s@.len(),
            skip_ws(s@, i as int) == skip_ws(s@, j as int),
        decreases n - j,
    {
        j = j + 1;
    }
    j
}

/// Finds the end of the line beginning at `i`.
pub fn line_end_str(s: &str, n: usize, i: usize) -> (r: usize)
    requires
        n == s@.len(),
        i <= n,
    ensures
        r == line_end(s@, i as int),
        i <= r <= n,
{
    let mut j: usize = i;
    while j < n && s.get_char(j) != '\n'
        invariant
            i <= j <= n,
            n == s@.len(),
            line_end(s@, i as int) == line_end(s@, j as int),
        decreases n - j,
    {
        j = j + 1;
    }
    j
}

/// Whether `pat` occurs in `s` at position `i`.
pub fn starts_with_str(s: &str, n: usize, i: usize, pat: &str) -> (r: bool)
    requires
        n == s@.len(),
        i <= n,
    ensures
        r == starts_with_at(s@, i as int, pat@),
{
    let m = pat.unicode_len();
    if m > n - i {
        return false;
    }
    let mut k: usize = 0;
    while k < m
        invariant
            0 <= k <= m,
            n == s@.len(),
            m == pat@.len(),
            i + m <= n,
            forall|j: int| 0 <= j < k ==> s@[i + j] == pat@[j],
        decreases m - k,
    {
        if s.get_char(i + k) != pat.get_char(k) {
            return false;
        }
        k = k + 1;
    }
    true
}

/// Copies `s` without its leading and trailing whitespace.
pub fn trim_str(s: &str) -> (r: String)
    ensures
        r@ == trim(s@),
{
    let n = s.unicode_len();
    let lo = skip_ws_str(s, n, 0);
    let mut hi: usize = n;
    while hi > lo && is_space_char(s.get_char(hi - 1))
        invariant
            lo <= hi <= n,
            n == s@.len(),
            rskip_ws(s@, lo as int, n as int) == rskip_ws(s@, lo as int, hi as int),
        decreases hi,
    {
        hi = hi - 1;
    }
    s.substring_char(lo, hi).to_owned()
}

} // verus!
