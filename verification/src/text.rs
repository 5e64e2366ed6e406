//! Character-level text helpers: string equality, collecting the
//! characters of a string slice, and case-insensitive substring search
//! (ASCII folding), used by the disconnection classifier.

use vstd::prelude::*;

verus! {

/// ASCII lower-casing of a Unicode code point: the upper-case letters
/// fold to their lower-case forms, everything else is unchanged.
pub open spec fn spec_lower_cp(c: u32) -> u32 {
    if 65 <= c && c <= 90 {
        (c + 32) as u32
    } else {
        c
    }
}

/// Executable ASCII lower-casing of a code point.
pub fn lower_cp(c: u32) -> (r: u32)
    ensures
        r == spec_lower_cp(c),
{
    if 65 <= c && c <= 90 {
        c + 32
    } else {
        c
    }
}

/// The two strings have the same characters.
pub fn str_eq(a: &str, b: &str) -> (r: bool)
    ensures
        r == (a@ == b@),
{
    let n = a.unicode_len();
    let m = b.unicode_len();
    if n != m {
        return false;
    }
    let mut i: usize = 0;
    while i < n
        invariant
            n == a@.len(),
            n == b@.len(),
            i <= n,
            forall|k: int| 0 <= k < i ==> a@[k] == b@[k],
        decreases n - i,
    {
        if a.get_char(i) != b.get_char(i) {
            return false;
        }
        i += 1;
    }
    proof {
        assert(a@ =~= b@);
    }
    true
}

/// The characters of a string slice, as a vector.
pub fn chars_of(s: &str) -> (r: Vec<char>)
    ensures
        r@ == s@,
{
    let n = s.unicode_len();
    let mut r: Vec<char> = Vec::new();
    let mut i: usize = 0;
    while i < n
        invariant
            n == s@.len(),
            i <= n,
            r@ =~= s@.subrange(0, i as int),
        decreases n - i,
    {
        r.push(s.get_char(i));
        i += 1;
    }
    proof {
        assert(r@ =~= s@);
    }
    r
}

/// The pattern occurs in the haystack at offset `i`, comparing code
/// points after ASCII lower-casing.
pub open spec fn ci_match_at(hay: Seq<char>, pat: Seq<char>, i: int) -> bool {
    forall|j: int|
        0 <= j < pat.len() ==> spec_lower_cp(#[trigger] pat[j] as u32) == spec_lower_cp(
            hay[i + j] as u32,
        )
}

/// The pattern occurs somewhere in the haystack, case-insensitively.
pub open spec fn contains_ci(hay: Seq<char>, pat: Seq<char>) -> bool {
    exists|i: int| 0 <= i && i + pat.len() <= hay.len() && #[trigger] ci_match_at(hay, pat, i)
}

/// Checks a case-insensitive match of the whole pattern at offset `i`.
fn ci_match_at_exec(hay: &Vec<char>, pat: &Vec<char>, i: usize) -> (r: bool)
    requires
        i + pat@.len() <= hay@.len(),
    ensures
        r == ci_match_at(hay@, pat@, i as int),
{
    let n = hay.len();
    let m = pat.len();
    let mut j: usize = 0;
    while j < m
        invariant
            n == hay@.len(),
            m == pat@.len(),
            i + m <= n,
            j <= m,
            forall|k: int|
                0 <= k < j ==> spec_lower_cp(#[trigger] pat@[k] as u32) == spec_lower_cp(
                    hay@[i + k] as u32,
                ),
        decreases m - j,
    {
        let hc = hay[i + j];
        let pc = pat[j];
        if lower_cp(pc as u32) != lower_cp(hc as u32) {
            return false;
        }
        j += 1;
    }
    true
}

/// Case-insensitive substring search: whether `pat` occurs in `hay`.
pub fn contains_ci_exec(hay: &Vec<char>, pat: &Vec<char>) -> (r: bool)
    ensures
        r == contains_ci(hay@, pat@),
{
    let n = hay.len();
    let m = pat.len();
    if m > n {
        return false;
    }
    let end = n - m;
    let mut i: usize = 0;
    while i <= end
        invariant
            n == hay@.len(),
            m == pat@.len(),
            m <= n,
            end == n - m,
            i <= end + 1,
            forall|k: int| 0 <= k < i ==> !#[trigger] ci_match_at(hay@, pat@, k),
        decreases end + 1 - i,
    {
        if ci_match_at_exec(hay, pat, i) {
            proof {
                assert(0 <= i as int && i as int + pat@.len() <= hay@.len() && ci_match_at(
                    hay@,
                    pat@,
                    i as int,
                ));
            }
            return true;
        }
        i += 1;
    }
    false
}

} // verus!
