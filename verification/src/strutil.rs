//! Small verified helpers over strings.

use vstd::prelude::*;

verus! {

/// Compares two strings character by character.
pub fn str_eq(a: &str, b: &str) -> (r: bool)
    ensures
        r == (a@ == b@),
{
    let na = a.unicode_len();
    let nb = b.unicode_len();
    if na != nb {
        return false;
    }
    let mut i: usize = 0;
    while i < na
        invariant
            0 <= i <= na == a@.len(),
            na == nb == b@.len(),
            forall|k: int| 0 <= k < i ==> a@[k] == b@[k],
        decreases na - i,
    {
        if a.get_char(i) != b.get_char(i) {
            return false;
        }
        i = i + 1;
    }
    proof {
        assert(a@ =~= b@);
    }
    true
}

/// Checks whether the characters of `p` occur in `s` starting at `i`.
pub fn has_prefix_at(s: &str, i: usize, p: &str) -> (r: bool)
    requires
        i <= s@.len(),
    ensures
        r == (i + p@.len() <= s@.len() && s@.subrange(i as int, i + p@.len()) == p@),
{
    let np = p.unicode_len();
    let ns = s.unicode_len();
    if np > ns - i {
        return false;
    }
    let mut k: usize = 0;
    while k < np
        invariant
            0 <= k <= np == p@.len(),
            i + np <= ns == s@.len(),
            forall|j: int| 0 <= j < k ==> s@[i + j] == p@[j],
        decreases np - k,
    {
        if s.get_char(i + k) != p.get_char(k) {
            proof {
                assert(s@.subrange(i as int, i + p@.len())[k as int] == s@[i + k]);
            }
            return false;
        }
        k = k + 1;
    }
    proof {
        assert(s@.subrange(i as int, i + p@.len()) =~= p@);
    }
    true
}

/// Whether `t` is a suffix of `s`.
pub open spec fn is_suffix_of(t: Seq<char>, s: Seq<char>) -> bool {
    t.len() <= s.len() && s.skip(s.len() - t.len()) == t
}

/// Checks whether `s` ends with the characters of `t`.
pub fn ends_with(s: &str, t: &str) -> (r: bool)
    ensures
        r == is_suffix_of(t@, s@),
{
    let ns = s.unicode_len();
    let nt = t.unicode_len();
    if nt > ns {
        return false;
    }
    let start = ns - nt;
    let mut i: usize = 0;
    while i < nt
        invariant
            0 <= i <= nt == t@.len(),
            nt <= ns == s@.len(),
            start == ns - nt,
            forall|k: int| 0 <= k < i ==> s@[start + k] == t@[k],
        decreases nt - i,
    {
        if s.get_char(start + i) != t.get_char(i) {
            proof {
                assert(s@.skip(s@.len() - t@.len())[i as int] == s@[start + i]);
            }
            return false;
        }
        i = i + 1;
    }
    proof {
        assert(s@.skip(s@.len() - t@.len()) =~= t@);
    }
    true
}

/// Checks whether the characters `s[i..e]` end with the characters of `p`.
pub fn span_ends_with(s: &str, i: usize, e: usize, p: &str) -> (r: bool)
    requires
        i <= e <= s@.len(),
    ensures
        r == is_suffix_of(p@, s@.subrange(i as int, e as int)),
{
    let np = p.unicode_len();
    if np > e - i {
        return false;
    }
    let start = e - np;
    let ghost t = s@.subrange(i as int, e as int);
    let mut k: usize = 0;
    while k < np
        invariant
            0 <= k <= np == p@.len(),
            i <= start <= e <= s@.len(),
            start + np == e,
            t == s@.subrange(i as int, e as int),
            forall|j: int| 0 <= j < k ==> s@[start + j] == p@[j],
        decreases np - k,
    {
        if s.get_char(start + k) != p.get_char(k) {
            proof {
                assert(t.skip(t.len() - p@.len())[k as int] == t[t.len() - p@.len() + k]);
                assert(t[t.len() - p@.len() + k] == s@[start + k]);
            }
            return false;
        }
        k = k + 1;
    }
    proof {
        assert forall|j: int| 0 <= j < p@.len() implies t.skip(t.len() - p@.len())[j] == p@[j] by {
            assert(t.skip(t.len() - p@.len())[j] == t[t.len() - p@.len() + j]);
            assert(t[t.len() - p@.len() + j] == s@[start + j]);
        }
        assert(t.skip(t.len() - p@.len()) =~= p@);
    }
    true
}

} // verus!
