//! Small executable string utilities with exact character-level contracts.

use vstd::prelude::*;
use vstd::string::StrSliceExecFns;

verus! {

/// True when `p` occurs in `s` starting at offset `off`.
pub open spec fn is_prefix_at(p: Seq<char>, s: Seq<char>, off: int) -> bool {
    0 <= off && off + p.len() <= s.len() && forall|j: int| 0 <= j < p.len() ==> s[off + j] == p[j]
}

/// True when `p` is a prefix of `s`.
pub open spec fn is_prefix_of(p: Seq<char>, s: Seq<char>) -> bool {
    is_prefix_at(p, s, 0)
}

/// Character-by-character equality of two string slices.
pub fn str_eq(a: &str, b: &str) -> (r: bool)
    ensures
        r == (a@ == b@),
{
    let alen = a.unicode_len();
    let blen = b.unicode_len();
    if alen != blen {
        return false;
    }
    let mut i: usize = 0;
    while i < alen
        invariant
            alen == a@.len(),
            blen == b@.len(),
            alen == blen,
            0 <= i <= alen,
            forall|j: int| 0 <= j < i ==> a@[j] == b@[j],
        decreases alen - i,
    {
        if a.get_char(i) != b.get_char(i) {
            return false;
        }
        i += 1;
    }
    proof {
        assert(a@ =~= b@);
    }
    true
}

/// True when `p` occurs in `s` starting at character offset `off`.
pub fn str_has_prefix_at(s: &str, p: &str, off: usize) -> (r: bool)
    ensures
        r == is_prefix_at(p@, s@, off as int),
{
    let slen = s.unicode_len();
    let plen = p.unicode_len();
    if plen > slen || off > slen - plen {
        return false;
    }
    let mut j: usize = 0;
    while j < plen
        invariant
            slen == s@.len(),
            plen == p@.len(),
            off + plen <= slen,
            0 <= j <= plen,
            forall|k: int| 0 <= k < j ==> s@[off + k] == p@[k],
        decreases plen - j,
    {
        if s.get_char(off + j) != p.get_char(j) {
            return false;
        }
        j += 1;
    }
    true
}

/// True when `p` is a prefix of `s`.
pub fn str_has_prefix(s: &str, p: &str) -> (r: bool)
    ensures
        r == is_prefix_of(p@, s@),
{
    str_has_prefix_at(s, p, 0)
}

} // verus!
