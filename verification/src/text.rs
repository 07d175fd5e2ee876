//! Character-level utilities on string slices: equality and substring
//! search, with exact specifications over the character sequences.

use vstd::prelude::*;

verus! {

/// `pat` occurs in `s` starting at character index `i`.
pub open spec fn spec_match_at(s: Seq<char>, pat: Seq<char>, i: int) -> bool {
    0 <= i && i + pat.len() <= s.len() && s.subrange(i, i + pat.len()) == pat
}

/// `pat` occurs somewhere in `s`.
pub open spec fn spec_contains(s: Seq<char>, pat: Seq<char>) -> bool {
    exists|i: int| spec_match_at(s, pat, i)
}

/// Character-for-character equality of two string slices.
pub fn str_eq(a: &str, b: &str) -> (r: bool)
    ensures
        r == (a@ == b@),
{
    let alen = a.unicode_len();
    let blen = b.unicode_len();
    if alen != blen {
        return false;
    }
    for i in 0..alen
        invariant
            alen == a@.len(),
            alen == b@.len(),
            forall|j: int| 0 <= j < i ==> a@[j] == b@[j],
    {
        if a.get_char(i) != b.get_char(i) {
            return false;
        }
    }
    proof {
        assert(a@ =~= b@);
    }
    true
}

/// Does `pat` occur in `s` beginning at character index `i`?
fn match_at(s: &str, pat: &str, i: usize, slen: usize, plen: usize) -> (r: bool)
    requires
        slen == s@.len(),
        plen == pat@.len(),
        i + plen <= slen,
    ensures
        r == spec_match_at(s@, pat@, i as int),
{
    for k in 0..plen
        invariant
            slen == s@.len(),
            plen == pat@.len(),
            i + plen <= slen,
            forall|j: int| 0 <= j < k ==> s@[i + j] == pat@[j],
    {
        if s.get_char(i + k) != pat.get_char(k) {
            proof {
                assert(!spec_match_at(s@, pat@, i as int)) by {
                    if s@.subrange(i as int, i + plen as int) == pat@ {
                        assert(s@.subrange(i as int, i + plen as int)[k as int] == s@[i + k]);
                    }
                }
            }
            return false;
        }
    }
    proof {
        assert(s@.subrange(i as int, i + plen as int) =~= pat@);
    }
    true
}

/// `pat` occurs somewhere in `s`.
pub fn str_contains(s: &str, pat: &str) -> (r: bool)
    ensures
        r == spec_contains(s@, pat@),
{
    let slen = s.unicode_len();
    let plen = pat.unicode_len();
    if plen > slen {
        proof {
            assert(forall|i: int| !spec_match_at(s@, pat@, i));
        }
        return false;
    }
    let base = slen - plen;
    for i in 0..base
        invariant
            slen == s@.len(),
            plen == pat@.len(),
            plen <= slen,
            base == slen - plen,
            forall|j: int| 0 <= j < i ==> !spec_match_at(s@, pat@, j),
    {
        if match_at(s, pat, i, slen, plen) {
            return true;
        }
    }
    if match_at(s, pat, base, slen, plen) {
        return true;
    }
    proof {
        assert forall|j: int| !spec_match_at(s@, pat@, j) by {
            if spec_match_at(s@, pat@, j) {
                assert(0 <= j <= base);
            }
        }
    }
    false
}

} // verus!
