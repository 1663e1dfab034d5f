//! Substring search and first-occurrence replacement over strings,
//! the primitive under the template renderer.

use vstd::prelude::*;
use vstd::string::StrSliceExecFns;
use vstd::string::StringExecFns;

verus! {

/// `pat` occurs in `t` starting at index `i`.
pub open spec fn matches_at(t: Seq<char>, pat: Seq<char>, i: int) -> bool {
    &&& 0 <= i
    &&& i + pat.len() <= t.len()
    &&& t.subrange(i, i + pat.len() as int) == pat
}

/// `pat` occurs somewhere in `t`.
pub open spec fn has_match(t: Seq<char>, pat: Seq<char>) -> bool {
    exists|i: int| matches_at(t, pat, i)
}

/// `i` is the first index at which `pat` occurs in `t`.
pub open spec fn is_first_match(t: Seq<char>, pat: Seq<char>, i: int) -> bool {
    &&& matches_at(t, pat, i)
    &&& forall|j: int| 0 <= j < i ==> !matches_at(t, pat, j)
}

/// The first index at which `pat` occurs in `t`; meaningful only when
/// `has_match(t, pat)` holds.
pub open spec fn first_match(t: Seq<char>, pat: Seq<char>) -> int {
    choose|i: int| is_first_match(t, pat, i)
}

/// `t` with the first occurrence of `pat` replaced by `rep`; `t` itself
/// when `pat` does not occur in it.
pub open spec fn spec_replace_first(t: Seq<char>, pat: Seq<char>, rep: Seq<char>) -> Seq<char> {
    if has_match(t, pat) {
        let i = first_match(t, pat);
        t.subrange(0, i) + rep + t.subrange(i + pat.len() as int, t.len() as int)
    } else {
        t
    }
}

proof fn lemma_first_match_exists_from(t: Seq<char>, pat: Seq<char>, k: int)
    requires
        matches_at(t, pat, k),
    ensures
        exists|i: int| is_first_match(t, pat, i),
    decreases k,
{
    if forall|j: int| 0 <= j < k ==> !matches_at(t, pat, j) {
        assert(is_first_match(t, pat, k));
    } else {
        let j = choose|j: int| 0 <= j < k && matches_at(t, pat, j);
        lemma_first_match_exists_from(t, pat, j);
    }
}

/// When `pat` occurs in `t`, `first_match` names a first occurrence.
pub proof fn lemma_first_match(t: Seq<char>, pat: Seq<char>)
    requires
        has_match(t, pat),
    ensures
        is_first_match(t, pat, first_match(t, pat)),
{
    let k = choose|i: int| matches_at(t, pat, i);
    lemma_first_match_exists_from(t, pat, k);
}

/// At most one index is a first occurrence.
pub proof fn lemma_first_match_unique(t: Seq<char>, pat: Seq<char>, i1: int, i2: int)
    requires
        is_first_match(t, pat, i1),
        is_first_match(t, pat, i2),
    ensures
        i1 == i2,
{
}

/// Whether `a` and `b` hold the same characters.
pub fn str_eq(a: &str, b: &str) -> (r: bool)
    ensures
        r == (a@ == b@),
{
    let alen = a.unicode_len();
    let blen = b.unicode_len();
    if alen != blen {
        return false;
    }
    let mut i: usize = 0;
    while i < alen
        invariant
            alen == a@.len(),
            alen == b@.len(),
            i <= alen,
            forall|k: int| 0 <= k < i ==> a@[k] == b@[k],
        decreases alen - i,
    {
        if a.get_char(i) != b.get_char(i) {
            return false;
        }
        i += 1;
    }
    proof {
        assert(a@ =~= b@);
    }
    true
}

/// Whether `pat` occurs in `t` starting at index `i`.
fn match_at(t: &str, pat: &str, i: usize) -> (r: bool)
    requires
        i + pat@.len() <= t@.len(),
    ensures
        r == matches_at(t@, pat@, i as int),
{
    let tlen = t.unicode_len();
    let plen = pat.unicode_len();
    let mut j: usize = 0;
    while j < plen
        invariant
            tlen == t@.len(),
            plen == pat@.len(),
            i + plen <= t@.len(),
            j <= plen,
            forall|k: int| 0 <= k < j ==> t@[i + k] == pat@[k],
        decreases plen - j,
    {
        if t.get_char(i + j) != pat.get_char(j) {
            proof {
                if matches_at(t@, pat@, i as int) {
                    assert(t@.subrange(i as int, i + plen as int)[j as int] == pat@[j as int]);
                }
            }
            return false;
        }
        j += 1;
    }
    proof {
        assert(t@.subrange(i as int, i + plen as int) =~= pat@);
    }
    true
}

/// The first index at which `pat` occurs in `t`, or `None` when it does
/// not occur at all.
pub fn find_first(t: &str, pat: &str) -> (r: Option<usize>)
    ensures
        match r {
            Option::Some(i) => is_first_match(t@, pat@, i as int),
            Option::None => !has_match(t@, pat@),
        },
{
    let tlen = t.unicode_len();
    let plen = pat.unicode_len();
    if plen > tlen {
        proof {
            assert forall|j: int| !matches_at(t@, pat@, j) by {
                if matches_at(t@, pat@, j) {
                    assert(j + pat@.len() <= t@.len());
                }
            }
        }
        return None;
    }
    if plen == 0 {
        proof {
            assert(t@.subrange(0, 0) =~= pat@);
            assert(matches_at(t@, pat@, 0));
        }
        return Some(0);
    }
    let mut i: usize = 0;
    while i <= tlen - plen
        invariant
            tlen == t@.len(),
            plen == pat@.len(),
            1 <= plen <= tlen,
            i <= tlen - plen + 1,
            forall|j: int| 0 <= j < i ==> !matches_at(t@, pat@, j),
        decreases tlen - plen + 1 - i,
    {
        if match_at(t, pat, i) {
            return Some(i);
        }
        i += 1;
    }
    proof {
        assert forall|j: int| !matches_at(t@, pat@, j) by {
            if matches_at(t@, pat@, j) {
                assert(j + pat@.len() <= t@.len());
                assert(j < i);
            }
        }
    }
    None
}

/// A fresh string holding `t` with the first occurrence of `pat`
/// replaced by `rep`, and `t` unchanged when `pat` does not occur.
pub fn replace_first(t: &str, pat: &str, rep: &str) -> (r: String)
    ensures
        r@ == spec_replace_first(t@, pat@, rep@),
{
    let tlen = t.unicode_len();
    let plen = pat.unicode_len();
    match find_first(t, pat) {
        Option::Some(i) => {
            proof {
                assert(matches_at(t@, pat@, i as int));
                lemma_first_match(t@, pat@);
                lemma_first_match_unique(t@, pat@, i as int, first_match(t@, pat@));
            }
            let mut s = String::new();
            s.append(t.substring_char(0, i));
            s.append(rep);
            s.append(t.substring_char(i + plen, tlen));
            proof {
                assert(s@ =~= spec_replace_first(t@, pat@, rep@));
            }
            s
        },
        Option::None => t.to_owned(),
    }
}

} // verus!
