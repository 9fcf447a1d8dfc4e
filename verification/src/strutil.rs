//! Small verified string helpers: character-wise equality and locating the
//! first colon of a driver specification.

use vstd::prelude::*;

verus! {

/// Index of the first `':'` in `s`, or `s.len()` when `s` holds none.
pub open spec fn first_colon_idx(s: Seq<char>) -> int
    decreases s.len(),
{
    if s.len() == 0 {
        0
    } else if s[0] == ':' {
        0
    } else {
        1 + first_colon_idx(s.skip(1))
    }
}

/// `first_colon_idx` is a position in `s` (or its length), points at a colon
/// when in range, and nothing before it is a colon.
pub proof fn lemma_first_colon_idx(s: Seq<char>)
    ensures
        0 <= first_colon_idx(s) <= s.len(),
        first_colon_idx(s) < s.len() ==> s[first_colon_idx(s)] == ':',
        forall|j: int| 0 <= j < first_colon_idx(s) ==> s[j] != ':',
    decreases s.len(),
{
    if s.len() == 0 {
    } else if s[0] == ':' {
    } else {
        lemma_first_colon_idx(s.skip(1));
        assert forall|j: int| 0 <= j < first_colon_idx(s) implies s[j] != ':' by {
            if j > 0 {
                assert(s.skip(1)[j - 1] == s[j]);
            }
        }
    }
}

/// Character-wise string equality, specified against the views.
pub fn str_eq(a: &str, b: &str) -> (r: bool)
    ensures
        r == (a@ == b@),
{
    let alen: usize = a.unicode_len();
    let blen: usize = b.unicode_len();
    if alen != blen {
        return false;
    }
    let mut i: usize = 0;
    while i < alen
        invariant
            i <= alen,
            alen == a@.len(),
            alen == b@.len(),
            forall|j: int| 0 <= j < i ==> a@[j] == b@[j],
        decreases alen - i,
    {
        if a.get_char(i) != b.get_char(i) {
            return false;
        }
        i = i + 1;
    }
    proof {
        assert(a@ =~= b@);
    }
    true
}

/// Position of the first `':'` in `s`, or `None` when there is none.
pub fn find_colon(s: &str) -> (r: Option<usize>)
    ensures
        match r {
            Some(i) => i == first_colon_idx(s@) && i < s@.len(),
            None => first_colon_idx(s@) == s@.len(),
        },
{
    let len: usize = s.unicode_len();
    let mut i: usize = 0;
    while i < len
        invariant
            i <= len,
            len == s@.len(),
            forall|j: int| 0 <= j < i ==> s@[j] != ':',
        decreases len - i,
    {
        if s.get_char(i) == ':' {
            proof {
                lemma_first_colon_idx(s@);
                let idx = first_colon_idx(s@);
                if idx < i {
                    assert(s@[idx] == ':');
                }
                if idx > i {
                    assert(s@[i as int] != ':');
                }
            }
            return Some(i);
        }
        i = i + 1;
    }
    proof {
        lemma_first_colon_idx(s@);
        let idx = first_colon_idx(s@);
        if idx < len as int {
            assert(s@[idx] == ':');
        }
    }
    None
}

} // verus!
