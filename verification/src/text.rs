//! Character-level helpers over `&str`, with lengths and slices measured in
//! Unicode scalar values rather than bytes.

use vstd::prelude::*;

verus! {

/// The trailing `n` characters of `w`.
pub open spec fn tail(w: Seq<char>, n: int) -> Seq<char> {
    w.subrange(w.len() - n, w.len() as int)
}

/// `suffix` matches the end of `w`.
pub open spec fn has_suffix(w: Seq<char>, suffix: Seq<char>) -> bool {
    w.len() >= suffix.len() && tail(w, suffix.len() as int) == suffix
}

/// Character-for-character equality of two string slices.
pub fn str_eq(a: &str, b: &str) -> (r: bool)
    ensures
        r == (a@ == b@),
{
    let a_len = a.unicode_len();
    let b_len = b.unicode_len();
    if a_len != b_len {
        assert(a@ != b@);
        return false;
    }
    let mut i: usize = 0;
    while i < a_len
        invariant
            i <= a_len,
            a_len == a@.len(),
            a_len == b@.len(),
            forall|j: int| 0 <= j < i ==> a@[j] == b@[j],
        decreases a_len - i,
    {
        if a.get_char(i) != b.get_char(i) {
            return false;
        }
        i += 1;
    }
    assert(a@ =~= b@);
    true
}

/// Whether `w` ends with the characters of `suffix`.
pub fn ends_with_str(w: &str, suffix: &str) -> (r: bool)
    ensures
        r == has_suffix(w@, suffix@),
{
    let w_len = w.unicode_len();
    let s_len = suffix.unicode_len();
    if s_len > w_len {
        return false;
    }
    let start = w_len - s_len;
    let mut i: usize = 0;
    while i < s_len
        invariant
            i <= s_len,
            s_len <= w_len,
            w_len == w@.len(),
            s_len == suffix@.len(),
            start == w_len - s_len,
            forall|j: int| 0 <= j < i ==> w@[start + j] == suffix@[j],
        decreases s_len - i,
    {
        if w.get_char(start + i) != suffix.get_char(i) {
            assert(tail(w@, s_len as int)[i as int] != suffix@[i as int]);
            return false;
        }
        i += 1;
    }
    assert(tail(w@, s_len as int) =~= suffix@);
    true
}

} // verus!
