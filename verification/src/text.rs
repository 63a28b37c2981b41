//! Character-sequence searching: exact substring search (used by message
//! sanitization) and ASCII-case-insensitive containment (used by message
//! classification).

use vstd::prelude::*;
use vstd::string::*;

verus! {

/// The pattern `p` occurs in `s` starting at index `i`.
pub open spec fn match_at(s: Seq<char>, p: Seq<char>, i: int) -> bool {
    &&& 0 <= i
    &&& i + p.len() <= s.len()
    &&& s.subrange(i, i + p.len()) == p
}

/// `p` occurs somewhere in `s`.
pub open spec fn contains_seq(s: Seq<char>, p: Seq<char>) -> bool {
    exists|i: int| match_at(s, p, i)
}

/// Index of the first occurrence of `p` in `s` at or after position `i`,
/// if there is one.
pub open spec fn find_from(s: Seq<char>, p: Seq<char>, i: int) -> Option<int>
    decreases s.len() - i + 1,
{
    if i + p.len() > s.len() {
        None
    } else if s.subrange(i, i + p.len()) == p {
        Some(i)
    } else {
        find_from(s, p, i + 1)
    }
}

/// Index of the first occurrence of `p` in `s`, if there is one.
pub open spec fn find_first(s: Seq<char>, p: Seq<char>) -> Option<int> {
    find_from(s, p, 0)
}

/// `find_from` returns the first match at or after `i`: its result is a match,
/// nothing earlier matches, and `None` means nothing matches at all.
pub proof fn lemma_find_from_correct(s: Seq<char>, p: Seq<char>, i: int)
    requires
        0 <= i,
    ensures
        match find_from(s, p, i) {
            Some(j) => {
                &&& i <= j
                &&& match_at(s, p, j)
                &&& forall|k: int| i <= k < j ==> !match_at(s, p, k)
            },
            None => forall|k: int| i <= k ==> !match_at(s, p, k),
        },
    decreases s.len() - i + 1,
{
    if i + p.len() > s.len() {
        assert forall|k: int| i <= k implies !match_at(s, p, k) by {
            if match_at(s, p, k) {
                assert(k + p.len() <= s.len());
            }
        }
    } else if s.subrange(i, i + p.len()) == p {
    } else {
        lemma_find_from_correct(s, p, i + 1);
    }
}

/// Whether `p` matches `s` at position `i`, comparing exactly.
fn match_at_exec(s: &str, p: &str, i: usize, s_len: usize, p_len: usize) -> (r: bool)
    requires
        s_len == s@.len(),
        p_len == p@.len(),
        i + p_len <= s_len,
    ensures
        r == match_at(s@, p@, i as int),
{
    let mut j: usize = 0;
    while j < p_len
        invariant
            j <= p_len,
            s_len == s@.len(),
            p_len == p@.len(),
            i + p_len <= s_len,
            forall|jj: int| 0 <= jj < j ==> s@[i + jj] == p@[jj],
        decreases p_len - j,
    {
        if s.get_char(i + j) != p.get_char(j) {
            assert(s@.subrange(i as int, i + p@.len()) != p@) by {
                assert(s@.subrange(i as int, i + p@.len())[j as int] == s@[i + j]);
            }
            return false;
        }
        j = j + 1;
    }
    assert(s@.subrange(i as int, i + p@.len()) =~= p@);
    true
}

/// Returns the index of the first occurrence of `p` in `s`, or `None` when
/// `p` does not occur in `s`.
pub fn find_str(s: &str, p: &str) -> (r: Option<usize>)
    ensures
        match r {
            Some(j) => find_first(s@, p@) == Some(j as int),
            None => find_first(s@, p@) is None,
        },
{
    let s_len = s.unicode_len();
    let p_len = p.unicode_len();
    if p_len > s_len {
        return None;
    }
    if p_len == 0 {
        assert(s@.subrange(0, 0) =~= p@);
        return Some(0);
    }
    let mut i: usize = 0;
    while i <= s_len - p_len
        invariant
            1 <= p_len <= s_len,
            i <= s_len,
            s_len == s@.len(),
            p_len == p@.len(),
            find_from(s@, p@, 0) == find_from(s@, p@, i as int),
        decreases s_len - i,
    {
        if match_at_exec(s, p, i, s_len, p_len) {
            assert(find_from(s@, p@, i as int) == Some(i as int));
            return Some(i);
        }
        assert(find_from(s@, p@, i as int) == find_from(s@, p@, i + 1));
        i = i + 1;
    }
    assert(find_from(s@, p@, i as int) is None);
    None
}

/// The argument mapped to lower case if it is an ASCII capital letter,
/// and unchanged otherwise, as a scalar value.
pub open spec fn lower_scalar(c: char) -> u32 {
    if 65 <= c as u32 && c as u32 <= 90 {
        (c as u32 + 32) as u32
    } else {
        c as u32
    }
}

/// Two characters are equal up to ASCII case.
pub open spec fn eq_ci(a: char, b: char) -> bool {
    lower_scalar(a) == lower_scalar(b)
}

/// The pattern `p` occurs in `s` at index `i`, up to ASCII case.
pub open spec fn match_ci_at(s: Seq<char>, p: Seq<char>, i: int) -> bool {
    &&& 0 <= i
    &&& i + p.len() <= s.len()
    &&& forall|j: int| 0 <= j < p.len() ==> eq_ci(s[i + j], p[j])
}

/// `p` occurs somewhere in `s`, up to ASCII case.
pub open spec fn contains_ci(s: Seq<char>, p: Seq<char>) -> bool {
    exists|i: int| match_ci_at(s, p, i)
}

/// Maps an ASCII capital letter to its lower-case scalar value and leaves
/// every other character's scalar value unchanged.
fn lower_scalar_exec(c: char) -> (r: u32)
    ensures
        r == lower_scalar(c),
{
    let u = c as u32;
    if 65 <= u && u <= 90 {
        u + 32
    } else {
        u
    }
}

/// Whether `p` matches `s` at position `i`, up to ASCII case.
fn match_ci_at_exec(s: &str, p: &str, i: usize, s_len: usize, p_len: usize) -> (r: bool)
    requires
        s_len == s@.len(),
        p_len == p@.len(),
        i + p_len <= s_len,
    ensures
        r == match_ci_at(s@, p@, i as int),
{
    let mut j: usize = 0;
    while j < p_len
        invariant
            j <= p_len,
            s_len == s@.len(),
            p_len == p@.len(),
            i + p_len <= s_len,
            forall|jj: int| 0 <= jj < j ==> eq_ci(s@[i + jj], p@[jj]),
        decreases p_len - j,
    {
        if lower_scalar_exec(s.get_char(i + j)) != lower_scalar_exec(p.get_char(j)) {
            return false;
        }
        j = j + 1;
    }
    true
}

/// Whether `s` contains `p` up to ASCII case; with a lower-case ASCII
/// pattern this is the case-insensitive keyword test of the classifier.
pub fn contains_ci_str(s: &str, p: &str) -> (r: bool)
    ensures
        r == contains_ci(s@, p@),
{
    let s_len = s.unicode_len();
    let p_len = p.unicode_len();
    if p_len > s_len {
        proof {
            if contains_ci(s@, p@) {
                let i = choose|i: int| match_ci_at(s@, p@, i);
            }
        }
        return false;
    }
    if p_len == 0 {
        assert(match_ci_at(s@, p@, 0));
        return true;
    }
    let mut i: usize = 0;
    while i <= s_len - p_len
        invariant
            1 <= p_len <= s_len,
            i <= s_len,
            s_len == s@.len(),
            p_len == p@.len(),
            forall|k: int| 0 <= k < i ==> !match_ci_at(s@, p@, k),
        decreases s_len - i,
    {
        if match_ci_at_exec(s, p, i, s_len, p_len) {
            return true;
        }
        i = i + 1;
    }
    proof {
        if contains_ci(s@, p@) {
            let k = choose|k: int| match_ci_at(s@, p@, k);
            assert(k + p@.len() <= s@.len());
            assert(!match_ci_at(s@, p@, k));
        }
    }
    false
}

} // verus!
