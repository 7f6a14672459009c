//! Character and string predicates used throughout the library: ASCII
//! case-insensitive comparison, substring containment, prefix tests and
//! character-count truncation.

use vstd::prelude::*;
use vstd::string::StrSliceExecFns;
use vstd::string::StringExecFns;

verus! {

/// Two characters are equal up to ASCII case: either the same scalar value,
/// or one is an ASCII capital letter and the other its lowercase form.
pub open spec fn char_eq_ci(a: char, b: char) -> bool {
    ||| a as u32 == b as u32
    ||| (65 <= a as u32 <= 90 && a as u32 + 32 == b as u32)
    ||| (65 <= b as u32 <= 90 && b as u32 + 32 == a as u32)
}

/// Two strings are equal up to ASCII case, character by character.
pub open spec fn str_eq_ci(a: Seq<char>, b: Seq<char>) -> bool {
    a.len() == b.len() && (forall|i: int| 0 <= i < a.len() ==> char_eq_ci(a[i], b[i]))
}

/// The needle `n` occurs in `h` starting at position `i`.
pub open spec fn matches_at(h: Seq<char>, n: Seq<char>, i: int) -> bool {
    0 <= i && i + n.len() <= h.len() && h.subrange(i, i + n.len()) == n
}

/// The needle `n` occurs somewhere in `h`.
pub open spec fn contains_sub(h: Seq<char>, n: Seq<char>) -> bool {
    exists|i: int| matches_at(h, n, i)
}

/// ASCII case-insensitive string equality.
pub fn eq_ignore_case(a: &str, b: &str) -> (r: bool)
    ensures
        r == str_eq_ci(a@, b@),
{
    let alen = a.unicode_len();
    let blen = b.unicode_len();
    if alen != blen {
        return false;
    }
    let mut i: usize = 0;
    while i < alen
        invariant
            i <= alen,
            alen == a@.len(),
            alen == b@.len(),
            forall|j: int| 0 <= j < i ==> char_eq_ci(a@[j], b@[j]),
        decreases alen - i,
    {
        let ua = a.get_char(i) as u32;
        let ub = b.get_char(i) as u32;
        let same = ua == ub || (65 <= ua && ua <= 90 && ua + 32 == ub) || (65 <= ub && ub <= 90
            && ub + 32 == ua);
        if !same {
            assert(!char_eq_ci(a@[i as int], b@[i as int]));
            return false;
        }
        i += 1;
    }
    true
}

/// Exact string equality, character by character.
pub fn str_eq(a: &str, b: &str) -> (r: bool)
    ensures
        r == (a@ == b@),
{
    let alen = a.unicode_len();
    let blen = b.unicode_len();
    if alen != blen {
        return false;
    }
    let mut i: usize = 0;
    while i < alen
        invariant
            i <= alen,
            alen == a@.len(),
            alen == b@.len(),
            forall|j: int| 0 <= j < i ==> a@[j] == b@[j],
        decreases alen - i,
    {
        if a.get_char(i) != b.get_char(i) {
            proof {
                if a@ == b@ {
                    assert(a@[i as int] == b@[i as int]);
                }
            }
            return false;
        }
        i += 1;
    }
    proof {
        assert(a@ =~= b@);
    }
    true
}

/// Substring containment test.
pub fn str_contains(h: &str, n: &str) -> (r: bool)
    ensures
        r == contains_sub(h@, n@),
{
    let hl = h.unicode_len();
    let nl = n.unicode_len();
    if nl > hl {
        assert(forall|i: int| !matches_at(h@, n@, i));
        return false;
    }
    if nl == 0 {
        proof {
            assert(h@.subrange(0, 0) =~= n@);
            assert(matches_at(h@, n@, 0));
        }
        return true;
    }
    let mut i: usize = 0;
    while i <= hl - nl
        invariant
            0 < nl <= hl,
            hl == h@.len(),
            nl == n@.len(),
            i <= hl - nl + 1,
            forall|k: int| 0 <= k < i ==> !matches_at(h@, n@, k),
        decreases hl - nl - i + 1,
    {
        let mut j: usize = 0;
        let mut mismatch = false;
        while j < nl
            invariant
                0 < nl <= hl,
                hl == h@.len(),
                nl == n@.len(),
                i + nl <= hl,
                j <= nl,
                !mismatch ==> forall|m: int| 0 <= m < j ==> h@[i + m] == n@[m],
                mismatch ==> !matches_at(h@, n@, i as int),
            decreases nl - j,
        {
            if h.get_char(i + j) != n.get_char(j) {
                proof {
                    if matches_at(h@, n@, i as int) {
                        assert(h@.subrange(i as int, i + nl as int)[j as int] == n@[j as int]);
                    }
                }
                mismatch = true;
                j = nl;
            } else {
                j += 1;
            }
        }
        if !mismatch {
            proof {
                assert(h@.subrange(i as int, i + nl as int) =~= n@);
                assert(matches_at(h@, n@, i as int));
            }
            return true;
        }
        i += 1;
    }
    assert forall|k: int| !matches_at(h@, n@, k) by {
        if matches_at(h@, n@, k) {
            assert(0 <= k < i);
        }
    }
    false
}

/// Prefix test: does `h` start with `n`?
pub fn str_starts_with(h: &str, n: &str) -> (r: bool)
    ensures
        r == n@.is_prefix_of(h@),
{
    let hl = h.unicode_len();
    let nl = n.unicode_len();
    if nl > hl {
        return false;
    }
    let mut j: usize = 0;
    while j < nl
        invariant
            nl <= hl,
            hl == h@.len(),
            nl == n@.len(),
            j <= nl,
            forall|m: int| 0 <= m < j ==> h@[m] == n@[m],
        decreases nl - j,
    {
        if h.get_char(j) != n.get_char(j) {
            proof {
                if n@.is_prefix_of(h@) {
                    assert(h@.subrange(0, nl as int)[j as int] == n@[j as int]);
                }
            }
            return false;
        }
        j += 1;
    }
    proof {
        assert(h@.subrange(0, nl as int) =~= n@);
    }
    true
}

/// The string shortened to at most `cap` characters, counted in characters
/// rather than bytes.
pub open spec fn truncated(s: Seq<char>, cap: int) -> Seq<char> {
    if s.len() <= cap {
        s
    } else {
        s.subrange(0, cap)
    }
}

/// Cap a string at `cap` characters.
pub fn truncate_chars(s: &str, cap: usize) -> (r: String)
    ensures
        r@ == truncated(s@, cap as int),
{
    let len = s.unicode_len();
    if len <= cap {
        String::from_str(s)
    } else {
        String::from_str(s.substring_char(0, cap))
    }
}

} // verus!
