//! Small verified string utilities: equality and substring search over
//! `&str`, specified against the character-sequence views.

use vstd::prelude::*;
use vstd::string::{StringExecFns, StrSliceExecFns};

verus! {

/// Whether `needle` occurs in `haystack` starting at position `i`.
pub open spec fn spec_contains_at(haystack: Seq<char>, needle: Seq<char>, i: int) -> bool {
    0 <= i && i + needle.len() <= haystack.len()
        && haystack.subrange(i, i + needle.len() as int) == needle
}

/// Whether `needle` occurs anywhere in `haystack`.
pub open spec fn spec_contains(haystack: Seq<char>, needle: Seq<char>) -> bool {
    exists|i: int| spec_contains_at(haystack, needle, i)
}

/// A needle found in the left half of a concatenation is found in the
/// whole.
pub proof fn lemma_contains_left(a: Seq<char>, b: Seq<char>, needle: Seq<char>)
    requires
        spec_contains(a, needle),
    ensures
        spec_contains(a + b, needle),
{
    let i = choose|i: int| spec_contains_at(a, needle, i);
    assert((a + b).subrange(i, i + needle.len() as int) =~= a.subrange(
        i,
        i + needle.len() as int,
    ));
    assert(spec_contains_at(a + b, needle, i));
}

/// A needle found in the right half of a concatenation is found in the
/// whole.
pub proof fn lemma_contains_right(a: Seq<char>, b: Seq<char>, needle: Seq<char>)
    requires
        spec_contains(b, needle),
    ensures
        spec_contains(a + b, needle),
{
    let i = choose|i: int| spec_contains_at(b, needle, i);
    assert((a + b).subrange(a.len() + i, a.len() + i + needle.len() as int) =~= b.subrange(
        i,
        i + needle.len() as int,
    ));
    assert(spec_contains_at(a + b, needle, a.len() + i));
}

/// Character-wise equality of two string slices.
pub fn str_eq(a: &str, b: &str) -> (r: bool)
    ensures
        r == (a@ == b@),
{
    let sa = String::from_str(a);
    let sb = String::from_str(b);
    sa.eq(&sb)
}

/// Whether `needle` occurs in `haystack` starting at `i`.
fn match_at(haystack: &str, needle: &str, i: usize, h: usize, n: usize) -> (r: bool)
    requires
        h == haystack@.len(),
        n == needle@.len(),
        i + n <= h,
    ensures
        r == (haystack@.subrange(i as int, i + n) == needle@),
{
    for j in 0..n
        invariant
            h == haystack@.len(),
            n == needle@.len(),
            i + n <= h,
            forall|k: int| 0 <= k < j ==> haystack@[i + k] == needle@[k],
    {
        if haystack.get_char(i + j) != needle.get_char(j) {
            proof {
                assert(haystack@.subrange(i as int, i + n)[j as int] != needle@[j as int]);
            }
            return false;
        }
    }
    proof {
        assert(haystack@.subrange(i as int, i + n) =~= needle@);
    }
    true
}

/// Substring search: whether `needle` occurs anywhere in `haystack`.
pub fn str_contains(haystack: &str, needle: &str) -> (r: bool)
    ensures
        r == spec_contains(haystack@, needle@),
{
    let h = haystack.unicode_len();
    let n = needle.unicode_len();
    if n == 0 {
        proof {
            assert(haystack@.subrange(0, 0) =~= needle@);
            assert(spec_contains_at(haystack@, needle@, 0));
        }
        return true;
    }
    if n > h {
        return false;
    }
    let mut i: usize = 0;
    while i <= h - n
        invariant
            h == haystack@.len(),
            n == needle@.len(),
            1 <= n <= h,
            i <= h - n + 1,
            forall|k: int| 0 <= k < i ==> !spec_contains_at(haystack@, needle@, k),
        decreases h - n - i + 1,
    {
        if match_at(haystack, needle, i, h, n) {
            assert(spec_contains_at(haystack@, needle@, i as int));
            return true;
        }
        i += 1;
    }
    false
}

} // verus!
