//! Searching and cutting sequences by position, and strings by character.

use vstd::prelude::*;
use vstd::string::StrSliceExecFns;

verus! {

/// `i` is the position of the first `c` in `s`.
pub open spec fn is_first<T>(s: Seq<T>, c: T, i: int) -> bool {
    &&& 0 <= i < s.len()
    &&& s[i] == c
    &&& forall|j: int| 0 <= j < i ==> s[j] != c
}

/// The position of the first `c` in `s`, where there is one.
pub open spec fn first_index<T>(s: Seq<T>, c: T) -> int {
    choose|i: int| is_first(s, c, i)
}

/// The text before the first `c` and the text after it; `None` without a `c`.
pub open spec fn split_first<T>(s: Seq<T>, c: T) -> Option<(Seq<T>, Seq<T>)> {
    if s.contains(c) {
        Some((s.take(first_index(s, c)), s.skip(first_index(s, c) + 1)))
    } else {
        None
    }
}

/// There is one first position at most.
pub proof fn lemma_first_index<T>(s: Seq<T>, c: T, i: int)
    requires
        is_first(s, c, i),
    ensures
        s.contains(c),
        first_index(s, c) == i,
{
    let k = first_index(s, c);
    assert(is_first(s, c, k));
}

/// The first position of `c` in `s`.
pub fn find_char(s: &str, c: char) -> (r: Option<usize>)
    ensures
        match r {
            Some(i) => is_first(s@, c, i as int),
            None => !s@.contains(c),
        },
{
    let n = s.unicode_len();
    let mut i: usize = 0;
    for ch in it: s.chars()
        invariant
            i == it.index(),
            it.seq() == s@,
            n == s@.len(),
            forall|j: int| 0 <= j < i ==> s@[j] != c,
    {
        if ch == c {
            return Some(i);
        }
        i += 1;
    }
    None
}

/// Whether `s` begins with `prefix`.
pub fn starts_with(s: &str, prefix: &str) -> (r: bool)
    ensures
        r == prefix@.is_prefix_of(s@),
{
    let n = prefix.unicode_len();
    if s.unicode_len() < n {
        return false;
    }
    let mut i: usize = 0;
    while i < n
        invariant
            i <= n,
            n == prefix@.len(),
            n <= s@.len(),
            forall|j: int| 0 <= j < i ==> s@[j] == prefix@[j],
        decreases n - i,
    {
        if s.get_char(i) != prefix.get_char(i) {
            assert(s@.subrange(0, n as int)[i as int] != prefix@[i as int]);
            return false;
        }
        i += 1;
    }
    assert(s@.subrange(0, n as int) =~= prefix@);
    true
}

/// What follows `prefix` in `s`, where `s` begins with it.
pub fn strip_prefix<'a>(s: &'a str, prefix: &str) -> (r: Option<&'a str>)
    ensures
        match r {
            Some(rest) => prefix@.is_prefix_of(s@) && rest@ == s@.skip(prefix@.len() as int),
            None => !prefix@.is_prefix_of(s@),
        },
{
    if starts_with(s, prefix) {
        Some(s.substring_char(prefix.unicode_len(), s.unicode_len()))
    } else {
        None
    }
}

/// Whether two strings are the same.
pub fn str_eq(a: &str, b: &str) -> (r: bool)
    ensures
        r == (a@ == b@),
{
    if a.unicode_len() != b.unicode_len() {
        return false;
    }
    let r = starts_with(a, b);
    proof {
        if r {
            assert(a@ =~= a@.subrange(0, b@.len() as int));
        }
    }
    r
}

/// A text that differs from `prefix` at a position of `prefix` does not
/// begin with it.
pub proof fn lemma_not_prefix(prefix: Seq<char>, text: Seq<char>, i: int)
    requires
        0 <= i < prefix.len(),
        i < text.len() ==> text[i] != prefix[i],
    ensures
        !prefix.is_prefix_of(text),
{
    if prefix.is_prefix_of(text) {
        assert(text.subrange(0, prefix.len() as int)[i] == prefix[i]);
    }
}

} // verus!
