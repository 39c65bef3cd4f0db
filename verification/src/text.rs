//! Small string utilities shared by the modules of the library.
use vstd::prelude::*;

verus! {

/// Whether `needle` occurs in `haystack` as a contiguous run of characters.
pub open spec fn contains_text(haystack: Seq<char>, needle: Seq<char>) -> bool {
    exists|start: int|
        0 <= start && start + needle.len() <= haystack.len() && #[trigger] haystack.subrange(
            start,
            start + needle.len(),
        ) == needle
}

/// Character-wise equality of two string slices.
pub fn str_eq(a: &str, b: &str) -> (res: bool)
    ensures
        res == (a@ == b@),
{
    let n = a.unicode_len();
    if n != b.unicode_len() {
        return false;
    }
    let mut i: usize = 0;
    while i < n
        invariant
            n == a@.len(),
            n == b@.len(),
            i <= n,
            forall|j: int| 0 <= j < i ==> a@[j] == b@[j],
        decreases n - i,
    {
        if a.get_char(i) != b.get_char(i) {
            return false;
        }
        i = i + 1;
    }
    assert(a@ =~= b@);
    true
}

/// Whether the characters of `needle` start at position `start` of `haystack`.
fn matches_at(haystack: &str, needle: &str, start: usize, hay_len: usize, needle_len: usize) -> (res: bool)
    requires
        hay_len == haystack@.len(),
        needle_len == needle@.len(),
        start + needle_len <= hay_len,
    ensures
        res == (haystack@.subrange(start as int, start + needle_len) == needle@),
{
    let mut k: usize = 0;
    while k < needle_len
        invariant
            hay_len == haystack@.len(),
            needle_len == needle@.len(),
            start + needle_len <= hay_len,
            k <= needle_len,
            forall|j: int| 0 <= j < k ==> haystack@[start + j] == needle@[j],
        decreases needle_len - k,
    {
        if haystack.get_char(start + k) != needle.get_char(k) {
            assert(haystack@.subrange(start as int, start + needle_len)[k as int] != needle@[k as int]);
            return false;
        }
        k = k + 1;
    }
    assert(haystack@.subrange(start as int, start + needle_len) =~= needle@);
    true
}

/// Whether `needle` occurs somewhere in `haystack`.
pub fn contains_str(haystack: &str, needle: &str) -> (res: bool)
    ensures
        res == contains_text(haystack@, needle@),
{
    let hay_len = haystack.unicode_len();
    let needle_len = needle.unicode_len();
    if needle_len > hay_len {
        return false;
    }
    let last = hay_len - needle_len;
    let mut start: usize = 0;
    loop
        invariant
            hay_len == haystack@.len(),
            needle_len == needle@.len(),
            last == hay_len - needle_len,
            needle_len <= hay_len,
            start <= last,
            forall|s: int|
                0 <= s < start ==> #[trigger] haystack@.subrange(s, s + needle_len) != needle@,
        ensures
            start == last,
            forall|s: int|
                0 <= s <= start ==> #[trigger] haystack@.subrange(s, s + needle_len) != needle@,
        decreases last - start,
    {
        if matches_at(haystack, needle, start, hay_len, needle_len) {
            return true;
        }
        if start == last {
            break;
        }
        start = start + 1;
    }
    assert forall|s: int|
        0 <= s && s + needle@.len() <= haystack@.len() implies #[trigger] haystack@.subrange(
            s,
            s + needle@.len(),
        ) != needle@ by {
        assert(s <= start);
    }
    false
}

} // verus!
