//! Character-level helpers on string slices.

use vstd::prelude::*;
use vstd::string::*;

verus! {

/// `prefix` is an initial part of `s`.
pub open spec fn starts_with(s: Seq<char>, prefix: Seq<char>) -> bool {
    prefix.len() <= s.len() && s.take(prefix.len() as int) == prefix
}

/// `needle` occurs somewhere inside `haystack`.
pub open spec fn occurs_in(needle: Seq<char>, haystack: Seq<char>) -> bool {
    exists|i: int|
        0 <= i && i + needle.len() <= haystack.len() && #[trigger] haystack.subrange(
            i,
            i + needle.len(),
        ) == needle
}

/// The characters of `s`, in order.
pub(crate) fn chars_of(s: &str) -> (res: Vec<char>)
    ensures
        res@ == s@,
{
    let n = s.unicode_len();
    let mut out: Vec<char> = Vec::new();
    let mut i: usize = 0;
    while i < n
        invariant
            n == s@.len(),
            i <= n,
            out@ == s@.take(i as int),
        decreases n - i,
    {
        out.push(s.get_char(i));
        i = i + 1;
        assert(out@ =~= s@.take(i as int));
    }
    assert(s@.take(n as int) =~= s@);
    out
}

/// The two slices hold the same characters.
pub(crate) fn same_text(a: &str, b: &str) -> (res: bool)
    ensures
        res == (a@ == b@),
{
    let x = chars_of(a);
    let y = chars_of(b);
    if x.len() != y.len() {
        return false;
    }
    let n = x.len();
    let mut i: usize = 0;
    while i < n
        invariant
            n == x@.len(),
            n == y@.len(),
            x@ == a@,
            y@ == b@,
            i <= n,
            forall|j: int| 0 <= j < i ==> x@[j] == y@[j],
        decreases n - i,
    {
        if x[i] != y[i] {
            assert(a@[i as int] != b@[i as int]);
            return false;
        }
        i = i + 1;
    }
    assert(x@ =~= y@);
    true
}

/// What follows `prefix` in `s`, or `None` where `s` does not start with
/// `prefix`.
pub(crate) fn after_prefix(s: &str, prefix: &str) -> (res: Option<String>)
    ensures
        res is Some <==> starts_with(s@, prefix@),
        res matches Some(rest) ==> rest@ == s@.skip(prefix@.len() as int),
{
    let x = chars_of(s);
    let p = chars_of(prefix);
    let m = p.len();
    if m > x.len() {
        return None;
    }
    let mut i: usize = 0;
    while i < m
        invariant
            m == p@.len(),
            m <= x@.len(),
            x@ == s@,
            p@ == prefix@,
            i <= m,
            forall|j: int| 0 <= j < i ==> x@[j] == p@[j],
        decreases m - i,
    {
        if x[i] != p[i] {
            assert(s@.take(m as int)[i as int] != prefix@[i as int]);
            return None;
        }
        i = i + 1;
    }
    assert(s@.take(m as int) =~= prefix@);
    let rest = s.substring_char(m, x.len());
    Some(rest.to_owned())
}

/// Whether `needle` occurs in `haystack`.
pub(crate) fn contains_text(haystack: &str, needle: &str) -> (res: bool)
    ensures
        res == occurs_in(needle@, haystack@),
{
    let h = chars_of(haystack);
    let nd = chars_of(needle);
    let n = h.len();
    let m = nd.len();
    if m > n {
        assert forall|i: int|
            0 <= i && i + needle@.len() <= haystack@.len() implies #[trigger] haystack@.subrange(
            i,
            i + needle@.len(),
        ) != needle@ by {}
        return false;
    }
    let mut start: usize = 0;
    while start <= n - m
        invariant
            n == h@.len(),
            m == nd@.len(),
            m <= n,
            start <= n - m + 1,
            h@ == haystack@,
            nd@ == needle@,
            forall|i: int| 0 <= i < start ==> #[trigger] h@.subrange(i, i + m) != nd@,
        decreases n - m + 1 - start,
    {
        let mut k: usize = 0;
        let mut matched = true;
        while k < m
            invariant
                n == h@.len(),
                m == nd@.len(),
                start + m <= n,
                k <= m,
                matched == (forall|j: int| 0 <= j < k ==> h@[start + j] == nd@[j]),
            decreases m - k,
        {
            if h[start + k] != nd[k] {
                matched = false;
            }
            k = k + 1;
        }
        if matched {
            assert(h@.subrange(start as int, start + m) =~= nd@);
            return true;
        }
        assert(h@.subrange(start as int, start + m) != nd@) by {
            let j = choose|j: int| 0 <= j < m && h@[start + j] != nd@[j];
            assert(h@.subrange(start as int, start + m)[j] == h@[start + j]);
        }
        start = start + 1;
    }
    assert forall|i: int|
        0 <= i && i + needle@.len() <= haystack@.len() implies #[trigger] haystack@.subrange(
        i,
        i + needle@.len(),
    ) != needle@ by {
        assert(h@.subrange(i, i + m) != nd@);
    }
    false
}

/// A needle occurs in any text that holds it between two other pieces.
pub proof fn lemma_needle_occurs_when_embedded(before: Seq<char>, needle: Seq<char>, after: Seq<char>)
    ensures
        occurs_in(needle, before + needle + after),
{
    let hay = before + needle + after;
    assert(hay.subrange(before.len() as int, before.len() + needle.len() as int) =~= needle);
}

/// A needle longer than the text never occurs in it.
pub proof fn lemma_longer_needle_never_occurs(needle: Seq<char>, haystack: Seq<char>)
    requires
        needle.len() > haystack.len(),
    ensures
        !occurs_in(needle, haystack),
{
}

} // verus!
