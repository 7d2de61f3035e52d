//! String comparisons over the character view of a string.

use vstd::prelude::*;
use vstd::string::StringExecFns;

verus! {

/// Whether a character is white space, as `char::is_whitespace` tells it.
pub uninterp spec fn white_space(c: char) -> bool;

/// How many white-space characters `s` begins with.
pub open spec fn leading_space(s: Seq<char>) -> nat
    decreases s.len(),
{
    if s.len() > 0 && white_space(s[0]) {
        1 + leading_space(s.drop_first())
    } else {
        0
    }
}

/// How many white-space characters `s` ends with.
pub open spec fn trailing_space(s: Seq<char>) -> nat
    decreases s.len(),
{
    if s.len() > 0 && white_space(s.last()) {
        1 + trailing_space(s.drop_last())
    } else {
        0
    }
}

/// `s` without the white space it begins and ends with.
pub open spec fn trimmed(s: Seq<char>) -> Seq<char> {
    if leading_space(s) == s.len() {
        Seq::empty()
    } else {
        s.subrange(leading_space(s) as int, s.len() - trailing_space(s))
    }
}

/// `needle` occurs in `hay` at character offset `at`.
pub open spec fn occurs_at(hay: Seq<char>, needle: Seq<char>, at: int) -> bool {
    &&& 0 <= at
    &&& at + needle.len() <= hay.len()
    &&& hay.subrange(at, at + needle.len()) == needle
}

/// `needle` occurs somewhere in `hay`.
pub open spec fn has_substring(hay: Seq<char>, needle: Seq<char>) -> bool {
    exists|at: int| occurs_at(hay, needle, at)
}

/// The characters of `s`, in order.
pub fn chars_of(s: &str) -> (out: Vec<char>)
    ensures
        out@ == s@,
{
    let mut out: Vec<char> = Vec::new();
    for c in it: s.chars()
        invariant
            it.seq() == s@,
            out@ == s@.take(it.index()),
    {
        out.push(c);
        assert(out@ =~= s@.take(it.index() + 1));
    }
    assert(out@ =~= s@);
    out
}

/// Whether `needle` stands in `hay` at offset `at`.
fn matches_at(hay: &Vec<char>, needle: &Vec<char>, at: usize) -> (found: bool)
    requires
        at + needle.len() <= hay.len(),
    ensures
        found == occurs_at(hay@, needle@, at as int),
{
    let mut k: usize = 0;
    while k < needle.len()
        invariant
            at + needle.len() <= hay.len(),
            k <= needle.len(),
            hay@.subrange(at as int, at + k) == needle@.subrange(0, k as int),
        decreases needle.len() - k,
    {
        if hay[at + k] != needle[k] {
            proof {
                let full = hay@.subrange(at as int, at + needle.len());
                assert(full[k as int] == hay@[at + k]);
            }
            return false;
        }
        proof {
            let next = hay@.subrange(at as int, at + k + 1);
            let want = needle@.subrange(0, k + 1);
            assert(next.drop_last() == hay@.subrange(at as int, at + k));
            assert(want.drop_last() == needle@.subrange(0, k as int));
            assert(next == next.drop_last().push(hay@[at + k]));
            assert(want == want.drop_last().push(needle@[k as int]));
        }
        k += 1;
    }
    assert(needle@.subrange(0, needle.len() as int) == needle@);
    true
}

/// Exact, case-sensitive equality of two strings.
pub fn str_eq(a: &str, b: &str) -> (same: bool)
    ensures
        same == (a@ == b@),
{
    let x = chars_of(a);
    let y = chars_of(b);
    if x.len() != y.len() {
        return false;
    }
    let same = matches_at(&x, &y, 0);
    assert(x@.subrange(0, x.len() as int) == x@);
    same
}

/// Whether `s` begins with `prefix`.
pub fn starts_with(s: &str, prefix: &str) -> (yes: bool)
    ensures
        yes == prefix@.is_prefix_of(s@),
{
    let hay = chars_of(s);
    let pre = chars_of(prefix);
    if pre.len() > hay.len() {
        return false;
    }
    matches_at(&hay, &pre, 0)
}

/// Whether `needle` occurs anywhere in `s`.
pub fn contains(s: &str, needle: &str) -> (yes: bool)
    ensures
        yes == has_substring(s@, needle@),
{
    let hay = chars_of(s);
    let pat = chars_of(needle);
    if pat.len() > hay.len() {
        return false;
    }
    let last = hay.len() - pat.len();
    let mut at: usize = 0;
    while at < last
        invariant
            last == hay.len() - pat.len(),
            at <= last,
            hay@ == s@,
            pat@ == needle@,
            forall|j: int| 0 <= j < at ==> !occurs_at(hay@, pat@, j),
        decreases last - at,
    {
        if matches_at(&hay, &pat, at) {
            return true;
        }
        at += 1;
    }
    matches_at(&hay, &pat, last)
}

/// `char::is_whitespace` of the standard library: whether a character has
/// the Unicode property White_Space. The contract gives that answer its name.
#[verifier::external_body]
fn is_whitespace(c: char) -> (yes: bool)
    ensures
        yes == white_space(c),
{
    c.is_whitespace()
}

/// The white space `s` begins with ends at the first character that is none.
proof fn lemma_leading_space(s: Seq<char>, count: int)
    requires
        0 <= count <= s.len(),
        forall|j: int| 0 <= j < count ==> white_space(s[j]),
        count == s.len() || !white_space(s[count]),
    ensures
        leading_space(s) == count,
    decreases count,
{
    if count > 0 {
        let rest = s.drop_first();
        assert forall|j: int| 0 <= j < count - 1 implies white_space(rest[j]) by {
            assert(rest[j] == s[j + 1]);
        }
        lemma_leading_space(rest, count - 1);
    }
}

/// The white space `s` ends with begins after the last character that is none.
proof fn lemma_trailing_space(s: Seq<char>, count: int)
    requires
        0 <= count <= s.len(),
        forall|j: int| s.len() - count <= j < s.len() ==> white_space(s[j]),
        count == s.len() || !white_space(s[s.len() - count - 1]),
    ensures
        trailing_space(s) == count,
    decreases count,
{
    if count > 0 {
        let rest = s.drop_last();
        assert forall|j: int| rest.len() - (count - 1) <= j < rest.len() implies white_space(
            rest[j],
        ) by {
            assert(rest[j] == s[j]);
        }
        lemma_trailing_space(rest, count - 1);
    }
}

/// A copy of `s` without the white space it begins and ends with.
pub fn trim(s: &str) -> (out: String)
    ensures
        out@ == trimmed(s@),
{
    let chars = chars_of(s);
    let n = chars.len();
    let mut start: usize = 0;
    while start < n && is_whitespace(chars[start])
        invariant
            n == chars@.len(),
            start <= n,
            forall|j: int| 0 <= j < start ==> white_space(chars@[j]),
        decreases n - start,
    {
        start += 1;
    }
    proof {
        lemma_leading_space(chars@, start as int);
    }
    if start == n {
        return String::new();
    }
    let mut end: usize = n;
    while end > start + 1 && is_whitespace(chars[end - 1])
        invariant
            n == chars@.len(),
            start < end <= n,
            !white_space(chars@[start as int]),
            forall|j: int| end <= j < n ==> white_space(chars@[j]),
        decreases end,
    {
        end -= 1;
    }
    proof {
        lemma_trailing_space(chars@, n - end);
    }
    String::from_str(s.substring_char(start, end))
}

} // verus!
