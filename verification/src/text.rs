//! Text predicates and the few string operations of the standard library that
//! the rest of the crate relies on.

use vstd::prelude::*;

verus! {

/// Whether `c` carries the Unicode property `White_Space`.
pub open spec fn is_white_space(c: char) -> bool {
    let n = c as u32;
    ||| 0x09 <= n <= 0x0D
    ||| n == 0x20
    ||| n == 0x85
    ||| n == 0xA0
    ||| n == 0x1680
    ||| 0x2000 <= n <= 0x200A
    ||| n == 0x2028
    ||| n == 0x2029
    ||| n == 0x202F
    ||| n == 0x205F
    ||| n == 0x3000
}

/// `s` without its leading white space.
pub open spec fn trim_start(s: Seq<char>) -> Seq<char>
    decreases s.len(),
{
    if s.len() > 0 && is_white_space(s.first()) {
        trim_start(s.drop_first())
    } else {
        s
    }
}

/// `s` without its trailing white space.
pub open spec fn trim_end(s: Seq<char>) -> Seq<char>
    decreases s.len(),
{
    if s.len() > 0 && is_white_space(s.last()) {
        trim_end(s.drop_last())
    } else {
        s
    }
}

/// `s` without leading and trailing white space.
pub open spec fn trimmed(s: Seq<char>) -> Seq<char> {
    trim_end(trim_start(s))
}

/// Whether `s` holds nothing but white space.
pub open spec fn is_blank(s: Seq<char>) -> bool {
    forall|i: int| 0 <= i < s.len() ==> is_white_space(#[trigger] s[i])
}

/// The characters of each string of `strings`.
pub open spec fn texts(strings: Seq<String>) -> Seq<Seq<char>> {
    strings.map_values(|s: String| s@)
}

/// Whether `needle` occurs in `hay` at position `at`.
pub open spec fn occurs_at(hay: Seq<char>, needle: Seq<char>, at: int) -> bool {
    &&& 0 <= at
    &&& at + needle.len() <= hay.len()
    &&& hay.subrange(at, at + needle.len()) == needle
}

/// Whether `needle` occurs somewhere in `hay`.
pub open spec fn has_substring(hay: Seq<char>, needle: Seq<char>) -> bool {
    exists|at: int| occurs_at(hay, needle, at)
}

/// Whether `at` is the leftmost position at which `needle` occurs in `hay`.
pub open spec fn first_occurrence(hay: Seq<char>, needle: Seq<char>, at: int) -> bool {
    &&& occurs_at(hay, needle, at)
    &&& forall|earlier: int| 0 <= earlier < at ==> !occurs_at(hay, needle, earlier)
}

/// The leftmost position at which `needle` occurs in `hay`. It means
/// something only where `needle` occurs at all.
pub open spec fn find(hay: Seq<char>, needle: Seq<char>) -> int {
    choose|at: int| first_occurrence(hay, needle, at)
}

/// The part of `s` before the leftmost occurrence of `delimiter`.
pub open spec fn before_first(s: Seq<char>, delimiter: Seq<char>) -> Seq<char> {
    s.subrange(0, find(s, delimiter))
}

/// The part of `s` behind the leftmost occurrence of `delimiter`.
pub open spec fn after_first(s: Seq<char>, delimiter: Seq<char>) -> Seq<char> {
    s.subrange(find(s, delimiter) + delimiter.len(), s.len() as int)
}

/// `str::trim`: the slice that is left when leading and trailing white
/// space, in the sense of the Unicode property `White_Space`, is removed.
#[verifier::external_body]
pub(crate) fn trim(s: &str) -> (r: &str)
    ensures
        r@ == trimmed(s@),
{
    s.trim()
}

/// `str::contains` with a string pattern: whether the pattern matches a
/// sub-slice of `hay`.
#[verifier::external_body]
pub(crate) fn contains(hay: &str, needle: &str) -> (r: bool)
    ensures
        r == has_substring(hay@, needle@),
{
    hay.contains(needle)
}

/// `str::split_once` with a string delimiter: the text before and the text
/// after the leftmost occurrence of the delimiter, or `None` where it does
/// not occur.
#[verifier::external_body]
pub(crate) fn split_once<'a>(s: &'a str, delimiter: &str) -> (r: Option<(&'a str, &'a str)>)
    ensures
        r is None <==> !has_substring(s@, delimiter@),
        r matches Some((before, after)) ==> {
            &&& first_occurrence(s@, delimiter@, before@.len() as int)
            &&& before@ == s@.subrange(0, before@.len() as int)
            &&& after@ == s@.subrange((before@.len() + delimiter@.len()) as int, s@.len() as int)
        },
{
    s.split_once(delimiter)
}

/// Equality of two string slices, `==` on `str`: the same characters in the
/// same order.
#[verifier::external_body]
pub(crate) fn same_text(a: &str, b: &str) -> (r: bool)
    ensures
        r == (a@ == b@),
{
    a == b
}

/// There is one leftmost occurrence at most, and [`find`] is it.
pub proof fn lemma_find_is_first(hay: Seq<char>, needle: Seq<char>, at: int)
    requires
        first_occurrence(hay, needle, at),
    ensures
        find(hay, needle) == at,
        has_substring(hay, needle),
{
    let found = find(hay, needle);
    assert(first_occurrence(hay, needle, found));
    if found < at {
        assert(!occurs_at(hay, needle, found));
    } else if at < found {
        assert(!occurs_at(hay, needle, at));
    }
}

/// Splits `s` at the leftmost occurrence of `delimiter`, which belongs to
/// neither part; `None` where the delimiter does not occur.
pub fn split_at_first(s: &str, delimiter: &str) -> (parts: Option<(String, String)>)
    ensures
        parts is Some <==> has_substring(s@, delimiter@),
        parts matches Some((before, after)) ==> before@ == before_first(s@, delimiter@) && after@
            == after_first(s@, delimiter@),
{
    match split_once(s, delimiter) {
        Some((before, after)) => {
            proof {
                lemma_find_is_first(s@, delimiter@, before@.len() as int);
            }
            Some((before.to_owned(), after.to_owned()))
        },
        None => None,
    }
}

/// A string is blank exactly when trimming leaves nothing of it.
pub proof fn lemma_blank_iff_trimmed_empty(s: Seq<char>)
    ensures
        is_blank(s) <==> trimmed(s).len() == 0,
{
    lemma_trim_start(s);
    lemma_trim_end(trim_start(s));
}

proof fn lemma_trim_start(s: Seq<char>)
    ensures
        trim_start(s).len() <= s.len(),
        trim_start(s) == s.subrange(s.len() - trim_start(s).len(), s.len() as int),
        forall|i: int| 0 <= i < s.len() - trim_start(s).len() ==> is_white_space(#[trigger] s[i]),
        trim_start(s).len() > 0 ==> !is_white_space(trim_start(s).first()),
    decreases s.len(),
{
    if s.len() > 0 && is_white_space(s.first()) {
        let t = s.drop_first();
        lemma_trim_start(t);
        let k = s.len() - trim_start(s).len();
        assert(trim_start(s) == s.subrange(k, s.len() as int));
        assert forall|i: int| 0 <= i < k implies is_white_space(#[trigger] s[i]) by {
            if i > 0 {
                assert(s[i] == t[i - 1]);
            }
        }
    } else {
        assert(s.subrange(0, s.len() as int) == s);
    }
}

proof fn lemma_trim_end(s: Seq<char>)
    ensures
        trim_end(s).len() <= s.len(),
        trim_end(s) == s.subrange(0, trim_end(s).len() as int),
        forall|i: int| trim_end(s).len() <= i < s.len() ==> is_white_space(#[trigger] s[i]),
        trim_end(s).len() > 0 ==> !is_white_space(trim_end(s).last()),
    decreases s.len(),
{
    if s.len() > 0 && is_white_space(s.last()) {
        let t = s.drop_last();
        lemma_trim_end(t);
        assert(trim_end(s) == s.subrange(0, trim_end(s).len() as int));
        assert forall|i: int| trim_end(s).len() <= i < s.len() implies is_white_space(
            #[trigger] s[i],
        ) by {
            if i < s.len() - 1 {
                assert(s[i] == t[i]);
            }
        }
    } else {
        assert(s.subrange(0, s.len() as int) == s);
    }
}

} // verus!
