//! Character-level helpers for the texts of a feed item.

use vstd::prelude::*;
use vstd::string::StringExecFns;

verus! {

/// `needle` occurs in `hay` as a run of consecutive characters.
pub open spec fn occurs_in(needle: Seq<char>, hay: Seq<char>) -> bool {
    exists|at: int| occurs_at(needle, hay, at)
}

/// `needle` occurs in `hay` starting at index `at`.
pub open spec fn occurs_at(needle: Seq<char>, hay: Seq<char>, at: int) -> bool {
    0 <= at && at + needle.len() <= hay.len() && hay.subrange(at, at + needle.len()) == needle
}

/// The text between the first `>` of `desc` and the next `<` after it. Without
/// a `>` there is no text; without a later `<` the text runs to the end.
pub open spec fn plain_text(desc: Seq<char>) -> Seq<char> {
    match desc.index_of_first('>') {
        None => Seq::empty(),
        Some(open) => {
            let rest = desc.skip(open + 1);
            match rest.index_of_first('<') {
                None => rest,
                Some(close) => rest.take(close),
            }
        },
    }
}

/// `at` is where `c` first occurs in `s`, or the length of `s` if it never does.
pub open spec fn first_at(s: Seq<char>, c: char, at: int) -> bool {
    &&& 0 <= at <= s.len()
    &&& forall|j: int| 0 <= j < at ==> s[j] != c
    &&& at < s.len() ==> s[at] == c
}

/// A position that `first_at` accepts is the one `index_of_first` names.
pub proof fn lemma_first_at(s: Seq<char>, c: char, at: int)
    requires
        first_at(s, c, at),
    ensures
        at < s.len() ==> s.index_of_first(c) == Some(at),
        at == s.len() ==> s.index_of_first(c) is None,
{
    s.index_of_first_ensures(c);
}

/// With `open` the first `>` and `close` the first `<` after it (or the end),
/// the plain text is what lies strictly between the two.
pub proof fn lemma_plain_text(desc: Seq<char>, open: int, close: int)
    requires
        first_at(desc, '>', open),
        open < desc.len(),
        open < close <= desc.len(),
        first_at(desc.skip(open + 1), '<', close - (open + 1)),
    ensures
        plain_text(desc) == desc.subrange(open + 1, close),
{
    let rest = desc.skip(open + 1);
    lemma_first_at(desc, '>', open);
    lemma_first_at(rest, '<', close - (open + 1));
}

/// The characters of `s`, in order.
pub fn chars_of(s: &str) -> (chars: Vec<char>)
    ensures
        chars@ == s@,
{
    let mut chars: Vec<char> = Vec::new();
    for c in it: s.chars()
        invariant
            it.seq() == s@,
            chars@ == s@.take(it.index() as int),
    {
        chars.push(c);
    }
    chars
}

/// Whether `needle` starts at index `at` of `hay`.
fn matches_at(hay: &Vec<char>, needle: &Vec<char>, at: usize) -> (hit: bool)
    requires
        at + needle@.len() <= hay@.len(),
    ensures
        hit == occurs_at(needle@, hay@, at as int),
{
    let mut k: usize = 0;
    while k < needle.len()
        invariant
            k <= needle@.len(),
            at + needle@.len() <= hay@.len() == hay.len(),
            forall|j: int| 0 <= j < k ==> hay@[at + j] == needle@[j],
        decreases needle@.len() - k,
    {
        if hay[at + k] != needle[k] {
            return false;
        }
        k += 1;
    }
    assert(hay@.subrange(at as int, at + needle@.len()) =~= needle@);
    true
}

/// Whether `needle` occurs in `hay`, compared character by character and
/// therefore case-sensitive. The empty text occurs in every text.
pub fn contains_text(hay: &str, needle: &str) -> (found: bool)
    ensures
        found == occurs_in(needle@, hay@),
{
    let hay_chars = chars_of(hay);
    let needle_chars = chars_of(needle);
    if needle_chars.len() > hay_chars.len() {
        return false;
    }
    let last: usize = hay_chars.len() - needle_chars.len();
    let mut at: usize = 0;
    loop
        invariant
            hay_chars@ == hay@,
            needle_chars@ == needle@,
            last + needle@.len() == hay@.len(),
            at <= last,
            forall|j: int| 0 <= j < at ==> !occurs_at(needle@, hay@, j),
        decreases last - at,
    {
        if matches_at(&hay_chars, &needle_chars, at) {
            return true;
        }
        if at == last {
            return false;
        }
        at += 1;
    }
}

/// The first index at or after `from` where `chars` holds `c`, or the length
/// of `chars` if no such index exists.
fn find_from(chars: &Vec<char>, from: usize, c: char) -> (at: usize)
    requires
        from <= chars@.len(),
    ensures
        from <= at <= chars@.len(),
        first_at(chars@.skip(from as int), c, at - from),
{
    let mut at: usize = from;
    while at < chars.len() && chars[at] != c
        invariant
            from <= at <= chars@.len(),
            forall|j: int| from <= j < at ==> chars@[j] != c,
        decreases chars@.len() - at,
    {
        at += 1;
    }
    at
}

/// Strips the markup from an item's description: keeps the text between the
/// first `>` and the next `<`, and nothing else. This is a single-segment
/// rule; text inside later tags is not collected.
pub fn parse_desc(desc: &str) -> (text: String)
    ensures
        text@ == plain_text(desc@),
{
    let chars = chars_of(desc);
    let open = find_from(&chars, 0, '>');
    assert(chars@.skip(0) =~= chars@);
    if open == chars.len() {
        proof {
            lemma_first_at(desc@, '>', open as int);
        }
        return String::new();
    }
    let close = find_from(&chars, open + 1, '<');
    proof {
        lemma_plain_text(desc@, open as int, close as int);
    }
    String::from_str(desc.substring_char(open + 1, close))
}

} // verus!
