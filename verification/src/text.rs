//! Searching and trimming of text, stated over sequences of characters.

use vstd::prelude::*;
use vstd::slice::slice_subrange;
use vstd::string::StringExecFns;

verus! {

/// `pat` stands in `s` at position `i`.
pub open spec fn occurs_at(s: Seq<char>, pat: Seq<char>, i: int) -> bool {
    0 <= i && i + pat.len() <= s.len() && s.subrange(i, i + pat.len()) == pat
}

/// The first position at or after `from` where `pat` stands in `s`.
pub open spec fn first_match_from(s: Seq<char>, pat: Seq<char>, from: int) -> Option<int>
    decreases s.len() + 1 - from,
{
    if from < 0 || from + pat.len() > s.len() {
        None
    } else if occurs_at(s, pat, from) {
        Some(from)
    } else {
        first_match_from(s, pat, from + 1)
    }
}

/// The first position where `pat` stands in `s`.
pub open spec fn first_match(s: Seq<char>, pat: Seq<char>) -> Option<int> {
    first_match_from(s, pat, 0)
}

/// `pat` stands somewhere in `s`.
pub open spec fn contains_text(s: Seq<char>, pat: Seq<char>) -> bool {
    first_match(s, pat) is Some
}

/// What precedes the first `pat` in `s`; all of `s` where there is none.
pub open spec fn before_first(s: Seq<char>, pat: Seq<char>) -> Seq<char> {
    match first_match(s, pat) {
        Some(i) => s.subrange(0, i),
        None => s,
    }
}

/// What follows the first `pat` in `s`, where there is one.
pub open spec fn after_first(s: Seq<char>, pat: Seq<char>) -> Option<Seq<char>> {
    match first_match(s, pat) {
        Some(i) => Some(s.subrange(i + pat.len(), s.len() as int)),
        None => None,
    }
}

/// `s` without the run of `c` it starts with.
pub open spec fn trim_leading(s: Seq<char>, c: char) -> Seq<char>
    decreases s.len(),
{
    if s.len() > 0 && s[0] == c {
        trim_leading(s.drop_first(), c)
    } else {
        s
    }
}

/// The position of the first line feed at or after `from`; the length of `s`
/// where none is left.
pub open spec fn line_break_from(s: Seq<char>, from: int) -> int
    decreases s.len() - from,
{
    if from < 0 || from >= s.len() {
        s.len() as int
    } else if s[from] == '\n' {
        from
    } else {
        line_break_from(s, from + 1)
    }
}

/// Where the line that starts at `start` ends: before its line feed, and before
/// the carriage return that directly precedes that line feed.
pub open spec fn line_content_end(s: Seq<char>, start: int) -> int {
    let stop = line_break_from(s, start);
    if stop < s.len() && start < stop && s[stop - 1] == '\r' {
        stop - 1
    } else {
        stop
    }
}

/// The line of `s` that starts at `start`, without its terminator.
pub open spec fn line_from(s: Seq<char>, start: int) -> Seq<char> {
    s.subrange(start, line_content_end(s, start))
}

/// The first line of `s`, among those that start at or after `start`, in which
/// `pat` stands.
pub open spec fn first_line_with(s: Seq<char>, pat: Seq<char>, start: int) -> Option<Seq<char>>
    decreases s.len() + 1 - start,
    via first_line_with_terminates
{
    if start < 0 || start >= s.len() {
        None
    } else if contains_text(line_from(s, start), pat) {
        Some(line_from(s, start))
    } else {
        first_line_with(s, pat, line_break_from(s, start) + 1)
    }
}

/// The search moves on by at least one character with every line.
#[via_fn]
proof fn first_line_with_terminates(s: Seq<char>, pat: Seq<char>, start: int) {
    if 0 <= start < s.len() {
        lemma_line_break_from(s, start);
    }
}

/// `line_break_from` finds the nearest line feed.
pub proof fn lemma_line_break_from(s: Seq<char>, from: int)
    requires
        0 <= from <= s.len(),
    ensures
        from <= line_break_from(s, from) <= s.len(),
        line_break_from(s, from) < s.len() ==> s[line_break_from(s, from)] == '\n',
        forall|j: int| from <= j < line_break_from(s, from) ==> s[j] != '\n',
    decreases s.len() - from,
{
    if from < s.len() && s[from] != '\n' {
        lemma_line_break_from(s, from + 1);
    }
}

/// `first_match_from` finds the least position, and finds one whenever there is
/// a match.
pub proof fn lemma_first_match_from(s: Seq<char>, pat: Seq<char>, from: int)
    requires
        0 <= from,
    ensures
        match first_match_from(s, pat, from) {
            Some(i) => from <= i && occurs_at(s, pat, i) && forall|j: int|
                from <= j < i ==> !occurs_at(s, pat, j),
            None => forall|j: int| from <= j ==> !occurs_at(s, pat, j),
        },
    decreases s.len() + 1 - from,
{
    if from + pat.len() <= s.len() && !occurs_at(s, pat, from) {
        lemma_first_match_from(s, pat, from + 1);
    }
}

/// The run of `c` that `s` starts with has length `k`.
pub open spec fn leading_run(s: Seq<char>, c: char, k: int) -> bool {
    &&& 0 <= k <= s.len()
    &&& forall|j: int| 0 <= j < k ==> s[j] == c
    &&& k < s.len() ==> s[k] != c
}

/// Trimming removes exactly the leading run.
pub proof fn lemma_trim_leading(s: Seq<char>, c: char, k: int)
    requires
        leading_run(s, c, k),
    ensures
        trim_leading(s, c) == s.subrange(k, s.len() as int),
    decreases k,
{
    if k > 0 {
        lemma_trim_leading(s.drop_first(), c, k - 1);
    }
}

/// The characters of a string, in order.
pub fn chars_of(s: &str) -> (v: Vec<char>)
    ensures
        v@ == s@,
{
    let mut v: Vec<char> = Vec::new();
    let chars = s.chars();
    for c in it: chars
        invariant
            it.seq() == s@,
            v@ == s@.subrange(0, it.index()),
    {
        v.push(c);
    }
    v
}

/// The view of an optional text.
pub open spec fn text_of(s: Option<String>) -> Option<Seq<char>> {
    match s {
        Some(t) => Some(t@),
        None => None,
    }
}

/// A copy of an optional text.
pub fn copy_text(s: &Option<String>) -> (r: Option<String>)
    ensures
        text_of(r) == text_of(*s),
{
    match s {
        Some(t) => Some(t.clone()),
        None => None,
    }
}

/// `head` followed by `tail`.
pub fn joined(head: &str, tail: &str) -> (r: String)
    ensures
        r@ == head@ + tail@,
{
    head.to_owned().concat(tail)
}

/// Whether `pat` stands in `s` at position `i`.
pub fn matches_at(s: &[char], pat: &[char], i: usize) -> (r: bool)
    ensures
        r == occurs_at(s@, pat@, i as int),
{
    let len = s.len();
    if i > len || pat.len() > len - i {
        return false;
    }
    let mut k: usize = 0;
    while k < pat.len()
        invariant
            k <= pat@.len(),
            i + pat@.len() <= s@.len() == len,
            forall|j: int| 0 <= j < k ==> s@[i + j] == pat@[j],
        decreases pat@.len() - k,
    {
        if s[i + k] != pat[k] {
            return false;
        }
        k += 1;
    }
    assert(s@.subrange(i as int, i + pat@.len()) =~= pat@);
    true
}

/// The first position where `pat` stands in `s`.
pub fn find_first(s: &[char], pat: &[char]) -> (r: Option<usize>)
    ensures
        match r {
            Some(i) => first_match(s@, pat@) == Some(i as int) && i + pat@.len() <= s@.len(),
            None => first_match(s@, pat@) is None,
        },
{
    if pat.len() > s.len() {
        return None;
    }
    let last: usize = s.len() - pat.len();
    let mut i: usize = 0;
    while i < last
        invariant
            i <= last,
            last + pat@.len() == s@.len(),
            first_match(s@, pat@) == first_match_from(s@, pat@, i as int),
        decreases last - i,
    {
        if matches_at(s, pat, i) {
            return Some(i);
        }
        i += 1;
    }
    if matches_at(s, pat, last) {
        Some(last)
    } else {
        assert(first_match_from(s@, pat@, last + 1) is None);
        None
    }
}

/// Whether `s` ends with `suffix`.
pub fn ends_with(s: &str, suffix: &str) -> (r: bool)
    ensures
        r == suffix@.is_suffix_of(s@),
{
    let text = chars_of(s);
    let tail = chars_of(suffix);
    if tail.len() > text.len() {
        return false;
    }
    let at: usize = text.len() - tail.len();
    matches_at(text.as_slice(), tail.as_slice(), at)
}

/// Whether the last character of `s` is `c`.
pub fn ends_with_char(s: &str, c: char) -> (r: bool)
    ensures
        r == (s@.len() > 0 && s@.last() == c),
{
    let text = chars_of(s);
    text.len() > 0 && text[text.len() - 1] == c
}

/// Whether two strings hold the same text.
pub fn same_text(a: &str, b: &str) -> (r: bool)
    ensures
        r == (a@ == b@),
{
    let x = chars_of(a);
    let y = chars_of(b);
    if x.len() != y.len() {
        return false;
    }
    let r = matches_at(x.as_slice(), y.as_slice(), 0);
    assert(x@.subrange(0, x@.len() as int) =~= x@);
    r
}

/// `s` without the run of `c` it starts with.
pub fn trim_start(s: &str, c: char) -> (r: String)
    ensures
        r@ == trim_leading(s@, c),
{
    let text = chars_of(s);
    let mut k: usize = 0;
    while k < text.len() && text[k] == c
        invariant
            k <= text@.len(),
            forall|j: int| 0 <= j < k ==> text@[j] == c,
        decreases text@.len() - k,
    {
        k += 1;
    }
    proof {
        lemma_trim_leading(s@, c, k as int);
    }
    s.substring_char(k, text.len()).to_owned()
}

/// Where the line that starts at `start` breaks: at its line feed, or at the
/// end of `s`.
pub fn find_line_break(s: &[char], start: usize) -> (r: usize)
    ensures
        r == line_break_from(s@, start as int),
        start <= s@.len() ==> start <= r <= s@.len(),
{
    if start > s.len() {
        return s.len();
    }
    let mut i: usize = start;
    while i < s.len() && s[i] != '\n'
        invariant
            start <= i <= s@.len(),
            line_break_from(s@, start as int) == line_break_from(s@, i as int),
        decreases s@.len() - i,
    {
        i += 1;
    }
    i
}

/// A stretch of a text: the characters from `start` up to `end`.
#[derive(Clone, Copy, Debug, PartialEq, Eq)]
pub struct Span {
    pub start: usize,
    pub end: usize,
}

impl Span {
    /// The stretch lies within a text of `len` characters.
    pub open spec fn within(self, len: nat) -> bool {
        self.start <= self.end <= len
    }

    /// The characters of `s` that the stretch covers.
    pub open spec fn of(self, s: Seq<char>) -> Seq<char> {
        s.subrange(self.start as int, self.end as int)
    }
}

/// The first line of `s` in which `pat` stands.
pub fn find_line_with(s: &[char], pat: &[char]) -> (r: Option<Span>)
    ensures
        match r {
            Some(span) => span.within(s@.len()) && first_line_with(s@, pat@, 0) == Some(
                span.of(s@),
            ),
            None => first_line_with(s@, pat@, 0) is None,
        },
{
    let mut start: usize = 0;
    while start < s.len()
        invariant
            start <= s@.len(),
            first_line_with(s@, pat@, 0) == first_line_with(s@, pat@, start as int),
        decreases s@.len() - start,
    {
        let stop = find_line_break(s, start);
        let end: usize = if stop < s.len() && start < stop && s[stop - 1] == '\r' {
            stop - 1
        } else {
            stop
        };
        let line = slice_subrange(s, start, end);
        if find_first(line, pat).is_some() {
            return Some(Span { start, end });
        }
        if stop == s.len() {
            assert(first_line_with(s@, pat@, stop + 1) is None);
            return None;
        }
        start = stop + 1;
    }
    None
}

} // verus!
