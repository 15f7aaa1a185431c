//! The line search: which lines of a text hold a query.

use vstd::prelude::*;
use vstd::std_specs::iter::IteratorSpec;

verus! {

/// `line` without the carriage return at its end, if it has one.
pub open spec fn without_return(line: Seq<char>) -> Seq<char> {
    if line.len() > 0 && line.last() == '\r' {
        line.drop_last()
    } else {
        line
    }
}

/// The lines of `text` from `start` on, where no line feed stands in
/// `start..pos`. A line ends at a line feed; the line feed, and a carriage
/// return just before it, are not part of the line. What follows the last line
/// feed is a line too, unless it is empty.
pub open spec fn lines_scan(text: Seq<char>, start: int, pos: int) -> Seq<Seq<char>>
    decreases text.len() - pos,
{
    if pos < 0 || pos >= text.len() {
        if 0 <= start < text.len() {
            seq![text.subrange(start, text.len() as int)]
        } else {
            Seq::empty()
        }
    } else if text[pos] == '\n' {
        seq![without_return(text.subrange(start, pos))] + lines_scan(text, pos + 1, pos + 1)
    } else {
        lines_scan(text, start, pos + 1)
    }
}

/// The lines of `text`.
pub open spec fn lines(text: Seq<char>) -> Seq<Seq<char>> {
    lines_scan(text, 0, 0)
}

/// `query` stands in `line` at position `at`.
pub open spec fn occurs_at(line: Seq<char>, query: Seq<char>, at: int) -> bool {
    &&& 0 <= at
    &&& at + query.len() <= line.len()
    &&& line.subrange(at, at + query.len()) == query
}

/// `query` stands somewhere in `line`. The empty query stands in every line.
pub open spec fn has_substring(line: Seq<char>, query: Seq<char>) -> bool {
    exists|at: int| occurs_at(line, query, at)
}

/// The lines of `text` that hold `query`, in their order.
pub open spec fn matching_lines(query: Seq<char>, text: Seq<char>) -> Seq<Seq<char>> {
    lines(text).filter(|line: Seq<char>| has_substring(line, query))
}

/// What each of the string slices holds.
pub open spec fn contents_of(found: Seq<&str>) -> Seq<Seq<char>> {
    Seq::new(found.len(), |i: int| found[i]@)
}

/// The characters of `s`.
fn chars_of(s: &str) -> (v: Vec<char>)
    ensures
        v@ == s@,
{
    let mut v: Vec<char> = Vec::new();
    let mut it = s.chars();
    loop
        invariant
            it.obeys_prophetic_iter_laws(),
            it.decrease() is Some,
            v@ + it.remaining() == s@,
        ensures
            v@ == s@,
        decreases it.decrease()->0,
    {
        let ghost before = it.remaining();
        match it.next() {
            Some(c) => {
                v.push(c);
                assert(v@ + it.remaining() =~= (v@.drop_last() + before));
            },
            None => {
                assert(v@ + it.remaining() =~= v@);
                break ;
            },
        }
    }
    v
}

/// Whether `pattern` stands in `text[start..end]` at position `at` of that
/// range.
fn stands_at(text: &Vec<char>, start: usize, end: usize, pattern: &Vec<char>, at: usize) -> (r:
    bool)
    requires
        start <= end <= text@.len(),
        at + pattern@.len() <= end - start,
    ensures
        r == occurs_at(text@.subrange(start as int, end as int), pattern@, at as int),
{
    let ghost line = text@.subrange(start as int, end as int);
    let mut k: usize = 0;
    while k < pattern.len()
        invariant
            start <= end <= text@.len(),
            at + pattern@.len() <= end - start,
            line == text@.subrange(start as int, end as int),
            k <= pattern@.len(),
            forall|j: int| 0 <= j < k ==> line[at + j] == pattern@[j],
        decreases pattern@.len() - k,
    {
        if text[start + at + k] != pattern[k] {
            assert(line[at + k] != pattern@[k as int]);
            assert(line.subrange(at as int, at + pattern@.len())[k as int] == line[at + k]);
            return false;
        }
        k = k + 1;
    }
    assert(line.subrange(at as int, at + pattern@.len()) =~= pattern@);
    true
}

/// Whether `pattern` stands somewhere in `text[start..end]`.
fn stands_in(text: &Vec<char>, start: usize, end: usize, pattern: &Vec<char>) -> (r: bool)
    requires
        start <= end <= text@.len(),
    ensures
        r == has_substring(text@.subrange(start as int, end as int), pattern@),
{
    let ghost line = text@.subrange(start as int, end as int);
    if pattern.len() > end - start {
        return false;
    }
    let last = end - start - pattern.len();
    let mut at: usize = 0;
    while at < last
        invariant
            start <= end <= text@.len(),
            line == text@.subrange(start as int, end as int),
            last == end - start - pattern@.len(),
            at <= last,
            forall|i: int| 0 <= i < at ==> !occurs_at(line, pattern@, i),
        decreases last - at,
    {
        if stands_at(text, start, end, pattern, at) {
            return true;
        }
        at = at + 1;
    }
    stands_at(text, start, end, pattern, last)
}

/// The lines of `contents` that hold `query`, in their order. Each line is
/// handed out without its line ending.
pub fn search<'a>(query: &str, contents: &'a str) -> (found: Vec<&'a str>)
    ensures
        contents_of(found@) == matching_lines(query@, contents@),
{
    let text = chars_of(contents);
    let pattern = chars_of(query);
    let ghost holds = |line: Seq<char>| has_substring(line, query@);
    let ghost mut done: Seq<Seq<char>> = Seq::empty();
    let mut found: Vec<&'a str> = Vec::new();
    let mut start: usize = 0;
    let mut pos: usize = 0;
    proof {
        reveal(Seq::filter);
        assert(done + lines_scan(text@, 0, 0) =~= lines(text@));
        assert(contents_of(found@) =~= done.filter(holds));
    }
    while pos < text.len()
        invariant
            text@ == contents@,
            pattern@ == query@,
            holds == |line: Seq<char>| has_substring(line, query@),
            start <= pos <= text@.len(),
            lines(text@) == done + lines_scan(text@, start as int, pos as int),
            contents_of(found@) == done.filter(holds),
        decreases text@.len() - pos,
    {
        if text[pos] == '\n' {
            let end = if pos > start && text[pos - 1] == '\r' {
                pos - 1
            } else {
                pos
            };
            let ghost line = text@.subrange(start as int, end as int);
            let ghost rest = lines_scan(text@, pos + 1, pos + 1);
            proof {
                let whole = text@.subrange(start as int, pos as int);
                if pos > start && text@[pos - 1] == '\r' {
                    assert(whole.last() == '\r');
                    assert(whole.drop_last() =~= line);
                } else {
                    assert(whole =~= line);
                }
                assert(without_return(whole) == line);
                assert(lines_scan(text@, start as int, pos as int) == seq![line] + rest);
                assert(done + (seq![line] + rest) =~= done.push(line) + rest);
                reveal(Seq::filter);
                assert(done.push(line).drop_last() =~= done);
            }
            if stands_in(&text, start, end, &pattern) {
                let ghost before = found@;
                found.push(contents.substring_char(start, end));
                assert(contents_of(found@) =~= contents_of(before).push(line));
            }
            proof {
                done = done.push(line);
            }
            start = pos + 1;
        }
        pos = pos + 1;
    }
    if start < text.len() {
        let ghost line = text@.subrange(start as int, text@.len() as int);
        proof {
            assert(lines_scan(text@, start as int, pos as int) == seq![line]);
            assert(done + seq![line] =~= done.push(line));
            reveal(Seq::filter);
            assert(done.push(line).drop_last() =~= done);
        }
        if stands_in(&text, start, text.len(), &pattern) {
            let ghost before = found@;
            found.push(contents.substring_char(start, text.len()));
            assert(contents_of(found@) =~= contents_of(before).push(line));
        }
    } else {
        assert(done + lines_scan(text@, start as int, pos as int) =~= done);
    }
    found
}

} // verus!
