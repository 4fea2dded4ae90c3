//! Character sequences: substring search and splitting into lines.
//!
//! The contracts speak of `Seq<char>`; the executable functions work on
//! slices of `char` and on `String`.

use vstd::prelude::*;

verus! {

/// `String::push` appends the character to the end of the string.
pub assume_specification[ String::push ](s: &mut String, ch: char)
    ensures
        final(s)@ == old(s)@.push(ch),
;

/// `needle` stands in `hay` at offset `at`.
pub open spec fn occurs_at(needle: Seq<char>, hay: Seq<char>, at: int) -> bool {
    &&& 0 <= at
    &&& at + needle.len() <= hay.len()
    &&& hay.subrange(at, at + needle.len()) == needle
}

/// `needle` is a contiguous part of `hay`.
pub open spec fn occurs_in(needle: Seq<char>, hay: Seq<char>) -> bool {
    exists|at: int| occurs_at(needle, hay, at)
}

/// The characters of `text`, in order.
pub fn chars_of(text: &str) -> (chars: Vec<char>)
    ensures
        chars@ == text@,
{
    let mut chars: Vec<char> = Vec::new();
    for c in it: text.chars()
        invariant
            it.seq() == text@,
            chars@ == it.seq().take(it.index()),
    {
        chars.push(c);
    }
    chars
}

/// Whether `needle` stands in `hay` at offset `at`.
pub fn matches_at(needle: &[char], hay: &[char], at: usize) -> (found: bool)
    ensures
        found == occurs_at(needle@, hay@, at as int),
{
    if needle.len() > hay.len() || at > hay.len() - needle.len() {
        return false;
    }
    let mut k: usize = 0;
    while k < needle.len()
        invariant
            k <= needle.len(),
            at + needle.len() <= hay.len(),
            forall|j: int| 0 <= j < k ==> hay[at + j] == needle[j],
        decreases needle.len() - k,
    {
        if hay[at + k] != needle[k] {
            proof {
                assert(hay@.subrange(at as int, at + needle.len())[k as int] == hay[at + k]);
            }
            return false;
        }
        k += 1;
    }
    proof {
        assert(hay@.subrange(at as int, at + needle.len()) =~= needle@);
    }
    true
}

/// Whether `needle` is a contiguous part of `hay`.
pub fn contains(hay: &[char], needle: &[char]) -> (found: bool)
    ensures
        found == occurs_in(needle@, hay@),
{
    if needle.len() > hay.len() {
        return false;
    }
    let last: usize = hay.len() - needle.len();
    let mut at: usize = 0;
    loop
        invariant
            last == hay.len() - needle.len(),
            at <= last,
            forall|i: int| 0 <= i < at ==> !occurs_at(needle@, hay@, i),
        decreases last - at,
    {
        if matches_at(needle, hay, at) {
            return true;
        }
        if at == last {
            return false;
        }
        at += 1;
    }
}

/// The length of the part of `text` before its first line feed: the whole
/// length where it holds none.
pub open spec fn first_line_len(text: Seq<char>) -> int
    decreases text.len(),
{
    if text.len() == 0 || text[0] == '\n' {
        0
    } else {
        1 + first_line_len(text.skip(1))
    }
}

/// `line` without the carriage return that it ends with, if it ends with one.
pub open spec fn without_carriage_return(line: Seq<char>) -> Seq<char> {
    if line.len() > 0 && line.last() == '\r' {
        line.drop_last()
    } else {
        line
    }
}

/// The lines of `text`.
///
/// A line ends at a line feed, or at the end of the text. The line feed is
/// not part of the line, nor is a carriage return that stands directly before
/// it. Text after the last line feed is a line of its own unless it is empty,
/// and is kept as it is.
pub open spec fn lines_of(text: Seq<char>) -> Seq<Seq<char>>
    decreases text.len(),
{
    let len = first_line_len(text);
    if text.len() == 0 {
        Seq::empty()
    } else if 0 <= len < text.len() {
        seq![without_carriage_return(text.take(len))] + lines_of(text.skip(len + 1))
    } else {
        seq![text]
    }
}

/// `first_line_len` is the one offset that has no line feed before it and
/// stands at a line feed or at the end.
pub proof fn lemma_first_line_len(text: Seq<char>, len: int)
    requires
        0 <= len <= text.len(),
        forall|i: int| 0 <= i < len ==> text[i] != '\n',
        len < text.len() ==> text[len] == '\n',
    ensures
        first_line_len(text) == len,
    decreases text.len(),
{
    if len > 0 {
        lemma_first_line_len(text.skip(1), len - 1);
    }
}

/// The views of the lines held in `lines`.
pub open spec fn line_views(lines: Seq<Vec<char>>) -> Seq<Seq<char>> {
    lines.map_values(|line: Vec<char>| line@)
}

/// A copy of `text[from..to]`.
pub fn copy_range(text: &[char], from: usize, to: usize) -> (part: Vec<char>)
    requires
        from <= to <= text.len(),
    ensures
        part@ == text@.subrange(from as int, to as int),
{
    let mut part: Vec<char> = Vec::new();
    let mut i: usize = from;
    while i < to
        invariant
            from <= i <= to <= text.len(),
            part@ == text@.subrange(from as int, i as int),
        decreases to - i,
    {
        part.push(text[i]);
        i += 1;
    }
    part
}

/// Splits `text` into its lines.
pub fn split_lines(text: &[char]) -> (lines: Vec<Vec<char>>)
    ensures
        line_views(lines@) == lines_of(text@),
{
    let mut lines: Vec<Vec<char>> = Vec::new();
    let mut start: usize = 0;
    proof {
        assert(text@.skip(0) == text@);
        assert(line_views(lines@) + lines_of(text@) == lines_of(text@));
    }
    while start < text.len()
        invariant
            start <= text.len(),
            lines_of(text@) == line_views(lines@) + lines_of(text@.skip(start as int)),
        decreases text.len() - start,
    {
        let ghost rest = text@.skip(start as int);
        let mut end: usize = start;
        while end < text.len() && text[end] != '\n'
            invariant
                start <= end <= text.len(),
                forall|i: int| start <= i < end ==> text[i] != '\n',
            decreases text.len() - end,
        {
            end += 1;
        }
        proof {
            lemma_first_line_len(rest, end - start);
        }
        let ghost done = line_views(lines@);
        if end < text.len() {
            let stop: usize = if end > start && text[end - 1] == '\r' {
                end - 1
            } else {
                end
            };
            let line = copy_range(text, start, stop);
            proof {
                assert(rest.take(end - start) == text@.subrange(start as int, end as int));
                assert(line@ == without_carriage_return(rest.take(end - start)));
                assert(rest.skip(end - start + 1) == text@.skip(end + 1));
                assert(line_views(lines@.push(line)) == done.push(line@));
            }
            lines.push(line);
            start = end + 1;
        } else {
            let line = copy_range(text, start, end);
            proof {
                assert(line@ == rest);
                assert(text@.skip(end as int).len() == 0);
                assert(line_views(lines@.push(line)) == done.push(line@));
            }
            lines.push(line);
            start = end;
        }
    }
    proof {
        assert(text@.skip(start as int).len() == 0);
    }
    lines
}

/// The text made of `lines`, each with a line feed behind it.
pub open spec fn joined_lines(lines: Seq<Seq<char>>) -> Seq<char>
    decreases lines.len(),
{
    if lines.len() == 0 {
        Seq::empty()
    } else {
        joined_lines(lines.drop_last()) + lines.last().push('\n')
    }
}

/// A line that splitting gives back unchanged: it holds no line feed and
/// does not end with a carriage return.
pub open spec fn is_plain_line(line: Seq<char>) -> bool {
    &&& forall|i: int| 0 <= i < line.len() ==> line[i] != '\n'
    &&& line.len() > 0 ==> line.last() != '\r'
}

/// Joining puts the first line, with its line feed, before the others.
pub proof fn lemma_joined_lines_first(lines: Seq<Seq<char>>)
    requires
        lines.len() > 0,
    ensures
        joined_lines(lines) == lines.first().push('\n') + joined_lines(lines.drop_first()),
    decreases lines.len(),
{
    if lines.len() == 1 {
        assert(lines.drop_last().len() == 0);
        assert(lines.drop_first().len() == 0);
        assert(lines.last() == lines.first());
        assert(joined_lines(lines.drop_last()) == Seq::<char>::empty());
        assert(joined_lines(lines.drop_first()) == Seq::<char>::empty());
        assert(joined_lines(lines) =~= lines.first().push('\n') + joined_lines(
            lines.drop_first(),
        ));
    } else {
        let front = lines.drop_last();
        lemma_joined_lines_first(front);
        assert(front.drop_first() == lines.drop_first().drop_last());
        assert(front.first() == lines.first());
        assert(lines.drop_first().last() == lines.last());
        assert(joined_lines(lines) =~= lines.first().push('\n') + joined_lines(
            lines.drop_first(),
        ));
    }
}

/// Splitting the text joined from plain lines gives the lines back.
pub proof fn lemma_lines_of_joined_lines(lines: Seq<Seq<char>>)
    requires
        forall|i: int| 0 <= i < lines.len() ==> is_plain_line(#[trigger] lines[i]),
    ensures
        lines_of(joined_lines(lines)) == lines,
    decreases lines.len(),
{
    if lines.len() > 0 {
        let first = lines.first();
        let rest = lines.drop_first();
        let text = joined_lines(lines);
        lemma_joined_lines_first(lines);
        assert(is_plain_line(lines[0]));
        assert forall|i: int| 0 <= i < rest.len() implies is_plain_line(#[trigger] rest[i]) by {
            assert(rest[i] == lines[i + 1]);
        }
        lemma_lines_of_joined_lines(rest);
        lemma_first_line_len(text, first.len() as int);
        assert(text.take(first.len() as int) == first);
        assert(text.skip(first.len() as int + 1) == joined_lines(rest));
        assert(lines == seq![first] + rest);
    }
}

} // verus!
