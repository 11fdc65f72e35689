//! Short forms of longer texts.
use vstd::prelude::*;
use vstd::string::*;

use crate::text::{
    blank, chars_of, law_blank_is_all_white_space, trim, trimmed, white_space,
};

verus! {

broadcast use vstd::string::group_string_axioms;

// ---------------------------------------------------------------------------------------------
// Truncation
// ---------------------------------------------------------------------------------------------

/// `s` where it has at most `max` characters, and else as much of its start as leaves room for
/// three dots; only dots where there is room for nothing else.
pub open spec fn truncated(s: Seq<char>, max: nat) -> Seq<char> {
    if s.len() <= max {
        s
    } else if max <= 3 {
        Seq::new(max, |i: int| '.')
    } else {
        s.take(max - 3) + seq!['.', '.', '.']
    }
}

/// Cuts a text down to a number of characters, with dots for what is cut off.
pub fn truncate(s: &str, max_len: usize) -> (r: String)
    ensures
        r@ == truncated(s@, max_len as nat),
{
    if s.unicode_len() <= max_len {
        return s.to_owned();
    }
    let (kept, dots): (usize, usize) = if max_len <= 3 {
        (0, max_len)
    } else {
        (max_len - 3, 3)
    };
    let mut out: String = s.substring_char(0, kept).to_owned();
    let mut i: usize = 0;
    while i < dots
        invariant
            i <= dots,
            kept <= s@.len(),
            out@ == s@.subrange(0, kept as int) + Seq::new(i as nat, |k: int| '.'),
        decreases dots - i,
    {
        out.push('.');
        i = i + 1;
        assert(out@ =~= s@.subrange(0, kept as int) + Seq::new(i as nat, |k: int| '.'));
    }
    assert(out@ =~= truncated(s@, max_len as nat));
    out
}

/// A truncated text is no longer than asked for, and a text that fits is kept as it is.
pub proof fn law_truncated_fits(s: Seq<char>, max: nat)
    ensures
        truncated(s, max).len() <= max,
        truncated(s, max).len() == if s.len() <= max {
            s.len()
        } else {
            max
        },
        s.len() <= max ==> truncated(s, max) == s,
        truncated(truncated(s, max), max) == truncated(s, max),
{
}

// ---------------------------------------------------------------------------------------------
// Lines
// ---------------------------------------------------------------------------------------------

/// `out` with one more line. An empty line is left out.
pub open spec fn with_line(out: Seq<char>, line: Seq<char>) -> Seq<char> {
    if line.len() == 0 {
        out
    } else if out.len() == 0 {
        line
    } else {
        out.push('\n') + line
    }
}

/// Appends a line, unless it is empty.
pub fn push_line(out: &mut String, line: &str)
    ensures
        final(out)@ == with_line(old(out)@, line@),
{
    if line.is_empty() {
        return;
    }
    if !out.as_str().is_empty() {
        out.push('\n');
    }
    out.append(line);
    assert(out@ =~= with_line(old(out)@, line@));
}

/// The number of characters before the first line break, or of all where there is none.
pub open spec fn first_line_len(s: Seq<char>) -> nat
    decreases s.len(),
{
    if s.len() == 0 || s.first() == '\n' {
        0
    } else {
        1 + first_line_len(s.drop_first())
    }
}

/// The first line that is not blank, without the white space around it.
pub open spec fn first_text_line(s: Seq<char>) -> Option<Seq<char>>
    decreases s.len(),
    via first_text_line_decreases
{
    let n = first_line_len(s) as int;
    if !blank(s.take(n)) {
        Some(trimmed(s.take(n)))
    } else if n < s.len() {
        first_text_line(s.skip(n + 1))
    } else {
        None
    }
}

#[via_fn]
proof fn first_text_line_decreases(s: Seq<char>) {
    lemma_first_line_len(s);
}

proof fn lemma_first_line_len(s: Seq<char>)
    ensures
        first_line_len(s) <= s.len(),
    decreases s.len(),
{
    if s.len() > 0 {
        lemma_first_line_len(s.drop_first());
    }
}

/// How a waiting message is shown: its first line that says something, cut down to size.
pub open spec fn preview_of(text: Seq<char>, max: nat) -> Seq<char> {
    match first_text_line(text) {
        Some(line) => truncated(line, max),
        None => "(empty)"@,
    }
}

/// The end of the line that starts at `start`.
fn line_end(chars: &Vec<char>, start: usize) -> (end: usize)
    requires
        start <= chars@.len(),
    ensures
        end <= chars@.len(),
        end == start + first_line_len(chars@.skip(start as int)),
{
    let mut end: usize = start;
    while end < chars.len() && chars[end] != '\n'
        invariant
            start <= end <= chars@.len(),
            first_line_len(chars@.skip(start as int)) == (end - start) + first_line_len(
                chars@.skip(end as int),
            ),
        decreases chars@.len() - end,
    {
        assert(chars@.skip(end as int).drop_first() =~= chars@.skip(end + 1));
        end = end + 1;
    }
    end
}

/// Shows a waiting message in at most `max_len` characters.
pub fn queued_message_preview(text: &str, max_len: usize) -> (r: String)
    ensures
        r@ == preview_of(text@, max_len as nat),
{
    let chars: Vec<char> = chars_of(text);
    let mut start: usize = 0;
    assert(text@.skip(0) =~= text@);
    loop
        invariant
            chars@ == text@,
            start <= chars@.len(),
            first_text_line(text@) == first_text_line(text@.skip(start as int)),
        decreases chars@.len() - start,
    {
        let end: usize = line_end(&chars, start);
        let ghost rest = text@.skip(start as int);
        assert(text@.subrange(start as int, end as int) =~= rest.take(end - start));
        let line: &str = trim(text.substring_char(start, end));
        if !line.is_empty() {
            return truncate(line, max_len);
        }
        if end == chars.len() {
            return "(empty)".to_owned();
        }
        assert(rest.skip(end - start + 1) =~= text@.skip(end + 1));
        start = end + 1;
    }
}

/// A text that is too long keeps its start and ends in three dots, and is nothing but dots where
/// there is no room for more.
pub proof fn law_truncated_ends_in_dots(s: Seq<char>, max: nat, i: int)
    requires
        s.len() > max,
        0 <= i < max,
    ensures
        i < max - 3 ==> truncated(s, max)[i] == s[i],
        i >= max - 3 ==> truncated(s, max)[i] == '.',
{
}

/// A line goes below others behind a line feed. An empty line goes nowhere, and the first line
/// needs no line feed.
pub proof fn law_lines_go_below(lines: Seq<char>, line: Seq<char>)
    ensures
        line.len() == 0 ==> with_line(lines, line) == lines,
        lines.len() == 0 ==> with_line(lines, line) == line,
        line.len() > 0 && lines.len() > 0 ==> with_line(lines, line) == lines + seq!['\n'] + line,
{
    assert(lines.push('\n') + line =~= lines + seq!['\n'] + line);
    assert(line.len() == 0 && lines.len() == 0 ==> lines =~= line);
}

/// The first line that says something is the one that is shown: a first line that is not blank is
/// it, whatever follows, and a blank first line is passed over. Without such a line there is none.
pub proof fn law_first_line_that_says_something(line: Seq<char>, rest: Seq<char>)
    requires
        forall|i: int| 0 <= i < line.len() ==> line[i] != '\n',
    ensures
        (exists|i: int| 0 <= i < line.len() && !white_space(line[i])) ==> first_text_line(
            line + seq!['\n'] + rest,
        ) == Some(trimmed(line)) && first_text_line(line) == Some(trimmed(line)),
        (forall|i: int| 0 <= i < line.len() ==> white_space(line[i])) ==> first_text_line(
            line + seq!['\n'] + rest,
        ) == first_text_line(rest) && first_text_line(line) is None,
{
    let whole = line + seq!['\n'] + rest;
    law_blank_is_all_white_space(line);
    lemma_line_before_feed(line, rest);
    lemma_line_alone(line);
    assert(whole.take(line.len() as int) =~= line);
    assert(line.take(line.len() as int) =~= line);
    assert(whole.skip(line.len() as int + 1) =~= rest);
}

proof fn lemma_line_before_feed(line: Seq<char>, rest: Seq<char>)
    requires
        forall|i: int| 0 <= i < line.len() ==> line[i] != '\n',
    ensures
        first_line_len(line + seq!['\n'] + rest) == line.len(),
    decreases line.len(),
{
    let whole = line + seq!['\n'] + rest;
    if line.len() > 0 {
        lemma_line_before_feed(line.drop_first(), rest);
        assert(whole.drop_first() =~= line.drop_first() + seq!['\n'] + rest);
        assert(whole.first() == line[0]);
    } else {
        assert(whole.first() == '\n');
    }
}

proof fn lemma_line_alone(line: Seq<char>)
    requires
        forall|i: int| 0 <= i < line.len() ==> line[i] != '\n',
    ensures
        first_line_len(line) == line.len(),
    decreases line.len(),
{
    if line.len() > 0 {
        lemma_line_alone(line.drop_first());
    }
}

/// A waiting message is shown by that line, cut down to size, and as empty without one.
pub proof fn law_preview_shows_that_line(text: Seq<char>, max: nat)
    ensures
        first_text_line(text) matches Some(line) ==> preview_of(text, max) == truncated(line, max),
        first_text_line(text) is None ==> preview_of(text, max) == "(empty)"@,
{
}

} // verus!
