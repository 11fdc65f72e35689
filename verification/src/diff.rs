//! The lines of a diff.
use vstd::prelude::*;
use vstd::string::*;

use crate::text::is_digit;

verus! {

broadcast use vstd::string::group_string_axioms;

/// The number of characters before the first that is not a blank.
pub open spec fn blanks_len(s: Seq<char>) -> nat
    decreases s.len(),
{
    if s.len() > 0 && s.first() == ' ' {
        1 + blanks_len(s.drop_first())
    } else {
        0
    }
}

/// The number of characters before the first that is not a digit.
pub open spec fn digits_len(s: Seq<char>) -> nat
    decreases s.len(),
{
    if s.len() > 0 && is_digit(s.first()) {
        1 + digits_len(s.drop_first())
    } else {
        0
    }
}

/// How much of a line comes before its text: the sign, blanks, the number of the line, and one
/// blank.
pub open spec fn diff_prefix_len(line: Seq<char>) -> int {
    if line.len() == 0 {
        0
    } else {
        let number = 1 + blanks_len(line.skip(1)) as int;
        let end = number + digits_len(line.skip(number)) as int;
        if end < line.len() && line[end] == ' ' {
            end + 1
        } else {
            end
        }
    }
}

/// Splits a line of a diff into what comes before its text, and its text.
pub fn split_diff_prefix(line: &str) -> (r: (&str, &str))
    ensures
        r.0@ == line@.take(diff_prefix_len(line@)),
        r.1@ == line@.skip(diff_prefix_len(line@)),
        r.0@ + r.1@ == line@,
{
    let n: usize = line.unicode_len();
    let mut i: usize = 0;
    if n > 0 {
        i = 1;
        while i < n && line.get_char(i) == ' '
            invariant
                1 <= i <= n,
                n == line@.len(),
                blanks_len(line@.skip(1)) == (i - 1) + blanks_len(line@.skip(i as int)),
            decreases n - i,
        {
            assert(line@.skip(i as int).drop_first() =~= line@.skip(i + 1));
            i = i + 1;
        }
        let ghost number = 1 + blanks_len(line@.skip(1)) as int;
        assert(i == number);
        while i < n && '0' <= line.get_char(i) && line.get_char(i) <= '9'
            invariant
                1 <= number <= i <= n,
                n == line@.len(),
                digits_len(line@.skip(number)) == (i - number) + digits_len(line@.skip(i as int)),
            decreases n - i,
        {
            assert(line@.skip(i as int).drop_first() =~= line@.skip(i + 1));
            i = i + 1;
        }
        if i < n && line.get_char(i) == ' ' {
            i = i + 1;
        }
    }
    assert(i == diff_prefix_len(line@));
    assert(line@.subrange(0, i as int) =~= line@.take(i as int));
    assert(line@.subrange(i as int, n as int) =~= line@.skip(i as int));
    assert(line@.take(i as int) + line@.skip(i as int) =~= line@);
    (line.substring_char(0, i), line.substring_char(i, n))
}

/// What comes before the text of a line: its sign, the blanks that follow, the number of the line,
/// and one blank behind the number.
pub proof fn law_prefix_of_a_numbered_line(
    sign: char,
    blanks: Seq<char>,
    number: Seq<char>,
    text: Seq<char>,
)
    requires
        forall|i: int| 0 <= i < blanks.len() ==> #[trigger] blanks[i] == ' ',
        forall|i: int| 0 <= i < number.len() ==> '0' <= #[trigger] number[i] <= '9',
        number.len() > 0,
        text.len() > 0 ==> !('0' <= text[0] <= '9'),
    ensures
        diff_prefix_len(seq![sign] + blanks + number + text) == 1 + blanks.len() + number.len() + (
        if text.len() > 0 && text[0] == ' ' {
            1int
        } else {
            0int
        }),
{
    let line = seq![sign] + blanks + number + text;
    let rest = number + text;
    assert(line.skip(1) =~= blanks + rest);
    assert('0' <= number[0] <= '9');
    assert(rest[0] == number[0]);
    lemma_blanks_len(blanks, rest);
    assert(line.skip(1 + blanks.len() as int) =~= rest);
    lemma_digits_len(number, text);
    let end = 1 + blanks.len() + number.len();
    assert(end < line.len() ==> line[end as int] == text[0]);
}

/// What comes before the text of a line without a number: its sign and the blanks that follow.
pub proof fn law_prefix_of_an_unnumbered_line(sign: char, blanks: Seq<char>, text: Seq<char>)
    requires
        forall|i: int| 0 <= i < blanks.len() ==> #[trigger] blanks[i] == ' ',
        text.len() > 0 ==> text[0] != ' ' && !('0' <= text[0] <= '9'),
    ensures
        diff_prefix_len(seq![sign] + blanks + text) == 1 + blanks.len(),
        diff_prefix_len(Seq::empty()) == 0,
{
    let line = seq![sign] + blanks + text;
    assert(line.skip(1) =~= blanks + text);
    lemma_blanks_len(blanks, text);
    assert(line.skip(1 + blanks.len() as int) =~= text);
    let end = 1 + blanks.len();
    assert(end < line.len() ==> line[end as int] == text[0]);
}

proof fn lemma_blanks_len(blanks: Seq<char>, rest: Seq<char>)
    requires
        forall|i: int| 0 <= i < blanks.len() ==> #[trigger] blanks[i] == ' ',
        rest.len() > 0 ==> rest[0] != ' ',
    ensures
        blanks_len(blanks + rest) == blanks.len(),
    decreases blanks.len(),
{
    if blanks.len() > 0 {
        assert(blanks[0] == ' ');
        assert((blanks + rest).drop_first() =~= blanks.drop_first() + rest);
        lemma_blanks_len(blanks.drop_first(), rest);
    } else {
        assert(blanks + rest =~= rest);
    }
}

proof fn lemma_digits_len(digits: Seq<char>, rest: Seq<char>)
    requires
        forall|i: int| 0 <= i < digits.len() ==> '0' <= #[trigger] digits[i] <= '9',
        rest.len() > 0 ==> !('0' <= rest[0] <= '9'),
    ensures
        digits_len(digits + rest) == digits.len(),
    decreases digits.len(),
{
    if digits.len() > 0 {
        assert('0' <= digits[0] <= '9');
        assert((digits + rest).drop_first() =~= digits.drop_first() + rest);
        lemma_digits_len(digits.drop_first(), rest);
    } else {
        assert(digits + rest =~= rest);
    }
}

} // verus!
