//! Patterns that say which models are offered.
use vstd::prelude::*;
use vstd::string::*;

use crate::text::{pieces, split_pieces, texts_view};
use crate::thinking::ThinkingLevel;

verus! {

broadcast use vstd::string::group_string_axioms;

/// Reads a list of patterns, set apart by commas or white space.
pub fn parse_scoped_model_patterns(args: &str) -> (r: Vec<String>)
    ensures
        texts_view(r@) == pieces(args@, true),
{
    split_pieces(args, true)
}

/// The place of the last colon of a text.
pub open spec fn last_colon(s: Seq<char>) -> Option<int>
    decreases s.len(),
{
    if s.len() == 0 {
        None
    } else if s.last() == ':' {
        Some(s.len() - 1)
    } else {
        last_colon(s.drop_last())
    }
}

/// `s` without the thinking level behind its last colon, where there is one.
pub open spec fn without_level(s: Seq<char>) -> Seq<char> {
    match last_colon(s) {
        Some(colon) => if ThinkingLevel::named(s.skip(colon + 1)) is Some {
            s.take(colon)
        } else {
            s
        },
        None => s,
    }
}

/// Takes the thinking level off a pattern.
pub fn strip_thinking_level_suffix(pattern: &str) -> (r: &str)
    ensures
        r@ == without_level(pattern@),
{
    let n: usize = pattern.unicode_len();
    let mut i: usize = n;
    assert(pattern@.take(n as int) =~= pattern@);
    while i > 0
        invariant
            i <= n,
            n == pattern@.len(),
            last_colon(pattern@) == last_colon(pattern@.take(i as int)),
        decreases i,
    {
        if pattern.get_char(i - 1) == ':' {
            assert(pattern@.subrange(i as int, n as int) =~= pattern@.skip(i as int));
            assert(pattern@.subrange(0, i - 1) =~= pattern@.take(i - 1));
            return match ThinkingLevel::from_name(pattern.substring_char(i, n)) {
                Some(_) => pattern.substring_char(0, i - 1),
                None => pattern,
            };
        }
        assert(pattern@.take(i as int).drop_last() =~= pattern@.take(i - 1));
        i = i - 1;
    }
    pattern
}

/// A thinking level that is put behind a pattern with a colon is taken off again.
pub proof fn law_level_suffix_is_stripped(pattern: Seq<char>, level: ThinkingLevel)
    ensures
        without_level(pattern.push(':') + level.name()) == pattern,
{
    let whole = pattern.push(':') + level.name();
    reveal_strlit("off");
    reveal_strlit("minimal");
    reveal_strlit("low");
    reveal_strlit("medium");
    reveal_strlit("high");
    reveal_strlit("xhigh");
    assert(forall|i: int| 0 <= i < level.name().len() ==> level.name()[i] != ':');
    lemma_last_colon(whole, pattern.len() as int);
    assert(whole.skip(pattern.len() as int + 1) =~= level.name());
    assert(whole.take(pattern.len() as int) =~= pattern);
    crate::thinking::law_level_name_roundtrip(level);
}

proof fn lemma_last_colon(s: Seq<char>, colon: int)
    requires
        0 <= colon < s.len(),
        s[colon] == ':',
        forall|i: int| colon < i < s.len() ==> s[i] != ':',
    ensures
        last_colon(s) == Some(colon),
    decreases s.len(),
{
    if colon < s.len() - 1 {
        lemma_last_colon(s.drop_last(), colon);
    }
}

/// Nothing but a thinking level behind a colon is taken off: what is left is the pattern, or the
/// pattern is what is left, a colon and the name of a level.
pub proof fn law_only_a_level_is_stripped(pattern: Seq<char>)
    ensures
        without_level(pattern) == pattern || exists|level: ThinkingLevel|
            pattern == without_level(pattern).push(':') + #[trigger] level.name(),
{
    lemma_last_colon_is_colon(pattern);
    if let Some(colon) = last_colon(pattern) {
        let suffix = pattern.skip(colon + 1);
        if let Some(level) = ThinkingLevel::named(suffix) {
            crate::thinking::law_named_level_has_that_name(suffix);
            assert(pattern =~= without_level(pattern).push(':') + level.name());
        }
    }
}

proof fn lemma_last_colon_is_colon(s: Seq<char>)
    ensures
        last_colon(s) matches Some(colon) ==> 0 <= colon < s.len() && s[colon] == ':',
    decreases s.len(),
{
    if s.len() > 0 {
        lemma_last_colon_is_colon(s.drop_last());
    }
}

} // verus!
