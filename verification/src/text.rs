//! Text primitives: white space, case, and decimal numbers.
use vstd::prelude::*;
use vstd::string::*;

verus! {

broadcast use vstd::string::group_string_axioms;

// ---------------------------------------------------------------------------------------------
// Equality
// ---------------------------------------------------------------------------------------------

/// Compares two texts character by character.
pub fn same_text(a: &str, b: &str) -> (r: bool)
    ensures
        r == (a@ == b@),
{
    a.to_owned() == b.to_owned()
}

/// The characters of a borrowed text that may be absent.
pub open spec fn str_chars(text: Option<&str>) -> Option<Seq<char>> {
    match text {
        Some(text) => Some(text@),
        None => None,
    }
}

/// The characters of a text that may be absent.
pub open spec fn opt_chars(text: Option<String>) -> Option<Seq<char>> {
    match text {
        Some(text) => Some(text@),
        None => None,
    }
}

/// A copy of a text that may be absent.
pub fn copy_text(text: &Option<String>) -> (r: Option<String>)
    ensures
        r == *text,
{
    match text {
        Some(text) => Some(text.clone()),
        None => None,
    }
}

/// `c` with an ASCII upper case letter replaced by its lower case one.
pub open spec fn ascii_lower_char(c: char) -> char {
    if 'A' <= c <= 'Z' {
        ((c as u32) + 32) as char
    } else {
        c
    }
}

/// `s` with every ASCII upper case letter replaced by its lower case one.
pub open spec fn ascii_lower(s: Seq<char>) -> Seq<char> {
    s.map_values(|c: char| ascii_lower_char(c))
}

/// Lowers one ASCII letter and leaves any other character as it is.
pub fn to_ascii_lower_char(c: char) -> (r: char)
    ensures
        r == ascii_lower_char(c),
{
    if 'A' <= c && c <= 'Z' {
        (c as u8 + 32) as char
    } else {
        c
    }
}

/// Lowers every ASCII letter.
pub fn to_ascii_lowercase(s: &str) -> (r: String)
    ensures
        r@ == ascii_lower(s@),
{
    let n: usize = s.unicode_len();
    let mut r: String = String::new();
    let mut i: usize = 0;
    assert(r@ =~= ascii_lower(s@).take(0));
    while i < n
        invariant
            i <= n,
            n == s@.len(),
            r@ == ascii_lower(s@).take(i as int),
        decreases n - i,
    {
        r.push(to_ascii_lower_char(s.get_char(i)));
        assert(r@ =~= ascii_lower(s@).take(i + 1));
        i = i + 1;
    }
    assert(ascii_lower(s@).take(n as int) =~= ascii_lower(s@));
    r
}

/// Whether two texts differ at most in the case of ASCII letters.
pub fn eq_ignore_ascii_case(a: &str, b: &str) -> (r: bool)
    ensures
        r == (ascii_lower(a@) == ascii_lower(b@)),
{
    let n: usize = a.unicode_len();
    if n != b.unicode_len() {
        assert(ascii_lower(a@).len() != ascii_lower(b@).len());
        return false;
    }
    let mut i: usize = 0;
    while i < n
        invariant
            i <= n,
            n == a@.len(),
            n == b@.len(),
            forall|k: int| 0 <= k < i ==> ascii_lower_char(a@[k]) == ascii_lower_char(b@[k]),
        decreases n - i,
    {
        if to_ascii_lower_char(a.get_char(i)) != to_ascii_lower_char(b.get_char(i)) {
            assert(ascii_lower(a@)[i as int] != ascii_lower(b@)[i as int]);
            return false;
        }
        i = i + 1;
    }
    assert(ascii_lower(a@) =~= ascii_lower(b@));
    true
}

// ---------------------------------------------------------------------------------------------
// Characters
// ---------------------------------------------------------------------------------------------

/// The characters of a text.
pub fn chars_of(s: &str) -> (r: Vec<char>)
    ensures
        r@ == s@,
{
    let mut chars: Vec<char> = Vec::new();
    for c in it: s.chars()
        invariant
            it.seq() == s@,
            chars@ == s@.take(it.index()),
    {
        chars.push(c);
        assert(chars@ =~= s@.take(it.index() + 1));
    }
    assert(s@.take(s@.len() as int) =~= s@);
    chars
}

// ---------------------------------------------------------------------------------------------
// White space
// ---------------------------------------------------------------------------------------------

/// The characters with the Unicode property `White_Space`.
pub open spec fn white_space(c: char) -> bool {
    ||| '\u{9}' <= c <= '\u{d}'
    ||| c == '\u{20}'
    ||| c == '\u{85}'
    ||| c == '\u{a0}'
    ||| c == '\u{1680}'
    ||| '\u{2000}' <= c <= '\u{200a}'
    ||| c == '\u{2028}'
    ||| c == '\u{2029}'
    ||| c == '\u{202f}'
    ||| c == '\u{205f}'
    ||| c == '\u{3000}'
}

/// Whether a character has the Unicode property `White_Space`.
pub fn is_white_space(c: char) -> (r: bool)
    ensures
        r == white_space(c),
{
    ('\u{9}' <= c && c <= '\u{d}') || c == '\u{20}' || c == '\u{85}' || c == '\u{a0}' || c
        == '\u{1680}' || ('\u{2000}' <= c && c <= '\u{200a}') || c == '\u{2028}' || c
        == '\u{2029}' || c == '\u{202f}' || c == '\u{205f}' || c == '\u{3000}'
}

/// `s` without its leading white space.
pub open spec fn trim_start_spec(s: Seq<char>) -> Seq<char>
    decreases s.len(),
{
    if s.len() > 0 && white_space(s.first()) {
        trim_start_spec(s.drop_first())
    } else {
        s
    }
}

/// `s` without its trailing white space.
pub open spec fn trim_end_spec(s: Seq<char>) -> Seq<char>
    decreases s.len(),
{
    if s.len() > 0 && white_space(s.last()) {
        trim_end_spec(s.drop_last())
    } else {
        s
    }
}

/// `s` without leading and trailing white space.
pub open spec fn trimmed(s: Seq<char>) -> Seq<char> {
    trim_end_spec(trim_start_spec(s))
}

/// Whether `s` holds nothing but white space.
pub open spec fn blank(s: Seq<char>) -> bool {
    trimmed(s).len() == 0
}

/// Removes leading white space.
pub fn trim_start(s: &str) -> (r: &str)
    ensures
        r@ == trim_start_spec(s@),
{
    let n: usize = s.unicode_len();
    let mut i: usize = 0;
    assert(s@.skip(0) =~= s@);
    while i < n && is_white_space(s.get_char(i))
        invariant
            i <= n,
            n == s@.len(),
            trim_start_spec(s@) == trim_start_spec(s@.skip(i as int)),
        decreases n - i,
    {
        assert(s@.skip(i as int).drop_first() =~= s@.skip(i + 1));
        i = i + 1;
    }
    assert(s@.subrange(i as int, n as int) =~= s@.skip(i as int));
    s.substring_char(i, n)
}

/// Removes trailing white space.
pub fn trim_end(s: &str) -> (r: &str)
    ensures
        r@ == trim_end_spec(s@),
{
    let mut n: usize = s.unicode_len();
    assert(s@.take(n as int) =~= s@);
    while n > 0 && is_white_space(s.get_char(n - 1))
        invariant
            n <= s@.len(),
            trim_end_spec(s@) == trim_end_spec(s@.take(n as int)),
        decreases n,
    {
        assert(s@.take(n as int).drop_last() =~= s@.take(n - 1));
        n = n - 1;
    }
    assert(s@.subrange(0, n as int) =~= s@.take(n as int));
    s.substring_char(0, n)
}

/// Removes leading and trailing white space.
pub fn trim(s: &str) -> (r: &str)
    ensures
        r@ == trimmed(s@),
{
    trim_end(trim_start(s))
}

/// Trimming keeps a text that neither starts nor ends with white space.
pub proof fn lemma_trimmed_keeps(s: Seq<char>)
    requires
        s.len() > 0 ==> !white_space(s.first()) && !white_space(s.last()),
    ensures
        trimmed(s) == s,
{
}

/// Trimming a trimmed text changes nothing.
pub proof fn lemma_trimmed_idempotent(s: Seq<char>)
    ensures
        trimmed(trimmed(s)) == trimmed(s),
{
    lemma_trim_start_first(s);
    lemma_trim_end_ends(trim_start_spec(s));
    lemma_trimmed_keeps(trimmed(s));
}

proof fn lemma_trim_start_first(s: Seq<char>)
    ensures
        trim_start_spec(s).len() > 0 ==> !white_space(trim_start_spec(s).first()),
    decreases s.len(),
{
    if s.len() > 0 && white_space(s.first()) {
        lemma_trim_start_first(s.drop_first());
    }
}

proof fn lemma_trim_end_ends(s: Seq<char>)
    ensures
        trim_end_spec(s).len() > 0 ==> !white_space(trim_end_spec(s).last()),
        trim_end_spec(s).len() > 0 ==> trim_end_spec(s).first() == s.first(),
    decreases s.len(),
{
    if s.len() > 0 && white_space(s.last()) {
        lemma_trim_end_ends(s.drop_last());
    }
}

/// Trimming cuts a text at both ends, cuts off nothing but white space, and leaves none there.
pub proof fn law_trimming_cuts_only_white_space(s: Seq<char>)
    ensures
        exists|i: int, j: int|
            #![trigger s.subrange(i, j)]
            {
                &&& 0 <= i <= j <= s.len()
                &&& trimmed(s) == s.subrange(i, j)
                &&& forall|k: int| 0 <= k < i || j <= k < s.len() ==> white_space(#[trigger] s[k])
                &&& i < j ==> !white_space(s[i]) && !white_space(s[j - 1])
            },
{
    let i = lemma_trim_start_cut(s);
    let rest = trim_start_spec(s);
    let n = lemma_trim_end_cut(rest);
    let j = i + n;
    assert(trimmed(s) =~= s.subrange(i, j));
    assert forall|k: int| 0 <= k < i || j <= k < s.len() implies white_space(#[trigger] s[k]) by {
        if k >= j {
            assert(rest[k - i] == s[k]);
        }
    }
    if i < j {
        assert(rest[0] == s[i]);
        assert(rest[n - 1] == s[j - 1]);
    }
}

proof fn lemma_trim_start_cut(s: Seq<char>) -> (i: int)
    ensures
        0 <= i <= s.len(),
        trim_start_spec(s) == s.skip(i),
        forall|k: int| 0 <= k < i ==> white_space(#[trigger] s[k]),
        i < s.len() ==> !white_space(s[i]),
    decreases s.len(),
{
    if s.len() > 0 && white_space(s.first()) {
        let rest = s.drop_first();
        let i = lemma_trim_start_cut(rest);
        assert(rest.skip(i) =~= s.skip(i + 1));
        assert forall|k: int| 0 <= k < i + 1 implies white_space(#[trigger] s[k]) by {
            if k > 0 {
                assert(rest[k - 1] == s[k]);
            }
        }
        i + 1
    } else {
        assert(s.skip(0) =~= s);
        0
    }
}

proof fn lemma_trim_end_cut(s: Seq<char>) -> (n: int)
    ensures
        0 <= n <= s.len(),
        trim_end_spec(s) == s.take(n),
        forall|k: int| n <= k < s.len() ==> white_space(#[trigger] s[k]),
        n > 0 ==> !white_space(s[n - 1]),
    decreases s.len(),
{
    if s.len() > 0 && white_space(s.last()) {
        let rest = s.drop_last();
        let n = lemma_trim_end_cut(rest);
        assert(rest.take(n) =~= s.take(n));
        assert forall|k: int| n <= k < s.len() implies white_space(#[trigger] s[k]) by {
            if k < rest.len() {
                assert(rest[k] == s[k]);
            }
        }
        n
    } else {
        assert(s.take(s.len() as int) =~= s);
        s.len() as int
    }
}

/// A text is blank where every character is white space.
pub proof fn law_blank_is_all_white_space(s: Seq<char>)
    ensures
        blank(s) <==> (forall|i: int| 0 <= i < s.len() ==> white_space(#[trigger] s[i])),
{
    law_trimming_cuts_only_white_space(s);
    let (i, j) = choose|i: int, j: int|
        #![trigger s.subrange(i, j)]
        {
            &&& 0 <= i <= j <= s.len()
            &&& trimmed(s) == s.subrange(i, j)
            &&& forall|k: int| 0 <= k < i || j <= k < s.len() ==> white_space(#[trigger] s[k])
            &&& i < j ==> !white_space(s[i]) && !white_space(s[j - 1])
        };
    assert(trimmed(s).len() == j - i);
}

/// Lowering ASCII letters moves each from `A` to `Z` to its place from `a` to `z`, and leaves every
/// other character and the length as they are.
pub proof fn law_ascii_lower_moves_only_capitals(s: Seq<char>, i: int)
    requires
        0 <= i < s.len(),
    ensures
        ascii_lower(s).len() == s.len(),
        'A' <= s[i] <= 'Z' ==> 'a' <= ascii_lower(s)[i] <= 'z' && ascii_lower(s)[i] as int
            - 'a' as int == s[i] as int - 'A' as int,
        !('A' <= s[i] <= 'Z') ==> ascii_lower(s)[i] == s[i],
{
}

/// White space has no case.
proof fn lemma_white_space_has_no_case(c: char)
    ensures
        white_space(ascii_lower_char(c)) == white_space(c),
{
}

/// Trimming and lowering ASCII letters can change places.
pub proof fn lemma_ascii_lower_trims(s: Seq<char>)
    ensures
        trimmed(ascii_lower(s)) == ascii_lower(trimmed(s)),
{
    lemma_ascii_lower_trims_start(s);
    lemma_ascii_lower_trims_end(trim_start_spec(s));
}

proof fn lemma_ascii_lower_trims_start(s: Seq<char>)
    ensures
        trim_start_spec(ascii_lower(s)) == ascii_lower(trim_start_spec(s)),
    decreases s.len(),
{
    if s.len() > 0 {
        lemma_white_space_has_no_case(s.first());
        assert(ascii_lower(s).drop_first() =~= ascii_lower(s.drop_first()));
        lemma_ascii_lower_trims_start(s.drop_first());
    }
}

proof fn lemma_ascii_lower_trims_end(s: Seq<char>)
    ensures
        trim_end_spec(ascii_lower(s)) == ascii_lower(trim_end_spec(s)),
    decreases s.len(),
{
    if s.len() > 0 {
        lemma_white_space_has_no_case(s.last());
        assert(ascii_lower(s).drop_last() =~= ascii_lower(s.drop_last()));
        lemma_ascii_lower_trims_end(s.drop_last());
    }
}

/// A text that differs from one of ASCII characters only in the case of ASCII letters is one too.
pub proof fn lemma_same_case_is_ascii(s: Seq<char>, other: Seq<char>)
    requires
        ascii_lower(s) == ascii_lower(other),
        vstd::utf8::is_ascii_chars(s),
    ensures
        vstd::utf8::is_ascii_chars(other),
{
    assert forall|i: int| 0 <= i < other.len() implies '\0' <= #[trigger] other[i] <= '\u{7f}' by {
        assert(s.len() == ascii_lower(s).len() && other.len() == ascii_lower(other).len());
        assert(ascii_lower(s)[i] == ascii_lower_char(s[i]));
        assert(ascii_lower(other)[i] == ascii_lower_char(other[i]));
        assert('\0' <= s[i] <= '\u{7f}');
    }
}

/// Trimming a text of ASCII characters leaves one.
pub proof fn lemma_trimmed_is_ascii(s: Seq<char>)
    requires
        vstd::utf8::is_ascii_chars(s),
    ensures
        vstd::utf8::is_ascii_chars(trimmed(s)),
{
    lemma_trim_start_is_ascii(s);
    lemma_trim_end_is_ascii(trim_start_spec(s));
}

proof fn lemma_trim_start_is_ascii(s: Seq<char>)
    requires
        vstd::utf8::is_ascii_chars(s),
    ensures
        vstd::utf8::is_ascii_chars(trim_start_spec(s)),
    decreases s.len(),
{
    if s.len() > 0 && white_space(s.first()) {
        assert(forall|i: int| 0 <= i < s.len() - 1 ==> #[trigger] s.drop_first()[i] == s[i + 1]);
        lemma_trim_start_is_ascii(s.drop_first());
    }
}

proof fn lemma_trim_end_is_ascii(s: Seq<char>)
    requires
        vstd::utf8::is_ascii_chars(s),
    ensures
        vstd::utf8::is_ascii_chars(trim_end_spec(s)),
    decreases s.len(),
{
    if s.len() > 0 && white_space(s.last()) {
        lemma_trim_end_is_ascii(s.drop_last());
    }
}

// ---------------------------------------------------------------------------------------------
// Pieces
// ---------------------------------------------------------------------------------------------

/// What stands between two pieces: white space, and commas where they count.
pub open spec fn separator(c: char, commas: bool) -> bool {
    white_space(c) || (commas && c == ',')
}

/// The pieces of a text: its longest runs without a separator, in their order.
pub open spec fn pieces(s: Seq<char>, commas: bool) -> Seq<Seq<char>>
    decreases s.len(),
{
    if s.len() == 0 {
        Seq::empty()
    } else {
        let before = pieces(s.drop_last(), commas);
        if separator(s.last(), commas) {
            before
        } else if s.len() > 1 && !separator(s[s.len() - 2], commas) {
            before.drop_last().push(before.last().push(s.last()))
        } else {
            before.push(seq![s.last()])
        }
    }
}

/// The characters of a list of texts.
pub open spec fn texts_view(texts: Seq<String>) -> Seq<Seq<char>> {
    texts.map_values(|text: String| text@)
}

/// Whether a list holds a text.
pub fn contains_text(texts: &Vec<String>, text: &str) -> (r: bool)
    ensures
        r == texts_view(texts@).contains(text@),
{
    let mut i: usize = 0;
    while i < texts.len()
        invariant
            i <= texts@.len(),
            forall|k: int| 0 <= k < i ==> #[trigger] texts_view(texts@)[k] != text@,
        decreases texts@.len() - i,
    {
        if same_text(texts[i].as_str(), text) {
            assert(texts_view(texts@)[i as int] == text@);
            return true;
        }
        i = i + 1;
    }
    false
}

/// Cuts a text into its pieces.
pub fn split_pieces(s: &str, commas: bool) -> (r: Vec<String>)
    ensures
        texts_view(r@) == pieces(s@, commas),
{
    let chars: Vec<char> = chars_of(s);
    let mut done: Vec<String> = Vec::new();
    let mut current: String = String::new();
    let mut i: usize = 0;
    assert(texts_view(done@) =~= pieces(s@.take(0), commas));
    while i < chars.len()
        invariant
            chars@ == s@,
            i <= chars@.len(),
            current@.len() == 0 <==> (i == 0 || separator(s@[i - 1], commas)),
            pieces(s@.take(i as int), commas) == (if current@.len() == 0 {
                texts_view(done@)
            } else {
                texts_view(done@).push(current@)
            }),
        decreases chars@.len() - i,
    {
        let c: char = chars[i];
        let ghost seen = s@.take(i as int);
        let ghost next = s@.take(i + 1);
        assert(next.drop_last() =~= seen);
        assert(next.last() == c);
        assert(i > 0 ==> next[next.len() - 2] == s@[i - 1]);
        let ghost before = pieces(seen, commas);
        let ghost listed = texts_view(done@);
        if is_white_space(c) || (commas && c == ',') {
            if !current.as_str().is_empty() {
                done.push(current);
                current = String::new();
                assert(texts_view(done@) =~= before);
            }
        } else {
            let ghost word = current@;
            current.push(c);
            assert(pieces(next, commas) =~= listed.push(current@)) by {
                if word.len() == 0 {
                    assert(current@ =~= seq![c]);
                } else {
                    assert(before.drop_last() =~= listed);
                    assert(before.last() == word);
                }
            }
        }
        i = i + 1;
    }
    assert(s@.take(i as int) =~= s@);
    if !current.as_str().is_empty() {
        let ghost before = pieces(s@, commas);
        done.push(current);
        assert(texts_view(done@) =~= before);
    }
    done
}

/// No piece holds a separator.
pub proof fn law_pieces_hold_no_separator(s: Seq<char>, commas: bool, k: int, i: int)
    requires
        0 <= k < pieces(s, commas).len(),
        0 <= i < pieces(s, commas)[k].len(),
    ensures
        !separator(pieces(s, commas)[k][i], commas),
    decreases s.len(),
{
    let before = pieces(s.drop_last(), commas);
    lemma_pieces_end(s.drop_last(), commas);
    if k < before.len() && i < before[k].len() {
        law_pieces_hold_no_separator(s.drop_last(), commas, k, i);
    }
}

/// No piece is empty.
pub proof fn law_pieces_are_not_empty(s: Seq<char>, commas: bool, k: int)
    requires
        0 <= k < pieces(s, commas).len(),
    ensures
        pieces(s, commas)[k].len() > 0,
    decreases s.len(),
{
    let before = pieces(s.drop_last(), commas);
    lemma_pieces_end(s.drop_last(), commas);
    if k < before.len() {
        law_pieces_are_not_empty(s.drop_last(), commas, k);
    }
}

/// A list of texts, one behind the other.
pub open spec fn joined(texts: Seq<Seq<char>>) -> Seq<char>
    decreases texts.len(),
{
    if texts.len() == 0 {
        Seq::empty()
    } else {
        joined(texts.drop_last()) + texts.last()
    }
}

/// Cutting a text into pieces loses nothing but the separators.
pub proof fn law_pieces_lose_only_separators(s: Seq<char>, commas: bool)
    ensures
        joined(pieces(s, commas)) == s.filter(|c: char| !separator(c, commas)),
    decreases s.len(),
{
    reveal(Seq::filter);
    if s.len() > 0 {
        let init = s.drop_last();
        let before = pieces(init, commas);
        let after = pieces(s, commas);
        law_pieces_lose_only_separators(init, commas);
        lemma_pieces_end(init, commas);
        if !separator(s.last(), commas) {
            if s.len() > 1 && !separator(s[s.len() - 2], commas) {
                assert(after.drop_last() =~= before.drop_last());
                assert(joined(after) =~= joined(before).push(s.last()));
            } else {
                assert(after.drop_last() =~= before);
                assert(joined(after) =~= joined(before).push(s.last()));
            }
        }
    }
}

/// A separator cuts: the pieces of two texts with a separator between them are those of the one and
/// then those of the other.
pub proof fn law_separators_cut(a: Seq<char>, c: char, b: Seq<char>, commas: bool)
    requires
        white_space(c) || (commas && c == ','),
    ensures
        pieces(a + seq![c] + b, commas) == pieces(a, commas) + pieces(b, commas),
    decreases b.len(),
{
    let whole = a + seq![c] + b;
    if b.len() == 0 {
        assert(whole.drop_last() =~= a);
        assert(whole.last() == c);
        assert(pieces(b, commas) =~= Seq::<Seq<char>>::empty());
        assert(pieces(a, commas) + pieces(b, commas) =~= pieces(a, commas));
    } else {
        let init = b.drop_last();
        law_separators_cut(a, c, init, commas);
        assert(whole.drop_last() =~= a + seq![c] + init);
        assert(whole.last() == b.last());
        let left = pieces(a, commas);
        let before = pieces(init, commas);
        if !separator(b.last(), commas) {
            if b.len() > 1 {
                assert(whole[whole.len() - 2] == b[b.len() - 2]);
                if !separator(b[b.len() - 2], commas) {
                    lemma_pieces_end(init, commas);
                    assert((left + before).drop_last() =~= left + before.drop_last());
                    assert((left + before).last() == before.last());
                }
            } else {
                assert(whole[whole.len() - 2] == c);
            }
            assert(pieces(whole, commas) =~= left + pieces(b, commas));
        }
    }
}

/// Nothing else cuts: a text that is not empty and has no separator is one piece, and an empty text
/// has none.
pub proof fn law_words_are_not_cut(s: Seq<char>, commas: bool)
    requires
        forall|i: int| 0 <= i < s.len() ==> !(white_space(#[trigger] s[i]) || (commas && s[i]
            == ',')),
    ensures
        s.len() > 0 ==> pieces(s, commas) == seq![s],
        s.len() == 0 ==> pieces(s, commas) == Seq::<Seq<char>>::empty(),
    decreases s.len(),
{
    if s.len() > 0 {
        let init = s.drop_last();
        assert forall|i: int| 0 <= i < init.len() implies !(white_space(#[trigger] init[i]) || (
        commas && init[i] == ',')) by {
            assert(init[i] == s[i]);
        }
        law_words_are_not_cut(init, commas);
        assert(!separator(s.last(), commas));
        if s.len() > 1 {
            assert(!separator(s[s.len() - 2], commas));
            assert(init.push(s.last()) =~= s);
            assert(pieces(s, commas) =~= seq![s]);
        } else {
            assert(seq![s.last()] =~= s);
            assert(pieces(s, commas) =~= seq![s]);
        }
    }
}

proof fn lemma_pieces_end(s: Seq<char>, commas: bool)
    ensures
        s.len() > 0 && !separator(s.last(), commas) ==> pieces(s, commas).len() > 0,
{
}

// ---------------------------------------------------------------------------------------------
// Lower case
// ---------------------------------------------------------------------------------------------

/// What `str::to_lowercase` of the standard library returns for a text.
pub uninterp spec fn lowercase(s: Seq<char>) -> Seq<char>;

/// On a text of ASCII characters lower case is what it is for ASCII letters.
pub open spec fn folds_ascii(s: Seq<char>) -> bool {
    vstd::utf8::is_ascii_chars(s) ==> lowercase(s) == ascii_lower(s)
}

/// Calls `str::to_lowercase` of the standard library. Its result is the Unicode lower case
/// equivalent of the text, which the contract names `lowercase`; of a text of ASCII characters
/// it is the text with its ASCII letters lowered.
#[verifier::external_body]
pub(crate) fn to_lowercase(s: &str) -> (r: String)
    ensures
        r@ == lowercase(s@),
        vstd::utf8::is_ascii_chars(s@) ==> r@ == ascii_lower(s@),
{
    s.to_lowercase()
}

// ---------------------------------------------------------------------------------------------
// Decimal numbers
// ---------------------------------------------------------------------------------------------

/// Whether `c` is one of the ten ASCII digits.
pub open spec fn is_digit(c: char) -> bool {
    '0' <= c <= '9'
}

/// The value of an ASCII digit.
pub open spec fn digit_value(c: char) -> nat {
    (c as int - '0' as int) as nat
}

/// Whether `s` holds ASCII digits only.
pub open spec fn all_digits(s: Seq<char>) -> bool {
    forall|i: int| 0 <= i < s.len() ==> is_digit(#[trigger] s[i])
}

/// The number that a text of digits writes in base ten.
pub open spec fn decimal_value(s: Seq<char>) -> nat
    decreases s.len(),
{
    if s.len() == 0 {
        0
    } else {
        decimal_value(s.drop_last()) * 10 + digit_value(s.last())
    }
}

/// `s` without one leading plus sign.
pub open spec fn without_plus(s: Seq<char>) -> Seq<char> {
    if s.len() > 0 && s.first() == '+' {
        s.drop_first()
    } else {
        s
    }
}

/// The number that `s` writes as an optional plus sign and at least one digit, if it fits into
/// `usize`.
pub open spec fn usize_of_text(s: Seq<char>) -> Option<usize> {
    let digits = without_plus(s);
    if digits.len() > 0 && all_digits(digits) && decimal_value(digits) <= usize::MAX {
        Some(decimal_value(digits) as usize)
    } else {
        None
    }
}

/// A number has no letters that could be lowered.
pub proof fn lemma_number_has_no_case(s: Seq<char>)
    ensures
        usize_of_text(ascii_lower(s)) == usize_of_text(s),
{
    let digits = without_plus(s);
    let lowered = without_plus(ascii_lower(s));
    assert(lowered =~= ascii_lower(digits));
    if all_digits(digits) {
        assert forall|i: int| 0 <= i < digits.len() implies #[trigger] lowered[i] == digits[i] by {
            assert(is_digit(digits[i]));
        }
        assert(lowered =~= digits);
    } else {
        let i = choose|i: int| 0 <= i < digits.len() && !is_digit(#[trigger] digits[i]);
        assert(!is_digit(lowered[i]));
    }
}

/// A plus sign in front of a number, and zeros in front of its digits, do not matter, and a text
/// with anything but digits behind the sign is no number.
pub proof fn law_number_spelling(digits: Seq<char>)
    requires
        digits.len() > 0,
        digits[0] != '+',
    ensures
        usize_of_text(seq!['+'] + digits) == usize_of_text(digits),
        usize_of_text(seq!['0'] + digits) == usize_of_text(digits),
        (exists|i: int| 0 <= i < digits.len() && !('0' <= #[trigger] digits[i] <= '9'))
            ==> usize_of_text(digits) is None,
{
    assert((seq!['+'] + digits).drop_first() =~= digits);
    let zeroed = seq!['0'] + digits;
    assert(without_plus(zeroed) == zeroed);
    lemma_leading_zero(digits);
    if all_digits(digits) {
        assert forall|i: int| 0 <= i < zeroed.len() implies is_digit(#[trigger] zeroed[i]) by {
            if i > 0 {
                assert(is_digit(digits[i - 1]));
            }
        }
    } else {
        let i = choose|i: int| 0 <= i < digits.len() && !is_digit(#[trigger] digits[i]);
        assert(!is_digit(zeroed[i + 1]));
    }
    if exists|i: int| 0 <= i < digits.len() && !('0' <= #[trigger] digits[i] <= '9') {
        let i = choose|i: int| 0 <= i < digits.len() && !('0' <= #[trigger] digits[i] <= '9');
        assert(!is_digit(digits[i]));
    }
}

proof fn lemma_leading_zero(digits: Seq<char>)
    ensures
        decimal_value(seq!['0'] + digits) == decimal_value(digits),
    decreases digits.len(),
{
    let zeroed = seq!['0'] + digits;
    if digits.len() == 0 {
        assert(zeroed.drop_last() =~= Seq::<char>::empty());
        assert(decimal_value(zeroed.drop_last()) == 0);
    } else {
        lemma_leading_zero(digits.drop_last());
        assert(zeroed.drop_last() =~= seq!['0'] + digits.drop_last());
    }
}

/// One more digit behind a number in base ten: the text grows by that digit, and the number by a
/// factor of ten and the digit.
pub proof fn law_decimal_digit_by_digit(n: nat, d: nat)
    requires
        d < 10,
    ensures
        decimal(d).len() == 1,
        decimal(d)[0] as int == '0' as int + d,
        n > 0 ==> decimal(10 * n + d) == decimal(n) + decimal(d),
{
    if n > 0 {
        assert((10 * n + d) / 10 == n && (10 * n + d) % 10 == d);
        assert(decimal(10 * n + d) =~= decimal(n) + decimal(d));
    }
}

/// A prefix of a text of digits writes no larger number.
proof fn lemma_decimal_value_prefix(s: Seq<char>, n: int)
    requires
        0 <= n <= s.len(),
    ensures
        decimal_value(s.take(n)) <= decimal_value(s),
    decreases s.len() - n,
{
    if n == s.len() {
        assert(s.take(n) =~= s);
    } else {
        lemma_decimal_value_prefix(s, n + 1);
        assert(s.take(n + 1).drop_last() =~= s.take(n));
    }
}

/// Reads a number in base ten: an optional plus sign followed by digits only. Anything else, and
/// a number that does not fit, is `None`.
pub fn parse_usize(s: &str) -> (r: Option<usize>)
    ensures
        r == usize_of_text(s@),
{
    let n: usize = s.unicode_len();
    let start: usize = if n > 0 && s.get_char(0) == '+' {
        1
    } else {
        0
    };
    let ghost digits = without_plus(s@);
    assert(digits =~= s@.skip(start as int));
    if start == n {
        return None;
    }
    let mut value: usize = 0;
    let mut i: usize = start;
    while i < n
        invariant
            start <= i <= n,
            n == s@.len(),
            start < n,
            digits == s@.skip(start as int),
            digits == without_plus(s@),
            all_digits(digits.take(i - start)),
            value == decimal_value(digits.take(i - start)),
        decreases n - i,
    {
        let c: char = s.get_char(i);
        assert(c == digits[i - start]);
        if !('0' <= c && c <= '9') {
            assert(!is_digit(digits[i - start]));
            return None;
        }
        let digit: usize = c as usize - '0' as usize;
        let ghost next = digits.take(i + 1 - start);
        assert(next.drop_last() =~= digits.take(i - start));
        assert(decimal_value(next) == value * 10 + digit);
        proof {
            lemma_decimal_value_prefix(digits, i + 1 - start);
            assert forall|k: int| 0 <= k < next.len() implies is_digit(#[trigger] next[k]) by {
                if k < i - start {
                    assert(digits.take(i - start)[k] == next[k]);
                }
            }
        }
        if value > usize::MAX / 10 {
            return None;
        }
        let tens: usize = value * 10;
        if digit > usize::MAX - tens {
            return None;
        }
        value = tens + digit;
        i = i + 1;
    }
    assert(digits.take(n - start) =~= digits);
    Some(value)
}

/// The digit character of a number below ten.
pub open spec fn digit_char(d: nat) -> char {
    ('0' as int + d) as char
}

/// `n` in base ten, without leading zeros.
pub open spec fn decimal(n: nat) -> Seq<char>
    decreases n,
{
    if n < 10 {
        seq![digit_char(n)]
    } else {
        decimal(n / 10).push(digit_char(n % 10))
    }
}

/// Appends one character: `String::push` of the standard library.
pub assume_specification[ std::string::String::push ](s: &mut std::string::String, c: char)
    ensures
        final(s)@ == old(s)@.push(c),
;

/// Appends a number in base ten.
pub fn push_usize(out: &mut String, n: usize)
    ensures
        final(out)@ == old(out)@ + decimal(n as nat),
    decreases n,
{
    if n >= 10 {
        push_usize(out, n / 10);
    }
    let ghost before = out@;
    let digit: u8 = (n % 10) as u8;
    out.push(('0' as u8 + digit) as char);
    assert(out@ =~= old(out)@ + decimal(n as nat));
}

/// Reading what `decimal` writes gives the number back.
pub proof fn lemma_decimal_roundtrip(n: usize)
    ensures
        usize_of_text(decimal(n as nat)) == Some(n),
{
    lemma_decimal_digits(n as nat);
    assert(is_digit(decimal(n as nat)[0]));
    assert(without_plus(decimal(n as nat)) == decimal(n as nat));
}

/// A number in base ten is a text of digits that writes that number.
pub proof fn lemma_decimal_digits(n: nat)
    ensures
        decimal(n).len() > 0,
        all_digits(decimal(n)),
        decimal_value(decimal(n)) == n,
    decreases n,
{
    reveal_with_fuel(decimal_value, 2);
    if n >= 10 {
        lemma_decimal_digits(n / 10);
        assert(decimal(n).drop_last() =~= decimal(n / 10));
    } else {
        assert(decimal(n).drop_last() =~= Seq::<char>::empty());
    }
}

} // verus!
