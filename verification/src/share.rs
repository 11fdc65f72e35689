//! Sharing a session as a gist.
use vstd::prelude::*;
use vstd::string::*;

use crate::text::{
    ascii_lower, decimal, digit_char, eq_ignore_ascii_case, pieces, same_text, split_pieces,
    str_chars, texts_view, trim, trimmed,
};

verus! {

broadcast use vstd::string::group_string_axioms;

/// Whether the arguments ask for a public gist: the word `public`, in any case.
pub fn parse_share_is_public(args: &str) -> (r: bool)
    ensures
        r == (ascii_lower(trimmed(args@)) == ascii_lower("public"@)),
{
    eq_ignore_ascii_case(trim(args), "public")
}

/// The description of a gist: the name of the session, or else the time of sharing.
pub open spec fn description_of(session_name: Option<Seq<char>>, stamp: Seq<char>) -> Seq<char> {
    match session_name {
        Some(name) => "Pi session: "@ + name,
        None => "Pi session "@ + stamp,
    }
}

/// Describes a gist, given the time of sharing.
pub fn gist_description(session_name: Option<&str>, stamp: &str) -> (r: String)
    ensures
        r@ == description_of(str_chars(session_name), stamp@),
{
    match session_name {
        Some(name) => {
            let mut text: String = "Pi session: ".to_owned();
            text.append(name);
            text
        },
        None => {
            let mut text: String = "Pi session ".to_owned();
            text.append(stamp);
            text
        },
    }
}

/// A time in UTC, to the second.
pub struct Moment {
    pub year: nat,
    pub month: nat,
    pub day: nat,
    pub hour: nat,
    pub minute: nat,
    pub second: nat,
}

/// A number below a hundred in two digits.
pub open spec fn two_digits(n: nat) -> Seq<char> {
    seq![digit_char(n / 10), digit_char(n % 10)]
}

impl Moment {
    /// Whether this can be a time since the Unix epoch.
    pub open spec fn since_epoch(self) -> bool {
        &&& self.year >= 1970
        &&& 1 <= self.month <= 12
        &&& 1 <= self.day <= 31
        &&& self.hour < 24
        &&& self.minute < 60
        &&& self.second < 60
    }

    /// The year, with a sign where it has more than four digits.
    pub open spec fn year_text(self) -> Seq<char> {
        if self.year <= 9999 {
            decimal(self.year)
        } else {
            seq!['+'] + decimal(self.year)
        }
    }

    /// The time as it is written down: the date, the letter `T`, the time of day, and the letter
    /// `Z` for UTC.
    pub open spec fn stamp(self) -> Seq<char> {
        self.year_text() + seq!['-'] + two_digits(self.month) + seq!['-'] + two_digits(self.day)
            + seq!['T'] + two_digits(self.hour) + seq![':'] + two_digits(self.minute) + seq![':']
            + two_digits(self.second) + seq!['Z']
    }
}

/// Whether `s` is the stamp of some time since the Unix epoch.
pub open spec fn utc_stamp(s: Seq<char>) -> bool {
    exists|at: Moment| #[trigger] at.since_epoch() && s == at.stamp()
}

/// Reads the clock, `chrono::Utc::now` of the crate `chrono`, and writes the time down by
/// `chrono::DateTime::to_rfc3339_opts`, to the second and with the letter `Z` for UTC. The result
/// is the stamp of some time since the Unix epoch, since `Utc::now` does not return where the
/// clock stands before it; which time it is is not claimed.
#[verifier::external_body]
fn now_stamp() -> (r: String)
    ensures
        utc_stamp(r@),
{
    chrono::Utc::now().to_rfc3339_opts(chrono::SecondsFormat::Secs, true)
}

/// Describes a gist that is shared now: by the name of the session, or else by the time.
pub fn share_gist_description(session_name: Option<&str>) -> (r: String)
    ensures
        match session_name {
            Some(name) => r@ == description_of(Some(name@), Seq::empty()),
            None => exists|stamp: Seq<char>|
                #[trigger] utc_stamp(stamp) && r@ == description_of(None, stamp),
        },
{
    let stamp: String = now_stamp();
    gist_description(session_name, stamp.as_str())
}

// ---------------------------------------------------------------------------------------------
// Links
// ---------------------------------------------------------------------------------------------

/// What may stand around a link without belonging to it.
pub open spec fn link_border(c: char) -> bool {
    c == '"' || c == '\'' || c == ',' || c == ';' || c == '.' || c == '(' || c == ')'
}

/// `s` without what stands before a link.
pub open spec fn link_start(s: Seq<char>) -> Seq<char>
    decreases s.len(),
{
    if s.len() > 0 && link_border(s.first()) {
        link_start(s.drop_first())
    } else {
        s
    }
}

/// `s` without what stands behind a link.
pub open spec fn link_end(s: Seq<char>) -> Seq<char>
    decreases s.len(),
{
    if s.len() > 0 && link_border(s.last()) {
        link_end(s.drop_last())
    } else {
        s
    }
}

/// `s` without what stands around a link.
pub open spec fn link_of(s: Seq<char>) -> Seq<char> {
    link_end(link_start(s))
}

/// What follows the last slash.
pub open spec fn last_segment(s: Seq<char>) -> Seq<char>
    decreases s.len(),
{
    if s.len() == 0 || s.last() == '/' {
        Seq::empty()
    } else {
        last_segment(s.drop_last()).push(s.last())
    }
}

/// The link to a gist that a word holds, and the id at its end.
pub open spec fn gist_in(word: Seq<char>) -> Option<(Seq<char>, Seq<char>)> {
    let url = link_of(word);
    if "https://gist.github.com/"@.is_prefix_of(url) && last_segment(url).len() > 0 {
        Some((url, last_segment(url)))
    } else {
        None
    }
}

/// The first of a list of words that holds the link to a gist.
pub open spec fn first_gist(words: Seq<Seq<char>>) -> Option<(Seq<char>, Seq<char>)>
    decreases words.len(),
{
    if words.len() == 0 {
        None
    } else {
        match gist_in(words[0]) {
            Some(gist) => Some(gist),
            None => first_gist(words.drop_first()),
        }
    }
}

fn is_link_border(c: char) -> (r: bool)
    ensures
        r == link_border(c),
{
    c == '"' || c == '\'' || c == ',' || c == ';' || c == '.' || c == '(' || c == ')'
}

/// Takes off what stands around a link.
fn link_in(word: &str) -> (r: &str)
    ensures
        r@ == link_of(word@),
{
    let n: usize = word.unicode_len();
    let mut start: usize = 0;
    assert(word@.skip(0) =~= word@);
    while start < n && is_link_border(word.get_char(start))
        invariant
            start <= n,
            n == word@.len(),
            link_start(word@) == link_start(word@.skip(start as int)),
        decreases n - start,
    {
        assert(word@.skip(start as int).drop_first() =~= word@.skip(start + 1));
        start = start + 1;
    }
    let ghost rest = link_start(word@);
    assert(rest == word@.skip(start as int));
    let mut end: usize = n;
    assert(rest.take(end - start) =~= rest);
    while end > start && is_link_border(word.get_char(end - 1))
        invariant
            start <= end <= n,
            n == word@.len(),
            rest == word@.skip(start as int),
            link_end(rest) == link_end(rest.take(end - start)),
        decreases end,
    {
        assert(rest.take(end - start).drop_last() =~= rest.take(end - 1 - start));
        end = end - 1;
    }
    assert(word@.subrange(start as int, end as int) =~= rest.take(end - start));
    word.substring_char(start, end)
}

/// Takes the part behind the last slash.
fn segment_in(url: &str) -> (r: &str)
    ensures
        r@ == last_segment(url@),
{
    let n: usize = url.unicode_len();
    let mut start: usize = n;
    assert(last_segment(url@) =~= last_segment(url@.take(n as int)) + url@.skip(n as int)) by {
        assert(url@.take(n as int) =~= url@);
    }
    while start > 0 && url.get_char(start - 1) != '/'
        invariant
            start <= n,
            n == url@.len(),
            last_segment(url@) == last_segment(url@.take(start as int)) + url@.skip(start as int),
        decreases start,
    {
        let ghost seen = url@.take(start as int);
        assert(seen.drop_last() =~= url@.take(start - 1));
        assert(last_segment(seen) =~= last_segment(url@.take(start - 1)).push(url@[start - 1]));
        assert(last_segment(url@) =~= last_segment(url@.take(start - 1)) + url@.skip(start - 1));
        start = start - 1;
    }
    assert(last_segment(url@.take(start as int)) =~= Seq::<char>::empty());
    assert(url@.subrange(start as int, n as int) =~= url@.skip(start as int));
    assert(last_segment(url@) =~= url@.skip(start as int));
    url.substring_char(start, n)
}

/// Whether a text starts with another.
fn starts_with(s: &str, prefix: &str) -> (r: bool)
    ensures
        r == prefix@.is_prefix_of(s@),
{
    let n: usize = prefix.unicode_len();
    if n > s.unicode_len() {
        return false;
    }
    assert(s@.subrange(0, n as int) =~= s@.take(n as int));
    same_text(s.substring_char(0, n), prefix)
}

/// Finds the link to a gist, and its id, in what the program that made it printed.
pub fn parse_gist_url_and_id(output: &str) -> (r: Option<(String, String)>)
    ensures
        match r {
            Some((url, id)) => first_gist(pieces(output@, false)) == Some((url@, id@)),
            None => first_gist(pieces(output@, false)) is None,
        },
{
    let words: Vec<String> = split_pieces(output, false);
    let ghost models = pieces(output@, false);
    let mut i: usize = 0;
    assert(models.skip(0) =~= models);
    while i < words.len()
        invariant
            i <= words@.len(),
            models == texts_view(words@),
            models == pieces(output@, false),
            first_gist(models) == first_gist(models.skip(i as int)),
        decreases words@.len() - i,
    {
        let url: &str = link_in(words[i].as_str());
        let id: &str = segment_in(url);
        assert(models.skip(i as int)[0] == words@[i as int]@);
        if starts_with(url, "https://gist.github.com/") && !id.is_empty() {
            return Some((url.to_owned(), id.to_owned()));
        }
        assert(models.skip(i as int).drop_first() =~= models.skip(i + 1));
        i = i + 1;
    }
    None
}

// ---------------------------------------------------------------------------------------------
// Laws
// ---------------------------------------------------------------------------------------------

/// A gist is described by the name of the session, where it has one, and else by the time.
pub proof fn law_descriptions(name: Seq<char>, stamp: Seq<char>)
    ensures
        description_of(Some(name), stamp) == "Pi session: "@ + name,
        description_of(None, stamp) == "Pi session "@ + stamp,
{
}

/// A stamp holds the letter `T`, ends with the letter `Z`, and has at least twenty characters.
pub proof fn law_stamps(s: Seq<char>)
    requires
        utc_stamp(s),
    ensures
        s.len() >= 20,
        s.last() == 'Z',
        s[s.len() - 10] == 'T',
        s[s.len() - 4] == ':' && s[s.len() - 7] == ':',
        s[s.len() - 13] == '-' && s[s.len() - 16] == '-',
{
    let at = choose|at: Moment| #[trigger] at.since_epoch() && s == at.stamp();
    reveal_with_fuel(decimal, 4);
    assert(decimal(at.year).len() >= 4) by {
        assert(at.year / 10 >= 10 && at.year / 10 / 10 >= 10);
    }
}

/// A word with the link to a gist gives that link, without what stands around it, and the part
/// behind its last slash.
pub proof fn law_link_is_found(
    before: Seq<char>,
    host: Seq<char>,
    id: Seq<char>,
    after: Seq<char>,
)
    requires
        forall|i: int| 0 <= i < before.len() ==> around_links().contains(#[trigger] before[i]),
        forall|i: int| 0 <= i < after.len() ==> around_links().contains(#[trigger] after[i]),
        host.len() > 0,
        host.last() == '/',
        "https://gist.github.com/"@.is_prefix_of(host + id),
        id.len() > 0,
        forall|i: int| 0 <= i < id.len() ==> #[trigger] id[i] != '/',
        !around_links().contains(id.last()),
    ensures
        gist_in(before + (host + id) + after) == Some((host + id, id)),
{
    let url = host + id;
    let word = before + url + after;
    reveal_strlit("https://gist.github.com/");
    assert("https://gist.github.com/"@[0] == 'h');
    assert(url[0] == 'h');
    assert(!around_links().contains('h')) by {
        lemma_around_links('h');
    }
    assert(url.last() == id.last());
    lemma_link_start(before, url + after);
    assert(before + (url + after) =~= word);
    lemma_link_end(url, after);
    lemma_last_segment(host, id);
}

/// What may stand around a link: quotation marks, punctuation, and round brackets.
pub open spec fn around_links() -> Seq<char> {
    seq!['"', '\'', ',', ';', '.', '(', ')']
}

proof fn lemma_around_links(c: char)
    ensures
        around_links().contains(c) == link_border(c),
{
    let all = around_links();
    assert(all[0] == '"' && all[1] == '\'' && all[2] == ',' && all[3] == ';' && all[4] == '.'
        && all[5] == '(' && all[6] == ')');
}

proof fn lemma_link_start(before: Seq<char>, rest: Seq<char>)
    requires
        forall|i: int| 0 <= i < before.len() ==> around_links().contains(#[trigger] before[i]),
        rest.len() > 0 && !around_links().contains(rest[0]),
    ensures
        link_start(before + rest) == rest,
    decreases before.len(),
{
    if before.len() > 0 {
        lemma_around_links(before[0]);
        assert(around_links().contains(before[0]));
        assert((before + rest).drop_first() =~= before.drop_first() + rest);
        lemma_link_start(before.drop_first(), rest);
    } else {
        lemma_around_links(rest[0]);
        assert(before + rest =~= rest);
    }
}

proof fn lemma_link_end(url: Seq<char>, after: Seq<char>)
    requires
        forall|i: int| 0 <= i < after.len() ==> around_links().contains(#[trigger] after[i]),
        url.len() > 0 && !around_links().contains(url.last()),
    ensures
        link_end(url + after) == url,
    decreases after.len(),
{
    if after.len() > 0 {
        lemma_around_links(after.last());
        assert(around_links().contains(after[after.len() - 1]));
        assert((url + after).drop_last() =~= url + after.drop_last());
        lemma_link_end(url, after.drop_last());
    } else {
        lemma_around_links(url.last());
        assert(url + after =~= url);
    }
}

proof fn lemma_last_segment(host: Seq<char>, id: Seq<char>)
    requires
        host.len() > 0,
        host.last() == '/',
        forall|i: int| 0 <= i < id.len() ==> #[trigger] id[i] != '/',
    ensures
        last_segment(host + id) == id,
    decreases id.len(),
{
    if id.len() > 0 {
        assert(id[id.len() - 1] != '/');
        assert((host + id).drop_last() =~= host + id.drop_last());
        lemma_last_segment(host, id.drop_last());
        assert(id.drop_last().push(id.last()) =~= id);
    } else {
        assert(host + id =~= host);
        assert(id =~= Seq::<char>::empty());
    }
}

/// What a word gives is a link to a gist and a part of that link behind a slash that holds none.
pub proof fn law_found_links_are_links(word: Seq<char>)
    ensures
        gist_in(word) matches Some((url, id)) ==> {
            &&& "https://gist.github.com/"@.is_prefix_of(url)
            &&& id.len() > 0
            &&& id.is_suffix_of(url)
            &&& !id.contains('/')
            &&& url.len() > id.len() ==> url[url.len() - id.len() - 1] == '/'
        },
{
    lemma_segment_is_suffix(link_of(word));
}

proof fn lemma_segment_is_suffix(s: Seq<char>)
    ensures
        last_segment(s).is_suffix_of(s),
        !last_segment(s).contains('/'),
        s.len() > last_segment(s).len() ==> s[s.len() - last_segment(s).len() - 1] == '/',
    decreases s.len(),
{
    let segment = last_segment(s);
    if s.len() > 0 && s.last() != '/' {
        let init = s.drop_last();
        lemma_segment_is_suffix(init);
        let part = last_segment(init);
        assert(segment == part.push(s.last()));
        assert(segment =~= s.subrange(s.len() - segment.len(), s.len() as int)) by {
            assert(part =~= init.subrange(init.len() - part.len(), init.len() as int));
            assert forall|i: int| 0 <= i < segment.len() implies segment[i] == s.subrange(
                s.len() - segment.len(),
                s.len() as int,
            )[i] by {
                if i < part.len() {
                    assert(part[i] == init.subrange(
                        init.len() - part.len(),
                        init.len() as int,
                    )[i]);
                }
            }
        }
        assert forall|i: int| 0 <= i < segment.len() implies segment[i] != '/' by {
            if i < part.len() {
                assert(part.contains(part[i]));
            }
        }
    }
}

/// The first word with a link is the one that counts.
pub proof fn law_first_link_counts(word: Seq<char>, words: Seq<Seq<char>>)
    ensures
        gist_in(word) is Some ==> first_gist(seq![word] + words) == gist_in(word),
        gist_in(word) is None ==> first_gist(seq![word] + words) == first_gist(words),
        first_gist(Seq::empty()) is None,
{
    assert((seq![word] + words).drop_first() =~= words);
}

} // verus!
