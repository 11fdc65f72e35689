//! The commands that the user types behind a slash.
use vstd::prelude::*;
use vstd::string::*;

use crate::text::{
    folds_ascii, is_white_space, lemma_trimmed_idempotent, lemma_trimmed_keeps, lowercase,
    same_text, to_lowercase, trim, trim_start_spec, trimmed, white_space,
};

verus! {

broadcast use vstd::string::group_string_axioms;

/// A command.
#[derive(Clone, Copy, Debug, PartialEq, Eq, Structural)]
pub enum SlashCommand {
    Help,
    Login,
    Logout,
    Clear,
    Model,
    Thinking,
    Exit,
    History,
    Export,
    Session,
    Settings,
    Theme,
    Resume,
    New,
    Copy,
    Name,
    Hotkeys,
    Changelog,
    Tree,
    Fork,
    Compact,
    Reload,
    Share,
}

impl SlashCommand {
    /// The command that a lower case name, with its slash, stands for.
    pub open spec fn named(name: Seq<char>) -> Option<SlashCommand> {
        if name == "/help"@ || name == "/h"@ || name == "/?"@ {
            Some(SlashCommand::Help)
        } else if name == "/login"@ {
            Some(SlashCommand::Login)
        } else if name == "/logout"@ {
            Some(SlashCommand::Logout)
        } else if name == "/clear"@ || name == "/cls"@ {
            Some(SlashCommand::Clear)
        } else if name == "/model"@ || name == "/m"@ {
            Some(SlashCommand::Model)
        } else if name == "/thinking"@ || name == "/think"@ || name == "/t"@ {
            Some(SlashCommand::Thinking)
        } else if name == "/exit"@ || name == "/quit"@ || name == "/q"@ {
            Some(SlashCommand::Exit)
        } else if name == "/history"@ {
            Some(SlashCommand::History)
        } else if name == "/export"@ {
            Some(SlashCommand::Export)
        } else if name == "/session"@ || name == "/info"@ {
            Some(SlashCommand::Session)
        } else if name == "/settings"@ {
            Some(SlashCommand::Settings)
        } else if name == "/theme"@ {
            Some(SlashCommand::Theme)
        } else if name == "/resume"@ || name == "/r"@ {
            Some(SlashCommand::Resume)
        } else if name == "/new"@ {
            Some(SlashCommand::New)
        } else if name == "/copy"@ || name == "/cp"@ {
            Some(SlashCommand::Copy)
        } else if name == "/name"@ {
            Some(SlashCommand::Name)
        } else if name == "/hotkeys"@ {
            Some(SlashCommand::Hotkeys)
        } else if name == "/changelog"@ {
            Some(SlashCommand::Changelog)
        } else if name == "/tree"@ {
            Some(SlashCommand::Tree)
        } else if name == "/fork"@ {
            Some(SlashCommand::Fork)
        } else if name == "/compact"@ {
            Some(SlashCommand::Compact)
        } else if name == "/reload"@ {
            Some(SlashCommand::Reload)
        } else if name == "/share"@ {
            Some(SlashCommand::Share)
        } else {
            None
        }
    }

    /// The command that a lower case name, with its slash, stands for.
    pub fn from_name(name: &str) -> (r: Option<SlashCommand>)
        ensures
            r == SlashCommand::named(name@),
    {
        if same_text(name, "/help") || same_text(name, "/h") || same_text(name, "/?") {
            Some(SlashCommand::Help)
        } else if same_text(name, "/login") {
            Some(SlashCommand::Login)
        } else if same_text(name, "/logout") {
            Some(SlashCommand::Logout)
        } else if same_text(name, "/clear") || same_text(name, "/cls") {
            Some(SlashCommand::Clear)
        } else if same_text(name, "/model") || same_text(name, "/m") {
            Some(SlashCommand::Model)
        } else if same_text(name, "/thinking") || same_text(name, "/think") || same_text(
            name,
            "/t",
        ) {
            Some(SlashCommand::Thinking)
        } else if same_text(name, "/exit") || same_text(name, "/quit") || same_text(name, "/q") {
            Some(SlashCommand::Exit)
        } else if same_text(name, "/history") {
            Some(SlashCommand::History)
        } else if same_text(name, "/export") {
            Some(SlashCommand::Export)
        } else if same_text(name, "/session") || same_text(name, "/info") {
            Some(SlashCommand::Session)
        } else if same_text(name, "/settings") {
            Some(SlashCommand::Settings)
        } else if same_text(name, "/theme") {
            Some(SlashCommand::Theme)
        } else if same_text(name, "/resume") || same_text(name, "/r") {
            Some(SlashCommand::Resume)
        } else if same_text(name, "/new") {
            Some(SlashCommand::New)
        } else if same_text(name, "/copy") || same_text(name, "/cp") {
            Some(SlashCommand::Copy)
        } else if same_text(name, "/name") {
            Some(SlashCommand::Name)
        } else if same_text(name, "/hotkeys") {
            Some(SlashCommand::Hotkeys)
        } else if same_text(name, "/changelog") {
            Some(SlashCommand::Changelog)
        } else if same_text(name, "/tree") {
            Some(SlashCommand::Tree)
        } else if same_text(name, "/fork") {
            Some(SlashCommand::Fork)
        } else if same_text(name, "/compact") {
            Some(SlashCommand::Compact)
        } else if same_text(name, "/reload") {
            Some(SlashCommand::Reload)
        } else if same_text(name, "/share") {
            Some(SlashCommand::Share)
        } else {
            None
        }
    }
}

/// The number of characters before the first white space, or of all where there is none.
pub open spec fn word_len(s: Seq<char>) -> nat
    decreases s.len(),
{
    if s.len() == 0 || white_space(s.first()) {
        0
    } else {
        1 + word_len(s.drop_first())
    }
}

/// Whether an input starts with a slash, white space aside.
pub open spec fn has_slash(input: Seq<char>) -> bool {
    trimmed(input).len() > 0 && trimmed(input).first() == '/'
}

/// The first word of an input.
pub open spec fn command_word(input: Seq<char>) -> Seq<char> {
    trimmed(input).take(word_len(trimmed(input)) as int)
}

/// What follows the first word of an input.
pub open spec fn command_args(input: Seq<char>) -> Seq<char> {
    trimmed(trimmed(input).skip(word_len(trimmed(input)) as int))
}

/// The command that an input stands for, and its arguments.
pub open spec fn command_of(input: Seq<char>) -> Option<(SlashCommand, Seq<char>)> {
    if !has_slash(input) {
        None
    } else {
        match SlashCommand::named(lowercase(command_word(input))) {
            Some(command) => Some((command, command_args(input))),
            None => None,
        }
    }
}

/// Where the first word of a text ends.
fn word_end(s: &str) -> (end: usize)
    ensures
        end == word_len(s@),
        end <= s@.len(),
{
    let n: usize = s.unicode_len();
    let mut end: usize = 0;
    assert(s@.skip(0) =~= s@);
    while end < n && !is_white_space(s.get_char(end))
        invariant
            end <= n,
            n == s@.len(),
            word_len(s@) == end + word_len(s@.skip(end as int)),
        decreases n - end,
    {
        assert(s@.skip(end as int).drop_first() =~= s@.skip(end + 1));
        end = end + 1;
    }
    end
}

impl SlashCommand {
    /// Reads a command: a name behind a slash, in any case, and its arguments. Anything else is
    /// no command.
    pub fn parse(input: &str) -> (r: Option<(SlashCommand, &str)>)
        ensures
            match r {
                Some((command, args)) => command_of(input@) == Some((command, args@)),
                None => command_of(input@) is None,
            },
            has_slash(input@) ==> folds_ascii(command_word(input@)),
    {
        let typed: &str = trim(input);
        let n: usize = typed.unicode_len();
        if n == 0 || typed.get_char(0) != '/' {
            return None;
        }
        let end: usize = word_end(typed);
        assert(typed@.subrange(0, end as int) =~= typed@.take(end as int));
        assert(typed@.subrange(end as int, n as int) =~= typed@.skip(end as int));
        let name: String = to_lowercase(typed.substring_char(0, end));
        match SlashCommand::from_name(name.as_str()) {
            Some(command) => Some((command, trim(typed.substring_char(end, n)))),
            None => None,
        }
    }
}

// ---------------------------------------------------------------------------------------------
// Laws
// ---------------------------------------------------------------------------------------------

/// The names of every command.
#[verifier::rlimit(60)]
pub proof fn law_command_names(name: Seq<char>)
    ensures
        SlashCommand::named(name) == Some(SlashCommand::Help) <==> name == "/help"@
            || name == "/h"@ || name == "/?"@,
        SlashCommand::named(name) == Some(SlashCommand::Login) <==> name == "/login"@,
        SlashCommand::named(name) == Some(SlashCommand::Logout) <==> name == "/logout"@,
        SlashCommand::named(name) == Some(SlashCommand::Clear) <==> name == "/clear"@
            || name == "/cls"@,
        SlashCommand::named(name) == Some(SlashCommand::Model) <==> name == "/model"@
            || name == "/m"@,
        SlashCommand::named(name) == Some(SlashCommand::Thinking) <==> name == "/thinking"@
            || name == "/think"@ || name == "/t"@,
        SlashCommand::named(name) == Some(SlashCommand::Exit) <==> name == "/exit"@
            || name == "/quit"@ || name == "/q"@,
        SlashCommand::named(name) == Some(SlashCommand::History) <==> name == "/history"@,
        SlashCommand::named(name) == Some(SlashCommand::Export) <==> name == "/export"@,
        SlashCommand::named(name) == Some(SlashCommand::Session) <==> name == "/session"@
            || name == "/info"@,
        SlashCommand::named(name) == Some(SlashCommand::Settings) <==> name == "/settings"@,
        SlashCommand::named(name) == Some(SlashCommand::Theme) <==> name == "/theme"@,
        SlashCommand::named(name) == Some(SlashCommand::Resume) <==> name == "/resume"@
            || name == "/r"@,
        SlashCommand::named(name) == Some(SlashCommand::New) <==> name == "/new"@,
        SlashCommand::named(name) == Some(SlashCommand::Copy) <==> name == "/copy"@
            || name == "/cp"@,
        SlashCommand::named(name) == Some(SlashCommand::Name) <==> name == "/name"@,
        SlashCommand::named(name) == Some(SlashCommand::Hotkeys) <==> name == "/hotkeys"@,
        SlashCommand::named(name) == Some(SlashCommand::Changelog) <==> name == "/changelog"@,
        SlashCommand::named(name) == Some(SlashCommand::Tree) <==> name == "/tree"@,
        SlashCommand::named(name) == Some(SlashCommand::Fork) <==> name == "/fork"@,
        SlashCommand::named(name) == Some(SlashCommand::Compact) <==> name == "/compact"@,
        SlashCommand::named(name) == Some(SlashCommand::Reload) <==> name == "/reload"@,
        SlashCommand::named(name) == Some(SlashCommand::Share) <==> name == "/share"@,
{
    reveal_strlit("/help");
    reveal_strlit("/h");
    reveal_strlit("/?");
    reveal_strlit("/login");
    reveal_strlit("/logout");
    reveal_strlit("/clear");
    reveal_strlit("/cls");
    reveal_strlit("/model");
    reveal_strlit("/m");
    reveal_strlit("/thinking");
    reveal_strlit("/think");
    reveal_strlit("/t");
    reveal_strlit("/exit");
    reveal_strlit("/quit");
    reveal_strlit("/q");
    reveal_strlit("/history");
    reveal_strlit("/export");
    reveal_strlit("/session");
    reveal_strlit("/info");
    reveal_strlit("/settings");
    reveal_strlit("/theme");
    reveal_strlit("/resume");
    reveal_strlit("/r");
    reveal_strlit("/new");
    reveal_strlit("/copy");
    reveal_strlit("/cp");
    reveal_strlit("/name");
    reveal_strlit("/hotkeys");
    reveal_strlit("/changelog");
    reveal_strlit("/tree");
    reveal_strlit("/fork");
    reveal_strlit("/compact");
    reveal_strlit("/reload");
    reveal_strlit("/share");
    assert("/help"@.len() == 5);
    assert("/help"@[1] == 'h' && "/help"@[2] == 'e' && "/help"@[3] == 'l');
    assert("/h"@.len() == 2);
    assert("/h"@[1] == 'h');
    assert("/?"@.len() == 2);
    assert("/?"@[1] == '?');
    assert("/login"@.len() == 6);
    assert("/login"@[1] == 'l' && "/login"@[2] == 'o' && "/login"@[3] == 'g');
    assert("/logout"@.len() == 7);
    assert("/logout"@[1] == 'l' && "/logout"@[2] == 'o' && "/logout"@[3] == 'g');
    assert("/clear"@.len() == 6);
    assert("/clear"@[1] == 'c' && "/clear"@[2] == 'l' && "/clear"@[3] == 'e');
    assert("/cls"@.len() == 4);
    assert("/cls"@[1] == 'c' && "/cls"@[2] == 'l' && "/cls"@[3] == 's');
    assert("/model"@.len() == 6);
    assert("/model"@[1] == 'm' && "/model"@[2] == 'o' && "/model"@[3] == 'd');
    assert("/m"@.len() == 2);
    assert("/m"@[1] == 'm');
    assert("/thinking"@.len() == 9);
    assert("/thinking"@[1] == 't' && "/thinking"@[2] == 'h' && "/thinking"@[3] == 'i');
    assert("/think"@.len() == 6);
    assert("/think"@[1] == 't' && "/think"@[2] == 'h' && "/think"@[3] == 'i');
    assert("/t"@.len() == 2);
    assert("/t"@[1] == 't');
    assert("/exit"@.len() == 5);
    assert("/exit"@[1] == 'e' && "/exit"@[2] == 'x' && "/exit"@[3] == 'i');
    assert("/quit"@.len() == 5);
    assert("/quit"@[1] == 'q' && "/quit"@[2] == 'u' && "/quit"@[3] == 'i');
    assert("/q"@.len() == 2);
    assert("/q"@[1] == 'q');
    assert("/history"@.len() == 8);
    assert("/history"@[1] == 'h' && "/history"@[2] == 'i' && "/history"@[3] == 's');
    assert("/export"@.len() == 7);
    assert("/export"@[1] == 'e' && "/export"@[2] == 'x' && "/export"@[3] == 'p');
    assert("/session"@.len() == 8);
    assert("/session"@[1] == 's' && "/session"@[2] == 'e' && "/session"@[3] == 's');
    assert("/info"@.len() == 5);
    assert("/info"@[1] == 'i' && "/info"@[2] == 'n' && "/info"@[3] == 'f');
    assert("/settings"@.len() == 9);
    assert("/settings"@[1] == 's' && "/settings"@[2] == 'e' && "/settings"@[3] == 't');
    assert("/theme"@.len() == 6);
    assert("/theme"@[1] == 't' && "/theme"@[2] == 'h' && "/theme"@[3] == 'e');
    assert("/resume"@.len() == 7);
    assert("/resume"@[1] == 'r' && "/resume"@[2] == 'e' && "/resume"@[3] == 's');
    assert("/r"@.len() == 2);
    assert("/r"@[1] == 'r');
    assert("/new"@.len() == 4);
    assert("/new"@[1] == 'n' && "/new"@[2] == 'e' && "/new"@[3] == 'w');
    assert("/copy"@.len() == 5);
    assert("/copy"@[1] == 'c' && "/copy"@[2] == 'o' && "/copy"@[3] == 'p');
    assert("/cp"@.len() == 3);
    assert("/cp"@[1] == 'c' && "/cp"@[2] == 'p');
    assert("/name"@.len() == 5);
    assert("/name"@[1] == 'n' && "/name"@[2] == 'a' && "/name"@[3] == 'm');
    assert("/hotkeys"@.len() == 8);
    assert("/hotkeys"@[1] == 'h' && "/hotkeys"@[2] == 'o' && "/hotkeys"@[3] == 't');
    assert("/changelog"@.len() == 10);
    assert("/changelog"@[1] == 'c' && "/changelog"@[2] == 'h' && "/changelog"@[3] == 'a');
    assert("/tree"@.len() == 5);
    assert("/tree"@[1] == 't' && "/tree"@[2] == 'r' && "/tree"@[3] == 'e');
    assert("/fork"@.len() == 5);
    assert("/fork"@[1] == 'f' && "/fork"@[2] == 'o' && "/fork"@[3] == 'r');
    assert("/compact"@.len() == 8);
    assert("/compact"@[1] == 'c' && "/compact"@[2] == 'o' && "/compact"@[3] == 'm');
    assert("/reload"@.len() == 7);
    assert("/reload"@[1] == 'r' && "/reload"@[2] == 'e' && "/reload"@[3] == 'l');
    assert("/share"@.len() == 6);
    assert("/share"@[1] == 's' && "/share"@[2] == 'h' && "/share"@[3] == 'a');
}

/// A command and its arguments: a word behind a slash, and what follows the white space behind it,
/// without white space around either. The case of the word does not matter beyond its lower case.
pub proof fn law_command_and_arguments(word: Seq<char>, c: char, args: Seq<char>)
    requires
        word.len() > 0,
        word[0] == '/',
        forall|i: int| 0 <= i < word.len() ==> !white_space(#[trigger] word[i]),
        white_space(c),
        args.len() > 0,
        !white_space(args[0]),
        !white_space(args.last()),
    ensures
        match SlashCommand::named(lowercase(word)) {
            Some(command) => {
                &&& command_of(word) == Some((command, Seq::<char>::empty()))
                &&& command_of(word + seq![c] + args) == Some((command, args))
            },
            None => command_of(word) is None && command_of(word + seq![c] + args) is None,
        },
{
    let whole = word + seq![c] + args;
    assert(!white_space(word[0]));
    assert(!white_space(word[word.len() - 1]));
    assert(whole.first() == word[0]);
    assert(whole.last() == args.last());
    lemma_trimmed_keeps(word);
    lemma_trimmed_keeps(whole);
    lemma_word_len(word, Seq::empty());
    lemma_word_len(word, seq![c] + args);
    assert(word + Seq::<char>::empty() =~= word);
    assert(word + (seq![c] + args) =~= whole);
    assert(word.take(word.len() as int) =~= word);
    assert(whole.take(word.len() as int) =~= word);
    let rest = whole.skip(word.len() as int);
    assert(rest =~= seq![c] + args);
    assert(rest.drop_first() =~= args);
    lemma_trimmed_keeps(args);
    assert(trim_start_spec(rest) == trim_start_spec(args));
    assert(trim_start_spec(args) == args);
    assert(word.skip(word.len() as int) =~= Seq::<char>::empty());
    lemma_trimmed_keeps(Seq::<char>::empty());
}

/// What does not start with a slash, white space aside, is no command, and white space around an
/// input does not matter.
pub proof fn law_commands_need_a_slash(input: Seq<char>)
    ensures
        trimmed(input).len() == 0 || trimmed(input)[0] != '/' ==> command_of(input) is None,
        command_of(trimmed(input)) == command_of(input),
{
    lemma_trimmed_idempotent(input);
}

proof fn lemma_word_len(word: Seq<char>, rest: Seq<char>)
    requires
        forall|i: int| 0 <= i < word.len() ==> !white_space(#[trigger] word[i]),
        rest.len() > 0 ==> white_space(rest[0]),
    ensures
        word_len(word + rest) == word.len(),
    decreases word.len(),
{
    if word.len() > 0 {
        assert(!white_space(word[0]));
        assert((word + rest).drop_first() =~= word.drop_first() + rest);
        lemma_word_len(word.drop_first(), rest);
    } else {
        assert(word + rest =~= rest);
    }
}

} // verus!
