//! The commands the bot understands, and how a chat message is read as one.

use crate::text::{
    chars_of, is_whitespace, joined, lemma_joined_len, lemma_leading_run,
    lemma_leading_run_bounds, lemma_trimmed_is_tight, lemma_words_are_nonempty,
    lemma_words_nonempty, matches_at, remove_all, trim, trimmed, without, word_ranges, words,
};
use crate::util::{extract_urls, found_urls};
use vstd::prelude::*;
use vstd::string::*;

verus! {

/// A command of the bot.
///
/// * `Ping`: answer with a fixed acknowledgement
/// * `Roll`: play a round of doubles about the given text
/// * `Download`: fetch the video behind a link
/// * `Search`: fetch the first video a site search finds
/// * `Noop`: the message is not a command
#[derive(Debug, Clone, Copy, PartialEq, Eq, Structural)]
pub enum BotCommand {
    Ping,
    Roll,
    Download,
    Search,
    Noop,
}

impl BotCommand {
    /// The word that names the command. `Ping`, `Roll` and `Search` are
    /// triggered by theirs; the other two names only serve diagnostics.
    pub open spec fn keyword(self) -> Seq<char> {
        match self {
            BotCommand::Ping => "ping"@,
            BotCommand::Roll => "tuplilla"@,
            BotCommand::Search => "s"@,
            BotCommand::Download => "dl"@,
            BotCommand::Noop => "noop"@,
        }
    }

    /// The help text of the command; empty for commands without one.
    pub open spec fn description(self) -> Seq<char> {
        match self {
            BotCommand::Roll => "Dubz"@,
            BotCommand::Search => "Search for a video from youtube"@,
            BotCommand::Download => "Download a video from a link"@,
            _ => Seq::empty(),
        }
    }

    /// How many arguments a parsed command of this kind carries.
    pub open spec fn arity(self) -> nat {
        match self {
            BotCommand::Ping => 0,
            BotCommand::Roll => 1,
            BotCommand::Download => 2,
            BotCommand::Search => 1,
            BotCommand::Noop => 0,
        }
    }

    /// The word that names the command.
    pub fn to_string(&self) -> (r: &str)
        ensures
            r@ == self.keyword(),
    {
        match self {
            BotCommand::Ping => "ping",
            BotCommand::Roll => "tuplilla",
            BotCommand::Search => "s",
            BotCommand::Download => "dl",
            BotCommand::Noop => "noop",
        }
    }

    /// The help text of the command.
    pub fn to_description(&self) -> (r: &str)
        ensures
            r@ == self.description(),
    {
        proof {
            reveal_strlit("");
        }
        let r = match self {
            BotCommand::Roll => "Dubz",
            BotCommand::Search => "Search for a video from youtube",
            BotCommand::Download => "Download a video from a link",
            _ => "",
        };
        r
    }
}

/// The separator that `argument` puts between words.
pub open spec fn space() -> Seq<char> {
    seq![' ']
}

/// The words of `text` joined by single spaces, leaving out the first word
/// if it begins with `keyword`.
pub open spec fn argument(text: Seq<char>, keyword: Seq<char>) -> Seq<char> {
    let w = words(text);
    if w.len() > 0 && keyword.is_prefix_of(w[0]) {
        joined(w.skip(1), space())
    } else {
        joined(w, space())
    }
}

/// What `parse_command` makes of `text`, given the links `urls` found in the
/// trimmed text. In order of precedence:
///
/// 1. text that begins with the ping keyword is `Ping`;
/// 2. text that begins with the roll keyword and has an argument is `Roll`;
/// 3. text that begins with the search keyword and has an argument is
///    `Search`;
/// 4. text with a link is `Download`, with the first link and what is left of
///    the text once that link is taken out of it;
/// 5. everything else is `Noop`.
pub open spec fn parsed(text: Seq<char>, urls: Seq<Seq<char>>) -> (BotCommand, Seq<Seq<char>>) {
    let t = trimmed(text);
    if BotCommand::Ping.keyword().is_prefix_of(t) {
        (BotCommand::Ping, Seq::empty())
    } else if BotCommand::Roll.keyword().is_prefix_of(t) && argument(
        t,
        BotCommand::Roll.keyword(),
    ).len() > 0 {
        (BotCommand::Roll, seq![argument(t, BotCommand::Roll.keyword())])
    } else if BotCommand::Search.keyword().is_prefix_of(t) && argument(
        t,
        BotCommand::Search.keyword(),
    ).len() > 0 {
        (BotCommand::Search, seq![argument(t, BotCommand::Search.keyword())])
    } else if urls.len() > 0 {
        (BotCommand::Download, seq![urls[0], trimmed(without(t, urls[0]))])
    } else {
        (BotCommand::Noop, Seq::empty())
    }
}

/// Whether `keyword` is made of characters that are not whitespace.
pub open spec fn is_solid(keyword: Seq<char>) -> bool {
    keyword.len() > 0 && forall|i: int|
        0 <= i < keyword.len() ==> !is_whitespace(#[trigger] keyword[i])
}

/// A keyword at the front of a text is the front of its first word, so the
/// argument is what follows the first word: it is empty exactly when the
/// text is that one word.
pub proof fn lemma_argument_follows_first_word(text: Seq<char>, keyword: Seq<char>)
    requires
        is_solid(keyword),
        keyword.is_prefix_of(text),
    ensures
        words(text).len() > 0,
        keyword.is_prefix_of(words(text)[0]),
        argument(text, keyword) == joined(words(text).skip(1), space()),
        argument(text, keyword).len() > 0 <==> words(text).len() > 1,
{
    let w = words(text);
    assert(text[0] == keyword[0]);
    lemma_words_nonempty(text);
    lemma_leading_run(text, true, 0);
    assert(text.skip(0) == text);
    lemma_leading_run_bounds(text, false);
    lemma_words_are_nonempty(text);
    lemma_joined_len(w.skip(1), space());
}

/// `Roll` and `Search` are only read from a keyword that is followed by an
/// argument: a message that is a single word is never one of them, whatever
/// links it holds.
pub proof fn lemma_bare_keyword_is_no_command(text: Seq<char>, urls: Seq<Seq<char>>)
    requires
        words(trimmed(text)).len() <= 1,
    ensures
        parsed(text, urls).0 != BotCommand::Roll,
        parsed(text, urls).0 != BotCommand::Search,
{
    let t = trimmed(text);
    reveal_strlit("tuplilla");
    reveal_strlit("s");
    if BotCommand::Roll.keyword().is_prefix_of(t) {
        lemma_argument_follows_first_word(t, BotCommand::Roll.keyword());
    }
    if BotCommand::Search.keyword().is_prefix_of(t) {
        lemma_argument_follows_first_word(t, BotCommand::Search.keyword());
    }
}

/// Whitespace around a text plays no part in how it is read.
pub proof fn lemma_parse_ignores_outer_whitespace(text: Seq<char>, urls: Seq<Seq<char>>)
    ensures
        parsed(trimmed(text), urls) == parsed(text, urls),
{
    lemma_trimmed_is_tight(text);
}

/// Every text is read as exactly one command, which carries as many
/// arguments as its kind has.
pub proof fn lemma_parse_is_total(text: Seq<char>, urls: Seq<Seq<char>>)
    ensures
        parsed(text, urls).1.len() == parsed(text, urls).0.arity(),
        parsed(text, urls).0 == BotCommand::Noop <==> !BotCommand::Ping.keyword().is_prefix_of(
            trimmed(text),
        ) && parsed(text, urls).0 != BotCommand::Roll && parsed(text, urls).0
            != BotCommand::Search && urls.len() == 0,
{
}

/// The words of `input` after the command word, joined by single spaces.
///
/// A command word may carry a suffix, as in `/command@botname args`, so the
/// whole first word is dropped when it begins with the keyword of `cmd`.
pub fn get_arg(input: &str, cmd: &BotCommand) -> (r: String)
    ensures
        r@ == argument(input@, cmd.keyword()),
{
    let v = chars_of(input);
    let key = chars_of(cmd.to_string());
    let ranges = word_ranges(&v, 0, v.len());
    let ghost w = words(input@);
    proof {
        assert(v@.subrange(0, v.len() as int) == input@);
    }
    let start: usize = if ranges.len() > 0 && matches_at(&v, ranges[0].0, ranges[0].1, &key) {
        1
    } else {
        0
    };
    let mut out = String::new();
    let mut k: usize = start;
    while k < ranges.len()
        invariant
            v@ == input@,
            w == words(input@),
            ranges@.len() == w.len(),
            forall|j: int|
                0 <= j < ranges@.len() ==> (#[trigger] ranges@[j]).0 < ranges@[j].1 <= v.len()
                    && input@.subrange(ranges@[j].0 as int, ranges@[j].1 as int) == w[j],
            start <= k <= ranges.len(),
            out@ == joined(w.subrange(start as int, k as int), space()),
        decreases ranges.len() - k,
    {
        let (a, b) = ranges[k];
        proof {
            reveal_strlit(" ");
            let upto = w.subrange(start as int, k + 1);
            assert(upto.drop_last() == w.subrange(start as int, k as int));
        }
        if k > start {
            out.append(" ");
        }
        out.append(input.substring_char(a, b));
        k += 1;
    }
    proof {
        assert(w.skip(0) == w);
    }
    out
}

/// Reads `input` as a command, given the links `urls` that were found in it.
pub fn parse_command_with_urls(input: &str, urls: &Vec<String>) -> (r: (BotCommand, Vec<String>))
    ensures
        r.0 == parsed(input@, urls.deep_view()).0,
        r.1.deep_view() == parsed(input@, urls.deep_view()).1,
        r.1.len() == r.0.arity(),
{
    let t = trim(input);
    let tv = chars_of(t);
    proof {
        reveal_strlit("ping");
        reveal_strlit("tuplilla");
        reveal_strlit("s");
    }
    if matches_at(&tv, 0, tv.len(), &chars_of(BotCommand::Ping.to_string())) {
        let args: Vec<String> = Vec::new();
        return (BotCommand::Ping, args);
    }
    if matches_at(&tv, 0, tv.len(), &chars_of(BotCommand::Roll.to_string())) {
        let arg = get_arg(t, &BotCommand::Roll);
        if arg.as_str().unicode_len() > 0 {
            let mut args: Vec<String> = Vec::new();
            args.push(arg);
            return (BotCommand::Roll, args);
        }
    }
    if matches_at(&tv, 0, tv.len(), &chars_of(BotCommand::Search.to_string())) {
        let arg = get_arg(t, &BotCommand::Search);
        if arg.as_str().unicode_len() > 0 {
            let mut args: Vec<String> = Vec::new();
            args.push(arg);
            return (BotCommand::Search, args);
        }
    }
    if urls.len() > 0 {
        let url = urls[0].clone();
        let rest = remove_all(t, url.as_str());
        let leftover = trim(rest.as_str()).to_owned();
        let mut args: Vec<String> = Vec::new();
        args.push(url);
        args.push(leftover);
        return (BotCommand::Download, args);
    }
    let args: Vec<String> = Vec::new();
    (BotCommand::Noop, args)
}

/// Reads a chat message as a command with its arguments. Never fails: a
/// message that is no command is `Noop`.
pub fn parse_command(input: &str) -> (r: (BotCommand, Vec<String>))
    ensures
        r.0 == parsed(input@, found_urls(trimmed(input@))).0,
        r.1.deep_view() == parsed(input@, found_urls(trimmed(input@))).1,
        r.1.len() == r.0.arity(),
{
    let urls = extract_urls(trim(input));
    parse_command_with_urls(input, &urls)
}

} // verus!
