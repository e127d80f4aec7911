//! Link recognition, command markers, dice and configuration names.

use crate::text::{
    chars_of, lemma_trimmed_is_tight, matches_at, same_text, strip_leading_range,
    strip_trailing_range, trim, trim_range, trimmed, without_leading, without_trailing,
};
use rand::Rng;
use vstd::prelude::*;
use vstd::string::*;

verus! {

/// The pattern of a web link: a scheme, a `www` host or a bare domain with a
/// path, then characters that are neither whitespace nor angle or round
/// brackets (balanced round brackets may be nested twice), not ending in
/// punctuation.
pub const URL_PATTERN: &'static str =
    r#"(?i)\b((?:https?://|www\d{0,3}[.]|[a-z0-9.\-]+[.][a-z]{2,4}/)(?:[^\s()<>]+|\(([^\s()<>]+|(\([^\s()<>]+\)))*\))+(?:\(([^\s()<>]+|(\([^\s()<>]+\)))*\)|[^\s`!()\[\]{};:'".,<>?«»“”‘’]))"#;

/// What the regular expression engine finds for `pattern` in `text`: `None`
/// where `pattern` is not a regular expression that the engine accepts, else
/// the text of each match.
pub uninterp spec fn regex_matches(pattern: Seq<char>, text: Seq<char>) -> Option<Seq<Seq<char>>>;

/// Whether the elements of `found` occur in `text` one after the other,
/// without overlap, none of them before position `from`.
pub open spec fn occur_in_order(text: Seq<char>, found: Seq<Seq<char>>, from: int) -> bool
    decreases found.len(),
{
    found.len() == 0 || exists|at: int|
        from <= at && at + found[0].len() <= text.len() && #[trigger] text.subrange(
            at,
            at + found[0].len(),
        ) == found[0] && occur_in_order(text, found.drop_first(), at + found[0].len())
}

/// Runs `regex::Regex::new` on `pattern` and, where that succeeds,
/// `regex::Regex::find_iter` on `text`.
///
/// Trusted: the result is a function of the two arguments alone, it is `None`
/// exactly when the pattern is rejected, and the matches come as the engine
/// documents them, successive and non-overlapping, each one a piece of `text`.
#[verifier::external_body]
fn find_all(pattern: &str, text: &str) -> (r: Option<Vec<String>>)
    ensures
        r.deep_view() == regex_matches(pattern@, text@),
        r matches Some(found) ==> occur_in_order(text@, found.deep_view(), 0),
{
    match regex::Regex::new(pattern) {
        Ok(re) => Some(re.find_iter(text).map(|m| m.as_str().to_string()).collect()),
        Err(_) => None,
    }
}

/// The links in `text`, left to right; none where nothing matches.
pub open spec fn found_urls(text: Seq<char>) -> Seq<Seq<char>> {
    match regex_matches(URL_PATTERN@, text) {
        Some(found) => found,
        None => Seq::empty(),
    }
}

/// Finds the links in `input`, in the order in which they occur.
pub fn extract_urls(input: &str) -> (urls: Vec<String>)
    ensures
        urls.deep_view() == found_urls(input@),
        occur_in_order(input@, urls.deep_view(), 0),
{
    match find_all(URL_PATTERN, input) {
        Some(found) => found,
        None => Vec::new(),
    }
}

/// Whether `msg` is marked as addressed to the bot: it ends in ` dl`, or
/// begins with `!` or `/`.
pub open spec fn is_marked(msg: Seq<char>) -> bool {
    ||| " dl"@.is_suffix_of(msg)
    ||| "!"@.is_prefix_of(msg)
    ||| "/"@.is_prefix_of(msg)
}

/// `msg` without its markers: trimmed, freed of every leading `!`, then of
/// every leading `/`, then of every trailing ` dl`, and trimmed after each
/// step.
pub open spec fn unmarked(msg: Seq<char>) -> Seq<char> {
    let plain = trimmed(without_leading(trimmed(msg), "!"@));
    let bare = trimmed(without_leading(plain, "/"@));
    trimmed(without_trailing(bare, " dl"@))
}

/// A message without its markers has no whitespace around it.
pub proof fn lemma_unmarked_is_trimmed(text: Seq<char>)
    ensures
        trimmed(unmarked(text)) == unmarked(text),
{
    let plain = trimmed(without_leading(trimmed(text), "!"@));
    let bare = trimmed(without_leading(plain, "/"@));
    lemma_trimmed_is_tight(without_trailing(bare, " dl"@));
}

/// Whether a message carries one of the markers by which the bot is
/// addressed. The markers have no letters, so case plays no part.
pub fn has_command_prefix_or_postfix(msg: &str) -> (r: bool)
    ensures
        r == is_marked(msg@),
{
    let v = chars_of(msg);
    let n = v.len();
    let ending = chars_of(" dl");
    let at_end = if ending.len() <= n {
        let hit = matches_at(&v, n - ending.len(), n, &ending);
        hit
    } else {
        false
    };
    at_end || matches_at(&v, 0, n, &chars_of("!")) || matches_at(&v, 0, n, &chars_of("/"))
}

/// Removes the markers by which the bot is addressed from a message.
pub fn remove_command_prefix_and_postfix(msg: &str) -> (r: String)
    ensures
        r@ == unmarked(msg@),
{
    let v = chars_of(msg);
    let n = v.len();
    proof {
        assert(v@.subrange(0, n as int) == msg@);
    }
    let (a, b) = trim_range(&v, 0, n);
    let a = strip_leading_range(&v, a, b, &chars_of("!"));
    let (a, b) = trim_range(&v, a, b);
    let a = strip_leading_range(&v, a, b, &chars_of("/"));
    let (a, b) = trim_range(&v, a, b);
    let b = strip_trailing_range(&v, a, b, &chars_of(" dl"));
    let (a, b) = trim_range(&v, a, b);
    msg.substring_char(a, b).to_owned()
}

/// Calls `rand::Rng::gen_range` on the thread's generator with the
/// inclusive range from `low` to `high`.
///
/// Trusted: the number drawn lies in the range. Nothing else is said about
/// it, and two calls may differ.
#[verifier::external_body]
fn random_between(low: i8, high: i8) -> (r: i8)
    requires
        low <= high,
    ensures
        low <= r <= high,
{
    rand::thread_rng().gen_range(low..=high)
}

/// Throws a six-sided die.
pub fn noppa() -> (r: i8)
    ensures
        1 <= r <= 6,
{
    random_between(1, 6)
}

/// A value the bot is configured with.
#[derive(Debug, Clone, Copy, PartialEq, Eq, Structural)]
pub enum EnvVariable {
    TelegramToken,
    OpenAiToken,
    OpenAiChats,
    DiscordToken,
    SocksURLS,
}

impl EnvVariable {
    /// The name under which the value is looked up.
    pub open spec fn name(self) -> Seq<char> {
        match self {
            EnvVariable::TelegramToken => "TELEGRAM_TOKEN"@,
            EnvVariable::OpenAiToken => "OPENAI_TOKEN"@,
            EnvVariable::OpenAiChats => "OPENAI_CHATS"@,
            EnvVariable::DiscordToken => "DISCORD_TOKEN"@,
            EnvVariable::SocksURLS => "SOCKS_URLS"@,
        }
    }

    /// Whether the bot cannot start without the value.
    pub open spec fn is_required(self) -> bool {
        self == EnvVariable::TelegramToken || self == EnvVariable::DiscordToken
    }

    /// The name under which the value is looked up and, unless the value is
    /// required, the default that stands in for a missing one: the empty
    /// text.
    pub fn get(&self) -> (r: (&str, Option<&str>))
        ensures
            r.0@ == self.name(),
            r.1 is None <==> self.is_required(),
            r.1 matches Some(d) ==> d@.len() == 0,
    {
        proof {
            reveal_strlit("");
        }
        match self {
            EnvVariable::TelegramToken => ("TELEGRAM_TOKEN", None),
            EnvVariable::OpenAiToken => ("OPENAI_TOKEN", Some("")),
            EnvVariable::OpenAiChats => ("OPENAI_CHATS", Some("")),
            EnvVariable::DiscordToken => ("DISCORD_TOKEN", None),
            EnvVariable::SocksURLS => ("SOCKS_URLS", Some("")),
        }
    }

    /// The name of the variable that may hold the path of a file with the
    /// value.
    pub fn file_variable(&self) -> (r: String)
        ensures
            r@ == self.name() + "_FILE"@,
    {
        let mut r = self.get().0.to_owned();
        r.append("_FILE");
        r
    }
}

/// The value of `variable`: what the environment holds for it; else the
/// trimmed content of its file; else its default; `None` where a required
/// value is given in neither way.
pub open spec fn configured(
    variable: EnvVariable,
    from_environment: Option<Seq<char>>,
    from_file: Option<Seq<char>>,
) -> Option<Seq<char>> {
    match (from_environment, from_file) {
        (Some(value), _) => Some(value),
        (None, Some(content)) => Some(trimmed(content)),
        (None, None) => if variable.is_required() {
            None
        } else {
            Some(Seq::empty())
        },
    }
}

/// Settles the value of `variable` from what the environment and the file
/// named by the environment gave.
pub fn resolve_config_value(
    variable: EnvVariable,
    from_environment: Option<String>,
    from_file: Option<String>,
) -> (r: Option<String>)
    ensures
        r.deep_view() == configured(variable, from_environment.deep_view(), from_file.deep_view()),
{
    match from_environment {
        Some(value) => Some(value),
        None => match from_file {
            Some(content) => Some(trim(content.as_str()).to_owned()),
            None => match variable.get().1 {
                Some(default) => Some(default.to_owned()),
                None => None,
            },
        },
    }
}

/// The chat platform the bot serves.
#[derive(Debug, Clone, Copy, PartialEq, Eq, Structural)]
pub enum Platform {
    Discord,
    Telegram,
}

/// The platform that `selector` names, if it names one.
pub open spec fn selected(selector: Seq<char>) -> Option<Platform> {
    if selector == "telegram"@ {
        Some(Platform::Telegram)
    } else if selector == "discord"@ {
        Some(Platform::Discord)
    } else {
        None
    }
}

/// Reads the platform selector given at startup.
pub fn select_platform(selector: &str) -> (r: Option<Platform>)
    ensures
        r == selected(selector@),
{
    if same_text(selector, "telegram") {
        Some(Platform::Telegram)
    } else if same_text(selector, "discord") {
        Some(Platform::Discord)
    } else {
        None
    }
}

} // verus!
