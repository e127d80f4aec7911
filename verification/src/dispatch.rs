//! From an incoming update to the task it sets.

use crate::bot_commands::{parse_command, parsed, BotCommand};
use crate::util::{
    found_urls, has_command_prefix_or_postfix, is_marked, lemma_unmarked_is_trimmed,
    remove_command_prefix_and_postfix, unmarked,
};
use vstd::prelude::*;
use vstd::string::*;

verus! {

/// The answer to a ping.
pub const ACKNOWLEDGEMENT: &'static str = "pong";

/// The regret that is posted when no video can be delivered.
pub const REGRET: &'static str = "Hyvä linkki...";

/// An event from the chat platform's feed.
#[derive(Debug)]
pub struct Update {
    /// The position of the update in the feed, which grows from update to
    /// update.
    pub update_id: Option<i64>,
    /// The chat the message was written in.
    pub chat_id: Option<i64>,
    /// The message itself.
    pub message_id: Option<i64>,
    /// The message that it replies to.
    pub reply_to_message_id: Option<i64>,
    /// What the message says.
    pub text: Option<String>,
    /// Whether the chat is a private one.
    pub is_private: bool,
}

/// What a message asks the bot to do.
#[derive(Debug)]
pub enum Task {
    /// Nothing: the message is not for the bot.
    Nothing,
    /// Answer the ping.
    Pong,
    /// Play a round of doubles about `act`.
    Roll { act: String },
    /// Fetch the video at `url`; `leftovers` may say which part of it.
    Download { url: String, leftovers: String },
    /// Fetch the first video that a search for `query` finds.
    Search { query: String },
}

impl Task {
    /// The command that sets the task.
    pub open spec fn command(self) -> BotCommand {
        match self {
            Task::Nothing => BotCommand::Noop,
            Task::Pong => BotCommand::Ping,
            Task::Roll { .. } => BotCommand::Roll,
            Task::Download { .. } => BotCommand::Download,
            Task::Search { .. } => BotCommand::Search,
        }
    }

    /// The arguments of the command that sets the task.
    pub open spec fn arguments(self) -> Seq<Seq<char>> {
        match self {
            Task::Nothing => Seq::empty(),
            Task::Pong => Seq::empty(),
            Task::Roll { act } => seq![act@],
            Task::Download { url, leftovers } => seq![url@, leftovers@],
            Task::Search { query } => seq![query@],
        }
    }
}

/// What a message that says `text` is read as: nothing unless it carries a
/// marker; else whatever it says once the markers are off.
pub open spec fn reading(text: Seq<char>) -> (BotCommand, Seq<Seq<char>>) {
    if is_marked(text) {
        parsed(unmarked(text), found_urls(unmarked(text)))
    } else {
        (BotCommand::Noop, Seq::empty())
    }
}

/// What an update is read as: nothing if it names no chat or has no text,
/// else what its text is read as.
pub open spec fn update_reading(chat_id: Option<i64>, text: Option<Seq<char>>) -> (
    BotCommand,
    Seq<Seq<char>>,
) {
    match (chat_id, text) {
        (Some(_), Some(said)) => reading(said),
        _ => (BotCommand::Noop, Seq::empty()),
    }
}

/// Turns a parsed command into the task it sets.
pub fn task_from(command: BotCommand, args: &Vec<String>) -> (r: Task)
    requires
        args.len() == command.arity(),
    ensures
        r.command() == command,
        r.arguments() == args.deep_view(),
{
    let r = match command {
        BotCommand::Ping => Task::Pong,
        BotCommand::Roll => Task::Roll { act: args[0].clone() },
        BotCommand::Download => Task::Download { url: args[0].clone(), leftovers: args[1].clone() },
        BotCommand::Search => Task::Search { query: args[0].clone() },
        BotCommand::Noop => Task::Nothing,
    };
    r
}

/// Reads a message as a task.
pub fn read_message(text: &str) -> (r: Task)
    ensures
        r.command() == reading(text@).0,
        r.arguments() == reading(text@).1,
{
    if has_command_prefix_or_postfix(text) {
        let stripped = remove_command_prefix_and_postfix(text);
        let (command, args) = parse_command(stripped.as_str());
        proof {
            lemma_unmarked_is_trimmed(text@);
        }
        task_from(command, &args)
    } else {
        Task::Nothing
    }
}

/// Reads an update as a task.
pub fn read_update(update: &Update) -> (r: Task)
    ensures
        r.command() == update_reading(update.chat_id, update.text.deep_view()).0,
        r.arguments() == update_reading(update.chat_id, update.text.deep_view()).1,
{
    match (&update.chat_id, &update.text) {
        (Some(_), Some(said)) => read_message(said.as_str()),
        _ => Task::Nothing,
    }
}

/// The message that a reply or a deletion refers to: the update's own, or
/// message zero where it names none.
pub fn source_message_id(update: &Update) -> (r: i64)
    ensures
        r == match update.message_id {
            Some(id) => id,
            None => 0i64,
        },
{
    match update.message_id {
        Some(id) => id,
        None => 0,
    }
}

} // verus!
