//! The decisions of a chat bot that answers pings, plays doubles with two
//! dice and fetches videos into the chat: how a message is read as a
//! command, how updates are taken in, and how each workflow proceeds.
//!
//! The library talks to nobody. Network, subprocesses and timers are the
//! caller's: it reports what happened and is told what to do next, and every
//! function says in its contract what that is. Three things come from other
//! crates: links are found by `regex`, dice are thrown by `rand`, and file
//! names are drawn by `uuid`.

pub mod bot_commands;
pub mod dispatch;
pub mod download;
pub mod heartbeat;
pub mod ingest;
pub mod language;
pub mod media;
pub mod roll;
pub mod telegram_client;
pub mod text;
pub mod util;
