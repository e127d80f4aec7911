//! What is said to the Telegram bot interface: the requests, where they are
//! sent to, and the fixed texts of the bot's replies.

use crate::dispatch::{ACKNOWLEDGEMENT, REGRET};
use crate::heartbeat::HEARTBEAT_INDICATOR;
use crate::media::{dimensions_or_unknown, DimensionError};
use crate::text::{decimal, format_i64, format_u64, signed_decimal};
use vstd::prelude::*;
use vstd::string::*;

verus! {

/// Asks for a message to be deleted.
pub struct DeleteMessage<'a> {
    pub chat_id: &'a i64,
    pub message_id: &'a i64,
}

/// Asks for the updates from `offset` on, waiting up to `timeout` seconds.
pub struct GetUpdates<'a> {
    pub timeout: &'a i64,
    pub offset: &'a i64,
}

/// Asks for a text to be posted, as a reply if a message is named.
pub struct SendMessage<'a> {
    pub chat_id: &'a i64,
    pub text: &'a str,
    pub reply_to_message_id: Option<i64>,
}

/// Asks for a passing indicator of activity to be shown.
pub struct SendChatAction<'a> {
    pub chat_id: &'a i64,
    pub action: &'a str,
}

/// Asks for a stored video to be posted, as a reply if a message is named.
/// A width and height of zero stand for dimensions that are not known.
pub struct SendVideo<'a> {
    pub chat_id: &'a i64,
    pub reply_to_message_id: Option<i64>,
    pub video_location: &'a str,
    pub width: u32,
    pub height: u32,
}

/// The address to which the request `method` of the bot with `token` goes.
pub open spec fn endpoint(token: Seq<char>, method: Seq<char>) -> Seq<char> {
    "https://api.telegram.org/bot"@ + token + "/"@ + method
}

/// The address to which the request `method` of the bot with `token` goes.
pub fn api_endpoint(token: &str, method: &str) -> (r: String)
    ensures
        r@ == endpoint(token@, method@),
{
    let mut r = "https://api.telegram.org/bot".to_owned();
    r.append(token);
    r.append("/");
    r.append(method);
    r
}

/// The address to which a video is uploaded. Chat, reply target and
/// dimensions travel in the address; `-1` stands for no reply target, and
/// the video is posted even if the target is gone.
pub open spec fn upload_endpoint(
    token: Seq<char>,
    chat_id: i64,
    reply_to_message_id: Option<i64>,
    width: u32,
    height: u32,
) -> Seq<char> {
    let reply = match reply_to_message_id {
        Some(id) => id as int,
        None => -1,
    };
    endpoint(token, "sendVideo"@) + "?chat_id="@ + signed_decimal(chat_id as int)
        + "&reply_to_message_id="@ + signed_decimal(reply)
        + "&allow_sending_without_reply=true&width="@ + decimal(width as nat) + "&height="@
        + decimal(height as nat)
}

/// The address to which the video of `message` is uploaded.
pub fn video_endpoint(token: &str, message: &SendVideo<'_>) -> (r: String)
    ensures
        r@ == upload_endpoint(
            token@,
            *message.chat_id,
            message.reply_to_message_id,
            message.width,
            message.height,
        ),
{
    let reply: i64 = match message.reply_to_message_id {
        Some(id) => id,
        None => -1,
    };
    let mut r = api_endpoint(token, "sendVideo");
    r.append("?chat_id=");
    r.append(format_i64(*message.chat_id).as_str());
    r.append("&reply_to_message_id=");
    r.append(format_i64(reply).as_str());
    r.append("&allow_sending_without_reply=true&width=");
    r.append(format_u64(message.width as u64).as_str());
    r.append("&height=");
    r.append(format_u64(message.height as u64).as_str());
    r
}

/// The answer to a ping.
pub fn pong<'a>(chat_id: &'a i64) -> (r: SendMessage<'a>)
    ensures
        r.chat_id == chat_id,
        r.text@ == ACKNOWLEDGEMENT@,
        r.reply_to_message_id is None,
{
    SendMessage { chat_id, text: ACKNOWLEDGEMENT, reply_to_message_id: None }
}

/// The regret that is posted when no video can be delivered, as a reply to
/// the message that asked for it.
pub fn complaint<'a>(chat_id: &'a i64, message_id: Option<i64>) -> (r: SendMessage<'a>)
    ensures
        r.chat_id == chat_id,
        r.text@ == REGRET@,
        r.reply_to_message_id == message_id,
{
    SendMessage { chat_id, text: REGRET, reply_to_message_id: message_id }
}

/// The indicator that a video is being uploaded.
pub fn upload_indicator<'a>(chat_id: &'a i64) -> (r: SendChatAction<'a>)
    ensures
        r.chat_id == chat_id,
        r.action@ == HEARTBEAT_INDICATOR@,
{
    SendChatAction { chat_id, action: HEARTBEAT_INDICATOR }
}

/// The request that posts the video at `video_location`, with the
/// dimensions that were probed, or zero by zero where the probe failed.
pub fn video_message<'a>(
    chat_id: &'a i64,
    reply_to_message_id: Option<i64>,
    video_location: &'a str,
    probed: Result<(u32, u32), DimensionError>,
) -> (r: SendVideo<'a>)
    ensures
        r.chat_id == chat_id,
        r.reply_to_message_id == reply_to_message_id,
        r.video_location@ == video_location@,
        (r.width, r.height) == match probed {
            Ok(size) => size,
            Err(_) => (0u32, 0u32),
        },
{
    let (width, height) = dimensions_or_unknown(probed);
    SendVideo { chat_id, reply_to_message_id, video_location, width, height }
}

} // verus!
