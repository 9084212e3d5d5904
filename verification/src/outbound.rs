//! Messages the agent sends through a channel.
use vstd::prelude::*;
use vstd::string::*;
use crate::text::owned;

verus! {

/// Outbound message to send via a channel.
#[derive(Debug, Clone)]
pub struct OutboundMessage {
    pub chat_id: String,
    pub text: String,
    pub reply_to_id: Option<String>,
    pub thread_id: Option<String>,
    pub attachments: Vec<OutboundAttachment>,
    pub buttons: Option<Vec<Vec<Button>>>,
    pub silent: bool,
}

/// Result of sending a message.
#[derive(Debug, Clone)]
pub struct SendResult {
    pub message_id: String,
}

/// Inline keyboard button.
#[derive(Debug, Clone)]
pub struct Button {
    pub text: String,
    pub callback_data: Option<String>,
    pub url: Option<String>,
}

/// Outbound file attachment.
#[derive(Debug, Clone)]
pub struct OutboundAttachment {
    pub file_path: String,
    pub caption: Option<String>,
}

impl Default for OutboundMessage {
    /// An empty message: no chat, no text, nothing attached, with notification.
    fn default() -> (m: Self)
        ensures
            m.chat_id@ == Seq::<char>::empty(),
            m.text@ == Seq::<char>::empty(),
            m.reply_to_id is None,
            m.thread_id is None,
            m.attachments@.len() == 0,
            m.buttons is None,
            !m.silent,
    {
        OutboundMessage {
            chat_id: String::new(),
            text: String::new(),
            reply_to_id: None,
            thread_id: None,
            attachments: Vec::new(),
            buttons: None,
            silent: false,
        }
    }
}

impl OutboundMessage {
    /// A plain text message to a chat.
    pub fn text_to(chat_id: String, text: String) -> (m: Self)
        ensures
            m.chat_id == chat_id,
            m.text == text,
            m.reply_to_id is None,
            m.thread_id is None,
            m.attachments@.len() == 0,
            m.buttons is None,
            !m.silent,
    {
        OutboundMessage {
            chat_id,
            text,
            reply_to_id: None,
            thread_id: None,
            attachments: Vec::new(),
            buttons: None,
            silent: false,
        }
    }

    /// The message the send tool sends into the current chat.
    pub fn tool_send(chat_id: String, text: String, reply_to: Option<String>, thread_id: Option<String>, silent: bool) -> (m: Self)
        ensures
            m.chat_id == chat_id,
            m.text == text,
            m.reply_to_id == reply_to,
            m.thread_id == thread_id,
            m.attachments@.len() == 0,
            m.buttons is None,
            m.silent == silent,
    {
        OutboundMessage {
            chat_id,
            text,
            reply_to_id: reply_to,
            thread_id,
            attachments: Vec::new(),
            buttons: None,
            silent,
        }
    }
}

/// What a channel can do.
#[derive(Debug, Clone, Copy, PartialEq, Eq, Structural)]
pub struct ChannelCapabilities {
    pub media: bool,
    pub reactions: bool,
    pub reply: bool,
    pub edit: bool,
    pub delete: bool,
    pub threads: bool,
    pub buttons: bool,
    pub polls: bool,
    pub typing: bool,
    pub pins: bool,
    pub voice: bool,
    pub location: bool,
    pub live_location: bool,
}

impl ChannelCapabilities {
    /// Every capability, as the Telegram channel offers.
    pub fn all() -> (c: Self)
        ensures
            c.media && c.reactions && c.reply && c.edit && c.delete && c.threads && c.buttons && c.polls
                && c.typing && c.pins && c.voice && c.location && c.live_location,
    {
        ChannelCapabilities {
            media: true,
            reactions: true,
            reply: true,
            edit: true,
            delete: true,
            threads: true,
            buttons: true,
            polls: true,
            typing: true,
            pins: true,
            voice: true,
            location: true,
            live_location: true,
        }
    }
}

/// A message channel, as the agent loop knows it: by name, and by what it
/// can do. Listening and sending are asynchronous and belong to the
/// implementations.
pub trait Channel {
    /// The channel's name, as it appears in dispatch keys.
    fn name(&self) -> &str;

    /// What the channel can do.
    fn capabilities(&self) -> ChannelCapabilities;
}

/// The error for a chat id that is not a number: `Invalid chat_id '{id}': {reason}`.
pub fn invalid_chat_id_message(chat_id: &str, reason: &str) -> (r: String)
    ensures
        r@ == "Invalid chat_id '"@ + chat_id@ + "': "@ + reason@,
{
    let mut r = owned("Invalid chat_id '");
    r.append(chat_id);
    r.append("': ");
    r.append(reason);
    r
}

/// A sender's display name: first and last name separated by a space, or
/// the first name alone.
pub fn display_name(first: &str, last: Option<&str>) -> (r: String)
    ensures
        r@ == match last {
            Some(l) => first@ + " "@ + l@,
            None => first@,
        },
{
    let mut r = owned(first);
    if let Some(l) = last {
        r.append(" ");
        r.append(l);
    }
    r
}

/// The confirmation sent after a restart that a reload asked for.
pub fn reloaded_text() -> (r: &'static str)
    ensures
        r@ == "✅ Reloaded successfully"@,
{
    "✅ Reloaded successfully"
}

/// The notice sent before restarting for a reload.
pub fn reloading_text() -> (r: &'static str)
    ensures
        r@ == "🔄 Reloading..."@,
{
    "🔄 Reloading..."
}

} // verus!
