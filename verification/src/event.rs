//! Inbound events: where they come from, what they carry, and the dispatch
//! key they are routed by.
use vstd::prelude::*;
use vstd::string::*;
use crate::dispatch::{double_star, glob_matches, segments_match, star};
use crate::text::{lemma_split_on_concat, lemma_split_on_no_sep, split_on};

verus! {

/// `serde_json::Value`, carried unread inside raw payloads.
#[verifier::external_type_specification]
#[verifier::external_body]
pub struct ExJsonValue(serde_json::Value);

/// Inbound event envelope; all sources produce these.
pub struct Event {
    /// Dispatch key, `{source}:{kind}:{context}`, for pattern matching.
    pub key: String,
    /// Where this event came from.
    pub source: Source,
    /// Unix timestamp in seconds.
    pub timestamp: u64,
    /// Typed payload.
    pub payload: Payload,
}

/// Where an event originated.
#[derive(Debug, Clone)]
pub enum Source {
    Channel { name: String, chat_id: String, sender_id: String },
    Cron(String),
    Webhook(String),
    Nostr(String),
}

/// Typed event payload.
pub enum Payload {
    Message(Box<Message>),
    Callback(Callback),
    LocationUpdate(Location),
    Media(Vec<Attachment>),
    Raw(serde_json::Value),
}

/// A text message with metadata.
#[derive(Debug, Clone)]
pub struct Message {
    pub id: String,
    pub text: String,
    pub sender_name: Option<String>,
    pub sender_handle: Option<String>,
    pub chat_type: ChatType,
    pub group_subject: Option<String>,
    pub thread_id: Option<String>,
    pub thread_name: Option<String>,
    pub reply_to: Option<ReplyContext>,
    pub forward_from: Option<ForwardInfo>,
    pub edit_date: Option<u64>,
    pub mentions: Vec<String>,
    pub was_mentioned: bool,
    pub attachments: Vec<Attachment>,
    pub location: Option<Location>,
}

/// Context for a reply.
#[derive(Debug, Clone)]
pub struct ReplyContext {
    pub message_id: String,
    pub text: Option<String>,
    pub sender: Option<String>,
}

/// Where a forwarded message came from.
#[derive(Debug, Clone)]
pub struct ForwardInfo {
    pub source_id: String,
    pub source_name: Option<String>,
    pub source_type: Option<String>,
}

/// Button callback data.
#[derive(Debug, Clone)]
pub struct Callback {
    pub data: String,
    pub query_id: String,
    pub message_id: Option<String>,
}

/// Chat type classification.
#[derive(Debug, Clone, Copy, PartialEq, Eq, Structural)]
pub enum ChatType {
    Direct,
    Group,
    Thread,
}

/// Geographic location; the coordinates are kept as the decimal text of
/// the degrees, which is all that the library reads of them.
#[derive(Debug, Clone)]
pub struct Location {
    pub latitude: String,
    pub longitude: String,
    pub live_period: Option<u32>,
}

/// File attachment.
#[derive(Debug, Clone)]
pub struct Attachment {
    pub kind: AttachmentKind,
    pub file_path: Option<String>,
    pub file_id: Option<String>,
    pub mime_type: Option<String>,
    pub file_size: Option<u64>,
    pub caption: Option<String>,
}

/// Attachment type classification.
#[derive(Debug, Clone, Copy, PartialEq, Eq, Structural)]
pub enum AttachmentKind {
    Photo,
    Video,
    Audio,
    Voice,
    Document,
    Sticker,
    Animation,
}

impl Default for ChatType {
    fn default() -> (c: Self)
        ensures
            c == ChatType::Direct,
    {
        ChatType::Direct
    }
}

impl Default for Message {
    /// An empty direct message: empty id and text, no metadata.
    fn default() -> (m: Self)
        ensures
            m.id@ == Seq::<char>::empty(),
            m.text@ == Seq::<char>::empty(),
            m.sender_name is None,
            m.sender_handle is None,
            m.chat_type == ChatType::Direct,
            m.group_subject is None,
            m.thread_id is None,
            m.thread_name is None,
            m.reply_to is None,
            m.forward_from is None,
            m.edit_date is None,
            m.mentions@.len() == 0,
            !m.was_mentioned,
            m.attachments@.len() == 0,
            m.location is None,
    {
        Message {
            id: String::new(),
            text: String::new(),
            sender_name: None,
            sender_handle: None,
            chat_type: ChatType::Direct,
            group_subject: None,
            thread_id: None,
            thread_name: None,
            reply_to: None,
            forward_from: None,
            edit_date: None,
            mentions: Vec::new(),
            was_mentioned: false,
            attachments: Vec::new(),
            location: None,
        }
    }
}

/// The name of the source, as the first segment of callback keys.
pub open spec fn source_prefix_spec(source: Source) -> Seq<char> {
    match source {
        Source::Channel { name, .. } => name@,
        Source::Cron(_) => "cron"@,
        Source::Webhook(_) => "webhook"@,
        Source::Nostr(_) => "nostr"@,
    }
}

/// The kind segment of the dispatch key for a non-callback payload.
pub open spec fn payload_kind(payload: Payload) -> Seq<char> {
    match payload {
        Payload::Message(_) => "message"@,
        Payload::LocationUpdate(_) => "location"@,
        Payload::Media(_) => "media"@,
        _ => "raw"@,
    }
}

/// The dispatch key of an event: `{prefix}:callback:{data}` for callbacks,
/// `{channel}:{kind}:{chat_id}` for channel events, and `cron:{id}`,
/// `webhook:{name}`, `nostr:{filter}` for the other sources.
pub open spec fn event_key(source: Source, payload: Payload) -> Seq<char> {
    match payload {
        Payload::Callback(cb) => source_prefix_spec(source) + ":callback:"@ + cb.data@,
        _ => match source {
            Source::Channel { name, chat_id, .. } => name@ + ":"@ + payload_kind(payload) + ":"@
                + chat_id@,
            Source::Cron(id) => "cron:"@ + id@,
            Source::Webhook(name) => "webhook:"@ + name@,
            Source::Nostr(filter) => "nostr:"@ + filter@,
        },
    }
}

/// Seconds since the Unix epoch by the system clock (`SystemTime::now`),
/// zero when the clock reads before the epoch. Nothing is promised of the
/// value: it is whatever the clock reads.
#[verifier::external_body]
pub(crate) fn unix_time_now() -> u64 {
    std::time::SystemTime::now().duration_since(std::time::UNIX_EPOCH).unwrap_or_default().as_secs()
}

/// The name a source goes by in callback keys.
pub fn source_prefix(source: &Source) -> (r: &str)
    ensures
        r@ == source_prefix_spec(*source),
{
    match source {
        Source::Channel { name, .. } => name.as_str(),
        Source::Cron(_) => {
            proof {
                reveal_strlit("cron");
            }
            "cron"
        },
        Source::Webhook(_) => {
            proof {
                reveal_strlit("webhook");
            }
            "webhook"
        },
        Source::Nostr(_) => {
            proof {
                reveal_strlit("nostr");
            }
            "nostr"
        },
    }
}

impl Event {
    /// Wraps a payload from a source, stamping it with the current time and
    /// its dispatch key.
    pub fn new(source: Source, payload: Payload) -> (e: Self)
        ensures
            e.key@ == event_key(source, payload),
            e.source == source,
            e.payload == payload,
    {
        let key = Self::compute_key(&source, &payload);
        let timestamp = unix_time_now();
        Event { key, source, timestamp, payload }
    }

    /// The dispatch key of a payload from a source.
    pub fn compute_key(source: &Source, payload: &Payload) -> (key: String)
        ensures
            key@ == event_key(*source, *payload),
    {
        let mut key = String::new();
        if let Payload::Callback(cb) = payload {
            key.append(source_prefix(source));
            key.append(":callback:");
            key.append(cb.data.as_str());
            proof {
                reveal_strlit(":callback:");
            }
            return key;
        }
        let kind: &str = match payload {
            Payload::Message(_) => {
                proof {
                    reveal_strlit("message");
                }
                "message"
            },
            Payload::LocationUpdate(_) => {
                proof {
                    reveal_strlit("location");
                }
                "location"
            },
            Payload::Media(_) => {
                proof {
                    reveal_strlit("media");
                }
                "media"
            },
            _ => {
                proof {
                    reveal_strlit("raw");
                }
                "raw"
            },
        };
        match source {
            Source::Channel { name, chat_id, .. } => {
                key.append(name.as_str());
                key.append(":");
                key.append(kind);
                key.append(":");
                key.append(chat_id.as_str());
                proof {
                    reveal_strlit(":");
                }
            },
            Source::Cron(id) => {
                key.append("cron:");
                key.append(id.as_str());
                proof {
                    reveal_strlit("cron:");
                }
            },
            Source::Webhook(name) => {
                key.append("webhook:");
                key.append(name.as_str());
                proof {
                    reveal_strlit("webhook:");
                }
            },
            Source::Nostr(filter) => {
                key.append("nostr:");
                key.append(filter.as_str());
                proof {
                    reveal_strlit("nostr:");
                }
            },
        }
        assert(key@ =~= event_key(*source, *payload));
        key
    }
}

impl Source {
    /// The channel name, if this is a channel source.
    pub fn channel_name(&self) -> (r: Option<&str>)
        ensures
            match *self {
                Source::Channel { name, .. } => r matches Some(n) && n@ == name@,
                _ => r is None,
            },
    {
        match self {
            Source::Channel { name, .. } => Some(name.as_str()),
            _ => None,
        }
    }

    /// The chat id, if this is a channel source.
    pub fn chat_id(&self) -> (r: Option<&str>)
        ensures
            match *self {
                Source::Channel { chat_id, .. } => r matches Some(c) && c@ == chat_id@,
                _ => r is None,
            },
    {
        match self {
            Source::Channel { chat_id, .. } => Some(chat_id.as_str()),
            _ => None,
        }
    }
}

/// A rule with the pattern `{channel}:message:*` catches every message from
/// that channel's chats, when neither the channel name nor the chat id
/// contains `:`.
pub proof fn law_channel_message_pattern_matches(name: String, chat_id: String, sender_id: String, msg: Box<Message>)
    requires
        !name@.contains(':'),
        !chat_id@.contains(':'),
    ensures
        glob_matches(
            name@ + ":message:*"@,
            event_key(Source::Channel { name, chat_id, sender_id }, Payload::Message(msg)),
        ),
{
    reveal_strlit(":message:*");
    reveal_strlit(":");
    reveal_strlit("message");
    let n = name@;
    let c = chat_id@;
    let word = "message"@;
    let star_seg = seq!['*'];
    let key = event_key(Source::Channel { name, chat_id, sender_id }, Payload::Message(msg));
    let pattern = n + ":message:*"@;
    assert(key =~= n.push(':') + (word.push(':') + c));
    assert(pattern =~= n.push(':') + (word.push(':') + star_seg));
    assert(!word.contains(':')) by {
        if word.contains(':') {
            let i = choose|i: int| 0 <= i < word.len() && word[i] == ':';
            assert(word[i] == ':');
        }
    }
    assert(!star_seg.contains(':')) by {
        if star_seg.contains(':') {
            let i = choose|i: int| 0 <= i < star_seg.len() && star_seg[i] == ':';
            assert(star_seg[i] == ':');
        }
    }
    lemma_split_on_concat(n, word.push(':') + c, ':');
    lemma_split_on_concat(word, c, ':');
    lemma_split_on_concat(n, word.push(':') + star_seg, ':');
    lemma_split_on_concat(word, star_seg, ':');
    lemma_split_on_no_sep(n, ':');
    lemma_split_on_no_sep(c, ':');
    lemma_split_on_no_sep(word, ':');
    lemma_split_on_no_sep(star_seg, ':');
    let ks = split_on(key, ':');
    let ps = split_on(pattern, ':');
    assert(ks =~= seq![n, word, c]);
    assert(ps =~= seq![n, word, star_seg]);
    assert(ps.drop_first() =~= seq![word, star_seg]);
    assert(ks.drop_first() =~= seq![word, c]);
    assert(star_seg =~= star());
    assert(word != double_star() && word != star()) by {
        assert(word.len() == 7);
    }
    assert(segments_match(seq![star_seg], seq![c]));
    assert(segments_match(seq![word, star_seg], seq![word, c])) by {
        assert(seq![word, star_seg].drop_first() =~= seq![star_seg]);
        assert(seq![word, c].drop_first() =~= seq![c]);
    }
    assert(segments_match(ps, ks));
}

} // verus!
