//! The built-in store handler: which events it records, under which topic,
//! and how a new entry joins what the topic already holds.
use vstd::prelude::*;
use vstd::string::*;
use crate::event::{Event, Payload, Source};
use crate::memory::MemoryError;
use crate::text::{owned, trim, trimmed_chars};

verus! {

/// What the store handler records of an event, and where.
#[derive(Debug, Clone)]
pub struct StorePlan {
    /// `{prefix}/{chat_id}`, with `unknown` for events without a chat.
    pub topic: String,
    /// `[{timestamp}] {sender}: {text}`.
    pub entry: String,
}

/// The text the store handler records: a message's text or a callback's
/// data; other payloads carry none.
pub open spec fn stored_text(payload: Payload) -> Option<Seq<char>> {
    match payload {
        Payload::Message(m) => Some(m.text@),
        Payload::Callback(cb) => Some(cb.data@),
        _ => None,
    }
}

/// The chat an event belongs to, `unknown` when it has none.
pub open spec fn chat_or_unknown(source: Source) -> Seq<char> {
    match source {
        Source::Channel { chat_id, .. } => chat_id@,
        _ => "unknown"@,
    }
}

/// The sender an entry names: a message's sender name, else `unknown`.
pub open spec fn sender_or_unknown(payload: Payload) -> Seq<char> {
    match payload {
        Payload::Message(m) => match m.sender_name {
            Some(n) => n@,
            None => "unknown"@,
        },
        _ => "unknown"@,
    }
}

/// Plans what the store handler records of `event` under `topic_prefix`,
/// with `timestamp` as the entry's time; `None` when the event carries no
/// text, or only whitespace.
pub fn plan_store(event: &Event, topic_prefix: &str, timestamp: &str) -> (r: Option<StorePlan>)
    ensures
        match stored_text(event.payload) {
            Some(text) => if trim(text).len() == 0 {
                r is None
            } else {
                r matches Some(plan) && plan.topic@ == topic_prefix@ + "/"@ + chat_or_unknown(event.source)
                    && plan.entry@ == "["@ + timestamp@ + "] "@ + sender_or_unknown(event.payload) + ": "@ + text
            },
            None => r is None,
        },
{
    let text: &str = match &event.payload {
        Payload::Message(msg) => msg.text.as_str(),
        Payload::Callback(cb) => cb.data.as_str(),
        _ => return None,
    };
    let trimmed = trimmed_chars(text);
    if trimmed.len() == 0 {
        return None;
    }
    let chat_id: &str = match event.source.chat_id() {
        Some(c) => c,
        None => "unknown",
    };
    let mut topic = owned(topic_prefix);
    topic.append("/");
    topic.append(chat_id);
    let sender: &str = match &event.payload {
        Payload::Message(msg) => match &msg.sender_name {
            Some(n) => n.as_str(),
            None => "unknown",
        },
        _ => "unknown",
    };
    let mut entry = owned("[");
    entry.append(timestamp);
    entry.append("] ");
    entry.append(sender);
    entry.append(": ");
    entry.append(text);
    Some(StorePlan { topic, entry })
}

/// The detail a topic holds after the entry is added: the existing detail,
/// a newline and the entry; just the entry when the topic held nothing.
pub open spec fn merged_detail_spec(existing: Option<Seq<char>>, entry: Seq<char>) -> Seq<char> {
    match existing {
        Some(d) => d + "\n"@ + entry,
        None => entry,
    }
}

/// The detail to store for a topic that held `existing`.
pub fn merged_detail(existing: Option<&str>, entry: &str) -> (r: String)
    ensures
        r@ == merged_detail_spec(
            match existing { Some(d) => Some(d@), None => None },
            entry@,
        ),
{
    match existing {
        Some(d) => {
            let mut r = owned(d);
            r.append("\n");
            r.append(entry);
            r
        },
        None => owned(entry),
    }
}

/// The detail to store given what reading the topic gave: the existing
/// detail with the entry appended, or just the entry when the topic held
/// nothing or could not be read (a new topic is then written).
pub fn store_detail(existing: &Result<Option<String>, MemoryError>, entry: &str) -> (r: String)
    ensures
        r@ == merged_detail_spec(
            match *existing {
                Ok(Some(d)) => Some(d@),
                _ => None,
            },
            entry@,
        ),
{
    match existing {
        Ok(Some(d)) => merged_detail(Some(d.as_str()), entry),
        _ => merged_detail(None, entry),
    }
}

/// Adding an entry keeps what the topic held as a prefix and ends with the
/// entry, so nothing stored before is lost.
pub proof fn law_store_appends(existing: Seq<char>, entry: Seq<char>)
    ensures
        merged_detail_spec(Some(existing), entry).take(existing.len() as int) == existing,
        merged_detail_spec(Some(existing), entry).skip(
            merged_detail_spec(Some(existing), entry).len() - entry.len(),
        ) == entry,
{
    let m = merged_detail_spec(Some(existing), entry);
    assert(m.take(existing.len() as int) =~= existing);
    assert(m.skip(m.len() - entry.len()) =~= entry);
}

} // verus!
