//! Dispatch log entries and the previews they carry.
use vstd::prelude::*;
use vstd::string::*;
use crate::text::{chars_of, owned};

verus! {

/// A single dispatch log entry.
#[derive(Debug, Clone)]
pub struct DispatchLogEntry {
    /// ISO 8601 timestamp.
    pub ts: String,
    /// Dispatch key.
    pub key: String,
    /// Matched rule pattern.
    pub rule: String,
    /// Action taken (`agent_turn`, `handler:X`, `drop`).
    pub action: String,
    /// Source transport or platform name (for example `telegram`).
    pub platform: Option<String>,
    /// Chat id.
    pub chat_id: Option<String>,
    /// Sender id.
    pub sender_id: Option<String>,
    /// Sender name.
    pub sender_name: Option<String>,
    /// Message preview.
    pub message: Option<String>,
    /// Response preview, `None` for anything but agent turns.
    pub response: Option<String>,
    /// Processing duration in milliseconds.
    pub duration_ms: Option<u64>,
    /// Error, if any.
    pub error: Option<String>,
}

/// The preview of `s` cut to `max` characters: `s` itself when it has
/// no more, otherwise its first `max` characters followed by `...`.
pub open spec fn preview_spec(s: Seq<char>, max: usize) -> Seq<char> {
    if s.len() <= max {
        s
    } else {
        s.take(max as int) + "..."@
    }
}

/// Truncates a string to `max` characters, appending `...` if truncated.
pub fn preview(s: &str, max: usize) -> (r: String)
    ensures
        r@ == preview_spec(s@, max),
{
    let cs = chars_of(s);
    if cs.len() <= max {
        return owned(s);
    }
    let mut r = String::new();
    let mut i: usize = 0;
    while i < max
        invariant
            i <= max < cs@.len(),
            cs@ == s@,
            r@ == cs@.take(i as int),
        decreases max - i,
    {
        r.push(cs[i]);
        assert(cs@.take(i + 1) =~= cs@.take(i as int).push(cs@[i as int]));
        i = i + 1;
    }
    r.append("...");
    r
}

} // verus!
