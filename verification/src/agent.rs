//! The decisions of the agent loop: what each dispatched event leads to,
//! the texts the agent answers commands with, and how much conversation
//! history is kept.
use vstd::prelude::*;
use vstd::string::*;
use crate::dispatch::DispatchAction;
use crate::event::{Event, Payload, Source};
use crate::logging::{preview, preview_spec, DispatchLogEntry};
use crate::text::{chars_equal, chars_of, concat2, decimal, decimal_string, join_on, join_strings, owned, strs, trim, trimmed_chars};

verus! {

/// `std::time::Instant`, carried unread.
#[verifier::external_type_specification]
#[verifier::external_body]
pub struct ExInstant(std::time::Instant);

/// `std::path::PathBuf`, carried unread.
#[verifier::external_type_specification]
#[verifier::external_body]
pub struct ExPathBuf(std::path::PathBuf);

/// Agent state shared across the loop.
pub struct AgentState {
    pub model: String,
    pub memory_connected: bool,
    pub start_time: std::time::Instant,
    pub npub: String,
    pub config_path: Option<std::path::PathBuf>,
}

/// `tokio_util::sync::CancellationToken`, carried unread.
#[verifier::external_type_specification]
#[verifier::external_body]
pub struct ExCancellationToken(tokio_util::sync::CancellationToken);

/// An agent turn in progress, which `/stop` can cancel.
pub struct ActiveTask {
    pub chat_id: String,
    pub cancel: tokio_util::sync::CancellationToken,
    pub started: std::time::Instant,
}

/// The task is not one of the chat `chat_id`.
pub open spec fn other_chat(chat_id: Seq<char>) -> spec_fn(ActiveTask) -> bool {
    |t: ActiveTask| t.chat_id@ != chat_id
}

/// Forgets the turns of the chat `chat_id` once its turn is over; the
/// other chats' turns stay, in order.
pub fn finish_turns(tasks: &mut Vec<ActiveTask>, chat_id: &str)
    ensures
        final(tasks)@ == old(tasks)@.filter(other_chat(chat_id@)),
{
    let ghost orig = tasks@;
    let ghost keep = other_chat(chat_id@);
    let target = chars_of(chat_id);
    let mut i: usize = 0;
    let ghost mut j: int = 0;
    assert(orig.take(0).filter(keep) =~= Seq::<ActiveTask>::empty()) by {
        reveal(Seq::filter);
    }
    assert(orig.skip(0) =~= orig);
    while i < tasks.len()
        invariant
            0 <= j <= orig.len(),
            keep == other_chat(chat_id@),
            target@ == chat_id@,
            i == orig.take(j).filter(keep).len(),
            tasks@ == orig.take(j).filter(keep) + orig.skip(j),
        decreases orig.len() - j,
    {
        proof {
            reveal(Seq::filter);
            assert(orig.take(j + 1).drop_last() =~= orig.take(j));
            assert(orig.take(j + 1).last() == orig[j]);
            assert(tasks@[i as int] == orig[j]);
            assert(orig.skip(j).drop_first() =~= orig.skip(j + 1));
        }
        let mine = chars_equal(&chars_of(tasks[i].chat_id.as_str()), &target);
        if mine {
            tasks.remove(i);
            assert(tasks@ =~= orig.take(j + 1).filter(keep) + orig.skip(j + 1));
        } else {
            assert(tasks@ =~= orig.take(j + 1).filter(keep) + orig.skip(j + 1));
            i = i + 1;
        }
        proof {
            j = j + 1;
        }
    }
    assert(orig.skip(j).len() == 0);
    assert(orig.take(j) =~= orig);
    assert(tasks@ =~= orig.filter(keep));
}

/// How many messages of conversation history are kept per chat.
pub const MAX_HISTORY: usize = 50;

/// How many characters of a message the dispatch log keeps.
pub const PREVIEW_LEN: usize = 200;

/// What the loop does with a dispatched event.
#[derive(Debug, Clone)]
pub enum TurnDecision {
    /// Log the event as dropped.
    Drop,
    /// Run the store handler with this topic prefix.
    Store { prefix: String },
    /// The store handler was asked for but memory is unavailable.
    MemoryUnavailable,
    /// A handler this runtime does not know.
    UnknownHandler,
    /// Nothing to do: not a message, or only whitespace.
    Skip,
    /// Validate the configuration and restart.
    Reload,
    /// Clear this chat's history.
    Reset,
    /// Cancel the running agent turns.
    Stop,
    /// Report the agent's status.
    Status,
    /// Run an agent turn on the message text.
    Chat,
}

/// The name of a command, as the trimmed text of a message.
pub open spec fn command_decision(trimmed: Seq<char>) -> TurnDecision {
    if trimmed == "/reload"@ {
        TurnDecision::Reload
    } else if trimmed == "/reset"@ {
        TurnDecision::Reset
    } else if trimmed == "/stop"@ {
        TurnDecision::Stop
    } else if trimmed == "/status"@ {
        TurnDecision::Status
    } else {
        TurnDecision::Chat
    }
}

/// `name` starts with `store:`; the rest is the topic prefix.
pub open spec fn store_prefix_of(name: Seq<char>) -> Option<Seq<char>> {
    if name.len() >= 6 && name.take(6) == "store:"@ {
        Some(name.skip(6))
    } else {
        None
    }
}

/// The decision for an event whose matched rule has `action`.
pub open spec fn decision_spec(payload: Payload, action: DispatchAction, memory_available: bool, r: TurnDecision) -> bool {
    match action {
        DispatchAction::Drop => r matches TurnDecision::Drop,
        DispatchAction::Handler { name } => match store_prefix_of(name@) {
            Some(prefix) => if memory_available {
                r matches TurnDecision::Store { prefix: p } && p@ == prefix
            } else {
                r matches TurnDecision::MemoryUnavailable
            },
            None => r matches TurnDecision::UnknownHandler,
        },
        DispatchAction::AgentTurn => match payload {
            Payload::Message(m) => if trim(m.text@).len() == 0 {
                r matches TurnDecision::Skip
            } else {
                r == command_decision(trim(m.text@))
            },
            _ => r matches TurnDecision::Skip,
        },
    }
}

/// Under an agent-turn rule a message is judged by its text alone: two
/// messages with the same text get the same decisions, whoever sent them
/// and whatever else they carry.
pub proof fn law_decision_depends_on_text(m1: Box<crate::event::Message>, m2: Box<crate::event::Message>, memory_available: bool, r: TurnDecision)
    requires
        m1.text@ == m2.text@,
    ensures
        decision_spec(Payload::Message(m1), DispatchAction::AgentTurn, memory_available, r) <==> decision_spec(
            Payload::Message(m2),
            DispatchAction::AgentTurn,
            memory_available,
            r,
        ),
{
}

/// Under an agent-turn rule, a message whose text is not blank and is none
/// of the commands `/reload`, `/reset`, `/stop`, `/status` (after trimming)
/// runs an agent turn.
pub proof fn law_plain_text_chats(m: Box<crate::event::Message>, memory_available: bool, r: TurnDecision)
    requires
        trim(m.text@).len() > 0,
        trim(m.text@) != "/reload"@,
        trim(m.text@) != "/reset"@,
        trim(m.text@) != "/stop"@,
        trim(m.text@) != "/status"@,
        decision_spec(Payload::Message(m), DispatchAction::AgentTurn, memory_available, r),
    ensures
        r is Chat,
{
}

/// Under an agent-turn rule, blank messages are skipped and the four
/// commands are recognised whatever whitespace surrounds them.
pub proof fn law_commands_recognized(m: Box<crate::event::Message>, memory_available: bool, r: TurnDecision)
    requires
        decision_spec(Payload::Message(m), DispatchAction::AgentTurn, memory_available, r),
    ensures
        trim(m.text@).len() == 0 ==> r is Skip,
        trim(m.text@) == "/reload"@ ==> r is Reload,
        trim(m.text@) == "/reset"@ ==> r is Reset,
        trim(m.text@) == "/stop"@ ==> r is Stop,
        trim(m.text@) == "/status"@ ==> r is Status,
{
    reveal_strlit("/reload");
    reveal_strlit("/reset");
    reveal_strlit("/stop");
    reveal_strlit("/status");
    assert("/status"@[1] != "/reload"@[1]);
    assert("/status"@.len() != "/reset"@.len());
    assert("/status"@.len() != "/stop"@.len());
    assert("/stop"@.len() != "/reset"@.len());
    assert("/stop"@.len() != "/reload"@.len());
    assert("/reset"@.len() != "/reload"@.len());
}

fn is_literal(cs: &Vec<char>, lit: &str) -> (r: bool)
    ensures
        r == (cs@ == lit@),
{
    let l = chars_of(lit);
    chars_equal(cs, &l)
}

/// Decides what the loop does with `event`, dispatched to `action`.
pub fn decide(event: &Event, action: &DispatchAction, memory_available: bool) -> (r: TurnDecision)
    ensures
        decision_spec(event.payload, *action, memory_available, r),
{
    match action {
        DispatchAction::Drop => TurnDecision::Drop,
        DispatchAction::Handler { name } => {
            let cs = chars_of(name.as_str());
            proof {
                reveal_strlit("store:");
            }
            if cs.len() >= 6 && cs[0] == 's' && cs[1] == 't' && cs[2] == 'o' && cs[3] == 'r' && cs[4] == 'e'
                && cs[5] == ':' {
                assert(cs@.take(6) =~= "store:"@);
                let mut prefix = String::new();
                let mut i: usize = 6;
                while i < cs.len()
                    invariant
                        6 <= i <= cs@.len(),
                        prefix@ == cs@.subrange(6, i as int),
                    decreases cs.len() - i,
                {
                    prefix.push(cs[i]);
                    assert(cs@.subrange(6, i + 1) =~= cs@.subrange(6, i as int).push(cs@[i as int]));
                    i = i + 1;
                }
                assert(cs@.subrange(6, cs.len() as int) =~= cs@.skip(6));
                if memory_available {
                    TurnDecision::Store { prefix }
                } else {
                    TurnDecision::MemoryUnavailable
                }
            } else {
                proof {
                    if cs@.len() >= 6 && cs@.take(6) == "store:"@ {
                        assert(cs@[0] == cs@.take(6)[0]);
                        assert(cs@[1] == cs@.take(6)[1]);
                        assert(cs@[2] == cs@.take(6)[2]);
                        assert(cs@[3] == cs@.take(6)[3]);
                        assert(cs@[4] == cs@.take(6)[4]);
                        assert(cs@[5] == cs@.take(6)[5]);
                    }
                }
                TurnDecision::UnknownHandler
            }
        },
        DispatchAction::AgentTurn => {
            let text = match &event.payload {
                Payload::Message(m) => m.text.as_str(),
                _ => return TurnDecision::Skip,
            };
            let t = trimmed_chars(text);
            if t.len() == 0 {
                TurnDecision::Skip
            } else if is_literal(&t, "/reload") {
                TurnDecision::Reload
            } else if is_literal(&t, "/reset") {
                TurnDecision::Reset
            } else if is_literal(&t, "/stop") {
                TurnDecision::Stop
            } else if is_literal(&t, "/status") {
                TurnDecision::Status
            } else {
                TurnDecision::Chat
            }
        },
    }
}

/// The error a handler decision is logged with when no handler runs:
/// `Memory unavailable` when the store handler has no memory to write to,
/// `Unknown handler` for a handler this runtime does not know.
pub fn handler_error(decision: &TurnDecision) -> (r: Option<&'static str>)
    ensures
        match *decision {
            TurnDecision::MemoryUnavailable => r matches Some(t) && t@ == "Memory unavailable"@,
            TurnDecision::UnknownHandler => r matches Some(t) && t@ == "Unknown handler"@,
            _ => r is None,
        },
{
    match decision {
        TurnDecision::MemoryUnavailable => Some("Memory unavailable"),
        TurnDecision::UnknownHandler => Some("Unknown handler"),
        _ => None,
    }
}

/// The conversation an event belongs to: its chat, `local` for events
/// without one.
pub fn chat_key(source: &Source) -> (r: String)
    ensures
        r@ == match *source {
            Source::Channel { chat_id, .. } => chat_id@,
            _ => "local"@,
        },
{
    match source.chat_id() {
        Some(c) => owned(c),
        None => owned("local"),
    }
}

/// The channel an answer goes back through: the event's channel, `stdio`
/// for events without one.
pub fn reply_channel(source: &Source) -> (r: String)
    ensures
        r@ == match *source {
            Source::Channel { name, .. } => name@,
            _ => "stdio"@,
        },
{
    match source.channel_name() {
        Some(c) => owned(c),
        None => owned("stdio"),
    }
}

/// How many of the oldest history messages to drop so that at most
/// `MAX_HISTORY` remain.
pub fn history_excess(len: usize) -> (r: usize)
    ensures
        r == if len > MAX_HISTORY { len - MAX_HISTORY } else { 0 },
{
    if len > MAX_HISTORY {
        len - MAX_HISTORY
    } else {
        0
    }
}

/// The part of a chat history that is kept: the newest `MAX_HISTORY`
/// messages, or all of them when there are no more.
pub open spec fn kept_history<T>(history: Seq<T>) -> Seq<T> {
    if history.len() > MAX_HISTORY {
        history.skip(history.len() - MAX_HISTORY)
    } else {
        history
    }
}

/// Drops the oldest messages of a chat history so that at most
/// `MAX_HISTORY` remain.
pub fn trim_history<T>(history: &mut Vec<T>)
    ensures
        final(history)@ == kept_history(old(history)@),
{
    let excess = history_excess(history.len());
    let kept = history.split_off(excess);
    *history = kept;
    assert(old(history)@.subrange(excess as int, old(history)@.len() as int) =~= kept_history(old(history)@));
}

/// Records one exchange in a chat history: the user's message, then the
/// answer, after which the oldest messages beyond `MAX_HISTORY` are dropped.
pub fn record_exchange<T>(history: &mut Vec<T>, user: T, answer: T)
    ensures
        final(history)@ == kept_history(old(history)@.push(user).push(answer)),
{
    history.push(user);
    history.push(answer);
    trim_history(history);
}

/// Histories hold whole exchanges: when a history holds whole user/answer
/// pairs, recording one more keeps it so. The kept history has an even
/// length, is what follows an even number of the oldest messages (so it
/// starts with a user message), and ends with the new pair.
pub proof fn law_history_holds_pairs<T>(history: Seq<T>, user: T, answer: T)
    requires
        history.len() % 2 == 0,
    ensures
        ({
            let all = history.push(user).push(answer);
            let kept = kept_history(all);
            &&& kept.len() % 2 == 0
            &&& (all.len() - kept.len()) % 2 == 0
            &&& kept == all.skip(all.len() - kept.len())
            &&& kept[kept.len() - 2] == user
            &&& kept[kept.len() - 1] == answer
        }),
{
    let all = history.push(user).push(answer);
    law_history_bounded(all);
}

/// A kept history holds at most `MAX_HISTORY` messages, the newest ones in
/// their order, and a history that already fits is kept whole.
pub proof fn law_history_bounded<T>(history: Seq<T>)
    ensures
        kept_history(history).len() <= MAX_HISTORY,
        history.len() <= MAX_HISTORY ==> kept_history(history) == history,
        history.len() > MAX_HISTORY ==> kept_history(history).len() == MAX_HISTORY,
        kept_history(history) == history.skip(history.len() - kept_history(history).len()),
{
    if history.len() <= MAX_HISTORY {
        assert(history.skip(0) =~= history);
    }
}

/// The status report.
pub open spec fn status_text_spec(
    npub: Seq<char>,
    model: Seq<char>,
    uptime_secs: u64,
    memory_connected: bool,
    active_tasks: usize,
    chats: usize,
    messages: usize,
) -> Seq<char> {
    "📊 *Nocelium Status*\n\n*Identity:* `"@ + npub + "`\n*Model:* "@ + model + "\n*Uptime:* "@
        + decimal((uptime_secs / 60) as nat) + "m "@ + decimal((uptime_secs % 60) as nat) + "s\n*Memory:* "@
        + (if memory_connected { "connected"@ } else { "unavailable"@ }) + "\n*Active tasks:* "@
        + decimal(active_tasks as nat) + "\n*Chats:* "@ + decimal(chats as nat) + " ("@ + decimal(messages as nat)
        + " messages)"@
}

/// The uptime shown reads back to the uptime: the report gives the
/// identity and model, then the uptime as whole minutes and the remaining
/// seconds (under a minute), which together make up exactly the uptime,
/// however long it is.
pub proof fn law_status_uptime_reads_back(
    npub: Seq<char>,
    model: Seq<char>,
    uptime_secs: u64,
    memory_connected: bool,
    active_tasks: usize,
    chats: usize,
    messages: usize,
)
    ensures
        exists|mins: nat, secs: nat, rest: Seq<char>|
            #![trigger decimal(mins), decimal(secs), rest.len()]
            mins * 60 + secs == uptime_secs && secs < 60 && status_text_spec(
                npub,
                model,
                uptime_secs,
                memory_connected,
                active_tasks,
                chats,
                messages,
            ) == "📊 *Nocelium Status*\n\n*Identity:* `"@ + npub + "`\n*Model:* "@ + model + "\n*Uptime:* "@
                + decimal(mins) + "m "@ + decimal(secs) + "s"@ + rest,
{
    let mins = (uptime_secs / 60) as nat;
    let secs = (uptime_secs % 60) as nat;
    let rest = "\n*Memory:* "@ + (if memory_connected { "connected"@ } else { "unavailable"@ })
        + "\n*Active tasks:* "@ + decimal(active_tasks as nat) + "\n*Chats:* "@ + decimal(chats as nat) + " ("@
        + decimal(messages as nat) + " messages)"@;
    reveal_strlit("s\n*Memory:* ");
    reveal_strlit("s");
    reveal_strlit("\n*Memory:* ");
    assert(status_text_spec(npub, model, uptime_secs, memory_connected, active_tasks, chats, messages)
        =~= "📊 *Nocelium Status*\n\n*Identity:* `"@ + npub + "`\n*Model:* "@ + model + "\n*Uptime:* "@
        + decimal(mins) + "m "@ + decimal(secs) + "s"@ + rest);
    assert(mins * 60 + secs == uptime_secs);
    assert(rest.len() == rest.len());
}

/// The status report: identity, model, uptime in minutes and seconds,
/// memory, active tasks, and the chats with history.
pub fn status_text(
    npub: &str,
    model: &str,
    uptime_secs: u64,
    memory_connected: bool,
    active_tasks: usize,
    chats: usize,
    messages: usize,
) -> (r: String)
    ensures
        r@ == status_text_spec(npub@, model@, uptime_secs, memory_connected, active_tasks, chats, messages),
{
    let mut r = owned("📊 *Nocelium Status*\n\n*Identity:* `");
    r.append(npub);
    r.append("`\n*Model:* ");
    r.append(model);
    r.append("\n*Uptime:* ");
    r.append(decimal_string(uptime_secs / 60).as_str());
    r.append("m ");
    r.append(decimal_string(uptime_secs % 60).as_str());
    r.append("s\n*Memory:* ");
    if memory_connected {
        r.append("connected");
    } else {
        r.append("unavailable");
    }
    r.append("\n*Active tasks:* ");
    r.append(decimal_string(active_tasks as u64).as_str());
    r.append("\n*Chats:* ");
    r.append(decimal_string(chats as u64).as_str());
    r.append(" (");
    r.append(decimal_string(messages as u64).as_str());
    r.append(" messages)");
    r
}

/// The answer to `/reset`.
pub fn reset_text(cleared: usize) -> (r: String)
    ensures
        r@ == "🔄 Session reset ("@ + decimal(cleared as nat) + " messages cleared)"@,
{
    let mut r = owned("🔄 Session reset (");
    r.append(decimal_string(cleared as u64).as_str());
    r.append(" messages cleared)");
    r
}

/// The answer to `/stop`, given one report line per cancelled task.
pub fn stop_text(report: &Vec<String>) -> (r: String)
    ensures
        r@ == if report@.len() == 0 {
            "🛑 No active tasks"@
        } else {
            "🛑 Stopped "@ + decimal(report@.len()) + " task(s):\n"@ + join_on(strs(report@), '\n')
        },
{
    if report.len() == 0 {
        return owned("🛑 No active tasks");
    }
    let mut r = owned("🛑 Stopped ");
    r.append(decimal_string(report.len() as u64).as_str());
    r.append(" task(s):\n");
    r.append(join_strings(report, '\n').as_str());
    r
}

/// The answer when `/reload` finds the configuration invalid.
pub fn reload_failed_text(error: &str) -> (r: String)
    ensures
        r@ == "❌ Config validation failed:\n```\n"@ + error@ + "\n```\nNot reloading."@,
{
    let mut r = owned("❌ Config validation failed:\n```\n");
    r.append(error);
    r.append("\n```\nNot reloading.");
    r
}

/// The reply when the model call fails.
pub fn chat_error_reply(error: &str) -> (r: String)
    ensures
        r@ == "Error: "@ + error@,
{
    concat2("Error: ", error)
}

/// The error logged when no channel can take a reply.
pub fn no_channel_error(channel: &str) -> (r: String)
    ensures
        r@ == "No channel: "@ + channel@,
{
    concat2("No channel: ", channel)
}

/// The system prompt: the configured preamble, the agent's identity, and
/// the initial context when there is one.
pub open spec fn preamble_spec(preamble: Seq<char>, npub: Seq<char>, context: Option<Seq<char>>) -> Seq<char> {
    preamble + "\n\nYour Nostr identity (npub): "@ + npub + match context {
        Some(c) => "\n\n## Context\n"@ + c,
        None => Seq::empty(),
    }
}

/// Assembles the system prompt.
pub fn assemble_preamble(preamble: &str, npub: &str, context: Option<&str>) -> (r: String)
    ensures
        r@ == preamble_spec(preamble@, npub@, match context { Some(c) => Some(c@), None => None }),
{
    let mut r = owned(preamble);
    r.append("\n\nYour Nostr identity (npub): ");
    r.append(npub);
    if let Some(c) = context {
        r.append("\n\n## Context\n");
        r.append(c);
    }
    r
}

/// The model API key: the configured one, else the one from the
/// environment; an error naming both when there is neither.
pub fn choose_api_key(configured: Option<String>, from_env: Option<String>) -> (r: Result<String, String>)
    ensures
        match (configured, from_env) {
            (Some(k), _) => r matches Ok(key) && key@ == k@,
            (None, Some(k)) => r matches Ok(key) && key@ == k@,
            (None, None) => r matches Err(e) && e@ == "No API key. Set OPENROUTER_API_KEY or provider.api_key in config"@,
        },
{
    match configured {
        Some(k) => Ok(k),
        None => match from_env {
            Some(k) => Ok(k),
            None => Err(owned("No API key. Set OPENROUTER_API_KEY or provider.api_key in config")),
        },
    }
}

/// The model endpoint: the configured base URL, else OpenRouter's.
pub fn provider_base_url(configured: Option<&str>) -> (r: &str)
    ensures
        r@ == match configured {
            Some(u) => u@,
            None => "https://openrouter.ai/api/v1"@,
        },
{
    match configured {
        Some(u) => u,
        None => "https://openrouter.ai/api/v1",
    }
}

/// The memory topic holding an agent's initial context: `internal/{npub}/context`.
pub fn initial_context_topic(npub: &str) -> (r: String)
    ensures
        r@ == "internal/"@ + npub@ + "/context"@,
{
    let mut r = owned("internal/");
    r.append(npub);
    r.append("/context");
    r
}

/// Equality of an optional string with an optional text, by content.
pub open spec fn same_text(a: Option<String>, b: Option<Seq<char>>) -> bool {
    match (a, b) {
        (Some(x), Some(y)) => x@ == y,
        (None, None) => true,
        _ => false,
    }
}

/// The channel name of a source.
pub open spec fn source_channel(source: Source) -> Option<Seq<char>> {
    match source {
        Source::Channel { name, .. } => Some(name@),
        _ => None,
    }
}

/// The chat id of a source.
pub open spec fn source_chat(source: Source) -> Option<Seq<char>> {
    match source {
        Source::Channel { chat_id, .. } => Some(chat_id@),
        _ => None,
    }
}

fn opt_owned(s: Option<&str>) -> (r: Option<String>)
    ensures
        match s {
            Some(x) => r matches Some(y) && y@ == x@,
            None => r is None,
        },
{
    match s {
        Some(x) => Some(owned(x)),
        None => None,
    }
}

/// The log entry of a dropped event.
pub fn drop_entry(ts: String, event: &Event, rule_pattern: &str) -> (e: DispatchLogEntry)
    ensures
        e.ts@ == ts@,
        e.key@ == event.key@,
        e.rule@ == rule_pattern@,
        e.action@ == "drop"@,
        same_text(e.platform, source_channel(event.source)),
        same_text(e.chat_id, source_chat(event.source)),
        e.sender_id is None && e.sender_name is None && e.message is None,
        e.response is None && e.duration_ms is None && e.error is None,
{
    DispatchLogEntry {
        ts,
        key: event.key.clone(),
        rule: owned(rule_pattern),
        action: owned("drop"),
        platform: opt_owned(event.source.channel_name()),
        chat_id: opt_owned(event.source.chat_id()),
        sender_id: None,
        sender_name: None,
        message: None,
        response: None,
        duration_ms: None,
        error: None,
    }
}

/// The message preview of a handler entry: the message text cut to
/// `PREVIEW_LEN` characters, for message payloads.
pub open spec fn message_preview(payload: Payload) -> Option<Seq<char>> {
    match payload {
        Payload::Message(m) => Some(preview_spec(m.text@, PREVIEW_LEN)),
        _ => None,
    }
}

/// The log entry of an event a handler took.
pub fn handler_entry(
    ts: String,
    event: &Event,
    rule_pattern: &str,
    handler: &str,
    duration_ms: u64,
    error: Option<String>,
) -> (e: DispatchLogEntry)
    ensures
        e.ts@ == ts@,
        e.key@ == event.key@,
        e.rule@ == rule_pattern@,
        e.action@ == "handler:"@ + handler@,
        same_text(e.platform, source_channel(event.source)),
        same_text(e.chat_id, source_chat(event.source)),
        e.sender_id is None && e.sender_name is None,
        same_text(e.message, message_preview(event.payload)),
        e.response is None,
        e.duration_ms == Some(duration_ms),
        e.error == error,
{
    let message = match &event.payload {
        Payload::Message(m) => Some(preview(m.text.as_str(), PREVIEW_LEN)),
        _ => None,
    };
    DispatchLogEntry {
        ts,
        key: event.key.clone(),
        rule: owned(rule_pattern),
        action: concat2("handler:", handler),
        platform: opt_owned(event.source.channel_name()),
        chat_id: opt_owned(event.source.chat_id()),
        sender_id: None,
        sender_name: None,
        message,
        response: None,
        duration_ms: Some(duration_ms),
        error,
    }
}

/// The sender id and name an agent-turn entry records: for channel
/// sources, the sender id and the message's sender name.
pub open spec fn sender_info(source: Source, payload: Payload) -> (Option<Seq<char>>, Option<Seq<char>>) {
    match source {
        Source::Channel { sender_id, .. } => (Some(sender_id@), match payload {
            Payload::Message(m) => match m.sender_name {
                Some(n) => Some(n@),
                None => None,
            },
            _ => None,
        }),
        _ => (None, None),
    }
}

/// The log entry of an event handed to an agent turn, written before the
/// model is called; `text` is the message text.
pub fn agent_turn_entry(ts: String, event: &Event, rule_pattern: &str, text: &str) -> (e: DispatchLogEntry)
    ensures
        e.ts@ == ts@,
        e.key@ == event.key@,
        e.rule@ == rule_pattern@,
        e.action@ == "agent_turn"@,
        same_text(e.platform, source_channel(event.source)),
        same_text(e.chat_id, source_chat(event.source)),
        same_text(e.sender_id, sender_info(event.source, event.payload).0),
        same_text(e.sender_name, sender_info(event.source, event.payload).1),
        same_text(e.message, Some(preview_spec(text@, PREVIEW_LEN))),
        e.response is None && e.duration_ms is None && e.error is None,
{
    let (sender_id, sender_name) = match &event.source {
        Source::Channel { sender_id, .. } => {
            let name = match &event.payload {
                Payload::Message(m) => match &m.sender_name {
                    Some(n) => Some(n.clone()),
                    None => None,
                },
                _ => None,
            };
            (Some(sender_id.clone()), name)
        },
        _ => (None, None),
    };
    DispatchLogEntry {
        ts,
        key: event.key.clone(),
        rule: owned(rule_pattern),
        action: owned("agent_turn"),
        platform: opt_owned(event.source.channel_name()),
        chat_id: opt_owned(event.source.chat_id()),
        sender_id,
        sender_name,
        message: Some(preview(text, PREVIEW_LEN)),
        response: None,
        duration_ms: None,
        error: None,
    }
}

} // verus!
