use nocelium::agent::{
    agent_turn_entry, assemble_preamble, chat_error_reply, chat_key, choose_api_key, decide, drop_entry,
    handler_entry, handler_error, history_excess, initial_context_topic, no_channel_error, provider_base_url, reload_failed_text,
    reply_channel, reset_text, status_text, stop_text, trim_history, finish_turns, record_exchange, ActiveTask, TurnDecision,
};
use nocelium::dispatch::DispatchAction;
use nocelium::event::{Event, Message, Payload, Source};

fn msg_event(text: &str) -> Event {
    Event::new(
        Source::Channel { name: "telegram".into(), chat_id: "9".into(), sender_id: "u".into() },
        Payload::Message(Box::new(Message { text: text.into(), sender_name: Some("Ann".into()), ..Default::default() })),
    )
}

#[test]
fn decisions() {
    let e = msg_event("  /reset ");
    assert!(matches!(decide(&e, &DispatchAction::AgentTurn, true), TurnDecision::Reset));
    assert!(matches!(decide(&msg_event("/reload"), &DispatchAction::AgentTurn, true), TurnDecision::Reload));
    assert!(matches!(decide(&msg_event("/stop"), &DispatchAction::AgentTurn, true), TurnDecision::Stop));
    assert!(matches!(decide(&msg_event("/status"), &DispatchAction::AgentTurn, true), TurnDecision::Status));
    assert!(matches!(decide(&msg_event("hi"), &DispatchAction::AgentTurn, true), TurnDecision::Chat));
    assert!(matches!(decide(&msg_event("   "), &DispatchAction::AgentTurn, true), TurnDecision::Skip));
    assert!(matches!(decide(&msg_event("x"), &DispatchAction::Drop, true), TurnDecision::Drop));
    let store = DispatchAction::Handler { name: "store:events/tg".into() };
    match decide(&msg_event("x"), &store, true) {
        TurnDecision::Store { prefix } => assert_eq!(prefix, "events/tg"),
        _ => panic!(),
    }
    assert!(matches!(decide(&msg_event("x"), &store, false), TurnDecision::MemoryUnavailable));
    let other = DispatchAction::Handler { name: "echo".into() };
    assert!(matches!(decide(&msg_event("x"), &other, true), TurnDecision::UnknownHandler));
    let raw = Event::new(Source::Cron("c".into()), Payload::Media(vec![]));
    assert!(matches!(decide(&raw, &DispatchAction::AgentTurn, true), TurnDecision::Skip));
}

#[test]
fn routing_keys() {
    let e = msg_event("x");
    assert_eq!(chat_key(&e.source), "9");
    assert_eq!(reply_channel(&e.source), "telegram");
    let c = Source::Cron("t".into());
    assert_eq!(chat_key(&c), "local");
    assert_eq!(reply_channel(&c), "stdio");
}

#[test]
fn history_cap() {
    assert_eq!(history_excess(10), 0);
    assert_eq!(history_excess(50), 0);
    assert_eq!(history_excess(52), 2);
}

#[test]
fn texts() {
    assert_eq!(
        status_text("npub1x", "m1", 125, true, 1, 2, 10),
        "📊 *Nocelium Status*\n\n*Identity:* `npub1x`\n*Model:* m1\n*Uptime:* 2m 5s\n*Memory:* connected\n*Active tasks:* 1\n*Chats:* 2 (10 messages)"
    );
    assert!(status_text("n", "m", 0, false, 0, 0, 0).contains("*Memory:* unavailable"));
    assert_eq!(reset_text(4), "🔄 Session reset (4 messages cleared)");
    assert_eq!(stop_text(&vec![]), "🛑 No active tasks");
    assert_eq!(
        stop_text(&vec!["  • chat 1 (0.5s)".to_string(), "  • chat 2 (1.0s)".to_string()]),
        "🛑 Stopped 2 task(s):\n  • chat 1 (0.5s)\n  • chat 2 (1.0s)"
    );
    assert_eq!(reload_failed_text("bad"), "❌ Config validation failed:\n```\nbad\n```\nNot reloading.");
    assert_eq!(chat_error_reply("timeout"), "Error: timeout");
    assert_eq!(no_channel_error("x"), "No channel: x");
    assert_eq!(initial_context_topic("npub1"), "internal/npub1/context");
}

#[test]
fn agent_setup() {
    assert_eq!(assemble_preamble("Be nice.", "npub1", None), "Be nice.\n\nYour Nostr identity (npub): npub1");
    assert_eq!(
        assemble_preamble("P", "n", Some("ctx")),
        "P\n\nYour Nostr identity (npub): n\n\n## Context\nctx"
    );
    assert_eq!(choose_api_key(Some("a".into()), Some("b".into())).unwrap(), "a");
    assert_eq!(choose_api_key(None, Some("b".into())).unwrap(), "b");
    assert!(choose_api_key(None, None).unwrap_err().starts_with("No API key."));
    assert_eq!(provider_base_url(None), "https://openrouter.ai/api/v1");
    assert_eq!(provider_base_url(Some("http://x")), "http://x");
}

#[test]
fn log_entries() {
    let e = msg_event("hello");
    let d = drop_entry("ts".into(), &e, "*");
    assert_eq!(d.action, "drop");
    assert_eq!(d.platform.as_deref(), Some("telegram"));
    assert_eq!(d.chat_id.as_deref(), Some("9"));
    assert!(d.message.is_none());
    let h = handler_entry("ts".into(), &e, "telegram:**", "store:x", 12, None);
    assert_eq!(h.action, "handler:store:x");
    assert_eq!(h.message.as_deref(), Some("hello"));
    assert_eq!(h.duration_ms, Some(12));
    let a = agent_turn_entry("ts".into(), &e, "*", "hello");
    assert_eq!(a.action, "agent_turn");
    assert_eq!(a.sender_id.as_deref(), Some("u"));
    assert_eq!(a.sender_name.as_deref(), Some("Ann"));
    assert_eq!(a.message.as_deref(), Some("hello"));
}

#[test]
fn handler_errors() {
    assert_eq!(handler_error(&TurnDecision::MemoryUnavailable), Some("Memory unavailable"));
    assert_eq!(handler_error(&TurnDecision::UnknownHandler), Some("Unknown handler"));
    assert_eq!(handler_error(&TurnDecision::Store { prefix: "events".into() }), None);
    assert_eq!(handler_error(&TurnDecision::Chat), None);
}

#[test]
fn history_keeps_newest() {
    let mut h: Vec<u32> = (0..60).collect();
    trim_history(&mut h);
    assert_eq!(h.len(), 50);
    assert_eq!(h[0], 10);
    assert_eq!(h[49], 59);
    let mut short: Vec<u32> = (0..7).collect();
    trim_history(&mut short);
    assert_eq!(short, (0..7).collect::<Vec<u32>>());
}

fn active(chat: &str) -> ActiveTask {
    ActiveTask {
        chat_id: chat.into(),
        cancel: tokio_util::sync::CancellationToken::new(),
        started: std::time::Instant::now(),
    }
}

#[test]
fn finished_turns_are_forgotten() {
    let mut tasks = vec![active("a"), active("b"), active("a"), active("c")];
    finish_turns(&mut tasks, "a");
    let chats: Vec<&str> = tasks.iter().map(|t| t.chat_id.as_str()).collect();
    assert_eq!(chats, vec!["b", "c"]);
    finish_turns(&mut tasks, "zzz");
    assert_eq!(tasks.len(), 2);
}

#[test]
fn history_keeps_whole_exchanges() {
    let mut h: Vec<String> = Vec::new();
    for i in 0..30 {
        record_exchange(&mut h, format!("u{i}"), format!("a{i}"));
    }
    assert_eq!(h.len(), 50);
    assert_eq!(h[0], "u5");
    assert_eq!(h[1], "a5");
    assert_eq!(h[48], "u29");
    assert_eq!(h[49], "a29");
}
