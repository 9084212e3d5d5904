use nocelium::event::{Callback, Event, Message, Payload, Source};

fn channel(name: &str, chat: &str) -> Source {
    Source::Channel { name: name.into(), chat_id: chat.into(), sender_id: "u1".into() }
}

fn message(text: &str) -> Payload {
    Payload::Message(Box::new(Message { text: text.into(), ..Default::default() }))
}

#[test]
fn channel_message_key() {
    let e = Event::new(channel("telegram", "-1001234"), message("hi"));
    assert_eq!(e.key, "telegram:message:-1001234");
}

#[test]
fn callback_key_uses_source_prefix() {
    let cb = |d: &str| Payload::Callback(Callback { data: d.into(), query_id: "q".into(), message_id: None });
    assert_eq!(Event::compute_key(&channel("telegram", "1"), &cb("approve")), "telegram:callback:approve");
    assert_eq!(Event::compute_key(&Source::Cron("t".into()), &cb("x")), "cron:callback:x");
    assert_eq!(Event::compute_key(&Source::Webhook("w".into()), &cb("x")), "webhook:callback:x");
    assert_eq!(Event::compute_key(&Source::Nostr("f".into()), &cb("x")), "nostr:callback:x");
}

#[test]
fn other_sources_key_by_their_name() {
    assert_eq!(Event::compute_key(&Source::Cron("heartbeat".into()), &message("x")), "cron:heartbeat");
    assert_eq!(Event::compute_key(&Source::Webhook("gh".into()), &Payload::Media(vec![])), "webhook:gh");
    assert_eq!(Event::compute_key(&Source::Nostr("k1".into()), &message("x")), "nostr:k1");
}

#[test]
fn payload_kinds_in_channel_keys() {
    let loc = nocelium::event::Location { latitude: "1".into(), longitude: "2".into(), live_period: None };
    assert_eq!(Event::compute_key(&channel("tg", "c"), &Payload::LocationUpdate(loc)), "tg:location:c");
    assert_eq!(Event::compute_key(&channel("tg", "c"), &Payload::Media(vec![])), "tg:media:c");
    let raw: serde_json::Value = serde_json::from_str("[1]").unwrap();
    assert_eq!(Event::compute_key(&channel("tg", "c"), &Payload::Raw(raw)), "tg:raw:c");
}

#[test]
fn source_accessors() {
    let s = channel("telegram", "42");
    assert_eq!(s.channel_name(), Some("telegram"));
    assert_eq!(s.chat_id(), Some("42"));
    let c = Source::Cron("x".into());
    assert_eq!(c.channel_name(), None);
    assert_eq!(c.chat_id(), None);
}

#[test]
fn event_new_keeps_source_and_stamps_time() {
    let e = Event::new(Source::Cron("t".into()), message("x"));
    assert!(matches!(e.source, Source::Cron(ref id) if id == "t"));
    assert!(e.timestamp > 1_600_000_000);
}

#[test]
fn channel_messages_meet_their_pattern() {
    let e = Event::new(
        Source::Channel { name: "telegram".into(), chat_id: "-1001234".into(), sender_id: "42".into() },
        Payload::Message(Box::new(Message { text: "hi".into(), ..Default::default() })),
    );
    assert!(nocelium::dispatch::glob_match("telegram:message:*", &e.key));
    assert!(!nocelium::dispatch::glob_match("stdio:message:*", &e.key));
}
