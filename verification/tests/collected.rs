use nocelium::collected::{build_content, build_inbound_30100, build_outbound_30100, CollectedEvent};
use nocelium::event::{
    Attachment, AttachmentKind, ChatType, Event, ForwardInfo, Location, Message, Payload, ReplyContext, Source,
};

fn make_channel_event(msg: Message) -> Event {
    Event::new(
        Source::Channel {
            name: "telegram".into(),
            chat_id: "-1001234".into(),
            sender_id: "user42".into(),
        },
        Payload::Message(Box::new(msg)),
    )
}

fn find<'a>(ev: &'a CollectedEvent, name: &str) -> &'a Vec<String> {
    ev.tags.iter().find(|t| t[0] == name).unwrap()
}

#[test]
fn basic_message() {
    let event = make_channel_event(Message {
        id: "99".into(),
        text: "hello world".into(),
        sender_name: Some("Alice".into()),
        sender_handle: Some("alice".into()),
        chat_type: ChatType::Group,
        group_subject: Some("Test Group".into()),
        ..Default::default()
    });
    let json = build_inbound_30100(&event).unwrap();
    assert_eq!(json.kind, 30100);
    assert_eq!(json.content, "hello world");

    let tags = &json.tags;
    let d = &tags[0];
    assert_eq!(d[1], "telegram:-1001234:99");

    let plat = &tags[1];
    assert_eq!(plat[0], "platform");
    assert_eq!(plat[1], "telegram");

    let proxy = &tags[2];
    assert_eq!(proxy[0], "proxy");
    assert_eq!(proxy[1], "telegram:-1001234:99");
    assert_eq!(proxy[2], "telegram");

    let sender = &tags[4];
    assert_eq!(sender[1], "user42");
    assert_eq!(sender[2], "Alice");
    assert_eq!(sender[3], "alice");

    let chat = &tags[3];
    assert_eq!(chat[3], "group");
}

#[test]
fn skips_non_message() {
    let raw: serde_json::Value = serde_json::from_str("{\"foo\": \"bar\"}").unwrap();
    let event = Event::new(
        Source::Channel {
            name: "stdio".into(),
            chat_id: "local".into(),
            sender_id: "user".into(),
        },
        Payload::Raw(raw),
    );
    assert!(build_inbound_30100(&event).is_none());
}

#[test]
fn skips_non_channel() {
    let event = Event::new(
        Source::Cron("task1".into()),
        Payload::Message(Box::new(Message {
            text: "cron fired".into(),
            ..Default::default()
        })),
    );
    assert!(build_inbound_30100(&event).is_none());
}

#[test]
fn with_thread_and_reply() {
    let event = make_channel_event(Message {
        id: "50".into(),
        text: "reply text".into(),
        thread_id: Some("100".into()),
        thread_name: Some("General".into()),
        reply_to: Some(ReplyContext {
            message_id: "49".into(),
            text: Some("original".into()),
            sender: Some("Bob".into()),
        }),
        ..Default::default()
    });
    let json = build_inbound_30100(&event).unwrap();

    let thread = find(&json, "thread");
    assert_eq!(thread[1], "100");
    assert_eq!(thread[2], "General");

    let reply = find(&json, "reply");
    assert_eq!(reply[1], "telegram:-1001234:49");
    assert_eq!(reply[2], "original");
    assert_eq!(reply[3], "Bob");
}

#[test]
fn with_attachment_nip92() {
    let event = make_channel_event(Message {
        id: "60".into(),
        text: "".into(),
        attachments: vec![Attachment {
            kind: AttachmentKind::Photo,
            file_path: Some("https://example.com/photo.jpg".into()),
            file_id: Some("abc123".into()),
            mime_type: Some("image/jpeg".into()),
            file_size: Some(54321),
            caption: Some("a photo".into()),
        }],
        ..Default::default()
    });
    let json = build_inbound_30100(&event).unwrap();

    assert_eq!(json.content, "a photo");

    let parts: Vec<&str> = find(&json, "imeta").iter().map(|v| v.as_str()).collect();
    assert!(parts.contains(&"url https://example.com/photo.jpg"));
    assert!(parts.contains(&"m image/jpeg"));
    assert!(parts.contains(&"size 54321"));
    assert!(parts.contains(&"alt photo"));
    assert!(parts.contains(&"file_id abc123"));
    assert!(!parts.iter().any(|p| p.starts_with("kind ")));
    assert!(!parts.iter().any(|p| p.starts_with("caption ")));
}

#[test]
fn caption_appended_to_content() {
    let event = make_channel_event(Message {
        id: "61".into(),
        text: "some text".into(),
        attachments: vec![Attachment {
            kind: AttachmentKind::Document,
            file_path: None,
            file_id: None,
            mime_type: None,
            file_size: None,
            caption: Some("doc caption".into()),
        }],
        ..Default::default()
    });
    let json = build_inbound_30100(&event).unwrap();
    assert_eq!(json.content, "some text\n\ndoc caption");
}

#[test]
fn with_location() {
    let event = make_channel_event(Message {
        id: "70".into(),
        text: "I'm here".into(),
        location: Some(Location {
            latitude: 37.7749f64.to_string(),
            longitude: (-122.4194f64).to_string(),
            live_period: None,
        }),
        ..Default::default()
    });
    let json = build_inbound_30100(&event).unwrap();
    let loc = find(&json, "location");
    assert_eq!(loc[1], "37.7749");
    assert_eq!(loc[2], "-122.4194");
}

#[test]
fn with_forward() {
    let event = make_channel_event(Message {
        id: "80".into(),
        text: "forwarded msg".into(),
        forward_from: Some(ForwardInfo {
            source_id: "user99".into(),
            source_name: Some("Charlie".into()),
            source_type: Some("user".into()),
        }),
        ..Default::default()
    });
    let json = build_inbound_30100(&event).unwrap();
    let fwd = find(&json, "forward");
    assert_eq!(fwd[1], "user99");
    assert_eq!(fwd[2], "Charlie");
    assert_eq!(fwd[3], "user");
}

#[test]
fn with_edit_date() {
    let event = make_channel_event(Message {
        id: "90".into(),
        text: "edited msg".into(),
        edit_date: Some(1711100000),
        ..Default::default()
    });
    let json = build_inbound_30100(&event).unwrap();
    let edited = find(&json, "edited");
    assert_eq!(edited[1], "1711100000");
}

#[test]
fn outbound_event() {
    let json = build_outbound_30100("telegram", "-1001234", "hi back", "101", "npub1abc");
    assert_eq!(json.kind, 30100);
    assert_eq!(json.content, "hi back");

    let d = &json.tags[0];
    assert_eq!(d[1], "telegram:-1001234:101");

    let plat = &json.tags[1];
    assert_eq!(plat[0], "platform");
    assert_eq!(plat[1], "telegram");

    let proxy = &json.tags[2];
    assert_eq!(proxy[1], "telegram:-1001234:101");
    assert_eq!(proxy[2], "telegram");

    let sender = find(&json, "sender");
    assert_eq!(sender[1], "npub1abc");
    assert_eq!(sender[2], "agent");

    let dir = find(&json, "direction");
    assert_eq!(dir[1], "outbound");
}

#[test]
fn tag_order_of_a_full_message() {
    let event = make_channel_event(Message {
        id: "7".into(),
        text: "t".into(),
        thread_id: Some("3".into()),
        reply_to: Some(ReplyContext { message_id: "6".into(), text: None, sender: None }),
        forward_from: Some(ForwardInfo { source_id: "s".into(), source_name: None, source_type: None }),
        edit_date: Some(0),
        attachments: vec![
            Attachment { kind: AttachmentKind::Voice, file_path: None, file_id: None, mime_type: None, file_size: None, caption: None },
            Attachment { kind: AttachmentKind::Sticker, file_path: None, file_id: None, mime_type: None, file_size: Some(10), caption: None },
        ],
        location: Some(Location { latitude: "1".into(), longitude: "2".into(), live_period: Some(60) }),
        ..Default::default()
    });
    let json = build_inbound_30100(&event).unwrap();
    let names: Vec<&str> = json.tags.iter().map(|t| t[0].as_str()).collect();
    assert_eq!(
        names,
        vec!["d", "platform", "proxy", "chat", "sender", "thread", "reply", "forward", "edited", "imeta", "imeta", "location"]
    );
    assert_eq!(json.tags[3], vec!["chat", "-1001234", "", "direct"]);
    assert_eq!(json.tags[5], vec!["thread", "3", ""]);
    assert_eq!(json.tags[8], vec!["edited", "0"]);
    assert_eq!(json.tags[9], vec!["imeta", "alt voice"]);
    assert_eq!(json.tags[10], vec!["imeta", "size 10", "alt sticker"]);
    assert_eq!(json.pubkey, "");
    assert_eq!(json.created_at, event.timestamp);
}

#[test]
fn content_of_captions_only_and_none() {
    let cap = |c: Option<&str>| Attachment {
        kind: AttachmentKind::Photo,
        file_path: None,
        file_id: None,
        mime_type: None,
        file_size: None,
        caption: c.map(|s| s.to_string()),
    };
    assert_eq!(build_content("hi", &vec![cap(None)]), "hi");
    assert_eq!(build_content("", &vec![cap(Some("a")), cap(None), cap(Some("b"))]), "a\nb");
    assert_eq!(build_content("x", &vec![cap(Some("a")), cap(Some("b"))]), "x\n\na\nb");
    assert_eq!(build_content("", &vec![]), "");
}
