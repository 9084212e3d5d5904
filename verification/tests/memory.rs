use nocelium::memory::{check_response, CollectedMessageEvent, CollectedMessageQueryResult, tag_field, tags_platform, ErrorBody, MemoryError, Visibility};

#[test]
fn visibility_names() {
    assert_eq!(Visibility::Public.as_str(), "public");
    assert_eq!(Visibility::Group.as_str(), "group");
    assert_eq!(Visibility::Circle.as_str(), "circle");
    assert_eq!(Visibility::Personal.as_str(), "personal");
    assert_eq!(Visibility::Internal.as_str(), "internal");
    assert_eq!(Visibility::default(), Visibility::Public);
}

#[test]
fn error_messages() {
    assert_eq!(MemoryError::Connection("eof".into()).message(), "Nomen connection failed: eof");
    assert_eq!(
        MemoryError::Api { code: "404".into(), message: "nope".into() }.message(),
        "Nomen API error (404): nope"
    );
    assert_eq!(MemoryError::Deserialize("bad".into()).message(), "Deserialization failed: bad");
}

#[test]
fn response_checking() {
    assert!(check_response(true, None).is_ok());
    match check_response(false, Some(ErrorBody { code: "E1".into(), message: "m".into() })) {
        Err(MemoryError::Api { code, message }) => {
            assert_eq!(code, "E1");
            assert_eq!(message, "m");
        }
        _ => panic!("expected api error"),
    }
    match check_response(false, None) {
        Err(MemoryError::Api { code, message }) => {
            assert_eq!(code, "unknown");
            assert_eq!(message, "Unknown error");
        }
        _ => panic!("expected api error"),
    }
}

fn tags(v: &[&[&str]]) -> Vec<Vec<String>> {
    v.iter().map(|t| t.iter().map(|s| s.to_string()).collect()).collect()
}

#[test]
fn tag_lookups() {
    let t = tags(&[
        &["platform", "telegram"],
        &["proxy", "telegram:-1003821690204:1", "telegram"],
        &["chat", "-1003821690204"],
        &["thread", "12983"],
    ]);
    assert_eq!(tags_platform(&t).map(|s| s.as_str()), Some("telegram"));
    assert_eq!(tag_field(&t, "chat", 1).map(|s| s.as_str()), Some("-1003821690204"));
    assert_eq!(tag_field(&t, "thread", 1).map(|s| s.as_str()), Some("12983"));
    assert_eq!(tag_field(&t, "sender", 1), None);
}

#[test]
fn platform_falls_back_to_proxy() {
    let t = tags(&[&["proxy", "d", "nostr"], &["platform"]]);
    assert_eq!(tags_platform(&t).map(|s| s.as_str()), Some("nostr"));
    let t = tags(&[&["chat"], &["chat", "second"]]);
    assert_eq!(tag_field(&t, "chat", 1), None);
    assert_eq!(tags_platform(&tags(&[])), None);
}

fn tag(parts: &[&str]) -> Vec<String> {
    parts.iter().map(|p| p.to_string()).collect()
}

#[test]
fn collected_event_tags() {
    let ev = CollectedMessageEvent {
        id: None,
        pubkey: None,
        kind: Some(30100),
        created_at: Some(1711540200),
        content: "hello".into(),
        tags: vec![
            tag(&["platform", "telegram"]),
            tag(&["proxy", "telegram:-1003821690204:1", "telegram"]),
            tag(&["chat", "-1003821690204"]),
            tag(&["thread", "12983"]),
        ],
    };
    assert_eq!(ev.platform(), Some("telegram"));
    assert_eq!(ev.chat_id(), Some("-1003821690204"));
    assert_eq!(ev.thread_id(), Some("12983"));
    assert_eq!(ev.sender_id(), None);

    let old = CollectedMessageEvent {
        id: None,
        pubkey: None,
        kind: None,
        created_at: None,
        content: String::new(),
        tags: vec![tag(&["proxy", "nostr:x:1", "nostr"]), tag(&["sender", "u1", "Ann"]), tag(&["sender", "u2"])],
    };
    assert_eq!(old.platform(), Some("nostr"));
    assert_eq!(old.sender_id(), Some("u1"));
    assert_eq!(old.chat_id(), None);
}

/// Reads a collected-message event out of its JSON form, taking absent or
/// null fields as empty, as the wire format allows.
fn event_from_json(v: &serde_json::Value) -> CollectedMessageEvent {
    let text = |k: &str| v.get(k).and_then(|x| x.as_str()).map(|x| x.to_string());
    let number = |k: &str| v.get(k).and_then(|x| x.as_u64());
    let tags = v
        .get("tags")
        .and_then(|t| t.as_array())
        .map(|ts| {
            ts.iter()
                .map(|t| {
                    t.as_array()
                        .map(|parts| parts.iter().filter_map(|p| p.as_str()).map(|p| p.to_string()).collect())
                        .unwrap_or_default()
                })
                .collect()
        })
        .unwrap_or_default();
    CollectedMessageEvent {
        id: text("id"),
        pubkey: text("pubkey"),
        kind: number("kind"),
        created_at: number("created_at"),
        content: text("content").unwrap_or_default(),
        tags,
    }
}

#[test]
fn collected_message_query_result_deserializes_tolerantly() {
    let value: serde_json::Value = serde_json::from_str(
        r#"{
            "count": 1,
            "events": [{
                "kind": 30100,
                "created_at": 1711540200,
                "content": "hello",
                "tags": [
                    ["platform", "telegram"],
                    ["proxy", "telegram:-1003821690204:1", "telegram"],
                    ["chat", "-1003821690204"],
                    ["thread", "12983"]
                ],
                "score": 4.2
            }]
        }"#,
    )
    .unwrap();
    let events: Vec<CollectedMessageEvent> =
        value["events"].as_array().unwrap().iter().map(event_from_json).collect();
    let result = CollectedMessageQueryResult { count: value["count"].as_u64().unwrap() as usize, events };
    assert_eq!(result.count, 1);
    assert_eq!(result.events.len(), 1);
    assert_eq!(result.events[0].kind, Some(30100));
    assert_eq!(result.events[0].content, "hello");
    assert_eq!(result.events[0].tags[0][0], "platform");
    assert_eq!(result.events[0].platform(), Some("telegram"));
    assert_eq!(result.events[0].chat_id(), Some("-1003821690204"));
    assert_eq!(result.events[0].thread_id(), Some("12983"));
    assert_eq!(value["events"][0]["score"].as_f64(), Some(4.2));
}
