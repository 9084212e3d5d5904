use nocelium::event::{Callback, Event, Message, Payload, Source};
use nocelium::handlers::{merged_detail, plan_store, store_detail};
use nocelium::memory::MemoryError;

fn chan() -> Source {
    Source::Channel { name: "telegram".into(), chat_id: "-100".into(), sender_id: "7".into() }
}

#[test]
fn plans_message_entries() {
    let e = Event::new(
        chan(),
        Payload::Message(Box::new(Message { text: "hello".into(), sender_name: Some("Ann".into()), ..Default::default() })),
    );
    let p = plan_store(&e, "events/telegram", "2026-01-01 00:00:00 UTC").unwrap();
    assert_eq!(p.topic, "events/telegram/-100");
    assert_eq!(p.entry, "[2026-01-01 00:00:00 UTC] Ann: hello");
}

#[test]
fn plans_callback_entries_without_chat() {
    let e = Event::new(
        Source::Webhook("w".into()),
        Payload::Callback(Callback { data: "approve".into(), query_id: "q".into(), message_id: None }),
    );
    let p = plan_store(&e, "p", "T").unwrap();
    assert_eq!(p.topic, "p/unknown");
    assert_eq!(p.entry, "[T] unknown: approve");
}

#[test]
fn skips_blank_and_textless_events() {
    let e = Event::new(chan(), Payload::Message(Box::new(Message { text: " \n\t".into(), ..Default::default() })));
    assert!(plan_store(&e, "p", "T").is_none());
    let e = Event::new(chan(), Payload::Media(vec![]));
    assert!(plan_store(&e, "p", "T").is_none());
}

#[test]
fn merging_appends() {
    assert_eq!(merged_detail(Some("old"), "new"), "old\nnew");
    assert_eq!(merged_detail(None, "new"), "new");
}

#[test]
fn detail_after_reading_the_topic() {
    assert_eq!(store_detail(&Ok(Some("old".to_string())), "new"), "old\nnew");
    assert_eq!(store_detail(&Ok(None), "new"), "new");
    assert_eq!(store_detail(&Err(MemoryError::Connection("down".into())), "new"), "new");
}
