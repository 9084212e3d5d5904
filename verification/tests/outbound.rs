use nocelium::outbound::{display_name, reloaded_text, reloading_text, OutboundMessage};

#[test]
fn message_builders() {
    let m = OutboundMessage::default();
    assert_eq!(m.chat_id, "");
    assert!(!m.silent && m.buttons.is_none() && m.attachments.is_empty());
    let m = OutboundMessage::text_to("1".into(), "hi".into());
    assert_eq!(m.chat_id, "1");
    assert_eq!(m.text, "hi");
    let m = OutboundMessage::tool_send("1".into(), "t".into(), Some("5".into()), None, true);
    assert_eq!(m.reply_to_id.as_deref(), Some("5"));
    assert!(m.silent);
}

#[test]
fn names_and_notices() {
    assert_eq!(display_name("Ann", Some("Lee")), "Ann Lee");
    assert_eq!(display_name("Ann", None), "Ann");
    assert_eq!(reloaded_text(), "✅ Reloaded successfully");
    assert_eq!(reloading_text(), "🔄 Reloading...");
}

#[test]
fn capabilities_and_errors() {
    let c = nocelium::outbound::ChannelCapabilities::all();
    assert!(c.media && c.live_location && c.pins);
    assert_eq!(
        nocelium::outbound::invalid_chat_id_message("abc", "invalid digit found in string"),
        "Invalid chat_id 'abc': invalid digit found in string"
    );
}
