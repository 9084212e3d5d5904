//! Kind 30100 collected-message events: the tags and content that record an
//! inbound or outbound chat message.
use vstd::prelude::*;
use vstd::string::*;
use crate::event::{Attachment, AttachmentKind, ChatType, Event, Message, Payload, Source, unix_time_now};
use crate::memory::{first_tag_field, first_tag_index, lemma_first_tag_extend};
use crate::text::{concat2, decimal, decimal_string, join_on, join_strings, owned, strs};

verus! {

/// The event kind of collected messages.
pub const COLLECTED_MESSAGE_KIND: u64 = 30100;

/// A kind 30100 event as the library builds it, before it is encoded as JSON.
#[derive(Debug, Clone)]
pub struct CollectedEvent {
    pub kind: u64,
    pub pubkey: String,
    pub content: String,
    pub tags: Vec<Vec<String>>,
    pub created_at: u64,
}

/// The contents of each tag.
pub open spec fn tag_views(tags: Seq<Vec<String>>) -> Seq<Seq<Seq<char>>> {
    tags.map_values(|t: Vec<String>| strs(t@))
}

/// The text of an optional string, empty when absent.
pub open spec fn or_empty(o: Option<String>) -> Seq<char> {
    match o {
        Some(s) => s@,
        None => Seq::<char>::empty(),
    }
}

/// The addressable id of a message: `{platform}:{chat_id}:{message_id}`.
pub open spec fn d_tag_value(platform: Seq<char>, chat_id: Seq<char>, message_id: Seq<char>) -> Seq<char> {
    platform + ":"@ + chat_id + ":"@ + message_id
}

/// The name of a chat type in the `chat` tag.
pub open spec fn chat_type_name(ct: ChatType) -> Seq<char> {
    match ct {
        ChatType::Direct => "direct"@,
        ChatType::Group => "group"@,
        ChatType::Thread => "thread"@,
    }
}

/// The name of an attachment kind in the `alt` field of its `imeta` tag.
pub open spec fn attachment_kind_name(k: AttachmentKind) -> Seq<char> {
    match k {
        AttachmentKind::Photo => "photo"@,
        AttachmentKind::Video => "video"@,
        AttachmentKind::Audio => "audio"@,
        AttachmentKind::Voice => "voice"@,
        AttachmentKind::Document => "document"@,
        AttachmentKind::Sticker => "sticker"@,
        AttachmentKind::Animation => "animation"@,
    }
}

/// The `imeta` tag of an attachment: `url`, `m` (mime type) and `size` when
/// known, then `alt` (the kind), then `file_id` when known.
pub open spec fn imeta_tag(att: Attachment) -> Seq<Seq<char>> {
    seq!["imeta"@]
        + (match att.file_path { Some(p) => seq!["url "@ + p@], None => Seq::empty() })
        + (match att.mime_type { Some(m) => seq!["m "@ + m@], None => Seq::empty() })
        + (match att.file_size { Some(n) => seq!["size "@ + decimal(n as nat)], None => Seq::empty() })
        + seq!["alt "@ + attachment_kind_name(att.kind)]
        + (match att.file_id { Some(f) => seq!["file_id "@ + f@], None => Seq::empty() })
}

/// The `imeta` tags of a list of attachments, in order.
pub open spec fn imeta_tags(atts: Seq<Attachment>) -> Seq<Seq<Seq<char>>>
    decreases atts.len(),
{
    if atts.len() == 0 {
        Seq::empty()
    } else {
        imeta_tags(atts.drop_last()).push(imeta_tag(atts.last()))
    }
}

/// The `thread` tag, when the message is in a thread.
pub open spec fn thread_tags(msg: Message) -> Seq<Seq<Seq<char>>> {
    match msg.thread_id {
        Some(t) => seq![seq!["thread"@, t@, or_empty(msg.thread_name)]],
        None => Seq::empty(),
    }
}

/// The `reply` tag, naming the replied-to message by its addressable id.
pub open spec fn reply_tags(platform: Seq<char>, chat_id: Seq<char>, msg: Message) -> Seq<Seq<Seq<char>>> {
    match msg.reply_to {
        Some(r) => seq![seq!["reply"@, d_tag_value(platform, chat_id, r.message_id@), or_empty(r.text), or_empty(r.sender)]],
        None => Seq::empty(),
    }
}

/// The `forward` tag, when the message was forwarded.
pub open spec fn forward_tags(msg: Message) -> Seq<Seq<Seq<char>>> {
    match msg.forward_from {
        Some(f) => seq![seq!["forward"@, f.source_id@, or_empty(f.source_name), or_empty(f.source_type)]],
        None => Seq::empty(),
    }
}

/// The `edited` tag, with the edit time in decimal.
pub open spec fn edited_tags(msg: Message) -> Seq<Seq<Seq<char>>> {
    match msg.edit_date {
        Some(ts) => seq![seq!["edited"@, decimal(ts as nat)]],
        None => Seq::empty(),
    }
}

/// The `location` tag, with latitude and longitude.
pub open spec fn location_tags(msg: Message) -> Seq<Seq<Seq<char>>> {
    match msg.location {
        Some(l) => seq![seq!["location"@, l.latitude@, l.longitude@]],
        None => Seq::empty(),
    }
}

/// The tags every inbound message has: `d`, `platform`, `proxy`, `chat`, `sender`.
pub open spec fn base_tags(platform: Seq<char>, chat_id: Seq<char>, sender_id: Seq<char>, msg: Message) -> Seq<Seq<Seq<char>>> {
    let d = d_tag_value(platform, chat_id, msg.id@);
    seq![
        seq!["d"@, d],
        seq!["platform"@, platform],
        seq!["proxy"@, d, platform],
        seq!["chat"@, chat_id, or_empty(msg.group_subject), chat_type_name(msg.chat_type)],
        seq!["sender"@, sender_id, or_empty(msg.sender_name), or_empty(msg.sender_handle)],
    ]
}

/// The tags of an inbound message: `d`, `platform`, `proxy`, `chat` and
/// `sender` always; then `thread`, `reply`, `forward` and `edited` when the
/// message has them; one `imeta` tag per attachment; `location` last.
pub open spec fn inbound_tags(platform: Seq<char>, chat_id: Seq<char>, sender_id: Seq<char>, msg: Message) -> Seq<Seq<Seq<char>>> {
    base_tags(platform, chat_id, sender_id, msg) + thread_tags(msg) + reply_tags(platform, chat_id, msg)
        + forward_tags(msg) + edited_tags(msg) + imeta_tags(msg.attachments@) + location_tags(msg)
}

/// The captions of the attachments that have one, in order.
pub open spec fn captions_of(atts: Seq<Attachment>) -> Seq<Seq<char>>
    decreases atts.len(),
{
    if atts.len() == 0 {
        Seq::empty()
    } else {
        captions_of(atts.drop_last()) + match atts.last().caption {
            Some(c) => seq![c@],
            None => Seq::empty(),
        }
    }
}

/// The content of a collected message: the text, followed by the
/// attachment captions one per line (after a blank line when there is text).
pub open spec fn content_spec(text: Seq<char>, atts: Seq<Attachment>) -> Seq<char> {
    let caps = captions_of(atts);
    if caps.len() == 0 {
        text
    } else if text.len() == 0 {
        join_on(caps, '\n')
    } else {
        text + "\n\n"@ + join_on(caps, '\n')
    }
}

/// The tags of an outbound agent response.
pub open spec fn outbound_tags(platform: Seq<char>, chat_id: Seq<char>, message_id: Seq<char>, npub: Seq<char>) -> Seq<Seq<Seq<char>>> {
    let d = d_tag_value(platform, chat_id, message_id);
    seq![
        seq!["d"@, d],
        seq!["platform"@, platform],
        seq!["proxy"@, d, platform],
        seq!["chat"@, chat_id, ""@, ""@],
        seq!["sender"@, npub, "agent"@, ""@],
        seq!["direction"@, "outbound"@],
    ]
}

/// The fields a reader of a collected event looks up: the `d`, `platform`,
/// `chat` and `sender` tags hold, at their second place, the event's
/// address, platform, chat and sender.
pub open spec fn reads_back(tags: Seq<Seq<Seq<char>>>, d: Seq<char>, platform: Seq<char>, chat_id: Seq<char>, sender: Seq<char>) -> bool {
    &&& first_tag_field(tags, "d"@, 1) == Some(d)
    &&& first_tag_field(tags, "platform"@, 1) == Some(platform)
    &&& first_tag_field(tags, "chat"@, 1) == Some(chat_id)
    &&& first_tag_field(tags, "sender"@, 1) == Some(sender)
}

proof fn lemma_names_distinct()
    ensures
        "d"@ != "platform"@,
        "d"@ != "proxy"@,
        "d"@ != "chat"@,
        "d"@ != "sender"@,
        "platform"@ != "proxy"@,
        "platform"@ != "chat"@,
        "platform"@ != "sender"@,
        "proxy"@ != "chat"@,
        "proxy"@ != "sender"@,
        "chat"@ != "sender"@,
{
    reveal_strlit("d");
    reveal_strlit("platform");
    reveal_strlit("proxy");
    reveal_strlit("chat");
    reveal_strlit("sender");
    assert("d"@.len() != "platform"@.len());
    assert("d"@.len() != "proxy"@.len());
    assert("d"@.len() != "chat"@.len());
    assert("d"@.len() != "sender"@.len());
    assert("platform"@.len() != "proxy"@.len());
    assert("platform"@.len() != "chat"@.len());
    assert("platform"@[0] != "sender"@[0]);
    assert("proxy"@.len() != "chat"@.len());
    assert("proxy"@[0] != "sender"@[0]);
    assert("chat"@.len() != "sender"@.len());
}

/// Which tag of five with the names `d`, `platform`, `proxy`, `chat`,
/// `sender` (in that order) comes first for each of the four read names.
proof fn lemma_five_tag_fields(tags: Seq<Seq<Seq<char>>>, more: Seq<Seq<Seq<char>>>)
    requires
        tags.len() == 5,
        tags[0].len() == 2 && tags[0][0] == "d"@,
        tags[1].len() == 2 && tags[1][0] == "platform"@,
        tags[2].len() >= 1 && tags[2][0] == "proxy"@,
        tags[3].len() >= 2 && tags[3][0] == "chat"@,
        tags[4].len() >= 2 && tags[4][0] == "sender"@,
    ensures
        reads_back(tags + more, tags[0][1], tags[1][1], tags[3][1], tags[4][1]),
{
    lemma_names_distinct();
    reveal_with_fuel(first_tag_index, 6);
    assert(tags.drop_last() =~= tags.take(4));
    assert(tags.take(4).drop_last() =~= tags.take(3));
    assert(tags.take(3).drop_last() =~= tags.take(2));
    assert(tags.take(2).drop_last() =~= tags.take(1));
    assert(tags.take(1).drop_last() =~= Seq::<Seq<Seq<char>>>::empty());
    assert(first_tag_index(tags, "d"@) == Some(0int));
    assert(first_tag_index(tags, "platform"@) == Some(1int));
    assert(first_tag_index(tags, "chat"@) == Some(3int));
    assert(first_tag_index(tags, "sender"@) == Some(4int));
    lemma_first_tag_extend(tags, more, "d"@);
    lemma_first_tag_extend(tags, more, "platform"@);
    lemma_first_tag_extend(tags, more, "chat"@);
    lemma_first_tag_extend(tags, more, "sender"@);
    assert((tags + more)[0] == tags[0]);
    assert((tags + more)[1] == tags[1]);
    assert((tags + more)[3] == tags[3]);
    assert((tags + more)[4] == tags[4]);
}

/// An inbound message, recorded, reads back as from its chat, platform and
/// sender, under its address `{platform}:{chat_id}:{message id}`, whatever
/// else it carries.
pub proof fn law_inbound_reads_back(platform: Seq<char>, chat_id: Seq<char>, sender_id: Seq<char>, msg: Message)
    ensures
        reads_back(inbound_tags(platform, chat_id, sender_id, msg), d_tag_value(platform, chat_id, msg.id@), platform, chat_id, sender_id),
{
    let base = base_tags(platform, chat_id, sender_id, msg);
    let more = thread_tags(msg) + reply_tags(platform, chat_id, msg) + forward_tags(msg) + edited_tags(msg)
        + imeta_tags(msg.attachments@) + location_tags(msg);
    assert(base + more =~= inbound_tags(platform, chat_id, sender_id, msg));
    lemma_five_tag_fields(base, more);
}

/// An agent reply, recorded, reads back as addressed to the chat it was
/// sent to, on its platform, from the agent, under its own address.
pub proof fn law_outbound_reads_back(platform: Seq<char>, chat_id: Seq<char>, message_id: Seq<char>, npub: Seq<char>)
    ensures
        reads_back(outbound_tags(platform, chat_id, message_id, npub), d_tag_value(platform, chat_id, message_id), platform, chat_id, npub),
{
    let all = outbound_tags(platform, chat_id, message_id, npub);
    let five = all.take(5);
    let more = all.skip(5);
    assert(five + more =~= all);
    lemma_five_tag_fields(five, more);
}

/// The text of an optional string, empty when absent.
fn text_or_empty(o: &Option<String>) -> (r: String)
    ensures
        r@ == or_empty(*o),
{
    match o {
        Some(s) => s.clone(),
        None => String::new(),
    }
}

fn tag2(a: String, b: String) -> (t: Vec<String>)
    ensures
        strs(t@) == seq![a@, b@],
{
    let t = vec![a, b];
    assert(strs(t@) =~= seq![a@, b@]);
    t
}

fn tag3(a: String, b: String, c: String) -> (t: Vec<String>)
    ensures
        strs(t@) == seq![a@, b@, c@],
{
    let t = vec![a, b, c];
    assert(strs(t@) =~= seq![a@, b@, c@]);
    t
}

fn tag4(a: String, b: String, c: String, d: String) -> (t: Vec<String>)
    ensures
        strs(t@) == seq![a@, b@, c@, d@],
{
    let t = vec![a, b, c, d];
    assert(strs(t@) =~= seq![a@, b@, c@, d@]);
    t
}

fn push_tag(tags: &mut Vec<Vec<String>>, t: Vec<String>)
    ensures
        tag_views(final(tags)@) == tag_views(old(tags)@).push(strs(t@)),
{
    let ghost before = tags@;
    let ghost tv = strs(t@);
    tags.push(t);
    assert(tag_views(tags@) =~= tag_views(before).push(tv));
}

/// `{platform}:{chat_id}:{message_id}`.
fn d_tag(platform: &str, chat_id: &str, message_id: &str) -> (r: String)
    ensures
        r@ == d_tag_value(platform@, chat_id@, message_id@),
{
    let mut r = owned(platform);
    r.append(":");
    r.append(chat_id);
    r.append(":");
    r.append(message_id);
    r
}

/// The name of a chat type in the `chat` tag.
pub fn chat_type_str(ct: &ChatType) -> (r: &'static str)
    ensures
        r@ == chat_type_name(*ct),
{
    match ct {
        ChatType::Direct => "direct",
        ChatType::Group => "group",
        ChatType::Thread => "thread",
    }
}

/// The name of an attachment kind.
pub fn attachment_kind_str(k: &AttachmentKind) -> (r: &'static str)
    ensures
        r@ == attachment_kind_name(*k),
{
    match k {
        AttachmentKind::Photo => "photo",
        AttachmentKind::Video => "video",
        AttachmentKind::Audio => "audio",
        AttachmentKind::Voice => "voice",
        AttachmentKind::Document => "document",
        AttachmentKind::Sticker => "sticker",
        AttachmentKind::Animation => "animation",
    }
}

/// The `imeta` tag of an attachment.
fn imeta(att: &Attachment) -> (t: Vec<String>)
    ensures
        strs(t@) == imeta_tag(*att),
{
    let mut parts: Vec<String> = Vec::new();
    parts.push(owned("imeta"));
    let ghost mut acc: Seq<Seq<char>> = seq!["imeta"@];
    assert(strs(parts@) =~= acc);
    if let Some(path) = &att.file_path {
        parts.push(concat2("url ", path.as_str()));
        proof { acc = acc + seq!["url "@ + path@]; }
        assert(strs(parts@) =~= acc);
    }
    if let Some(mime) = &att.mime_type {
        parts.push(concat2("m ", mime.as_str()));
        proof { acc = acc + seq!["m "@ + mime@]; }
        assert(strs(parts@) =~= acc);
    }
    if let Some(size) = att.file_size {
        let digits = decimal_string(size);
        parts.push(concat2("size ", digits.as_str()));
        proof { acc = acc + seq!["size "@ + decimal(size as nat)]; }
        assert(strs(parts@) =~= acc);
    }
    parts.push(concat2("alt ", attachment_kind_str(&att.kind)));
    proof { acc = acc + seq!["alt "@ + attachment_kind_name(att.kind)]; }
    assert(strs(parts@) =~= acc);
    if let Some(fid) = &att.file_id {
        parts.push(concat2("file_id ", fid.as_str()));
        proof { acc = acc + seq!["file_id "@ + fid@]; }
        assert(strs(parts@) =~= acc);
    }
    assert(acc =~= imeta_tag(*att));
    parts
}

/// The message text followed by the attachment captions (if any).
pub fn build_content(text: &str, attachments: &Vec<Attachment>) -> (r: String)
    ensures
        r@ == content_spec(text@, attachments@),
{
    let mut captions: Vec<String> = Vec::new();
    let mut i: usize = 0;
    while i < attachments.len()
        invariant
            i <= attachments.len(),
            strs(captions@) == captions_of(attachments@.take(i as int)),
        decreases attachments.len() - i,
    {
        let ghost before = captions@;
        assert(attachments@.take(i + 1).drop_last() =~= attachments@.take(i as int));
        if let Some(c) = &attachments[i].caption {
            captions.push(c.clone());
            assert(strs(captions@) =~= strs(before) + seq![c@]);
        } else {
            assert(strs(captions@) =~= strs(before) + Seq::<Seq<char>>::empty());
        }
        i = i + 1;
    }
    assert(attachments@.take(attachments.len() as int) =~= attachments@);
    if captions.len() == 0 {
        return owned(text);
    }
    let joined = join_strings(&captions, '\n');
    if text.is_empty() {
        return joined;
    }
    let mut r = owned(text);
    r.append("\n\n");
    r.append(joined.as_str());
    r
}

/// Builds the kind 30100 event for an inbound channel message; `None` when
/// the event is not a message or does not come from a channel.
pub fn build_inbound_30100(event: &Event) -> (r: Option<CollectedEvent>)
    ensures
        match (event.payload, event.source) {
            (Payload::Message(msg), Source::Channel { name, chat_id, sender_id }) => r matches Some(ev) && {
                &&& ev.kind == 30100
                &&& ev.pubkey@ == Seq::<char>::empty()
                &&& ev.content@ == content_spec(msg.text@, msg.attachments@)
                &&& tag_views(ev.tags@) == inbound_tags(name@, chat_id@, sender_id@, *msg)
                &&& reads_back(tag_views(ev.tags@), d_tag_value(name@, chat_id@, msg.id@), name@, chat_id@, sender_id@)
                &&& ev.created_at == event.timestamp
            },
            _ => r is None,
        },
{
    let msg = match &event.payload {
        Payload::Message(msg) => msg,
        _ => return None,
    };
    let (platform, chat_id, sender_id) = match &event.source {
        Source::Channel { name, chat_id, sender_id } => (name.as_str(), chat_id.as_str(), sender_id.as_str()),
        _ => return None,
    };
    let d = d_tag(platform, chat_id, msg.id.as_str());
    let mut tags: Vec<Vec<String>> = Vec::new();
    push_tag(&mut tags, tag2(owned("d"), d.clone()));
    push_tag(&mut tags, tag2(owned("platform"), owned(platform)));
    push_tag(&mut tags, tag3(owned("proxy"), d.clone(), owned(platform)));
    push_tag(&mut tags, tag4(owned("chat"),
        owned(chat_id),
        text_or_empty(&msg.group_subject),
        owned(chat_type_str(&msg.chat_type))));
    push_tag(&mut tags, tag4(owned("sender"),
        owned(sender_id),
        text_or_empty(&msg.sender_name),
        text_or_empty(&msg.sender_handle)));
    let ghost m = **msg;
    let ghost base = base_tags(platform@, chat_id@, sender_id@, m);
    assert(tag_views(tags@) =~= base);

    if let Some(thread_id) = &msg.thread_id {
        push_tag(&mut tags, tag3(owned("thread"), thread_id.clone(), text_or_empty(&msg.thread_name)));
    }
    let ghost after_thread = base + thread_tags(m);
    assert(tag_views(tags@) =~= after_thread);

    if let Some(reply) = &msg.reply_to {
        let reply_d = d_tag(platform, chat_id, reply.message_id.as_str());
        push_tag(&mut tags, tag4(owned("reply"), reply_d, text_or_empty(&reply.text), text_or_empty(&reply.sender)));
    }
    let ghost after_reply = after_thread + reply_tags(platform@, chat_id@, m);
    assert(tag_views(tags@) =~= after_reply);

    if let Some(fwd) = &msg.forward_from {
        push_tag(&mut tags, tag4(owned("forward"),
            fwd.source_id.clone(),
            text_or_empty(&fwd.source_name),
            text_or_empty(&fwd.source_type)));
    }
    let ghost after_forward = after_reply + forward_tags(m);
    assert(tag_views(tags@) =~= after_forward);

    if let Some(edit_ts) = msg.edit_date {
        push_tag(&mut tags, tag2(owned("edited"), decimal_string(edit_ts)));
    }
    let ghost after_edit = after_forward + edited_tags(m);
    assert(tag_views(tags@) =~= after_edit);

    let mut i: usize = 0;
    assert(after_edit + imeta_tags(msg.attachments@.take(0)) =~= after_edit);
    while i < msg.attachments.len()
        invariant
            i <= msg.attachments.len(),
            tag_views(tags@) == after_edit + imeta_tags(msg.attachments@.take(i as int)),
        decreases msg.attachments.len() - i,
    {
        assert(msg.attachments@.take(i + 1).drop_last() =~= msg.attachments@.take(i as int));
        push_tag(&mut tags, imeta(&msg.attachments[i]));
        assert(tag_views(tags@) =~= after_edit + imeta_tags(msg.attachments@.take(i + 1)));
        i = i + 1;
    }
    assert(msg.attachments@.take(msg.attachments.len() as int) =~= msg.attachments@);
    let ghost after_imeta = after_edit + imeta_tags(m.attachments@);

    if let Some(loc) = &msg.location {
        push_tag(&mut tags, tag3(owned("location"), loc.latitude.clone(), loc.longitude.clone()));
    }
    assert(tag_views(tags@) =~= after_imeta + location_tags(m));

    proof {
        law_inbound_reads_back(platform@, chat_id@, sender_id@, **msg);
    }
    let content = build_content(msg.text.as_str(), &msg.attachments);
    Some(CollectedEvent {
        kind: COLLECTED_MESSAGE_KIND,
        pubkey: String::new(),
        content,
        tags,
        created_at: event.timestamp,
    })
}

/// Builds the kind 30100 event for an outbound agent response, stamped
/// with the current time.
pub fn build_outbound_30100(
    platform: &str,
    chat_id: &str,
    text: &str,
    message_id: &str,
    identity_npub: &str,
) -> (r: CollectedEvent)
    ensures
        r.kind == 30100,
        r.pubkey@ == identity_npub@,
        r.content@ == text@,
        tag_views(r.tags@) == outbound_tags(platform@, chat_id@, message_id@, identity_npub@),
        reads_back(tag_views(r.tags@), d_tag_value(platform@, chat_id@, message_id@), platform@, chat_id@, identity_npub@),
{
    let d = d_tag(platform, chat_id, message_id);
    let mut tags: Vec<Vec<String>> = Vec::new();
    push_tag(&mut tags, tag2(owned("d"), d.clone()));
    push_tag(&mut tags, tag2(owned("platform"), owned(platform)));
    push_tag(&mut tags, tag3(owned("proxy"), d, owned(platform)));
    push_tag(&mut tags, tag4(owned("chat"), owned(chat_id), owned(""), owned("")));
    push_tag(&mut tags, tag4(owned("sender"), owned(identity_npub), owned("agent"), owned("")));
    push_tag(&mut tags, tag2(owned("direction"), owned("outbound")));
    assert(tag_views(tags@) =~= outbound_tags(platform@, chat_id@, message_id@, identity_npub@));
    proof {
        law_outbound_reads_back(platform@, chat_id@, message_id@, identity_npub@);
    }
    CollectedEvent {
        kind: COLLECTED_MESSAGE_KIND,
        pubkey: owned(identity_npub),
        content: owned(text),
        tags,
        created_at: unix_time_now(),
    }
}

} // verus!
