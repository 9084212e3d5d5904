//! The memory service's vocabulary: visibility levels, errors, response
//! checking, and reading the tags of collected message events.
use vstd::prelude::*;
use vstd::string::*;
use crate::text::{chars_equal, chars_of, concat2, owned, strs};

verus! {

/// Errors of the memory client.
#[derive(Debug, Clone)]
pub enum MemoryError {
    Connection(String),
    Api { code: String, message: String },
    Deserialize(String),
}

/// The error body of a failed response.
#[derive(Debug, Clone)]
pub struct ErrorBody {
    pub code: String,
    pub message: String,
}

/// Visibility level for memory storage.
#[derive(Debug, Clone, Copy, PartialEq, Eq, Structural)]
pub enum Visibility {
    Public,
    Group,
    Circle,
    Personal,
    Internal,
}

/// The wire name of a visibility level.
pub open spec fn visibility_name(v: Visibility) -> Seq<char> {
    match v {
        Visibility::Public => "public"@,
        Visibility::Group => "group"@,
        Visibility::Circle => "circle"@,
        Visibility::Personal => "personal"@,
        Visibility::Internal => "internal"@,
    }
}

impl Default for Visibility {
    fn default() -> (v: Self)
        ensures
            v == Visibility::Public,
    {
        Visibility::Public
    }
}

impl Visibility {
    /// The lowercase wire name.
    pub fn as_str(&self) -> (r: &'static str)
        ensures
            r@ == visibility_name(*self),
    {
        match self {
            Visibility::Public => "public",
            Visibility::Group => "group",
            Visibility::Circle => "circle",
            Visibility::Personal => "personal",
            Visibility::Internal => "internal",
        }
    }
}

/// Distinct visibility levels have distinct wire names.
pub proof fn law_visibility_names_distinct(a: Visibility, b: Visibility)
    ensures
        visibility_name(a) == visibility_name(b) ==> a == b,
{
    reveal_strlit("public");
    reveal_strlit("group");
    reveal_strlit("circle");
    reveal_strlit("personal");
    reveal_strlit("internal");
    if visibility_name(a) == visibility_name(b) && a != b {
        assert(visibility_name(a).len() != visibility_name(b).len() || visibility_name(a)[0] != visibility_name(b)[0]);
    }
}

/// The text a memory error is reported with.
pub open spec fn memory_error_text(e: MemoryError) -> Seq<char> {
    match e {
        MemoryError::Connection(m) => "Nomen connection failed: "@ + m@,
        MemoryError::Api { code, message } => "Nomen API error ("@ + code@ + "): "@ + message@,
        MemoryError::Deserialize(m) => "Deserialization failed: "@ + m@,
    }
}

impl MemoryError {
    /// The text this error is reported with.
    pub fn message(&self) -> (r: String)
        ensures
            r@ == memory_error_text(*self),
    {
        match self {
            MemoryError::Connection(m) => concat2("Nomen connection failed: ", m.as_str()),
            MemoryError::Api { code, message } => {
                let mut r = owned("Nomen API error (");
                r.append(code.as_str());
                r.append("): ");
                r.append(message.as_str());
                r
            },
            MemoryError::Deserialize(m) => concat2("Deserialization failed: ", m.as_str()),
        }
    }
}

/// Whether a response reporting `ok`, with `error` as its error body, is a
/// success; a failure without a body is reported as `unknown`.
pub fn check_response(ok: bool, error: Option<ErrorBody>) -> (r: Result<(), MemoryError>)
    ensures
        ok ==> r is Ok,
        !ok ==> (r matches Err(MemoryError::Api { code, message }) && match error {
            Some(body) => code@ == body.code@ && message@ == body.message@,
            None => code@ == "unknown"@ && message@ == "Unknown error"@,
        }),
{
    if ok {
        return Ok(());
    }
    let body = match error {
        Some(body) => body,
        None => ErrorBody { code: owned("unknown"), message: owned("Unknown error") },
    };
    Err(MemoryError::Api { code: body.code, message: body.message })
}

/// The index of the first tag named `name`, if any.
pub open spec fn first_tag_index(tags: Seq<Seq<Seq<char>>>, name: Seq<char>) -> Option<int>
    decreases tags.len(),
{
    if tags.len() == 0 {
        None
    } else {
        match first_tag_index(tags.drop_last(), name) {
            Some(i) => Some(i),
            None => if tags.last().len() > 0 && tags.last()[0] == name {
                Some(tags.len() - 1)
            } else {
                None
            },
        }
    }
}

/// Element `pos` of the first tag named `name`, when that tag has one.
pub open spec fn first_tag_field(tags: Seq<Seq<Seq<char>>>, name: Seq<char>, pos: int) -> Option<Seq<char>> {
    match first_tag_index(tags, name) {
        Some(i) => if pos < tags[i].len() {
            Some(tags[i][pos])
        } else {
            None
        },
        None => None,
    }
}

/// The contents of each tag.
pub open spec fn tags_view(tags: Seq<Vec<String>>) -> Seq<Seq<Seq<char>>> {
    tags.map_values(|t: Vec<String>| strs(t@))
}

proof fn lemma_first_tag_index_bounds(tags: Seq<Seq<Seq<char>>>, name: Seq<char>)
    ensures
        first_tag_index(tags, name) matches Some(i) ==> 0 <= i < tags.len() && tags[i].len() > 0
            && tags[i][0] == name,
    decreases tags.len(),
{
    if tags.len() > 0 {
        lemma_first_tag_index_bounds(tags.drop_last(), name);
    }
}

/// Tags added after the first tag named `name` do not change which tag
/// that is.
pub proof fn lemma_first_tag_extend(tags: Seq<Seq<Seq<char>>>, more: Seq<Seq<Seq<char>>>, name: Seq<char>)
    requires
        first_tag_index(tags, name) is Some,
    ensures
        first_tag_index(tags + more, name) == first_tag_index(tags, name),
    decreases more.len(),
{
    if more.len() == 0 {
        assert(tags + more =~= tags);
    } else {
        lemma_first_tag_extend(tags, more.drop_last(), name);
        assert((tags + more).drop_last() =~= tags + more.drop_last());
    }
}

/// Element `pos` of the first tag whose first element is `name`.
pub fn tag_field<'a>(tags: &'a Vec<Vec<String>>, name: &str, pos: usize) -> (r: Option<&'a String>)
    ensures
        match first_tag_field(tags_view(tags@), name@, pos as int) {
            Some(v) => r matches Some(s) && s@ == v,
            None => r is None,
        },
{
    let target = chars_of(name);
    let ghost tv = tags_view(tags@);
    let mut i: usize = 0;
    while i < tags.len()
        invariant
            i <= tags.len(),
            tv == tags_view(tags@),
            target@ == name@,
            first_tag_index(tv.take(i as int), name@) is None,
        decreases tags.len() - i,
    {
        assert(tv.take(i + 1).drop_last() =~= tv.take(i as int));
        let t = &tags[i];
        if t.len() > 0 {
            let first = chars_of(t[0].as_str());
            if chars_equal(&first, &target) {
                proof {
                    assert(first_tag_index(tv.take(i + 1), name@) == Some(i as int));
                    lemma_first_tag_prefix(tv, name@, i as int);
                }
                if pos < t.len() {
                    return Some(&t[pos]);
                } else {
                    return None;
                }
            }
        }
        assert(first_tag_index(tv.take(i + 1), name@) is None);
        i = i + 1;
    }
    assert(tv.take(tags.len() as int) =~= tv);
    None
}

proof fn lemma_first_tag_prefix(tags: Seq<Seq<Seq<char>>>, name: Seq<char>, i: int)
    requires
        0 <= i < tags.len(),
        first_tag_index(tags.take(i + 1), name) == Some(i),
    ensures
        first_tag_index(tags, name) == Some(i),
    decreases tags.len(),
{
    if tags.len() > i + 1 {
        assert(tags.drop_last().take(i + 1) =~= tags.take(i + 1));
        lemma_first_tag_prefix(tags.drop_last(), name, i);
    } else {
        assert(tags.take(i + 1) =~= tags);
    }
}

/// The platform of a collected message: the `platform` tag, or for older
/// events the platform named in the `proxy` tag.
pub open spec fn platform_of(tags: Seq<Seq<Seq<char>>>) -> Option<Seq<char>> {
    match first_tag_field(tags, "platform"@, 1) {
        Some(p) => Some(p),
        None => first_tag_field(tags, "proxy"@, 2),
    }
}

/// The platform of a collected message, from its tags.
pub fn tags_platform(tags: &Vec<Vec<String>>) -> (r: Option<&String>)
    ensures
        match platform_of(tags_view(tags@)) {
            Some(v) => r matches Some(s) && s@ == v,
            None => r is None,
        },
{
    match tag_field(tags, "platform", 1) {
        Some(p) => Some(p),
        None => tag_field(tags, "proxy", 2),
    }
}

/// A collected message event as the memory service returns it. The
/// search score it may carry is not read by the library and is left out.
#[derive(Debug, Clone)]
pub struct CollectedMessageEvent {
    pub id: Option<String>,
    pub pubkey: Option<String>,
    pub kind: Option<u64>,
    pub created_at: Option<u64>,
    pub content: String,
    pub tags: Vec<Vec<String>>,
}

/// The answer to a query for collected messages.
#[derive(Debug, Clone)]
pub struct CollectedMessageQueryResult {
    pub count: usize,
    pub events: Vec<CollectedMessageEvent>,
}

fn opt_str(s: Option<&String>) -> (r: Option<&str>)
    ensures
        match s {
            Some(x) => r matches Some(y) && y@ == x@,
            None => r is None,
        },
{
    match s {
        Some(x) => Some(x.as_str()),
        None => None,
    }
}

impl CollectedMessageEvent {
    /// The platform the message was collected from: the `platform` tag,
    /// or for older events the platform named in the `proxy` tag.
    pub fn platform(&self) -> (r: Option<&str>)
        ensures
            match platform_of(tags_view(self.tags@)) {
                Some(v) => r matches Some(s) && s@ == v,
                None => r is None,
            },
    {
        opt_str(tags_platform(&self.tags))
    }

    /// The chat id, from the `chat` tag.
    pub fn chat_id(&self) -> (r: Option<&str>)
        ensures
            match first_tag_field(tags_view(self.tags@), "chat"@, 1) {
                Some(v) => r matches Some(s) && s@ == v,
                None => r is None,
            },
    {
        opt_str(tag_field(&self.tags, "chat", 1))
    }

    /// The thread id, from the `thread` tag.
    pub fn thread_id(&self) -> (r: Option<&str>)
        ensures
            match first_tag_field(tags_view(self.tags@), "thread"@, 1) {
                Some(v) => r matches Some(s) && s@ == v,
                None => r is None,
            },
    {
        opt_str(tag_field(&self.tags, "thread", 1))
    }

    /// The sender id, from the `sender` tag.
    pub fn sender_id(&self) -> (r: Option<&str>)
        ensures
            match first_tag_field(tags_view(self.tags@), "sender"@, 1) {
                Some(v) => r matches Some(s) && s@ == v,
                None => r is None,
            },
    {
        opt_str(tag_field(&self.tags, "sender", 1))
    }
}

} // verus!
