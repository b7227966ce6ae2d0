//! The projection of a record onto the message that callers see.
use vstd::prelude::*;
use crate::content::{
    any_image, any_thinking, any_tool_use, extract_text_content, has_images, has_thinking,
    has_tool_use, merged_text,
};
use crate::encode::{encode_content, encodes_content};
use crate::json::{model, print_json, printed, same_text, JsonValue};
use crate::record::{EntryView, RawLogEntry};

verus! {

/// A message of a conversation, flattened for display.
#[derive(Debug, Clone)]
pub struct ClaudeMessage {
    pub message_id: String,
    pub session_id: String,
    pub role: String,
    /// The text and thinking items merged into one text.
    pub content: String,
    pub timestamp: String,
    /// The content items written as a JSON array.
    pub raw_content: String,
    pub has_thinking: bool,
    pub has_tool_use: bool,
    pub has_images: bool,
    pub parent_id: Option<String>,
    pub model: Option<String>,
    pub stop_reason: Option<String>,
    pub input_tokens: Option<i32>,
    pub output_tokens: Option<i32>,
    pub cache_creation_tokens: Option<i32>,
    pub cache_read_tokens: Option<i32>,
    pub is_sidechain: Option<bool>,
    pub user_type: Option<String>,
}

/// The text of an identifying field, or `unknown` where it is absent.
pub open spec fn or_unknown(o: Option<String>) -> Seq<char> {
    match o {
        Some(s) => s@,
        None => "unknown"@,
    }
}

pub open spec fn text_or_empty(o: Option<Seq<char>>) -> Seq<char> {
    match o {
        Some(t) => t,
        None => Seq::empty(),
    }
}

/// Whether a record type is one of the two that become messages.
pub open spec fn is_chat_type(t: Seq<char>) -> bool {
    t == "user"@ || t == "assistant"@
}

/// Whether a record projects to a message.
pub open spec fn projects(e: EntryView) -> bool {
    is_chat_type(e.entry_type@) && e.message is Some
}

/// Whether `m` is the message that a record with a message projects to.
pub open spec fn projects_to(e: EntryView, m: ClaudeMessage) -> bool {
    match e.message {
        None => false,
        Some(msg) => {
            &&& m.message_id@ == or_unknown(e.uuid)
            &&& m.session_id@ == or_unknown(e.session_id)
            &&& m.role == msg.role
            &&& m.content@ == merged_text(msg.content)
            &&& m.timestamp@ == or_unknown(e.timestamp)
            &&& exists|j: JsonValue|
                encodes_content(j, msg.content) && m.raw_content@ == text_or_empty(printed(#[trigger] model(j)))
            &&& m.has_thinking == any_thinking(msg.content)
            &&& m.has_tool_use == any_tool_use(msg.content)
            &&& m.has_images == any_image(msg.content)
            &&& m.parent_id == e.parent_uuid
            &&& m.model == msg.model
            &&& m.stop_reason == msg.stop_reason
            &&& match msg.usage {
                Some(u) => {
                    &&& m.input_tokens == Some(u.input_tokens)
                    &&& m.output_tokens == Some(u.output_tokens)
                    &&& m.cache_creation_tokens == u.cache_creation_input_tokens
                    &&& m.cache_read_tokens == u.cache_read_input_tokens
                },
                None => {
                    &&& m.input_tokens is None
                    &&& m.output_tokens is None
                    &&& m.cache_creation_tokens is None
                    &&& m.cache_read_tokens is None
                },
            }
            &&& m.is_sidechain == e.is_sidechain
            &&& m.user_type == e.user_type
        },
    }
}

fn or_unknown_text(o: Option<String>) -> (r: String)
    ensures
        r@ == or_unknown(o),
{
    match o {
        Some(s) => s,
        None => String::from_str("unknown"),
    }
}

/// Projects a record onto a message: `None` unless the record is of type
/// `user` or `assistant` and carries a message.
pub fn entry_to_message(entry: RawLogEntry) -> (r: Option<ClaudeMessage>)
    ensures
        r is Some <==> projects(entry@),
        r is Some ==> projects_to(entry@, r->Some_0),
{
    if !same_text(entry.entry_type.as_str(), "user") && !same_text(entry.entry_type.as_str(), "assistant") {
        return None;
    }
    let message = match entry.message {
        None => return None,
        Some(m) => m,
    };
    let content = extract_text_content(message.content.as_slice());
    let encoded = encode_content(message.content.as_slice());
    let raw_content = match print_json(&encoded) {
        Some(t) => t,
        None => String::new(),
    };
    let has_thinking_flag = has_thinking(message.content.as_slice());
    let has_tool_use_flag = has_tool_use(message.content.as_slice());
    let has_images_flag = has_images(message.content.as_slice());
    let (input_tokens, output_tokens, cache_creation, cache_read) = match message.usage {
        Some(usage) => (
            Some(usage.input_tokens),
            Some(usage.output_tokens),
            usage.cache_creation_input_tokens,
            usage.cache_read_input_tokens,
        ),
        None => (None, None, None, None),
    };
    let m = ClaudeMessage {
        message_id: or_unknown_text(entry.uuid),
        session_id: or_unknown_text(entry.session_id),
        role: message.role,
        content,
        timestamp: or_unknown_text(entry.timestamp),
        raw_content,
        has_thinking: has_thinking_flag,
        has_tool_use: has_tool_use_flag,
        has_images: has_images_flag,
        parent_id: entry.parent_uuid,
        model: message.model,
        stop_reason: message.stop_reason,
        input_tokens,
        output_tokens,
        cache_creation_tokens: cache_creation,
        cache_read_tokens: cache_read,
        is_sidechain: entry.is_sidechain,
        user_type: entry.user_type,
    };
    assert(encodes_content(encoded, entry@.message->Some_0.content));
    Some(m)
}

} // verus!
