//! One transcript line as a record: its shape, how it is read from JSON, and
//! how a line of text is decoded.
use vstd::prelude::*;
use crate::content::{content_of, decode_content, ContentItem};
use crate::fields::{
    optional_bool, optional_int32, optional_string, read_optional_bool, read_optional_int32,
    read_optional_string, read_required_int32, read_required_string, required_int32,
    required_string, SchemaError,
};
use crate::json::{member, parse_json, parsed, JsonValue};

verus! {

/// Token counts reported for one assistant turn.
#[derive(Debug, Clone, Copy, PartialEq, Eq, Structural)]
pub struct TokenUsage {
    pub input_tokens: i32,
    pub output_tokens: i32,
    pub cache_creation_input_tokens: Option<i32>,
    pub cache_read_input_tokens: Option<i32>,
}

/// The message that a record carries.
#[derive(Debug)]
pub struct MessageObject {
    pub role: String,
    pub content: Vec<ContentItem>,
    pub model: Option<String>,
    pub id: Option<String>,
    pub stop_reason: Option<String>,
    pub usage: Option<TokenUsage>,
}

/// What a message object holds, with its content as a sequence.
pub struct MessageView {
    pub role: String,
    pub content: Seq<ContentItem>,
    pub model: Option<String>,
    pub id: Option<String>,
    pub stop_reason: Option<String>,
    pub usage: Option<TokenUsage>,
}

impl View for MessageObject {
    type V = MessageView;

    open spec fn view(&self) -> MessageView {
        MessageView {
            role: self.role,
            content: self.content@,
            model: self.model,
            id: self.id,
            stop_reason: self.stop_reason,
            usage: self.usage,
        }
    }
}

/// One decoded line of a transcript.
#[derive(Debug)]
pub struct RawLogEntry {
    pub entry_type: String,
    pub uuid: Option<String>,
    pub parent_uuid: Option<String>,
    pub session_id: Option<String>,
    pub timestamp: Option<String>,
    pub message: Option<MessageObject>,
    pub summary: Option<String>,
    pub leaf_uuid: Option<String>,
    pub is_sidechain: Option<bool>,
    pub user_type: Option<String>,
    pub cwd: Option<String>,
    pub version: Option<String>,
}

/// What a record holds, with its message as a view.
pub struct EntryView {
    pub entry_type: String,
    pub uuid: Option<String>,
    pub parent_uuid: Option<String>,
    pub session_id: Option<String>,
    pub timestamp: Option<String>,
    pub message: Option<MessageView>,
    pub summary: Option<String>,
    pub leaf_uuid: Option<String>,
    pub is_sidechain: Option<bool>,
    pub user_type: Option<String>,
    pub cwd: Option<String>,
    pub version: Option<String>,
}

pub open spec fn message_view(m: Option<MessageObject>) -> Option<MessageView> {
    match m {
        Some(m) => Some(m@),
        None => None,
    }
}

impl View for RawLogEntry {
    type V = EntryView;

    open spec fn view(&self) -> EntryView {
        EntryView {
            entry_type: self.entry_type,
            uuid: self.uuid,
            parent_uuid: self.parent_uuid,
            session_id: self.session_id,
            timestamp: self.timestamp,
            message: message_view(self.message),
            summary: self.summary,
            leaf_uuid: self.leaf_uuid,
            is_sidechain: self.is_sidechain,
            user_type: self.user_type,
            cwd: self.cwd,
            version: self.version,
        }
    }
}

/// Whether a decoding result is the expected one: the same error, or a value
/// whose view is the expected value.
pub open spec fn decoded_as<T: View>(r: Result<T, SchemaError>, s: Result<T::V, SchemaError>) -> bool {
    match (r, s) {
        (Ok(a), Ok(b)) => a@ == b,
        (Err(a), Err(b)) => a == b,
        _ => false,
    }
}

/// The token usage that a JSON value describes.
pub open spec fn usage_of(v: JsonValue) -> Result<TokenUsage, SchemaError> {
    match v {
        JsonValue::Object(ms) => match required_int32(member(ms, "input_tokens"@)) {
            Err(e) => Err(e),
            Ok(input_tokens) => match required_int32(member(ms, "output_tokens"@)) {
                Err(e) => Err(e),
                Ok(output_tokens) => match optional_int32(member(ms, "cache_creation_input_tokens"@)) {
                    Err(e) => Err(e),
                    Ok(cache_creation_input_tokens) => match optional_int32(member(ms, "cache_read_input_tokens"@)) {
                        Err(e) => Err(e),
                        Ok(cache_read_input_tokens) => Ok(TokenUsage {
                            input_tokens,
                            output_tokens,
                            cache_creation_input_tokens,
                            cache_read_input_tokens,
                        }),
                    },
                },
            },
        },
        _ => Err(SchemaError::InvalidType),
    }
}

/// An optional usage member: absent or `null` reads as absent.
pub open spec fn optional_usage(v: Option<JsonValue>) -> Result<Option<TokenUsage>, SchemaError> {
    match v {
        None => Ok(None),
        Some(JsonValue::Null) => Ok(None),
        Some(x) => match usage_of(x) {
            Ok(u) => Ok(Some(u)),
            Err(e) => Err(e),
        },
    }
}

/// The message that a JSON value describes.
pub open spec fn message_of(v: JsonValue) -> Result<MessageView, SchemaError> {
    match v {
        JsonValue::Object(ms) => match required_string(member(ms, "role"@)) {
            Err(e) => Err(e),
            Ok(role) => match member(ms, "content"@) {
                None => Err(SchemaError::MissingField),
                Some(c) => match content_of(c) {
                    Err(e) => Err(e),
                    Ok(content) => match optional_string(member(ms, "model"@)) {
                        Err(e) => Err(e),
                        Ok(model) => match optional_string(member(ms, "id"@)) {
                            Err(e) => Err(e),
                            Ok(id) => match optional_string(member(ms, "stop_reason"@)) {
                                Err(e) => Err(e),
                                Ok(stop_reason) => match optional_usage(member(ms, "usage"@)) {
                                    Err(e) => Err(e),
                                    Ok(usage) => Ok(MessageView { role, content, model, id, stop_reason, usage }),
                                },
                            },
                        },
                    },
                },
            },
        },
        _ => Err(SchemaError::InvalidType),
    }
}

/// An optional message member: absent or `null` reads as absent.
pub open spec fn optional_message(v: Option<JsonValue>) -> Result<Option<MessageView>, SchemaError> {
    match v {
        None => Ok(None),
        Some(JsonValue::Null) => Ok(None),
        Some(x) => match message_of(x) {
            Ok(m) => Ok(Some(m)),
            Err(e) => Err(e),
        },
    }
}

/// The record that a JSON value describes. Only `type` is required; the
/// other members are optional, and members of other names are ignored.
pub open spec fn entry_of(v: JsonValue) -> Result<EntryView, SchemaError> {
    match v {
        JsonValue::Object(ms) => match required_string(member(ms, "type"@)) {
            Err(e) => Err(e),
            Ok(entry_type) => match optional_string(member(ms, "uuid"@)) {
                Err(e) => Err(e),
                Ok(uuid) => match optional_string(member(ms, "parentUuid"@)) {
                    Err(e) => Err(e),
                    Ok(parent_uuid) => match optional_string(member(ms, "sessionId"@)) {
                        Err(e) => Err(e),
                        Ok(session_id) => match optional_string(member(ms, "timestamp"@)) {
                            Err(e) => Err(e),
                            Ok(timestamp) => match optional_message(member(ms, "message"@)) {
                                Err(e) => Err(e),
                                Ok(message) => match optional_string(member(ms, "summary"@)) {
                                    Err(e) => Err(e),
                                    Ok(summary) => match optional_string(member(ms, "leafUuid"@)) {
                                        Err(e) => Err(e),
                                        Ok(leaf_uuid) => match optional_bool(member(ms, "isSidechain"@)) {
                                            Err(e) => Err(e),
                                            Ok(is_sidechain) => match optional_string(member(ms, "userType"@)) {
                                                Err(e) => Err(e),
                                                Ok(user_type) => match optional_string(member(ms, "cwd"@)) {
                                                    Err(e) => Err(e),
                                                    Ok(cwd) => match optional_string(member(ms, "version"@)) {
                                                        Err(e) => Err(e),
                                                        Ok(version) => Ok(EntryView {
                                                            entry_type,
                                                            uuid,
                                                            parent_uuid,
                                                            session_id,
                                                            timestamp,
                                                            message,
                                                            summary,
                                                            leaf_uuid,
                                                            is_sidechain,
                                                            user_type,
                                                            cwd,
                                                            version,
                                                        }),
                                                    },
                                                },
                                            },
                                        },
                                    },
                                },
                            },
                        },
                    },
                },
            },
        },
        _ => Err(SchemaError::InvalidType),
    }
}

/// Why a line could not be decoded into a record.
#[derive(Debug, Clone)]
pub enum LineError {
    /// The line is not one JSON value; serde_json's message says why.
    Syntax(String),
    /// The value does not have the shape of a record.
    Schema(SchemaError),
}

/// The record that a line of text decodes to, if it decodes.
pub open spec fn line_entry(line: Seq<char>) -> Option<EntryView> {
    match parsed(line) {
        Some(v) => match entry_of(v) {
            Ok(e) => Some(e),
            Err(_) => None,
        },
        None => None,
    }
}

/// Reads token usage from a JSON value.
pub fn decode_usage(v: &JsonValue) -> (r: Result<TokenUsage, SchemaError>)
    ensures
        r == usage_of(*v),
{
    match v {
        JsonValue::Object(ms) => {
            let input_tokens = match read_required_int32(ms.get("input_tokens")) {
                Err(e) => return Err(e),
                Ok(n) => n,
            };
            let output_tokens = match read_required_int32(ms.get("output_tokens")) {
                Err(e) => return Err(e),
                Ok(n) => n,
            };
            let cache_creation_input_tokens = match read_optional_int32(ms.get("cache_creation_input_tokens")) {
                Err(e) => return Err(e),
                Ok(n) => n,
            };
            let cache_read_input_tokens = match read_optional_int32(ms.get("cache_read_input_tokens")) {
                Err(e) => return Err(e),
                Ok(n) => n,
            };
            Ok(TokenUsage { input_tokens, output_tokens, cache_creation_input_tokens, cache_read_input_tokens })
        },
        _ => Err(SchemaError::InvalidType),
    }
}

fn decode_optional_usage(v: Option<JsonValue>) -> (r: Result<Option<TokenUsage>, SchemaError>)
    ensures
        r == optional_usage(v),
{
    match v {
        None => Ok(None),
        Some(JsonValue::Null) => Ok(None),
        Some(x) => match decode_usage(&x) {
            Ok(u) => Ok(Some(u)),
            Err(e) => Err(e),
        },
    }
}

/// Reads a message object from a JSON value.
pub fn decode_message(v: &JsonValue) -> (r: Result<MessageObject, SchemaError>)
    ensures
        decoded_as(r, message_of(*v)),
{
    match v {
        JsonValue::Object(ms) => {
            let role = match read_required_string(ms.get("role")) {
                Err(e) => return Err(e),
                Ok(s) => s,
            };
            let content = match ms.get("content") {
                None => return Err(SchemaError::MissingField),
                Some(c) => match decode_content(&c) {
                    Err(e) => return Err(e),
                    Ok(items) => items,
                },
            };
            let model = match read_optional_string(ms.get("model")) {
                Err(e) => return Err(e),
                Ok(s) => s,
            };
            let id = match read_optional_string(ms.get("id")) {
                Err(e) => return Err(e),
                Ok(s) => s,
            };
            let stop_reason = match read_optional_string(ms.get("stop_reason")) {
                Err(e) => return Err(e),
                Ok(s) => s,
            };
            let usage = match decode_optional_usage(ms.get("usage")) {
                Err(e) => return Err(e),
                Ok(u) => u,
            };
            Ok(MessageObject { role, content, model, id, stop_reason, usage })
        },
        _ => Err(SchemaError::InvalidType),
    }
}

fn decode_optional_message(v: Option<JsonValue>) -> (r: Result<Option<MessageObject>, SchemaError>)
    ensures
        match optional_message(v) {
            Ok(m) => r is Ok && message_view(r->Ok_0) == m,
            Err(e) => r is Err && r->Err_0 == e,
        },
{
    match v {
        None => Ok(None),
        Some(JsonValue::Null) => Ok(None),
        Some(x) => match decode_message(&x) {
            Ok(m) => Ok(Some(m)),
            Err(e) => Err(e),
        },
    }
}

/// Reads a record from a JSON value.
pub fn decode_entry(v: &JsonValue) -> (r: Result<RawLogEntry, SchemaError>)
    ensures
        decoded_as(r, entry_of(*v)),
{
    match v {
        JsonValue::Object(ms) => {
            let entry_type = match read_required_string(ms.get("type")) {
                Err(e) => return Err(e),
                Ok(s) => s,
            };
            let uuid = match read_optional_string(ms.get("uuid")) {
                Err(e) => return Err(e),
                Ok(s) => s,
            };
            let parent_uuid = match read_optional_string(ms.get("parentUuid")) {
                Err(e) => return Err(e),
                Ok(s) => s,
            };
            let session_id = match read_optional_string(ms.get("sessionId")) {
                Err(e) => return Err(e),
                Ok(s) => s,
            };
            let timestamp = match read_optional_string(ms.get("timestamp")) {
                Err(e) => return Err(e),
                Ok(s) => s,
            };
            let message = match decode_optional_message(ms.get("message")) {
                Err(e) => return Err(e),
                Ok(m) => m,
            };
            let summary = match read_optional_string(ms.get("summary")) {
                Err(e) => return Err(e),
                Ok(s) => s,
            };
            let leaf_uuid = match read_optional_string(ms.get("leafUuid")) {
                Err(e) => return Err(e),
                Ok(s) => s,
            };
            let is_sidechain = match read_optional_bool(ms.get("isSidechain")) {
                Err(e) => return Err(e),
                Ok(b) => b,
            };
            let user_type = match read_optional_string(ms.get("userType")) {
                Err(e) => return Err(e),
                Ok(s) => s,
            };
            let cwd = match read_optional_string(ms.get("cwd")) {
                Err(e) => return Err(e),
                Ok(s) => s,
            };
            let version = match read_optional_string(ms.get("version")) {
                Err(e) => return Err(e),
                Ok(s) => s,
            };
            Ok(RawLogEntry {
                entry_type,
                uuid,
                parent_uuid,
                session_id,
                timestamp,
                message,
                summary,
                leaf_uuid,
                is_sidechain,
                user_type,
                cwd,
                version,
            })
        },
        _ => Err(SchemaError::InvalidType),
    }
}

/// Decodes one line of text into a record: a syntax error where serde_json
/// refuses the text, a schema error where the value is not a record.
pub fn parse_jsonl_line(line: &str) -> (r: Result<RawLogEntry, LineError>)
    ensures
        match parsed(line@) {
            None => r is Err && r->Err_0 is Syntax,
            Some(v) => match entry_of(v) {
                Ok(e) => r is Ok && r->Ok_0@ == e,
                Err(e) => r is Err && r->Err_0 == LineError::Schema(e),
            },
        },
        r is Ok <==> line_entry(line@) is Some,
        r is Ok ==> line_entry(line@) == Some(r->Ok_0@),
{
    match parse_json(line) {
        Err(msg) => Err(LineError::Syntax(msg)),
        Ok(v) => match decode_entry(&v) {
            Ok(e) => Ok(e),
            Err(e) => Err(LineError::Schema(e)),
        },
    }
}

} // verus!
