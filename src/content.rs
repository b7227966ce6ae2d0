//! The kinds of content item a message can hold, how they are read from JSON,
//! and what is derived from a sequence of them.
use vstd::prelude::*;
use crate::fields::{
    optional_bool, optional_string, read_optional_bool, read_optional_string, read_required_string,
    required_string, SchemaError,
};
use crate::json::{member, items_seq, same_text, JsonItems, JsonMembers, JsonValue};

verus! {

/// Where an image item's data comes from.
#[derive(Debug, Clone)]
pub struct ImageSource {
    pub source_type: String,
    pub media_type: String,
    pub data: String,
}

/// One typed unit of a message's content.
#[derive(Debug)]
pub enum ContentItem {
    Text { text: String },
    Thinking { thinking: String, signature: Option<String> },
    ToolUse { id: String, name: String, input: JsonValue },
    ToolResult { tool_use_id: String, content: JsonValue, is_error: Option<bool> },
    Image { source: ImageSource },
}

/// The image source that a JSON value describes.
pub open spec fn source_of(v: JsonValue) -> Result<ImageSource, SchemaError> {
    match v {
        JsonValue::Object(ms) => match required_string(member(ms, "type"@)) {
            Err(e) => Err(e),
            Ok(source_type) => match required_string(member(ms, "media_type"@)) {
                Err(e) => Err(e),
                Ok(media_type) => match required_string(member(ms, "data"@)) {
                    Err(e) => Err(e),
                    Ok(data) => Ok(ImageSource { source_type, media_type, data }),
                },
            },
        },
        _ => Err(SchemaError::InvalidType),
    }
}

/// The item of the kind that `tag` names, read from the members of an object.
pub open spec fn tagged_item_of(tag: Seq<char>, ms: JsonMembers) -> Result<ContentItem, SchemaError> {
    if tag == "text"@ {
        match required_string(member(ms, "text"@)) {
            Err(e) => Err(e),
            Ok(text) => Ok(ContentItem::Text { text }),
        }
    } else if tag == "thinking"@ {
        match required_string(member(ms, "thinking"@)) {
            Err(e) => Err(e),
            Ok(thinking) => match optional_string(member(ms, "signature"@)) {
                Err(e) => Err(e),
                Ok(signature) => Ok(ContentItem::Thinking { thinking, signature }),
            },
        }
    } else if tag == "tool_use"@ {
        match required_string(member(ms, "id"@)) {
            Err(e) => Err(e),
            Ok(id) => match required_string(member(ms, "name"@)) {
                Err(e) => Err(e),
                Ok(name) => match member(ms, "input"@) {
                    None => Err(SchemaError::MissingField),
                    Some(input) => Ok(ContentItem::ToolUse { id, name, input }),
                },
            },
        }
    } else if tag == "tool_result"@ {
        match required_string(member(ms, "tool_use_id"@)) {
            Err(e) => Err(e),
            Ok(tool_use_id) => match member(ms, "content"@) {
                None => Err(SchemaError::MissingField),
                Some(content) => match optional_bool(member(ms, "is_error"@)) {
                    Err(e) => Err(e),
                    Ok(is_error) => Ok(ContentItem::ToolResult { tool_use_id, content, is_error }),
                },
            },
        }
    } else if tag == "image"@ {
        match member(ms, "source"@) {
            None => Err(SchemaError::MissingField),
            Some(s) => match source_of(s) {
                Err(e) => Err(e),
                Ok(source) => Ok(ContentItem::Image { source }),
            },
        }
    } else {
        Err(SchemaError::UnknownVariant)
    }
}

/// The item that a JSON value describes: an object whose `type` member names
/// its kind.
pub open spec fn item_of(v: JsonValue) -> Result<ContentItem, SchemaError> {
    match v {
        JsonValue::Object(ms) => match required_string(member(ms, "type"@)) {
            Err(e) => Err(e),
            Ok(tag) => tagged_item_of(tag@, ms),
        },
        _ => Err(SchemaError::InvalidType),
    }
}

/// The items that a sequence of JSON values describes, or the first error.
pub open spec fn items_of(vs: Seq<JsonValue>) -> Result<Seq<ContentItem>, SchemaError>
    decreases vs.len(),
{
    if vs.len() == 0 {
        Ok(Seq::empty())
    } else {
        match item_of(vs[0]) {
            Err(e) => Err(e),
            Ok(first) => match items_of(vs.drop_first()) {
                Err(e) => Err(e),
                Ok(rest) => Ok(seq![first] + rest),
            },
        }
    }
}

/// The content that a message's `content` value describes: a string stands
/// for one text item holding it; an array holds one item per element.
pub open spec fn content_of(v: JsonValue) -> Result<Seq<ContentItem>, SchemaError> {
    match v {
        JsonValue::Str(s) => Ok(seq![ContentItem::Text { text: s }]),
        JsonValue::Array(items) => items_of(items_seq(items)),
        _ => Err(SchemaError::InvalidType),
    }
}

pub fn decode_image_source(v: &JsonValue) -> (r: Result<ImageSource, SchemaError>)
    ensures
        r == source_of(*v),
{
    match v {
        JsonValue::Object(ms) => {
            let source_type = match read_required_string(ms.get("type")) {
                Err(e) => return Err(e),
                Ok(s) => s,
            };
            let media_type = match read_required_string(ms.get("media_type")) {
                Err(e) => return Err(e),
                Ok(s) => s,
            };
            let data = match read_required_string(ms.get("data")) {
                Err(e) => return Err(e),
                Ok(s) => s,
            };
            Ok(ImageSource { source_type, media_type, data })
        },
        _ => Err(SchemaError::InvalidType),
    }
}

fn decode_tagged_item(tag: &str, ms: &JsonMembers) -> (r: Result<ContentItem, SchemaError>)
    ensures
        r == tagged_item_of(tag@, *ms),
{
    if same_text(tag, "text") {
        match read_required_string(ms.get("text")) {
            Err(e) => Err(e),
            Ok(text) => Ok(ContentItem::Text { text }),
        }
    } else if same_text(tag, "thinking") {
        let thinking = match read_required_string(ms.get("thinking")) {
            Err(e) => return Err(e),
            Ok(s) => s,
        };
        match read_optional_string(ms.get("signature")) {
            Err(e) => Err(e),
            Ok(signature) => Ok(ContentItem::Thinking { thinking, signature }),
        }
    } else if same_text(tag, "tool_use") {
        let id = match read_required_string(ms.get("id")) {
            Err(e) => return Err(e),
            Ok(s) => s,
        };
        let name = match read_required_string(ms.get("name")) {
            Err(e) => return Err(e),
            Ok(s) => s,
        };
        match ms.get("input") {
            None => Err(SchemaError::MissingField),
            Some(input) => Ok(ContentItem::ToolUse { id, name, input }),
        }
    } else if same_text(tag, "tool_result") {
        let tool_use_id = match read_required_string(ms.get("tool_use_id")) {
            Err(e) => return Err(e),
            Ok(s) => s,
        };
        let content = match ms.get("content") {
            None => return Err(SchemaError::MissingField),
            Some(c) => c,
        };
        match read_optional_bool(ms.get("is_error")) {
            Err(e) => Err(e),
            Ok(is_error) => Ok(ContentItem::ToolResult { tool_use_id, content, is_error }),
        }
    } else if same_text(tag, "image") {
        match ms.get("source") {
            None => Err(SchemaError::MissingField),
            Some(s) => match decode_image_source(&s) {
                Err(e) => Err(e),
                Ok(source) => Ok(ContentItem::Image { source }),
            },
        }
    } else {
        Err(SchemaError::UnknownVariant)
    }
}

/// Reads one content item from a JSON value.
pub fn decode_item(v: &JsonValue) -> (r: Result<ContentItem, SchemaError>)
    ensures
        r == item_of(*v),
{
    match v {
        JsonValue::Object(ms) => match read_required_string(ms.get("type")) {
            Err(e) => Err(e),
            Ok(tag) => decode_tagged_item(tag.as_str(), ms),
        },
        _ => Err(SchemaError::InvalidType),
    }
}

/// A decoding result with `done` set before the items, if it succeeded.
pub open spec fn after_decoded(done: Seq<ContentItem>, r: Result<Seq<ContentItem>, SchemaError>) -> Result<Seq<ContentItem>, SchemaError> {
    match r {
        Ok(s) => Ok(done + s),
        Err(e) => Err(e),
    }
}

fn decode_items(items: &JsonItems) -> (r: Result<Vec<ContentItem>, SchemaError>)
    ensures
        match items_of(items_seq(*items)) {
            Ok(s) => r is Ok && r->Ok_0@ == s,
            Err(e) => r == Err::<Vec<ContentItem>, SchemaError>(e),
        },
{
    let mut out: Vec<ContentItem> = Vec::new();
    let mut cur = items;
    assert(items_of(items_seq(*items)) == after_decoded(out@, items_of(items_seq(*items))));
    loop
        invariant
            items_of(items_seq(*items)) == after_decoded(out@, items_of(items_seq(*cur))),
        decreases *cur,
    {
        match cur {
            JsonItems::Nil => {
                assert(out@ + Seq::<ContentItem>::empty() == out@);
                return Ok(out);
            },
            JsonItems::Cons(head, tail) => {
                assert(items_seq(*cur).drop_first() == items_seq(**tail));
                match decode_item(head) {
                    Err(e) => return Err(e),
                    Ok(item) => {
                        let ghost done = out@;
                        out.push(item);
                        proof {
                            if let Ok(rest) = items_of(items_seq(**tail)) {
                                assert(done + (seq![item] + rest) == out@ + rest);
                            }
                        }
                        cur = &**tail;
                    },
                }
            },
        }
    }
}

/// Reads a message's content from the JSON value of its `content` member.
pub fn decode_content(v: &JsonValue) -> (r: Result<Vec<ContentItem>, SchemaError>)
    ensures
        match content_of(*v) {
            Ok(s) => r is Ok && r->Ok_0@ == s,
            Err(e) => r == Err::<Vec<ContentItem>, SchemaError>(e),
        },
{
    match v {
        JsonValue::Str(s) => {
            let mut out: Vec<ContentItem> = Vec::new();
            out.push(ContentItem::Text { text: s.clone() });
            Ok(out)
        },
        JsonValue::Array(items) => decode_items(items),
        _ => Err(SchemaError::InvalidType),
    }
}

/// The marker set before the text of a thinking item in merged text.
pub open spec fn thinking_marker() -> Seq<char> {
    "[Thinking]\n"@
}

/// What an item contributes to merged text: a text item its text, a
/// thinking item its text after the marker, the other kinds nothing.
pub open spec fn item_text(item: ContentItem) -> Option<Seq<char>> {
    match item {
        ContentItem::Text { text } => Some(text@),
        ContentItem::Thinking { thinking, .. } => Some(thinking_marker() + thinking@),
        _ => None,
    }
}

/// The contributions of the items, in order.
pub open spec fn item_texts(items: Seq<ContentItem>) -> Seq<Seq<char>>
    decreases items.len(),
{
    if items.len() == 0 {
        Seq::empty()
    } else {
        match item_text(items.last()) {
            Some(t) => item_texts(items.drop_last()).push(t),
            None => item_texts(items.drop_last()),
        }
    }
}

/// The parts joined, with a blank line between each two.
pub open spec fn joined(parts: Seq<Seq<char>>) -> Seq<char>
    decreases parts.len(),
{
    if parts.len() == 0 {
        Seq::empty()
    } else if parts.len() == 1 {
        parts[0]
    } else {
        joined(parts.drop_last()) + seq!['\n', '\n'] + parts.last()
    }
}

/// The human-readable text of a content sequence.
pub open spec fn merged_text(items: Seq<ContentItem>) -> Seq<char> {
    joined(item_texts(items))
}

/// Merges the text and thinking items into one text, in order, with a blank
/// line between each two and the thinking marker before each thinking text.
pub fn extract_text_content(content_items: &[ContentItem]) -> (r: String)
    ensures
        r@ == merged_text(content_items@),
{
    let mut r = String::new();
    let mut wrote = false;
    let mut i: usize = 0;
    while i < content_items.len()
        invariant
            i <= content_items@.len(),
            r@ == merged_text(content_items@.subrange(0, i as int)),
            wrote == (item_texts(content_items@.subrange(0, i as int)).len() > 0),
        decreases content_items@.len() - i,
    {
        let ghost before = content_items@.subrange(0, i as int);
        let ghost after = content_items@.subrange(0, i + 1);
        assert(after.drop_last() == before);
        let ghost n = item_texts(before).len();
        let item = &content_items[i];
        match item {
            ContentItem::Text { text } => {
                if wrote {
                    r.append("\n\n");
                }
                r.append(text.as_str());
                wrote = true;
            },
            ContentItem::Thinking { thinking, .. } => {
                if wrote {
                    r.append("\n\n");
                }
                r.append("[Thinking]\n");
                r.append(thinking.as_str());
                wrote = true;
            },
            _ => {},
        }
        proof {
            reveal_strlit("\n\n");
            assert(after.last() == *item);
            let parts = item_texts(after);
            if let Some(t) = item_text(*item) {
                assert(parts == item_texts(before).push(t));
                assert(parts.drop_last() == item_texts(before));
                if n == 0 {
                    assert(parts.len() == 1);
                }
            } else {
                assert(parts == item_texts(before));
            }
        }
        i += 1;
    }
    assert(content_items@.subrange(0, i as int) == content_items@);
    r
}

/// Whether some item is a thinking item.
pub open spec fn any_thinking(items: Seq<ContentItem>) -> bool {
    exists|i: int| 0 <= i < items.len() && items[i] is Thinking
}

/// Whether some item is a tool-use item.
pub open spec fn any_tool_use(items: Seq<ContentItem>) -> bool {
    exists|i: int| 0 <= i < items.len() && items[i] is ToolUse
}

/// Whether some item is an image item.
pub open spec fn any_image(items: Seq<ContentItem>) -> bool {
    exists|i: int| 0 <= i < items.len() && items[i] is Image
}

/// Whether some item is a thinking item.
pub fn has_thinking(content_items: &[ContentItem]) -> (r: bool)
    ensures
        r == any_thinking(content_items@),
{
    let mut i: usize = 0;
    while i < content_items.len()
        invariant
            i <= content_items@.len(),
            forall|j: int| 0 <= j < i ==> !(content_items@[j] is Thinking),
        decreases content_items@.len() - i,
    {
        if let ContentItem::Thinking { .. } = &content_items[i] {
            return true;
        }
        i += 1;
    }
    false
}

/// Whether some item is a tool-use item.
pub fn has_tool_use(content_items: &[ContentItem]) -> (r: bool)
    ensures
        r == any_tool_use(content_items@),
{
    let mut i: usize = 0;
    while i < content_items.len()
        invariant
            i <= content_items@.len(),
            forall|j: int| 0 <= j < i ==> !(content_items@[j] is ToolUse),
        decreases content_items@.len() - i,
    {
        if let ContentItem::ToolUse { .. } = &content_items[i] {
            return true;
        }
        i += 1;
    }
    false
}

/// Whether some item is an image item.
pub fn has_images(content_items: &[ContentItem]) -> (r: bool)
    ensures
        r == any_image(content_items@),
{
    let mut i: usize = 0;
    while i < content_items.len()
        invariant
            i <= content_items@.len(),
            forall|j: int| 0 <= j < i ==> !(content_items@[j] is Image),
        decreases content_items@.len() - i,
    {
        if let ContentItem::Image { .. } = &content_items[i] {
            return true;
        }
        i += 1;
    }
    false
}

} // verus!
