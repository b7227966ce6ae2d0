//! Content items written back as JSON, in the shape they are read from: an
//! object whose member `type` names the kind, beside the item's fields, with
//! absent optional fields left out. The tree lists `type` first; serde_json,
//! which prints it, orders an object's members by name.
use vstd::prelude::*;
use crate::content::{ContentItem, ImageSource};
use crate::json::{items_seq, JsonItems, JsonMembers, JsonValue};

verus! {

/// What one member's value must be: a given string, a given value, or an
/// object of string members.
pub enum FieldShape {
    Text(Seq<char>),
    Value(JsonValue),
    Texts(Seq<(Seq<char>, Seq<char>)>),
}

/// Whether the members are, in order, string members with these names and
/// texts.
pub open spec fn string_members(ms: JsonMembers, ps: Seq<(Seq<char>, Seq<char>)>) -> bool
    decreases ms,
{
    match ms {
        JsonMembers::Nil => ps.len() == 0,
        JsonMembers::Cons(k, v, rest) => ps.len() > 0 && k@ == ps[0].0 && *v is Str
            && v->Str_0@ == ps[0].1 && string_members(*rest, ps.drop_first()),
    }
}

pub open spec fn fits(v: JsonValue, f: FieldShape) -> bool {
    match f {
        FieldShape::Text(t) => v is Str && v->Str_0@ == t,
        FieldShape::Value(x) => v == x,
        FieldShape::Texts(ps) => v is Object && string_members(v->Object_0, ps),
    }
}

/// Whether the members are, in order, members with these names whose values
/// fit these shapes.
pub open spec fn members_fit(ms: JsonMembers, ps: Seq<(Seq<char>, FieldShape)>) -> bool
    decreases ms,
{
    match ms {
        JsonMembers::Nil => ps.len() == 0,
        JsonMembers::Cons(k, v, rest) => ps.len() > 0 && k@ == ps[0].0 && fits(*v, ps[0].1)
            && members_fit(*rest, ps.drop_first()),
    }
}

/// The members that an item is written as.
pub open spec fn item_shape(item: ContentItem) -> Seq<(Seq<char>, FieldShape)> {
    match item {
        ContentItem::Text { text } => seq![
            ("type"@, FieldShape::Text("text"@)),
            ("text"@, FieldShape::Text(text@)),
        ],
        ContentItem::Thinking { thinking, signature } => {
            let base = seq![
                ("type"@, FieldShape::Text("thinking"@)),
                ("thinking"@, FieldShape::Text(thinking@)),
            ];
            match signature {
                Some(s) => base.push(("signature"@, FieldShape::Text(s@))),
                None => base,
            }
        },
        ContentItem::ToolUse { id, name, input } => seq![
            ("type"@, FieldShape::Text("tool_use"@)),
            ("id"@, FieldShape::Text(id@)),
            ("name"@, FieldShape::Text(name@)),
            ("input"@, FieldShape::Value(input)),
        ],
        ContentItem::ToolResult { tool_use_id, content, is_error } => {
            let base = seq![
                ("type"@, FieldShape::Text("tool_result"@)),
                ("tool_use_id"@, FieldShape::Text(tool_use_id@)),
                ("content"@, FieldShape::Value(content)),
            ];
            match is_error {
                Some(b) => base.push(("is_error"@, FieldShape::Value(JsonValue::Bool(b)))),
                None => base,
            }
        },
        ContentItem::Image { source } => seq![
            ("type"@, FieldShape::Text("image"@)),
            (
                "source"@,
                FieldShape::Texts(
                    seq![
                        ("type"@, source.source_type@),
                        ("media_type"@, source.media_type@),
                        ("data"@, source.data@),
                    ],
                ),
            ),
        ],
    }
}

/// Whether a value is an item written as JSON.
pub open spec fn encodes_item(v: JsonValue, item: ContentItem) -> bool {
    v is Object && members_fit(v->Object_0, item_shape(item))
}

/// Whether a value is an array of the items written as JSON, in order.
pub open spec fn encodes_content(v: JsonValue, items: Seq<ContentItem>) -> bool {
    &&& v is Array
    &&& items_seq(v->Array_0).len() == items.len()
    &&& forall|i: int| 0 <= i < items.len() ==> encodes_item(#[trigger] items_seq(v->Array_0)[i], items[i])
}

fn member_of(key: &str, value: JsonValue, rest: JsonMembers) -> (r: JsonMembers)
    ensures
        r matches JsonMembers::Cons(k, v, t) && k@ == key@ && *v == value && *t == rest,
{
    JsonMembers::Cons(String::from_str(key), Box::new(value), Box::new(rest))
}

fn text_value(t: &str) -> (r: JsonValue)
    ensures
        r is Str && r->Str_0@ == t@,
{
    JsonValue::Str(String::from_str(t))
}

fn encode_source(source: &ImageSource) -> (r: JsonValue)
    ensures
        fits(r, FieldShape::Texts(seq![
            ("type"@, source.source_type@),
            ("media_type"@, source.media_type@),
            ("data"@, source.data@),
        ])),
{
    proof {
        reveal_with_fuel(string_members, 4);
    }
    let data = member_of("data", JsonValue::Str(source.data.clone()), JsonMembers::Nil);
    let media = member_of("media_type", JsonValue::Str(source.media_type.clone()), data);
    let ms = member_of("type", JsonValue::Str(source.source_type.clone()), media);
    let ghost ps = seq![
        ("type"@, source.source_type@),
        ("media_type"@, source.media_type@),
        ("data"@, source.data@),
    ];
    assert(ps.drop_first().drop_first().drop_first().len() == 0);
    JsonValue::Object(ms)
}

/// Writes one item as JSON.
pub fn encode_item(item: &ContentItem) -> (r: JsonValue)
    ensures
        encodes_item(r, *item),
{
    let ghost ps = item_shape(*item);
    proof {
        reveal_with_fuel(members_fit, 5);
    }
    let ms = match item {
        ContentItem::Text { text } => {
            let t = member_of("text", JsonValue::Str(text.clone()), JsonMembers::Nil);
            assert(ps.drop_first().drop_first().len() == 0);
            member_of("type", text_value("text"), t)
        },
        ContentItem::Thinking { thinking, signature } => {
            let tail = match signature {
                Some(s) => {
                    assert(ps.drop_first().drop_first().drop_first().len() == 0);
                    member_of("signature", JsonValue::Str(s.clone()), JsonMembers::Nil)
                },
                None => {
                    assert(ps.drop_first().drop_first().len() == 0);
                    JsonMembers::Nil
                },
            };
            let t = member_of("thinking", JsonValue::Str(thinking.clone()), tail);
            member_of("type", text_value("thinking"), t)
        },
        ContentItem::ToolUse { id, name, input } => {
            let i = member_of("input", input.copy(), JsonMembers::Nil);
            let n = member_of("name", JsonValue::Str(name.clone()), i);
            let d = member_of("id", JsonValue::Str(id.clone()), n);
            assert(ps.drop_first().drop_first().drop_first().drop_first().len() == 0);
            member_of("type", text_value("tool_use"), d)
        },
        ContentItem::ToolResult { tool_use_id, content, is_error } => {
            let tail = match is_error {
                Some(b) => {
                    assert(ps.drop_first().drop_first().drop_first().drop_first().len() == 0);
                    member_of("is_error", JsonValue::Bool(*b), JsonMembers::Nil)
                },
                None => {
                    assert(ps.drop_first().drop_first().drop_first().len() == 0);
                    JsonMembers::Nil
                },
            };
            let c = member_of("content", content.copy(), tail);
            let t = member_of("tool_use_id", JsonValue::Str(tool_use_id.clone()), c);
            member_of("type", text_value("tool_result"), t)
        },
        ContentItem::Image { source } => {
            let s = member_of("source", encode_source(source), JsonMembers::Nil);
            assert(ps.drop_first().drop_first().len() == 0);
            member_of("type", text_value("image"), s)
        },
    };
    JsonValue::Object(ms)
}

/// Writes a content sequence as a JSON array of its items.
pub fn encode_content(items: &[ContentItem]) -> (r: JsonValue)
    ensures
        encodes_content(r, items@),
{
    let mut acc = JsonItems::Nil;
    let mut i: usize = items.len();
    while i > 0
        invariant
            i <= items@.len(),
            items_seq(acc).len() == items@.len() - i,
            forall|j: int| 0 <= j < items_seq(acc).len() ==> encodes_item(#[trigger] items_seq(acc)[j], items@[i + j]),
        decreases i,
    {
        i -= 1;
        let v = encode_item(&items[i]);
        let ghost old_acc = acc;
        acc = JsonItems::Cons(Box::new(v), Box::new(acc));
        assert(items_seq(acc) == seq![v] + items_seq(old_acc));
        assert forall|j: int| 0 <= j < items_seq(acc).len() implies encodes_item(#[trigger] items_seq(acc)[j], items@[i + j]) by {
            if j > 0 {
                assert(items_seq(acc)[j] == items_seq(old_acc)[j - 1]);
            }
        }
    }
    JsonValue::Array(acc)
}

} // verus!
