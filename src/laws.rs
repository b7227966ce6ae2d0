//! Properties that hold across the decoder, the projection and the session
//! summary.
use vstd::prelude::*;
use crate::content::{any_thinking, content_of, item_texts, joined, merged_text, ContentItem};
use crate::encode::{encodes_content, encodes_item, fits, members_fit, string_members, FieldShape};
use crate::json::{
    items_model, items_seq, member, members_model, model, JsonItems, JsonMembers, JsonValue,
};
use crate::lines::is_blank;
use crate::message::{is_chat_type, projects, projects_to, ClaudeMessage};
use crate::record::{line_entry, message_of, EntryView};
use crate::session::{is_assistant, is_user, stats_of};
use crate::transcript::{chat_entries, entries_of, failed_lines, lemma_failed_lines_in_range, messages_of};

verus! {

/// A message whose `content` is a plain string has exactly that string as
/// its merged text.
pub proof fn lemma_plain_string_content(v: JsonValue, s: String, e: EntryView, m: ClaudeMessage)
    requires
        v is Object,
        member(v->Object_0, "content"@) == Some(JsonValue::Str(s)),
        message_of(v) is Ok,
        e.message == Some(message_of(v)->Ok_0),
        projects_to(e, m),
    ensures
        merged_text(message_of(v)->Ok_0.content) == s@,
        m.content@ == s@,
{
    let items = seq![ContentItem::Text { text: s }];
    assert(content_of(JsonValue::Str(s)) == Ok::<Seq<ContentItem>, crate::fields::SchemaError>(items));
    assert(items.drop_last().len() == 0);
    assert(item_texts(items.drop_last()) == Seq::<Seq<char>>::empty());
    assert(item_texts(items) == Seq::<Seq<char>>::empty().push(s@));
    assert(item_texts(items) == seq![s@]);
}

proof fn lemma_string_members_model(a: JsonMembers, b: JsonMembers, ps: Seq<(Seq<char>, Seq<char>)>)
    requires
        string_members(a, ps),
        string_members(b, ps),
    ensures
        members_model(a) == members_model(b),
    decreases a,
{
    match a {
        JsonMembers::Nil => {
            assert(b is Nil);
        },
        JsonMembers::Cons(ka, va, ra) => match b {
            JsonMembers::Nil => {},
            JsonMembers::Cons(kb, vb, rb) => {
                lemma_string_members_model(*ra, *rb, ps.drop_first());
                assert(model(*va) == model(*vb));
                assert(ka@ == kb@);
            },
        },
    }
}

proof fn lemma_fits_model(a: JsonValue, b: JsonValue, f: FieldShape)
    requires
        fits(a, f),
        fits(b, f),
    ensures
        model(a) == model(b),
{
    if let FieldShape::Texts(ps) = f {
        lemma_string_members_model(a->Object_0, b->Object_0, ps);
    }
}

proof fn lemma_members_fit_model(a: JsonMembers, b: JsonMembers, ps: Seq<(Seq<char>, FieldShape)>)
    requires
        members_fit(a, ps),
        members_fit(b, ps),
    ensures
        members_model(a) == members_model(b),
    decreases a,
{
    match a {
        JsonMembers::Nil => {
            assert(b is Nil);
        },
        JsonMembers::Cons(_, va, ra) => match b {
            JsonMembers::Nil => {},
            JsonMembers::Cons(_, vb, rb) => {
                lemma_fits_model(*va, *vb, ps[0].1);
                lemma_members_fit_model(*ra, *rb, ps.drop_first());
            },
        },
    }
}

proof fn lemma_items_model(l: JsonItems)
    ensures
        items_model(l).len() == items_seq(l).len(),
        forall|i: int| 0 <= i < items_seq(l).len() ==> items_model(l)[i] == model(#[trigger] items_seq(l)[i]),
    decreases l,
{
    if let JsonItems::Cons(h, t) = l {
        lemma_items_model(*t);
        assert forall|i: int| 0 <= i < items_seq(l).len() implies items_model(l)[i] == model(#[trigger] items_seq(l)[i]) by {
            if i > 0 {
                assert(items_seq(l)[i] == items_seq(*t)[i - 1]);
            }
        }
    }
}

/// Two JSON values that both write out the same items have the same model,
/// and so the same printed text.
proof fn lemma_encoding_unique(a: JsonValue, b: JsonValue, items: Seq<ContentItem>)
    requires
        encodes_content(a, items),
        encodes_content(b, items),
    ensures
        model(a) == model(b),
{
    let la = a->Array_0;
    let lb = b->Array_0;
    lemma_items_model(la);
    lemma_items_model(lb);
    assert forall|i: int| 0 <= i < items.len() implies items_model(la)[i] == items_model(lb)[i] by {
        let x = items_seq(la)[i];
        let y = items_seq(lb)[i];
        assert(encodes_item(x, items[i]));
        assert(encodes_item(y, items[i]));
        lemma_members_fit_model(x->Object_0, y->Object_0, crate::encode::item_shape(items[i]));
    }
    assert(items_model(la) == items_model(lb));
}

/// Whether two messages hold the same texts, flags and values.
pub open spec fn same_message(a: ClaudeMessage, b: ClaudeMessage) -> bool {
    &&& a.message_id@ == b.message_id@
    &&& a.session_id@ == b.session_id@
    &&& a.role@ == b.role@
    &&& a.content@ == b.content@
    &&& a.timestamp@ == b.timestamp@
    &&& a.raw_content@ == b.raw_content@
    &&& a.has_thinking == b.has_thinking
    &&& a.has_tool_use == b.has_tool_use
    &&& a.has_images == b.has_images
    &&& a.parent_id == b.parent_id
    &&& a.model == b.model
    &&& a.stop_reason == b.stop_reason
    &&& a.input_tokens == b.input_tokens
    &&& a.output_tokens == b.output_tokens
    &&& a.cache_creation_tokens == b.cache_creation_tokens
    &&& a.cache_read_tokens == b.cache_read_tokens
    &&& a.is_sidechain == b.is_sidechain
    &&& a.user_type == b.user_type
}

/// A record projects to one message only, up to equal texts.
pub proof fn lemma_projection_unique(e: EntryView, a: ClaudeMessage, b: ClaudeMessage)
    requires
        projects_to(e, a),
        projects_to(e, b),
    ensures
        same_message(a, b),
{
    let items = e.message->Some_0.content;
    let ja = choose|j: JsonValue| encodes_content(j, items) && a.raw_content@ == crate::message::text_or_empty(
        crate::json::printed(#[trigger] model(j)),
    );
    let jb = choose|j: JsonValue| encodes_content(j, items) && b.raw_content@ == crate::message::text_or_empty(
        crate::json::printed(#[trigger] model(j)),
    );
    lemma_encoding_unique(ja, jb, items);
}

/// Decoding the same lines twice gives the same messages: any two message
/// sequences that the lines project to agree, message by message.
pub proof fn lemma_parse_deterministic(lines: Seq<Seq<char>>, a: Seq<ClaudeMessage>, b: Seq<ClaudeMessage>)
    requires
        messages_of(entries_of(lines), a),
        messages_of(entries_of(lines), b),
    ensures
        a.len() == b.len(),
        forall|i: int| 0 <= i < a.len() ==> same_message(#[trigger] a[i], b[i]),
{
    let es = chat_entries(entries_of(lines));
    assert forall|i: int| 0 <= i < a.len() implies same_message(#[trigger] a[i], b[i]) by {
        lemma_projection_unique(es[i], a[i], b[i]);
    }
}

/// A record of a type other than `user` and `assistant` yields no message
/// and leaves the message counts as they were, wherever it stands.
pub proof fn lemma_other_type_ignored(before: Seq<EntryView>, e: EntryView, after: Seq<EntryView>)
    requires
        !is_chat_type(e.entry_type@),
    ensures
        !projects(e),
        chat_entries(before.push(e) + after) == chat_entries(before + after),
        stats_of(before.push(e) + after).message_count == stats_of(before + after).message_count,
        stats_of(before.push(e) + after).user_message_count == stats_of(before + after).user_message_count,
        stats_of(before.push(e) + after).assistant_message_count
            == stats_of(before + after).assistant_message_count,
    decreases after.len(),
{
    let with = before.push(e) + after;
    let without = before + after;
    if after.len() == 0 {
        assert(with == before.push(e));
        assert(without == before);
        assert(with.drop_last() == before);
        assert(!is_user(e) && !is_assistant(e));
    } else {
        lemma_other_type_ignored(before, e, after.drop_last());
        assert(with.drop_last() == before.push(e) + after.drop_last());
        assert(without.drop_last() == before + after.drop_last());
        assert(with.last() == after.last());
        assert(without.last() == after.last());
    }
}

/// An assistant record with a thinking item marks its message and the whole
/// session as holding thinking, whatever comes before or after it.
pub proof fn lemma_thinking_reaches_session(es: Seq<EntryView>, k: int)
    requires
        0 <= k < es.len(),
        is_assistant(es[k]),
        es[k].message is Some,
        any_thinking(es[k].message->Some_0.content),
    ensures
        stats_of(es).has_thinking,
        forall|m: ClaudeMessage| #[trigger] projects_to(es[k], m) ==> m.has_thinking,
    decreases es.len(),
{
    if k < es.len() - 1 {
        lemma_thinking_reaches_session(es.drop_last(), k);
    }
}

/// A blank line yields nothing, wherever it stands: the records (and so the
/// messages and the summary) and the number of failures are those of the
/// other lines.
pub proof fn lemma_blank_line_ignored(before: Seq<Seq<char>>, l: Seq<char>, after: Seq<Seq<char>>)
    requires
        is_blank(l),
    ensures
        entries_of(before.push(l) + after) == entries_of(before + after),
        stats_of(entries_of(before.push(l) + after)) == stats_of(entries_of(before + after)),
        chat_entries(entries_of(before.push(l) + after)) == chat_entries(entries_of(before + after)),
        failed_lines(before.push(l) + after).len() == failed_lines(before + after).len(),
    decreases after.len(),
{
    let with = before.push(l) + after;
    let without = before + after;
    if after.len() == 0 {
        assert(with == before.push(l));
        assert(without == before);
        assert(with.drop_last() == before);
    } else {
        lemma_blank_line_ignored(before, l, after.drop_last());
        assert(with.drop_last() == before.push(l) + after.drop_last());
        assert(without.drop_last() == before + after.drop_last());
        assert(with.last() == after.last());
        assert(without.last() == after.last());
    }
}

/// No line reported as failing is blank.
pub proof fn lemma_failures_not_blank(lines: Seq<Seq<char>>)
    ensures
        forall|j: int| 0 <= j < failed_lines(lines).len() ==> !is_blank(lines[#[trigger] failed_lines(lines)[j]]),
    decreases lines.len(),
{
    if lines.len() > 0 {
        let rest = lines.drop_last();
        lemma_failures_not_blank(rest);
        lemma_failed_lines_in_range(rest);
        let fl = failed_lines(lines);
        assert forall|j: int| 0 <= j < fl.len() implies !is_blank(lines[#[trigger] fl[j]]) by {
            if j < failed_lines(rest).len() {
                assert(fl[j] == failed_lines(rest)[j]);
                assert(lines[fl[j]] == rest[fl[j]]);
            }
        }
    }
}

/// The records of two runs of lines, one after the other, are the records
/// of the first run followed by those of the second.
pub proof fn lemma_entries_concat(a: Seq<Seq<char>>, b: Seq<Seq<char>>)
    ensures
        entries_of(a + b) == entries_of(a) + entries_of(b),
    decreases b.len(),
{
    if b.len() == 0 {
        assert(a + b == a);
        assert(entries_of(a) + entries_of(b) == entries_of(a));
    } else {
        lemma_entries_concat(a, b.drop_last());
        assert((a + b).drop_last() == a + b.drop_last());
        assert((a + b).last() == b.last());
        let l = b.last();
        if !is_blank(l) && line_entry(l) is Some {
            assert(entries_of(a) + entries_of(b) == (entries_of(a) + entries_of(b.drop_last())).push(line_entry(l)->Some_0));
        }
    }
}

/// A line that decodes to a record of a type other than `user` and
/// `assistant` yields no message and leaves the summary's message counts as
/// they were, wherever it stands among the lines.
pub proof fn lemma_other_type_line_ignored(before: Seq<Seq<char>>, l: Seq<char>, after: Seq<Seq<char>>)
    requires
        !is_blank(l),
        line_entry(l) is Some,
        !is_chat_type(line_entry(l)->Some_0.entry_type@),
    ensures
        chat_entries(entries_of(before.push(l) + after)) == chat_entries(entries_of(before + after)),
        stats_of(entries_of(before.push(l) + after)).message_count
            == stats_of(entries_of(before + after)).message_count,
        stats_of(entries_of(before.push(l) + after)).user_message_count
            == stats_of(entries_of(before + after)).user_message_count,
        stats_of(entries_of(before.push(l) + after)).assistant_message_count
            == stats_of(entries_of(before + after)).assistant_message_count,
{
    let e = line_entry(l)->Some_0;
    lemma_entries_concat(before.push(l), after);
    lemma_entries_concat(before, after);
    assert(before.push(l).drop_last() == before);
    assert(entries_of(before.push(l)) == entries_of(before).push(e));
    lemma_other_type_ignored(entries_of(before), e, entries_of(after));
}

/// A line that decodes to an assistant record holding a thinking item marks
/// the session as holding thinking, whatever lines stand before or after it.
pub proof fn lemma_thinking_line_reaches_session(before: Seq<Seq<char>>, l: Seq<char>, after: Seq<Seq<char>>)
    requires
        !is_blank(l),
        line_entry(l) is Some,
        is_assistant(line_entry(l)->Some_0),
        line_entry(l)->Some_0.message is Some,
        any_thinking(line_entry(l)->Some_0.message->Some_0.content),
    ensures
        stats_of(entries_of(before.push(l) + after)).has_thinking,
{
    let e = line_entry(l)->Some_0;
    lemma_entries_concat(before.push(l), after);
    assert(before.push(l).drop_last() == before);
    let es = entries_of(before).push(e) + entries_of(after);
    let k = entries_of(before).len() as int;
    assert(es[k] == e);
    lemma_thinking_reaches_session(es, k);
}

/// Where no line decodes to a record with a session id, the summary's
/// session id is `unknown`.
pub proof fn lemma_no_session_id_is_unknown(lines: Seq<Seq<char>>)
    requires
        forall|i: int| 0 <= i < lines.len() && #[trigger] line_entry(lines[i]) is Some
            ==> line_entry(lines[i])->Some_0.session_id is None,
    ensures
        stats_of(entries_of(lines)).session_id == "unknown"@,
    decreases lines.len(),
{
    if lines.len() > 0 {
        let rest = lines.drop_last();
        assert forall|i: int| 0 <= i < rest.len() && #[trigger] line_entry(rest[i]) is Some
            implies line_entry(rest[i])->Some_0.session_id is None by {
            assert(rest[i] == lines[i]);
        }
        lemma_no_session_id_is_unknown(rest);
        let l = lines.last();
        if !is_blank(l) && line_entry(l) is Some {
            let es = entries_of(rest);
            assert(line_entry(lines[lines.len() - 1]) is Some);
            assert(es.push(line_entry(l)->Some_0).drop_last() == es);
        }
    }
}

} // verus!
