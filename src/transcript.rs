//! A transcript as a sequence of lines: the messages it holds, the lines that
//! fail to decode, and the summary of its session.
use vstd::prelude::*;
use crate::lines::{is_blank, is_blank_line, line_preview, preview_of};
use crate::message::{entry_to_message, projects, projects_to, ClaudeMessage};
use crate::json::parsed;
use crate::record::{entry_of, line_entry, parse_jsonl_line, EntryView, LineError};
use crate::session::{observe_step, reports, stats_of, ClaudeSession, SessionStats};

verus! {

/// The texts of the lines.
pub open spec fn line_texts(lines: Seq<String>) -> Seq<Seq<char>> {
    lines.map_values(|l: String| l@)
}

/// Whether a line is neither blank nor decodes to a record.
pub open spec fn fails(line: Seq<char>) -> bool {
    !is_blank(line) && line_entry(line) is None
}

/// The records that the lines decode to, in order; blank lines and lines
/// that do not decode are left out.
pub open spec fn entries_of(lines: Seq<Seq<char>>) -> Seq<EntryView>
    decreases lines.len(),
{
    if lines.len() == 0 {
        Seq::empty()
    } else {
        let rest = entries_of(lines.drop_last());
        let l = lines.last();
        if !is_blank(l) && line_entry(l) is Some {
            rest.push(line_entry(l)->Some_0)
        } else {
            rest
        }
    }
}

/// The records that project to messages, in order.
pub open spec fn chat_entries(es: Seq<EntryView>) -> Seq<EntryView>
    decreases es.len(),
{
    if es.len() == 0 {
        Seq::empty()
    } else if projects(es.last()) {
        chat_entries(es.drop_last()).push(es.last())
    } else {
        chat_entries(es.drop_last())
    }
}

/// The positions, from zero, of the lines that fail, in order.
pub open spec fn failed_lines(lines: Seq<Seq<char>>) -> Seq<int>
    decreases lines.len(),
{
    if lines.len() == 0 {
        Seq::empty()
    } else if fails(lines.last()) {
        failed_lines(lines.drop_last()).push(lines.len() - 1)
    } else {
        failed_lines(lines.drop_last())
    }
}

/// A line that could not be decoded: its number from one, its first
/// characters, and why.
#[derive(Debug, Clone)]
pub struct LineFailure {
    pub line_number: usize,
    pub preview: String,
    pub error: LineError,
}

/// Whether `ms` are the messages that the records project to, in order.
pub open spec fn messages_of(es: Seq<EntryView>, ms: Seq<ClaudeMessage>) -> bool {
    &&& ms.len() == chat_entries(es).len()
    &&& forall|i: int| 0 <= i < ms.len() ==> projects_to(chat_entries(es)[i], #[trigger] ms[i])
}

/// Whether `err` is why a line that is not blank fails to decode: a syntax
/// error where serde_json refuses it, else the schema error of its value.
pub open spec fn failure_reason(line: Seq<char>, err: LineError) -> bool {
    match parsed(line) {
        None => err is Syntax,
        Some(v) => match entry_of(v) {
            Err(e) => err == LineError::Schema(e),
            Ok(_) => false,
        },
    }
}

/// Whether `fs` report the lines that fail, in order.
pub open spec fn failures_of(lines: Seq<Seq<char>>, fs: Seq<LineFailure>) -> bool {
    &&& fs.len() == failed_lines(lines).len()
    &&& forall|i: int| 0 <= i < fs.len() ==> {
        let k = #[trigger] failed_lines(lines)[i];
        &&& fs[i].line_number == k + 1
        &&& fs[i].preview@ == preview_of(lines[k])
        &&& failure_reason(lines[k], fs[i].error)
    }
}

/// What one line yields: nothing for a blank line, else the record it
/// decodes to, or why it does not.
pub fn decode_line(line: &str) -> (r: Option<Result<crate::record::RawLogEntry, LineError>>)
    ensures
        r is None <==> is_blank(line@),
        r is Some ==> (r->Some_0 is Ok <==> line_entry(line@) is Some),
        r is Some && r->Some_0 is Ok ==> line_entry(line@) == Some(r->Some_0->Ok_0@),
        r is Some && r->Some_0 is Err ==> failure_reason(line@, r->Some_0->Err_0),
{
    if is_blank_line(line) {
        None
    } else {
        Some(parse_jsonl_line(line))
    }
}

pub proof fn lemma_failed_lines_in_range(lines: Seq<Seq<char>>)
    ensures
        forall|j: int| 0 <= j < failed_lines(lines).len() ==> 0 <= #[trigger] failed_lines(lines)[j] < lines.len(),
    decreases lines.len(),
{
    if lines.len() > 0 {
        let rest = lines.drop_last();
        lemma_failed_lines_in_range(rest);
        let fl = failed_lines(lines);
        assert forall|j: int| 0 <= j < fl.len() implies 0 <= #[trigger] fl[j] < lines.len() by {
            if j < failed_lines(rest).len() {
                assert(fl[j] == failed_lines(rest)[j]);
            }
        }
    }
}

proof fn lemma_prefix_step<T>(s: Seq<T>, i: int)
    requires
        0 <= i < s.len(),
    ensures
        s.subrange(0, i + 1).drop_last() == s.subrange(0, i),
        s.subrange(0, i + 1).last() == s[i],
{
    assert(s.subrange(0, i + 1).drop_last() =~= s.subrange(0, i));
}

/// The messages of a transcript's lines, and a failure for each line that is
/// neither blank nor decodes.
pub fn parse_lines(lines: &[String]) -> (r: (Vec<ClaudeMessage>, Vec<LineFailure>))
    ensures
        messages_of(entries_of(line_texts(lines@)), r.0@),
        failures_of(line_texts(lines@), r.1@),
{
    let ghost texts = line_texts(lines@);
    let mut messages: Vec<ClaudeMessage> = Vec::new();
    let mut failures: Vec<LineFailure> = Vec::new();
    let mut i: usize = 0;
    while i < lines.len()
        invariant
            i <= lines@.len(),
            texts == line_texts(lines@),
            messages_of(entries_of(texts.subrange(0, i as int)), messages@),
            failures_of(texts.subrange(0, i as int), failures@),
        decreases lines@.len() - i,
    {
        let line = lines[i].as_str();
        let ghost before = texts.subrange(0, i as int);
        let ghost after = texts.subrange(0, i + 1);
        proof {
            lemma_prefix_step(texts, i as int);
            assert(texts[i as int] == line@);
        }
        let ghost es0 = entries_of(before);
        let ghost ms0 = messages@;
        let ghost fs0 = failures@;
        match decode_line(line) {
            None => {},
            Some(Ok(entry)) => {
                let ghost e = entry@;
                if let Some(m) = entry_to_message(entry) {
                    messages.push(m);
                }
                proof {
                    assert(entries_of(after) == es0.push(e));
                    assert(es0.push(e).drop_last() == es0);
                    if projects(e) {
                        assert(chat_entries(es0.push(e)) == chat_entries(es0).push(e));
                    }
                }
            },
            Some(Err(error)) => {
                failures.push(LineFailure { line_number: i + 1, preview: line_preview(line), error });
                proof {
                    assert(failed_lines(after) == failed_lines(before).push(i as int));
                }
            },
        }
        proof {
            lemma_failed_lines_in_range(before);
            let fl = failed_lines(after);
            assert forall|j: int| 0 <= j < failures@.len() implies {
                let k = #[trigger] fl[j];
                &&& failures@[j].line_number == k + 1
                &&& failures@[j].preview@ == preview_of(after[k])
                &&& failure_reason(after[k], failures@[j].error)
            } by {
                if j < fs0.len() {
                    assert(fl[j] == failed_lines(before)[j]);
                    assert(after[fl[j]] == before[fl[j]]);
                }
            }
        }
        i += 1;
    }
    assert(texts.subrange(0, i as int) == texts);
    (messages, failures)
}

impl SessionStats {
    /// Takes one more line into the statistics: a line that is blank or does
    /// not decode changes nothing.
    pub fn observe_line(&mut self, line: &str)
        requires
            old(self).wf(),
            old(self).message_count < i32::MAX,
        ensures
            final(self).wf(),
            final(self)@ == if !is_blank(line@) && line_entry(line@) is Some {
                observe_step(old(self)@, line_entry(line@)->Some_0)
            } else {
                old(self)@
            },
    {
        if let Some(Ok(entry)) = decode_line(line) {
            self.observe(&entry);
        }
    }
}

/// The summary of a transcript's lines, for the file they were read from.
pub fn summarize_lines(lines: &[String], file_path: String) -> (r: ClaudeSession)
    requires
        lines@.len() < i32::MAX,
    ensures
        reports(r, stats_of(entries_of(line_texts(lines@))), file_path@),
{
    let ghost texts = line_texts(lines@);
    let mut stats = SessionStats::new();
    let mut i: usize = 0;
    while i < lines.len()
        invariant
            i <= lines@.len(),
            lines@.len() < i32::MAX,
            texts == line_texts(lines@),
            stats.wf(),
            stats.message_count <= i,
            stats@ == stats_of(entries_of(texts.subrange(0, i as int))),
        decreases lines@.len() - i,
    {
        let line = lines[i].as_str();
        proof {
            lemma_prefix_step(texts, i as int);
            assert(texts[i as int] == line@);
            let es0 = entries_of(texts.subrange(0, i as int));
            if !is_blank(line@) && line_entry(line@) is Some {
                assert(es0.push(line_entry(line@)->Some_0).drop_last() == es0);
            }
        }
        stats.observe_line(line);
        i += 1;
    }
    assert(texts.subrange(0, i as int) == texts);
    stats.finish(file_path)
}

} // verus!
