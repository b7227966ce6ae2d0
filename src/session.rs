//! The summary of one session: statistics folded over its records in file
//! order.
use vstd::prelude::*;
use crate::content::{any_thinking, any_tool_use, has_thinking, has_tool_use};
use crate::json::same_text;
use crate::record::{EntryView, RawLogEntry};

verus! {

/// The bound on the size of one token count, in either direction.
pub const TOKEN_BOUND: i64 = 0x8000_0000;

/// The summary of a session.
#[derive(Debug, Clone)]
pub struct ClaudeSession {
    pub session_id: String,
    pub file_path: String,
    pub message_count: i32,
    pub user_message_count: i32,
    pub assistant_message_count: i32,
    pub first_timestamp: Option<String>,
    pub last_timestamp: Option<String>,
    /// The sum of the input tokens, where it is above zero.
    pub total_input_tokens: Option<i64>,
    /// The sum of the output tokens, where it is above zero.
    pub total_output_tokens: Option<i64>,
    pub has_thinking: bool,
    pub has_tool_use: bool,
    pub cwd: Option<String>,
}

/// Running statistics over the records seen so far.
#[derive(Debug, Clone)]
pub struct SessionStats {
    pub session_id: String,
    pub message_count: i32,
    pub user_message_count: i32,
    pub assistant_message_count: i32,
    pub first_timestamp: Option<String>,
    pub last_timestamp: Option<String>,
    pub total_input_tokens: i64,
    pub total_output_tokens: i64,
    pub has_thinking: bool,
    pub has_tool_use: bool,
    pub cwd: Option<String>,
}

/// The statistics as mathematical values.
pub struct StatsView {
    pub session_id: Seq<char>,
    pub message_count: int,
    pub user_message_count: int,
    pub assistant_message_count: int,
    pub first_timestamp: Option<Seq<char>>,
    pub last_timestamp: Option<Seq<char>>,
    pub total_input_tokens: int,
    pub total_output_tokens: int,
    pub has_thinking: bool,
    pub has_tool_use: bool,
    pub cwd: Option<Seq<char>>,
}

pub open spec fn text_view(o: Option<String>) -> Option<Seq<char>> {
    match o {
        Some(s) => Some(s@),
        None => None,
    }
}

impl View for SessionStats {
    type V = StatsView;

    open spec fn view(&self) -> StatsView {
        StatsView {
            session_id: self.session_id@,
            message_count: self.message_count as int,
            user_message_count: self.user_message_count as int,
            assistant_message_count: self.assistant_message_count as int,
            first_timestamp: text_view(self.first_timestamp),
            last_timestamp: text_view(self.last_timestamp),
            total_input_tokens: self.total_input_tokens as int,
            total_output_tokens: self.total_output_tokens as int,
            has_thinking: self.has_thinking,
            has_tool_use: self.has_tool_use,
            cwd: text_view(self.cwd),
        }
    }
}

/// The statistics before any record.
pub open spec fn initial_stats() -> StatsView {
    StatsView {
        session_id: "unknown"@,
        message_count: 0,
        user_message_count: 0,
        assistant_message_count: 0,
        first_timestamp: None,
        last_timestamp: None,
        total_input_tokens: 0,
        total_output_tokens: 0,
        has_thinking: false,
        has_tool_use: false,
        cwd: None,
    }
}

pub open spec fn is_user(e: EntryView) -> bool {
    e.entry_type@ == "user"@
}

pub open spec fn is_assistant(e: EntryView) -> bool {
    e.entry_type@ == "assistant"@
}

/// The input and output tokens that a record adds to the totals: those of
/// an assistant record's usage, else none.
pub open spec fn added_tokens(e: EntryView) -> (int, int) {
    if is_assistant(e) && e.message is Some && e.message->Some_0.usage is Some {
        let u = e.message->Some_0.usage->Some_0;
        (u.input_tokens as int, u.output_tokens as int)
    } else {
        (0, 0)
    }
}

/// The statistics after one more record.
pub open spec fn observe_step(s: StatsView, e: EntryView) -> StatsView {
    let assistant_content = is_assistant(e) && e.message is Some;
    StatsView {
        session_id: match e.session_id {
            Some(id) => id@,
            None => s.session_id,
        },
        message_count: s.message_count + if is_user(e) || is_assistant(e) { 1int } else { 0int },
        user_message_count: s.user_message_count + if is_user(e) { 1int } else { 0int },
        assistant_message_count: s.assistant_message_count + if is_assistant(e) { 1int } else { 0int },
        first_timestamp: if s.first_timestamp is None { text_view(e.timestamp) } else { s.first_timestamp },
        last_timestamp: if e.timestamp is Some { text_view(e.timestamp) } else { s.last_timestamp },
        total_input_tokens: s.total_input_tokens + added_tokens(e).0,
        total_output_tokens: s.total_output_tokens + added_tokens(e).1,
        has_thinking: s.has_thinking || (assistant_content && any_thinking(e.message->Some_0.content)),
        has_tool_use: s.has_tool_use || (assistant_content && any_tool_use(e.message->Some_0.content)),
        cwd: if s.cwd is None { text_view(e.cwd) } else { s.cwd },
    }
}

/// The statistics over a sequence of records, in order.
pub open spec fn stats_of(es: Seq<EntryView>) -> StatsView
    decreases es.len(),
{
    if es.len() == 0 {
        initial_stats()
    } else {
        observe_step(stats_of(es.drop_last()), es.last())
    }
}

/// A total as reported: present where it is above zero.
pub open spec fn positive(n: int) -> Option<int> {
    if n > 0 {
        Some(n)
    } else {
        None
    }
}

pub open spec fn total_view(o: Option<i64>) -> Option<int> {
    match o {
        Some(n) => Some(n as int),
        None => None,
    }
}

/// Whether a summary reports these statistics for this file.
pub open spec fn reports(c: ClaudeSession, s: StatsView, file_path: Seq<char>) -> bool {
    &&& c.session_id@ == s.session_id
    &&& c.file_path@ == file_path
    &&& c.message_count as int == s.message_count
    &&& c.user_message_count as int == s.user_message_count
    &&& c.assistant_message_count as int == s.assistant_message_count
    &&& text_view(c.first_timestamp) == s.first_timestamp
    &&& text_view(c.last_timestamp) == s.last_timestamp
    &&& total_view(c.total_input_tokens) == positive(s.total_input_tokens)
    &&& total_view(c.total_output_tokens) == positive(s.total_output_tokens)
    &&& c.has_thinking == s.has_thinking
    &&& c.has_tool_use == s.has_tool_use
    &&& text_view(c.cwd) == s.cwd
}

impl SessionStats {
    /// Whether the counts agree with each other and each total is within
    /// what the assistant records seen could add.
    pub open spec fn wf(&self) -> bool {
        &&& 0 <= self.user_message_count
        &&& 0 <= self.assistant_message_count
        &&& self.message_count == self.user_message_count + self.assistant_message_count
        &&& -(self.assistant_message_count * TOKEN_BOUND) <= self.total_input_tokens
            <= self.assistant_message_count * TOKEN_BOUND
        &&& -(self.assistant_message_count * TOKEN_BOUND) <= self.total_output_tokens
            <= self.assistant_message_count * TOKEN_BOUND
    }

    /// The statistics before any record.
    pub fn new() -> (r: SessionStats)
        ensures
            r.wf(),
            r@ == initial_stats(),
    {
        SessionStats {
            session_id: String::from_str("unknown"),
            message_count: 0,
            user_message_count: 0,
            assistant_message_count: 0,
            first_timestamp: None,
            last_timestamp: None,
            total_input_tokens: 0,
            total_output_tokens: 0,
            has_thinking: false,
            has_tool_use: false,
            cwd: None,
        }
    }

    /// Takes one more record into the statistics.
    pub fn observe(&mut self, entry: &RawLogEntry)
        requires
            old(self).wf(),
            old(self).message_count < i32::MAX,
        ensures
            final(self).wf(),
            final(self)@ == observe_step(old(self)@, entry@),
    {
        proof {
            reveal_strlit("user");
            reveal_strlit("assistant");
            assert("user"@.len() != "assistant"@.len());
        }
        if let Some(sid) = &entry.session_id {
            self.session_id = sid.clone();
        }
        if self.cwd.is_none() {
            if let Some(c) = &entry.cwd {
                self.cwd = Some(c.clone());
            }
        }
        if same_text(entry.entry_type.as_str(), "user") {
            self.user_message_count = self.user_message_count + 1;
            self.message_count = self.message_count + 1;
        } else if same_text(entry.entry_type.as_str(), "assistant") {
            self.assistant_message_count = self.assistant_message_count + 1;
            self.message_count = self.message_count + 1;
            if let Some(message) = &entry.message {
                if let Some(usage) = &message.usage {
                    self.total_input_tokens = self.total_input_tokens + usage.input_tokens as i64;
                    self.total_output_tokens = self.total_output_tokens + usage.output_tokens as i64;
                }
                if has_thinking(message.content.as_slice()) {
                    self.has_thinking = true;
                }
                if has_tool_use(message.content.as_slice()) {
                    self.has_tool_use = true;
                }
            }
        }
        if let Some(ts) = &entry.timestamp {
            if self.first_timestamp.is_none() {
                self.first_timestamp = Some(ts.clone());
            }
            self.last_timestamp = Some(ts.clone());
        }
    }

    /// The summary of the statistics, for the file they were read from.
    pub fn finish(self, file_path: String) -> (r: ClaudeSession)
        ensures
            reports(r, self@, file_path@),
    {
        ClaudeSession {
            session_id: self.session_id,
            file_path,
            message_count: self.message_count,
            user_message_count: self.user_message_count,
            assistant_message_count: self.assistant_message_count,
            first_timestamp: self.first_timestamp,
            last_timestamp: self.last_timestamp,
            total_input_tokens: if self.total_input_tokens > 0 { Some(self.total_input_tokens) } else { None },
            total_output_tokens: if self.total_output_tokens > 0 { Some(self.total_output_tokens) } else { None },
            has_thinking: self.has_thinking,
            has_tool_use: self.has_tool_use,
            cwd: self.cwd,
        }
    }
}

} // verus!
