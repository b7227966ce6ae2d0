//! Decoding of line-delimited JSON conversation transcripts into messages and
//! per-session summaries.
pub mod content;
pub mod encode;
pub mod fields;
pub mod json;
pub mod lines;
pub mod message;
pub mod record;
pub mod session;
pub mod transcript;

pub use content::{extract_text_content, has_images, has_thinking, has_tool_use, ContentItem, ImageSource};
pub use fields::SchemaError;
pub use json::{JsonItems, JsonMembers, JsonNumber, JsonValue};
pub use lines::{is_blank_line, lines_containing, non_blank_lines};
pub use message::{entry_to_message, ClaudeMessage};
pub use record::{parse_jsonl_line, LineError, MessageObject, RawLogEntry, TokenUsage};
pub use session::{ClaudeSession, SessionStats};
pub use transcript::{decode_line, parse_lines, summarize_lines, LineFailure};
pub mod laws;
