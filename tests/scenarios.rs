use history_parser::{
    decode_line, entry_to_message, is_blank_line, lines_containing, non_blank_lines, parse_jsonl_line,
    parse_lines, summarize_lines, LineError, SchemaError,
};

fn lines(texts: &[&str]) -> Vec<String> {
    texts.iter().map(|t| t.to_string()).collect()
}

fn schema_error(line: &str) -> SchemaError {
    match parse_jsonl_line(line) {
        Err(LineError::Schema(e)) => e,
        other => panic!("expected a schema error, got {:?}", other),
    }
}

#[test]
fn user_line_projects_to_message() {
    let ls = lines(&[r#"{"type":"user","uuid":"1","sessionId":"s1","timestamp":"t1","message":{"role":"user","content":"hi"}}"#]);
    let (messages, failures) = parse_lines(&ls);
    assert_eq!(messages.len(), 1);
    assert!(failures.is_empty());
    let m = &messages[0];
    assert_eq!(m.message_id, "1");
    assert_eq!(m.session_id, "s1");
    assert_eq!(m.timestamp, "t1");
    assert_eq!(m.role, "user");
    assert_eq!(m.content, "hi");
    assert!(!m.has_thinking);
    assert!(!m.has_tool_use);
    assert!(!m.has_images);
    assert_eq!(m.raw_content, r#"[{"text":"hi","type":"text"}]"#);
    assert_eq!(m.input_tokens, None);
}

#[test]
fn thinking_then_text_merges_with_marker() {
    let line = r#"{"type":"assistant","message":{"role":"assistant","content":[{"type":"thinking","thinking":"x"},{"type":"text","text":"y"}]}}"#;
    let m = entry_to_message(parse_jsonl_line(line).unwrap()).unwrap();
    assert_eq!(m.content, "[Thinking]\nx\n\ny");
    assert!(m.has_thinking);
    assert!(!m.has_tool_use);
}

#[test]
fn summary_and_messages_over_three_lines() {
    let ls = lines(&[
        r#"{"type":"user","sessionId":"s","message":{"role":"user","content":"q"}}"#,
        r#"{"type":"assistant","sessionId":"s","message":{"role":"assistant","content":[{"type":"text","text":"a"}],"usage":{"input_tokens":10,"output_tokens":5}}}"#,
        r#"{"type":"user", broken"#,
    ]);
    let s = summarize_lines(&ls, "f.jsonl".to_string());
    assert_eq!(s.message_count, 2);
    assert_eq!(s.user_message_count, 1);
    assert_eq!(s.assistant_message_count, 1);
    assert_eq!(s.total_input_tokens, Some(10));
    assert_eq!(s.total_output_tokens, Some(5));
    assert_eq!(s.file_path, "f.jsonl");
    let (messages, failures) = parse_lines(&ls);
    assert_eq!(messages.len(), 2);
    assert_eq!(failures.len(), 1);
    assert_eq!(failures[0].line_number, 3);
    assert!(matches!(failures[0].error, LineError::Syntax(_)));
}

#[test]
fn session_without_id_is_unknown() {
    let ls = lines(&[r#"{"type":"user","message":{"role":"user","content":"q"}}"#, r#"{"type":"system"}"#]);
    let s = summarize_lines(&ls, "p".to_string());
    assert_eq!(s.session_id, "unknown");
    assert_eq!(s.total_input_tokens, None);
    assert_eq!(s.total_output_tokens, None);
}

#[test]
fn other_types_yield_no_message_and_no_count() {
    let ls = lines(&[
        r#"{"type":"summary","summary":"s","message":{"role":"user","content":"q"}}"#,
        r#"{"type":"user","message":{"role":"user","content":"q"}}"#,
    ]);
    let (messages, failures) = parse_lines(&ls);
    assert_eq!(messages.len(), 1);
    assert!(failures.is_empty());
    assert_eq!(summarize_lines(&ls, "p".to_string()).message_count, 1);
}

#[test]
fn thinking_sets_message_and_session_flags() {
    let ls = lines(&[
        r#"{"type":"assistant","message":{"role":"assistant","content":[{"type":"text","text":"a"},{"type":"thinking","thinking":"t"}]}}"#,
        r#"{"type":"assistant","message":{"role":"assistant","content":[{"type":"text","text":"b"}]}}"#,
    ]);
    let (messages, _) = parse_lines(&ls);
    assert!(messages[0].has_thinking);
    assert!(!messages[1].has_thinking);
    let s = summarize_lines(&ls, "p".to_string());
    assert!(s.has_thinking);
    assert!(!s.has_tool_use);
}

#[test]
fn user_thinking_does_not_set_session_flag() {
    let ls = lines(&[r#"{"type":"user","message":{"role":"user","content":[{"type":"thinking","thinking":"t"}]}}"#]);
    assert!(!summarize_lines(&ls, "p".to_string()).has_thinking);
}

#[test]
fn reparsing_gives_the_same_messages() {
    let ls = lines(&[
        r#"{"type":"user","uuid":"u","message":{"role":"user","content":"q"}}"#,
        r#"{"type":"assistant","message":{"role":"assistant","content":[{"type":"tool_use","id":"t","name":"n","input":{"k":[1,2.5,-3]}}]}}"#,
    ]);
    let (a, _) = parse_lines(&ls);
    let (b, _) = parse_lines(&ls);
    assert_eq!(a.len(), b.len());
    for (x, y) in a.iter().zip(b.iter()) {
        assert_eq!(x.message_id, y.message_id);
        assert_eq!(x.content, y.content);
        assert_eq!(x.raw_content, y.raw_content);
        assert_eq!(x.has_tool_use, y.has_tool_use);
    }
}

#[test]
fn blank_lines_are_skipped_silently() {
    let ls = lines(&["", "   ", "\t \u{3000}", r#"{"type":"user","message":{"role":"user","content":"q"}}"#]);
    let (messages, failures) = parse_lines(&ls);
    assert_eq!(messages.len(), 1);
    assert!(failures.is_empty());
    assert_eq!(summarize_lines(&ls, "p".to_string()).message_count, 1);
    assert!(decode_line("  ").is_none());
    assert!(is_blank_line(" \t"));
    assert!(!is_blank_line(" x "));
}

#[test]
fn tool_use_and_image_flags_and_raw_content() {
    let line = r#"{"type":"assistant","message":{"role":"assistant","content":[{"type":"tool_use","id":"t1","name":"Read","input":{"path":"a"}},{"type":"image","source":{"type":"base64","media_type":"image/png","data":"AA"}}]}}"#;
    let m = entry_to_message(parse_jsonl_line(line).unwrap()).unwrap();
    assert!(m.has_tool_use);
    assert!(m.has_images);
    assert_eq!(m.content, "");
    assert_eq!(
        m.raw_content,
        r#"[{"id":"t1","input":{"path":"a"},"name":"Read","type":"tool_use"},{"source":{"data":"AA","media_type":"image/png","type":"base64"},"type":"image"}]"#
    );
}

#[test]
fn tool_result_keeps_payload() {
    let line = r#"{"type":"user","message":{"role":"user","content":[{"type":"tool_result","tool_use_id":"t1","content":[{"v":0.25}],"is_error":false}]}}"#;
    let m = entry_to_message(parse_jsonl_line(line).unwrap()).unwrap();
    assert_eq!(m.raw_content, r#"[{"content":[{"v":0.25}],"is_error":false,"tool_use_id":"t1","type":"tool_result"}]"#);
}

#[test]
fn usage_tokens_are_copied() {
    let line = r#"{"type":"assistant","message":{"role":"assistant","content":[],"model":"m","stop_reason":"end","usage":{"input_tokens":3,"output_tokens":4,"cache_read_input_tokens":7}}}"#;
    let m = entry_to_message(parse_jsonl_line(line).unwrap()).unwrap();
    assert_eq!(m.input_tokens, Some(3));
    assert_eq!(m.output_tokens, Some(4));
    assert_eq!(m.cache_creation_tokens, None);
    assert_eq!(m.cache_read_tokens, Some(7));
    assert_eq!(m.model.as_deref(), Some("m"));
    assert_eq!(m.stop_reason.as_deref(), Some("end"));
    assert_eq!(m.raw_content, "[]");
}

#[test]
fn missing_fields_fall_back_to_unknown() {
    let line = r#"{"type":"user","uuid":null,"parentUuid":"p","isSidechain":true,"userType":"external","message":{"role":"user","content":"q"}}"#;
    let m = entry_to_message(parse_jsonl_line(line).unwrap()).unwrap();
    assert_eq!(m.message_id, "unknown");
    assert_eq!(m.session_id, "unknown");
    assert_eq!(m.timestamp, "unknown");
    assert_eq!(m.parent_id.as_deref(), Some("p"));
    assert_eq!(m.is_sidechain, Some(true));
    assert_eq!(m.user_type.as_deref(), Some("external"));
}

#[test]
fn record_without_message_projects_to_nothing() {
    let entry = parse_jsonl_line(r#"{"type":"assistant","uuid":"x"}"#).unwrap();
    assert!(entry_to_message(entry).is_none());
}

#[test]
fn schema_errors() {
    assert_eq!(schema_error(r#"{"uuid":"1"}"#), SchemaError::MissingField);
    assert_eq!(schema_error(r#"[1,2]"#), SchemaError::InvalidType);
    assert_eq!(schema_error(r#"{"type":"user","uuid":5}"#), SchemaError::InvalidType);
    assert_eq!(schema_error(r#"{"type":"user","message":{"role":"user"}}"#), SchemaError::MissingField);
    assert_eq!(schema_error(r#"{"type":"user","message":{"role":"user","content":5}}"#), SchemaError::InvalidType);
    assert_eq!(
        schema_error(r#"{"type":"user","message":{"role":"user","content":[{"type":"video"}]}}"#),
        SchemaError::UnknownVariant
    );
    assert_eq!(
        schema_error(r#"{"type":"user","message":{"role":"user","content":[{"type":"text","text":"a"},{"type":"text"}]}}"#),
        SchemaError::MissingField
    );
    assert_eq!(
        schema_error(r#"{"type":"assistant","message":{"role":"a","content":[],"usage":{"input_tokens":1.5,"output_tokens":1}}}"#),
        SchemaError::InvalidType
    );
    assert_eq!(
        schema_error(r#"{"type":"assistant","message":{"role":"a","content":[],"usage":{"input_tokens":3000000000,"output_tokens":1}}}"#),
        SchemaError::InvalidValue
    );
}

#[test]
fn syntax_error_is_reported() {
    assert!(matches!(parse_jsonl_line("{not json"), Err(LineError::Syntax(_))));
}

#[test]
fn failure_preview_is_truncated() {
    let long = format!("{{{}", "x".repeat(150));
    let (_, failures) = parse_lines(&lines(&["", &long]));
    assert_eq!(failures.len(), 1);
    assert_eq!(failures[0].line_number, 2);
    assert_eq!(failures[0].preview.len(), 100);
}

#[test]
fn failure_preview_ends_on_a_character_boundary() {
    let line = format!("{}é and more", "{".repeat(99));
    let (_, failures) = parse_lines(&lines(&[&line]));
    assert_eq!(failures.len(), 1);
    assert_eq!(failures[0].preview, "{".repeat(99));
    let short = "{é";
    let (_, failures) = parse_lines(&lines(&[short]));
    assert_eq!(failures[0].preview, short);
}

#[test]
fn schema_error_descriptions() {
    assert_eq!(SchemaError::MissingField.describe(), "a required field is missing");
    assert_eq!(SchemaError::UnknownVariant.describe(), "unknown content item type");
}

#[test]
fn timestamps_cwd_and_session_id() {
    let ls = lines(&[
        r#"{"type":"system","timestamp":"a","cwd":"/one","sessionId":"s1"}"#,
        r#"{"type":"user","timestamp":"b","cwd":"/two","message":{"role":"user","content":"q"}}"#,
        r#"{"type":"user","timestamp":"c","sessionId":"s2","message":{"role":"user","content":"q"}}"#,
    ]);
    let s = summarize_lines(&ls, "p".to_string());
    assert_eq!(s.first_timestamp.as_deref(), Some("a"));
    assert_eq!(s.last_timestamp.as_deref(), Some("c"));
    assert_eq!(s.cwd.as_deref(), Some("/one"));
    assert_eq!(s.session_id, "s2");
}

#[test]
fn non_positive_totals_are_absent() {
    let ls = lines(&[r#"{"type":"assistant","message":{"role":"a","content":[],"usage":{"input_tokens":-4,"output_tokens":0}}}"#]);
    let s = summarize_lines(&ls, "p".to_string());
    assert_eq!(s.total_input_tokens, None);
    assert_eq!(s.total_output_tokens, None);
    assert_eq!(s.assistant_message_count, 1);
}

#[test]
fn line_filters() {
    let ls = lines(&["alpha", "  ", "beta", "", "alphabet"]);
    assert_eq!(non_blank_lines(&ls), lines(&["alpha", "beta", "alphabet"]));
    assert_eq!(lines_containing(&ls, "alpha"), lines(&["alpha", "alphabet"]));
    assert_eq!(lines_containing(&ls, "zzz"), Vec::<String>::new());
}

#[test]
fn long_arrays_decode_and_print() {
    let numbers = vec!["1"; 20_000].join(",");
    let line = format!(
        r#"{{"type":"user","message":{{"role":"user","content":[{{"type":"tool_result","tool_use_id":"t","content":[{}]}}]}}}}"#,
        numbers
    );
    let (messages, failures) = parse_lines(&lines(&[&line]));
    assert!(failures.is_empty());
    assert_eq!(messages.len(), 1);
    assert_eq!(messages[0].raw_content.len(), 40_001 + 53);
}
