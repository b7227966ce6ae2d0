use history_parser::{entry_to_message, parse_jsonl_line};

#[test]
fn test_parse_user_message() {
    let json = r#"{
            "type":"user",
            "uuid":"123",
            "sessionId":"abc",
            "timestamp":"2024-01-01T10:00:00Z",
            "message":{"role":"user","content":"Hello there"}
        }"#;

    let entry = parse_jsonl_line(json).unwrap();
    assert_eq!(entry.entry_type, "user");
    assert_eq!(entry.message.as_ref().unwrap().content.len(), 1);
}

#[test]
fn test_parse_assistant_message_with_thinking() {
    let json = r#"{
            "type":"assistant",
            "uuid":"456",
            "sessionId":"abc",
            "timestamp":"2024-01-01T10:00:01Z",
            "message":{
                "role":"assistant",
                "content":[
                    {"type":"thinking","thinking":"Let me think..."},
                    {"type":"text","text":"Here's my response"}
                ]
            }
        }"#;

    let entry = parse_jsonl_line(json).unwrap();
    let msg = entry_to_message(entry).unwrap();
    assert!(msg.has_thinking);
    assert!(msg.content.contains("Let me think..."));
}
