use code_buddy::streaming::{extract_tool_call, StreamingConfig, StreamingEvent, StreamingParser};

#[test]
fn test_text_chunk() {
    let config = StreamingConfig::default();
    let mut parser = StreamingParser::new(config);

    let events = parser.process_chunk("Hello, ");
    assert!(events.is_empty());

    parser.process_chunk("world!");
    assert!(parser.get_content() == "Hello, world!");
}

#[test]
fn test_json_detection() {
    let mut config = StreamingConfig::default();
    config.detect_json = true;
    let mut parser = StreamingParser::new(config);

    let test_input = r#"{"tool":"test","args":{}}"#;
    let _events = parser.process_chunk(test_input);
    assert_eq!(parser.get_content(), test_input);

    parser.reset();
    let _events = parser.process_chunk(r#"{"tool":"#);
    assert!(parser.get_content().starts_with('{'));
}

#[test]
fn test_sse_line() {
    let config = StreamingConfig::default();
    let mut parser = StreamingParser::new(config);

    let line = r#"data: {"choices":[{"delta":{"content":"Hello"}}]}"#;
    let _events = parser.process_sse_line(line);
    assert!(parser.get_content() == "Hello");
}

#[test]
fn test_tool_call_extraction() {
    let json = r#"{"tool_calls":[{"function":{"name":"read_file","arguments":"{\"path\":\"/test.txt\"}"}}]}"#;
    let event = extract_tool_call(json);
    assert!(matches!(event, Some(StreamingEvent::ToolCall { name, .. }) if name == "read_file"));
}

#[test]
fn brace_tracking_and_partial_objects() {
    let mut parser = StreamingParser::new(StreamingConfig::default());
    let events = parser.process_chunk(r#"{"a":"{"}"#);
    assert!(events.is_empty());
    parser.reset();
    let events = parser.process_chunk(r#"{"ab":"{"}"#);
    assert_eq!(parser.json_depth(), 1);
    assert_eq!(events.len(), 1);
    assert!(matches!(&events[0], StreamingEvent::Json { data, partial: true } if data == r#"{"ab":"{"}"#));
    let events = parser.process_chunk("}");
    assert_eq!(parser.json_depth(), 0);
    assert!(events.is_empty());
    assert_eq!(parser.get_buffer(), r#"{"ab":"{"}}"#);
    parser.clear_buffer();
    assert_eq!(parser.get_buffer(), "");
    assert_eq!(parser.get_content(), r#"{"ab":"{"}}"#);
}

#[test]
fn sse_lines() {
    let mut parser = StreamingParser::new(StreamingConfig::default());
    let done = parser.process_sse_line("data: [DONE]");
    assert!(matches!(&done[0], StreamingEvent::Done { stop_reason: None }));
    assert!(parser.process_sse_line("event: ping").is_empty());
    assert!(parser.process_sse_line("data: not json").is_empty());
    let events = parser.process_sse_line(
        r#"data: {"choices":[{"finish_reason":"stop"}],"usage":{"prompt_tokens":3,"completion_tokens":4,"total_tokens":7}}"#,
    );
    assert_eq!(events.len(), 2);
    assert!(matches!(events[0], StreamingEvent::Usage { prompt_tokens: 3, completion_tokens: 4, total_tokens: 7 }));
    assert!(matches!(&events[1], StreamingEvent::Done { stop_reason: Some(r) } if r == "stop"));
    let tool = extract_tool_call(r#"{"content":[{"type":"text"},{"type":"tool_use","name":"grep","input":{"q":"x"}}]}"#);
    assert!(matches!(tool, Some(StreamingEvent::ToolCall { name, arguments }) if name == "grep" && arguments == r#"{"q":"x"}"#));
    assert!(extract_tool_call(r#"{"tool_calls":[]}"#).is_none());
    let unnamed = extract_tool_call(r#"{"tool_calls":[{}]}"#);
    assert!(matches!(unnamed, Some(StreamingEvent::ToolCall { name, arguments }) if name == "unknown" && arguments == "null"));
}

#[test]
fn complete_object_is_reported() {
    let mut parser = StreamingParser::new(StreamingConfig::default());
    let events = parser.process_chunk(r#"{"a":1}"#);
    assert_eq!(events.len(), 1);
    assert!(matches!(&events[0], StreamingEvent::Json { data, partial: false } if data == r#"{"a":1}"#));
    assert_eq!(parser.get_content(), r#"{"a":1}"#);
}
