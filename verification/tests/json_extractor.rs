use wit_owo::json::extract_complete_json;
use wit_owo::stream::StreamBuffer;

#[test]
fn test_extract_complete_json() {
    // Test with a complete JSON object
    let buffer = r#"{"text": "hello"}"#;
    let result = extract_complete_json(buffer);
    assert!(result.is_some());
    let (json, remaining) = result.unwrap();
    assert_eq!(json, r#"{"text": "hello"}"#);
    assert_eq!(remaining, "");

    // Test with partial JSON (incomplete)
    let buffer = r#"{"text": "hel"#;
    let result = extract_complete_json(buffer);
    assert!(result.is_none());

    // Test with complete JSON followed by partial
    let buffer = r#"{"text": "hello"}{"text": "wor"#;
    let result = extract_complete_json(buffer);
    assert!(result.is_some());
    let (json, remaining) = result.unwrap();
    assert_eq!(json, r#"{"text": "hello"}"#);
    assert_eq!(remaining, r#"{"text": "wor"#);

    // Test with multiple complete JSON objects
    let buffer = r#"{"text": "hello"}{"text": "world"}"#;
    let result = extract_complete_json(buffer);
    assert!(result.is_some());
    let (json, remaining) = result.unwrap();
    assert_eq!(json, r#"{"text": "hello"}"#);
    assert_eq!(remaining, r#"{"text": "world"}"#);

    // Test with nested braces in string (should still work for simple JSON)
    let buffer = r#"{"text": "hello world"}"#;
    let result = extract_complete_json(buffer);
    assert!(result.is_some());
    let (json, remaining) = result.unwrap();
    assert_eq!(json, r#"{"text": "hello world"}"#);
    assert_eq!(remaining, "");
}

#[test]
fn test_extract_complete_json_edge_cases() {
    // Test with whitespace around JSON
    let buffer = r#"  {"text": "hello"}  {"text": "world"}"#;
    let result = extract_complete_json(buffer);
    assert!(result.is_some());
    let (json, remaining) = result.unwrap();
    assert_eq!(json, r#"{"text": "hello"}"#);
    assert_eq!(remaining, r#"  {"text": "world"}"#);

    // Test with no JSON objects
    let buffer = "some random text without braces";
    let result = extract_complete_json(buffer);
    assert!(result.is_none());

    // Test with only opening brace
    let buffer = "{";
    let result = extract_complete_json(buffer);
    assert!(result.is_none());

    // Test with unmatched braces
    let buffer = "{{";
    let result = extract_complete_json(buffer);
    assert!(result.is_none());

    // Test empty buffer
    let buffer = "";
    let result = extract_complete_json(buffer);
    assert!(result.is_none());
}

#[test]
fn extract_nested_object() {
    let buffer = r#"{"outer": {"inner": 1}} tail"#;
    let (json, remaining) = extract_complete_json(buffer).unwrap();
    assert_eq!(json, r#"{"outer": {"inner": 1}}"#);
    assert_eq!(remaining, " tail");
}

#[test]
fn extract_ignores_stray_closing_brace() {
    let buffer = r#"}{"a":1}"#;
    let (json, remaining) = extract_complete_json(buffer).unwrap();
    assert_eq!(json, r#"{"a":1}"#);
    assert_eq!(remaining, "");
}

#[test]
fn extract_partial_second_object_then_none() {
    // One complete object, then a truncated opening fragment.
    let buffer = r#"{"text": "hello"}{"text": "wor"#;
    let (json, remaining) = extract_complete_json(buffer).unwrap();
    assert_eq!(json, r#"{"text": "hello"}"#);
    assert_eq!(remaining, r#"{"text": "wor"#);
    assert!(extract_complete_json(&remaining).is_none());
}

#[test]
fn repeated_extraction_drains_in_order() {
    // Draining by repeated calls reproduces every complete object, in order.
    let mut buffer = String::from(r#"{"a":1} {"b":2}{"c":3} {"d""#);
    let mut frames = Vec::new();
    while let Some((json, remaining)) = extract_complete_json(&buffer) {
        frames.push(json);
        buffer = remaining;
    }
    assert_eq!(frames, vec![r#"{"a":1}"#, r#"{"b":2}"#, r#"{"c":3}"#]);
    assert_eq!(buffer, r#" {"d""#);
}

#[test]
fn stream_buffer_drains_across_chunk_boundaries() {
    let mut buf = StreamBuffer::new();
    buf.push_chunk(r#"{"a":1}{"b""#);
    let frames = buf.drain();
    assert_eq!(frames, vec![r#"{"a":1}"#.to_string()]);
    assert_eq!(buf.remaining(), r#"{"b""#);

    buf.push_chunk(r#":2}"#);
    let frames = buf.drain();
    assert_eq!(frames, vec![r#"{"b":2}"#.to_string()]);
    assert_eq!(buf.remaining(), "");
}

#[test]
fn stream_buffer_skips_empty_chunk() {
    let mut buf = StreamBuffer::new();
    buf.push_chunk("");
    assert_eq!(buf.remaining(), "");
    buf.push_chunk(r#"{"a":1}"#);
    buf.push_chunk("");
    let frames = buf.drain();
    assert_eq!(frames.len(), 1);
    assert_eq!(frames[0], r#"{"a":1}"#);
}
