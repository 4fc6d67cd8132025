use beetle::llm::sse::SseLineReader;

#[test]
fn test_basic_sse_event() {
    let mut reader = SseLineReader::new();
    reader.feed(b"event: message_start\ndata: {\"type\":\"message_start\"}\n\n");
    let ev = reader.next_event().unwrap();
    assert_eq!(ev.event, "message_start");
    assert_eq!(ev.data, "{\"type\":\"message_start\"}");
    assert!(reader.next_event().is_none());
}

#[test]
fn test_multiple_events() {
    let mut reader = SseLineReader::new();
    reader.feed(b"data: hello\n\ndata: world\n\n");
    let ev1 = reader.next_event().unwrap();
    assert_eq!(ev1.data, "hello");
    let ev2 = reader.next_event().unwrap();
    assert_eq!(ev2.data, "world");
}

#[test]
fn test_multi_data_lines() {
    let mut reader = SseLineReader::new();
    reader.feed(b"data: line1\ndata: line2\n\n");
    let ev = reader.next_event().unwrap();
    assert_eq!(ev.data, "line1\nline2");
}

#[test]
fn test_comment_ignored() {
    let mut reader = SseLineReader::new();
    reader.feed(b": this is a comment\ndata: actual\n\n");
    let ev = reader.next_event().unwrap();
    assert_eq!(ev.data, "actual");
}

#[test]
fn test_partial_chunks() {
    let mut reader = SseLineReader::new();
    reader.feed(b"data: hel");
    assert!(reader.next_event().is_none());
    reader.feed(b"lo\n\n");
    let ev = reader.next_event().unwrap();
    assert_eq!(ev.data, "hello");
}

#[test]
fn test_done_marker() {
    let mut reader = SseLineReader::new();
    reader.feed(b"data: [DONE]\n\n");
    let ev = reader.next_event().unwrap();
    assert_eq!(ev.data, "[DONE]");
}
