use beetle::llm::sse::SseLineReader;

fn drain(r: &mut SseLineReader) -> Vec<(String, String)> {
    let mut out = Vec::new();
    while let Some(e) = r.next_event() {
        out.push((e.event, e.data));
    }
    out
}

#[test]
fn chunking_does_not_change_events() {
    let text = b"event: a\ndata: 1\n\nevent: b\r\ndata: 2\r\ndata: 3\r\n\r\n: note\ndata: 4\n\n";
    let mut whole = SseLineReader::new();
    whole.feed(text);
    let expected = drain(&mut whole);
    // A carriage return ends a line by itself, so `\r\n` also ends the event.
    assert_eq!(expected.len(), 5);
    assert_eq!(expected[1], ("b".to_string(), "".to_string()));
    assert_eq!(expected[4], ("".to_string(), "4".to_string()));
    for split in 0..text.len() {
        let mut r = SseLineReader::new();
        r.feed(&text[..split]);
        r.feed(&text[split..]);
        assert_eq!(drain(&mut r), expected, "split at {}", split);
    }
    for step in 1..5 {
        let mut r = SseLineReader::new();
        for c in text.chunks(step) {
            r.feed(c);
        }
        assert_eq!(drain(&mut r), expected);
    }
}

#[test]
fn event_type_resets_between_events() {
    let mut r = SseLineReader::new();
    r.feed(b"event: ping\ndata: x\n\ndata: y\n\n");
    let evs = drain(&mut r);
    assert_eq!(evs[0], ("ping".to_string(), "x".to_string()));
    assert_eq!(evs[1], ("".to_string(), "y".to_string()));
}

#[test]
fn blank_lines_alone_make_no_event() {
    let mut r = SseLineReader::new();
    r.feed(b"\n\n\nevent: only-type\n\n");
    let evs = drain(&mut r);
    assert_eq!(evs, vec![("only-type".to_string(), "".to_string())]);
}

#[test]
fn data_without_space_and_unknown_fields() {
    let mut r = SseLineReader::new();
    r.feed(b"id: 7
retry: 10
data:tight
nocolon

");
    assert_eq!(drain(&mut r), vec![("".to_string(), "tight".to_string())]);
}
