use renfield::client::sse::{
    consume_json_object, next_json_line, next_json_object, next_sse_data, JsonLine, SseEvent,
};

fn chars(s: &str) -> Vec<char> {
    s.chars().collect()
}

fn text(v: &[char]) -> String {
    v.iter().collect()
}

fn data(e: SseEvent) -> Option<String> {
    match e {
        SseEvent::Data(d) => Some(text(&d)),
        _ => None,
    }
}

#[test]
fn test_sse_data_event() {
    let mut buf = chars("data: {\"id\":1}\n\ndata: {\"id\":2}\n\n");
    assert_eq!(data(next_sse_data(&mut buf)), Some("{\"id\":1}".to_string()));
    assert_eq!(text(&buf), "data: {\"id\":2}\n\n");
    assert_eq!(data(next_sse_data(&mut buf)), Some("{\"id\":2}".to_string()));
    assert!(buf.is_empty());
    assert!(matches!(next_sse_data(&mut buf), SseEvent::Pending));
}

#[test]
fn test_sse_skips_blocks_without_data() {
    let mut buf = chars(": keep-alive\n\nevent: ping\n\n  data: payload  \n\nrest");
    assert_eq!(data(next_sse_data(&mut buf)), Some("payload".to_string()));
    assert_eq!(text(&buf), "rest");
}

#[test]
fn test_sse_first_data_line_of_a_block() {
    let mut buf = chars("id: 7\ndata: first\ndata: second\n\n");
    assert_eq!(data(next_sse_data(&mut buf)), Some("first".to_string()));
    assert!(buf.is_empty());
}

#[test]
fn test_sse_incomplete_block_waits() {
    let mut buf = chars("data: {\"partial\":");
    assert!(matches!(next_sse_data(&mut buf), SseEvent::Pending));
    assert_eq!(text(&buf), "data: {\"partial\":");
    buf.extend("true}\n\n".chars());
    assert_eq!(data(next_sse_data(&mut buf)), Some("{\"partial\":true}".to_string()));
}

#[test]
fn test_sse_done_marker() {
    let mut buf = chars("data: [DONE]\n\n");
    assert!(matches!(next_sse_data(&mut buf), SseEvent::Done));
    assert!(buf.is_empty());
}

#[test]
fn test_sse_crlf_blocks_are_not_complete() {
    let mut buf = chars("data: x\r\n\r\n");
    assert!(matches!(next_sse_data(&mut buf), SseEvent::Pending));
    assert_eq!(buf.len(), 11);
}

#[test]
fn test_json_lines() {
    let mut buf = chars("{\"a\":1}\n\n  {\"b\":2}  \n{\"c\"");
    match next_json_line(&mut buf) {
        JsonLine::Line(l) => assert_eq!(text(&l), "{\"a\":1}"),
        JsonLine::Pending => panic!("expected a line"),
    }
    match next_json_line(&mut buf) {
        JsonLine::Line(l) => assert_eq!(text(&l), "{\"b\":2}"),
        JsonLine::Pending => panic!("expected a line"),
    }
    assert!(matches!(next_json_line(&mut buf), JsonLine::Pending));
    assert_eq!(text(&buf), "{\"c\"");
}

#[test]
fn test_json_line_of_whitespace() {
    let mut buf = chars(" \t\nnext\n");
    match next_json_line(&mut buf) {
        JsonLine::Line(l) => assert!(l.is_empty()),
        JsonLine::Pending => panic!("expected a line"),
    }
    assert_eq!(text(&buf), "next\n");
}

#[test]
fn test_json_objects_of_an_array() {
    let mut buf = chars(" [{\"a\":{\"b\":1}},\r\n{\"c\":2}]");
    let (start, end) = next_json_object(&buf).unwrap();
    assert_eq!((start, end), (2, 14));
    assert_eq!(text(&buf[start..=end]), "{\"a\":{\"b\":1}}");
    consume_json_object(&mut buf, end, true);
    assert_eq!(text(&buf), "\r\n{\"c\":2}]");
    let (start, end) = next_json_object(&buf).unwrap();
    assert_eq!(text(&buf[start..=end]), "{\"c\":2}");
    consume_json_object(&mut buf, end, true);
    assert_eq!(text(&buf), "]");
    assert_eq!(next_json_object(&buf), None);
}

#[test]
fn test_json_object_incomplete_and_rejected() {
    let mut buf = chars("[{\"a\":{");
    assert_eq!(next_json_object(&buf), None);
    buf.extend("}} ,{\"b\":1}".chars());
    let (_, end) = next_json_object(&buf).unwrap();
    assert_eq!(end, 8);
    // An object that cannot be read is dropped up to its closing
    // brace, without the comma that follows it.
    consume_json_object(&mut buf, end, false);
    assert_eq!(text(&buf), " ,{\"b\":1}");
}

#[test]
fn test_more_input_keeps_complete_events() {
    let mut a = chars("data: one\n\n");
    let mut b = chars("data: one\n\ndata: tw");
    assert_eq!(data(next_sse_data(&mut a)), data(next_sse_data(&mut b)));
    assert!(a.is_empty());
    assert_eq!(text(&b), "data: tw");

    let mut a = chars("x\n");
    let mut b = chars("x\ny");
    let la = match next_json_line(&mut a) {
        JsonLine::Line(l) => text(&l),
        JsonLine::Pending => panic!("expected a line"),
    };
    let lb = match next_json_line(&mut b) {
        JsonLine::Line(l) => text(&l),
        JsonLine::Pending => panic!("expected a line"),
    };
    assert_eq!(la, lb);
    assert_eq!(text(&b), "y");

    let a = chars("[{\"k\":[1,2]}");
    let b = chars("[{\"k\":[1,2]}, {\"j\":");
    assert_eq!(next_json_object(&a), next_json_object(&b));
    let (s, e) = next_json_object(&b).unwrap();
    assert_eq!((b[s], b[e]), ('{', '}'));
}
