use symposium::framing::{frame, LineFramer};

#[test]
fn framed_message_is_read_back() {
    let payload = b"{\"jsonrpc\":\"2.0\",\"method\":\"ping\"}".to_vec();
    let line = frame(&payload);
    assert_eq!(line.last(), Some(&b'\n'));
    let mut framer = LineFramer::new();
    let frames = framer.feed(&line);
    assert_eq!(frames, vec![payload]);
    assert!(framer.buffer.is_empty());
}
