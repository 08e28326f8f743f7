use aloha::frame::{
    encode_frame, encode_header, header_length, on_body, on_header, FrameOutcome, HeaderStep,
    Received, HEADER_LEN,
};

fn read_back(frame: &[u8]) -> Option<String> {
    let header: [u8; 2] = [frame[0], frame[1]];
    match on_header(Received::Bytes(header)) {
        HeaderStep::ReadBody(n) => {
            let body = frame[HEADER_LEN..HEADER_LEN + n].to_vec();
            match on_body(Received::Bytes(body)) {
                FrameOutcome::Message(t) => Some(t),
                _ => None,
            }
        }
        HeaderStep::Finish(_) => None,
    }
}

#[test]
fn header_is_big_endian_length() {
    assert_eq!(encode_header(0), [0, 0]);
    assert_eq!(encode_header(5), [0, 5]);
    assert_eq!(encode_header(258), [1, 2]);
    assert_eq!(encode_header(65535), [255, 255]);
}

#[test]
fn header_wraps_at_two_bytes() {
    assert_eq!(encode_header(65536), [0, 0]);
    assert_eq!(encode_header(70000), [0x11, 0x70]);
}

#[test]
fn header_length_reads_big_endian() {
    assert_eq!(header_length([0, 5]), 5);
    assert_eq!(header_length([1, 2]), 258);
    assert_eq!(header_length([255, 255]), 65535);
}

#[test]
fn frame_of_hello() {
    assert_eq!(encode_frame("hello"), vec![0, 5, b'h', b'e', b'l', b'l', b'o']);
}

#[test]
fn frame_of_empty_message() {
    assert_eq!(encode_frame(""), vec![0, 0]);
}

#[test]
fn frame_counts_bytes_not_chars() {
    let frame = encode_frame("héllo");
    assert_eq!(&frame[..2], &[0, 6]);
    assert_eq!(&frame[2..], "héllo".as_bytes());
}

#[test]
fn frame_round_trip() {
    for text in ["hello", "", "héllo wörld — ✓", "a: b"] {
        assert_eq!(read_back(&encode_frame(text)), Some(text.to_string()));
    }
}

#[test]
fn long_frame_header_is_truncated() {
    let text = "a".repeat(70000);
    let frame = encode_frame(&text);
    assert_eq!(frame.len(), 70002);
    assert_eq!(header_length([frame[0], frame[1]]), 70000 - 65536);
}

#[test]
fn end_of_stream_before_header_closes() {
    assert!(matches!(on_header(Received::EndOfStream), HeaderStep::Finish(FrameOutcome::Closed)));
    assert!(matches!(on_header(Received::Failed), HeaderStep::Finish(FrameOutcome::Failed)));
}

#[test]
fn end_of_stream_in_body_closes() {
    assert!(matches!(on_body(Received::EndOfStream), FrameOutcome::Closed));
    assert!(matches!(on_body(Received::Failed), FrameOutcome::Failed));
}

#[test]
fn invalid_utf8_is_replaced() {
    match on_body(Received::Bytes(vec![b'h', 0xff, b'i'])) {
        FrameOutcome::Message(t) => assert_eq!(t, "h\u{FFFD}i"),
        _ => panic!("expected a message"),
    }
}
