use beardpilot::api::error::EndpointError;
use beardpilot::api::stream::EndpointStream;

#[test]
fn data_prefixed_message_is_unwrapped() {
    let mut s: EndpointStream<(), ()> = EndpointStream::new(());
    match s.handle_stream_bytes(b"data: {\"a\":1}  \n\nrest") {
        Some(Ok(p)) => assert_eq!(p, "{\"a\":1}"),
        _ => panic!("payload expected"),
    }
    assert_eq!(s.buffer, "rest");
}

#[test]
fn message_without_prefix_is_trimmed() {
    let mut s: EndpointStream<(), ()> = EndpointStream::new(());
    s.buffer.push_str("  {\"b\":2}\n");
    assert_eq!(s.pull_from_buffer(), Some("{\"b\":2}".to_owned()));
    assert_eq!(s.buffer, "");
}

#[test]
fn messages_come_out_one_per_pull() {
    let mut s: EndpointStream<(), ()> = EndpointStream::new(());
    s.buffer.push_str("data: 1\n\ndata: 2\n\n");
    assert_eq!(s.pull_from_buffer(), Some("1".to_owned()));
    assert_eq!(s.buffer, "data: 2\n\n");
    assert_eq!(s.pull_from_buffer(), Some("2".to_owned()));
    assert_eq!(s.buffer, "");
    assert_eq!(s.pull_from_buffer(), None);
}

#[test]
fn blank_message_yields_nothing() {
    let mut s: EndpointStream<(), ()> = EndpointStream::new(());
    s.buffer.push_str("data:   \n\nnext");
    assert_eq!(s.pull_from_buffer(), None);
    assert_eq!(s.buffer, "next");
}

#[test]
fn buffer_without_separator_is_taken_whole() {
    let mut s: EndpointStream<(), ()> = EndpointStream::new(());
    match s.handle_stream_bytes(b"data: {\"par") {
        Some(Ok(p)) => assert_eq!(p, "{\"par"),
        _ => panic!("payload expected"),
    }
    assert_eq!(s.buffer, "");
}

#[test]
fn invalid_utf8_is_a_client_error() {
    let mut s: EndpointStream<(), ()> = EndpointStream::new(());
    s.buffer.push_str("kept");
    match s.handle_stream_bytes(&[0x61, 0xff, 0x62]) {
        Some(Err(EndpointError::ClientError(m))) => {
            assert_eq!(m, "invalid utf-8 sequence of 1 bytes from index 1")
        }
        _ => panic!("client error expected"),
    }
    assert_eq!(s.buffer, "kept");
}

#[test]
fn multibyte_text_is_decoded() {
    let mut s: EndpointStream<(), ()> = EndpointStream::new(());
    match s.handle_stream_bytes("data: \u{e9}t\u{e9}\n\n".as_bytes()) {
        Some(Ok(p)) => assert_eq!(p, "\u{e9}t\u{e9}"),
        _ => panic!("payload expected"),
    }
}
