use echo_server::connection::{
    Client, ConnectionAction, ConnectionEvent, ConnectionState, READ_BUFFER_SIZE,
};
use echo_server::message::{EchoMessage, FrameError};

fn message(text: &str) -> EchoMessage {
    EchoMessage { content: text.to_string() }
}

fn reply(text: &str) -> ConnectionAction {
    let message = message(text);
    let payload = message.encode_to_vec();
    ConnectionAction::Reply { message, payload }
}

#[test]
fn new_connection_is_open() {
    assert_eq!(Client::new().state(), ConnectionState::Open);
}

#[test]
fn read_buffer_is_512_bytes() {
    assert_eq!(READ_BUFFER_SIZE, 512);
}

#[test]
fn hello_is_echoed_byte_for_byte() {
    let request = message("hello").encode_to_vec();
    let mut client = Client::new();
    match client.handle(ConnectionEvent::Received(&request)) {
        ConnectionAction::Reply { message: received, payload } => {
            assert_eq!(received, message("hello"));
            assert_eq!(payload, request);
            assert_eq!(payload, vec![0x0A, 0x05, b'h', b'e', b'l', b'l', b'o']);
            assert_eq!(EchoMessage::decode(&payload), Ok(message("hello")));
        }
        other => panic!("no reply: {:?}", other),
    }
    assert_eq!(client.state(), ConnectionState::Open);
}

#[test]
fn reply_is_followed_by_a_read() {
    let mut client = Client::new();
    let request = message("one").encode_to_vec();
    assert_eq!(client.handle(ConnectionEvent::Received(&request)), reply("one"));
    assert_eq!(client.handle(ConnectionEvent::Replied), ConnectionAction::Read);
    assert_eq!(client.state(), ConnectionState::Open);
}

#[test]
fn several_messages_on_one_connection() {
    let mut client = Client::new();
    for text in ["one", "two", "three", "\u{1f600}"] {
        let request = message(text).encode_to_vec();
        assert_eq!(client.handle(ConnectionEvent::Received(&request)), reply(text));
        assert_eq!(client.handle(ConnectionEvent::Replied), ConnectionAction::Read);
    }
    assert_eq!(client.handle(ConnectionEvent::Received(&[])), ConnectionAction::Close);
    assert_eq!(client.state(), ConnectionState::Closed);
}

#[test]
fn frame_that_is_not_canonical_is_echoed_in_canonical_form() {
    // Unknown field 2, then the text, the key of which takes two bytes.
    let request = [0x10, 0x07, 0x8A, 0x00, 0x02, b'o', b'k'];
    let mut client = Client::new();
    match client.handle(ConnectionEvent::Received(&request)) {
        ConnectionAction::Reply { message: received, payload } => {
            assert_eq!(received, message("ok"));
            assert_eq!(payload, vec![0x0A, 0x02, b'o', b'k']);
        }
        other => panic!("no reply: {:?}", other),
    }
}

#[test]
fn frame_with_empty_text_is_answered_with_no_bytes() {
    let mut client = Client::new();
    assert_eq!(
        client.handle(ConnectionEvent::Received(&[0x0A, 0x00])),
        ConnectionAction::Reply { message: message(""), payload: vec![] }
    );
    assert_eq!(client.state(), ConnectionState::Open);
}

#[test]
fn largest_chunk_is_echoed() {
    // 509 bytes of text make a frame of exactly 512.
    let request = message(&"z".repeat(509)).encode_to_vec();
    assert_eq!(request.len(), READ_BUFFER_SIZE);
    let mut client = Client::new();
    assert_eq!(
        client.handle(ConnectionEvent::Received(&request)),
        reply(&"z".repeat(509))
    );
}

#[test]
fn message_cut_by_the_buffer_is_rejected() {
    let request = message(&"z".repeat(600)).encode_to_vec();
    let mut client = Client::new();
    assert_eq!(
        client.handle(ConnectionEvent::Received(&request[..READ_BUFFER_SIZE])),
        ConnectionAction::Reject(FrameError::InvalidContent)
    );
    assert_eq!(client.state(), ConnectionState::Open);
}

#[test]
fn clean_disconnect_ends_without_error() {
    let mut client = Client::new();
    assert_eq!(client.handle(ConnectionEvent::Received(&[])), ConnectionAction::Close);
    assert_eq!(client.state(), ConnectionState::Closed);
}

#[test]
fn single_ff_is_rejected_and_the_connection_stays() {
    let mut client = Client::new();
    assert_eq!(
        client.handle(ConnectionEvent::Received(&[0xFF])),
        ConnectionAction::Reject(FrameError::InvalidKey)
    );
    assert_eq!(client.state(), ConnectionState::Open);
    // The next message on the same connection is echoed.
    let request = message("still here").encode_to_vec();
    assert_eq!(client.handle(ConnectionEvent::Received(&request)), reply("still here"));
}

#[test]
fn each_reason_of_rejection() {
    let mut client = Client::new();
    assert_eq!(
        client.handle(ConnectionEvent::Received(&[0x00])),
        ConnectionAction::Reject(FrameError::InvalidKey)
    );
    assert_eq!(
        client.handle(ConnectionEvent::Received(&[0x0A, 0x05, b'h'])),
        ConnectionAction::Reject(FrameError::InvalidContent)
    );
    assert_eq!(
        client.handle(ConnectionEvent::Received(&[0x12, 0x05, b'h'])),
        ConnectionAction::Reject(FrameError::InvalidUnknownField)
    );
    assert_eq!(client.state(), ConnectionState::Open);
}

#[test]
fn two_messages_in_one_chunk_are_read_as_one() {
    let mut chunk = message("first").encode_to_vec();
    chunk.extend_from_slice(&message("second").encode_to_vec());
    let mut client = Client::new();
    assert_eq!(client.handle(ConnectionEvent::Received(&chunk)), reply("second"));
}

#[test]
fn read_error_aborts() {
    let mut client = Client::new();
    assert_eq!(client.handle(ConnectionEvent::ReadFailed), ConnectionAction::Abort);
    assert_eq!(client.state(), ConnectionState::Failed);
}

#[test]
fn write_error_aborts() {
    let mut client = Client::new();
    let request = message("lost").encode_to_vec();
    assert_eq!(client.handle(ConnectionEvent::Received(&request)), reply("lost"));
    assert_eq!(client.handle(ConnectionEvent::ReplyFailed), ConnectionAction::Abort);
    assert_eq!(client.state(), ConnectionState::Failed);
}

#[test]
fn closed_connection_stays_closed() {
    let mut client = Client::new();
    client.handle(ConnectionEvent::Received(&[]));
    let request = message("late").encode_to_vec();
    for event in [
        ConnectionEvent::Received(&request),
        ConnectionEvent::Received(&[]),
        ConnectionEvent::ReadFailed,
        ConnectionEvent::Replied,
        ConnectionEvent::ReplyFailed,
    ] {
        assert_eq!(client.handle(event), ConnectionAction::Close);
        assert_eq!(client.state(), ConnectionState::Closed);
    }
}

#[test]
fn failed_connection_stays_failed() {
    let mut client = Client::new();
    client.handle(ConnectionEvent::ReadFailed);
    let request = message("late").encode_to_vec();
    for event in [
        ConnectionEvent::Received(&request),
        ConnectionEvent::Received(&[]),
        ConnectionEvent::ReadFailed,
        ConnectionEvent::Replied,
        ConnectionEvent::ReplyFailed,
    ] {
        assert_eq!(client.handle(event), ConnectionAction::Abort);
        assert_eq!(client.state(), ConnectionState::Failed);
    }
}
