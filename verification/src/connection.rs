//! One connection: what to do with what was read from it.
//!
//! A [`Client`] stands for one accepted connection. It never touches the
//! socket. The caller reads, writes and flushes, reports each outcome as a
//! [`ConnectionEvent`] to [`Client::handle`], and performs the
//! [`ConnectionAction`] that comes back. The caller starts by reading.

use crate::message::{
    decoded, encoded, lemma_decode_encode, lemma_encoded_len, EchoMessage, FrameError,
};
use vstd::prelude::*;
use vstd::utf8::*;

verus! {

/// The size in bytes of the buffer a chunk is read into. A message whose wire
/// form is longer does not arrive in one chunk and is not echoed.
pub const READ_BUFFER_SIZE: usize = 512;

/// Where a connection stands.
#[derive(Clone, Copy, Debug, PartialEq, Eq, Structural)]
pub enum ConnectionState {
    /// Chunks are read and answered.
    Open,
    /// The peer has closed the connection. Nothing more is read.
    Closed,
    /// Reading or writing has failed. Nothing more is read.
    Failed,
}

/// What happened on the socket.
#[derive(Clone, Copy, Debug)]
pub enum ConnectionEvent<'a> {
    /// A read gave these bytes. No bytes: the peer has closed the connection.
    Received(&'a [u8]),
    /// A read gave an error.
    ReadFailed,
    /// The reply was written and flushed.
    Replied,
    /// Writing or flushing the reply gave an error.
    ReplyFailed,
}

/// What to do on the socket next.
#[derive(Clone, Debug, PartialEq, Eq)]
pub enum ConnectionAction {
    /// Read the next chunk, then report `Received` or `ReadFailed`.
    Read,
    /// Write `payload`, the wire form of `message`, and flush, then report
    /// `Replied` or `ReplyFailed`.
    Reply { message: EchoMessage, payload: Vec<u8> },
    /// The chunk was no message, for the reason given. The connection stays:
    /// read the next chunk, then report `Received` or `ReadFailed`.
    Reject(FrameError),
    /// The peer is gone: the connection has ended without error.
    Close,
    /// The connection has ended with the error that the socket gave.
    Abort,
}

/// A [`ConnectionEvent`] as a value of specifications.
pub enum EventView {
    Received(Seq<u8>),
    ReadFailed,
    Replied,
    ReplyFailed,
}

/// A [`ConnectionAction`] as a value of specifications.
pub enum ActionView {
    Read,
    Reply { text: Seq<char>, payload: Seq<u8> },
    Reject(FrameError),
    Close,
    Abort,
}

impl<'a> View for ConnectionEvent<'a> {
    type V = EventView;

    open spec fn view(&self) -> EventView {
        match *self {
            ConnectionEvent::Received(chunk) => EventView::Received(chunk@),
            ConnectionEvent::ReadFailed => EventView::ReadFailed,
            ConnectionEvent::Replied => EventView::Replied,
            ConnectionEvent::ReplyFailed => EventView::ReplyFailed,
        }
    }
}

impl View for ConnectionAction {
    type V = ActionView;

    open spec fn view(&self) -> ActionView {
        match *self {
            ConnectionAction::Read => ActionView::Read,
            ConnectionAction::Reply { message, payload } => ActionView::Reply {
                text: message@,
                payload: payload@,
            },
            ConnectionAction::Reject(reason) => ActionView::Reject(reason),
            ConnectionAction::Close => ActionView::Close,
            ConnectionAction::Abort => ActionView::Abort,
        }
    }
}

/// What an open connection does with a chunk: an empty one ends it, a message
/// is sent back in its wire form, anything else is rejected and read past.
pub open spec fn answer(chunk: Seq<u8>) -> (ConnectionState, ActionView) {
    if chunk.len() == 0 {
        (ConnectionState::Closed, ActionView::Close)
    } else {
        match decoded(chunk) {
            Ok(text) => (ConnectionState::Open, ActionView::Reply { text, payload: encoded(text) }),
            Err(reason) => (ConnectionState::Open, ActionView::Reject(reason)),
        }
    }
}

/// The connection's rule: the state after `event` and what to do next.
///
/// A connection that has ended stays as it is, whatever is reported. An open
/// one answers each chunk, reads again after each reply, and ends with the
/// first error of the socket.
pub open spec fn step(state: ConnectionState, event: EventView) -> (ConnectionState, ActionView) {
    match state {
        ConnectionState::Closed => (ConnectionState::Closed, ActionView::Close),
        ConnectionState::Failed => (ConnectionState::Failed, ActionView::Abort),
        ConnectionState::Open => match event {
            EventView::Received(chunk) => answer(chunk),
            EventView::Replied => (ConnectionState::Open, ActionView::Read),
            EventView::ReadFailed => (ConnectionState::Failed, ActionView::Abort),
            EventView::ReplyFailed => (ConnectionState::Failed, ActionView::Abort),
        },
    }
}

/// The handler of one connection.
#[derive(Debug)]
pub struct Client {
    state: ConnectionState,
}

impl View for Client {
    type V = ConnectionState;

    closed spec fn view(&self) -> ConnectionState {
        self.state
    }
}

impl Client {
    /// The handler of a connection that was just accepted.
    pub fn new() -> (client: Client)
        ensures
            client@ == ConnectionState::Open,
    {
        Client { state: ConnectionState::Open }
    }

    /// Where the connection stands.
    pub fn state(&self) -> (state: ConnectionState)
        ensures
            state == self@,
    {
        self.state
    }

    /// Takes in what happened on the socket and says what to do next.
    pub fn handle(&mut self, event: ConnectionEvent<'_>) -> (action: ConnectionAction)
        ensures
            (final(self)@, action@) == step(old(self)@, event@),
    {
        match self.state {
            ConnectionState::Closed => ConnectionAction::Close,
            ConnectionState::Failed => ConnectionAction::Abort,
            ConnectionState::Open => match event {
                ConnectionEvent::Received(chunk) => {
                    if chunk.len() == 0 {
                        self.state = ConnectionState::Closed;
                        ConnectionAction::Close
                    } else {
                        match EchoMessage::decode(chunk) {
                            Ok(message) => {
                                let payload = message.encode_to_vec();
                                ConnectionAction::Reply { message, payload }
                            },
                            Err(reason) => ConnectionAction::Reject(reason),
                        }
                    }
                },
                ConnectionEvent::Replied => ConnectionAction::Read,
                ConnectionEvent::ReadFailed | ConnectionEvent::ReplyFailed => {
                    self.state = ConnectionState::Failed;
                    ConnectionAction::Abort
                },
            },
        }
    }
}

/// Echo fidelity: a chunk that is the wire form of a non-empty text is
/// answered with that same text, in bytes identical to the chunk.
///
/// The empty text is left out: its wire form has no bytes, and a read of no
/// bytes means that the peer has closed.
pub proof fn lemma_echo_fidelity(text: Seq<char>)
    requires
        text.len() > 0,
        encode_utf8(text).len() <= u64::MAX,
    ensures
        step(ConnectionState::Open, EventView::Received(encoded(text))) == (
            ConnectionState::Open,
            ActionView::Reply { text, payload: encoded(text) },
        ),
{
    lemma_decode_encode(text);
    lemma_encoded_len(text);
}

/// Clean disconnect: a read of no bytes ends an open connection without
/// error.
pub proof fn lemma_clean_disconnect()
    ensures
        step(ConnectionState::Open, EventView::Received(Seq::empty())) == (
            ConnectionState::Closed,
            ActionView::Close,
        ),
{
}

/// Malformed input: a chunk that is no message is rejected with the reason,
/// and the connection stays open.
pub proof fn lemma_malformed_chunk_keeps_connection(chunk: Seq<u8>)
    requires
        decoded(chunk) is Err,
    ensures
        chunk.len() > 0,
        step(ConnectionState::Open, EventView::Received(chunk)) == (
            ConnectionState::Open,
            ActionView::Reject(decoded(chunk)->Err_0),
        ),
{
}

/// A connection that has ended stays ended, whatever is reported.
pub proof fn lemma_ended_stays_ended(state: ConnectionState, event: EventView)
    requires
        state != ConnectionState::Open,
    ensures
        step(state, event).0 == state,
        step(state, event).1 == (if state == ConnectionState::Closed {
            ActionView::Close
        } else {
            ActionView::Abort
        }),
{
}

} // verus!
