//! The control protocol: its messages and how one message travels as a frame
//! (a big-endian `u32` length, then the payload).
use vstd::prelude::*;

use std::collections::HashMap;

use bytes::BytesMut;

use crate::buffers::{
    be_u32_bytes, buffer_contents, buffer_extend, buffer_put_u32, buffer_resize,
    buffer_with_capacity,
};
use crate::test_utils::TestParameters;

verus! {

/// Bytes that hold a frame's length.
pub const MESSAGE_LENGTH_SIZE: usize = 4;

/// The largest payload that a reader accepts (20 MiB).
pub const MAX_CONTROL_MESSAGE: u32 = 20971520;

/// The largest payload that a writer frames: what a `u32` length can say.
pub const MAX_ALLOWED_SIZE: usize = 4294967295;

/// Why a frame could not be built or accepted.
#[derive(Debug, Clone, Copy, PartialEq, Eq, Structural)]
pub enum FrameError {
    /// The payload is longer than a `u32` length can say.
    MessageTooLarge { len: usize },
    /// The announced length is over `MAX_CONTROL_MESSAGE`.
    HeaderTooLarge { size: u32 },
}

/// The frame that carries `payload`.
pub open spec fn frame_of(payload: Seq<u8>) -> Seq<u8> {
    be_u32_bytes(payload.len() as u32) + payload
}

/// Frames `payload` for the wire, as the sender does before writing it.
pub fn frame_message(payload: &[u8]) -> (res: Result<BytesMut, FrameError>)
    requires
        payload@.len() + MESSAGE_LENGTH_SIZE <= isize::MAX,
    ensures
        payload@.len() > MAX_ALLOWED_SIZE <==> res is Err,
        res matches Err(e) ==> e == (FrameError::MessageTooLarge { len: payload@.len() as usize }),
        res matches Ok(buf) ==> buffer_contents(buf) == frame_of(payload@),
{
    let payload_len = payload.len();
    if payload_len > MAX_ALLOWED_SIZE {
        return Err(FrameError::MessageTooLarge { len: payload_len });
    }
    let mut buf = buffer_with_capacity(MESSAGE_LENGTH_SIZE + payload_len);
    buffer_put_u32(&mut buf, payload_len as u32);
    buffer_extend(&mut buf, payload);
    Ok(buf)
}

/// The value of four bytes read most significant first.
pub open spec fn be_u32_value(b: Seq<u8>) -> u32 {
    ((b[0] as u32) << 24u32) | ((b[1] as u32) << 16u32) | ((b[2] as u32) << 8u32) | (b[3] as u32)
}

/// Reads a frame's length from its first four bytes.
pub fn decode_length_prefix(prefix: [u8; 4]) -> (n: u32)
    ensures
        n == be_u32_value(prefix@),
{
    ((prefix[0] as u32) << 24u32) | ((prefix[1] as u32) << 16u32) | ((prefix[2] as u32) << 8u32)
        | (prefix[3] as u32)
}

/// The zero-filled buffer into which a payload of `message_size` bytes is
/// read, or an error where that size is over `MAX_CONTROL_MESSAGE`.
pub fn payload_buffer(message_size: u32) -> (res: Result<BytesMut, FrameError>)
    ensures
        message_size > MAX_CONTROL_MESSAGE <==> res is Err,
        res matches Err(e) ==> e == (FrameError::HeaderTooLarge { size: message_size }),
        res matches Ok(buf) ==> buffer_contents(buf) == Seq::new(
            message_size as nat,
            |i: int| 0u8,
        ),
{
    if message_size > MAX_CONTROL_MESSAGE {
        return Err(FrameError::HeaderTooLarge { size: message_size });
    }
    let mut buf = buffer_with_capacity(message_size as usize);
    buffer_resize(&mut buf, message_size as usize, 0);
    proof {
        assert(buffer_contents(buf) =~= Seq::new(message_size as nat, |i: int| 0u8));
    }
    Ok(buf)
}

/// Reading a length back from its four bytes gives the length that was
/// written, for every `u32`.
pub proof fn lemma_length_prefix_round_trip(n: u32)
    ensures
        be_u32_bytes(n).len() == MESSAGE_LENGTH_SIZE,
        be_u32_value(be_u32_bytes(n)) == n,
{
    let b0 = (n >> 24u32) as u8;
    let b1 = (n >> 16u32) as u8;
    let b2 = (n >> 8u32) as u8;
    let b3 = n as u8;
    assert(((b0 as u32) << 24u32) | ((b1 as u32) << 16u32) | ((b2 as u32) << 8u32) | (b3 as u32)
        == n) by (bit_vector)
        requires
            b0 == (n >> 24u32) as u8,
            b1 == (n >> 16u32) as u8,
            b2 == (n >> 8u32) as u8,
            b3 == n as u8,
    ;
}

/// What a reader takes from a frame is what the writer framed: the first
/// four bytes announce the payload's length, the reader's size check lets it
/// through, and the bytes after them are the payload. This holds for every
/// payload of at most `MAX_CONTROL_MESSAGE` bytes; a longer one is framed
/// but refused by the reader.
pub proof fn lemma_frame_round_trip(payload: Seq<u8>)
    requires
        payload.len() <= MAX_CONTROL_MESSAGE,
    ensures
        frame_of(payload).len() == MESSAGE_LENGTH_SIZE + payload.len(),
        be_u32_value(frame_of(payload).take(MESSAGE_LENGTH_SIZE as int)) == payload.len(),
        !(be_u32_value(frame_of(payload).take(MESSAGE_LENGTH_SIZE as int))
            > MAX_CONTROL_MESSAGE),
        frame_of(payload).skip(MESSAGE_LENGTH_SIZE as int) == payload,
{
    let n = payload.len() as u32;
    lemma_length_prefix_round_trip(n);
    assert(frame_of(payload).take(4) =~= be_u32_bytes(n));
    assert(frame_of(payload).skip(4) =~= payload);
}

/// The statistics of one data stream.
#[derive(Debug, Clone, Copy, PartialEq, Eq, Structural)]
pub struct StreamData {
    pub sender: bool,
    pub duration_millis: u64,
    pub bytes_transferred: usize,
    pub syscalls: usize,
}

/// What a client sends: a message or an error.
#[derive(Debug)]
pub enum ClientEnvelope {
    ClientMessage(ClientMessage),
    Error(ErrorControl),
}

/// What a server sends: a message or an error.
#[derive(Debug)]
pub enum ServerEnvelope {
    ServerMessage(ServerMessage),
    Error(ErrorControl),
}

/// Errors that a server reports.
#[derive(Debug, Clone, PartialEq, Eq)]
pub enum ErrorControl {
    AccessDenied(String),
    CannotAcceptStream(String),
    CannotCreateStream(String),
}

/// The text of an error: a fixed prefix per kind, then its reason.
pub open spec fn error_control_text(e: ErrorControl) -> Seq<char> {
    match e {
        ErrorControl::AccessDenied(r) => "Access denied: "@ + r@,
        ErrorControl::CannotAcceptStream(r) => "Cannot accept a stream connection: "@ + r@,
        ErrorControl::CannotCreateStream(r) => "Cannot create a stream connection: "@ + r@,
    }
}

impl ErrorControl {
    /// The text of this error, as a user reads it.
    pub fn description(&self) -> (text: String)
        ensures
            text@ == error_control_text(*self),
    {
        match self {
            ErrorControl::AccessDenied(r) => {
                let mut text = String::from_str("Access denied: ");
                text.append(r.as_str());
                text
            },
            ErrorControl::CannotAcceptStream(r) => {
                let mut text = String::from_str("Cannot accept a stream connection: ");
                text.append(r.as_str());
                text
            },
            ErrorControl::CannotCreateStream(r) => {
                let mut text = String::from_str("Cannot create a stream connection: ");
                text.append(r.as_str());
                text
            },
        }
    }
}

/// The statistics of all streams of one side, by stream id.
#[derive(Debug, Clone, PartialEq, Eq)]
pub struct TestResults {
    pub streams: HashMap<usize, StreamData>,
}

/// A control message from client to server.
#[derive(Debug)]
pub enum ClientMessage {
    /// The first message after connecting; the cookie identifies the client
    /// and, later, its data streams.
    Hello { cookie: String },
    /// The test parameters.
    SendParameters(TestParameters),
    /// The client's results.
    SendResults(TestResults),
}

/// A control message from server to client.
#[derive(Debug, PartialEq, Eq)]
pub enum ServerMessage {
    /// The answer to a control connection's `Hello`.
    Welcome,
    /// The answer to a data stream's `Hello`.
    WelcomeDataStream,
    SetState(State),
    SendResults(TestResults),
}

/// The phases of a test.
#[derive(Debug, Clone, PartialEq, Eq)]
pub enum State {
    /// Parameters are exchanged; the server does not ask for streams yet.
    TestStart,
    /// The client is asked to open the data streams.
    CreateStreams { cookie: String },
    /// All streams are connected: send, receive and measure.
    Running,
    /// The results are exchanged; the client starts this exchange.
    ExchangeResults,
    DisplayResults,
}

impl State {
    /// A copy of this state.
    pub fn duplicate(&self) -> (s: State)
        ensures
            s == *self,
    {
        match self {
            State::TestStart => State::TestStart,
            State::CreateStreams { cookie } => State::CreateStreams { cookie: cookie.clone() },
            State::Running => State::Running,
            State::ExchangeResults => State::ExchangeResults,
            State::DisplayResults => State::DisplayResults,
        }
    }
}

} // verus!
