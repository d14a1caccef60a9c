//! The vocabulary of the dispatcher: what it is told about decoded messages,
//! and the state it keeps about the response in progress.

use vstd::prelude::*;

verus! {

/// What follows a request head on the wire, as the decoder reports it.
#[derive(Copy, Clone, Debug, PartialEq, Eq, Hash, Structural)]
pub enum MessageType {
    /// The request has no body.
    Bodyless,
    /// A body of known framing.
    Payload,
    /// A stream without framing of its own, as after an upgrade request.
    Stream,
}

/// Whether the reader of a request body wants more of it.
#[derive(Copy, Clone, Debug, PartialEq, Eq, Hash, Structural)]
pub enum PayloadStatus {
    /// It has room: go on reading.
    Read,
    /// It has enough for now.
    Pause,
    /// It is gone.
    Dropped,
}

/// The size of a response body, as far as it is known when the head is sent.
#[derive(Copy, Clone, Debug, PartialEq, Eq, Hash, Structural)]
pub enum BodySize {
    /// The response has no body and must not have one.
    Absent,
    /// The body is empty.
    Empty,
    /// The body has this many bytes.
    Sized(u64),
    /// The body ends when its source does.
    Stream,
}

impl BodySize {
    pub open spec fn spec_is_eof(&self) -> bool {
        *self == BodySize::Absent || *self == BodySize::Empty
    }

    /// Whether nothing is left to send once the head is out.
    #[verifier::when_used_as_spec(spec_is_eof)]
    pub fn is_eof(&self) -> (eof: bool)
        ensures
            eof == self.spec_is_eof(),
    {
        match self {
            BodySize::Absent => true,
            BodySize::Empty => true,
            BodySize::Sized(_) => false,
            BodySize::Stream => false,
        }
    }
}

/// A response that the dispatcher sends of its own accord.
#[derive(Copy, Clone, Debug, PartialEq, Eq, Hash, Structural)]
pub enum ErrorResponse {
    /// 400, for a request that could not be parsed.
    BadRequest,
    /// 408, for a first request that did not arrive in time.
    RequestTimeout,
    /// 500, for body data that belongs to no request.
    InternalServerError,
}

impl ErrorResponse {
    pub open spec fn spec_status(&self) -> u16 {
        match *self {
            ErrorResponse::BadRequest => 400,
            ErrorResponse::RequestTimeout => 408,
            ErrorResponse::InternalServerError => 500,
        }
    }

    /// The status code of the response.
    #[verifier::when_used_as_spec(spec_status)]
    pub fn status(&self) -> (code: u16)
        ensures
            code == self.spec_status(),
    {
        match self {
            ErrorResponse::BadRequest => 400,
            ErrorResponse::RequestTimeout => 408,
            ErrorResponse::InternalServerError => 500,
        }
    }
}

/// The unit of work the connection is busy with.
#[derive(Copy, Clone, Debug, PartialEq, Eq, Hash, Structural)]
pub enum State {
    /// Nothing: the next queued message can be taken up.
    Idle,
    /// The interceptor for `Expect: 100-continue` is deciding.
    ExpectCall,
    /// The handler is working on a response.
    ServiceCall,
    /// A response body is being streamed.
    SendPayload,
}

impl State {
    pub open spec fn spec_is_empty(&self) -> bool {
        *self == State::Idle
    }

    /// Whether the connection is busy with nothing.
    #[verifier::when_used_as_spec(spec_is_empty)]
    pub fn is_empty(&self) -> (empty: bool)
        ensures
            empty == (*self == State::Idle),
    {
        matches!(self, State::Idle)
    }
}

/// A decoded message that waits for its turn.
#[derive(Debug, PartialEq)]
pub enum DispatcherMessage<R> {
    /// A request for the handler; `expect` tells whether it asked for a
    /// `100 Continue` first.
    Item { request: R, expect: bool },
    /// A request that goes to the upgrade handler.
    Upgrade(R),
    /// A response to send without asking the handler.
    Error(ErrorResponse),
}

/// What the armed timer is waiting for.
#[derive(Copy, Clone, Debug, PartialEq, Eq, Hash, Structural)]
pub enum TimerPurpose {
    /// For the first request to arrive.
    RequestTimeout,
    /// For an idle connection to have been kept long enough.
    IdleTimeout,
    /// For the peer to let the shutdown complete.
    ShutdownTimeout,
}

/// The one timer of a connection, while it is armed.
#[derive(Copy, Clone, Debug, PartialEq, Eq, Hash, Structural)]
pub struct KeepAliveTimer {
    /// When it fires.
    pub deadline: u64,
    /// What for.
    pub purpose: TimerPurpose,
}

/// Below this much free room a buffer is grown before it is filled.
pub const LW_BUFFER_SIZE: usize = 4096;

/// A buffer is grown to this much free room, and the write buffer is flushed
/// before more is produced once it holds this much.
pub const HW_BUFFER_SIZE: usize = 32_768;

/// At most this many decoded messages wait for their turn.
pub const MAX_PIPELINED_MESSAGES: usize = 16;

/// Once the read buffer holds this much, which is the largest message the
/// decoder accepts, reading stops for the current wake.
pub const MAX_BUFFER_SIZE: usize = 131_072;

/// The interim response that tells the peer to send the request body.
pub open spec fn continue_line() -> Seq<u8> {
    seq![
        72u8, 84u8, 84u8, 80u8, 47u8, 49u8, 46u8, 49u8, 32u8,
        49u8, 48u8, 48u8, 32u8,
        67u8, 111u8, 110u8, 116u8, 105u8, 110u8, 117u8, 101u8,
        13u8, 10u8, 13u8, 10u8,
    ]
}

} // verus!
