//! The conversation between the dispatcher and its driver.
//!
//! The dispatcher never touches the stream, the codec, the handler or the
//! clock. It hands its driver an [`Action`], the driver does that one thing,
//! and answers with the [`Event`] that tells how it went.

use crate::error::{DispatchError, IoErrorKind, ParseError, PayloadError};
use crate::h1::buffer::buffer_bytes;
use crate::h1::message::{BodySize, ErrorResponse, MessageType, PayloadStatus};
use bytes::BytesMut;
use vstd::prelude::*;

verus! {

/// How a non-blocking read into the read buffer went.
#[derive(Copy, Clone, Debug, PartialEq, Eq, Hash, Structural)]
pub enum ReadOutcome {
    /// Nothing to read yet.
    Pending,
    /// This many bytes were appended; none means the peer has finished.
    Ready(usize),
    /// The stream failed.
    Failed(IoErrorKind),
}

/// How a non-blocking write from the write buffer went.
#[derive(Copy, Clone, Debug, PartialEq, Eq, Hash, Structural)]
pub enum WriteOutcome {
    /// The stream takes nothing now.
    Pending,
    /// This many of the offered bytes were taken.
    Ready(usize),
    /// The stream failed.
    Failed(IoErrorKind),
}

/// How closing the write side of the stream went.
#[derive(Copy, Clone, Debug, PartialEq, Eq, Hash, Structural)]
pub enum CloseOutcome {
    /// Not closed yet.
    Pending,
    /// Closed.
    Closed,
    /// The stream failed.
    Failed(IoErrorKind),
}

/// What the decoder made of the read buffer.
#[derive(Debug, PartialEq)]
pub enum Decoded<R, C> {
    /// A request head; `expect` tells whether it asks for `100 Continue`, and
    /// `message_type` what follows it on the wire.
    Request { request: R, expect: bool, message_type: MessageType },
    /// A piece of the current request body.
    Chunk(C),
    /// The end of the current request body.
    Eof,
    /// No complete message yet.
    Incomplete,
    /// The bytes are no valid message, or the decoder could not read them.
    Failed(ParseError),
}

/// How the interceptor for `Expect: 100-continue` decided.
#[derive(Debug, PartialEq)]
pub enum ExpectOutcome<R> {
    /// It has not decided yet.
    Pending,
    /// The request may go on, in this form.
    Continue(R),
    /// It refused; its refusal is the response to send.
    Rejected,
}

/// How far the handler is with its response.
#[derive(Copy, Clone, Debug, PartialEq, Eq, Hash, Structural)]
pub enum ServiceOutcome {
    /// Still working.
    Pending,
    /// It has produced a response, or failed, and the failure is the
    /// response to send.
    Ready,
}

/// How encoding a response head into the write buffer went.
#[derive(Copy, Clone, Debug, PartialEq, Eq, Hash, Structural)]
pub enum EncodeOutcome {
    /// The head is in the write buffer. `keepalive` tells whether the
    /// connection may serve another request after this response, and `body`
    /// what is left to send.
    Encoded { keepalive: bool, body: BodySize },
    /// The encoder failed.
    Failed(IoErrorKind),
}

/// What the source of the response body had to offer.
#[derive(Debug, PartialEq)]
pub enum BodyOutcome<C> {
    /// Nothing now.
    Pending,
    /// The next piece.
    Chunk(C),
    /// The body is complete.
    End,
    /// The source failed.
    Failed,
}

/// How encoding one frame of a response body into the write buffer went.
#[derive(Copy, Clone, Debug, PartialEq, Eq, Hash, Structural)]
pub enum ChunkOutcome {
    /// The frame is in the write buffer.
    Encoded,
    /// The encoder failed.
    Failed(IoErrorKind),
}

/// How far the upgrade handler is.
#[derive(Copy, Clone, Debug, PartialEq, Eq, Hash, Structural)]
pub enum UpgradeOutcome {
    /// Still working.
    Pending,
    /// It is done with the connection.
    Done,
    /// It failed.
    Failed,
}

/// The response whose head is to be encoded.
#[derive(Copy, Clone, Debug, PartialEq, Eq, Hash, Structural)]
pub enum Reply {
    /// One of the dispatcher's own.
    Error(ErrorResponse),
    /// The one that the handler or the interceptor has just produced.
    Handler,
}

/// What is handed to the upgrade handler. `B` is the type of a buffer.
#[derive(Debug, PartialEq)]
pub struct UpgradeParts<R, B> {
    /// The request that asked for the upgrade.
    pub request: R,
    /// The bytes that were read and not yet decoded.
    pub read_buf: B,
    /// The bytes that were encoded and not yet written.
    pub write_buf: B,
}

/// How one piece of outside work went.
#[derive(Debug, PartialEq)]
pub enum Event<R, C> {
    /// Answers `ResetTimer`, `FeedData`, `FeedEof` and `PayloadError`.
    Done,
    /// Answers `PollTimer`: whether the timer has fired.
    Timer(bool),
    /// Answers `Read`.
    Read(ReadOutcome),
    /// Answers `Write`.
    Written(WriteOutcome),
    /// Answers `Shutdown`.
    Closed(CloseOutcome),
    /// Answers `NeedRead`.
    Payload(PayloadStatus),
    /// Answers `Decode`.
    Decoded(Decoded<R, C>),
    /// Answers `OpenPayload`: the request, with the new body attached.
    Request(R),
    /// Answers `CallExpect` and `PollExpect`.
    Expect(ExpectOutcome<R>),
    /// Answers `CallService` and `PollService`.
    Service(ServiceOutcome),
    /// Answers `Encode`.
    Encoded(EncodeOutcome),
    /// Answers `PollBody`.
    Body(BodyOutcome<C>),
    /// Answers `EncodeChunk`.
    Chunk(ChunkOutcome),
    /// Answers `Upgrade` and `PollUpgrade`.
    Upgrade(UpgradeOutcome),
}

/// One piece of outside work, or the end of the dispatcher's turn. `R` is
/// the type of a request, `C` that of a piece of a body, `B` that of a buffer.
#[derive(Debug, PartialEq)]
pub enum Action<R, C, B> {
    /// Ask the armed timer whether it has fired.
    PollTimer,
    /// Arm the timer, or arm it anew, for this point in time, and have it
    /// wake the connection.
    ResetTimer(u64),
    /// Read from the stream into the read buffer, without blocking.
    Read,
    /// Write the write buffer to the stream from this offset on, without
    /// blocking.
    Write(usize),
    /// Close the write side of the stream.
    Shutdown,
    /// Ask the open request body whether its reader wants more.
    NeedRead,
    /// Let the decoder take the next message from the read buffer. A
    /// request head is tagged with the peer's address and given the data
    /// that was captured when the connection was opened.
    Decode,
    /// Open a body for this request and attach it.
    OpenPayload(R),
    /// Pass a piece on to the open request body.
    FeedData(C),
    /// Tell the open request body that it is complete.
    FeedEof,
    /// End the open request body with this error.
    PayloadError(PayloadError),
    /// Give the request to the `Expect` interceptor and ask for its decision.
    CallExpect(R),
    /// Ask the interceptor again.
    PollExpect,
    /// Give the request to the handler and ask for its response.
    CallService(R),
    /// Ask the handler again.
    PollService,
    /// Encode the head of this response into the write buffer.
    Encode(Reply),
    /// Ask the source of the response body for its next piece.
    PollBody,
    /// Encode a piece of the response body, or with `None` its end, into
    /// the write buffer.
    EncodeChunk(Option<C>),
    /// Hand the stream, with these parts, to the upgrade handler and ask how
    /// far it is.
    Upgrade(UpgradeParts<R, B>),
    /// Ask the upgrade handler again.
    PollUpgrade,
    /// Nothing more can be done now: wait for the next wake.
    Suspend,
    /// The connection is finished, with this result.
    Finish(Result<(), DispatchError>),
}

impl<R, C> View for Action<R, C, BytesMut> {
    type V = Action<R, C, Seq<u8>>;

    open spec fn view(&self) -> Action<R, C, Seq<u8>> {
        match *self {
            Action::PollTimer => Action::PollTimer,
            Action::ResetTimer(deadline) => Action::ResetTimer(deadline),
            Action::Read => Action::Read,
            Action::Write(from) => Action::Write(from),
            Action::Shutdown => Action::Shutdown,
            Action::NeedRead => Action::NeedRead,
            Action::Decode => Action::Decode,
            Action::OpenPayload(request) => Action::OpenPayload(request),
            Action::FeedData(chunk) => Action::FeedData(chunk),
            Action::FeedEof => Action::FeedEof,
            Action::PayloadError(error) => Action::PayloadError(error),
            Action::CallExpect(request) => Action::CallExpect(request),
            Action::PollExpect => Action::PollExpect,
            Action::CallService(request) => Action::CallService(request),
            Action::PollService => Action::PollService,
            Action::Encode(reply) => Action::Encode(reply),
            Action::PollBody => Action::PollBody,
            Action::EncodeChunk(chunk) => Action::EncodeChunk(chunk),
            Action::Upgrade(parts) => Action::Upgrade(
                UpgradeParts {
                    request: parts.request,
                    read_buf: buffer_bytes(parts.read_buf),
                    write_buf: buffer_bytes(parts.write_buf),
                },
            ),
            Action::PollUpgrade => Action::PollUpgrade,
            Action::Suspend => Action::Suspend,
            Action::Finish(result) => Action::Finish(result),
        }
    }
}

} // verus!
