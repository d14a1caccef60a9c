//! The dispatcher as an abstract machine.
//!
//! A connection is a value of [`DispatcherView`]. It moves when the driver
//! wakes it ([`poll`]) or answers its last action ([`resume`]); each move
//! yields the next state and the next action. The functions in between are
//! the stages of one wake: the timer, reading, decoding, responding, flushing
//! and the decision how the wake ends.

use crate::error::{DispatchError, IoErrorKind, ParseError, PayloadError};
use crate::h1::config::ServiceConfig;
use crate::h1::flags::Flags;
use crate::h1::io::{
    Action, BodyOutcome, ChunkOutcome, CloseOutcome, Decoded, EncodeOutcome, Event,
    ExpectOutcome, ReadOutcome, Reply, ServiceOutcome, UpgradeOutcome, UpgradeParts,
    WriteOutcome,
};
use crate::h1::message::{
    continue_line, DispatcherMessage, ErrorResponse, KeepAliveTimer, MessageType, PayloadStatus,
    State, TimerPurpose, HW_BUFFER_SIZE, MAX_BUFFER_SIZE, MAX_PIPELINED_MESSAGES,
};
use vstd::prelude::*;

verus! {

/// The answer the dispatcher is waiting for, and with it the place where it
/// goes on when the answer comes.
#[derive(Copy, Clone, Debug, PartialEq, Eq, Hash, Structural)]
pub enum Awaiting {
    /// The next wake.
    Wake,
    /// The grace timer has just been armed where none was.
    KeepAliveArm,
    /// Whether the timer has fired.
    KeepAliveTimer,
    /// The request body has been told that the connection shuts down.
    KeepAliveAbort,
    /// The timer has been armed anew.
    KeepAliveRearm,
    /// The head of the 408 response.
    KeepAliveTimeout,
    /// A write, while shutting down.
    ShutdownFlush,
    /// The closing of the write side.
    ShutdownClose,
    /// A read.
    Reading,
    /// Whether the request body wants more.
    RequestNeedRead,
    /// The next decoded message.
    RequestDecode,
    /// The request with its new body; `expect` is kept from its head.
    RequestOpenPayload { expect: bool },
    /// The request body has been fed.
    RequestFeed,
    /// The request body has been told that decoding failed.
    RequestAbort,
    /// The interceptor, asked about a request that was taken up at once.
    HandleExpect,
    /// The handler, asked about a request that was taken up at once.
    HandleService,
    /// The response head of a request that was taken up at once.
    HandleEncode,
    /// The request body has been told that the peer is gone.
    DisconnectEof,
    /// The interceptor.
    ResponseExpect,
    /// The handler.
    ResponseService,
    /// A response head.
    ResponseEncode,
    /// The next piece of the response body.
    ResponseBody,
    /// A frame of the response body; `last` if it is the closing one.
    ResponseChunk { last: bool },
    /// A write, while responding.
    ResponseFlush,
    /// The request body has been told that the connection fails with this.
    Failing(DispatchError),
    /// The upgrade handler.
    Upgrading,
    /// Nothing: the connection is finished.
    Finished,
}

/// A connection, as the contracts see it.
pub ghost struct DispatcherView<R> {
    /// The time limits.
    pub config: ServiceConfig,
    /// Whether an upgrade handler is there.
    pub upgrade_enabled: bool,
    pub flags: Flags,
    /// The response in progress.
    pub state: State,
    /// Whether a request body is open.
    pub payload: bool,
    /// The decoded messages that wait, oldest first.
    pub messages: Seq<DispatcherMessage<R>>,
    /// The failure to report once everything is written.
    pub error: Option<DispatchError>,
    /// Until when the connection is kept if it stays idle.
    pub ka_expire: u64,
    /// The timer, if it is armed.
    pub ka_timer: Option<KeepAliveTimer>,
    pub read_buf: Seq<u8>,
    pub write_buf: Seq<u8>,
    /// The time of the current wake.
    pub now: u64,
    pub awaiting: Awaiting,
    /// Whether decoding was begun while the handler was pending, and not at
    /// the start of the wake.
    pub nested: bool,
    /// Whether the current round of decoding has produced a message.
    pub updated: bool,
    /// Whether reading showed that the peer is gone.
    pub should_disconnect: bool,
    /// Whether the current round of reading has read anything.
    pub read_some: bool,
    /// How much of the write buffer the current flush has written.
    pub written: usize,
    /// Whether the write buffer is flushed because it is full.
    pub drain: bool,
    /// Every message that was ever queued or taken up at once, in the order
    /// of decoding.
    pub accepted: Seq<DispatcherMessage<R>>,
    /// Every message that was ever taken up, in that order.
    pub served: Seq<DispatcherMessage<R>>,
}

/// A stage of a wake either ends in an action or lets the next stage go on.
pub ghost enum Next<R, C> {
    Emit(DispatcherView<R>, Action<R, C, Seq<u8>>),
    Continue(DispatcherView<R>),
}

/// A flush either writes on, or is over, or fails.
pub ghost enum Flushed<R> {
    /// Write on from `written`.
    Again(DispatcherView<R>),
    /// The flush is over; `true` if the stream took no more.
    Over(DispatcherView<R>, bool),
    Failed(IoErrorKind),
}

/// A fresh connection. With keep-alive disabled no timer is armed. Else the
/// timer is armed for `timeout` if that is given, and otherwise for the
/// keep-alive limit, if there is one, as the limit for the first request.
pub open spec fn init<R>(
    config: ServiceConfig,
    read_buf: Seq<u8>,
    timeout: Option<u64>,
    now: u64,
    upgrade_enabled: bool,
) -> DispatcherView<R> {
    let ka_timer = if !config.ka_enabled {
        None
    } else {
        match timeout {
            Some(deadline) => Some(KeepAliveTimer { deadline, purpose: TimerPurpose::IdleTimeout }),
            None => match config.keep_alive_expire(now) {
                Some(deadline) => Some(
                    KeepAliveTimer { deadline, purpose: TimerPurpose::RequestTimeout },
                ),
                None => None,
            },
        }
    };
    DispatcherView {
        config,
        upgrade_enabled,
        flags: Flags { keepalive: config.ka_enabled, ..Flags::empty() },
        state: State::Idle,
        payload: false,
        messages: Seq::empty(),
        error: None,
        ka_expire: match ka_timer {
            Some(timer) => timer.deadline,
            None => now,
        },
        ka_timer,
        read_buf,
        write_buf: Seq::empty(),
        now,
        awaiting: Awaiting::Wake,
        nested: false,
        updated: false,
        should_disconnect: false,
        read_some: false,
        written: 0,
        drain: false,
        accepted: Seq::empty(),
        served: Seq::empty(),
    }
}

/// The wake ends without a result.
#[verifier::opaque]
pub open spec fn suspend<R, C>(m: DispatcherView<R>) -> (DispatcherView<R>, Action<R, C, Seq<u8>>) {
    (DispatcherView { awaiting: Awaiting::Wake, ..m }, Action::Suspend)
}

/// The connection ends with `result`.
#[verifier::opaque]
pub open spec fn finish<R, C>(m: DispatcherView<R>, result: Result<(), DispatchError>) -> (
    DispatcherView<R>,
    Action<R, C, Seq<u8>>,
) {
    (DispatcherView { awaiting: Awaiting::Finished, ..m }, Action::Finish(result))
}

/// The connection fails with `error`; an open request body is told first.
#[verifier::opaque]
pub open spec fn fail<R, C>(m: DispatcherView<R>, error: DispatchError) -> (
    DispatcherView<R>,
    Action<R, C, Seq<u8>>,
) {
    if m.payload {
        (
            DispatcherView { payload: false, awaiting: Awaiting::Failing(error), ..m },
            Action::PayloadError(PayloadError::Incomplete),
        )
    } else {
        finish(m, Err(error))
    }
}

/// The timer is armed for `deadline`.
#[verifier::opaque]
pub open spec fn arm<R, C>(
    m: DispatcherView<R>,
    deadline: u64,
    purpose: TimerPurpose,
    awaiting: Awaiting,
) -> Next<R, C> {
    Next::Emit(
        DispatcherView { ka_timer: Some(KeepAliveTimer { deadline, purpose }), awaiting, ..m },
        Action::ResetTimer(deadline),
    )
}

/// A connection that shuts down without a grace period and has nothing
/// left to write: its write side counts as closed.
pub open spec fn closing<R>(m: DispatcherView<R>) -> DispatcherView<R> {
    DispatcherView { flags: Flags { write_disconnect: true, ..m.flags }, ..m }
}

/// Whether the timer is armed for the grace period of the shutdown.
pub open spec fn in_grace<R>(m: DispatcherView<R>) -> bool {
    m.ka_timer matches Some(timer) && timer.purpose == TimerPurpose::ShutdownTimeout
}

/// What the timer makes of a connection that shuts down: if a grace period
/// is configured, the timer is armed for it, in place of whatever it was
/// armed for. If none is, an open request body is told, and the shutdown
/// follows at once (see [`shutdown_pass`]): what waits is written, and then
/// the write side counts as closed.
#[verifier::opaque]
pub open spec fn enter_shutdown<R, C>(m: DispatcherView<R>) -> Next<R, C> {
    match m.config.client_disconnect_timer(m.now) {
        Some(deadline) => arm(m, deadline, TimerPurpose::ShutdownTimeout, Awaiting::KeepAliveArm),
        None => if m.payload {
            Next::Emit(
                DispatcherView { payload: false, awaiting: Awaiting::KeepAliveAbort, ..m },
                Action::PayloadError(PayloadError::Incomplete),
            )
        } else {
            Next::Continue(m)
        },
    }
}

/// The timer stage, up to its first question to the driver.
///
/// A connection that shuts down, and whose timer is not armed for the grace
/// period, enters the shutdown (see [`enter_shutdown`]). On any other
/// connection the driver is asked whether the timer has fired, if one is
/// armed.
#[verifier::opaque]
pub open spec fn poll_keepalive<R, C>(m: DispatcherView<R>) -> Next<R, C> {
    if m.flags.shutdown && !in_grace(m) {
        enter_shutdown(m)
    } else {
        match m.ka_timer {
            None => Next::Continue(m),
            Some(_) => Next::Emit(
                DispatcherView { awaiting: Awaiting::KeepAliveTimer, ..m },
                Action::PollTimer,
            ),
        }
    }
}

/// Whether nothing is in progress and nothing waits to be written.
pub open spec fn idle<R>(m: DispatcherView<R>) -> bool {
    m.state.is_empty() && m.write_buf.len() == 0
}

/// Whether the connection has nothing left to do: it is idle and keeps no
/// failure that is still to be reported.
pub open spec fn quiet<R>(m: DispatcherView<R>) -> bool {
    idle(m) && m.error is None
}

/// The timer stage, once the driver has told whether the timer fired.
///
/// A timer that fires during shutdown ends the connection with
/// `DisconnectTimeout`. One that fires before `ka_expire` is armed anew for
/// that time. One that fires in time finds the connection either with
/// something left to do, and is armed anew for the keep-alive limit, or
/// quiet: then a connection that has seen a message enters the shutdown (see
/// [`enter_shutdown`]), and one that has seen none is sent the 408 response.
#[verifier::opaque]
pub open spec fn keepalive_fired<R, C>(m: DispatcherView<R>, fired: bool) -> Next<R, C> {
    match m.ka_timer {
        None => Next::Continue(m),
        Some(timer) => if !fired {
            Next::Continue(m)
        } else if m.flags.shutdown {
            let (m1, action) = finish::<R, C>(m, Err(DispatchError::DisconnectTimeout));
            Next::Emit(m1, action)
        } else if timer.deadline >= m.ka_expire {
            if quiet(m) {
                if m.flags.started {
                    enter_shutdown(
                        DispatcherView { flags: Flags { shutdown: true, ..m.flags }, ..m },
                    )
                } else {
                    Next::Emit(
                        DispatcherView { awaiting: Awaiting::KeepAliveTimeout, ..m },
                        Action::Encode(Reply::Error(ErrorResponse::RequestTimeout)),
                    )
                }
            } else {
                match m.config.keep_alive_expire(m.now) {
                    Some(deadline) => arm(
                        m,
                        deadline,
                        TimerPurpose::IdleTimeout,
                        Awaiting::KeepAliveRearm,
                    ),
                    None => Next::Continue(m),
                }
            }
        } else {
            arm(m, m.ka_expire, TimerPurpose::IdleTimeout, Awaiting::KeepAliveRearm)
        },
    }
}

/// The connection after the head of the 408 response was encoded, or was
/// not: it has seen its first message, shuts down, and is busy with nothing.
pub open spec fn keepalive_timeout_sent<R>(
    m: DispatcherView<R>,
    outcome: EncodeOutcome,
) -> DispatcherView<R> {
    let sent = match send_response(m, outcome) {
        Ok(sent) => sent,
        Err(_) => DispatcherView { payload: false, ..m },
    };
    DispatcherView {
        flags: Flags { started: true, shutdown: true, ..sent.flags },
        state: State::Idle,
        ..sent
    }
}

/// What a response head does to the connection once it is encoded: the
/// connection stays open for another request if the encoder says so, and it
/// is busy with the body if there is one. A failed encoding leaves the
/// connection as it is and yields the failure.
pub open spec fn send_response<R>(m: DispatcherView<R>, outcome: EncodeOutcome) -> Result<
    DispatcherView<R>,
    IoErrorKind,
> {
    match outcome {
        EncodeOutcome::Encoded { keepalive, body } => Ok(
            DispatcherView {
                flags: Flags { keepalive, ..m.flags },
                state: if body.is_eof() {
                    State::Idle
                } else {
                    State::SendPayload
                },
                ..m
            },
        ),
        EncodeOutcome::Failed(kind) => Err(kind),
    }
}

/// After the timer stage: a connection that shuts down goes on with that,
/// any other reads.
#[verifier::opaque]
pub open spec fn after_keepalive<R, C>(m: DispatcherView<R>) -> (
    DispatcherView<R>,
    Action<R, C, Seq<u8>>,
) {
    if m.flags.shutdown {
        shutdown_pass(m)
    } else {
        read_available(m)
    }
}

/// A stage, followed by what comes after the timer stage.
#[verifier::opaque]
pub open spec fn then_after_keepalive<R, C>(next: Next<R, C>) -> (
    DispatcherView<R>,
    Action<R, C, Seq<u8>>,
) {
    match next {
        Next::Emit(m, action) => (m, action),
        Next::Continue(m) => after_keepalive(m),
    }
}

/// A stage, followed by the shutdown.
#[verifier::opaque]
pub open spec fn then_shutdown<R, C>(next: Next<R, C>) -> (
    DispatcherView<R>,
    Action<R, C, Seq<u8>>,
) {
    match next {
        Next::Emit(m, action) => (m, action),
        Next::Continue(m) => shutdown_pass(m),
    }
}

/// The shutdown: with the write side closed the connection ends in
/// success. Else the write buffer is flushed first, and once it is empty
/// the shutdown comes to its end (see [`shutdown_end`]).
#[verifier::opaque]
pub open spec fn shutdown_pass<R, C>(m: DispatcherView<R>) -> (
    DispatcherView<R>,
    Action<R, C, Seq<u8>>,
) {
    if m.flags.write_disconnect {
        finish(m, Ok(()))
    } else if m.write_buf.len() == 0 {
        shutdown_end(m)
    } else {
        (DispatcherView { awaiting: Awaiting::ShutdownFlush, written: 0, ..m }, Action::Write(0))
    }
}

/// The end of the shutdown, with nothing left to write: during the grace
/// period the write side of the stream is closed; without one the write side
/// counts as closed (see [`closing`]) and the connection ends in success.
#[verifier::opaque]
pub open spec fn shutdown_end<R, C>(m: DispatcherView<R>) -> (
    DispatcherView<R>,
    Action<R, C, Seq<u8>>,
) {
    if in_grace(m) {
        shutdown_close(m)
    } else {
        finish(closing(m), Ok(()))
    }
}

/// The write side of the stream is to be closed.
#[verifier::opaque]
pub open spec fn shutdown_close<R, C>(m: DispatcherView<R>) -> (
    DispatcherView<R>,
    Action<R, C, Seq<u8>>,
) {
    (DispatcherView { awaiting: Awaiting::ShutdownClose, ..m }, Action::Shutdown)
}

/// One step of a flush. A write that takes nothing is a failure. One that
/// takes the rest empties the buffer. A stream that takes no more keeps what
/// is not yet written, in order, for the next wake.
pub open spec fn poll_flush<R>(m: DispatcherView<R>, outcome: WriteOutcome) -> Flushed<R> {
    match outcome {
        WriteOutcome::Ready(n) => if n == 0 {
            Flushed::Failed(IoErrorKind::WriteZero)
        } else if m.written + n < m.write_buf.len() {
            Flushed::Again(DispatcherView { written: (m.written + n) as usize, ..m })
        } else {
            Flushed::Over(DispatcherView { write_buf: Seq::empty(), written: 0, ..m }, false)
        },
        WriteOutcome::Pending => Flushed::Over(
            DispatcherView { write_buf: m.write_buf.skip(m.written as int), written: 0, ..m },
            true,
        ),
        WriteOutcome::Failed(kind) => Flushed::Failed(kind),
    }
}

/// A step of the flush that belongs to the shutdown.
#[verifier::opaque]
pub open spec fn shutdown_flushed<R, C>(m: DispatcherView<R>, outcome: WriteOutcome) -> (
    DispatcherView<R>,
    Action<R, C, Seq<u8>>,
) {
    match poll_flush(m, outcome) {
        Flushed::Again(m1) => (m1, Action::Write(m1.written)),
        Flushed::Over(m1, _) => if m1.write_buf.len() != 0 {
            suspend(m1)
        } else {
            shutdown_end(m1)
        },
        Flushed::Failed(kind) => finish(m, Err(DispatchError::Io(kind))),
    }
}

/// The end of the shutdown.
#[verifier::opaque]
pub open spec fn shutdown_closed<R, C>(m: DispatcherView<R>, outcome: CloseOutcome) -> (
    DispatcherView<R>,
    Action<R, C, Seq<u8>>,
) {
    match outcome {
        CloseOutcome::Pending => suspend(m),
        CloseOutcome::Closed => finish(m, Ok(())),
        CloseOutcome::Failed(kind) => finish(m, Err(DispatchError::Io(kind))),
    }
}

/// Whether the next wake would read: the connection does not shut down,
/// its flags allow reading, and its read buffer is below `MAX_BUFFER_SIZE`.
pub open spec fn would_read<R>(m: DispatcherView<R>) -> bool {
    !m.flags.shutdown && can_read(m) && m.read_buf.len() < MAX_BUFFER_SIZE
}

/// The reading stage. A connection whose read side is closed reads nothing
/// and counts as gone. One whose read buffer has reached `MAX_BUFFER_SIZE`
/// reads nothing either, and goes on to decode what it holds.
#[verifier::opaque]
pub open spec fn read_available<R, C>(m: DispatcherView<R>) -> (
    DispatcherView<R>,
    Action<R, C, Seq<u8>>,
) {
    if m.flags.read_disconnect {
        poll_request(DispatcherView { should_disconnect: true, ..m }, false)
    } else if m.read_buf.len() >= MAX_BUFFER_SIZE {
        poll_request(DispatcherView { should_disconnect: false, ..m }, false)
    } else {
        (DispatcherView { read_some: false, awaiting: Awaiting::Reading, ..m }, Action::Read)
    }
}

/// The reading stage, after a read. The peer is gone after a read of
/// nothing, or after a reset that follows a read of something. Reading goes
/// on until the stream has nothing more or the read buffer has reached
/// `MAX_BUFFER_SIZE`.
#[verifier::opaque]
pub open spec fn read_done<R, C>(m: DispatcherView<R>, outcome: ReadOutcome) -> (
    DispatcherView<R>,
    Action<R, C, Seq<u8>>,
) {
    match outcome {
        ReadOutcome::Pending => poll_request(DispatcherView { should_disconnect: false, ..m }, false),
        ReadOutcome::Ready(n) => if n == 0 {
            poll_request(DispatcherView { should_disconnect: true, ..m }, false)
        } else if m.read_buf.len() >= MAX_BUFFER_SIZE {
            poll_request(DispatcherView { should_disconnect: false, ..m }, false)
        } else {
            (DispatcherView { read_some: true, awaiting: Awaiting::Reading, ..m }, Action::Read)
        },
        ReadOutcome::Failed(kind) => if kind == IoErrorKind::WouldBlock {
            poll_request(DispatcherView { should_disconnect: false, ..m }, false)
        } else if kind == IoErrorKind::ConnectionReset && m.read_some {
            poll_request(DispatcherView { should_disconnect: true, ..m }, false)
        } else {
            finish(m, Err(DispatchError::Io(kind)))
        },
    }
}

/// Whether the flags let the connection read and decode.
pub open spec fn can_read<R>(m: DispatcherView<R>) -> bool {
    !(m.flags.read_disconnect || m.flags.upgrade)
}

/// A round of decoding begins.
#[verifier::opaque]
pub open spec fn poll_request<R, C>(m: DispatcherView<R>, nested: bool) -> (
    DispatcherView<R>,
    Action<R, C, Seq<u8>>,
) {
    request_loop(DispatcherView { nested, updated: false, ..m })
}

/// The head of the decoding loop. The decoder is asked for a message as long
/// as fewer than `MAX_PIPELINED_MESSAGES` wait, the flags allow reading, and
/// the reader of an open request body wants more.
#[verifier::opaque]
pub open spec fn request_loop<R, C>(m: DispatcherView<R>) -> (
    DispatcherView<R>,
    Action<R, C, Seq<u8>>,
) {
    if m.messages.len() >= MAX_PIPELINED_MESSAGES || !can_read(m) {
        request_done(m)
    } else if m.payload {
        (DispatcherView { awaiting: Awaiting::RequestNeedRead, ..m }, Action::NeedRead)
    } else {
        (DispatcherView { awaiting: Awaiting::RequestDecode, ..m }, Action::Decode)
    }
}

/// The decoding loop, once the request body has told whether it wants more.
#[verifier::opaque]
pub open spec fn request_wanted<R, C>(m: DispatcherView<R>, status: PayloadStatus) -> (
    DispatcherView<R>,
    Action<R, C, Seq<u8>>,
) {
    if status == PayloadStatus::Read {
        (DispatcherView { awaiting: Awaiting::RequestDecode, ..m }, Action::Decode)
    } else {
        request_done(m)
    }
}

/// The connection with `message` added to those that wait.
pub open spec fn enqueue<R>(m: DispatcherView<R>, message: DispatcherMessage<R>) -> DispatcherView<
    R,
> {
    DispatcherView {
        messages: m.messages.push(message),
        accepted: m.accepted.push(message),
        ..m
    }
}

/// The connection after a message was decoded.
pub open spec fn started<R>(m: DispatcherView<R>) -> DispatcherView<R> {
    DispatcherView { updated: true, flags: Flags { started: true, ..m.flags }, ..m }
}

/// Body data that belongs to no request: the read side is closed, the 500
/// response is queued, and the failure is kept for the final report.
#[verifier::opaque]
pub open spec fn orphaned<R, C>(m: DispatcherView<R>) -> (
    DispatcherView<R>,
    Action<R, C, Seq<u8>>,
) {
    request_done(
        enqueue(
            DispatcherView {
                flags: Flags { read_disconnect: true, ..m.flags },
                error: Some(DispatchError::InternalError),
                ..m
            },
            DispatcherMessage::Error(ErrorResponse::InternalServerError),
        ),
    )
}

/// Decoding ends for this round; an open request body is told `error` first.
#[verifier::opaque]
pub open spec fn abort_payload<R, C>(m: DispatcherView<R>, error: PayloadError) -> (
    DispatcherView<R>,
    Action<R, C, Seq<u8>>,
) {
    if m.payload {
        (
            DispatcherView { payload: false, awaiting: Awaiting::RequestAbort, ..m },
            Action::PayloadError(error),
        )
    } else {
        request_done(m)
    }
}

/// The connection after the stream failed under the decoder: both sides are
/// closed and the failure is kept for the final report.
pub open spec fn client_disconnected<R>(m: DispatcherView<R>, kind: IoErrorKind) -> DispatcherView<
    R,
> {
    DispatcherView {
        flags: Flags { read_disconnect: true, write_disconnect: true, ..m.flags },
        error: Some(DispatchError::Io(kind)),
        ..m
    }
}

/// The decoding loop, once the decoder has answered.
///
/// A request head marks the connection as started. It goes to the upgrade
/// queue if it is a stream and an upgrade handler is there; else it gets a
/// body if one follows it; then it is taken up at once if the connection is
/// busy with nothing, and queued otherwise. Body data goes to the open
/// request body. A malformed message closes the read side and queues the 400
/// response. After an upgrade request, or any failure, the round is over.
#[verifier::opaque]
pub open spec fn request_decoded<R, C>(m: DispatcherView<R>, decoded: Decoded<R, C>) -> (
    DispatcherView<R>,
    Action<R, C, Seq<u8>>,
) {
    match decoded {
        Decoded::Incomplete => request_done(m),
        Decoded::Failed(error) => match error {
            ParseError::Io(kind) => abort_payload(
                client_disconnected(m, kind),
                PayloadError::Incomplete,
            ),
            _ => abort_payload(
                enqueue(
                    DispatcherView {
                        flags: Flags { read_disconnect: true, ..m.flags },
                        error: Some(DispatchError::Parse(error)),
                        ..m
                    },
                    DispatcherMessage::Error(ErrorResponse::BadRequest),
                ),
                PayloadError::EncodingCorrupted,
            ),
        },
        Decoded::Request { request, expect, message_type } => {
            let m1 = started(m);
            if message_type == MessageType::Stream && m.upgrade_enabled {
                request_done(enqueue(m1, DispatcherMessage::Upgrade(request)))
            } else if message_type != MessageType::Bodyless {
                (
                    DispatcherView { awaiting: Awaiting::RequestOpenPayload { expect }, ..m1 },
                    Action::OpenPayload(request),
                )
            } else {
                accept_request(m1, request, expect)
            }
        },
        Decoded::Chunk(chunk) => {
            let m1 = started(m);
            if m.payload {
                (DispatcherView { awaiting: Awaiting::RequestFeed, ..m1 }, Action::FeedData(chunk))
            } else {
                orphaned(m1)
            }
        },
        Decoded::Eof => {
            let m1 = started(m);
            if m.payload {
                (
                    DispatcherView { payload: false, awaiting: Awaiting::RequestFeed, ..m1 },
                    Action::FeedEof,
                )
            } else {
                orphaned(m1)
            }
        },
    }
}

/// A request is ready for the handler: it is taken up at once if the
/// connection is busy with nothing, and queued otherwise.
#[verifier::opaque]
pub open spec fn accept_request<R, C>(m: DispatcherView<R>, request: R, expect: bool) -> (
    DispatcherView<R>,
    Action<R, C, Seq<u8>>,
) {
    if m.state.is_empty() {
        handle_request(m, request, expect)
    } else {
        request_loop(enqueue(m, DispatcherMessage::Item { request, expect }))
    }
}

/// A request is taken up: it goes to the interceptor if it expects
/// `100 Continue`, and to the handler otherwise.
#[verifier::opaque]
pub open spec fn call<R, C>(
    m: DispatcherView<R>,
    request: R,
    expect: bool,
    on_expect: Awaiting,
    on_service: Awaiting,
) -> (DispatcherView<R>, Action<R, C, Seq<u8>>) {
    let m1 = DispatcherView {
        served: m.served.push(DispatcherMessage::Item { request, expect }),
        ..m
    };
    if expect {
        (
            DispatcherView { state: State::ExpectCall, awaiting: on_expect, ..m1 },
            Action::CallExpect(request),
        )
    } else {
        (
            DispatcherView { state: State::ServiceCall, awaiting: on_service, ..m1 },
            Action::CallService(request),
        )
    }
}

/// A request is taken up as soon as it is decoded.
#[verifier::opaque]
pub open spec fn handle_request<R, C>(m: DispatcherView<R>, request: R, expect: bool) -> (
    DispatcherView<R>,
    Action<R, C, Seq<u8>>,
) {
    call(
        DispatcherView {
            accepted: m.accepted.push(DispatcherMessage::Item { request, expect }),
            ..m
        },
        request,
        expect,
        Awaiting::HandleExpect,
        Awaiting::HandleService,
    )
}

/// The interceptor lets the request go on: the interim response is written
/// and the request goes to the handler.
#[verifier::opaque]
pub open spec fn continued<R, C>(m: DispatcherView<R>, request: R, on_service: Awaiting) -> (
    DispatcherView<R>,
    Action<R, C, Seq<u8>>,
) {
    (
        DispatcherView {
            write_buf: m.write_buf + continue_line(),
            state: State::ServiceCall,
            awaiting: on_service,
            ..m
        },
        Action::CallService(request),
    )
}

/// The interceptor has answered about a request that was taken up at once.
#[verifier::opaque]
pub open spec fn handle_expect<R, C>(m: DispatcherView<R>, outcome: ExpectOutcome<R>) -> (
    DispatcherView<R>,
    Action<R, C, Seq<u8>>,
) {
    match outcome {
        ExpectOutcome::Continue(request) => continued(m, request, Awaiting::HandleService),
        ExpectOutcome::Pending => request_loop(m),
        ExpectOutcome::Rejected => (
            DispatcherView { awaiting: Awaiting::HandleEncode, ..m },
            Action::Encode(Reply::Handler),
        ),
    }
}

/// The handler has answered about a request that was taken up at once.
#[verifier::opaque]
pub open spec fn handle_service<R, C>(m: DispatcherView<R>, outcome: ServiceOutcome) -> (
    DispatcherView<R>,
    Action<R, C, Seq<u8>>,
) {
    match outcome {
        ServiceOutcome::Ready => (
            DispatcherView { awaiting: Awaiting::HandleEncode, ..m },
            Action::Encode(Reply::Handler),
        ),
        ServiceOutcome::Pending => request_loop(m),
    }
}

/// The response head of a request that was taken up at once is encoded, or
/// is not.
#[verifier::opaque]
pub open spec fn handle_encoded<R, C>(m: DispatcherView<R>, outcome: EncodeOutcome) -> (
    DispatcherView<R>,
    Action<R, C, Seq<u8>>,
) {
    match send_response(m, outcome) {
        Ok(sent) => request_loop(sent),
        Err(kind) => fail(m, DispatchError::Io(kind)),
    }
}

/// The end of a round of decoding. If it produced a message while a timer
/// is armed, the connection is kept for the keep-alive limit from now on.
#[verifier::opaque]
pub open spec fn request_done<R, C>(m: DispatcherView<R>) -> (
    DispatcherView<R>,
    Action<R, C, Seq<u8>>,
) {
    let m1 = refresh(m);
    if m.nested {
        if m.updated {
            poll_response(m1)
        } else {
            flush_then_decide(m1)
        }
    } else {
        after_request(m1)
    }
}

/// The connection with its keep-alive deadline moved on, if the round of
/// decoding has produced a message, a timer is armed and keep-alive has a
/// limit.
pub open spec fn refresh<R>(m: DispatcherView<R>) -> DispatcherView<R> {
    match (m.updated, m.ka_timer, m.config.keep_alive_expire(m.now)) {
        (true, Some(timer), Some(expire)) => DispatcherView {
            ka_expire: expire,
            ka_timer: Some(
                KeepAliveTimer {
                    purpose: if timer.purpose == TimerPurpose::ShutdownTimeout {
                        TimerPurpose::ShutdownTimeout
                    } else {
                        TimerPurpose::IdleTimeout
                    },
                    ..timer
                },
            ),
            ..m
        },
        _ => m,
    }
}

/// After the round of decoding that follows reading: if the peer is gone,
/// the read side is closed and an open request body is told that it is
/// complete. Then the responses go on.
#[verifier::opaque]
pub open spec fn after_request<R, C>(m: DispatcherView<R>) -> (
    DispatcherView<R>,
    Action<R, C, Seq<u8>>,
) {
    if m.should_disconnect {
        let closed = DispatcherView { flags: Flags { read_disconnect: true, ..m.flags }, ..m };
        if m.payload {
            (
                DispatcherView { payload: false, awaiting: Awaiting::DisconnectEof, ..closed },
                Action::FeedEof,
            )
        } else {
            poll_response(closed)
        }
    } else {
        poll_response(m)
    }
}

/// The responding stage. A connection that is busy with nothing takes up
/// the oldest message that waits, and goes on to flush if none does; one
/// that waits for the interceptor or the handler asks again; one that
/// streams a body goes on with that.
#[verifier::opaque]
pub open spec fn poll_response<R, C>(m: DispatcherView<R>) -> (
    DispatcherView<R>,
    Action<R, C, Seq<u8>>,
) {
    match m.state {
        State::Idle => if m.messages.len() == 0 {
            flush_then_decide(m)
        } else {
            take_up(
                DispatcherView { messages: m.messages.subrange(1, m.messages.len() as int), ..m },
                m.messages[0],
            )
        },
        State::ExpectCall => (
            DispatcherView { awaiting: Awaiting::ResponseExpect, ..m },
            Action::PollExpect,
        ),
        State::ServiceCall => (
            DispatcherView { awaiting: Awaiting::ResponseService, ..m },
            Action::PollService,
        ),
        State::SendPayload => stream_body(m),
    }
}

/// A message that waited is taken up: a request goes to the interceptor or
/// the handler, a response of the dispatcher's own is encoded, and an
/// upgrade request is handed over with the connection.
#[verifier::opaque]
pub open spec fn take_up<R, C>(m: DispatcherView<R>, message: DispatcherMessage<R>) -> (
    DispatcherView<R>,
    Action<R, C, Seq<u8>>,
) {
    match message {
        DispatcherMessage::Item { request, expect } => call(
            m,
            request,
            expect,
            Awaiting::ResponseExpect,
            Awaiting::ResponseService,
        ),
        DispatcherMessage::Error(response) => (
            DispatcherView {
                served: m.served.push(message),
                awaiting: Awaiting::ResponseEncode,
                ..m
            },
            Action::Encode(Reply::Error(response)),
        ),
        DispatcherMessage::Upgrade(request) => upgrade(
            DispatcherView { served: m.served.push(message), ..m },
            request,
        ),
    }
}

/// The connection is handed over: the upgrade handler gets the request and
/// both buffers as they are, and the connection keeps none of their bytes.
#[verifier::opaque]
pub open spec fn upgrade<R, C>(m: DispatcherView<R>, request: R) -> (
    DispatcherView<R>,
    Action<R, C, Seq<u8>>,
) {
    (
        DispatcherView {
            flags: Flags { upgrade: true, ..m.flags },
            read_buf: Seq::empty(),
            write_buf: Seq::empty(),
            awaiting: Awaiting::Upgrading,
            ..m
        },
        Action::Upgrade(UpgradeParts { request, read_buf: m.read_buf, write_buf: m.write_buf }),
    )
}

/// A body is streamed: its source is asked for the next piece as long as
/// the write buffer holds less than `HW_BUFFER_SIZE`; once it holds that
/// much it is flushed first.
#[verifier::opaque]
pub open spec fn stream_body<R, C>(m: DispatcherView<R>) -> (
    DispatcherView<R>,
    Action<R, C, Seq<u8>>,
) {
    if m.write_buf.len() < HW_BUFFER_SIZE {
        (DispatcherView { awaiting: Awaiting::ResponseBody, ..m }, Action::PollBody)
    } else {
        (
            DispatcherView { awaiting: Awaiting::ResponseFlush, drain: true, written: 0, ..m },
            Action::Write(0),
        )
    }
}

/// Nothing more can be produced now: what is in the write buffer is
/// flushed, and then the wake is brought to its end.
#[verifier::opaque]
pub open spec fn flush_then_decide<R, C>(m: DispatcherView<R>) -> (
    DispatcherView<R>,
    Action<R, C, Seq<u8>>,
) {
    if m.write_buf.len() == 0 {
        decide(m)
    } else {
        (
            DispatcherView { awaiting: Awaiting::ResponseFlush, drain: false, written: 0, ..m },
            Action::Write(0),
        )
    }
}

/// The interceptor has answered.
#[verifier::opaque]
pub open spec fn response_expect<R, C>(m: DispatcherView<R>, outcome: ExpectOutcome<R>) -> (
    DispatcherView<R>,
    Action<R, C, Seq<u8>>,
) {
    match outcome {
        ExpectOutcome::Continue(request) => continued(m, request, Awaiting::ResponseService),
        ExpectOutcome::Pending => flush_then_decide(m),
        ExpectOutcome::Rejected => (
            DispatcherView { awaiting: Awaiting::ResponseEncode, ..m },
            Action::Encode(Reply::Handler),
        ),
    }
}

/// The handler has answered. While it is pending, the connection decodes
/// what has arrived in the meantime.
#[verifier::opaque]
pub open spec fn response_service<R, C>(m: DispatcherView<R>, outcome: ServiceOutcome) -> (
    DispatcherView<R>,
    Action<R, C, Seq<u8>>,
) {
    match outcome {
        ServiceOutcome::Ready => (
            DispatcherView { awaiting: Awaiting::ResponseEncode, ..m },
            Action::Encode(Reply::Handler),
        ),
        ServiceOutcome::Pending => poll_request(m, true),
    }
}

/// A response head is encoded, or is not.
#[verifier::opaque]
pub open spec fn response_encoded<R, C>(m: DispatcherView<R>, outcome: EncodeOutcome) -> (
    DispatcherView<R>,
    Action<R, C, Seq<u8>>,
) {
    match send_response(m, outcome) {
        Ok(sent) => poll_response(sent),
        Err(kind) => fail(m, DispatchError::Io(kind)),
    }
}

/// The source of the response body has answered. A failure of the source
/// ends the connection.
#[verifier::opaque]
pub open spec fn response_body<R, C>(m: DispatcherView<R>, outcome: BodyOutcome<C>) -> (
    DispatcherView<R>,
    Action<R, C, Seq<u8>>,
) {
    match outcome {
        BodyOutcome::Chunk(chunk) => (
            DispatcherView { awaiting: Awaiting::ResponseChunk { last: false }, ..m },
            Action::EncodeChunk(Some(chunk)),
        ),
        BodyOutcome::End => (
            DispatcherView { awaiting: Awaiting::ResponseChunk { last: true }, ..m },
            Action::EncodeChunk(None),
        ),
        BodyOutcome::Failed => finish(m, Err(DispatchError::Service)),
        BodyOutcome::Pending => flush_then_decide(m),
    }
}

/// A frame of the response body is encoded, or is not. After the closing
/// frame the connection is busy with nothing.
#[verifier::opaque]
pub open spec fn response_chunk<R, C>(m: DispatcherView<R>, last: bool, outcome: ChunkOutcome) -> (
    DispatcherView<R>,
    Action<R, C, Seq<u8>>,
) {
    match outcome {
        ChunkOutcome::Failed(kind) => finish(m, Err(DispatchError::Io(kind))),
        ChunkOutcome::Encoded => if last {
            poll_response(DispatcherView { state: State::Idle, ..m })
        } else {
            stream_body(m)
        },
    }
}

/// A step of the flush that belongs to the responses. When a flush of a
/// full buffer is over and the stream would take more, the responses go on;
/// in every other case the wake is brought to its end.
#[verifier::opaque]
pub open spec fn response_flushed<R, C>(m: DispatcherView<R>, outcome: WriteOutcome) -> (
    DispatcherView<R>,
    Action<R, C, Seq<u8>>,
) {
    match poll_flush(m, outcome) {
        Flushed::Again(m1) => (m1, Action::Write(m1.written)),
        Flushed::Over(m1, would_block) => if would_block || !m.drain {
            decide(m1)
        } else {
            poll_response(m1)
        },
        Flushed::Failed(kind) => finish(m, Err(DispatchError::Io(kind))),
    }
}

/// How a wake ends.
///
/// With the write side closed the connection ends in success. While
/// something is in progress or waits to be written, the connection waits for
/// the next wake, and keeps a failure that is still to be reported. Once it
/// is idle, a failure that was kept is reported as the result. If none was
/// kept, a connection whose read side is closed, or that has seen a message
/// and is not kept alive, or that shuts down already, shuts down: it goes
/// through the timer stage and the shutdown at once. In every other case the
/// connection waits for the next wake.
#[verifier::opaque]
pub open spec fn decide<R, C>(m: DispatcherView<R>) -> (DispatcherView<R>, Action<R, C, Seq<u8>>) {
    if m.flags.write_disconnect {
        finish(m, Ok(()))
    } else if idle(m) {
        match m.error {
            Some(error) => finish(DispatcherView { error: None, ..m }, Err(error)),
            None => if stops(m) {
                then_shutdown(
                    poll_keepalive(
                        DispatcherView { flags: Flags { shutdown: true, ..m.flags }, ..m },
                    ),
                )
            } else {
                suspend(m)
            },
        }
    } else {
        suspend(m)
    }
}

/// Whether an idle connection is to shut down: its read side is closed, or
/// it has seen a message and is not kept alive, or it shuts down already.
pub open spec fn stops<R>(m: DispatcherView<R>) -> bool {
    m.flags.read_disconnect || (m.flags.started && !m.flags.keepalive) || m.flags.shutdown
}

/// The upgrade handler has answered: its result is the connection's.
#[verifier::opaque]
pub open spec fn upgraded<R, C>(m: DispatcherView<R>, outcome: UpgradeOutcome) -> (
    DispatcherView<R>,
    Action<R, C, Seq<u8>>,
) {
    match outcome {
        UpgradeOutcome::Pending => suspend(m),
        UpgradeOutcome::Done => finish(m, Ok(())),
        UpgradeOutcome::Failed => finish(m, Err(DispatchError::Upgrade)),
    }
}

/// A wake at the time `now`. A connection that was handed over asks the
/// upgrade handler and does nothing else; any other begins with the timer
/// stage.
#[verifier::opaque]
pub open spec fn poll<R, C>(m: DispatcherView<R>, now: u64) -> (
    DispatcherView<R>,
    Action<R, C, Seq<u8>>,
) {
    let m1 = DispatcherView { now, ..m };
    if m.flags.upgrade {
        (DispatcherView { awaiting: Awaiting::Upgrading, ..m1 }, Action::PollUpgrade)
    } else {
        then_after_keepalive(poll_keepalive(m1))
    }
}

/// Whether `event` answers what the connection is waiting for. A write
/// cannot have taken more than was offered, and the interim response must
/// fit into the write buffer.
pub open spec fn accepts<R, C>(m: DispatcherView<R>, event: Event<R, C>) -> bool {
    match (m.awaiting, event) {
        (Awaiting::KeepAliveArm, Event::Done) => true,
        (Awaiting::KeepAliveAbort, Event::Done) => true,
        (Awaiting::KeepAliveRearm, Event::Done) => true,
        (Awaiting::RequestFeed, Event::Done) => true,
        (Awaiting::RequestAbort, Event::Done) => true,
        (Awaiting::DisconnectEof, Event::Done) => true,
        (Awaiting::Failing(_), Event::Done) => true,
        (Awaiting::KeepAliveTimer, Event::Timer(_)) => true,
        (Awaiting::KeepAliveTimeout, Event::Encoded(_)) => true,
        (Awaiting::HandleEncode, Event::Encoded(_)) => true,
        (Awaiting::ResponseEncode, Event::Encoded(_)) => true,
        (Awaiting::ShutdownFlush, Event::Written(outcome)) => write_fits(m, outcome),
        (Awaiting::ResponseFlush, Event::Written(outcome)) => write_fits(m, outcome),
        (Awaiting::ShutdownClose, Event::Closed(_)) => true,
        (Awaiting::Reading, Event::Read(_)) => true,
        (Awaiting::RequestNeedRead, Event::Payload(_)) => true,
        (Awaiting::RequestDecode, Event::Decoded(_)) => true,
        (Awaiting::RequestOpenPayload { .. }, Event::Request(_)) => true,
        (Awaiting::HandleExpect, Event::Expect(outcome)) => continue_fits(m, outcome),
        (Awaiting::ResponseExpect, Event::Expect(outcome)) => continue_fits(m, outcome),
        (Awaiting::HandleService, Event::Service(_)) => true,
        (Awaiting::ResponseService, Event::Service(_)) => true,
        (Awaiting::ResponseBody, Event::Body(_)) => true,
        (Awaiting::ResponseChunk { .. }, Event::Chunk(_)) => true,
        (Awaiting::Upgrading, Event::Upgrade(_)) => true,
        _ => false,
    }
}

/// Whether the write buffer holds what a write claims to have taken.
pub open spec fn write_fits<R>(m: DispatcherView<R>, outcome: WriteOutcome) -> bool {
    match outcome {
        WriteOutcome::Ready(n) => m.written + n <= m.write_buf.len(),
        WriteOutcome::Pending => m.written <= m.write_buf.len(),
        WriteOutcome::Failed(_) => true,
    }
}

/// Whether the interim response, if it is due, fits into the write buffer.
pub open spec fn continue_fits<R>(m: DispatcherView<R>, outcome: ExpectOutcome<R>) -> bool {
    outcome is Continue ==> m.write_buf.len() + continue_line().len() <= isize::MAX
}

/// The driver's answer `event` to the last action.
pub open spec fn resume<R, C>(m: DispatcherView<R>, event: Event<R, C>) -> (
    DispatcherView<R>,
    Action<R, C, Seq<u8>>,
) {
    match (m.awaiting, event) {
        (Awaiting::KeepAliveArm, Event::Done) => (
            DispatcherView { awaiting: Awaiting::KeepAliveTimer, ..m },
            Action::PollTimer,
        ),
        (Awaiting::KeepAliveAbort, Event::Done) => after_keepalive(m),
        (Awaiting::KeepAliveRearm, Event::Done) => after_keepalive(m),
        (Awaiting::KeepAliveTimer, Event::Timer(fired)) => then_after_keepalive(
            keepalive_fired(m, fired),
        ),
        (Awaiting::KeepAliveTimeout, Event::Encoded(outcome)) => then_after_keepalive(
            poll_keepalive(keepalive_timeout_sent(m, outcome)),
        ),
        (Awaiting::ShutdownFlush, Event::Written(outcome)) => shutdown_flushed(m, outcome),
        (Awaiting::ShutdownClose, Event::Closed(outcome)) => shutdown_closed(m, outcome),
        (Awaiting::Reading, Event::Read(outcome)) => read_done(m, outcome),
        (Awaiting::RequestNeedRead, Event::Payload(status)) => request_wanted(m, status),
        (Awaiting::RequestDecode, Event::Decoded(decoded)) => request_decoded(m, decoded),
        (Awaiting::RequestOpenPayload { expect }, Event::Request(request)) => accept_request(
            DispatcherView { payload: true, ..m },
            request,
            expect,
        ),
        (Awaiting::RequestFeed, Event::Done) => request_loop(m),
        (Awaiting::RequestAbort, Event::Done) => request_done(m),
        (Awaiting::HandleExpect, Event::Expect(outcome)) => handle_expect(m, outcome),
        (Awaiting::HandleService, Event::Service(outcome)) => handle_service(m, outcome),
        (Awaiting::HandleEncode, Event::Encoded(outcome)) => handle_encoded(m, outcome),
        (Awaiting::DisconnectEof, Event::Done) => poll_response(m),
        (Awaiting::ResponseExpect, Event::Expect(outcome)) => response_expect(m, outcome),
        (Awaiting::ResponseService, Event::Service(outcome)) => response_service(m, outcome),
        (Awaiting::ResponseEncode, Event::Encoded(outcome)) => response_encoded(m, outcome),
        (Awaiting::ResponseBody, Event::Body(outcome)) => response_body(m, outcome),
        (Awaiting::ResponseChunk { last }, Event::Chunk(outcome)) => response_chunk(
            m,
            last,
            outcome,
        ),
        (Awaiting::ResponseFlush, Event::Written(outcome)) => response_flushed(m, outcome),
        (Awaiting::Failing(error), Event::Done) => finish(m, Err(error)),
        (Awaiting::Upgrading, Event::Upgrade(outcome)) => upgraded(m, outcome),
        _ => (m, Action::Suspend),
    }
}

} // verus!
