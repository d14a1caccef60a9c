//! The dispatcher of one HTTP/1.x connection.
//!
//! [`Dispatcher`] owns the state of a connection and both of its buffers. Its
//! driver owns the stream, the codec, the handler and the timer, and runs the
//! loop: it calls [`Dispatcher::poll`] when the connection is woken, does
//! what the returned [`Action`] says, hands the outcome to
//! [`Dispatcher::resume`], and so on until the action is `Suspend` or
//! `Finish`. Every function here is proved to make the move that
//! [`crate::h1::model`] defines.

use crate::error::{DispatchError, IoErrorKind, ParseError, PayloadError};
use crate::h1::buffer;
use crate::h1::buffer::buffer_bytes;
use crate::h1::config::ServiceConfig;
use crate::h1::flags::Flags;
use crate::h1::io::{
    Action, BodyOutcome, ChunkOutcome, CloseOutcome, Decoded, EncodeOutcome, Event,
    ExpectOutcome, ReadOutcome, Reply, ServiceOutcome, UpgradeOutcome, UpgradeParts,
    WriteOutcome,
};
use crate::h1::laws;
use crate::h1::message::{
    continue_line, DispatcherMessage, ErrorResponse, KeepAliveTimer, MessageType, PayloadStatus,
    State, TimerPurpose, HW_BUFFER_SIZE, LW_BUFFER_SIZE, MAX_BUFFER_SIZE,
    MAX_PIPELINED_MESSAGES,
};
use crate::h1::model;
use crate::h1::model::{Awaiting, DispatcherView, Flushed, Next};
use bytes::BytesMut;
use std::collections::VecDeque;
use vstd::prelude::*;

verus! {

/// The dispatcher of one connection. `R` is the type of a request.
pub struct Dispatcher<R> {
    config: ServiceConfig,
    upgrade_enabled: bool,
    flags: Flags,
    state: State,
    payload: bool,
    messages: VecDeque<DispatcherMessage<R>>,
    error: Option<DispatchError>,
    ka_expire: u64,
    ka_timer: Option<KeepAliveTimer>,
    read_buf: BytesMut,
    write_buf: BytesMut,
    now: u64,
    awaiting: Awaiting,
    nested: bool,
    updated: bool,
    should_disconnect: bool,
    read_some: bool,
    written: usize,
    drain: bool,
    accepted: Ghost<Seq<DispatcherMessage<R>>>,
    served: Ghost<Seq<DispatcherMessage<R>>>,
}

impl<R> View for Dispatcher<R> {
    type V = DispatcherView<R>;

    closed spec fn view(&self) -> DispatcherView<R> {
        DispatcherView {
            config: self.config,
            upgrade_enabled: self.upgrade_enabled,
            flags: self.flags,
            state: self.state,
            payload: self.payload,
            messages: self.messages@,
            error: self.error,
            ka_expire: self.ka_expire,
            ka_timer: self.ka_timer,
            read_buf: buffer_bytes(self.read_buf),
            write_buf: buffer_bytes(self.write_buf),
            now: self.now,
            awaiting: self.awaiting,
            nested: self.nested,
            updated: self.updated,
            should_disconnect: self.should_disconnect,
            read_some: self.read_some,
            written: self.written,
            drain: self.drain,
            accepted: self.accepted@,
            served: self.served@,
        }
    }
}

/// Whether the dispatcher `d` and the action `action` are what the move
/// `step` of the abstract machine yields.
pub open spec fn refines<R, C>(
    d: Dispatcher<R>,
    action: Action<R, C, BytesMut>,
    step: (DispatcherView<R>, Action<R, C, Seq<u8>>),
) -> bool {
    d@ == step.0 && action@ == step.1
}

/// Whether the dispatcher `d` and what it has emitted, if anything, are
/// what the stage `next` of the abstract machine yields.
pub open spec fn refines_stage<R, C>(
    d: Dispatcher<R>,
    emitted: Option<Action<R, C, BytesMut>>,
    next: Next<R, C>,
) -> bool {
    match next {
        Next::Emit(m, action) => d@ == m && (emitted matches Some(e) && e@ == action),
        Next::Continue(m) => d@ == m && emitted is None,
    }
}

/// How much room is to be made in a buffer that holds `held` bytes and has
/// room for `capacity`: none while at least `LW_BUFFER_SIZE` bytes are free,
/// and else what `HW_BUFFER_SIZE` is more than the free room. None is made
/// either where the buffer would grow beyond what can be allocated.
pub open spec fn spec_room_to_make(held: usize, capacity: usize) -> usize {
    let remaining = if capacity >= held {
        capacity - held
    } else {
        0
    };
    if remaining < LW_BUFFER_SIZE && held + (HW_BUFFER_SIZE - remaining) <= isize::MAX {
        (HW_BUFFER_SIZE - remaining) as usize
    } else {
        0
    }
}

/// How much room is to be made in a buffer that holds `held` bytes and has
/// room for `capacity`.
pub fn room_to_make(held: usize, capacity: usize) -> (additional: usize)
    ensures
        additional == spec_room_to_make(held, capacity),
{
    let remaining = if capacity >= held {
        capacity - held
    } else {
        0
    };
    if remaining < LW_BUFFER_SIZE {
        let additional = HW_BUFFER_SIZE - remaining;
        let limit: usize = isize::MAX as usize;
        if held <= limit - additional {
            additional
        } else {
            0
        }
    } else {
        0
    }
}

/// Grows a buffer whose free room has dropped below `LW_BUFFER_SIZE`, by so
/// much that `HW_BUFFER_SIZE` is free again (see [`room_to_make`]). The bytes
/// stay as they are.
fn grow(buf: &mut BytesMut)
    ensures
        buffer_bytes(*final(buf)) == buffer_bytes(*old(buf)),
{
    let additional = room_to_make(buffer::len(buf), buffer::capacity(buf));
    if additional > 0 {
        buffer::reserve(buf, additional);
    }
}

impl<R> Dispatcher<R> {
    /// The invariant of a connection: see [`laws::inv`].
    pub open spec fn wf(&self) -> bool {
        laws::inv(self@)
    }

    /// A dispatcher for a connection opened at `now`, with a read buffer of
    /// its own and no timeout but the configured ones.
    pub fn new(config: ServiceConfig, now: u64, upgrade_enabled: bool) -> (d: Self)
        ensures
            d@ == model::init::<R>(config, Seq::empty(), None, now, upgrade_enabled),
            d.wf(),
    {
        Dispatcher::with_timeout(
            config,
            buffer::with_capacity(HW_BUFFER_SIZE),
            None,
            now,
            upgrade_enabled,
        )
    }

    /// A dispatcher for a connection opened at `now`, of which `read_buf`
    /// has been read already, and whose first timer is armed for `timeout`
    /// if that is given.
    pub fn with_timeout(
        config: ServiceConfig,
        read_buf: BytesMut,
        timeout: Option<u64>,
        now: u64,
        upgrade_enabled: bool,
    ) -> (d: Self)
        ensures
            d@ == model::init::<R>(config, buffer_bytes(read_buf), timeout, now, upgrade_enabled),
            d.wf(),
    {
        let keepalive = config.keep_alive_enabled();
        let ka_timer = if !keepalive {
            None
        } else {
            match timeout {
                Some(deadline) => Some(
                    KeepAliveTimer { deadline, purpose: TimerPurpose::IdleTimeout },
                ),
                None => match config.keep_alive_expire(now) {
                    Some(deadline) => Some(
                        KeepAliveTimer { deadline, purpose: TimerPurpose::RequestTimeout },
                    ),
                    None => None,
                },
            }
        };
        let ka_expire = match ka_timer {
            Some(timer) => timer.deadline,
            None => now,
        };
        let mut flags = Flags::empty();
        flags.keepalive = keepalive;
        let d = Dispatcher {
            config,
            upgrade_enabled,
            flags,
            state: State::Idle,
            payload: false,
            messages: VecDeque::new(),
            error: None,
            ka_expire,
            ka_timer,
            read_buf,
            write_buf: buffer::with_capacity(HW_BUFFER_SIZE),
            now,
            awaiting: Awaiting::Wake,
            nested: false,
            updated: false,
            should_disconnect: false,
            read_some: false,
            written: 0,
            drain: false,
            accepted: Ghost(Seq::empty()),
            served: Ghost(Seq::empty()),
        };
        proof {
            laws::lemma_init_inv::<R>(config, buffer_bytes(read_buf), timeout, now, upgrade_enabled);
        }
        d
    }

    fn suspend<C>(&mut self) -> (action: Action<R, C, BytesMut>)
        ensures
            refines(*final(self), action, model::suspend(old(self)@)),
    {
        proof {
            reveal(model::suspend);
        }
        self.awaiting = Awaiting::Wake;
        Action::Suspend
    }

    fn finish<C>(&mut self, result: Result<(), DispatchError>) -> (action: Action<R, C, BytesMut>)
        ensures
            refines(*final(self), action, model::finish(old(self)@, result)),
    {
        proof {
            reveal(model::finish);
        }
        self.awaiting = Awaiting::Finished;
        Action::Finish(result)
    }

    fn fail<C>(&mut self, error: DispatchError) -> (action: Action<R, C, BytesMut>)
        ensures
            refines(*final(self), action, model::fail(old(self)@, error)),
    {
        proof {
            reveal(model::fail);
        }
        if self.payload {
            self.payload = false;
            self.awaiting = Awaiting::Failing(error);
            Action::PayloadError(PayloadError::Incomplete)
        } else {
            self.finish(Err(error))
        }
    }

    fn arm<C>(&mut self, deadline: u64, purpose: TimerPurpose, awaiting: Awaiting) -> (emitted:
        Option<Action<R, C, BytesMut>>)
        ensures
            refines_stage(
                *final(self),
                emitted,
                model::arm(old(self)@, deadline, purpose, awaiting),
            ),
    {
        proof {
            reveal(model::arm);
        }
        self.ka_timer = Some(KeepAliveTimer { deadline, purpose });
        self.awaiting = awaiting;
        Some(Action::ResetTimer(deadline))
    }

    /// Counts the write side as closed, for a connection that shuts down
    /// without a grace period and has nothing left to write.
    fn closing(&mut self)
        ensures
            final(self)@ == model::closing(old(self)@),
    {
        self.flags.write_disconnect = true;
    }

    /// Whether the timer is armed for the grace period of the shutdown.
    fn in_grace(&self) -> (armed: bool)
        ensures
            armed == model::in_grace(self@),
    {
        match self.ka_timer {
            Some(timer) => timer.purpose == TimerPurpose::ShutdownTimeout,
            None => false,
        }
    }

    /// What the timer makes of a connection that shuts down.
    fn enter_shutdown<C>(&mut self) -> (emitted: Option<Action<R, C, BytesMut>>)
        ensures
            refines_stage(*final(self), emitted, model::enter_shutdown(old(self)@)),
    {
        proof {
            reveal(model::enter_shutdown);
        }
        match self.config.client_disconnect_timer(self.now) {
            Some(deadline) => self.arm(
                deadline,
                TimerPurpose::ShutdownTimeout,
                Awaiting::KeepAliveArm,
            ),
            None => {
                if self.payload {
                    self.payload = false;
                    self.awaiting = Awaiting::KeepAliveAbort;
                    Some(Action::PayloadError(PayloadError::Incomplete))
                } else {
                    None
                }
            },
        }
    }

    /// The timer stage, up to its first question to the driver.
    fn poll_keepalive<C>(&mut self) -> (emitted: Option<Action<R, C, BytesMut>>)
        ensures
            refines_stage(*final(self), emitted, model::poll_keepalive(old(self)@)),
    {
        proof {
            reveal(model::poll_keepalive);
        }
        if self.flags.shutdown && !self.in_grace() {
            self.enter_shutdown()
        } else {
            match self.ka_timer {
                None => None,
                Some(_) => {
                    self.awaiting = Awaiting::KeepAliveTimer;
                    Some(Action::PollTimer)
                },
            }
        }
    }

    /// Whether nothing is in progress and nothing waits to be written.
    fn idle(&self) -> (idle: bool)
        ensures
            idle == model::idle(self@),
    {
        self.state.is_empty() && buffer::len(&self.write_buf) == 0
    }

    /// Whether the connection has nothing left to do.
    fn quiet(&self) -> (quiet: bool)
        ensures
            quiet == model::quiet(self@),
    {
        self.idle() && self.error.is_none()
    }

    /// The timer stage, once the driver has told whether the timer fired.
    fn keepalive_fired<C>(&mut self, fired: bool) -> (emitted: Option<Action<R, C, BytesMut>>)
        ensures
            refines_stage(*final(self), emitted, model::keepalive_fired(old(self)@, fired)),
    {
        proof {
            reveal(model::keepalive_fired);
        }
        match self.ka_timer {
            None => None,
            Some(timer) => {
                if !fired {
                    None
                } else if self.flags.shutdown {
                    Some(self.finish(Err(DispatchError::DisconnectTimeout)))
                } else if timer.deadline >= self.ka_expire {
                    if self.quiet() {
                        if self.flags.started {
                            self.flags.shutdown = true;
                            self.enter_shutdown()
                        } else {
                            self.awaiting = Awaiting::KeepAliveTimeout;
                            Some(Action::Encode(Reply::Error(ErrorResponse::RequestTimeout)))
                        }
                    } else {
                        match self.config.keep_alive_expire(self.now) {
                            Some(deadline) => self.arm(
                                deadline,
                                TimerPurpose::IdleTimeout,
                                Awaiting::KeepAliveRearm,
                            ),
                            None => None,
                        }
                    }
                } else {
                    let deadline = self.ka_expire;
                    self.arm(deadline, TimerPurpose::IdleTimeout, Awaiting::KeepAliveRearm)
                }
            },
        }
    }

    /// What a response head does to the connection once it is encoded.
    fn send_response(&mut self, outcome: EncodeOutcome) -> (sent: Result<(), IoErrorKind>)
        ensures
            match model::send_response(old(self)@, outcome) {
                Ok(m) => sent is Ok && final(self)@ == m,
                Err(kind) => sent == Err::<(), IoErrorKind>(kind) && final(self)@ == old(self)@,
            },
    {
        match outcome {
            EncodeOutcome::Encoded { keepalive, body } => {
                self.flags.keepalive = keepalive;
                self.state = if body.is_eof() {
                    State::Idle
                } else {
                    State::SendPayload
                };
                Ok(())
            },
            EncodeOutcome::Failed(kind) => Err(kind),
        }
    }

    /// The connection after the head of the 408 response was encoded, or
    /// was not.
    fn keepalive_timeout_sent(&mut self, outcome: EncodeOutcome)
        ensures
            final(self)@ == model::keepalive_timeout_sent(old(self)@, outcome),
    {
        match self.send_response(outcome) {
            Ok(()) => {},
            Err(_) => {
                self.payload = false;
            },
        }
        self.flags.started = true;
        self.flags.shutdown = true;
        self.state = State::Idle;
    }

    fn shutdown_close<C>(&mut self) -> (action: Action<R, C, BytesMut>)
        ensures
            refines(*final(self), action, model::shutdown_close(old(self)@)),
    {
        proof {
            reveal(model::shutdown_close);
        }
        self.awaiting = Awaiting::ShutdownClose;
        Action::Shutdown
    }

    /// The shutdown.
    fn shutdown_pass<C>(&mut self) -> (action: Action<R, C, BytesMut>)
        ensures
            refines(*final(self), action, model::shutdown_pass(old(self)@)),
    {
        proof {
            reveal(model::shutdown_pass);
        }
        if self.flags.write_disconnect {
            self.finish(Ok(()))
        } else if buffer::len(&self.write_buf) == 0 {
            self.shutdown_end()
        } else {
            self.awaiting = Awaiting::ShutdownFlush;
            self.written = 0;
            Action::Write(0)
        }
    }

    /// The end of the shutdown, with nothing left to write.
    fn shutdown_end<C>(&mut self) -> (action: Action<R, C, BytesMut>)
        ensures
            refines(*final(self), action, model::shutdown_end(old(self)@)),
    {
        proof {
            reveal(model::shutdown_end);
        }
        if self.in_grace() {
            self.shutdown_close()
        } else {
            self.closing();
            self.finish(Ok(()))
        }
    }

    /// One step of a flush. `None` tells that the flush goes on with a
    /// write from `written`; otherwise the flush is over, with `Ok(true)` if
    /// the stream took no more, or has failed.
    fn poll_flush(&mut self, outcome: WriteOutcome) -> (over: Option<Result<bool, IoErrorKind>>)
        requires
            model::write_fits(old(self)@, outcome),
        ensures
            match model::poll_flush(old(self)@, outcome) {
                Flushed::Again(m) => over is None && final(self)@ == m,
                Flushed::Over(m, would_block) => over == Some(
                    Ok::<bool, IoErrorKind>(would_block),
                ) && final(self)@ == m,
                Flushed::Failed(kind) => final(self)@ == old(self)@ && over == Some(
                    Err::<bool, IoErrorKind>(kind),
                ),
            },
    {
        let held = buffer::len(&self.write_buf);
        match outcome {
            WriteOutcome::Ready(n) => {
                if n == 0 {
                    Some(Err(IoErrorKind::WriteZero))
                } else if n < held - self.written {
                    self.written = self.written + n;
                    None
                } else {
                    buffer::clear(&mut self.write_buf);
                    self.written = 0;
                    Some(Ok(false))
                }
            },
            WriteOutcome::Pending => {
                buffer::advance(&mut self.write_buf, self.written);
                self.written = 0;
                Some(Ok(true))
            },
            WriteOutcome::Failed(kind) => Some(Err(kind)),
        }
    }

    /// A step of the flush that belongs to the shutdown.
    fn shutdown_flushed<C>(&mut self, outcome: WriteOutcome) -> (action: Action<R, C, BytesMut>)
        requires
            model::write_fits(old(self)@, outcome),
        ensures
            refines(*final(self), action, model::shutdown_flushed(old(self)@, outcome)),
    {
        proof {
            reveal(model::shutdown_flushed);
        }
        match self.poll_flush(outcome) {
            None => Action::Write(self.written),
            Some(Ok(_)) => {
                if buffer::len(&self.write_buf) != 0 {
                    self.suspend()
                } else {
                    self.shutdown_end()
                }
            },
            Some(Err(kind)) => self.finish(Err(DispatchError::Io(kind))),
        }
    }

    /// The end of the shutdown.
    fn shutdown_closed<C>(&mut self, outcome: CloseOutcome) -> (action: Action<R, C, BytesMut>)
        ensures
            refines(*final(self), action, model::shutdown_closed(old(self)@, outcome)),
    {
        proof {
            reveal(model::shutdown_closed);
        }
        match outcome {
            CloseOutcome::Pending => self.suspend(),
            CloseOutcome::Closed => self.finish(Ok(())),
            CloseOutcome::Failed(kind) => self.finish(Err(DispatchError::Io(kind))),
        }
    }

    /// After the timer stage.
    fn after_keepalive<C>(&mut self) -> (action: Action<R, C, BytesMut>)
        ensures
            refines(*final(self), action, model::after_keepalive(old(self)@)),
    {
        proof {
            reveal(model::after_keepalive);
        }
        if self.flags.shutdown {
            self.shutdown_pass()
        } else {
            self.read_available()
        }
    }

    /// Asks the driver for a read, after making room for it.
    fn read_more<C>(&mut self, read_some: bool) -> (action: Action<R, C, BytesMut>)
        ensures
            final(self)@ == (DispatcherView {
                read_some,
                awaiting: Awaiting::Reading,
                ..old(self)@
            }),
            action@ == Action::<R, C, Seq<u8>>::Read,
    {
        grow(&mut self.read_buf);
        self.read_some = read_some;
        self.awaiting = Awaiting::Reading;
        Action::Read
    }

    /// The reading stage.
    fn read_available<C>(&mut self) -> (action: Action<R, C, BytesMut>)
        ensures
            refines(*final(self), action, model::read_available(old(self)@)),
    {
        proof {
            reveal(model::read_available);
        }
        if self.flags.read_disconnect {
            self.should_disconnect = true;
            self.poll_request(false)
        } else if buffer::len(&self.read_buf) >= MAX_BUFFER_SIZE {
            self.should_disconnect = false;
            self.poll_request(false)
        } else {
            self.read_more(false)
        }
    }

    /// The reading stage, after a read.
    fn read_done<C>(&mut self, outcome: ReadOutcome) -> (action: Action<R, C, BytesMut>)
        ensures
            refines(*final(self), action, model::read_done(old(self)@, outcome)),
    {
        proof {
            reveal(model::read_done);
        }
        match outcome {
            ReadOutcome::Pending => {
                self.should_disconnect = false;
                self.poll_request(false)
            },
            ReadOutcome::Ready(n) => {
                if n == 0 {
                    self.should_disconnect = true;
                    self.poll_request(false)
                } else if buffer::len(&self.read_buf) >= MAX_BUFFER_SIZE {
                    self.should_disconnect = false;
                    self.poll_request(false)
                } else {
                    self.read_more(true)
                }
            },
            ReadOutcome::Failed(kind) => {
                if kind == IoErrorKind::WouldBlock {
                    self.should_disconnect = false;
                    self.poll_request(false)
                } else if kind == IoErrorKind::ConnectionReset && self.read_some {
                    self.should_disconnect = true;
                    self.poll_request(false)
                } else {
                    self.finish(Err(DispatchError::Io(kind)))
                }
            },
        }
    }

    /// Whether the next wake would read: the connection does not shut
    /// down, its flags allow reading, and its read buffer is below
    /// `MAX_BUFFER_SIZE`. A driver that is told to suspend, and that was asked
    /// for no read since the last wake, wakes the connection once more if this
    /// holds: the stream may hold what no wake was registered for.
    pub fn would_read(&self) -> (reads: bool)
        ensures
            reads == model::would_read(self@),
    {
        !self.flags.shutdown && self.can_read() && buffer::len(&self.read_buf)
            < MAX_BUFFER_SIZE
    }

    /// Whether the flags let the connection read and decode.
    fn can_read(&self) -> (allowed: bool)
        ensures
            allowed == model::can_read(self@),
    {
        !(self.flags.read_disconnect || self.flags.upgrade)
    }

    /// A round of decoding begins.
    fn poll_request<C>(&mut self, nested: bool) -> (action: Action<R, C, BytesMut>)
        ensures
            refines(*final(self), action, model::poll_request(old(self)@, nested)),
    {
        proof {
            reveal(model::poll_request);
        }
        self.nested = nested;
        self.updated = false;
        self.request_loop()
    }

    /// The head of the decoding loop.
    fn request_loop<C>(&mut self) -> (action: Action<R, C, BytesMut>)
        ensures
            refines(*final(self), action, model::request_loop(old(self)@)),
    {
        proof {
            reveal(model::request_loop);
        }
        if self.messages.len() >= MAX_PIPELINED_MESSAGES || !self.can_read() {
            self.request_done()
        } else if self.payload {
            self.awaiting = Awaiting::RequestNeedRead;
            Action::NeedRead
        } else {
            self.awaiting = Awaiting::RequestDecode;
            Action::Decode
        }
    }

    /// The decoding loop, once the request body has told whether it wants
    /// more.
    fn request_wanted<C>(&mut self, status: PayloadStatus) -> (action: Action<R, C, BytesMut>)
        ensures
            refines(*final(self), action, model::request_wanted(old(self)@, status)),
    {
        proof {
            reveal(model::request_wanted);
        }
        if status == PayloadStatus::Read {
            self.awaiting = Awaiting::RequestDecode;
            Action::Decode
        } else {
            self.request_done()
        }
    }

    /// Adds a message to those that wait.
    fn enqueue(&mut self, message: DispatcherMessage<R>)
        ensures
            final(self)@ == model::enqueue(old(self)@, message),
    {
        proof {
            self.accepted = Ghost(self.accepted@.push(message));
        }
        self.messages.push_back(message);
    }

    /// Marks that a message was decoded.
    fn started(&mut self)
        ensures
            final(self)@ == model::started(old(self)@),
    {
        self.updated = true;
        self.flags.started = true;
    }

    /// Body data that belongs to no request.
    fn orphaned<C>(&mut self) -> (action: Action<R, C, BytesMut>)
        ensures
            refines(*final(self), action, model::orphaned(old(self)@)),
    {
        proof {
            reveal(model::orphaned);
        }
        self.flags.read_disconnect = true;
        self.error = Some(DispatchError::InternalError);
        self.enqueue(DispatcherMessage::Error(ErrorResponse::InternalServerError));
        self.request_done()
    }

    /// Decoding ends for this round; an open request body is told `error`
    /// first.
    fn abort_payload<C>(&mut self, error: PayloadError) -> (action: Action<R, C, BytesMut>)
        ensures
            refines(*final(self), action, model::abort_payload(old(self)@, error)),
    {
        proof {
            reveal(model::abort_payload);
        }
        if self.payload {
            self.payload = false;
            self.awaiting = Awaiting::RequestAbort;
            Action::PayloadError(error)
        } else {
            self.request_done()
        }
    }

    /// The stream failed under the decoder.
    fn client_disconnected(&mut self, kind: IoErrorKind)
        ensures
            final(self)@ == model::client_disconnected(old(self)@, kind),
    {
        self.flags.read_disconnect = true;
        self.flags.write_disconnect = true;
        self.error = Some(DispatchError::Io(kind));
    }

    /// The decoding loop, once the decoder has answered.
    fn request_decoded<C>(&mut self, decoded: Decoded<R, C>) -> (action: Action<R, C, BytesMut>)
        ensures
            refines(*final(self), action, model::request_decoded(old(self)@, decoded)),
    {
        proof {
            reveal(model::request_decoded);
        }
        match decoded {
            Decoded::Incomplete => self.request_done(),
            Decoded::Failed(error) => match error {
                ParseError::Io(kind) => {
                    self.client_disconnected(kind);
                    self.abort_payload(PayloadError::Incomplete)
                },
                _ => {
                    self.flags.read_disconnect = true;
                    self.error = Some(DispatchError::Parse(error));
                    self.enqueue(DispatcherMessage::Error(ErrorResponse::BadRequest));
                    self.abort_payload(PayloadError::EncodingCorrupted)
                },
            },
            Decoded::Request { request, expect, message_type } => {
                self.started();
                if message_type == MessageType::Stream && self.upgrade_enabled {
                    self.enqueue(DispatcherMessage::Upgrade(request));
                    self.request_done()
                } else if message_type != MessageType::Bodyless {
                    self.awaiting = Awaiting::RequestOpenPayload { expect };
                    Action::OpenPayload(request)
                } else {
                    self.accept_request(request, expect)
                }
            },
            Decoded::Chunk(chunk) => {
                let open = self.payload;
                self.started();
                if open {
                    self.awaiting = Awaiting::RequestFeed;
                    Action::FeedData(chunk)
                } else {
                    self.orphaned()
                }
            },
            Decoded::Eof => {
                let open = self.payload;
                self.started();
                if open {
                    self.payload = false;
                    self.awaiting = Awaiting::RequestFeed;
                    Action::FeedEof
                } else {
                    self.orphaned()
                }
            },
        }
    }

    /// A request is ready for the handler.
    fn accept_request<C>(&mut self, request: R, expect: bool) -> (action: Action<R, C, BytesMut>)
        ensures
            refines(*final(self), action, model::accept_request(old(self)@, request, expect)),
    {
        proof {
            reveal(model::accept_request);
        }
        if self.state.is_empty() {
            self.handle_request(request, expect)
        } else {
            self.enqueue(DispatcherMessage::Item { request, expect });
            self.request_loop()
        }
    }

    /// A request is taken up.
    fn call<C>(
        &mut self,
        request: R,
        expect: bool,
        on_expect: Awaiting,
        on_service: Awaiting,
    ) -> (action: Action<R, C, BytesMut>)
        ensures
            refines(
                *final(self),
                action,
                model::call(old(self)@, request, expect, on_expect, on_service),
            ),
    {
        proof {
            reveal(model::call);
        }
        proof {
            self.served = Ghost(self.served@.push(DispatcherMessage::Item { request, expect }));
        }
        if expect {
            self.state = State::ExpectCall;
            self.awaiting = on_expect;
            Action::CallExpect(request)
        } else {
            self.state = State::ServiceCall;
            self.awaiting = on_service;
            Action::CallService(request)
        }
    }

    /// A request is taken up as soon as it is decoded.
    fn handle_request<C>(&mut self, request: R, expect: bool) -> (action: Action<R, C, BytesMut>)
        ensures
            refines(*final(self), action, model::handle_request(old(self)@, request, expect)),
    {
        proof {
            reveal(model::handle_request);
        }
        proof {
            self.accepted = Ghost(self.accepted@.push(DispatcherMessage::Item { request, expect }));
        }
        self.call(request, expect, Awaiting::HandleExpect, Awaiting::HandleService)
    }

    /// The interceptor lets the request go on.
    fn continued<C>(&mut self, request: R, on_service: Awaiting) -> (action: Action<R, C, BytesMut>)
        requires
            buffer_bytes(old(self).write_buf).len() + continue_line().len() <= isize::MAX,
        ensures
            refines(*final(self), action, model::continued(old(self)@, request, on_service)),
    {
        proof {
            reveal(model::continued);
        }
        let line: [u8; 25] = [
            72, 84, 84, 80, 47, 49, 46, 49, 32,
            49, 48, 48, 32,
            67, 111, 110, 116, 105, 110, 117, 101,
            13, 10, 13, 10,
        ];
        assert(line@ =~= continue_line());
        buffer::extend_from_slice(&mut self.write_buf, line.as_slice());
        self.state = State::ServiceCall;
        self.awaiting = on_service;
        Action::CallService(request)
    }

    /// The interceptor has answered about a request that was taken up at
    /// once.
    fn handle_expect<C>(&mut self, outcome: ExpectOutcome<R>) -> (action: Action<R, C, BytesMut>)
        requires
            model::continue_fits(old(self)@, outcome),
        ensures
            refines(*final(self), action, model::handle_expect(old(self)@, outcome)),
    {
        proof {
            reveal(model::handle_expect);
        }
        match outcome {
            ExpectOutcome::Continue(request) => self.continued(request, Awaiting::HandleService),
            ExpectOutcome::Pending => self.request_loop(),
            ExpectOutcome::Rejected => {
                self.awaiting = Awaiting::HandleEncode;
                Action::Encode(Reply::Handler)
            },
        }
    }

    /// The handler has answered about a request that was taken up at once.
    fn handle_service<C>(&mut self, outcome: ServiceOutcome) -> (action: Action<R, C, BytesMut>)
        ensures
            refines(*final(self), action, model::handle_service(old(self)@, outcome)),
    {
        proof {
            reveal(model::handle_service);
        }
        match outcome {
            ServiceOutcome::Ready => {
                self.awaiting = Awaiting::HandleEncode;
                Action::Encode(Reply::Handler)
            },
            ServiceOutcome::Pending => self.request_loop(),
        }
    }

    /// The response head of a request that was taken up at once is encoded,
    /// or is not.
    fn handle_encoded<C>(&mut self, outcome: EncodeOutcome) -> (action: Action<R, C, BytesMut>)
        ensures
            refines(*final(self), action, model::handle_encoded(old(self)@, outcome)),
    {
        proof {
            reveal(model::handle_encoded);
        }
        match self.send_response(outcome) {
            Ok(()) => self.request_loop(),
            Err(kind) => self.fail(DispatchError::Io(kind)),
        }
    }

    /// Moves the keep-alive deadline on after a round of decoding that
    /// produced a message.
    fn refresh(&mut self)
        ensures
            final(self)@ == model::refresh(old(self)@),
    {
        if self.updated {
            match self.ka_timer {
                Some(timer) => match self.config.keep_alive_expire(self.now) {
                    Some(expire) => {
                        self.ka_expire = expire;
                        let purpose = match timer.purpose {
                            TimerPurpose::ShutdownTimeout => TimerPurpose::ShutdownTimeout,
                            _ => TimerPurpose::IdleTimeout,
                        };
                        self.ka_timer = Some(KeepAliveTimer { deadline: timer.deadline, purpose });
                    },
                    None => {},
                },
                None => {},
            }
        }
    }

    /// The end of a round of decoding.
    fn request_done<C>(&mut self) -> (action: Action<R, C, BytesMut>)
        ensures
            refines(*final(self), action, model::request_done(old(self)@)),
    {
        proof {
            reveal(model::request_done);
        }
        self.refresh();
        if self.nested {
            if self.updated {
                self.poll_response()
            } else {
                self.flush_then_decide()
            }
        } else {
            self.after_request()
        }
    }

    /// After the round of decoding that follows reading.
    fn after_request<C>(&mut self) -> (action: Action<R, C, BytesMut>)
        ensures
            refines(*final(self), action, model::after_request(old(self)@)),
    {
        proof {
            reveal(model::after_request);
        }
        if self.should_disconnect {
            self.flags.read_disconnect = true;
            if self.payload {
                self.payload = false;
                self.awaiting = Awaiting::DisconnectEof;
                Action::FeedEof
            } else {
                self.poll_response()
            }
        } else {
            self.poll_response()
        }
    }

    /// The responding stage.
    fn poll_response<C>(&mut self) -> (action: Action<R, C, BytesMut>)
        ensures
            refines(*final(self), action, model::poll_response(old(self)@)),
    {
        proof {
            reveal(model::poll_response);
        }
        grow(&mut self.write_buf);
        match self.state {
            State::Idle => match self.messages.pop_front() {
                None => self.flush_then_decide(),
                Some(message) => self.take_up(message),
            },
            State::ExpectCall => {
                self.awaiting = Awaiting::ResponseExpect;
                Action::PollExpect
            },
            State::ServiceCall => {
                self.awaiting = Awaiting::ResponseService;
                Action::PollService
            },
            State::SendPayload => self.stream_body(),
        }
    }

    /// A message that waited is taken up.
    fn take_up<C>(&mut self, message: DispatcherMessage<R>) -> (action: Action<R, C, BytesMut>)
        ensures
            refines(*final(self), action, model::take_up(old(self)@, message)),
    {
        proof {
            reveal(model::take_up);
        }
        match message {
            DispatcherMessage::Item { request, expect } => self.call(
                request,
                expect,
                Awaiting::ResponseExpect,
                Awaiting::ResponseService,
            ),
            DispatcherMessage::Error(response) => {
                proof {
                    self.served = Ghost(self.served@.push(message));
                }
                self.awaiting = Awaiting::ResponseEncode;
                Action::Encode(Reply::Error(response))
            },
            DispatcherMessage::Upgrade(request) => {
                proof {
                    self.served = Ghost(self.served@.push(message));
                }
                self.upgrade(request)
            },
        }
    }

    /// The connection is handed over.
    fn upgrade<C>(&mut self, request: R) -> (action: Action<R, C, BytesMut>)
        ensures
            refines(*final(self), action, model::upgrade(old(self)@, request)),
    {
        proof {
            reveal(model::upgrade);
        }
        let mut read_buf = buffer::with_capacity(0);
        let mut write_buf = buffer::with_capacity(0);
        std::mem::swap(&mut self.read_buf, &mut read_buf);
        std::mem::swap(&mut self.write_buf, &mut write_buf);
        self.flags.upgrade = true;
        self.awaiting = Awaiting::Upgrading;
        Action::Upgrade(UpgradeParts { request, read_buf, write_buf })
    }

    /// A body is streamed.
    fn stream_body<C>(&mut self) -> (action: Action<R, C, BytesMut>)
        ensures
            refines(*final(self), action, model::stream_body(old(self)@)),
    {
        proof {
            reveal(model::stream_body);
        }
        if buffer::len(&self.write_buf) < HW_BUFFER_SIZE {
            self.awaiting = Awaiting::ResponseBody;
            Action::PollBody
        } else {
            self.awaiting = Awaiting::ResponseFlush;
            self.drain = true;
            self.written = 0;
            Action::Write(0)
        }
    }

    /// Nothing more can be produced now.
    fn flush_then_decide<C>(&mut self) -> (action: Action<R, C, BytesMut>)
        ensures
            refines(*final(self), action, model::flush_then_decide(old(self)@)),
    {
        proof {
            reveal(model::flush_then_decide);
        }
        if buffer::len(&self.write_buf) == 0 {
            self.decide()
        } else {
            self.awaiting = Awaiting::ResponseFlush;
            self.drain = false;
            self.written = 0;
            Action::Write(0)
        }
    }

    /// The interceptor has answered.
    fn response_expect<C>(&mut self, outcome: ExpectOutcome<R>) -> (action: Action<R, C, BytesMut>)
        requires
            model::continue_fits(old(self)@, outcome),
        ensures
            refines(*final(self), action, model::response_expect(old(self)@, outcome)),
    {
        proof {
            reveal(model::response_expect);
        }
        match outcome {
            ExpectOutcome::Continue(request) => self.continued(request, Awaiting::ResponseService),
            ExpectOutcome::Pending => self.flush_then_decide(),
            ExpectOutcome::Rejected => {
                self.awaiting = Awaiting::ResponseEncode;
                Action::Encode(Reply::Handler)
            },
        }
    }

    /// The handler has answered.
    fn response_service<C>(&mut self, outcome: ServiceOutcome) -> (action: Action<R, C, BytesMut>)
        ensures
            refines(*final(self), action, model::response_service(old(self)@, outcome)),
    {
        proof {
            reveal(model::response_service);
        }
        match outcome {
            ServiceOutcome::Ready => {
                self.awaiting = Awaiting::ResponseEncode;
                Action::Encode(Reply::Handler)
            },
            ServiceOutcome::Pending => self.poll_request(true),
        }
    }

    /// A response head is encoded, or is not.
    fn response_encoded<C>(&mut self, outcome: EncodeOutcome) -> (action: Action<R, C, BytesMut>)
        ensures
            refines(*final(self), action, model::response_encoded(old(self)@, outcome)),
    {
        proof {
            reveal(model::response_encoded);
        }
        match self.send_response(outcome) {
            Ok(()) => self.poll_response(),
            Err(kind) => self.fail(DispatchError::Io(kind)),
        }
    }

    /// The source of the response body has answered.
    fn response_body<C>(&mut self, outcome: BodyOutcome<C>) -> (action: Action<R, C, BytesMut>)
        ensures
            refines(*final(self), action, model::response_body(old(self)@, outcome)),
    {
        proof {
            reveal(model::response_body);
        }
        match outcome {
            BodyOutcome::Chunk(chunk) => {
                self.awaiting = Awaiting::ResponseChunk { last: false };
                Action::EncodeChunk(Some(chunk))
            },
            BodyOutcome::End => {
                self.awaiting = Awaiting::ResponseChunk { last: true };
                Action::EncodeChunk(None)
            },
            BodyOutcome::Failed => self.finish(Err(DispatchError::Service)),
            BodyOutcome::Pending => self.flush_then_decide(),
        }
    }

    /// A frame of the response body is encoded, or is not.
    fn response_chunk<C>(&mut self, last: bool, outcome: ChunkOutcome) -> (action:
        Action<R, C, BytesMut>)
        ensures
            refines(*final(self), action, model::response_chunk(old(self)@, last, outcome)),
    {
        proof {
            reveal(model::response_chunk);
        }
        match outcome {
            ChunkOutcome::Failed(kind) => self.finish(Err(DispatchError::Io(kind))),
            ChunkOutcome::Encoded => {
                if last {
                    self.state = State::Idle;
                    self.poll_response()
                } else {
                    self.stream_body()
                }
            },
        }
    }

    /// A step of the flush that belongs to the responses.
    fn response_flushed<C>(&mut self, outcome: WriteOutcome) -> (action: Action<R, C, BytesMut>)
        requires
            model::write_fits(old(self)@, outcome),
        ensures
            refines(*final(self), action, model::response_flushed(old(self)@, outcome)),
    {
        proof {
            reveal(model::response_flushed);
        }
        match self.poll_flush(outcome) {
            None => Action::Write(self.written),
            Some(Ok(would_block)) => {
                if would_block || !self.drain {
                    self.decide()
                } else {
                    self.poll_response()
                }
            },
            Some(Err(kind)) => self.finish(Err(DispatchError::Io(kind))),
        }
    }

    /// The timer stage and the shutdown, for a connection that shuts down.
    fn shutdown_now<C>(&mut self) -> (action: Action<R, C, BytesMut>)
        ensures
            refines(
                *final(self),
                action,
                model::then_shutdown(model::poll_keepalive(old(self)@)),
            ),
    {
        proof {
            reveal(model::poll_keepalive);
            reveal(model::then_shutdown);
        }
        match self.poll_keepalive() {
            Some(action) => action,
            None => self.shutdown_pass(),
        }
    }

    /// How a wake ends.
    fn decide<C>(&mut self) -> (action: Action<R, C, BytesMut>)
        ensures
            refines(*final(self), action, model::decide(old(self)@)),
    {
        proof {
            reveal(model::decide);
        }
        if self.flags.write_disconnect {
            self.finish(Ok(()))
        } else if self.idle() {
            match self.error {
                Some(error) => {
                    self.error = None;
                    self.finish(Err(error))
                },
                None => {
                    if self.stops() {
                        self.flags.shutdown = true;
                        self.shutdown_now()
                    } else {
                        self.suspend()
                    }
                },
            }
        } else {
            self.suspend()
        }
    }

    /// Whether an idle connection is to shut down.
    fn stops(&self) -> (stops: bool)
        ensures
            stops == model::stops(self@),
    {
        self.flags.read_disconnect || (self.flags.started && !self.flags.keepalive)
            || self.flags.shutdown
    }

    /// The upgrade handler has answered.
    fn upgraded<C>(&mut self, outcome: UpgradeOutcome) -> (action: Action<R, C, BytesMut>)
        ensures
            refines(*final(self), action, model::upgraded(old(self)@, outcome)),
    {
        proof {
            reveal(model::upgraded);
        }
        match outcome {
            UpgradeOutcome::Pending => self.suspend(),
            UpgradeOutcome::Done => self.finish(Ok(())),
            UpgradeOutcome::Failed => self.finish(Err(DispatchError::Upgrade)),
        }
    }

    /// Whether `event` answers what the dispatcher is waiting for, so that
    /// `resume` may be called with it.
    pub fn accepts<C>(&self, event: &Event<R, C>) -> (ok: bool)
        ensures
            ok == model::accepts(self@, *event),
    {
        match (self.awaiting, event) {
            (Awaiting::KeepAliveArm, Event::Done) => true,
            (Awaiting::KeepAliveAbort, Event::Done) => true,
            (Awaiting::KeepAliveRearm, Event::Done) => true,
            (Awaiting::RequestFeed, Event::Done) => true,
            (Awaiting::RequestAbort, Event::Done) => true,
            (Awaiting::DisconnectEof, Event::Done) => true,
            (Awaiting::Failing(_), Event::Done) => true,
            (Awaiting::KeepAliveTimer, Event::Timer(_)) => true,
            (Awaiting::KeepAliveTimeout, Event::Encoded(_)) => true,
            (Awaiting::HandleEncode, Event::Encoded(_)) => true,
            (Awaiting::ResponseEncode, Event::Encoded(_)) => true,
            (Awaiting::ShutdownFlush, Event::Written(outcome)) => self.write_fits(*outcome),
            (Awaiting::ResponseFlush, Event::Written(outcome)) => self.write_fits(*outcome),
            (Awaiting::ShutdownClose, Event::Closed(_)) => true,
            (Awaiting::Reading, Event::Read(_)) => true,
            (Awaiting::RequestNeedRead, Event::Payload(_)) => true,
            (Awaiting::RequestDecode, Event::Decoded(_)) => true,
            (Awaiting::RequestOpenPayload { .. }, Event::Request(_)) => true,
            (Awaiting::HandleExpect, Event::Expect(outcome)) => self.continue_fits(outcome),
            (Awaiting::ResponseExpect, Event::Expect(outcome)) => self.continue_fits(outcome),
            (Awaiting::HandleService, Event::Service(_)) => true,
            (Awaiting::ResponseService, Event::Service(_)) => true,
            (Awaiting::ResponseBody, Event::Body(_)) => true,
            (Awaiting::ResponseChunk { .. }, Event::Chunk(_)) => true,
            (Awaiting::Upgrading, Event::Upgrade(_)) => true,
            _ => false,
        }
    }

    /// Whether the write buffer holds what a write claims to have taken.
    fn write_fits(&self, outcome: WriteOutcome) -> (ok: bool)
        ensures
            ok == model::write_fits(self@, outcome),
    {
        let held = buffer::len(&self.write_buf);
        match outcome {
            WriteOutcome::Ready(n) => self.written <= held && n <= held - self.written,
            WriteOutcome::Pending => self.written <= held,
            WriteOutcome::Failed(_) => true,
        }
    }

    /// Whether the interim response, if it is due, fits into the write
    /// buffer.
    fn continue_fits(&self, outcome: &ExpectOutcome<R>) -> (ok: bool)
        ensures
            ok == model::continue_fits(self@, *outcome),
    {
        match outcome {
            ExpectOutcome::Continue(_) => {
                let limit: usize = isize::MAX as usize;
                assert(continue_line().len() == 25);
                buffer::len(&self.write_buf) <= limit - 25
            },
            _ => true,
        }
    }

    /// What the dispatcher is waiting for.
    pub fn awaiting(&self) -> (awaiting: Awaiting)
        ensures
            awaiting == self@.awaiting,
    {
        self.awaiting
    }

    /// The flags of the connection.
    pub fn flags(&self) -> (flags: Flags)
        ensures
            flags == self@.flags,
    {
        self.flags
    }

    /// The unit of work the connection is busy with.
    pub fn state(&self) -> (state: State)
        ensures
            state == self@.state,
    {
        self.state
    }

    /// Whether a request body is open.
    pub fn has_payload(&self) -> (open: bool)
        ensures
            open == self@.payload,
    {
        self.payload
    }

    /// How many decoded messages wait for their turn: never more than
    /// `MAX_PIPELINED_MESSAGES`.
    pub fn queued(&self) -> (n: usize)
        ensures
            n == self@.messages.len(),
            self.wf() ==> n <= MAX_PIPELINED_MESSAGES,
    {
        self.messages.len()
    }

    /// The failure that is kept for the final report, if there is one.
    pub fn error(&self) -> (error: Option<DispatchError>)
        ensures
            error == self@.error,
    {
        self.error
    }

    /// The timer, if it is armed.
    pub fn timer(&self) -> (timer: Option<KeepAliveTimer>)
        ensures
            timer == self@.ka_timer,
    {
        self.ka_timer
    }

    /// Until when the connection is kept if it stays idle.
    pub fn keep_alive_expire(&self) -> (deadline: u64)
        ensures
            deadline == self@.ka_expire,
    {
        self.ka_expire
    }

    /// The read buffer.
    pub fn read_buf(&self) -> (buf: &BytesMut)
        ensures
            buffer_bytes(*buf) == self@.read_buf,
    {
        &self.read_buf
    }

    /// The write buffer.
    pub fn write_buf(&self) -> (buf: &BytesMut)
        ensures
            buffer_bytes(*buf) == self@.write_buf,
    {
        &self.write_buf
    }

    /// The read buffer, for the driver to read and decode. Whatever the
    /// driver makes of it, nothing else changes.
    pub fn read_buf_mut(&mut self) -> (buf: &mut BytesMut)
        ensures
            buffer_bytes(*buf) == old(self)@.read_buf,
            final(self)@ == (DispatcherView {
                read_buf: buffer_bytes(*final(buf)),
                ..old(self)@
            }),
    {
        &mut self.read_buf
    }

    /// The write buffer, for the driver to encode. Whatever the driver
    /// makes of it, nothing else changes.
    pub fn write_buf_mut(&mut self) -> (buf: &mut BytesMut)
        ensures
            buffer_bytes(*buf) == old(self)@.write_buf,
            final(self)@ == (DispatcherView {
                write_buf: buffer_bytes(*final(buf)),
                ..old(self)@
            }),
    {
        &mut self.write_buf
    }

    /// Wakes the connection at the time `now` and tells what its driver is
    /// to do first.
    pub fn poll<C>(&mut self, now: u64) -> (action: Action<R, C, BytesMut>)
        requires
            old(self).wf(),
            old(self)@.awaiting == Awaiting::Wake,
        ensures
            refines(*final(self), action, model::poll(old(self)@, now)),
            final(self).wf(),
            laws::follows(old(self)@, final(self)@),
    {
        proof {
            reveal(model::poll);
            reveal(model::then_after_keepalive);
        }
        proof {
            laws::lemma_poll_advances::<R, C>(self@, now);
        }
        self.now = now;
        if self.flags.upgrade {
            self.awaiting = Awaiting::Upgrading;
            Action::PollUpgrade
        } else {
            match self.poll_keepalive() {
                Some(action) => action,
                None => self.after_keepalive(),
            }
        }
    }

    /// Takes the driver's answer to the last action and tells what it is to
    /// do next.
    pub fn resume<C>(&mut self, event: Event<R, C>) -> (action: Action<R, C, BytesMut>)
        requires
            old(self).wf(),
            model::accepts(old(self)@, event),
        ensures
            refines(*final(self), action, model::resume(old(self)@, event)),
            final(self).wf(),
            laws::follows(old(self)@, final(self)@),
    {
        proof {
            reveal(model::then_after_keepalive);
            reveal(model::finish);
            laws::lemma_resume_advances::<R, C>(self@, event);
        }
        match (self.awaiting, event) {
            (Awaiting::KeepAliveArm, Event::Done) => {
                self.awaiting = Awaiting::KeepAliveTimer;
                Action::PollTimer
            },
            (Awaiting::KeepAliveAbort, Event::Done) => self.after_keepalive(),
            (Awaiting::KeepAliveRearm, Event::Done) => self.after_keepalive(),
            (Awaiting::KeepAliveTimer, Event::Timer(fired)) => match self.keepalive_fired(fired) {
                Some(action) => action,
                None => self.after_keepalive(),
            },
            (Awaiting::KeepAliveTimeout, Event::Encoded(outcome)) => {
                self.keepalive_timeout_sent(outcome);
                match self.poll_keepalive() {
                    Some(action) => action,
                    None => self.after_keepalive(),
                }
            },
            (Awaiting::ShutdownFlush, Event::Written(outcome)) => self.shutdown_flushed(outcome),
            (Awaiting::ShutdownClose, Event::Closed(outcome)) => self.shutdown_closed(outcome),
            (Awaiting::Reading, Event::Read(outcome)) => self.read_done(outcome),
            (Awaiting::RequestNeedRead, Event::Payload(status)) => self.request_wanted(status),
            (Awaiting::RequestDecode, Event::Decoded(decoded)) => self.request_decoded(decoded),
            (Awaiting::RequestOpenPayload { expect }, Event::Request(request)) => {
                self.payload = true;
                self.accept_request(request, expect)
            },
            (Awaiting::RequestFeed, Event::Done) => self.request_loop(),
            (Awaiting::RequestAbort, Event::Done) => self.request_done(),
            (Awaiting::HandleExpect, Event::Expect(outcome)) => self.handle_expect(outcome),
            (Awaiting::HandleService, Event::Service(outcome)) => self.handle_service(outcome),
            (Awaiting::HandleEncode, Event::Encoded(outcome)) => self.handle_encoded(outcome),
            (Awaiting::DisconnectEof, Event::Done) => self.poll_response(),
            (Awaiting::ResponseExpect, Event::Expect(outcome)) => self.response_expect(outcome),
            (Awaiting::ResponseService, Event::Service(outcome)) => self.response_service(
                outcome,
            ),
            (Awaiting::ResponseEncode, Event::Encoded(outcome)) => self.response_encoded(
                outcome,
            ),
            (Awaiting::ResponseBody, Event::Body(outcome)) => self.response_body(outcome),
            (Awaiting::ResponseChunk { last }, Event::Chunk(outcome)) => self.response_chunk(
                last,
                outcome,
            ),
            (Awaiting::ResponseFlush, Event::Written(outcome)) => self.response_flushed(outcome),
            (Awaiting::Failing(error), Event::Done) => self.finish(Err(error)),
            (Awaiting::Upgrading, Event::Upgrade(outcome)) => self.upgraded(outcome),
            _ => Action::Suspend,
        }
    }
}

} // verus!
