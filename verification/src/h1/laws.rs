//! What holds of every connection, whatever its driver reports.

use crate::error::{DispatchError, ParseError, PayloadError};
use crate::h1::config::ServiceConfig;
use crate::h1::flags::Flags;
use crate::h1::io::{
    Action, BodyOutcome, ChunkOutcome, CloseOutcome, Decoded, EncodeOutcome, Event,
    ExpectOutcome, ReadOutcome, ServiceOutcome, UpgradeOutcome, WriteOutcome,
};
use crate::h1::message::{
    DispatcherMessage, ErrorResponse, State, MAX_BUFFER_SIZE, MAX_PIPELINED_MESSAGES,
};
use crate::h1::model;
use crate::h1::model::{Awaiting, DispatcherView, Flushed, Next};
use vstd::prelude::*;

verus! {

/// What holds of a connection at every moment: its queue is never longer
/// than `MAX_PIPELINED_MESSAGES` and holds exactly the accepted messages that
/// were not taken up yet, in their order; a request body is open only on a
/// connection that has seen a message; the timer is armed for the grace
/// period only on a connection that shuts down; a failure is kept only on a
/// connection whose read side is closed; and a connection that shuts down
/// keeps none.
pub open spec fn queue_inv<R>(m: DispatcherView<R>) -> bool {
    &&& m.messages.len() <= MAX_PIPELINED_MESSAGES
    &&& m.accepted == m.served + m.messages
    &&& !m.flags.started ==> !m.payload
    &&& model::in_grace(m) ==> m.flags.shutdown
    &&& m.error is Some ==> m.flags.read_disconnect
    &&& m.flags.shutdown ==> m.error is None
}

/// Whether the failure that the connection keeps is one of the stream.
pub open spec fn stream_failed<R>(m: DispatcherView<R>) -> bool {
    m.error matches Some(DispatchError::Io(_))
}

/// What holds of a connection while it reads, decodes and responds: it was
/// not handed over, it does not shut down, and its write side is closed only
/// if the stream failed under the decoder.
pub open spec fn live<R>(m: DispatcherView<R>) -> bool {
    &&& !m.flags.upgrade
    &&& !m.flags.shutdown
    &&& m.flags.write_disconnect ==> stream_failed(m)
}

/// A connection that is busy with nothing lets no message wait. Where this
/// holds, a request that is taken up as soon as it is decoded overtakes none.
pub open spec fn in_turn<R>(m: DispatcherView<R>) -> bool {
    m.state.is_empty() ==> m.messages.len() == 0
}

/// What holds between two wakes, and while the timer is asked: no message
/// is overtaken, and the write side is open, for a connection whose write
/// side is closed ends in the wake that closes it.
pub open spec fn at_rest<R>(m: DispatcherView<R>) -> bool {
    !m.flags.upgrade && in_turn(m) && !m.flags.write_disconnect
}

/// What holds while a round of decoding is under way: it either began
/// while the handler was pending, and the handler still is, or no message is
/// overtaken.
pub open spec fn decoding<R>(m: DispatcherView<R>) -> bool {
    &&& live(m)
    &&& if m.nested {
        m.state == State::ServiceCall
    } else {
        in_turn(m)
    }
}

/// What holds at each place where the dispatcher waits for its driver.
pub open spec fn place_inv<R>(m: DispatcherView<R>) -> bool {
    match m.awaiting {
        Awaiting::Wake => m.flags.upgrade || at_rest(m),
        Awaiting::KeepAliveArm => at_rest(m),
        Awaiting::KeepAliveTimer => at_rest(m),
        Awaiting::KeepAliveAbort => at_rest(m),
        Awaiting::KeepAliveRearm => at_rest(m),
        Awaiting::KeepAliveTimeout => at_rest(m) && m.state.is_empty() && m.error is None,
        Awaiting::ShutdownFlush => at_rest(m) && m.flags.shutdown,
        Awaiting::ShutdownClose => at_rest(m) && m.flags.shutdown,
        Awaiting::Reading => live(m) && in_turn(m),
        Awaiting::RequestNeedRead => decoding(m) && m.messages.len() < MAX_PIPELINED_MESSAGES
            && !m.flags.read_disconnect,
        Awaiting::RequestDecode => decoding(m) && m.messages.len() < MAX_PIPELINED_MESSAGES
            && !m.flags.read_disconnect,
        Awaiting::RequestOpenPayload { .. } => decoding(m) && m.messages.len()
            < MAX_PIPELINED_MESSAGES && m.flags.started,
        Awaiting::RequestFeed => decoding(m),
        Awaiting::RequestAbort => live(m) && (m.nested ==> m.state == State::ServiceCall),
        Awaiting::HandleExpect => live(m) && !m.nested && m.state == State::ExpectCall
            && m.messages.len() == 0,
        Awaiting::HandleService => live(m) && !m.nested && m.state == State::ServiceCall
            && m.messages.len() == 0,
        Awaiting::HandleEncode => live(m) && !m.nested && m.messages.len() == 0,
        Awaiting::DisconnectEof => live(m),
        Awaiting::ResponseExpect => live(m) && m.state == State::ExpectCall,
        Awaiting::ResponseService => live(m) && m.state == State::ServiceCall,
        Awaiting::ResponseEncode => live(m),
        Awaiting::ResponseBody => live(m) && m.state == State::SendPayload,
        Awaiting::ResponseChunk { .. } => live(m) && m.state == State::SendPayload,
        Awaiting::ResponseFlush => live(m) && in_turn(m),
        Awaiting::Failing(_) => true,
        Awaiting::Upgrading => m.flags.upgrade,
        Awaiting::Finished => true,
    }
}

/// The invariant of a connection.
pub open spec fn inv<R>(m: DispatcherView<R>) -> bool {
    queue_inv(m) && place_inv(m)
}

/// A fresh connection satisfies the invariant.
pub proof fn lemma_init_inv<R>(
    config: ServiceConfig,
    read_buf: Seq<u8>,
    timeout: Option<u64>,
    now: u64,
    upgrade_enabled: bool,
)
    ensures
        inv(model::init::<R>(config, read_buf, timeout, now, upgrade_enabled)),
{
    let m = model::init::<R>(config, read_buf, timeout, now, upgrade_enabled);
    assert(m.accepted =~= m.served + m.messages);
}

/// Whether `after` begins with `before`.
pub open spec fn grown<A>(before: Seq<A>, after: Seq<A>) -> bool {
    &&& before.len() <= after.len()
    &&& forall|i: int| 0 <= i < before.len() ==> #[trigger] after[i] == before[i]
}

/// Whether the connection `later` can have come from `m`: both histories
/// have only grown, and no flag that is never undone was undone.
pub open spec fn follows<R>(m: DispatcherView<R>, later: DispatcherView<R>) -> bool {
    &&& grown(m.accepted, later.accepted)
    &&& grown(m.served, later.served)
    &&& m.flags.leads_to(later.flags)
}

/// Whether `step` lets go of no failure that `m` keeps, and keeps none for
/// longer than it must: the failure is still kept, or it is the result of
/// the connection; and no wake of a connection that was not handed over ends
/// with a failure kept, nothing in progress and nothing left to write.
pub open spec fn keeps<R, C>(
    m: DispatcherView<R>,
    step: (DispatcherView<R>, Action<R, C, Seq<u8>>),
) -> bool {
    &&& m.error matches Some(error) ==> step.0.error == m.error || step.1 == Action::<
        R,
        C,
        Seq<u8>,
    >::Finish(Err(error))
    &&& step.1 is Suspend && step.0.error is Some ==> !model::idle(step.0)
        || step.0.flags.upgrade
}

/// Whether `step` closes and ends nothing too early: the write side of the
/// stream is closed only with nothing left to write; and the connection ends
/// in success only with nothing left to write, or after the stream failed
/// under the decoder, or as the closing of the write side or the upgrade
/// handler ends.
pub open spec fn in_time<R, C>(
    m: DispatcherView<R>,
    step: (DispatcherView<R>, Action<R, C, Seq<u8>>),
) -> bool {
    &&& step.1 is Shutdown ==> step.0.write_buf.len() == 0
    &&& step.1 matches Action::Finish(Ok(_)) ==> {
        ||| step.0.write_buf.len() == 0
        ||| stream_failed(step.0)
        ||| m.awaiting == Awaiting::ShutdownClose
        ||| m.flags.upgrade
    }
}

/// Whether `step` is a sound move from `m`: it keeps the invariant and
/// `follows`, it lets go of no failure, it closes and ends nothing too
/// early, and it asks for a read only while the read buffer is below
/// `MAX_BUFFER_SIZE`.
pub open spec fn advances<R, C>(
    m: DispatcherView<R>,
    step: (DispatcherView<R>, Action<R, C, Seq<u8>>),
) -> bool {
    &&& inv(step.0)
    &&& follows(m, step.0)
    &&& keeps(m, step)
    &&& in_time(m, step)
    &&& step.1 is Read ==> step.0.read_buf.len() < MAX_BUFFER_SIZE
}

/// Whether `step` is a sound move from `m` that asks for no read, and that
/// takes up no message unless `m` is busy with nothing.
pub open spec fn proceeds<R, C>(
    m: DispatcherView<R>,
    step: (DispatcherView<R>, Action<R, C, Seq<u8>>),
) -> bool {
    &&& advances(m, step)
    &&& !(step.1 is Read)
    &&& !m.state.is_empty() ==> step.0.served == m.served
}

/// Whether `step` is a sound move from `m` that asks for no read, and that
/// takes up no message unless `m` is busy with nothing or `freed` tells that
/// its message in progress is done with.
pub open spec fn proceeds_freed<R, C>(
    m: DispatcherView<R>,
    step: (DispatcherView<R>, Action<R, C, Seq<u8>>),
    freed: bool,
) -> bool {
    &&& advances(m, step)
    &&& !(step.1 is Read)
    &&& !m.state.is_empty() && !freed ==> step.0.served == m.served
}

/// Whether `next` is a sound stage from `m` that asks for no read and takes
/// up no message.
pub open spec fn proceeds_stage<R, C>(m: DispatcherView<R>, next: Next<R, C>) -> bool {
    match next {
        Next::Emit(m1, action) => advances(m, (m1, action)) && !(action is Read) && m1.served
            == m.served,
        Next::Continue(m1) => resting(m1) && follows(m, m1) && m1.served == m.served
            && m1.state == m.state && m1.error == m.error && m1.awaiting == m.awaiting,
    }
}

/// Whether `event` tells that the message in progress is done with: the
/// head of a response without a body is encoded, or the closing frame of a
/// body is.
pub open spec fn completes<R, C>(m: DispatcherView<R>, event: Event<R, C>) -> bool {
    match (m.awaiting, event) {
        (Awaiting::HandleEncode, Event::Encoded(EncodeOutcome::Encoded { body, .. })) => body.is_eof(),
        (Awaiting::ResponseEncode, Event::Encoded(EncodeOutcome::Encoded { body, .. })) => body.is_eof(),
        (Awaiting::ResponseChunk { last }, Event::Chunk(ChunkOutcome::Encoded)) => last,
        _ => false,
    }
}

/// What the stages of reading and of the end of a wake ask of a
/// connection.
pub open spec fn settled<R>(m: DispatcherView<R>) -> bool {
    queue_inv(m) && in_turn(m) && live(m)
}

/// What the timer stage and the shutdown ask of a connection.
pub open spec fn resting<R>(m: DispatcherView<R>) -> bool {
    queue_inv(m) && at_rest(m)
}

proof fn lemma_shutdown_pass<R, C>(m: DispatcherView<R>)
    requires
        resting(m),
        m.flags.shutdown,
    ensures
        proceeds(m, model::shutdown_pass::<R, C>(m)),
{
    reveal(model::shutdown_pass);
    reveal(model::shutdown_end);
    reveal(model::finish);
    reveal(model::shutdown_close);
}

proof fn lemma_enter_shutdown<R, C>(m: DispatcherView<R>)
    requires
        resting(m),
        m.flags.shutdown,
    ensures
        proceeds_stage(m, model::enter_shutdown::<R, C>(m)),
{
    reveal(model::enter_shutdown);
    reveal(model::arm);
}

proof fn lemma_poll_keepalive<R, C>(m: DispatcherView<R>)
    requires
        resting(m),
    ensures
        proceeds_stage(m, model::poll_keepalive::<R, C>(m)),
{
    reveal(model::poll_keepalive);
    if m.flags.shutdown {
        lemma_enter_shutdown::<R, C>(m);
    }
}

proof fn lemma_then_shutdown<R, C>(m: DispatcherView<R>)
    requires
        resting(m),
        m.flags.shutdown,
    ensures
        proceeds(m, model::then_shutdown(model::poll_keepalive::<R, C>(m))),
{
    reveal(model::then_shutdown);
    lemma_poll_keepalive::<R, C>(m);
    match model::poll_keepalive::<R, C>(m) {
        Next::Emit(m1, _) => {},
        Next::Continue(m1) => {
            lemma_shutdown_pass::<R, C>(m1);
        },
    }
}

proof fn lemma_decide<R, C>(m: DispatcherView<R>)
    requires
        settled(m),
    ensures
        proceeds(m, model::decide::<R, C>(m)),
{
    reveal(model::decide);
    reveal(model::finish);
    reveal(model::suspend);
    if !m.flags.write_disconnect && m.error is None {
        lemma_then_shutdown::<R, C>(
            DispatcherView { flags: Flags { shutdown: true, ..m.flags }, ..m },
        );
    }
}

proof fn lemma_flush_then_decide<R, C>(m: DispatcherView<R>)
    requires
        settled(m),
    ensures
        proceeds(m, model::flush_then_decide::<R, C>(m)),
{
    reveal(model::flush_then_decide);
    lemma_decide::<R, C>(m);
}

proof fn lemma_stream_body<R, C>(m: DispatcherView<R>)
    requires
        queue_inv(m),
        live(m),
        m.state == State::SendPayload,
    ensures
        proceeds(m, model::stream_body::<R, C>(m)),
{
    reveal(model::stream_body);
}

proof fn lemma_take_up<R, C>(m: DispatcherView<R>, message: DispatcherMessage<R>)
    requires
        m.state.is_empty(),
        m.messages.len() < MAX_PIPELINED_MESSAGES,
        m.accepted == m.served.push(message) + m.messages,
        !m.flags.started ==> !m.payload,
        model::in_grace(m) ==> m.flags.shutdown,
        m.error is Some ==> m.flags.read_disconnect,
        live(m),
    ensures
        proceeds(m, model::take_up::<R, C>(m, message)),
{
    reveal(model::take_up);
    reveal(model::call);
    reveal(model::upgrade);
}

proof fn lemma_poll_response<R, C>(m: DispatcherView<R>)
    requires
        queue_inv(m),
        live(m),
    ensures
        proceeds(m, model::poll_response::<R, C>(m)),
{
    reveal(model::poll_response);
    match m.state {
        State::Idle => {
            if m.messages.len() == 0 {
                lemma_flush_then_decide::<R, C>(m);
            } else {
                let message = m.messages[0];
                let rest = m.messages.subrange(1, m.messages.len() as int);
                assert(m.served.push(message) + rest =~= m.served + m.messages);
                lemma_take_up::<R, C>(DispatcherView { messages: rest, ..m }, message);
            }
        },
        State::ExpectCall => {},
        State::ServiceCall => {},
        State::SendPayload => {
            lemma_stream_body::<R, C>(m);
        },
    }
}

proof fn lemma_after_request<R, C>(m: DispatcherView<R>)
    requires
        queue_inv(m),
        live(m),
    ensures
        proceeds(m, model::after_request::<R, C>(m)),
{
    reveal(model::after_request);
    lemma_poll_response::<R, C>(m);
    lemma_poll_response::<R, C>(
        DispatcherView { flags: Flags { read_disconnect: true, ..m.flags }, ..m },
    );
}

proof fn lemma_request_done<R, C>(m: DispatcherView<R>)
    requires
        queue_inv(m),
        live(m),
        m.nested ==> m.state == State::ServiceCall,
    ensures
        proceeds(m, model::request_done::<R, C>(m)),
{
    reveal(model::request_done);
    let m1 = model::refresh(m);
    if m.nested {
        lemma_poll_response::<R, C>(m1);
        lemma_flush_then_decide::<R, C>(m1);
    } else {
        lemma_after_request::<R, C>(m1);
    }
}

proof fn lemma_request_loop<R, C>(m: DispatcherView<R>)
    requires
        queue_inv(m),
        decoding(m),
    ensures
        proceeds(m, model::request_loop::<R, C>(m)),
{
    reveal(model::request_loop);
    lemma_request_done::<R, C>(m);
}

proof fn lemma_enqueue<R>(m: DispatcherView<R>, message: DispatcherMessage<R>)
    requires
        queue_inv(m),
        m.messages.len() < MAX_PIPELINED_MESSAGES,
    ensures
        queue_inv(model::enqueue(m, message)),
        follows(m, model::enqueue(m, message)),
{
    assert(m.accepted.push(message) =~= m.served + m.messages.push(message));
}

proof fn lemma_accept_request<R, C>(m: DispatcherView<R>, request: R, expect: bool)
    requires
        queue_inv(m),
        decoding(m),
        m.messages.len() < MAX_PIPELINED_MESSAGES,
    ensures
        proceeds(m, model::accept_request::<R, C>(m, request, expect)),
{
    reveal(model::accept_request);
    reveal(model::handle_request);
    reveal(model::call);
    let message = DispatcherMessage::Item { request, expect };
    if m.state.is_empty() {
        assert(m.accepted.push(message) =~= m.served.push(message) + m.messages);
    } else {
        lemma_enqueue(m, message);
        lemma_request_loop::<R, C>(model::enqueue(m, message));
    }
}

proof fn lemma_abort_payload<R, C>(m: DispatcherView<R>, error: PayloadError)
    requires
        queue_inv(m),
        live(m),
        m.nested ==> m.state == State::ServiceCall,
    ensures
        proceeds(m, model::abort_payload::<R, C>(m, error)),
{
    reveal(model::abort_payload);
    lemma_request_done::<R, C>(m);
}

proof fn lemma_orphaned<R, C>(m: DispatcherView<R>)
    requires
        queue_inv(m),
        decoding(m),
        m.messages.len() < MAX_PIPELINED_MESSAGES,
        !m.flags.read_disconnect,
    ensures
        proceeds(m, model::orphaned::<R, C>(m)),
{
    reveal(model::orphaned);
    let m2 = DispatcherView {
        flags: Flags { read_disconnect: true, ..m.flags },
        error: Some(DispatchError::InternalError),
        ..m
    };
    let message = DispatcherMessage::Error(ErrorResponse::InternalServerError);
    lemma_enqueue(m2, message);
    lemma_request_done::<R, C>(model::enqueue(m2, message));
}

proof fn lemma_request_decoded<R, C>(m: DispatcherView<R>, decoded: Decoded<R, C>)
    requires
        queue_inv(m),
        decoding(m),
        m.messages.len() < MAX_PIPELINED_MESSAGES,
        !m.flags.read_disconnect,
    ensures
        proceeds(m, model::request_decoded::<R, C>(m, decoded)),
{
    reveal(model::request_decoded);
    let m1 = model::started(m);
    match decoded {
        Decoded::Incomplete => {
            lemma_request_done::<R, C>(m);
        },
        Decoded::Failed(error) => {
            match error {
                ParseError::Io(kind) => {
                    lemma_abort_payload::<R, C>(
                        model::client_disconnected(m, kind),
                        PayloadError::Incomplete,
                    );
                },
                _ => {
                    let m2 = DispatcherView {
                        flags: Flags { read_disconnect: true, ..m.flags },
                        error: Some(DispatchError::Parse(error)),
                        ..m
                    };
                    let message = DispatcherMessage::Error(ErrorResponse::BadRequest);
                    lemma_enqueue(m2, message);
                    lemma_abort_payload::<R, C>(
                        model::enqueue(m2, message),
                        PayloadError::EncodingCorrupted,
                    );
                },
            }
        },
        Decoded::Request { request, expect, message_type } => {
            let message = DispatcherMessage::Upgrade(request);
            lemma_enqueue(m1, message);
            lemma_request_done::<R, C>(model::enqueue(m1, message));
            lemma_accept_request::<R, C>(m1, request, expect);
        },
        Decoded::Chunk(chunk) => {
            lemma_orphaned::<R, C>(m1);
        },
        Decoded::Eof => {
            lemma_orphaned::<R, C>(m1);
        },
    }
}

proof fn lemma_poll_request<R, C>(m: DispatcherView<R>, nested: bool)
    requires
        queue_inv(m),
        live(m),
        nested ==> m.state == State::ServiceCall,
        !nested ==> in_turn(m),
    ensures
        proceeds(m, model::poll_request::<R, C>(m, nested)),
{
    reveal(model::poll_request);
    lemma_request_loop::<R, C>(DispatcherView { nested, updated: false, ..m });
}

proof fn lemma_read_available<R, C>(m: DispatcherView<R>)
    requires
        settled(m),
    ensures
        advances(m, model::read_available::<R, C>(m)),
        !m.state.is_empty() ==> model::read_available::<R, C>(m).0.served == m.served,
{
    reveal(model::read_available);
    lemma_poll_request::<R, C>(DispatcherView { should_disconnect: true, ..m }, false);
    lemma_poll_request::<R, C>(DispatcherView { should_disconnect: false, ..m }, false);
}

proof fn lemma_read_done<R, C>(m: DispatcherView<R>, outcome: ReadOutcome)
    requires
        settled(m),
    ensures
        advances(m, model::read_done::<R, C>(m, outcome)),
        !m.state.is_empty() ==> model::read_done::<R, C>(m, outcome).0.served == m.served,
        model::read_done::<R, C>(m, outcome).1 is Read ==> (outcome matches ReadOutcome::Ready(n)
            && n > 0 && m.read_buf.len() < MAX_BUFFER_SIZE),
{
    reveal(model::read_done);
    reveal(model::finish);
    lemma_poll_request::<R, C>(DispatcherView { should_disconnect: true, ..m }, false);
    lemma_poll_request::<R, C>(DispatcherView { should_disconnect: false, ..m }, false);
}

proof fn lemma_after_keepalive<R, C>(m: DispatcherView<R>)
    requires
        resting(m),
    ensures
        advances(m, model::after_keepalive::<R, C>(m)),
        !m.state.is_empty() ==> model::after_keepalive::<R, C>(m).0.served == m.served,
{
    reveal(model::after_keepalive);
    if m.flags.shutdown {
        lemma_shutdown_pass::<R, C>(m);
    } else {
        lemma_read_available::<R, C>(m);
    }
}

proof fn lemma_then_after_keepalive<R, C>(m: DispatcherView<R>, next: Next<R, C>)
    requires
        proceeds_stage(m, next),
    ensures
        advances(m, model::then_after_keepalive(next)),
        !m.state.is_empty() ==> model::then_after_keepalive(next).0.served == m.served,
{
    reveal(model::then_after_keepalive);
    match next {
        Next::Emit(m1, _) => {},
        Next::Continue(m1) => {
            lemma_after_keepalive::<R, C>(m1);
        },
    }
}

proof fn lemma_keepalive_fired<R, C>(m: DispatcherView<R>, fired: bool)
    requires
        resting(m),
    ensures
        proceeds_stage(m, model::keepalive_fired::<R, C>(m, fired)),
{
    reveal(model::keepalive_fired);
    reveal(model::arm);
    reveal(model::finish);
    if model::quiet(m) {
        lemma_enter_shutdown::<R, C>(
            DispatcherView { flags: Flags { shutdown: true, ..m.flags }, ..m },
        );
    }
}

proof fn lemma_shutdown_flushed<R, C>(m: DispatcherView<R>, outcome: WriteOutcome)
    requires
        resting(m),
        m.flags.shutdown,
        m.awaiting == Awaiting::ShutdownFlush,
    ensures
        proceeds(m, model::shutdown_flushed::<R, C>(m, outcome)),
{
    reveal(model::shutdown_flushed);
    reveal(model::shutdown_end);
    reveal(model::suspend);
    reveal(model::finish);
    reveal(model::shutdown_close);
}

proof fn lemma_response_flushed<R, C>(m: DispatcherView<R>, outcome: WriteOutcome)
    requires
        settled(m),
        m.awaiting == Awaiting::ResponseFlush,
    ensures
        proceeds(m, model::response_flushed::<R, C>(m, outcome)),
{
    reveal(model::response_flushed);
    reveal(model::finish);
    match model::poll_flush(m, outcome) {
        Flushed::Again(m1) => {},
        Flushed::Over(m1, would_block) => {
            lemma_decide::<R, C>(m1);
            lemma_poll_response::<R, C>(m1);
        },
        Flushed::Failed(kind) => {},
    }
}

proof fn lemma_shutdown_closed<R, C>(m: DispatcherView<R>, outcome: CloseOutcome)
    requires
        resting(m),
        m.flags.shutdown,
        m.awaiting == Awaiting::ShutdownClose,
    ensures
        proceeds(m, model::shutdown_closed::<R, C>(m, outcome)),
{
    reveal(model::shutdown_closed);
    reveal(model::suspend);
    reveal(model::finish);
}

proof fn lemma_handle_expect<R, C>(m: DispatcherView<R>, outcome: ExpectOutcome<R>)
    requires
        inv(m),
        m.awaiting == Awaiting::HandleExpect,
    ensures
        proceeds(m, model::handle_expect::<R, C>(m, outcome)),
{
    reveal(model::handle_expect);
    reveal(model::continued);
    lemma_request_loop::<R, C>(m);
}

proof fn lemma_handle_service<R, C>(m: DispatcherView<R>, outcome: ServiceOutcome)
    requires
        inv(m),
        m.awaiting == Awaiting::HandleService,
    ensures
        proceeds(m, model::handle_service::<R, C>(m, outcome)),
{
    reveal(model::handle_service);
    lemma_request_loop::<R, C>(m);
}

proof fn lemma_fail<R, C>(m: DispatcherView<R>, error: DispatchError)
    requires
        queue_inv(m),
    ensures
        proceeds(m, model::fail::<R, C>(m, error)),
{
    reveal(model::fail);
    reveal(model::finish);
}

proof fn lemma_handle_encoded<R, C>(m: DispatcherView<R>, outcome: EncodeOutcome)
    requires
        inv(m),
        m.awaiting == Awaiting::HandleEncode,
    ensures
        proceeds_freed(
            m,
            model::handle_encoded::<R, C>(m, outcome),
            completes::<R, C>(m, Event::Encoded(outcome)),
        ),
{
    reveal(model::handle_encoded);
    match model::send_response(m, outcome) {
        Ok(sent) => {
            lemma_request_loop::<R, C>(sent);
        },
        Err(kind) => {
            lemma_fail::<R, C>(m, DispatchError::Io(kind));
        },
    }
}

proof fn lemma_response_expect<R, C>(m: DispatcherView<R>, outcome: ExpectOutcome<R>)
    requires
        inv(m),
        m.awaiting == Awaiting::ResponseExpect,
    ensures
        proceeds(m, model::response_expect::<R, C>(m, outcome)),
{
    reveal(model::response_expect);
    reveal(model::continued);
    lemma_flush_then_decide::<R, C>(m);
}

proof fn lemma_response_service<R, C>(m: DispatcherView<R>, outcome: ServiceOutcome)
    requires
        inv(m),
        m.awaiting == Awaiting::ResponseService,
    ensures
        proceeds(m, model::response_service::<R, C>(m, outcome)),
{
    reveal(model::response_service);
    lemma_poll_request::<R, C>(m, true);
}

proof fn lemma_response_encoded<R, C>(m: DispatcherView<R>, outcome: EncodeOutcome)
    requires
        inv(m),
        m.awaiting == Awaiting::ResponseEncode,
    ensures
        proceeds_freed(
            m,
            model::response_encoded::<R, C>(m, outcome),
            completes::<R, C>(m, Event::Encoded(outcome)),
        ),
{
    reveal(model::response_encoded);
    match model::send_response(m, outcome) {
        Ok(sent) => {
            lemma_poll_response::<R, C>(sent);
        },
        Err(kind) => {
            lemma_fail::<R, C>(m, DispatchError::Io(kind));
        },
    }
}

proof fn lemma_response_body<R, C>(m: DispatcherView<R>, outcome: BodyOutcome<C>)
    requires
        inv(m),
        m.awaiting == Awaiting::ResponseBody,
    ensures
        proceeds(m, model::response_body::<R, C>(m, outcome)),
{
    reveal(model::response_body);
    reveal(model::finish);
    lemma_flush_then_decide::<R, C>(m);
}

proof fn lemma_response_chunk<R, C>(m: DispatcherView<R>, last: bool, outcome: ChunkOutcome)
    requires
        inv(m),
        m.awaiting == (Awaiting::ResponseChunk { last }),
    ensures
        proceeds_freed(
            m,
            model::response_chunk::<R, C>(m, last, outcome),
            completes::<R, C>(m, Event::Chunk(outcome)),
        ),
{
    reveal(model::response_chunk);
    reveal(model::finish);
    lemma_poll_response::<R, C>(DispatcherView { state: State::Idle, ..m });
    lemma_stream_body::<R, C>(m);
}

proof fn lemma_upgraded<R, C>(m: DispatcherView<R>, outcome: UpgradeOutcome)
    requires
        inv(m),
        m.awaiting == Awaiting::Upgrading,
    ensures
        proceeds(m, model::upgraded::<R, C>(m, outcome)),
{
    reveal(model::upgraded);
    reveal(model::suspend);
    reveal(model::finish);
}

/// What holds of every wake: the invariant is kept, the histories grow,
/// no flag that is never undone is undone, no failure that is kept is let go
/// of, nothing is closed or ended too early, a read is asked for only while
/// the read buffer is below `MAX_BUFFER_SIZE`, and a connection that is busy
/// takes up no message.
pub proof fn lemma_poll_advances<R, C>(m: DispatcherView<R>, now: u64)
    requires
        inv(m),
        m.awaiting == Awaiting::Wake,
    ensures
        advances(m, model::poll::<R, C>(m, now)),
        !m.state.is_empty() ==> model::poll::<R, C>(m, now).0.served == m.served,
{
    reveal(model::poll);
    let m1 = DispatcherView { now, ..m };
    if !m.flags.upgrade {
        lemma_poll_keepalive::<R, C>(m1);
        lemma_then_after_keepalive(m1, model::poll_keepalive::<R, C>(m1));
    }
}

/// What holds of every answer of the driver: the invariant is kept, the
/// histories grow, no flag that is never undone is undone, no failure that
/// is kept is let go of, and nothing is closed or ended too early. A read is
/// asked for only while the read buffer is below `MAX_BUFFER_SIZE`, only in
/// the first stages of a wake, and after a read only if that read brought
/// something. A message is taken up only by a connection that is busy with
/// nothing, or by one whose message in progress is just done with.
pub proof fn lemma_resume_advances<R, C>(m: DispatcherView<R>, event: Event<R, C>)
    requires
        inv(m),
        model::accepts(m, event),
    ensures
        advances(m, model::resume(m, event)),
        model::resume(m, event).0.served != m.served ==> m.state.is_empty() || completes(
            m,
            event,
        ),
        model::resume(m, event).1 is Read ==> {
            ||| m.awaiting == Awaiting::KeepAliveAbort
            ||| m.awaiting == Awaiting::KeepAliveRearm
            ||| m.awaiting == Awaiting::KeepAliveTimer
            ||| (m.awaiting == Awaiting::Reading && m.read_buf.len() < MAX_BUFFER_SIZE && (event
                matches Event::Read(ReadOutcome::Ready(n)) && n > 0))
        },
{
    match (m.awaiting, event) {
        (Awaiting::KeepAliveArm, Event::Done) => {},
        (Awaiting::KeepAliveAbort, Event::Done) => {
            lemma_after_keepalive::<R, C>(m);
        },
        (Awaiting::KeepAliveRearm, Event::Done) => {
            lemma_after_keepalive::<R, C>(m);
        },
        (Awaiting::KeepAliveTimer, Event::Timer(fired)) => {
            lemma_keepalive_fired::<R, C>(m, fired);
            lemma_then_after_keepalive(m, model::keepalive_fired::<R, C>(m, fired));
        },
        (Awaiting::KeepAliveTimeout, Event::Encoded(outcome)) => {
            let sent = model::keepalive_timeout_sent(m, outcome);
            lemma_poll_keepalive::<R, C>(sent);
            lemma_then_after_keepalive(sent, model::poll_keepalive::<R, C>(sent));
            reveal(model::then_after_keepalive);
            reveal(model::after_keepalive);
            reveal(model::poll_keepalive);
            reveal(model::enter_shutdown);
            match model::poll_keepalive::<R, C>(sent) {
                Next::Emit(_, _) => {},
                Next::Continue(stopping) => {
                    lemma_shutdown_pass::<R, C>(stopping);
                },
            }
        },
        (Awaiting::ShutdownFlush, Event::Written(outcome)) => {
            lemma_shutdown_flushed::<R, C>(m, outcome);
        },
        (Awaiting::ShutdownClose, Event::Closed(outcome)) => {
            lemma_shutdown_closed::<R, C>(m, outcome);
        },
        (Awaiting::Reading, Event::Read(outcome)) => {
            lemma_read_done::<R, C>(m, outcome);
        },
        (Awaiting::RequestNeedRead, Event::Payload(status)) => {
            reveal(model::request_wanted);
            lemma_request_done::<R, C>(m);
        },
        (Awaiting::RequestDecode, Event::Decoded(decoded)) => {
            lemma_request_decoded::<R, C>(m, decoded);
        },
        (Awaiting::RequestOpenPayload { expect }, Event::Request(request)) => {
            lemma_accept_request::<R, C>(DispatcherView { payload: true, ..m }, request, expect);
        },
        (Awaiting::RequestFeed, Event::Done) => {
            lemma_request_loop::<R, C>(m);
        },
        (Awaiting::RequestAbort, Event::Done) => {
            lemma_request_done::<R, C>(m);
        },
        (Awaiting::HandleExpect, Event::Expect(outcome)) => {
            lemma_handle_expect::<R, C>(m, outcome);
        },
        (Awaiting::HandleService, Event::Service(outcome)) => {
            lemma_handle_service::<R, C>(m, outcome);
        },
        (Awaiting::HandleEncode, Event::Encoded(outcome)) => {
            lemma_handle_encoded::<R, C>(m, outcome);
        },
        (Awaiting::DisconnectEof, Event::Done) => {
            lemma_poll_response::<R, C>(m);
        },
        (Awaiting::ResponseExpect, Event::Expect(outcome)) => {
            lemma_response_expect::<R, C>(m, outcome);
        },
        (Awaiting::ResponseService, Event::Service(outcome)) => {
            lemma_response_service::<R, C>(m, outcome);
        },
        (Awaiting::ResponseEncode, Event::Encoded(outcome)) => {
            lemma_response_encoded::<R, C>(m, outcome);
        },
        (Awaiting::ResponseBody, Event::Body(outcome)) => {
            lemma_response_body::<R, C>(m, outcome);
        },
        (Awaiting::ResponseChunk { last }, Event::Chunk(outcome)) => {
            lemma_response_chunk::<R, C>(m, last, outcome);
        },
        (Awaiting::ResponseFlush, Event::Written(outcome)) => {
            lemma_response_flushed::<R, C>(m, outcome);
        },
        (Awaiting::Failing(error), Event::Done) => {
            reveal(model::finish);
        },
        (Awaiting::Upgrading, Event::Upgrade(outcome)) => {
            lemma_upgraded::<R, C>(m, outcome);
        },
        _ => {},
    }
}

/// Backpressure on reading: once a read has brought the read buffer to
/// `MAX_BUFFER_SIZE` or beyond, the next thing asked of the driver is no
/// read; nor is it after a read that brought nothing, or after one that
/// failed or found nothing to read.
pub proof fn law_reading_stops_at_the_limit<R, C>(m: DispatcherView<R>, outcome: ReadOutcome)
    requires
        inv(m),
        m.awaiting == Awaiting::Reading,
        m.read_buf.len() >= MAX_BUFFER_SIZE || !(outcome matches ReadOutcome::Ready(n) && n > 0),
    ensures
        !(model::resume::<R, C>(m, Event::Read(outcome)).1 is Read),
{
    lemma_resume_advances::<R, C>(m, Event::Read(outcome));
}

/// The read buffer is bounded across wakes: whenever the driver is asked
/// for a read, at the start of a wake or after any of its answers, the read
/// buffer holds less than `MAX_BUFFER_SIZE`. As a read is handed room for at
/// most `HW_BUFFER_SIZE` bytes, the read buffer never holds as much as
/// `MAX_BUFFER_SIZE + HW_BUFFER_SIZE`.
pub proof fn law_reads_below_the_limit<R, C>(m: DispatcherView<R>, event: Event<R, C>, now: u64)
    requires
        inv(m),
    ensures
        model::accepts(m, event) && model::resume(m, event).1 is Read ==> model::resume(
            m,
            event,
        ).0.read_buf.len() < MAX_BUFFER_SIZE,
        m.awaiting == Awaiting::Wake && model::poll::<R, C>(m, now).1 is Read ==> model::poll::<
            R,
            C,
        >(m, now).0.read_buf.len() < MAX_BUFFER_SIZE,
        m.awaiting == Awaiting::Wake && m.read_buf.len() >= MAX_BUFFER_SIZE ==> !(model::poll::<
            R,
            C,
        >(m, now).1 is Read),
{
    if model::accepts(m, event) {
        lemma_resume_advances::<R, C>(m, event);
    }
    if m.awaiting == Awaiting::Wake {
        lemma_poll_advances::<R, C>(m, now);
        reveal(model::poll);
        reveal(model::then_after_keepalive);
        reveal(model::after_keepalive);
        reveal(model::read_available);
        let m1 = DispatcherView { now, ..m };
        if !m.flags.upgrade {
            lemma_poll_keepalive::<R, C>(m1);
            match model::poll_keepalive::<R, C>(m1) {
                Next::Emit(_, _) => {},
                Next::Continue(m2) => {
                    reveal(model::poll_keepalive);
                    reveal(model::enter_shutdown);
                    lemma_after_keepalive::<R, C>(m2);
                    if m2.flags.shutdown {
                        lemma_shutdown_pass::<R, C>(m2);
                    } else {
                        lemma_poll_request::<R, C>(
                            DispatcherView { should_disconnect: true, ..m2 },
                            false,
                        );
                        lemma_poll_request::<R, C>(
                            DispatcherView { should_disconnect: false, ..m2 },
                            false,
                        );
                    }
                },
            }
        }
    }
}

/// Backpressure: on every connection at most `MAX_PIPELINED_MESSAGES`
/// decoded messages wait for their turn. (`lemma_poll_advances` and
/// `lemma_resume_advances` show that every connection satisfies `inv`.)
pub proof fn law_pipeline_bounded<R>(m: DispatcherView<R>)
    requires
        inv(m),
    ensures
        m.messages.len() <= MAX_PIPELINED_MESSAGES,
{
}

/// The order of the pipeline: the messages that were taken up so far are the first
/// ones that were accepted, in the order of decoding, and those that wait are
/// all the others, in that order. As both histories only grow, every message
/// is taken up at most once, and after all that were decoded before it.
pub proof fn law_pipeline_order<R>(m: DispatcherView<R>)
    requires
        inv(m),
    ensures
        grown(m.served, m.accepted),
        m.messages == m.accepted.skip(m.served.len() as int),
{
    assert(m.messages =~= (m.served + m.messages).skip(m.served.len() as int));
}

/// One response at a time: a message is taken up only by a connection that
/// is busy with nothing, or by one whose message in progress is done with by
/// the very answer of the driver; and a wake takes up none on a connection
/// that is busy.
pub proof fn law_one_at_a_time<R, C>(m: DispatcherView<R>, event: Event<R, C>, now: u64)
    requires
        inv(m),
    ensures
        model::accepts(m, event) && !m.state.is_empty() && !completes(m, event) ==> model::resume(
            m,
            event,
        ).0.served == m.served,
        m.awaiting == Awaiting::Wake && !m.state.is_empty() ==> model::poll::<R, C>(m, now).0.served
            == m.served,
{
    if model::accepts(m, event) {
        lemma_resume_advances::<R, C>(m, event);
    }
    if m.awaiting == Awaiting::Wake {
        lemma_poll_advances::<R, C>(m, now);
    }
}

/// Handing over to an upgrade, first part: an upgrade request that is taken up goes to
/// no handler. The connection is handed over with the request and with the
/// bytes of both buffers, and is marked as upgraded.
pub proof fn law_upgrade_hands_over<R, C>(m: DispatcherView<R>, request: R)
    ensures
        model::take_up::<R, C>(m, DispatcherMessage::Upgrade(request)).1 == Action::<
            R,
            C,
            Seq<u8>,
        >::Upgrade(
            crate::h1::io::UpgradeParts { request, read_buf: m.read_buf, write_buf: m.write_buf },
        ),
        model::take_up::<R, C>(m, DispatcherMessage::Upgrade(request)).0.flags.upgrade,
        model::take_up::<R, C>(m, DispatcherMessage::Upgrade(request)).0.awaiting
            == Awaiting::Upgrading,
{
    reveal(model::take_up);
    reveal(model::upgrade);
}

/// Handing over to an upgrade, second part: a connection that was handed over does
/// nothing but ask the upgrade handler, and ends as the upgrade handler
/// ends.
pub proof fn law_upgrade_is_final<R, C>(m: DispatcherView<R>, now: u64, outcome: UpgradeOutcome)
    requires
        inv(m),
        m.flags.upgrade,
    ensures
        m.awaiting == Awaiting::Wake ==> model::poll::<R, C>(m, now) == (
            DispatcherView { now, awaiting: Awaiting::Upgrading, ..m },
            Action::<R, C, Seq<u8>>::PollUpgrade,
        ),
        m.awaiting == Awaiting::Upgrading ==> model::resume::<R, C>(m, Event::Upgrade(outcome))
            == match outcome {
            UpgradeOutcome::Pending => (
                DispatcherView { awaiting: Awaiting::Wake, ..m },
                Action::<R, C, Seq<u8>>::Suspend,
            ),
            UpgradeOutcome::Done => (
                DispatcherView { awaiting: Awaiting::Finished, ..m },
                Action::<R, C, Seq<u8>>::Finish(Ok(())),
            ),
            UpgradeOutcome::Failed => (
                DispatcherView { awaiting: Awaiting::Finished, ..m },
                Action::<R, C, Seq<u8>>::Finish(Err(DispatchError::Upgrade)),
            ),
        },
        m.awaiting == Awaiting::Wake || m.awaiting == Awaiting::Upgrading || m.awaiting
            == Awaiting::Finished || m.awaiting is Failing,
{
    reveal(model::poll);
    reveal(model::upgraded);
    reveal(model::suspend);
    reveal(model::finish);
}

/// Entering the shutdown: a connection that shuts down, and whose timer is
/// not armed for the grace period, gets the timer armed for it if a grace
/// period is configured, in place of whatever it was armed for. If none is,
/// the shutdown follows in the same wake: with nothing left to write, the
/// write side counts as closed at once and the connection ends in success;
/// else what waits is written first.
pub proof fn law_entering_shutdown<R, C>(m: DispatcherView<R>)
    requires
        m.flags.shutdown,
        !model::in_grace(m),
        !m.payload,
        !m.flags.write_disconnect,
    ensures
        match m.config.client_disconnect_timer(m.now) {
            Some(deadline) => model::poll_keepalive::<R, C>(m) == Next::<R, C>::Emit(
                DispatcherView {
                    ka_timer: Some(
                        crate::h1::message::KeepAliveTimer {
                            deadline,
                            purpose: crate::h1::message::TimerPurpose::ShutdownTimeout,
                        },
                    ),
                    awaiting: Awaiting::KeepAliveArm,
                    ..m
                },
                Action::ResetTimer(deadline),
            ),
            None => {
                let step = if m.write_buf.len() == 0 {
                    (
                        DispatcherView {
                            flags: Flags { write_disconnect: true, ..m.flags },
                            awaiting: Awaiting::Finished,
                            ..m
                        },
                        Action::<R, C, Seq<u8>>::Finish(Ok(())),
                    )
                } else {
                    (
                        DispatcherView { awaiting: Awaiting::ShutdownFlush, written: 0, ..m },
                        Action::<R, C, Seq<u8>>::Write(0),
                    )
                };
                &&& model::poll_keepalive::<R, C>(m) == Next::<R, C>::Continue(m)
                &&& model::then_after_keepalive(model::poll_keepalive::<R, C>(m)) == step
                &&& model::then_shutdown(model::poll_keepalive::<R, C>(m)) == step
            },
        },
{
    reveal(model::poll_keepalive);
    reveal(model::enter_shutdown);
    reveal(model::arm);
    reveal(model::then_after_keepalive);
    reveal(model::then_shutdown);
    reveal(model::after_keepalive);
    reveal(model::shutdown_pass);
    reveal(model::shutdown_end);
    reveal(model::finish);
}

/// The shutdown writes before it closes: while the write buffer of a
/// connection that shuts down is flushed, a write that leaves something goes
/// on or, if the stream takes no more, lets the connection wait for the next
/// wake with the rest; only the write that empties the buffer is followed by
/// the close: during the grace period the write side of the stream is
/// closed, and without one the write side counts as closed and the
/// connection ends in success.
pub proof fn law_shutdown_writes_first<R, C>(m: DispatcherView<R>, outcome: WriteOutcome)
    requires
        m.awaiting == Awaiting::ShutdownFlush,
        model::write_fits(m, outcome),
    ensures
        model::resume::<R, C>(m, Event::Written(outcome)) == match model::poll_flush(m, outcome) {
            Flushed::Again(m1) => (m1, Action::<R, C, Seq<u8>>::Write(m1.written)),
            Flushed::Over(m1, _) => if m1.write_buf.len() != 0 {
                (DispatcherView { awaiting: Awaiting::Wake, ..m1 }, Action::<R, C, Seq<u8>>::Suspend)
            } else if model::in_grace(m) {
                (
                    DispatcherView { awaiting: Awaiting::ShutdownClose, ..m1 },
                    Action::<R, C, Seq<u8>>::Shutdown,
                )
            } else {
                (
                    DispatcherView {
                        flags: Flags { write_disconnect: true, ..m1.flags },
                        awaiting: Awaiting::Finished,
                        ..m1
                    },
                    Action::<R, C, Seq<u8>>::Finish(Ok(())),
                )
            },
            Flushed::Failed(kind) => (
                DispatcherView { awaiting: Awaiting::Finished, ..m },
                Action::<R, C, Seq<u8>>::Finish(Err(DispatchError::Io(kind))),
            ),
        },
{
    reveal(model::shutdown_flushed);
    reveal(model::shutdown_end);
    reveal(model::shutdown_close);
    reveal(model::suspend);
    reveal(model::finish);
}

/// Nothing is closed or ended too early: whatever the driver reports, the
/// write side of the stream is closed only with nothing left to write, and
/// the connection ends in success only with nothing left to write, unless
/// the stream failed under the decoder, or the closing of the write side or
/// the upgrade handler has come to its end.
pub proof fn law_success_after_the_flush<R, C>(m: DispatcherView<R>, event: Event<R, C>, now: u64)
    requires
        inv(m),
    ensures
        model::accepts(m, event) ==> in_time(m, model::resume(m, event)),
        m.awaiting == Awaiting::Wake ==> in_time(m, model::poll::<R, C>(m, now)),
{
    if model::accepts(m, event) {
        lemma_resume_advances::<R, C>(m, event);
    }
    if m.awaiting == Awaiting::Wake {
        lemma_poll_advances::<R, C>(m, now);
    }
}

/// A failure is kept until it is reported. Whatever the driver reports, a
/// failure that is kept stays kept or is the result of the connection; no
/// wake ends with a failure kept unless something is in progress or is left
/// to write; and a connection that shuts down keeps none, so that the
/// shutdown lets go of none.
pub proof fn law_failure_is_kept<R, C>(m: DispatcherView<R>, event: Event<R, C>, now: u64)
    requires
        inv(m),
    ensures
        model::accepts(m, event) ==> keeps(m, model::resume(m, event)),
        m.awaiting == Awaiting::Wake ==> keeps(m, model::poll::<R, C>(m, now)),
        m.flags.shutdown ==> m.error is None,
{
    if model::accepts(m, event) {
        lemma_resume_advances::<R, C>(m, event);
    }
    if m.awaiting == Awaiting::Wake {
        lemma_poll_advances::<R, C>(m, now);
    }
}

/// The end of a wake, for a connection whose write side is open. While
/// something is in progress or is left to write, the connection waits for
/// the next wake as it is: it keeps its failure, if it has one, and does not
/// begin to shut down. Once it is idle, the failure that it keeps is its
/// result. With none kept, it shuts down if it is to stop, and waits for the
/// next wake otherwise.
pub proof fn law_end_of_a_wake<R, C>(m: DispatcherView<R>)
    requires
        !m.flags.write_disconnect,
    ensures
        !model::idle(m) ==> model::decide::<R, C>(m) == (
            DispatcherView { awaiting: Awaiting::Wake, ..m },
            Action::<R, C, Seq<u8>>::Suspend,
        ),
        model::idle(m) ==> match m.error {
            Some(error) => model::decide::<R, C>(m) == (
                DispatcherView { error: None, awaiting: Awaiting::Finished, ..m },
                Action::<R, C, Seq<u8>>::Finish(Err(error)),
            ),
            None => if model::stops(m) {
                model::decide::<R, C>(m) == model::then_shutdown(
                    model::poll_keepalive::<R, C>(
                        DispatcherView { flags: Flags { shutdown: true, ..m.flags }, ..m },
                    ),
                )
            } else {
                model::decide::<R, C>(m) == (
                    DispatcherView { awaiting: Awaiting::Wake, ..m },
                    Action::<R, C, Seq<u8>>::Suspend,
                )
            },
        },
{
    reveal(model::decide);
    reveal(model::suspend);
    reveal(model::finish);
}

/// Disconnect timeout: the timer of a connection that shuts down is the one
/// for the grace period, and when it fires the connection ends with
/// `DisconnectTimeout`.
pub proof fn law_disconnect_timeout<R, C>(m: DispatcherView<R>)
    requires
        inv(m),
        m.flags.shutdown,
        m.awaiting == Awaiting::Wake,
        !m.flags.upgrade,
        m.ka_timer is Some,
    ensures
        model::poll::<R, C>(m, m.now).1 is PollTimer ==> model::in_grace(m),
        model::in_grace(m) ==> model::resume::<R, C>(
            DispatcherView { awaiting: Awaiting::KeepAliveTimer, ..m },
            Event::Timer(true),
        ) == (
            DispatcherView { awaiting: Awaiting::Finished, ..m },
            Action::<R, C, Seq<u8>>::Finish(Err(DispatchError::DisconnectTimeout)),
        ),
{
    reveal(model::poll);
    reveal(model::poll_keepalive);
    reveal(model::enter_shutdown);
    reveal(model::arm);
    reveal(model::then_after_keepalive);
    reveal(model::after_keepalive);
    reveal(model::keepalive_fired);
    reveal(model::shutdown_pass);
    reveal(model::shutdown_end);
    reveal(model::shutdown_close);
    reveal(model::finish);
    let m1 = DispatcherView { now: m.now, ..m };
    assert(m1 == m);
}

/// A first request that is slow: when the timer fires in time on a
/// connection that has seen no message, has nothing left to do and does not
/// shut down, the 408 response is encoded, and the connection shuts down.
/// With `encoded` for what the encoder has put into the write buffer:
///
/// - where a grace period is configured, the timer is armed for it, and
///   unless it fires at once the 408 response is written, or, if the encoder
///   has put nothing, the write side of the stream is closed;
/// - where none is, the 408 response is written at once, or, if the encoder
///   has put nothing, the write side counts as closed and the connection ends
///   in success.
///
/// Either way the close comes only after the write that empties the write
/// buffer (see [`law_shutdown_writes_first`]).
pub proof fn law_slow_request_timeout<R, C>(
    m: DispatcherView<R>,
    outcome: EncodeOutcome,
    encoded: Seq<u8>,
)
    requires
        inv(m),
        m.awaiting == Awaiting::KeepAliveTimer,
        m.ka_timer matches Some(timer) && timer.deadline >= m.ka_expire,
        !m.flags.started,
        !m.flags.shutdown,
        model::quiet(m),
    ensures
        model::resume::<R, C>(m, Event::Timer(true)) == (
            DispatcherView { awaiting: Awaiting::KeepAliveTimeout, ..m },
            Action::<R, C, Seq<u8>>::Encode(
                crate::h1::io::Reply::Error(ErrorResponse::RequestTimeout),
            ),
        ),
        ({
            let sent = DispatcherView {
                awaiting: Awaiting::KeepAliveTimeout,
                write_buf: encoded,
                ..m
            };
            let (stopping, action) = model::resume::<R, C>(sent, Event::Encoded(outcome));
            &&& stopping.flags.shutdown
            &&& stopping.flags.started
            &&& stopping.state == State::Idle
            &&& stopping.write_buf == encoded
            &&& match m.config.client_disconnect_timer(m.now) {
                Some(deadline) => {
                    let asking = DispatcherView { awaiting: Awaiting::KeepAliveTimer, ..stopping };
                    &&& action == Action::<R, C, Seq<u8>>::ResetTimer(deadline)
                    &&& stopping.awaiting == Awaiting::KeepAliveArm
                    &&& model::in_grace(stopping)
                    &&& !stopping.flags.write_disconnect
                    &&& model::resume::<R, C>(stopping, Event::Done) == (
                        asking,
                        Action::<R, C, Seq<u8>>::PollTimer,
                    )
                    &&& model::resume::<R, C>(asking, Event::Timer(false)) == if encoded.len()
                        > 0 {
                        (
                            DispatcherView {
                                awaiting: Awaiting::ShutdownFlush,
                                written: 0,
                                ..stopping
                            },
                            Action::<R, C, Seq<u8>>::Write(0),
                        )
                    } else {
                        (
                            DispatcherView { awaiting: Awaiting::ShutdownClose, ..stopping },
                            Action::<R, C, Seq<u8>>::Shutdown,
                        )
                    }
                },
                None => if encoded.len() > 0 {
                    &&& action == Action::<R, C, Seq<u8>>::Write(0)
                    &&& stopping.awaiting == Awaiting::ShutdownFlush
                    &&& stopping.written == 0
                    &&& !stopping.flags.write_disconnect
                } else {
                    &&& action == Action::<R, C, Seq<u8>>::Finish(Ok(()))
                    &&& stopping.flags.write_disconnect
                    &&& stopping.awaiting == Awaiting::Finished
                },
            }
        }),
{
    reveal(model::keepalive_fired);
    reveal(model::then_after_keepalive);
    reveal(model::after_keepalive);
    reveal(model::poll_keepalive);
    reveal(model::enter_shutdown);
    reveal(model::arm);
    reveal(model::shutdown_pass);
    reveal(model::shutdown_end);
    reveal(model::shutdown_close);
    reveal(model::finish);
}

/// Expect and continue: when the interceptor lets a request go on, the
/// interim response is appended to the write buffer, and nothing else, and
/// the request goes to the handler.
pub proof fn law_continue_before_service<R, C>(m: DispatcherView<R>, request: R)
    requires
        m.awaiting == Awaiting::HandleExpect || m.awaiting == Awaiting::ResponseExpect,
    ensures
        ({
            let (called, action) = model::resume::<R, C>(
                m,
                Event::Expect(ExpectOutcome::Continue(request)),
            );
            &&& called.write_buf == m.write_buf + crate::h1::message::continue_line()
            &&& called.state == State::ServiceCall
            &&& action == Action::<R, C, Seq<u8>>::CallService(request)
        }),
{
    reveal(model::handle_expect);
    reveal(model::response_expect);
    reveal(model::continued);
}

/// Malformed request: a message that cannot be parsed closes the read side
/// for good, and the 400 response is the next message accepted after all
/// that were decoded before.
pub proof fn law_malformed_request<R, C>(m: DispatcherView<R>, error: ParseError)
    requires
        inv(m),
        m.awaiting == Awaiting::RequestDecode,
        !(error is Io),
    ensures
        ({
            let after = model::resume::<R, C>(m, Event::Decoded(Decoded::Failed(error))).0;
            &&& after.flags.read_disconnect
            &&& after.accepted.len() > m.accepted.len()
            &&& after.accepted[m.accepted.len() as int] == DispatcherMessage::<R>::Error(
                ErrorResponse::BadRequest,
            )
        }),
{
    reveal(model::request_decoded);
    let m2 = DispatcherView {
        flags: Flags { read_disconnect: true, ..m.flags },
        error: Some(DispatchError::Parse(error)),
        ..m
    };
    let message = DispatcherMessage::Error(ErrorResponse::BadRequest);
    lemma_enqueue(m2, message);
    lemma_abort_payload::<R, C>(model::enqueue(m2, message), PayloadError::EncodingCorrupted);
    let queued = model::enqueue(m2, message);
    let after = model::abort_payload::<R, C>(queued, PayloadError::EncodingCorrupted).0;
    assert(queued.accepted[m.accepted.len() as int] == message);
    assert(after.accepted[m.accepted.len() as int] == queued.accepted[m.accepted.len() as int]);
}

/// Flush: a stream that takes no more leaves in the write buffer exactly
/// the bytes that were not written, in their order; a flush that comes to
/// its end leaves the write buffer empty; and a flush that goes on has
/// written more than before.
pub proof fn law_flush_keeps_the_rest<R>(m: DispatcherView<R>, outcome: WriteOutcome)
    requires
        model::write_fits(m, outcome),
        m.write_buf.len() <= usize::MAX,
    ensures
        match model::poll_flush(m, outcome) {
            Flushed::Again(m1) => m1.write_buf == m.write_buf && m1.written > m.written
                && m1.written < m.write_buf.len(),
            Flushed::Over(m1, would_block) => if would_block {
                m1.write_buf == m.write_buf.skip(m.written as int)
            } else {
                m1.write_buf.len() == 0
            },
            Flushed::Failed(_) => true,
        },
{
}

} // verus!
