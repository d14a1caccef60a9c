use bytes::BytesMut;
use h1_dispatch::error::{DispatchError, IoErrorKind, ParseError, PayloadError};
use h1_dispatch::h1::config::{KeepAlive, ServiceConfig};
use h1_dispatch::h1::dispatcher::{room_to_make, Dispatcher};
use h1_dispatch::h1::io::{
    Action, BodyOutcome, ChunkOutcome, CloseOutcome, Decoded, EncodeOutcome, Event,
    ExpectOutcome, ReadOutcome, Reply, ServiceOutcome, UpgradeOutcome, WriteOutcome,
};
use h1_dispatch::h1::message::{
    BodySize, ErrorResponse, KeepAliveTimer, MessageType, PayloadStatus, State, TimerPurpose,
    HW_BUFFER_SIZE, MAX_BUFFER_SIZE, MAX_PIPELINED_MESSAGES,
};
use h1_dispatch::h1::model::Awaiting;
use std::collections::VecDeque;

type Req = String;
type Chunk = Vec<u8>;
type Act = Action<Req, Chunk, BytesMut>;

const CONTINUE: &[u8] = b"HTTP/1.1 100 Continue\r\n\r\n";

/// What the handler does with a request.
#[derive(Clone, Copy, PartialEq)]
enum Handler {
    /// Answers at once, with the request's path as the body.
    EchoPath,
    /// Answers at once, with an empty body.
    Empty,
    /// Waits until the request body is complete, and answers with it.
    EchoPayload,
    /// Never answers.
    Never,
}

/// A driver that plays the stream, the codec, the handler and the timer.
struct World {
    d: Dispatcher<Req>,
    handler: Handler,
    keepalive: bool,
    reads: VecDeque<(Vec<u8>, ReadOutcome)>,
    decoded: VecDeque<Decoded<Req, Chunk>>,
    need_read: PayloadStatus,
    expect: VecDeque<ExpectOutcome<Req>>,
    writes: VecDeque<WriteOutcome>,
    timer: VecDeque<bool>,
    close: CloseOutcome,
    upgrade: VecDeque<UpgradeOutcome>,
    encode_fails: bool,
    body_fails: bool,
    // what came of it
    log: Vec<String>,
    wire: Vec<u8>,
    called: Vec<Req>,
    fed: Vec<Chunk>,
    payload_ended: Vec<String>,
    timers: Vec<u64>,
    handed_over: Option<(Req, Vec<u8>, Vec<u8>)>,
    // the handler's side
    in_service: Option<Req>,
    payload_complete: bool,
    response_body: VecDeque<Chunk>,
    max_queued: usize,
}

impl World {
    fn new(config: ServiceConfig, upgrade_enabled: bool, handler: Handler) -> World {
        World::with(Dispatcher::new(config, 0, upgrade_enabled), handler, config)
    }

    fn with(d: Dispatcher<Req>, handler: Handler, config: ServiceConfig) -> World {
        World {
            d,
            handler,
            keepalive: config.keep_alive_enabled(),
            reads: VecDeque::new(),
            decoded: VecDeque::new(),
            need_read: PayloadStatus::Read,
            expect: VecDeque::new(),
            writes: VecDeque::new(),
            timer: VecDeque::new(),
            close: CloseOutcome::Closed,
            upgrade: VecDeque::new(),
            encode_fails: false,
            body_fails: false,
            log: Vec::new(),
            wire: Vec::new(),
            called: Vec::new(),
            fed: Vec::new(),
            payload_ended: Vec::new(),
            timers: Vec::new(),
            handed_over: None,
            in_service: None,
            payload_complete: false,
            response_body: VecDeque::new(),
            max_queued: 0,
        }
    }

    fn request(&mut self, path: &str) {
        self.decoded.push_back(Decoded::Request {
            request: path.to_owned(),
            expect: false,
            message_type: MessageType::Bodyless,
        });
    }

    fn poll_service(&mut self) -> ServiceOutcome {
        let ready = match self.handler {
            Handler::EchoPath => {
                let path = self.in_service.clone().unwrap();
                self.response_body = VecDeque::from(vec![path.into_bytes()]);
                true
            }
            Handler::Empty => {
                self.response_body = VecDeque::new();
                true
            }
            Handler::EchoPayload => {
                if self.payload_complete {
                    let body: Vec<u8> = self.fed.concat();
                    self.response_body = VecDeque::from(vec![body]);
                    true
                } else {
                    false
                }
            }
            Handler::Never => false,
        };
        if ready {
            ServiceOutcome::Ready
        } else {
            ServiceOutcome::Pending
        }
    }

    fn encode(&mut self, reply: Reply) -> EncodeOutcome {
        if self.encode_fails {
            return EncodeOutcome::Failed(IoErrorKind::Other);
        }
        let (status, length) = match reply {
            Reply::Error(response) => {
                self.response_body = VecDeque::new();
                (response.status(), 0)
            }
            Reply::Handler => (200, self.response_body.iter().map(|c| c.len()).sum::<usize>()),
        };
        let head = format!("HTTP/1.1 {}\r\ncontent-length: {}\r\n\r\n", status, length);
        self.d.write_buf_mut().extend_from_slice(head.as_bytes());
        EncodeOutcome::Encoded {
            keepalive: self.keepalive,
            body: if length == 0 { BodySize::Empty } else { BodySize::Sized(length as u64) },
        }
    }

    /// Does what `action` says and tells how it went.
    fn perform(&mut self, action: Act) -> Event<Req, Chunk> {
        match action {
            Action::PollTimer => Event::Timer(self.timer.pop_front().unwrap_or(false)),
            Action::ResetTimer(deadline) => {
                self.timers.push(deadline);
                Event::Done
            }
            Action::Read => match self.reads.pop_front() {
                Some((bytes, outcome)) => {
                    self.d.read_buf_mut().extend_from_slice(&bytes);
                    Event::Read(outcome)
                }
                None => Event::Read(ReadOutcome::Pending),
            },
            Action::Write(from) => {
                let outcome = match self.writes.pop_front() {
                    Some(outcome) => outcome,
                    None => WriteOutcome::Ready(self.d.write_buf().len() - from),
                };
                if let WriteOutcome::Ready(n) = outcome {
                    let taken = self.d.write_buf()[from..from + n].to_vec();
                    self.wire.extend_from_slice(&taken);
                }
                Event::Written(outcome)
            }
            Action::Shutdown => Event::Closed(self.close),
            Action::NeedRead => Event::Payload(self.need_read),
            Action::Decode => Event::Decoded(self.decoded.pop_front().unwrap_or(Decoded::Incomplete)),
            Action::OpenPayload(request) => {
                self.payload_complete = false;
                Event::Request(request)
            }
            Action::FeedData(chunk) => {
                self.fed.push(chunk);
                Event::Done
            }
            Action::FeedEof => {
                self.payload_complete = true;
                self.payload_ended.push("eof".to_owned());
                Event::Done
            }
            Action::PayloadError(error) => {
                self.payload_ended.push(format!("{:?}", error));
                Event::Done
            }
            Action::CallExpect(request) => {
                self.in_service = Some(request.clone());
                let outcome = self.expect.pop_front().unwrap_or(ExpectOutcome::Continue(request));
                Event::Expect(outcome)
            }
            Action::PollExpect => {
                let request = self.in_service.clone().unwrap();
                let outcome = self.expect.pop_front().unwrap_or(ExpectOutcome::Continue(request));
                Event::Expect(outcome)
            }
            Action::CallService(request) => {
                self.called.push(request.clone());
                self.in_service = Some(request);
                Event::Service(self.poll_service())
            }
            Action::PollService => Event::Service(self.poll_service()),
            Action::Encode(reply) => Event::Encoded(self.encode(reply)),
            Action::PollBody => {
                if self.body_fails {
                    Event::Body(BodyOutcome::Failed)
                } else {
                    match self.response_body.pop_front() {
                        Some(chunk) => Event::Body(BodyOutcome::Chunk(chunk)),
                        None => Event::Body(BodyOutcome::End),
                    }
                }
            }
            Action::EncodeChunk(chunk) => {
                if let Some(chunk) = chunk {
                    self.d.write_buf_mut().extend_from_slice(&chunk);
                }
                Event::Chunk(ChunkOutcome::Encoded)
            }
            Action::Upgrade(parts) => {
                self.handed_over =
                    Some((parts.request, parts.read_buf.to_vec(), parts.write_buf.to_vec()));
                Event::Upgrade(self.upgrade.pop_front().unwrap_or(UpgradeOutcome::Pending))
            }
            Action::PollUpgrade => {
                Event::Upgrade(self.upgrade.pop_front().unwrap_or(UpgradeOutcome::Pending))
            }
            Action::Suspend | Action::Finish(_) => unreachable!(),
        }
    }

    /// Runs one wake. `None` if the connection waits for the next one.
    fn wake(&mut self, now: u64) -> Option<Result<(), DispatchError>> {
        assert_eq!(self.d.awaiting(), Awaiting::Wake);
        let mut action: Act = self.d.poll(now);
        loop {
            self.max_queued = self.max_queued.max(self.d.queued());
            assert!(self.d.queued() <= MAX_PIPELINED_MESSAGES);
            self.log.push(name(&action));
            match action {
                Action::Suspend => {
                    assert_eq!(self.d.awaiting(), Awaiting::Wake);
                    return None;
                }
                Action::Finish(result) => {
                    assert_eq!(self.d.awaiting(), Awaiting::Finished);
                    return Some(result);
                }
                other => {
                    let event = self.perform(other);
                    assert!(self.d.accepts(&event), "{:?} at {:?}", event, self.d.awaiting());
                    action = self.d.resume(event);
                }
            }
        }
    }

    fn took(&mut self) -> Vec<String> {
        std::mem::take(&mut self.log)
    }
}

fn name(action: &Act) -> String {
    match action {
        Action::CallExpect(request) => format!("CallExpect({})", request),
        Action::CallService(request) => format!("CallService({})", request),
        Action::OpenPayload(request) => format!("OpenPayload({})", request),
        Action::Upgrade(parts) => format!("Upgrade({})", parts.request),
        Action::FeedData(chunk) => format!("FeedData({})", String::from_utf8_lossy(chunk)),
        Action::EncodeChunk(Some(chunk)) => {
            format!("EncodeChunk({})", String::from_utf8_lossy(chunk))
        }
        Action::EncodeChunk(None) => "EncodeChunk(end)".to_owned(),
        other => format!("{:?}", other),
    }
}

fn no_keep_alive() -> ServiceConfig {
    ServiceConfig::new(KeepAlive::Disabled, 1, 1)
}

fn no_timeouts() -> ServiceConfig {
    ServiceConfig::new(KeepAlive::Disabled, 0, 0)
}

fn response(status: u16, body: &str) -> Vec<u8> {
    format!("HTTP/1.1 {}\r\ncontent-length: {}\r\n\r\n{}", status, body.len(), body).into_bytes()
}

#[test]
fn pipelined_requests_are_answered_in_order() {
    let mut w = World::new(no_keep_alive(), false, Handler::EchoPath);
    w.reads.push_back((b"GET /abcd HTTP/1.1\r\n\r\nGET /def HTTP/1.1\r\n\r\n".to_vec(), ReadOutcome::Ready(40)));
    w.reads.push_back((Vec::new(), ReadOutcome::Failed(IoErrorKind::WouldBlock)));
    w.request("/abcd");
    w.request("/def");

    assert_eq!(w.wake(0), Some(Ok(())));

    assert_eq!(w.called, vec!["/abcd".to_owned(), "/def".to_owned()]);
    let mut expected = response(200, "/abcd");
    expected.extend_from_slice(&response(200, "/def"));
    assert_eq!(w.wire, expected);
    assert_eq!(
        w.took(),
        vec![
            "Read",
            "Read",
            "Decode",
            "CallService(/abcd)",
            "Encode(Handler)",
            "Decode",
            "Decode",
            "PollBody",
            "EncodeChunk(/abcd)",
            "PollBody",
            "EncodeChunk(end)",
            "CallService(/def)",
            "Encode(Handler)",
            "PollBody",
            "EncodeChunk(/def)",
            "PollBody",
            "EncodeChunk(end)",
            "Write(0)",
            "ResetTimer(1)",
            "PollTimer",
            "Shutdown",
            "Finish(Ok(()))",
        ]
    );
    assert!(w.d.flags().shutdown);
    assert!(w.d.flags().started);
    assert!(!w.d.flags().keepalive);
}

#[test]
fn many_pipelined_requests_are_each_answered_once_and_in_order() {
    let mut w = World::new(no_keep_alive(), false, Handler::EchoPath);
    let paths: Vec<String> = (0..17).map(|i| format!("/{}", i)).collect();
    for path in &paths {
        w.request(path);
    }
    assert_eq!(w.wake(0), Some(Ok(())));
    assert_eq!(w.called, paths);
    let expected: Vec<u8> = paths.iter().flat_map(|p| response(200, p)).collect();
    assert_eq!(w.wire, expected);
}

#[test]
fn pipelined_requests_beyond_the_bound_are_answered_in_later_wakes() {
    let mut w = World::new(ServiceConfig::new(KeepAlive::Os, 0, 0), false, Handler::EchoPath);
    let paths: Vec<String> = (0..50).map(|i| format!("/{}", i)).collect();
    for path in &paths {
        w.request(path);
    }
    assert_eq!(w.wake(0), None);
    assert_eq!(w.called, paths[..17].to_vec());
    assert_eq!(w.wake(1), None);
    assert_eq!(w.called, paths[..34].to_vec());
    assert_eq!(w.wake(2), None);
    assert_eq!(w.called, paths);
    let expected: Vec<u8> = paths.iter().flat_map(|p| response(200, p)).collect();
    assert_eq!(w.wire, expected);
    assert_eq!(w.max_queued, 16);
}

#[test]
fn malformed_request_after_a_good_one_gets_400_and_closes() {
    let mut w = World::new(no_keep_alive(), false, Handler::EchoPath);
    w.request("/abcd");
    w.decoded.push_back(Decoded::Failed(ParseError::Version));

    assert_eq!(w.wake(0), Some(Err(DispatchError::Parse(ParseError::Version))));

    assert_eq!(w.called, vec!["/abcd".to_owned()]);
    let mut expected = response(200, "/abcd");
    expected.extend_from_slice(&response(400, ""));
    assert_eq!(w.wire, expected);
    assert!(w.d.flags().read_disconnect);
}

#[test]
fn malformed_first_request_gets_400() {
    let mut w = World::new(ServiceConfig::new(KeepAlive::Timeout(5), 0, 0), false, Handler::Empty);
    w.decoded.push_back(Decoded::Failed(ParseError::Version));
    let result = w.wake(0);
    assert!(result.unwrap().is_err());
    assert!(w.d.flags().read_disconnect);
    assert_eq!(&w.wire[..12], b"HTTP/1.1 400");
    assert_eq!(
        w.took(),
        vec!["PollTimer", "Read", "Decode", "Encode(Error(BadRequest))", "Write(0)", "Finish(Err(Parse(Version)))"]
    );
}

#[test]
fn malformed_request_ends_an_open_request_body() {
    let mut w = World::new(no_timeouts(), false, Handler::Never);
    w.decoded.push_back(Decoded::Request {
        request: "/upload".to_owned(),
        expect: false,
        message_type: MessageType::Payload,
    });
    w.decoded.push_back(Decoded::Failed(ParseError::Header));
    assert_eq!(w.wake(0), None);
    assert_eq!(w.payload_ended, vec!["EncodingCorrupted".to_owned()]);
    assert!(!w.d.has_payload());
    assert_eq!(w.d.queued(), 1);
    assert_eq!(w.d.error(), Some(DispatchError::Parse(ParseError::Header)));
}

#[test]
fn expect_continue_is_written_before_the_body_arrives() {
    let mut w = World::new(no_timeouts(), false, Handler::EchoPayload);
    w.decoded.push_back(Decoded::Request {
        request: "/upload".to_owned(),
        expect: true,
        message_type: MessageType::Payload,
    });

    assert_eq!(w.wake(0), None);
    assert_eq!(w.wire, CONTINUE);
    assert_eq!(
        w.took(),
        vec![
            "Read",
            "Decode",
            "OpenPayload(/upload)",
            "CallExpect(/upload)",
            "CallService(/upload)",
            "NeedRead",
            "Decode",
            "PollService",
            "NeedRead",
            "Decode",
            "Write(0)",
            "Suspend",
        ]
    );
    assert_eq!(w.d.state(), State::ServiceCall);
    assert!(w.d.has_payload());

    w.reads.push_back((b"12345".to_vec(), ReadOutcome::Ready(5)));
    w.decoded.push_back(Decoded::Chunk(b"12345".to_vec()));
    w.decoded.push_back(Decoded::Eof);
    assert_eq!(w.wake(1), Some(Ok(())));

    let mut expected = CONTINUE.to_vec();
    expected.extend_from_slice(&response(200, "12345"));
    assert_eq!(w.wire, expected);
    assert_eq!(w.fed, vec![b"12345".to_vec()]);
    assert_eq!(w.payload_ended, vec!["eof".to_owned()]);
}

#[test]
fn expect_continue_without_reading_the_body_still_answers() {
    let mut w = World::new(no_timeouts(), false, Handler::EchoPath);
    w.decoded.push_back(Decoded::Request {
        request: "/upload".to_owned(),
        expect: true,
        message_type: MessageType::Payload,
    });

    assert_eq!(w.wake(0), Some(Ok(())));

    let mut expected = CONTINUE.to_vec();
    expected.extend_from_slice(&response(200, "/upload"));
    assert_eq!(w.wire, expected);
    assert!(w.fed.is_empty());
}

#[test]
fn rejected_expectation_is_answered_without_the_handler() {
    let mut w = World::new(no_timeouts(), false, Handler::EchoPath);
    w.decoded.push_back(Decoded::Request {
        request: "/upload".to_owned(),
        expect: true,
        message_type: MessageType::Bodyless,
    });
    w.expect.push_back(ExpectOutcome::Pending);
    w.expect.push_back(ExpectOutcome::Rejected);
    w.keepalive = true;

    assert_eq!(w.wake(0), None);
    assert!(w.called.is_empty());
    assert!(!w.wire.starts_with(CONTINUE));
    assert_eq!(
        w.took(),
        vec!["Read", "Decode", "CallExpect(/upload)", "Decode", "PollExpect", "Encode(Handler)", "Write(0)", "Suspend"]
    );
}

#[test]
fn slow_first_request_gets_408_and_the_connection_closes() {
    let config = ServiceConfig::new(KeepAlive::Timeout(5), 0, 300);
    let mut w = World::new(config, false, Handler::Empty);
    assert_eq!(
        w.d.timer(),
        Some(KeepAliveTimer { deadline: 5000, purpose: TimerPurpose::RequestTimeout })
    );

    assert_eq!(w.wake(100), None);
    assert_eq!(w.took(), vec!["PollTimer", "Read", "Decode", "Suspend"]);
    assert!(w.wire.is_empty());

    w.timer.push_back(true);
    assert_eq!(w.wake(5000), Some(Ok(())));
    assert_eq!(w.wire, response(408, ""));
    assert_eq!(
        w.took(),
        vec![
            "PollTimer",
            "Encode(Error(RequestTimeout))",
            "ResetTimer(5300)",
            "PollTimer",
            "Write(0)",
            "Shutdown",
            "Finish(Ok(()))",
        ]
    );
    assert!(w.d.flags().shutdown);
    assert!(w.d.flags().started);
    assert!(!w.d.flags().write_disconnect);
}

#[test]
fn slow_first_request_without_grace_period_gets_408_before_the_close() {
    let config = ServiceConfig::new(KeepAlive::Timeout(5), 0, 0);
    let mut w = World::new(config, false, Handler::Empty);
    w.timer.push_back(true);
    assert_eq!(w.wake(5000), Some(Ok(())));
    // the 408 response is written, and then the write side counts as closed
    assert_eq!(w.wire, response(408, ""));
    assert!(w.d.write_buf().is_empty());
    assert_eq!(
        w.took(),
        vec!["PollTimer", "Encode(Error(RequestTimeout))", "Write(0)", "Finish(Ok(()))"]
    );
    assert!(w.d.flags().shutdown);
    assert!(w.d.flags().started);
    assert!(w.d.flags().write_disconnect);
    assert!(w.timers.is_empty());
}

#[test]
fn slow_first_request_without_grace_period_waits_for_the_stream_to_take_the_408() {
    let config = ServiceConfig::new(KeepAlive::Timeout(5), 0, 0);
    let mut w = World::new(config, false, Handler::Empty);
    w.timer.push_back(true);
    w.writes.push_back(WriteOutcome::Ready(9));
    w.writes.push_back(WriteOutcome::Pending);
    assert_eq!(w.wake(5000), None);
    assert_eq!(
        w.took(),
        vec!["PollTimer", "Encode(Error(RequestTimeout))", "Write(0)", "Write(9)", "Suspend"]
    );
    assert_eq!(w.wire, response(408, "")[..9].to_vec());
    assert!(w.d.flags().shutdown);
    assert!(!w.d.flags().write_disconnect);
    assert!(!w.d.would_read());

    // the next wake writes the rest, and only then closes
    assert_eq!(w.wake(5001), Some(Ok(())));
    assert_eq!(w.took(), vec!["Write(0)", "Finish(Ok(()))"]);
    assert_eq!(w.wire, response(408, ""));
    assert!(w.d.flags().write_disconnect);
}

#[test]
fn idle_connection_is_shut_down_when_the_timer_fires() {
    let config = ServiceConfig::new(KeepAlive::Timeout(5), 0, 0);
    let mut w = World::new(config, false, Handler::Empty);
    w.request("/");
    assert_eq!(w.wake(1000), None);
    assert_eq!(w.d.keep_alive_expire(), 6000);
    assert_eq!(
        w.d.timer(),
        Some(KeepAliveTimer { deadline: 5000, purpose: TimerPurpose::IdleTimeout })
    );
    w.took();

    // the timer fires before the deadline that the request has moved on
    w.timer.push_back(true);
    assert_eq!(w.wake(5000), None);
    assert_eq!(w.timers, vec![6000]);
    assert_eq!(w.took(), vec!["PollTimer", "ResetTimer(6000)", "Read", "Decode", "Suspend"]);

    // and then in time: no response, the write side counts as closed
    w.timer.push_back(true);
    let sent = w.wire.len();
    assert_eq!(w.wake(6000), Some(Ok(())));
    assert_eq!(w.wire.len(), sent);
    assert_eq!(w.took(), vec!["PollTimer", "Finish(Ok(()))"]);
    assert!(w.d.flags().shutdown);
    assert!(w.d.flags().write_disconnect);
}

#[test]
fn idle_connection_gets_the_grace_period_if_one_is_configured() {
    let config = ServiceConfig::new(KeepAlive::Timeout(5), 0, 300);
    let mut w = World::new(config, false, Handler::Empty);
    w.request("/");
    assert_eq!(w.wake(0), None);
    w.took();

    w.timer.push_back(true);
    w.close = CloseOutcome::Pending;
    assert_eq!(w.wake(5000), None);
    assert_eq!(w.timers, vec![5300]);
    assert_eq!(
        w.d.timer(),
        Some(KeepAliveTimer { deadline: 5300, purpose: TimerPurpose::ShutdownTimeout })
    );
    assert_eq!(
        w.took(),
        vec!["PollTimer", "ResetTimer(5300)", "PollTimer", "Shutdown", "Suspend"]
    );

    // the grace period runs out
    w.timer.push_back(true);
    assert_eq!(w.wake(5300), Some(Err(DispatchError::DisconnectTimeout)));
}

#[test]
fn busy_connection_is_kept_when_the_timer_fires() {
    let config = ServiceConfig::new(KeepAlive::Timeout(5), 0, 0);
    let mut w = World::new(config, false, Handler::Never);
    w.request("/");
    assert_eq!(w.wake(0), None);
    w.took();

    w.timer.push_back(true);
    assert_eq!(w.wake(5000), None);
    assert_eq!(w.timers, vec![10000]);
    assert_eq!(
        w.took(),
        vec!["PollTimer", "ResetTimer(10000)", "Read", "Decode", "PollService", "Decode", "Suspend"]
    );
}

#[test]
fn upgrade_request_hands_the_connection_over() {
    let mut w = World::new(no_timeouts(), true, Handler::Empty);
    w.reads.push_back((b"GET /ws HTTP/1.1\r\n\r\nrest".to_vec(), ReadOutcome::Ready(24)));
    w.decoded.push_back(Decoded::Request {
        request: "/ws".to_owned(),
        expect: false,
        message_type: MessageType::Stream,
    });
    w.upgrade.push_back(UpgradeOutcome::Pending);
    w.upgrade.push_back(UpgradeOutcome::Pending);
    w.upgrade.push_back(UpgradeOutcome::Done);

    assert_eq!(w.wake(0), None);
    assert!(w.called.is_empty());
    assert_eq!(
        w.handed_over,
        Some(("/ws".to_owned(), b"GET /ws HTTP/1.1\r\n\r\nrest".to_vec(), Vec::new()))
    );
    assert!(w.d.flags().upgrade);
    assert_eq!(w.d.read_buf().len(), 0);
    assert_eq!(w.took(), vec!["Read", "Read", "Decode", "Upgrade(/ws)", "Suspend"]);

    assert_eq!(w.wake(1), None);
    assert_eq!(w.took(), vec!["PollUpgrade", "Suspend"]);
    assert_eq!(w.wake(2), Some(Ok(())));
    assert_eq!(w.took(), vec!["PollUpgrade", "Finish(Ok(()))"]);
    assert!(w.wire.is_empty());
}

#[test]
fn failed_upgrade_is_the_result_of_the_connection() {
    let mut w = World::new(no_timeouts(), true, Handler::Empty);
    w.decoded.push_back(Decoded::Request {
        request: "/ws".to_owned(),
        expect: false,
        message_type: MessageType::Stream,
    });
    w.upgrade.push_back(UpgradeOutcome::Failed);
    assert_eq!(w.wake(0), Some(Err(DispatchError::Upgrade)));
}

#[test]
fn upgrade_request_waits_for_the_responses_before_it() {
    let mut w = World::new(no_timeouts(), true, Handler::EchoPath);
    w.keepalive = true;
    w.request("/first");
    w.decoded.push_back(Decoded::Request {
        request: "/ws".to_owned(),
        expect: false,
        message_type: MessageType::Stream,
    });
    assert_eq!(w.wake(0), None);
    assert_eq!(w.called, vec!["/first".to_owned()]);
    let (request, _, unwritten) = w.handed_over.clone().unwrap();
    assert_eq!(request, "/ws");
    assert_eq!(unwritten, response(200, "/first"));
}

#[test]
fn stream_without_upgrade_handler_goes_to_the_handler_with_a_body() {
    let mut w = World::new(no_timeouts(), false, Handler::EchoPath);
    w.decoded.push_back(Decoded::Request {
        request: "/ws".to_owned(),
        expect: false,
        message_type: MessageType::Stream,
    });
    assert_eq!(w.wake(0), Some(Ok(())));
    assert_eq!(w.called, vec!["/ws".to_owned()]);
    assert!(w.handed_over.is_none());
    assert!(w.took().contains(&"OpenPayload(/ws)".to_owned()));
}

#[test]
fn no_more_than_the_bound_wait_while_the_handler_is_busy() {
    let mut w = World::new(no_timeouts(), false, Handler::Never);
    for i in 0..100 {
        w.request(&format!("/{}", i));
    }
    assert_eq!(w.wake(0), None);
    assert_eq!(w.called, vec!["/0".to_owned()]);
    assert_eq!(w.d.queued(), MAX_PIPELINED_MESSAGES);
    assert_eq!(w.max_queued, 16);
    assert_eq!(w.decoded.len(), 100 - 1 - 16);

    // and another wake decodes nothing
    assert_eq!(w.wake(1), None);
    assert_eq!(w.decoded.len(), 100 - 1 - 16);
    assert_eq!(w.d.queued(), 16);
}

#[test]
fn decoding_pauses_while_the_request_body_has_enough() {
    let mut w = World::new(no_timeouts(), false, Handler::Never);
    w.decoded.push_back(Decoded::Request {
        request: "/upload".to_owned(),
        expect: false,
        message_type: MessageType::Payload,
    });
    w.decoded.push_back(Decoded::Chunk(b"a".to_vec()));
    w.decoded.push_back(Decoded::Chunk(b"b".to_vec()));
    w.need_read = PayloadStatus::Pause;
    assert_eq!(w.wake(0), None);
    assert!(w.fed.is_empty());
    assert_eq!(w.decoded.len(), 2);

    w.need_read = PayloadStatus::Read;
    assert_eq!(w.wake(1), None);
    assert_eq!(w.fed, vec![b"a".to_vec(), b"b".to_vec()]);

    w.need_read = PayloadStatus::Dropped;
    w.decoded.push_back(Decoded::Chunk(b"c".to_vec()));
    assert_eq!(w.wake(2), None);
    assert_eq!(w.decoded.len(), 1);
}

#[test]
fn reading_stops_once_the_read_buffer_is_full() {
    let mut w = World::new(no_timeouts(), false, Handler::Never);
    w.decoded.push_back(Decoded::Request {
        request: "/upload".to_owned(),
        expect: false,
        message_type: MessageType::Payload,
    });
    w.need_read = PayloadStatus::Pause;
    for _ in 0..10 {
        w.reads.push_back((vec![0u8; HW_BUFFER_SIZE], ReadOutcome::Ready(HW_BUFFER_SIZE)));
    }
    assert_eq!(w.wake(0), None);
    assert_eq!(w.d.read_buf().len(), MAX_BUFFER_SIZE);
    assert_eq!(w.reads.len(), 10 - 4);
    let reads = w.took().iter().filter(|a| *a == "Read").count();
    assert_eq!(reads, 4);
}

#[test]
fn peer_that_is_gone_closes_the_read_side_and_the_request_body() {
    let mut w = World::new(no_timeouts(), false, Handler::EchoPayload);
    w.decoded.push_back(Decoded::Request {
        request: "/upload".to_owned(),
        expect: false,
        message_type: MessageType::Payload,
    });
    w.decoded.push_back(Decoded::Chunk(b"abc".to_vec()));
    w.reads.push_back((b"x".to_vec(), ReadOutcome::Ready(1)));
    w.reads.push_back((Vec::new(), ReadOutcome::Ready(0)));
    assert_eq!(w.wake(0), Some(Ok(())));
    assert!(w.d.flags().read_disconnect);
    assert_eq!(w.payload_ended, vec!["eof".to_owned()]);
    assert_eq!(w.wire, response(200, "abc"));
}

#[test]
fn reset_after_a_read_counts_as_the_end_and_before_one_as_a_failure() {
    let mut w = World::new(no_timeouts(), false, Handler::Empty);
    w.reads.push_back((b"x".to_vec(), ReadOutcome::Ready(1)));
    w.reads.push_back((Vec::new(), ReadOutcome::Failed(IoErrorKind::ConnectionReset)));
    assert_eq!(w.wake(0), Some(Ok(())));
    assert!(w.d.flags().read_disconnect);
    assert!(w.d.flags().shutdown);

    let mut w = World::new(no_timeouts(), false, Handler::Empty);
    w.reads.push_back((Vec::new(), ReadOutcome::Failed(IoErrorKind::ConnectionReset)));
    assert_eq!(w.wake(0), Some(Err(DispatchError::Io(IoErrorKind::ConnectionReset))));

    let mut w = World::new(no_timeouts(), false, Handler::Empty);
    w.reads.push_back((Vec::new(), ReadOutcome::Failed(IoErrorKind::Other)));
    assert_eq!(w.wake(0), Some(Err(DispatchError::Io(IoErrorKind::Other))));
}

#[test]
fn stream_that_fails_under_the_decoder_ends_the_connection_at_once() {
    let mut w = World::new(no_timeouts(), false, Handler::Never);
    w.decoded.push_back(Decoded::Request {
        request: "/upload".to_owned(),
        expect: false,
        message_type: MessageType::Payload,
    });
    w.decoded.push_back(Decoded::Failed(ParseError::Io(IoErrorKind::Other)));
    assert_eq!(w.wake(0), Some(Ok(())));
    assert_eq!(w.payload_ended, vec!["Incomplete".to_owned()]);
    assert!(w.d.flags().read_disconnect);
    assert!(w.d.flags().write_disconnect);
    assert_eq!(w.d.error(), Some(DispatchError::Io(IoErrorKind::Other)));
    assert_eq!(format!("{:?}", PayloadError::Incomplete), "Incomplete");
}

#[test]
fn body_data_without_a_request_gets_500() {
    let mut w = World::new(no_timeouts(), false, Handler::Empty);
    w.decoded.push_back(Decoded::Chunk(b"stray".to_vec()));
    assert_eq!(w.wake(0), Some(Err(DispatchError::InternalError)));
    assert_eq!(w.wire, response(500, ""));
    assert!(w.fed.is_empty());
    assert!(w.d.flags().read_disconnect);

    let mut w = World::new(no_timeouts(), false, Handler::Empty);
    w.decoded.push_back(Decoded::Eof);
    assert_eq!(w.wake(0), Some(Err(DispatchError::InternalError)));
    assert_eq!(w.wire, response(500, ""));
}

#[test]
fn failing_body_source_ends_the_connection() {
    let mut w = World::new(no_timeouts(), false, Handler::EchoPath);
    w.request("/abcd");
    w.body_fails = true;
    assert_eq!(w.wake(0), Some(Err(DispatchError::Service)));
}

#[test]
fn failing_encoder_ends_the_connection_and_the_request_body() {
    let mut w = World::new(no_timeouts(), false, Handler::EchoPath);
    w.decoded.push_back(Decoded::Request {
        request: "/upload".to_owned(),
        expect: false,
        message_type: MessageType::Payload,
    });
    w.encode_fails = true;
    assert_eq!(w.wake(0), Some(Err(DispatchError::Io(IoErrorKind::Other))));
    assert_eq!(w.payload_ended, vec!["Incomplete".to_owned()]);
    assert_eq!(
        w.took(),
        vec![
            "Read",
            "Decode",
            "OpenPayload(/upload)",
            "CallService(/upload)",
            "Encode(Handler)",
            "PayloadError(Incomplete)",
            "Finish(Err(Io(Other)))",
        ]
    );
}

#[test]
fn partial_writes_keep_the_rest_in_order() {
    let mut w = World::new(no_timeouts(), false, Handler::EchoPath);
    w.keepalive = true;
    w.request("/abcd");
    w.writes.push_back(WriteOutcome::Ready(7));
    w.writes.push_back(WriteOutcome::Ready(3));
    w.writes.push_back(WriteOutcome::Pending);
    assert_eq!(w.wake(0), None);
    let all = response(200, "/abcd");
    assert_eq!(w.wire, all[..10].to_vec());
    assert_eq!(&w.d.write_buf()[..], &all[10..]);
    assert!(w.took().ends_with(&[
        "EncodeChunk(end)".to_owned(),
        "Write(0)".to_owned(),
        "Write(7)".to_owned(),
        "Write(10)".to_owned(),
        "Suspend".to_owned(),
    ]));

    assert_eq!(w.wake(1), None);
    assert_eq!(w.wire, all);
    assert_eq!(w.d.write_buf().len(), 0);
}

#[test]
fn write_that_takes_nothing_or_fails_ends_the_connection() {
    let mut w = World::new(no_timeouts(), false, Handler::EchoPath);
    w.request("/abcd");
    w.writes.push_back(WriteOutcome::Ready(0));
    assert_eq!(w.wake(0), Some(Err(DispatchError::Io(IoErrorKind::WriteZero))));

    let mut w = World::new(no_timeouts(), false, Handler::EchoPath);
    w.request("/abcd");
    w.writes.push_back(WriteOutcome::Failed(IoErrorKind::ConnectionReset));
    assert_eq!(w.wake(0), Some(Err(DispatchError::Io(IoErrorKind::ConnectionReset))));
}

#[test]
fn full_write_buffer_is_flushed_before_more_is_produced() {
    let mut w = World::new(no_timeouts(), false, Handler::Empty);
    w.keepalive = true;
    w.handler = Handler::EchoPath;
    w.request("/big");
    assert_eq!(w.d.poll::<Chunk>(0), Action::Read);
    assert_eq!(w.d.resume::<Chunk>(Event::Read(ReadOutcome::Pending)), Action::Decode);
    let event = w.perform(Action::Decode);
    assert_eq!(w.d.resume(event), Action::CallService("/big".to_owned()));
    assert_eq!(w.d.resume::<Chunk>(Event::Service(ServiceOutcome::Ready)), Action::Encode(Reply::Handler));
    let encoded = EncodeOutcome::Encoded { keepalive: true, body: BodySize::Stream };
    assert_eq!(w.d.resume::<Chunk>(Event::Encoded(encoded)), Action::Decode);
    assert_eq!(w.d.state(), State::SendPayload);
    assert_eq!(w.d.resume::<Chunk>(Event::Decoded(Decoded::Incomplete)), Action::PollBody);

    let chunk = vec![7u8; HW_BUFFER_SIZE - 1];
    assert_eq!(
        w.d.resume(Event::Body(BodyOutcome::Chunk(chunk.clone()))),
        Action::EncodeChunk(Some(chunk.clone()))
    );
    w.d.write_buf_mut().extend_from_slice(&chunk);
    assert_eq!(w.d.resume::<Chunk>(Event::Chunk(ChunkOutcome::Encoded)), Action::PollBody);

    assert_eq!(
        w.d.resume(Event::Body(BodyOutcome::Chunk(vec![8u8]))),
        Action::EncodeChunk(Some(vec![8u8]))
    );
    w.d.write_buf_mut().extend_from_slice(&[8u8]);
    // the buffer has reached the mark: flush first
    assert_eq!(w.d.resume::<Chunk>(Event::Chunk(ChunkOutcome::Encoded)), Action::Write(0));
    assert_eq!(w.d.awaiting(), Awaiting::ResponseFlush);
    // the stream took everything: the body goes on
    assert_eq!(
        w.d.resume::<Chunk>(Event::Written(WriteOutcome::Ready(HW_BUFFER_SIZE))),
        Action::PollBody
    );
    assert_eq!(w.d.write_buf().len(), 0);
    // the source has nothing now: the connection waits
    assert_eq!(w.d.resume::<Chunk>(Event::Body(BodyOutcome::Pending)), Action::Suspend);
    assert_eq!(w.d.state(), State::SendPayload);
}

#[test]
fn events_that_answer_nothing_are_not_accepted() {
    let mut d: Dispatcher<Req> = Dispatcher::new(no_timeouts(), 0, false);
    assert!(!d.accepts::<Chunk>(&Event::Done));
    assert_eq!(d.poll::<Chunk>(0), Action::Read);
    assert!(d.accepts::<Chunk>(&Event::Read(ReadOutcome::Pending)));
    assert!(!d.accepts::<Chunk>(&Event::Done));
    assert!(!d.accepts::<Chunk>(&Event::Written(WriteOutcome::Pending)));
    assert!(!d.accepts::<Chunk>(&Event::Timer(true)));
}

#[test]
fn write_that_claims_more_than_was_offered_is_not_accepted() {
    let mut w = World::new(no_timeouts(), false, Handler::EchoPath);
    w.keepalive = true;
    w.request("/abcd");
    w.writes.push_back(WriteOutcome::Pending);
    assert_eq!(w.wake(0), None);
    let held = w.d.write_buf().len();
    assert_eq!(w.d.poll::<Chunk>(1), Action::Read);
    assert_eq!(w.d.resume::<Chunk>(Event::Read(ReadOutcome::Pending)), Action::Decode);
    assert_eq!(w.d.resume::<Chunk>(Event::Decoded(Decoded::Incomplete)), Action::Write(0));
    assert!(!w.d.accepts::<Chunk>(&Event::Written(WriteOutcome::Ready(held + 1))));
    assert!(w.d.accepts::<Chunk>(&Event::Written(WriteOutcome::Ready(held))));
}

#[test]
fn with_timeout_takes_the_bytes_read_so_far_and_the_first_deadline() {
    let config = ServiceConfig::new(KeepAlive::Timeout(5), 3000, 0);
    let mut d: Dispatcher<Req> = Dispatcher::with_timeout(
        config,
        BytesMut::from(&b"GET /"[..]),
        config.client_timer_expire(10),
        10,
        false,
    );
    assert_eq!(&d.read_buf()[..], b"GET /");
    assert_eq!(d.write_buf().len(), 0);
    assert_eq!(
        d.timer(),
        Some(KeepAliveTimer { deadline: 3010, purpose: TimerPurpose::IdleTimeout })
    );
    assert_eq!(d.keep_alive_expire(), 3010);
    assert!(d.flags().keepalive);
    assert!(!d.flags().started);
    assert_eq!(d.state(), State::Idle);
    assert_eq!(d.poll::<Chunk>(11), Action::PollTimer);
}

#[test]
fn without_keep_alive_no_timer_is_armed() {
    let config = ServiceConfig::new(KeepAlive::Disabled, 3000, 0);
    let d: Dispatcher<Req> =
        Dispatcher::with_timeout(config, BytesMut::new(), Some(3000), 7, false);
    assert_eq!(d.timer(), None);
    assert_eq!(d.keep_alive_expire(), 7);
    assert!(!d.flags().keepalive);

    let config = ServiceConfig::new(KeepAlive::Os, 0, 0);
    let d: Dispatcher<Req> = Dispatcher::new(config, 7, false);
    assert_eq!(d.timer(), None);
    assert!(d.flags().keepalive);
}

#[test]
fn shutdown_without_grace_period_closes_at_once_when_nothing_waits() {
    let mut w = World::new(no_timeouts(), false, Handler::Never);
    w.decoded.push_back(Decoded::Request {
        request: "/upload".to_owned(),
        expect: false,
        message_type: MessageType::Payload,
    });
    w.handler = Handler::EchoPath;
    // the response is complete, the request body never was
    assert_eq!(w.wake(0), Some(Ok(())));
    assert_eq!(w.payload_ended, vec!["Incomplete".to_owned()]);
    assert!(w.d.flags().shutdown);
    assert!(w.d.flags().write_disconnect);
    assert!(!w.d.flags().read_disconnect);
    assert_eq!(w.wire, response(200, "/upload"));
    assert!(w.took().ends_with(&[
        "Write(0)".to_owned(),
        "PayloadError(Incomplete)".to_owned(),
        "Finish(Ok(()))".to_owned(),
    ]));
}

#[test]
fn kept_failure_is_reported_by_the_wake_that_writes_the_rest() {
    for grace in [0, 300] {
        let config = ServiceConfig::new(KeepAlive::Disabled, 0, grace);
        let mut w = World::new(config, false, Handler::Empty);
        w.decoded.push_back(Decoded::Failed(ParseError::Header));
        w.writes.push_back(WriteOutcome::Ready(5));
        w.writes.push_back(WriteOutcome::Pending);
        // the 400 response is written in part: the connection waits as it is
        assert_eq!(w.wake(0), None);
        assert!(w.d.flags().read_disconnect);
        assert!(!w.d.flags().shutdown);
        assert!(!w.d.flags().write_disconnect);
        assert_eq!(w.d.error(), Some(DispatchError::Parse(ParseError::Header)));
        assert_eq!(w.wire, response(400, "")[..5].to_vec());
        w.took();

        // a wake that cannot write leaves everything as it is
        w.writes.push_back(WriteOutcome::Pending);
        assert_eq!(w.wake(1), None);
        assert_eq!(w.took(), vec!["Write(0)", "Suspend"]);
        assert!(!w.d.flags().shutdown);
        assert_eq!(w.d.error(), Some(DispatchError::Parse(ParseError::Header)));

        // the wake that writes the rest reports the failure
        assert_eq!(w.wake(2), Some(Err(DispatchError::Parse(ParseError::Header))));
        assert_eq!(w.took(), vec!["Write(0)", "Finish(Err(Parse(Header)))"]);
        assert_eq!(w.wire, response(400, ""));
        assert!(w.d.write_buf().is_empty());
        assert_eq!(w.d.error(), None);
        assert!(!w.d.flags().shutdown);
        assert!(w.timers.is_empty());
    }
}

#[test]
fn response_is_written_in_full_after_the_peer_has_closed_its_side() {
    for grace in [0, 300] {
        let config = ServiceConfig::new(KeepAlive::Timeout(5), 0, grace);
        let mut w = World::new(config, false, Handler::EchoPath);
        w.request("/abcd");
        w.reads.push_back((b"x".to_vec(), ReadOutcome::Ready(1)));
        w.reads.push_back((Vec::new(), ReadOutcome::Ready(0)));
        w.writes.push_back(WriteOutcome::Ready(7));
        w.writes.push_back(WriteOutcome::Pending);
        assert_eq!(w.wake(0), None);
        assert!(w.d.flags().read_disconnect);
        assert!(!w.d.flags().shutdown);
        assert_eq!(w.wire, response(200, "/abcd")[..7].to_vec());
        w.took();

        // the rest is written before the connection shuts down
        assert_eq!(w.wake(1), Some(Ok(())));
        assert_eq!(w.wire, response(200, "/abcd"));
        assert!(w.d.flags().shutdown);
        let log = w.took();
        assert_eq!(log[..2].to_vec(), vec!["PollTimer".to_owned(), "Write(0)".to_owned()]);
        if grace == 0 {
            assert_eq!(log[2..].to_vec(), vec!["Finish(Ok(()))".to_owned()]);
            assert!(w.d.flags().write_disconnect);
        } else {
            assert_eq!(
                log[2..].to_vec(),
                vec![
                    "ResetTimer(301)".to_owned(),
                    "PollTimer".to_owned(),
                    "Shutdown".to_owned(),
                    "Finish(Ok(()))".to_owned(),
                ]
            );
            assert!(!w.d.flags().write_disconnect);
        }
    }
}

#[test]
fn timer_that_fires_on_a_kept_failure_does_not_shut_down() {
    let config = ServiceConfig::new(KeepAlive::Timeout(5), 0, 0);
    let mut w = World::new(config, false, Handler::Empty);
    w.request("/a");
    w.decoded.push_back(Decoded::Failed(ParseError::Header));
    w.writes.push_back(WriteOutcome::Pending);
    assert_eq!(w.wake(0), None);
    assert_eq!(w.d.error(), Some(DispatchError::Parse(ParseError::Header)));
    w.took();

    // the driver has emptied the write buffer behind the dispatcher's back
    w.d.write_buf_mut().clear();
    w.timer.push_back(true);
    assert_eq!(w.wake(5000), Some(Err(DispatchError::Parse(ParseError::Header))));
    assert!(!w.d.flags().shutdown);
    assert_eq!(w.took(), vec!["PollTimer", "ResetTimer(10000)", "Finish(Err(Parse(Header)))"]);
}

#[test]
fn read_buffer_is_not_read_into_while_it_is_full() {
    let mut w = World::new(no_timeouts(), false, Handler::Never);
    w.decoded.push_back(Decoded::Request {
        request: "/upload".to_owned(),
        expect: false,
        message_type: MessageType::Payload,
    });
    w.need_read = PayloadStatus::Pause;
    for _ in 0..10 {
        w.reads.push_back((vec![0u8; HW_BUFFER_SIZE], ReadOutcome::Ready(HW_BUFFER_SIZE)));
    }
    assert!(w.d.would_read());
    assert_eq!(w.wake(0), None);
    assert_eq!(w.d.read_buf().len(), MAX_BUFFER_SIZE);
    assert!(!w.d.would_read());
    w.took();

    // wake after wake nothing is read while nobody takes what is there
    for now in 1..5 {
        assert_eq!(w.wake(now), None);
        assert_eq!(w.took(), vec!["NeedRead", "PollService", "NeedRead", "Suspend"]);
        assert_eq!(w.d.read_buf().len(), MAX_BUFFER_SIZE);
        assert_eq!(w.reads.len(), 10 - 4);
        assert!(!w.d.would_read());
    }

    // one byte below the limit the next wake reads again
    w.d.read_buf_mut().truncate(MAX_BUFFER_SIZE - 1);
    assert!(w.d.would_read());
    assert_eq!(w.wake(5), None);
    assert_eq!(w.took(), vec!["Read", "NeedRead", "PollService", "NeedRead", "Suspend"]);
    assert_eq!(w.d.read_buf().len(), MAX_BUFFER_SIZE - 1 + HW_BUFFER_SIZE);
    assert!(!w.d.would_read());
}

#[test]
fn failing_close_is_the_result_of_the_connection() {
    let mut w = World::new(ServiceConfig::new(KeepAlive::Disabled, 0, 100), false, Handler::Empty);
    w.request("/");
    w.close = CloseOutcome::Failed(IoErrorKind::Other);
    assert_eq!(w.wake(0), Some(Err(DispatchError::Io(IoErrorKind::Other))));
    assert_eq!(w.timers, vec![100]);
}

#[test]
fn error_responses_have_their_status_codes() {
    assert_eq!(ErrorResponse::BadRequest.status(), 400);
    assert_eq!(ErrorResponse::RequestTimeout.status(), 408);
    assert_eq!(ErrorResponse::InternalServerError.status(), 500);
}

#[test]
fn body_sizes_without_a_body_are_told_apart() {
    assert!(BodySize::Absent.is_eof());
    assert!(BodySize::Empty.is_eof());
    assert!(!BodySize::Sized(0).is_eof());
    assert!(!BodySize::Stream.is_eof());
    assert!(State::Idle.is_empty());
    assert!(!State::SendPayload.is_empty());
}

#[test]
fn buffers_are_grown_before_they_are_filled() {
    let mut d: Dispatcher<Req> = Dispatcher::with_timeout(
        no_timeouts(),
        BytesMut::new(),
        None,
        0,
        false,
    );
    assert_eq!(d.read_buf().capacity(), 0);
    assert_eq!(d.poll::<Chunk>(0), Action::Read);
    assert!(d.read_buf().capacity() >= HW_BUFFER_SIZE);
    assert_eq!(d.read_buf().len(), 0);

    // a buffer that is nearly full gets room for another read
    let filled = d.read_buf().capacity() - 100;
    d.read_buf_mut().extend_from_slice(&vec![1u8; filled]);
    assert_eq!(d.resume::<Chunk>(Event::Read(ReadOutcome::Ready(filled))), Action::Read);
    assert!(d.read_buf().capacity() - d.read_buf().len() >= 4096);
    assert_eq!(d.read_buf().len(), filled);
    assert!(d.read_buf().iter().all(|b| *b == 1));
}

#[test]
fn response_that_ends_the_connection_replaces_the_idle_timer_by_the_grace_timer() {
    let config = ServiceConfig::new(KeepAlive::Timeout(5), 0, 300);
    let mut w = World::new(config, false, Handler::EchoPath);
    w.keepalive = false;
    w.request("/last");
    w.close = CloseOutcome::Pending;
    assert_eq!(w.wake(1000), None);
    assert_eq!(w.wire, response(200, "/last"));
    assert_eq!(w.timers, vec![1300]);
    assert_eq!(
        w.d.timer(),
        Some(KeepAliveTimer { deadline: 1300, purpose: TimerPurpose::ShutdownTimeout })
    );
    assert!(w.took().ends_with(&[
        "Write(0)".to_owned(),
        "ResetTimer(1300)".to_owned(),
        "PollTimer".to_owned(),
        "Shutdown".to_owned(),
        "Suspend".to_owned(),
    ]));

    // the peer lets the connection close in time
    w.close = CloseOutcome::Closed;
    assert_eq!(w.wake(1100), Some(Ok(())));
    assert_eq!(w.took(), vec!["PollTimer", "Shutdown", "Finish(Ok(()))"]);
}

#[test]
fn response_that_ends_the_connection_closes_at_once_without_a_grace_period() {
    let config = ServiceConfig::new(KeepAlive::Timeout(5), 0, 0);
    let mut w = World::new(config, false, Handler::EchoPath);
    w.keepalive = false;
    w.request("/last");
    assert_eq!(w.wake(1000), Some(Ok(())));
    assert_eq!(w.wire, response(200, "/last"));
    assert!(w.d.flags().shutdown);
    assert!(w.d.flags().write_disconnect);
    assert!(w.timers.is_empty());
    assert!(w.took().ends_with(&["Write(0)".to_owned(), "Finish(Ok(()))".to_owned()]));
}

#[test]
fn slow_first_request_gets_the_grace_period_to_take_the_408() {
    let config = ServiceConfig::new(KeepAlive::Timeout(5), 0, 300);
    let mut w = World::new(config, false, Handler::Empty);
    w.timer.push_back(true);
    w.writes.push_back(WriteOutcome::Pending);
    assert_eq!(w.wake(5000), None);
    assert_eq!(
        w.took(),
        vec![
            "PollTimer",
            "Encode(Error(RequestTimeout))",
            "ResetTimer(5300)",
            "PollTimer",
            "Write(0)",
            "Suspend",
        ]
    );
    assert!(w.wire.is_empty());

    // the peer takes the response before the grace period is over
    assert_eq!(w.wake(5100), Some(Ok(())));
    assert_eq!(w.wire, response(408, ""));

    // or it does not
    let mut w = World::new(config, false, Handler::Empty);
    w.timer.push_back(true);
    w.writes.push_back(WriteOutcome::Pending);
    assert_eq!(w.wake(5000), None);
    w.timer.push_back(true);
    assert_eq!(w.wake(5300), Some(Err(DispatchError::DisconnectTimeout)));
}

#[test]
fn room_is_made_once_less_than_the_low_mark_is_free() {
    assert_eq!(room_to_make(0, 0), 32_768);
    assert_eq!(room_to_make(100, 100 + 4095), 32_768 - 4095);
    assert_eq!(room_to_make(100, 100 + 4096), 0);
    assert_eq!(room_to_make(100, 100 + 32_768), 0);
    assert_eq!(room_to_make(5000, 5000), 32_768);
    // a buffer that cannot grow is left as it is
    assert_eq!(room_to_make(isize::MAX as usize, isize::MAX as usize), 0);
    assert_eq!(room_to_make(isize::MAX as usize - 32_768, isize::MAX as usize - 32_768), 32_768);
}
