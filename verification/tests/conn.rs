use std::cell::RefCell;

use bytes::Bytes;
use wreq_proto::bounds::h2_client::Http2ClientConnExec;
use wreq_proto::bounds::h2_common::Http2UpgradedExec;
use wreq_proto::bounds::h3_client::Http3ClientConnExec;
use wreq_proto::bounds::Executor;
use wreq_proto::compat::Compat;
use wreq_proto::conn::{
    Builder, Close, CloseReason, Connection, Http3Options, Opening, SendRequest, H3_DATAGRAM,
};
use wreq_proto::dispatch::{self, Envelope};
use wreq_proto::error::{Cause, Code, Error, Kind, Poll, Reason};
use wreq_proto::shared::Shared;
use wreq_proto::transport::{self, FlushStep, Incoming, ReadyStep, Stream};

type X = &'static str;

fn reason(error: Error<X>) -> Reason {
    match error.cause {
        Some(Cause::Reason(reason)) => reason,
        _ => panic!("expected a reason"),
    }
}

#[test]
fn builder_prepares_the_layer() {
    let options = Http3Options {
        max_concurrent_requests: 7,
        enable_extended_connect: true,
        ..Http3Options::default()
    };
    let made = Builder::new("executor").options(options).handshake::<X>().unwrap();
    assert_eq!(made.executor, "executor");
    assert!(made.config.enable_extended_connect);
    assert!(!made.config.enable_datagram);
    assert!(!made.shared.has_datagrams());
    assert!(made.shared.is_idle());
}

#[test]
fn builder_refuses_what_cannot_work() {
    let none = Http3Options { max_concurrent_requests: 0, ..Http3Options::default() };
    let refused = Builder::new(()).options(none).handshake::<X>().err().unwrap();
    assert_eq!(refused.kind, Kind::Http3);
    assert_eq!(reason(refused), Reason::InvalidCapacity);
    let order = Http3Options { settings_order: Some(vec![1, 7]), ..Http3Options::default() };
    let builder = Builder::new(()).options(order);
    assert!(builder.clone().handshake::<X>().is_ok());
    let refused = builder.handshake_with_datagrams::<X>(false).err().unwrap();
    assert_eq!(reason(refused), Reason::SettingsOmitDatagram);
    let order = Http3Options {
        settings_order: Some(vec![1, H3_DATAGRAM]),
        ..Http3Options::default()
    };
    let builder = Builder::new(()).options(order);
    let made = builder.clone().handshake_with_datagrams::<X>(false).unwrap();
    assert!(made.config.enable_datagram && made.shared.has_datagrams());
    let refused = builder.handshake_with_datagrams::<X>(true).err().unwrap();
    assert_eq!(reason(refused), Reason::DatagramsTaken);
}

#[test]
fn abandoned_handshake_closes() {
    let mut opening = Opening(Some(5));
    assert_eq!(
        opening.abandon(),
        Some(Close { code: Code::NoError, reason: CloseReason::HandshakeCanceled })
    );
    assert!(matches!(opening.take::<X>(), Ok(5)));
    assert_eq!(opening.abandon(), None);
    assert_eq!(opening.take::<X>().unwrap_err().kind, Kind::Canceled);
}

#[test]
fn handles_follow_the_connection() {
    let mut shared = Shared::<X>::new(1, false);
    let mut first = SendRequest::first();
    let second = first.another(&mut shared);
    assert!(first.is_ready(&shared) && !first.is_closed(&shared));
    assert!(first.ready(&shared).is_ok());
    assert!(first.try_send_request(&mut shared).is_some());
    assert!(!second.abandon(&mut shared));
    shared.drain();
    assert!(first.is_closed(&shared) && !first.is_ready(&shared));
    match first.poll_ready(&shared) {
        Poll::Ready(Err(error)) => assert_eq!(error.kind, Kind::Closed),
        _ => panic!("expected a closed connection"),
    }
    assert!(first.try_send_request(&mut shared).is_none());
    assert_eq!(shared.reserved(), 1);
    assert!(!first.abandon(&mut shared));
}

#[test]
fn connection_resolves_once() {
    let mut connection = Connection::new();
    assert!(matches!(connection.poll::<X>(Poll::Pending), Poll::Pending));
    let failed = Poll::Ready(Some(Err(Error::new_outside(Kind::Http3, "x"))));
    assert!(matches!(connection.poll(failed), Poll::Ready(Err(_))));
    assert!(matches!(connection.poll::<X>(Poll::Pending), Poll::Ready(Ok(()))));
    let mut shared = Shared::<X>::new(1, false);
    assert!(connection.abandon(&mut shared).is_none());
    assert!(!shared.is_closed());
    let mut orphan = Connection::new();
    match orphan.poll::<X>(Poll::Ready(None)) {
        Poll::Ready(Err(error)) => assert_eq!(reason(error), Reason::TaskDropped),
        _ => panic!("expected a failure"),
    }
}

#[test]
fn dropped_connection_ends_everything() {
    let mut shared = Shared::<X>::new(1, false);
    let (wakes, close) = Connection::new().abandon(&mut shared).unwrap();
    assert!(wakes.driver && wakes.waiting);
    assert_eq!(close, Close { code: Code::NoError, reason: CloseReason::ConnectionDropped });
    let published = shared.error().published.unwrap();
    assert!(matches!(published.cause, Some(Cause::Reason(Reason::ConnectionDropped))));
}

#[test]
fn graceful_shutdown_closes_admission() {
    let mut shared = Shared::<X>::new(1, false);
    let wakes = Connection::new().graceful_shutdown(&mut shared);
    assert!(wakes.driver && wakes.waiting && !wakes.datagrams);
    assert!(shared.admission_closed() && shared.is_closed());
}

#[test]
fn codes_have_their_numbers() {
    assert_eq!(Code::DatagramError.value(), 0x33);
    assert_eq!(Code::NoError.value(), 0x100);
    assert_eq!(Code::RequestCancelled.value(), 0x10c);
    assert_eq!(Code::MessageError.value(), 0x10e);
    assert_eq!(Code::Other(0x101).value(), 0x101);
}

#[test]
fn words_are_those_of_the_protocol() {
    assert_eq!(CloseReason::Done.message(), "");
    assert_eq!(CloseReason::HandshakeCanceled.message(), "HTTP/3 handshake canceled");
    assert_eq!(CloseReason::ConnectionDropped.message(), "client connection dropped");
    assert_eq!(CloseReason::TaskDropped.message(), "connection task dropped");
    assert_eq!(CloseReason::DatagramFailed.message(), "HTTP Datagram driver failed");
    assert_eq!(Reason::BodyTooShort.message(), "body shorter than content-length");
    assert_eq!(Reason::TunnelClosed.message(), "HTTP/3 tunnel closed");
    assert_eq!(Reason::HostConflict.message(), "Host conflicts with HTTP/3 authority");
}

#[test]
fn errors_nest_and_pass_on() {
    let inner = Error::<X>::new_reason(Kind::Http3, Reason::HostConflict);
    let outer = Error::new_nested(Kind::UserInvalidRequest, inner);
    assert_eq!(outer.kind, Kind::UserInvalidRequest);
    let shared = std::sync::Arc::new(outer);
    let passed = Error::from_shared(shared);
    assert_eq!(passed.kind, Kind::UserInvalidRequest);
    assert!(passed.cause.is_none());
    let with = passed.with(Reason::ConnectionClosed);
    assert!(with.published.is_some());
    assert_eq!(reason(with), Reason::ConnectionClosed);
}

#[test]
fn unwrapping_undoes_wrapping() {
    assert_eq!(Compat::new(3).into_inner(), 3);
}

fn queue(size: usize) -> Bytes {
    Bytes::from((0..size).map(|i| i as u8).collect::<Vec<u8>>())
}

/// What the step offers to the backend.
fn offered(step: ReadyStep<Bytes, X>) -> Bytes {
    match step {
        ReadyStep::PollSend(data) => data,
        _ => panic!("expected an offer"),
    }
}

#[test]
fn queued_data_is_sent_before_the_stream_is_ready() {
    let mut stream = Stream::new();
    assert!(matches!(stream.poll_ready::<X>(), ReadyStep::Return(Ok(()))));
    assert!(stream.send_data::<X>(queue(100)).is_ok());
    match stream.send_data::<X>(queue(1)) {
        Err(Incoming::InternalError(reason)) => assert_eq!(reason, Reason::SendNotReady),
        _ => panic!("expected a refusal"),
    }
    let mut data = offered(stream.poll_ready());
    assert_eq!(data, queue(100));
    let mut taken = Vec::new();
    let mut budget = 0;
    taken.extend_from_slice(&data.split_to(60));
    let mut data = offered(stream.sent(Poll::Ready(Ok(60)), data, &mut budget));
    assert!(matches!(
        stream.sent::<X>(Poll::Pending, data.clone(), &mut budget),
        ReadyStep::Pend
    ));
    taken.extend_from_slice(&data.split_to(40));
    assert!(matches!(
        stream.sent::<X>(Poll::Ready(Ok(40)), data, &mut budget),
        ReadyStep::Return(Ok(()))
    ));
    assert_eq!(taken, queue(100));
    assert_eq!(stream.pending, None);
    assert_eq!(budget, 2);
}

#[test]
fn backend_is_held_to_what_it_reports() {
    for (written, left) in [(0, 10), (5, 6), (5, 4), (1, 11)] {
        let mut stream = Stream { pending: Some(queue(10)) };
        let mut budget = 0;
        match stream.sent::<X>(Poll::Ready(Ok(written)), queue(left), &mut budget) {
            ReadyStep::Return(Err(Incoming::InternalError(reason))) => {
                assert_eq!(reason, Reason::InconsistentSend)
            }
            _ => panic!("expected a failure"),
        }
    }
    let mut stream = Stream { pending: Some(queue(10)) };
    let mut budget = 0;
    assert!(matches!(
        stream.sent(Poll::Ready(Err("cut")), queue(10), &mut budget),
        ReadyStep::Return(Err(Incoming::Outside("cut")))
    ));
}

#[test]
fn long_queues_yield() {
    let mut stream = Stream { pending: Some(queue(100)) };
    let mut budget = 0;
    let mut step: ReadyStep<Bytes, X> = stream.poll_ready();
    while let ReadyStep::PollSend(mut data) = step {
        let _ = data.split_to(1);
        step = stream.sent(Poll::Ready(Ok(1)), data, &mut budget);
    }
    assert!(matches!(step, ReadyStep::Yield));
    let (mut send, recv) = stream.split();
    assert_eq!(send.pending, Some(queue(100).slice(32..)));
    assert_eq!(recv.pending, None);
    send.reset();
    assert_eq!(send.pending, None);
}

/// The backend is called to finish, or with other data, exactly where nothing
/// is queued.
#[test]
fn queue_is_flushed_before_the_backend_is_called() {
    for finish in [false, true] {
        let begin = |stream: &mut Stream<Bytes>| -> FlushStep<Bytes, X> {
            if finish {
                stream.poll_finish()
            } else {
                stream.poll_send()
            }
        };
        let mut stream = Stream::new();
        assert!(matches!(begin(&mut stream), FlushStep::Call));
        stream.pending = Some(queue(0));
        assert!(matches!(begin(&mut stream), FlushStep::Call));
        assert_eq!(stream.pending, None);
        stream.pending = Some(queue(9));
        let mut budget = 0;
        let mut data = match begin(&mut stream) {
            FlushStep::PollSend(data) => data,
            _ => panic!("expected an offer"),
        };
        assert_eq!(data, queue(9));
        let _ = data.split_to(4);
        assert!(matches!(
            stream.flushed::<X>(Poll::Pending, data.clone(), &mut budget),
            FlushStep::Pend
        ));
        let _ = data.split_to(5);
        assert!(matches!(
            stream.flushed::<X>(Poll::Ready(Ok(5)), data, &mut budget),
            FlushStep::Call
        ));
        assert_eq!(stream.pending, None);
        stream.pending = Some(queue(9));
        assert!(matches!(
            stream.flushed(Poll::Ready(Err("cut")), queue(9), &mut budget),
            FlushStep::Failed(Incoming::Outside("cut"))
        ));
        let mut busy = Stream { pending: Some(queue(40)) };
        let mut budget = 0;
        let mut step = begin(&mut busy);
        while let FlushStep::PollSend(mut data) = step {
            let _ = data.split_to(1);
            step = busy.flushed(Poll::Ready(Ok(1)), data, &mut budget);
        }
        assert!(matches!(step, FlushStep::Yield));
    }
}

#[test]
fn adapted_transports_never_report_the_absence_of_a_stream() {
    match Compat::accepted::<X>(Ok(4)) {
        Ok(Some(stream)) => assert_eq!(stream.into_inner(), 4),
        _ => panic!("expected a stream"),
    }
    assert!(matches!(Compat::<u8>::accepted::<X>(Err("lost")), Err("lost")));
}

#[test]
fn absent_streams_mean_a_closed_connection() {
    assert!(matches!(transport::accepted::<u8, X>(Ok(Some(4))), Ok(4)));
    assert!(matches!(
        transport::accepted::<u8, X>(Ok(None)),
        Err(Incoming::ApplicationClose { error_code: 0x100 })
    ));
    assert!(matches!(
        transport::accepted::<u8, X>(Err("lost")),
        Err(Incoming::Outside("lost"))
    ));
    assert!(matches!(
        transport::contract_error::<X>(Reason::SendNotReady),
        Incoming::InternalError(Reason::SendNotReady)
    ));
    assert!(matches!(
        transport::closed::<X>(),
        Incoming::ApplicationClose { error_code: 0x100 }
    ));
}

#[test]
fn dropped_envelopes_are_answered() {
    let mut shared = dispatch::Shared::<X>::new(1, false);
    let permit = shared.take_permit();
    assert!(permit.is_some() && shared.take_permit().is_none());
    assert_eq!(shared.capacity(), 0);
    let envelope = Envelope {
        request: Some("request"),
        callback: Some(9),
        permit,
        cancel: (),
    };
    let (callback, failed) = envelope.abandon(&mut shared).unwrap();
    assert_eq!(callback, 9);
    assert_eq!(failed.message, Some("request"));
    assert_eq!(failed.error.kind, Kind::Canceled);
    // The place of the request is free again.
    assert_eq!(shared.capacity(), 1);
    let answered: Envelope<u8, u8, ()> =
        Envelope { request: None, callback: None, permit: None, cancel: () };
    assert!(answered.abandon(&mut shared).is_none());
    assert_eq!(shared.capacity(), 1);
    shared.drain();
    assert!(shared.take_permit().is_none());
}

#[test]
fn no_request_is_admitted_once_the_connection_is_over() {
    for drained in [false, true] {
        let mut shared = dispatch::Shared::<X>::new(1, false);
        if drained {
            assert!(shared.drain());
        }
        shared.terminate(Error::new(Kind::Closed));
        assert_eq!(shared.capacity(), 1);
        assert!(shared.take_permit().is_none());
    }
}

#[test]
fn dispatch_termination_is_final() {
    let mut shared = dispatch::Shared::<X>::new(2, true);
    assert_eq!(shared.error().kind, Kind::Canceled);
    shared.enter();
    let wakes = shared.terminate(Error::new_outside(Kind::Http3, "first"));
    assert!(wakes.driver && wakes.closed && wakes.datagrams);
    let again = shared.terminate(Error::new_outside(Kind::Http3, "second"));
    assert!(!again.driver && !again.closed);
    assert!(!shared.drain());
    shared.leave();
    let published = shared.error().published.unwrap();
    assert!(matches!(published.cause, Some(Cause::Outside("first"))));
}

/// Records what it is given.
#[derive(Clone, Default)]
struct Recorder {
    numbers: RefCell<Vec<u32>>,
    words: RefCell<Vec<&'static str>>,
}

impl Executor<u32> for Recorder {
    fn execute(&self, future: u32) {
        self.numbers.borrow_mut().push(future);
    }
}

impl Executor<&'static str> for Recorder {
    fn execute(&self, future: &'static str) {
        self.words.borrow_mut().push(future);
    }
}

#[test]
fn bounds_hand_futures_to_the_executor() {
    let mut recorder = Recorder::default();
    Http2UpgradedExec::<u32>::execute_upgrade(&recorder, 1);
    Http2ClientConnExec::<u32, &'static str>::execute_h2_future(&mut recorder, 2);
    Http3ClientConnExec::<&'static str, u32>::execute_h3_task(&recorder, "task");
    assert_eq!(*recorder.numbers.borrow(), vec![1, 2]);
    assert_eq!(*recorder.words.borrow(), vec!["task"]);
}
