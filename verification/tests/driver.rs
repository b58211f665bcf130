use bytes::Bytes;
use http::header::HeaderMap;
use http::Method;
use wreq_proto::body::{PipeGuard, Read, RecvBody};
use wreq_proto::client::{BodyInfo, RequestHead, ResponseHead, CHUNK};
use wreq_proto::conn::{Close, CloseReason, SendRequest};
use wreq_proto::driver::{ConnTask, Event, Settings, Step};
use wreq_proto::error::{Cause, Code, Error, Kind, Poll, Reason};
use wreq_proto::exchange::{self, Exchange};
use wreq_proto::shared::{Active, Admission, Shared};
use wreq_proto::tunnel_io::{ReadEvent, ReadStep, WriteEvent, WriteStep};
use wreq_proto::tunnel_recv::{RecvEvent, RecvStep};
use wreq_proto::tunnel_send::{SendEffect, SendEvent, SendStep};
use wreq_proto::upgrade::{self, TransferEvent, TransferStep, TunnelDatagrams};
use wreq_proto::upload::{self, Frame, Upload};

type X = &'static str;

/// Polls the task once on a connection that is up; the last step.
fn poll(task: &mut ConnTask, shared: &mut Shared<X>) -> Step<X> {
    let mut step = task.step(shared, Event::Start).1;
    loop {
        let event = match step {
            Step::PollEnd => Event::Ended(Poll::Pending),
            Step::ReadSettings => Event::Settings(None),
            Step::PollDatagrams => Event::Datagrams(Poll::Pending),
            Step::AskClosing => Event::Closing(false),
            Step::CloseIdle(close) => {
                assert_eq!(close, Close { code: Code::NoError, reason: CloseReason::Done });
                Event::IdleClosed
            }
            _ => return step,
        };
        step = task.step(shared, event).1;
    }
}

fn admitted(shared: &mut Shared<X>) -> Active {
    match Active::reserve(shared).seek_admission(shared) {
        Admission::Admitted(active) => active,
        _ => panic!("expected admission"),
    }
}

#[test]
fn task_drives_an_open_connection() {
    let mut shared = Shared::new(1, true);
    let mut task = ConnTask::new(true);
    assert!(matches!(poll(&mut task, &mut shared), Step::Pend));
    task.step(&mut shared, Event::Start);
    let settings = Settings { extended_connect: true, datagram: true };
    let (acts, step) = task.step(&mut shared, Event::Settings(Some(settings)));
    assert_eq!(acts.negotiated, Some(true));
    assert!(acts.wakes.waiting);
    assert!(matches!(step, Step::PollDatagrams));
    assert_eq!(shared.peer_extended_connect(), Some(true));
    // SETTINGS are read once.
    let (_, step) = task.step(&mut shared, Event::Ended(Poll::Pending));
    assert!(matches!(step, Step::PollDatagrams));
    let (acts, step) = task.step(&mut shared, Event::Datagrams(Poll::Ready(Ok(()))));
    assert!(acts.wakes.datagrams);
    assert!(matches!(step, Step::AskClosing));
    let (_, step) = task.step(&mut shared, Event::Ended(Poll::Pending));
    assert!(matches!(step, Step::AskClosing));
}

#[test]
fn drained_idle_connection_is_closed() {
    let mut shared = Shared::new(1, false);
    let mut task = ConnTask::new(false);
    let active = admitted(&mut shared);
    shared.drain();
    assert!(matches!(poll(&mut task, &mut shared), Step::Pend));
    let wakes = shared.release(active);
    assert!(wakes.driver);
    assert!(matches!(poll(&mut task, &mut shared), Step::Over(None, Ok(()))));
    assert_eq!(shared.error().kind, Kind::Closed);
    assert!(matches!(poll(&mut task, &mut shared), Step::Finished));
    assert!(task.abandon(&mut shared).1.is_none());
}

#[test]
fn closing_connection_returns_those_who_wait() {
    let mut shared = Shared::new(1, false);
    let mut task = ConnTask::new(false);
    let _active = admitted(&mut shared);
    let waiting = Active::reserve(&mut shared);
    task.step(&mut shared, Event::Start);
    let (acts, step) = task.step(&mut shared, Event::Closing(true));
    assert!(acts.wakes.waiting && acts.wakes.driver);
    assert!(matches!(step, Step::Pend));
    assert!(matches!(
        waiting.seek_admission(&mut shared),
        Admission::Refused(..)
    ));
}

#[test]
fn end_of_the_connection_is_reported() {
    let mut shared = Shared::new(1, false);
    let mut task = ConnTask::new(false);
    let (_, step) = task.step(&mut shared, Event::Ended(Poll::Ready(("bye", true))));
    assert!(matches!(step, Step::Over(None, Ok(()))));
    let mut shared = Shared::new(1, false);
    let mut task = ConnTask::new(false);
    match task.step(&mut shared, Event::Ended(Poll::Ready(("broken", false)))).1 {
        Step::Over(None, Err(error)) => {
            let published = error.published.unwrap();
            assert!(matches!(published.cause, Some(Cause::Outside("broken"))));
        }
        _ => panic!("expected a failure"),
    }
    assert!(shared.is_closed() && shared.admission_closed() && shared.settings_ready());
}

#[test]
fn dropped_task_ends_the_connection() {
    let mut shared = Shared::<X>::new(1, true);
    let mut task = ConnTask::new(true);
    let (acts, ended) = task.abandon(&mut shared);
    assert!(acts.wakes.waiting && acts.wakes.datagrams);
    let (close, error) = ended.unwrap();
    assert_eq!(close, Close { code: Code::NoError, reason: CloseReason::TaskDropped });
    let published = error.published.unwrap();
    assert!(matches!(published.cause, Some(Cause::Reason(Reason::TaskDropped))));
    assert!(shared.settings_ready());
}

/// A Datagram that breaks the rules closes the connection with its code, and
/// everyone sees that cause, also an exchange that the close wakes.
#[test]
fn datagram_failure_preserves_cause_when_close_wakes_pending_request() {
    for response_started in [false, true] {
        let mut shared = Shared::new(1, true);
        let mut task = ConnTask::new(true);
        let active = admitted(&mut shared);
        let recv = wreq_proto::client::RecvGuard {
            datagrams: true,
            finished: false,
            code: Code::RequestCancelled,
        };
        let mut body = None;
        let mut head = RequestHead {
            method: Method::GET,
            authority: Some("localhost".to_string()),
            scheme: true,
            headers: HeaderMap::new(),
            protocol: false,
            datagram: false,
        };
        let info = BodyInfo { end_stream: true, exact: Some(0) };
        let (mut pending, _) = Exchange::begin(true, &shared, &mut head, info);
        pending.entered::<X>(Ok(()));
        pending.opened(&shared, Ok(0), true);
        pending.finished::<X>(&shared, Ok(()), None);
        if response_started {
            body = Some(RecvBody::new::<X>(recv, Some(1), active, true, false));
        }
        let cause = Error::new_outside(Kind::Http3, "missing Quarter Stream ID");
        let failure = Event::Datagrams(Poll::Ready(Err((Code::DatagramError, cause))));
        let (_, step) = task.step(&mut shared, failure);
        let connection_error = match step {
            Step::Over(Some(close), Err(error)) => {
                assert_eq!(close.code.value(), 0x33);
                assert_eq!(close.reason, CloseReason::DatagramFailed);
                error
            }
            _ => panic!("expected a failure"),
        };
        // The close wakes the exchange, whose stream then fails.
        let request_error = match body {
            Some((mut body, mut link)) => {
                body.poll_frame::<HeaderMap, X>(&mut link);
                let lost = Poll::Ready(Err("stream lost"));
                match body.read_data::<HeaderMap, X>(&mut link, &mut shared, lost, false).0 {
                    Read::Failed(error) => error,
                    _ => panic!("expected a failure"),
                }
            }
            None => {
                let lost = Err(Error::new_outside(Kind::Http3, "stream lost"));
                match pending.responded(&shared, lost) {
                    exchange::Step::Fail(error) => error,
                    _ => panic!("expected a failure"),
                }
            }
        };
        for error in [connection_error, request_error] {
            let published = error.published.unwrap();
            assert!(matches!(
                published.cause,
                Some(Cause::Outside("missing Quarter Stream ID"))
            ));
        }
    }
}

/// The response is complete before the upload starts; the driver must not
/// close before the FIN of the upload is acknowledged.
#[test]
fn early_response_drain_waits_for_upload_fin_ack() {
    for graceful in [false, true] {
        let mut shared = Shared::<X>::new(1, false);
        let mut task = ConnTask::new(false);
        let mut tx = SendRequest::first();
        let reservation = tx.try_send_request(&mut shared).unwrap();
        let mut head = RequestHead {
            method: Method::POST,
            authority: Some("localhost".to_string()),
            scheme: true,
            headers: HeaderMap::new(),
            protocol: false,
            datagram: false,
        };
        let info = BodyInfo { end_stream: false, exact: None };
        let (mut exchange, _) = Exchange::begin(true, &shared, &mut head, info);
        let active = match reservation.seek_admission(&mut shared) {
            Admission::Admitted(active) => active,
            _ => panic!("expected admission"),
        };
        exchange.entered::<X>(Ok(()));
        let length = match exchange.opened(&shared, Ok(0), false) {
            exchange::Step::Upload(length) => length,
            _ => panic!("expected an upload"),
        };
        let mut upload = Upload::new(exchange.send, length);
        let ok = ResponseHead { status: 200, headers: HeaderMap::new() };
        let (remaining, sending) = match exchange.responded(&shared, Ok(&ok)) {
            exchange::Step::Deliver { remaining, sending } => (remaining, sending),
            _ => panic!("expected a response"),
        };
        assert!(sending);
        let (mut body, mut link) =
            RecvBody::new::<X>(exchange.recv, remaining, active, false, sending);
        let guard = PipeGuard::new();
        if graceful {
            shared.shutdown();
        } else {
            tx.abandon(&mut shared);
        }
        body.read_data::<HeaderMap, X>(&mut link, &mut shared, Poll::Ready(Ok(None)), false);
        let none: Poll<Result<Option<HeaderMap>, X>> = Poll::Ready(Ok(None));
        let (read, _) = body.read_trailers(&mut link, &mut shared, none, false);
        assert!(matches!(read, Read::End));
        // The upload goes on, 128 KiB of it, up to its FIN.
        let mut total = 0;
        let mut frames = 1;
        let mut step: upload::Step<Bytes, HeaderMap, X> = upload.resume();
        loop {
            assert!(matches!(poll(&mut task, &mut shared), Step::Pend));
            let event = match step {
                upload::Step::PollStopped => upload::Event::Stopped(Poll::Pending),
                upload::Step::PollFrame if frames > 0 => {
                    frames -= 1;
                    let data = Bytes::from(vec![9; 128 * 1024]);
                    upload::Event::Frame(Poll::Ready(Some(Ok(Frame::Data(data)))))
                }
                upload::Step::PollFrame => upload::Event::Frame(Poll::Ready(None)),
                upload::Step::SendData(chunk) => {
                    assert!(chunk.iter().all(|b| *b == 9));
                    total += chunk.len();
                    upload::Event::Sent(Ok(()))
                }
                upload::Step::Finish => upload::Event::Sent(Ok(())),
                upload::Step::AwaitAcknowledgment { .. } => break,
                _ => panic!("unexpected step"),
            };
            step = upload.step(event);
        }
        assert_eq!(total, 128 * 1024);
        assert!(matches!(
            upload.step::<HeaderMap, X>(upload::Event::Stopped(Poll::Pending)),
            upload::Step::Pend
        ));
        assert!(matches!(poll(&mut task, &mut shared), Step::Pend));
        // The acknowledgment ends it.
        assert!(matches!(
            upload.step::<HeaderMap, X>(upload::Event::Stopped(Poll::Ready(Ok(())))),
            upload::Step::Return(Ok(()))
        ));
        let effects = guard.abandon(&mut link, &mut shared, false);
        assert!(effects.wakes.driver);
        assert!(matches!(poll(&mut task, &mut shared), Step::Over(None, Ok(()))));
    }
}

/// The peer ends its side of the tunnel first; the driver must not close before
/// the FIN of the tunnel is acknowledged.
#[test]
fn tunnel_drain_waits_for_upload_fin_ack() {
    for graceful in [false, true] {
        let mut shared = Shared::<X>::new(1, false);
        let mut task = ConnTask::new(false);
        let tx = SendRequest::first();
        let active = admitted(&mut shared);
        let send = wreq_proto::client::SendGuard { datagrams: false, finished: false };
        let recv = wreq_proto::client::RecvGuard {
            datagrams: false,
            finished: false,
            code: Code::RequestCancelled,
        };
        let mut made = upgrade::tunnel(send, recv, active, TunnelDatagrams::Disabled);
        if graceful {
            shared.shutdown();
        } else {
            tx.abandon(&mut shared);
        }
        let transfer = made.task.transfer.as_mut().unwrap();
        // The receiving direction comes to its end.
        let stream = transfer.recv.as_mut().unwrap();
        let mut step: RecvStep<Bytes, X> = stream.step(RecvEvent::Start);
        loop {
            let event = match step {
                RecvStep::PollClosed => RecvEvent::Closed(false),
                RecvStep::PollData => RecvEvent::Data(Poll::Ready(Ok(None))),
                RecvStep::PollTrailers => RecvEvent::Trailers(Poll::Ready(Ok(()))),
                RecvStep::Finish { .. } => break,
                _ => panic!("unexpected step"),
            };
            step = stream.step(event);
        }
        let (end, over) = transfer.step::<X>(TransferEvent::Recv(Poll::Ready(Ok(()))), false);
        assert_eq!(end.recv.unwrap().stop_sending, None);
        assert!(matches!(over, TransferStep::Pend));
        assert!(matches!(
            made.io.read::<X>(16, ReadEvent::Next(Poll::Ready(None))),
            ReadStep::Nothing
        ));
        // The application writes 128 KiB and shuts down.
        let data = vec![9; 128 * 1024];
        let mut written = 0;
        let mut received = 0;
        let stream = transfer.send.as_mut().unwrap();
        let mut at: SendStep<Bytes, X> = stream.step(SendEvent::Start).1;
        let mut finished = false;
        while !finished {
            let command = if written < data.len() {
                let step = made
                    .io
                    .write::<X>(&data[written..], WriteEvent::Reserved(Poll::Ready(true)));
                match (step, made.io.write::<X>(&data[written..], WriteEvent::Sent(true))) {
                    (WriteStep::Send(command), WriteStep::Done(size)) => {
                        assert_eq!(size, CHUNK);
                        written += size;
                        command
                    }
                    _ => panic!("expected a write"),
                }
            } else {
                let event = WriteEvent::Reserved(Poll::Ready(true));
                match made.io.barrier::<X>(true, event) {
                    WriteStep::Send(command) => {
                        finished = true;
                        made.io.barrier::<X>(true, WriteEvent::Sent(true));
                        command
                    }
                    _ => panic!("expected a finish"),
                }
            };
            let mut command = Some(command);
            while command.is_some() {
                assert!(matches!(poll(&mut task, &mut shared), Step::Pend));
                let event = match at {
                    SendStep::PollStopped => SendEvent::Stopped(Poll::Pending),
                    SendStep::PollReady => SendEvent::Ready(Poll::Ready(Ok(()))),
                    SendStep::PollCommand => SendEvent::Command(Poll::Ready(command.take())),
                    SendStep::Yield => SendEvent::Start,
                    _ => panic!("unexpected step"),
                };
                at = stream.step(event).1;
                if let SendStep::Write(bytes) = &at {
                    assert!(bytes.iter().all(|b| *b == 9));
                    received += bytes.len();
                    at = stream.step(SendEvent::Written(Ok(()))).1;
                }
            }
        }
        assert_eq!(received, 128 * 1024);
        assert!(matches!(at, SendStep::PollFinish));
        let (effect, at) = stream.step::<X>(SendEvent::Finished(Poll::Ready(Ok(()))));
        assert_eq!(effect, SendEffect::AckFinish);
        assert!(matches!(at, SendStep::PollStopped));
        let acked = WriteEvent::<X>::Acknowledged(Poll::Ready(Some(Ok(()))));
        assert!(matches!(made.io.barrier(true, acked), WriteStep::Done(0)));
        // The shutdown is done, the FIN is not acknowledged.
        stream.step::<X>(SendEvent::Stopped(Poll::Pending));
        assert!(matches!(poll(&mut task, &mut shared), Step::Pend));
        stream.step::<X>(SendEvent::Start);
        let (_, at) = stream.step::<X>(SendEvent::Stopped(Poll::Ready(Ok(()))));
        assert!(matches!(at, SendStep::Return(Ok(()))));
        let (end, over) = transfer.step::<X>(TransferEvent::Send(Poll::Ready(Ok(()))), false);
        assert_eq!(end.reset, None);
        assert!(matches!(over, TransferStep::Over(Ok(()))));
        let end = made.task.end::<X>(&mut shared, None, false);
        assert!(end.wakes.driver);
        assert!(matches!(poll(&mut task, &mut shared), Step::Over(None, Ok(()))));
    }
}
