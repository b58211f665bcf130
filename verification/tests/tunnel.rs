use bytes::Bytes;
use wreq_proto::client::{RecvGuard, SendGuard, CHUNK};
use wreq_proto::error::{Cause, Code, Error, Kind, Poll, Reason};
use wreq_proto::shared::{Active, Admission, Shared};
use wreq_proto::tunnel_io::{self, Command, ReadEvent, ReadStep, Upgraded, WriteEvent, WriteStep};
use wreq_proto::tunnel_recv::{RecvEvent, RecvStep, RecvStream};
use wreq_proto::tunnel_send::{SendEffect, SendEvent, SendStep, SendStream};
use wreq_proto::upgrade::{self, TransferEvent, TransferStep, TunnelDatagrams};

type X = &'static str;

const SEND: SendGuard = SendGuard { datagrams: true, finished: false };
const RECV: RecvGuard = RecvGuard {
    datagrams: true,
    finished: false,
    code: Code::RequestCancelled,
};

fn next(data: &'static [u8]) -> ReadEvent<Bytes, X> {
    ReadEvent::Next(Poll::Ready(Some(Ok(Bytes::from_static(data)))))
}

#[test]
fn reads_come_in_order() {
    let mut io = Upgraded::new(false);
    let mut out: Vec<u8> = Vec::new();
    assert!(matches!(io.read::<X>(4, ReadEvent::Start), ReadStep::PollNext));
    match io.read(4, next(b"hello ")) {
        ReadStep::Data(data) => out.extend_from_slice(&data),
        _ => panic!("expected data"),
    }
    match io.read::<X>(100, ReadEvent::Start) {
        ReadStep::Data(data) => out.extend_from_slice(&data),
        _ => panic!("expected data"),
    }
    assert!(matches!(io.read::<X>(100, ReadEvent::Start), ReadStep::PollNext));
    assert!(matches!(io.read(100, next(b"")), ReadStep::PollNext));
    match io.read(100, next(b"world")) {
        ReadStep::Data(data) => out.extend_from_slice(&data),
        _ => panic!("expected data"),
    }
    assert_eq!(out, b"hello world");
    assert!(matches!(io.read::<X>(0, ReadEvent::Start), ReadStep::Nothing));
    assert!(matches!(io.read::<X>(1, ReadEvent::Next(Poll::Pending)), ReadStep::Pend));
}

#[test]
fn end_of_a_tunnel_stays() {
    let mut io = Upgraded::new(false);
    assert!(matches!(
        io.read::<X>(8, ReadEvent::Next(Poll::Ready(None))),
        ReadStep::Nothing
    ));
    for _ in 0..3 {
        assert!(matches!(io.read::<X>(8, ReadEvent::Start), ReadStep::Nothing));
    }
    let mut io = Upgraded::new(false);
    let failure = ReadEvent::Next(Poll::Ready(Some(Err(Error::new_outside(Kind::Http3, "x")))));
    assert!(matches!(io.read(8, failure), ReadStep::Failed(_)));
    assert!(matches!(io.read::<X>(8, ReadEvent::Start), ReadStep::Nothing));
}

#[test]
fn writes_take_a_chunk_at_a_time() {
    let mut io = Upgraded::new(false);
    let data = vec![9; CHUNK + 5];
    assert!(matches!(io.write::<X>(&data, WriteEvent::Start), WriteStep::PollReserve));
    assert!(matches!(
        io.write::<X>(&data, WriteEvent::Reserved(Poll::Pending)),
        WriteStep::Pend
    ));
    match io.write::<X>(&data, WriteEvent::Reserved(Poll::Ready(true))) {
        WriteStep::Send(Command::Data(sent)) => assert_eq!(&sent[..], &data[..CHUNK]),
        _ => panic!("expected data"),
    }
    assert!(matches!(io.write::<X>(&data, WriteEvent::Sent(true)), WriteStep::Done(CHUNK)));
    match io.write::<X>(&data[CHUNK..], WriteEvent::Reserved(Poll::Ready(true))) {
        WriteStep::Send(Command::Data(sent)) => assert_eq!(&sent[..], &[9, 9, 9, 9, 9]),
        _ => panic!("expected data"),
    }
    assert!(matches!(io.write::<X>(&[], WriteEvent::Start), WriteStep::Done(0)));
    assert!(matches!(
        io.write::<X>(&data, WriteEvent::Reserved(Poll::Ready(false))),
        WriteStep::Closed
    ));
    assert!(matches!(io.write::<X>(&data, WriteEvent::Sent(false)), WriteStep::Closed));
    assert_eq!(tunnel_io::closed(), Reason::TunnelClosed);
}

#[test]
fn finish_follows_a_pending_flush() {
    let mut io = Upgraded::new(false);
    assert!(matches!(io.barrier::<X>(false, WriteEvent::Start), WriteStep::PollReserve));
    assert!(matches!(
        io.barrier::<X>(false, WriteEvent::Reserved(Poll::Ready(true))),
        WriteStep::Send(Command::Flush)
    ));
    assert!(matches!(io.barrier::<X>(false, WriteEvent::Sent(true)), WriteStep::PollAck));
    assert!(matches!(
        io.barrier::<X>(false, WriteEvent::Acknowledged(Poll::Pending)),
        WriteStep::Pend
    ));
    // The shutdown comes while the flush is pending.
    assert!(matches!(io.barrier::<X>(true, WriteEvent::Start), WriteStep::PollAck));
    let acked = || WriteEvent::<X>::Acknowledged(Poll::Ready(Some(Ok(()))));
    assert!(matches!(io.barrier(true, acked()), WriteStep::PollReserve));
    assert!(!io.shutdown);
    assert!(matches!(
        io.barrier::<X>(true, WriteEvent::Reserved(Poll::Ready(true))),
        WriteStep::Send(Command::Finish)
    ));
    assert!(matches!(io.barrier::<X>(true, WriteEvent::Sent(true)), WriteStep::PollAck));
    assert!(matches!(io.barrier(true, acked()), WriteStep::Done(0)));
    assert!(io.shutdown);
    assert!(matches!(io.write::<X>(b"x", WriteEvent::Start), WriteStep::Closed));
    assert!(matches!(io.barrier::<X>(true, WriteEvent::Start), WriteStep::Done(0)));
    assert!(matches!(io.barrier::<X>(false, WriteEvent::Start), WriteStep::Done(0)));
}

#[test]
fn write_waits_for_a_pending_acknowledgment() {
    let mut io = Upgraded::new(true);
    io.barrier::<X>(false, WriteEvent::Sent(true));
    assert!(matches!(io.write::<X>(b"x", WriteEvent::Start), WriteStep::PollAck));
    let failed = WriteEvent::Acknowledged(Poll::Ready(Some(Err(Error::<X>::new(Kind::Closed)))));
    assert!(matches!(io.write(b"x", failed), WriteStep::Failed(_)));
    io.barrier::<X>(true, WriteEvent::Sent(true));
    let gone = WriteEvent::<X>::Acknowledged(Poll::Ready(None));
    assert!(matches!(io.barrier(true, gone), WriteStep::Closed));
    assert!(!io.shutdown && io.pending.is_none());
    assert!(matches!(io.barrier::<X>(true, WriteEvent::Sent(false)), WriteStep::Closed));
    assert!(io.abandon());
}

/// Brings the sending direction to where it waits for a command.
fn to_command(stream: &mut SendStream, step: SendStep<Bytes, X>) {
    assert!(matches!(step, SendStep::PollStopped));
    let (_, step) = stream.step::<X>(SendEvent::Stopped(Poll::Pending));
    assert!(matches!(step, SendStep::PollReady));
    let (_, step) = stream.step::<X>(SendEvent::Ready(Poll::Ready(Ok(()))));
    assert!(matches!(step, SendStep::PollCommand));
}

#[test]
fn tunnel_writes_when_ready_and_acknowledges_in_turn() {
    let mut stream = SendStream::new(SEND);
    let (_, step) = stream.step::<X>(SendEvent::Start);
    to_command(&mut stream, step);
    let data = SendEvent::Command(Poll::Ready(Some(Command::Data(Bytes::from_static(b"abc")))));
    match stream.step::<X>(data) {
        (SendEffect::Nothing, SendStep::Write(sent)) => assert_eq!(&sent[..], b"abc"),
        _ => panic!("expected data"),
    }
    let (_, step) = stream.step::<X>(SendEvent::Written(Ok(())));
    to_command(&mut stream, step);
    let (effect, step) = stream.step::<X>(SendEvent::Command(Poll::Ready(Some(Command::Flush))));
    assert_eq!(effect, SendEffect::AckFlush);
    to_command(&mut stream, step);
    let (effect, step) = stream.step::<X>(SendEvent::Command(Poll::Ready(Some(Command::Finish))));
    assert_eq!(effect, SendEffect::CloseRoute);
    assert!(matches!(step, SendStep::PollFinish));
    let (_, step) = stream.step::<X>(SendEvent::Finished(Poll::Pending));
    assert!(matches!(step, SendStep::Pend));
    let (_, step) = stream.step::<X>(SendEvent::Start);
    assert!(matches!(step, SendStep::PollFinish));
    let (effect, step) = stream.step::<X>(SendEvent::Finished(Poll::Ready(Ok(()))));
    assert_eq!(effect, SendEffect::AckFinish);
    assert!(matches!(step, SendStep::PollStopped));
    let (_, step) = stream.step::<X>(SendEvent::Stopped(Poll::Pending));
    assert!(matches!(step, SendStep::Pend));
    let (_, step) = stream.step::<X>(SendEvent::Start);
    assert!(matches!(step, SendStep::PollStopped));
    let (_, step) = stream.step::<X>(SendEvent::Stopped(Poll::Ready(Ok(()))));
    assert!(matches!(step, SendStep::Return(Ok(()))));
    assert_eq!(stream.send.abandon(false), None);
}

#[test]
fn tunnel_send_ends() {
    let mut stream = SendStream::new(SEND);
    stream.step::<X>(SendEvent::Start);
    let (effect, step) = stream.step::<X>(SendEvent::Stopped(Poll::Ready(Ok(()))));
    assert_eq!(effect, SendEffect::CloseRoute);
    assert!(matches!(step, SendStep::Return(Ok(()))));
    let mut stream = SendStream::new(SEND);
    let (_, step) = stream.step::<X>(SendEvent::Start);
    to_command(&mut stream, step);
    match stream.step::<X>(SendEvent::Command(Poll::Ready(None))).1 {
        SendStep::Return(Err(error)) => assert_eq!(error.kind, Kind::Canceled),
        _ => panic!("expected a failure"),
    }
    let mut stream = SendStream::new(SEND);
    stream.step::<X>(SendEvent::Start);
    stream.step::<X>(SendEvent::Stopped(Poll::Pending));
    match stream.step(SendEvent::Ready(Poll::Ready(Err("cut")))).1 {
        SendStep::Return(Err(error)) => assert!(matches!(error.cause, Some(Cause::Outside("cut")))),
        _ => panic!("expected a failure"),
    }
    assert!(matches!(stream.step::<X>(SendEvent::Start).1, SendStep::Nothing));
}

#[test]
fn tunnel_send_yields_after_a_burst() {
    let mut stream = SendStream::new(SEND);
    let (_, mut step) = stream.step::<X>(SendEvent::Start);
    let mut flushes = 0;
    while !matches!(step, SendStep::Yield) {
        to_command(&mut stream, step);
        flushes += 1;
        step = stream.step::<X>(SendEvent::Command(Poll::Ready(Some(Command::Flush)))).1;
    }
    assert_eq!(flushes, 32);
    let (_, step) = stream.step::<X>(SendEvent::Start);
    assert!(matches!(step, SendStep::PollStopped));
}

#[test]
fn tunnel_forwards_in_order() {
    let mut stream = RecvStream::new(RECV);
    let pieces: Vec<Vec<u8>> = vec![vec![1; CHUNK * 2 + 3], vec![], vec![2; 10]];
    let mut pieces_left = pieces.iter();
    let mut out: Vec<u8> = Vec::new();
    let mut step: RecvStep<Bytes, X> = stream.step(RecvEvent::Start);
    loop {
        let event = match step {
            RecvStep::PollClosed => RecvEvent::Closed(false),
            RecvStep::PollRoom => RecvEvent::Room(Poll::Ready(Ok(()))),
            RecvStep::Forward(data) => {
                assert!(!data.is_empty() && data.len() <= CHUNK);
                out.extend_from_slice(&data);
                RecvEvent::Forwarded(true)
            }
            RecvStep::PollData => RecvEvent::Data(Poll::Ready(Ok(
                pieces_left.next().map(|piece| Bytes::from(piece.clone()))
            ))),
            RecvStep::PollTrailers => RecvEvent::Trailers(Poll::Ready(Ok(()))),
            RecvStep::Yield => RecvEvent::Start,
            RecvStep::Finish { close_route } => {
                assert!(close_route);
                break;
            }
            _ => panic!("unexpected step"),
        };
        step = stream.step(event);
    }
    assert_eq!(out, pieces.concat());
    assert!(stream.recv.finished && !stream.open);
}

#[test]
fn tunnel_recv_ends() {
    let mut stream = RecvStream::new(RECV);
    stream.step::<X>(RecvEvent::Start);
    match stream.step::<X>(RecvEvent::Closed(true)) {
        RecvStep::Return(Err(error)) => assert_eq!(error.kind, Kind::Canceled),
        _ => panic!("expected a failure"),
    }
    let mut stream = RecvStream::new(RECV);
    stream.step::<X>(RecvEvent::Start);
    stream.step::<X>(RecvEvent::Closed(false));
    assert!(matches!(stream.step::<X>(RecvEvent::Data(Poll::Pending)), RecvStep::Pend));
    stream.step::<X>(RecvEvent::Start);
    stream.step::<X>(RecvEvent::Closed(false));
    match stream.step(RecvEvent::Data(Poll::Ready(Err("reset")))) {
        RecvStep::Return(Err(error)) => {
            assert!(matches!(error.cause, Some(Cause::Outside("reset"))))
        }
        _ => panic!("expected a failure"),
    }
    let mut stream = RecvStream::new(RECV);
    stream.step::<X>(RecvEvent::Start);
    stream.step::<X>(RecvEvent::Closed(false));
    stream.step::<X>(RecvEvent::Data(Poll::Ready(Ok(Some(Bytes::from_static(b"x"))))));
    stream.step::<X>(RecvEvent::Closed(false));
    assert!(matches!(stream.step::<X>(RecvEvent::Room(Poll::Pending)), RecvStep::Pend));
    stream.step::<X>(RecvEvent::Start);
    stream.step::<X>(RecvEvent::Closed(false));
    stream.step::<X>(RecvEvent::Room(Poll::Ready(Ok(()))));
    match stream.step::<X>(RecvEvent::Forwarded(false)) {
        RecvStep::Return(Err(error)) => assert_eq!(error.kind, Kind::Canceled),
        _ => panic!("expected a failure"),
    }
}

#[test]
fn tunnel_recv_yields_after_a_burst() {
    let mut stream = RecvStream::new(RECV);
    let mut step: RecvStep<Bytes, X> = stream.step(RecvEvent::Start);
    let mut reads = 0;
    while !matches!(step, RecvStep::Yield) {
        step = match step {
            RecvStep::PollClosed => stream.step(RecvEvent::Closed(false)),
            RecvStep::PollData => {
                reads += 1;
                stream.step(RecvEvent::Data(Poll::Ready(Ok(Some(Bytes::new())))))
            }
            _ => panic!("unexpected step"),
        };
    }
    assert_eq!(reads, 32);
}

fn tunnel(shared: &mut Shared<X>, datagrams: TunnelDatagrams) -> upgrade::Tunnel {
    match Active::reserve(shared).seek_admission(shared) {
        Admission::Admitted(active) => upgrade::tunnel(SEND, RECV, active, datagrams),
        _ => panic!("expected admission"),
    }
}

#[test]
fn tunnels_differ_in_datagrams() {
    let mut shared = Shared::<X>::new(3, true);
    let plain = tunnel(&mut shared, TunnelDatagrams::new(false, true));
    assert!(!plain.session && !plain.task.registration && !plain.io.datagrams);
    let ordinary = tunnel(&mut shared, TunnelDatagrams::new(true, false));
    assert!(!ordinary.session && ordinary.task.registration && !ordinary.io.datagrams);
    let session = tunnel(&mut shared, TunnelDatagrams::new(true, true));
    assert!(session.session && session.task.registration && session.io.datagrams);
}

#[test]
fn transfer_waits_for_both_directions() {
    let mut shared = Shared::<X>::new(1, true);
    let mut made = tunnel(&mut shared, TunnelDatagrams::Ordinary);
    let transfer = made.task.transfer.as_mut().unwrap();
    let (end, step) = transfer.step::<X>(TransferEvent::Start, false);
    assert!(end.reset.is_none() && end.recv.is_none());
    assert!(matches!(step, TransferStep::PollSend));
    let (end, step) = transfer.step::<X>(TransferEvent::Send(Poll::Pending), false);
    assert!(end.reset.is_none() && end.recv.is_none());
    assert!(matches!(step, TransferStep::PollRecv));
    transfer.recv.as_mut().unwrap().recv.finished = true;
    let (end, step) = transfer.step::<X>(TransferEvent::Recv(Poll::Ready(Ok(()))), false);
    assert_eq!(end.recv.unwrap().stop_sending, None);
    assert!(matches!(step, TransferStep::Pend));
    transfer.step::<X>(TransferEvent::Start, false);
    transfer.send.as_mut().unwrap().send.finished = true;
    let (end, step) = transfer.step::<X>(TransferEvent::Send(Poll::Ready(Ok(()))), false);
    assert_eq!(end.reset, None);
    assert!(matches!(step, TransferStep::Over(Ok(()))));
    let end = made.task.end::<X>(&mut shared, None, false);
    assert!(end.reset.is_none() && end.recv.is_none() && end.report.is_none());
    assert!(end.unregister && end.wakes.waiting);
    assert_eq!(shared.active(), 0);
}

#[test]
fn failed_transfer_cancels_and_reports() {
    let mut shared = Shared::<X>::new(1, true);
    let mut made = tunnel(&mut shared, TunnelDatagrams::Datagram);
    let transfer = made.task.transfer.as_mut().unwrap();
    let error = match transfer.step::<X>(TransferEvent::Start, true) {
        (_, TransferStep::Over(Err(error))) => error,
        _ => panic!("expected a failure"),
    };
    let end = made.task.end(&mut shared, Some(error), true);
    assert_eq!(end.reset, Some(Code::DatagramError));
    assert_eq!(end.recv.unwrap().stop_sending, Some(Code::DatagramError));
    let report = end.report.unwrap();
    assert!(matches!(report.cause, Some(Cause::Reason(Reason::InvalidDatagram))));
    assert_eq!(shared.active(), 0);
    // Ending once is ending for good.
    let again = made.task.end::<X>(&mut shared, None, false);
    assert!(again.reset.is_none() && !again.unregister && !again.wakes.waiting);
}

#[test]
fn published_error_is_reported_to_the_tunnel() {
    let mut shared = Shared::<X>::new(1, false);
    let mut made = tunnel(&mut shared, TunnelDatagrams::Disabled);
    shared.terminate(Error::new_outside(Kind::Http3, "connection"));
    let end = made.task.end(&mut shared, Some(Error::new_outside(Kind::Http3, "stream")), false);
    let published = end.report.unwrap().published.unwrap();
    assert!(matches!(published.cause, Some(Cause::Outside("connection"))));
}

/// The peer stops the tunnel's sending side before its FIN: the direction is
/// over without a failure, its stream is reset at once, and the other direction
/// goes on.
#[test]
fn stopped_tunnel_direction_is_reset_at_once() {
    for (invalid, code) in [(false, Code::RequestCancelled), (true, Code::DatagramError)] {
        let mut shared = Shared::<X>::new(1, true);
        let mut made = tunnel(&mut shared, TunnelDatagrams::Ordinary);
        let transfer = made.task.transfer.as_mut().unwrap();
        let stream = transfer.send.as_mut().unwrap();
        let (_, step) = stream.step::<X>(SendEvent::Start);
        assert!(matches!(step, SendStep::PollStopped));
        let (_, step) = stream.step::<X>(SendEvent::Stopped(Poll::Ready(Ok(()))));
        assert!(matches!(step, SendStep::Return(Ok(()))));
        assert!(!stream.send.finished);
        let (end, step) = transfer.step::<X>(TransferEvent::Send(Poll::Ready(Ok(()))), invalid);
        assert_eq!(end.reset, Some(code));
        assert!(end.recv.is_none());
        assert!(matches!(step, TransferStep::PollRecv));
        assert!(transfer.send.is_none() && transfer.recv.is_some());
        // It is not reset again when the task ends.
        let end = made.task.end::<X>(&mut shared, None, invalid);
        assert_eq!(end.reset, None);
        assert_eq!(end.recv.unwrap().stop_sending, Some(code));
    }
}
