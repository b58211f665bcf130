use bytes::Bytes;
use wreq_proto::client::{SendGuard, CHUNK};
use wreq_proto::error::{Cause, Code, Error, Kind, Poll, Reason, StreamFailure};
use wreq_proto::upload::{
    continue_upload, Event, Frame, Step, TaskEvent, TaskStep, Upload,
};

type X = &'static str;

const OPEN: SendGuard = SendGuard { datagrams: false, finished: false };

/// A field that stands for trailers.
type Fields = (&'static str, &'static str);
const TRAILERS: Fields = ("x-checksum", "4");

type UploadStep = Step<Bytes, Fields, X>;

/// This many bytes of data, none like its neighbour.
fn bytes(size: usize) -> Bytes {
    Bytes::from((0..size).map(|i| (i % 251) as u8).collect::<Vec<u8>>())
}

fn data(size: usize) -> Frame<Bytes, Fields> {
    Frame::Data(bytes(size))
}

/// Runs an upload of these frames on a stream that takes everything, and
/// returns the chunks with the last step.
fn run(upload: &mut Upload<Bytes>, frames: Vec<Frame<Bytes, Fields>>) -> (Vec<Bytes>, UploadStep) {
    let mut frames = frames.into_iter();
    let mut chunks = Vec::new();
    let mut step: UploadStep = upload.resume();
    loop {
        let event = match step {
            Step::PollStopped => Event::Stopped(Poll::Pending),
            Step::PollFrame => Event::Frame(Poll::Ready(frames.next().map(Ok))),
            Step::SendData(chunk) => {
                chunks.push(chunk);
                Event::Sent(Ok(()))
            }
            Step::SendTrailers(trailers) => {
                assert_eq!(trailers, TRAILERS);
                Event::Sent(Ok(()))
            }
            Step::Finish => Event::Sent(Ok(())),
            Step::Rest => Event::Rested,
            _ => return (chunks, step),
        };
        step = upload.step(event);
    }
}

fn sizes(chunks: &[Bytes]) -> Vec<usize> {
    chunks.iter().map(|chunk| chunk.len()).collect()
}

fn failure(step: UploadStep) -> Error<X> {
    match step {
        Step::Return(Err(error)) => error,
        _ => panic!("expected a failure"),
    }
}

fn is_reason(error: &Error<X>, expected: Reason) -> bool {
    matches!(error.cause, Some(Cause::Reason(reason)) if reason == expected)
}

#[test]
fn body_is_sent_in_chunks_then_finished() {
    let mut upload = Upload::new(SendGuard { datagrams: true, finished: false }, Some(40000));
    let (chunks, step) = run(&mut upload, vec![data(CHUNK * 2 + 7), data(7225)]);
    assert_eq!(sizes(&chunks), vec![CHUNK, CHUNK, 7, 7225]);
    // The chunks, joined, are the frames, joined.
    assert_eq!(chunks.concat(), [bytes(CHUNK * 2 + 7), bytes(7225)].concat());
    assert!(matches!(step, Step::AwaitAcknowledgment { close_route: true }));
    assert!(upload.send.finished);
    assert!(matches!(upload.step::<Fields, X>(Event::Stopped(Poll::Pending)), Step::Pend));
    assert!(matches!(upload.resume::<Fields, X>(), Step::PollStopped));
    assert!(matches!(
        upload.step::<Fields, X>(Event::Stopped(Poll::Ready(Ok(())))),
        Step::Return(Ok(()))
    ));
    assert_eq!(upload.send.abandon(false), None);
}

#[test]
fn empty_frames_send_nothing() {
    let mut upload = Upload::new(OPEN, Some(0));
    let (chunks, step) = run(&mut upload, vec![data(0), Frame::Other, data(0)]);
    assert!(chunks.is_empty());
    assert!(matches!(step, Step::AwaitAcknowledgment { close_route: false }));
}

#[test]
fn long_bursts_rest() {
    let mut upload = Upload::new(OPEN, None);
    let mut rests = 0;
    let mut chunks = 0;
    let mut frames = 1;
    let mut step: UploadStep = upload.resume();
    loop {
        let event = match step {
            Step::PollStopped => Event::Stopped(Poll::Pending),
            Step::PollFrame if frames > 0 => {
                frames -= 1;
                Event::Frame(Poll::Ready(Some(Ok(data(CHUNK * 65)))))
            }
            Step::PollFrame => Event::Frame(Poll::Ready(None)),
            Step::SendData(_) => {
                chunks += 1;
                Event::Sent(Ok(()))
            }
            Step::Finish => break,
            Step::Rest => {
                rests += 1;
                Event::Rested
            }
            _ => panic!("unexpected step"),
        };
        step = upload.step(event);
    }
    assert_eq!(chunks, 65);
    assert_eq!(rests, 2);
    assert_eq!(upload.budget, 2);
}

#[test]
fn body_must_keep_its_length() {
    let mut long = Upload::new(OPEN, Some(5));
    let (chunks, step) = run(&mut long, vec![data(3), data(3)]);
    assert_eq!(chunks, vec![bytes(3)]);
    let error = failure(step);
    assert_eq!(error.kind, Kind::UserBody);
    assert!(is_reason(&error, Reason::BodyTooLong));
    let mut short = Upload::new(OPEN, Some(5));
    let error = failure(run(&mut short, vec![data(3)]).1);
    assert!(is_reason(&error, Reason::BodyTooShort));
    let mut trailers = Upload::new(OPEN, Some(5));
    let error = failure(run(&mut trailers, vec![data(3), Frame::Trailers(TRAILERS)]).1);
    assert!(is_reason(&error, Reason::BodyTooShort));
    assert_eq!(short.send.abandon(false), Some(Code::RequestCancelled));
}

#[test]
fn nothing_follows_trailers() {
    let mut upload = Upload::new(OPEN, None);
    let (_, step) = run(&mut upload, vec![data(1), Frame::Trailers(TRAILERS), data(1)]);
    let error = failure(step);
    assert_eq!(error.kind, Kind::UserBody);
    assert!(is_reason(&error, Reason::FrameAfterTrailers));
    let mut upload = Upload::new(OPEN, None);
    let (_, step) = run(&mut upload, vec![data(1), Frame::Trailers(TRAILERS)]);
    assert!(matches!(step, Step::AwaitAcknowledgment { .. }));
    assert!(upload.trailers_sent);
}

#[test]
fn peer_may_stop_an_upload() {
    let mut upload = Upload::new(OPEN, Some(9));
    let step = upload.step::<Fields, X>(Event::Stopped(Poll::Ready(Ok(()))));
    assert!(matches!(step, Step::Return(Ok(()))));
    assert_eq!(upload.send.abandon(false), Some(Code::RequestCancelled));
    let mut upload = Upload::new(OPEN, Some(9));
    upload.step::<Fields, X>(Event::Stopped(Poll::Pending));
    upload.step::<Fields, X>(Event::Frame(Poll::Ready(Some(Ok(data(9))))));
    let step = upload.step::<Fields, X>(Event::Sent(Err(StreamFailure::RemoteTerminate)));
    assert!(matches!(step, Step::Return(Ok(()))));
}

#[test]
fn stop_is_looked_for_before_every_frame() {
    let mut upload = Upload::new(OPEN, None);
    for _ in 0..100 {
        let step = upload.step::<Fields, X>(Event::Stopped(Poll::Pending));
        assert!(matches!(step, Step::PollFrame));
        let step = upload.step::<Fields, X>(Event::Frame(Poll::Ready(Some(Ok(data(0))))));
        if matches!(step, Step::Rest) {
            assert!(matches!(upload.step::<Fields, X>(Event::Rested), Step::PollStopped));
        } else {
            assert!(matches!(step, Step::PollStopped));
        }
    }
}

#[test]
fn pending_body_waits() {
    let mut upload = Upload::new(OPEN, None);
    upload.step::<Fields, X>(Event::Stopped(Poll::Pending));
    assert!(matches!(upload.step::<Fields, X>(Event::Frame(Poll::Pending)), Step::Pend));
    assert!(matches!(upload.resume::<Fields, X>(), Step::PollStopped));
    assert!(matches!(upload.step::<Fields, X>(Event::Rested), Step::Nothing));
}

#[test]
fn outside_failures_fail_the_upload() {
    let mut lost = Upload::new(OPEN, None);
    let error = failure(lost.step::<Fields, X>(Event::Stopped(Poll::Ready(Err("lost")))));
    assert_eq!(error.kind, Kind::Http3);
    let mut body = Upload::new(OPEN, None);
    body.step::<Fields, X>(Event::Stopped(Poll::Pending));
    let error = failure(body.step::<Fields, X>(Event::Frame(Poll::Ready(Some(Err("body"))))));
    assert_eq!(error.kind, Kind::UserBody);
    assert!(matches!(error.cause, Some(Cause::Outside("body"))));
    let mut send = Upload::new(OPEN, None);
    send.step::<Fields, X>(Event::Stopped(Poll::Pending));
    send.step::<Fields, X>(Event::Frame(Poll::Ready(Some(Ok(Frame::Trailers(TRAILERS))))));
    let error = failure(send.step::<Fields, X>(Event::Sent(Err(StreamFailure::Other("send")))));
    assert_eq!(error.kind, Kind::Http3);
    let mut fin = Upload::new(OPEN, None);
    fin.step::<Fields, X>(Event::Stopped(Poll::Pending));
    assert!(matches!(fin.step::<Fields, X>(Event::Frame(Poll::Ready(None))), Step::Finish));
    let error = failure(fin.step::<Fields, X>(Event::Sent(Err(StreamFailure::Other("fin")))));
    assert!(matches!(error.cause, Some(Cause::Outside("fin"))));
}

#[test]
fn empty_upload_only_waits_for_its_acknowledgment() {
    let mut upload = Upload::acknowledging(SendGuard { datagrams: false, finished: true });
    assert!(matches!(upload.resume::<Fields, X>(), Step::PollStopped));
    let error = failure(upload.step::<Fields, X>(Event::Stopped(Poll::Ready(Err("lost")))));
    assert_eq!(error.kind, Kind::Http3);
}

#[test]
fn task_checks_before_it_polls() {
    let step = continue_upload::<X>(TaskEvent::Datagram { invalid: false });
    assert!(matches!(step, TaskStep::Watch));
    let step = continue_upload::<X>(TaskEvent::Watched { going_on: true });
    assert!(matches!(step, TaskStep::PollUpload));
    let step = continue_upload::<X>(TaskEvent::Upload(Poll::Pending));
    assert!(matches!(step, TaskStep::Pend));
    let step = continue_upload::<X>(TaskEvent::Upload(Poll::Ready(Ok(()))));
    assert!(matches!(step, TaskStep::Drop(None)));
    match continue_upload::<X>(TaskEvent::Datagram { invalid: true }) {
        TaskStep::Drop(Some(error)) => assert!(is_reason(&error, Reason::InvalidDatagram)),
        _ => panic!("expected the end"),
    }
    match continue_upload::<X>(TaskEvent::Watched { going_on: false }) {
        TaskStep::Drop(Some(error)) => assert_eq!(error.kind, Kind::Canceled),
        _ => panic!("expected the end"),
    }
    match continue_upload(TaskEvent::Upload(Poll::Ready(Err(Error::new_outside(
        Kind::Http3,
        "x",
    ))))) {
        TaskStep::Drop(Some(error)) => assert!(matches!(error.cause, Some(Cause::Outside("x")))),
        _ => panic!("expected the end"),
    }
}

#[test]
fn response_learns_of_a_failure_once_the_upload_is_dropped() {
    let step = continue_upload::<X>(TaskEvent::Dropped(None));
    assert!(matches!(step, TaskStep::Over(None)));
    let failed = continue_upload(TaskEvent::Upload(Poll::Ready(Err(Error::new_outside(
        Kind::UserBody,
        "broken",
    )))));
    match failed {
        TaskStep::Drop(failure) => match continue_upload::<X>(TaskEvent::Dropped(failure)) {
            TaskStep::Over(Some(error)) => {
                assert!(matches!(error.cause, Some(Cause::Outside("broken"))))
            }
            _ => panic!("expected a report"),
        },
        _ => panic!("expected the upload to be dropped"),
    }
}
