use bytes::Bytes;
use wreq_proto::body::{Link, PipeGuard, Read, RecvBody};
use wreq_proto::client::{RecvDrop, RecvGuard};
use wreq_proto::error::{Cause, Code, Error, Kind, Poll, Reason};
use wreq_proto::shared::{Active, Admission, Shared};

type X = &'static str;

const RECV: RecvGuard = RecvGuard {
    datagrams: true,
    finished: false,
    code: Code::RequestCancelled,
};

fn admitted(shared: &mut Shared<X>) -> Active {
    match Active::reserve(shared).seek_admission(shared) {
        Admission::Admitted(active) => active,
        _ => panic!("expected admission"),
    }
}

fn begun(declared: Option<u64>, sending: bool) -> (Shared<X>, RecvBody, Link<X>) {
    let mut shared = Shared::new(1, true);
    let active = admitted(&mut shared);
    let (body, link) = RecvBody::new(RECV, declared, active, true, sending);
    (shared, body, link)
}

/// A field that stands for trailers.
type Fields = (&'static str, &'static str);

fn came(piece: &'static [u8]) -> Poll<Result<Option<Bytes>, X>> {
    Poll::Ready(Ok(Some(Bytes::from_static(piece))))
}

fn is_reason(error: &Error<X>, expected: Reason) -> bool {
    matches!(error.cause, Some(Cause::Reason(reason)) if reason == expected)
}

#[test]
fn body_delivers_exactly_what_was_declared() {
    let (mut shared, mut body, mut link) = begun(Some(10), false);
    assert_eq!(body.size_hint(), Some(10));
    assert!(matches!(body.poll_frame::<Fields, X>(&mut link).0, Read::PollData));
    let (read, _) = body.read_data::<Fields, X>(&mut link, &mut shared, came(b"sixsix"), false);
    match read {
        Read::Data(data) => assert_eq!(&data[..], b"sixsix"),
        _ => panic!("expected data"),
    }
    assert_eq!(body.size_hint(), Some(4));
    let (read, _) = body.read_data::<Fields, X>(&mut link, &mut shared, came(b"four"), false);
    match read {
        Read::Data(data) => assert_eq!(&data[..], b"four"),
        _ => panic!("expected data"),
    }
    let (read, _) = body.read_data::<Fields, X>(&mut link, &mut shared, Poll::Ready(Ok(None)), false);
    assert!(matches!(read, Read::PollTrailers));
    assert!(!body.is_end_stream());
    assert_eq!(shared.active(), 1);
    let (read, effects) =
        body.read_trailers::<Fields, X>(&mut link, &mut shared, Poll::Ready(Ok(Some(("a", "b")))), false);
    assert!(matches!(read, Read::Trailers(("a", "b"))));
    assert_eq!(effects.recv, Some(RecvDrop { close_route: true, stop_sending: None }));
    assert!(effects.unregister && effects.wakes.waiting);
    assert_eq!(shared.active(), 0);
    assert!(body.is_end_stream());
    assert_eq!(body.size_hint(), Some(0));
    assert!(matches!(body.poll_frame::<Fields, X>(&mut link).0, Read::End));
}

#[test]
fn body_without_trailers_ends() {
    let (mut shared, mut body, mut link) = begun(None, false);
    assert_eq!(body.size_hint(), None);
    body.read_data::<Fields, X>(&mut link, &mut shared, Poll::Ready(Ok(None)), false);
    let (read, _) = body.read_trailers::<Fields, X>(&mut link, &mut shared, Poll::Pending, false);
    assert!(matches!(read, Read::Pend));
    assert!(matches!(body.poll_frame::<Fields, X>(&mut link).0, Read::PollTrailers));
    let (read, _) = body.read_trailers::<Fields, X>(&mut link, &mut shared, Poll::Ready(Ok(None)), false);
    assert!(matches!(read, Read::End));
    assert!(body.is_end_stream());
}

#[test]
fn too_much_or_too_little_is_malformed() {
    let (mut shared, mut body, mut link) = begun(Some(3), true);
    let (read, effects) =
        body.read_data::<Fields, X>(&mut link, &mut shared, came(b"four"), false);
    match read {
        Read::Failed(error) => {
            assert_eq!(error.kind, Kind::Http3);
            assert!(is_reason(&error, Reason::BodyTooLong));
        }
        _ => panic!("expected a failure"),
    }
    assert_eq!(effects.recv.unwrap().stop_sending, Some(Code::MessageError));
    assert!(effects.wake_pipe);
    assert!(!PipeGuard::new().watch(&link));
    let (mut shared, mut body, mut link) = begun(Some(3), false);
    let (read, effects) = body.read_data::<Fields, X>(&mut link, &mut shared, Poll::Ready(Ok(None)), true);
    match read {
        Read::Failed(error) => {
            assert_eq!(error.kind, Kind::Body);
            assert!(is_reason(&error, Reason::ResponseTooShort));
        }
        _ => panic!("expected a failure"),
    }
    assert_eq!(effects.recv.unwrap().stop_sending, Some(Code::DatagramError));
}

#[test]
fn failure_is_reported_once_and_prefers_the_published_error() {
    let (mut shared, mut body, mut link) = begun(None, false);
    shared.terminate(Error::new_outside(Kind::Http3, "connection"));
    let (read, _) = body.read_data::<Fields, X>(&mut link, &mut shared, Poll::Ready(Err("stream")), false);
    match read {
        Read::Failed(error) => {
            let published = error.published.unwrap();
            assert!(matches!(published.cause, Some(Cause::Outside("connection"))));
        }
        _ => panic!("expected a failure"),
    }
    assert!(matches!(body.poll_frame::<Fields, X>(&mut link).0, Read::End));
    assert_eq!(shared.active(), 0);
}

#[test]
fn exchange_is_held_until_sending_is_complete() {
    let (mut shared, mut body, mut link) = begun(None, true);
    shared.shutdown();
    body.read_data::<Fields, X>(&mut link, &mut shared, Poll::Ready(Ok(None)), false);
    let (_, effects) = body.read_trailers::<Fields, X>(&mut link, &mut shared, Poll::Ready(Ok(None)), false);
    assert!(!effects.unregister);
    assert!(!shared.is_idle());
    let effects = PipeGuard::new().abandon(&mut link, &mut shared, false);
    assert!(effects.unregister && effects.wakes.driver);
    assert!(shared.is_idle());
}

#[test]
fn failed_sending_cancels_the_response() {
    let (mut shared, mut body, mut link) = begun(Some(5), true);
    let mut guard = PipeGuard::new();
    assert!(guard.watch(&link));
    guard.fail(Error::new_outside(Kind::UserBody, "broken"));
    let effects = guard.abandon(&mut link, &mut shared, false);
    assert!(effects.wake_body);
    assert_eq!(effects.recv.unwrap().stop_sending, Some(Code::RequestCancelled));
    assert_eq!(shared.active(), 0);
    let (read, effects) = body.poll_frame::<Fields, X>(&mut link);
    match read {
        Read::Failed(error) => assert!(matches!(error.cause, Some(Cause::Outside("broken")))),
        _ => panic!("expected a failure"),
    }
    assert!(effects.wake_pipe);
    assert!(matches!(body.poll_frame::<Fields, X>(&mut link).0, Read::End));
}

#[test]
fn failed_sending_after_the_response_only_releases() {
    let (mut shared, mut body, mut link) = begun(None, true);
    body.read_data::<Fields, X>(&mut link, &mut shared, Poll::Ready(Ok(None)), false);
    body.read_trailers::<Fields, X>(&mut link, &mut shared, Poll::Ready(Ok(None)), false);
    let mut guard = PipeGuard::new();
    guard.fail(Error::new(Kind::Canceled));
    let effects = guard.abandon(&mut link, &mut shared, false);
    assert!(effects.wake_body && effects.recv.is_none() && effects.unregister);
    assert!(matches!(body.poll_frame::<Fields, X>(&mut link).0, Read::End));
}

#[test]
fn dropping_the_body_leaves_sending_alone() {
    let (mut shared, body, mut link) = begun(Some(5), true);
    let effects = body.abandon(&mut link, &mut shared, false);
    assert_eq!(
        effects.recv,
        Some(RecvDrop { close_route: true, stop_sending: Some(Code::RequestCancelled) })
    );
    assert!(!effects.wake_pipe && !effects.unregister);
    assert!(PipeGuard::new().watch(&link));
    assert_eq!(shared.active(), 1);
    PipeGuard::new().abandon(&mut link, &mut shared, false);
    assert_eq!(shared.active(), 0);
}

#[test]
fn invalid_datagram_stops_the_body() {
    let (mut shared, mut body, mut link) = begun(Some(5), false);
    let effects = link.invalidate(&mut shared);
    assert_eq!(effects.recv.unwrap().stop_sending, Some(Code::DatagramError));
    match body.poll_frame::<Fields, X>(&mut link).0 {
        Read::Failed(error) => assert!(is_reason(&error, Reason::InvalidDatagram)),
        _ => panic!("expected a failure"),
    }
    let effects = link.cancel(&mut shared, Error::new(Kind::Canceled), false);
    assert!(effects.wake_body && effects.recv.is_none());
    assert!(matches!(body.poll_frame::<Fields, X>(&mut link).0, Read::End));
}

#[test]
fn outcomes_that_do_not_belong_are_ignored() {
    let (mut shared, mut body, mut link) = begun(None, false);
    let (read, _) = body.read_trailers::<Fields, X>(&mut link, &mut shared, Poll::Ready(Ok(Some(("a", "b")))), false);
    assert!(matches!(read, Read::Nothing));
    let (read, _) = body.read_data::<Fields, X>(&mut link, &mut shared, Poll::Pending, false);
    assert!(matches!(read, Read::Pend));
    body.read_data::<Fields, X>(&mut link, &mut shared, Poll::Ready(Ok(None)), false);
    let (read, _) = body.read_data::<Fields, X>(&mut link, &mut shared, came(b"1"), false);
    assert!(matches!(read, Read::Nothing));
    let (read, _) = body.read_trailers::<Fields, X>(&mut link, &mut shared, Poll::Ready(Err("cut")), false);
    assert!(matches!(read, Read::Failed(_)));
}

/// Other exchanges and the driver change the connection between the reads of a
/// body; it delivers what its stream gives all the same.
#[test]
fn body_does_not_depend_on_what_others_do() {
    let mut shared = Shared::new(2, true);
    let active = admitted(&mut shared);
    let (mut body, mut link) = RecvBody::new::<X>(RECV, Some(7), active, false, false);
    let other = admitted(&mut shared);
    body.poll_frame::<Fields, X>(&mut link);
    let (first, _) = body.read_data::<Fields, X>(&mut link, &mut shared, came(b"one"), false);
    shared.release(other);
    shared.settle(false);
    shared.terminate(Error::new(Kind::Closed));
    let (second, _) = body.read_data::<Fields, X>(&mut link, &mut shared, came(b"more"), false);
    match (first, second) {
        (Read::Data(first), Read::Data(second)) => {
            assert_eq!([first, second].concat(), b"onemore");
        }
        _ => panic!("expected data"),
    }
    body.read_data::<Fields, X>(&mut link, &mut shared, Poll::Ready(Ok(None)), false);
    let end = Poll::Ready(Ok(None));
    let (read, _) = body.read_trailers::<Fields, X>(&mut link, &mut shared, end, false);
    assert!(matches!(read, Read::End));
    assert!(shared.is_idle());
}
