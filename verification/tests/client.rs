use http::header::{HeaderMap, HeaderName, HeaderValue};
use http::Method;
use wreq_proto::client::{
    self, HeadStep, RecvDrop, RecvGuard, RequestHead, ResponseHead, SendGuard, CHUNK,
};
use wreq_proto::error::{Cause, Code, Error, Kind, Reason, StreamFailure};

type X = &'static str;

fn fields(list: &[(&'static str, &[u8])]) -> HeaderMap {
    let mut map = HeaderMap::new();
    for (name, value) in list {
        map.append(
            HeaderName::from_static(name),
            HeaderValue::from_bytes(value).unwrap(),
        );
    }
    map
}

fn reason(error: &Error<X>) -> Option<Reason> {
    match &error.cause {
        Some(Cause::Reason(reason)) => Some(*reason),
        _ => None,
    }
}

fn request(method: Method, list: &[(&'static str, &[u8])]) -> RequestHead {
    RequestHead {
        method,
        authority: Some("localhost".to_string()),
        scheme: true,
        headers: fields(list),
        protocol: false,
        datagram: false,
    }
}

fn length(list: &[(&'static str, &[u8])]) -> Result<Option<u64>, (Kind, Option<Reason>)> {
    client::content_length::<X>(&fields(list)).map_err(|error| (error.kind, reason(&error)))
}

#[test]
fn content_length_reads_every_field() {
    assert_eq!(length(&[]), Ok(None));
    assert_eq!(length(&[("content-length", b"5")]), Ok(Some(5)));
    assert_eq!(
        length(&[("content-length", b"5 ,\t5"), ("content-length", b"005")]),
        Ok(Some(5))
    );
}

#[test]
fn content_length_tells_what_is_wrong() {
    let fault = |reason: Reason| Err((Kind::Http3, Some(reason)));
    assert_eq!(
        length(&[("content-length", b"5\xff")]),
        fault(Reason::LengthNotText)
    );
    assert_eq!(length(&[("content-length", b"")]), fault(Reason::InvalidLength));
    assert_eq!(length(&[("content-length", b"5,")]), fault(Reason::InvalidLength));
    assert_eq!(length(&[("content-length", b"+5")]), fault(Reason::InvalidLength));
    assert_eq!(
        length(&[("content-length", b"18446744073709551616")]),
        fault(Reason::LengthTooLarge)
    );
    assert_eq!(
        length(&[("content-length", b"5"), ("content-length", b"6")]),
        fault(Reason::ConflictingLength)
    );
    // The first fault decides.
    assert_eq!(
        length(&[("content-length", b"5, 6, x")]),
        fault(Reason::ConflictingLength)
    );
}

#[test]
fn length_readers_agree_on_values() {
    for value in [&b"3"[..], b"3, 3", b"x", b"", b"3, 4", b"3\xff"] {
        let map = fields(&[("content-length", value)]);
        let read = client::content_length::<X>(&map).ok().flatten();
        assert_eq!(read, wreq_proto::headers::content_length_parse_all(&map));
    }
}

fn fault(request: &RequestHead) -> Option<Reason> {
    match client::validate_request::<X>(request) {
        Ok(_) => None,
        Err(error) => {
            assert_eq!(error.kind, Kind::Http3);
            reason(&error)
        }
    }
}

#[test]
fn valid_requests_tell_their_length() {
    let get = request(Method::GET, &[("host", b"localhost"), ("te", b"Trailers")]);
    assert!(matches!(client::validate_request::<X>(&get), Ok(None)));
    let post = request(Method::POST, &[("content-length", b"9")]);
    assert!(matches!(client::validate_request::<X>(&post), Ok(Some(9))));
    let mut connect = request(Method::CONNECT, &[]);
    connect.scheme = false;
    assert_eq!(fault(&connect), None);
}

#[test]
fn invalid_requests_are_refused() {
    let mut protocol = request(Method::GET, &[]);
    protocol.protocol = true;
    assert_eq!(fault(&protocol), Some(Reason::ProtocolWithoutConnect));
    let mut bare = request(Method::GET, &[]);
    bare.authority = None;
    assert_eq!(fault(&bare), Some(Reason::MissingAuthority));
    let mut relative = request(Method::GET, &[]);
    relative.scheme = false;
    assert_eq!(fault(&relative), Some(Reason::MissingAuthority));
    let mut extended = request(Method::CONNECT, &[]);
    extended.protocol = true;
    extended.scheme = false;
    assert_eq!(fault(&extended), Some(Reason::MissingAuthority));
    assert_eq!(
        fault(&request(Method::GET, &[("host", b"elsewhere")])),
        Some(Reason::HostConflict)
    );
    assert_eq!(
        fault(&request(Method::GET, &[("te", b"trailers"), ("te", b"gzip")])),
        Some(Reason::TeNotTrailers)
    );
    assert_eq!(
        fault(&request(Method::GET, &[("content-length", b"x")])),
        Some(Reason::InvalidLength)
    );
}

#[test]
fn length_is_consumed() {
    let mut left = Some(10);
    assert!(client::consume_length(&mut left, 4).is_ok());
    assert_eq!(left, Some(6));
    assert_eq!(client::consume_length(&mut left, 7), Err(Reason::BodyTooLong));
    assert_eq!(left, Some(6));
    assert!(client::consume_length(&mut left, 6).is_ok());
    assert_eq!(left, Some(0));
    let mut unknown = None;
    assert!(client::consume_length(&mut unknown, usize::MAX).is_ok());
    assert_eq!(unknown, None);
}

#[test]
fn every_burst_yields() {
    let mut budget = 0;
    let mut yields = Vec::new();
    for step in 1..=64 {
        if client::cooperate(&mut budget) {
            yields.push(step);
        }
    }
    assert_eq!(yields, vec![32, 64]);
    assert_eq!(budget, 0);
}

#[test]
fn chunks_are_bounded_by_the_limit() {
    assert_eq!(client::next_chunk(0), 0);
    assert_eq!(client::next_chunk(CHUNK), 16384);
    assert_eq!(client::next_chunk(CHUNK + 1), CHUNK);
}

#[test]
fn failures_hand_the_request_back_or_not() {
    let back = client::rejected::<u8, X>(Error::new(Kind::Canceled), 7);
    assert_eq!(back.message, Some(7));
    let gone = client::lost::<u8, X>(Error::new(Kind::Closed));
    assert_eq!(gone.message, None);
    assert_eq!(gone.error.kind, Kind::Closed);
}

#[test]
fn unfinished_send_half_resets() {
    let half = SendGuard { datagrams: true, finished: false };
    assert_eq!(half.abandon(false), Some(Code::RequestCancelled));
    assert_eq!(half.abandon(true), Some(Code::DatagramError));
    let plain = SendGuard { datagrams: false, finished: false };
    assert_eq!(plain.abandon(true), Some(Code::RequestCancelled));
    let done = SendGuard { datagrams: true, finished: true };
    assert_eq!(done.abandon(true), None);
}

#[test]
fn unfinished_receive_half_stops_the_peer() {
    let half = RecvGuard { datagrams: true, finished: false, code: Code::MessageError };
    assert_eq!(
        half.abandon(false),
        RecvDrop { close_route: true, stop_sending: Some(Code::MessageError) }
    );
    assert_eq!(half.abandon(true).stop_sending, Some(Code::DatagramError));
    let done = RecvGuard { datagrams: true, finished: true, code: Code::RequestCancelled };
    assert_eq!(done.abandon(true), RecvDrop { close_route: false, stop_sending: None });
}

#[test]
fn finishing_an_empty_upload() {
    let half = SendGuard { datagrams: true, finished: false };
    let (done, close) = half.finish::<X>(Ok(())).unwrap();
    assert!(done.finished && close);
    let (stopped, close) = half.finish::<X>(Err(StreamFailure::RemoteTerminate)).unwrap();
    assert!(!stopped.finished && !close);
    let error = half.finish(Err(StreamFailure::Other("lost"))).unwrap_err();
    assert_eq!(error.kind, Kind::Http3);
    assert!(matches!(error.cause, Some(Cause::Outside("lost"))));
}

fn head(status: u16, list: &[(&'static str, &[u8])]) -> ResponseHead {
    ResponseHead { status, headers: fields(list) }
}

#[test]
fn informational_heads_are_skipped() {
    let mut recv = RecvGuard { datagrams: false, finished: false, code: Code::RequestCancelled };
    let mut budget = 30;
    let step = client::response_headers::<X>(&mut recv, Ok(head(103, &[])), &mut budget);
    assert!(matches!(step, HeadStep::Next { yields: false }));
    let step = client::response_headers::<X>(&mut recv, Ok(head(100, &[])), &mut budget);
    assert!(matches!(step, HeadStep::Next { yields: true }));
    assert_eq!(budget, 0);
    let step = client::response_headers::<X>(&mut recv, Ok(head(200, &[])), &mut budget);
    assert!(matches!(step, HeadStep::Final(ResponseHead { status: 200, .. })));
    assert_eq!(recv.code, Code::RequestCancelled);
}

#[test]
fn malformed_heads_fail() {
    let fresh = RecvGuard { datagrams: false, finished: false, code: Code::RequestCancelled };
    let mut recv = fresh;
    let mut budget = 0;
    match client::response_headers::<X>(&mut recv, Ok(head(101, &[])), &mut budget) {
        HeadStep::Failed(error) => assert_eq!(reason(&error), Some(Reason::SwitchingProtocols)),
        _ => panic!("expected a failure"),
    }
    assert_eq!(recv.code, Code::MessageError);
    let mut recv = fresh;
    let early = head(103, &[("content-length", b"x")]);
    match client::response_headers::<X>(&mut recv, Ok(early), &mut budget) {
        HeadStep::Failed(error) => assert_eq!(reason(&error), Some(Reason::InvalidLength)),
        _ => panic!("expected a failure"),
    }
    assert_eq!(recv.code, Code::MessageError);
    let mut recv = fresh;
    match client::response_headers(&mut recv, Err("reset"), &mut budget) {
        HeadStep::Failed(error) => assert!(matches!(error.cause, Some(Cause::Outside("reset")))),
        _ => panic!("expected a failure"),
    }
    assert_eq!(recv.code, Code::RequestCancelled);
}

#[test]
fn response_length_follows_status_and_method() {
    let mut recv = RecvGuard { datagrams: false, finished: false, code: Code::RequestCancelled };
    let declared = [("content-length", &b"12"[..])];
    let read = |recv: &mut RecvGuard, head_request: bool, status: u16| {
        client::read_response_length::<X>(recv, head_request, &head(status, &declared)).unwrap()
    };
    assert_eq!(read(&mut recv, false, 200), Some(12));
    assert_eq!(read(&mut recv, true, 200), Some(0));
    assert_eq!(read(&mut recv, false, 204), Some(0));
    assert_eq!(read(&mut recv, false, 304), Some(0));
    assert_eq!(recv.code, Code::RequestCancelled);
    let bad = head(200, &[("content-length", b"1,2")]);
    let error = client::read_response_length::<X>(&mut recv, true, &bad).unwrap_err();
    assert_eq!(reason(&error), Some(Reason::ConflictingLength));
    assert_eq!(recv.code, Code::MessageError);
}

#[test]
fn invalid_datagrams_are_a_stream_error() {
    let error = client::invalid_datagram_error::<X>();
    assert_eq!(error.kind, Kind::Http3);
    assert_eq!(reason(&error), Some(Reason::InvalidDatagram));
}
