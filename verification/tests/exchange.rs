use http::header::{HeaderMap, HeaderName, HeaderValue};
use http::Method;
use wreq_proto::client::{self, BodyInfo, RequestHead, ResponseHead};
use wreq_proto::error::{Cause, Code, Error, Kind, Poll, Reason, StreamFailure};
use wreq_proto::exchange::{self, Exchange, Stage, Step, WatchEvent, WatchStep};
use wreq_proto::shared::Shared;

type X = &'static str;

const EMPTY: BodyInfo = BodyInfo { end_stream: true, exact: Some(0) };
const STREAMED: BodyInfo = BodyInfo { end_stream: false, exact: None };

fn fields(list: &[(&'static str, &'static str)]) -> HeaderMap {
    let mut map = HeaderMap::new();
    for (name, value) in list {
        map.append(HeaderName::from_static(name), HeaderValue::from_static(value));
    }
    map
}

fn request(method: Method, list: &[(&'static str, &'static str)]) -> RequestHead {
    RequestHead {
        method,
        authority: Some("localhost".to_string()),
        scheme: true,
        headers: fields(list),
        protocol: false,
        datagram: false,
    }
}

fn response(status: u16, list: &[(&'static str, &'static str)]) -> ResponseHead {
    ResponseHead { status, headers: fields(list) }
}

fn rejection(step: Step<X>) -> Error<X> {
    match step {
        Step::Reject(error) => error,
        _ => panic!("expected a rejection"),
    }
}

fn is_reason(error: &Error<X>, expected: Reason) -> bool {
    matches!(error.cause, Some(Cause::Reason(reason)) if reason == expected)
}

/// An exchange whose stream is open, and the step that followed.
fn opened(method: Method, body: BodyInfo, shared: &Shared<X>) -> (Exchange, Step<X>) {
    let mut head = request(method, &[]);
    let (mut exchange, step) = Exchange::begin(true, shared, &mut head, body);
    assert!(matches!(step, Step::Enter));
    assert!(matches!(exchange.entered::<X>(Ok(())), Step::Open));
    let step = exchange.opened(shared, Ok(8), body.end_stream);
    (exchange, step)
}

#[test]
fn unreserved_requests_are_returned() {
    let shared = Shared::<X>::new(1, false);
    let mut head = request(Method::GET, &[("connection", "close")]);
    let (exchange, step) = Exchange::begin(false, &shared, &mut head, EMPTY);
    let error = rejection(step);
    assert_eq!(error.kind, Kind::Canceled);
    assert!(is_reason(&error, Reason::ConnectionClosed));
    assert_eq!(exchange.stage, Stage::Done);
    assert!(head.headers.contains_key("connection"));
}

#[test]
fn datagram_requests_need_extended_connect() {
    let shared = Shared::<X>::new(1, true);
    let mut head = request(Method::CONNECT, &[]);
    head.datagram = true;
    let error = rejection(Exchange::begin(true, &shared, &mut head, EMPTY).1);
    assert_eq!(error.kind, Kind::UserInvalidRequest);
    assert!(is_reason(&error, Reason::DatagramNeedsConnect));
    head.protocol = true;
    let (_, step) = Exchange::begin(true, &shared, &mut head, EMPTY);
    assert!(matches!(step, Step::AwaitSettings));
    let plain = Shared::<X>::new(1, false);
    let error = rejection(Exchange::begin(true, &plain, &mut head, EMPTY).1);
    assert!(is_reason(&error, Reason::DatagramNeedsConnect));
}

#[test]
fn connect_takes_no_content() {
    let shared = Shared::<X>::new(1, false);
    let mut head = request(Method::CONNECT, &[]);
    let error = rejection(Exchange::begin(true, &shared, &mut head, STREAMED).1);
    assert_eq!(error.kind, Kind::UserInvalidConnect);
    assert!(error.cause.is_none());
}

#[test]
fn invalid_fields_are_rejected_after_stripping() {
    let shared = Shared::<X>::new(1, false);
    let mut head = request(Method::GET, &[("upgrade", "h2c"), ("content-length", "x")]);
    let error = rejection(Exchange::begin(true, &shared, &mut head, EMPTY).1);
    assert_eq!(error.kind, Kind::UserInvalidRequest);
    match error.cause {
        Some(Cause::Error(inner)) => {
            assert_eq!(inner.kind, Kind::Http3);
            assert!(is_reason(&inner, Reason::InvalidLength));
        }
        _ => panic!("expected a nested error"),
    }
    assert!(!head.headers.contains_key("upgrade"));
}

#[test]
fn known_length_is_added_unless_it_means_nothing() {
    let shared = Shared::<X>::new(1, false);
    let mut get = request(Method::GET, &[]);
    let (exchange, _) = Exchange::begin(true, &shared, &mut get, EMPTY);
    assert!(!get.headers.contains_key("content-length"));
    assert_eq!(exchange.length, Some(0));
    let mut post = request(Method::POST, &[]);
    Exchange::begin(true, &shared, &mut post, EMPTY);
    assert_eq!(post.headers["content-length"], "0");
    let sized = BodyInfo { end_stream: false, exact: Some(300) };
    let mut delete = request(Method::DELETE, &[]);
    let (exchange, _) = Exchange::begin(true, &shared, &mut delete, sized);
    assert_eq!(delete.headers["content-length"], "300");
    assert_eq!(exchange.length, Some(300));
    let mut declared = request(Method::POST, &[("content-length", "5")]);
    let (exchange, _) = Exchange::begin(true, &shared, &mut declared, sized);
    assert_eq!(declared.headers["content-length"], "5");
    assert_eq!(exchange.length, Some(5));
}

#[test]
fn empty_body_with_a_length_is_too_short() {
    let shared = Shared::<X>::new(1, false);
    let mut head = request(Method::POST, &[("content-length", "5")]);
    let error = rejection(Exchange::begin(true, &shared, &mut head, EMPTY).1);
    assert_eq!(error.kind, Kind::UserBody);
    assert!(is_reason(&error, Reason::BodyTooShort));
}

#[test]
fn framing_stands_alone() {
    let mut head = request(Method::PUT, &[]);
    let sized = BodyInfo { end_stream: false, exact: Some(1) };
    let framed = exchange::frame_request::<X>(&mut head, None, sized).unwrap();
    assert!(matches!(framed, Ok(Some(1))));
    assert_eq!(head.headers["content-length"], "1");
}

#[test]
fn extended_connect_waits_for_settings() {
    let mut shared = Shared::<X>::new(1, false);
    let mut head = request(Method::CONNECT, &[]);
    head.protocol = true;
    let (begun, step) = Exchange::begin(true, &shared, &mut head, EMPTY);
    assert!(matches!(step, Step::AwaitSettings));
    let mut early = begun;
    let error = rejection(early.settled(&shared, &mut head, EMPTY));
    assert_eq!(error.kind, Kind::UserInvalidRequest);
    assert!(is_reason(&error, Reason::PeerWithoutExtendedConnect));
    shared.settle(true);
    let mut settled = begun;
    assert!(matches!(settled.settled(&shared, &mut head, EMPTY), Step::Enter));
    assert_eq!(settled.stage, Stage::Admission);
    assert!(matches!(settled.settled(&shared, &mut head, EMPTY), Step::Nothing));
}

#[test]
fn shutdown_returns_requests_that_wait_for_settings() {
    let mut shared = Shared::<X>::new(1, false);
    let mut head = request(Method::CONNECT, &[]);
    head.protocol = true;
    let (mut exchange, _) = Exchange::begin(true, &shared, &mut head, EMPTY);
    shared.terminate(Error::new_outside(Kind::Http3, "gone"));
    let error = rejection(exchange.settled(&shared, &mut head, EMPTY));
    assert!(error.published.is_some());
    assert!(exchange::check_extended_connect(&shared).is_err());
}

#[test]
fn refused_admission_returns_the_request() {
    let shared = Shared::<X>::new(1, false);
    let mut head = request(Method::GET, &[]);
    let (mut exchange, _) = Exchange::begin(true, &shared, &mut head, EMPTY);
    let error = rejection(exchange.entered(Err(Error::new(Kind::Canceled))));
    assert_eq!(error.kind, Kind::Canceled);
    assert!(matches!(exchange.entered::<X>(Ok(())), Step::Nothing));
}

#[test]
fn failures_after_opening_keep_the_request() {
    let mut shared = Shared::<X>::new(1, false);
    let mut head = request(Method::GET, &[]);
    let (mut exchange, _) = Exchange::begin(true, &shared, &mut head, EMPTY);
    exchange.entered::<X>(Ok(()));
    let mut other = exchange;
    match exchange.opened(&shared, Err("refused"), true) {
        Step::Fail(error) => assert!(matches!(error.cause, Some(Cause::Outside("refused")))),
        _ => panic!("expected a failure"),
    }
    shared.terminate(Error::new_outside(Kind::Http3, "gone"));
    match other.opened(&shared, Err("refused"), true) {
        Step::Fail(error) => assert!(error.published.is_some()),
        _ => panic!("expected a failure"),
    }
}

#[test]
fn request_streams_have_client_identifiers() {
    let shared = Shared::<X>::new(1, false);
    for id in [1, 2, 3, 4097] {
        let mut head = request(Method::GET, &[]);
        let (mut exchange, _) = Exchange::begin(true, &shared, &mut head, EMPTY);
        exchange.entered::<X>(Ok(()));
        match exchange.opened(&shared, Ok(id), true) {
            Step::Fail(error) => assert!(is_reason(&error, Reason::NotAClientStream)),
            _ => panic!("expected a failure"),
        }
    }
}

#[test]
fn empty_body_is_finished_and_acknowledged() {
    let shared = Shared::<X>::new(1, true);
    let (mut exchange, step) = opened(Method::GET, EMPTY, &shared);
    assert!(matches!(step, Step::Finish));
    let (step, close_route) = exchange.finished::<X>(&shared, Ok(()), None);
    assert!(matches!(step, Step::AwaitHead) && close_route);
    let head = response(200, &[("content-length", "3")]);
    let step = exchange.responded(&shared, Ok(&head));
    assert!(matches!(step, Step::CheckAcknowledgment));
    let mut late = exchange;
    assert!(matches!(
        exchange.acknowledged(&shared, Poll::Ready(Ok(()))),
        Step::Deliver { remaining: Some(3), sending: false }
    ));
    assert!(matches!(
        late.acknowledged::<X>(&shared, Poll::Pending),
        Step::Deliver { remaining: Some(3), sending: true }
    ));
}

#[test]
fn lost_acknowledgment_fails_the_exchange() {
    let shared = Shared::<X>::new(1, false);
    let (mut exchange, _) = opened(Method::GET, EMPTY, &shared);
    exchange.finished::<X>(&shared, Ok(()), None);
    exchange.responded(&shared, Ok(&response(200, &[])));
    match exchange.acknowledged(&shared, Poll::Ready(Err("lost"))) {
        Step::Fail(error) => assert!(matches!(error.cause, Some(Cause::Outside("lost")))),
        _ => panic!("expected a failure"),
    }
}

#[test]
fn stopped_empty_body_still_gets_its_response() {
    let shared = Shared::<X>::new(1, true);
    let (mut exchange, _) = opened(Method::GET, EMPTY, &shared);
    let (step, close_route) =
        exchange.finished::<X>(&shared, Err(StreamFailure::RemoteTerminate), None);
    assert!(matches!(step, Step::AwaitHead) && !close_route);
    assert!(matches!(
        exchange.responded(&shared, Ok(&response(200, &[]))),
        Step::Deliver { remaining: None, sending: false }
    ));
    assert_eq!(exchange.send.abandon(false), Some(Code::RequestCancelled));
}

#[test]
fn failed_fin_fails_the_exchange() {
    let shared = Shared::<X>::new(1, true);
    let (mut exchange, _) = opened(Method::GET, EMPTY, &shared);
    let (step, close_route) = exchange.finished(&shared, Err(StreamFailure::Other("x")), None);
    assert!(matches!(step, Step::Fail(_)) && !close_route);
}

#[test]
fn head_responses_have_no_content() {
    let shared = Shared::<X>::new(1, false);
    let (mut exchange, _) = opened(Method::HEAD, EMPTY, &shared);
    exchange.finished::<X>(&shared, Err(StreamFailure::RemoteTerminate), None);
    assert!(matches!(
        exchange.responded(&shared, Ok(&response(200, &[("content-length", "9")]))),
        Step::Deliver { remaining: Some(0), sending: false }
    ));
}

#[test]
fn malformed_response_length_is_a_message_error() {
    let shared = Shared::<X>::new(1, false);
    let (mut exchange, _) = opened(Method::POST, STREAMED, &shared);
    match exchange.responded(&shared, Ok(&response(200, &[("content-length", "1,2")]))) {
        Step::Fail(error) => assert!(is_reason(&error, Reason::ConflictingLength)),
        _ => panic!("expected a failure"),
    }
    assert_eq!(exchange.recv.abandon(false).stop_sending, Some(Code::MessageError));
}

#[test]
fn upload_may_outlive_the_response_head() {
    let shared = Shared::<X>::new(1, false);
    let (mut exchange, step) = opened(Method::POST, STREAMED, &shared);
    assert!(matches!(step, Step::Upload(None)));
    assert!(matches!(
        exchange.responded(&shared, Ok(&response(200, &[]))),
        Step::Deliver { remaining: None, sending: true }
    ));
}

#[test]
fn successful_connect_becomes_a_tunnel() {
    let shared = Shared::<X>::new(1, false);
    let (mut exchange, step) = opened(Method::CONNECT, EMPTY, &shared);
    assert!(matches!(step, Step::AwaitHead));
    let step = exchange.connect_head(&shared, Ok(&response(200, &[])), true);
    assert!(matches!(step, Step::Tunnel));
}

#[test]
fn refused_connect_is_finished_then_delivered() {
    let shared = Shared::<X>::new(1, false);
    let (mut exchange, _) = opened(Method::CONNECT, EMPTY, &shared);
    let head = response(502, &[("content-length", "4")]);
    assert!(matches!(exchange.connect_head(&shared, Ok(&head), true), Step::Finish));
    let (step, _) = exchange.finished::<X>(&shared, Ok(()), Some(&head));
    assert!(matches!(step, Step::CheckAcknowledgment));
    assert!(matches!(
        exchange.acknowledged::<X>(&shared, Poll::Ready(Ok(()))),
        Step::Deliver { remaining: Some(4), sending: false }
    ));
}

#[test]
fn poll_for_the_head_goes_in_order() {
    let shared = Shared::<X>::new(1, false);
    let (mut exchange, _) = opened(Method::POST, STREAMED, &shared);
    assert!(matches!(exchange.watch::<X>(WatchEvent::Start), WatchStep::PollUpload));
    assert!(matches!(
        exchange.watch::<X>(WatchEvent::Upload(Poll::Pending)),
        WatchStep::PollDatagram
    ));
    assert!(matches!(
        exchange.watch::<X>(WatchEvent::Datagram { invalid: false }),
        WatchStep::PollResponse
    ));
    assert!(matches!(
        exchange.watch::<X>(WatchEvent::Response { ready: false }),
        WatchStep::Pend
    ));
    assert!(matches!(
        exchange.watch::<X>(WatchEvent::Upload(Poll::Ready(Ok(())))),
        WatchStep::PollDatagram
    ));
    assert!(matches!(exchange.watch::<X>(WatchEvent::Start), WatchStep::PollDatagram));
    assert!(matches!(
        exchange.watch::<X>(WatchEvent::Response { ready: true }),
        WatchStep::Responded
    ));
    match exchange.watch::<X>(WatchEvent::Datagram { invalid: true }) {
        WatchStep::Failed(error) => assert!(is_reason(&error, Reason::InvalidDatagram)),
        _ => panic!("expected a failure"),
    }
    assert!(matches!(
        exchange.responded(&shared, Ok(&response(200, &[]))),
        Step::Deliver { remaining: None, sending: false }
    ));
}

/// The header callback runs when the stream is to be opened, and by then the
/// framing fields are in place; the order it leaves is the order that is sent.
#[test]
fn preserve_header_callback_reaches_peer_in_order() {
    let shared = Shared::<X>::new(1, false);
    let mut head = request(Method::POST, &[("x-first", "one"), ("x-last", "two")]);
    let (mut exchange, step) = Exchange::begin(true, &shared, &mut head, EMPTY);
    assert!(matches!(step, Step::Enter));
    assert!(matches!(exchange.entered::<X>(Ok(())), Step::Open));
    // The callback must see automatically inserted framing fields.
    assert_eq!(head.headers["content-length"], "0");
    let callback = |mut old: HeaderMap| {
        let mut sorted = HeaderMap::new();
        sorted.insert("x-last", old.remove("x-last").unwrap());
        sorted.insert("x-first", old.remove("x-first").unwrap());
        sorted.extend(old);
        sorted.insert("x-preserved", "yes".parse().unwrap());
        sorted
    };
    let sent = client::preserve_headers(head.headers, Some(callback));
    assert_eq!(sent["x-preserved"], "yes");
    let names: Vec<_> = sent.keys().map(|name| name.as_str()).collect();
    assert_eq!(names, ["x-last", "x-first", "content-length", "x-preserved"]);
}

#[test]
fn headers_without_a_callback_are_sent_as_they_are() {
    let head = request(Method::GET, &[("b", "1"), ("a", "2")]);
    let none: Option<fn(HeaderMap) -> HeaderMap> = None;
    let sent = client::preserve_headers(head.headers, none);
    let names: Vec<_> = sent.keys().map(|name| name.as_str()).collect();
    assert_eq!(names, ["b", "a"]);
}

/// Polls for the response head in between change nothing of when a request can
/// still be handed back.
#[test]
fn polls_for_the_head_do_not_bring_a_request_back() {
    let shared = Shared::<X>::new(1, false);
    let mut head = request(Method::POST, &[]);
    let body = BodyInfo { end_stream: false, exact: None };
    let (mut exchange, _) = Exchange::begin(true, &shared, &mut head, body);
    exchange.watch::<X>(WatchEvent::Start);
    assert!(matches!(exchange.entered::<X>(Ok(())), Step::Open));
    exchange.opened(&shared, Ok(0), false);
    exchange.watch::<X>(WatchEvent::Upload(Poll::Ready(Ok(()))));
    assert!(!exchange.uploading);
    let refused = exchange.entered(Err(Error::<X>::new(Kind::Canceled)));
    assert!(matches!(refused, Step::Nothing));
    let lost = exchange.responded(&shared, Err(Error::<X>::new(Kind::Canceled)));
    assert!(matches!(lost, Step::Fail(_)));
}
