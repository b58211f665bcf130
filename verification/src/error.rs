//! What can go wrong, as values that the rest of the library decides on.

use std::sync::Arc;

use vstd::prelude::*;

verus! {

/// A cause that the library itself finds.
#[derive(Clone, Copy, PartialEq, Eq, Structural, Debug)]
pub enum Reason {
    ConnectionClosed,
    ConnectionDropped,
    TaskDropped,
    InvalidCapacity,
    SettingsOmitDatagram,
    DatagramsTaken,
    DatagramNeedsConnect,
    InvalidDatagram,
    PeerWithoutExtendedConnect,
    ProtocolWithoutConnect,
    MissingAuthority,
    HostConflict,
    TeNotTrailers,
    LengthNotText,
    InvalidLength,
    LengthTooLarge,
    ConflictingLength,
    BodyTooShort,
    BodyTooLong,
    ResponseTooShort,
    FrameAfterTrailers,
    NotAClientStream,
    SwitchingProtocols,
    InconsistentSend,
    SendNotReady,
    TunnelClosed,
}

impl Reason {
    /// The words for the cause.
    pub open spec fn text(self) -> Seq<char> {
        match self {
            Reason::ConnectionClosed => "connection closed"@,
            Reason::ConnectionDropped => "HTTP/3 connection dropped"@,
            Reason::TaskDropped => "HTTP/3 connection task dropped"@,
            Reason::InvalidCapacity => "invalid HTTP/3 request capacity"@,
            Reason::SettingsOmitDatagram => "HTTP Datagram settings order omits H3_DATAGRAM"@,
            Reason::DatagramsTaken => "QUIC Datagram reader already taken"@,
            Reason::DatagramNeedsConnect => "Datagram requests require an Extended CONNECT and a Datagram-enabled connection"@,
            Reason::InvalidDatagram => "HTTP Datagram on a request without Datagram semantics"@,
            Reason::PeerWithoutExtendedConnect => "peer did not enable Extended CONNECT"@,
            Reason::ProtocolWithoutConnect => "Extended CONNECT protocol requires CONNECT"@,
            Reason::MissingAuthority => "HTTP/3 request requires scheme and authority"@,
            Reason::HostConflict => "Host conflicts with HTTP/3 authority"@,
            Reason::TeNotTrailers => "HTTP/3 TE must be trailers"@,
            Reason::LengthNotText => "failed to convert header to a str"@,
            Reason::InvalidLength => "invalid content-length"@,
            Reason::LengthTooLarge => "number too large to fit in target type"@,
            Reason::ConflictingLength => "conflicting content-length"@,
            Reason::BodyTooShort => "body shorter than content-length"@,
            Reason::BodyTooLong => "body exceeds content-length"@,
            Reason::ResponseTooShort => "HTTP/3 body shorter than content-length"@,
            Reason::FrameAfterTrailers => "body frame after trailers"@,
            Reason::NotAClientStream => "QUIC backend returned a non-client request stream ID"@,
            Reason::SwitchingProtocols => "HTTP/3 response cannot use status 101"@,
            Reason::InconsistentSend => "QUIC send did not advance its buffer consistently"@,
            Reason::SendNotReady => "send_data called without QUIC readiness"@,
            Reason::TunnelClosed => "HTTP/3 tunnel closed"@,
        }
    }

    /// The words for the cause.
    pub fn message(self) -> (message: &'static str)
        ensures
            message@ == self.text(),
    {
        match self {
            Reason::ConnectionClosed => "connection closed",
            Reason::ConnectionDropped => "HTTP/3 connection dropped",
            Reason::TaskDropped => "HTTP/3 connection task dropped",
            Reason::InvalidCapacity => "invalid HTTP/3 request capacity",
            Reason::SettingsOmitDatagram => "HTTP Datagram settings order omits H3_DATAGRAM",
            Reason::DatagramsTaken => "QUIC Datagram reader already taken",
            Reason::DatagramNeedsConnect => "Datagram requests require an Extended CONNECT and a Datagram-enabled connection",
            Reason::InvalidDatagram => "HTTP Datagram on a request without Datagram semantics",
            Reason::PeerWithoutExtendedConnect => "peer did not enable Extended CONNECT",
            Reason::ProtocolWithoutConnect => "Extended CONNECT protocol requires CONNECT",
            Reason::MissingAuthority => "HTTP/3 request requires scheme and authority",
            Reason::HostConflict => "Host conflicts with HTTP/3 authority",
            Reason::TeNotTrailers => "HTTP/3 TE must be trailers",
            Reason::LengthNotText => "failed to convert header to a str",
            Reason::InvalidLength => "invalid content-length",
            Reason::LengthTooLarge => "number too large to fit in target type",
            Reason::ConflictingLength => "conflicting content-length",
            Reason::BodyTooShort => "body shorter than content-length",
            Reason::BodyTooLong => "body exceeds content-length",
            Reason::ResponseTooShort => "HTTP/3 body shorter than content-length",
            Reason::FrameAfterTrailers => "body frame after trailers",
            Reason::NotAClientStream => "QUIC backend returned a non-client request stream ID",
            Reason::SwitchingProtocols => "HTTP/3 response cannot use status 101",
            Reason::InconsistentSend => "QUIC send did not advance its buffer consistently",
            Reason::SendNotReady => "send_data called without QUIC readiness",
            Reason::TunnelClosed => "HTTP/3 tunnel closed",
        }
    }
}

/// The kind of an error, by which a caller tells what to do about it.
#[derive(Clone, Copy, PartialEq, Eq, Structural, Debug)]
pub enum Kind {
    /// The exchange was canceled before it was done.
    Canceled,
    /// The connection is closed.
    Closed,
    /// The HTTP/3 layer failed.
    Http3,
    /// A body that was received is wrong.
    Body,
    /// A body that the caller sends is wrong.
    UserBody,
    /// The caller's request is wrong.
    UserInvalidRequest,
    /// The caller's CONNECT request has content.
    UserInvalidConnect,
}

/// Why an error came up: a reason of the library's own, a failure `X` of the
/// transport or of the caller's body, or another error.
#[derive(Debug)]
pub enum Cause<X> {
    Reason(Reason),
    Outside(X),
    Error(Box<Error<X>>),
}

/// An error: its kind, its cause, and the published error of the connection
/// that it passes on, if it does.
#[derive(Debug)]
pub struct Error<X> {
    pub kind: Kind,
    pub cause: Option<Cause<X>>,
    pub published: Option<Arc<Error<X>>>,
}

/// Calls `Arc::clone`: another handle on the same value.
#[verifier::external_body]
pub(crate) fn share<T>(value: &Arc<T>) -> (handle: Arc<T>)
    ensures
        handle == *value,
{
    value.clone()
}

impl<X> Error<X> {
    /// An error of a kind with nothing to say about its cause.
    pub open spec fn plain(kind: Kind) -> Self {
        Error { kind, cause: None, published: None }
    }

    /// An error of a kind with a reason of the library's own.
    pub open spec fn because(kind: Kind, reason: Reason) -> Self {
        Error { kind, cause: Some(Cause::Reason(reason)), published: None }
    }

    /// An error of a kind with a failure from outside.
    pub open spec fn outside(kind: Kind, failure: X) -> Self {
        Error { kind, cause: Some(Cause::Outside(failure)), published: None }
    }

    /// An error of a kind that another error brought about.
    pub open spec fn nested(kind: Kind, error: Error<X>) -> Self {
        Error { kind, cause: Some(Cause::Error(Box::new(error))), published: None }
    }

    /// An error that passes on the published error of the connection.
    pub open spec fn passed_on(error: Arc<Error<X>>) -> Self {
        Error { kind: error.kind, cause: None, published: Some(error) }
    }

    pub fn new(kind: Kind) -> (error: Self)
        ensures
            error == Self::plain(kind),
    {
        Error { kind, cause: None, published: None }
    }

    pub fn new_reason(kind: Kind, reason: Reason) -> (error: Self)
        ensures
            error == Self::because(kind, reason),
    {
        Error { kind, cause: Some(Cause::Reason(reason)), published: None }
    }

    pub fn new_outside(kind: Kind, failure: X) -> (error: Self)
        ensures
            error == Self::outside(kind, failure),
    {
        Error { kind, cause: Some(Cause::Outside(failure)), published: None }
    }

    pub fn new_nested(kind: Kind, error: Error<X>) -> (outer: Self)
        ensures
            outer == Self::nested(kind, error),
    {
        Error { kind, cause: Some(Cause::Error(Box::new(error))), published: None }
    }

    pub fn from_shared(error: Arc<Error<X>>) -> (passed: Self)
        ensures
            passed == Self::passed_on(error),
    {
        Error { kind: error.kind, cause: None, published: Some(error) }
    }

    /// The same error with this reason as its cause.
    pub fn with(self, reason: Reason) -> (error: Self)
        ensures
            error == (Error { cause: Some(Cause::Reason(reason)), ..self }),
    {
        Error { kind: self.kind, cause: Some(Cause::Reason(reason)), published: self.published }
    }
}

/// A request that failed. Where the failure came before its stream opened, the
/// request is handed back.
#[derive(Debug)]
pub struct TrySendError<R, X> {
    pub error: Error<X>,
    pub message: Option<R>,
}

/// A failure to send on a stream: the peer asked to stop, or something else.
#[derive(Debug)]
pub enum StreamFailure<X> {
    RemoteTerminate,
    Other(X),
}

/// What a poll found: nothing yet, or a result.
#[derive(Debug)]
pub enum Poll<T> {
    Pending,
    Ready(T),
}

/// An HTTP/3 error code, RFC 9114, Section 8.1 and RFC 9297, Section 5.2.
#[derive(Clone, Copy, PartialEq, Eq, Structural, Debug)]
pub enum Code {
    DatagramError,
    NoError,
    RequestCancelled,
    MessageError,
    /// Any other code, by its number.
    Other(u64),
}

impl Code {
    /// The number of the code.
    pub open spec fn number(self) -> u64 {
        match self {
            Code::DatagramError => 0x33,
            Code::NoError => 0x100,
            Code::RequestCancelled => 0x10c,
            Code::MessageError => 0x10e,
            Code::Other(number) => number,
        }
    }

    /// The number of the code.
    pub fn value(self) -> (value: u64)
        ensures
            value == self.number(),
    {
        match self {
            Code::DatagramError => 0x33,
            Code::NoError => 0x100,
            Code::RequestCancelled => 0x10c,
            Code::MessageError => 0x10e,
            Code::Other(number) => number,
        }
    }
}

/// An error says what it was made with, and nothing else: its kind is the one
/// asked for, its cause is the one that was given, and only an error that passes
/// on a published one holds that, with the same kind.
pub proof fn law_errors_say_what_they_were_made_with<X>(
    kind: Kind,
    reason: Reason,
    failure: X,
    inner: Error<X>,
    published: Arc<Error<X>>,
)
    ensures
        ({
            let plain = Error::<X>::plain(kind);
            let because = Error::<X>::because(kind, reason);
            let outside = Error::<X>::outside(kind, failure);
            let nested = Error::<X>::nested(kind, inner);
            let passed = Error::<X>::passed_on(published);
            &&& plain.kind == kind && plain.cause is None && plain.published is None
            &&& because.kind == kind && because.cause == Some(Cause::<X>::Reason(reason))
                && because.published is None
            &&& outside.kind == kind && outside.cause == Some(Cause::<X>::Outside(failure))
                && outside.published is None
            &&& nested.kind == kind && nested.cause == Some(Cause::<X>::Error(Box::new(inner)))
                && nested.published is None
            &&& passed.kind == published.kind && passed.cause is None && passed.published == Some(
                published,
            )
        }),
{
}

/// What the constructors return is an error of that kind with that cause; giving
/// an error a reason changes only its cause.
pub proof fn law_constructors_keep_kind_and_cause<X>(
    kind: Kind,
    reason: Reason,
    failure: X,
    error: Error<X>,
    published: Arc<Error<X>>,
    made: (Error<X>, Error<X>, Error<X>, Error<X>, Error<X>, Error<X>),
)
    requires
        call_ensures(Error::<X>::new, (kind,), made.0),
        call_ensures(Error::<X>::new_reason, (kind, reason), made.1),
        call_ensures(Error::<X>::new_outside, (kind, failure), made.2),
        call_ensures(Error::<X>::new_nested, (kind, error), made.3),
        call_ensures(Error::<X>::from_shared, (published,), made.4),
        call_ensures(Error::<X>::with, (error, reason), made.5),
    ensures
        made.0.kind == kind && made.0.cause is None && made.0.published is None,
        made.1.kind == kind && made.1.cause == Some(Cause::<X>::Reason(reason)) && made.1.published
            is None,
        made.2.kind == kind && made.2.cause == Some(Cause::<X>::Outside(failure))
            && made.2.published is None,
        made.3.kind == kind && made.3.cause == Some(Cause::<X>::Error(Box::new(error)))
            && made.3.published is None,
        made.4.kind == published.kind && made.4.cause is None && made.4.published == Some(
            published,
        ),
        made.5.kind == error.kind && made.5.cause == Some(Cause::<X>::Reason(reason))
            && made.5.published == error.published,
{
}

/// The codes have the numbers under which they are registered, RFC 9114, Section
/// 8.1 and RFC 9297, Section 5.2; any other code has its own number.
pub proof fn law_codes_have_their_registered_numbers(code: Code, value: u64)
    requires
        call_ensures(Code::value, (code,), value),
    ensures
        value == code.number(),
        code == Code::DatagramError ==> value == 0x33,
        code == Code::NoError ==> value == 0x100,
        code == Code::RequestCancelled ==> value == 0x10c,
        code == Code::MessageError ==> value == 0x10e,
        code matches Code::Other(number) ==> value == number,
{
}

/// Each reason is reported in its own words.
pub proof fn law_reasons_have_their_words(reason: Reason, words: &'static str)
    requires
        call_ensures(Reason::message, (reason,), words),
    ensures
        words@ == reason.text(),
        reason == Reason::ConnectionClosed ==> words@ == "connection closed"@,
        reason == Reason::ConnectionDropped ==> words@ == "HTTP/3 connection dropped"@,
        reason == Reason::TaskDropped ==> words@ == "HTTP/3 connection task dropped"@,
        reason == Reason::InvalidCapacity ==> words@ == "invalid HTTP/3 request capacity"@,
        reason == Reason::SettingsOmitDatagram ==> words@ == "HTTP Datagram settings order omits H3_DATAGRAM"@,
        reason == Reason::DatagramsTaken ==> words@ == "QUIC Datagram reader already taken"@,
        reason == Reason::DatagramNeedsConnect ==> words@ == "Datagram requests require an Extended CONNECT and a Datagram-enabled connection"@,
        reason == Reason::InvalidDatagram ==> words@ == "HTTP Datagram on a request without Datagram semantics"@,
        reason == Reason::PeerWithoutExtendedConnect ==> words@ == "peer did not enable Extended CONNECT"@,
        reason == Reason::ProtocolWithoutConnect ==> words@ == "Extended CONNECT protocol requires CONNECT"@,
        reason == Reason::MissingAuthority ==> words@ == "HTTP/3 request requires scheme and authority"@,
        reason == Reason::HostConflict ==> words@ == "Host conflicts with HTTP/3 authority"@,
        reason == Reason::TeNotTrailers ==> words@ == "HTTP/3 TE must be trailers"@,
        reason == Reason::LengthNotText ==> words@ == "failed to convert header to a str"@,
        reason == Reason::InvalidLength ==> words@ == "invalid content-length"@,
        reason == Reason::LengthTooLarge ==> words@ == "number too large to fit in target type"@,
        reason == Reason::ConflictingLength ==> words@ == "conflicting content-length"@,
        reason == Reason::BodyTooShort ==> words@ == "body shorter than content-length"@,
        reason == Reason::BodyTooLong ==> words@ == "body exceeds content-length"@,
        reason == Reason::ResponseTooShort ==> words@ == "HTTP/3 body shorter than content-length"@,
        reason == Reason::FrameAfterTrailers ==> words@ == "body frame after trailers"@,
        reason == Reason::NotAClientStream ==> words@ == "QUIC backend returned a non-client request stream ID"@,
        reason == Reason::SwitchingProtocols ==> words@ == "HTTP/3 response cannot use status 101"@,
        reason == Reason::InconsistentSend ==> words@ == "QUIC send did not advance its buffer consistently"@,
        reason == Reason::SendNotReady ==> words@ == "send_data called without QUIC readiness"@,
        reason == Reason::TunnelClosed ==> words@ == "HTTP/3 tunnel closed"@,
{
}

} // verus!
