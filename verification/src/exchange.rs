//! One request from its checks to the delivery of its response: in which order
//! the stream is driven, and what each outcome leads to.

use vstd::prelude::*;

use crate::client::{self, BodyInfo, RecvGuard, RequestHead, ResponseHead, SendGuard};
use crate::error::{Code, Error, Kind, Poll, Reason, StreamFailure};
use crate::shared::{Shared, State};
use crate::headers::{self, TooManyFields};
use crate::fields;

verus! {

/// What an exchange waits for.
#[derive(Clone, Copy, PartialEq, Eq, Structural, Debug)]
pub enum Stage {
    /// The peer's SETTINGS.
    Settings,
    /// Local admission.
    Admission,
    /// The stream, with the request head sent on it.
    Opening,
    /// The response head to a CONNECT, before anything is finished.
    ConnectHead,
    /// The FIN of an empty body.
    Finishing,
    /// The response head.
    Head,
    /// The acknowledgment of the FIN of an empty body.
    Acknowledgment,
    /// Nothing more.
    Done,
}

/// One request on its way.
#[derive(Clone, Copy, PartialEq, Eq, Debug)]
pub struct Exchange {
    pub stage: Stage,
    pub connect: bool,
    pub head: bool,
    /// The length of the request body, where it is known.
    pub length: Option<u64>,
    pub send: SendGuard,
    pub recv: RecvGuard,
    /// The response head was read before the request was finished.
    pub responded: bool,
    /// The body is being sent.
    pub uploading: bool,
    /// The length of the response content, where it is known.
    pub remaining: Option<u64>,
}

/// What an exchange calls for next.
#[derive(Debug)]
pub enum Step<X> {
    /// Fail, and hand the request back.
    Reject(Error<X>),
    /// Wait for the peer's SETTINGS.
    AwaitSettings,
    /// Wait for local admission.
    Enter,
    /// Run the caller's header callback, then open a stream and send the
    /// request head. From here on the request has left the caller.
    Open,
    /// Fail; the request cannot be handed back.
    Fail(Error<X>),
    /// Wait for the response head.
    AwaitHead,
    /// Turn the stream into a tunnel.
    Tunnel,
    /// Finish the send direction, which has nothing to send.
    Finish,
    /// Start to send the body of this length, then wait for the response head.
    Upload(Option<u64>),
    /// Look once whether the FIN is acknowledged.
    CheckAcknowledgment,
    /// Deliver the response. `sending` tells whether the body or its FIN is
    /// still on its way and a task has to see to it.
    Deliver { remaining: Option<u64>, sending: bool },
    /// Give up: the fields leave no room for the length of the body.
    TooManyFields,
    /// Nothing: the outcome does not belong to the stage.
    Nothing,
}

/// Why a request is refused before its fields are looked at, if it is: the
/// connection was closed when the request was created; it asks for Datagrams
/// but is no Extended CONNECT or the connection routes none; it is a CONNECT
/// with content.
pub open spec fn refusal<X>(
    reserved: bool,
    shared: State<X>,
    request: RequestHead,
    body: BodyInfo,
) -> Option<Error<X>> {
    if !reserved {
        Some(Error::because(Kind::Canceled, Reason::ConnectionClosed))
    } else if request.datagram && (!shared.datagrams || !request.is_connect()
        || !request.protocol) {
        Some(Error::because(Kind::UserInvalidRequest, Reason::DatagramNeedsConnect))
    } else if request.is_connect() && !body.end_stream {
        Some(Error::plain(Kind::UserInvalidConnect))
    } else {
        None
    }
}

/// Whether two requests are the same but for their fields.
pub open spec fn same_but_fields(a: RequestHead, b: RequestHead) -> bool {
    &&& a.method == b.method
    &&& a.authority == b.authority
    &&& a.scheme == b.scheme
    &&& a.protocol == b.protocol
    &&& a.datagram == b.datagram
}

/// The length of a request body: the declared one, or else the one that the
/// body knows, except in a CONNECT.
pub open spec fn framed_length(
    connect: bool,
    declared: Option<u64>,
    body: BodyInfo,
) -> Option<u64> {
    if declared is None && !connect {
        body.exact
    } else {
        declared
    }
}

/// Whether a field for the length of the body is added: the length is known,
/// none is declared, and it is not zero or the method gives meaning to content.
pub open spec fn adds_length(
    request: RequestHead,
    declared: Option<u64>,
    body: BodyInfo,
) -> bool {
    &&& declared is None
    &&& !request.is_connect()
    &&& body.exact is Some
    &&& body.exact->0 != 0 || headers::defines_payload(fields::method_token(request.method))
}

/// Whether a field for the length of the body is to be added, and there are so
/// many fields that there may be no room for it.
pub open spec fn is_too_full(
    request: RequestHead,
    declared: Option<u64>,
    body: BodyInfo,
) -> bool {
    &&& adds_length(request, declared, body)
    &&& fields::field_values(request.headers).dom().len() > fields::MAX_FIELD_NAMES
}

/// The fields with the length of the body, where one is added.
pub open spec fn framed_fields(
    request: RequestHead,
    held: Map<Seq<char>, Seq<Seq<u8>>>,
    declared: Option<u64>,
    body: BodyInfo,
) -> Map<Seq<char>, Seq<Seq<u8>>> {
    if adds_length(request, declared, body) {
        headers::with_length(held, body.exact->0)
    } else {
        held
    }
}

/// What framing comes to: the length of the body, unless the body is empty and
/// the length is not zero.
pub open spec fn framing<X>(
    connect: bool,
    declared: Option<u64>,
    body: BodyInfo,
) -> Result<Option<u64>, Error<X>> {
    let length = framed_length(connect, declared, body);
    if body.end_stream && length is Some && length->0 != 0 {
        Err(Error::because(Kind::UserBody, Reason::BodyTooShort))
    } else {
        Ok(length)
    }
}

/// Whether Extended CONNECT may be used, once nothing waits for the peer's
/// SETTINGS any more.
pub open spec fn extended_connect<X>(shared: State<X>) -> Result<(), Error<X>> {
    if shared.peer_extended_connect == Some(true) {
        Ok(())
    } else if shared.admission_closed {
        Err(shared.failure())
    } else {
        Err(Error::because(Kind::UserInvalidRequest, Reason::PeerWithoutExtendedConnect))
    }
}

/// Settles the length of a request body and adds the field for it where none is
/// there. This fails, with nothing changed, only where the field is to be added
/// and there is no room for it.
pub fn frame_request<X>(
    request: &mut RequestHead,
    declared: Option<u64>,
    body: BodyInfo,
) -> (framed: Result<Result<Option<u64>, Error<X>>, TooManyFields>)
    ensures
        same_but_fields(*final(request), *old(request)),
        match framed {
            Ok(length) => {
                &&& length == framing::<X>(old(request).is_connect(), declared, body)
                &&& fields::field_values(final(request).headers) == framed_fields(
                    *old(request),
                    fields::field_values(old(request).headers),
                    declared,
                    body,
                )
            },
            Err(_) => {
                &&& is_too_full(*old(request), declared, body)
                &&& fields::field_values(final(request).headers) == fields::field_values(
                    old(request).headers,
                )
            },
        },
{
    let mut length: Option<u64> = declared;
    if declared.is_none() && !request.connect() {
        if let Some(size) = body.exact {
            if size != 0 || headers::method_has_defined_payload_semantics(&request.method) {
                match headers::set_content_length_if_missing(&mut request.headers, size) {
                    Ok(_) => {},
                    Err(full) => return Err(full),
                }
            }
        }
        length = body.exact;
    }
    if body.end_stream {
        if let Some(n) = length {
            if n != 0 {
                return Ok(Err(Error::new_reason(Kind::UserBody, Reason::BodyTooShort)));
            }
        }
    }
    Ok(Ok(length))
}

/// Checks that the peer enabled Extended CONNECT.
pub fn check_extended_connect<X>(shared: &Shared<X>) -> (allowed: Result<(), Error<X>>)
    ensures
        allowed == extended_connect(shared@),
{
    let enabled = match shared.peer_extended_connect() {
        Some(enabled) => enabled,
        None => false,
    };
    if enabled {
        Ok(())
    } else if shared.admission_closed() {
        Err(shared.error())
    } else {
        Err(Error::new_reason(Kind::UserInvalidRequest, Reason::PeerWithoutExtendedConnect))
    }
}

/// An outcome that an exchange takes, as the contracts speak of it.
pub enum Turn<X> {
    /// Nothing waits for SETTINGS any more; `framed` is what framing came to.
    Settled { shared: State<X>, framed: Result<Option<u64>, Error<X>> },
    /// Admission was given or refused.
    Entered(Result<(), Error<X>>),
    /// The stream opened under an identifier, or did not.
    Opened { shared: State<X>, opened: Result<u64, X>, end_stream: bool },
    /// The head of the response to a CONNECT came, or the wait for it failed.
    ConnectHead { shared: State<X>, read: Result<ResponseHead, Error<X>>, end_stream: bool },
    /// The FIN of an empty body was sent or not. `head` is the response head
    /// where it was read before.
    Finished { shared: State<X>, sent: Result<(), StreamFailure<X>>, head: Option<ResponseHead> },
    /// The response head came, or the wait for it failed.
    Head { shared: State<X>, read: Result<ResponseHead, Error<X>> },
    /// Looking for the acknowledgment of the FIN found this.
    Acknowledged { shared: State<X>, found: Poll<Result<(), X>> },
}

/// A part of a poll for the response head, and what it found.
#[derive(Debug)]
pub enum WatchEvent<X> {
    /// The poll begins.
    Start,
    /// The upload was polled.
    Upload(Poll<Result<(), Error<X>>>),
    /// It was looked whether an invalid Datagram came.
    Datagram { invalid: bool },
    /// The response head was polled.
    Response { ready: bool },
}

/// What a poll for the response head calls for next: first the upload is
/// polled, while there is one, then the Datagram route, then the response.
#[derive(Debug)]
pub enum WatchStep<X> {
    PollUpload,
    PollDatagram,
    PollResponse,
    /// The poll found nothing yet.
    Pend,
    /// The wait failed.
    Failed(Error<X>),
    /// The response head is in.
    Responded,
}

impl Exchange {
    /// Whether the request has not left the caller yet.
    pub open spec fn is_with_caller(self) -> bool {
        self.stage == Stage::Settings || self.stage == Stage::Admission
    }

    /// An exchange that has just begun.
    pub open spec fn begun(stage: Stage, request: RequestHead, length: Option<u64>) -> Self {
        Exchange {
            stage,
            connect: request.is_connect(),
            head: request.is_head(),
            length,
            send: SendGuard { datagrams: false, finished: false },
            recv: RecvGuard::opened(false),
            responded: false,
            uploading: false,
            remaining: None,
        }
    }

    /// The exchange and what it calls for once its framing is known.
    pub open spec fn framed<X>(self, framed: Result<Option<u64>, Error<X>>) -> (Self, Step<X>) {
        match framed {
            Ok(length) => (Exchange { stage: Stage::Admission, length, ..self }, Step::Enter),
            Err(error) => (Exchange { stage: Stage::Done, ..self }, Step::Reject(error)),
        }
    }

    /// The exchange and what it calls for when its request is to be sent: an
    /// empty body is finished at once, any other is uploaded.
    pub open spec fn sending<X>(self, end_stream: bool) -> (Self, Step<X>) {
        if end_stream {
            (Exchange { stage: Stage::Finishing, ..self }, Step::Finish)
        } else {
            (
                Exchange { stage: Stage::Head, uploading: true, ..self },
                Step::Upload(self.length),
            )
        }
    }

    /// The exchange and what it calls for once its final response head is in.
    pub open spec fn responding<X>(self, head: ResponseHead) -> (Self, Step<X>) {
        match client::response_length(self.head, head) {
            Err(reason) => (
                Exchange {
                    stage: Stage::Done,
                    recv: RecvGuard { code: Code::MessageError, ..self.recv },
                    ..self
                },
                Step::Fail(Error::because(Kind::Http3, reason)),
            ),
            Ok(remaining) => if self.send.finished {
                (
                    Exchange { stage: Stage::Acknowledgment, remaining, ..self },
                    Step::CheckAcknowledgment,
                )
            } else {
                (
                    Exchange { stage: Stage::Done, remaining, ..self },
                    Step::Deliver { remaining, sending: self.uploading },
                )
            },
        }
    }

    /// The exchange that has failed, and the failure.
    pub open spec fn failing<X>(self, error: Error<X>) -> (Self, Step<X>) {
        (Exchange { stage: Stage::Done, ..self }, Step::Fail(error))
    }

    /// The body is sent by an upload or finished at once, never both, and
    /// neither begins before the stream is open.
    pub open spec fn wf(self) -> bool {
        &&& !(self.uploading && self.send.finished)
        &&& self.stage == Stage::Acknowledgment ==> self.send.finished
        &&& self.stage == Stage::Settings || self.stage == Stage::Admission || self.stage
            == Stage::Opening || self.stage == Stage::ConnectHead || self.stage
            == Stage::Finishing ==> !self.uploading && !self.send.finished
    }

    /// The exchange after a part of a poll for the response head, and the part
    /// that follows.
    pub open spec fn watched<X>(self, event: WatchEvent<X>) -> (Self, WatchStep<X>) {
        match event {
            WatchEvent::Start => if self.stage == Stage::Head && self.uploading {
                (self, WatchStep::PollUpload)
            } else {
                (self, WatchStep::PollDatagram)
            },
            WatchEvent::Upload(Poll::Pending) => (self, WatchStep::PollDatagram),
            WatchEvent::Upload(Poll::Ready(Ok(_))) => (
                Exchange { uploading: false, ..self },
                WatchStep::PollDatagram,
            ),
            WatchEvent::Upload(Poll::Ready(Err(error))) => (self, WatchStep::Failed(error)),
            WatchEvent::Datagram { invalid } => if invalid {
                (
                    self,
                    WatchStep::Failed(Error::because(Kind::Http3, Reason::InvalidDatagram)),
                )
            } else {
                (self, WatchStep::PollResponse)
            },
            WatchEvent::Response { ready } => if ready {
                (self, WatchStep::Responded)
            } else {
                (self, WatchStep::Pend)
            },
        }
    }

    /// The exchange after an outcome, and what it calls for then.
    pub open spec fn next<X>(self, turn: Turn<X>) -> (Self, Step<X>) {
        match turn {
            Turn::Settled { shared, framed } => if self.stage != Stage::Settings {
                (self, Step::Nothing)
            } else {
                match extended_connect(shared) {
                    Err(error) => (
                        Exchange { stage: Stage::Done, ..self },
                        Step::Reject(error),
                    ),
                    Ok(_) => self.framed(framed),
                }
            },
            Turn::Entered(entered) => if self.stage != Stage::Admission {
                (self, Step::Nothing)
            } else {
                match entered {
                    Ok(_) => (Exchange { stage: Stage::Opening, ..self }, Step::Open),
                    Err(error) => (
                        Exchange { stage: Stage::Done, ..self },
                        Step::Reject(error),
                    ),
                }
            },
            Turn::Opened { shared, opened, end_stream } => if self.stage != Stage::Opening {
                (self, Step::Nothing)
            } else {
                match opened {
                    Err(failure) => self.failing(
                        shared.failure_or(Error::outside(Kind::Http3, failure)),
                    ),
                    Ok(id) => if id % 4 != 0 {
                        self.failing(Error::because(Kind::Http3, Reason::NotAClientStream))
                    } else {
                        let open = Exchange {
                            send: SendGuard { datagrams: shared.datagrams, finished: false },
                            recv: RecvGuard::opened(shared.datagrams),
                            ..self
                        };
                        if self.connect {
                            (Exchange { stage: Stage::ConnectHead, ..open }, Step::AwaitHead)
                        } else {
                            open.sending(end_stream)
                        }
                    },
                }
            },
            Turn::ConnectHead { shared, read, end_stream } => if self.stage
                != Stage::ConnectHead {
                (self, Step::Nothing)
            } else {
                match read {
                    Err(error) => self.failing(shared.failure_or(error)),
                    Ok(head) => if head.is_success() {
                        (Exchange { stage: Stage::Done, ..self }, Step::Tunnel)
                    } else if end_stream {
                        (Exchange { responded: true, ..self }).sending(true)
                    } else {
                        // The head is in already, so what the body does is left
                        // to the task that sends it.
                        (Exchange { responded: true, uploading: true, ..self }).responding(head)
                    },
                }
            },
            Turn::Finished { shared, sent, head } => if self.stage != Stage::Finishing
                || self.responded != (head is Some) {
                (self, Step::Nothing)
            } else {
                match sent {
                    Err(StreamFailure::Other(failure)) => self.failing(
                        shared.failure_or(Error::outside(Kind::Http3, failure)),
                    ),
                    _ => {
                        let finished = Exchange {
                            send: SendGuard { finished: sent is Ok, ..self.send },
                            ..self
                        };
                        match head {
                            Some(head) => finished.responding(head),
                            None => (
                                Exchange { stage: Stage::Head, ..finished },
                                Step::AwaitHead,
                            ),
                        }
                    },
                }
            },
            Turn::Head { shared, read } => if self.stage != Stage::Head {
                (self, Step::Nothing)
            } else {
                match read {
                    Err(error) => self.failing(shared.failure_or(error)),
                    Ok(head) => self.responding(head),
                }
            },
            Turn::Acknowledged { shared, found } => if self.stage != Stage::Acknowledgment {
                (self, Step::Nothing)
            } else {
                match found {
                    Poll::Ready(Err(failure)) => self.failing(
                        shared.failure_or(Error::outside(Kind::Http3, failure)),
                    ),
                    _ => (
                        Exchange { stage: Stage::Done, ..self },
                        Step::Deliver { remaining: self.remaining, sending: found is Pending },
                    ),
                }
            },
        }
    }

    /// Checks a request and begins its exchange. A request that is refused
    /// before its fields are read is left as it came; one that is refused for
    /// its fields has them stripped already.
    pub fn begin<X>(
        reserved: bool,
        shared: &Shared<X>,
        request: &mut RequestHead,
        body: BodyInfo,
    ) -> (begun: (Exchange, Step<X>))
        ensures
            same_but_fields(*final(request), *old(request)),
            begun.1 is TooManyFields ==> fields::field_values(old(request).headers).dom().len()
                > fields::MAX_FIELD_NAMES,
            ({
                let kept = headers::stripped(fields::field_values(old(request).headers), true);
                match refusal(reserved, shared@, *old(request), body) {
                    Some(error) => {
                        &&& begun.1 == Step::Reject(error)
                        &&& begun.0 == Exchange::begun(Stage::Done, *old(request), None)
                        &&& *final(request) == *old(request)
                    },
                    None => match old(request).checked_length::<X>(kept) {
                        Err(error) => {
                            &&& begun.1 == Step::Reject(
                                Error::nested(Kind::UserInvalidRequest, error),
                            )
                            &&& begun.0 == Exchange::begun(Stage::Done, *old(request), None)
                            &&& fields::field_values(final(request).headers) == kept
                        },
                        Ok(declared) => if old(request).protocol {
                            &&& begun.1 == Step::<X>::AwaitSettings
                            &&& begun.0 == Exchange::begun(
                                Stage::Settings,
                                *old(request),
                                declared,
                            )
                            &&& fields::field_values(final(request).headers) == kept
                        } else if begun.1 is TooManyFields {
                            &&& adds_length(*old(request), declared, body)
                            &&& begun.0 == Exchange::begun(Stage::Done, *old(request), declared)
                            &&& fields::field_values(final(request).headers) == kept
                        } else {
                            &&& begun == Exchange::begun(
                                Stage::Settings,
                                *old(request),
                                declared,
                            ).framed(framing::<X>(old(request).is_connect(), declared, body))
                            &&& fields::field_values(final(request).headers) == framed_fields(
                                *old(request),
                                kept,
                                declared,
                                body,
                            )
                        },
                    },
                }
            }),
    {
        let connect = request.connect();
        let head = request.head();
        let mut exchange = Exchange {
            stage: Stage::Done,
            connect,
            head,
            length: None,
            send: SendGuard { datagrams: false, finished: false },
            recv: RecvGuard { datagrams: false, finished: false, code: Code::RequestCancelled },
            responded: false,
            uploading: false,
            remaining: None,
        };
        if !reserved {
            let error = Error::new(Kind::Canceled).with(Reason::ConnectionClosed);
            return (exchange, Step::Reject(error));
        }
        if request.datagram && (!shared.has_datagrams() || !connect || !request.protocol) {
            let error = Error::new_reason(
                Kind::UserInvalidRequest,
                Reason::DatagramNeedsConnect,
            );
            return (exchange, Step::Reject(error));
        }
        if connect && !body.end_stream {
            return (exchange, Step::Reject(Error::new(Kind::UserInvalidConnect)));
        }
        headers::strip_connection_headers(&mut request.headers, true);
        proof {
            headers::lemma_stripped_is_smaller(fields::field_values(old(request).headers), true);
        }
        let declared = match client::validate_request(request) {
            Ok(declared) => declared,
            Err(error) => {
                return (
                    exchange,
                    Step::Reject(Error::new_nested(Kind::UserInvalidRequest, error)),
                );
            },
        };
        exchange.length = declared;
        if request.protocol {
            exchange.stage = Stage::Settings;
            return (exchange, Step::AwaitSettings);
        }
        match frame_request(request, declared, body) {
            Ok(framed) => {
                let step = exchange.frame(framed);
                (exchange, step)
            },
            Err(_) => (exchange, Step::TooManyFields),
        }
    }

    /// Takes what framing came to.
    fn frame<X>(&mut self, framed: Result<Option<u64>, Error<X>>) -> (step: Step<X>)
        ensures
            (*final(self), step) == old(self).framed(framed),
    {
        match framed {
            Ok(length) => {
                self.stage = Stage::Admission;
                self.length = length;
                Step::Enter
            },
            Err(error) => {
                self.stage = Stage::Done;
                Step::Reject(error)
            },
        }
    }

    /// Goes on once nothing waits for the peer's SETTINGS any more.
    pub fn settled<X>(
        &mut self,
        shared: &Shared<X>,
        request: &mut RequestHead,
        body: BodyInfo,
    ) -> (step: Step<X>)
        ensures
            same_but_fields(*final(request), *old(request)),
            if step is TooManyFields {
                &&& old(self).stage == Stage::Settings
                &&& extended_connect(shared@) is Ok
                &&& is_too_full(*old(request), old(self).length, body)
                &&& *final(self) == (Exchange { stage: Stage::Done, ..*old(self) })
                &&& fields::field_values(final(request).headers) == fields::field_values(
                    old(request).headers,
                )
            } else {
                &&& (*final(self), step) == old(self).next(
                    Turn::Settled {
                        shared: shared@,
                        framed: framing::<X>(old(request).is_connect(), old(self).length, body),
                    },
                )
                &&& fields::field_values(final(request).headers) == if old(self).stage
                    == Stage::Settings && extended_connect(shared@) is Ok {
                    framed_fields(
                        *old(request),
                        fields::field_values(old(request).headers),
                        old(self).length,
                        body,
                    )
                } else {
                    fields::field_values(old(request).headers)
                }
            },
    {
        match self.stage {
            Stage::Settings => {},
            _ => return Step::Nothing,
        }
        match check_extended_connect(shared) {
            Ok(_) => match frame_request(request, self.length, body) {
                Ok(framed) => self.frame(framed),
                Err(_) => {
                    self.stage = Stage::Done;
                    Step::TooManyFields
                },
            },
            Err(error) => {
                self.stage = Stage::Done;
                Step::Reject(error)
            },
        }
    }

    /// Goes on once admission was given or refused.
    pub fn entered<X>(&mut self, entered: Result<(), Error<X>>) -> (step: Step<X>)
        ensures
            (*final(self), step) == old(self).next(Turn::Entered(entered)),
    {
        match self.stage {
            Stage::Admission => {},
            _ => return Step::Nothing,
        }
        match entered {
            Ok(_) => {
                self.stage = Stage::Opening;
                Step::Open
            },
            Err(error) => {
                self.stage = Stage::Done;
                Step::Reject(error)
            },
        }
    }

    /// Takes what a part of a poll for the response head found.
    pub fn watch<X>(&mut self, event: WatchEvent<X>) -> (step: WatchStep<X>)
        ensures
            (*final(self), step) == old(self).watched(event),
    {
        match event {
            WatchEvent::Start => {
                let at_head = match self.stage {
                    Stage::Head => true,
                    _ => false,
                };
                if at_head && self.uploading {
                    WatchStep::PollUpload
                } else {
                    WatchStep::PollDatagram
                }
            },
            WatchEvent::Upload(Poll::Pending) => WatchStep::PollDatagram,
            WatchEvent::Upload(Poll::Ready(Ok(_))) => {
                self.uploading = false;
                WatchStep::PollDatagram
            },
            WatchEvent::Upload(Poll::Ready(Err(error))) => WatchStep::Failed(error),
            WatchEvent::Datagram { invalid } => {
                if invalid {
                    WatchStep::Failed(client::invalid_datagram_error())
                } else {
                    WatchStep::PollResponse
                }
            },
            WatchEvent::Response { ready } => {
                if ready {
                    WatchStep::Responded
                } else {
                    WatchStep::Pend
                }
            },
        }
    }

    fn fail<X>(&mut self, error: Error<X>) -> (step: Step<X>)
        ensures
            (*final(self), step) == old(self).failing(error),
    {
        self.stage = Stage::Done;
        Step::Fail(error)
    }

    fn send<X>(&mut self, end_stream: bool) -> (step: Step<X>)
        ensures
            (*final(self), step) == old(self).sending::<X>(end_stream),
    {
        if end_stream {
            self.stage = Stage::Finishing;
            Step::Finish
        } else {
            self.stage = Stage::Head;
            self.uploading = true;
            Step::Upload(self.length)
        }
    }

    fn respond<X>(&mut self, head: &ResponseHead) -> (step: Step<X>)
        ensures
            (*final(self), step) == old(self).responding::<X>(*head),
    {
        let head_request = self.head;
        match client::read_response_length(&mut self.recv, head_request, head) {
            Err(error) => self.fail(error),
            Ok(remaining) => {
                self.remaining = remaining;
                if self.send.finished {
                    self.stage = Stage::Acknowledgment;
                    Step::CheckAcknowledgment
                } else {
                    self.stage = Stage::Done;
                    Step::Deliver { remaining, sending: self.uploading }
                }
            },
        }
    }

    /// Goes on once the stream opened, or did not. The identifier of a stream
    /// that a client opened for a request is a multiple of four.
    pub fn opened<X>(
        &mut self,
        shared: &Shared<X>,
        opened: Result<u64, X>,
        end_stream: bool,
    ) -> (step: Step<X>)
        ensures
            (*final(self), step) == old(self).next(
                Turn::Opened { shared: shared@, opened, end_stream },
            ),
    {
        match self.stage {
            Stage::Opening => {},
            _ => return Step::Nothing,
        }
        let id: u64 = match opened {
            Ok(id) => id,
            Err(failure) => {
                let error = shared.error_or(Error::new_outside(Kind::Http3, failure));
                return self.fail(error);
            },
        };
        if id % 4 != 0 {
            return self.fail(Error::new_reason(Kind::Http3, Reason::NotAClientStream));
        }
        let datagrams = shared.has_datagrams();
        self.send = SendGuard { datagrams, finished: false };
        self.recv = RecvGuard { datagrams, finished: false, code: Code::RequestCancelled };
        if self.connect {
            self.stage = Stage::ConnectHead;
            Step::AwaitHead
        } else {
            self.send(end_stream)
        }
    }

    /// Goes on once the head of the response to a CONNECT came, or the wait for
    /// it failed. A success makes a tunnel of the stream.
    pub fn connect_head<X>(
        &mut self,
        shared: &Shared<X>,
        head: Result<&ResponseHead, Error<X>>,
        end_stream: bool,
    ) -> (step: Step<X>)
        ensures
            (*final(self), step) == old(self).next(
                Turn::ConnectHead {
                    shared: shared@,
                    read: match head {
                        Ok(head) => Ok(*head),
                        Err(error) => Err(error),
                    },
                    end_stream,
                },
            ),
    {
        match self.stage {
            Stage::ConnectHead => {},
            _ => return Step::Nothing,
        }
        let head = match head {
            Ok(head) => head,
            Err(error) => {
                let error = shared.error_or(error);
                return self.fail(error);
            },
        };
        if 200 <= head.status && head.status <= 299 {
            self.stage = Stage::Done;
            return Step::Tunnel;
        }
        self.responded = true;
        if end_stream {
            self.send(true)
        } else {
            self.uploading = true;
            self.respond(head)
        }
    }

    /// Goes on once the FIN of an empty body was sent, or was not. After a
    /// peer's STOP_SENDING the exchange goes on with an unfinished send half.
    /// The second part of the result tells whether to close the Datagram route
    /// for sending.
    pub fn finished<X>(
        &mut self,
        shared: &Shared<X>,
        sent: Result<(), StreamFailure<X>>,
        head: Option<&ResponseHead>,
    ) -> (step: (Step<X>, bool))
        ensures
            step.1 == (step.0 !is Nothing && sent is Ok && old(self).send.datagrams),
            (*final(self), step.0) == old(self).next(
                Turn::Finished {
                    shared: shared@,
                    sent,
                    head: match head {
                        Some(head) => Some(*head),
                        None => None,
                    },
                },
            ),
    {
        match self.stage {
            Stage::Finishing => {},
            _ => return (Step::Nothing, false),
        }
        if self.responded != head.is_some() {
            return (Step::Nothing, false);
        }
        let half = SendGuard { datagrams: self.send.datagrams, finished: false };
        match half.finish(sent) {
            Err(error) => {
                let error = shared.error_or(error);
                (self.fail(error), false)
            },
            Ok((half, close_route)) => {
                self.send = half;
                let step = match head {
                    Some(head) => self.respond(head),
                    None => {
                        self.stage = Stage::Head;
                        Step::AwaitHead
                    },
                };
                (step, close_route)
            },
        }
    }

    /// Goes on once the response head came, or the wait for it failed.
    pub fn responded<X>(
        &mut self,
        shared: &Shared<X>,
        head: Result<&ResponseHead, Error<X>>,
    ) -> (step: Step<X>)
        ensures
            (*final(self), step) == old(self).next(
                Turn::Head {
                    shared: shared@,
                    read: match head {
                        Ok(head) => Ok(*head),
                        Err(error) => Err(error),
                    },
                },
            ),
    {
        match self.stage {
            Stage::Head => {},
            _ => return Step::Nothing,
        }
        match head {
            Ok(head) => self.respond(head),
            Err(error) => {
                let error = shared.error_or(error);
                self.fail(error)
            },
        }
    }

    /// Goes on once looking for the acknowledgment of the FIN found something.
    /// The peer's response normally carries it; one that is late is left to a
    /// task.
    pub fn acknowledged<X>(
        &mut self,
        shared: &Shared<X>,
        found: Poll<Result<(), X>>,
    ) -> (step: Step<X>)
        ensures
            (*final(self), step) == old(self).next(
                Turn::Acknowledged { shared: shared@, found },
            ),
    {
        match self.stage {
            Stage::Acknowledgment => {},
            _ => return Step::Nothing,
        }
        match found {
            Poll::Ready(Err(failure)) => {
                let error = shared.error_or(Error::new_outside(Kind::Http3, failure));
                self.fail(error)
            },
            Poll::Ready(Ok(_)) => {
                self.stage = Stage::Done;
                Step::Deliver { remaining: self.remaining, sending: false }
            },
            Poll::Pending => {
                self.stage = Stage::Done;
                Step::Deliver { remaining: self.remaining, sending: true }
            },
        }
    }
}

/// What comes to an exchange: an outcome, or a part of a poll for the response
/// head.
pub enum Coming<X> {
    Turn(Turn<X>),
    Watch(WatchEvent<X>),
}

impl Exchange {
    /// The exchange after this, and what it calls for, if that is more than the
    /// next part of a poll.
    pub open spec fn taking<X>(self, coming: Coming<X>) -> (Self, Option<Step<X>>) {
        match coming {
            Coming::Turn(turn) => (self.next(turn).0, Some(self.next(turn).1)),
            Coming::Watch(event) => (self.watched(event).0, None),
        }
    }
}

/// The exchange after all that came, one after the other.
pub open spec fn exchange_after<X>(exchange: Exchange, comings: Seq<Coming<X>>) -> Exchange
    decreases comings.len(),
{
    if comings.len() == 0 {
        exchange
    } else {
        exchange_after(exchange, comings.drop_last()).taking(comings.last()).0
    }
}

/// What the exchange calls for after the last of what came.
pub open spec fn step_after<X>(exchange: Exchange, comings: Seq<Coming<X>>) -> Option<Step<X>> {
    exchange_after(exchange, comings.drop_last()).taking(comings.last()).1
}

/// Whether the exchange calls for its stream to be opened after the last of
/// what came.
pub open spec fn opens_after<X>(exchange: Exchange, comings: Seq<Coming<X>>) -> bool {
    step_after(exchange, comings) is Some && step_after(exchange, comings)->0 is Open
}

/// Whether the exchange hands its request back after the last of what came.
pub open spec fn rejects_after<X>(exchange: Exchange, comings: Seq<Coming<X>>) -> bool {
    step_after(exchange, comings) is Some && step_after(exchange, comings)->0 is Reject
}

/// Whether the exchange fails without its request after the last of what came.
pub open spec fn fails_after<X>(exchange: Exchange, comings: Seq<Coming<X>>) -> bool {
    step_after(exchange, comings) is Some && step_after(exchange, comings)->0 is Fail
}

/// A request is handed back only on failures before its stream is opened, and
/// after that never: from an exchange that still has the request with its
/// caller, the step to open the stream comes before every failure that keeps
/// the request and after none that hands it back, in whatever order outcomes
/// and polls for the response head come.
pub proof fn law_request_is_returned_only_before_it_is_opened<X>(
    exchange: Exchange,
    comings: Seq<Coming<X>>,
    i: int,
)
    requires
        exchange.is_with_caller(),
        0 <= i < comings.len(),
    ensures
        rejects_after(exchange, comings.take(i + 1)) ==> forall|j: int|
            0 <= j <= i ==> !(#[trigger] opens_after(exchange, comings.take(j + 1))),
        fails_after(exchange, comings.take(i + 1)) ==> exists|j: int|
            0 <= j < i && #[trigger] opens_after(exchange, comings.take(j + 1)),
{
    let before = comings.take(i + 1).drop_last();
    assert(before =~= comings.take(i));
    let now = exchange_after(exchange, before);
    if rejects_after(exchange, comings.take(i + 1)) {
        assert(now.is_with_caller());
        assert forall|j: int| 0 <= j <= i implies !(#[trigger] opens_after(
            exchange,
            comings.take(j + 1),
        )) by {
            if j < i && opens_after(exchange, comings.take(j + 1)) {
                assert(comings.take(j + 1).drop_last() =~= comings.take(j));
                assert(comings.take(j + 1).last() == comings[j]);
                lemma_gone_stays_gone(exchange, comings, j + 1, i);
            }
        }
    }
    if fails_after(exchange, comings.take(i + 1)) {
        assert(!now.is_with_caller() && now.stage != Stage::Done);
        lemma_gone_was_opened(exchange, comings, i);
    }
}

proof fn lemma_gone_stays_gone<X>(exchange: Exchange, comings: Seq<Coming<X>>, from: int, to: int)
    requires
        0 <= from <= to <= comings.len(),
        !exchange_after(exchange, comings.take(from)).is_with_caller(),
    ensures
        !exchange_after(exchange, comings.take(to)).is_with_caller(),
    decreases to - from,
{
    if from < to {
        lemma_gone_stays_gone(exchange, comings, from, to - 1);
        assert(comings.take(to).drop_last() =~= comings.take(to - 1));
    }
}

proof fn lemma_gone_was_opened<X>(exchange: Exchange, comings: Seq<Coming<X>>, count: int)
    requires
        exchange.is_with_caller(),
        0 <= count <= comings.len(),
        !exchange_after(exchange, comings.take(count)).is_with_caller(),
        exchange_after(exchange, comings.take(count)).stage != Stage::Done,
    ensures
        exists|j: int| 0 <= j < count && #[trigger] opens_after(exchange, comings.take(j + 1)),
    decreases count,
{
    if count == 0 {
        assert(comings.take(0) =~= Seq::empty());
    } else {
        assert(comings.take(count).drop_last() =~= comings.take(count - 1));
        let before = exchange_after(exchange, comings.take(count - 1));
        if before.is_with_caller() {
            assert(opens_after(exchange, comings.take(count)));
            assert(comings.take((count - 1) + 1) =~= comings.take(count));
        } else {
            assert(before.stage != Stage::Done);
            lemma_gone_was_opened(exchange, comings, count - 1);
        }
    }
}

/// An exchange begins well-formed and stays so, whatever comes.
pub proof fn law_exchange_stays_well_formed<X>(
    request: RequestHead,
    length: Option<u64>,
    exchange: Exchange,
    comings: Seq<Coming<X>>,
)
    requires
        exchange.wf(),
    ensures
        Exchange::begun(Stage::Settings, request, length).wf(),
        Exchange::begun(Stage::Done, request, length).wf(),
        exchange_after(exchange, comings).wf(),
    decreases comings.len(),
{
    if comings.len() > 0 {
        law_exchange_stays_well_formed(request, length, exchange, comings.drop_last());
    }
}

/// A response is delivered without anything left to send only where the send
/// direction is over: the FIN of an empty body is acknowledged, the peer
/// stopped it, or the upload had ended before the response head came. A FIN
/// that is not acknowledged is still being sent, so a drain waits for it.
pub proof fn law_unacknowledged_fin_is_still_sending<X>(exchange: Exchange, turn: Turn<X>)
    requires
        exchange.wf(),
        exchange.next(turn).1 is Deliver,
        !exchange.next(turn).1->sending,
    ensures
        exchange.next(turn).0.send.finished ==> {
            &&& turn is Acknowledged
            &&& turn->found is Ready
            &&& turn->found->0 is Ok
        },
        !exchange.next(turn).0.uploading,
{
}

/// The header callback runs after framing: when an exchange calls for its
/// stream to be opened it has been framed and was just admitted.
pub proof fn law_opening_follows_framing_and_admission<X>(exchange: Exchange, turn: Turn<X>)
    requires
        exchange.next(turn).1 is Open,
    ensures
        exchange.stage == Stage::Admission,
        turn is Entered,
        turn->Entered_0 is Ok,
{
}

/// The field for the length of a body is there when the header callback runs:
/// framing a request that declares no length and whose body knows its size adds
/// it, and the length then reads back as that size.
pub proof fn law_callback_sees_the_added_length(
    request: RequestHead,
    held: Map<Seq<char>, Seq<Seq<u8>>>,
    body: BodyInfo,
    size: u64,
)
    requires
        !held.contains_key("content-length"@),
        !request.is_connect(),
        body.exact == Some(size),
        size != 0 || headers::defines_payload(fields::method_token(request.method)),
    ensures
        client::length_in(framed_fields(request, held, None, body)) == Ok::<Option<u64>, Reason>(
            Some(size),
        ),
{
    headers::lemma_stored_names();
    headers::law_added_length_is_declared(held, size);
    client::law_length_readers_agree(
        fields::values_in(framed_fields(request, held, None, body), "content-length"@),
        size,
    );
}

/// The length with which a body is sent is the one that the fields of its
/// request declare. Where they declare none, it is not known, or the body is
/// empty and its method gives no meaning to content.
pub proof fn law_framed_length_is_the_declared_one<X>(
    request: RequestHead,
    held: Map<Seq<char>, Seq<Seq<u8>>>,
    declared: Option<u64>,
    body: BodyInfo,
)
    requires
        held.contains_key("content-length"@) ==> held["content-length"@].len() > 0,
        client::length_in(held) == Ok::<Option<u64>, Reason>(declared),
        framing::<X>(request.is_connect(), declared, body) is Ok,
    ensures
        ({
            let length = framed_length(request.is_connect(), declared, body);
            let said = client::length_in(framed_fields(request, held, declared, body));
            &&& framing::<X>(request.is_connect(), declared, body) == Ok::<Option<u64>, Error<X>>(
                length,
            )
            &&& said == Ok::<Option<u64>, Reason>(length) || {
                &&& said == Ok::<Option<u64>, Reason>(None)
                &&& length == Some(0u64)
                &&& !headers::defines_payload(fields::method_token(request.method))
            }
        }),
{
    headers::lemma_stored_names();
    if adds_length(request, declared, body) {
        client::law_length_readers_agree(fields::values_in(held, "content-length"@), 0);
        assert(!held.contains_key("content-length"@));
        law_callback_sees_the_added_length(request, held, body, body.exact->0);
    }
}

/// A request is refused at once, and left as it came, in exactly three cases, of
/// which the first that holds is told: the connection was closed when it was
/// created; it asks for Datagrams on a connection without them, or without being
/// an Extended CONNECT; it is a CONNECT with content.
pub proof fn law_refused_request_is_left_as_it_came<X>(
    reserved: bool,
    shared: &Shared<X>,
    request: &mut RequestHead,
    body: BodyInfo,
    begun: (Exchange, Step<X>),
)
    requires
        call_ensures(Exchange::begin::<X>, (reserved, shared, request, body), begun),
    ensures
        ({
            let connect = fields::method_token(old(request).method) == "CONNECT"@;
            let extended = connect && old(request).protocol;
            let datagram = old(request).datagram && !(shared@.datagrams && extended);
            let content = connect && !body.end_stream;
            &&& !reserved || datagram || content ==> {
                &&& begun.1 is Reject
                &&& begun.0.stage == Stage::Done
                &&& *final(request) == *old(request)
            }
            &&& !reserved ==> begun.1->Reject_0 == Error::<X>::because(
                Kind::Canceled,
                Reason::ConnectionClosed,
            )
            &&& reserved && datagram ==> begun.1->Reject_0 == Error::<X>::because(
                Kind::UserInvalidRequest,
                Reason::DatagramNeedsConnect,
            )
            &&& reserved && !datagram && content ==> begun.1->Reject_0 == Error::<X>::plain(
                Kind::UserInvalidConnect,
            )
        }),
{
}

/// A request that is not refused at once has its connection fields taken out and
/// is checked with the rest: a fault hands it back with the cause inside, an
/// Extended CONNECT waits for the peer's SETTINGS with the length it declares, and
/// any other goes on to admission, or comes back for a body that does not fit its
/// length. Nothing of it changes but its fields.
pub proof fn law_request_is_checked_before_it_waits<X>(
    reserved: bool,
    shared: &Shared<X>,
    request: &mut RequestHead,
    body: BodyInfo,
    begun: (Exchange, Step<X>),
)
    requires
        call_ensures(Exchange::begin::<X>, (reserved, shared, request, body), begun),
        reserved,
        old(request).datagram ==> shared@.datagrams,
        old(request).datagram ==> old(request).is_connect() && old(request).protocol,
        old(request).is_connect() ==> body.end_stream,
    ensures
        ({
            let kept = headers::stripped(fields::field_values(old(request).headers), true);
            let checked = old(request).checked_length::<X>(kept);
            let fields = fields::field_values(final(request).headers);
            &&& final(request).method == old(request).method
            &&& final(request).authority == old(request).authority
            &&& final(request).scheme == old(request).scheme
            &&& final(request).protocol == old(request).protocol
            &&& final(request).datagram == old(request).datagram
            &&& begun.0.connect == old(request).is_connect()
            &&& begun.0.head == old(request).is_head()
            &&& !begun.0.send.finished && !begun.0.recv.finished && !begun.0.uploading
            &&& !begun.0.responded && begun.0.remaining is None
            &&& checked matches Err(error) ==> {
                &&& begun.1 == Step::<X>::Reject(Error::nested(Kind::UserInvalidRequest, error))
                &&& begun.0.stage == Stage::Done
                &&& fields == kept
            }
            &&& checked matches Ok(declared) ==> {
                &&& old(request).protocol ==> {
                    &&& begun.1 is AwaitSettings
                    &&& begun.0.stage == Stage::Settings
                    &&& begun.0.length == declared
                    &&& fields == kept
                }
                &&& !old(request).protocol && begun.1 !is TooManyFields ==> {
                    &&& fields == framed_fields(*old(request), kept, declared, body)
                    &&& framing::<X>(old(request).is_connect(), declared, body) matches Ok(
                        length,
                    ) ==> {
                        &&& begun.1 is Enter
                        &&& begun.0.stage == Stage::Admission
                        &&& begun.0.length == length
                    }
                    &&& framing::<X>(old(request).is_connect(), declared, body) matches Err(
                        error,
                    ) ==> begun.1 == Step::<X>::Reject(error) && begun.0.stage == Stage::Done
                }
            }
            &&& begun.1 is TooManyFields ==> {
                &&& fields::field_values(old(request).headers).dom().len() > 6553
                &&& checked is Ok && !old(request).protocol
                &&& adds_length(*old(request), checked->Ok_0, body)
                &&& fields == kept
                &&& begun.0.stage == Stage::Done
            }
        }),
{
}

/// The length of a body is the declared one where one is declared. Otherwise a
/// CONNECT has none and any other request that of its body, where it knows one.
/// A body that is at its end fits only a length of zero or none.
pub proof fn law_declared_length_goes_first<X>(
    connect: bool,
    declared: Option<u64>,
    body: BodyInfo,
)
    ensures
        ({
            let length = framed_length(connect, declared, body);
            let framed = framing::<X>(connect, declared, body);
            &&& declared is Some ==> length == declared
            &&& declared is None && connect ==> length is None
            &&& declared is None && !connect ==> length == body.exact
            &&& framed is Err <==> body.end_stream && length is Some && length->0 > 0
            &&& framed matches Err(error) ==> error == Error::<X>::because(
                Kind::UserBody,
                Reason::BodyTooShort,
            )
            &&& framed matches Ok(read) ==> read == length
        }),
{
}

/// Framing adds at most a field for the length, and only where none is declared,
/// the request is no CONNECT, the body knows its size, and that is not zero or
/// the method gives meaning to content; the field then says the size. No other
/// field changes.
pub proof fn law_framing_adds_only_the_length(
    request: RequestHead,
    held: Map<Seq<char>, Seq<Seq<u8>>>,
    declared: Option<u64>,
    body: BodyInfo,
    name: Seq<char>,
)
    ensures
        ({
            let framed = framed_fields(request, held, declared, body);
            let token = fields::method_token(request.method);
            let meaning = token != "GET"@ && token != "HEAD"@ && token != "DELETE"@ && token
                != "OPTIONS"@ && token != "CONNECT"@;
            let due = declared is None && token != "CONNECT"@ && body.exact is Some && (
            body.exact->0 > 0 || meaning);
            &&& adds_length(request, declared, body) <==> due
            &&& name != "content-length"@ || held.contains_key(name) ==> {
                &&& framed.contains_key(name) <==> held.contains_key(name)
                &&& held.contains_key(name) ==> framed[name] == held[name]
            }
            &&& !held.contains_key("content-length"@) ==> {
                &&& framed.contains_key("content-length"@) <==> due
                &&& due ==> framed["content-length"@].len() == 1 && headers::declares_length(
                    framed["content-length"@],
                    body.exact->0,
                )
            }
        }),
{
    if !held.contains_key("content-length"@) && body.exact is Some {
        headers::law_added_length_is_declared(held, body.exact->0);
    }
}

/// What framing a request comes to is what the laws of framing speak of, and it
/// runs out of room only among very many fields.
pub proof fn law_framing_is_of_the_request<X>(
    request: &mut RequestHead,
    declared: Option<u64>,
    body: BodyInfo,
    framed: Result<Result<Option<u64>, Error<X>>, TooManyFields>,
)
    requires
        call_ensures(frame_request::<X>, (request, declared, body), framed),
    ensures
        framed matches Ok(length) ==> {
            &&& length == framing::<X>(old(request).is_connect(), declared, body)
            &&& fields::field_values(final(request).headers) == framed_fields(
                *old(request),
                fields::field_values(old(request).headers),
                declared,
                body,
            )
        },
        framed is Err ==> {
            &&& fields::field_values(old(request).headers).dom().len() > 6553
            &&& adds_length(*old(request), declared, body)
            &&& fields::field_values(final(request).headers) == fields::field_values(
                old(request).headers,
            )
        },
        final(request).method == old(request).method,
        final(request).authority == old(request).authority,
        final(request).scheme == old(request).scheme,
        final(request).protocol == old(request).protocol,
        final(request).datagram == old(request).datagram,
{
}

/// An Extended CONNECT that waited goes on exactly where the peer enabled it.
/// Where it did not, the request comes back: with the failure of the connection
/// once its admission is closed, and otherwise because the peer did not enable
/// it.
pub proof fn law_extended_connect_needs_the_peer<X>(
    exchange: &mut Exchange,
    shared: &Shared<X>,
    request: &mut RequestHead,
    body: BodyInfo,
    step: Step<X>,
    allowed: Result<(), Error<X>>,
)
    requires
        call_ensures(check_extended_connect::<X>, (shared,), allowed),
        call_ensures(Exchange::settled::<X>, (exchange, shared, request, body), step),
        old(exchange).stage == Stage::Settings,
    ensures
        allowed is Ok <==> shared@.peer_extended_connect == Some(true),
        ({
            let enabled = shared@.peer_extended_connect == Some(true);
            let framed = framing::<X>(old(request).is_connect(), old(exchange).length, body);
            let kept = fields::field_values(old(request).headers);
            let now = fields::field_values(final(request).headers);
            &&& !enabled && !shared@.admission_closed ==> step == Step::<X>::Reject(
                Error::because(Kind::UserInvalidRequest, Reason::PeerWithoutExtendedConnect),
            )
            &&& !enabled && shared@.admission_closed ==> step == Step::<X>::Reject(shared@.failure())
            &&& !enabled ==> final(exchange).stage == Stage::Done && now == kept
            &&& enabled && step !is TooManyFields ==> {
                &&& framed matches Ok(length) ==> step is Enter && final(exchange).stage
                    == Stage::Admission && final(exchange).length == length
                &&& framed matches Err(error) ==> step == Step::<X>::Reject(error)
                &&& framed is Err ==> final(exchange).stage == Stage::Done
                &&& now == framed_fields(*old(request), kept, old(exchange).length, body)
            }
            &&& step is TooManyFields ==> {
                &&& enabled
                &&& kept.dom().len() > 6553
                &&& adds_length(*old(request), old(exchange).length, body)
                &&& now == kept
                &&& final(exchange).stage == Stage::Done
            }
            &&& final(exchange).connect == old(exchange).connect
            &&& final(exchange).head == old(exchange).head
            &&& final(exchange).send == old(exchange).send
            &&& final(exchange).recv == old(exchange).recv
            &&& final(request).method == old(request).method
            &&& final(request).authority == old(request).authority
            &&& final(request).scheme == old(request).scheme
            &&& final(request).protocol == old(request).protocol
            &&& final(request).datagram == old(request).datagram
        }),
{
}

/// An admitted request is opened, and one that is refused admission comes back
/// with that error; nothing else of the exchange changes.
pub proof fn law_admission_opens_the_stream<X>(exchange: Exchange, entered: Result<(), Error<X>>)
    requires
        exchange.stage == Stage::Admission,
    ensures
        ({
            let (after, step) = exchange.next(Turn::Entered(entered));
            &&& entered is Ok ==> step is Open && after == (Exchange {
                stage: Stage::Opening,
                ..exchange
            })
            &&& entered matches Err(error) ==> step == Step::<X>::Reject(error) && after == (
            Exchange { stage: Stage::Done, ..exchange })
        }),
{
}

/// A stream that opened under a multiple of four carries the request: both halves
/// are new, with a Datagram route where the connection has them; a CONNECT waits
/// for its head, an empty body is finished, and any other is uploaded with its
/// length. Any other identifier, and a stream that did not open, fail the
/// exchange; for the latter an error that the connection published goes first.
pub proof fn law_opened_stream_carries_the_request<X>(
    exchange: Exchange,
    shared: State<X>,
    opened: Result<u64, X>,
    end_stream: bool,
)
    requires
        exchange.stage == Stage::Opening,
    ensures
        ({
            let (after, step) = exchange.next(Turn::Opened { shared, opened, end_stream });
            &&& opened matches Err(failure) ==> step == Step::<X>::Fail(
                shared.failure_or(Error::outside(Kind::Http3, failure)),
            ) && after.stage == Stage::Done
            &&& opened matches Ok(id) ==> {
                &&& id % 4 != 0 ==> step == Step::<X>::Fail(
                    Error::because(Kind::Http3, Reason::NotAClientStream),
                ) && after.stage == Stage::Done
                &&& id % 4 == 0 ==> {
                    &&& !after.send.finished && after.send.datagrams == shared.datagrams
                    &&& !after.recv.finished && after.recv.datagrams == shared.datagrams
                        && after.recv.code == Code::RequestCancelled
                    &&& exchange.connect ==> step is AwaitHead && after.stage == Stage::ConnectHead
                        && after.uploading == exchange.uploading
                    &&& !exchange.connect && end_stream ==> step is Finish && after.stage
                        == Stage::Finishing && after.uploading == exchange.uploading
                    &&& !exchange.connect && !end_stream ==> step == Step::<X>::Upload(
                        exchange.length,
                    ) && after.stage == Stage::Head && after.uploading
                }
            }
            &&& step is Fail ==> after == (Exchange { stage: Stage::Done, ..exchange })
            &&& after == (Exchange {
                stage: after.stage,
                send: after.send,
                recv: after.recv,
                uploading: after.uploading,
                ..exchange
            })
        }),
{
}

/// A CONNECT makes a tunnel where its head says success, and only there. Any
/// other head is delivered as a response: after an empty body is finished, or at
/// once with the body still to be sent. A failure to read it fails the exchange,
/// with an error that the connection published first.
pub proof fn law_only_a_successful_connect_tunnels<X>(
    exchange: Exchange,
    shared: State<X>,
    read: Result<ResponseHead, Error<X>>,
    end_stream: bool,
)
    requires
        exchange.stage == Stage::ConnectHead,
    ensures
        ({
            let (after, step) = exchange.next(Turn::ConnectHead { shared, read, end_stream });
            &&& read matches Err(error) ==> step == Step::<X>::Fail(shared.failure_or(error))
                && after == (Exchange { stage: Stage::Done, ..exchange })
            &&& read matches Ok(head) ==> {
                let success = 200 <= head.status <= 299;
                let length = client::response_length(exchange.head, head);
                &&& success <==> step is Tunnel
                &&& success ==> after == (Exchange { stage: Stage::Done, ..exchange })
                &&& !success && end_stream ==> step is Finish && after.stage == Stage::Finishing
                    && after.responded && after.uploading == exchange.uploading
                &&& !success && !end_stream && !exchange.send.finished ==> after.stage
                    == Stage::Done && after.uploading && match length {
                    Ok(remaining) => {
                        &&& step == Step::<X>::Deliver { remaining, sending: true }
                        &&& after.remaining == remaining
                        &&& after.recv == exchange.recv
                    },
                    Err(reason) => {
                        &&& step == Step::<X>::Fail(Error::because(Kind::Http3, reason))
                        &&& after.remaining == exchange.remaining
                        &&& after.recv == (RecvGuard { code: Code::MessageError, ..exchange.recv })
                    },
                }
                &&& !success && end_stream ==> after.recv == exchange.recv && after.remaining
                    == exchange.remaining
                &&& !success ==> after.responded && after == (Exchange {
                    stage: after.stage,
                    recv: after.recv,
                    responded: true,
                    uploading: after.uploading,
                    remaining: after.remaining,
                    ..exchange
                })
            }
        }),
{
}

/// A FIN of an empty body that was taken finishes its half, one that the peer
/// stopped leaves it unfinished, and either way the exchange goes on: to the
/// response head where that is not in yet, and with it where it is. Any other
/// failure fails the exchange.
pub proof fn law_finished_request_goes_on_to_its_response<X>(
    exchange: Exchange,
    shared: State<X>,
    sent: Result<(), StreamFailure<X>>,
    head: Option<ResponseHead>,
)
    requires
        exchange.stage == Stage::Finishing,
        exchange.responded <==> head is Some,
    ensures
        ({
            let (after, step) = exchange.next(Turn::Finished { shared, sent, head });
            let stopped = sent is Err && sent->Err_0 is RemoteTerminate;
            &&& sent matches Err(StreamFailure::Other(failure)) ==> step == Step::<X>::Fail(
                shared.failure_or(Error::outside(Kind::Http3, failure)),
            ) && after == (Exchange { stage: Stage::Done, ..exchange })
            &&& after == (Exchange {
                stage: after.stage,
                send: after.send,
                recv: after.recv,
                remaining: after.remaining,
                ..exchange
            })
            &&& after.recv == exchange.recv || after.recv == (RecvGuard {
                code: Code::MessageError,
                ..exchange.recv
            })
            &&& step !is Fail ==> after.recv == exchange.recv
            &&& step is Fail || head is None ==> after.remaining == exchange.remaining
            &&& sent is Ok || stopped ==> {
                &&& after.send.finished == (sent is Ok)
                &&& after.send.datagrams == exchange.send.datagrams
                &&& head is None ==> step is AwaitHead && after.stage == Stage::Head
                &&& head matches Some(head) ==> match client::response_length(
                    exchange.head,
                    head,
                ) {
                    Err(reason) => step == Step::<X>::Fail(Error::because(Kind::Http3, reason))
                        && after.stage == Stage::Done && after.recv.code == Code::MessageError,
                    Ok(remaining) => after.remaining == remaining && if sent is Ok {
                        step is CheckAcknowledgment && after.stage == Stage::Acknowledgment
                    } else {
                        step == (Step::<X>::Deliver { remaining, sending: exchange.uploading })
                            && after.stage == Stage::Done
                    },
                }
            }
        }),
{
}

/// A response head that came is delivered with the length of its content: at
/// once where the body is not finished, with whether it is still sent, and after
/// one look for the acknowledgment where it is. A length that cannot be read fails
/// the exchange and marks the receive half as malformed; a head that could not be
/// read fails it with an error that the connection published first.
pub proof fn law_response_is_delivered_with_its_length<X>(
    exchange: Exchange,
    shared: State<X>,
    read: Result<ResponseHead, Error<X>>,
)
    requires
        exchange.stage == Stage::Head,
    ensures
        ({
            let (after, step) = exchange.next(Turn::Head { shared, read });
            &&& read matches Err(error) ==> step == Step::<X>::Fail(shared.failure_or(error))
                && after == (Exchange { stage: Stage::Done, ..exchange })
            &&& read matches Ok(head) ==> match client::response_length(exchange.head, head) {
                Err(reason) => {
                    &&& step == Step::<X>::Fail(Error::because(Kind::Http3, reason))
                    &&& after == (Exchange {
                        stage: Stage::Done,
                        recv: RecvGuard { code: Code::MessageError, ..exchange.recv },
                        ..exchange
                    })
                },
                Ok(remaining) => {
                    &&& after == (Exchange { stage: after.stage, remaining, ..exchange })
                    &&& exchange.send.finished ==> step is CheckAcknowledgment && after.stage
                        == Stage::Acknowledgment
                    &&& !exchange.send.finished ==> step == (Step::<X>::Deliver {
                        remaining,
                        sending: exchange.uploading,
                    }) && after.stage == Stage::Done
                },
            }
        }),
{
}

/// A look for the acknowledgment that finds it delivers the response with nothing
/// left to send, one that does not yet delivers it with the FIN still on its way,
/// and one that fails fails the exchange.
pub proof fn law_late_acknowledgment_is_left_to_a_task<X>(
    exchange: Exchange,
    shared: State<X>,
    found: Poll<Result<(), X>>,
)
    requires
        exchange.stage == Stage::Acknowledgment,
    ensures
        ({
            let (after, step) = exchange.next(Turn::Acknowledged { shared, found });
            &&& after == (Exchange { stage: Stage::Done, ..exchange })
            &&& found is Pending ==> step == (Step::<X>::Deliver {
                remaining: exchange.remaining,
                sending: true,
            })
            &&& found is Ready && found->0 is Ok ==> step == (Step::<X>::Deliver {
                remaining: exchange.remaining,
                sending: false,
            })
            &&& found matches Poll::Ready(Err(failure)) ==> step == Step::<X>::Fail(
                shared.failure_or(Error::outside(Kind::Http3, failure)),
            )
        }),
{
}

/// An outcome that does not belong to the stage changes nothing and calls for
/// nothing.
pub proof fn law_outcomes_belong_to_their_stage<X>(exchange: Exchange, turn: Turn<X>)
    requires
        match turn {
            Turn::Settled { .. } => exchange.stage != Stage::Settings,
            Turn::Entered(_) => exchange.stage != Stage::Admission,
            Turn::Opened { .. } => exchange.stage != Stage::Opening,
            Turn::ConnectHead { .. } => exchange.stage != Stage::ConnectHead,
            Turn::Finished { head, .. } => exchange.stage != Stage::Finishing || exchange.responded
                != (head is Some),
            Turn::Head { .. } => exchange.stage != Stage::Head,
            Turn::Acknowledged { .. } => exchange.stage != Stage::Acknowledgment,
        },
    ensures
        exchange.next(turn).0 == exchange,
        exchange.next(turn).1 is Nothing,
{
}

/// A poll for the response head looks at the upload first, while there is one and
/// the head is waited for, then for an invalid Datagram, then for the response.
/// An upload that ended well is no longer polled; one that failed, and an invalid
/// Datagram, fail the wait.
pub proof fn law_head_is_polled_last<X>(exchange: Exchange, event: WatchEvent<X>)
    ensures
        ({
            let (after, step) = exchange.watched(event);
            let ended = event is Upload && event->Upload_0 is Ready && event->Upload_0->0 is Ok;
            &&& after == (Exchange { uploading: exchange.uploading && !ended, ..exchange })
            &&& event is Start && exchange.uploading && exchange.stage == Stage::Head
                ==> step is PollUpload
            &&& event is Start && !(exchange.uploading && exchange.stage == Stage::Head)
                ==> step is PollDatagram
            &&& event is Upload && event->Upload_0 is Pending || ended ==> step is PollDatagram
            &&& event matches WatchEvent::Upload(Poll::Ready(Err(error))) ==> step
                == WatchStep::<X>::Failed(error)
            &&& event matches WatchEvent::Datagram { invalid } ==> if invalid {
                step == WatchStep::<X>::Failed(
                    Error::because(Kind::Http3, Reason::InvalidDatagram),
                )
            } else {
                step is PollResponse
            }
            &&& event matches WatchEvent::Response { ready } ==> if ready {
                step is Responded
            } else {
                step is Pend
            }
        }),
{
}

/// What is said above of an outcome is what the exchange does when it takes it:
/// each function that takes one hands on what it was given, with the state of the
/// connection, and nothing else.
pub proof fn law_outcomes_are_taken_as_they_are<X>(
    exchange: &mut Exchange,
    shared: &Shared<X>,
    turn: Turn<X>,
    event: WatchEvent<X>,
    step: Step<X>,
    watched: WatchStep<X>,
    watching: bool,
)
    requires
        watching ==> call_ensures(Exchange::watch::<X>, (exchange, event), watched),
        !watching ==> match turn {
            Turn::Settled { .. } => false,
            Turn::Entered(entered) => call_ensures(
                Exchange::entered::<X>,
                (exchange, entered),
                step,
            ),
            Turn::Opened { shared: state, opened, end_stream } => state == shared@ && call_ensures(
                Exchange::opened::<X>,
                (exchange, shared, opened, end_stream),
                step,
            ),
            Turn::ConnectHead { shared: state, read: Ok(head), end_stream } => state == shared@
                && call_ensures(
                Exchange::connect_head::<X>,
                (exchange, shared, Ok(&head), end_stream),
                step,
            ),
            Turn::ConnectHead { shared: state, read: Err(error), end_stream } => state == shared@
                && call_ensures(
                Exchange::connect_head::<X>,
                (exchange, shared, Err(error), end_stream),
                step,
            ),
            Turn::Finished { shared: state, sent, head: Some(head) } => state == shared@
                && exists|close_route: bool|
                #[trigger] call_ensures(
                    Exchange::finished::<X>,
                    (exchange, shared, sent, Some(&head)),
                    (step, close_route),
                ),
            Turn::Finished { shared: state, sent, head: None } => state == shared@
                && exists|close_route: bool|
                #[trigger] call_ensures(
                    Exchange::finished::<X>,
                    (exchange, shared, sent, None),
                    (step, close_route),
                ),
            Turn::Head { shared: state, read: Ok(head) } => state == shared@ && call_ensures(
                Exchange::responded::<X>,
                (exchange, shared, Ok(&head)),
                step,
            ),
            Turn::Head { shared: state, read: Err(error) } => state == shared@ && call_ensures(
                Exchange::responded::<X>,
                (exchange, shared, Err(error)),
                step,
            ),
            Turn::Acknowledged { shared: state, found } => state == shared@ && call_ensures(
                Exchange::acknowledged::<X>,
                (exchange, shared, found),
                step,
            ),
        },
    ensures
        watching ==> (*final(exchange), watched) == old(exchange).watched(event),
        !watching ==> (*final(exchange), step) == old(exchange).next(turn),
{
}

/// The Datagram route of an empty body is closed for sending where the exchange
/// waits for its FIN, that was taken and there is a route.
pub proof fn law_taken_fin_closes_the_route<X>(
    exchange: &mut Exchange,
    shared: &Shared<X>,
    sent: Result<(), StreamFailure<X>>,
    head: Option<&ResponseHead>,
    step: (Step<X>, bool),
)
    requires
        call_ensures(Exchange::finished::<X>, (exchange, shared, sent, head), step),
    ensures
        step.1 <==> old(exchange).stage == Stage::Finishing && old(exchange).responded == (
        head is Some) && sent is Ok && old(exchange).send.datagrams,
{
}

} // verus!
