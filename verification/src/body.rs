//! HTTP/3 response bodies, and what links a body with the sending that
//! outlived its response head.

use bytes::Bytes;
use vstd::prelude::*;

use crate::buf;
use crate::client::{self, RecvDrop, RecvGuard};
use crate::error::{Code, Error, Kind, Poll, Reason};
use crate::shared::{self, Active, Move, Shared, State, Wakes};

verus! {

/// Response body handed to the application. Dropping it stops receiving
/// without canceling sending that is still pending.
#[derive(Clone, Copy, PartialEq, Eq, Debug)]
pub struct RecvBody {
    /// Declared length still expected.
    pub remaining: Option<u64>,
    pub data_done: bool,
    /// A terminal frame was returned: the stream and any error are gone.
    pub ended: bool,
}

/// Links a body with sending that outlived the response head, so that either
/// side can stop the exchange at once.
#[derive(Debug)]
pub struct Link<X> {
    /// The receive half, until the stream is read to FIN, canceled or abandoned
    /// by the application.
    pub recv: Option<RecvGuard>,
    /// Released once the response is finished and sending is complete.
    pub active: Option<Active>,
    /// The request is registered for Datagrams.
    pub registration: bool,
    /// Sending the body or the wait for its acknowledgment still goes on.
    pub pipe_pending: bool,
    /// A failure that the body has yet to report.
    pub error: Option<Error<X>>,
    /// The response failed; the sending side resets its direction.
    pub abort: bool,
}

/// What has to be done after a change of the link.
#[derive(Clone, Copy, PartialEq, Eq, Structural, Debug)]
pub struct Effects {
    /// What giving up the receive half calls for, where it was given up.
    pub recv: Option<RecvDrop>,
    /// The registration for Datagrams ends.
    pub unregister: bool,
    /// Who has to be woken for the permit that came back.
    pub wakes: Wakes,
    /// The sending side has to be woken.
    pub wake_pipe: bool,
    /// The reader of the body has to be woken.
    pub wake_body: bool,
}

/// What a poll of the body comes to.
#[derive(Debug)]
pub enum Read<D, T, X> {
    /// Poll the stream for data.
    PollData,
    /// Poll the stream for trailers.
    PollTrailers,
    /// Wait until polled again.
    Pend,
    /// Hand out this data.
    Data(D),
    /// Hand out these trailers.
    Trailers(T),
    /// Report the failure.
    Failed(Error<X>),
    /// The body is over.
    End,
    /// Nothing: the outcome does not belong to the state of the body.
    Nothing,
}

impl<T, X> View for Read<Bytes, T, X> {
    type V = Read<Seq<u8>, T, X>;

    open spec fn view(&self) -> Read<Seq<u8>, T, X> {
        match *self {
            Read::PollData => Read::PollData,
            Read::PollTrailers => Read::PollTrailers,
            Read::Pend => Read::Pend,
            Read::Data(data) => Read::Data(buf::content(data)),
            Read::Trailers(trailers) => Read::Trailers(trailers),
            Read::Failed(error) => Read::Failed(error),
            Read::End => Read::End,
            Read::Nothing => Read::Nothing,
        }
    }
}

/// What came of a poll of the stream for data, with the bytes of a piece.
pub open spec fn piece_read<X>(read: Poll<Result<Option<Bytes>, X>>) -> Poll<
    Result<Option<Seq<u8>>, X>,
> {
    match read {
        Poll::Pending => Poll::Pending,
        Poll::Ready(Ok(Some(data))) => Poll::Ready(Ok(Some(buf::content(data)))),
        Poll::Ready(Ok(None)) => Poll::Ready(Ok(None)),
        Poll::Ready(Err(failure)) => Poll::Ready(Err(failure)),
    }
}

/// A link and the state of the connection, as the contracts speak of them.
pub struct Held<X> {
    pub link: Link<X>,
    pub shared: State<X>,
}

/// A body together with its link and the state of the connection.
pub struct Receiving<X> {
    pub body: RecvBody,
    pub held: Held<X>,
}

/// What can happen to a body and its link.
pub enum Event<T, X> {
    /// The application polls the body.
    Poll,
    /// The stream was polled for data; there came a piece of it, or its end.
    Data { data: Poll<Result<Option<Seq<u8>>, X>>, invalid: bool },
    /// The stream was polled for trailers, which came or not before its end.
    Trailers { trailers: Poll<Result<Option<T>, X>>, invalid: bool },
    /// The application drops the body.
    DropBody { invalid: bool },
    /// The sending side is done, or failed.
    DropPipe { failure: Option<Error<X>>, invalid: bool },
    /// A failure from elsewhere stops the response.
    Cancel { error: Error<X>, invalid: bool },
}

/// Nothing has to be done.
pub open spec fn no_effects() -> Effects {
    Effects {
        recv: None,
        unregister: false,
        wakes: Wakes { driver: false, waiting: false, datagrams: false },
        wake_pipe: false,
        wake_body: false,
    }
}

impl RecvBody {
    /// The exact size of what is still to come, where it is known.
    pub open spec fn exact_size(self) -> Option<u64> {
        if self.ended {
            Some(0)
        } else {
            self.remaining
        }
    }
}

impl<X> Link<X> {
    /// The exchange is held exactly while the response is not finished or
    /// sending is not complete, and it was admitted. A failure is left to
    /// report only where the receive half is gone.
    pub open spec fn wf(self) -> bool {
        &&& self.active is Some <==> self.recv is Some || self.pipe_pending
        &&& self.active is Some ==> (self.active->0)@.permit
        &&& self.error is Some ==> self.recv is None
    }
}

impl<X> Held<X> {
    /// The link is well-formed and the connection counts the exchange that it
    /// holds.
    pub open spec fn wf(self) -> bool {
        &&& self.link.wf()
        &&& self.is_counted()
    }

    /// The connection counts the exchange that the link holds.
    pub open spec fn is_counted(self) -> bool {
        &&& self.shared.wf()
        &&& self.link.active is Some ==> self.shared.counts((self.link.active->0)@)
    }

    /// The exchange is released if the response is done and sending complete.
    pub open spec fn releasing(self, effects: Effects) -> (Self, Effects) {
        if self.link.recv is None && !self.link.pipe_pending {
            (
                Held {
                    link: Link { registration: false, active: None, ..self.link },
                    shared: match self.link.active {
                        Some(active) => self.shared.released(active@),
                        None => self.shared,
                    },
                },
                Effects {
                    unregister: self.link.registration,
                    wakes: match self.link.active {
                        Some(active) => self.shared.release_wakes(active@),
                        None => effects.wakes,
                    },
                    ..effects
                },
            )
        } else {
            (self, effects)
        }
    }

    /// The receive half is given up, and the exchange released if that was the
    /// last of it.
    pub open spec fn abandoning(self, invalid: bool) -> (Self, Effects) {
        match self.link.recv {
            Some(recv) => (Held { link: Link { recv: None, ..self.link }, ..self }).releasing(
                Effects { recv: Some(recv.dropped(invalid)), ..no_effects() },
            ),
            None => (self, no_effects()),
        }
    }

    /// The failure stops the response where it still goes on, and is kept for
    /// the body to report; a published error of the connection is preferred.
    pub open spec fn canceling(self, failure: Error<X>, invalid: bool) -> (Self, Effects) {
        if self.link.recv is Some {
            let (over, effects) = self.abandoning(invalid);
            (
                Held {
                    link: Link { error: Some(self.shared.failure_or(failure)), ..over.link },
                    ..over
                },
                Effects { wake_body: true, ..effects },
            )
        } else {
            (self, Effects { wake_body: true, ..no_effects() })
        }
    }

    /// The sending side is done: a failure of it stops the response where it
    /// still goes on; otherwise the exchange is released if the response is
    /// done too.
    pub open spec fn ending_pipe(self, failure: Option<Error<X>>, invalid: bool) -> (
        Self,
        Effects,
    ) {
        let done = Held { link: Link { pipe_pending: false, ..self.link }, ..self };
        match failure {
            None => done.releasing(no_effects()),
            Some(failure) => if self.link.recv is Some {
                done.canceling(failure, invalid)
            } else {
                done.releasing(Effects { wake_body: true, ..no_effects() })
            },
        }
    }
}

impl<X> Receiving<X> {
    /// The body is over once there is neither a stream nor a failure left.
    pub open spec fn settled(body: RecvBody, held: Held<X>) -> Self {
        Receiving {
            body: RecvBody { ended: held.link.recv is None && held.link.error is None, ..body },
            held,
        }
    }

    /// The body reports a failure, for which a published error of the
    /// connection is preferred, gives up the stream with this code, and aborts
    /// the sending.
    pub open spec fn failing<T>(self, failure: Error<X>, code: Code, invalid: bool) -> (
        Self,
        Read<Seq<u8>, T, X>,
        Effects,
    ) {
        let coded = Held {
            link: Link {
                recv: Some(RecvGuard { code, ..self.held.link.recv->0 }),
                abort: true,
                ..self.held.link
            },
            ..self.held
        };
        let (over, effects) = coded.abandoning(invalid);
        (
            Receiving::settled(self.body, over),
            Read::Failed(self.held.shared.failure_or(failure)),
            Effects { wake_pipe: true, ..effects },
        )
    }

    /// The stream is read to its end, with trailers or without.
    pub open spec fn finishing<T>(self, trailers: Option<T>) -> (Self, Read<Seq<u8>, T, X>, Effects) {
        let (over, effects) = (Held {
            link: Link { recv: None, ..self.held.link },
            ..self.held
        }).releasing(
            Effects {
                recv: Some(
                    RecvDrop {
                        close_route: (self.held.link.recv->0).datagrams,
                        stop_sending: None,
                    },
                ),
                ..no_effects()
            },
        );
        (
            Receiving::settled(self.body, over),
            match trailers {
                Some(trailers) => Read::Trailers(trailers),
                None => Read::End,
            },
            effects,
        )
    }

    /// The body after a poll of the stream for data.
    pub open spec fn reading_data<T>(self, read: Poll<Result<Option<Seq<u8>>, X>>, invalid: bool) -> (
        Self,
        Read<Seq<u8>, T, X>,
        Effects,
    ) {
        if self.held.link.recv is None || self.body.data_done || self.body.ended {
            (self, Read::Nothing, no_effects())
        } else {
            match read {
                Poll::Pending => (self, Read::Pend, no_effects()),
                Poll::Ready(Err(failure)) => self.failing(
                    Error::outside(Kind::Http3, failure),
                    (self.held.link.recv->0).code,
                    invalid,
                ),
                Poll::Ready(Ok(Some(piece))) => match client::length_left(
                    self.body.remaining,
                    piece.len(),
                ) {
                    Err(reason) => self.failing(
                        Error::because(Kind::Http3, reason),
                        Code::MessageError,
                        invalid,
                    ),
                    Ok(remaining) => (
                        Receiving { body: RecvBody { remaining, ..self.body }, ..self },
                        Read::Data(piece),
                        no_effects(),
                    ),
                },
                Poll::Ready(Ok(None)) => if self.body.remaining is Some && self.body.remaining->0
                    != 0 {
                    self.failing(
                        Error::because(Kind::Body, Reason::ResponseTooShort),
                        Code::MessageError,
                        invalid,
                    )
                } else {
                    (
                        Receiving { body: RecvBody { data_done: true, ..self.body }, ..self },
                        Read::PollTrailers,
                        no_effects(),
                    )
                },
            }
        }
    }

    /// The body after a poll of the stream for trailers.
    pub open spec fn reading_trailers<T>(self, read: Poll<Result<Option<T>, X>>, invalid: bool) -> (
        Self,
        Read<Seq<u8>, T, X>,
        Effects,
    ) {
        if self.held.link.recv is None || !self.body.data_done || self.body.ended {
            (self, Read::Nothing, no_effects())
        } else {
            match read {
                Poll::Pending => (self, Read::Pend, no_effects()),
                Poll::Ready(Err(failure)) => self.failing(
                    Error::outside(Kind::Http3, failure),
                    (self.held.link.recv->0).code,
                    invalid,
                ),
                Poll::Ready(Ok(trailers)) => self.finishing(trailers),
            }
        }
    }

    /// What becomes of the body, its link and the connection, what the poll of
    /// the body comes to, and what has to be done.
    pub open spec fn after<T>(self, event: Event<T, X>) -> (Self, Read<Seq<u8>, T, X>, Effects) {
        match event {
            Event::Poll => {
                let (body, link, read, effects) = polling(self.body, self.held.link);
                (Receiving { body, held: Held { link, ..self.held } }, read, effects)
            },
            Event::Data { data, invalid } => self.reading_data(data, invalid),
            Event::Trailers { trailers, invalid } => self.reading_trailers(trailers, invalid),
            Event::DropBody { invalid } => {
                let (held, effects) = self.held.abandoning(invalid);
                (Receiving { held, ..self }, Read::Nothing, effects)
            },
            Event::DropPipe { failure, invalid } => {
                let (held, effects) = self.held.ending_pipe(failure, invalid);
                (Receiving { held, ..self }, Read::Nothing, effects)
            },
            Event::Cancel { error, invalid } => {
                let (held, effects) = self.held.canceling(error, invalid);
                (Receiving { held, ..self }, Read::Nothing, effects)
            },
        }
    }
}

/// What the beginning of a poll of the body comes to.
pub open spec fn polling<T, X>(body: RecvBody, link: Link<X>) -> (
    RecvBody,
    Link<X>,
    Read<Seq<u8>, T, X>,
    Effects,
) {
    if body.ended {
        (body, link, Read::End, no_effects())
    } else if link.recv is Some {
        (
            body,
            link,
            if body.data_done {
                Read::PollTrailers
            } else {
                Read::PollData
            },
            no_effects(),
        )
    } else {
        match link.error {
            Some(error) => (
                RecvBody { ended: true, ..body },
                Link { error: None, abort: true, ..link },
                Read::Failed(error),
                Effects { wake_pipe: true, ..no_effects() },
            ),
            None => (RecvBody { ended: true, ..body }, link, Read::End, no_effects()),
        }
    }
}

/// Nothing has to be done.
fn nothing() -> (effects: Effects)
    ensures
        effects == no_effects(),
{
    Effects {
        recv: None,
        unregister: false,
        wakes: Wakes { driver: false, waiting: false, datagrams: false },
        wake_pipe: false,
        wake_body: false,
    }
}

impl RecvBody {
    /// Takes the receive half once the head is delivered. `remaining` is the
    /// declared length still expected, `pipe_pending` whether sending or its
    /// acknowledgment is still on its way.
    pub fn new<X>(
        recv: RecvGuard,
        remaining: Option<u64>,
        active: Active,
        registration: bool,
        pipe_pending: bool,
    ) -> (made: (RecvBody, Link<X>))
        requires
            active@.permit,
        ensures
            made.0 == (RecvBody { remaining, data_done: false, ended: false }),
            made.1 == (Link::<X> {
                recv: Some(recv),
                active: Some(active),
                registration,
                pipe_pending,
                error: None,
                abort: false,
            }),
            made.1.wf(),
    {
        (
            RecvBody { remaining, data_done: false, ended: false },
            Link {
                recv: Some(recv),
                active: Some(active),
                registration,
                pipe_pending,
                error: None,
                abort: false,
            },
        )
    }

    /// Whether the body has nothing more to give.
    pub fn is_end_stream(&self) -> (ended: bool)
        ensures
            ended == self.ended,
    {
        self.ended
    }

    /// The exact size of what is still to come, where it is known.
    pub fn size_hint(&self) -> (size: Option<u64>)
        ensures
            size == self.exact_size(),
    {
        if self.ended {
            Some(0)
        } else {
            self.remaining
        }
    }

    fn settle<X>(&mut self, link: &Link<X>)
        ensures
            *final(self) == (RecvBody {
                ended: link.recv is None && link.error is None,
                ..*old(self)
            }),
    {
        self.ended = link.recv.is_none() && link.error.is_none();
    }

    fn fail<T, X>(
        &mut self,
        link: &mut Link<X>,
        shared: &mut Shared<X>,
        failure: Error<X>,
        code: Code,
        invalid: bool,
    ) -> (read: (Read<Bytes, T, X>, Effects))
        requires
            (Held { link: *old(link), shared: old(shared)@ }).wf(),
            old(link).recv is Some,
        ensures
            (
                Receiving {
                    body: *final(self),
                    held: Held { link: *final(link), shared: final(shared)@ },
                },
                read.0@,
                read.1,
            ) == (Receiving {
                body: *old(self),
                held: Held { link: *old(link), shared: old(shared)@ },
            }).failing::<T>(failure, code, invalid),
    {
        if let Some(recv) = link.recv {
            link.recv = Some(RecvGuard { datagrams: recv.datagrams, finished: recv.finished, code });
        }
        let error = shared.error_or(failure);
        let effects = link.abandon(shared, invalid);
        self.settle(link);
        link.abort = true;
        (
            Read::Failed(error),
            Effects {
                recv: effects.recv,
                unregister: effects.unregister,
                wakes: effects.wakes,
                wake_pipe: true,
                wake_body: effects.wake_body,
            },
        )
    }

    /// Begins a poll of the body. A failure that it reports aborts the
    /// exchange: the sending side resets its direction on its next poll.
    pub fn poll_frame<T, X>(&mut self, link: &mut Link<X>) -> (read: (Read<Bytes, T, X>, Effects))
        requires
            old(link).wf(),
        ensures
            (*final(self), *final(link), read.0@, read.1) == polling::<T, X>(*old(self), *old(link)),
    {
        if self.ended {
            return (Read::End, nothing());
        }
        if link.recv.is_none() {
            let read = match link.error.take() {
                Some(error) => {
                    link.abort = true;
                    let mut effects = nothing();
                    effects.wake_pipe = true;
                    (Read::Failed(error), effects)
                },
                None => (Read::End, nothing()),
            };
            self.settle(link);
            return read;
        }
        if self.data_done {
            (Read::PollTrailers, nothing())
        } else {
            (Read::PollData, nothing())
        }
    }

    /// Goes on with a poll once the stream was polled for data. More than the
    /// declared length, or less of it at the end, is a malformed message.
    pub fn read_data<T, X>(
        &mut self,
        link: &mut Link<X>,
        shared: &mut Shared<X>,
        read: Poll<Result<Option<Bytes>, X>>,
        invalid: bool,
    ) -> (next: (Read<Bytes, T, X>, Effects))
        requires
            (Held { link: *old(link), shared: old(shared)@ }).wf(),
        ensures
            (
                Receiving {
                    body: *final(self),
                    held: Held { link: *final(link), shared: final(shared)@ },
                },
                next.0@,
                next.1,
            ) == (Receiving {
                body: *old(self),
                held: Held { link: *old(link), shared: old(shared)@ },
            }).reading_data::<T>(piece_read(read), invalid),
    {
        let recv = match link.recv {
            Some(recv) => recv,
            None => return (Read::Nothing, nothing()),
        };
        if self.data_done || self.ended {
            return (Read::Nothing, nothing());
        }
        match read {
            Poll::Pending => (Read::Pend, nothing()),
            Poll::Ready(Err(failure)) => {
                let failure = Error::new_outside(Kind::Http3, failure);
                self.fail(link, shared, failure, recv.code, invalid)
            },
            Poll::Ready(Ok(Some(piece))) => match client::consume_length(
                &mut self.remaining,
                buf::length(&piece),
            ) {
                Ok(_) => (Read::Data(piece), nothing()),
                Err(reason) => {
                    let failure = Error::new_reason(Kind::Http3, reason);
                    self.fail(link, shared, failure, Code::MessageError, invalid)
                },
            },
            Poll::Ready(Ok(None)) => {
                let short = match self.remaining {
                    Some(n) => n != 0,
                    None => false,
                };
                if short {
                    let failure = Error::new_reason(Kind::Body, Reason::ResponseTooShort);
                    self.fail(link, shared, failure, Code::MessageError, invalid)
                } else {
                    self.data_done = true;
                    (Read::PollTrailers, nothing())
                }
            },
        }
    }

    /// Goes on with a poll once the stream was polled for trailers, which end
    /// it.
    pub fn read_trailers<T, X>(
        &mut self,
        link: &mut Link<X>,
        shared: &mut Shared<X>,
        read: Poll<Result<Option<T>, X>>,
        invalid: bool,
    ) -> (next: (Read<Bytes, T, X>, Effects))
        requires
            (Held { link: *old(link), shared: old(shared)@ }).wf(),
        ensures
            (
                Receiving {
                    body: *final(self),
                    held: Held { link: *final(link), shared: final(shared)@ },
                },
                next.0@,
                next.1,
            ) == (Receiving {
                body: *old(self),
                held: Held { link: *old(link), shared: old(shared)@ },
            }).reading_trailers(read, invalid),
    {
        let recv = match link.recv {
            Some(recv) => recv,
            None => return (Read::Nothing, nothing()),
        };
        if !self.data_done || self.ended {
            return (Read::Nothing, nothing());
        }
        match read {
            Poll::Pending => (Read::Pend, nothing()),
            Poll::Ready(Err(failure)) => {
                let failure = Error::new_outside(Kind::Http3, failure);
                self.fail(link, shared, failure, recv.code, invalid)
            },
            Poll::Ready(Ok(trailers)) => {
                link.recv = None;
                let mut effects = nothing();
                effects.recv = Some(
                    RecvDrop { close_route: recv.datagrams, stop_sending: None },
                );
                link.release(shared, &mut effects);
                self.settle(link);
                (
                    match trailers {
                        Some(trailers) => Read::Trailers(trailers),
                        None => Read::End,
                    },
                    effects,
                )
            },
        }
    }

    /// Drops the body, which stops receiving and leaves sending as it is.
    pub fn abandon<X>(
        self,
        link: &mut Link<X>,
        shared: &mut Shared<X>,
        invalid: bool,
    ) -> (effects: Effects)
        requires
            (Held { link: *old(link), shared: old(shared)@ }).wf(),
        ensures
            (Held { link: *final(link), shared: final(shared)@ }, effects) == (Held {
                link: *old(link),
                shared: old(shared)@,
            }).abandoning(invalid),
    {
        link.abandon(shared, invalid)
    }
}

impl<X> Link<X> {
    /// Returns the permit once the response is done and sending is complete.
    fn release(&mut self, shared: &mut Shared<X>, effects: &mut Effects)
        requires
            (Held { link: *old(self), shared: old(shared)@ }).is_counted(),
        ensures
            (Held { link: *final(self), shared: final(shared)@ }, *final(effects)) == (Held {
                link: *old(self),
                shared: old(shared)@,
            }).releasing(*old(effects)),
            final(shared)@.wf(),
    {
        if self.recv.is_none() && !self.pipe_pending {
            effects.unregister = self.registration;
            self.registration = false;
            if let Some(active) = self.active.take() {
                effects.wakes = shared.release(active);
            }
        }
    }

    /// Gives up the receive half.
    fn abandon(&mut self, shared: &mut Shared<X>, invalid: bool) -> (effects: Effects)
        requires
            (Held { link: *old(self), shared: old(shared)@ }).is_counted(),
        ensures
            (Held { link: *final(self), shared: final(shared)@ }, effects) == (Held {
                link: *old(self),
                shared: old(shared)@,
            }).abandoning(invalid),
            final(shared)@.wf(),
    {
        let mut effects = nothing();
        if let Some(recv) = self.recv {
            self.recv = None;
            effects.recv = Some(recv.abandon(invalid));
            self.release(shared, &mut effects);
        }
        effects
    }

    /// Stops receiving and leaves the failure for the body to report.
    pub fn cancel(&mut self, shared: &mut Shared<X>, failure: Error<X>, invalid: bool) -> (effects:
        Effects)
        requires
            (Held { link: *old(self), shared: old(shared)@ }).is_counted(),
        ensures
            (Held { link: *final(self), shared: final(shared)@ }, effects) == (Held {
                link: *old(self),
                shared: old(shared)@,
            }).canceling(failure, invalid),
    {
        let mut effects = nothing();
        if self.recv.is_some() {
            let error = shared.error_or(failure);
            effects = self.abandon(shared, invalid);
            self.error = Some(error);
        }
        effects.wake_body = true;
        effects
    }

    /// Stops a body for which an invalid Datagram came, before or after it
    /// could be told of one.
    pub fn invalidate(&mut self, shared: &mut Shared<X>) -> (effects: Effects)
        requires
            (Held { link: *old(self), shared: old(shared)@ }).is_counted(),
        ensures
            (Held { link: *final(self), shared: final(shared)@ }, effects) == (Held {
                link: *old(self),
                shared: old(shared)@,
            }).canceling(Error::because(Kind::Http3, Reason::InvalidDatagram), true),
    {
        self.cancel(shared, client::invalid_datagram_error(), true)
    }

    /// The sending side is done, or failed.
    fn end_pipe(
        &mut self,
        shared: &mut Shared<X>,
        failure: Option<Error<X>>,
        invalid: bool,
    ) -> (effects: Effects)
        requires
            (Held { link: *old(self), shared: old(shared)@ }).is_counted(),
        ensures
            (Held { link: *final(self), shared: final(shared)@ }, effects) == (Held {
                link: *old(self),
                shared: old(shared)@,
            }).ending_pipe(failure, invalid),
    {
        let receiving = self.recv.is_some();
        let mut effects = nothing();
        self.pipe_pending = false;
        self.release(shared, &mut effects);
        if let Some(failure) = failure {
            let more = self.cancel(shared, failure, invalid);
            if receiving {
                effects = more;
            } else {
                effects.wake_body = true;
            }
        }
        effects
    }
}

/// The sending side's part in the link. Dropping it records completion, so that
/// a task which is discarded still returns the permit once the response is
/// done.
#[derive(Debug)]
pub struct PipeGuard<X> {
    pub error: Option<Error<X>>,
}

impl<X> PipeGuard<X> {
    /// The guard of a sending side that has not failed.
    pub fn new() -> (guard: Self)
        ensures
            guard == (PipeGuard::<X> { error: None }),
    {
        PipeGuard { error: None }
    }

    /// Whether the exchange still goes on; it does not once a failure of the
    /// response has aborted it, so that the send direction is to be reset.
    pub fn watch(&self, link: &Link<X>) -> (going_on: bool)
        ensures
            going_on == !link.abort,
    {
        !link.abort
    }

    /// Records a failure to send, which cancels a response that the application
    /// still holds.
    pub fn fail(&mut self, error: Error<X>)
        ensures
            *final(self) == (PipeGuard { error: Some(error) }),
    {
        self.error = Some(error);
    }

    /// Drops the guard: the sending side is done, or failed.
    pub fn abandon(self, link: &mut Link<X>, shared: &mut Shared<X>, invalid: bool) -> (effects:
        Effects)
        requires
            (Held { link: *old(link), shared: old(shared)@ }).is_counted(),
        ensures
            (Held { link: *final(link), shared: final(shared)@ }, effects) == (Held {
                link: *old(link),
                shared: old(shared)@,
            }).ending_pipe(self.error, invalid),
    {
        link.end_pipe(shared, self.error, invalid)
    }
}

impl<X> Receiving<X> {
    /// A body that has just been made.
    pub open spec fn begun(declared: Option<u64>, held: Held<X>) -> Self {
        Receiving {
            body: RecvBody { remaining: declared, data_done: false, ended: false },
            held,
        }
    }

    /// The link is well-formed, and a body that is over has neither a stream
    /// nor a failure left.
    pub open spec fn wf(self) -> bool {
        &&& self.held.is_counted()
        &&& self.is_sound()
    }

    /// What holds of the body and its link, whatever the connection does.
    pub open spec fn is_sound(self) -> bool {
        &&& self.held.link.wf()
        &&& self.body.ended ==> self.held.link.recv is None && self.held.link.error is None
    }

    /// The body and its link where the connection is found in this state, which
    /// the driver and other exchanges may have changed.
    pub open spec fn found(self, shared: State<X>) -> Self {
        Receiving { held: Held { shared, ..self.held }, ..self }
    }
}

/// An event, and the state in which it finds the connection.
pub struct Turn<T, X> {
    pub shared: State<X>,
    pub event: Event<T, X>,
}

/// A body after turns, one after the other.
pub open spec fn body_after<T, X>(begun: Receiving<X>, turns: Seq<Turn<T, X>>) -> Receiving<X>
    decreases turns.len(),
{
    if turns.len() == 0 {
        begun
    } else {
        body_before(begun, turns).after(turns.last().event).0
    }
}

/// A body as the last of these turns finds it.
pub open spec fn body_before<T, X>(begun: Receiving<X>, turns: Seq<Turn<T, X>>) -> Receiving<X>
    decreases turns.len(), 0int,
    when turns.len() > 0
{
    body_after(begun, turns.drop_last()).found(turns.last().shared)
}

/// What the last of these turns comes to.
pub open spec fn body_read<T, X>(begun: Receiving<X>, turns: Seq<Turn<T, X>>) -> Read<
    Seq<u8>,
    T,
    X,
> {
    body_before(begun, turns).after(turns.last().event).1
}

/// What the body hands out on an event.
pub open spec fn piece<T, X>(receiving: Receiving<X>, event: Event<T, X>) -> Seq<u8> {
    match receiving.after(event).1 {
        Read::Data(data) => data,
        _ => Seq::empty(),
    }
}

/// What the body has handed out, joined.
pub open spec fn delivered<T, X>(begun: Receiving<X>, turns: Seq<Turn<T, X>>) -> Seq<u8>
    decreases turns.len(),
{
    if turns.len() == 0 {
        Seq::empty()
    } else {
        delivered(begun, turns.drop_last()) + piece(
            body_before(begun, turns),
            turns.last().event,
        )
    }
}

/// What the stream gave on an event, where the body takes it: it still reads
/// data, and there is no more of it than declared.
pub open spec fn arrival<T, X>(receiving: Receiving<X>, event: Event<T, X>) -> Seq<u8> {
    match event {
        Event::Data { data: Poll::Ready(Ok(Some(data))), .. } => if receiving.held.link.recv is Some
            && !receiving.body.data_done && !receiving.body.ended && client::length_left(
            receiving.body.remaining,
            data.len(),
        ) is Ok {
            data
        } else {
            Seq::empty()
        },
        _ => Seq::empty(),
    }
}

/// What the stream gave and the body took, joined.
pub open spec fn arrived<T, X>(begun: Receiving<X>, turns: Seq<Turn<T, X>>) -> Seq<u8>
    decreases turns.len(),
{
    if turns.len() == 0 {
        Seq::empty()
    } else {
        arrived(begun, turns.drop_last()) + arrival(
            body_before(begun, turns),
            turns.last().event,
        )
    }
}

/// Whether the body has reported a failure.
pub open spec fn has_failed<T, X>(begun: Receiving<X>, turns: Seq<Turn<T, X>>) -> bool
    decreases turns.len(),
{
    turns.len() > 0 && (has_failed(begun, turns.drop_last()) || body_read(begun, turns) is Failed)
}

/// Whether the application still has the body.
pub open spec fn is_kept<T, X>(turns: Seq<Turn<T, X>>) -> bool {
    forall|i: int| 0 <= i < turns.len() ==> !((#[trigger] turns[i]).event is DropBody)
}

/// What holds of a body that has handed out so many bytes of a declared length.
spec fn counts_right<X>(
    declared: Option<u64>,
    now: Receiving<X>,
    delivered: nat,
    failed: bool,
) -> bool {
    &&& now.is_sound()
    &&& now.body.remaining is Some <==> declared is Some
    &&& declared is Some ==> delivered + now.body.remaining->0 == declared->0
    &&& now.body.data_done && declared is Some ==> now.body.remaining->0 == 0
    &&& !now.body.ended ==> now.held.link.recv is Some || now.held.link.error is Some
    &&& now.body.ended && !failed ==> now.body.data_done
}

proof fn lemma_body_step<T, X>(
    declared: Option<u64>,
    now: Receiving<X>,
    delivered: nat,
    failed: bool,
    event: Event<T, X>,
)
    requires
        counts_right(declared, now, delivered, failed),
        !(event is DropBody),
    ensures
        counts_right(
            declared,
            now.after(event).0,
            delivered + piece(now, event).len(),
            failed || now.after(event).1 is Failed,
        ),
{
    match event {
        Event::Poll => {},
        Event::Data { data, invalid } => {},
        Event::Trailers { trailers, invalid } => {},
        Event::DropBody { invalid } => {},
        Event::DropPipe { failure, invalid } => {},
        Event::Cancel { error, invalid } => {},
    }
}

proof fn lemma_body_counts<T, X>(declared: Option<u64>, held: Held<X>, turns: Seq<Turn<T, X>>)
    requires
        held.link.wf(),
        held.link.recv is Some,
        is_kept(turns),
    ensures
        counts_right(
            declared,
            body_after(Receiving::begun(declared, held), turns),
            delivered(Receiving::begun(declared, held), turns).len(),
            has_failed(Receiving::begun(declared, held), turns),
        ),
    decreases turns.len(),
{
    let begun = Receiving::begun(declared, held);
    if turns.len() > 0 {
        let before = turns.drop_last();
        lemma_shorter_is_kept(turns);
        assert(!(turns[turns.len() - 1].event is DropBody));
        lemma_body_counts(declared, held, before);
        lemma_body_step(
            declared,
            body_before(begun, turns),
            delivered(begun, before).len(),
            has_failed(begun, before),
            turns.last().event,
        );
    }
}

proof fn lemma_shorter_is_kept<T, X>(turns: Seq<Turn<T, X>>)
    requires
        turns.len() > 0,
        is_kept(turns),
    ensures
        is_kept(turns.drop_last()),
{
    let before = turns.drop_last();
    assert forall|i: int| 0 <= i < before.len() implies !((
    #[trigger] before[i]).event is DropBody) by {
        assert(!(turns[i].event is DropBody));
    }
}

/// A body never hands out more than the declared length, and it comes to its
/// end without a failure only when it has handed out exactly that much, whatever
/// other exchanges and the driver do to the connection in between.
pub proof fn law_body_delivers_what_was_declared<T, X>(
    declared: Option<u64>,
    held: Held<X>,
    turns: Seq<Turn<T, X>>,
)
    requires
        held.link.wf(),
        held.link.recv is Some,
        is_kept(turns),
        declared is Some,
    ensures
        delivered(Receiving::begun(declared, held), turns).len() <= declared->0,
        turns.len() > 0 && !has_failed(Receiving::begun(declared, held), turns) && (body_read(
            Receiving::begun(declared, held),
            turns,
        ) is End || body_read(Receiving::begun(declared, held), turns) is Trailers) ==> delivered(
            Receiving::begun(declared, held),
            turns,
        ).len() == declared->0,
{
    lemma_body_counts(declared, held, turns);
    if turns.len() > 0 {
        lemma_shorter_is_kept(turns);
        lemma_body_counts(declared, held, turns.drop_last());
    }
}

/// A body hands out what its stream gave, in order and whole: the pieces that it
/// has handed out, joined, are those that it took from the stream, joined,
/// whatever happens to the connection in between.
pub proof fn law_body_hands_out_what_it_read<T, X>(
    begun: Receiving<X>,
    turns: Seq<Turn<T, X>>,
)
    ensures
        delivered(begun, turns) == arrived(begun, turns),
    decreases turns.len(),
{
    if turns.len() > 0 {
        law_body_hands_out_what_it_read(begun, turns.drop_last());
    }
}

/// The trailers that a body hands out are those that its stream gave.
pub proof fn law_trailers_are_handed_out_as_they_came<T, X>(
    receiving: Receiving<X>,
    event: Event<T, X>,
)
    requires
        receiving.after(event).1 is Trailers,
    ensures
        event matches Event::Trailers { trailers: Poll::Ready(Ok(Some(came))), .. } && came
            == receiving.after(event).1->Trailers_0,
{
}

/// What holds of an exchange before and after something happens to it: it is
/// held, and counted by its connection, exactly while its response is not
/// finished or its sending not complete, and released once.
pub open spec fn held_until_the_end<X>(before: Held<X>, after: Held<X>, wakes: Wakes) -> bool {
    let held = before.link.active is Some;
    let still = after.link.active is Some;
    &&& after.wf()
    &&& still <==> after.link.recv is Some || after.link.pipe_pending
    &&& still ==> held && after.shared == before.shared
    &&& held && !still ==> {
        &&& after.shared == before.shared.released((before.link.active->0)@)
        &&& wakes.driver == before.shared.draining
        &&& wakes.waiting
    }
    &&& !held ==> after.shared == before.shared
}

proof fn lemma_release_is_the_end<X>(before: Held<X>, now: Held<X>, effects: Effects)
    requires
        before.wf(),
        now.shared == before.shared,
        now.link.active == before.link.active,
        now.link.active is None ==> now.link.recv is None && !now.link.pipe_pending,
        now.link.error is Some ==> now.link.recv is None,
    ensures
        held_until_the_end(before, now.releasing(effects).0, now.releasing(effects).1.wakes),
{
    if now.link.recv is None && !now.link.pipe_pending {
        if let Some(active) = now.link.active {
            shared::law_giving_up_a_request_touches_only_it(now.shared, active@);
        }
    }
}

proof fn lemma_abandoning_is_the_end<X>(before: Held<X>, coded: Held<X>, invalid: bool)
    requires
        before.wf(),
        coded.shared == before.shared,
        coded.link.active == before.link.active,
        coded.link.pipe_pending == before.link.pipe_pending,
        coded.link.error == before.link.error,
        coded.link.recv is Some <==> before.link.recv is Some,
    ensures
        held_until_the_end(
            before,
            coded.abandoning(invalid).0,
            coded.abandoning(invalid).1.wakes,
        ),
{
    if let Some(recv) = coded.link.recv {
        lemma_release_is_the_end(
            before,
            Held { link: Link { recv: None, ..coded.link }, ..coded },
            Effects { recv: Some(recv.dropped(invalid)), ..no_effects() },
        );
    }
}

proof fn lemma_ending_pipe_is_the_end<X>(before: Held<X>, failure: Option<Error<X>>, invalid: bool)
    requires
        before.wf(),
    ensures
        held_until_the_end(
            before,
            before.ending_pipe(failure, invalid).0,
            before.ending_pipe(failure, invalid).1.wakes,
        ),
{
    let done = Held { link: Link { pipe_pending: false, ..before.link }, ..before };
    lemma_release_is_the_end(before, done, no_effects());
    lemma_release_is_the_end(before, done, Effects { wake_body: true, ..no_effects() });
    if let Some(recv) = before.link.recv {
        lemma_release_is_the_end(
            before,
            Held { link: Link { recv: None, ..done.link }, ..done },
            Effects { recv: Some(recv.dropped(invalid)), ..no_effects() },
        );
    }
}

/// What the law below says of an outcome.
#[verifier::opaque]
spec fn ends_well<T, X>(
    before: Receiving<X>,
    outcome: (Receiving<X>, Read<Seq<u8>, T, X>, Effects),
) -> bool {
    &&& outcome.0.wf()
    &&& held_until_the_end(before.held, outcome.0.held, outcome.2.wakes)
}

proof fn lemma_failing_is_the_end<T, X>(
    receiving: Receiving<X>,
    failure: Error<X>,
    code: Code,
    invalid: bool,
)
    requires
        receiving.wf(),
        receiving.held.link.recv is Some,
    ensures
        ends_well(receiving, receiving.failing::<T>(failure, code, invalid)),
{
    reveal(ends_well);
    let held = receiving.held;
    let coded = Held {
        link: Link {
            recv: Some(RecvGuard { code, ..held.link.recv->0 }),
            abort: true,
            ..held.link
        },
        ..held
    };
    lemma_abandoning_is_the_end(held, coded, invalid);
}

proof fn lemma_finishing_is_the_end<T, X>(receiving: Receiving<X>, trailers: Option<T>)
    requires
        receiving.wf(),
        receiving.held.link.recv is Some,
    ensures
        ends_well(receiving, receiving.finishing(trailers)),
{
    reveal(ends_well);
    let held = receiving.held;
    lemma_release_is_the_end(
        held,
        Held { link: Link { recv: None, ..held.link }, ..held },
        Effects {
            recv: Some(
                RecvDrop { close_route: (held.link.recv->0).datagrams, stop_sending: None },
            ),
            ..no_effects()
        },
    );
}

proof fn lemma_same_hold_is_kept<T, X>(
    receiving: Receiving<X>,
    outcome: (Receiving<X>, Read<Seq<u8>, T, X>, Effects),
)
    requires
        receiving.wf(),
        outcome.0.held == receiving.held,
        outcome.0.body.ended == receiving.body.ended,
    ensures
        ends_well(receiving, outcome),
{
    reveal(ends_well);
}

proof fn lemma_poll_is_kept<T, X>(receiving: Receiving<X>)
    requires
        receiving.wf(),
    ensures
        ends_well(receiving, receiving.after::<T>(Event::Poll)),
{
    reveal(ends_well);
}

proof fn lemma_data_is_kept<T, X>(
    receiving: Receiving<X>,
    data: Poll<Result<Option<Seq<u8>>, X>>,
    invalid: bool,
)
    requires
        receiving.wf(),
    ensures
        ends_well(receiving, receiving.reading_data::<T>(data, invalid)),
{
    let outcome = receiving.reading_data::<T>(data, invalid);
    let recv = receiving.held.link.recv;
    if recv is None || receiving.body.data_done || receiving.body.ended {
        lemma_same_hold_is_kept(receiving, outcome);
    } else {
        match data {
            Poll::Pending => lemma_same_hold_is_kept(receiving, outcome),
            Poll::Ready(Err(failure)) => {
                let error = Error::outside(Kind::Http3, failure);
                lemma_failing_is_the_end::<T, X>(receiving, error, (recv->0).code, invalid);
            },
            Poll::Ready(Ok(Some(piece))) => {
                match client::length_left(receiving.body.remaining, piece.len()) {
                    Err(reason) => {
                        let error = Error::because(Kind::Http3, reason);
                        lemma_failing_is_the_end::<T, X>(
                            receiving,
                            error,
                            Code::MessageError,
                            invalid,
                        );
                    },
                    Ok(remaining) => lemma_same_hold_is_kept(receiving, outcome),
                }
            },
            Poll::Ready(Ok(None)) => {
                if receiving.body.remaining is Some && receiving.body.remaining->0 != 0 {
                    let error = Error::because(Kind::Body, Reason::ResponseTooShort);
                    lemma_failing_is_the_end::<T, X>(
                        receiving,
                        error,
                        Code::MessageError,
                        invalid,
                    );
                } else {
                    lemma_same_hold_is_kept(receiving, outcome);
                }
            },
        }
    }
}

proof fn lemma_trailers_are_kept<T, X>(
    receiving: Receiving<X>,
    trailers: Poll<Result<Option<T>, X>>,
    invalid: bool,
)
    requires
        receiving.wf(),
    ensures
        ends_well(receiving, receiving.reading_trailers(trailers, invalid)),
{
    let outcome = receiving.reading_trailers(trailers, invalid);
    let recv = receiving.held.link.recv;
    if recv is None || !receiving.body.data_done || receiving.body.ended {
        lemma_same_hold_is_kept(receiving, outcome);
    } else {
        match trailers {
            Poll::Pending => lemma_same_hold_is_kept(receiving, outcome),
            Poll::Ready(Err(failure)) => {
                let error = Error::outside(Kind::Http3, failure);
                lemma_failing_is_the_end::<T, X>(receiving, error, (recv->0).code, invalid);
            },
            Poll::Ready(Ok(fields)) => lemma_finishing_is_the_end(receiving, fields),
        }
    }
}

proof fn lemma_link_events_are_kept<T, X>(receiving: Receiving<X>, event: Event<T, X>)
    requires
        receiving.wf(),
        event is DropBody || event is DropPipe || event is Cancel,
    ensures
        ends_well(receiving, receiving.after(event)),
{
    reveal(ends_well);
    let held = receiving.held;
    match event {
        Event::DropPipe { failure, invalid } => {
            lemma_ending_pipe_is_the_end(held, failure, invalid);
        },
        Event::DropBody { invalid } => {
            lemma_abandoning_is_the_end(held, held, invalid);
        },
        Event::Cancel { error, invalid } => {
            lemma_abandoning_is_the_end(held, held, invalid);
        },
        _ => {},
    }
}

/// An exchange is held, and counted by its connection, exactly until both its
/// response is finished and its sending is complete, whatever happens to it. It
/// is released once, with a wakeup for a driver that drains and for requests that
/// wait for its permit, and nothing else of the connection changes.
pub proof fn law_exchange_is_held_until_both_directions_end<T, X>(
    receiving: Receiving<X>,
    event: Event<T, X>,
)
    requires
        receiving.wf(),
    ensures
        receiving.after(event).0.wf(),
        held_until_the_end(
            receiving.held,
            receiving.after(event).0.held,
            receiving.after(event).2.wakes,
        ),
{
    let outcome = receiving.after(event);
    assert(ends_well(receiving, outcome)) by {
        match event {
            Event::Poll => lemma_poll_is_kept::<T, X>(receiving),
            Event::Data { data, invalid } => lemma_data_is_kept::<T, X>(receiving, data, invalid),
            Event::Trailers { trailers, invalid } => lemma_trailers_are_kept(
                receiving,
                trailers,
                invalid,
            ),
            _ => lemma_link_events_are_kept(receiving, event),
        }
    }
    lemma_ends_well(receiving, outcome);
}

proof fn lemma_ends_well<T, X>(
    before: Receiving<X>,
    outcome: (Receiving<X>, Read<Seq<u8>, T, X>, Effects),
)
    requires
        ends_well(before, outcome),
    ensures
        outcome.0.wf(),
        held_until_the_end(before.held, outcome.0.held, outcome.2.wakes),
{
    reveal(ends_well);
}

/// An exchange that is held stays counted while it is, whatever the other
/// exchanges, the requests that wait, the handles and the driver do to the
/// connection: it can always be released, and the connection is not idle.
pub proof fn law_held_exchange_stays_counted<X>(
    held: Held<X>,
    admitted: Set<int>,
    moves: Seq<Move<X>>,
    exchange: int,
)
    requires
        held.wf(),
        held.link.recv is Some || held.link.pipe_pending,
        admitted.finite(),
        held.shared.active == admitted.len(),
        held.shared.allows_all(shared::changes_of(moves)),
        shared::each_moves_once(admitted, moves),
        admitted.contains(exchange),
        !shared::gives_up(moves, exchange),
    ensures
        ({
            let now = held.shared.after_all(shared::changes_of(moves));
            &&& (Held { shared: now, ..held }).wf()
            &&& !now.is_idle()
        }),
{
    shared::law_exchange_stays_counted_until_given_up(held.shared, admitted, moves, exchange);
}

/// While the body is not finished or its sending not complete, its connection
/// is not idle, so a drain waits for it.
pub proof fn law_unfinished_exchange_keeps_the_connection_open<X>(receiving: Receiving<X>)
    requires
        receiving.wf(),
        receiving.held.link.recv is Some || receiving.held.link.pipe_pending,
    ensures
        !receiving.held.shared.is_idle(),
{
}

/// A failure is reported once. With it the stream is gone, the sending side is
/// told to reset, and the body is over for good, whatever happens to it or to
/// its connection later.
pub proof fn law_failure_is_reported_once<T, X>(
    receiving: Receiving<X>,
    event: Event<T, X>,
    later: Seq<Turn<T, X>>,
)
    requires
        receiving.is_sound(),
        receiving.after(event).1 is Failed,
    ensures
        ({
            let (failed, _, effects) = receiving.after(event);
            &&& failed.held.link.recv is None
            &&& failed.held.link.abort
            &&& effects.wake_pipe
            &&& failed.body.ended
            &&& body_after(failed, later).body.ended
            &&& later.len() > 0 ==> body_read(failed, later) is End || body_read(
                failed,
                later,
            ) is Nothing
        }),
{
    let failed = receiving.after(event).0;
    assert(is_over(failed));
    lemma_over_for_good(failed, later);
    if later.len() > 0 {
        lemma_over_for_good(failed, later.drop_last());
    }
}

/// Whether neither data, trailers nor a failure can come any more.
spec fn is_over<X>(receiving: Receiving<X>) -> bool {
    &&& receiving.body.ended
    &&& receiving.held.link.recv is None
    &&& receiving.held.link.error is None
}

proof fn lemma_over_for_good<T, X>(over: Receiving<X>, turns: Seq<Turn<T, X>>)
    requires
        is_over(over),
    ensures
        is_over(body_after(over, turns)),
    decreases turns.len(),
{
    if turns.len() > 0 {
        lemma_over_for_good(over, turns.drop_last());
    }
}

/// A failure that cancels a response which still goes on stops the stream at
/// once, and the next poll reports it, in whatever state it finds the
/// connection; an error that was published before is preferred.
pub proof fn law_cancellation_is_reported<T, X>(
    receiving: Receiving<X>,
    error: Error<X>,
    invalid: bool,
    later: State<X>,
)
    requires
        receiving.wf(),
        receiving.held.link.recv is Some,
    ensures
        ({
            let (canceled, _, effects) = receiving.after::<T>(Event::Cancel { error, invalid });
            &&& effects.recv == Some((receiving.held.link.recv->0).dropped(invalid))
            &&& effects.wake_body
            &&& canceled.held.link.recv is None
            &&& canceled.found(later).after::<T>(Event::Poll).1
                == Read::<Seq<u8>, T, X>::Failed(receiving.held.shared.failure_or(error))
        }),
{
}

/// Dropping a body stops receiving and nothing else: sending that is pending
/// goes on, is not told to reset, and still holds the exchange.
pub proof fn law_dropping_the_body_leaves_sending<T, X>(receiving: Receiving<X>, invalid: bool)
    requires
        receiving.wf(),
        receiving.held.link.recv is Some,
    ensures
        ({
            let (dropped, _, effects) = receiving.after::<T>(Event::DropBody { invalid });
            &&& effects.recv == Some((receiving.held.link.recv->0).dropped(invalid))
            &&& dropped.held.link.recv is None
            &&& dropped.held.link.pipe_pending == receiving.held.link.pipe_pending
            &&& dropped.held.link.abort == receiving.held.link.abort
            &&& !effects.wake_pipe
            &&& dropped.held.link.active is Some <==> receiving.held.link.pipe_pending
        }),
{
}

/// Whatever a receive half was to be stopped with, it is stopped for an invalid
/// Datagram where one came, and for a malformed message where the body did not
/// keep to its declared length.
pub proof fn law_stop_code_tells_the_cause<T, X>(
    receiving: Receiving<X>,
    data: Poll<Result<Option<Seq<u8>>, X>>,
    invalid: bool,
)
    requires
        receiving.wf(),
        receiving.held.link.recv is Some,
        !(receiving.held.link.recv->0).finished,
        receiving.after::<T>(Event::Data { data, invalid }).1 is Failed,
    ensures
        ({
            let recv = receiving.held.link.recv->0;
            let effects = receiving.after::<T>(Event::Data { data, invalid }).2;
            &&& effects.recv is Some
            &&& (effects.recv->0).stop_sending == Some(
                if recv.datagrams && invalid {
                    Code::DatagramError
                } else if data->0 is Ok {
                    Code::MessageError
                } else {
                    recv.code
                },
            )
        }),
{
}

/// Whether an exchange is released where that is due: once there is no receive
/// half and nothing left to send its permit is back, its registration ends, and
/// those that wait for a permit are woken, with a driver that drains. Before
/// that nothing of it changes, and nobody is woken.
pub open spec fn released_when_done<X>(before: Held<X>, after: Held<X>, effects: Effects) -> bool {
    let done = after.link.recv is None && !after.link.pipe_pending;
    let held = before.link.active is Some;
    &&& done ==> after.link.active is None && !after.link.registration && effects.unregister
        == before.link.registration
    &&& !done ==> after.link.active == before.link.active && after.link.registration
        == before.link.registration && !effects.unregister
    &&& done && held ==> {
        &&& after.shared.permits == before.shared.permits + 1
        &&& after.shared.active == before.shared.active - 1
        &&& after.shared == (State {
            permits: after.shared.permits,
            active: after.shared.active,
            ..before.shared
        })
        &&& effects.wakes.driver == before.shared.draining
        &&& effects.wakes.waiting
    }
    &&& !(done && held) ==> after.shared == before.shared && !effects.wakes.driver
        && !effects.wakes.waiting
    &&& !effects.wakes.datagrams
}

/// Whether a body has failed as it should: it reports this failure, or what the
/// connection published before, has its stream stopped with this code, aborts
/// the sending, and is over.
pub open spec fn failed_with<T, X>(
    body: RecvBody,
    before: Held<X>,
    after: Receiving<X>,
    next: (Read<Bytes, T, X>, Effects),
    failure: Error<X>,
    code: Code,
    invalid: bool,
) -> bool {
    let recv = before.link.recv->0;
    &&& next.0 == Read::<Bytes, T, X>::Failed(before.shared.failure_or(failure))
    &&& next.1.recv == Some(
        (RecvGuard { datagrams: recv.datagrams, finished: recv.finished, code }).dropped(invalid),
    )
    &&& next.1.wake_pipe && !next.1.wake_body
    &&& after.held.link.abort && after.held.link.recv is None && after.held.link.error is None
    &&& after.held.link.pipe_pending == before.link.pipe_pending
    &&& after.body == (RecvBody { ended: true, ..body })
    &&& released_when_done(before, after.held, next.1)
}

/// Trailers that the stream gives to a body which has read its data to the end
/// are handed out as they are, whether or not a length was declared; where there
/// are none the body ends. Either way the stream is done with, nothing is
/// stopped or aborted, and the body is over.
pub proof fn law_trailers_that_came_are_handed_out<T, X>(
    body: &mut RecvBody,
    link: &mut Link<X>,
    shared: &mut Shared<X>,
    trailers: Option<T>,
    invalid: bool,
    next: (Read<Bytes, T, X>, Effects),
)
    requires
        call_ensures(
            RecvBody::read_trailers::<T, X>,
            (body, link, shared, Poll::Ready(Ok(trailers)), invalid),
            next,
        ),
        (Held { link: *old(link), shared: old(shared)@ }).wf(),
        old(link).recv is Some,
        old(body).data_done,
        !old(body).ended,
    ensures
        trailers matches Some(came) ==> next.0 == Read::<Bytes, T, X>::Trailers(came),
        trailers is None ==> next.0 is End,
        next.1.recv == Some(
            RecvDrop { close_route: (old(link).recv->0).datagrams, stop_sending: None },
        ),
        !next.1.wake_pipe && !next.1.wake_body,
        *final(body) == (RecvBody { ended: true, ..*old(body) }),
        final(link).recv is None && final(link).error is None,
        final(link).abort == old(link).abort && final(link).pipe_pending == old(link).pipe_pending,
        released_when_done(
            Held { link: *old(link), shared: old(shared)@ },
            Held { link: *final(link), shared: final(shared)@ },
            next.1,
        ),
{
}

/// A piece of data is handed out as it came and counted against the length where
/// one is declared; one that is longer than what is left of it fails the body as
/// malformed. The length is all that changes otherwise.
pub proof fn law_data_that_came_is_handed_out<T, X>(
    body: &mut RecvBody,
    link: &mut Link<X>,
    shared: &mut Shared<X>,
    piece: Bytes,
    invalid: bool,
    next: (Read<Bytes, T, X>, Effects),
)
    requires
        call_ensures(
            RecvBody::read_data::<T, X>,
            (body, link, shared, Poll::Ready(Ok(Some(piece))), invalid),
            next,
        ),
        (Held { link: *old(link), shared: old(shared)@ }).wf(),
        old(link).recv is Some,
        !old(body).data_done,
        !old(body).ended,
    ensures
        ({
            let size = buf::content(piece).len();
            let over = old(body).remaining is Some && size > old(body).remaining->0;
            &&& over ==> failed_with(
                *old(body),
                Held { link: *old(link), shared: old(shared)@ },
                Receiving {
                    body: *final(body),
                    held: Held { link: *final(link), shared: final(shared)@ },
                },
                next,
                Error::because(Kind::Http3, Reason::BodyTooLong),
                Code::MessageError,
                invalid,
            )
            &&& !over ==> {
                &&& next.0 is Data
                &&& buf::content(next.0->Data_0) == buf::content(piece)
                &&& old(body).remaining is Some <==> final(body).remaining is Some
                &&& old(body).remaining is Some ==> final(body).remaining->0
                    == old(body).remaining->0 - size
                &&& !final(body).data_done && !final(body).ended
                &&& *final(link) == *old(link) && final(shared)@ == old(shared)@
                &&& next.1.recv is None && !next.1.unregister && !next.1.wake_pipe
                    && !next.1.wake_body
                &&& !next.1.wakes.driver && !next.1.wakes.waiting && !next.1.wakes.datagrams
            }
        }),
{
}

/// At the end of the data the trailers are read, and nothing else changes, unless
/// something is left of a declared length: then the body fails as too short.
pub proof fn law_data_ends_where_it_was_declared<T, X>(
    body: &mut RecvBody,
    link: &mut Link<X>,
    shared: &mut Shared<X>,
    invalid: bool,
    next: (Read<Bytes, T, X>, Effects),
)
    requires
        call_ensures(
            RecvBody::read_data::<T, X>,
            (body, link, shared, Poll::Ready(Ok(None)), invalid),
            next,
        ),
        (Held { link: *old(link), shared: old(shared)@ }).wf(),
        old(link).recv is Some,
        !old(body).data_done,
        !old(body).ended,
    ensures
        ({
            let left = old(body).remaining is Some && old(body).remaining->0 > 0;
            &&& left ==> failed_with(
                *old(body),
                Held { link: *old(link), shared: old(shared)@ },
                Receiving {
                    body: *final(body),
                    held: Held { link: *final(link), shared: final(shared)@ },
                },
                next,
                Error::because(Kind::Body, Reason::ResponseTooShort),
                Code::MessageError,
                invalid,
            )
            &&& !left ==> {
                &&& next.0 is PollTrailers
                &&& *final(body) == (RecvBody { data_done: true, ..*old(body) })
                &&& *final(link) == *old(link) && final(shared)@ == old(shared)@
                &&& next.1.recv is None && !next.1.unregister && !next.1.wake_pipe
                    && !next.1.wake_body
                &&& !next.1.wakes.driver && !next.1.wakes.waiting && !next.1.wakes.datagrams
            }
        }),
{
}

/// A stream that fails while data or trailers are read fails the body with the
/// cause, and is stopped with the code that it was to be stopped with.
pub proof fn law_failed_stream_fails_the_body<T, X>(
    body: &mut RecvBody,
    link: &mut Link<X>,
    shared: &mut Shared<X>,
    failure: X,
    invalid: bool,
    next: (Read<Bytes, T, X>, Effects),
)
    requires
        if old(body).data_done {
            call_ensures(
                RecvBody::read_trailers::<T, X>,
                (body, link, shared, Poll::Ready(Err(failure)), invalid),
                next,
            )
        } else {
            call_ensures(
                RecvBody::read_data::<T, X>,
                (body, link, shared, Poll::Ready(Err(failure)), invalid),
                next,
            )
        },
        (Held { link: *old(link), shared: old(shared)@ }).wf(),
        old(link).recv is Some,
        !old(body).ended,
    ensures
        failed_with(
            *old(body),
            Held { link: *old(link), shared: old(shared)@ },
            Receiving {
                body: *final(body),
                held: Held { link: *final(link), shared: final(shared)@ },
            },
            next,
            Error::outside(Kind::Http3, failure),
            (old(link).recv->0).code,
            invalid,
        ),
{
}

/// A stream that has nothing yet is waited for, and what does not belong to the
/// state of the body comes to nothing; neither changes anything.
pub proof fn law_nothing_new_changes_nothing<T, X>(
    body: &mut RecvBody,
    link: &mut Link<X>,
    shared: &mut Shared<X>,
    data: Poll<Result<Option<Bytes>, X>>,
    trailers: Poll<Result<Option<T>, X>>,
    for_data: bool,
    invalid: bool,
    next: (Read<Bytes, T, X>, Effects),
)
    requires
        if for_data {
            &&& call_ensures(
                RecvBody::read_data::<T, X>,
                (body, link, shared, data, invalid),
                next,
            )
            &&& data is Pending || old(body).data_done || old(body).ended || old(link).recv is None
        } else {
            &&& call_ensures(
                RecvBody::read_trailers::<T, X>,
                (body, link, shared, trailers, invalid),
                next,
            )
            &&& trailers is Pending || !old(body).data_done || old(body).ended || old(link).recv is None
        },
        (Held { link: *old(link), shared: old(shared)@ }).wf(),
    ensures
        *final(body) == *old(body),
        *final(link) == *old(link),
        final(shared)@ == old(shared)@,
        next.1.recv is None && !next.1.unregister && !next.1.wake_pipe && !next.1.wake_body,
        !next.1.wakes.driver && !next.1.wakes.waiting && !next.1.wakes.datagrams,
        old(link).recv is Some && !old(body).ended && old(body).data_done == !for_data
            ==> next.0 is Pend,
        old(link).recv is None || old(body).ended || old(body).data_done == for_data
            ==> next.0 is Nothing,
{
}

/// A poll of a body that is over comes to its end. While there is a stream it is
/// polled, for data until that is read to the end and then for trailers. Without
/// one a failure that is left is reported, once, which aborts the sending; and
/// without a failure either the body ends.
pub proof fn law_poll_goes_by_what_is_left<T, X>(
    body: &mut RecvBody,
    link: &mut Link<X>,
    read: (Read<Bytes, T, X>, Effects),
)
    requires
        call_ensures(RecvBody::poll_frame::<T, X>, (body, link), read),
        old(link).wf(),
    ensures
        ({
            let streams = !old(body).ended && old(link).recv is Some;
            let left = !old(body).ended && old(link).recv is None && old(link).error is Some;
            &&& streams && !old(body).data_done ==> read.0 is PollData
            &&& streams && old(body).data_done ==> read.0 is PollTrailers
            &&& left ==> {
                &&& read.0 == Read::<Bytes, T, X>::Failed(old(link).error->0)
                &&& read.1.wake_pipe
                &&& *final(link) == (Link { error: None, abort: true, ..*old(link) })
            }
            &&& !left ==> !read.1.wake_pipe && *final(link) == *old(link)
            &&& !streams && !left ==> read.0 is End
            &&& streams ==> *final(body) == *old(body)
            &&& !streams ==> *final(body) == (RecvBody { ended: true, ..*old(body) })
            &&& read.1.recv is None && !read.1.unregister && !read.1.wake_body
            &&& !read.1.wakes.driver && !read.1.wakes.waiting && !read.1.wakes.datagrams
        }),
{
}

/// Dropping a body gives up its receive half, where it has one, and touches
/// nothing else of the link; the exchange is released where it is done.
pub proof fn law_dropped_body_gives_up_its_half<X>(
    body: RecvBody,
    link: &mut Link<X>,
    shared: &mut Shared<X>,
    invalid: bool,
    effects: Effects,
)
    requires
        call_ensures(RecvBody::abandon::<X>, (body, link, shared, invalid), effects),
        (Held { link: *old(link), shared: old(shared)@ }).wf(),
    ensures
        final(link).recv is None,
        final(link).error == old(link).error && final(link).abort == old(link).abort,
        final(link).pipe_pending == old(link).pipe_pending,
        !effects.wake_pipe && !effects.wake_body,
        old(link).recv matches Some(recv) ==> {
            &&& effects.recv == Some(recv.dropped(invalid))
            &&& released_when_done(
                Held { link: *old(link), shared: old(shared)@ },
                Held { link: *final(link), shared: final(shared)@ },
                effects,
            )
        },
        old(link).recv is None ==> {
            &&& effects.recv is None && !effects.unregister
            &&& !effects.wakes.driver && !effects.wakes.waiting && !effects.wakes.datagrams
            &&& *final(link) == *old(link) && final(shared)@ == old(shared)@
        },
{
}

/// A failure from elsewhere, and an invalid Datagram, stop a response that still
/// goes on and are left for the body to report, or what the connection published
/// before is. The reader is woken. A response that is gone stays as it is.
pub proof fn law_failure_from_elsewhere_is_left_to_the_body<X>(
    link: &mut Link<X>,
    shared: &mut Shared<X>,
    failure: Error<X>,
    invalid: bool,
    datagram: bool,
    effects: Effects,
)
    requires
        if datagram {
            &&& call_ensures(Link::<X>::invalidate, (link, shared), effects)
            &&& failure == Error::<X>::because(Kind::Http3, Reason::InvalidDatagram)
            &&& invalid
        } else {
            call_ensures(Link::<X>::cancel, (link, shared, failure, invalid), effects)
        },
        (Held { link: *old(link), shared: old(shared)@ }).wf(),
    ensures
        effects.wake_body && !effects.wake_pipe,
        final(link).recv is None,
        final(link).abort == old(link).abort && final(link).pipe_pending == old(link).pipe_pending,
        old(link).recv matches Some(recv) ==> {
            &&& final(link).error == Some(old(shared)@.failure_or(failure))
            &&& effects.recv == Some(recv.dropped(invalid))
            &&& released_when_done(
                Held { link: *old(link), shared: old(shared)@ },
                Held { link: *final(link), shared: final(shared)@ },
                effects,
            )
        },
        old(link).recv is None ==> {
            &&& effects.recv is None && !effects.unregister
            &&& !effects.wakes.driver && !effects.wakes.waiting && !effects.wakes.datagrams
            &&& *final(link) == *old(link) && final(shared)@ == old(shared)@
        },
{
}

/// A sending side that is done leaves a response that still goes on as it is,
/// unless it failed: then the response is stopped, and the failure, or what the
/// connection published before, is left for the body to report. The exchange is
/// released where it is done. A failure wakes the reader.
pub proof fn law_end_of_the_sending_side<X>(
    pipe: PipeGuard<X>,
    link: &mut Link<X>,
    shared: &mut Shared<X>,
    invalid: bool,
    effects: Effects,
)
    requires
        call_ensures(PipeGuard::<X>::abandon, (pipe, link, shared, invalid), effects),
        (Held { link: *old(link), shared: old(shared)@ }).wf(),
    ensures
        ({
            let stops = pipe.error is Some && old(link).recv is Some;
            &&& !final(link).pipe_pending
            &&& final(link).abort == old(link).abort
            &&& effects.wake_body == (pipe.error is Some) && !effects.wake_pipe
            &&& stops ==> {
                &&& final(link).recv is None
                &&& final(link).error == Some(old(shared)@.failure_or(pipe.error->0))
                &&& effects.recv == Some((old(link).recv->0).dropped(invalid))
            }
            &&& !stops ==> {
                &&& final(link).recv == old(link).recv && final(link).error == old(link).error
                &&& effects.recv is None
            }
            &&& released_when_done(
                Held { link: *old(link), shared: old(shared)@ },
                Held { link: *final(link), shared: final(shared)@ },
                effects,
            )
        }),
{
}

/// A guard of the sending side begins without a failure, keeps the one it is
/// told, and goes on until the response aborts the exchange.
pub proof fn law_sending_goes_on_until_aborted<X>(
    made: PipeGuard<X>,
    pipe: &mut PipeGuard<X>,
    error: Error<X>,
    link: &Link<X>,
    going_on: bool,
)
    requires
        call_ensures(PipeGuard::<X>::new, (), made),
        call_ensures(PipeGuard::<X>::fail, (pipe, error), ()),
        call_ensures(PipeGuard::<X>::watch, (&made, link), going_on),
    ensures
        made.error is None,
        final(pipe).error == Some(error),
        going_on <==> !link.abort,
{
}

/// A body begins with its stream, all of its length to come, and nothing to
/// report. It tells what is left of its length until it is over, and then that
/// there is nothing.
pub proof fn law_body_tells_what_is_left<X>(
    recv: RecvGuard,
    remaining: Option<u64>,
    active: Active,
    registration: bool,
    pipe_pending: bool,
    made: (RecvBody, Link<X>),
    body: RecvBody,
    ended: bool,
    size: Option<u64>,
)
    requires
        call_ensures(
            RecvBody::new::<X>,
            (recv, remaining, active, registration, pipe_pending),
            made,
        ),
        call_ensures(RecvBody::is_end_stream, (&body,), ended),
        call_ensures(RecvBody::size_hint, (&body,), size),
    ensures
        made.0.remaining == remaining && !made.0.data_done && !made.0.ended,
        made.1.recv == Some(recv) && made.1.active == Some(active),
        made.1.registration == registration && made.1.pipe_pending == pipe_pending,
        made.1.error is None && !made.1.abort,
        ended == body.ended,
        body.ended ==> size == Some(0u64),
        !body.ended ==> size == body.remaining,
{
}

} // verus!
