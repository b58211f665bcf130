//! Sending a request body: its frames in order, chunk by chunk, then FIN, then
//! the wait for its acknowledgment; and what follows when the upload outlives
//! the response head.

use bytes::Bytes;
use vstd::prelude::*;

use crate::buf;
use crate::client::{self, SendGuard, BURST};
use crate::error::{Error, Kind, Poll, Reason, StreamFailure};

verus! {

/// What an upload waits for.
#[derive(Clone, Copy, PartialEq, Eq, Structural, Debug)]
pub enum At {
    /// Whether the peer stopped the stream, before the next frame.
    Watch,
    /// The next frame of the body.
    Frame,
    /// A chunk of the frame to be taken.
    Chunk,
    /// A turn of the runtime, then the rest of the frame.
    RestInFrame,
    /// The trailers to be taken.
    Trailers,
    /// A turn of the runtime, then the next frame.
    Rest,
    /// The FIN to be taken.
    Finish,
    /// The acknowledgment of the FIN.
    Acknowledgment,
    /// Nothing more.
    Done,
}

/// The sending of a request body.
#[derive(Debug)]
pub struct Upload<D> {
    pub at: At,
    pub send: SendGuard,
    /// What is left of the length of the body, where it is known.
    pub remaining: Option<u64>,
    /// The bytes of the current frame that are not handed out yet.
    pub data: D,
    pub trailers_sent: bool,
    pub budget: usize,
}

/// A frame of a body.
#[derive(Debug)]
pub enum Frame<D, T> {
    Data(D),
    Trailers(T),
    /// Neither; it is passed over.
    Other,
}

/// An outcome that an upload takes.
#[derive(Debug)]
pub enum Event<D, T, X> {
    /// The peer's answer to the send direction was polled: it stopped the
    /// stream or acknowledged everything, or the connection is lost.
    Stopped(Poll<Result<(), X>>),
    /// The body was polled for a frame.
    Frame(Poll<Option<Result<Frame<D, T>, X>>>),
    /// Data, trailers or FIN were taken or not.
    Sent(Result<(), StreamFailure<X>>),
    /// The turn of the runtime is over.
    Rested,
}

/// What an upload calls for next.
#[derive(Debug)]
pub enum Step<D, T, X> {
    PollStopped,
    PollFrame,
    /// Send this chunk of the current frame.
    SendData(D),
    SendTrailers(T),
    /// Give the runtime a turn.
    Rest,
    /// Send FIN.
    Finish,
    /// The FIN is queued: close the Datagram route for sending, where it says
    /// so, and poll for the acknowledgment.
    AwaitAcknowledgment { close_route: bool },
    /// Wait until polled again.
    Pend,
    /// The upload is over.
    Return(Result<(), Error<X>>),
    /// Nothing: the outcome does not belong to where the upload is.
    Nothing,
}

impl View for Upload<Bytes> {
    type V = Upload<Seq<u8>>;

    open spec fn view(&self) -> Upload<Seq<u8>> {
        Upload {
            at: self.at,
            send: self.send,
            remaining: self.remaining,
            data: buf::content(self.data),
            trailers_sent: self.trailers_sent,
            budget: self.budget,
        }
    }
}

impl<T> View for Frame<Bytes, T> {
    type V = Frame<Seq<u8>, T>;

    open spec fn view(&self) -> Frame<Seq<u8>, T> {
        match *self {
            Frame::Data(data) => Frame::Data(buf::content(data)),
            Frame::Trailers(trailers) => Frame::Trailers(trailers),
            Frame::Other => Frame::Other,
        }
    }
}

impl<T, X> View for Event<Bytes, T, X> {
    type V = Event<Seq<u8>, T, X>;

    open spec fn view(&self) -> Event<Seq<u8>, T, X> {
        match *self {
            Event::Stopped(stopped) => Event::Stopped(stopped),
            Event::Frame(Poll::Pending) => Event::Frame(Poll::Pending),
            Event::Frame(Poll::Ready(None)) => Event::Frame(Poll::Ready(None)),
            Event::Frame(Poll::Ready(Some(Ok(frame)))) => Event::Frame(
                Poll::Ready(Some(Ok(frame@))),
            ),
            Event::Frame(Poll::Ready(Some(Err(failure)))) => Event::Frame(
                Poll::Ready(Some(Err(failure))),
            ),
            Event::Sent(sent) => Event::Sent(sent),
            Event::Rested => Event::Rested,
        }
    }
}

impl<T, X> View for Step<Bytes, T, X> {
    type V = Step<Seq<u8>, T, X>;

    open spec fn view(&self) -> Step<Seq<u8>, T, X> {
        match *self {
            Step::PollStopped => Step::PollStopped,
            Step::PollFrame => Step::PollFrame,
            Step::SendData(data) => Step::SendData(buf::content(data)),
            Step::SendTrailers(trailers) => Step::SendTrailers(trailers),
            Step::Rest => Step::Rest,
            Step::Finish => Step::Finish,
            Step::AwaitAcknowledgment { close_route } => Step::AwaitAcknowledgment { close_route },
            Step::Pend => Step::Pend,
            Step::Return(result) => Step::Return(result),
            Step::Nothing => Step::Nothing,
        }
    }
}

/// Whether something is left of a length.
pub open spec fn is_short(remaining: Option<u64>) -> bool {
    remaining is Some && remaining->0 != 0
}

impl Upload<Seq<u8>> {
    /// An upload of a body of this length, where it is known, that has not
    /// begun.
    pub open spec fn new_upload(send: SendGuard, length: Option<u64>) -> Self {
        Upload {
            at: At::Watch,
            send,
            remaining: length,
            data: Seq::empty(),
            trailers_sent: false,
            budget: 0,
        }
    }

    /// The budget stays below a burst, and bytes are left only while a frame is
    /// being sent.
    pub open spec fn wf(self) -> bool {
        &&& self.budget < BURST
        &&& self.at != At::Chunk && self.at != At::RestInFrame && self.at != At::Done
            ==> self.data.len() == 0
        &&& self.send.finished ==> self.at == At::Acknowledgment || self.at == At::Done
        &&& self.at == At::Acknowledgment ==> self.send.finished
    }

    /// The upload that is over, with this outcome.
    pub open spec fn over<T, X>(self, result: Result<(), Error<X>>) -> (Self, Step<Seq<u8>, T, X>) {
        (Upload { at: At::Done, ..self }, Step::Return(result))
    }

    /// The upload after a frame was dealt with: the next one follows, after a
    /// turn of the runtime at the end of a burst.
    pub open spec fn frame_done<T, X>(self) -> (Self, Step<Seq<u8>, T, X>) {
        if self.budget + 1 < BURST {
            (
                Upload { at: At::Watch, budget: (self.budget + 1) as usize, ..self },
                Step::PollStopped,
            )
        } else {
            (Upload { at: At::Rest, budget: 0, ..self }, Step::Rest)
        }
    }

    /// The upload with the rest of its frame to send: the next chunk is handed
    /// out, if there is one.
    pub open spec fn frame_goes_on<T, X>(self) -> (Self, Step<Seq<u8>, T, X>) {
        let size = client::chunk_size(self.data.len()) as int;
        if self.data.len() > 0 {
            (
                Upload { at: At::Chunk, data: self.data.skip(size), ..self },
                Step::SendData(self.data.take(size)),
            )
        } else {
            self.frame_done()
        }
    }

    /// The upload after a chunk was taken.
    pub open spec fn chunk_done<T, X>(self) -> (Self, Step<Seq<u8>, T, X>) {
        if self.budget + 1 < BURST {
            (Upload { budget: (self.budget + 1) as usize, ..self }).frame_goes_on()
        } else {
            (Upload { at: At::RestInFrame, budget: 0, ..self }, Step::Rest)
        }
    }

    /// The upload that failed to send.
    pub open spec fn send_failed<T, X>(self, failure: StreamFailure<X>) -> (Self, Step<Seq<u8>, T, X>) {
        match failure {
            StreamFailure::RemoteTerminate => self.over(Ok(())),
            StreamFailure::Other(failure) => self.over(
                Err(Error::outside(Kind::Http3, failure)),
            ),
        }
    }

    /// The upload after a frame of the body came.
    pub open spec fn frame_came<T, X>(self, frame: Frame<Seq<u8>, T>) -> (Self, Step<Seq<u8>, T, X>) {
        if self.trailers_sent {
            self.over(Err(Error::because(Kind::UserBody, Reason::FrameAfterTrailers)))
        } else {
            match frame {
                Frame::Data(data) => match client::length_left(self.remaining, data.len()) {
                    Err(reason) => self.over(Err(Error::because(Kind::UserBody, reason))),
                    Ok(remaining) => (Upload { remaining, data, ..self }).frame_goes_on(),
                },
                Frame::Trailers(trailers) => if is_short(self.remaining) {
                    self.over(Err(Error::because(Kind::UserBody, Reason::BodyTooShort)))
                } else {
                    (Upload { at: At::Trailers, ..self }, Step::SendTrailers(trailers))
                },
                Frame::Other => self.frame_done(),
            }
        }
    }

    /// The upload after an outcome, and what it calls for then.
    pub open spec fn next<T, X>(self, event: Event<Seq<u8>, T, X>) -> (Self, Step<Seq<u8>, T, X>) {
        match (self.at, event) {
            (At::Watch, Event::Stopped(Poll::Pending)) => (
                Upload { at: At::Frame, ..self },
                Step::PollFrame,
            ),
            (At::Watch, Event::Stopped(Poll::Ready(Ok(_)))) => self.over(Ok(())),
            (At::Watch, Event::Stopped(Poll::Ready(Err(failure)))) => self.over(
                Err(Error::outside(Kind::Http3, failure)),
            ),
            (At::Frame, Event::Frame(Poll::Pending)) => (
                Upload { at: At::Watch, ..self },
                Step::Pend,
            ),
            (At::Frame, Event::Frame(Poll::Ready(Some(Err(failure))))) => self.over(
                Err(Error::outside(Kind::UserBody, failure)),
            ),
            (At::Frame, Event::Frame(Poll::Ready(Some(Ok(frame))))) => self.frame_came(frame),
            (At::Frame, Event::Frame(Poll::Ready(None))) => if is_short(self.remaining) {
                self.over(Err(Error::because(Kind::UserBody, Reason::BodyTooShort)))
            } else {
                (Upload { at: At::Finish, ..self }, Step::Finish)
            },
            (At::Chunk, Event::Sent(Ok(_))) => self.chunk_done(),
            (At::Chunk, Event::Sent(Err(failure))) => self.send_failed(failure),
            (At::RestInFrame, Event::Rested) => self.frame_goes_on(),
            (At::Trailers, Event::Sent(Ok(_))) => (Upload {
                trailers_sent: true,
                ..self
            }).frame_done(),
            (At::Trailers, Event::Sent(Err(failure))) => self.send_failed(failure),
            (At::Rest, Event::Rested) => (Upload { at: At::Watch, ..self }, Step::PollStopped),
            (At::Finish, Event::Sent(Ok(_))) => (
                Upload {
                    at: At::Acknowledgment,
                    send: SendGuard { finished: true, ..self.send },
                    ..self
                },
                Step::AwaitAcknowledgment { close_route: self.send.datagrams },
            ),
            (At::Finish, Event::Sent(Err(failure))) => self.send_failed(failure),
            (At::Acknowledgment, Event::Stopped(Poll::Pending)) => (self, Step::Pend),
            (At::Acknowledgment, Event::Stopped(Poll::Ready(Ok(_)))) => self.over(Ok(())),
            (At::Acknowledgment, Event::Stopped(Poll::Ready(Err(failure)))) => self.over(
                Err(Error::outside(Kind::Http3, failure)),
            ),
            _ => (self, Step::Nothing),
        }
    }

}

impl Upload<Bytes> {
    /// Begins to send a body of this length, where it is known.
    pub fn new(send: SendGuard, length: Option<u64>) -> (upload: Self)
        ensures
            upload@ == Upload::new_upload(send, length),
            !send.finished ==> upload@.wf(),
    {
        Upload {
            at: At::Watch,
            send,
            remaining: length,
            data: buf::no_bytes(),
            trailers_sent: false,
            budget: 0,
        }
    }

    /// What is left of an empty upload whose FIN was sent: the wait for its
    /// acknowledgment.
    pub fn acknowledging(send: SendGuard) -> (upload: Self)
        requires
            send.finished,
        ensures
            upload@ == (Upload {
                at: At::Acknowledgment,
                ..Upload::new_upload(send, None)
            }),
            upload@.wf(),
    {
        Upload {
            at: At::Acknowledgment,
            send,
            remaining: None,
            data: buf::no_bytes(),
            trailers_sent: false,
            budget: 0,
        }
    }

    /// What a poll of the upload calls for first, given where it is.
    pub fn resume<T, X>(&self) -> (step: Step<Bytes, T, X>)
        ensures
            step == match self.at {
                At::Watch | At::Acknowledgment => Step::<Bytes, T, X>::PollStopped,
                _ => Step::<Bytes, T, X>::Nothing,
            },
    {
        match self.at {
            At::Watch | At::Acknowledgment => Step::PollStopped,
            _ => Step::Nothing,
        }
    }

    fn end<T, X>(&mut self, result: Result<(), Error<X>>) -> (step: Step<Bytes, T, X>)
        ensures
            (final(self)@, step@) == old(self)@.over::<T, X>(result),
    {
        self.at = At::Done;
        Step::Return(result)
    }

    fn end_frame<T, X>(&mut self) -> (step: Step<Bytes, T, X>)
        requires
            old(self).budget < BURST,
        ensures
            (final(self)@, step@) == old(self)@.frame_done::<T, X>(),
    {
        if client::cooperate(&mut self.budget) {
            self.at = At::Rest;
            Step::Rest
        } else {
            self.at = At::Watch;
            Step::PollStopped
        }
    }

    fn go_on<T, X>(&mut self) -> (step: Step<Bytes, T, X>)
        requires
            old(self).budget < BURST,
        ensures
            (final(self)@, step@) == old(self)@.frame_goes_on::<T, X>(),
    {
        let left: usize = buf::length(&self.data);
        if left > 0 {
            self.at = At::Chunk;
            Step::SendData(buf::take_front(&mut self.data, client::next_chunk(left)))
        } else {
            self.end_frame()
        }
    }

    fn fail<T, X>(&mut self, failure: StreamFailure<X>) -> (step: Step<Bytes, T, X>)
        ensures
            (final(self)@, step@) == old(self)@.send_failed::<T, X>(failure),
    {
        match failure {
            StreamFailure::RemoteTerminate => self.end(Ok(())),
            StreamFailure::Other(failure) => self.end(
                Err(Error::new_outside(Kind::Http3, failure)),
            ),
        }
    }

    fn is_short(&self) -> (short: bool)
        ensures
            short == is_short(self.remaining),
    {
        match self.remaining {
            Some(n) => n != 0,
            None => false,
        }
    }

    fn take_frame<T, X>(&mut self, frame: Frame<Bytes, T>) -> (step: Step<Bytes, T, X>)
        requires
            old(self).budget < BURST,
        ensures
            (final(self)@, step@) == old(self)@.frame_came::<T, X>(frame@),
    {
        if self.trailers_sent {
            return self.end(Err(Error::new_reason(Kind::UserBody, Reason::FrameAfterTrailers)));
        }
        match frame {
            Frame::Data(data) => match client::consume_length(
                &mut self.remaining,
                buf::length(&data),
            ) {
                Err(reason) => self.end(Err(Error::new_reason(Kind::UserBody, reason))),
                Ok(_) => {
                    self.data = data;
                    self.go_on()
                },
            },
            Frame::Trailers(trailers) => {
                if self.is_short() {
                    self.end(Err(Error::new_reason(Kind::UserBody, Reason::BodyTooShort)))
                } else {
                    self.at = At::Trailers;
                    Step::SendTrailers(trailers)
                }
            },
            Frame::Other => self.end_frame(),
        }
    }

    /// Takes an outcome.
    pub fn step<T, X>(&mut self, event: Event<Bytes, T, X>) -> (step: Step<Bytes, T, X>)
        requires
            old(self)@.wf(),
        ensures
            (final(self)@, step@) == old(self)@.next::<T, X>(event@),
            final(self)@.wf(),
    {
        match (self.at, event) {
            (At::Watch, Event::Stopped(Poll::Pending)) => {
                // The peer's STOP_SENDING is looked for before the body: frames
                // that are always ready and empty never reach the QUIC writer.
                self.at = At::Frame;
                Step::PollFrame
            },
            (At::Watch, Event::Stopped(Poll::Ready(Ok(_)))) => self.end(Ok(())),
            (At::Watch, Event::Stopped(Poll::Ready(Err(failure)))) => self.end(
                Err(Error::new_outside(Kind::Http3, failure)),
            ),
            (At::Frame, Event::Frame(Poll::Pending)) => {
                self.at = At::Watch;
                Step::Pend
            },
            (At::Frame, Event::Frame(Poll::Ready(Some(Err(failure))))) => self.end(
                Err(Error::new_outside(Kind::UserBody, failure)),
            ),
            (At::Frame, Event::Frame(Poll::Ready(Some(Ok(frame))))) => self.take_frame(frame),
            (At::Frame, Event::Frame(Poll::Ready(None))) => {
                if self.is_short() {
                    self.end(Err(Error::new_reason(Kind::UserBody, Reason::BodyTooShort)))
                } else {
                    self.at = At::Finish;
                    Step::Finish
                }
            },
            (At::Chunk, Event::Sent(Ok(_))) => {
                if client::cooperate(&mut self.budget) {
                    self.at = At::RestInFrame;
                    Step::Rest
                } else {
                    self.go_on()
                }
            },
            (At::Chunk, Event::Sent(Err(failure))) => self.fail(failure),
            (At::RestInFrame, Event::Rested) => self.go_on(),
            (At::Trailers, Event::Sent(Ok(_))) => {
                self.trailers_sent = true;
                self.end_frame()
            },
            (At::Trailers, Event::Sent(Err(failure))) => self.fail(failure),
            (At::Rest, Event::Rested) => {
                self.at = At::Watch;
                Step::PollStopped
            },
            (At::Finish, Event::Sent(Ok(_))) => {
                // FIN is only queued. The exchange stays active until it is
                // delivered or the peer cancels, so that a drain cannot discard it.
                self.send.finished = true;
                self.at = At::Acknowledgment;
                Step::AwaitAcknowledgment { close_route: self.send.datagrams }
            },
            (At::Finish, Event::Sent(Err(failure))) => self.fail(failure),
            (At::Acknowledgment, Event::Stopped(Poll::Pending)) => Step::Pend,
            (At::Acknowledgment, Event::Stopped(Poll::Ready(Ok(_)))) => self.end(Ok(())),
            (At::Acknowledgment, Event::Stopped(Poll::Ready(Err(failure)))) => self.end(
                Err(Error::new_outside(Kind::Http3, failure)),
            ),
            _ => Step::Nothing,
        }
    }
}

/// The upload after outcomes, one after the other.
pub open spec fn upload_after<T, X>(
    upload: Upload<Seq<u8>>,
    events: Seq<Event<Seq<u8>, T, X>>,
) -> Upload<Seq<u8>>
    decreases events.len(),
{
    if events.len() == 0 {
        upload
    } else {
        upload_after(upload, events.drop_last()).next(events.last()).0
    }
}

/// What the upload calls for after the last of these outcomes.
pub open spec fn upload_step<T, X>(
    upload: Upload<Seq<u8>>,
    events: Seq<Event<Seq<u8>, T, X>>,
) -> Step<Seq<u8>, T, X> {
    upload_after(upload, events.drop_last()).next(events.last()).1
}

/// The body data that an outcome brings and the upload takes.
pub open spec fn data_taken<T, X>(
    upload: Upload<Seq<u8>>,
    event: Event<Seq<u8>, T, X>,
) -> Seq<u8> {
    match event {
        Event::Frame(Poll::Ready(Some(Ok(Frame::Data(data))))) => if upload.at == At::Frame
            && !upload.trailers_sent && client::length_left(upload.remaining, data.len()) is Ok {
            data
        } else {
            Seq::empty()
        },
        _ => Seq::empty(),
    }
}

/// The chunk that an upload calls to be sent after an outcome.
pub open spec fn chunk_called<T, X>(
    upload: Upload<Seq<u8>>,
    event: Event<Seq<u8>, T, X>,
) -> Seq<u8> {
    match upload.next(event).1 {
        Step::SendData(chunk) => chunk,
        _ => Seq::empty(),
    }
}

/// The data frames that came in with the outcomes, joined.
pub open spec fn body_taken<T, X>(
    upload: Upload<Seq<u8>>,
    events: Seq<Event<Seq<u8>, T, X>>,
) -> Seq<u8>
    decreases events.len(),
{
    if events.len() == 0 {
        Seq::empty()
    } else {
        body_taken(upload, events.drop_last()) + data_taken(
            upload_after(upload, events.drop_last()),
            events.last(),
        )
    }
}

/// The chunks that the upload called to be sent, joined.
pub open spec fn body_sent<T, X>(
    upload: Upload<Seq<u8>>,
    events: Seq<Event<Seq<u8>, T, X>>,
) -> Seq<u8>
    decreases events.len(),
{
    if events.len() == 0 {
        Seq::empty()
    } else {
        body_sent(upload, events.drop_last()) + chunk_called(
            upload_after(upload, events.drop_last()),
            events.last(),
        )
    }
}

/// An outcome leaves of the current frame, and of what it brought, what is not
/// handed out with it.
proof fn lemma_chunk_is_the_front<T, X>(
    upload: Upload<Seq<u8>>,
    event: Event<Seq<u8>, T, X>,
)
    requires
        upload.wf(),
    ensures
        chunk_called(upload, event) + upload.next(event).0.data == upload.data + data_taken(
            upload,
            event,
        ),
        upload.next(event).0.wf(),
{
    let after = upload.next(event).0;
    let taken = data_taken(upload, event);
    let chunk = chunk_called(upload, event);
    if upload.at == At::Frame {
        assert(upload.data =~= Seq::empty());
    }
    assert(chunk + after.data =~= upload.data + taken);
}

proof fn lemma_upload_counts<T, X>(
    send: SendGuard,
    length: Option<u64>,
    events: Seq<Event<Seq<u8>, T, X>>,
)
    requires
        !send.finished,
    ensures
        ({
            let begun = Upload::new_upload(send, length);
            let upload = upload_after(begun, events);
            &&& upload.wf()
            &&& upload.remaining is Some <==> length is Some
            &&& length is Some ==> body_taken(begun, events).len() + upload.remaining->0
                == length->0
            &&& body_sent(begun, events) + upload.data == body_taken(begun, events)
        }),
    decreases events.len(),
{
    let begun = Upload::new_upload(send, length);
    if events.len() > 0 {
        let before = events.drop_last();
        lemma_upload_counts(send, length, before);
        let upload = upload_after(begun, before);
        let event = events.last();
        let after = upload.next(event).0;
        lemma_chunk_is_the_front(upload, event);
        let sent = body_sent(begun, before);
        assert((sent + chunk_called(upload, event)) + after.data =~= sent + (chunk_called(
            upload,
            event,
        ) + after.data));
        assert(sent + (upload.data + data_taken(upload, event)) =~= (sent + upload.data)
            + data_taken(upload, event));
    } else {
        assert(body_sent(begun, events) + begun.data =~= body_taken(begun, events));
    }
}

/// An upload sends the body it is given, in order and whole: the chunks that it
/// has called to be sent, joined, and what is left of the current frame are the
/// data frames that came in, joined. It never takes more than the declared
/// length, and calls for the FIN only when the chunks are all that came in, and
/// that has exactly the declared length.
pub proof fn law_upload_sends_what_was_declared<T, X>(
    send: SendGuard,
    length: Option<u64>,
    events: Seq<Event<Seq<u8>, T, X>>,
)
    requires
        !send.finished,
    ensures
        ({
            let begun = Upload::new_upload(send, length);
            let upload = upload_after(begun, events);
            &&& body_sent(begun, events) + upload.data == body_taken(begun, events)
            &&& length is Some ==> body_taken(begun, events).len() <= length->0
            &&& events.len() > 0 && upload_step(begun, events) is Finish ==> {
                &&& body_sent(begun, events) == body_taken(begun, events)
                &&& length is Some ==> body_sent(begun, events).len() == length->0
            }
        }),
{
    lemma_upload_counts(send, length, events);
    if events.len() > 0 {
        lemma_upload_counts(send, length, events.drop_last());
        let begun = Upload::new_upload(send, length);
        if upload_step(begun, events) is Finish {
            assert(body_sent(begun, events) + upload_after(begun, events).data =~= body_sent(
                begun,
                events,
            ));
        }
    }
}

/// A chunk is never empty and never larger than the limit, and while one is
/// under way nothing else is called for before it was taken.
pub proof fn law_chunks_are_bounded<T, X>(
    upload: Upload<Seq<u8>>,
    event: Event<Seq<u8>, T, X>,
)
    requires
        upload.wf(),
    ensures
        upload.next(event).1 is SendData ==> {
            &&& 0 < (upload.next(event).1->SendData_0).len() <= client::CHUNK
            &&& upload.next(event).0.at == At::Chunk
        },
        upload.at == At::Chunk && (upload.next(event).1 is SendData || upload.next(event).1
            is PollStopped || upload.next(event).1 is Rest) ==> event is Sent
            && event->Sent_0 is Ok,
{
}

/// The trailers that an upload calls to be sent are those that came in.
pub proof fn law_trailers_are_sent_as_they_came<T, X>(
    upload: Upload<Seq<u8>>,
    event: Event<Seq<u8>, T, X>,
)
    requires
        upload.next(event).1 is SendTrailers,
    ensures
        event == Event::<Seq<u8>, T, X>::Frame(
            Poll::Ready(Some(Ok(Frame::Trailers(upload.next(event).1->SendTrailers_0)))),
        ),
{
}

/// Nothing follows the trailers but the FIN: once they are sent, an upload
/// calls for neither data nor trailers any more.
pub proof fn law_nothing_follows_the_trailers<T, X>(
    send: SendGuard,
    length: Option<u64>,
    events: Seq<Event<Seq<u8>, T, X>>,
    more: Seq<Event<Seq<u8>, T, X>>,
)
    requires
        !send.finished,
        upload_after(Upload::new_upload(send, length), events).trailers_sent,
        more.len() > 0,
    ensures
        upload_step(Upload::new_upload(send, length), events + more) !is SendData,
        upload_step(Upload::new_upload(send, length), events + more) !is SendTrailers,
{
    let begun = Upload::new_upload(send, length);
    lemma_trailers_stay_last(begun, events + more.drop_last(), events.len() as int);
    assert((events + more.drop_last()).take(events.len() as int) =~= events);
    assert((events + more).drop_last() =~= events + more.drop_last());
    assert((events + more).last() == more.last());
    assert(!begun.trailers_sent);
}

/// Where the upload is with regard to its trailers.
spec fn trailers_are_last(upload: Upload<Seq<u8>>) -> bool {
    upload.trailers_sent ==> upload.at != At::Chunk && upload.at != At::RestInFrame && upload.at
        != At::Trailers
}

proof fn lemma_trailers_stay_last<T, X>(begun: Upload<Seq<u8>>, events: Seq<Event<Seq<u8>, T, X>>, from: int)
    requires
        begun.wf(),
        !begun.trailers_sent,
        0 <= from <= events.len(),
    ensures
        upload_after(begun, events).wf(),
        trailers_are_last(upload_after(begun, events)),
        upload_after(begun, events.take(from)).trailers_sent ==> upload_after(
            begun,
            events,
        ).trailers_sent,
    decreases events.len(),
{
    if events.len() == from {
        assert(events.take(from) =~= events);
    }
    if events.len() > 0 {
        if from < events.len() {
            assert(events.drop_last().take(from) =~= events.take(from));
            lemma_trailers_stay_last(begun, events.drop_last(), from);
        } else {
            lemma_trailers_stay_last(begun, events.drop_last(), from - 1);
        }
    }
}

/// An upload that ends well has its FIN acknowledged, or was stopped by the
/// peer before: a drain that waits for it cannot discard bytes or a FIN that
/// are only queued. Dropping one that was stopped resets the stream.
pub proof fn law_upload_ends_well_only_when_delivered_or_stopped<T, X>(
    upload: Upload<Seq<u8>>,
    event: Event<Seq<u8>, T, X>,
    invalid: bool,
)
    requires
        upload.wf(),
        upload.next(event).1 is Return,
        upload.next(event).1->Return_0 is Ok,
    ensures
        upload.next(event).0.send.finished ==> upload.at == At::Acknowledgment && event is Stopped
            && event->Stopped_0 is Ready && event->Stopped_0->0 is Ok,
        !upload.next(event).0.send.finished ==> {
            &&& (event is Stopped && event->Stopped_0 is Ready) || (event is Sent
                && event->Sent_0 is Err && event->Sent_0->Err_0 is RemoteTerminate)
            &&& upload.next(event).0.send.reset_code(invalid) is Some
        },
{
}

/// The body is polled only right after it was found that the peer has not
/// stopped the stream, so a body that is always ready cannot hide a stop.
pub proof fn law_stop_is_looked_for_before_each_frame<T, X>(upload: Upload<Seq<u8>>, event: Event<Seq<u8>, T, X>)
    requires
        upload.next(event).1 is PollFrame,
    ensures
        event is Stopped,
        event->Stopped_0 is Pending,
{
}

/// What a task that finishes an upload takes in.
#[derive(Debug)]
pub enum TaskEvent<X> {
    /// It was looked whether an invalid Datagram came.
    Datagram { invalid: bool },
    /// It was looked whether the exchange still goes on.
    Watched { going_on: bool },
    /// The upload was polled.
    Upload(Poll<Result<(), Error<X>>>),
    /// The upload was dropped, as it was called for with this failure.
    Dropped(Option<Error<X>>),
}

/// What a task that finishes an upload calls for.
#[derive(Debug)]
pub enum TaskStep<X> {
    /// Look whether the response has failed.
    Watch,
    PollUpload,
    /// Wait until polled again.
    Pend,
    /// Drop the upload, which resets it unless it is finished.
    Drop(Option<Error<X>>),
    /// Report the failure, if there is one, to the response; the task is over.
    Over(Option<Error<X>>),
}

/// What follows in a task that finishes an upload.
pub open spec fn task_step<X>(event: TaskEvent<X>) -> TaskStep<X> {
    match event {
        TaskEvent::Datagram { invalid } => if invalid {
            TaskStep::Drop(Some(Error::because(Kind::Http3, Reason::InvalidDatagram)))
        } else {
            TaskStep::Watch
        },
        TaskEvent::Watched { going_on } => if going_on {
            TaskStep::PollUpload
        } else {
            TaskStep::Drop(Some(Error::plain(Kind::Canceled)))
        },
        TaskEvent::Upload(Poll::Pending) => TaskStep::Pend,
        TaskEvent::Upload(Poll::Ready(Ok(_))) => TaskStep::Drop(None),
        TaskEvent::Upload(Poll::Ready(Err(error))) => TaskStep::Drop(Some(error)),
        TaskEvent::Dropped(failure) => TaskStep::Over(failure),
    }
}

/// Goes on with an upload that outlived the response head. A poll first looks
/// for an invalid Datagram, then whether the response has failed, and only then
/// polls the upload. Either direction failing cancels the other. An unfinished
/// upload is reset before the response learns why.
pub fn continue_upload<X>(event: TaskEvent<X>) -> (step: TaskStep<X>)
    ensures
        step == task_step(event),
{
    match event {
        TaskEvent::Datagram { invalid } => {
            if invalid {
                TaskStep::Drop(Some(client::invalid_datagram_error()))
            } else {
                TaskStep::Watch
            }
        },
        TaskEvent::Watched { going_on } => {
            if going_on {
                TaskStep::PollUpload
            } else {
                TaskStep::Drop(Some(Error::new(Kind::Canceled)))
            }
        },
        TaskEvent::Upload(Poll::Pending) => TaskStep::Pend,
        TaskEvent::Upload(Poll::Ready(Ok(_))) => TaskStep::Drop(None),
        TaskEvent::Upload(Poll::Ready(Err(error))) => TaskStep::Drop(Some(error)),
        TaskEvent::Dropped(failure) => TaskStep::Over(failure),
    }
}

/// The response learns of a failure only once the upload is dropped, and so
/// once an unfinished one is reset.
pub proof fn law_upload_is_dropped_before_the_response_learns_why<X>(event: TaskEvent<X>)
    requires
        task_step(event) is Over,
    ensures
        event == TaskEvent::Dropped(task_step(event)->Over_0),
{
}

/// A trailers frame that comes while an upload waits for a frame is called to be
/// sent as it is, whether or not a length was declared. Only what breaks the
/// order fails: trailers after trailers, and trailers while something is left of
/// a declared length.
pub proof fn law_trailers_that_come_are_sent<T, X>(
    upload: &mut Upload<Bytes>,
    trailers: T,
    step: Step<Bytes, T, X>,
)
    requires
        call_ensures(
            Upload::<Bytes>::step::<T, X>,
            (upload, Event::Frame(Poll::Ready(Some(Ok(Frame::Trailers(trailers)))))),
            step,
        ),
        old(upload)@.wf(),
        old(upload).at == At::Frame,
    ensures
        ({
            let left = old(upload).remaining is Some && old(upload).remaining->0 > 0;
            &&& old(upload).trailers_sent ==> step == Step::<Bytes, T, X>::Return(
                Err(Error::because(Kind::UserBody, Reason::FrameAfterTrailers)),
            )
            &&& !old(upload).trailers_sent && left ==> step == Step::<Bytes, T, X>::Return(
                Err(Error::because(Kind::UserBody, Reason::BodyTooShort)),
            )
            &&& !old(upload).trailers_sent && !left ==> {
                &&& step == Step::<Bytes, T, X>::SendTrailers(trailers)
                &&& final(upload).at == At::Trailers
            }
            &&& step is Return ==> final(upload).at == At::Done
            &&& final(upload)@ == (Upload { at: final(upload).at, ..old(upload)@ })
        }),
{
}

/// A data frame that comes while an upload waits for a frame is counted against
/// the length, and called to be sent from its front on, as much as a chunk may
/// hold. Data after trailers and more than the length fail; an empty frame is
/// done with.
pub proof fn law_data_that_comes_is_sent<T, X>(
    upload: &mut Upload<Bytes>,
    data: Bytes,
    step: Step<Bytes, T, X>,
)
    requires
        call_ensures(
            Upload::<Bytes>::step::<T, X>,
            (upload, Event::Frame(Poll::Ready(Some(Ok(Frame::Data(data)))))),
            step,
        ),
        old(upload)@.wf(),
        old(upload).at == At::Frame,
        !old(upload).trailers_sent,
    ensures
        ({
            let size = buf::content(data).len();
            let over = old(upload).remaining is Some && size > old(upload).remaining->0;
            &&& over ==> {
                &&& step == Step::<Bytes, T, X>::Return(
                    Err(Error::because(Kind::UserBody, Reason::BodyTooLong)),
                )
                &&& final(upload)@ == (Upload { at: At::Done, ..old(upload)@ })
            }
            &&& !over ==> {
                &&& old(upload).remaining is None ==> final(upload).remaining is None
                &&& old(upload).remaining is Some ==> {
                    &&& final(upload).remaining is Some
                    &&& final(upload).remaining->0 == old(upload).remaining->0 - size
                }
                &&& final(upload).send == old(upload).send
                &&& !final(upload).trailers_sent
            }
            &&& !over && size > 0 ==> {
                &&& step is SendData
                &&& buf::content(step->SendData_0) + final(upload)@.data == buf::content(data)
                &&& 0 < buf::content(step->SendData_0).len() <= 16384
                &&& final(upload)@.data.len() > 0 ==> buf::content(step->SendData_0).len() == 16384
                &&& final(upload).at == At::Chunk && final(upload).budget == old(upload).budget
            }
            &&& !over && size == 0 && old(upload).budget < 31 ==> {
                &&& step is PollStopped && final(upload).at == At::Watch
                &&& final(upload).budget == old(upload).budget + 1
            }
            &&& !over && size == 0 && old(upload).budget == 31 ==> {
                &&& step is Rest && final(upload).at == At::Rest && final(upload).budget == 0
            }
        }),
{
    let whole = buf::content(data);
    let size = client::chunk_size(whole.len()) as int;
    assert(whole.take(size) + whole.skip(size) =~= whole);
}

/// Data after trailers fails, and so does every other frame after them.
pub proof fn law_no_frame_may_follow_trailers<T, X>(
    upload: &mut Upload<Bytes>,
    frame: Frame<Bytes, T>,
    step: Step<Bytes, T, X>,
)
    requires
        call_ensures(
            Upload::<Bytes>::step::<T, X>,
            (upload, Event::Frame(Poll::Ready(Some(Ok(frame))))),
            step,
        ),
        old(upload)@.wf(),
        old(upload).at == At::Frame,
        old(upload).trailers_sent,
    ensures
        step == Step::<Bytes, T, X>::Return(
            Err(Error::because(Kind::UserBody, Reason::FrameAfterTrailers)),
        ),
        final(upload)@ == (Upload { at: At::Done, ..old(upload)@ }),
{
}

/// A body that has no frame yet is asked again after the peer; one that fails
/// fails the upload; one that ends is finished, unless something is left of its
/// length; and a frame that is neither data nor trailers is passed over.
pub proof fn law_other_answers_of_the_body<T, X>(
    upload: &mut Upload<Bytes>,
    frame: Poll<Option<Result<Frame<Bytes, T>, X>>>,
    step: Step<Bytes, T, X>,
)
    requires
        call_ensures(Upload::<Bytes>::step::<T, X>, (upload, Event::Frame(frame)), step),
        old(upload)@.wf(),
        old(upload).at == At::Frame,
    ensures
        ({
            let left = old(upload).remaining is Some && old(upload).remaining->0 > 0;
            let kept = Upload {
                at: final(upload).at,
                budget: final(upload).budget,
                ..old(upload)@
            };
            let other = frame == Poll::Ready(
                Some(Ok::<Frame<Bytes, T>, X>(Frame::<Bytes, T>::Other)),
            ) && !old(upload).trailers_sent;
            &&& frame is Pending ==> step is Pend && final(upload)@ == (Upload {
                at: At::Watch,
                ..old(upload)@
            })
            &&& frame matches Poll::Ready(Some(Err(failure))) ==> {
                &&& step == Step::<Bytes, T, X>::Return(
                    Err(Error::outside(Kind::UserBody, failure)),
                )
                &&& final(upload)@ == (Upload { at: At::Done, ..old(upload)@ })
            }
            &&& frame == Poll::Ready(None::<Result<Frame<Bytes, T>, X>>) && left ==> {
                &&& step == Step::<Bytes, T, X>::Return(
                    Err(Error::because(Kind::UserBody, Reason::BodyTooShort)),
                )
                &&& final(upload)@ == (Upload { at: At::Done, ..old(upload)@ })
            }
            &&& frame == Poll::Ready(None::<Result<Frame<Bytes, T>, X>>) && !left ==> {
                &&& step is Finish
                &&& final(upload)@ == (Upload { at: At::Finish, ..old(upload)@ })
            }
            &&& other ==> final(upload)@ == kept
            &&& other && old(upload).budget < 31 ==> step is PollStopped && kept.at == At::Watch
                && kept.budget == old(upload).budget + 1
            &&& other && old(upload).budget == 31 ==> step is Rest && kept.at == At::Rest
                && kept.budget == 0
        }),
{
}

/// Before a frame and after the FIN the peer is looked at. Before a frame, a peer
/// that has not stopped lets the body be polled; after the FIN it is waited for.
/// Either way one that stopped or acknowledged ends the upload well, and a lost
/// connection fails it.
pub proof fn law_answer_of_the_peer_ends_the_upload<T, X>(
    upload: &mut Upload<Bytes>,
    stopped: Poll<Result<(), X>>,
    step: Step<Bytes, T, X>,
)
    requires
        call_ensures(Upload::<Bytes>::step::<T, X>, (upload, Event::Stopped(stopped)), step),
        old(upload)@.wf(),
        old(upload).at == At::Watch || old(upload).at == At::Acknowledgment,
    ensures
        final(upload)@ == (Upload { at: final(upload).at, ..old(upload)@ }),
        stopped is Pending && old(upload).at == At::Watch ==> step is PollFrame && final(upload).at
            == At::Frame,
        stopped is Pending && old(upload).at == At::Acknowledgment ==> step is Pend
            && final(upload).at == At::Acknowledgment,
        stopped is Ready ==> final(upload).at == At::Done && step is Return,
        stopped is Ready && stopped->0 is Ok ==> step->Return_0 is Ok,
        stopped matches Poll::Ready(Err(failure)) ==> step->Return_0 == Err::<(), Error<X>>(
            Error::outside(Kind::Http3, failure),
        ),
{
}

/// What was taken lets the upload go on: a chunk with the rest of its frame, or
/// the next frame where there is none; trailers with the end of the body; the FIN
/// with the wait for its acknowledgment, which closes the Datagram route where
/// there is one. A turn of the runtime comes in between at the end of a burst.
pub proof fn law_what_is_taken_lets_the_upload_go_on<T, X>(
    upload: &mut Upload<Bytes>,
    step: Step<Bytes, T, X>,
)
    requires
        call_ensures(Upload::<Bytes>::step::<T, X>, (upload, Event::Sent(Ok(()))), step),
        old(upload)@.wf(),
        old(upload).at == At::Chunk || old(upload).at == At::Trailers || old(upload).at
            == At::Finish,
    ensures
        ({
            let chunk = old(upload).at == At::Chunk;
            let rest = old(upload)@.data;
            let rests = old(upload).at != At::Finish && old(upload).budget == 31;
            let next = old(upload).at == At::Trailers || chunk && rest.len() == 0;
            &&& final(upload).remaining == old(upload).remaining
            &&& final(upload).trailers_sent == (old(upload).trailers_sent || old(upload).at
                == At::Trailers)
            &&& rests ==> step is Rest && final(upload).budget == 0 && final(upload)@.data == rest
            &&& rests && chunk ==> final(upload).at == At::RestInFrame
            &&& rests && !chunk ==> final(upload).at == At::Rest
            &&& old(upload).at != At::Finish ==> final(upload).send == old(upload).send
            &&& !rests && chunk && rest.len() > 0 ==> {
                &&& step is SendData
                &&& buf::content(step->SendData_0) + final(upload)@.data == rest
                &&& 0 < buf::content(step->SendData_0).len() <= 16384
                &&& final(upload)@.data.len() > 0 ==> buf::content(step->SendData_0).len() == 16384
                &&& final(upload).at == At::Chunk
                &&& final(upload).budget == old(upload).budget + 1
            }
            &&& old(upload).at == At::Trailers && !rests ==> {
                &&& step is PollStopped && final(upload).at == At::Watch
                &&& final(upload).budget == old(upload).budget + 1
            }
            &&& chunk && rest.len() == 0 && old(upload).budget < 30 ==> {
                &&& step is PollStopped && final(upload).at == At::Watch
                &&& final(upload).budget == old(upload).budget + 2
            }
            &&& chunk && rest.len() == 0 && old(upload).budget == 30 ==> {
                &&& step is Rest && final(upload).at == At::Rest && final(upload).budget == 0
            }
            &&& next ==> final(upload)@.data == rest
            &&& old(upload).at == At::Finish ==> {
                &&& step == (Step::<Bytes, T, X>::AwaitAcknowledgment {
                    close_route: old(upload).send.datagrams,
                })
                &&& final(upload).send.finished
                &&& final(upload).send.datagrams == old(upload).send.datagrams
                &&& final(upload).at == At::Acknowledgment
                &&& final(upload).budget == old(upload).budget
                &&& final(upload)@.data == rest
            }
        }),
{
    let rest = old(upload)@.data;
    let size = client::chunk_size(rest.len()) as int;
    assert(rest.take(size) + rest.skip(size) =~= rest);
}

/// What was not taken ends the upload: well where the peer stopped the stream,
/// and with the failure otherwise. The half stays unfinished.
pub proof fn law_what_is_not_taken_ends_the_upload<T, X>(
    upload: &mut Upload<Bytes>,
    failure: StreamFailure<X>,
    step: Step<Bytes, T, X>,
)
    requires
        call_ensures(Upload::<Bytes>::step::<T, X>, (upload, Event::Sent(Err(failure))), step),
        old(upload)@.wf(),
        old(upload).at == At::Chunk || old(upload).at == At::Trailers || old(upload).at
            == At::Finish,
    ensures
        final(upload)@ == (Upload { at: At::Done, ..old(upload)@ }),
        step is Return,
        failure is RemoteTerminate ==> step->Return_0 is Ok,
        failure matches StreamFailure::Other(failure) ==> step->Return_0 == Err::<(), Error<X>>(
            Error::outside(Kind::Http3, failure),
        ),
{
}

/// After a turn of the runtime the upload goes on where it was: with the rest of
/// the frame, or with the next one.
pub proof fn law_upload_goes_on_after_a_rest<T, X>(
    upload: &mut Upload<Bytes>,
    step: Step<Bytes, T, X>,
)
    requires
        call_ensures(Upload::<Bytes>::step::<T, X>, (upload, Event::Rested), step),
        old(upload)@.wf(),
        old(upload).at == At::RestInFrame || old(upload).at == At::Rest,
    ensures
        ({
            let rest = old(upload)@.data;
            &&& final(upload).send == old(upload).send && final(upload).remaining
                == old(upload).remaining && final(upload).trailers_sent
                == old(upload).trailers_sent
            &&& old(upload).at == At::Rest ==> step is PollStopped && final(upload).at == At::Watch
                && final(upload).budget == old(upload).budget
            &&& old(upload).at == At::RestInFrame && rest.len() > 0 ==> {
                &&& step is SendData
                &&& buf::content(step->SendData_0) + final(upload)@.data == rest
                &&& 0 < buf::content(step->SendData_0).len() <= 16384
                &&& final(upload)@.data.len() > 0 ==> buf::content(step->SendData_0).len() == 16384
                &&& final(upload).at == At::Chunk && final(upload).budget == old(upload).budget
            }
            &&& old(upload).at == At::RestInFrame && rest.len() == 0 && old(upload).budget < 31
                ==> step is PollStopped && final(upload).at == At::Watch && final(upload).budget
                == old(upload).budget + 1
        }),
{
    let rest = old(upload)@.data;
    let size = client::chunk_size(rest.len()) as int;
    assert(rest.take(size) + rest.skip(size) =~= rest);
}

/// An outcome that does not belong to where the upload is changes nothing.
pub proof fn law_outcomes_belong_to_the_upload<T, X>(
    upload: &mut Upload<Bytes>,
    event: Event<Bytes, T, X>,
    step: Step<Bytes, T, X>,
)
    requires
        call_ensures(Upload::<Bytes>::step::<T, X>, (upload, event), step),
        old(upload)@.wf(),
        match event {
            Event::Stopped(_) => old(upload).at != At::Watch && old(upload).at
                != At::Acknowledgment,
            Event::Frame(_) => old(upload).at != At::Frame,
            Event::Sent(_) => old(upload).at != At::Chunk && old(upload).at != At::Trailers
                && old(upload).at != At::Finish,
            Event::Rested => old(upload).at != At::RestInFrame && old(upload).at != At::Rest,
        },
    ensures
        final(upload)@ == old(upload)@,
        step is Nothing,
{
}

/// An upload begins by looking at the peer, with nothing sent and all of its
/// length left. One whose FIN was sent begins with the wait for its
/// acknowledgment. Either resumes a poll there, and nowhere else.
pub proof fn law_upload_begins_with_the_peer<T, X>(
    send: SendGuard,
    length: Option<u64>,
    begun: Upload<Bytes>,
    sent: Upload<Bytes>,
    upload: Upload<Bytes>,
    step: Step<Bytes, T, X>,
)
    requires
        call_ensures(Upload::<Bytes>::new, (send, length), begun),
        call_ensures(Upload::<Bytes>::acknowledging, (send,), sent),
        call_ensures(Upload::<Bytes>::resume::<T, X>, (&upload,), step),
    ensures
        begun.at == At::Watch && begun.send == send && begun.remaining == length,
        begun@.data.len() == 0 && !begun.trailers_sent && begun.budget == 0,
        sent.at == At::Acknowledgment && sent.send == send && sent.remaining is None,
        sent@.data.len() == 0 && !sent.trailers_sent && sent.budget == 0,
        upload.at == At::Watch || upload.at == At::Acknowledgment ==> step is PollStopped,
        upload.at != At::Watch && upload.at != At::Acknowledgment ==> step is Nothing,
{
}

/// The trailers frames that came in while the upload waited for a frame, in
/// order.
pub open spec fn trailers_given<T, X>(
    upload: Upload<Seq<u8>>,
    events: Seq<Event<Seq<u8>, T, X>>,
) -> Seq<T>
    decreases events.len(),
{
    if events.len() == 0 {
        Seq::empty()
    } else {
        let before = trailers_given(upload, events.drop_last());
        match events.last() {
            Event::Frame(Poll::Ready(Some(Ok(Frame::Trailers(trailers))))) => if upload_after(
                upload,
                events.drop_last(),
            ).at == At::Frame {
                before.push(trailers)
            } else {
                before
            },
            _ => before,
        }
    }
}

/// The trailers that the upload called to be sent, in order.
pub open spec fn trailers_called<T, X>(
    upload: Upload<Seq<u8>>,
    events: Seq<Event<Seq<u8>, T, X>>,
) -> Seq<T>
    decreases events.len(),
{
    if events.len() == 0 {
        Seq::empty()
    } else {
        let before = trailers_called(upload, events.drop_last());
        match upload_step(upload, events) {
            Step::SendTrailers(trailers) => before.push(trailers),
            _ => before,
        }
    }
}

/// The data frames that came in while the upload waited for a frame, joined.
pub open spec fn data_given<T, X>(
    upload: Upload<Seq<u8>>,
    events: Seq<Event<Seq<u8>, T, X>>,
) -> Seq<u8>
    decreases events.len(),
{
    if events.len() == 0 {
        Seq::empty()
    } else {
        let before = data_given(upload, events.drop_last());
        match events.last() {
            Event::Frame(Poll::Ready(Some(Ok(Frame::Data(data))))) => if upload_after(
                upload,
                events.drop_last(),
            ).at == At::Frame {
                before + data
            } else {
                before
            },
            _ => before,
        }
    }
}

proof fn lemma_nothing_given_is_lost<T, X>(
    begun: Upload<Seq<u8>>,
    events: Seq<Event<Seq<u8>, T, X>>,
)
    ensures
        upload_after(begun, events).at != At::Done ==> {
            &&& trailers_called(begun, events) == trailers_given(begun, events)
            &&& body_taken(begun, events) == data_given(begun, events)
        },
    decreases events.len(),
{
    if events.len() > 0 {
        lemma_nothing_given_is_lost(begun, events.drop_last());
        let before = body_taken(begun, events.drop_last());
        assert(before + Seq::<u8>::empty() =~= before);
    }
}

/// By the time the FIN is called for, everything that the body gave was called to
/// be sent: every trailers frame as it came, and the data of every data frame, in
/// order, declared length or not.
pub proof fn law_all_that_was_given_is_sent_before_the_fin<T, X>(
    send: SendGuard,
    length: Option<u64>,
    events: Seq<Event<Seq<u8>, T, X>>,
)
    requires
        !send.finished,
        events.len() > 0,
        upload_step(Upload::new_upload(send, length), events) is Finish,
    ensures
        ({
            let begun = Upload::new_upload(send, length);
            &&& trailers_called(begun, events) == trailers_given(begun, events)
            &&& body_sent(begun, events) == data_given(begun, events)
        }),
{
    let begun = Upload::new_upload(send, length);
    lemma_nothing_given_is_lost(begun, events);
    law_upload_sends_what_was_declared(send, length, events);
}

/// A task that finishes an upload looks for an invalid Datagram, then at the
/// response, then polls the upload. An invalid Datagram, a response that failed
/// and an upload that failed drop the upload with that failure; one that ended
/// well is dropped without. What the upload was dropped with is what is reported.
pub proof fn law_either_direction_cancels_the_other<X>(event: TaskEvent<X>, step: TaskStep<X>)
    requires
        call_ensures(continue_upload::<X>, (event,), step),
    ensures
        event matches TaskEvent::Datagram { invalid } ==> if invalid {
            step == TaskStep::<X>::Drop(
                Some(Error::because(Kind::Http3, Reason::InvalidDatagram)),
            )
        } else {
            step is Watch
        },
        event matches TaskEvent::Watched { going_on } ==> if going_on {
            step is PollUpload
        } else {
            step == TaskStep::<X>::Drop(Some(Error::plain(Kind::Canceled)))
        },
        event is Upload && event->Upload_0 is Pending ==> step is Pend,
        event is Upload && event->Upload_0 is Ready && event->Upload_0->0 is Ok ==> step
            == TaskStep::<X>::Drop(None),
        event matches TaskEvent::Upload(Poll::Ready(Err(error))) ==> step == TaskStep::<X>::Drop(
            Some(error),
        ),
        event matches TaskEvent::Dropped(failure) ==> step == TaskStep::<X>::Over(failure),
{
}

} // verus!
