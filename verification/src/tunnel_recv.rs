//! The receiving direction of a CONNECT tunnel.

use bytes::Bytes;
use vstd::prelude::*;

use crate::buf;
use crate::client::{self, RecvGuard, BURST};
use crate::error::{Error, Kind, Poll};

verus! {

/// What the receiving direction of a tunnel waits for in a poll.
#[derive(Clone, Copy, PartialEq, Eq, Structural, Debug)]
pub enum RecvAt {
    /// The next poll.
    Rest,
    /// Whether the reader is gone.
    Watch,
    /// Room for the reader.
    Room,
    /// A chunk to be taken by the reader.
    Forward,
    /// Data on the stream.
    Data,
    /// Trailers, or the end of the stream.
    Trailers,
    /// Nothing more.
    Done,
}

/// Forwards received data with backpressure and delivers the end after
/// trailers. `D` is the buffer that the reader has not yet accepted.
#[derive(Debug)]
pub struct RecvStream<D> {
    pub recv: RecvGuard,
    /// The reader can still be told of data, a failure or the end.
    pub open: bool,
    pub data: Option<D>,
    pub data_done: bool,
    pub at: RecvAt,
    /// How many rounds this poll has taken.
    pub budget: usize,
}

/// An outcome that the receiving direction takes.
#[derive(Debug)]
pub enum RecvEvent<D, X> {
    /// The direction is polled.
    Start,
    /// It was looked whether the reader is gone.
    Closed(bool),
    /// The channel to the reader was polled for room.
    Room(Poll<Result<(), Error<X>>>),
    /// The chunk was taken, or not where the reader is gone.
    Forwarded(bool),
    /// The stream was polled for data.
    Data(Poll<Result<Option<D>, X>>),
    /// The stream was polled for trailers, which are passed over.
    Trailers(Poll<Result<(), X>>),
}

/// What the receiving direction calls for next.
#[derive(Debug)]
pub enum RecvStep<D, X> {
    PollClosed,
    PollRoom,
    /// Hand this chunk to the reader.
    Forward(D),
    PollData,
    PollTrailers,
    /// Wait until polled again.
    Pend,
    /// Ask to be polled again at once, and wait for that.
    Yield,
    /// The stream is read to its end: close the Datagram route for receiving,
    /// where it says so, and tell the reader of the end.
    Finish { close_route: bool },
    /// The direction is over.
    Return(Result<(), Error<X>>),
    /// Nothing: the outcome does not belong to where the direction is.
    Nothing,
}

impl View for RecvStream<Bytes> {
    type V = RecvStream<Seq<u8>>;

    open spec fn view(&self) -> RecvStream<Seq<u8>> {
        RecvStream {
            recv: self.recv,
            open: self.open,
            data: match self.data {
                Some(data) => Some(buf::content(data)),
                None => None,
            },
            data_done: self.data_done,
            at: self.at,
            budget: self.budget,
        }
    }
}

impl<X> View for RecvEvent<Bytes, X> {
    type V = RecvEvent<Seq<u8>, X>;

    open spec fn view(&self) -> RecvEvent<Seq<u8>, X> {
        match self {
            RecvEvent::Start => RecvEvent::Start,
            RecvEvent::Closed(closed) => RecvEvent::Closed(*closed),
            RecvEvent::Room(found) => RecvEvent::Room(*found),
            RecvEvent::Forwarded(taken) => RecvEvent::Forwarded(*taken),
            RecvEvent::Data(Poll::Pending) => RecvEvent::Data(Poll::Pending),
            RecvEvent::Data(Poll::Ready(Err(failure))) => RecvEvent::Data(
                Poll::Ready(Err(*failure)),
            ),
            RecvEvent::Data(Poll::Ready(Ok(None))) => RecvEvent::Data(Poll::Ready(Ok(None))),
            RecvEvent::Data(Poll::Ready(Ok(Some(data)))) => RecvEvent::Data(
                Poll::Ready(Ok(Some(buf::content(*data)))),
            ),
            RecvEvent::Trailers(found) => RecvEvent::Trailers(*found),
        }
    }
}

impl<X> View for RecvStep<Bytes, X> {
    type V = RecvStep<Seq<u8>, X>;

    open spec fn view(&self) -> RecvStep<Seq<u8>, X> {
        match self {
            RecvStep::PollClosed => RecvStep::PollClosed,
            RecvStep::PollRoom => RecvStep::PollRoom,
            RecvStep::Forward(data) => RecvStep::Forward(buf::content(*data)),
            RecvStep::PollData => RecvStep::PollData,
            RecvStep::PollTrailers => RecvStep::PollTrailers,
            RecvStep::Pend => RecvStep::Pend,
            RecvStep::Yield => RecvStep::Yield,
            RecvStep::Finish { close_route } => RecvStep::Finish { close_route: *close_route },
            RecvStep::Return(result) => RecvStep::Return(*result),
            RecvStep::Nothing => RecvStep::Nothing,
        }
    }
}

impl RecvStream<Seq<u8>> {
    /// The direction of a tunnel that has just been made.
    pub open spec fn begun(recv: RecvGuard) -> Self {
        RecvStream {
            recv,
            open: true,
            data: None,
            data_done: false,
            at: RecvAt::Rest,
            budget: 0,
        }
    }

    /// The budget stays within a burst; data is forwarded only while there is
    /// some, and the stream is read on only when there is none.
    pub open spec fn wf(self) -> bool {
        &&& self.budget <= BURST
        &&& self.at != RecvAt::Rest && self.at != RecvAt::Done ==> self.budget < BURST && self.open
        &&& self.at == RecvAt::Room ==> self.data is Some && (self.data->0).len() > 0
        &&& self.at == RecvAt::Forward ==> self.data is Some
        &&& self.at == RecvAt::Data ==> self.data is None && !self.data_done
        &&& self.at == RecvAt::Trailers ==> self.data is None && self.data_done
        &&& !self.open ==> self.recv.finished
    }

    /// The direction at this place, with what it calls for there.
    pub open spec fn going<X>(self, at: RecvAt, step: RecvStep<Seq<u8>, X>) -> (
        Self,
        RecvStep<Seq<u8>, X>,
    ) {
        (RecvStream { at, ..self }, step)
    }

    /// The direction that is over.
    pub open spec fn over<X>(self, result: Result<(), Error<X>>) -> (
        Self,
        RecvStep<Seq<u8>, X>,
    ) {
        (RecvStream { at: RecvAt::Done, ..self }, RecvStep::Return(result))
    }

    /// The direction at the end of a round.
    pub open spec fn counted<X>(self) -> (Self, RecvStep<Seq<u8>, X>) {
        let counted = RecvStream { budget: (self.budget + 1) as usize, ..self };
        if counted.budget < BURST {
            counted.going(RecvAt::Watch, RecvStep::PollClosed)
        } else {
            counted.going(RecvAt::Rest, RecvStep::Yield)
        }
    }

    /// The direction while its reader is there: it forwards the data that it
    /// has, and reads on otherwise.
    pub open spec fn watched<X>(self) -> (Self, RecvStep<Seq<u8>, X>) {
        if self.data is Some && (self.data->0).len() > 0 {
            self.going(RecvAt::Room, RecvStep::PollRoom)
        } else if !self.data_done {
            (RecvStream { data: None, ..self }).going(RecvAt::Data, RecvStep::PollData)
        } else {
            (RecvStream { data: None, ..self }).going(RecvAt::Trailers, RecvStep::PollTrailers)
        }
    }

    /// The direction after an outcome, and what follows.
    pub open spec fn next<X>(self, event: RecvEvent<Seq<u8>, X>) -> (
        Self,
        RecvStep<Seq<u8>, X>,
    ) {
        match (self.at, event) {
            (RecvAt::Rest, RecvEvent::Start) => if !self.open {
                self.over(Ok(()))
            } else {
                (RecvStream { budget: 0, ..self }).going(RecvAt::Watch, RecvStep::PollClosed)
            },
            (RecvAt::Watch, RecvEvent::Closed(closed)) => if closed {
                self.over(Err(Error::plain(Kind::Canceled)))
            } else {
                self.watched()
            },
            (RecvAt::Room, RecvEvent::Room(Poll::Pending)) => self.going(
                RecvAt::Rest,
                RecvStep::Pend,
            ),
            (RecvAt::Room, RecvEvent::Room(Poll::Ready(Err(error)))) => self.over(Err(error)),
            (RecvAt::Room, RecvEvent::Room(Poll::Ready(Ok(_)))) => {
                let size = client::chunk_size((self.data->0).len());
                (RecvStream { data: Some((self.data->0).skip(size as int)), ..self }).going(
                    RecvAt::Forward,
                    RecvStep::Forward((self.data->0).take(size as int)),
                )
            },
            (RecvAt::Forward, RecvEvent::Forwarded(taken)) => if taken {
                self.counted()
            } else {
                self.over(Err(Error::plain(Kind::Canceled)))
            },
            (RecvAt::Data, RecvEvent::Data(Poll::Pending)) => self.going(
                RecvAt::Rest,
                RecvStep::Pend,
            ),
            (RecvAt::Data, RecvEvent::Data(Poll::Ready(Err(failure)))) => self.over(
                Err(Error::outside(Kind::Http3, failure)),
            ),
            (RecvAt::Data, RecvEvent::Data(Poll::Ready(Ok(Some(data))))) => (RecvStream {
                data: Some(data),
                ..self
            }).counted(),
            (RecvAt::Data, RecvEvent::Data(Poll::Ready(Ok(None)))) => (RecvStream {
                data_done: true,
                ..self
            }).going(RecvAt::Trailers, RecvStep::PollTrailers),
            (RecvAt::Trailers, RecvEvent::Trailers(Poll::Pending)) => self.going(
                RecvAt::Rest,
                RecvStep::Pend,
            ),
            (RecvAt::Trailers, RecvEvent::Trailers(Poll::Ready(Err(failure)))) => self.over(
                Err(Error::outside(Kind::Http3, failure)),
            ),
            (RecvAt::Trailers, RecvEvent::Trailers(Poll::Ready(Ok(_)))) => (
                RecvStream {
                    recv: RecvGuard { finished: true, ..self.recv },
                    open: false,
                    at: RecvAt::Done,
                    ..self
                },
                RecvStep::Finish { close_route: self.recv.datagrams },
            ),
            _ => (self, RecvStep::Nothing),
        }
    }
}

impl RecvStream<Bytes> {
    /// The receiving direction of a tunnel.
    pub fn new(recv: RecvGuard) -> (stream: Self)
        ensures
            stream@ == RecvStream::begun(recv),
            stream@.wf(),
    {
        RecvStream { recv, open: true, data: None, data_done: false, at: RecvAt::Rest, budget: 0 }
    }

    fn end<X>(&mut self, result: Result<(), Error<X>>) -> (step: RecvStep<Bytes, X>)
        ensures
            (final(self)@, step@) == old(self)@.over(result),
    {
        self.at = RecvAt::Done;
        RecvStep::Return(result)
    }

    fn count<X>(&mut self) -> (step: RecvStep<Bytes, X>)
        requires
            old(self)@.budget < BURST,
        ensures
            (final(self)@, step@) == old(self)@.counted::<X>(),
    {
        self.budget = self.budget + 1;
        if self.budget < BURST {
            self.at = RecvAt::Watch;
            RecvStep::PollClosed
        } else {
            self.at = RecvAt::Rest;
            RecvStep::Yield
        }
    }

    fn go_on<X>(&mut self) -> (step: RecvStep<Bytes, X>)
        ensures
            (final(self)@, step@) == old(self)@.watched::<X>(),
    {
        let waiting = match &self.data {
            Some(data) => buf::length(data) > 0,
            None => false,
        };
        if waiting {
            self.at = RecvAt::Room;
            return RecvStep::PollRoom;
        }
        self.data = None;
        if !self.data_done {
            self.at = RecvAt::Data;
            RecvStep::PollData
        } else {
            self.at = RecvAt::Trailers;
            RecvStep::PollTrailers
        }
    }

    fn forward<X>(&mut self) -> (step: RecvStep<Bytes, X>)
        requires
            old(self)@.data is Some,
        ensures
            (final(self)@, step@) == (RecvStream {
                data: Some(
                    (old(self)@.data->0).skip(client::chunk_size((old(self)@.data->0).len()) as int),
                ),
                ..old(self)@
            }).going::<X>(
                RecvAt::Forward,
                RecvStep::Forward(
                    (old(self)@.data->0).take(client::chunk_size((old(self)@.data->0).len()) as int),
                ),
            ),
    {
        match self.data.take() {
            Some(mut data) => {
                let held: usize = buf::length(&data);
                let size: usize = client::next_chunk(held);
                let front = buf::take_front(&mut data, size);
                self.data = Some(data);
                self.at = RecvAt::Forward;
                RecvStep::Forward(front)
            },
            None => RecvStep::Nothing,
        }
    }

    /// Takes an outcome.
    pub fn step<X>(&mut self, event: RecvEvent<Bytes, X>) -> (step: RecvStep<Bytes, X>)
        requires
            old(self)@.wf(),
        ensures
            (final(self)@, step@) == old(self)@.next(event@),
            final(self)@.wf(),
    {
        match (self.at, event) {
            (RecvAt::Rest, RecvEvent::Start) => {
                if !self.open {
                    self.end(Ok(()))
                } else {
                    self.budget = 0;
                    self.at = RecvAt::Watch;
                    RecvStep::PollClosed
                }
            },
            (RecvAt::Watch, RecvEvent::Closed(closed)) => {
                if closed {
                    self.end(Err(Error::new(Kind::Canceled)))
                } else {
                    self.go_on()
                }
            },
            (RecvAt::Room, RecvEvent::Room(Poll::Pending)) => {
                self.at = RecvAt::Rest;
                RecvStep::Pend
            },
            (RecvAt::Room, RecvEvent::Room(Poll::Ready(Err(error)))) => self.end(Err(error)),
            (RecvAt::Room, RecvEvent::Room(Poll::Ready(Ok(_)))) => self.forward(),
            (RecvAt::Forward, RecvEvent::Forwarded(taken)) => {
                if taken {
                    self.count()
                } else {
                    self.end(Err(Error::new(Kind::Canceled)))
                }
            },
            (RecvAt::Data, RecvEvent::Data(Poll::Pending)) => {
                self.at = RecvAt::Rest;
                RecvStep::Pend
            },
            (RecvAt::Data, RecvEvent::Data(Poll::Ready(Err(failure)))) => self.end(
                Err(Error::new_outside(Kind::Http3, failure)),
            ),
            (RecvAt::Data, RecvEvent::Data(Poll::Ready(Ok(Some(data))))) => {
                self.data = Some(data);
                self.count()
            },
            (RecvAt::Data, RecvEvent::Data(Poll::Ready(Ok(None)))) => {
                self.data_done = true;
                self.at = RecvAt::Trailers;
                RecvStep::PollTrailers
            },
            (RecvAt::Trailers, RecvEvent::Trailers(Poll::Pending)) => {
                self.at = RecvAt::Rest;
                RecvStep::Pend
            },
            (RecvAt::Trailers, RecvEvent::Trailers(Poll::Ready(Err(failure)))) => self.end(
                Err(Error::new_outside(Kind::Http3, failure)),
            ),
            (RecvAt::Trailers, RecvEvent::Trailers(Poll::Ready(Ok(_)))) => {
                self.recv.finished = true;
                self.open = false;
                self.at = RecvAt::Done;
                RecvStep::Finish { close_route: self.recv.datagrams }
            },
            _ => RecvStep::Nothing,
        }
    }
}

/// The receiving direction after outcomes, one after the other.
pub open spec fn recv_after<X>(
    stream: RecvStream<Seq<u8>>,
    events: Seq<RecvEvent<Seq<u8>, X>>,
) -> RecvStream<Seq<u8>>
    decreases events.len(),
{
    if events.len() == 0 {
        stream
    } else {
        recv_after(stream, events.drop_last()).next(events.last()).0
    }
}

/// What the receiving direction calls for after the last of these outcomes.
pub open spec fn recv_step<X>(
    stream: RecvStream<Seq<u8>>,
    events: Seq<RecvEvent<Seq<u8>, X>>,
) -> RecvStep<Seq<u8>, X> {
    recv_after(stream, events.drop_last()).next(events.last()).1
}

/// The bytes that an outcome brings and the direction takes.
pub open spec fn arrival<X>(stream: RecvStream<Seq<u8>>, event: RecvEvent<Seq<u8>, X>) -> Seq<
    u8,
> {
    match event {
        RecvEvent::Data(Poll::Ready(Ok(Some(data)))) => if stream.at == RecvAt::Data {
            data
        } else {
            Seq::empty()
        },
        _ => Seq::empty(),
    }
}

/// The bytes that the direction hands to the reader after an outcome.
pub open spec fn handed<X>(stream: RecvStream<Seq<u8>>, event: RecvEvent<Seq<u8>, X>) -> Seq<
    u8,
> {
    match stream.next(event).1 {
        RecvStep::Forward(data) => data,
        _ => Seq::empty(),
    }
}

/// All bytes that the stream brought.
pub open spec fn received<X>(
    stream: RecvStream<Seq<u8>>,
    events: Seq<RecvEvent<Seq<u8>, X>>,
) -> Seq<u8>
    decreases events.len(),
{
    if events.len() == 0 {
        Seq::empty()
    } else {
        received(stream, events.drop_last()) + arrival(
            recv_after(stream, events.drop_last()),
            events.last(),
        )
    }
}

/// All bytes that were handed to the reader.
pub open spec fn forwarded<X>(
    stream: RecvStream<Seq<u8>>,
    events: Seq<RecvEvent<Seq<u8>, X>>,
) -> Seq<u8>
    decreases events.len(),
{
    if events.len() == 0 {
        Seq::empty()
    } else {
        forwarded(stream, events.drop_last()) + handed(
            recv_after(stream, events.drop_last()),
            events.last(),
        )
    }
}

/// The bytes that the direction holds.
pub open spec fn held(stream: RecvStream<Seq<u8>>) -> Seq<u8> {
    match stream.data {
        Some(data) => data,
        None => Seq::empty(),
    }
}

proof fn lemma_recv_moves<X>(stream: RecvStream<Seq<u8>>, event: RecvEvent<Seq<u8>, X>)
    requires
        stream.wf(),
    ensures
        stream.next(event).0.wf(),
        handed(stream, event) + held(stream.next(event).0) == held(stream) + arrival(
            stream,
            event,
        ),
        stream.next(event).1 is Finish ==> held(stream) == Seq::<u8>::empty(),
{
    let after = stream.next(event).0;
    assert(handed(stream, event) + held(after) =~= held(stream) + arrival(stream, event));
}

/// The task forwards what the stream brought, in order and whole: what it
/// handed to the reader, with what it still holds, is all that came, and it
/// comes to the end of the stream only when all of it is handed over.
pub proof fn law_tunnel_forwards_in_order<X>(
    recv: RecvGuard,
    events: Seq<RecvEvent<Seq<u8>, X>>,
)
    requires
        !recv.finished,
    ensures
        ({
            let begun = RecvStream::begun(recv);
            let now = recv_after(begun, events);
            &&& now.wf()
            &&& forwarded(begun, events) + held(now) == received(begun, events)
            &&& events.len() > 0 && recv_step(begun, events) is Finish ==> forwarded(begun, events)
                == received(begun, events)
        }),
    decreases events.len(),
{
    let begun = RecvStream::begun(recv);
    if events.len() > 0 {
        let before = events.drop_last();
        let now = recv_after(begun, before);
        law_tunnel_forwards_in_order(recv, before);
        lemma_recv_moves(now, events.last());
        let after = now.next(events.last()).0;
        let head = forwarded(begun, before);
        let out = handed(now, events.last());
        let came = arrival(now, events.last());
        assert(forwarded(begun, events) + held(after) =~= head + (out + held(after)));
        assert(head + (held(now) + came) =~= (head + held(now)) + came);
        if recv_step(begun, events) is Finish {
            assert(forwarded(begun, events) =~= head);
            assert(received(begun, events) =~= received(begun, before));
            assert(head + held(now) =~= head);
        }
    } else {
        assert(forwarded(begun, events) + held(begun) =~= received(begun, events));
    }
}

/// Whether nothing of a direction changes but where it is.
pub open spec fn only_moves(before: RecvStream<Seq<u8>>, after: RecvStream<Seq<u8>>) -> bool {
    after == (RecvStream { at: after.at, ..before })
}

/// A direction is made for an open reader, with nothing read. Polled, it looks at
/// its reader, with no round taken in this poll, and is over where the reader was
/// told of the end.
pub proof fn law_poll_of_the_receiving_direction<X>(
    recv: RecvGuard,
    made: RecvStream<Bytes>,
    stream: &mut RecvStream<Bytes>,
    step: RecvStep<Bytes, X>,
)
    requires
        call_ensures(RecvStream::<Bytes>::new, (recv,), made),
        call_ensures(RecvStream::<Bytes>::step::<X>, (stream, RecvEvent::Start), step),
        old(stream)@.wf(),
        old(stream).at == RecvAt::Rest,
    ensures
        made.recv == recv && made.open && made.data is None && !made.data_done,
        made.at == RecvAt::Rest && made.budget == 0,
        old(stream).open ==> {
            &&& step is PollClosed
            &&& final(stream)@ == (RecvStream { at: RecvAt::Watch, budget: 0, ..old(stream)@ })
        },
        !old(stream).open ==> {
            &&& step == RecvStep::<Bytes, X>::Return(Ok(()))
            &&& final(stream)@ == (RecvStream { at: RecvAt::Done, ..old(stream)@ })
        },
{
}

/// A reader that is gone cancels the direction. For one that is there, data that
/// is held waits for room; without any the stream is polled, for data until that
/// is read to the end, and then for trailers.
pub proof fn law_reader_is_looked_at_first<X>(
    stream: &mut RecvStream<Bytes>,
    closed: bool,
    step: RecvStep<Bytes, X>,
)
    requires
        call_ensures(RecvStream::<Bytes>::step::<X>, (stream, RecvEvent::Closed(closed)), step),
        old(stream)@.wf(),
        old(stream).at == RecvAt::Watch,
    ensures
        ({
            let held = old(stream)@.data is Some && (old(stream)@.data->0).len() > 0;
            &&& closed ==> {
                &&& step == RecvStep::<Bytes, X>::Return(Err(Error::plain(Kind::Canceled)))
                &&& final(stream).at == RecvAt::Done
                &&& only_moves(old(stream)@, final(stream)@)
            }
            &&& !closed && held ==> {
                &&& step is PollRoom
                &&& final(stream).at == RecvAt::Room
                &&& only_moves(old(stream)@, final(stream)@)
            }
            &&& !closed && !held ==> {
                &&& final(stream).data is None
                &&& final(stream)@ == (RecvStream {
                    at: final(stream).at,
                    data: None,
                    ..old(stream)@
                })
                &&& !old(stream).data_done ==> step is PollData && final(stream).at == RecvAt::Data
                &&& old(stream).data_done ==> step is PollTrailers && final(stream).at
                    == RecvAt::Trailers
            }
        }),
{
}

/// Where the reader has room it is handed the front of what is held, as much as a
/// chunk may hold, and the rest stays; a failure ends the direction as it is.
pub proof fn law_room_lets_the_front_go<X>(
    stream: &mut RecvStream<Bytes>,
    found: Poll<Result<(), Error<X>>>,
    step: RecvStep<Bytes, X>,
)
    requires
        call_ensures(RecvStream::<Bytes>::step::<X>, (stream, RecvEvent::Room(found)), step),
        old(stream)@.wf(),
        old(stream).at == RecvAt::Room,
    ensures
        found is Pending ==> step is Pend && final(stream).at == RecvAt::Rest && only_moves(
            old(stream)@,
            final(stream)@,
        ),
        found matches Poll::Ready(Err(error)) ==> step == RecvStep::<Bytes, X>::Return(Err(error))
            && final(stream).at == RecvAt::Done && only_moves(old(stream)@, final(stream)@),
        found is Ready && found->0 is Ok ==> {
            let whole = old(stream)@.data->0;
            let rest = final(stream)@.data->0;
            &&& step is Forward
            &&& final(stream).data is Some
            &&& buf::content(step->Forward_0) + rest == whole
            &&& 0 < buf::content(step->Forward_0).len() <= 16384
            &&& rest.len() > 0 ==> buf::content(step->Forward_0).len() == 16384
            &&& final(stream).at == RecvAt::Forward
            &&& final(stream)@ == (RecvStream {
                at: RecvAt::Forward,
                data: Some(rest),
                ..old(stream)@
            })
        },
{
    let whole = old(stream)@.data->0;
    let size = client::chunk_size(whole.len()) as int;
    assert(whole.take(size) + whole.skip(size) =~= whole);
}

/// A chunk that the reader took ends a round, after thirty-two of which the
/// direction yields; one that it did not take means that it is gone.
pub proof fn law_taken_chunk_ends_a_round<X>(
    stream: &mut RecvStream<Bytes>,
    taken: bool,
    step: RecvStep<Bytes, X>,
)
    requires
        call_ensures(RecvStream::<Bytes>::step::<X>, (stream, RecvEvent::Forwarded(taken)), step),
        old(stream)@.wf(),
        old(stream).at == RecvAt::Forward,
    ensures
        !taken ==> {
            &&& step == RecvStep::<Bytes, X>::Return(Err(Error::plain(Kind::Canceled)))
            &&& final(stream).at == RecvAt::Done
            &&& only_moves(old(stream)@, final(stream)@)
        },
        taken ==> {
            &&& final(stream).budget == old(stream).budget + 1
            &&& final(stream)@ == (RecvStream {
                at: final(stream).at,
                budget: final(stream).budget,
                ..old(stream)@
            })
            &&& final(stream).budget < 32 ==> step is PollClosed && final(stream).at
                == RecvAt::Watch
            &&& final(stream).budget == 32 ==> step is Yield && final(stream).at == RecvAt::Rest
        },
{
}

/// Data that the stream brings is held as it came, which ends a round; at its end
/// trailers are waited for; a failure of it ends the direction.
pub proof fn law_data_of_the_stream_is_held<X>(
    stream: &mut RecvStream<Bytes>,
    found: Poll<Result<Option<Bytes>, X>>,
    step: RecvStep<Bytes, X>,
)
    requires
        call_ensures(RecvStream::<Bytes>::step::<X>, (stream, RecvEvent::Data(found)), step),
        old(stream)@.wf(),
        old(stream).at == RecvAt::Data,
    ensures
        found is Pending ==> step is Pend && final(stream).at == RecvAt::Rest && only_moves(
            old(stream)@,
            final(stream)@,
        ),
        found matches Poll::Ready(Err(failure)) ==> {
            &&& step == RecvStep::<Bytes, X>::Return(Err(Error::outside(Kind::Http3, failure)))
            &&& final(stream).at == RecvAt::Done
            &&& only_moves(old(stream)@, final(stream)@)
        },
        found matches Poll::Ready(Ok(Some(data))) ==> {
            &&& final(stream).budget == old(stream).budget + 1
            &&& final(stream)@ == (RecvStream {
                at: final(stream).at,
                data: Some(buf::content(data)),
                budget: final(stream).budget,
                ..old(stream)@
            })
            &&& final(stream).budget < 32 ==> step is PollClosed && final(stream).at
                == RecvAt::Watch
            &&& final(stream).budget == 32 ==> step is Yield && final(stream).at == RecvAt::Rest
        },
        found is Ready && found->0 is Ok && found->0->Ok_0 is None ==> {
            &&& step is PollTrailers
            &&& final(stream)@ == (RecvStream {
                at: RecvAt::Trailers,
                data_done: true,
                ..old(stream)@
            })
        },
{
}

/// At the end of the stream the receive half is finished and the reader told, and
/// the Datagram route closed where there is one; a failure before ends the
/// direction.
pub proof fn law_end_of_the_stream_is_told<X>(
    stream: &mut RecvStream<Bytes>,
    found: Poll<Result<(), X>>,
    step: RecvStep<Bytes, X>,
)
    requires
        call_ensures(RecvStream::<Bytes>::step::<X>, (stream, RecvEvent::Trailers(found)), step),
        old(stream)@.wf(),
        old(stream).at == RecvAt::Trailers,
    ensures
        found is Pending ==> step is Pend && final(stream).at == RecvAt::Rest && only_moves(
            old(stream)@,
            final(stream)@,
        ),
        found matches Poll::Ready(Err(failure)) ==> {
            &&& step == RecvStep::<Bytes, X>::Return(Err(Error::outside(Kind::Http3, failure)))
            &&& final(stream).at == RecvAt::Done
            &&& only_moves(old(stream)@, final(stream)@)
        },
        found is Ready && found->0 is Ok ==> {
            &&& step == (RecvStep::<Bytes, X>::Finish { close_route: old(stream).recv.datagrams })
            &&& final(stream).recv == (RecvGuard { finished: true, ..old(stream).recv })
            &&& !final(stream).open && final(stream).at == RecvAt::Done
            &&& final(stream)@ == (RecvStream {
                recv: final(stream).recv,
                open: false,
                at: RecvAt::Done,
                ..old(stream)@
            })
        },
{
}

/// An outcome that does not belong to where the direction is changes nothing.
pub proof fn law_outcomes_belong_to_the_receiving_direction<X>(
    stream: &mut RecvStream<Bytes>,
    event: RecvEvent<Bytes, X>,
    step: RecvStep<Bytes, X>,
)
    requires
        call_ensures(RecvStream::<Bytes>::step::<X>, (stream, event), step),
        old(stream)@.wf(),
        match event {
            RecvEvent::Start => old(stream).at != RecvAt::Rest,
            RecvEvent::Closed(_) => old(stream).at != RecvAt::Watch,
            RecvEvent::Room(_) => old(stream).at != RecvAt::Room,
            RecvEvent::Forwarded(_) => old(stream).at != RecvAt::Forward,
            RecvEvent::Data(_) => old(stream).at != RecvAt::Data,
            RecvEvent::Trailers(_) => old(stream).at != RecvAt::Trailers,
        },
    ensures
        final(stream)@ == old(stream)@,
        step is Nothing,
{
}

} // verus!
