//! Streams of a QUIC backend as the HTTP/3 layer uses them: what is queued is
//! sent before anything else, and a backend is held to what it reports.

use bytes::Bytes;
use vstd::prelude::*;

use crate::buf;
use crate::client::BURST;
use crate::error::{Code, Poll, Reason};

verus! {

/// Why a stream or a connection of the backend failed.
#[derive(Debug)]
pub enum Incoming<X> {
    /// The peer closed the connection with this code.
    ApplicationClose { error_code: u64 },
    /// The backend or its user broke the rules.
    InternalError(Reason),
    /// What the backend reported.
    Outside(X),
}

/// A stream with what is queued on it: the data that is left to send, if there
/// is any to see to.
#[derive(Debug)]
pub struct Stream<D> {
    pub pending: Option<D>,
}

/// What a poll for readiness comes to.
#[derive(Debug)]
pub enum ReadyStep<D, X> {
    /// Offer the queued data to the backend, which advances what it is offered.
    PollSend(D),
    /// Wait until polled again.
    Pend,
    /// Ask to be polled again at once, and wait for that.
    Yield,
    /// The stream is ready, or failed.
    Return(Result<(), Incoming<X>>),
}

/// What a poll comes to that calls the backend once nothing is queued, to
/// finish the stream or to send other data.
#[derive(Debug)]
pub enum FlushStep<D, X> {
    /// Offer the queued data to the backend, which advances what it is offered.
    PollSend(D),
    /// Wait until polled again.
    Pend,
    /// Ask to be polled again at once, and wait for that.
    Yield,
    /// The queued data could not be sent, so the backend is not called.
    Failed(Incoming<X>),
    /// Nothing is queued: call the backend, and return what it returns.
    Call,
}

impl View for Stream<Bytes> {
    type V = Stream<Seq<u8>>;

    open spec fn view(&self) -> Stream<Seq<u8>> {
        Stream {
            pending: match self.pending {
                Some(data) => Some(buf::content(data)),
                None => None,
            },
        }
    }
}

impl<X> View for ReadyStep<Bytes, X> {
    type V = ReadyStep<Seq<u8>, X>;

    open spec fn view(&self) -> ReadyStep<Seq<u8>, X> {
        match *self {
            ReadyStep::PollSend(data) => ReadyStep::PollSend(buf::content(data)),
            ReadyStep::Pend => ReadyStep::Pend,
            ReadyStep::Yield => ReadyStep::Yield,
            ReadyStep::Return(result) => ReadyStep::Return(result),
        }
    }
}

impl<X> View for FlushStep<Bytes, X> {
    type V = FlushStep<Seq<u8>, X>;

    open spec fn view(&self) -> FlushStep<Seq<u8>, X> {
        match *self {
            FlushStep::PollSend(data) => FlushStep::PollSend(buf::content(data)),
            FlushStep::Pend => FlushStep::Pend,
            FlushStep::Yield => FlushStep::Yield,
            FlushStep::Failed(error) => FlushStep::Failed(error),
            FlushStep::Call => FlushStep::Call,
        }
    }
}

/// The backend gave no stream: the connection is closed.
pub fn closed<X>() -> (error: Incoming<X>)
    ensures
        error == (Incoming::<X>::ApplicationClose { error_code: Code::NoError.number() }),
{
    Incoming::ApplicationClose { error_code: Code::NoError.value() }
}

/// The backend or its user broke the rules.
pub fn contract_error<X>(reason: Reason) -> (error: Incoming<X>)
    ensures
        error == Incoming::<X>::InternalError(reason),
{
    Incoming::InternalError(reason)
}

/// Takes a stream that the backend accepted.
pub fn accepted<T, X>(found: Result<Option<T>, X>) -> (stream: Result<T, Incoming<X>>)
    ensures
        stream == match found {
            Ok(Some(stream)) => Ok(stream),
            Ok(None) => Err(
                Incoming::<X>::ApplicationClose { error_code: Code::NoError.number() },
            ),
            Err(failure) => Err(Incoming::Outside(failure)),
        },
{
    match found {
        Ok(Some(stream)) => Ok(stream),
        Ok(None) => Err(closed()),
        Err(failure) => Err(Incoming::Outside(failure)),
    }
}

impl<X> ReadyStep<Seq<u8>, X> {
    /// What readiness comes to for a poll that calls the backend after it: the
    /// call is made where the stream is ready, and only there.
    pub open spec fn before_call(self) -> FlushStep<Seq<u8>, X> {
        match self {
            ReadyStep::PollSend(data) => FlushStep::PollSend(data),
            ReadyStep::Pend => FlushStep::Pend,
            ReadyStep::Yield => FlushStep::Yield,
            ReadyStep::Return(Ok(_)) => FlushStep::Call,
            ReadyStep::Return(Err(error)) => FlushStep::Failed(error),
        }
    }
}

impl<X> ReadyStep<Bytes, X> {
    fn flush(self) -> (step: FlushStep<Bytes, X>)
        ensures
            step@ == self@.before_call(),
    {
        match self {
            ReadyStep::PollSend(data) => FlushStep::PollSend(data),
            ReadyStep::Pend => FlushStep::Pend,
            ReadyStep::Yield => FlushStep::Yield,
            ReadyStep::Return(Ok(_)) => FlushStep::Call,
            ReadyStep::Return(Err(error)) => FlushStep::Failed(error),
        }
    }
}

impl Stream<Seq<u8>> {
    /// Whether data is left to send.
    pub open spec fn has_queued(self) -> bool {
        self.pending is Some && (self.pending->0).len() > 0
    }

    /// The stream and what a poll for readiness comes to, with so many sends
    /// behind it.
    pub open spec fn readying<X>(self, budget: nat) -> (Self, ReadyStep<Seq<u8>, X>) {
        if !self.has_queued() {
            (Stream { pending: None }, ReadyStep::Return(Ok(())))
        } else if budget >= BURST {
            (self, ReadyStep::Yield)
        } else {
            (self, ReadyStep::PollSend(self.pending->0))
        }
    }

    /// The stream after the backend was offered the queued data, of which `left`
    /// is left then. A backend that says it sent nothing, or something else than
    /// it took, broke the rules.
    pub open spec fn sending<X>(
        self,
        sent: Poll<Result<usize, X>>,
        left: Seq<u8>,
        budget: nat,
    ) -> (Self, ReadyStep<Seq<u8>, X>) {
        let after = Stream { pending: Some(left) };
        match sent {
            Poll::Pending => (after, ReadyStep::Pend),
            Poll::Ready(Err(failure)) => (
                after,
                ReadyStep::Return(Err(Incoming::Outside(failure))),
            ),
            Poll::Ready(Ok(written)) => if written == 0 || written + left.len() != (
            self.pending->0).len() {
                (
                    after,
                    ReadyStep::Return(Err(Incoming::InternalError(Reason::InconsistentSend))),
                )
            } else {
                after.readying(budget + 1)
            },
        }
    }
}

impl Stream<Bytes> {
    /// A stream with nothing queued.
    pub fn new() -> (stream: Self)
        ensures
            stream@ == (Stream::<Seq<u8>> { pending: None }),
    {
        Stream { pending: None }
    }

    fn ready<X>(&mut self, budget: usize) -> (step: ReadyStep<Bytes, X>)
        ensures
            (final(self)@, step@) == old(self)@.readying::<X>(budget as nat),
    {
        if let Some(left) = &self.pending {
            if buf::length(left) > 0 {
                return if budget >= BURST {
                    ReadyStep::Yield
                } else {
                    ReadyStep::PollSend(buf::share(left))
                };
            }
        }
        self.pending = None;
        ReadyStep::Return(Ok(()))
    }

    /// Begins a poll for readiness.
    pub fn poll_ready<X>(&mut self) -> (step: ReadyStep<Bytes, X>)
        ensures
            (final(self)@, step@) == old(self)@.readying::<X>(0),
    {
        self.ready(0)
    }

    /// Goes on with a poll for readiness once the backend was offered the queued
    /// data, of which `left` is left then. `budget` counts the sends of this
    /// poll.
    pub fn sent<X>(
        &mut self,
        sent: Poll<Result<usize, X>>,
        left: Bytes,
        budget: &mut usize,
    ) -> (step: ReadyStep<Bytes, X>)
        requires
            old(self).pending is Some,
            *old(budget) < BURST,
        ensures
            (final(self)@, step@) == old(self)@.sending(
                sent,
                buf::content(left),
                *old(budget) as nat,
            ),
            *final(budget) == if step is Return && step->Return_0 is Err || step is Pend {
                *old(budget)
            } else {
                (*old(budget) + 1) as usize
            },
    {
        let before: usize = match &self.pending {
            Some(before) => buf::length(before),
            None => 0,
        };
        let rest: usize = buf::length(&left);
        self.pending = Some(left);
        match sent {
            Poll::Pending => ReadyStep::Pend,
            Poll::Ready(Err(failure)) => ReadyStep::Return(Err(Incoming::Outside(failure))),
            Poll::Ready(Ok(written)) => {
                let taken = before.checked_sub(rest);
                let consistent = match taken {
                    Some(taken) => taken == written,
                    None => false,
                };
                if written == 0 || !consistent {
                    return ReadyStep::Return(Err(contract_error(Reason::InconsistentSend)));
                }
                *budget = *budget + 1;
                self.ready(*budget)
            },
        }
    }

    /// Begins a poll to finish the stream. The backend is called to finish it
    /// exactly where nothing is queued any more.
    pub fn poll_finish<X>(&mut self) -> (step: FlushStep<Bytes, X>)
        ensures
            final(self)@ == old(self)@.readying::<X>(0).0,
            step@ == old(self)@.readying::<X>(0).1.before_call(),
            step is Call <==> !old(self)@.has_queued(),
    {
        self.ready(0).flush()
    }

    /// Begins a poll to send other data past the queue. The backend is called
    /// with that data exactly where nothing is queued any more.
    pub fn poll_send<X>(&mut self) -> (step: FlushStep<Bytes, X>)
        ensures
            final(self)@ == old(self)@.readying::<X>(0).0,
            step@ == old(self)@.readying::<X>(0).1.before_call(),
            step is Call <==> !old(self)@.has_queued(),
    {
        self.ready(0).flush()
    }

    /// Goes on with a poll to finish the stream or to send other data once the
    /// backend was offered the queued data, of which `left` is left then.
    pub fn flushed<X>(
        &mut self,
        sent: Poll<Result<usize, X>>,
        left: Bytes,
        budget: &mut usize,
    ) -> (step: FlushStep<Bytes, X>)
        requires
            old(self).pending is Some,
            *old(budget) < BURST,
        ensures
            final(self)@ == old(self)@.sending(sent, buf::content(left), *old(budget) as nat).0,
            step@ == old(self)@.sending(
                sent,
                buf::content(left),
                *old(budget) as nat,
            ).1.before_call(),
            step is Call ==> final(self)@.pending is None && buf::content(left).len() == 0,
            *final(budget) == if step is Failed || step is Pend {
                *old(budget)
            } else {
                (*old(budget) + 1) as usize
            },
    {
        self.sent(sent, left, budget).flush()
    }

    /// Queues data; refused while there is some.
    pub fn send_data<X>(&mut self, data: Bytes) -> (queued: Result<(), Incoming<X>>)
        ensures
            if old(self)@.pending is Some {
                queued == Err::<(), _>(Incoming::<X>::InternalError(Reason::SendNotReady))
                    && *final(self) == *old(self)
            } else {
                queued is Ok && final(self)@ == (Stream { pending: Some(buf::content(data)) })
            },
    {
        if self.pending.is_some() {
            return Err(contract_error(Reason::SendNotReady));
        }
        self.pending = Some(data);
        Ok(())
    }

    /// Drops what is queued, because the stream is reset.
    pub fn reset(&mut self)
        ensures
            final(self)@ == (Stream::<Seq<u8>> { pending: None }),
    {
        self.pending = None;
    }

    /// Splits the stream; what is queued stays with the half that sends.
    pub fn split(self) -> (halves: (Stream<Bytes>, Stream<Bytes>))
        ensures
            halves.0 == self,
            halves.1@ == (Stream::<Seq<u8>> { pending: None }),
    {
        (self, Stream::new())
    }
}

/// Sends of one poll: how much the backend reported and what was left each
/// time.
pub type Sends = Seq<(usize, Seq<u8>)>;

/// The stream after these sends, each of which the backend reported as done.
pub open spec fn stream_after<X>(stream: Stream<Seq<u8>>, sends: Sends) -> (
    Stream<Seq<u8>>,
    ReadyStep<Seq<u8>, X>,
)
    decreases sends.len(),
{
    if sends.len() == 0 {
        stream.readying(0)
    } else {
        stream_after::<X>(stream, sends.drop_last()).0.sending(
            Poll::Ready(Ok(sends.last().0)),
            sends.last().1,
            (sends.len() - 1) as nat,
        )
    }
}

/// Whether each send but the last asked for another.
pub open spec fn goes_on<X>(stream: Stream<Seq<u8>>, sends: Sends) -> bool {
    forall|i: int|
        0 <= i < sends.len() ==> #[trigger] stream_after::<X>(stream, sends.take(i)).1 is PollSend
}

/// Whether the backend takes what it is offered from the front each time, and
/// leaves the rest as it was.
pub open spec fn takes_from_the_front<X>(stream: Stream<Seq<u8>>, sends: Sends) -> bool
    decreases sends.len(),
{
    sends.len() > 0 ==> {
        let offered = stream_after::<X>(stream, sends.drop_last()).0.pending->0;
        let left = sends.last().1;
        &&& takes_from_the_front::<X>(stream, sends.drop_last())
        &&& left.len() <= offered.len()
        &&& left == offered.skip(offered.len() - left.len())
    }
}

/// The bytes that the backend took, in the order in which it took them.
pub open spec fn taken<X>(stream: Stream<Seq<u8>>, sends: Sends) -> Seq<u8>
    decreases sends.len(),
{
    if sends.len() == 0 {
        Seq::empty()
    } else {
        let offered = stream_after::<X>(stream, sends.drop_last()).0.pending->0;
        taken::<X>(stream, sends.drop_last()) + offered.take(
            offered.len() - sends.last().1.len(),
        )
    }
}

/// How much the backend reported as sent.
pub open spec fn total(sends: Sends) -> nat
    decreases sends.len(),
{
    if sends.len() == 0 {
        0
    } else {
        total(sends.drop_last()) + sends.last().0 as nat
    }
}

/// A stream becomes ready only when all that was queued is sent, and nothing
/// else was: the backend reported that many bytes, and took exactly the queued
/// ones in their order if it takes them from the front. A poll never makes more
/// than a burst of sends.
pub proof fn law_ready_stream_has_sent_its_queue<X>(data: Seq<u8>, sends: Sends)
    requires
        goes_on::<X>(Stream { pending: Some(data) }, sends),
    ensures
        ({
            let stream = Stream { pending: Some(data) };
            let (after, step) = stream_after::<X>(stream, sends);
            let faithful = takes_from_the_front::<X>(stream, sends);
            &&& sends.len() <= BURST
            &&& step is Return && step->Return_0 is Ok ==> {
                &&& total(sends) == data.len()
                &&& after.pending is None
                &&& faithful ==> taken::<X>(stream, sends) == data
            }
            &&& step is PollSend || step is Yield ==> {
                &&& total(sends) + (after.pending->0).len() == data.len()
                &&& faithful ==> taken::<X>(stream, sends) + after.pending->0 == data
            }
        }),
    decreases sends.len(),
{
    let stream = Stream { pending: Some(data) };
    assert(sends.take(sends.len() as int) =~= sends);
    if sends.len() > 0 {
        let before = sends.drop_last();
        assert(sends.take(sends.len() - 1) =~= before);
        assert forall|i: int| 0 <= i < before.len() implies #[trigger] stream_after::<X>(
            stream,
            before.take(i),
        ).1 is PollSend by {
            assert(before.take(i) =~= sends.take(i));
            assert(stream_after::<X>(stream, sends.take(i)).1 is PollSend);
        }
        law_ready_stream_has_sent_its_queue::<X>(data, before);
        assert(stream_after::<X>(stream, sends.take(sends.len() - 1)).1 is PollSend);
        lemma_asks_within_a_burst::<X>(stream, before);
        let (after, step) = stream_after::<X>(stream, sends);
        if takes_from_the_front::<X>(stream, sends) {
            let offered = stream_after::<X>(stream, before).0.pending->0;
            let left = sends.last().1;
            assert(offered.take(offered.len() - left.len()) + left =~= offered);
            assert(taken::<X>(stream, sends) + left =~= taken::<X>(stream, before) + offered);
            if step is Return && step->Return_0 is Ok {
                assert(left.len() == 0);
                assert(taken::<X>(stream, sends) + left =~= taken::<X>(stream, sends));
            }
        }
    } else {
        assert(taken::<X>(stream, sends) + data =~= data);
        if data.len() == 0 {
            assert(taken::<X>(stream, sends) =~= data);
        }
    }
}

/// What is queued is sent before the stream is finished and before other data:
/// a poll for either calls the backend only once the backend reported every
/// queued byte as sent, and nothing is queued then.
pub proof fn law_queue_is_sent_before_the_backend_is_called<X>(data: Seq<u8>, sends: Sends)
    requires
        goes_on::<X>(Stream { pending: Some(data) }, sends),
    ensures
        ({
            let stream = Stream { pending: Some(data) };
            let (after, step) = stream_after::<X>(stream, sends);
            step.before_call() is Call ==> {
                &&& after.pending is None
                &&& total(sends) == data.len()
                &&& takes_from_the_front::<X>(stream, sends) ==> taken::<X>(stream, sends) == data
            }
        }),
{
    law_ready_stream_has_sent_its_queue::<X>(data, sends);
}

proof fn lemma_asks_within_a_burst<X>(stream: Stream<Seq<u8>>, sends: Sends)
    requires
        stream_after::<X>(stream, sends).1 is PollSend,
    ensures
        sends.len() < BURST,
{
}

/// A backend that accepted a stream gives that stream. One without a stream is
/// closed, without an error in HTTP/3, and a failure of it is told as it is. A
/// broken rule is told with its reason.
pub proof fn law_accepted_stream_is_taken<T, X>(
    found: Result<Option<T>, X>,
    stream: Result<T, Incoming<X>>,
    gone: Incoming<X>,
    reason: Reason,
    broken: Incoming<X>,
)
    requires
        call_ensures(accepted::<T, X>, (found,), stream),
        call_ensures(closed::<X>, (), gone),
        call_ensures(contract_error::<X>, (reason,), broken),
    ensures
        found matches Ok(Some(taken)) ==> stream == Ok::<T, Incoming<X>>(taken),
        found is Ok && found->Ok_0 is None ==> stream == Err::<T, Incoming<X>>(gone),
        found matches Err(failure) ==> stream == Err::<T, Incoming<X>>(Incoming::Outside(failure)),
        gone == (Incoming::<X>::ApplicationClose { error_code: 0x100 }),
        broken == Incoming::<X>::InternalError(reason),
{
}

/// A poll for readiness offers what is queued, and all of it, where there is any;
/// otherwise the stream is ready at once and keeps nothing. A poll to finish, or
/// to send other data, begins in the same way and calls the backend where the
/// stream is ready.
pub proof fn law_queue_is_offered_first<X>(
    stream: &mut Stream<Bytes>,
    kind: int,
    ready: ReadyStep<Bytes, X>,
    step: FlushStep<Bytes, X>,
)
    requires
        kind == 0 ==> call_ensures(Stream::<Bytes>::poll_ready::<X>, (stream,), ready),
        kind == 1 ==> call_ensures(Stream::<Bytes>::poll_finish::<X>, (stream,), step),
        kind != 0 && kind != 1 ==> call_ensures(
            Stream::<Bytes>::poll_send::<X>,
            (stream,),
            step,
        ),
    ensures
        ({
            let queued = old(stream).pending is Some && buf::content(old(stream).pending->0).len()
                > 0;
            &&& queued ==> {
                &&& kind == 0 ==> ready is PollSend && buf::content(ready->PollSend_0)
                    == buf::content(old(stream).pending->0)
                &&& kind != 0 ==> step is PollSend && buf::content(step->PollSend_0)
                    == buf::content(old(stream).pending->0)
                &&& final(stream)@ == old(stream)@
            }
            &&& !queued ==> {
                &&& kind == 0 ==> ready == ReadyStep::<Bytes, X>::Return(Ok(()))
                &&& kind != 0 ==> step is Call
                &&& final(stream).pending is None
            }
        }),
{
}

/// After the backend was offered what is queued, what it left is queued. It is
/// waited for where it took nothing yet, and its failure is told. Where it says
/// that it sent nothing, or not as much as it took, it broke the rules. Otherwise
/// the rest is offered again, after a turn at the end of a burst, and the stream
/// is ready where there is none.
pub proof fn law_backend_is_held_to_what_it_reports<X>(
    stream: &mut Stream<Bytes>,
    sent: Poll<Result<usize, X>>,
    left: Bytes,
    budget: &mut usize,
    step: ReadyStep<Bytes, X>,
)
    requires
        call_ensures(Stream::<Bytes>::sent::<X>, (stream, sent, left, budget), step),
        old(stream).pending is Some,
        *old(budget) < 32,
    ensures
        ({
            let before = buf::content(old(stream).pending->0).len();
            let rest = buf::content(left);
            let honest = sent is Ready && sent->0 is Ok && sent->0->Ok_0 > 0 && sent->0->Ok_0
                + rest.len() == before;
            &&& sent is Pending ==> step is Pend
            &&& sent matches Poll::Ready(Err(failure)) ==> step == ReadyStep::<Bytes, X>::Return(
                Err(Incoming::Outside(failure)),
            )
            &&& sent is Ready && sent->0 is Ok && !honest ==> step == ReadyStep::<
                Bytes,
                X,
            >::Return(Err(Incoming::InternalError(Reason::InconsistentSend)))
            &&& honest && rest.len() == 0 ==> step == ReadyStep::<Bytes, X>::Return(Ok(()))
                && final(stream).pending is None
            &&& honest && rest.len() > 0 && *old(budget) == 31 ==> step is Yield
            &&& honest && rest.len() > 0 && *old(budget) < 31 ==> step is PollSend
                && buf::content(step->PollSend_0) == rest
            &&& !(honest && rest.len() == 0) ==> final(stream).pending is Some && buf::content(
                final(stream).pending->0,
            ) == rest
            &&& honest ==> *final(budget) == *old(budget) + 1
            &&& !honest ==> *final(budget) == *old(budget)
        }),
{
}

/// A poll to finish, or to send other data, goes on like one for readiness, and
/// calls the backend exactly where everything that was queued is sent.
pub proof fn law_backend_is_called_once_all_is_sent<X>(
    stream: &mut Stream<Bytes>,
    sent: Poll<Result<usize, X>>,
    left: Bytes,
    budget: &mut usize,
    step: FlushStep<Bytes, X>,
)
    requires
        call_ensures(Stream::<Bytes>::flushed::<X>, (stream, sent, left, budget), step),
        old(stream).pending is Some,
        *old(budget) < 32,
    ensures
        ({
            let before = buf::content(old(stream).pending->0).len();
            let rest = buf::content(left);
            let honest = sent is Ready && sent->0 is Ok && sent->0->Ok_0 > 0 && sent->0->Ok_0
                + rest.len() == before;
            &&& sent is Pending ==> step is Pend
            &&& sent matches Poll::Ready(Err(failure)) ==> step == FlushStep::<Bytes, X>::Failed(
                Incoming::Outside(failure),
            )
            &&& sent is Ready && sent->0 is Ok && !honest ==> step == FlushStep::<
                Bytes,
                X,
            >::Failed(Incoming::InternalError(Reason::InconsistentSend))
            &&& step is Call <==> honest && rest.len() == 0
            &&& step is Call ==> final(stream).pending is None
            &&& honest && rest.len() > 0 && *old(budget) == 31 ==> step is Yield
            &&& honest && rest.len() > 0 && *old(budget) < 31 ==> step is PollSend
                && buf::content(step->PollSend_0) == rest
            &&& step !is Call ==> final(stream).pending is Some && buf::content(
                final(stream).pending->0,
            ) == rest
            &&& honest ==> *final(budget) == *old(budget) + 1
            &&& !honest ==> *final(budget) == *old(budget)
        }),
{
}

/// Data is queued as it is where nothing is, and refused where there is something,
/// which stays. A reset drops what is queued. A stream is made with nothing
/// queued, and split into the half that keeps the queue and one without.
pub proof fn law_queue_holds_one_piece<X>(
    made: Stream<Bytes>,
    stream: &mut Stream<Bytes>,
    data: Bytes,
    queued: Result<(), Incoming<X>>,
    dropped: &mut Stream<Bytes>,
    whole: Stream<Bytes>,
    halves: (Stream<Bytes>, Stream<Bytes>),
)
    requires
        call_ensures(Stream::<Bytes>::new, (), made),
        call_ensures(Stream::<Bytes>::send_data::<X>, (stream, data), queued),
        call_ensures(Stream::<Bytes>::reset, (dropped,), ()),
        call_ensures(Stream::<Bytes>::split, (whole,), halves),
    ensures
        made.pending is None,
        old(stream).pending is None ==> {
            &&& queued is Ok
            &&& final(stream).pending is Some
            &&& buf::content(final(stream).pending->0) == buf::content(data)
        },
        old(stream).pending is Some ==> {
            &&& queued == Err::<(), Incoming<X>>(Incoming::InternalError(Reason::SendNotReady))
            &&& *final(stream) == *old(stream)
        },
        final(dropped).pending is None,
        halves.0 == whole && halves.1.pending is None,
{
}

} // verus!
