//! The sending direction of a CONNECT tunnel.

use bytes::Bytes;
use vstd::prelude::*;

use crate::buf;
use crate::client::{SendGuard, BURST};
use crate::error::{Error, Kind, Poll};
use crate::tunnel_io::Command;

verus! {

/// What the sending direction of a tunnel waits for in a poll.
#[derive(Clone, Copy, PartialEq, Eq, Structural, Debug)]
pub enum SendAt {
    /// The next poll.
    Rest,
    /// Whether the peer stopped the stream.
    Watch,
    /// Room on the stream.
    Ready,
    /// The next command.
    Command,
    /// Data to be taken.
    Write,
    /// The FIN to be taken.
    Finish,
    /// The acknowledgment of the FIN.
    Acknowledgment,
    /// Nothing more.
    Done,
}

/// Drives tunnel writes and flush barriers, acknowledging local shutdown before
/// waiting for FIN delivery.
#[derive(Clone, Copy, PartialEq, Eq, Debug)]
pub struct SendStream {
    pub send: SendGuard,
    /// A finish was requested and is to be acknowledged.
    pub finish: bool,
    pub at: SendAt,
    /// How many commands this poll has taken.
    pub budget: usize,
}

/// An outcome that the sending direction takes.
#[derive(Debug)]
pub enum SendEvent<D, X> {
    /// The direction is polled.
    Start,
    /// The peer's answer to the send direction was polled.
    Stopped(Poll<Result<(), X>>),
    /// The stream was polled for room, with what it accepted before flushed.
    Ready(Poll<Result<(), X>>),
    /// The channel was polled for a command; there is none where the tunnel is
    /// gone.
    Command(Poll<Option<Command<D>>>),
    /// The data was taken or not.
    Written(Result<(), X>),
    /// The stream was polled to finish.
    Finished(Poll<Result<(), X>>),
}

/// What the sending direction calls for next.
#[derive(Debug)]
pub enum SendStep<D, X> {
    PollStopped,
    PollReady,
    PollCommand,
    /// Hand this data to the stream.
    Write(D),
    PollFinish,
    /// Wait until polled again.
    Pend,
    /// Ask to be polled again at once, and wait for that.
    Yield,
    /// The direction is over.
    Return(Result<(), Error<X>>),
    /// Nothing: the outcome does not belong to where the direction is.
    Nothing,
}

/// What has to be done before the next step.
#[derive(Clone, Copy, PartialEq, Eq, Structural, Debug)]
pub enum SendEffect {
    Nothing,
    /// Acknowledge the flush that was taken.
    AckFlush,
    /// Acknowledge the finish that was taken before.
    AckFinish,
    /// Close the Datagram route for sending.
    CloseRoute,
}

impl<X> View for SendEvent<Bytes, X> {
    type V = SendEvent<Seq<u8>, X>;

    open spec fn view(&self) -> SendEvent<Seq<u8>, X> {
        match self {
            SendEvent::Start => SendEvent::Start,
            SendEvent::Stopped(found) => SendEvent::Stopped(*found),
            SendEvent::Ready(found) => SendEvent::Ready(*found),
            SendEvent::Command(Poll::Pending) => SendEvent::Command(Poll::Pending),
            SendEvent::Command(Poll::Ready(None)) => SendEvent::Command(Poll::Ready(None)),
            SendEvent::Command(Poll::Ready(Some(command))) => SendEvent::Command(
                Poll::Ready(Some(command@)),
            ),
            SendEvent::Written(written) => SendEvent::Written(*written),
            SendEvent::Finished(found) => SendEvent::Finished(*found),
        }
    }
}

impl<X> View for SendStep<Bytes, X> {
    type V = SendStep<Seq<u8>, X>;

    open spec fn view(&self) -> SendStep<Seq<u8>, X> {
        match self {
            SendStep::PollStopped => SendStep::PollStopped,
            SendStep::PollReady => SendStep::PollReady,
            SendStep::PollCommand => SendStep::PollCommand,
            SendStep::Write(data) => SendStep::Write(buf::content(*data)),
            SendStep::PollFinish => SendStep::PollFinish,
            SendStep::Pend => SendStep::Pend,
            SendStep::Yield => SendStep::Yield,
            SendStep::Return(result) => SendStep::Return(*result),
            SendStep::Nothing => SendStep::Nothing,
        }
    }
}

/// The outcome of a direction whose stream failed or not.
pub open spec fn h3_result<X>(result: Result<(), X>) -> Result<(), Error<X>> {
    match result {
        Ok(_) => Ok(()),
        Err(failure) => Err(Error::outside(Kind::Http3, failure)),
    }
}

fn to_h3<X>(result: Result<(), X>) -> (converted: Result<(), Error<X>>)
    ensures
        converted == h3_result(result),
{
    match result {
        Ok(_) => Ok(()),
        Err(failure) => Err(Error::new_outside(Kind::Http3, failure)),
    }
}

impl SendStream {
    /// The direction of a tunnel that has just been made.
    pub open spec fn begun(send: SendGuard) -> Self {
        SendStream { send, finish: false, at: SendAt::Rest, budget: 0 }
    }

    /// The budget stays within a burst, and the FIN is sent exactly when its
    /// acknowledgment is all that is left.
    pub open spec fn wf(self) -> bool {
        &&& self.budget <= BURST
        &&& self.at == SendAt::Watch || self.at == SendAt::Ready || self.at == SendAt::Command
            || self.at == SendAt::Write || self.at == SendAt::Finish ==> self.budget < BURST
        &&& self.at == SendAt::Acknowledgment ==> self.send.finished
        &&& self.send.finished ==> self.at == SendAt::Rest || self.at == SendAt::Acknowledgment
            || self.at == SendAt::Done
        &&& self.at == SendAt::Finish ==> self.finish
        &&& self.at == SendAt::Watch || self.at == SendAt::Ready || self.at == SendAt::Command
            || self.at == SendAt::Write ==> !self.finish
    }

    /// The direction at this place, with what it calls for there.
    pub open spec fn going<X>(self, at: SendAt, step: SendStep<Seq<u8>, X>) -> (
        Self,
        SendEffect,
        SendStep<Seq<u8>, X>,
    ) {
        (SendStream { at, ..self }, SendEffect::Nothing, step)
    }

    /// The direction that is over.
    pub open spec fn over<X>(self, result: Result<(), Error<X>>) -> (
        Self,
        SendEffect,
        SendStep<Seq<u8>, X>,
    ) {
        (SendStream { at: SendAt::Done, ..self }, SendEffect::Nothing, SendStep::Return(result))
    }

    /// The direction at the beginning of a round: it finishes where that was
    /// requested, watches for a stop otherwise, and yields after a burst.
    pub open spec fn round<X>(self, effect: SendEffect) -> (
        Self,
        SendEffect,
        SendStep<Seq<u8>, X>,
    ) {
        if self.budget >= BURST {
            (SendStream { at: SendAt::Rest, ..self }, effect, SendStep::Yield)
        } else if self.finish {
            (SendStream { at: SendAt::Finish, ..self }, effect, SendStep::PollFinish)
        } else {
            (SendStream { at: SendAt::Watch, ..self }, effect, SendStep::PollStopped)
        }
    }

    /// The direction with one more command taken in this poll.
    pub open spec fn counted(self) -> Self {
        SendStream { budget: (self.budget + 1) as usize, ..self }
    }

    /// The direction after a command.
    pub open spec fn commanded<X>(self, command: Command<Seq<u8>>) -> (
        Self,
        SendEffect,
        SendStep<Seq<u8>, X>,
    ) {
        match command {
            Command::Data(data) => self.going(SendAt::Write, SendStep::Write(data)),
            Command::Flush => self.counted().round(SendEffect::AckFlush),
            Command::Finish => (SendStream { finish: true, ..self.counted() }).round(
                if self.send.datagrams {
                    SendEffect::CloseRoute
                } else {
                    SendEffect::Nothing
                },
            ),
        }
    }

    /// The direction after an outcome, what has to be done at once, and what
    /// follows.
    pub open spec fn next<X>(self, event: SendEvent<Seq<u8>, X>) -> (
        Self,
        SendEffect,
        SendStep<Seq<u8>, X>,
    ) {
        match (self.at, event) {
            (SendAt::Rest, SendEvent::Start) => if self.send.finished {
                self.going(SendAt::Acknowledgment, SendStep::PollStopped)
            } else {
                (SendStream { budget: 0, ..self }).round(SendEffect::Nothing)
            },
            (SendAt::Acknowledgment, SendEvent::Stopped(Poll::Pending)) => self.going(
                SendAt::Rest,
                SendStep::Pend,
            ),
            (SendAt::Acknowledgment, SendEvent::Stopped(Poll::Ready(result))) => self.over(
                h3_result(result),
            ),
            (SendAt::Watch, SendEvent::Stopped(Poll::Pending)) => self.going(
                SendAt::Ready,
                SendStep::PollReady,
            ),
            (SendAt::Watch, SendEvent::Stopped(Poll::Ready(result))) => (
                SendStream { at: SendAt::Done, ..self },
                if self.send.datagrams {
                    SendEffect::CloseRoute
                } else {
                    SendEffect::Nothing
                },
                SendStep::Return(h3_result(result)),
            ),
            (SendAt::Ready, SendEvent::Ready(Poll::Pending)) => self.going(
                SendAt::Rest,
                SendStep::Pend,
            ),
            (SendAt::Ready, SendEvent::Ready(Poll::Ready(Err(failure)))) => self.over(
                Err(Error::outside(Kind::Http3, failure)),
            ),
            (SendAt::Ready, SendEvent::Ready(Poll::Ready(Ok(_)))) => self.going(
                SendAt::Command,
                SendStep::PollCommand,
            ),
            (SendAt::Command, SendEvent::Command(Poll::Pending)) => self.going(
                SendAt::Rest,
                SendStep::Pend,
            ),
            (SendAt::Command, SendEvent::Command(Poll::Ready(None))) => self.over(
                Err(Error::plain(Kind::Canceled)),
            ),
            (SendAt::Command, SendEvent::Command(Poll::Ready(Some(command)))) => self.commanded(
                command,
            ),
            (SendAt::Write, SendEvent::Written(Ok(_))) => self.counted().round(
                SendEffect::Nothing,
            ),
            (SendAt::Write, SendEvent::Written(Err(failure))) => self.over(
                Err(Error::outside(Kind::Http3, failure)),
            ),
            (SendAt::Finish, SendEvent::Finished(Poll::Pending)) => self.going(
                SendAt::Rest,
                SendStep::Pend,
            ),
            (SendAt::Finish, SendEvent::Finished(Poll::Ready(Err(failure)))) => self.over(
                Err(Error::outside(Kind::Http3, failure)),
            ),
            (SendAt::Finish, SendEvent::Finished(Poll::Ready(Ok(_)))) => (
                SendStream {
                    send: SendGuard { finished: true, ..self.send },
                    finish: false,
                    at: SendAt::Acknowledgment,
                    ..self
                },
                SendEffect::AckFinish,
                SendStep::PollStopped,
            ),
            _ => (self, SendEffect::Nothing, SendStep::Nothing),
        }
    }

    /// The sending direction of a tunnel.
    pub fn new(send: SendGuard) -> (stream: Self)
        ensures
            stream == SendStream::begun(send),
            stream.wf(),
    {
        SendStream { send, finish: false, at: SendAt::Rest, budget: 0 }
    }

    fn go_round<X>(&mut self) -> (step: SendStep<Bytes, X>)
        ensures
            (*final(self), SendEffect::Nothing, step@) == old(self).round::<X>(
                SendEffect::Nothing,
            ),
    {
        if self.budget >= BURST {
            self.at = SendAt::Rest;
            SendStep::Yield
        } else if self.finish {
            self.at = SendAt::Finish;
            SendStep::PollFinish
        } else {
            self.at = SendAt::Watch;
            SendStep::PollStopped
        }
    }

    fn end<X>(&mut self, result: Result<(), Error<X>>) -> (step: SendStep<Bytes, X>)
        ensures
            (*final(self), SendEffect::Nothing, step@) == old(self).over(result),
    {
        self.at = SendAt::Done;
        SendStep::Return(result)
    }

    fn route_effect(&self) -> (effect: SendEffect)
        ensures
            effect == if self.send.datagrams {
                SendEffect::CloseRoute
            } else {
                SendEffect::Nothing
            },
    {
        if self.send.datagrams {
            SendEffect::CloseRoute
        } else {
            SendEffect::Nothing
        }
    }

    /// Takes a command.
    fn obey<X>(&mut self, command: Command<Bytes>) -> (step: (SendEffect, SendStep<Bytes, X>))
        requires
            old(self).budget < BURST,
        ensures
            (*final(self), step.0, step.1@) == old(self).commanded::<X>(command@),
    {
        match command {
            Command::Data(data) => {
                self.at = SendAt::Write;
                (SendEffect::Nothing, SendStep::Write(data))
            },
            Command::Flush => {
                self.budget = self.budget + 1;
                (SendEffect::AckFlush, self.go_round())
            },
            Command::Finish => {
                let effect = self.route_effect();
                self.finish = true;
                self.budget = self.budget + 1;
                (effect, self.go_round())
            },
        }
    }

    /// Takes an outcome.
    pub fn step<X>(&mut self, event: SendEvent<Bytes, X>) -> (step: (
        SendEffect,
        SendStep<Bytes, X>,
    ))
        requires
            old(self).wf(),
        ensures
            (*final(self), step.0, step.1@) == old(self).next(event@),
            final(self).wf(),
    {
        let step = match (self.at, event) {
            (SendAt::Rest, SendEvent::Start) => {
                if self.send.finished {
                    self.at = SendAt::Acknowledgment;
                    SendStep::PollStopped
                } else {
                    self.budget = 0;
                    self.go_round()
                }
            },
            (SendAt::Acknowledgment, SendEvent::Stopped(Poll::Pending)) => {
                self.at = SendAt::Rest;
                SendStep::Pend
            },
            (SendAt::Acknowledgment, SendEvent::Stopped(Poll::Ready(result))) => self.end(
                to_h3(result),
            ),
            (SendAt::Watch, SendEvent::Stopped(Poll::Pending)) => {
                self.at = SendAt::Ready;
                SendStep::PollReady
            },
            (SendAt::Watch, SendEvent::Stopped(Poll::Ready(result))) => {
                let effect = self.route_effect();
                return (effect, self.end(to_h3(result)));
            },
            (SendAt::Ready, SendEvent::Ready(Poll::Pending)) => {
                self.at = SendAt::Rest;
                SendStep::Pend
            },
            (SendAt::Ready, SendEvent::Ready(Poll::Ready(Err(failure)))) => self.end(
                Err(Error::new_outside(Kind::Http3, failure)),
            ),
            (SendAt::Ready, SendEvent::Ready(Poll::Ready(Ok(_)))) => {
                // What was accepted is flushed before another command is waited
                // for, even if the application never flushes or writes again.
                self.at = SendAt::Command;
                SendStep::PollCommand
            },
            (SendAt::Command, SendEvent::Command(Poll::Pending)) => {
                self.at = SendAt::Rest;
                SendStep::Pend
            },
            (SendAt::Command, SendEvent::Command(Poll::Ready(None))) => self.end(
                Err(Error::new(Kind::Canceled)),
            ),
            (SendAt::Command, SendEvent::Command(Poll::Ready(Some(command)))) => {
                return self.obey(command);
            },
            (SendAt::Write, SendEvent::Written(Ok(_))) => {
                self.budget = self.budget + 1;
                self.go_round()
            },
            (SendAt::Write, SendEvent::Written(Err(failure))) => self.end(
                Err(Error::new_outside(Kind::Http3, failure)),
            ),
            (SendAt::Finish, SendEvent::Finished(Poll::Pending)) => {
                self.at = SendAt::Rest;
                SendStep::Pend
            },
            (SendAt::Finish, SendEvent::Finished(Poll::Ready(Err(failure)))) => self.end(
                Err(Error::new_outside(Kind::Http3, failure)),
            ),
            (SendAt::Finish, SendEvent::Finished(Poll::Ready(Ok(_)))) => {
                // The shutdown is acknowledged with the local FIN; a drain still
                // waits for its delivery.
                self.send.finished = true;
                self.finish = false;
                self.at = SendAt::Acknowledgment;
                return (SendEffect::AckFinish, SendStep::PollStopped);
            },
            _ => SendStep::Nothing,
        };
        (SendEffect::Nothing, step)
    }
}

/// The task hands data to the stream as it came, and only right after the stream
/// had room and everything before was flushed. It acknowledges a flush only
/// then too, a finish only once the stream took it, and is over without a
/// failure only once the FIN is acknowledged or the peer stopped the stream.
pub proof fn law_tunnel_acknowledges_only_what_is_done<X>(
    stream: SendStream,
    first: SendEvent<Seq<u8>, X>,
    second: SendEvent<Seq<u8>, X>,
)
    requires
        stream.wf(),
        stream.at != SendAt::Command,
    ensures
        ({
            let between = stream.next(first).0;
            let (after, effect, step) = between.next(second);
            &&& step is Write || effect == SendEffect::AckFlush ==> first is Ready
                && first->Ready_0 is Ready && first->Ready_0->0 is Ok
            &&& step is Write ==> second == SendEvent::<Seq<u8>, X>::Command(
                Poll::Ready(Some(Command::Data(step->Write_0))),
            )
            &&& effect == SendEffect::AckFinish ==> second is Finished && second->Finished_0
                is Ready && second->Finished_0->0 is Ok && after.send.finished
            &&& step is Return && step->Return_0 is Ok ==> second is Stopped && second->Stopped_0
                is Ready && second->Stopped_0->0 is Ok
        }),
{
}

/// The sending direction after outcomes, one after the other.
pub open spec fn send_after<X>(stream: SendStream, events: Seq<SendEvent<Seq<u8>, X>>) -> SendStream
    decreases events.len(),
{
    if events.len() == 0 {
        stream
    } else {
        send_after(stream, events.drop_last()).next(events.last()).0
    }
}

/// The bytes of all data commands that the direction took.
pub open spec fn commanded<X>(stream: SendStream, events: Seq<SendEvent<Seq<u8>, X>>) -> Seq<u8>
    decreases events.len(),
{
    if events.len() == 0 {
        Seq::empty()
    } else {
        commanded(stream, events.drop_last()) + match events.last() {
            SendEvent::Command(Poll::Ready(Some(Command::Data(data)))) => if send_after(
                stream,
                events.drop_last(),
            ).at == SendAt::Command {
                data
            } else {
                Seq::empty()
            },
            _ => Seq::empty(),
        }
    }
}

/// The bytes that the direction handed to the stream.
pub open spec fn written<X>(stream: SendStream, events: Seq<SendEvent<Seq<u8>, X>>) -> Seq<u8>
    decreases events.len(),
{
    if events.len() == 0 {
        Seq::empty()
    } else {
        written(stream, events.drop_last()) + match send_after(
            stream,
            events.drop_last(),
        ).next(events.last()).2 {
            SendStep::Write(data) => data,
            _ => Seq::empty(),
        }
    }
}

/// The bytes of the commands go to the stream in order and whole.
pub proof fn law_tunnel_writes_in_order<X>(
    stream: SendStream,
    events: Seq<SendEvent<Seq<u8>, X>>,
)
    ensures
        written(stream, events) == commanded(stream, events),
    decreases events.len(),
{
    if events.len() > 0 {
        law_tunnel_writes_in_order(stream, events.drop_last());
    }
}

/// Whether a direction is at the beginning of a round, and calls for what it
/// should there: after thirty-two commands of one poll it yields, otherwise it
/// goes on with the FIN where that was asked for, and looks at the peer where it
/// was not.
pub open spec fn begins_a_round<X>(stream: SendStream, step: SendStep<Bytes, X>) -> bool {
    &&& stream.budget >= 32 ==> stream.at == SendAt::Rest && step is Yield
    &&& stream.budget < 32 && stream.finish ==> stream.at == SendAt::Finish && step is PollFinish
    &&& stream.budget < 32 && !stream.finish ==> stream.at == SendAt::Watch && step is PollStopped
}

/// A direction is made with nothing asked for. Polled, it waits for the
/// acknowledgment where its FIN was sent, and begins a round otherwise, with no
/// command taken in this poll.
pub proof fn law_poll_of_the_sending_direction<X>(
    send: SendGuard,
    made: SendStream,
    stream: &mut SendStream,
    step: (SendEffect, SendStep<Bytes, X>),
)
    requires
        call_ensures(SendStream::new, (send,), made),
        call_ensures(SendStream::step::<X>, (stream, SendEvent::Start), step),
        old(stream).wf(),
        old(stream).at == SendAt::Rest,
    ensures
        made.send == send && !made.finish && made.at == SendAt::Rest && made.budget == 0,
        step.0 is Nothing,
        final(stream).send == old(stream).send && final(stream).finish == old(stream).finish,
        old(stream).send.finished ==> {
            &&& final(stream).at == SendAt::Acknowledgment
            &&& step.1 is PollStopped
            &&& final(stream).budget == old(stream).budget
        },
        !old(stream).send.finished ==> {
            &&& final(stream).budget == 0
            &&& begins_a_round(*final(stream), step.1)
        },
{
}

/// A peer that has not answered lets a direction go on to wait for room, or wait
/// for the acknowledgment of its FIN. One that stopped or acknowledged ends the
/// direction well and a lost connection fails it; before the FIN that closes the
/// Datagram route where there is one.
pub proof fn law_answer_of_the_peer_ends_the_direction<X>(
    stream: &mut SendStream,
    found: Poll<Result<(), X>>,
    step: (SendEffect, SendStep<Bytes, X>),
)
    requires
        call_ensures(SendStream::step::<X>, (stream, SendEvent::Stopped(found)), step),
        old(stream).wf(),
        old(stream).at == SendAt::Watch || old(stream).at == SendAt::Acknowledgment,
    ensures
        *final(stream) == (SendStream { at: final(stream).at, ..*old(stream) }),
        step.0 is CloseRoute <==> found is Ready && old(stream).at == SendAt::Watch
            && old(stream).send.datagrams,
        step.0 is CloseRoute || step.0 is Nothing,
        found is Pending && old(stream).at == SendAt::Watch ==> final(stream).at == SendAt::Ready
            && step.1 is PollReady,
        found is Pending && old(stream).at == SendAt::Acknowledgment ==> final(stream).at
            == SendAt::Rest && step.1 is Pend,
        found is Ready ==> final(stream).at == SendAt::Done && step.1 is Return,
        found is Ready && found->0 is Ok ==> step.1->Return_0 is Ok,
        found matches Poll::Ready(Err(failure)) ==> step.1->Return_0 == Err::<(), Error<X>>(
            Error::outside(Kind::Http3, failure),
        ),
{
}

/// Room on the stream lets a command be taken, and a failure ends the direction.
pub proof fn law_room_lets_a_command_be_taken<X>(
    stream: &mut SendStream,
    found: Poll<Result<(), X>>,
    step: (SendEffect, SendStep<Bytes, X>),
)
    requires
        call_ensures(SendStream::step::<X>, (stream, SendEvent::Ready(found)), step),
        old(stream).wf(),
        old(stream).at == SendAt::Ready,
    ensures
        *final(stream) == (SendStream { at: final(stream).at, ..*old(stream) }),
        step.0 is Nothing,
        found is Pending ==> final(stream).at == SendAt::Rest && step.1 is Pend,
        found is Ready && found->0 is Ok ==> final(stream).at == SendAt::Command
            && step.1 is PollCommand,
        found matches Poll::Ready(Err(failure)) ==> final(stream).at == SendAt::Done && step.1
            == SendStep::<Bytes, X>::Return(Err(Error::outside(Kind::Http3, failure))),
{
}

/// A data command has its data handed to the stream, as it came. A flush is
/// acknowledged at once. A finish is noted, and closes the Datagram route where
/// there is one. A direction whose tunnel is gone is canceled.
pub proof fn law_commands_are_obeyed<X>(
    stream: &mut SendStream,
    found: Poll<Option<Command<Bytes>>>,
    step: (SendEffect, SendStep<Bytes, X>),
)
    requires
        call_ensures(SendStream::step::<X>, (stream, SendEvent::Command(found)), step),
        old(stream).wf(),
        old(stream).at == SendAt::Command,
    ensures
        final(stream).send == old(stream).send,
        found is Pending ==> {
            &&& *final(stream) == (SendStream { at: SendAt::Rest, ..*old(stream) })
            &&& step.0 is Nothing && step.1 is Pend
        },
        found is Ready && found->0 is None ==> {
            &&& *final(stream) == (SendStream { at: SendAt::Done, ..*old(stream) })
            &&& step.0 is Nothing
            &&& step.1 == SendStep::<Bytes, X>::Return(Err(Error::plain(Kind::Canceled)))
        },
        found matches Poll::Ready(Some(Command::Data(data))) ==> {
            &&& *final(stream) == (SendStream { at: SendAt::Write, ..*old(stream) })
            &&& step.0 is Nothing
            &&& step.1 is Write && buf::content(step.1->Write_0) == buf::content(data)
        },
        found matches Poll::Ready(Some(Command::Flush)) ==> {
            &&& step.0 is AckFlush
            &&& final(stream).budget == old(stream).budget + 1
            &&& final(stream).finish == old(stream).finish
            &&& begins_a_round(*final(stream), step.1)
        },
        found matches Poll::Ready(Some(Command::Finish)) ==> {
            &&& step.0 is CloseRoute <==> old(stream).send.datagrams
            &&& step.0 is CloseRoute || step.0 is Nothing
            &&& final(stream).budget == old(stream).budget + 1
            &&& final(stream).finish
            &&& begins_a_round(*final(stream), step.1)
        },
{
}

/// Data that was taken counts as a command and lets the next round begin; data
/// that was not ends the direction.
pub proof fn law_written_data_begins_a_round<X>(
    stream: &mut SendStream,
    written: Result<(), X>,
    step: (SendEffect, SendStep<Bytes, X>),
)
    requires
        call_ensures(SendStream::step::<X>, (stream, SendEvent::Written(written)), step),
        old(stream).wf(),
        old(stream).at == SendAt::Write,
    ensures
        step.0 is Nothing,
        final(stream).send == old(stream).send && final(stream).finish == old(stream).finish,
        written is Ok ==> final(stream).budget == old(stream).budget + 1 && begins_a_round(
            *final(stream),
            step.1,
        ),
        written matches Err(failure) ==> {
            &&& *final(stream) == (SendStream { at: SendAt::Done, ..*old(stream) })
            &&& step.1 == SendStep::<Bytes, X>::Return(Err(Error::outside(Kind::Http3, failure)))
        },
{
}

/// A FIN that was taken finishes the half, is acknowledged to the tunnel, and has
/// the peer waited for; one that failed ends the direction.
pub proof fn law_taken_fin_is_acknowledged<X>(
    stream: &mut SendStream,
    found: Poll<Result<(), X>>,
    step: (SendEffect, SendStep<Bytes, X>),
)
    requires
        call_ensures(SendStream::step::<X>, (stream, SendEvent::Finished(found)), step),
        old(stream).wf(),
        old(stream).at == SendAt::Finish,
    ensures
        final(stream).budget == old(stream).budget,
        final(stream).send.datagrams == old(stream).send.datagrams,
        found is Pending ==> *final(stream) == (SendStream { at: SendAt::Rest, ..*old(stream) })
            && step.0 is Nothing && step.1 is Pend,
        found is Ready && found->0 is Ok ==> {
            &&& final(stream).send.finished && !final(stream).finish
            &&& final(stream).at == SendAt::Acknowledgment
            &&& step.0 is AckFinish && step.1 is PollStopped
        },
        found matches Poll::Ready(Err(failure)) ==> {
            &&& *final(stream) == (SendStream { at: SendAt::Done, ..*old(stream) })
            &&& step.0 is Nothing
            &&& step.1 == SendStep::<Bytes, X>::Return(Err(Error::outside(Kind::Http3, failure)))
        },
{
}

/// An outcome that does not belong to where the direction is changes nothing.
pub proof fn law_outcomes_belong_to_the_sending_direction<X>(
    stream: &mut SendStream,
    event: SendEvent<Bytes, X>,
    step: (SendEffect, SendStep<Bytes, X>),
)
    requires
        call_ensures(SendStream::step::<X>, (stream, event), step),
        old(stream).wf(),
        match event {
            SendEvent::Start => old(stream).at != SendAt::Rest,
            SendEvent::Stopped(_) => old(stream).at != SendAt::Watch && old(stream).at
                != SendAt::Acknowledgment,
            SendEvent::Ready(_) => old(stream).at != SendAt::Ready,
            SendEvent::Command(_) => old(stream).at != SendAt::Command,
            SendEvent::Written(_) => old(stream).at != SendAt::Write,
            SendEvent::Finished(_) => old(stream).at != SendAt::Finish,
        },
    ensures
        *final(stream) == *old(stream),
        step.0 is Nothing,
        step.1 is Nothing,
{
}

} // verus!
