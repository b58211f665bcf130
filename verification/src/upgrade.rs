//! CONNECT tunnels over HTTP/3 request streams: how one is made, and the task
//! that moves its bytes and holds its exchange until both directions are over.

use bytes::Bytes;
use vstd::prelude::*;

use crate::client::{self, RecvDrop, RecvGuard, SendGuard};
use crate::error::{Code, Error, Kind, Poll, Reason};
use crate::shared::{self, Active, Move, Shared, State, Wakes};
use crate::tunnel_io::Upgraded;
use crate::tunnel_recv::RecvStream;
use crate::tunnel_send::SendStream;

verus! {

/// Both directions of a tunnel, each until it is over.
#[derive(Debug)]
pub struct Transfer<D> {
    pub send: Option<SendStream>,
    pub recv: Option<RecvStream<D>>,
}

/// An outcome that a transfer takes.
#[derive(Debug)]
pub enum TransferEvent<X> {
    /// The transfer is polled.
    Start,
    /// The sending direction was polled.
    Send(Poll<Result<(), Error<X>>>),
    /// The receiving direction was polled.
    Recv(Poll<Result<(), Error<X>>>),
}

/// What a direction calls for that goes because it is over, before anything
/// else.
#[derive(Clone, Copy, PartialEq, Eq, Structural, Debug)]
pub struct DirectionEnd {
    /// The code with which to reset the stream, if at all: a peer that stops a
    /// direction before its FIN is answered so.
    pub reset: Option<Code>,
    /// What giving up the receive half calls for, where it was given up.
    pub recv: Option<RecvDrop>,
}

/// What a transfer calls for next.
#[derive(Debug)]
pub enum TransferStep<X> {
    PollSend,
    PollRecv,
    /// Wait until polled again.
    Pend,
    /// The transfer is over: both directions are, or one failed.
    Over(Result<(), Error<X>>),
}

impl<D> Transfer<D> {
    /// What follows once the sending direction has had its turn.
    pub open spec fn receiving<X>(self) -> TransferStep<X> {
        if self.recv is Some {
            TransferStep::PollRecv
        } else {
            self.settling()
        }
    }

    /// What follows once both directions have had their turn.
    pub open spec fn settling<X>(self) -> TransferStep<X> {
        if self.send is None && self.recv is None {
            TransferStep::Over(Ok(()))
        } else {
            TransferStep::Pend
        }
    }

    /// The transfer after an outcome, what a direction that went calls for, and
    /// what follows. `invalid` tells whether an invalid Datagram has come.
    pub open spec fn next<X>(self, event: TransferEvent<X>, invalid: bool) -> (
        Self,
        DirectionEnd,
        TransferStep<X>,
    ) {
        let nothing = DirectionEnd { reset: None, recv: None };
        match event {
            TransferEvent::Start => if invalid {
                (
                    self,
                    nothing,
                    TransferStep::Over(
                        Err(Error::because(Kind::Http3, Reason::InvalidDatagram)),
                    ),
                )
            } else if self.send is Some {
                (self, nothing, TransferStep::PollSend)
            } else {
                (self, nothing, self.receiving())
            },
            TransferEvent::Send(Poll::Pending) => (self, nothing, self.receiving()),
            TransferEvent::Send(Poll::Ready(Ok(_))) => {
                let after = Transfer { send: None, ..self };
                (
                    after,
                    DirectionEnd {
                        reset: match self.send {
                            Some(stream) => stream.send.reset_code(invalid),
                            None => None,
                        },
                        recv: None,
                    },
                    after.receiving(),
                )
            },
            TransferEvent::Send(Poll::Ready(Err(error))) => (
                self,
                nothing,
                TransferStep::Over(Err(error)),
            ),
            TransferEvent::Recv(Poll::Pending) => (self, nothing, self.settling()),
            TransferEvent::Recv(Poll::Ready(Ok(_))) => {
                let after = Transfer { recv: None, ..self };
                (
                    after,
                    DirectionEnd {
                        reset: None,
                        recv: match self.recv {
                            Some(stream) => Some(stream.recv.dropped(invalid)),
                            None => None,
                        },
                    },
                    after.settling(),
                )
            },
            TransferEvent::Recv(Poll::Ready(Err(error))) => (
                self,
                nothing,
                TransferStep::Over(Err(error)),
            ),
        }
    }

    fn receive<X>(&self) -> (step: TransferStep<X>)
        ensures
            step == self.receiving::<X>(),
    {
        if self.recv.is_some() {
            TransferStep::PollRecv
        } else {
            self.settle()
        }
    }

    fn settle<X>(&self) -> (step: TransferStep<X>)
        ensures
            step == self.settling::<X>(),
    {
        if self.send.is_none() && self.recv.is_none() {
            TransferStep::Over(Ok(()))
        } else {
            TransferStep::Pend
        }
    }

    /// Takes an outcome. Each poll looks for an invalid Datagram first, then
    /// polls the directions that are not over, the sending one first. A
    /// direction that is over goes at once, as the first part of the result
    /// tells: its stream half is given up while the other direction goes on.
    pub fn step<X>(&mut self, event: TransferEvent<X>, invalid: bool) -> (taken: (
        DirectionEnd,
        TransferStep<X>,
    ))
        ensures
            (*final(self), taken.0, taken.1) == old(self).next(event, invalid),
    {
        let mut end = DirectionEnd { reset: None, recv: None };
        let step = match event {
            TransferEvent::Start => {
                if invalid {
                    TransferStep::Over(Err(client::invalid_datagram_error()))
                } else if self.send.is_some() {
                    TransferStep::PollSend
                } else {
                    self.receive()
                }
            },
            TransferEvent::Send(Poll::Pending) => self.receive(),
            TransferEvent::Send(Poll::Ready(Ok(_))) => {
                if let Some(stream) = self.send.take() {
                    end.reset = stream.send.abandon(invalid);
                }
                self.receive()
            },
            TransferEvent::Send(Poll::Ready(Err(error))) => TransferStep::Over(Err(error)),
            TransferEvent::Recv(Poll::Pending) => self.settle(),
            TransferEvent::Recv(Poll::Ready(Ok(_))) => {
                if let Some(stream) = self.recv.take() {
                    end.recv = Some(stream.recv.abandon(invalid));
                }
                self.settle()
            },
            TransferEvent::Recv(Poll::Ready(Err(error))) => TransferStep::Over(Err(error)),
        };
        (end, step)
    }
}

/// Owns a CONNECT transfer and its admission slot until both directions finish.
#[derive(Debug)]
pub struct UpgradeTask<D> {
    pub transfer: Option<Transfer<D>>,
    pub active: Option<Active>,
    pub registration: bool,
}

/// What the end of a tunnel's task calls for, in this order.
#[derive(Debug)]
pub struct TunnelEnd<X> {
    /// The code with which to reset the stream, if at all.
    pub reset: Option<Code>,
    /// What giving up the receive half calls for, where it was given up.
    pub recv: Option<RecvDrop>,
    /// The failure to report to the tunnel's reader.
    pub report: Option<Error<X>>,
    /// The registration for Datagrams ends.
    pub unregister: bool,
    /// Who has to be woken for the permit that came back.
    pub wakes: Wakes,
}

impl UpgradeTask<Seq<u8>> {
    /// The connection counts the exchange that the task holds.
    pub open spec fn is_counted<X>(self, shared: State<X>) -> bool {
        &&& shared.wf()
        &&& self.active is Some ==> shared.counts((self.active->0)@)
    }

    /// What the end of the task calls for, given why it ends; a published error
    /// of the connection is preferred.
    pub open spec fn ending<X>(
        self,
        shared: State<X>,
        failure: Option<Error<X>>,
        invalid: bool,
    ) -> TunnelEnd<X> {
        let reader = self.transfer is Some && (self.transfer->0).recv is Some && ((
        self.transfer->0).recv->0).open;
        TunnelEnd {
            reset: match self.transfer {
                Some(Transfer { send: Some(stream), .. }) => stream.send.reset_code(invalid),
                _ => None,
            },
            recv: match self.transfer {
                Some(Transfer { recv: Some(stream), .. }) => Some(stream.recv.dropped(invalid)),
                _ => None,
            },
            report: match failure {
                Some(error) => if reader && self.active is Some {
                    Some(shared.failure_or(error))
                } else {
                    None
                },
                None => None,
            },
            unregister: self.registration,
            wakes: match self.active {
                Some(active) => shared.release_wakes(active@),
                None => Wakes { driver: false, waiting: false, datagrams: false },
            },
        }
    }

    /// The connection once the task has ended.
    pub open spec fn freed<X>(self, shared: State<X>) -> State<X> {
        match self.active {
            Some(active) => shared.released(active@),
            None => shared,
        }
    }

    /// The task that has ended.
    pub open spec fn ended() -> Self {
        UpgradeTask { transfer: None, active: None, registration: false }
    }
}

impl View for UpgradeTask<Bytes> {
    type V = UpgradeTask<Seq<u8>>;

    open spec fn view(&self) -> UpgradeTask<Seq<u8>> {
        UpgradeTask {
            transfer: match self.transfer {
                Some(transfer) => Some(
                    Transfer {
                        send: transfer.send,
                        recv: match transfer.recv {
                            Some(recv) => Some(recv@),
                            None => None,
                        },
                    },
                ),
                None => None,
            },
            active: self.active,
            registration: self.registration,
        }
    }
}

impl UpgradeTask<Bytes> {
    /// Ends the task once its transfer is over, with the failure if there was
    /// one, or because it is dropped. Directions that are not finished are
    /// canceled before the failure is reported.
    pub fn end<X>(
        &mut self,
        shared: &mut Shared<X>,
        failure: Option<Error<X>>,
        invalid: bool,
    ) -> (end: TunnelEnd<X>)
        requires
            old(self)@.is_counted(old(shared)@),
        ensures
            end == old(self)@.ending(old(shared)@, failure, invalid),
            final(self)@ == UpgradeTask::ended(),
            final(shared)@ == old(self)@.freed(old(shared)@),
    {
        let mut reset: Option<Code> = None;
        let mut recv: Option<RecvDrop> = None;
        let mut reader = false;
        if let Some(transfer) = self.transfer.take() {
            if let Some(stream) = transfer.send {
                reset = stream.send.abandon(invalid);
            }
            if let Some(stream) = transfer.recv {
                recv = Some(stream.recv.abandon(invalid));
                reader = stream.open;
            }
        }
        let report = match failure {
            Some(error) => {
                if reader && self.active.is_some() {
                    Some(shared.error_or(error))
                } else {
                    None
                }
            },
            None => None,
        };
        let unregister = self.registration;
        self.registration = false;
        let wakes = match self.active.take() {
            Some(active) => shared.release(active),
            None => Wakes { driver: false, waiting: false, datagrams: false },
        };
        TunnelEnd { reset, recv, report, unregister, wakes }
    }
}

/// Datagram semantics of a CONNECT tunnel.
#[derive(Clone, Copy, PartialEq, Eq, Structural, Debug)]
pub enum TunnelDatagrams {
    /// The connection routes no Datagrams.
    Disabled,
    /// The tunnel is registered, but takes no Datagrams.
    Ordinary,
    /// The tunnel takes Datagrams.
    Datagram,
}

impl TunnelDatagrams {
    /// The semantics of a tunnel whose stream is registered or not, and whose
    /// request asked for Datagrams or not.
    pub fn new(registered: bool, requested: bool) -> (datagrams: Self)
        ensures
            datagrams == if !registered {
                TunnelDatagrams::Disabled
            } else if requested {
                TunnelDatagrams::Datagram
            } else {
                TunnelDatagrams::Ordinary
            },
    {
        if !registered {
            TunnelDatagrams::Disabled
        } else if requested {
            TunnelDatagrams::Datagram
        } else {
            TunnelDatagrams::Ordinary
        }
    }
}

/// A tunnel in the making.
#[derive(Debug)]
pub struct Tunnel {
    /// The task to run.
    pub task: UpgradeTask<Bytes>,
    /// The end that the application gets.
    pub io: Upgraded<Bytes>,
    /// Whether the application gets it as a Datagram session, after it has
    /// accepted that, and not as an ordinary upgrade.
    pub session: bool,
}

/// Turns a successful CONNECT into a tunnel. Both stream directions move to a
/// task that reads eagerly, so that peer resets surface even while the tunnel
/// is idle.
pub fn tunnel(
    send: SendGuard,
    recv: RecvGuard,
    active: Active,
    datagrams: TunnelDatagrams,
) -> (tunnel: Tunnel)
    ensures
        tunnel.task@ == (UpgradeTask {
            transfer: Some(
                Transfer {
                    send: Some(SendStream::begun(send)),
                    recv: Some(RecvStream::begun(recv)),
                },
            ),
            active: Some(active),
            registration: datagrams != TunnelDatagrams::Disabled,
        }),
        tunnel.io@ == (Upgraded {
            data: Seq::<u8>::empty(),
            pending: None,
            shutdown: false,
            read_closed: false,
            datagrams: datagrams == TunnelDatagrams::Datagram,
        }),
        tunnel.session == (datagrams == TunnelDatagrams::Datagram),
{
    let session = match datagrams {
        TunnelDatagrams::Datagram => true,
        _ => false,
    };
    let registration = match datagrams {
        TunnelDatagrams::Disabled => false,
        _ => true,
    };
    Tunnel {
        task: UpgradeTask {
            transfer: Some(
                Transfer { send: Some(SendStream::new(send)), recv: Some(RecvStream::new(recv)) },
            ),
            active: Some(active),
            registration,
        },
        io: Upgraded::new(session),
        session,
    }
}

/// A transfer is over without a failure only when both of its directions are,
/// and a direction goes only when it was over without a failure.
pub proof fn law_transfer_waits_for_both_directions<X>(
    transfer: Transfer<Seq<u8>>,
    event: TransferEvent<X>,
    invalid: bool,
)
    ensures
        ({
            let (after, _, step) = transfer.next(event, invalid);
            &&& step is Over && step->Over_0 is Ok ==> after.send is None && after.recv is None
            &&& transfer.send is Some && after.send is None ==> event is Send
                && event->Send_0 is Ready && event->Send_0->0 is Ok
            &&& transfer.recv is Some && after.recv is None ==> event is Recv
                && event->Recv_0 is Ready && event->Recv_0->0 is Ok
        }),
{
}

/// No unfinished half of a tunnel goes in silence: the moment the sending
/// direction goes its stream is reset, unless its FIN was delivered, and the
/// moment the receiving one goes the peer is told to stop, unless it was read
/// to its end. Nothing is called for while a direction stays.
pub proof fn law_unfinished_direction_is_answered<X>(
    transfer: Transfer<Seq<u8>>,
    event: TransferEvent<X>,
    invalid: bool,
)
    ensures
        ({
            let (after, end, _) = transfer.next(event, invalid);
            &&& transfer.send is Some && after.send is None ==> end.reset == (
            transfer.send->0).send.reset_code(invalid)
            &&& transfer.send is Some && after.send is None && !(
            transfer.send->0).send.finished ==> end.reset is Some
            &&& after.send == transfer.send ==> end.reset is None
            &&& transfer.recv is Some && after.recv is None ==> end.recv == Some(
                (transfer.recv->0).recv.dropped(invalid),
            )
            &&& after.recv == transfer.recv ==> end.recv is None
        }),
{
}

/// While the task of a tunnel has not ended its connection is not idle, so a
/// drain waits for the delivery of the tunnel's FIN. When it ends the exchange
/// is released, whatever became of it.
pub proof fn law_tunnel_keeps_the_connection_open<X>(
    task: UpgradeTask<Seq<u8>>,
    shared: State<X>,
)
    requires
        task.is_counted(shared),
        task.active is Some,
        (task.active->0)@.permit,
    ensures
        !shared.is_idle(),
        task.freed(shared).active == shared.active - 1,
        task.freed(shared).permits == shared.permits + 1,
{
}

/// The exchange of a tunnel whose task has not ended stays counted, whatever
/// the other exchanges, the requests that wait, the handles and the driver do to
/// the connection: it can always be released, and the connection is not idle.
pub proof fn law_tunnel_stays_counted<X>(
    task: UpgradeTask<Seq<u8>>,
    shared: State<X>,
    admitted: Set<int>,
    moves: Seq<Move<X>>,
    exchange: int,
)
    requires
        task.is_counted(shared),
        task.active is Some,
        (task.active->0)@.permit,
        admitted.finite(),
        shared.active == admitted.len(),
        shared.allows_all(shared::changes_of(moves)),
        shared::each_moves_once(admitted, moves),
        admitted.contains(exchange),
        !shared::gives_up(moves, exchange),
    ensures
        task.is_counted(shared.after_all(shared::changes_of(moves))),
        !shared.after_all(shared::changes_of(moves)).is_idle(),
{
    shared::law_exchange_stays_counted_until_given_up(shared, admitted, moves, exchange);
}

/// A poll of a transfer fails for an invalid Datagram, polls the sending direction
/// where that is not over, then the receiving one where that is not, and is over
/// once both are. A direction that is over goes, and has its half given up; one
/// that fails ends the transfer. Otherwise the transfer stays as it is.
pub proof fn law_directions_have_their_turn<D, X>(
    transfer: &mut Transfer<D>,
    event: TransferEvent<X>,
    invalid: bool,
    taken: (DirectionEnd, TransferStep<X>),
)
    requires
        call_ensures(Transfer::<D>::step::<X>, (transfer, event, invalid), taken),
    ensures
        ({
            let send_over = event is Send && event->Send_0 is Ready && event->Send_0->0 is Ok;
            let recv_over = event is Recv && event->Recv_0 is Ready && event->Recv_0->0 is Ok;
            let sends = event is Start && !invalid && old(transfer).send is Some;
            let receives = event is Start && !invalid && old(transfer).send is None || event is Send
                && event->Send_0 is Pending || send_over;
            let settles = receives && final(transfer).recv is None || event is Recv
                && event->Recv_0 is Pending || recv_over;
            let done = final(transfer).send is None && final(transfer).recv is None;
            &&& send_over ==> final(transfer).send is None
            &&& !send_over ==> final(transfer).send == old(transfer).send
            &&& recv_over ==> final(transfer).recv is None
            &&& !recv_over ==> final(transfer).recv == old(transfer).recv
            &&& send_over && old(transfer).send is Some ==> taken.0.reset == (
            old(transfer).send->0).send.reset_code(invalid)
            &&& !(send_over && old(transfer).send is Some) ==> taken.0.reset is None
            &&& recv_over && old(transfer).recv is Some ==> taken.0.recv == Some(
                (old(transfer).recv->0).recv.dropped(invalid),
            )
            &&& !(recv_over && old(transfer).recv is Some) ==> taken.0.recv is None
            &&& event is Start && invalid ==> taken.1 == TransferStep::<X>::Over(
                Err(Error::because(Kind::Http3, Reason::InvalidDatagram)),
            )
            &&& sends ==> taken.1 is PollSend
            &&& receives && final(transfer).recv is Some ==> taken.1 is PollRecv
            &&& settles && done ==> taken.1 == TransferStep::<X>::Over(Ok(()))
            &&& settles && !done ==> taken.1 is Pend
            &&& event matches TransferEvent::Send(Poll::Ready(Err(error))) ==> taken.1
                == TransferStep::<X>::Over(Err(error))
            &&& event matches TransferEvent::Recv(Poll::Ready(Err(error))) ==> taken.1
                == TransferStep::<X>::Over(Err(error))
        }),
{
}

/// The end of a tunnel's task resets a sending direction that is left, gives up a
/// receiving one, and reports a failure to a reader that is still there, or what
/// the connection published before. The registration ends and the exchange is
/// released; nothing is left of the task.
pub proof fn law_end_of_a_tunnel_gives_everything_up<X>(
    task: &mut UpgradeTask<Bytes>,
    shared: &mut Shared<X>,
    failure: Option<Error<X>>,
    invalid: bool,
    end: TunnelEnd<X>,
)
    requires
        call_ensures(UpgradeTask::<Bytes>::end::<X>, (task, shared, failure, invalid), end),
        old(task)@.is_counted(old(shared)@),
        old(task).active is Some ==> (old(task).active->0)@.permit,
    ensures
        ({
            let sends = old(task).transfer is Some && (old(task).transfer->0).send is Some;
            let receives = old(task).transfer is Some && (old(task).transfer->0).recv is Some;
            let recv = (old(task).transfer->0).recv->0;
            let told = failure is Some && receives && recv.open && old(task).active is Some;
            &&& final(task).transfer is None && final(task).active is None
                && !final(task).registration
            &&& sends ==> end.reset == ((old(task).transfer->0).send->0).send.reset_code(invalid)
            &&& !sends ==> end.reset is None
            &&& receives ==> end.recv == Some(recv.recv.dropped(invalid))
            &&& !receives ==> end.recv is None
            &&& told ==> end.report == Some(old(shared)@.failure_or(failure->0))
            &&& !told ==> end.report is None
            &&& end.unregister == old(task).registration
            &&& !end.wakes.datagrams
            &&& old(task).active is Some ==> {
                &&& final(shared)@.permits == old(shared)@.permits + 1
                &&& final(shared)@.active == old(shared)@.active - 1
                &&& final(shared)@ == (State {
                    permits: final(shared)@.permits,
                    active: final(shared)@.active,
                    ..old(shared)@
                })
                &&& end.wakes.driver == old(shared)@.draining && end.wakes.waiting
            }
            &&& old(task).active is None ==> final(shared)@ == old(shared)@ && !end.wakes.driver
                && !end.wakes.waiting
        }),
{
}

/// A tunnel takes Datagrams where its stream is registered and its request asked
/// for them, is an ordinary one where it is only registered, and otherwise has
/// none.
pub proof fn law_tunnel_has_the_datagrams_it_asked_for(
    registered: bool,
    requested: bool,
    datagrams: TunnelDatagrams,
)
    requires
        call_ensures(TunnelDatagrams::new, (registered, requested), datagrams),
    ensures
        datagrams is Datagram <==> registered && requested,
        datagrams is Disabled <==> !registered,
        datagrams is Ordinary <==> registered && !requested,
{
}

/// A tunnel begins with both directions, made of the halves of its stream, holds
/// its exchange, and is registered where Datagrams are routed. The application
/// gets an end that is open both ways, as a session where it takes Datagrams.
pub proof fn law_tunnel_begins_with_both_directions(
    send: SendGuard,
    recv: RecvGuard,
    active: Active,
    datagrams: TunnelDatagrams,
    made: Tunnel,
)
    requires
        call_ensures(tunnel, (send, recv, active, datagrams), made),
    ensures
        made.task.transfer is Some,
        ({
            let transfer = made.task.transfer->0;
            &&& transfer.send is Some && (transfer.send->0).send == send
            &&& !(transfer.send->0).finish && (transfer.send->0).at is Rest
            &&& transfer.recv is Some && (transfer.recv->0).recv == recv
            &&& (transfer.recv->0).open && (transfer.recv->0).data is None
            &&& !(transfer.recv->0).data_done && (transfer.recv->0).at is Rest
        }),
        made.task.active == Some(active),
        made.task.registration <==> datagrams !is Disabled,
        made.io@.data.len() == 0 && made.io.pending is None,
        !made.io.shutdown && !made.io.read_closed,
        made.io.datagrams <==> datagrams is Datagram,
        made.session <==> datagrams is Datagram,
{
}

} // verus!
