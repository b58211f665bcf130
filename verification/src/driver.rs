//! Background task of an HTTP/3 connection: SETTINGS, Datagram routing, and the
//! drain that closes the QUIC connection once every exchange is done.

use vstd::prelude::*;

use crate::body::Receiving;
use crate::client::{BodyInfo, RequestHead};
use crate::conn::{Close, CloseReason};
use crate::error::{Code, Error, Kind, Poll, Reason};
use crate::shared::{self, Change, Move, Shared, State, Wakes};
use crate::{exchange, upgrade};

verus! {

/// The connection task: it drives the connection until that closes, then
/// reports the outcome to the handle. Dropping it unfinished terminates the
/// connection, so that an executor that discards it cannot leave requests
/// waiting.
#[derive(Clone, Copy, PartialEq, Eq, Structural, Debug)]
pub struct ConnTask {
    /// The Datagram driver still runs.
    pub datagrams: bool,
    /// The outcome has not been reported yet.
    pub unreported: bool,
}

/// What the peer's SETTINGS say.
#[derive(Clone, Copy, PartialEq, Eq, Structural, Debug)]
pub struct Settings {
    pub extended_connect: bool,
    pub datagram: bool,
}

/// An outcome that the task takes.
#[derive(Debug)]
pub enum Event<X> {
    /// The task is polled, after it was registered for wakeups.
    Start,
    /// The HTTP/3 layer was polled for the end of the connection. `normal`
    /// tells whether it ended without an error.
    Ended(Poll<(X, bool)>),
    /// The peer's SETTINGS were looked for; there are none before they came.
    Settings(Option<Settings>),
    /// The Datagram driver was polled.
    Datagrams(Poll<Result<(), (Code, Error<X>)>>),
    /// It was looked whether the HTTP/3 layer is closing.
    Closing(bool),
    /// The QUIC connection was closed because it is idle.
    IdleClosed,
}

/// What the task calls for next.
#[derive(Debug)]
pub enum Step<X> {
    /// Poll the HTTP/3 layer for the end of the connection.
    PollEnd,
    /// Look for the peer's SETTINGS.
    ReadSettings,
    PollDatagrams,
    /// Look whether the HTTP/3 layer is closing.
    AskClosing,
    /// Close the QUIC connection, which is idle.
    CloseIdle(Close),
    /// Wait until woken.
    Pend,
    /// The task is over: close the QUIC connection, where it says so, and report
    /// the outcome.
    Over(Option<Close>, Result<(), Error<X>>),
    /// The task was over before.
    Finished,
}

/// What has to be done before the next step.
#[derive(Clone, Copy, PartialEq, Eq, Structural, Debug)]
pub struct Acts {
    pub wakes: Wakes,
    /// Tell the Datagram routes what the peer's SETTINGS say of Datagrams.
    pub negotiated: Option<bool>,
}

/// The task and the state of its connection, as the contracts speak of them.
pub struct Driving<X> {
    pub task: ConnTask,
    pub shared: State<X>,
}

/// Nobody has to be woken.
pub open spec fn no_wakes() -> Wakes {
    Wakes { driver: false, waiting: false, datagrams: false }
}

/// Nothing has to be done.
pub open spec fn no_acts() -> Acts {
    Acts { wakes: no_wakes(), negotiated: None }
}

impl<X> Driving<X> {
    /// The connection is ended with this error, unless one was published
    /// before, and with whom to wake for it.
    pub open spec fn ending(self, error: Error<X>) -> (Self, Acts) {
        (
            Driving {
                task: ConnTask { unreported: false, ..self.task },
                shared: self.shared.terminated(error),
            },
            Acts {
                wakes: Wakes { datagrams: self.shared.datagrams, ..self.shared.shut_wakes() },
                negotiated: None,
            },
        )
    }

    /// What follows once SETTINGS are dealt with.
    pub open spec fn routing(self) -> Step<X> {
        if self.task.datagrams {
            Step::PollDatagrams
        } else {
            Step::AskClosing
        }
    }

    /// What follows once the connection is known to be closing or not: an idle
    /// connection that accepts no more requests is closed.
    pub open spec fn draining(self) -> Step<X> {
        if self.shared.draining && self.shared.is_idle() {
            Step::CloseIdle(Close { code: Code::NoError, reason: CloseReason::Done })
        } else {
            Step::Pend
        }
    }

    /// The task and its connection after an outcome, what has to be done at
    /// once, and what follows.
    pub open spec fn next(self, event: Event<X>) -> (Self, Acts, Step<X>) {
        if !self.task.unreported {
            (self, no_acts(), Step::Finished)
        } else {
            match event {
                Event::Start => (self, no_acts(), Step::PollEnd),
                Event::Ended(Poll::Pending) => (
                    self,
                    no_acts(),
                    if self.shared.peer_extended_connect is None {
                        Step::ReadSettings
                    } else {
                        self.routing()
                    },
                ),
                Event::Ended(Poll::Ready((failure, normal))) => {
                    let (over, acts) = self.ending(Error::outside(Kind::Http3, failure));
                    (
                        over,
                        acts,
                        Step::Over(
                            None,
                            if normal {
                                Ok(())
                            } else {
                                Err(over.shared.failure())
                            },
                        ),
                    )
                },
                Event::Settings(None) => (self, no_acts(), self.routing()),
                Event::Settings(Some(settings)) => (
                    Driving {
                        shared: self.shared.after(Change::Settle(settings.extended_connect)),
                        ..self
                    },
                    Acts {
                        wakes: Wakes {
                            waiting: self.shared.peer_extended_connect is None,
                            ..no_wakes()
                        },
                        negotiated: if self.shared.datagrams {
                            Some(settings.datagram)
                        } else {
                            None
                        },
                    },
                    self.routing(),
                ),
                Event::Datagrams(Poll::Pending) => (self, no_acts(), Step::AskClosing),
                Event::Datagrams(Poll::Ready(Ok(_))) => (
                    Driving { task: ConnTask { datagrams: false, ..self.task }, ..self },
                    Acts {
                        wakes: Wakes { datagrams: self.shared.datagrams, ..no_wakes() },
                        negotiated: None,
                    },
                    Step::AskClosing,
                ),
                Event::Datagrams(Poll::Ready(Err((code, error)))) => {
                    let (over, acts) = (Driving {
                        task: ConnTask { datagrams: false, ..self.task },
                        ..self
                    }).ending(error);
                    (
                        over,
                        acts,
                        Step::Over(
                            Some(Close { code, reason: CloseReason::DatagramFailed }),
                            Err(over.shared.failure()),
                        ),
                    )
                },
                Event::Closing(closing) => if closing {
                    let shut = Driving { shared: self.shared.shut(), ..self };
                    (
                        shut,
                        Acts { wakes: self.shared.shut_wakes(), negotiated: None },
                        shut.draining(),
                    )
                } else {
                    (self, no_acts(), self.draining())
                },
                Event::IdleClosed => {
                    let (over, acts) = self.ending(Error::plain(Kind::Closed));
                    (over, acts, Step::Over(None, Ok(())))
                },
            }
        }
    }

    /// The task is dropped: the connection ends if it has not, and with what to
    /// close it and what to report.
    pub open spec fn dropping(self) -> (Self, Acts, Option<(Close, Error<X>)>) {
        if self.task.unreported {
            let (over, acts) = self.ending(Error::because(Kind::Canceled, Reason::TaskDropped));
            (
                over,
                acts,
                Some(
                    (
                        Close { code: Code::NoError, reason: CloseReason::TaskDropped },
                        over.shared.failure(),
                    ),
                ),
            )
        } else {
            (self, no_acts(), None)
        }
    }
}

fn nothing() -> (acts: Acts)
    ensures
        acts == no_acts(),
{
    Acts {
        wakes: Wakes { driver: false, waiting: false, datagrams: false },
        negotiated: None,
    }
}

impl ConnTask {
    /// The task of a connection that has just been made, with a Datagram driver
    /// or without.
    pub fn new(datagrams: bool) -> (task: Self)
        ensures
            task == (ConnTask { datagrams, unreported: true }),
    {
        ConnTask { datagrams, unreported: true }
    }

    fn finish<X>(&mut self, shared: &mut Shared<X>, error: Error<X>) -> (acts: Acts)
        ensures
            (Driving { task: *final(self), shared: final(shared)@ }, acts) == (Driving {
                task: *old(self),
                shared: old(shared)@,
            }).ending(error),
    {
        self.unreported = false;
        Acts { wakes: shared.terminate(error), negotiated: None }
    }

    fn route<X>(&self) -> (step: Step<X>)
        ensures
            forall|shared: State<X>|
                step == #[trigger] (Driving { task: *self, shared }).routing(),
    {
        if self.datagrams {
            Step::PollDatagrams
        } else {
            Step::AskClosing
        }
    }

    /// Takes an outcome. The cause of an end is published before the QUIC
    /// connection is closed for it, so that exchanges which the close wakes find
    /// it.
    pub fn step<X>(&mut self, shared: &mut Shared<X>, event: Event<X>) -> (step: (Acts, Step<X>))
        ensures
            (Driving { task: *final(self), shared: final(shared)@ }, step.0, step.1) == (Driving {
                task: *old(self),
                shared: old(shared)@,
            }).next(event),
    {
        if !self.unreported {
            return (nothing(), Step::Finished);
        }
        match event {
            Event::Start => (nothing(), Step::PollEnd),
            Event::Ended(Poll::Pending) => {
                if shared.peer_extended_connect().is_none() {
                    (nothing(), Step::ReadSettings)
                } else {
                    (nothing(), self.route())
                }
            },
            Event::Ended(Poll::Ready((failure, normal))) => {
                let acts = self.finish(shared, Error::new_outside(Kind::Http3, failure));
                let result = if normal {
                    Ok(())
                } else {
                    Err(shared.error())
                };
                (acts, Step::Over(None, result))
            },
            Event::Settings(None) => (nothing(), self.route()),
            Event::Settings(Some(settings)) => {
                let mut acts = nothing();
                if shared.has_datagrams() {
                    acts.negotiated = Some(settings.datagram);
                }
                acts.wakes.waiting = shared.settle(settings.extended_connect);
                (acts, self.route())
            },
            Event::Datagrams(Poll::Pending) => (nothing(), Step::AskClosing),
            Event::Datagrams(Poll::Ready(Ok(_))) => {
                self.datagrams = false;
                let mut acts = nothing();
                acts.wakes.datagrams = shared.has_datagrams();
                (acts, Step::AskClosing)
            },
            Event::Datagrams(Poll::Ready(Err((code, error)))) => {
                self.datagrams = false;
                let acts = self.finish(shared, error);
                let close = Close { code, reason: CloseReason::DatagramFailed };
                (acts, Step::Over(Some(close), Err(shared.error())))
            },
            Event::Closing(closing) => {
                let mut acts = nothing();
                if closing {
                    acts.wakes = shared.shutdown();
                }
                if shared.is_closed() && shared.is_idle() {
                    let close = Close { code: Code::NoError, reason: CloseReason::Done };
                    (acts, Step::CloseIdle(close))
                } else {
                    (acts, Step::Pend)
                }
            },
            Event::IdleClosed => {
                let acts = self.finish(shared, Error::new(Kind::Closed));
                (acts, Step::Over(None, Ok(())))
            },
        }
    }

    /// Drops the task. Before it has reported, this ends the connection: the
    /// error is published first, then the QUIC connection is closed and the
    /// failure reported as the result says.
    pub fn abandon<X>(&mut self, shared: &mut Shared<X>) -> (ended: (
        Acts,
        Option<(Close, Error<X>)>,
    ))
        ensures
            (Driving { task: *final(self), shared: final(shared)@ }, ended.0, ended.1)
                == (Driving { task: *old(self), shared: old(shared)@ }).dropping(),
    {
        if !self.unreported {
            return (nothing(), None);
        }
        let acts = self.finish(shared, Error::new(Kind::Canceled).with(Reason::TaskDropped));
        let close = Close { code: Code::NoError, reason: CloseReason::TaskDropped };
        (acts, Some((close, shared.error())))
    }
}

/// The task closes an idle connection only when it accepts no more requests and
/// no admitted exchange is left, nor any that waits for admission while that is
/// open.
pub proof fn law_idle_close_follows_the_drain<X>(driving: Driving<X>, event: Event<X>)
    requires
        driving.next(event).2 is CloseIdle,
    ensures
        ({
            let now = driving.next(event).0.shared;
            &&& now.draining
            &&& now.active == 0
            &&& now.admission_closed || now.reserved == 0
        }),
{
}

/// A connection that drains and is idle is closed and reported as ended well,
/// whether or not the HTTP/3 layer is closing too, and whatever has become of it
/// by the time it is closed.
pub proof fn law_idle_drain_ends_the_connection<X>(
    driving: Driving<X>,
    closing: bool,
    found: State<X>,
)
    requires
        driving.task.unreported,
        driving.shared.draining,
        driving.shared.is_idle(),
    ensures
        ({
            let (idle, _, step) = driving.next(Event::Closing(closing));
            let (over, _, end) = (Driving { shared: found, ..idle }).next(Event::IdleClosed);
            &&& step == Step::<X>::CloseIdle(
                Close { code: Code::NoError, reason: CloseReason::Done },
            )
            &&& end is Over
            &&& end->Over_0 is None
            &&& end->Over_1 is Ok
            &&& found.error is None ==> over.shared.failure() == Error::passed_on(
                std::sync::Arc::new(Error::<X>::plain(Kind::Closed)),
            )
        }),
{
}

/// A drain waits for every exchange whose response is not finished or whose
/// sending, up to the acknowledgment of its FIN, is not complete: while there
/// is one the task does not close the connection as idle.
pub proof fn law_drain_waits_for_acknowledged_sending<X>(
    driving: Driving<X>,
    receiving: Receiving<X>,
    event: Event<X>,
)
    requires
        receiving.wf(),
        receiving.held.shared == driving.shared,
        receiving.held.link.recv is Some || receiving.held.link.pipe_pending,
    ensures
        driving.next(event).2 !is CloseIdle,
{
}

/// A drain waits for every tunnel whose task has not ended.
pub proof fn law_drain_waits_for_tunnels<X>(
    driving: Driving<X>,
    task: upgrade::UpgradeTask<Seq<u8>>,
    event: Event<X>,
)
    requires
        task.is_counted(driving.shared),
        task.active is Some,
        (task.active->0)@.permit,
    ensures
        driving.next(event).2 !is CloseIdle,
{
}

/// A drain waits for every admitted exchange until it is given up, whatever the
/// others do: while one of them is not, the task does not close the connection
/// as idle.
pub proof fn law_drain_waits_for_every_exchange<X>(
    driving: Driving<X>,
    before: State<X>,
    admitted: Set<int>,
    moves: Seq<Move<X>>,
    exchange: int,
    event: Event<X>,
)
    requires
        before.wf(),
        admitted.finite(),
        before.active == admitted.len(),
        before.allows_all(shared::changes_of(moves)),
        shared::each_moves_once(admitted, moves),
        admitted.contains(exchange),
        !shared::gives_up(moves, exchange),
        driving.shared == before.after_all(shared::changes_of(moves)),
    ensures
        driving.next(event).2 !is CloseIdle,
{
    shared::law_exchange_stays_counted_until_given_up(before, admitted, moves, exchange);
}

/// A failure of the Datagram driver is the cause that everyone sees: the
/// connection is closed with its code and reports it, and so does every
/// exchange that fails afterwards, whatever happens in between.
pub proof fn law_datagram_failure_preserves_the_cause<X>(
    driving: Driving<X>,
    code: Code,
    error: Error<X>,
    changes: Seq<Change<X>>,
    later: Error<X>,
)
    requires
        driving.task.unreported,
        driving.shared.wf(),
        driving.shared.error is None,
        driving.shared.terminated(error).allows_all(changes),
    ensures
        ({
            let (over, _, step) = driving.next(
                Event::Datagrams(Poll::Ready(Err((code, error)))),
            );
            let cause = Error::passed_on(std::sync::Arc::new(error));
            &&& step == Step::Over(
                Some(Close { code, reason: CloseReason::DatagramFailed }),
                Err(cause),
            )
            &&& over.shared == driving.shared.terminated(error)
            &&& over.shared.after_all(changes).failure() == cause
            &&& over.shared.after_all(changes).failure_or(later) == cause
        }),
{
    shared::law_first_cause_is_preserved(driving.shared, error, changes, later);
}

/// The outcome is reported once, in whatever state the connection is found
/// later, and by then the connection leaves nobody waiting: an error is
/// published, no request is accepted any more, and those that wait for SETTINGS
/// or admission are returned.
pub proof fn law_end_of_the_task_leaves_nobody_waiting<X>(
    driving: Driving<X>,
    event: Event<X>,
    later: Event<X>,
    found: State<X>,
)
    requires
        driving.shared.wf(),
        driving.task.unreported,
        driving.next(event).2 is Over,
    ensures
        ({
            let over = driving.next(event).0;
            &&& over.shared.error is Some
            &&& over.shared.draining
            &&& over.shared.admission_closed
            &&& over.shared.settings_ready
            &&& (Driving { shared: found, ..over }).next(later).2 is Finished
            &&& (Driving { shared: found, ..over }).dropping().2 is None
        }),
{
}

/// Dropping a task that has not reported leaves nobody waiting either.
pub proof fn law_dropped_task_leaves_nobody_waiting<X>(driving: Driving<X>, found: State<X>)
    requires
        driving.shared.wf(),
        driving.task.unreported,
    ensures
        ({
            let (over, _, ended) = driving.dropping();
            &&& ended is Some
            &&& over.shared.error is Some
            &&& over.shared.draining
            &&& over.shared.admission_closed
            &&& over.shared.settings_ready
            &&& (Driving { shared: found, ..over }).dropping().2 is None
        }),
{
}

/// The first SETTINGS of the peer leave what they say of Extended CONNECT, and
/// end the wait for them, whatever they say of Datagrams; later ones leave what
/// the first said. What they say of Datagrams is told to the routes where there
/// are any. Nothing else of the connection or the task changes.
pub proof fn law_settings_are_taken_as_they_say<X>(
    task: &mut ConnTask,
    shared: &mut Shared<X>,
    settings: Settings,
    step: (Acts, Step<X>),
)
    requires
        call_ensures(
            ConnTask::step::<X>,
            (task, shared, Event::Settings(Some(settings))),
            step,
        ),
        old(task).unreported,
    ensures
        ({
            let before = old(shared)@;
            let now = final(shared)@;
            &&& before.peer_extended_connect is None ==> {
                &&& now.peer_extended_connect == Some(settings.extended_connect)
                &&& now.settings_ready
            }
            &&& before.peer_extended_connect is Some ==> now == before
            &&& now == (State {
                peer_extended_connect: now.peer_extended_connect,
                settings_ready: now.settings_ready,
                ..before
            })
            &&& step.0.wakes.waiting <==> before.peer_extended_connect is None
            &&& !step.0.wakes.driver && !step.0.wakes.datagrams
            &&& before.datagrams ==> step.0.negotiated == Some(settings.datagram)
            &&& !before.datagrams ==> step.0.negotiated is None
            &&& old(task).datagrams ==> step.1 is PollDatagrams
            &&& !old(task).datagrams ==> step.1 is AskClosing
            &&& *final(task) == *old(task)
        }),
{
}

/// An Extended CONNECT that waits while the first SETTINGS come goes on exactly
/// where they enable it, whatever they say of Datagrams: while admission is open
/// it is refused otherwise, because the peer did not enable it.
pub proof fn law_extended_connect_goes_by_the_settings<X>(
    task: &mut ConnTask,
    shared: &mut Shared<X>,
    settings: Settings,
    step: (Acts, Step<X>),
    found: &Shared<X>,
    allowed: Result<(), Error<X>>,
)
    requires
        call_ensures(
            ConnTask::step::<X>,
            (task, shared, Event::Settings(Some(settings))),
            step,
        ),
        old(task).unreported,
        old(shared)@.peer_extended_connect is None,
        found@ == final(shared)@,
        call_ensures(exchange::check_extended_connect::<X>, (found,), allowed),
    ensures
        found@.settings_ready,
        allowed is Ok <==> settings.extended_connect,
        !settings.extended_connect && !old(shared)@.admission_closed ==> allowed->Err_0
            == Error::<X>::because(Kind::UserInvalidRequest, Reason::PeerWithoutExtendedConnect),
{
}

/// A poll asks first for the end of the connection, then for the SETTINGS until
/// they came, then of the Datagram routes while they run, then whether the
/// HTTP/3 layer closes; an outcome that tells nothing new changes nothing.
pub proof fn law_polls_go_in_order<X>(
    task: &mut ConnTask,
    shared: &mut Shared<X>,
    event: Event<X>,
    step: (Acts, Step<X>),
)
    requires
        call_ensures(ConnTask::step::<X>, (task, shared, event), step),
        old(task).unreported,
        event is Start || event == Event::<X>::Settings(None) || event is Ended
            && event->Ended_0 is Pending || event is Datagrams && event->Datagrams_0 is Pending,
    ensures
        ({
            let routes = old(task).datagrams;
            let known = old(shared)@.peer_extended_connect is Some;
            &&& final(shared)@ == old(shared)@
            &&& *final(task) == *old(task)
            &&& !step.0.wakes.driver && !step.0.wakes.waiting && !step.0.wakes.datagrams
            &&& step.0.negotiated is None
            &&& event is Start ==> step.1 is PollEnd
            &&& event is Ended && !known ==> step.1 is ReadSettings
            &&& (event is Ended && known || event is Settings) && routes ==> step.1 is PollDatagrams
            &&& (event is Ended && known || event is Settings) && !routes ==> step.1 is AskClosing
            &&& event is Datagrams ==> step.1 is AskClosing
        }),
{
}

/// The end of the connection is published as its error, and reported: well where
/// it ended without an error, and with the failure otherwise. Nothing is left to
/// close.
pub proof fn law_end_of_the_connection_is_reported<X>(
    task: &mut ConnTask,
    shared: &mut Shared<X>,
    failure: X,
    normal: bool,
    step: (Acts, Step<X>),
)
    requires
        call_ensures(
            ConnTask::step::<X>,
            (task, shared, Event::Ended(Poll::Ready((failure, normal)))),
            step,
        ),
        old(task).unreported,
    ensures
        final(shared)@ == old(shared)@.terminated(Error::outside(Kind::Http3, failure)),
        !final(task).unreported && final(task).datagrams == old(task).datagrams,
        step.1 is Over && step.1->Over_0 is None,
        normal ==> step.1->Over_1 is Ok,
        !normal ==> step.1->Over_1 == Err::<(), Error<X>>(final(shared)@.failure()),
        step.0.negotiated is None,
        step.0.wakes.waiting <==> !old(shared)@.admission_closed,
        step.0.wakes.driver <==> !(old(shared)@.admission_closed && old(shared)@.draining),
        step.0.wakes.datagrams == old(shared)@.datagrams,
{
}

/// A Datagram driver that ends well is no longer polled, and those on its routes
/// are woken; one that fails ends the connection with its error and has it closed
/// with its code.
pub proof fn law_end_of_the_routes<X>(
    task: &mut ConnTask,
    shared: &mut Shared<X>,
    found: Result<(), (Code, Error<X>)>,
    step: (Acts, Step<X>),
)
    requires
        call_ensures(
            ConnTask::step::<X>,
            (task, shared, Event::Datagrams(Poll::Ready(found))),
            step,
        ),
        old(task).unreported,
    ensures
        !final(task).datagrams,
        step.0.negotiated is None,
        step.0.wakes.datagrams == old(shared)@.datagrams,
        found is Ok ==> {
            &&& final(shared)@ == old(shared)@
            &&& final(task).unreported
            &&& !step.0.wakes.driver && !step.0.wakes.waiting
            &&& step.1 is AskClosing
        },
        found matches Err((code, error)) ==> {
            &&& final(shared)@ == old(shared)@.terminated(error)
            &&& !final(task).unreported
            &&& step.0.wakes.waiting == !old(shared)@.admission_closed
            &&& step.0.wakes.driver == !(old(shared)@.admission_closed && old(shared)@.draining)
            &&& step.1 is Over
            &&& step.1->Over_0 == Some(Close { code, reason: CloseReason::DatagramFailed })
            &&& step.1->Over_1 == Err::<(), Error<X>>(final(shared)@.failure())
        },
{
}

/// A closing HTTP/3 layer shuts the connection down. Then, and also where it does
/// not close, a connection that refuses requests and has none left is closed, as
/// done and without an error; any other waits.
pub proof fn law_idle_connection_is_closed<X>(
    task: &mut ConnTask,
    shared: &mut Shared<X>,
    closing: bool,
    step: (Acts, Step<X>),
)
    requires
        call_ensures(ConnTask::step::<X>, (task, shared, Event::Closing(closing)), step),
        old(task).unreported,
    ensures
        ({
            let before = old(shared)@;
            let now = final(shared)@;
            let done = now.draining && now.active == 0 && (now.reserved == 0
                || now.admission_closed);
            &&& *final(task) == *old(task)
            &&& closing ==> now == before.shut()
            &&& !closing ==> now == before
            &&& step.0.negotiated is None && !step.0.wakes.datagrams
            &&& step.0.wakes.waiting <==> closing && !before.admission_closed
            &&& step.0.wakes.driver <==> closing && !(before.admission_closed && before.draining)
            &&& done ==> step.1 == Step::<X>::CloseIdle(
                Close { code: Code::NoError, reason: CloseReason::Done },
            )
            &&& !done ==> step.1 is Pend
        }),
{
}

/// A connection that was closed as idle is over and ended well; those that still
/// ask are told that it closed.
pub proof fn law_idle_close_ends_well<X>(
    task: &mut ConnTask,
    shared: &mut Shared<X>,
    step: (Acts, Step<X>),
)
    requires
        call_ensures(ConnTask::step::<X>, (task, shared, Event::IdleClosed), step),
        old(task).unreported,
    ensures
        final(shared)@ == old(shared)@.terminated(Error::plain(Kind::Closed)),
        !final(task).unreported && final(task).datagrams == old(task).datagrams,
        step.1 is Over && step.1->Over_0 is None && step.1->Over_1 is Ok,
        step.0.negotiated is None,
        step.0.wakes.waiting <==> !old(shared)@.admission_closed,
        step.0.wakes.driver <==> !(old(shared)@.admission_closed && old(shared)@.draining),
        step.0.wakes.datagrams == old(shared)@.datagrams,
{
}

/// A task that has reported does nothing more.
pub proof fn law_reported_task_does_nothing<X>(
    task: &mut ConnTask,
    shared: &mut Shared<X>,
    event: Event<X>,
    step: (Acts, Step<X>),
)
    requires
        call_ensures(ConnTask::step::<X>, (task, shared, event), step),
        !old(task).unreported,
    ensures
        final(shared)@ == old(shared)@,
        *final(task) == *old(task),
        step.1 is Finished,
        !step.0.wakes.driver && !step.0.wakes.waiting && !step.0.wakes.datagrams,
        step.0.negotiated is None,
{
}

/// A task is made unreported, with its routes. Dropped before it has reported it
/// publishes that it was dropped, has the connection closed for that, and reports
/// the failure; afterwards dropping it does nothing.
pub proof fn law_dropped_task_ends_the_connection<X>(
    datagrams: bool,
    made: ConnTask,
    task: &mut ConnTask,
    shared: &mut Shared<X>,
    ended: (Acts, Option<(Close, Error<X>)>),
)
    requires
        call_ensures(ConnTask::new, (datagrams,), made),
        call_ensures(ConnTask::abandon::<X>, (task, shared), ended),
    ensures
        made.unreported && made.datagrams == datagrams,
        !old(task).unreported ==> {
            &&& final(shared)@ == old(shared)@
            &&& *final(task) == *old(task)
            &&& ended.1 is None
            &&& !ended.0.wakes.driver && !ended.0.wakes.waiting && !ended.0.wakes.datagrams
            &&& ended.0.negotiated is None
        },
        old(task).unreported ==> {
            &&& final(shared)@ == old(shared)@.terminated(
                Error::because(Kind::Canceled, Reason::TaskDropped),
            )
            &&& !final(task).unreported && final(task).datagrams == old(task).datagrams
            &&& ended.1 == Some(
                (
                    Close { code: Code::NoError, reason: CloseReason::TaskDropped },
                    final(shared)@.failure(),
                ),
            )
            &&& ended.0.wakes.waiting == !old(shared)@.admission_closed
            &&& ended.0.wakes.driver == !(old(shared)@.admission_closed && old(shared)@.draining)
            &&& ended.0.wakes.datagrams == old(shared)@.datagrams
            &&& ended.0.negotiated is None
        },
{
}

/// An Extended CONNECT exchange that waits while the first SETTINGS come, on a
/// connection that is open for admission, goes on to that exactly where they
/// enable it, whatever they say of Datagrams; otherwise its request is handed
/// back. Only a body that does not fit its length, or a lack of room for the
/// field that tells it, stops one that is enabled.
pub proof fn law_waiting_exchange_goes_by_the_settings<X>(
    task: &mut ConnTask,
    shared: &mut Shared<X>,
    settings: Settings,
    step: (Acts, Step<X>),
    found: &Shared<X>,
    exchange: &mut exchange::Exchange,
    request: &mut RequestHead,
    body: BodyInfo,
    settled: exchange::Step<X>,
)
    requires
        call_ensures(
            ConnTask::step::<X>,
            (task, shared, Event::Settings(Some(settings))),
            step,
        ),
        old(task).unreported,
        old(shared)@.peer_extended_connect is None,
        !old(shared)@.admission_closed,
        found@ == final(shared)@,
        old(exchange).stage == exchange::Stage::Settings,
        call_ensures(
            exchange::Exchange::settled::<X>,
            (exchange, found, request, body),
            settled,
        ),
    ensures
        ({
            let length = exchange::framed_length(
                old(request).is_connect(),
                old(exchange).length,
                body,
            );
            let fits = !(body.end_stream && length is Some && length->0 > 0);
            &&& settled is Enter ==> settings.extended_connect
            &&& settings.extended_connect && fits ==> settled is Enter || settled is TooManyFields
            &&& !settings.extended_connect ==> settled == exchange::Step::<X>::Reject(
                Error::because(Kind::UserInvalidRequest, Reason::PeerWithoutExtendedConnect),
            )
        }),
{
}

} // verus!
