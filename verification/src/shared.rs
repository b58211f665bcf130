//! Connection state shared by the driver, request handles, bodies and uploads:
//! peer settings, local admission, the drain and the published connection error.

use std::sync::Arc;

use tokio::sync::Semaphore;
use vstd::prelude::*;

use crate::error::{Error, Kind, Reason};
use crate::{error, permits};

verus! {

/// Connection state shared by the driver, request handles, bodies and uploads.
pub struct Shared<X> {
    datagrams: bool,
    peer_extended_connect: Option<bool>,
    settings_ready: bool,
    draining: bool,
    error: Option<Arc<Error<X>>>,
    permits: Semaphore,
    waiting: Vec<u64>,
    next_ticket: u64,
    reserved: usize,
    active: usize,
    senders: usize,
}

/// What the contracts say of the shared state.
#[verifier::ext_equal]
pub struct State<X> {
    /// The connection routes HTTP Datagrams.
    pub datagrams: bool,
    /// What the peer's SETTINGS said of Extended CONNECT, once they came.
    pub peer_extended_connect: Option<bool>,
    /// Nothing waits for the peer's SETTINGS any more.
    pub settings_ready: bool,
    /// New requests are no longer accepted.
    pub draining: bool,
    /// The published connection error.
    pub error: Option<Arc<Error<X>>>,
    /// Admission is closed; requests that wait for it are returned.
    pub admission_closed: bool,
    /// Permits that admission has left to give.
    pub permits: nat,
    /// The tickets of the requests that wait for a permit, the one that has
    /// waited longest first.
    pub waiting: Seq<u64>,
    /// The ticket that the next request to wait draws.
    pub next_ticket: nat,
    /// Requests created but not yet admitted.
    pub reserved: nat,
    /// Admitted exchanges: pending heads, unread bodies, uploads and tunnels.
    pub active: nat,
    /// Public request handles.
    pub senders: nat,
}

/// Keeps the connection open until released. A reservation is taken when the
/// request is created; admission adds the permit, which the exchange holds
/// until both of its directions are done.
#[derive(Debug)]
pub struct Active {
    permit: bool,
    ticket: Option<u64>,
}

/// What the contracts say of a reservation or an admitted exchange.
pub struct Claim {
    /// The exchange is admitted and holds a permit.
    pub permit: bool,
    /// The ticket that a reservation drew when it began to wait for a permit.
    pub ticket: Option<u64>,
}

impl View for Active {
    type V = Claim;

    closed spec fn view(&self) -> Claim {
        Claim { permit: self.permit, ticket: self.ticket }
    }
}

impl Claim {
    /// A reservation that has not asked for admission yet.
    pub open spec fn reserved() -> Claim {
        Claim { permit: false, ticket: None }
    }

    /// An admitted exchange.
    pub open spec fn admitted() -> Claim {
        Claim { permit: true, ticket: None }
    }
}

/// Who has to be woken after a change of the shared state.
#[derive(Clone, Copy, PartialEq, Eq, Structural, Debug)]
pub struct Wakes {
    /// The connection's driver.
    pub driver: bool,
    /// Requests that wait for SETTINGS or for admission.
    pub waiting: bool,
    /// Everything that waits on the Datagram routes, which are closed.
    pub datagrams: bool,
}

/// The outcome of asking for admission.
#[derive(Debug)]
pub enum Admission<X> {
    /// The exchange may run.
    Admitted(Active),
    /// There is no permit for this request yet, and it has its place among
    /// those that wait; ask again after a wakeup.
    Waiting(Active),
    /// Admission is closed, and the reservation is given up.
    Refused(Error<X>, Wakes),
}

/// Whether every exchange that a drain waits for has finished: unadmitted
/// requests only count while admission is open, since a shutdown returns them.
pub open spec fn idle(admission_closed: bool, reserved: nat, active: nat) -> bool {
    (admission_closed || reserved == 0) && active == 0
}

impl<X> State<X> {
    /// Every permit is either left to give or held by an admitted exchange, and
    /// together they are no more than a semaphore can hold. Nothing waits for
    /// SETTINGS once admission is closed. Each request that waits for a permit
    /// is a reservation, with a ticket of its own.
    pub open spec fn wf(self) -> bool {
        &&& self.permits + self.active <= permits::MAX_PERMITS
        &&& self.admission_closed ==> self.settings_ready
        &&& self.waiting.len() <= self.reserved
        &&& self.waiting.no_duplicates()
        &&& forall|i: int|
            0 <= i < self.waiting.len() ==> (#[trigger] self.waiting[i]) < self.next_ticket
    }

    /// How many requests have waited longer than the one with this ticket.
    pub open spec fn ahead(self, ticket: u64) -> int {
        self.waiting.index_of(ticket)
    }

    /// Whether there is a permit for this reservation: the permits that are
    /// left belong to the requests that have waited longest, and only those
    /// that nobody waits for to one that has just come.
    pub open spec fn due(self, claim: Claim) -> bool {
        match claim.ticket {
            Some(ticket) => self.waiting.contains(ticket) && self.ahead(ticket) < self.permits,
            None => self.waiting.len() < self.permits,
        }
    }

    /// Those that still wait once this reservation no longer does.
    pub open spec fn waiting_without(self, claim: Claim) -> Seq<u64> {
        match claim.ticket {
            Some(ticket) => self.waiting.remove(self.ahead(ticket)),
            None => self.waiting,
        }
    }

    /// The state that accepts no new requests.
    pub open spec fn drained(self) -> Self {
        State { draining: true, ..self }
    }

    /// The state in which requests that wait for SETTINGS or admission are
    /// returned too.
    pub open spec fn shut(self) -> Self {
        State {
            draining: true,
            admission_closed: true,
            settings_ready: self.settings_ready || !self.admission_closed,
            ..self
        }
    }

    /// The shut state with a published error, the first one that was published.
    pub open spec fn terminated(self, error: Error<X>) -> Self {
        State {
            error: match self.error {
                Some(published) => Some(published),
                None => Some(Arc::new(error)),
            },
            ..self.shut()
        }
    }

    /// The published connection error, or a cancellation before any was
    /// published.
    pub open spec fn failure(self) -> Error<X> {
        match self.error {
            Some(published) => Error::passed_on(published),
            None => Error::plain(Kind::Canceled),
        }
    }

    /// The published connection error if there is one, else this error.
    pub open spec fn failure_or(self, error: Error<X>) -> Error<X> {
        match self.error {
            Some(published) => Error::passed_on(published),
            None => error,
        }
    }

    /// Whether every exchange that a drain waits for has finished.
    pub open spec fn is_idle(self) -> bool {
        idle(self.admission_closed, self.reserved, self.active)
    }

    /// The state after an exchange or a reservation was given up.
    pub open spec fn released(self, claim: Claim) -> Self {
        if claim.permit {
            State { permits: self.permits + 1, active: (self.active - 1) as nat, ..self }
        } else {
            State {
                waiting: self.waiting_without(claim),
                reserved: (self.reserved - 1) as nat,
                ..self
            }
        }
    }

    /// Whether the state counts what is to be given up.
    pub open spec fn counts(self, claim: Claim) -> bool {
        if claim.permit {
            self.active > 0
        } else {
            match claim.ticket {
                Some(ticket) => self.waiting.contains(ticket),
                None => self.waiting.len() < self.reserved,
            }
        }
    }

    /// Who is woken by a release: the driver of a draining connection, and
    /// requests that wait where a permit came back or a place among them.
    pub open spec fn release_wakes(self, claim: Claim) -> Wakes {
        Wakes {
            driver: self.draining,
            waiting: claim.permit || claim.ticket is Some,
            datagrams: false,
        }
    }

    /// Who is woken by a shutdown: all of them where it closes admission, and
    /// otherwise the driver where draining begins.
    pub open spec fn shut_wakes(self) -> Wakes {
        Wakes {
            driver: !self.admission_closed || !self.draining,
            waiting: !self.admission_closed,
            datagrams: false,
        }
    }
}

impl<X> View for Shared<X> {
    type V = State<X>;

    closed spec fn view(&self) -> State<X> {
        State {
            datagrams: self.datagrams,
            peer_extended_connect: self.peer_extended_connect,
            settings_ready: self.settings_ready,
            draining: self.draining,
            error: self.error,
            admission_closed: permits::gives_none(self.permits),
            permits: permits::permits_left(self.permits),
            waiting: self.waiting@,
            next_ticket: self.next_ticket as nat,
            reserved: self.reserved as nat,
            active: self.active as nat,
            senders: self.senders as nat,
        }
    }
}

impl<X> Shared<X> {
    /// The state of a new connection: open and idle, with one request handle.
    /// `limit` caps admitted requests, as far as a semaphore can hold permits.
    pub fn new(limit: usize, datagrams: bool) -> (shared: Self)
        ensures
            shared@ == (State::<X> {
                datagrams,
                peer_extended_connect: None,
                settings_ready: false,
                draining: false,
                error: None,
                admission_closed: false,
                permits: if limit <= permits::MAX_PERMITS {
                    limit as nat
                } else {
                    permits::MAX_PERMITS as nat
                },
                waiting: Seq::empty(),
                next_ticket: 0,
                reserved: 0,
                active: 0,
                senders: 1,
            }),
            shared@.wf(),
    {
        let capped: usize = if limit <= permits::MAX_PERMITS {
            limit
        } else {
            permits::MAX_PERMITS
        };
        Shared {
            datagrams,
            peer_extended_connect: None,
            settings_ready: false,
            draining: false,
            error: None,
            permits: permits::new_permits(capped),
            waiting: Vec::new(),
            next_ticket: 0,
            reserved: 0,
            active: 0,
            senders: 1,
        }
    }

    /// Stops accepting new requests; requests created earlier still run.
    /// Returns whether the driver has to be woken.
    pub fn drain(&mut self) -> (wake: bool)
        ensures
            final(self)@ == old(self)@.drained(),
            wake == !old(self)@.draining,
    {
        let wake = !self.draining;
        self.draining = true;
        wake
    }

    /// Drains and returns requests that wait for SETTINGS or admission. Only a
    /// change wakes anyone, so it may be called on every poll.
    pub fn shutdown(&mut self) -> (wakes: Wakes)
        ensures
            final(self)@ == old(self)@.shut(),
            wakes == old(self)@.shut_wakes(),
    {
        let admission_open = !permits::is_closed(&self.permits);
        if admission_open {
            permits::close(&mut self.permits);
        }
        let started = self.drain();
        if admission_open {
            // A drain that a dropped handle began leaves admission and SETTINGS
            // open; closing them wakes even a connection that already drains.
            self.settings_ready = true;
        }
        Wakes { driver: admission_open || started, waiting: admission_open, datagrams: false }
    }

    /// Publishes the connection error and fails everything that waits on it.
    pub fn terminate(&mut self, error: Error<X>) -> (wakes: Wakes)
        ensures
            final(self)@ == old(self)@.terminated(error),
            wakes == (Wakes { datagrams: old(self)@.datagrams, ..old(self)@.shut_wakes() }),
    {
        if self.error.is_none() {
            self.error = Some(Arc::new(error));
        }
        let wakes = self.shutdown();
        Wakes { driver: wakes.driver, waiting: wakes.waiting, datagrams: self.datagrams }
    }

    /// Whether new requests are no longer accepted.
    pub fn is_closed(&self) -> (closed: bool)
        ensures
            closed == self@.draining,
    {
        self.draining
    }

    /// Whether admission is closed.
    pub fn admission_closed(&self) -> (closed: bool)
        ensures
            closed == self@.admission_closed,
    {
        permits::is_closed(&self.permits)
    }

    /// Whether every exchange that a drain waits for has finished.
    pub fn is_idle(&self) -> (is_idle: bool)
        ensures
            is_idle == self@.is_idle(),
    {
        let reserved: usize = self.reserved;
        (permits::is_closed(&self.permits) || reserved == 0) && self.active == 0
    }

    /// The published connection error, or a cancellation before any was
    /// published.
    pub fn error(&self) -> (error: Error<X>)
        ensures
            error == self@.failure(),
    {
        match &self.error {
            Some(published) => Error::from_shared(error::share(published)),
            None => Error::new(Kind::Canceled),
        }
    }

    /// Prefers the published connection error over a later one of a stream.
    pub fn error_or(&self, error: Error<X>) -> (preferred: Error<X>)
        ensures
            preferred == self@.failure_or(error),
    {
        match &self.error {
            Some(published) => Error::from_shared(error::share(published)),
            None => error,
        }
    }

    /// Whether the connection routes HTTP Datagrams.
    pub fn has_datagrams(&self) -> (has: bool)
        ensures
            has == self@.datagrams,
    {
        self.datagrams
    }

    /// Whether nothing waits for the peer's SETTINGS any more.
    pub fn settings_ready(&self) -> (ready: bool)
        ensures
            ready == self@.settings_ready,
    {
        self.settings_ready
    }

    /// What the peer's SETTINGS said of Extended CONNECT, once they came.
    pub fn peer_extended_connect(&self) -> (enabled: Option<bool>)
        ensures
            enabled == self@.peer_extended_connect,
    {
        self.peer_extended_connect
    }

    /// Records the peer's SETTINGS the first time they come and ends the wait
    /// for them. Returns whether requests that wait have to be woken.
    pub fn settle(&mut self, extended_connect: bool) -> (wake: bool)
        ensures
            wake == old(self)@.peer_extended_connect is None,
            final(self)@ == old(self)@.after(Change::Settle(extended_connect)),
    {
        if self.peer_extended_connect.is_none() {
            self.peer_extended_connect = Some(extended_connect);
            self.settings_ready = true;
            true
        } else {
            false
        }
    }

    /// Counts another public request handle.
    pub fn add_sender(&mut self)
        requires
            old(self)@.senders < usize::MAX,
        ensures
            final(self)@ == old(self)@.after(Change::AddSender),
    {
        self.senders = self.senders + 1;
    }

    /// Gives up a public request handle; the last one starts draining. Returns
    /// whether the driver has to be woken.
    pub fn drop_sender(&mut self) -> (wake: bool)
        requires
            old(self)@.senders > 0,
        ensures
            final(self)@ == old(self)@.after(Change::DropSender),
            wake == (old(self)@.senders == 1 && !old(self)@.draining),
    {
        self.senders = self.senders - 1;
        if self.senders == 0 {
            self.drain()
        } else {
            false
        }
    }

    /// How many requests are created but not yet admitted.
    pub fn reserved(&self) -> (reserved: usize)
        ensures
            reserved == self@.reserved,
    {
        self.reserved
    }

    /// How many exchanges are admitted.
    pub fn active(&self) -> (active: usize)
        ensures
            active == self@.active,
    {
        self.active
    }

    /// How many public request handles there are.
    pub fn senders(&self) -> (senders: usize)
        ensures
            senders == self@.senders,
    {
        self.senders
    }

    /// Counts a request that was created.
    pub fn count_reserved(&mut self)
        requires
            old(self)@.reserved < usize::MAX,
        ensures
            final(self)@ == (State { reserved: old(self)@.reserved + 1, ..old(self)@ }),
    {
        self.reserved = self.reserved + 1;
    }

    /// No longer counts a request that was created.
    pub fn uncount_reserved(&mut self)
        requires
            old(self)@.reserved > 0,
        ensures
            final(self)@ == (State { reserved: (old(self)@.reserved - 1) as nat, ..old(self)@ }),
    {
        self.reserved = self.reserved - 1;
    }

    /// Counts an exchange that was admitted.
    pub fn count_active(&mut self)
        requires
            old(self)@.active < usize::MAX,
        ensures
            final(self)@ == (State { active: old(self)@.active + 1, ..old(self)@ }),
    {
        self.active = self.active + 1;
    }

    /// No longer counts an exchange that was admitted.
    pub fn uncount_active(&mut self)
        requires
            old(self)@.active > 0,
        ensures
            final(self)@ == (State { active: (old(self)@.active - 1) as nat, ..old(self)@ }),
    {
        self.active = self.active - 1;
    }

    /// The ticket that the next request to wait draws.
    pub fn next_ticket(&self) -> (ticket: u64)
        ensures
            ticket == self@.next_ticket,
    {
        self.next_ticket
    }

    /// Takes an admission permit, if admission is open and one is left that no
    /// request waits for.
    pub fn take_permit(&mut self) -> (taken: bool)
        ensures
            taken == (!old(self)@.admission_closed && old(self)@.waiting.len()
                < old(self)@.permits),
            final(self)@ == if taken {
                State { permits: (old(self)@.permits - 1) as nat, ..old(self)@ }
            } else {
                old(self)@
            },
    {
        if self.waiting.len() < permits::available(&self.permits) {
            permits::take_permit(&mut self.permits)
        } else {
            false
        }
    }

    /// How many requests have waited longer than the one with this ticket.
    fn position(&self, ticket: u64) -> (position: usize)
        requires
            self@.wf(),
            self@.waiting.contains(ticket),
        ensures
            position == self@.ahead(ticket),
            position < self@.waiting.len(),
    {
        let mut position: usize = 0;
        while self.waiting[position] != ticket
            invariant
                position < self.waiting.len(),
                exists|i: int|
                    position <= i < self.waiting@.len() && #[trigger] self.waiting@[i] == ticket,
            decreases self.waiting@.len() - position,
        {
            position = position + 1;
        }
        position
    }

    /// Gives up the place of the request with this ticket.
    fn leave(&mut self, ticket: u64)
        requires
            old(self)@.wf(),
            old(self)@.waiting.contains(ticket),
        ensures
            final(self)@ == (State {
                waiting: old(self)@.waiting.remove(old(self)@.ahead(ticket)),
                ..old(self)@
            }),
    {
        let position: usize = self.position(ticket);
        self.waiting.remove(position);
    }

    /// Whether there is a permit for this reservation.
    fn is_due(&self, active: &Active) -> (due: bool)
        requires
            self@.wf(),
            self@.counts(active@),
            !active@.permit,
        ensures
            due == self@.due(active@),
    {
        match active.ticket {
            Some(ticket) => self.position(ticket) < permits::available(&self.permits),
            None => self.waiting.len() < permits::available(&self.permits),
        }
    }

    /// Puts an admission permit back.
    pub fn put_permit(&mut self)
        requires
            old(self)@.permits < permits::MAX_PERMITS,
        ensures
            final(self)@ == (State { permits: old(self)@.permits + 1, ..old(self)@ }),
    {
        permits::put_permit(&mut self.permits);
    }

    /// Gives up a reservation, with its place among those that wait, or an
    /// admitted exchange with its permit.
    pub fn release(&mut self, active: Active) -> (wakes: Wakes)
        requires
            old(self)@.wf(),
            old(self)@.counts(active@),
        ensures
            final(self)@ == old(self)@.released(active@),
            final(self)@.wf(),
            wakes == old(self)@.release_wakes(active@),
    {
        proof {
            lemma_released_is_wf(self@, active@);
        }
        if active.permit {
            self.put_permit();
            self.uncount_active();
        } else {
            if let Some(ticket) = active.ticket {
                self.leave(ticket);
            }
            self.uncount_reserved();
        }
        Wakes {
            driver: self.draining,
            waiting: active.permit || active.ticket.is_some(),
            datagrams: false,
        }
    }
}

impl Active {
    /// Whether the exchange is admitted and holds a permit.
    pub fn is_admitted(&self) -> (admitted: bool)
        ensures
            admitted == self@.permit,
    {
        self.permit
    }

    /// Counts a created request so that a drain waits for it.
    pub fn reserve<X>(shared: &mut Shared<X>) -> (active: Active)
        requires
            old(shared)@.reserved < usize::MAX,
        ensures
            active@ == Claim::reserved(),
            final(shared)@ == old(shared)@.after(Change::Reserve),
    {
        shared.count_reserved();
        Active { permit: false, ticket: None }
    }

    /// Asks for local admission; refused once admission is closed. A permit
    /// goes to the request that has waited longest: a request takes one only
    /// where there are more than requests that have waited longer, and takes
    /// its place behind them otherwise. The exchange is counted before its
    /// reservation is released, so that the driver never finds the request
    /// finished in between.
    pub fn seek_admission<X>(self, shared: &mut Shared<X>) -> (admission: Admission<X>)
        requires
            !self@.permit,
            old(shared)@.wf(),
            old(shared)@.counts(self@),
            old(shared)@.next_ticket < u64::MAX,
        ensures
            final(shared)@.wf(),
            match admission {
                Admission::Refused(error, wakes) => {
                    &&& old(shared)@.admission_closed
                    &&& error == (Error {
                        cause: Some(error::Cause::Reason(Reason::ConnectionClosed)),
                        ..old(shared)@.failure()
                    })
                    &&& wakes == old(shared)@.release_wakes(self@)
                    &&& final(shared)@ == old(shared)@.released(self@)
                },
                Admission::Admitted(active) => {
                    &&& !old(shared)@.admission_closed
                    &&& old(shared)@.due(self@)
                    &&& active@ == Claim::admitted()
                    &&& final(shared)@ == old(shared)@.after(Change::Enter(self@))
                },
                Admission::Waiting(active) => {
                    &&& !old(shared)@.admission_closed
                    &&& !old(shared)@.due(self@)
                    &&& active@ == old(shared)@.standing(self@)
                    &&& final(shared)@ == old(shared)@.after(Change::Wait(self@))
                    &&& final(shared)@.counts(active@)
                },
            },
    {
        if shared.admission_closed() {
            let error = shared.error().with(Reason::ConnectionClosed);
            let wakes = shared.release(self);
            Admission::Refused(error, wakes)
        } else if shared.is_due(&self) {
            proof {
                lemma_changes_keep_wf(shared@, Change::Enter(self@));
            }
            if let Some(ticket) = self.ticket {
                shared.leave(ticket);
            }
            let _ = permits::take_permit(&mut shared.permits);
            shared.count_active();
            shared.uncount_reserved();
            Admission::Admitted(Active { permit: true, ticket: None })
        } else if self.ticket.is_some() {
            Admission::Waiting(self)
        } else {
            proof {
                lemma_changes_keep_wf(shared@, Change::Wait(self@));
            }
            let ticket: u64 = shared.next_ticket;
            shared.waiting.push(ticket);
            shared.next_ticket = ticket + 1;
            assert(shared@.waiting.last() == ticket);
            Admission::Waiting(Active { permit: false, ticket: Some(ticket) })
        }
    }
}

/// A change of the shared state, as the functions above make it.
pub enum Change<X> {
    Drain,
    Shutdown,
    Terminate(Error<X>),
    Settle(bool),
    AddSender,
    DropSender,
    Reserve,
    /// A request with a reservation takes a permit.
    Enter(Claim),
    /// A request with a reservation asks for a permit and has to wait.
    Wait(Claim),
    Release(Claim),
}

impl<X> State<X> {
    /// Whether the change can happen in this state.
    pub open spec fn allows(self, change: Change<X>) -> bool {
        match change {
            Change::DropSender => self.senders > 0,
            Change::Enter(claim) => {
                &&& !claim.permit
                &&& self.counts(claim)
                &&& !self.admission_closed
                &&& self.due(claim)
            },
            Change::Wait(claim) => {
                &&& !claim.permit
                &&& self.counts(claim)
                &&& !self.admission_closed
                &&& !self.due(claim)
                &&& self.next_ticket < u64::MAX
            },
            Change::Release(claim) => self.counts(claim),
            _ => true,
        }
    }

    /// The state after the change.
    pub open spec fn after(self, change: Change<X>) -> Self {
        match change {
            Change::Drain => self.drained(),
            Change::Shutdown => self.shut(),
            Change::Terminate(error) => self.terminated(error),
            Change::Settle(enabled) => if self.peer_extended_connect is None {
                State { peer_extended_connect: Some(enabled), settings_ready: true, ..self }
            } else {
                self
            },
            Change::AddSender => State { senders: self.senders + 1, ..self },
            Change::DropSender => State {
                senders: (self.senders - 1) as nat,
                draining: self.draining || self.senders == 1,
                ..self
            },
            Change::Reserve => State { reserved: self.reserved + 1, ..self },
            Change::Enter(claim) => State {
                permits: (self.permits - 1) as nat,
                waiting: self.waiting_without(claim),
                active: self.active + 1,
                reserved: (self.reserved - 1) as nat,
                ..self
            },
            Change::Wait(claim) => if claim.ticket is Some {
                self
            } else {
                State {
                    waiting: self.waiting.push(self.next_ticket as u64),
                    next_ticket: self.next_ticket + 1,
                    ..self
                }
            },
            Change::Release(claim) => self.released(claim),
        }
    }

    /// What a reservation is once it waits: it draws a ticket the first time.
    pub open spec fn standing(self, claim: Claim) -> Claim {
        if claim.ticket is Some {
            claim
        } else {
            Claim { permit: false, ticket: Some(self.next_ticket as u64) }
        }
    }

    /// Whether the changes can happen one after the other.
    pub open spec fn allows_all(self, changes: Seq<Change<X>>) -> bool
        decreases changes.len(),
    {
        changes.len() > 0 ==> {
            &&& self.allows(changes.first())
            &&& self.after(changes.first()).allows_all(changes.drop_first())
        }
    }

    /// The state after the changes, one after the other.
    pub open spec fn after_all(self, changes: Seq<Change<X>>) -> Self
        decreases changes.len(),
    {
        if changes.len() == 0 {
            self
        } else {
            self.after(changes.first()).after_all(changes.drop_first())
        }
    }
}

/// Taking one ticket out of those that wait leaves the others in their order,
/// each with one fewer ahead of it if it came later.
proof fn lemma_others_keep_their_order<X>(state: State<X>, gone: u64, other: u64)
    requires
        state.waiting.no_duplicates(),
        state.waiting.contains(gone),
        state.waiting.contains(other),
        gone != other,
    ensures
        ({
            let rest = state.waiting.remove(state.ahead(gone));
            &&& rest.no_duplicates()
            &&& rest.contains(other)
            &&& rest.index_of(other) == state.ahead(other) - if state.ahead(gone) < state.ahead(
                other,
            ) {
                1int
            } else {
                0int
            }
        }),
{
    let from = state.ahead(gone);
    let rest = state.waiting.remove(from);
    let place = state.ahead(other) - if from < state.ahead(other) {
        1int
    } else {
        0int
    };
    assert(rest[place] == other);
    assert(rest.no_duplicates()) by {
        assert forall|i: int, j: int|
            0 <= i < rest.len() && 0 <= j < rest.len() && i != j implies rest[i] != rest[j] by {
            let a = if i < from {
                i
            } else {
                i + 1
            };
            let b = if j < from {
                j
            } else {
                j + 1
            };
            assert(rest[i] == state.waiting[a] && rest[j] == state.waiting[b]);
        }
    }
}

proof fn lemma_without_is_wf<X>(state: State<X>, claim: Claim)
    requires
        state.wf(),
        !claim.permit,
        state.counts(claim),
    ensures
        state.waiting_without(claim).no_duplicates(),
        state.waiting_without(claim).len() + 1 <= state.reserved,
        forall|i: int|
            0 <= i < state.waiting_without(claim).len() ==> (
            #[trigger] state.waiting_without(claim)[i]) < state.next_ticket,
{
    if let Some(ticket) = claim.ticket {
        let from = state.ahead(ticket);
        let rest = state.waiting.remove(from);
        assert forall|i: int, j: int|
            0 <= i < rest.len() && 0 <= j < rest.len() && i != j implies rest[i] != rest[j] by {
            let a = if i < from {
                i
            } else {
                i + 1
            };
            let b = if j < from {
                j
            } else {
                j + 1
            };
            assert(rest[i] == state.waiting[a] && rest[j] == state.waiting[b]);
        }
        assert forall|i: int| 0 <= i < rest.len() implies (#[trigger] rest[i]) < state.next_ticket by {
            let a = if i < from {
                i
            } else {
                i + 1
            };
            assert(rest[i] == state.waiting[a]);
        }
    }
}

proof fn lemma_released_is_wf<X>(state: State<X>, claim: Claim)
    requires
        state.wf(),
        state.counts(claim),
    ensures
        state.released(claim).wf(),
{
    if !claim.permit {
        lemma_without_is_wf(state, claim);
    }
}

/// What a change leaves is well-formed.
proof fn lemma_changes_keep_wf<X>(state: State<X>, change: Change<X>)
    requires
        state.wf(),
        state.allows(change),
    ensures
        state.after(change).wf(),
{
    match change {
        Change::Enter(claim) => {
            lemma_without_is_wf(state, claim);
        },
        Change::Release(claim) => {
            lemma_released_is_wf(state, claim);
        },
        _ => {},
    }
}

/// Whatever happens to a connection, no permit is lost or made up; a drain, a
/// closed admission and the end of the wait for SETTINGS are never undone; and
/// the first published error and the first SETTINGS stay.
pub proof fn law_connection_history<X>(state: State<X>, changes: Seq<Change<X>>)
    requires
        state.wf(),
        state.allows_all(changes),
    ensures
        state.after_all(changes).wf(),
        state.after_all(changes).permits + state.after_all(changes).active == state.permits
            + state.active,
        state.draining ==> state.after_all(changes).draining,
        state.admission_closed ==> state.after_all(changes).admission_closed,
        state.settings_ready ==> state.after_all(changes).settings_ready,
        state.error is Some ==> state.after_all(changes).error == state.error,
        state.peer_extended_connect is Some ==> state.after_all(changes).peer_extended_connect
            == state.peer_extended_connect,
    decreases changes.len(),
{
    if changes.len() > 0 {
        lemma_changes_keep_wf(state, changes.first());
        law_connection_history(state.after(changes.first()), changes.drop_first());
    }
}

/// How many of the changes admit an exchange.
pub open spec fn admissions<X>(changes: Seq<Change<X>>) -> nat
    decreases changes.len(),
{
    if changes.len() == 0 {
        0
    } else {
        admissions(changes.drop_first()) + if changes.first() is Enter {
            1nat
        } else {
            0nat
        }
    }
}

/// How many of the changes give up an admitted exchange.
pub open spec fn departures<X>(changes: Seq<Change<X>>) -> nat
    decreases changes.len(),
{
    if changes.len() == 0 {
        0
    } else {
        departures(changes.drop_first()) + if changes.first().is_departure() {
            1nat
        } else {
            0nat
        }
    }
}

impl<X> Change<X> {
    /// Whether an admitted exchange is given up.
    pub open spec fn is_departure(self) -> bool {
        self is Release && self->Release_0.permit
    }
}

/// The connection counts its admitted exchanges exactly: whatever happens, their
/// number grows by one with each that is admitted, shrinks by one with each that
/// is given up, and changes by nothing else.
pub proof fn law_admitted_exchanges_are_counted<X>(state: State<X>, changes: Seq<Change<X>>)
    requires
        state.allows_all(changes),
    ensures
        state.after_all(changes).active == state.active + admissions(changes) - departures(changes),
    decreases changes.len(),
{
    if changes.len() > 0 {
        law_admitted_exchanges_are_counted(state.after(changes.first()), changes.drop_first());
    }
}

/// A change, and which exchange makes it: the one that is admitted by it or
/// given up.
pub struct Move<X> {
    pub change: Change<X>,
    pub exchange: int,
}

/// The changes alone.
pub open spec fn changes_of<X>(moves: Seq<Move<X>>) -> Seq<Change<X>> {
    moves.map_values(|moved: Move<X>| moved.change)
}

/// The admitted exchanges after these moves.
pub open spec fn admitted_after<X>(admitted: Set<int>, moves: Seq<Move<X>>) -> Set<int>
    decreases moves.len(),
{
    if moves.len() == 0 {
        admitted
    } else {
        let first = moves.first();
        admitted_after(
            if first.change is Enter {
                admitted.insert(first.exchange)
            } else if first.change.is_departure() {
                admitted.remove(first.exchange)
            } else {
                admitted
            },
            moves.drop_first(),
        )
    }
}

/// Whether each exchange is admitted once, and only an admitted one is given
/// up. This is so of moves that hold what they give up.
pub open spec fn each_moves_once<X>(admitted: Set<int>, moves: Seq<Move<X>>) -> bool
    decreases moves.len(),
{
    moves.len() > 0 ==> {
        let first = moves.first();
        &&& first.change is Enter ==> !admitted.contains(first.exchange)
        &&& first.change.is_departure() ==> admitted.contains(first.exchange)
        &&& each_moves_once(admitted_after(admitted, seq![first]), moves.drop_first())
    }
}

/// Whether one of the moves gives this admitted exchange up.
pub open spec fn gives_up<X>(moves: Seq<Move<X>>, exchange: int) -> bool {
    exists|i: int|
        0 <= i < moves.len() && (#[trigger] moves[i]).exchange == exchange
            && moves[i].change.is_departure()
}

/// An admitted exchange stays counted until it is given up, whatever the other
/// exchanges, the requests that wait, the handles and the driver do: the
/// connection counts as many exchanges as are admitted, so while this one is
/// among them it can be given up, and the connection is not idle.
pub proof fn law_exchange_stays_counted_until_given_up<X>(
    state: State<X>,
    admitted: Set<int>,
    moves: Seq<Move<X>>,
    exchange: int,
)
    requires
        state.wf(),
        admitted.finite(),
        state.active == admitted.len(),
        state.allows_all(changes_of(moves)),
        each_moves_once(admitted, moves),
        admitted.contains(exchange),
        !gives_up(moves, exchange),
    ensures
        ({
            let now = state.after_all(changes_of(moves));
            &&& now.wf()
            &&& now.active == admitted_after(admitted, moves).len()
            &&& admitted_after(admitted, moves).contains(exchange)
            &&& now.counts(Claim::admitted())
            &&& !now.is_idle()
        }),
{
    law_connection_history(state, changes_of(moves));
    lemma_active_is_the_admitted(state, admitted, moves);
    lemma_stays_admitted(admitted, moves, exchange);
    let left = admitted_after(admitted, moves);
    if left.len() == 0 {
        assert(left =~= Set::empty());
    }
}

proof fn lemma_first_move<X>(admitted: Set<int>, first: Move<X>)
    ensures
        admitted_after(admitted, seq![first]) == if first.change is Enter {
            admitted.insert(first.exchange)
        } else if first.change.is_departure() {
            admitted.remove(first.exchange)
        } else {
            admitted
        },
{
    reveal_with_fuel(admitted_after, 2);
    assert(seq![first].first() == first);
    assert(seq![first].drop_first() =~= Seq::empty());
}

proof fn lemma_active_is_the_admitted<X>(state: State<X>, admitted: Set<int>, moves: Seq<Move<X>>)
    requires
        admitted.finite(),
        state.active == admitted.len(),
        state.allows_all(changes_of(moves)),
        each_moves_once(admitted, moves),
    ensures
        admitted_after(admitted, moves).finite(),
        state.after_all(changes_of(moves)).active == admitted_after(admitted, moves).len(),
    decreases moves.len(),
{
    if moves.len() > 0 {
        let first = moves.first();
        lemma_first_move(admitted, first);
        assert(changes_of(moves).drop_first() =~= changes_of(moves.drop_first()));
        assert(changes_of(moves).first() == first.change);
        lemma_active_is_the_admitted(
            state.after(first.change),
            admitted_after(admitted, seq![first]),
            moves.drop_first(),
        );
    }
}

proof fn lemma_stays_admitted<X>(admitted: Set<int>, moves: Seq<Move<X>>, exchange: int)
    requires
        admitted.contains(exchange),
        !gives_up(moves, exchange),
    ensures
        admitted_after(admitted, moves).contains(exchange),
    decreases moves.len(),
{
    if moves.len() > 0 {
        let first = moves.first();
        let rest = moves.drop_first();
        lemma_first_move(admitted, first);
        assert(moves[0] == first);
        if gives_up(rest, exchange) {
            let i = choose|i: int|
                0 <= i < rest.len() && (#[trigger] rest[i]).exchange == exchange
                    && rest[i].change.is_departure();
            assert(moves[i + 1] == rest[i]);
        }
        lemma_stays_admitted(admitted_after(admitted, seq![first]), rest, exchange);
    }
}

/// What asking for admission does to the counters, from any state: a request
/// that was just created takes one permit and becomes one admitted exchange
/// where there is a permit for it, and giving that up restores the permits and
/// the exchanges. Where admission is closed only its reservation goes, and while
/// it has to wait nothing is counted otherwise.
pub proof fn law_admission_conserves_permits<X>(state: State<X>)
    requires
        state.wf(),
    ensures
        ({
            let created = state.after(Change::Reserve);
            let entered = created.after(Change::Enter(Claim::reserved()));
            let done = entered.released(Claim::admitted());
            let refused = created.released(Claim::reserved());
            let waits = created.after(Change::Wait(Claim::reserved()));
            &&& created.wf() && created.counts(Claim::reserved())
            &&& created.due(Claim::reserved()) <==> created.waiting.len() < created.permits
            &&& created.allows(Change::Enter(Claim::reserved())) <==> !state.admission_closed
                && created.due(Claim::reserved())
            &&& created.due(Claim::reserved()) ==> {
                &&& entered.permits == created.permits - 1
                &&& entered.active == created.active + 1
                &&& entered.reserved == created.reserved - 1
                &&& entered.permits + entered.active == created.permits + created.active
                &&& entered.counts(Claim::admitted())
                &&& done == state
            }
            &&& refused == state
            &&& waits.permits == created.permits && waits.active == created.active
                && waits.reserved == created.reserved
        }),
{
}

/// Admission is limited: of a new connection no more exchanges than its limit
/// are ever admitted at a time, whatever happens.
pub proof fn law_admission_is_limited<X>(state: State<X>, limit: nat, changes: Seq<Change<X>>)
    requires
        state.wf(),
        state.active == 0,
        state.permits <= limit,
        state.allows_all(changes),
    ensures
        state.after_all(changes).active <= limit,
{
    law_connection_history(state, changes);
}

/// Giving up one request touches nothing else of its connection: the other
/// requests stay counted as they were, those that wait keep their order, and a
/// permit that it held goes back.
pub proof fn law_giving_up_a_request_touches_only_it<X>(state: State<X>, claim: Claim)
    requires
        state.wf(),
        state.counts(claim),
    ensures
        ({
            let after = state.released(claim);
            &&& after.wf()
            &&& after.reserved + after.active + 1 == state.reserved + state.active
            &&& claim.permit ==> after.reserved == state.reserved && after.permits == state.permits
                + 1
            &&& !claim.permit ==> after.active == state.active && after.permits == state.permits
            &&& claim.permit || claim.ticket is None ==> after.waiting == state.waiting
            &&& !claim.permit && claim.ticket is Some ==> after.waiting == state.waiting.remove(
                state.ahead(claim.ticket->0),
            )
            &&& after == (State {
                permits: after.permits,
                waiting: after.waiting,
                active: after.active,
                reserved: after.reserved,
                ..state
            })
        }),
{
    lemma_released_is_wf(state, claim);
}

/// A permit that comes back belongs to the request that has waited longest:
/// where every request that waits does so for want of a permit, exactly the
/// first of them can take it, and one that comes later cannot.
pub proof fn law_returned_permit_goes_to_the_longest_wait<X>(state: State<X>, other: u64)
    requires
        state.wf(),
        state.active > 0,
        state.permits == 0,
        state.waiting.len() > 0,
        other != state.waiting[0],
    ensures
        ({
            let after = state.released(Claim::admitted());
            &&& after.due(Claim { permit: false, ticket: Some(state.waiting[0]) })
            &&& !after.due(Claim { permit: false, ticket: Some(other) })
            &&& !after.due(Claim::reserved())
        }),
{
    let first = state.waiting[0];
    assert(state.waiting.contains(first));
    assert(state.ahead(first) == 0);
}

/// No request overtakes one that has waited longer: where a request is
/// admitted, there is a permit for each request ahead of it too, and its own
/// admission takes none of theirs.
pub proof fn law_no_request_is_overtaken<X>(state: State<X>, claim: Claim, earlier: u64)
    requires
        state.wf(),
        state.allows(Change::Enter(claim)),
        state.waiting.contains(earlier),
        claim.ticket is Some ==> state.ahead(earlier) < state.ahead(claim.ticket->0),
    ensures
        ({
            let waits = Claim { permit: false, ticket: Some(earlier) };
            &&& state.due(waits)
            &&& state.after(Change::Enter(claim)).due(waits)
        }),
{
    if let Some(ticket) = claim.ticket {
        lemma_others_keep_their_order(state, ticket, earlier);
    }
}

/// A request that waits keeps its place until it is admitted or given up:
/// whatever happens to the others, never more of them are ahead of it, and
/// once there is a permit for it the permit stays there for it.
pub proof fn law_waiting_request_keeps_its_place<X>(
    state: State<X>,
    change: Change<X>,
    ticket: u64,
)
    requires
        state.wf(),
        state.allows(change),
        state.waiting.contains(ticket),
        change matches Change::Enter(claim) ==> claim.ticket != Some(ticket),
        change matches Change::Release(claim) ==> claim.permit || claim.ticket != Some(ticket),
    ensures
        state.after(change).waiting.contains(ticket),
        state.after(change).ahead(ticket) <= state.ahead(ticket),
        state.due(Claim { permit: false, ticket: Some(ticket) }) ==> state.after(change).due(
            Claim { permit: false, ticket: Some(ticket) },
        ),
{
    match change {
        Change::Enter(claim) => {
            if let Some(gone) = claim.ticket {
                lemma_others_keep_their_order(state, gone, ticket);
            }
        },
        Change::Release(claim) => {
            if !claim.permit {
                if let Some(gone) = claim.ticket {
                    lemma_others_keep_their_order(state, gone, ticket);
                }
            }
        },
        Change::Wait(claim) => {
            if claim.ticket is None {
                let place = state.ahead(ticket);
                let after = state.after(change);
                assert(after.waiting[place] == ticket);
                assert(after.wf()) by {
                    lemma_changes_keep_wf(state, change);
                }
                assert(after.ahead(ticket) == place);
            }
        },
        _ => {},
    }
}

/// A change leaves two requests that still wait in their order.
proof fn lemma_change_keeps_order<X>(
    state: State<X>,
    change: Change<X>,
    earlier: u64,
    later: u64,
)
    requires
        state.wf(),
        state.allows(change),
        state.waiting.contains(earlier),
        state.waiting.contains(later),
        state.ahead(earlier) < state.ahead(later),
        state.after(change).waiting.contains(earlier),
        state.after(change).waiting.contains(later),
    ensures
        state.after(change).ahead(earlier) < state.after(change).ahead(later),
{
    lemma_changes_keep_wf(state, change);
    let after = state.after(change);
    match change {
        Change::Enter(claim) => {
            if let Some(gone) = claim.ticket {
                lemma_gone_is_gone(state, gone);
                lemma_others_keep_their_order(state, gone, earlier);
                lemma_others_keep_their_order(state, gone, later);
            }
        },
        Change::Release(claim) => {
            if !claim.permit {
                if let Some(gone) = claim.ticket {
                    lemma_gone_is_gone(state, gone);
                    lemma_others_keep_their_order(state, gone, earlier);
                    lemma_others_keep_their_order(state, gone, later);
                }
            }
        },
        Change::Wait(claim) => {
            if claim.ticket is None {
                assert(after.waiting[state.ahead(earlier)] == earlier);
                assert(after.waiting[state.ahead(later)] == later);
            }
        },
        _ => {},
    }
}

proof fn lemma_gone_is_gone<X>(state: State<X>, gone: u64)
    requires
        state.wf(),
        state.waiting.contains(gone),
    ensures
        !state.waiting.remove(state.ahead(gone)).contains(gone),
{
    let from = state.ahead(gone);
    let rest = state.waiting.remove(from);
    if rest.contains(gone) {
        let i = rest.index_of(gone);
        let a = if i < from {
            i
        } else {
            i + 1
        };
        assert(rest[i] == state.waiting[a]);
    }
}

/// A ticket that was drawn and is no longer among those that wait does not come
/// back.
proof fn lemma_gone_stays_gone<X>(state: State<X>, changes: Seq<Change<X>>, ticket: u64)
    requires
        state.wf(),
        state.allows_all(changes),
        !state.waiting.contains(ticket),
        ticket < state.next_ticket,
    ensures
        !state.after_all(changes).waiting.contains(ticket),
    decreases changes.len(),
{
    if changes.len() > 0 {
        let after = state.after(changes.first());
        lemma_changes_keep_wf(state, changes.first());
        if after.waiting.contains(ticket) {
            let i = after.waiting.index_of(ticket);
            match changes.first() {
                Change::Enter(claim) => {
                    if let Some(gone) = claim.ticket {
                        let from = state.ahead(gone);
                        assert(after.waiting[i] == state.waiting[if i < from {
                            i
                        } else {
                            i + 1
                        }]);
                    }
                },
                Change::Release(claim) => {
                    if !claim.permit {
                        if let Some(gone) = claim.ticket {
                            let from = state.ahead(gone);
                            assert(after.waiting[i] == state.waiting[if i < from {
                                i
                            } else {
                                i + 1
                            }]);
                        }
                    }
                },
                Change::Wait(claim) => {
                    if claim.ticket is None && i < state.waiting.len() {
                        assert(state.waiting[i] == ticket);
                    }
                },
                _ => {},
            }
        }
        lemma_gone_stays_gone(after, changes.drop_first(), ticket);
    }
}

proof fn lemma_order_is_kept<X>(
    state: State<X>,
    changes: Seq<Change<X>>,
    earlier: u64,
    later: u64,
)
    requires
        state.wf(),
        state.allows_all(changes),
        state.waiting.contains(earlier),
        state.waiting.contains(later),
        state.ahead(earlier) < state.ahead(later),
        state.after_all(changes).waiting.contains(earlier),
        state.after_all(changes).waiting.contains(later),
    ensures
        state.after_all(changes).ahead(earlier) < state.after_all(changes).ahead(later),
    decreases changes.len(),
{
    if changes.len() > 0 {
        let after = state.after(changes.first());
        let rest = changes.drop_first();
        assert(state.waiting[state.ahead(earlier)] < state.next_ticket);
        assert(state.waiting[state.ahead(later)] < state.next_ticket);
        lemma_changes_keep_wf(state, changes.first());
        if !after.waiting.contains(earlier) {
            lemma_gone_stays_gone(after, rest, earlier);
        }
        if !after.waiting.contains(later) {
            lemma_gone_stays_gone(after, rest, later);
        }
        lemma_change_keeps_order(state, changes.first(), earlier, later);
        lemma_order_is_kept(after, rest, earlier, later);
    }
}

/// First come, first served, whatever happens in between: a request that waits
/// is admitted only where each request that began to wait before it is admitted,
/// given up, or has a permit to take, which the admission leaves to it.
pub proof fn law_first_come_first_served<X>(
    state: State<X>,
    changes: Seq<Change<X>>,
    earlier: u64,
    later: u64,
)
    requires
        state.wf(),
        state.allows_all(changes),
        state.waiting.contains(earlier),
        state.waiting.contains(later),
        state.ahead(earlier) < state.ahead(later),
        state.after_all(changes).allows(
            Change::Enter(Claim { permit: false, ticket: Some(later) }),
        ),
        state.after_all(changes).waiting.contains(earlier),
    ensures
        ({
            let now = state.after_all(changes);
            let waits = Claim { permit: false, ticket: Some(earlier) };
            let enters = Claim { permit: false, ticket: Some(later) };
            &&& now.due(waits)
            &&& now.after(Change::Enter(enters)).due(waits)
        }),
{
    law_connection_history(state, changes);
    lemma_order_is_kept(state, changes, earlier, later);
    law_no_request_is_overtaken(
        state.after_all(changes),
        Claim { permit: false, ticket: Some(later) },
        earlier,
    );
}

/// No request is left asleep: whatever makes a permit available to a request
/// that waits is a release that wakes those that wait.
pub proof fn law_no_request_is_left_asleep<X>(state: State<X>, change: Change<X>, ticket: u64)
    requires
        state.wf(),
        state.allows(change),
        state.waiting.contains(ticket),
        !state.due(Claim { permit: false, ticket: Some(ticket) }),
        state.after(change).due(Claim { permit: false, ticket: Some(ticket) }),
    ensures
        change is Release,
        state.release_wakes(change->Release_0).waiting,
{
    match change {
        Change::Enter(claim) => {
            if let Some(gone) = claim.ticket {
                if gone != ticket {
                    lemma_others_keep_their_order(state, gone, ticket);
                }
            }
        },
        Change::Wait(claim) => {
            if claim.ticket is None {
                let place = state.ahead(ticket);
                let after = state.after(change);
                assert(after.waiting[place] == ticket);
                assert(after.wf()) by {
                    lemma_changes_keep_wf(state, change);
                }
                assert(after.ahead(ticket) == place);
            }
        },
        _ => {},
    }
}

/// Dropping request handles cancels nothing and closes nothing: whatever was
/// created or admitted stays so, and admission stays open. Only once the last
/// handle is gone are no new requests accepted.
pub proof fn law_dropping_handles_cancels_nothing<X>(state: State<X>, count: nat)
    requires
        count <= state.senders,
    ensures
        state.after_all(Seq::new(count, |i: int| Change::<X>::DropSender)) == (State {
            senders: (state.senders - count) as nat,
            draining: state.draining || (count > 0 && count == state.senders),
            ..state
        }),
    decreases count,
{
    let changes = Seq::new(count, |i: int| Change::<X>::DropSender);
    if count > 0 {
        let after = state.after(Change::DropSender);
        let rest = (count - 1) as nat;
        assert(changes.drop_first() =~= Seq::new(rest, |i: int| Change::<X>::DropSender));
        law_dropping_handles_cancels_nothing(after, rest);
    }
}

/// The first error that ends a connection is the one that every later failure
/// of the connection passes on, whatever happens in between.
pub proof fn law_first_cause_is_preserved<X>(
    state: State<X>,
    cause: Error<X>,
    changes: Seq<Change<X>>,
    later: Error<X>,
)
    requires
        state.wf(),
        state.error is None,
        state.terminated(cause).allows_all(changes),
    ensures
        state.terminated(cause).after_all(changes).failure() == Error::passed_on(Arc::new(cause)),
        state.terminated(cause).after_all(changes).failure_or(later) == Error::passed_on(
            Arc::new(cause),
        ),
{
    law_connection_history(state.terminated(cause), changes);
}

/// Once admission is closed it stays so, no request is admitted any more, and
/// the connection is idle as soon as no admitted exchange is left, however many
/// requests still wait for admission.
pub proof fn law_shutdown_waits_for_admitted_only<X>(state: State<X>, changes: Seq<Change<X>>)
    requires
        state.wf(),
        state.shut().allows_all(changes),
    ensures
        state.shut().after_all(changes).admission_closed,
        state.shut().after_all(changes).active <= state.active,
        state.shut().after_all(changes).is_idle() <==> state.shut().after_all(changes).active == 0,
{
    law_connection_history(state.shut(), changes);
    lemma_closed_admission_admits_none(state.shut(), changes);
}

proof fn lemma_closed_admission_admits_none<X>(state: State<X>, changes: Seq<Change<X>>)
    requires
        state.admission_closed,
        state.allows_all(changes),
    ensures
        state.after_all(changes).active <= state.active,
    decreases changes.len(),
{
    if changes.len() > 0 {
        lemma_closed_admission_admits_none(state.after(changes.first()), changes.drop_first());
    }
}

/// How far a request has come, as the counters show it. Admission counts the
/// exchange before it releases the reservation, so there is a moment in which
/// both count.
pub enum Progress {
    /// Not created yet.
    Absent,
    /// Created, not admitted.
    Reserved,
    /// Counted as admitted, and its reservation not yet released.
    Counted,
    /// Admitted.
    Admitted,
    /// Given up; neither counts.
    Finished,
}

impl Progress {
    /// Whether the request counts as reserved.
    pub open spec fn is_reserved(self) -> bool {
        self is Reserved || self is Counted
    }

    /// Whether the request counts as admitted.
    pub open spec fn is_active(self) -> bool {
        self is Counted || self is Admitted
    }

    /// Whether a request that has come this far can come that far.
    pub open spec fn can_become(self, later: Progress) -> bool {
        match self {
            Progress::Absent => true,
            Progress::Reserved => later !is Absent,
            Progress::Counted => later is Counted || later is Admitted || later is Finished,
            Progress::Admitted => later is Admitted || later is Finished,
            Progress::Finished => later is Finished,
        }
    }
}

/// How many of the requests count as reserved.
pub open spec fn reserved_count(requests: Seq<Progress>) -> nat
    decreases requests.len(),
{
    if requests.len() == 0 {
        0
    } else {
        reserved_count(requests.drop_last()) + if requests.last().is_reserved() {
            1nat
        } else {
            0nat
        }
    }
}

/// How many of the requests count as admitted.
pub open spec fn active_count(requests: Seq<Progress>) -> nat
    decreases requests.len(),
{
    if requests.len() == 0 {
        0
    } else {
        active_count(requests.drop_last()) + if requests.last().is_active() {
            1nat
        } else {
            0nat
        }
    }
}

/// The idle check may read the counters at two different moments, the
/// reservations first. Whatever the requests do in between, it never passes
/// over one that was created before it and is not finished after it: while
/// admission is open it sees any such request, and once admission is closed it
/// sees any that is admitted.
pub proof fn law_idle_check_sees_every_request(
    before: Seq<Progress>,
    after: Seq<Progress>,
    admission_closed: bool,
    request: int,
)
    requires
        before.len() == after.len(),
        forall|i: int| 0 <= i < before.len() ==> (#[trigger] before[i]).can_become(after[i]),
        0 <= request < before.len(),
        before[request] !is Absent,
        after[request] !is Finished,
        !admission_closed || after[request].is_active(),
    ensures
        !idle(admission_closed, reserved_count(before), active_count(after)),
{
    assert(before[request].can_become(after[request]));
    if before[request].is_reserved() {
        lemma_reserved_counts(before, request);
    }
    if after[request].is_active() {
        lemma_active_counts(after, request);
    }
}

proof fn lemma_reserved_counts(requests: Seq<Progress>, request: int)
    requires
        0 <= request < requests.len(),
        requests[request].is_reserved(),
    ensures
        reserved_count(requests) > 0,
    decreases requests.len(),
{
    if request < requests.len() - 1 {
        lemma_reserved_counts(requests.drop_last(), request);
    }
}

proof fn lemma_active_counts(requests: Seq<Progress>, request: int)
    requires
        0 <= request < requests.len(),
        requests[request].is_active(),
    ensures
        active_count(requests) > 0,
    decreases requests.len(),
{
    if request < requests.len() - 1 {
        lemma_active_counts(requests.drop_last(), request);
    }
}

/// A new connection is open and idle, holds one handle, has heard nothing of the
/// peer, and admits as many exchanges as the limit says, or as a semaphore can
/// count.
pub proof fn law_new_connection_is_open_and_idle<X>(
    limit: usize,
    datagrams: bool,
    shared: Shared<X>,
)
    requires
        call_ensures(Shared::<X>::new, (limit, datagrams), shared),
    ensures
        !shared@.draining && !shared@.admission_closed && !shared@.settings_ready,
        shared@.error is None && shared@.peer_extended_connect is None,
        shared@.datagrams == datagrams,
        shared@.active == 0 && shared@.reserved == 0 && shared@.senders == 1,
        shared@.waiting.len() == 0 && shared@.next_ticket == 0,
        shared@.permits <= limit && shared@.permits <= permits::MAX_PERMITS,
        shared@.permits == limit || shared@.permits == permits::MAX_PERMITS,
        shared@.wf(),
{
}

/// A drain refuses new requests and touches nothing else; the driver is woken the
/// first time.
pub proof fn law_drain_only_refuses_new_requests<X>(shared: &mut Shared<X>, wake: bool)
    requires
        call_ensures(Shared::<X>::drain, (shared,), wake),
    ensures
        wake <==> !old(shared)@.draining,
        final(shared)@ == (State { draining: true, ..old(shared)@ }),
{
}

/// A shutdown refuses new requests and closes admission, which ends the wait for
/// SETTINGS, and touches nothing else. Where admission was open everyone is
/// woken, and otherwise the driver where no drain had begun.
pub proof fn law_shutdown_returns_those_that_wait<X>(shared: &mut Shared<X>, wakes: Wakes)
    requires
        call_ensures(Shared::<X>::shutdown, (shared,), wakes),
    ensures
        ({
            let before = old(shared)@;
            let now = final(shared)@;
            &&& now.draining && now.admission_closed
            &&& !before.admission_closed ==> now.settings_ready
            &&& before.admission_closed ==> now.settings_ready == before.settings_ready
            &&& now == (State {
                draining: now.draining,
                admission_closed: now.admission_closed,
                settings_ready: now.settings_ready,
                ..before
            })
            &&& wakes.waiting <==> !before.admission_closed
            &&& wakes.driver <==> !(before.admission_closed && before.draining)
            &&& !wakes.datagrams
        }),
{
}

/// Ending a connection shuts it down and publishes the error where none was
/// published, and touches nothing else. It wakes whom a shutdown wakes, and
/// everyone on the Datagram routes where there are any.
pub proof fn law_ending_publishes_the_first_error<X>(
    shared: &mut Shared<X>,
    error: Error<X>,
    wakes: Wakes,
)
    requires
        call_ensures(Shared::<X>::terminate, (shared, error), wakes),
    ensures
        ({
            let before = old(shared)@;
            let now = final(shared)@;
            &&& now.draining && now.admission_closed
            &&& !before.admission_closed ==> now.settings_ready
            &&& before.admission_closed ==> now.settings_ready == before.settings_ready
            &&& before.error is Some ==> now.error == before.error
            &&& before.error is None ==> now.error is Some && *(now.error->0) == error
            &&& now == (State {
                draining: now.draining,
                admission_closed: now.admission_closed,
                settings_ready: now.settings_ready,
                error: now.error,
                ..before
            })
            &&& wakes.waiting <==> !before.admission_closed
            &&& wakes.driver <==> !(before.admission_closed && before.draining)
            &&& wakes.datagrams <==> before.datagrams
        }),
{
}

/// The failure of a connection is the error that it published, passed on, or a
/// cancellation; the failure of a stream gives way to it where there is one.
pub proof fn law_published_error_goes_first<X>(
    shared: &Shared<X>,
    later: Error<X>,
    failure: Error<X>,
    preferred: Error<X>,
)
    requires
        call_ensures(Shared::<X>::error, (shared,), failure),
        call_ensures(Shared::<X>::error_or, (shared, later), preferred),
    ensures
        failure == shared@.failure(),
        preferred == shared@.failure_or(later),
        shared@.error matches Some(published) ==> {
            &&& failure == Error::<X>::passed_on(published)
            &&& preferred == Error::<X>::passed_on(published)
        },
        shared@.error is None ==> failure == Error::<X>::plain(Kind::Canceled) && preferred
            == later,
{
}

/// The failure that the contracts speak of is the published error, passed on, in
/// place of a cancellation or of a later error.
pub proof fn law_failure_is_the_published_error<X>(state: State<X>, later: Error<X>)
    ensures
        state.error is None ==> state.failure() == Error::<X>::plain(Kind::Canceled)
            && state.failure_or(later) == later,
        state.error matches Some(published) ==> state.failure() == Error::<X>::passed_on(published)
            && state.failure_or(later) == Error::<X>::passed_on(published),
{
}

/// A connection is idle where no exchange is admitted and no request waits that
/// could still be.
pub proof fn law_idle_means_nothing_is_left<X>(shared: &Shared<X>, is_idle: bool)
    requires
        call_ensures(Shared::<X>::is_idle, (shared,), is_idle),
    ensures
        is_idle == shared@.is_idle(),
        is_idle <==> shared@.active == 0 && (shared@.reserved == 0 || shared@.admission_closed),
{
}

/// What a connection is asked for it tells as it is.
pub proof fn law_questions_are_answered_as_it_is<X>(
    shared: &Shared<X>,
    closed: bool,
    admission_closed: bool,
    datagrams: bool,
    ready: bool,
    enabled: Option<bool>,
    reserved: usize,
    active: usize,
    senders: usize,
    ticket: u64,
)
    requires
        call_ensures(Shared::<X>::is_closed, (shared,), closed),
        call_ensures(Shared::<X>::admission_closed, (shared,), admission_closed),
        call_ensures(Shared::<X>::has_datagrams, (shared,), datagrams),
        call_ensures(Shared::<X>::settings_ready, (shared,), ready),
        call_ensures(Shared::<X>::peer_extended_connect, (shared,), enabled),
        call_ensures(Shared::<X>::reserved, (shared,), reserved),
        call_ensures(Shared::<X>::active, (shared,), active),
        call_ensures(Shared::<X>::senders, (shared,), senders),
        call_ensures(Shared::<X>::next_ticket, (shared,), ticket),
    ensures
        closed == shared@.draining,
        admission_closed == shared@.admission_closed,
        datagrams == shared@.datagrams,
        ready == shared@.settings_ready,
        enabled == shared@.peer_extended_connect,
        reserved == shared@.reserved,
        active == shared@.active,
        senders == shared@.senders,
        ticket == shared@.next_ticket,
{
}

/// The first SETTINGS are taken as they say, end the wait for them and wake
/// those that wait; later ones change nothing and wake nobody.
pub proof fn law_first_settings_are_taken_as_they_say<X>(
    shared: &mut Shared<X>,
    extended_connect: bool,
    wake: bool,
)
    requires
        call_ensures(Shared::<X>::settle, (shared, extended_connect), wake),
    ensures
        wake <==> old(shared)@.peer_extended_connect is None,
        old(shared)@.peer_extended_connect is None ==> final(shared)@ == (State {
            peer_extended_connect: Some(extended_connect),
            settings_ready: true,
            ..old(shared)@
        }),
        old(shared)@.peer_extended_connect is Some ==> final(shared)@ == old(shared)@,
{
}

/// Handles are counted one by one. Giving up the last one begins a drain, and
/// wakes the driver where none had begun; giving up any other only counts.
pub proof fn law_last_handle_begins_the_drain<X>(
    shared: &mut Shared<X>,
    fewer: &mut Shared<X>,
    wake: bool,
)
    requires
        call_ensures(Shared::<X>::add_sender, (shared,), ()),
        old(fewer)@.senders > 0,
        call_ensures(Shared::<X>::drop_sender, (fewer,), wake),
    ensures
        final(shared)@ == (State { senders: old(shared)@.senders + 1, ..old(shared)@ }),
        final(fewer)@.senders == old(fewer)@.senders - 1,
        final(fewer)@.senders == 0 ==> final(fewer)@.draining,
        final(fewer)@.senders > 0 ==> final(fewer)@.draining == old(fewer)@.draining,
        final(fewer)@ == (State {
            senders: final(fewer)@.senders,
            draining: final(fewer)@.draining,
            ..old(fewer)@
        }),
        wake <==> final(fewer)@.draining && !old(fewer)@.draining,
{
}

/// Requests and exchanges are counted one by one.
pub proof fn law_counts_go_by_one<X>(
    reserved: &mut Shared<X>,
    unreserved: &mut Shared<X>,
    active: &mut Shared<X>,
    inactive: &mut Shared<X>,
)
    requires
        call_ensures(Shared::<X>::count_reserved, (reserved,), ()),
        old(unreserved)@.reserved > 0,
        call_ensures(Shared::<X>::uncount_reserved, (unreserved,), ()),
        call_ensures(Shared::<X>::count_active, (active,), ()),
        old(inactive)@.active > 0,
        call_ensures(Shared::<X>::uncount_active, (inactive,), ()),
    ensures
        final(reserved)@.reserved == old(reserved)@.reserved + 1,
        final(reserved)@ == (State { reserved: final(reserved)@.reserved, ..old(reserved)@ }),
        final(unreserved)@.reserved == old(unreserved)@.reserved - 1,
        final(unreserved)@ == (State {
            reserved: final(unreserved)@.reserved,
            ..old(unreserved)@
        }),
        final(active)@.active == old(active)@.active + 1,
        final(active)@ == (State { active: final(active)@.active, ..old(active)@ }),
        final(inactive)@.active == old(inactive)@.active - 1,
        final(inactive)@ == (State { active: final(inactive)@.active, ..old(inactive)@ }),
{
}

/// A permit is taken where admission is open and there are more than requests
/// that wait for one, and then there is one fewer; put back there is one more.
pub proof fn law_permits_go_by_one<X>(shared: &mut Shared<X>, back: &mut Shared<X>, taken: bool)
    requires
        call_ensures(Shared::<X>::take_permit, (shared,), taken),
        call_ensures(Shared::<X>::put_permit, (back,), ()),
    ensures
        taken <==> !old(shared)@.admission_closed && old(shared)@.permits
            > old(shared)@.waiting.len(),
        !taken ==> final(shared)@ == old(shared)@,
        taken ==> final(shared)@.permits == old(shared)@.permits - 1 && final(shared)@ == (State {
            permits: final(shared)@.permits,
            ..old(shared)@
        }),
        final(back)@.permits == old(back)@.permits + 1,
        final(back)@ == (State { permits: final(back)@.permits, ..old(back)@ }),
{
}

/// Giving up an admitted exchange puts its permit back, giving up a reservation
/// takes it out of those that are counted, with its place among those that wait,
/// and neither touches anything else. Those that wait are woken where a permit or
/// a place came free, and the driver where the connection drains.
pub proof fn law_giving_up_frees_what_was_held<X>(
    shared: &mut Shared<X>,
    active: Active,
    place: int,
    wakes: Wakes,
)
    requires
        call_ensures(Shared::<X>::release, (shared, active), wakes),
        old(shared)@.wf(),
        old(shared)@.counts(active@),
        !active@.permit && active@.ticket is Some ==> 0 <= place < old(shared)@.waiting.len()
            && old(shared)@.waiting[place] == active@.ticket->0,
    ensures
        ({
            let before = old(shared)@;
            let now = final(shared)@;
            &&& active@.permit ==> {
                &&& now.permits == before.permits + 1 && now.active == before.active - 1
                &&& now == (State { permits: now.permits, active: now.active, ..before })
            }
            &&& !active@.permit ==> {
                &&& now.reserved == before.reserved - 1
                &&& active@.ticket is None ==> now.waiting == before.waiting
                &&& active@.ticket is Some ==> now.waiting == before.waiting.remove(place)
                &&& now == (State { reserved: now.reserved, waiting: now.waiting, ..before })
            }
            &&& wakes.driver <==> before.draining
            &&& wakes.waiting <==> active@.permit || active@.ticket is Some
            &&& !wakes.datagrams
        }),
{
    if !active@.permit && active@.ticket is Some {
        let first = old(shared)@.ahead(active@.ticket->0);
        assert(old(shared)@.waiting[first] == old(shared)@.waiting[place]);
        assert(first == place);
    }
}

/// A request that is created is counted, holds no permit and has no place yet.
pub proof fn law_created_request_is_counted<X>(shared: &mut Shared<X>, active: Active)
    requires
        call_ensures(Active::reserve::<X>, (shared,), active),
    ensures
        !active@.permit,
        active@.ticket is None,
        final(shared)@.reserved == old(shared)@.reserved + 1,
        final(shared)@ == (State { reserved: final(shared)@.reserved, ..old(shared)@ }),
{
}

/// A request that asks is refused exactly where admission is closed, and then
/// given up, with the failure of the connection and the closing as its cause. It
/// is admitted exactly where admission is open and there are more permits than
/// requests ahead of it: it takes a permit and leaves those that wait. Otherwise
/// it waits, at the end the first time and with a ticket of its own.
pub proof fn law_admission_follows_the_permits<X>(
    active: Active,
    shared: &mut Shared<X>,
    place: int,
    admission: Admission<X>,
)
    requires
        call_ensures(Active::seek_admission::<X>, (active, shared), admission),
        !active@.permit,
        old(shared)@.wf(),
        old(shared)@.counts(active@),
        old(shared)@.next_ticket < u64::MAX,
        if active@.ticket is Some {
            0 <= place < old(shared)@.waiting.len() && old(shared)@.waiting[place]
                == active@.ticket->0
        } else {
            place == old(shared)@.waiting.len()
        },
    ensures
        ({
            let before = old(shared)@;
            let now = final(shared)@;
            let rest = if active@.ticket is Some {
                before.waiting.remove(place)
            } else {
                before.waiting
            };
            &&& admission is Refused <==> before.admission_closed
            &&& admission is Admitted <==> !before.admission_closed && place < before.permits
            &&& admission matches Admission::Refused(error, wakes) ==> {
                &&& error.kind == before.failure().kind
                &&& error.cause == Some(error::Cause::<X>::Reason(Reason::ConnectionClosed))
                &&& wakes.driver == before.draining && wakes.waiting == (active@.ticket is Some)
                    && !wakes.datagrams
                &&& now.reserved == before.reserved - 1 && now.waiting == rest
                &&& now == (State { reserved: now.reserved, waiting: now.waiting, ..before })
            }
            &&& admission matches Admission::Admitted(admitted) ==> {
                &&& admitted@.permit && admitted@.ticket is None
                &&& now.permits == before.permits - 1 && now.active == before.active + 1
                &&& now.reserved == before.reserved - 1 && now.waiting == rest
                &&& now == (State {
                    permits: now.permits,
                    active: now.active,
                    reserved: now.reserved,
                    waiting: now.waiting,
                    ..before
                })
            }
            &&& admission matches Admission::Waiting(waiting) ==> {
                &&& !waiting@.permit && waiting@.ticket is Some
                &&& active@.ticket is Some ==> now == before && waiting@.ticket == active@.ticket
                &&& active@.ticket is None ==> {
                    &&& waiting@.ticket->0 == before.next_ticket
                    &&& now.waiting == before.waiting.push(waiting@.ticket->0)
                    &&& now.next_ticket == before.next_ticket + 1
                    &&& now == (State {
                        waiting: now.waiting,
                        next_ticket: now.next_ticket,
                        ..before
                    })
                }
            }
        }),
{
    if active@.ticket is Some {
        let first = old(shared)@.ahead(active@.ticket->0);
        assert(old(shared)@.waiting[first] == old(shared)@.waiting[place]);
        assert(first == place);
    }
}

/// An exchange is admitted where it holds a permit.
pub proof fn law_admitted_exchange_holds_a_permit(active: &Active, admitted: bool)
    requires
        call_ensures(Active::is_admitted, (active,), admitted),
    ensures
        admitted <==> active@.permit,
{
}

} // verus!
