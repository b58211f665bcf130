//! Connection state for requests that are handed over with a callback: one
//! drain that also ends admission, and the envelope that answers for a request
//! which is dropped on its way.

use std::sync::Arc;

use tokio::sync::Semaphore;
use vstd::prelude::*;

use crate::error::{self, Error, Kind, TrySendError};
use crate::permits;

verus! {

/// Connection state shared by the driver and the requests on their way.
pub struct Shared<X> {
    datagrams: bool,
    peer_extended_connect: Option<bool>,
    settings_ready: bool,
    capacity: Semaphore,
    draining: bool,
    active: usize,
    closed: bool,
    error: Option<Arc<Error<X>>>,
}

/// What the contracts say of the state.
pub struct State<X> {
    /// The connection routes HTTP Datagrams.
    pub datagrams: bool,
    /// What the peer's SETTINGS said of Extended CONNECT, once they came.
    pub peer_extended_connect: Option<bool>,
    /// Nothing waits for the peer's SETTINGS any more.
    pub settings_ready: bool,
    /// How many requests may still be admitted.
    pub capacity: nat,
    /// No request is admitted any more.
    pub capacity_closed: bool,
    /// New requests are no longer accepted.
    pub draining: bool,
    /// Requests that run.
    pub active: nat,
    /// The connection is over.
    pub closed: bool,
    /// The published connection error.
    pub error: Option<Arc<Error<X>>>,
}

/// Who has to be woken after a change of the state.
#[derive(Clone, Copy, PartialEq, Eq, Structural, Debug)]
pub struct Wakes {
    /// The connection's driver, and requests that wait for capacity.
    pub driver: bool,
    /// Everything that waits for the end of the connection.
    pub closed: bool,
    /// The Datagram routes are closed.
    pub datagrams: bool,
}

impl<X> State<X> {
    /// A connection that drains admits no requests, and one that is over drains
    /// and has published why.
    pub open spec fn wf(self) -> bool {
        &&& self.draining ==> self.capacity_closed
        &&& self.closed ==> self.draining && self.error is Some
    }

    /// The state that accepts no new requests and admits none.
    pub open spec fn drained(self) -> Self {
        if self.draining {
            self
        } else {
            State { draining: true, capacity_closed: true, ..self }
        }
    }

    /// The state of a connection that is over, with a published error, the first
    /// one that was published.
    pub open spec fn terminated(self, error: Error<X>) -> Self {
        State {
            error: match self.error {
                Some(published) => Some(published),
                None => Some(Arc::new(error)),
            },
            closed: true,
            ..self.drained()
        }
    }

    /// The published connection error, or a cancellation before any was
    /// published.
    pub open spec fn failure(self) -> Error<X> {
        match self.error {
            Some(published) => Error::passed_on(published),
            None => Error::plain(Kind::Canceled),
        }
    }
}

impl<X> View for Shared<X> {
    type V = State<X>;

    closed spec fn view(&self) -> State<X> {
        State {
            datagrams: self.datagrams,
            peer_extended_connect: self.peer_extended_connect,
            settings_ready: self.settings_ready,
            capacity: permits::permits_left(self.capacity),
            capacity_closed: permits::gives_none(self.capacity),
            draining: self.draining,
            active: self.active as nat,
            closed: self.closed,
            error: self.error,
        }
    }
}

impl<X> Shared<X> {
    /// The state of a new connection that admits so many requests.
    pub fn new(capacity: usize, datagrams: bool) -> (shared: Self)
        requires
            capacity <= permits::MAX_PERMITS,
        ensures
            shared@ == (State::<X> {
                datagrams,
                peer_extended_connect: None,
                settings_ready: false,
                capacity: capacity as nat,
                capacity_closed: false,
                draining: false,
                active: 0,
                closed: false,
                error: None,
            }),
            shared@.wf(),
    {
        Shared {
            datagrams,
            peer_extended_connect: None,
            settings_ready: false,
            capacity: permits::new_permits(capacity),
            draining: false,
            active: 0,
            closed: false,
            error: None,
        }
    }

    /// Stops accepting and admitting requests. Returns whether that is new, so
    /// that someone has to be woken.
    pub fn drain(&mut self) -> (wake: bool)
        ensures
            final(self)@ == old(self)@.drained(),
            old(self)@.wf() ==> final(self)@.wf() && final(self)@.capacity_closed,
            wake == !old(self)@.draining,
    {
        if self.draining {
            return false;
        }
        self.draining = true;
        permits::close(&mut self.capacity);
        true
    }

    /// Publishes the connection error and fails everything that waits on it.
    pub fn terminate(&mut self, error: Error<X>) -> (wakes: Wakes)
        ensures
            final(self)@ == old(self)@.terminated(error),
            old(self)@.wf() ==> final(self)@.wf() && final(self)@.capacity_closed,
            wakes == (Wakes {
                driver: !old(self)@.draining,
                closed: !old(self)@.closed,
                datagrams: old(self)@.datagrams,
            }),
    {
        if self.error.is_none() {
            self.error = Some(Arc::new(error));
        }
        let driver = self.drain();
        let closed = !self.closed;
        self.closed = true;
        Wakes { driver, closed, datagrams: self.datagrams }
    }

    /// The published connection error, or a cancellation before any was
    /// published.
    pub fn error(&self) -> (error: Error<X>)
        ensures
            error == self@.failure(),
    {
        match &self.error {
            Some(published) => Error::from_shared(error::share(published)),
            None => Error::new(Kind::Canceled),
        }
    }

    /// Counts a request that runs.
    pub fn enter(&mut self)
        requires
            old(self)@.active < usize::MAX,
        ensures
            final(self)@ == (State { active: old(self)@.active + 1, ..old(self)@ }),
    {
        self.active = self.active + 1;
    }

    /// No longer counts a request that ran; whoever waits for that is to be
    /// woken.
    pub fn leave(&mut self)
        requires
            old(self)@.active > 0,
        ensures
            final(self)@ == (State { active: (old(self)@.active - 1) as nat, ..old(self)@ }),
    {
        self.active = self.active - 1;
    }
}

/// A place among the requests that a connection admits, which is taken from its
/// capacity and goes back there.
#[derive(Debug)]
pub struct Permit(());

/// A request on its way, with what its answer goes to, its place among the
/// requests that are admitted, and what cancels it.
#[derive(Debug)]
pub struct Envelope<R, C, K> {
    pub request: Option<R>,
    pub callback: Option<C>,
    pub permit: Option<Permit>,
    pub cancel: K,
}

impl<X> Shared<X> {
    /// How many requests may still be admitted.
    pub fn capacity(&self) -> (capacity: usize)
        ensures
            capacity == self@.capacity,
    {
        permits::available(&self.capacity)
    }

    /// Takes a place for a request, if requests are still admitted and there is
    /// one left.
    pub fn take_permit(&mut self) -> (permit: Option<Permit>)
        ensures
            permit is Some <==> !old(self)@.capacity_closed && old(self)@.capacity > 0,
            final(self)@ == if permit is Some {
                State { capacity: (old(self)@.capacity - 1) as nat, ..old(self)@ }
            } else {
                old(self)@
            },
    {
        if permits::take_permit(&mut self.capacity) {
            Some(Permit(()))
        } else {
            None
        }
    }

    /// Gives the place of a request back.
    pub fn put_permit(&mut self, permit: Permit)
        requires
            old(self)@.capacity < permits::MAX_PERMITS,
        ensures
            final(self)@ == (State { capacity: old(self)@.capacity + 1, ..old(self)@ }),
    {
        permits::put_permit(&mut self.capacity);
    }
}

impl<R, C, K> Envelope<R, C, K> {
    /// Drops the envelope: what to answer, and to whom, if nobody has answered
    /// yet. The request is handed back where it is still here, and its place
    /// goes back to the connection.
    pub fn abandon<X>(self, shared: &mut Shared<X>) -> (answer: Option<(C, TrySendError<R, X>)>)
        requires
            self.permit is Some ==> old(shared)@.capacity < permits::MAX_PERMITS,
        ensures
            answer == match self.callback {
                Some(callback) => Some(
                    (
                        callback,
                        TrySendError {
                            error: Error::<X>::plain(Kind::Canceled),
                            message: self.request,
                        },
                    ),
                ),
                None => None,
            },
            final(shared)@ == if self.permit is Some {
                State { capacity: old(shared)@.capacity + 1, ..old(shared)@ }
            } else {
                old(shared)@
            },
    {
        if let Some(permit) = self.permit {
            shared.put_permit(permit);
        }
        match self.callback {
            Some(callback) => Some(
                (
                    callback,
                    TrySendError { error: Error::new(Kind::Canceled), message: self.request },
                ),
            ),
            None => None,
        }
    }
}

/// Ending a connection twice ends it once: the first error stays, nobody is woken
/// again but for the Datagram routes, and no request is admitted any more,
/// whether the connection drained before or not.
pub proof fn law_termination_is_final<X>(state: State<X>, first: Error<X>, second: Error<X>)
    requires
        state.wf(),
    ensures
        state.terminated(first).wf(),
        state.terminated(first).terminated(second) == state.terminated(first),
        state.terminated(first).draining,
        state.terminated(first).closed,
        state.terminated(first).capacity_closed,
        state.drained().wf(),
        state.drained().capacity_closed,
        state.error is None ==> state.terminated(first).failure() == Error::passed_on(
            Arc::new(first),
        ),
{
}

/// A new connection is open and counts nothing, with all of its capacity left.
pub proof fn law_new_connection_admits_requests<X>(
    capacity: usize,
    datagrams: bool,
    shared: Shared<X>,
)
    requires
        call_ensures(Shared::<X>::new, (capacity, datagrams), shared),
    ensures
        shared@.datagrams == datagrams && shared@.capacity == capacity && shared@.active == 0,
        !shared@.draining && !shared@.closed && !shared@.capacity_closed,
        !shared@.settings_ready && shared@.peer_extended_connect is None,
        shared@.error is None,
{
}

/// A drain refuses requests, new ones and those that wait, the first time, and
/// wakes those that wait for that; later it changes nothing.
pub proof fn law_drain_refuses_all_requests<X>(shared: &mut Shared<X>, wake: bool)
    requires
        call_ensures(Shared::<X>::drain, (shared,), wake),
    ensures
        wake <==> !old(shared)@.draining,
        old(shared)@.draining ==> final(shared)@ == old(shared)@,
        !old(shared)@.draining ==> final(shared)@ == (State {
            draining: true,
            capacity_closed: true,
            ..old(shared)@
        }),
{
}

/// Ending a connection drains it, marks it as over, and publishes the error where
/// none was published; nothing else changes. Those that wait are woken where that
/// is new, and the Datagram routes closed where there are any.
pub proof fn law_end_is_published_once<X>(shared: &mut Shared<X>, error: Error<X>, wakes: Wakes)
    requires
        call_ensures(Shared::<X>::terminate, (shared, error), wakes),
    ensures
        ({
            let before = old(shared)@;
            let now = final(shared)@;
            &&& now.draining && now.closed
            &&& !before.draining ==> now.capacity_closed
            &&& before.draining ==> now.capacity_closed == before.capacity_closed
            &&& before.error is Some ==> now.error == before.error
            &&& before.error is None ==> now.error is Some && *(now.error->0) == error
            &&& now == (State {
                draining: now.draining,
                closed: now.closed,
                capacity_closed: now.capacity_closed,
                error: now.error,
                ..before
            })
            &&& wakes.driver <==> !before.draining
            &&& wakes.closed <==> !before.closed
            &&& wakes.datagrams <==> before.datagrams
        }),
{
}

/// The failure of a connection is the error that it published, passed on, or a
/// cancellation.
pub proof fn law_failure_is_what_was_published<X>(shared: &Shared<X>, error: Error<X>)
    requires
        call_ensures(Shared::<X>::error, (shared,), error),
    ensures
        shared@.error matches Some(published) ==> error == Error::<X>::passed_on(published),
        shared@.error is None ==> error == Error::<X>::plain(Kind::Canceled),
{
}

/// Requests that run are counted one by one.
pub proof fn law_running_requests_are_counted<X>(more: &mut Shared<X>, fewer: &mut Shared<X>)
    requires
        call_ensures(Shared::<X>::enter, (more,), ()),
        old(fewer)@.active > 0,
        call_ensures(Shared::<X>::leave, (fewer,), ()),
    ensures
        final(more)@.active == old(more)@.active + 1,
        final(more)@ == (State { active: final(more)@.active, ..old(more)@ }),
        final(fewer)@.active == old(fewer)@.active - 1,
        final(fewer)@ == (State { active: final(fewer)@.active, ..old(fewer)@ }),
{
}

/// A place is given where requests are admitted and one is left, and then there is
/// one fewer; given back there is one more. The capacity is told as it is.
pub proof fn law_places_go_by_one<X>(
    shared: &mut Shared<X>,
    taken: Option<Permit>,
    back: &mut Shared<X>,
    permit: Permit,
    asked: &Shared<X>,
    capacity: usize,
)
    requires
        call_ensures(Shared::<X>::take_permit, (shared,), taken),
        call_ensures(Shared::<X>::put_permit, (back, permit), ()),
        call_ensures(Shared::<X>::capacity, (asked,), capacity),
    ensures
        taken is Some <==> !old(shared)@.capacity_closed && old(shared)@.capacity > 0,
        taken is None ==> final(shared)@ == old(shared)@,
        taken is Some ==> final(shared)@.capacity == old(shared)@.capacity - 1 && final(shared)@
            == (State { capacity: final(shared)@.capacity, ..old(shared)@ }),
        final(back)@.capacity == old(back)@.capacity + 1,
        final(back)@ == (State { capacity: final(back)@.capacity, ..old(back)@ }),
        capacity == asked@.capacity,
{
}

/// A request that is dropped before it was answered is answered as canceled, to
/// whom it was to be answered, and handed back where it is still there. Its place
/// goes back where it held one, and nothing else changes.
pub proof fn law_dropped_request_is_answered<R, C, K, X>(
    envelope: Envelope<R, C, K>,
    shared: &mut Shared<X>,
    answer: Option<(C, TrySendError<R, X>)>,
)
    requires
        call_ensures(Envelope::<R, C, K>::abandon::<X>, (envelope, shared), answer),
    ensures
        answer is Some <==> envelope.callback is Some,
        answer matches Some((callback, error)) ==> {
            &&& callback == envelope.callback->0
            &&& error.error == Error::<X>::plain(Kind::Canceled)
            &&& error.message == envelope.request
        },
        envelope.permit is None ==> final(shared)@ == old(shared)@,
        envelope.permit is Some ==> {
            &&& final(shared)@.capacity == old(shared)@.capacity + 1
            &&& final(shared)@ == (State { capacity: final(shared)@.capacity, ..old(shared)@ })
        },
{
}

} // verus!
