//! HTTP/3 client connections over a QUIC connection that the caller
//! establishes: how one is configured, and the handles on it.

use vstd::prelude::*;

use crate::error::{Code, Error, Kind, Poll, Reason};
use crate::shared::{Active, Change, Claim, Shared, State, Wakes};

verus! {

/// The setting with which an endpoint says that it takes HTTP Datagrams.
pub const H3_DATAGRAM: u64 = 0x33;

/// Protocol settings and local admission limits of a connection.
#[derive(Clone, Debug)]
pub struct Http3Options {
    /// How many requests may be admitted at a time.
    pub max_concurrent_requests: usize,
    /// The order in which settings are sent, by their identifiers.
    pub settings_order: Option<Vec<u64>>,
    pub max_field_section_size: u64,
    pub max_qpack_decode_buffer_size: usize,
    pub qpack_encoder_table_capacity: usize,
    pub qpack_max_table_capacity: Option<u64>,
    pub qpack_blocked_streams: Option<u64>,
    pub send_grease: bool,
    pub enable_extended_connect: bool,
}

impl Http3Options {
    /// The options of a connection that is not configured otherwise.
    pub open spec fn standard() -> Self {
        Http3Options {
            max_concurrent_requests: 100,
            settings_order: None,
            max_field_section_size: 0x3fff_ffff_ffff_ffff,
            max_qpack_decode_buffer_size: 16777216,
            qpack_encoder_table_capacity: 0,
            qpack_max_table_capacity: None,
            qpack_blocked_streams: None,
            send_grease: true,
            enable_extended_connect: false,
        }
    }
}

impl Default for Http3Options {
    fn default() -> (options: Self)
        ensures
            options == Http3Options::standard(),
    {
        Http3Options {
            max_concurrent_requests: 100,
            settings_order: None,
            max_field_section_size: 0x3fff_ffff_ffff_ffff,
            max_qpack_decode_buffer_size: 16777216,
            qpack_encoder_table_capacity: 0,
            qpack_max_table_capacity: None,
            qpack_blocked_streams: None,
            send_grease: true,
            enable_extended_connect: false,
        }
    }
}

/// Configures a single HTTP/3 connection and its executor.
#[derive(Clone, Debug)]
pub struct Builder<E> {
    pub executor: E,
    pub options: Http3Options,
}

/// What the HTTP/3 layer is set up with.
#[derive(Debug)]
pub struct LayerConfig {
    pub max_field_section_size: u64,
    pub max_qpack_decode_buffer_size: usize,
    pub qpack_encoder_table_capacity: usize,
    pub qpack_max_table_capacity: Option<u64>,
    pub qpack_blocked_streams: Option<u64>,
    pub send_grease: bool,
    pub enable_extended_connect: bool,
    pub settings_order: Option<Vec<u64>>,
    pub enable_datagram: bool,
}

/// A connection that is ready to be set up.
pub struct Handshake<E, X> {
    pub executor: E,
    pub config: LayerConfig,
    pub shared: Shared<X>,
}

impl Http3Options {
    /// What is wrong with the options for a connection with or without
    /// Datagrams, if anything.
    pub open spec fn fault(self, datagrams: bool) -> Option<Reason> {
        if self.max_concurrent_requests == 0 {
            Some(Reason::InvalidCapacity)
        } else if datagrams && self.settings_order is Some && !(
        self.settings_order->0)@.contains(H3_DATAGRAM) {
            Some(Reason::SettingsOmitDatagram)
        } else {
            None
        }
    }

    /// What the HTTP/3 layer is set up with by these options.
    pub open spec fn layer_config(self, datagrams: bool) -> LayerConfig {
        LayerConfig {
            max_field_section_size: self.max_field_section_size,
            max_qpack_decode_buffer_size: self.max_qpack_decode_buffer_size,
            qpack_encoder_table_capacity: self.qpack_encoder_table_capacity,
            qpack_max_table_capacity: self.qpack_max_table_capacity,
            qpack_blocked_streams: self.qpack_blocked_streams,
            send_grease: self.send_grease,
            enable_extended_connect: self.enable_extended_connect,
            settings_order: self.settings_order,
            enable_datagram: datagrams,
        }
    }
}

fn lists_datagram(order: &Vec<u64>) -> (lists: bool)
    ensures
        lists == order@.contains(H3_DATAGRAM),
{
    let mut i: usize = 0;
    while i < order.len()
        invariant
            i <= order@.len(),
            forall|j: int| 0 <= j < i ==> order@[j] != H3_DATAGRAM,
        decreases order@.len() - i,
    {
        if order[i] == H3_DATAGRAM {
            return true;
        }
        i += 1;
    }
    false
}

impl<E> Builder<E> {
    /// The outcome of a handshake with these options.
    pub open spec fn prepared<X>(
        self,
        datagrams: bool,
        result: Result<Handshake<E, X>, Error<X>>,
    ) -> bool {
        match self.options.fault(datagrams) {
            Some(reason) => result == Err::<Handshake<E, X>, _>(
                Error::<X>::because(Kind::Http3, reason),
            ),
            None => {
                &&& result is Ok
                &&& (result->Ok_0).executor == self.executor
                &&& (result->Ok_0).config == self.options.layer_config(datagrams)
                &&& (result->Ok_0).shared@.wf()
                &&& (result->Ok_0).shared@ == (State::<X> {
                    datagrams,
                    peer_extended_connect: None,
                    settings_ready: false,
                    draining: false,
                    error: None,
                    admission_closed: false,
                    permits: if self.options.max_concurrent_requests
                        <= crate::permits::MAX_PERMITS {
                        self.options.max_concurrent_requests as nat
                    } else {
                        crate::permits::MAX_PERMITS as nat
                    },
                    waiting: Seq::empty(),
                    next_ticket: 0,
                    reserved: 0,
                    active: 0,
                    senders: 1,
                })
            },
        }
    }

    /// Creates a builder. The executor runs the connection task, and the
    /// uploads that outlive their response head and CONNECT tunnels.
    pub fn new(executor: E) -> (builder: Self)
        ensures
            builder == (Builder { executor, options: Http3Options::standard() }),
    {
        Builder { executor, options: Http3Options::default() }
    }

    /// Replaces protocol settings and local admission limits.
    pub fn options(self, options: Http3Options) -> (builder: Self)
        ensures
            builder == (Builder { executor: self.executor, options }),
    {
        Builder { executor: self.executor, options }
    }

    /// Prepares HTTP/3 over a QUIC connection whose TLS handshake is complete.
    pub fn handshake<X>(self) -> (result: Result<Handshake<E, X>, Error<X>>)
        ensures
            self.prepared(false, result),
    {
        self.handshake_inner(false)
    }

    /// Prepares HTTP/3 with HTTP Datagrams. `taken` tells whether the reader of
    /// the connection's Datagrams was already handed out; a connection has one.
    pub fn handshake_with_datagrams<X>(self, taken: bool) -> (result: Result<
        Handshake<E, X>,
        Error<X>,
    >)
        ensures
            if taken {
                result == Err::<Handshake<E, X>, _>(
                    Error::<X>::because(Kind::Http3, Reason::DatagramsTaken),
                )
            } else {
                self.prepared(true, result)
            },
    {
        if taken {
            return Err(Error::new_reason(Kind::Http3, Reason::DatagramsTaken));
        }
        self.handshake_inner(true)
    }

    /// Checks the options and prepares the connection.
    pub fn handshake_inner<X>(self, datagrams: bool) -> (result: Result<
        Handshake<E, X>,
        Error<X>,
    >)
        ensures
            self.prepared(datagrams, result),
    {
        let opts = self.options;
        if opts.max_concurrent_requests == 0 {
            return Err(Error::new_reason(Kind::Http3, Reason::InvalidCapacity));
        }
        if datagrams {
            if let Some(order) = &opts.settings_order {
                if !lists_datagram(order) {
                    return Err(Error::new_reason(Kind::Http3, Reason::SettingsOmitDatagram));
                }
            }
        }
        let shared = Shared::new(opts.max_concurrent_requests, datagrams);
        Ok(
            Handshake {
                executor: self.executor,
                config: LayerConfig {
                    max_field_section_size: opts.max_field_section_size,
                    max_qpack_decode_buffer_size: opts.max_qpack_decode_buffer_size,
                    qpack_encoder_table_capacity: opts.qpack_encoder_table_capacity,
                    qpack_max_table_capacity: opts.qpack_max_table_capacity,
                    qpack_blocked_streams: opts.qpack_blocked_streams,
                    send_grease: opts.send_grease,
                    enable_extended_connect: opts.enable_extended_connect,
                    settings_order: opts.settings_order,
                    enable_datagram: datagrams,
                },
                shared,
            },
        )
    }
}

/// With what a QUIC connection is closed.
#[derive(Clone, Copy, PartialEq, Eq, Structural, Debug)]
pub struct Close {
    pub code: Code,
    pub reason: CloseReason,
}

/// The words with which a QUIC connection is closed.
#[derive(Clone, Copy, PartialEq, Eq, Structural, Debug)]
pub enum CloseReason {
    Done,
    HandshakeCanceled,
    ConnectionDropped,
    TaskDropped,
    DatagramFailed,
}

impl CloseReason {
    /// The words.
    pub open spec fn text(self) -> Seq<char> {
        match self {
            CloseReason::Done => ""@,
            CloseReason::HandshakeCanceled => "HTTP/3 handshake canceled"@,
            CloseReason::ConnectionDropped => "client connection dropped"@,
            CloseReason::TaskDropped => "connection task dropped"@,
            CloseReason::DatagramFailed => "HTTP Datagram driver failed"@,
        }
    }

    /// The words.
    pub fn message(self) -> (message: &'static str)
        ensures
            message@ == self.text(),
    {
        match self {
            CloseReason::Done => "",
            CloseReason::HandshakeCanceled => "HTTP/3 handshake canceled",
            CloseReason::ConnectionDropped => "client connection dropped",
            CloseReason::TaskDropped => "connection task dropped",
            CloseReason::DatagramFailed => "HTTP Datagram driver failed",
        }
    }
}

/// Closes the QUIC connection if the handshake is abandoned before its opener
/// moves into the connection task.
#[derive(Debug)]
pub struct Opening<O>(pub Option<O>);

impl<O> Opening<O> {
    /// Hands the opener out; without one the handshake was canceled.
    pub fn take<X>(&mut self) -> (opener: Result<O, Error<X>>)
        ensures
            opener == match old(self).0 {
                Some(opener) => Ok(opener),
                None => Err(Error::<X>::plain(Kind::Canceled)),
            },
            *final(self) == Opening::<O>(None),
    {
        match self.0.take() {
            Some(opener) => Ok(opener),
            None => Err(Error::new(Kind::Canceled)),
        }
    }

    /// Drops the guard: with what to close the connection, if it still holds
    /// the opener.
    pub fn abandon(&self) -> (close: Option<Close>)
        ensures
            close == if self.0 is Some {
                Some(Close { code: Code::NoError, reason: CloseReason::HandshakeCanceled })
            } else {
                None
            },
    {
        if self.0.is_some() {
            Some(Close { code: Code::NoError, reason: CloseReason::HandshakeCanceled })
        } else {
            None
        }
    }
}

/// The sender side of an established connection. Its handles are counted in the
/// shared state, and the last one that goes starts draining.
#[derive(Debug)]
pub struct SendRequest {}

impl SendRequest {
    /// The first handle on a connection, which its shared state counts from the
    /// start.
    pub fn first() -> (handle: Self)
        ensures
            handle == (SendRequest {  }),
    {
        SendRequest {  }
    }

    /// Another handle on the same connection.
    pub fn another<X>(&self, shared: &mut Shared<X>) -> (handle: Self)
        requires
            old(shared)@.senders < usize::MAX,
        ensures
            handle == *self,
            final(shared)@ == old(shared)@.after(Change::AddSender),
    {
        shared.add_sender();
        SendRequest {  }
    }

    /// Checks whether the connection accepts requests. This does not reserve a
    /// QUIC stream or wait for the peer's stream credit.
    pub fn poll_ready<X>(&self, shared: &Shared<X>) -> (ready: Poll<Result<(), Error<X>>>)
        ensures
            ready == if shared@.draining {
                Poll::Ready(Err(Error::<X>::plain(Kind::Closed)))
            } else {
                Poll::Ready(Ok(()))
            },
    {
        Poll::Ready(self.ready(shared))
    }

    /// The outcome of waiting until the connection accepts requests, which is
    /// known at once.
    pub fn ready<X>(&self, shared: &Shared<X>) -> (ready: Result<(), Error<X>>)
        ensures
            ready == if shared@.draining {
                Err(Error::<X>::plain(Kind::Closed))
            } else {
                Ok(())
            },
    {
        if self.is_closed(shared) {
            Err(Error::new(Kind::Closed))
        } else {
            Ok(())
        }
    }

    /// A readiness hint; the connection may close before a request is sent.
    pub fn is_ready<X>(&self, shared: &Shared<X>) -> (ready: bool)
        ensures
            ready == !shared@.draining,
    {
        !shared.is_closed()
    }

    /// Whether the connection no longer accepts new requests.
    pub fn is_closed<X>(&self, shared: &Shared<X>) -> (closed: bool)
        ensures
            closed == shared@.draining,
    {
        shared.is_closed()
    }

    /// Creates a request: a reservation, unless the connection is closed.
    /// Closure is remembered here, before the request is first run.
    pub fn try_send_request<X>(&mut self, shared: &mut Shared<X>) -> (reservation: Option<Active>)
        requires
            old(shared)@.reserved < usize::MAX,
        ensures
            *final(self) == *old(self),
            if old(shared)@.draining {
                reservation is None && final(shared)@ == old(shared)@
            } else {
                &&& reservation is Some
                &&& (reservation->0)@ == Claim::reserved()
                &&& final(shared)@ == old(shared)@.after(Change::Reserve)
            },
    {
        if shared.is_closed() {
            None
        } else {
            Some(Active::reserve(shared))
        }
    }

    /// Drops the handle. Returns whether the driver has to be woken.
    pub fn abandon<X>(self, shared: &mut Shared<X>) -> (wake: bool)
        requires
            old(shared)@.senders > 0,
        ensures
            final(shared)@ == old(shared)@.after(Change::DropSender),
            wake == (old(shared)@.senders == 1 && !old(shared)@.draining),
    {
        shared.drop_sender()
    }
}

/// Handle to the connection task. It resolves once the task finishes; dropping
/// it before that closes the QUIC connection and every outstanding exchange.
#[derive(Debug)]
pub struct Connection {
    pub completed: bool,
}

impl Connection {
    /// The handle on a connection task that has just been started.
    pub fn new() -> (connection: Self)
        ensures
            connection == (Connection { completed: false }),
    {
        Connection { completed: false }
    }

    /// Stops admitting requests and waits for existing exchanges to finish. This
    /// only initiates shutdown; the handle resolves when it is complete.
    pub fn graceful_shutdown<X>(&mut self, shared: &mut Shared<X>) -> (wakes: Wakes)
        ensures
            *final(self) == *old(self),
            final(shared)@ == old(shared)@.shut(),
            wakes == old(shared)@.shut_wakes(),
    {
        shared.shutdown()
    }

    /// Takes what polling for the task's outcome found: the outcome, or nothing
    /// where the task is gone without one. A handle that has resolved resolves
    /// again at once, without an error.
    pub fn poll<X>(&mut self, outcome: Poll<Option<Result<(), Error<X>>>>) -> (result: Poll<
        Result<(), Error<X>>,
    >)
        ensures
            result == if old(self).completed {
                Poll::Ready(Ok(()))
            } else {
                match outcome {
                    Poll::Pending => Poll::Pending,
                    Poll::Ready(Some(result)) => Poll::Ready(result),
                    Poll::Ready(None) => Poll::Ready(
                        Err(Error::<X>::because(Kind::Canceled, Reason::TaskDropped)),
                    ),
                }
            },
            final(self).completed == (old(self).completed || outcome is Ready),
    {
        if self.completed {
            return Poll::Ready(Ok(()));
        }
        match outcome {
            Poll::Pending => Poll::Pending,
            Poll::Ready(outcome) => {
                self.completed = true;
                match outcome {
                    Some(result) => Poll::Ready(result),
                    None => Poll::Ready(
                        Err(Error::new(Kind::Canceled).with(Reason::TaskDropped)),
                    ),
                }
            },
        }
    }

    /// Drops the handle. Before the task finished, this ends the connection:
    /// the error is published first, then the QUIC connection is closed as the
    /// result says.
    pub fn abandon<X>(&self, shared: &mut Shared<X>) -> (ended: Option<(Wakes, Close)>)
        ensures
            if self.completed {
                ended is None && final(shared)@ == old(shared)@
            } else {
                &&& final(shared)@ == old(shared)@.terminated(
                    Error::because(Kind::Canceled, Reason::ConnectionDropped),
                )
                &&& ended == Some(
                    (
                        Wakes { datagrams: old(shared)@.datagrams, ..old(shared)@.shut_wakes() },
                        Close { code: Code::NoError, reason: CloseReason::ConnectionDropped },
                    ),
                )
            },
    {
        if self.completed {
            return None;
        }
        let error = Error::new(Kind::Canceled).with(Reason::ConnectionDropped);
        let wakes = shared.terminate(error);
        Some((wakes, Close { code: Code::NoError, reason: CloseReason::ConnectionDropped }))
    }
}

/// A handshake is refused exactly in three cases, of which the first that holds is
/// told: the reader of the Datagrams was handed out before; no request may be
/// admitted; Datagrams are asked for and the order of the settings leaves out the
/// setting for them.
pub proof fn law_handshake_is_refused_for_its_options<E, X>(
    builder: Builder<E>,
    datagrams: bool,
    taken: bool,
    result: Result<Handshake<E, X>, Error<X>>,
    inner: Result<Handshake<E, X>, Error<X>>,
)
    requires
        datagrams ==> call_ensures(
            Builder::<E>::handshake_with_datagrams::<X>,
            (builder, taken),
            result,
        ),
        !datagrams ==> !taken && call_ensures(Builder::<E>::handshake::<X>, (builder,), result),
        call_ensures(Builder::<E>::handshake_inner::<X>, (builder, datagrams), inner),
    ensures
        ({
            let options = builder.options;
            let none = options.max_concurrent_requests == 0;
            let omits = datagrams && options.settings_order is Some && forall|i: int|
                0 <= i < (options.settings_order->0)@.len() ==> #[trigger] (
                options.settings_order->0)@[i] != 0x33;
            &&& result is Err <==> taken || none || omits
            &&& taken ==> result->Err_0 == Error::<X>::because(Kind::Http3, Reason::DatagramsTaken)
            &&& !taken && none ==> result->Err_0 == Error::<X>::because(
                Kind::Http3,
                Reason::InvalidCapacity,
            )
            &&& !taken && !none && omits ==> result->Err_0 == Error::<X>::because(
                Kind::Http3,
                Reason::SettingsOmitDatagram,
            )
            &&& inner is Err <==> none || omits
            &&& !taken && inner is Err ==> result->Err_0 == inner->Err_0
        }),
{
    let options = builder.options;
    if let Some(order) = options.settings_order {
        if order@.contains(H3_DATAGRAM) {
            let i = choose|i: int| 0 <= i < order@.len() && order@[i] == H3_DATAGRAM;
            assert(order@[i] == 0x33);
        } else {
            assert forall|i: int| 0 <= i < order@.len() implies #[trigger] order@[i] != 0x33 by {
                assert(!order@.contains(0x33u64));
            }
        }
    }
}

/// A handshake that is not refused sets the HTTP/3 layer up as the options say,
/// with Datagrams where they were asked for, keeps the executor, and begins with a
/// connection that is open and idle and admits as many requests as the options
/// say, or as a semaphore can count.
pub proof fn law_handshake_goes_by_the_options<E, X>(
    builder: Builder<E>,
    datagrams: bool,
    result: Result<Handshake<E, X>, Error<X>>,
)
    requires
        datagrams ==> call_ensures(
            Builder::<E>::handshake_with_datagrams::<X>,
            (builder, false),
            result,
        ),
        !datagrams ==> call_ensures(Builder::<E>::handshake::<X>, (builder,), result),
        result is Ok,
    ensures
        ({
            let options = builder.options;
            let made = result->Ok_0;
            let state = made.shared@;
            &&& made.executor == builder.executor
            &&& made.config.max_field_section_size == options.max_field_section_size
            &&& made.config.max_qpack_decode_buffer_size == options.max_qpack_decode_buffer_size
            &&& made.config.qpack_encoder_table_capacity == options.qpack_encoder_table_capacity
            &&& made.config.qpack_max_table_capacity == options.qpack_max_table_capacity
            &&& made.config.qpack_blocked_streams == options.qpack_blocked_streams
            &&& made.config.send_grease == options.send_grease
            &&& made.config.enable_extended_connect == options.enable_extended_connect
            &&& made.config.settings_order == options.settings_order
            &&& made.config.enable_datagram == datagrams
            &&& state.datagrams == datagrams
            &&& state.peer_extended_connect is None && !state.settings_ready
            &&& !state.draining && !state.admission_closed && state.error is None
            &&& state.permits <= options.max_concurrent_requests
            &&& state.permits == options.max_concurrent_requests || state.permits
                == crate::permits::MAX_PERMITS
            &&& state.waiting.len() == 0 && state.next_ticket == 0
            &&& state.reserved == 0 && state.active == 0 && state.senders == 1
        }),
{
}

/// A builder begins with the standard options: a hundred requests at a time,
/// field sections of any size, no dynamic table, grease, and no Extended CONNECT.
/// Options replace them all and leave the executor.
pub proof fn law_builder_begins_with_the_standard_options<E>(
    executor: E,
    made: Builder<E>,
    options: Http3Options,
    changed: Builder<E>,
    standard: Http3Options,
)
    requires
        call_ensures(Builder::<E>::new, (executor,), made),
        call_ensures(Builder::<E>::options, (made, options), changed),
        call_ensures(Http3Options::default, (), standard),
    ensures
        made.executor == executor && made.options == standard,
        standard.max_concurrent_requests == 100,
        standard.settings_order is None,
        standard.max_field_section_size == 0x3fff_ffff_ffff_ffff,
        standard.max_qpack_decode_buffer_size == 16 * 1024 * 1024,
        standard.qpack_encoder_table_capacity == 0,
        standard.qpack_max_table_capacity is None && standard.qpack_blocked_streams is None,
        standard.send_grease && !standard.enable_extended_connect,
        changed.executor == executor && changed.options == options,
{
}

/// Each way of closing a connection has its own words.
pub proof fn law_closing_has_its_words(reason: CloseReason, message: &'static str)
    requires
        call_ensures(CloseReason::message, (reason,), message),
    ensures
        reason is Done ==> message@ == ""@,
        reason is HandshakeCanceled ==> message@ == "HTTP/3 handshake canceled"@,
        reason is ConnectionDropped ==> message@ == "client connection dropped"@,
        reason is TaskDropped ==> message@ == "connection task dropped"@,
        reason is DatagramFailed ==> message@ == "HTTP Datagram driver failed"@,
{
}

/// The opener of a handshake is handed out once, and without it the handshake was
/// canceled. A handshake that is dropped while it holds the opener closes the
/// connection, without an error.
pub proof fn law_opener_is_handed_out_once<O, X>(
    opening: &mut Opening<O>,
    opener: Result<O, Error<X>>,
    dropped: &Opening<O>,
    close: Option<Close>,
)
    requires
        call_ensures(Opening::<O>::take::<X>, (opening,), opener),
        call_ensures(Opening::<O>::abandon, (dropped,), close),
    ensures
        final(opening).0 is None,
        old(opening).0 matches Some(held) ==> opener == Ok::<O, Error<X>>(held),
        old(opening).0 is None ==> opener == Err::<O, Error<X>>(Error::plain(Kind::Canceled)),
        close is Some <==> dropped.0 is Some,
        close is Some ==> (close->0).code == Code::NoError && (close->0).reason
            == CloseReason::HandshakeCanceled,
{
}

/// A handle says that the connection is ready until it accepts no more requests,
/// and that it is closed from then on.
pub proof fn law_handle_is_ready_until_closed<X>(
    handle: &SendRequest,
    shared: &Shared<X>,
    polled: Poll<Result<(), Error<X>>>,
    ready: Result<(), Error<X>>,
    is_ready: bool,
    closed: bool,
)
    requires
        call_ensures(SendRequest::poll_ready::<X>, (handle, shared), polled),
        call_ensures(SendRequest::ready::<X>, (handle, shared), ready),
        call_ensures(SendRequest::is_ready::<X>, (handle, shared), is_ready),
        call_ensures(SendRequest::is_closed::<X>, (handle, shared), closed),
    ensures
        polled == Poll::Ready(ready),
        closed == shared@.draining,
        is_ready == !closed,
        ready is Ok <==> !closed,
        ready matches Err(error) ==> error == Error::<X>::plain(Kind::Closed),
{
}

/// A request gets a reservation, which the connection counts, exactly while the
/// connection accepts requests; otherwise nothing changes.
pub proof fn law_request_is_reserved_while_open<X>(
    handle: &mut SendRequest,
    shared: &mut Shared<X>,
    reservation: Option<Active>,
)
    requires
        call_ensures(SendRequest::try_send_request::<X>, (handle, shared), reservation),
    ensures
        reservation is Some <==> !old(shared)@.draining,
        reservation matches Some(active) ==> {
            &&& !active@.permit && active@.ticket is None
            &&& final(shared)@.reserved == old(shared)@.reserved + 1
            &&& final(shared)@ == (State { reserved: final(shared)@.reserved, ..old(shared)@ })
        },
        reservation is None ==> final(shared)@ == old(shared)@,
{
}

/// Another handle is counted. Dropping one is too, and dropping the last begins a
/// drain, for which the driver is woken where none had begun.
pub proof fn law_handles_are_counted<X>(
    handle: &SendRequest,
    more: &mut Shared<X>,
    other: SendRequest,
    dropped: SendRequest,
    fewer: &mut Shared<X>,
    wake: bool,
)
    requires
        call_ensures(SendRequest::another::<X>, (handle, more), other),
        old(fewer)@.senders > 0,
        call_ensures(SendRequest::abandon::<X>, (dropped, fewer), wake),
    ensures
        final(more)@.senders == old(more)@.senders + 1,
        final(more)@ == (State { senders: final(more)@.senders, ..old(more)@ }),
        final(fewer)@.senders == old(fewer)@.senders - 1,
        final(fewer)@.draining == (old(fewer)@.draining || final(fewer)@.senders == 0),
        final(fewer)@ == (State {
            senders: final(fewer)@.senders,
            draining: final(fewer)@.draining,
            ..old(fewer)@
        }),
        wake <==> final(fewer)@.draining && !old(fewer)@.draining,
{
}

/// The handle on a connection resolves with what the task reports, or with the
/// loss of the task, and once it has it resolves again without an error.
pub proof fn law_handle_resolves_with_the_report<X>(
    made: Connection,
    connection: &mut Connection,
    outcome: Poll<Option<Result<(), Error<X>>>>,
    result: Poll<Result<(), Error<X>>>,
)
    requires
        call_ensures(Connection::new, (), made),
        call_ensures(Connection::poll::<X>, (connection, outcome), result),
    ensures
        !made.completed,
        old(connection).completed ==> final(connection).completed,
        old(connection).completed ==> result == Poll::Ready(Ok::<(), Error<X>>(())),
        !old(connection).completed ==> {
            &&& outcome is Pending ==> result is Pending && !final(connection).completed
            &&& outcome is Ready ==> final(connection).completed
            &&& outcome matches Poll::Ready(Some(reported)) ==> result == Poll::Ready(reported)
            &&& outcome is Ready && outcome->0 is None ==> result == Poll::Ready(
                Err::<(), Error<X>>(Error::because(Kind::Canceled, Reason::TaskDropped)),
            )
        },
{
}

/// A graceful shutdown shuts the connection down and keeps the handle. Dropping
/// the handle before the task has reported ends the connection, publishes that it
/// was dropped, and closes it without an error; later it does nothing.
pub proof fn law_dropped_handle_ends_the_connection<X>(
    connection: &mut Connection,
    shut: &mut Shared<X>,
    wakes: Wakes,
    dropped: &Connection,
    shared: &mut Shared<X>,
    ended: Option<(Wakes, Close)>,
)
    requires
        call_ensures(Connection::graceful_shutdown::<X>, (connection, shut), wakes),
        call_ensures(Connection::abandon::<X>, (dropped, shared), ended),
    ensures
        final(shut)@.draining && final(shut)@.admission_closed,
        final(shut)@ == old(shut)@.shut(),
        wakes.waiting <==> !old(shut)@.admission_closed,
        wakes.driver <==> !(old(shut)@.admission_closed && old(shut)@.draining),
        !wakes.datagrams,
        *final(connection) == *old(connection),
        dropped.completed ==> ended is None && final(shared)@ == old(shared)@,
        !dropped.completed ==> {
            &&& final(shared)@ == old(shared)@.terminated(
                Error::because(Kind::Canceled, Reason::ConnectionDropped),
            )
            &&& ended is Some
            &&& (ended->0).1.code == Code::NoError && (ended->0).1.reason
                == CloseReason::ConnectionDropped
            &&& (ended->0).0.waiting == !old(shared)@.admission_closed
            &&& (ended->0).0.driver == !(old(shared)@.admission_closed && old(shared)@.draining)
            &&& (ended->0).0.datagrams == old(shared)@.datagrams
        },
{
}

} // verus!
