//! The end of a CONNECT tunnel that the application reads and writes.

use bytes::Bytes;
use vstd::prelude::*;

use crate::error::{Error, Poll, Reason};
use crate::{buf, client};

verus! {

/// What a closed tunnel reports to the application.
pub fn closed() -> (reason: Reason)
    ensures
        reason == Reason::TunnelClosed,
{
    Reason::TunnelClosed
}

/// Write commands from the tunnel to its task. `D` is the data.
#[derive(Debug)]
pub enum Command<D> {
    Data(D),
    /// Acknowledge once everything before it is on its way.
    Flush,
    /// Finish the stream and acknowledge that.
    Finish,
}

impl View for Command<Bytes> {
    type V = Command<Seq<u8>>;

    open spec fn view(&self) -> Command<Seq<u8>> {
        match self {
            Command::Data(data) => Command::Data(buf::content(*data)),
            Command::Flush => Command::Flush,
            Command::Finish => Command::Finish,
        }
    }
}

/// Tunnel I/O handed to the application. Reads drain the channel of the task;
/// writes are forwarded to it one chunk at a time. `D` is the data that was
/// taken off the channel and not yet read.
#[derive(Debug)]
pub struct Upgraded<D> {
    pub data: D,
    /// A flush or, where it is set, a finish waits to be acknowledged.
    pub pending: Option<bool>,
    pub shutdown: bool,
    pub read_closed: bool,
    /// The tunnel has Datagram semantics.
    pub datagrams: bool,
}

impl View for Upgraded<Bytes> {
    type V = Upgraded<Seq<u8>>;

    open spec fn view(&self) -> Upgraded<Seq<u8>> {
        Upgraded {
            data: buf::content(self.data),
            pending: self.pending,
            shutdown: self.shutdown,
            read_closed: self.read_closed,
            datagrams: self.datagrams,
        }
    }
}

/// An outcome that a read takes.
#[derive(Debug)]
pub enum ReadEvent<D, X> {
    /// The application reads.
    Start,
    /// The channel was polled.
    Next(Poll<Option<Result<D, Error<X>>>>),
}

/// What a read comes to.
#[derive(Debug)]
pub enum ReadStep<D, X> {
    /// Poll the channel.
    PollNext,
    Pend,
    /// Hand out these bytes.
    Data(D),
    /// Hand out nothing: there is no room, or the tunnel is at its end.
    Nothing,
    Failed(Error<X>),
}

impl<X> View for ReadEvent<Bytes, X> {
    type V = ReadEvent<Seq<u8>, X>;

    open spec fn view(&self) -> ReadEvent<Seq<u8>, X> {
        match self {
            ReadEvent::Start => ReadEvent::Start,
            ReadEvent::Next(Poll::Pending) => ReadEvent::Next(Poll::Pending),
            ReadEvent::Next(Poll::Ready(None)) => ReadEvent::Next(Poll::Ready(None)),
            ReadEvent::Next(Poll::Ready(Some(Err(error)))) => ReadEvent::Next(
                Poll::Ready(Some(Err(*error))),
            ),
            ReadEvent::Next(Poll::Ready(Some(Ok(data)))) => ReadEvent::Next(
                Poll::Ready(Some(Ok(buf::content(*data)))),
            ),
        }
    }
}

impl<X> View for ReadStep<Bytes, X> {
    type V = ReadStep<Seq<u8>, X>;

    open spec fn view(&self) -> ReadStep<Seq<u8>, X> {
        match self {
            ReadStep::PollNext => ReadStep::PollNext,
            ReadStep::Pend => ReadStep::Pend,
            ReadStep::Data(data) => ReadStep::Data(buf::content(*data)),
            ReadStep::Nothing => ReadStep::Nothing,
            ReadStep::Failed(error) => ReadStep::Failed(*error),
        }
    }
}

/// An outcome that a write, a flush or a shutdown takes.
#[derive(Debug)]
pub enum WriteEvent<X> {
    /// The application calls.
    Start,
    /// The acknowledgment was polled; there is none where the task is gone.
    Acknowledged(Poll<Option<Result<(), Error<X>>>>),
    /// The channel was polled for room; it has none where the task is gone.
    Reserved(Poll<bool>),
    /// The command was sent, or not where the task is gone.
    Sent(bool),
}

/// What a write, a flush or a shutdown comes to.
#[derive(Debug)]
pub enum WriteStep<D, X> {
    /// Poll for the pending acknowledgment.
    PollAck,
    /// Poll the channel for room.
    PollReserve,
    /// Send this command; keep what its acknowledgment comes over.
    Send(Command<D>),
    Pend,
    /// Done, with so many bytes taken.
    Done(usize),
    /// The tunnel is closed.
    Closed,
    Failed(Error<X>),
}

impl<X> View for WriteStep<Bytes, X> {
    type V = WriteStep<Seq<u8>, X>;

    open spec fn view(&self) -> WriteStep<Seq<u8>, X> {
        match self {
            WriteStep::PollAck => WriteStep::PollAck,
            WriteStep::PollReserve => WriteStep::PollReserve,
            WriteStep::Send(command) => WriteStep::Send(command@),
            WriteStep::Pend => WriteStep::Pend,
            WriteStep::Done(size) => WriteStep::Done(*size),
            WriteStep::Closed => WriteStep::Closed,
            WriteStep::Failed(error) => WriteStep::Failed(*error),
        }
    }
}

impl Upgraded<Seq<u8>> {
    /// The tunnel and what a read comes to, once the channel need not be polled
    /// for an outcome any more.
    pub open spec fn serving<X>(self, room: usize) -> (Self, ReadStep<Seq<u8>, X>) {
        if self.data.len() > 0 {
            let size = if room <= self.data.len() {
                room as int
            } else {
                self.data.len() as int
            };
            (
                Upgraded { data: self.data.skip(size), ..self },
                ReadStep::Data(self.data.take(size)),
            )
        } else if self.read_closed {
            (self, ReadStep::Nothing)
        } else {
            (self, ReadStep::PollNext)
        }
    }

    /// The tunnel after an outcome of a read into so much room, and what
    /// follows.
    pub open spec fn reading<X>(self, room: usize, event: ReadEvent<Seq<u8>, X>) -> (
        Self,
        ReadStep<Seq<u8>, X>,
    ) {
        if room == 0 {
            (self, ReadStep::Nothing)
        } else {
            match event {
                ReadEvent::Start => self.serving(room),
                ReadEvent::Next(Poll::Pending) => (self, ReadStep::Pend),
                ReadEvent::Next(Poll::Ready(Some(Ok(data)))) => (Upgraded {
                    data: self.data + data,
                    ..self
                }).serving(room),
                ReadEvent::Next(Poll::Ready(Some(Err(error)))) => (
                    Upgraded { read_closed: true, ..self },
                    ReadStep::Failed(error),
                ),
                ReadEvent::Next(Poll::Ready(None)) => (
                    Upgraded { read_closed: true, ..self },
                    ReadStep::Nothing,
                ),
            }
        }
    }

    /// The tunnel once the pending acknowledgment was polled: `None` where the
    /// call is to go on.
    pub open spec fn acknowledging<X>(self, found: Poll<Option<Result<(), Error<X>>>>) -> (
        Self,
        Option<WriteStep<Seq<u8>, X>>,
    ) {
        let over = Upgraded { pending: None, ..self };
        match found {
            Poll::Pending => (self, Some(WriteStep::Pend)),
            Poll::Ready(None) => (over, Some(WriteStep::Closed)),
            Poll::Ready(Some(Err(error))) => (over, Some(WriteStep::Failed(error))),
            Poll::Ready(Some(Ok(_))) => (
                Upgraded { shutdown: self.shutdown || self.pending == Some(true), ..over },
                None,
            ),
        }
    }

    /// What a write calls for when nothing waits to be acknowledged.
    pub open spec fn offering<X>(self, data: Seq<u8>) -> WriteStep<Seq<u8>, X> {
        if self.shutdown {
            WriteStep::Closed
        } else if data.len() == 0 {
            WriteStep::Done(0)
        } else {
            WriteStep::PollReserve
        }
    }

    /// The tunnel after an outcome of writing this data, and what follows.
    pub open spec fn writing<X>(self, data: Seq<u8>, event: WriteEvent<X>) -> (
        Self,
        WriteStep<Seq<u8>, X>,
    ) {
        let size = client::chunk_size(data.len());
        match event {
            WriteEvent::Start => if self.pending is Some {
                (self, WriteStep::PollAck)
            } else {
                (self, self.offering(data))
            },
            WriteEvent::Acknowledged(found) => match self.acknowledging(found) {
                (after, Some(step)) => (after, step),
                (after, None) => (after, after.offering(data)),
            },
            WriteEvent::Reserved(Poll::Pending) => (self, WriteStep::Pend),
            WriteEvent::Reserved(Poll::Ready(open)) => (
                self,
                if open {
                    WriteStep::Send(Command::Data(data.take(size as int)))
                } else {
                    WriteStep::Closed
                },
            ),
            WriteEvent::Sent(open) => (
                self,
                if open {
                    WriteStep::Done(size as usize)
                } else {
                    WriteStep::Closed
                },
            ),
        }
    }

    /// What a flush or a finish calls for when nothing waits to be
    /// acknowledged.
    pub open spec fn proposing<X>(self) -> WriteStep<Seq<u8>, X> {
        if self.shutdown {
            WriteStep::Done(0)
        } else {
            WriteStep::PollReserve
        }
    }

    /// The tunnel after an outcome of a flush or a finish, and what follows. A
    /// finish requested behind a pending flush follows once that is
    /// acknowledged.
    pub open spec fn passing<X>(self, finish: bool, event: WriteEvent<X>) -> (
        Self,
        WriteStep<Seq<u8>, X>,
    ) {
        match event {
            WriteEvent::Start => if self.pending is Some {
                (self, WriteStep::PollAck)
            } else {
                (self, self.proposing())
            },
            WriteEvent::Acknowledged(found) => match self.acknowledging(found) {
                (after, Some(step)) => (after, step),
                (after, None) => (
                    after,
                    if !finish || self.pending == Some(true) {
                        WriteStep::Done(0)
                    } else {
                        after.proposing()
                    },
                ),
            },
            WriteEvent::Reserved(Poll::Pending) => (self, WriteStep::Pend),
            WriteEvent::Reserved(Poll::Ready(open)) => (
                self,
                if !open {
                    WriteStep::Closed
                } else if finish {
                    WriteStep::Send(Command::Finish)
                } else {
                    WriteStep::Send(Command::Flush)
                },
            ),
            WriteEvent::Sent(open) => if open {
                (Upgraded { pending: Some(finish), ..self }, WriteStep::PollAck)
            } else {
                (self, WriteStep::Closed)
            },
        }
    }
}

impl Upgraded<Bytes> {
    /// A tunnel that has just been made.
    pub fn new(datagrams: bool) -> (tunnel: Self)
        ensures
            tunnel@ == (Upgraded {
                data: Seq::<u8>::empty(),
                pending: None,
                shutdown: false,
                read_closed: false,
                datagrams,
            }),
    {
        Upgraded {
            data: buf::no_bytes(),
            pending: None,
            shutdown: false,
            read_closed: false,
            datagrams,
        }
    }

    fn serve<X>(&mut self, room: usize) -> (step: ReadStep<Bytes, X>)
        ensures
            (final(self)@, step@) == old(self)@.serving::<X>(room),
    {
        let held: usize = buf::length(&self.data);
        if held > 0 {
            let size: usize = if room <= held {
                room
            } else {
                held
            };
            return ReadStep::Data(buf::take_front(&mut self.data, size));
        }
        if self.read_closed {
            ReadStep::Nothing
        } else {
            ReadStep::PollNext
        }
    }

    /// Goes on with a read into so much room.
    pub fn read<X>(&mut self, room: usize, event: ReadEvent<Bytes, X>) -> (step: ReadStep<Bytes, X>)
        requires
            event is Next ==> old(self)@.data.len() == 0,
        ensures
            (final(self)@, step@) == old(self)@.reading(room, event@),
    {
        if room == 0 {
            return ReadStep::Nothing;
        }
        match event {
            ReadEvent::Start => self.serve(room),
            ReadEvent::Next(Poll::Pending) => ReadStep::Pend,
            ReadEvent::Next(Poll::Ready(Some(Ok(data)))) => {
                assert(self@.data + buf::content(data) =~= buf::content(data));
                self.data = data;
                self.serve(room)
            },
            ReadEvent::Next(Poll::Ready(Some(Err(error)))) => {
                self.read_closed = true;
                ReadStep::Failed(error)
            },
            ReadEvent::Next(Poll::Ready(None)) => {
                self.read_closed = true;
                ReadStep::Nothing
            },
        }
    }

    /// Takes what polling for the pending acknowledgment found.
    fn poll_ack<X>(&mut self, found: Poll<Option<Result<(), Error<X>>>>) -> (step: Option<
        WriteStep<Bytes, X>,
    >)
        ensures
            final(self)@ == old(self)@.acknowledging(found).0,
            step is Some <==> old(self)@.acknowledging(found).1 is Some,
            step is Some ==> (step->0)@ == old(self)@.acknowledging(found).1->0,
    {
        match found {
            Poll::Pending => Some(WriteStep::Pend),
            Poll::Ready(acknowledged) => {
                let finish = match self.pending {
                    Some(finish) => finish,
                    None => false,
                };
                self.pending = None;
                match acknowledged {
                    None => Some(WriteStep::Closed),
                    Some(Err(error)) => Some(WriteStep::Failed(error)),
                    Some(Ok(_)) => {
                        self.shutdown = self.shutdown || finish;
                        None
                    },
                }
            },
        }
    }

    /// Goes on with a write, of which at most one chunk is taken at a time.
    pub fn write<X>(&mut self, data: &[u8], event: WriteEvent<X>) -> (step: WriteStep<Bytes, X>)
        ensures
            (final(self)@, step@) == old(self)@.writing(data@, event),
    {
        match event {
            WriteEvent::Start => {
                if self.pending.is_some() {
                    return WriteStep::PollAck;
                }
            },
            WriteEvent::Acknowledged(found) => {
                if let Some(step) = self.poll_ack(found) {
                    return step;
                }
            },
            WriteEvent::Reserved(Poll::Pending) => return WriteStep::Pend,
            WriteEvent::Reserved(Poll::Ready(open)) => {
                if !open {
                    return WriteStep::Closed;
                }
                let size: usize = client::next_chunk(data.len());
                let front = vstd::slice::slice_subrange(data, 0, size);
                assert(front@ =~= data@.take(size as int));
                return WriteStep::Send(Command::Data(buf::copied(front)));
            },
            WriteEvent::Sent(open) => {
                if !open {
                    return WriteStep::Closed;
                }
                let size: usize = client::next_chunk(data.len());
                return WriteStep::Done(size);
            },
        }
        if self.shutdown {
            WriteStep::Closed
        } else if data.len() == 0 {
            WriteStep::Done(0)
        } else {
            WriteStep::PollReserve
        }
    }

    /// Goes on with a flush, or with a shutdown where `finish` is set.
    pub fn barrier<X>(&mut self, finish: bool, event: WriteEvent<X>) -> (step: WriteStep<Bytes, X>)
        ensures
            (final(self)@, step@) == old(self)@.passing(finish, event),
    {
        match event {
            WriteEvent::Start => {
                if self.pending.is_some() {
                    return WriteStep::PollAck;
                }
            },
            WriteEvent::Acknowledged(found) => {
                let pending_finish = match self.pending {
                    Some(finish) => finish,
                    None => false,
                };
                if let Some(step) = self.poll_ack(found) {
                    return step;
                }
                if !finish || pending_finish {
                    return WriteStep::Done(0);
                }
            },
            WriteEvent::Reserved(Poll::Pending) => return WriteStep::Pend,
            WriteEvent::Reserved(Poll::Ready(open)) => {
                return if !open {
                    WriteStep::Closed
                } else if finish {
                    WriteStep::Send(Command::Finish)
                } else {
                    WriteStep::Send(Command::Flush)
                };
            },
            WriteEvent::Sent(open) => {
                if !open {
                    return WriteStep::Closed;
                }
                self.pending = Some(finish);
                return WriteStep::PollAck;
            },
        }
        if self.shutdown {
            WriteStep::Done(0)
        } else {
            WriteStep::PollReserve
        }
    }

    /// Drops the tunnel: whether its Datagram route is to be closed.
    pub fn abandon(&self) -> (close_route: bool)
        ensures
            close_route == self.datagrams,
    {
        self.datagrams
    }
}

/// A read: the room that it has and an outcome.
pub type ReadTurn<X> = (usize, ReadEvent<Seq<u8>, X>);

/// The tunnel after outcomes of reads, one after the other.
pub open spec fn tunnel_after<X>(tunnel: Upgraded<Seq<u8>>, turns: Seq<ReadTurn<X>>) -> Upgraded<
    Seq<u8>,
>
    decreases turns.len(),
{
    if turns.len() == 0 {
        tunnel
    } else {
        tunnel_after(tunnel, turns.drop_last()).reading(turns.last().0, turns.last().1).0
    }
}

/// The bytes that came off the channel.
pub open spec fn bytes_in<X>(turns: Seq<ReadTurn<X>>) -> Seq<u8>
    decreases turns.len(),
{
    if turns.len() == 0 {
        Seq::empty()
    } else {
        bytes_in(turns.drop_last()) + match turns.last() {
            (room, ReadEvent::Next(Poll::Ready(Some(Ok(data))))) => if room == 0 {
                Seq::empty()
            } else {
                data
            },
            _ => Seq::empty(),
        }
    }
}

/// The bytes that the reads handed out.
pub open spec fn bytes_out<X>(tunnel: Upgraded<Seq<u8>>, turns: Seq<ReadTurn<X>>) -> Seq<u8>
    decreases turns.len(),
{
    if turns.len() == 0 {
        Seq::empty()
    } else {
        bytes_out(tunnel, turns.drop_last()) + match tunnel_after(
            tunnel,
            turns.drop_last(),
        ).reading(turns.last().0, turns.last().1).1 {
            ReadStep::Data(data) => data,
            _ => Seq::empty(),
        }
    }
}

/// A tunnel gives its reader what came off the channel, in order and whole: what
/// was read, with what is still held, is what was held before with all that
/// came.
pub proof fn law_tunnel_reads_in_order<X>(tunnel: Upgraded<Seq<u8>>, turns: Seq<ReadTurn<X>>)
    ensures
        bytes_out(tunnel, turns) + tunnel_after(tunnel, turns).data == tunnel.data + bytes_in(
            turns,
        ),
    decreases turns.len(),
{
    if turns.len() > 0 {
        let before = tunnel_after(tunnel, turns.drop_last());
        law_tunnel_reads_in_order(tunnel, turns.drop_last());
        let (room, event) = turns.last();
        let out = match before.reading(room, event).1 {
            ReadStep::Data(data) => data,
            _ => Seq::empty(),
        };
        let came = match turns.last() {
            (room, ReadEvent::Next(Poll::Ready(Some(Ok(data))))) => if room == 0 {
                Seq::empty()
            } else {
                data
            },
            _ => Seq::<u8>::empty(),
        };
        let after = before.reading(room, event).0;
        assert(out + after.data =~= before.data + came);
        let head = bytes_out(tunnel, turns.drop_last());
        assert(bytes_out(tunnel, turns) + after.data =~= head + (out + after.data));
        assert(head + (before.data + came) =~= (head + before.data) + came);
        assert(tunnel.data + bytes_in(turns) =~= (tunnel.data + bytes_in(turns.drop_last())) + came);
    } else {
        assert(bytes_out(tunnel, turns) + tunnel.data =~= tunnel.data + bytes_in(turns));
    }
}

/// Once a tunnel has come to its end or failed, and what came before is read,
/// every read gives nothing.
pub proof fn law_end_of_a_tunnel_stays<X>(tunnel: Upgraded<Seq<u8>>, room: usize)
    requires
        tunnel.read_closed,
        tunnel.data.len() == 0,
    ensures
        tunnel.reading::<X>(room, ReadEvent::Start) == (tunnel, ReadStep::<Seq<u8>, X>::Nothing),
{
}

/// A write takes a prefix of its data, never empty and never more than a chunk,
/// and tells the size of what it took.
pub proof fn law_write_takes_a_prefix<X>(tunnel: Upgraded<Seq<u8>>, data: Seq<u8>)
    requires
        data.len() > 0,
    ensures
        ({
            let sent = tunnel.writing::<X>(data, WriteEvent::Reserved(Poll::Ready(true))).1;
            let done = tunnel.writing::<X>(data, WriteEvent::Sent(true)).1;
            &&& done is Done
            &&& 0 < done->Done_0 <= client::CHUNK
            &&& done->Done_0 <= data.len()
            &&& sent == WriteStep::<Seq<u8>, X>::Send(Command::Data(data.take(done->Done_0 as int)))
        }),
{
}

/// After a shutdown every write is refused, and a shutdown is done only once
/// the task has acknowledged that it finished the stream.
pub proof fn law_shutdown_closes_the_tunnel_for_writing<X>(
    tunnel: Upgraded<Seq<u8>>,
    event: WriteEvent<X>,
    data: Seq<u8>,
)
    requires
        tunnel.passing(true, event).1 is Done,
    ensures
        tunnel.passing(true, event).0.shutdown,
        tunnel.shutdown || (event is Acknowledged && event->Acknowledged_0 is Ready
            && event->Acknowledged_0->0 is Some && event->Acknowledged_0->0->0 is Ok
            && tunnel.pending == Some(true)),
        tunnel.passing(true, event).0.pending is None ==> tunnel.passing(
            true,
            event,
        ).0.writing::<X>(data, WriteEvent::Start).1 == WriteStep::<Seq<u8>, X>::Closed,
{
}

/// A read without room, or from a tunnel at its end, gives nothing. While bytes
/// are held it gives their front, as much as there is room for, and keeps the
/// rest; otherwise the channel is polled.
pub proof fn law_read_gives_what_is_held_first<X>(
    tunnel: &mut Upgraded<Bytes>,
    room: usize,
    step: ReadStep<Bytes, X>,
)
    requires
        call_ensures(Upgraded::<Bytes>::read::<X>, (tunnel, room, ReadEvent::Start), step),
    ensures
        ({
            let held = old(tunnel)@.data;
            let gives = room > 0 && held.len() > 0;
            &&& gives ==> {
                &&& step is Data
                &&& buf::content(step->Data_0) + final(tunnel)@.data == held
                &&& buf::content(step->Data_0).len() <= room
                &&& buf::content(step->Data_0).len() == room || final(tunnel)@.data.len() == 0
                &&& final(tunnel)@ == (Upgraded { data: final(tunnel)@.data, ..old(tunnel)@ })
            }
            &&& !gives ==> final(tunnel)@ == old(tunnel)@
            &&& room == 0 ==> step is Nothing
            &&& room > 0 && held.len() == 0 && old(tunnel).read_closed ==> step is Nothing
            &&& room > 0 && held.len() == 0 && !old(tunnel).read_closed ==> step is PollNext
        }),
{
    let held = old(tunnel)@.data;
    let size = if room <= held.len() {
        room as int
    } else {
        held.len() as int
    };
    assert(held.take(size) + held.skip(size) =~= held);
}

/// Bytes that come off the channel are given, as much as there is room for, and
/// the rest held; without room nothing is given and nothing changes. A failure is
/// told and the end gives nothing, and either closes the tunnel for reading. A
/// channel without anything yet is waited for.
pub proof fn law_read_gives_what_came<X>(
    tunnel: &mut Upgraded<Bytes>,
    room: usize,
    found: Poll<Option<Result<Bytes, Error<X>>>>,
    step: ReadStep<Bytes, X>,
)
    requires
        call_ensures(Upgraded::<Bytes>::read::<X>, (tunnel, room, ReadEvent::Next(found)), step),
        old(tunnel)@.data.len() == 0,
    ensures
        room == 0 ==> step is Nothing && final(tunnel)@ == old(tunnel)@,
        room > 0 && found is Pending ==> step is Pend && final(tunnel)@ == old(tunnel)@,
        room > 0 && found is Ready && found->0 is None ==> step is Nothing && final(tunnel)@ == (Upgraded {
            read_closed: true,
            ..old(tunnel)@
        }),
        found matches Poll::Ready(Some(Err(error))) ==> room > 0 ==> step == ReadStep::<
            Bytes,
            X,
        >::Failed(error) && final(tunnel)@ == (Upgraded { read_closed: true, ..old(tunnel)@ }),
        found matches Poll::Ready(Some(Ok(data))) ==> room > 0 ==> {
            let came = buf::content(data);
            &&& final(tunnel)@ == (Upgraded { data: final(tunnel)@.data, ..old(tunnel)@ })
            &&& came.len() > 0 ==> {
                &&& step is Data
                &&& buf::content(step->Data_0) + final(tunnel)@.data == came
                &&& buf::content(step->Data_0).len() <= room
                &&& buf::content(step->Data_0).len() == room || final(tunnel)@.data.len() == 0
            }
            &&& came.len() == 0 ==> final(tunnel)@.data.len() == 0 && if old(tunnel).read_closed {
                step is Nothing
            } else {
                step is PollNext
            }
        },
{
    if let Poll::Ready(Some(Ok(data))) = found {
        let came = buf::content(data);
        let size = if room <= came.len() {
            room as int
        } else {
            came.len() as int
        };
        assert(old(tunnel)@.data + came =~= came);
        assert(came.take(size) + came.skip(size) =~= came);
    }
}

/// A write waits for what is to be acknowledged first. A tunnel that is shut down
/// refuses it, data that is empty is done with, and other data waits for room;
/// with that its front is sent, as much as a chunk may hold, and what was sent is
/// what the write took. Nothing of the tunnel changes.
pub proof fn law_write_sends_the_front<X>(
    tunnel: &mut Upgraded<Bytes>,
    data: &[u8],
    event: WriteEvent<X>,
    step: WriteStep<Bytes, X>,
)
    requires
        call_ensures(Upgraded::<Bytes>::write::<X>, (tunnel, data, event), step),
        event !is Acknowledged,
    ensures
        final(tunnel)@ == old(tunnel)@,
        event is Start && old(tunnel).pending is Some ==> step is PollAck,
        event is Start && old(tunnel).pending is None ==> if old(tunnel).shutdown {
            step is Closed
        } else if data@.len() == 0 {
            step == WriteStep::<Bytes, X>::Done(0)
        } else {
            step is PollReserve
        },
        event is Reserved && event->Reserved_0 is Pending ==> step is Pend,
        event matches WriteEvent::Reserved(Poll::Ready(open)) ==> if open {
            &&& step is Send && step->Send_0 is Data
            &&& buf::content(step->Send_0->Data_0).is_prefix_of(data@)
            &&& buf::content(step->Send_0->Data_0).len() == if data@.len() <= 16384 {
                data@.len()
            } else {
                16384nat
            }
        } else {
            step is Closed
        },
        event matches WriteEvent::Sent(open) ==> if open {
            &&& step is Done
            &&& step->Done_0 == if data@.len() <= 16384 {
                data@.len()
            } else {
                16384nat
            }
        } else {
            step is Closed
        },
{
}

/// What is to be acknowledged is waited for. Once it is, a call that waited for it
/// goes on; a finish closes the tunnel for writing. A task that is gone closes the
/// call, and a failure fails it. In any case it is waited for no longer.
pub proof fn law_acknowledgment_lets_the_call_go_on<X>(
    tunnel: &mut Upgraded<Bytes>,
    data: &[u8],
    barrier: bool,
    finish: bool,
    found: Poll<Option<Result<(), Error<X>>>>,
    step: WriteStep<Bytes, X>,
)
    requires
        if barrier {
            call_ensures(
                Upgraded::<Bytes>::barrier::<X>,
                (tunnel, finish, WriteEvent::Acknowledged(found)),
                step,
            )
        } else {
            call_ensures(
                Upgraded::<Bytes>::write::<X>,
                (tunnel, data, WriteEvent::Acknowledged(found)),
                step,
            )
        },
    ensures
        ({
            let finished = old(tunnel).pending == Some(true);
            let good = found is Ready && found->0 is Some && found->0->0 is Ok;
            let shut = old(tunnel).shutdown || finished;
            &&& found is Pending ==> step is Pend && final(tunnel)@ == old(tunnel)@
            &&& found is Ready && found->0 is None ==> step is Closed
            &&& found matches Poll::Ready(Some(Err(error))) ==> step == WriteStep::<
                Bytes,
                X,
            >::Failed(error)
            &&& found is Ready ==> final(tunnel).pending is None
            &&& found is Ready && !good ==> final(tunnel).shutdown == old(tunnel).shutdown
            &&& good ==> final(tunnel).shutdown == shut
            &&& final(tunnel)@ == (Upgraded {
                pending: final(tunnel).pending,
                shutdown: final(tunnel).shutdown,
                ..old(tunnel)@
            })
            &&& good && !barrier && shut ==> step is Closed
            &&& good && !barrier && !shut && data@.len() == 0 ==> step == WriteStep::<
                Bytes,
                X,
            >::Done(0)
            &&& good && !barrier && !shut && data@.len() > 0 ==> step is PollReserve
            &&& good && barrier && (!finish || shut) ==> step == WriteStep::<Bytes, X>::Done(0)
            &&& good && barrier && finish && !shut ==> step is PollReserve
        }),
{
}

/// A flush, or a shutdown, waits for what is to be acknowledged first, is done at
/// once on a tunnel that is shut down, and otherwise waits for room, sends its
/// command, and waits for the acknowledgment of that.
pub proof fn law_barrier_sends_its_command<X>(
    tunnel: &mut Upgraded<Bytes>,
    finish: bool,
    event: WriteEvent<X>,
    step: WriteStep<Bytes, X>,
)
    requires
        call_ensures(Upgraded::<Bytes>::barrier::<X>, (tunnel, finish, event), step),
        event !is Acknowledged,
    ensures
        ({
            let sent = event == WriteEvent::<X>::Sent(true);
            &&& sent ==> step is PollAck && final(tunnel)@ == (Upgraded {
                pending: Some(finish),
                ..old(tunnel)@
            })
            &&& !sent ==> final(tunnel)@ == old(tunnel)@
            &&& event == WriteEvent::<X>::Sent(false) ==> step is Closed
            &&& event is Start && old(tunnel).pending is Some ==> step is PollAck
            &&& event is Start && old(tunnel).pending is None && old(tunnel).shutdown ==> step
                == WriteStep::<Bytes, X>::Done(0)
            &&& event is Start && old(tunnel).pending is None && !old(tunnel).shutdown
                ==> step is PollReserve
            &&& event is Reserved && event->Reserved_0 is Pending ==> step is Pend
            &&& event == WriteEvent::<X>::Reserved(Poll::Ready(false)) ==> step is Closed
            &&& event == WriteEvent::<X>::Reserved(Poll::Ready(true)) ==> step is Send && if finish {
                step->Send_0 is Finish
            } else {
                step->Send_0 is Flush
            }
        }),
{
}

/// A tunnel is made with nothing held and nothing to be acknowledged, open both
/// ways. Dropping it closes its Datagram route where it has one, and a closed one
/// says so.
pub proof fn law_tunnel_is_made_open(
    datagrams: bool,
    made: Upgraded<Bytes>,
    tunnel: &Upgraded<Bytes>,
    close_route: bool,
    reason: Reason,
)
    requires
        call_ensures(Upgraded::<Bytes>::new, (datagrams,), made),
        call_ensures(Upgraded::<Bytes>::abandon, (tunnel,), close_route),
        call_ensures(closed, (), reason),
    ensures
        made@.data.len() == 0 && made.pending is None && !made.shutdown && !made.read_closed,
        made.datagrams == datagrams,
        close_route <==> tunnel.datagrams,
        reason == Reason::TunnelClosed,
{
}

} // verus!
