//! Adapts transports written against another set of QUIC traits.

use vstd::prelude::*;

verus! {

/// Adapts a transport to the contract that this library drives. Cloned openers
/// must start without pending opens and cancel their own pending opens on drop.
/// Connection closure is reported as an error, never as the absence of a
/// stream. Datagrams are not adapted.
#[derive(Clone, Debug)]
pub struct Compat<T>(pub T);

impl<T> Compat<T> {
    /// Wraps a transport whose QUIC and TLS handshakes have completed.
    pub fn new(inner: T) -> (compat: Self)
        ensures
            compat == Compat(inner),
    {
        Compat(inner)
    }

    /// Returns the wrapped transport.
    pub fn into_inner(self) -> (inner: T)
        ensures
            inner == self.0,
    {
        self.0
    }

    /// Takes a stream that a transport of the other kind accepted, and adapts
    /// it. Such a transport reports its closure as a failure, so where it does
    /// not fail there is always a stream.
    pub fn accepted<X>(found: Result<T, X>) -> (stream: Result<Option<Compat<T>>, X>)
        ensures
            stream == match found {
                Ok(stream) => Ok(Some(Compat(stream))),
                Err(failure) => Err::<Option<Compat<T>>, X>(failure),
            },
    {
        match found {
            Ok(stream) => Ok(Some(Compat(stream))),
            Err(failure) => Err(failure),
        }
    }
}

/// Unwrapping gives back what was wrapped.
pub proof fn law_unwrapping_undoes_wrapping<T>(inner: T, compat: Compat<T>, back: T)
    requires
        call_ensures(Compat::<T>::new, (inner,), compat),
        call_ensures(Compat::<T>::into_inner, (compat,), back),
    ensures
        back == inner,
{
}

/// An accepted stream is adapted as it is, and a failure stays what it was.
pub proof fn law_accepted_streams_are_adapted<T, X>(
    found: Result<T, X>,
    stream: Result<Option<Compat<T>>, X>,
)
    requires
        call_ensures(Compat::<T>::accepted::<X>, (found,), stream),
    ensures
        found matches Ok(inner) ==> stream is Ok && stream->Ok_0 is Some && (stream->Ok_0->0).0
            == inner,
        found matches Err(failure) ==> stream is Err && stream->Err_0 == failure,
{
}

} // verus!
