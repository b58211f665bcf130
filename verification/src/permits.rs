//! The admission permits of a connection, which `tokio` counts. Who waits for
//! one, and in which order, is up to those that hold the semaphore.

use tokio::sync::Semaphore;
use vstd::prelude::*;

verus! {

/// The semaphore of `tokio`. Verus sees nothing inside it.
#[verifier::external_type_specification]
#[verifier::external_body]
pub struct ExSemaphore(Semaphore);

/// How many permits a semaphore has left to give. The contracts below are
/// about a semaphore that nothing else can reach at the time of the call, so
/// no permit comes or goes but by that call.
pub uninterp spec fn permits_left(semaphore: Semaphore) -> nat;

/// Whether a semaphore is closed and gives no more permits.
pub uninterp spec fn gives_none(semaphore: Semaphore) -> bool;

/// The most permits that a semaphore can hold, `Semaphore::MAX_PERMITS`.
pub const MAX_PERMITS: usize = usize::MAX / 8;

/// Calls `Semaphore::new`: an open semaphore with that many permits. `tokio`
/// panics on more than it can hold.
#[verifier::external_body]
pub(crate) fn new_permits(permits: usize) -> (semaphore: Semaphore)
    requires
        permits <= MAX_PERMITS,
    ensures
        permits_left(semaphore) == permits,
        !gives_none(semaphore),
{
    Semaphore::new(permits)
}

/// Calls `Semaphore::is_closed`.
#[verifier::external_body]
pub(crate) fn is_closed(semaphore: &Semaphore) -> (closed: bool)
    ensures
        closed == gives_none(*semaphore),
{
    semaphore.is_closed()
}

/// Calls `Semaphore::close`: from then on it gives no permits; those it has
/// left stay.
#[verifier::external_body]
pub(crate) fn close(semaphore: &mut Semaphore)
    ensures
        gives_none(*final(semaphore)),
        permits_left(*final(semaphore)) == permits_left(*old(semaphore)),
{
    semaphore.close()
}

/// Calls `Semaphore::available_permits`: how many permits it has left.
#[verifier::external_body]
pub(crate) fn available(semaphore: &Semaphore) -> (permits: usize)
    ensures
        permits == permits_left(*semaphore),
{
    semaphore.available_permits()
}

/// Calls `Semaphore::try_acquire` and `SemaphorePermit::forget`: takes a permit
/// for good, unless none is left or the semaphore is closed.
#[verifier::external_body]
pub(crate) fn take_permit(semaphore: &mut Semaphore) -> (taken: bool)
    ensures
        taken == (!gives_none(*old(semaphore)) && permits_left(*old(semaphore)) > 0),
        gives_none(*final(semaphore)) == gives_none(*old(semaphore)),
        permits_left(*final(semaphore)) == if taken {
            (permits_left(*old(semaphore)) - 1) as nat
        } else {
            permits_left(*old(semaphore))
        },
{
    match semaphore.try_acquire() {
        Ok(permit) => {
            permit.forget();
            true
        },
        Err(_) => false,
    }
}

/// Calls `Semaphore::add_permits`: puts one permit back, also where the
/// semaphore is closed. `tokio` panics on more than it can hold.
#[verifier::external_body]
pub(crate) fn put_permit(semaphore: &mut Semaphore)
    requires
        permits_left(*old(semaphore)) < MAX_PERMITS,
    ensures
        gives_none(*final(semaphore)) == gives_none(*old(semaphore)),
        permits_left(*final(semaphore)) == permits_left(*old(semaphore)) + 1,
{
    semaphore.add_permits(1)
}

} // verus!
