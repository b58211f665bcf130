//! What an HTTP/2 client connection needs of an executor.

use vstd::prelude::*;

use crate::bounds::h2_common::Http2UpgradedExec;
use crate::bounds::Executor;

mod sealed_client;

verus! {

/// An executor to spawn the futures of an HTTP/2 client connection and those of
/// its upgraded streams. Whatever runs both and can be cloned fulfils it, and
/// nothing else can.
pub trait Http2ClientConnExec<F, U>: Http2UpgradedExec<U> + sealed_client::Sealed<
    (F, U),
> + Clone {
    /// Hands the future to the executor.
    fn execute_h2_future(&mut self, future: F);
}

impl<E: Executor<F> + Executor<U> + Clone, F, U> Http2ClientConnExec<F, U> for E {
    fn execute_h2_future(&mut self, future: F)
        ensures
            call_ensures(<E as Executor<F>>::execute, (&*old(self), future), ()),
            *final(self) == *old(self),
    {
        Executor::<F>::execute(self, future)
    }
}

impl<E: Executor<F> + Executor<U> + Clone, F, U> sealed_client::Sealed<(F, U)> for E {

}

} // verus!
