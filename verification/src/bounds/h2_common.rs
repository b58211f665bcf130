//! What tunnels over HTTP/2 need of an executor.

use vstd::prelude::*;

use crate::bounds::Executor;

verus! {

/// An executor to spawn the sending task of an upgraded HTTP/2 stream.
pub trait Http2UpgradedExec<F> {
    /// Hands the future to the executor.
    fn execute_upgrade(&self, future: F);
}

impl<E: Executor<F>, F> Http2UpgradedExec<F> for E {
    fn execute_upgrade(&self, future: F)
        ensures
            call_ensures(<E as Executor<F>>::execute, (self, future), ()),
    {
        self.execute(future)
    }
}

} // verus!
