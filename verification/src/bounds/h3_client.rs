//! What an HTTP/3 client connection needs of an executor.

use vstd::prelude::*;

use crate::bounds::Executor;

mod sealed_client;

verus! {

/// An executor to spawn the futures of an HTTP/3 client: the connection task,
/// and the uploads and CONNECT tunnels that outlive their request. Whatever runs
/// both and can be cloned fulfils it, and nothing else can.
pub trait Http3ClientConnExec<T, F>: Executor<F> + Clone + sealed_client::Sealed<(T, F)> {
    /// Hands the task to the executor.
    fn execute_h3_task(&self, task: T);
}

impl<E: Executor<T> + Executor<F> + Clone, T, F> Http3ClientConnExec<T, F> for E {
    fn execute_h3_task(&self, task: T)
        ensures
            call_ensures(<E as Executor<T>>::execute, (self, task), ()),
    {
        Executor::<T>::execute(self, task)
    }
}

impl<E: Executor<T> + Executor<F> + Clone, T, F> sealed_client::Sealed<(T, F)> for E {

}

} // verus!
