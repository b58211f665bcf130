//! Bounds on executors, each fulfilled by whatever runs the futures in
//! question.

use vstd::prelude::*;

pub mod h2_client;
pub mod h2_common;
pub mod h3_client;

verus! {

/// Runs futures of this type.
pub trait Executor<F> {
    /// Places the future into the executor to be run.
    fn execute(&self, future: F);
}

} // verus!
