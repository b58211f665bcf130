//! Keeps a bound from being implemented elsewhere.

use vstd::prelude::*;

verus! {

/// Only this library can name the trait, so only its own impls fulfil a bound
/// that asks for it.
pub trait Sealed<X> {

}

} // verus!
