//! Keeps the elapsed-time extension closed to outside implementations.

use crate::clock::Clock;
use vstd::prelude::*;

verus! {

/// Implemented for every clock and nameable by no other crate, so that the
/// only implementation of [`crate::clock::ClockExt`] is the one given here.
pub trait Sealed {

}

impl<C: Clock> Sealed for C {

}

} // verus!
