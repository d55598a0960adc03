//! The boundary with `std::sync::Mutex`.
//!
//! A lock's content changes behind a shared reference, which is exactly what
//! Verus assumes cannot happen to a value it can see. The lock and its guard
//! are therefore opaque here, and the three operations below promise nothing
//! about what is read: code that uses them is verified for every value the
//! lock might hold.

use std::sync::{Mutex, MutexGuard};
use std::time::Duration;
use vstd::prelude::*;

verus! {

/// Makes `std::sync::Mutex` known to the verifier as an opaque type.
#[verifier::external_type_specification]
#[verifier::external_body]
#[verifier::reject_recursive_types(T)]
pub struct ExMutex<T: ?Sized>(Mutex<T>);

/// Makes `std::sync::MutexGuard` known to the verifier as an opaque type.
#[verifier::external_type_specification]
#[verifier::external_body]
#[verifier::reject_recursive_types(T)]
pub struct ExMutexGuard<'a, T: ?Sized + 'a>(MutexGuard<'a, T>);

/// `Mutex::new`: an unlocked lock around `value`.
pub assume_specification<T>[ Mutex::<T>::new ](value: T) -> (lock: Mutex<T>)
;

/// `Mutex::lock`: waits for the lock and returns its guard; the lock is
/// released when the guard goes out of scope. A lock poisoned by a panic in
/// another holder is taken all the same, so this never panics.
#[verifier::external_body]
pub(crate) fn acquire<'a>(lock: &'a Mutex<Duration>) -> (guard: MutexGuard<'a, Duration>) {
    match lock.lock() {
        Ok(guard) => guard,
        Err(poisoned) => poisoned.into_inner(),
    }
}

/// `MutexGuard::deref`: a copy of what the held lock contains.
#[verifier::external_body]
pub(crate) fn load(guard: &MutexGuard<Duration>) -> (value: Duration) {
    **guard
}

/// `MutexGuard::deref_mut`: replaces what the held lock contains.
#[verifier::external_body]
pub(crate) fn store(guard: &mut MutexGuard<Duration>, value: Duration) {
    **guard = value;
}

} // verus!
