//! Trusted declarations of the standard library's mutex and condition
//! variable, with the wrappers for the calls whose outcome no contract
//! needs: creating a condition variable and notifying waiters.
//!
//! Locking, waiting and the guard's access to the shared stack live beside
//! the channel that uses them, in `application::channel`.

use std::sync::{Condvar, Mutex, MutexGuard};

use vstd::prelude::*;

verus! {

#[verifier::external_type_specification]
#[verifier::external_body]
#[verifier::reject_recursive_types(T)]
pub struct ExMutex<T: ?Sized>(Mutex<T>);

#[verifier::external_type_specification]
#[verifier::external_body]
pub struct ExCondvar(Condvar);

#[verifier::external_type_specification]
#[verifier::external_body]
#[verifier::reject_recursive_types(T)]
pub struct ExMutexGuard<'a, T: ?Sized + 'a>(MutexGuard<'a, T>);

/// Relies on std::sync::Condvar::new: builds a fresh condition variable
/// with no waiters.
#[verifier::external_body]
pub(crate) fn condvar_new() -> Condvar {
    Condvar::new()
}

/// Relies on std::sync::Condvar::notify_one: wakes one thread blocked on
/// this condition variable, if any thread is.
#[verifier::external_body]
pub(crate) fn notify_one(cvar: &Condvar) {
    cvar.notify_one();
}

/// Relies on std::sync::Condvar::notify_all: wakes every thread blocked on
/// this condition variable.
#[verifier::external_body]
pub(crate) fn notify_all(cvar: &Condvar) {
    cvar.notify_all();
}

} // verus!
