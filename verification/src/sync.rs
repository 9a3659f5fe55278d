//! Taking a lock that a failed holder may have left poisoned.

use std::sync::Mutex;
use std::sync::MutexGuard;
use std::sync::PoisonError;
use vstd::prelude::*;

verus! {

/// `std::sync::Mutex`, carried through without a look inside.
#[verifier::external_type_specification]
#[verifier::external_body]
#[verifier::reject_recursive_types(T)]
pub struct ExMutex<T: ?Sized>(std::sync::Mutex<T>);

/// `std::sync::MutexGuard`, carried through without a look inside.
#[verifier::external_type_specification]
#[verifier::external_body]
#[verifier::reject_recursive_types(T)]
pub struct ExMutexGuard<'a, T: ?Sized + 'a>(std::sync::MutexGuard<'a, T>);

/// `std::sync::PoisonError`, carried through without a look inside.
#[verifier::external_type_specification]
#[verifier::external_body]
#[verifier::reject_recursive_types(T)]
pub struct ExPoisonError<T>(std::sync::PoisonError<T>);

/// `Mutex::lock`: waits for the lock and hands out its guard, inside an error
/// where an earlier holder panicked. Nothing is claimed of the value guarded.
/// The standard library leaves open what happens when the calling thread
/// holds the lock already: callers take one lock at a time and give it back
/// before they take the next.
pub assume_specification<T: ?Sized>[ Mutex::<T>::lock ](mutex: &Mutex<T>) -> (outcome: Result<
    MutexGuard<'_, T>,
    PoisonError<MutexGuard<'_, T>>,
>)
;

/// `PoisonError::into_inner`: hands out the guard that the error holds.
pub assume_specification<T>[ PoisonError::<T>::into_inner ](error: PoisonError<T>) -> (inner: T)
;

/// The guard that an attempt to take a lock came to: the guard handed out,
/// where the lock was sound, and the guard that the error holds, where an
/// earlier holder had left the lock poisoned. Of the second nothing is
/// stated, as the standard library gives no way to look into the error.
pub fn recovered_guard<'a, T>(
    outcome: Result<MutexGuard<'a, T>, PoisonError<MutexGuard<'a, T>>>,
) -> (guard: MutexGuard<'a, T>)
    ensures
        outcome matches Ok(sound) ==> guard == sound,
{
    match outcome {
        Ok(sound) => sound,
        Err(poisoned) => poisoned.into_inner(),
    }
}

/// Takes the lock, whatever became of its earlier holders: a poisoned lock is
/// taken over with the value as it was left, so that one failed update never
/// stops the updates that follow.
pub fn safe_lock<T>(mutex: &Mutex<T>) -> (guard: MutexGuard<'_, T>) {
    recovered_guard(mutex.lock())
}

} // verus!
