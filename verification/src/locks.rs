//! Access to values behind the locks of the standard library.
use std::sync::{OnceLock, PoisonError, RwLock, RwLockReadGuard, RwLockWriteGuard};
use vstd::prelude::*;

verus! {

/// Why a value behind a lock cannot be had.
#[derive(Clone, Copy, Debug, PartialEq, Eq, Structural)]
pub enum LockError {
    /// The value has not been set yet.
    NotInitialized,
    /// A thread panicked while it held the lock.
    Poisoned,
}

impl LockError {
    /// The error in words.
    pub fn message(&self) -> (text: &'static str)
        ensures
            text@ == match *self {
                LockError::NotInitialized => "OnceLock is not initialized"@,
                LockError::Poisoned => "RwLock poisoned: poisoned lock: another task failed inside"@,
            },
    {
        match self {
            LockError::NotInitialized => "OnceLock is not initialized",
            LockError::Poisoned => "RwLock poisoned: poisoned lock: another task failed inside",
        }
    }
}

/// Declares `std::sync::OnceLock`.
#[verifier::external_type_specification]
#[verifier::external_body]
#[verifier::reject_recursive_types(T)]
pub struct ExOnceLock<T>(std::sync::OnceLock<T>);

/// Declares `std::sync::RwLock`.
#[verifier::external_type_specification]
#[verifier::external_body]
#[verifier::reject_recursive_types(T)]
pub struct ExRwLock<T: ?Sized>(std::sync::RwLock<T>);

/// Declares `std::sync::RwLockReadGuard`.
#[verifier::external_type_specification]
#[verifier::external_body]
#[verifier::reject_recursive_types(T)]
pub struct ExRwLockReadGuard<'a, T: ?Sized>(std::sync::RwLockReadGuard<'a, T>);

/// Declares `std::sync::RwLockWriteGuard`.
#[verifier::external_type_specification]
#[verifier::external_body]
#[verifier::reject_recursive_types(T)]
pub struct ExRwLockWriteGuard<'a, T: ?Sized + 'a>(std::sync::RwLockWriteGuard<'a, T>);

/// Declares `std::sync::PoisonError`.
#[verifier::external_type_specification]
#[verifier::external_body]
#[verifier::reject_recursive_types(T)]
pub struct ExPoisonError<T>(std::sync::PoisonError<T>);

/// Specifies `OnceLock::get`. Nothing is claimed of the result: it depends on whether the
/// value has been set by the time of the call.
pub assume_specification<T>[ OnceLock::<T>::get ](lock: &OnceLock<T>) -> (value: Option<&T>);

/// Specifies `RwLock::read`. Nothing is claimed of the result: it depends on what other threads
/// have done with the lock. Nor can a clause say that the calling thread does not hold the lock
/// already, in which case the call may panic or not return.
pub assume_specification<T: ?Sized>[ RwLock::<T>::read ](lock: &RwLock<T>) -> (guard: Result<
    RwLockReadGuard<'_, T>,
    PoisonError<RwLockReadGuard<'_, T>>,
>);

/// Specifies `RwLock::write`. Nothing is claimed of the result: it depends on what other
/// threads have done with the lock. Nor can a clause say that the calling thread does not hold
/// the lock already, in which case the call may panic or not return.
pub assume_specification<T: ?Sized>[ RwLock::<T>::write ](lock: &RwLock<T>) -> (guard: Result<
    RwLockWriteGuard<'_, T>,
    PoisonError<RwLockWriteGuard<'_, T>>,
>);

/// What the outcome of looking for a value comes to.
pub open spec fn value_result<T>(outcome: Option<T>) -> Result<T, LockError> {
    match outcome {
        Some(value) => Ok(value),
        None => Err(LockError::NotInitialized),
    }
}

/// What the outcome of locking comes to: what a poisoned lock holds is not handed out.
pub open spec fn guard_result<G>(outcome: Result<G, PoisonError<G>>) -> Result<G, LockError> {
    match outcome {
        Ok(guard) => Ok(guard),
        Err(_) => Err(LockError::Poisoned),
    }
}

/// Turns the outcome of looking for a value into a result.
pub fn initialized<T>(outcome: Option<T>) -> (result: Result<T, LockError>)
    ensures
        result == value_result(outcome),
{
    outcome.ok_or(LockError::NotInitialized)
}

/// Turns the outcome of locking into a result.
pub fn unpoisoned<G>(outcome: Result<G, PoisonError<G>>) -> (result: Result<G, LockError>)
    ensures
        result == guard_result(outcome),
{
    match outcome {
        Ok(guard) => Ok(guard),
        Err(_) => Err(LockError::Poisoned),
    }
}

/// The value of a lock that is set once: what a call of `OnceLock::get` on it comes to.
pub fn get_oncelock<T>(lock: &'static OnceLock<T>) -> (result: Result<&'static T, LockError>)
    ensures
        exists|outcome: Option<&'static T>| #[trigger]
            call_ensures(OnceLock::<T>::get, (lock,), outcome) && result == value_result(outcome),
{
    let outcome = lock.get();
    assert(call_ensures(OnceLock::<T>::get, (lock,), outcome));
    initialized(outcome)
}

/// Locks a value for writing: what a call of `RwLock::write` on it comes to.
pub fn write_rwlock<'a, T>(lock: &'a RwLock<T>) -> (result: Result<
    RwLockWriteGuard<'a, T>,
    LockError,
>)
    ensures
        exists|outcome: Result<RwLockWriteGuard<'a, T>, PoisonError<RwLockWriteGuard<'a, T>>>|
            #[trigger] call_ensures(RwLock::<T>::write, (lock,), outcome) && result
                == guard_result(outcome),
{
    let outcome = lock.write();
    assert(call_ensures(RwLock::<T>::write, (lock,), outcome));
    unpoisoned(outcome)
}

/// Locks a value for reading: what a call of `RwLock::read` on it comes to.
pub fn read_rwlock<'a, T>(lock: &'a RwLock<T>) -> (result: Result<
    RwLockReadGuard<'a, T>,
    LockError,
>)
    ensures
        exists|outcome: Result<RwLockReadGuard<'a, T>, PoisonError<RwLockReadGuard<'a, T>>>|
            #[trigger] call_ensures(RwLock::<T>::read, (lock,), outcome) && result
                == guard_result(outcome),
{
    let outcome = lock.read();
    assert(call_ensures(RwLock::<T>::read, (lock,), outcome));
    unpoisoned(outcome)
}

/// A value that was found, and only that, is handed on; so is a guard of a lock that is not
/// poisoned.
pub proof fn law_outcomes_are_handed_on<T, G>(value: T, guard: G, poison: PoisonError<G>)
    ensures
        value_result(Some(value)) == Ok::<T, LockError>(value),
        value_result(None::<T>) == Err::<T, LockError>(LockError::NotInitialized),
        guard_result(Ok(guard)) == Ok::<G, LockError>(guard),
        guard_result(Err(poison)) == Err::<G, LockError>(LockError::Poisoned),
{
}

} // verus!
