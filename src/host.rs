//! The parts of std's threading and time support that the waypoints stand on.
//! Verus sees these types as opaque; each call below is taken on trust.
use std::sync::{Condvar, LockResult, Mutex, MutexGuard, PoisonError};
use std::time::{Duration, Instant};
use vstd::prelude::*;

use crate::gate::GateState;

verus! {

#[verifier::external_type_specification]
#[verifier::external_body]
pub struct ExInstant(Instant);

#[verifier::external_type_specification]
#[verifier::external_body]
pub struct ExCondvar(Condvar);

#[verifier::external_type_specification]
#[verifier::external_body]
#[verifier::reject_recursive_types(T)]
pub struct ExMutex<T: ?Sized>(Mutex<T>);

#[verifier::external_type_specification]
#[verifier::external_body]
#[verifier::reject_recursive_types(T)]
pub struct ExMutexGuard<'a, T: ?Sized + 'a>(MutexGuard<'a, T>);

#[verifier::external_type_specification]
#[verifier::external_body]
#[verifier::reject_recursive_types(T)]
pub struct ExPoisonError<T>(PoisonError<T>);

/// Relies on `Instant::now`: a reading of the monotonic clock.
pub assume_specification[ Instant::now ]() -> Instant;

/// Relies on `Instant::elapsed`: the time since the instant, zero if it lies ahead.
pub assume_specification[ Instant::elapsed ](i: &Instant) -> Duration;

/// Relies on `Instant::saturating_duration_since`: zero when `earlier` is later.
pub assume_specification[ Instant::saturating_duration_since ](i: &Instant, earlier: Instant) -> Duration;

/// Relies on `Duration::as_nanos`: the whole nanoseconds of a duration.
pub assume_specification[ Duration::as_nanos ](d: &Duration) -> u128;

/// Relies on `Duration::from_nanos`: a duration of the given nanoseconds.
pub assume_specification[ Duration::from_nanos ](nanos: u64) -> Duration;

/// Relies on `Mutex::lock`: blocks until the lock is held; `Err` when poisoned.
/// No caller here locks while its thread already holds the lock.
pub assume_specification<T: ?Sized>[ Mutex::<T>::lock ](m: &Mutex<T>) -> LockResult<MutexGuard<'_, T>>;

/// Relies on `PoisonError::into_inner`: the guard that a poisoned lock still gives.
pub assume_specification<T>[ PoisonError::<T>::into_inner ](e: PoisonError<T>) -> T;

/// Relies on `Condvar::new`.
pub assume_specification[ Condvar::new ]() -> Condvar;

/// Relies on `Condvar::notify_all`: wakes every thread parked on the condition.
pub assume_specification[ Condvar::notify_all ](cv: &Condvar);

} // verus!
