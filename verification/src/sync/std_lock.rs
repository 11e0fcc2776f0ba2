//! The reader-writer lock of the standard library, as the coarse locks use it.
//!
//! The lock and its guards are opaque here. Which outcome an acquisition has
//! depends on what other guards exist at that moment, so none of the calls
//! below claims anything of its result.

use crate::sync::poison::{LockResult, PoisonError, TryLockError, TryLockResult};
use std::ops::{Deref, DerefMut};
use std::sync::{RwLock, RwLockReadGuard, RwLockWriteGuard};
use vstd::prelude::*;

verus! {

/// `std::sync::RwLock`.
#[verifier::external_type_specification]
#[verifier::external_body]
#[verifier::reject_recursive_types(T)]
pub struct ExRwLock<T: ?Sized>(RwLock<T>);

/// `std::sync::RwLockReadGuard`, the shared guard of an `RwLock`.
#[verifier::external_type_specification]
#[verifier::external_body]
#[verifier::reject_recursive_types(T)]
pub struct ExRwLockReadGuard<'a, T: ?Sized>(RwLockReadGuard<'a, T>);

/// `std::sync::RwLockWriteGuard`, the exclusive guard of an `RwLock`.
#[verifier::external_type_specification]
#[verifier::external_body]
#[verifier::reject_recursive_types(T)]
pub struct ExRwLockWriteGuard<'a, T: ?Sized + 'a>(RwLockWriteGuard<'a, T>);

/// `RwLock::new`.
#[verifier::external_body]
pub(crate) fn rwlock_new<T>(value: T) -> RwLock<T> {
    RwLock::new(value)
}

/// `RwLock::read`: waits until no writer holds the lock. The guard comes back
/// clean, or inside a `PoisonError` when a writer panicked earlier. The
/// standard library leaves open what happens when the calling thread holds the
/// lock already (it may panic or wait for ever).
#[verifier::external_body]
pub(crate) fn rwlock_read<'a, T>(lock: &'a RwLock<T>) -> LockResult<RwLockReadGuard<'a, T>> {
    match lock.read() {
        Ok(guard) => Ok(guard),
        Err(poison) => Err(PoisonError::new(poison.into_inner())),
    }
}

/// `RwLock::try_read`: never waits. The guard comes back clean or inside a
/// `PoisonError`; `WouldBlock` means that nothing was acquired.
#[verifier::external_body]
pub(crate) fn rwlock_try_read<'a, T>(lock: &'a RwLock<T>) -> TryLockResult<RwLockReadGuard<'a, T>> {
    match lock.try_read() {
        Ok(guard) => Ok(guard),
        Err(std::sync::TryLockError::Poisoned(poison)) => Err(
            TryLockError::Poisoned(PoisonError::new(poison.into_inner())),
        ),
        Err(std::sync::TryLockError::WouldBlock) => Err(TryLockError::WouldBlock),
    }
}

/// `RwLock::write`: waits until no reader and no writer holds the lock. The
/// guard comes back clean, or inside a `PoisonError` when a writer panicked
/// earlier. The standard library leaves open what happens when the calling
/// thread holds the lock already (it may panic or wait for ever).
#[verifier::external_body]
pub(crate) fn rwlock_write<'a, T>(lock: &'a RwLock<T>) -> LockResult<RwLockWriteGuard<'a, T>> {
    match lock.write() {
        Ok(guard) => Ok(guard),
        Err(poison) => Err(PoisonError::new(poison.into_inner())),
    }
}

/// `RwLock::try_write`: never waits. The guard comes back clean or inside a
/// `PoisonError`; `WouldBlock` means that nothing was acquired.
#[verifier::external_body]
pub(crate) fn rwlock_try_write<'a, T>(lock: &'a RwLock<T>) -> TryLockResult<
    RwLockWriteGuard<'a, T>,
> {
    match lock.try_write() {
        Ok(guard) => Ok(guard),
        Err(std::sync::TryLockError::Poisoned(poison)) => Err(
            TryLockError::Poisoned(PoisonError::new(poison.into_inner())),
        ),
        Err(std::sync::TryLockError::WouldBlock) => Err(TryLockError::WouldBlock),
    }
}

/// `Deref::deref` of `RwLockWriteGuard`: the protected value, for reading.
#[verifier::external_body]
pub(crate) fn write_guard_ref<'g, 'a, T>(guard: &'g RwLockWriteGuard<'a, T>) -> &'g T {
    guard.deref()
}

/// `DerefMut::deref_mut` of `RwLockWriteGuard`: the protected value, for
/// writing.
#[verifier::external_body]
pub(crate) fn write_guard_mut<'g, 'a, T>(guard: &'g mut RwLockWriteGuard<'a, T>) -> &'g mut T {
    guard.deref_mut()
}

} // verus!
