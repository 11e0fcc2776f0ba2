//! An `RwLock` whose guards come with a capability that opens the sub-cells
//! nested in the protected value.

use crate::key::Key;
use crate::sync::poison::{map_guard, map_try_guard, LockResult, TryLockError, TryLockResult};
use crate::sync::std_lock::{rwlock_new, rwlock_read, rwlock_try_read, rwlock_try_write, rwlock_write};
pub use crate::token::{Proof, ProofBorrow, ProofBorrowMut, ProofMut, SubCell};
use std::sync::{RwLock, RwLockReadGuard, RwLockWriteGuard};
use vstd::prelude::*;

verus! {

/// A read capability and the shared guard it is valid with.
pub type ReadGuard<'a, T> = (Proof<'a>, RwLockReadGuard<'a, T>);

/// A write capability and the exclusive guard it is valid with.
pub type WriteGuard<'a, T> = (ProofMut<'a>, RwLockWriteGuard<'a, T>);

/// A variant of `RwLock` whose guards come with a capability that opens the
/// sub-cells of the protected value at the cost of one comparison.
#[verifier::reject_recursive_types(T)]
pub struct MainLock<T> {
    lock: RwLock<T>,
    ownership: usize,
}

impl<T> MainLock<T> {
    /// The key that this lock's capabilities and sub-cells carry.
    pub closed spec fn key(&self) -> usize {
        self.ownership
    }

    /// A coarse lock that protects `value` and takes over the identity `key`.
    pub fn new(key: Key, value: T) -> (main: Self)
        ensures
            main.key() == key.id(),
    {
        MainLock { lock: rwlock_new(value), ownership: key.into_id() }
    }

    /// As `RwLock::read`: waits until no writer holds the lock. The
    /// capability carries this lock's key, whether the lock is poisoned or
    /// not. A thread that holds a guard of this lock already must not call
    /// this: like `RwLock::read`, the call may then wait for ever or panic.
    pub fn read<'a>(&'a self) -> (granted: LockResult<ReadGuard<'a, T>>)
        ensures
            granted matches Ok(pair) ==> pair.0.key() == self.key(),
            granted matches Err(poison) ==> poison@.0.key() == self.key(),
    {
        let proof = Proof::mint(self.ownership);
        let pair = |guard: RwLockReadGuard<'a, T>| -> (pair: ReadGuard<'a, T>)
            ensures
                pair.0 == proof,
                pair.1 == guard,
            { (proof, guard) };
        map_guard(rwlock_read(&self.lock), pair)
    }

    /// As `RwLock::try_read`: never waits. Where a guard is granted, the
    /// capability carries this lock's key, whether the lock is poisoned or
    /// not; where the call would have blocked, no capability leaves it.
    pub fn try_read<'a>(&'a self) -> (granted: TryLockResult<ReadGuard<'a, T>>)
        ensures
            granted matches Ok(pair) ==> pair.0.key() == self.key(),
            granted matches Err(TryLockError::Poisoned(poison)) ==> poison@.0.key() == self.key(),
    {
        let proof = Proof::mint(self.ownership);
        let pair = |guard: RwLockReadGuard<'a, T>| -> (pair: ReadGuard<'a, T>)
            ensures
                pair.0 == proof,
                pair.1 == guard,
            { (proof, guard) };
        map_try_guard(rwlock_try_read(&self.lock), pair)
    }

    /// As `RwLock::write`: waits until nobody else holds the lock. The
    /// capability carries this lock's key, whether the lock is poisoned or
    /// not. A thread that holds a guard of this lock already must not call
    /// this: like `RwLock::write`, the call may then wait for ever or panic.
    pub fn write<'a>(&'a self) -> (granted: LockResult<WriteGuard<'a, T>>)
        ensures
            granted matches Ok(pair) ==> pair.0.key() == self.key(),
            granted matches Err(poison) ==> poison@.0.key() == self.key(),
    {
        let proof = ProofMut::mint(self.ownership);
        let pair = |guard: RwLockWriteGuard<'a, T>| -> (pair: WriteGuard<'a, T>)
            ensures
                pair.0 == proof,
                pair.1 == guard,
            { (proof, guard) };
        map_guard(rwlock_write(&self.lock), pair)
    }

    /// As `RwLock::try_write`: never waits. Where a guard is granted, the
    /// capability carries this lock's key, whether the lock is poisoned or
    /// not; where the call would have blocked, no capability leaves it.
    pub fn try_write<'a>(&'a self) -> (granted: TryLockResult<WriteGuard<'a, T>>)
        ensures
            granted matches Ok(pair) ==> pair.0.key() == self.key(),
            granted matches Err(TryLockError::Poisoned(poison)) ==> poison@.0.key() == self.key(),
    {
        let proof = ProofMut::mint(self.ownership);
        let pair = |guard: RwLockWriteGuard<'a, T>| -> (pair: WriteGuard<'a, T>)
            ensures
                pair.0 == proof,
                pair.1 == guard,
            { (proof, guard) };
        map_try_guard(rwlock_try_write(&self.lock), pair)
    }
}

} // verus!
