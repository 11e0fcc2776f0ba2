//! An `RwLock` whose sub-cells check at every access, in a shared pair of
//! flags, that the lock is still alive and, for writing, that it is held for
//! writing.
//!
//! Unlike a capability, the liveness record is not bound to a guard: it can be
//! cloned and moved freely, and a sub-cell keeps its own handle to it. The
//! price is two atomic loads at every access. The flags are stored with
//! release ordering and loaded with acquire ordering, so what a lock event
//! wrote is seen by every thread that sees the event's flag.

pub use crate::sync::flags::{AccessError, Event, Flags};
pub use crate::sync::poison::LockResult;
use crate::sync::poison::{map_guard, map_try_guard, TryLockError, TryLockResult};
use crate::sync::std_lock::{
    rwlock_new,
    rwlock_read,
    rwlock_try_read,
    rwlock_try_write,
    rwlock_write,
    write_guard_mut,
    write_guard_ref,
};
use std::ops::{Deref, DerefMut};
use std::sync::atomic::{AtomicBool, Ordering};
use std::sync::{Arc, RwLock, RwLockReadGuard, RwLockWriteGuard};
use vstd::prelude::*;

verus! {

/// `AtomicBool::store` with `Ordering::Release`. The store panics for the
/// orderings `Acquire` and `AcqRel` only, so with this one it returns without
/// unwinding, and a destructor may call it; vstd's own specification of
/// `store` does not say so. Nothing is claimed of the flag afterwards: another
/// thread may store to it at any time.
#[verifier::external_body]
fn store_release(flag: &AtomicBool, value: bool)
    opens_invariants none
    no_unwind
{
    flag.store(value, Ordering::Release)
}

/// `Arc::clone`: one more handle to the same liveness record.
#[verifier::external_body]
fn share(liveness: &Arc<Liveness>) -> (shared: Arc<Liveness>)
    ensures
        shared == *liveness,
{
    Arc::clone(liveness)
}

/// The state that a coarse lock shares with its sub-cells.
#[derive(Debug)]
pub struct Liveness {
    /// `true` as long as the `MainLock` exists, `false` after that.
    is_alive: AtomicBool,
    /// `true` while the `MainLock` is held for writing, `false` otherwise.
    is_mut: AtomicBool,
}

impl Liveness {
    /// The record of a coarse lock that was just created.
    fn new() -> Liveness {
        let flags = Flags::new();
        Liveness { is_alive: AtomicBool::new(flags.is_alive), is_mut: AtomicBool::new(flags.is_mut) }
    }

    /// Takes note of `event`: stores what `Event::clears_alive` and
    /// `Event::sets_mut` prescribe for it, `is_alive` first.
    fn tell(&self, event: Event)
        opens_invariants none
        no_unwind
    {
        if event.clears_alive() {
            store_release(&self.is_alive, false);
        }
        store_release(&self.is_mut, event.sets_mut());
    }

    /// Looks at the two flags, one after the other. Each value that comes
    /// back is what its flag held at some moment during the call; another
    /// thread may change the flags at any time, so nothing is promised of
    /// them.
    pub fn snapshot(&self) -> Flags {
        let is_alive = self.is_alive.load(Ordering::Acquire);
        let is_mut = self.is_mut.load(Ordering::Acquire);
        Flags { is_alive, is_mut }
    }
}

/// A storage location nested in the value that a coarse lock protects.
///
/// It does no locking of its own: before every access it looks at the liveness
/// record of its coarse lock.
#[derive(Debug)]
pub struct SubCell<T> {
    value: T,
    liveness: Arc<Liveness>,
}

impl<T> SubCell<T> {
    /// The payload.
    pub closed spec fn view(&self) -> T {
        self.value
    }

    /// The liveness record that this sub-cell looks at.
    pub closed spec fn record(&self) -> Arc<Liveness> {
        self.liveness
    }

    /// A sub-cell that holds `value` and looks at `liveness`.
    pub fn new(liveness: &Arc<Liveness>, value: T) -> (cell: Self)
        ensures
            cell@ == value,
            cell.record() == *liveness,
    {
        SubCell { value, liveness: share(liveness) }
    }

    /// What a reader gets who has seen the flags `seen`: the payload if they
    /// show the coarse lock alive, `Released` otherwise.
    fn lend(&self, seen: Flags) -> (lent: Result<&T, AccessError>)
        ensures
            lent is Ok <==> seen.readable(),
            lent matches Ok(payload) ==> *payload == self@,
            lent matches Err(error) ==> seen.read_verdict() == Err::<(), AccessError>(error),
    {
        match seen.check_read() {
            Ok(()) => Ok(&self.value),
            Err(error) => Err(error),
        }
    }

    /// What a writer gets who has seen the flags `seen`: the payload if they
    /// show the coarse lock alive and held for writing, else the error that
    /// `Flags::write_verdict` names, with the sub-cell left as it was.
    fn lend_mut(&mut self, seen: Flags) -> (lent: Result<&mut T, AccessError>)
        ensures
            lent is Ok <==> seen.writable(),
            lent matches Ok(payload) ==> *payload == old(self)@ && final(self)@ == *final(payload),
            lent matches Err(error) ==> seen.write_verdict() == Err::<(), AccessError>(error)
                && final(self)@ == old(self)@,
            final(self).record() == old(self).record(),
    {
        match seen.check_write() {
            Ok(()) => Ok(&mut self.value),
            Err(error) => Err(error),
        }
    }

    /// Lends the payload for reading, if the liveness record shows the coarse
    /// lock alive; reports `Released` if it shows the lock dropped. Which of
    /// the two it is rests on the flags as they are loaded during the call.
    pub fn borrow(&self) -> (lent: Result<&T, AccessError>)
        ensures
            lent matches Ok(payload) ==> *payload == self@,
            lent matches Err(error) ==> error == AccessError::Released,
    {
        self.lend(self.liveness.snapshot())
    }

    /// Lends the payload for writing, if the liveness record shows the coarse
    /// lock alive and held for writing; what the borrower leaves in it is the
    /// payload afterwards. Reports `Released` if the record shows the lock
    /// dropped and `NotMutable` if it shows no write guard; the sub-cell is
    /// then left as it was. Which of the three it is rests on the flags as
    /// they are loaded during the call.
    pub fn borrow_mut(&mut self) -> (lent: Result<&mut T, AccessError>)
        ensures
            lent matches Ok(payload) ==> *payload == old(self)@ && final(self)@ == *final(payload),
            lent is Err ==> final(self)@ == old(self)@,
            final(self).record() == old(self).record(),
    {
        let seen = self.liveness.snapshot();
        self.lend_mut(seen)
    }
}

/// The shared guard of a [`MainLock`].
pub type ReadGuard<'a, T> = RwLockReadGuard<'a, T>;

/// The exclusive guard of a [`MainLock`]. While it exists, the liveness
/// record shows the lock as held for writing.
#[verifier::reject_recursive_types(T)]
pub struct WriteGuard<'a, T> {
    guard: RwLockWriteGuard<'a, T>,
    liveness: Arc<Liveness>,
}

impl<'a, T> WriteGuard<'a, T> {
    /// The liveness record that this guard reports to.
    pub closed spec fn record(&self) -> Arc<Liveness> {
        self.liveness
    }

    /// The exclusive guard of the standard lock that this guard wraps.
    pub closed spec fn inner(&self) -> RwLockWriteGuard<'a, T> {
        self.guard
    }

    /// Wraps `guard` and tells `liveness` that a write guard is out.
    fn new(guard: RwLockWriteGuard<'a, T>, liveness: &Arc<Liveness>) -> (wrapped: Self)
        ensures
            wrapped.inner() == guard,
            wrapped.record() == *liveness,
    {
        liveness.tell(Event::WriteAcquired);
        WriteGuard { guard, liveness: share(liveness) }
    }
}

impl<'a, T> Deref for WriteGuard<'a, T> {
    type Target = T;

    fn deref(&self) -> &T {
        write_guard_ref(&self.guard)
    }
}

impl<'a, T> DerefMut for WriteGuard<'a, T> {
    fn deref_mut(&mut self) -> &mut T {
        write_guard_mut(&mut self.guard)
    }
}

impl<'a, T> Drop for WriteGuard<'a, T> {
    /// Tells the liveness record that the write guard is gone; the standard
    /// lock is released after that.
    fn drop(&mut self)
        opens_invariants none
        no_unwind
    {
        self.liveness.tell(Event::WriteReleased);
    }
}

/// A variant of `RwLock` whose sub-cells can be read while the lock exists,
/// and written while it is held for writing.
#[verifier::reject_recursive_types(T)]
pub struct MainLock<T> {
    lock: RwLock<T>,
    liveness: Arc<Liveness>,
}

impl<T> Drop for MainLock<T> {
    /// Tells the liveness record that the lock is gone, before the protected
    /// value and its storage are released.
    fn drop(&mut self)
        opens_invariants none
        no_unwind
    {
        self.liveness.tell(Event::LockDropped);
    }
}

impl<T> MainLock<T> {
    /// The liveness record of this lock.
    pub closed spec fn record(&self) -> Arc<Liveness> {
        self.liveness
    }

    /// A coarse lock around the value that `cb` builds. `cb` is called once,
    /// on the liveness record of the new lock, so that the value can keep a
    /// handle to it and create sub-cells later.
    pub fn new<F>(cb: F) -> (main: Self) where F: FnOnce(&Arc<Liveness>) -> T
        requires
            forall|liveness: &Arc<Liveness>| call_requires(cb, (liveness,)),
        ensures
            exists|value: T| call_ensures(cb, (&main.record(),), value),
    {
        let liveness = Arc::new(Liveness::new());
        let value = cb(&liveness);
        let ghost built = value;
        let main = MainLock { lock: rwlock_new(value), liveness };
        assert(call_ensures(cb, (&main.record(),), built));
        main
    }

    /// As `RwLock::read`: waits until no writer holds the lock. The liveness
    /// record is not touched. A thread that holds a guard of this lock already
    /// must not call this: like `RwLock::read`, the call may then wait for
    /// ever or panic.
    pub fn read<'a>(&'a self) -> LockResult<ReadGuard<'a, T>> {
        rwlock_read(&self.lock)
    }

    /// As `RwLock::try_read`: never waits. The liveness record is not
    /// touched.
    pub fn try_read<'a>(&'a self) -> TryLockResult<ReadGuard<'a, T>> {
        rwlock_try_read(&self.lock)
    }

    /// As `RwLock::write`: waits until nobody else holds the lock. The guard
    /// reports to this lock's liveness record, whether the lock is poisoned or
    /// not. A thread that holds a guard of this lock already must not call
    /// this: like `RwLock::write`, the call may then wait for ever or panic.
    pub fn write<'a>(&'a self) -> (granted: LockResult<WriteGuard<'a, T>>)
        ensures
            granted matches Ok(guard) ==> guard.record() == self.record(),
            granted matches Err(poison) ==> poison@.record() == self.record(),
    {
        let wrap = |guard: RwLockWriteGuard<'a, T>| -> (wrapped: WriteGuard<'a, T>)
            ensures
                wrapped.inner() == guard,
                wrapped.record() == self.record(),
            { WriteGuard::new(guard, &self.liveness) };
        map_guard(rwlock_write(&self.lock), wrap)
    }

    /// As `RwLock::try_write`: never waits. Where a guard is granted, it
    /// reports to this lock's liveness record, whether the lock is poisoned or
    /// not; where the call would have blocked, the record is not touched.
    pub fn try_write<'a>(&'a self) -> (granted: TryLockResult<WriteGuard<'a, T>>)
        ensures
            granted matches Ok(guard) ==> guard.record() == self.record(),
            granted matches Err(TryLockError::Poisoned(poison)) ==> poison@.record() == self.record(),
    {
        let wrap = |guard: RwLockWriteGuard<'a, T>| -> (wrapped: WriteGuard<'a, T>)
            ensures
                wrapped.inner() == guard,
                wrapped.record() == self.record(),
            { WriteGuard::new(guard, &self.liveness) };
        map_try_guard(rwlock_try_write(&self.lock), wrap)
    }

    /// The liveness record of this lock, for the sub-cells that are to be
    /// created in it.
    pub fn liveness(&self) -> (liveness: &Arc<Liveness>)
        ensures
            *liveness == self.record(),
    {
        &self.liveness
    }
}

} // verus!
