//! What acquiring a coarse lock can end in.
//!
//! A lock is poisoned when a thread panicked while it held the write guard.
//! The data may then be inconsistent, but it is still handed out: a poisoned
//! outcome carries the same guard, and the same capability, as a clean one.

use vstd::prelude::*;

verus! {

/// The lock is poisoned; the guard is held nevertheless, and is in here.
#[derive(Debug)]
pub struct PoisonError<G> {
    guard: G,
}

/// Why a non-blocking acquisition did not end in a clean guard.
#[derive(Debug)]
pub enum TryLockError<G> {
    /// The lock is poisoned; the guard is held nevertheless.
    Poisoned(PoisonError<G>),
    /// A conflicting guard is outstanding; nothing was acquired.
    WouldBlock,
}

/// The outcome of a blocking acquisition.
pub type LockResult<G> = Result<G, PoisonError<G>>;

/// The outcome of a non-blocking acquisition.
pub type TryLockResult<G> = Result<G, TryLockError<G>>;

impl<G> PoisonError<G> {
    /// The guard that was acquired in spite of the poisoning.
    pub closed spec fn view(&self) -> G {
        self.guard
    }

    /// Marks `guard` as taken from a poisoned lock.
    pub fn new(guard: G) -> (error: Self)
        ensures
            error@ == guard,
    {
        PoisonError { guard }
    }

    /// Recovers the guard, and with it the possibly inconsistent data.
    pub fn into_inner(self) -> (guard: G)
        ensures
            guard == self@,
    {
        self.guard
    }

    /// Looks at the guard without taking it.
    pub fn get_ref(&self) -> (guard: &G)
        ensures
            *guard == self@,
    {
        &self.guard
    }

    /// Reaches the guard for writing without taking it.
    pub fn get_mut(&mut self) -> (guard: &mut G)
        ensures
            *guard == old(self)@,
            final(self)@ == *final(guard),
    {
        &mut self.guard
    }
}

/// Puts `wrap(guard)` in the place of the guard of a blocking acquisition.
/// A clean outcome stays clean and a poisoned one stays poisoned.
pub fn map_guard<G, H, F: FnOnce(G) -> H>(outcome: LockResult<G>, wrap: F) -> (mapped: LockResult<H>)
    requires
        forall|guard: G| call_requires(wrap, (guard,)),
    ensures
        match outcome {
            Ok(guard) => mapped matches Ok(wrapped) && call_ensures(wrap, (guard,), wrapped),
            Err(poison) => mapped matches Err(error) && call_ensures(wrap, (poison@,), error@),
        },
{
    match outcome {
        Ok(guard) => Ok(wrap(guard)),
        Err(poison) => Err(PoisonError::new(wrap(poison.into_inner()))),
    }
}

/// Puts `wrap(guard)` in the place of the guard of a non-blocking acquisition.
/// A clean outcome stays clean and a poisoned one stays poisoned; where the
/// acquisition would have blocked there is no guard, and `wrap` is not called.
pub fn map_try_guard<G, H, F: FnOnce(G) -> H>(outcome: TryLockResult<G>, wrap: F) -> (mapped:
    TryLockResult<H>)
    requires
        forall|guard: G| call_requires(wrap, (guard,)),
    ensures
        match outcome {
            Ok(guard) => mapped matches Ok(wrapped) && call_ensures(wrap, (guard,), wrapped),
            Err(TryLockError::Poisoned(poison)) => mapped matches Err(
                TryLockError::Poisoned(error),
            ) && call_ensures(wrap, (poison@,), error@),
            Err(TryLockError::WouldBlock) => mapped matches Err(TryLockError::WouldBlock),
        },
{
    match outcome {
        Ok(guard) => Ok(wrap(guard)),
        Err(TryLockError::Poisoned(poison)) => Err(
            TryLockError::Poisoned(PoisonError::new(wrap(poison.into_inner()))),
        ),
        Err(TryLockError::WouldBlock) => Err(TryLockError::WouldBlock),
    }
}

} // verus!
