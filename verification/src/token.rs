//! Capability tokens and the sub-cells they open.
//!
//! A coarse lock mints a [`Proof`] with every read guard and a [`ProofMut`]
//! with every write guard. A token has the lifetime of the guard it came
//! with, so it cannot leave the scope in which the lock is borrowed; and a
//! sub-cell is reached only through a guard, for writing only through a write
//! guard. What is left to check when a sub-cell is opened is that the token
//! comes from the lock that owns the sub-cell: one comparison of keys.

use crate::key::{lemma_minted_keys_differ, mints, Key, KeySource};
use std::marker::PhantomData;
use vstd::prelude::*;

verus! {

/// A structure that lends out a `T` for reading to whoever shows a fitting `P`.
pub trait ProofBorrow<P, T> {
    /// Whether `proof` comes from the coarse lock that owns `self`.
    spec fn admits(&self, proof: &P) -> bool;

    /// The payload that a borrow shows.
    spec fn payload(&self) -> T;

    /// Lends the payload for reading. A `proof` that `self` does not admit is
    /// a misuse across two coarse locks, and is ruled out here.
    fn borrow<'a>(&'a self, proof: &P) -> (payload: &'a T)
        requires
            self.admits(proof),
        ensures
            *payload == self.payload(),
    ;
}

/// A structure that lends out a `T` for writing to whoever shows a fitting `P`.
pub trait ProofBorrowMut<P, T>: Sized {
    /// Whether `proof` comes from the coarse lock that owns `self`.
    spec fn admits_mut(&self, proof: &P) -> bool;

    /// The payload as it stands before it is lent out.
    spec fn payload_mut(&self) -> T;

    /// `self` with `payload` in place of its own, and nothing else changed.
    spec fn with_payload(&self, payload: T) -> Self;

    /// Lends the payload for writing; what the borrower leaves in it is the
    /// payload afterwards. A `proof` that `self` does not admit is a misuse
    /// across two coarse locks, and is ruled out here.
    fn borrow_mut<'a>(&'a mut self, proof: &P) -> (payload: &'a mut T)
        requires
            old(self).admits_mut(proof),
        ensures
            *payload == old(self).payload_mut(),
            *final(self) == old(self).with_payload(*final(payload)),
    ;
}

/// Evidence that a coarse lock is held, at least for reading.
///
/// Its lifetime is that of the read guard that came with it; within it the
/// token can be copied freely.
#[derive(Debug, Clone, Copy)]
pub struct Proof<'a>(usize, PhantomData<&'a ()>);

/// Evidence that a coarse lock is held for writing.
///
/// Its lifetime is that of the write guard that came with it, and there is
/// one of it for each write guard.
#[derive(Debug)]
pub struct ProofMut<'a>(usize, PhantomData<&'a ()>);

impl<'a> Proof<'a> {
    /// The key of the coarse lock that minted this token.
    pub closed spec fn key(&self) -> usize {
        self.0
    }

    /// Mints a read capability for the coarse lock with the key `key`.
    pub(crate) fn mint(key: usize) -> (proof: Self)
        ensures
            proof.key() == key,
    {
        Proof(key, PhantomData)
    }
}

impl<'a> ProofMut<'a> {
    /// The key of the coarse lock that minted this token.
    pub closed spec fn key(&self) -> usize {
        self.0
    }

    /// Mints a write capability for the coarse lock with the key `key`.
    pub(crate) fn mint(key: usize) -> (proof: Self)
        ensures
            proof.key() == key,
    {
        ProofMut(key, PhantomData)
    }
}

/// A storage location nested in the value that a coarse lock protects.
///
/// It does no locking of its own. Reading it takes a capability of the lock
/// that owns it; writing it takes a write capability of that lock and
/// exclusive access to the sub-cell, which the write guard hands out.
#[derive(Debug)]
pub struct SubCell<T> {
    value: T,
    // The key of the coarse lock whose write capability created this cell.
    owner_key: usize,
}

impl<T> SubCell<T> {
    /// The payload.
    pub closed spec fn view(&self) -> T {
        self.value
    }

    /// The key of the coarse lock that owns this sub-cell.
    pub closed spec fn owner_key(&self) -> usize {
        self.owner_key
    }

    /// A sub-cell that holds `value` and belongs to the coarse lock that
    /// minted `proof`. Only a write capability creates sub-cells.
    pub fn new<'a>(proof: &ProofMut<'a>, value: T) -> (cell: Self)
        ensures
            cell@ == value,
            cell.owner_key() == proof.key(),
    {
        SubCell { value, owner_key: proof.0 }
    }

    /// Whether `proof` comes from the coarse lock that owns this sub-cell, so
    /// that `borrow` may be called with it.
    pub fn opens_with<'b>(&self, proof: &Proof<'b>) -> (yes: bool)
        ensures
            yes == (self.owner_key() == proof.key()),
    {
        self.owner_key == proof.0
    }

    /// Whether `proof` comes from the coarse lock that owns this sub-cell, so
    /// that `borrow` and `borrow_mut` may be called with it.
    pub fn opens_with_mut<'b>(&self, proof: &ProofMut<'b>) -> (yes: bool)
        ensures
            yes == (self.owner_key() == proof.key()),
    {
        self.owner_key == proof.0
    }
}

impl<'b, T> ProofBorrow<Proof<'b>, T> for SubCell<T> {
    open spec fn admits(&self, proof: &Proof<'b>) -> bool {
        self.owner_key() == proof.key()
    }

    open spec fn payload(&self) -> T {
        self@
    }

    fn borrow<'a>(&'a self, proof: &Proof<'b>) -> (payload: &'a T) {
        &self.value
    }
}

impl<'b, T> ProofBorrow<ProofMut<'b>, T> for SubCell<T> {
    open spec fn admits(&self, proof: &ProofMut<'b>) -> bool {
        self.owner_key() == proof.key()
    }

    open spec fn payload(&self) -> T {
        self@
    }

    fn borrow<'a>(&'a self, proof: &ProofMut<'b>) -> (payload: &'a T) {
        &self.value
    }
}

impl<'b, T> ProofBorrowMut<ProofMut<'b>, T> for SubCell<T> {
    open spec fn admits_mut(&self, proof: &ProofMut<'b>) -> bool {
        self.owner_key() == proof.key()
    }

    open spec fn payload_mut(&self) -> T {
        self@
    }

    closed spec fn with_payload(&self, payload: T) -> Self {
        SubCell { value: payload, owner_key: self.owner_key }
    }

    fn borrow_mut<'a>(&'a mut self, proof: &ProofMut<'b>) -> (payload: &'a mut T)
        ensures
            final(self)@ == *final(payload),
            final(self).owner_key() == old(self).owner_key(),
    {
        &mut self.value
    }
}

/// Two coarse locks that took their keys from one source do not open each
/// other's sub-cells: a sub-cell created under the key `ours` admits no
/// capability minted under the key `theirs`, in either role.
pub proof fn lemma_foreign_capability_is_refused<'r, 'w, T>(
    before_ours: KeySource,
    ours: Key,
    after_ours: KeySource,
    before_theirs: KeySource,
    theirs: Key,
    after_theirs: KeySource,
    cell: SubCell<T>,
    read: Proof<'r>,
    write: ProofMut<'w>,
)
    requires
        mints(before_ours, ours, after_ours),
        mints(before_theirs, theirs, after_theirs),
        after_ours.count() <= before_theirs.count() || after_theirs.count() <= before_ours.count(),
        cell.owner_key() == ours.id(),
        read.key() == theirs.id(),
        write.key() == theirs.id(),
    ensures
        !ProofBorrow::<Proof<'r>, T>::admits(&cell, &read),
        !ProofBorrow::<ProofMut<'w>, T>::admits(&cell, &write),
        !ProofBorrowMut::<ProofMut<'w>, T>::admits_mut(&cell, &write),
{
    if after_ours.count() <= before_theirs.count() {
        lemma_minted_keys_differ(before_ours, ours, after_ours, before_theirs, theirs, after_theirs);
    } else {
        lemma_minted_keys_differ(before_theirs, theirs, after_theirs, before_ours, ours, after_ours);
    }
}

/// What is written into a sub-cell is what every later borrow shows, until it
/// is written again; and the sub-cell stays with its coarse lock, so the
/// capabilities that opened it before open it afterwards.
pub proof fn lemma_written_payload_is_kept<'r, 'w, T>(
    cell: SubCell<T>,
    written: T,
    read: Proof<'r>,
    write: ProofMut<'w>,
)
    ensures
        cell.with_payload(written)@ == written,
        ProofBorrow::<Proof<'r>, T>::payload(&cell.with_payload(written)) == written,
        ProofBorrow::<ProofMut<'w>, T>::payload(&cell.with_payload(written)) == written,
        cell.with_payload(written).owner_key() == cell.owner_key(),
        ProofBorrow::<Proof<'r>, T>::admits(&cell.with_payload(written), &read)
            == ProofBorrow::<Proof<'r>, T>::admits(&cell, &read),
        ProofBorrowMut::<ProofMut<'w>, T>::admits_mut(&cell.with_payload(written), &write)
            == ProofBorrowMut::<ProofMut<'w>, T>::admits_mut(&cell, &write),
{
}

} // verus!
