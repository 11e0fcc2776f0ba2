//! A `RefCell` whose guards come with a capability that opens the sub-cells
//! nested in the protected value.

use crate::key::Key;
pub use crate::token::{Proof, ProofBorrow, ProofBorrowMut, ProofMut, SubCell};
use std::cell::{Ref, RefCell, RefMut};
use vstd::prelude::*;

verus! {

/// `std::cell::RefCell`: carried as it is, nothing is known of what it holds.
#[verifier::external_type_specification]
#[verifier::external_body]
#[verifier::reject_recursive_types(T)]
pub struct ExRefCell<T: ?Sized>(RefCell<T>);

/// `std::cell::Ref`, the shared guard of a `RefCell`.
#[verifier::external_type_specification]
#[verifier::external_body]
#[verifier::reject_recursive_types(T)]
pub struct ExRef<'b, T: ?Sized>(Ref<'b, T>);

/// `std::cell::RefMut`, the exclusive guard of a `RefCell`.
#[verifier::external_type_specification]
#[verifier::external_body]
#[verifier::reject_recursive_types(T)]
pub struct ExRefMut<'b, T: ?Sized + 'b>(RefMut<'b, T>);

/// `std::cell::BorrowError`, the refusal of `RefCell::try_borrow`.
#[verifier::external_type_specification]
#[verifier::external_body]
pub struct ExBorrowError(std::cell::BorrowError);

/// `std::cell::BorrowMutError`, the refusal of `RefCell::try_borrow_mut`.
#[verifier::external_type_specification]
#[verifier::external_body]
pub struct ExBorrowMutError(std::cell::BorrowMutError);

/// `RefCell::new`. The cell is opaque here, so nothing is claimed of it.
#[verifier::external_body]
fn refcell_new<T>(value: T) -> RefCell<T> {
    RefCell::new(value)
}

/// `RefCell::try_borrow`. Whether it grants the guard depends on the guards
/// that are alive at the call, so nothing is claimed of the result; the call
/// itself never panics.
#[verifier::external_body]
fn refcell_try_borrow<'a, T>(cell: &'a RefCell<T>) -> Result<Ref<'a, T>, std::cell::BorrowError> {
    cell.try_borrow()
}

/// `RefCell::try_borrow_mut`. Whether it grants the guard depends on the
/// guards that are alive at the call, so nothing is claimed of the result; the
/// call itself never panics.
#[verifier::external_body]
fn refcell_try_borrow_mut<'a, T>(cell: &'a RefCell<T>) -> Result<
    RefMut<'a, T>,
    std::cell::BorrowMutError,
> {
    cell.try_borrow_mut()
}

/// The coarse cell is borrowed for writing, so it cannot be read now.
#[derive(Debug, Clone, Copy, PartialEq, Eq, Structural)]
pub struct BorrowError;

/// The coarse cell is borrowed already, so it cannot be written now.
#[derive(Debug, Clone, Copy, PartialEq, Eq, Structural)]
pub struct BorrowMutError;

/// A read capability and the shared guard it is valid with.
pub type ReadGuard<'a, T> = (Proof<'a>, Ref<'a, T>);

/// A write capability and the exclusive guard it is valid with.
pub type WriteGuard<'a, T> = (ProofMut<'a>, RefMut<'a, T>);

/// Pairs a capability with the guard that was granted, if one was; a refusal
/// becomes `refusal`, and the capability is dropped with it.
pub fn attach<P, G, E, F>(proof: P, outcome: Result<G, E>, refusal: F) -> (paired: Result<(P, G), F>)
    ensures
        paired == (match outcome {
            Ok(guard) => Ok::<(P, G), F>((proof, guard)),
            Err(_) => Err::<(P, G), F>(refusal),
        }),
{
    match outcome {
        Ok(guard) => Ok((proof, guard)),
        Err(_) => Err(refusal),
    }
}

/// A variant of `RefCell` whose guards come with a capability that opens the
/// sub-cells of the protected value at the cost of one comparison.
#[verifier::reject_recursive_types(T)]
pub struct MainCell<T> {
    cell: RefCell<T>,
    ownership: usize,
}

impl<T> MainCell<T> {
    /// The key that this cell's capabilities and sub-cells carry.
    pub closed spec fn key(&self) -> usize {
        self.ownership
    }

    /// A coarse cell that protects `value` and takes over the identity `key`.
    pub fn new(key: Key, value: T) -> (main: Self)
        ensures
            main.key() == key.id(),
    {
        MainCell { cell: refcell_new(value), ownership: key.into_id() }
    }

    /// Borrows the protected value for reading, unless it is borrowed for
    /// writing. The capability that comes with the guard carries this cell's
    /// key.
    pub fn try_borrow(&self) -> (granted: Result<ReadGuard<'_, T>, BorrowError>)
        ensures
            granted matches Ok(pair) ==> pair.0.key() == self.key(),
    {
        attach(Proof::mint(self.ownership), refcell_try_borrow(&self.cell), BorrowError)
    }

    /// Borrows the protected value for writing, unless it is borrowed already.
    /// The capability that comes with the guard carries this cell's key.
    pub fn try_borrow_mut(&self) -> (granted: Result<WriteGuard<'_, T>, BorrowMutError>)
        ensures
            granted matches Ok(pair) ==> pair.0.key() == self.key(),
    {
        attach(ProofMut::mint(self.ownership), refcell_try_borrow_mut(&self.cell), BorrowMutError)
    }
}

} // verus!
