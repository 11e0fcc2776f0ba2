use std::collections::HashMap;
use sublock::cell::proofcell::{
    attach, BorrowError, BorrowMutError, MainCell, ProofBorrow, ProofBorrowMut, SubCell,
};
use sublock::key::KeySource;

type State = HashMap<usize, SubCell<usize>>;

fn empty_cell(keys: &mut KeySource) -> MainCell<State> {
    MainCell::new(keys.new_key().unwrap(), HashMap::new())
}

#[test]
fn main_cell_sub_cell_keeps_what_was_written() {
    let mut keys = KeySource::new();
    let data = empty_cell(&mut keys);

    {
        let (_, guard) = data.try_borrow().unwrap();
        assert_eq!(guard.len(), 0);
    }
    {
        let (proof, mut guard) = data.try_borrow_mut().unwrap();
        guard.insert(0, SubCell::new(&proof, 42));
        assert_eq!(guard.len(), 1);
    }
    {
        let (proof, guard) = data.try_borrow().unwrap();
        assert_eq!(guard.len(), 1);
        let cell = guard.get(&0).unwrap();
        assert!(cell.opens_with(&proof));
        assert_eq!(*cell.borrow(&proof), 42);
    }
    {
        let (proof, mut guard) = data.try_borrow_mut().unwrap();
        assert_eq!(guard.len(), 1);
        let cell = guard.get_mut(&0).unwrap();
        assert!(cell.opens_with_mut(&proof));
        assert_eq!(*cell.borrow(&proof), 42);

        *cell.borrow_mut(&proof) = 99;
        assert_eq!(*cell.borrow(&proof), 99);
    }
    {
        let (proof, guard) = data.try_borrow().unwrap();
        assert_eq!(guard.len(), 1);
        let cell = guard.get(&0).unwrap();
        assert_eq!(*cell.borrow(&proof), 99);
    }
}

#[test]
fn main_cell_allows_many_readers() {
    let mut keys = KeySource::new();
    let data = empty_cell(&mut keys);
    let first = data.try_borrow();
    let second = data.try_borrow();
    assert!(first.is_ok());
    assert!(second.is_ok());
}

#[test]
fn main_cell_refuses_a_writer_while_read() {
    let mut keys = KeySource::new();
    let data = empty_cell(&mut keys);
    let reader = data.try_borrow().unwrap();
    assert_eq!(data.try_borrow_mut().err(), Some(BorrowMutError));
    drop(reader);
    assert!(data.try_borrow_mut().is_ok());
}

#[test]
fn main_cell_refuses_everyone_while_written() {
    let mut keys = KeySource::new();
    let data = empty_cell(&mut keys);
    let writer = data.try_borrow_mut().unwrap();
    assert_eq!(data.try_borrow().err(), Some(BorrowError));
    assert_eq!(data.try_borrow_mut().err(), Some(BorrowMutError));
    drop(writer);
    assert!(data.try_borrow().is_ok());
}

#[test]
fn main_cell_capability_does_not_open_a_foreign_sub_cell() {
    let mut keys = KeySource::new();
    let ours = empty_cell(&mut keys);
    let theirs = empty_cell(&mut keys);

    let (our_write, mut our_state) = ours.try_borrow_mut().unwrap();
    our_state.insert(7, SubCell::new(&our_write, 1));
    let (their_write, mut their_state) = theirs.try_borrow_mut().unwrap();
    their_state.insert(7, SubCell::new(&their_write, 2));

    let our_cell = our_state.get(&7).unwrap();
    let their_cell = their_state.get(&7).unwrap();
    assert!(our_cell.opens_with_mut(&our_write));
    assert!(their_cell.opens_with_mut(&their_write));
    assert!(!our_cell.opens_with_mut(&their_write));
    assert!(!their_cell.opens_with_mut(&our_write));
    drop((our_write, our_state, their_write, their_state));

    let (our_read, our_state) = ours.try_borrow().unwrap();
    let (their_read, their_state) = theirs.try_borrow().unwrap();
    assert!(our_state.get(&7).unwrap().opens_with(&our_read));
    assert!(!our_state.get(&7).unwrap().opens_with(&their_read));
    assert!(!their_state.get(&7).unwrap().opens_with(&our_read));
}

#[test]
fn read_capability_can_be_shared_within_its_guard() {
    let mut keys = KeySource::new();
    let data = empty_cell(&mut keys);
    {
        let (proof, mut guard) = data.try_borrow_mut().unwrap();
        guard.insert(1, SubCell::new(&proof, 10));
        guard.insert(2, SubCell::new(&proof, 20));
    }
    let (proof, guard) = data.try_borrow().unwrap();
    let sum: usize = guard.values().map(|cell| *cell.borrow(&proof)).sum();
    assert_eq!(sum, 30);
}

#[test]
fn attach_pairs_the_capability_with_a_granted_guard() {
    let granted: Result<u8, &str> = Ok(7);
    assert_eq!(attach("capability", granted, BorrowError), Ok(("capability", 7)));
}

#[test]
fn attach_turns_a_refusal_into_the_given_error() {
    let refused: Result<u8, &str> = Err("already borrowed");
    assert_eq!(attach("capability", refused, BorrowMutError), Err(BorrowMutError));
}

#[test]
fn write_capability_reads_as_well() {
    let mut keys = KeySource::new();
    let data = empty_cell(&mut keys);
    let (proof, mut guard) = data.try_borrow_mut().unwrap();
    guard.insert(0, SubCell::new(&proof, 5));
    let cell = guard.get_mut(&0).unwrap();
    *cell.borrow_mut(&proof) += 1;
    let seen: &usize = cell.borrow(&proof);
    assert_eq!(*seen, 6);
}

#[test]
fn read_capability_is_copied_freely() {
    let mut keys = KeySource::new();
    let data = empty_cell(&mut keys);
    {
        let (proof, mut guard) = data.try_borrow_mut().unwrap();
        guard.insert(0, SubCell::new(&proof, 5));
    }
    let (proof, guard) = data.try_borrow().unwrap();
    let copy = proof;
    let cell = guard.get(&0).unwrap();
    assert_eq!(*cell.borrow(&proof), 5);
    assert_eq!(*cell.borrow(&copy), 5);
}
