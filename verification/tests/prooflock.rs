use std::collections::HashMap;
use sublock::key::KeySource;
use sublock::sync::poison::{LockResult, PoisonError, TryLockError};
use sublock::sync::prooflock::{MainLock, ProofBorrow, ProofBorrowMut, SubCell};

type State = HashMap<usize, SubCell<usize>>;

fn empty_lock(keys: &mut KeySource) -> MainLock<State> {
    MainLock::new(keys.new_key().unwrap(), HashMap::new())
}

#[test]
fn main_lock_sub_cell_keeps_what_was_written() {
    let mut keys = KeySource::new();
    let data = empty_lock(&mut keys);

    {
        let (_, guard) = data.read().unwrap();
        assert_eq!(guard.len(), 0);
    }
    {
        let (proof, mut guard) = data.write().unwrap();
        guard.insert(0, SubCell::new(&proof, 42));
        assert_eq!(guard.len(), 1);
    }
    {
        let (proof, guard) = data.read().unwrap();
        assert_eq!(guard.len(), 1);
        let cell = guard.get(&0).unwrap();
        assert!(cell.opens_with(&proof));
        assert_eq!(*cell.borrow(&proof), 42);
    }
    {
        let (proof, mut guard) = data.write().unwrap();
        assert_eq!(guard.len(), 1);
        let cell = guard.get_mut(&0).unwrap();
        assert!(cell.opens_with_mut(&proof));
        assert_eq!(*cell.borrow(&proof), 42);

        *cell.borrow_mut(&proof) = 99;
        assert_eq!(*cell.borrow(&proof), 99);
    }
    {
        let (proof, guard) = data.read().unwrap();
        assert_eq!(guard.len(), 1);
        let cell = guard.get(&0).unwrap();
        assert_eq!(*cell.borrow(&proof), 99);
    }
}

#[test]
fn main_lock_try_variants_do_not_wait() {
    let mut keys = KeySource::new();
    let data = empty_lock(&mut keys);

    let writer = data.write().unwrap();
    assert!(matches!(data.try_read(), Err(TryLockError::WouldBlock)));
    assert!(matches!(data.try_write(), Err(TryLockError::WouldBlock)));
    drop(writer);
    assert!(data.try_read().is_ok());
    assert!(data.try_write().is_ok());

    let reader = data.read().unwrap();
    assert!(data.try_read().is_ok());
    assert!(matches!(data.try_write(), Err(TryLockError::WouldBlock)));
    drop(reader);
    assert!(data.try_write().is_ok());
}

#[test]
fn main_lock_try_guards_open_sub_cells() {
    let mut keys = KeySource::new();
    let data = empty_lock(&mut keys);
    {
        let (proof, mut guard) = data.try_write().ok().unwrap();
        guard.insert(3, SubCell::new(&proof, 5));
        *guard.get_mut(&3).unwrap().borrow_mut(&proof) += 1;
    }
    let (proof, guard) = data.try_read().ok().unwrap();
    let cell = guard.get(&3).unwrap();
    assert!(cell.opens_with(&proof));
    assert_eq!(*cell.borrow(&proof), 6);
}

#[test]
fn main_lock_capability_does_not_open_a_foreign_sub_cell() {
    let mut keys = KeySource::new();
    let ours = empty_lock(&mut keys);
    let theirs = empty_lock(&mut keys);
    {
        let (proof, mut guard) = ours.write().unwrap();
        guard.insert(0, SubCell::new(&proof, 1));
    }
    {
        let (proof, mut guard) = theirs.write().unwrap();
        guard.insert(0, SubCell::new(&proof, 2));
    }
    let (our_proof, our_guard) = ours.read().unwrap();
    let (their_proof, their_guard) = theirs.read().unwrap();
    assert!(our_guard.get(&0).unwrap().opens_with(&our_proof));
    assert!(their_guard.get(&0).unwrap().opens_with(&their_proof));
    assert!(!our_guard.get(&0).unwrap().opens_with(&their_proof));
    assert!(!their_guard.get(&0).unwrap().opens_with(&our_proof));
}

#[test]
fn main_lock_poisoned_outcome_keeps_capability_and_guard() {
    let mut keys = KeySource::new();
    let data = empty_lock(&mut keys);
    {
        let (proof, mut guard) = data.write().unwrap();
        guard.insert(0, SubCell::new(&proof, 42));
    }
    let poisoned: LockResult<_> = match data.write() {
        Ok(pair) => Err(PoisonError::new(pair)),
        Err(poison) => Err(poison),
    };
    match poisoned {
        Ok(_) => panic!("the outcome was made a poisoned one"),
        Err(mut poison) => {
            {
                let (proof, guard) = poison.get_mut();
                *guard.get_mut(&0).unwrap().borrow_mut(proof) = 43;
            }
            let (proof, guard) = poison.into_inner();
            let cell = guard.get(&0).unwrap();
            assert!(cell.opens_with_mut(&proof));
            assert_eq!(*cell.borrow(&proof), 43);
        }
    }
    let (proof, guard) = data.read().unwrap();
    assert_eq!(*guard.get(&0).unwrap().borrow(&proof), 43);
}

#[test]
fn main_lock_and_its_parts_can_cross_threads() {
    fn crosses_threads<T: Send + Sync>() {}
    crosses_threads::<MainLock<State>>();
    crosses_threads::<SubCell<usize>>();
    crosses_threads::<KeySource>();
}
