use sublock::cell::proofcell::MainCell;
use sublock::key::KeySource;
use sublock::sync::prooflock::MainLock;

#[test]
fn new_source_mints_keys() {
    let mut keys = KeySource::new();
    assert!(keys.new_key().is_some());
    assert!(keys.new_key().is_some());
}

#[test]
fn source_runs_out_at_the_largest_number() {
    let mut keys = KeySource::starting_at(usize::MAX - 1);
    assert!(keys.new_key().is_some());
    assert!(keys.new_key().is_none());
    assert!(keys.new_key().is_none());
}

#[test]
fn exhausted_source_mints_nothing() {
    let mut keys = KeySource::starting_at(usize::MAX);
    assert!(keys.new_key().is_none());
}

#[test]
fn keys_of_one_source_tell_cells_and_locks_apart() {
    let mut keys = KeySource::new();
    let cell = MainCell::new(keys.new_key().unwrap(), 0u8);
    let lock = MainLock::new(keys.new_key().unwrap(), 0u8);

    let (cell_proof, _cell_guard) = cell.try_borrow_mut().unwrap();
    let (lock_proof, _lock_guard) = lock.write().unwrap();
    let in_cell = sublock::token::SubCell::new(&cell_proof, 'c');
    let in_lock = sublock::token::SubCell::new(&lock_proof, 'l');
    assert!(in_cell.opens_with_mut(&cell_proof));
    assert!(in_lock.opens_with_mut(&lock_proof));
    assert!(!in_cell.opens_with_mut(&lock_proof));
    assert!(!in_lock.opens_with_mut(&cell_proof));
}
