//! Identity keys: the values that bind sub-cells and capabilities to the one
//! coarse lock that owns them.

use vstd::prelude::*;

verus! {

/// The identity of one coarse lock.
///
/// A key can be neither copied nor built by hand: a [`KeySource`] mints it, and
/// the coarse lock that is built from it consumes it.
#[derive(Debug)]
pub struct Key {
    id: usize,
}

impl Key {
    /// The number that tells this key from every other key of its source.
    pub closed spec fn id(&self) -> usize {
        self.id
    }

    /// Gives up the key for its number, when a coarse lock takes it over.
    pub(crate) fn into_id(self) -> (id: usize)
        ensures
            id == self.id(),
    {
        self.id
    }
}

/// A counter that mints keys, each one different from all it minted before.
///
/// Keys of two sources may coincide: coarse locks whose sub-cells or
/// capabilities can meet draw their keys from one source.
#[derive(Debug)]
pub struct KeySource {
    next: usize,
}

impl KeySource {
    /// How many key numbers this source has used up: those minted, and those
    /// it was told to skip when it was made.
    pub closed spec fn count(&self) -> nat {
        self.next as nat
    }

    /// The key numbers that this source will never mint (again).
    pub open spec fn issued(&self) -> Set<usize> {
        Set::new(|id: usize| (id as nat) < self.count())
    }

    /// A source that has minted no key.
    pub fn new() -> (source: Self)
        ensures
            source.count() == 0,
    {
        KeySource { next: 0 }
    }

    /// A source whose first key has the number `first`; it treats every
    /// smaller number as already issued.
    pub fn starting_at(first: usize) -> (source: Self)
        ensures
            source.count() == first,
    {
        KeySource { next: first }
    }

    /// Mints the next key, or returns `None` when the numbers have run out.
    pub fn new_key(&mut self) -> (key: Option<Key>)
        ensures
            key is Some <==> old(self).count() < usize::MAX,
            key matches Some(minted) ==> mints(*old(self), minted, *final(self)),
            key is None ==> *final(self) == *old(self),
    {
        if self.next < usize::MAX {
            let id: usize = self.next;
            self.next = id + 1;
            Some(Key { id })
        } else {
            None
        }
    }
}

/// What one minting does: `key` gets the first number that `before` has not
/// used up, and `after` has used up that one number more.
pub open spec fn mints(before: KeySource, key: Key, after: KeySource) -> bool {
    &&& key.id() == before.count()
    &&& after.count() == before.count() + 1
}

/// A freshly minted key was never issued before, and is issued afterwards;
/// nothing else changes in what the source has issued.
pub proof fn lemma_minted_key_is_fresh(before: KeySource, key: Key, after: KeySource)
    requires
        mints(before, key, after),
    ensures
        !before.issued().contains(key.id()),
        after.issued() == before.issued().insert(key.id()),
{
    assert(after.issued() =~= before.issued().insert(key.id()));
}

/// Two keys that one source minted have different numbers: whatever the
/// source minted between the two, the later key is new. As each coarse lock
/// consumes the key it is built from, no two coarse locks that draw on one
/// source share a key.
pub proof fn lemma_minted_keys_differ(
    before_first: KeySource,
    first: Key,
    after_first: KeySource,
    before_second: KeySource,
    second: Key,
    after_second: KeySource,
)
    requires
        mints(before_first, first, after_first),
        after_first.count() <= before_second.count(),
        mints(before_second, second, after_second),
    ensures
        first.id() != second.id(),
        after_second.issued().contains(first.id()),
        after_second.issued().contains(second.id()),
{
}

} // verus!
