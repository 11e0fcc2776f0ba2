//! The two flags of a liveness record, and the rules they follow.
//!
//! A coarse lock tells its liveness record of three events: a write guard was
//! acquired, a write guard was released, the lock itself was dropped. The lock
//! serialises them: between two acquisitions of the write guard lies its
//! release, and the drop comes last. A sub-cell that looks at the record
//! decides from the two flags alone whether it may be read or written.

use vstd::prelude::*;

verus! {

/// What one look at a liveness record shows.
#[derive(Debug, Clone, Copy, PartialEq, Eq, Structural)]
pub struct Flags {
    /// `true` until the coarse lock is dropped.
    pub is_alive: bool,
    /// `true` while a write guard of the coarse lock is outstanding.
    pub is_mut: bool,
}

/// What a coarse lock tells its liveness record.
#[derive(Debug, Clone, Copy, PartialEq, Eq, Structural)]
pub enum Event {
    /// A write guard was handed out.
    WriteAcquired,
    /// The write guard was released.
    WriteReleased,
    /// The coarse lock was dropped.
    LockDropped,
}

/// Why a sub-cell refused to be opened.
#[derive(Debug, Clone, Copy, PartialEq, Eq, Structural)]
pub enum AccessError {
    /// The coarse lock that owned the sub-cell was dropped.
    Released,
    /// The sub-cell was to be written, but the coarse lock is not held for
    /// writing.
    NotMutable,
}

impl Event {
    /// Whether this event ends the life of the coarse lock.
    pub open spec fn ends_life(self) -> bool {
        self == Event::LockDropped
    }

    /// Whether a write guard is outstanding right after this event.
    pub open spec fn leaves_writer(self) -> bool {
        self == Event::WriteAcquired
    }

    /// Whether the record has to clear `is_alive` on this event.
    pub fn clears_alive(self) -> (yes: bool)
        ensures
            yes == self.ends_life(),
        opens_invariants none
        no_unwind
    {
        match self {
            Event::LockDropped => true,
            Event::WriteAcquired => false,
            Event::WriteReleased => false,
        }
    }

    /// The value that the record has to store in `is_mut` on this event.
    pub fn sets_mut(self) -> (value: bool)
        ensures
            value == self.leaves_writer(),
        opens_invariants none
        no_unwind
    {
        match self {
            Event::WriteAcquired => true,
            Event::WriteReleased => false,
            Event::LockDropped => false,
        }
    }
}

impl Flags {
    /// The flags of a coarse lock that was just created.
    pub open spec fn fresh() -> Flags {
        Flags { is_alive: true, is_mut: false }
    }

    /// The flags after `event`: a dead lock stays dead, and `is_mut` follows
    /// the write guard.
    pub open spec fn after(self, event: Event) -> Flags {
        Flags { is_alive: self.is_alive && !event.ends_life(), is_mut: event.leaves_writer() }
    }

    /// Whether a sub-cell may be read under these flags.
    pub open spec fn readable(self) -> bool {
        self.is_alive
    }

    /// Whether a sub-cell may be written under these flags.
    pub open spec fn writable(self) -> bool {
        self.is_alive && self.is_mut
    }

    /// What a sub-cell answers to a reader under these flags.
    pub open spec fn read_verdict(self) -> Result<(), AccessError> {
        if self.is_alive {
            Ok(())
        } else {
            Err(AccessError::Released)
        }
    }

    /// What a sub-cell answers to a writer under these flags. A dropped lock
    /// is reported before a missing write guard.
    pub open spec fn write_verdict(self) -> Result<(), AccessError> {
        if !self.is_alive {
            Err(AccessError::Released)
        } else if !self.is_mut {
            Err(AccessError::NotMutable)
        } else {
            Ok(())
        }
    }

    /// The flags of a coarse lock that was just created: alive, and not held
    /// for writing.
    pub fn new() -> (flags: Flags)
        ensures
            flags == Flags::fresh(),
    {
        Flags { is_alive: true, is_mut: false }
    }

    /// The flags that follow these on `event`.
    pub fn apply(self, event: Event) -> (next: Flags)
        ensures
            next == self.after(event),
    {
        Flags { is_alive: self.is_alive && !event.clears_alive(), is_mut: event.sets_mut() }
    }

    /// Decides whether a sub-cell may be read.
    pub fn check_read(self) -> (verdict: Result<(), AccessError>)
        ensures
            verdict == self.read_verdict(),
            verdict is Ok <==> self.readable(),
    {
        if self.is_alive {
            Ok(())
        } else {
            Err(AccessError::Released)
        }
    }

    /// Decides whether a sub-cell may be written.
    pub fn check_write(self) -> (verdict: Result<(), AccessError>)
        ensures
            verdict == self.write_verdict(),
            verdict is Ok <==> self.writable(),
    {
        if !self.is_alive {
            Err(AccessError::Released)
        } else if !self.is_mut {
            Err(AccessError::NotMutable)
        } else {
            Ok(())
        }
    }
}

/// The flags that `events`, taken in order, lead to from `start`.
pub open spec fn replay(start: Flags, events: Seq<Event>) -> Flags
    decreases events.len(),
{
    if events.len() == 0 {
        start
    } else {
        replay(start, events.drop_last()).after(events.last())
    }
}

/// Once the coarse lock is dropped, nothing brings it back: whatever the
/// record is told afterwards, no sub-cell can be read or written.
pub proof fn lemma_dead_stays_dead(start: Flags, events: Seq<Event>)
    requires
        !start.is_alive,
    ensures
        !replay(start, events).readable(),
        !replay(start, events).writable(),
        replay(start, events).read_verdict() == Err::<(), AccessError>(AccessError::Released),
        replay(start, events).write_verdict() == Err::<(), AccessError>(AccessError::Released),
    decreases events.len(),
{
    if events.len() > 0 {
        lemma_dead_stays_dead(start, events.drop_last());
    }
}

/// A history in which the coarse lock was dropped leaves every sub-cell
/// closed, for reading and for writing, whatever else the history holds and
/// whatever the flags were at its start.
pub proof fn lemma_dropped_lock_closes_cells(start: Flags, events: Seq<Event>)
    requires
        events.contains(Event::LockDropped),
    ensures
        !replay(start, events).readable(),
        !replay(start, events).writable(),
        replay(start, events).read_verdict() == Err::<(), AccessError>(AccessError::Released),
        replay(start, events).write_verdict() == Err::<(), AccessError>(AccessError::Released),
    decreases events.len(),
{
    let index = choose|index: int| 0 <= index < events.len() && events[index] == Event::LockDropped;
    if index < events.len() - 1 {
        assert(events.drop_last()[index] == Event::LockDropped);
        lemma_dropped_lock_closes_cells(start, events.drop_last());
    }
}

/// The sub-cells of a coarse lock are readable exactly as long as the lock was
/// not dropped.
pub proof fn lemma_readable_until_dropped(events: Seq<Event>)
    ensures
        replay(Flags::fresh(), events).readable() <==> !events.contains(Event::LockDropped),
    decreases events.len(),
{
    if events.len() > 0 {
        let earlier = events.drop_last();
        lemma_readable_until_dropped(earlier);
        if earlier.contains(Event::LockDropped) {
            let index = choose|index: int|
                0 <= index < earlier.len() && earlier[index] == Event::LockDropped;
            assert(events[index] == Event::LockDropped);
        }
        if events.contains(Event::LockDropped) && events.last() != Event::LockDropped {
            let index = choose|index: int|
                0 <= index < events.len() && events[index] == Event::LockDropped;
            assert(earlier[index] == Event::LockDropped);
        }
    }
}

/// `is_mut` is set exactly while a write guard is outstanding, that is, when
/// the last thing the lock told the record is that a write guard was
/// acquired; and the sub-cells of a coarse lock are writable exactly then,
/// provided the lock was not dropped. As the lock hands out its write guard to
/// one holder at a time and to nobody while a read guard is out, the flags
/// never allow a write beside another access.
pub proof fn lemma_writable_while_write_guard_is_out(events: Seq<Event>)
    ensures
        replay(Flags::fresh(), events).is_mut <==> (events.len() > 0 && events.last()
            == Event::WriteAcquired),
        replay(Flags::fresh(), events).writable() <==> (!events.contains(Event::LockDropped)
            && events.len() > 0 && events.last() == Event::WriteAcquired),
{
    lemma_readable_until_dropped(events);
}

} // verus!
