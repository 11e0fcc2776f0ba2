//! Nested shared/exclusive access control.
//!
//! A coarse lock (or single-threaded cell) protects a container value, and that
//! value may hold many sub-cells. A sub-cell is readable only while the coarse
//! lock is held, and writable only while it is held for writing; opening a
//! sub-cell costs one comparison (capability tokens) or two flag loads
//! (liveness flags), never a second lock.
//!
//! * [`key`]: the identity keys that tell coarse locks apart.
//! * [`token`]: capability tokens, and the sub-cells that they open.
//! * [`cell::proofcell`]: a `RefCell` that mints capabilities.
//! * [`sync::prooflock`]: an `RwLock` that mints capabilities.
//! * [`sync::atomlock`]: an `RwLock` whose sub-cells watch a pair of flags.
//! * [`sync::flags`]: the rules that those flags follow.
//! * [`sync::poison`]: the outcomes of acquiring a lock.

pub mod cell;
pub mod key;
pub mod sync;
pub mod token;
