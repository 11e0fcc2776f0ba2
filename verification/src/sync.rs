//! Coarse locks for use across threads.

pub mod atomlock;
pub mod flags;
pub mod poison;
pub mod prooflock;
mod std_lock;
