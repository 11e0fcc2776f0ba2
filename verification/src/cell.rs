//! Coarse cells for a single thread of control.

pub mod proofcell;
