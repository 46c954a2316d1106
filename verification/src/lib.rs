//! Flow-sensitive abstract interpretation over a lowered control-flow graph,
//! used to find misuse of raw-pointer ownership, lock and guard protocols and
//! unchecked preconditions.

pub mod analysis;
pub mod checkers;
pub mod collections;
pub mod mir;
pub mod text;
