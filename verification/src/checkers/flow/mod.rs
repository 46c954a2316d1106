//! Checkers that read the dataflow state along paths.

pub mod epoch_guard;
pub mod lock_state;
pub mod ownership;
