//! Splitting a bidirectional endpoint into a read half and a write half that
//! can be owned separately, told apart from the halves of every other split,
//! and joined again.

pub mod laws;
pub mod split;
pub mod token;
