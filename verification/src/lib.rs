//! Decision logic of a small on-chain governance system: organisations
//! create proposals with a fixed list of options, each identity casts at
//! most one vote per proposal inside the voting window, and the proposal's
//! authority closes it once the window has passed.
//!
//! The library decides and nothing else. Its callers authenticate the
//! identity, read the clock, load the records and store what comes back.

pub mod dao;
pub mod error;
pub mod identity;
pub mod numbering;
pub mod poll;
pub mod proposal;
pub mod text;
pub mod vote;
