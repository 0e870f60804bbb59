//! The `pop` command.

pub mod completion;
pub mod opts;
