//! The `place` command.

pub mod completion;
pub mod opts;
