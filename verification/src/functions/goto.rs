//! The `goto` command.

pub mod completion;
pub mod opts;
