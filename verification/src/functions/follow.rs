//! The `follow` command.

pub mod completion;
pub mod keys;
pub mod opts;
