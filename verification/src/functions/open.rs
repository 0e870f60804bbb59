//! The `open` command.

pub mod opts;
pub mod priority;
