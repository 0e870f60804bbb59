//! The words of a user command.

pub mod compass_args;
