//! Navigation history for an editor: a list of remembered cursor positions with
//! one movable cursor, ranked by a frecency score.

pub mod common_types;
pub mod config;
pub mod error;
pub mod functions;
pub mod highlights;
pub mod state;
pub mod ui;
pub mod viml;
