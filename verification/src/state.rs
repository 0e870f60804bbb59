//! The navigation list, its records and their frecency score.

pub mod frecency;
pub mod namespace;
pub mod record;
pub mod session;
pub mod track_list;
pub mod tracker;
pub mod worker;
