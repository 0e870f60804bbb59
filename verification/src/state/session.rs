//! What is written out of a list, and how a list is made of it again.

pub mod data_session;
