//! Types that several parts of the configuration share.

pub mod sign;
