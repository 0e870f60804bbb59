//! How marks are drawn and when a change moves one.

pub mod signs;
pub mod update_range;

use signs::Signs;
use update_range::{Range, UpdateRange};
use vstd::prelude::*;

verus! {

/// How marks are drawn and when a change moves one.
#[derive(Debug)]
pub struct MarksConfig {
    pub update_range: UpdateRange,
    pub signs: Signs,
}

impl Default for MarksConfig {
    fn default() -> (conf: Self)
        ensures
            conf.update_range.lines == Some(
                Range { single_max_distance: Some(10), combined_max_distance: Some(25) },
            ),
            conf.update_range.columns == Some(
                Range { single_max_distance: None, combined_max_distance: Some(25) },
            ),
            conf.signs.past.0@ == "◀"@,
            conf.signs.close_past.0@ == "◀"@,
            conf.signs.future.0@ == "▶"@,
            conf.signs.close_future.0@ == "▶"@,
    {
        Self { update_range: UpdateRange::default(), signs: Signs::default() }
    }
}

} // verus!
