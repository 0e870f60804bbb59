//! How near a change must be to a record to move it instead of making a new
//! one.

use vstd::prelude::*;

verus! {

/// Distances in one dimension. A change within `single_max_distance` is near
/// whatever the other dimension says; within `combined_max_distance` it is
/// near if the other dimension agrees.
#[derive(Debug, Clone, Copy)]
pub struct Range {
    pub single_max_distance: Option<usize>,
    pub combined_max_distance: Option<usize>,
}

/// How near, in lines and in columns, a change must be to a record to move
/// it. Where a dimension has no range every distance is near in it.
#[derive(Debug, Clone, Copy)]
pub struct UpdateRange {
    pub lines: Option<Range>,
    pub columns: Option<Range>,
}

fn default_lines() -> (r: Option<Range>)
    ensures
        r == Some(Range { single_max_distance: Some(10), combined_max_distance: Some(25) }),
{
    Some(Range { single_max_distance: Some(10), combined_max_distance: Some(25) })
}

fn default_columns() -> (r: Option<Range>)
    ensures
        r == Some(Range { single_max_distance: None, combined_max_distance: Some(25) }),
{
    Some(Range { single_max_distance: None, combined_max_distance: Some(25) })
}

impl Default for UpdateRange {
    fn default() -> (conf: Self)
        ensures
            conf.lines == Some(
                Range { single_max_distance: Some(10), combined_max_distance: Some(25) },
            ),
            conf.columns == Some(
                Range { single_max_distance: None, combined_max_distance: Some(25) },
            ),
    {
        Self { lines: default_lines(), columns: default_columns() }
    }
}

} // verus!
