//! Whether and how the picker shows file names.

use vstd::prelude::*;

verus! {

/// Whether the picker shows the name of a record's file, and how many of the
/// last parts of its path.
#[derive(Debug, Clone, Copy, PartialEq, Eq, Structural)]
pub struct Filename {
    pub enable: bool,
    pub depth: usize,
}

fn default_enable() -> (b: bool)
    ensures
        b,
{
    true
}

fn default_depth() -> (d: usize)
    ensures
        d == 2,
{
    2
}

impl Default for Filename {
    fn default() -> (f: Self)
        ensures
            f == (Filename { enable: true, depth: 2 }),
    {
        Self { enable: default_enable(), depth: default_depth() }
    }
}

} // verus!
