//! The two ways to go through the list.

use crate::common_types::text::str_eq;
use vstd::prelude::*;

verus! {

/// Back is towards the past, forward towards the future.
#[derive(Clone, Copy, PartialEq, Eq, Debug, Structural)]
pub enum Direction {
    Back,
    Forward,
}

impl Default for Direction {
    fn default() -> (d: Self)
        ensures
            d == Direction::Back,
    {
        Direction::Back
    }
}

impl Direction {
    /// The direction that the word `name` stands for.
    pub open spec fn spec_from_name(name: Seq<char>) -> Option<Direction> {
        if name == "back"@ {
            Some(Direction::Back)
        } else if name == "forward"@ {
            Some(Direction::Forward)
        } else {
            None
        }
    }

    /// The direction that the word `name` stands for: `back` or `forward`.
    pub fn from_name(name: &str) -> (d: Option<Self>)
        ensures
            d == Self::spec_from_name(name@),
    {
        if str_eq(name, "back") {
            Some(Direction::Back)
        } else if str_eq(name, "forward") {
            Some(Direction::Forward)
        } else {
            None
        }
    }
}

} // verus!
