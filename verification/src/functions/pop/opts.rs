//! The options of `pop`.

use crate::common_types::direction::Direction;
use crate::common_types::text::str_eq;
use crate::error::Error;
use crate::functions::{
    bad_direction, no_direction, no_subcommand, spec_bad_direction, spec_no_direction,
    spec_no_subcommand, spec_unknown_subcommand, unknown_subcommand,
};
use crate::viml::compass_args::CompassArgs;
use vstd::prelude::*;

verus! {

/// The record next to the cursor of the list, in a direction.
#[derive(Debug, Clone, Copy, PartialEq, Eq, Structural)]
pub struct RelativeOptions {
    pub direction: Direction,
}

impl Default for RelativeOptions {
    fn default() -> (o: Self)
        ensures
            o.direction == Direction::Back,
    {
        Self { direction: Direction::Back }
    }
}

/// Which record to remove.
#[derive(Debug, Clone, Copy, PartialEq, Eq, Structural)]
pub enum PopOptions {
    Relative(RelativeOptions),
}

impl Default for PopOptions {
    fn default() -> (o: Self)
        ensures
            o == PopOptions::Relative(RelativeOptions { direction: Direction::Back }),
    {
        Self::Relative(RelativeOptions::default())
    }
}

/// The direction that the argument `direction` names, if it is given and
/// names one.
pub open spec fn spec_direction_of(value: CompassArgs) -> Option<Direction> {
    match value.spec_get("direction"@) {
        Some(name) => Direction::spec_from_name(name),
        None => None,
    }
}

/// The direction that the argument `direction` names: an error where the
/// argument is missing, another where it names none.
pub(crate) fn direction_of(value: &CompassArgs) -> (r: Result<Direction, Error>)
    ensures
        match r {
            Ok(d) => spec_direction_of(*value) == Some(d),
            Err(e) => spec_direction_of(*value) is None && if value.spec_get("direction"@) is None {
                e.spec_is_arguments(spec_no_direction())
            } else {
                e.spec_is_enum_parse(spec_bad_direction())
            },
        },
{
    match value.get("direction") {
        None => Err(no_direction()),
        Some(name) => match Direction::from_name(name) {
            Some(d) => Ok(d),
            None => Err(bad_direction()),
        },
    }
}

impl PopOptions {
    /// The options that the words of a `pop` command stand for.
    pub fn try_from(value: &CompassArgs) -> (r: Result<Self, Error>)
        ensures
            match r {
                Ok(o) => value.spec_first_sub_cmd() == Some("relative"@) && spec_direction_of(
                    *value,
                ) == Some(o->0.direction),
                Err(e) => match value.spec_first_sub_cmd() {
                    None => e.spec_is_arguments(spec_no_subcommand("pop"@)),
                    Some(sub) => if sub != "relative"@ {
                        e.spec_is_arguments(spec_unknown_subcommand("pop"@, sub))
                    } else if value.spec_get("direction"@) is None {
                        e.spec_is_arguments(spec_no_direction())
                    } else {
                        spec_direction_of(*value) is None && e.spec_is_enum_parse(
                            spec_bad_direction(),
                        )
                    },
                },
            },
    {
        let sub = match value.first_sub_cmd() {
            Some(sub) => sub,
            None => return Err(no_subcommand("pop")),
        };
        if str_eq(sub, "relative") {
            match direction_of(value) {
                Ok(direction) => Ok(Self::Relative(RelativeOptions { direction })),
                Err(e) => Err(e),
            }
        } else {
            Err(unknown_subcommand("pop", sub))
        }
    }
}

} // verus!
