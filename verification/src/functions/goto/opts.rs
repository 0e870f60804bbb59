//! The options of `goto`.

use crate::common_types::direction::Direction;
use crate::common_types::text::{parse_usize, spec_parse_usize, str_eq};
use crate::common_types::timestamp::Timestamp;
use crate::error::{Error, InputError};
use crate::functions::pop::opts::{direction_of, spec_direction_of};
use crate::functions::{
    no_subcommand, spec_bad_direction, spec_no_direction, spec_no_subcommand,
    spec_unknown_subcommand, unknown_subcommand,
};
use crate::state::frecency::frecency_type::FrecencyType;
use crate::state::record::Tick;
use crate::viml::compass_args::CompassArgs;
use vstd::prelude::*;
use vstd::string::*;

verus! {

/// A step from the cursor of the list, in a direction.
#[derive(Debug, Clone, Copy, PartialEq, Eq, Structural)]
pub struct RelativeOptions {
    pub direction: Direction,
}

impl Default for RelativeOptions {
    fn default() -> (o: Self)
        ensures
            o.direction == Direction::Back,
    {
        Self { direction: Direction::Back }
    }
}

/// A record named by its buffer and the tick of its change.
#[derive(Debug, Clone, Copy, PartialEq, Eq)]
pub struct TickTarget {
    pub buf: i32,
    pub tick: Tick,
}

/// A record named by its buffer and the time of its latest event.
#[derive(Debug, Clone, Copy, PartialEq, Eq)]
pub struct TimeTarget {
    pub buf: i32,
    pub timestamp: Timestamp,
}

/// A record named by what it is, not by where the cursor of the list stands.
#[derive(Debug, Clone, Copy, PartialEq, Eq)]
pub enum AbsoluteTarget {
    Time(TimeTarget),
    Tick(TickTarget),
    Index(usize),
}

/// A record to go to, wherever the cursor of the list stands.
#[derive(Debug, Clone, Copy, PartialEq, Eq)]
pub struct AbsoluteOptions {
    pub target: AbsoluteTarget,
}

/// Where to go.
#[derive(Debug, Clone, Copy, PartialEq, Eq)]
pub enum GotoOptions {
    Relative(RelativeOptions),
    Absolute(AbsoluteOptions),
}

impl Default for GotoOptions {
    fn default() -> (o: Self)
        ensures
            o == GotoOptions::Relative(RelativeOptions { direction: Direction::Back }),
    {
        Self::Relative(RelativeOptions::default())
    }
}

/// What the words of a `goto` command ask for. A target by tick or by time is
/// still the text that names it.
#[derive(Debug, Clone, Copy, PartialEq, Eq)]
pub enum GotoRequest<'a> {
    Relative(Direction),
    Tick(&'a str),
    Time(&'a str),
    Index(usize),
}

/// The words that say that `absolute` stands without a target.
pub open spec fn spec_no_coordinates() -> Seq<char> {
    "have chosen `absolute` but did not provide coordinates in a valid format"@
}

impl GotoOptions {
    /// The kind of event that going where the options say is.
    pub fn frecency_type(&self) -> (typ: FrecencyType)
        ensures
            typ == match *self {
                GotoOptions::Relative(_) => FrecencyType::RelativeGoto,
                GotoOptions::Absolute(_) => FrecencyType::AbsoluteGoto,
            },
    {
        match self {
            GotoOptions::Relative(_) => FrecencyType::RelativeGoto,
            GotoOptions::Absolute(_) => FrecencyType::AbsoluteGoto,
        }
    }

    /// The target by index `parsed` that was read from `text`, or the error
    /// that says that `text` is no index.
    pub fn index_request<'a>(text: &str, parsed: Option<usize>) -> (r: Result<
        GotoRequest<'a>,
        Error,
    >)
        ensures
            match parsed {
                Some(i) => r == Ok::<GotoRequest<'a>, Error>(GotoRequest::Index(i)),
                None => r matches Err(e) && e.spec_is_int(text@),
            },
    {
        match parsed {
            Some(i) => Ok(GotoRequest::Index(i)),
            None => Err(Error::Input(InputError::Int(String::from_str(text)))),
        }
    }

    /// What the words of a `goto` command ask for. Behind `relative` stands a
    /// direction; behind `absolute` a target by tick, else by time, else by
    /// index.
    pub fn request<'a>(value: &CompassArgs<'a>) -> (r: Result<GotoRequest<'a>, Error>)
        ensures
            match value.spec_first_sub_cmd() {
                None => r matches Err(e) && e.spec_is_arguments(spec_no_subcommand("goto"@)),
                Some(sub) => if sub == "relative"@ {
                    match spec_direction_of(*value) {
                        Some(d) => r == Ok::<GotoRequest<'a>, Error>(GotoRequest::Relative(d)),
                        None => r matches Err(e) && if value.spec_get("direction"@) is None {
                            e.spec_is_arguments(spec_no_direction())
                        } else {
                            e.spec_is_enum_parse(spec_bad_direction())
                        },
                    }
                } else if sub == "absolute"@ {
                    if let Some(text) = value.spec_get("tick"@) {
                        r matches Ok(GotoRequest::Tick(t)) && t@ == text
                    } else if let Some(text) = value.spec_get("time"@) {
                        r matches Ok(GotoRequest::Time(t)) && t@ == text
                    } else if let Some(text) = value.spec_get("index"@) {
                        match spec_parse_usize(text) {
                            Some(i) => r == Ok::<GotoRequest<'a>, Error>(GotoRequest::Index(i)),
                            None => r matches Err(e) && e.spec_is_int(text),
                        }
                    } else {
                        r matches Err(e) && e.spec_is_arguments(spec_no_coordinates())
                    }
                } else {
                    r matches Err(e) && e.spec_is_arguments(
                        spec_unknown_subcommand("goto"@, sub),
                    )
                },
            },
    {
        let sub = match value.first_sub_cmd() {
            Some(sub) => sub,
            None => return Err(no_subcommand("goto")),
        };
        if str_eq(sub, "relative") {
            match direction_of(value) {
                Ok(direction) => Ok(GotoRequest::Relative(direction)),
                Err(e) => Err(e),
            }
        } else if str_eq(sub, "absolute") {
            if let Some(text) = value.get("tick") {
                return Ok(GotoRequest::Tick(text));
            }
            if let Some(text) = value.get("time") {
                return Ok(GotoRequest::Time(text));
            }
            if let Some(text) = value.get("index") {
                return Self::index_request(text, parse_usize(text));
            }
            Err(
                Error::Input(
                    InputError::FunctionArguments(
                        String::from_str(
                            "have chosen `absolute` but did not provide coordinates in a valid format",
                        ),
                    ),
                ),
            )
        } else {
            Err(unknown_subcommand("goto", sub))
        }
    }
}

} // verus!
