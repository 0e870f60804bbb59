//! What a user can ask for: the options of each command and what the command
//! line completes to.

pub mod follow;
pub mod goto;
pub mod open;
pub mod place;
pub mod pop;

use crate::common_types::text::str_eq;
use crate::error::{Error, InputError};
use crate::functions::follow::completion::{
    get_follow_completion, spec_follow_completion, spec_texts,
};
use crate::functions::goto::completion::{get_goto_completion, spec_goto_completion};
use crate::functions::place::completion::get_place_completion;
use crate::functions::pop::completion::{get_pop_completion, spec_pop_completion};
use crate::viml::compass_args::{spec_first_sub_of, spec_parses, CompassArgs};
use vstd::prelude::*;
use vstd::string::*;

verus! {

/// The commands that stand behind `Compass`.
#[derive(Debug, Clone, Copy, PartialEq, Eq, Structural)]
pub enum CommandNames {
    Follow,
    Goto,
    Open,
    Place,
    Pop,
}

impl CommandNames {
    /// The command that the word `name` names.
    pub open spec fn spec_from_name(name: Seq<char>) -> Option<CommandNames> {
        if name == "follow"@ {
            Some(CommandNames::Follow)
        } else if name == "goto"@ {
            Some(CommandNames::Goto)
        } else if name == "open"@ {
            Some(CommandNames::Open)
        } else if name == "place"@ {
            Some(CommandNames::Place)
        } else if name == "pop"@ {
            Some(CommandNames::Pop)
        } else {
            None
        }
    }

    /// The command that the word `name` names.
    pub fn from_name(name: &str) -> (r: Option<Self>)
        ensures
            r == Self::spec_from_name(name@),
    {
        if str_eq(name, "follow") {
            Some(CommandNames::Follow)
        } else if str_eq(name, "goto") {
            Some(CommandNames::Goto)
        } else if str_eq(name, "open") {
            Some(CommandNames::Open)
        } else if str_eq(name, "place") {
            Some(CommandNames::Place)
        } else if str_eq(name, "pop") {
            Some(CommandNames::Pop)
        } else {
            None
        }
    }

    /// The names of all commands.
    pub fn variants() -> (v: Vec<String>)
        ensures
            spec_texts(v@) == seq!["follow"@, "goto"@, "open"@, "place"@, "pop"@],
    {
        let mut v: Vec<String> = Vec::new();
        v.push(String::from_str("follow"));
        v.push(String::from_str("goto"));
        v.push(String::from_str("open"));
        v.push(String::from_str("place"));
        v.push(String::from_str("pop"));
        v
    }
}

/// What the command line offers behind `open`: its arguments.
pub fn get_open_completion() -> (v: Vec<String>)
    ensures
        spec_texts(v@) == seq!["record_types="@, "max_windows="@],
{
    let mut v: Vec<String> = Vec::new();
    v.push(String::from_str("record_types="));
    v.push(String::from_str("max_windows="));
    v
}

/// What the command line offers for the words typed behind `Compass`: the
/// names of the commands where the words are no command or the first names
/// none, else what the named command offers behind its first subcommand.
pub open spec fn spec_cmd_completion(words: Seq<&str>) -> Seq<Seq<char>> {
    let names = seq!["follow"@, "goto"@, "open"@, "place"@, "pop"@];
    if !spec_parses(words) {
        names
    } else {
        let sub = spec_first_sub_of(words);
        match CommandNames::spec_from_name(words[0]@) {
            Some(CommandNames::Goto) => spec_goto_completion(sub),
            Some(CommandNames::Pop) => spec_pop_completion(sub),
            Some(CommandNames::Open) => seq!["record_types="@, "max_windows="@],
            Some(CommandNames::Place) => seq!["change"@],
            Some(CommandNames::Follow) => spec_follow_completion(sub),
            None => names,
        }
    }
}

/// What the command line offers for the words typed behind `Compass`.
pub fn cmd_completion(words: Vec<&str>) -> (v: Vec<String>)
    ensures
        spec_texts(v@) == spec_cmd_completion(words@),
{
    let cargs = match CompassArgs::try_from(words) {
        Ok(cargs) => cargs,
        Err(_) => return CommandNames::variants(),
    };
    match CommandNames::from_name(cargs.main_cmd) {
        Some(CommandNames::Goto) => get_goto_completion(&cargs),
        Some(CommandNames::Pop) => get_pop_completion(&cargs),
        Some(CommandNames::Open) => get_open_completion(),
        Some(CommandNames::Place) => get_place_completion(&cargs),
        Some(CommandNames::Follow) => get_follow_completion(&cargs),
        None => CommandNames::variants(),
    }
}

/// The words that say that a command has no subcommand.
pub open spec fn spec_no_subcommand(command: Seq<char>) -> Seq<char> {
    "no `"@ + command + "` subcommand provided"@
}

/// The words that say that the subcommand `sub` of a command is not known.
pub open spec fn spec_unknown_subcommand(command: Seq<char>, sub: Seq<char>) -> Seq<char> {
    "unknown `"@ + command + "` subcommand provided: "@ + sub
}

/// The words that say that `relative` stands without a direction.
pub open spec fn spec_no_direction() -> Seq<char> {
    "have chosen `relative` but not specified the direction"@
}

/// The words that say that a word names no direction.
pub open spec fn spec_bad_direction() -> Seq<char> {
    "Matching variant not found"@
}

/// The error of a command that has no subcommand.
pub(crate) fn no_subcommand(command: &str) -> (e: Error)
    ensures
        e.spec_is_arguments(spec_no_subcommand(command@)),
{
    Error::Input(
        InputError::FunctionArguments(
            String::from_str("no `").concat(command).concat("` subcommand provided"),
        ),
    )
}

/// The error of a command whose subcommand `sub` is not known.
pub(crate) fn unknown_subcommand(command: &str, sub: &str) -> (e: Error)
    ensures
        e.spec_is_arguments(spec_unknown_subcommand(command@, sub@)),
{
    Error::Input(
        InputError::FunctionArguments(
            String::from_str("unknown `").concat(command).concat("` subcommand provided: ").concat(
                sub,
            ),
        ),
    )
}

/// The error of a `relative` subcommand without its direction.
pub(crate) fn no_direction() -> (e: Error)
    ensures
        e.spec_is_arguments(spec_no_direction()),
{
    Error::Input(
        InputError::FunctionArguments(
            String::from_str("have chosen `relative` but not specified the direction"),
        ),
    )
}

/// The error of a direction that is none.
pub(crate) fn bad_direction() -> (e: Error)
    ensures
        e.spec_is_enum_parse(spec_bad_direction()),
{
    Error::Input(InputError::EnumParse(String::from_str("Matching variant not found")))
}

} // verus!
