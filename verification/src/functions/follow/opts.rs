//! The options of `follow`.

use crate::common_types::text::{parse_i32, spec_parse_i32, str_eq};
use crate::config::picker::window_grid_size::{spec_grid_size_fault, WindowGridSize};
use crate::error::{Error, InputError};
use crate::functions::{
    no_subcommand, spec_no_subcommand, spec_unknown_subcommand, unknown_subcommand,
};
use crate::viml::compass_args::CompassArgs;
use vstd::prelude::*;
use vstd::string::*;

verus! {

/// The buffer to follow, or `None` for the one the cursor is in, and the most
/// windows to open.
#[derive(Debug, Clone, Copy)]
pub struct BufOptions {
    pub target: Option<i32>,
    pub max_windows: WindowGridSize,
}

/// What to follow.
#[derive(Debug, Clone, Copy)]
pub enum FollowOptions {
    Buf(BufOptions),
}

impl BufOptions {
    /// The options of a user who gave none, but for the most windows.
    pub fn with_max_windows(max_windows: WindowGridSize) -> (o: Self)
        ensures
            o.target is None,
            o.max_windows == max_windows,
    {
        Self { target: None, max_windows }
    }
}

impl FollowOptions {
    /// The handle of the buffer `parsed` that was read from `text`, or the
    /// error that says that `text` is no handle.
    pub fn target_of(text: &str, parsed: Option<i32>) -> (r: Result<i32, Error>)
        ensures
            match parsed {
                Some(buf) => r == Ok::<i32, Error>(buf),
                None => r matches Err(e) && e.spec_is_int(text@),
            },
    {
        match parsed {
            Some(buf) => Ok(buf),
            None => Err(Error::Input(InputError::Int(String::from_str(text)))),
        }
    }

    /// The options that the words of a `follow` command stand for: behind
    /// `buf` the target, if it is given and a handle, and the most windows,
    /// if they are given and a grid size; else 6.
    pub fn try_from(value: &CompassArgs) -> (r: Result<Self, Error>)
        ensures
            match value.spec_first_sub_cmd() {
                None => r matches Err(e) && e.spec_is_arguments(spec_no_subcommand("follow"@)),
                Some(sub) => if sub == "buf"@ {
                    let target = value.spec_get("target"@);
                    let windows = value.spec_get("max_windows"@);
                    if target matches Some(text) && spec_parse_i32(text) is None {
                        r matches Err(e) && e.spec_is_int(target->0)
                    } else if windows matches Some(text) && !(spec_parse_i32(text) matches Some(
                        num,
                    ) && spec_grid_size_fault(num as int) is None) {
                        r is Err
                    } else {
                        r matches Ok(FollowOptions::Buf(o)) && o.target == (match target {
                            Some(text) => spec_parse_i32(text),
                            None => None,
                        }) && o.max_windows@ == (match windows {
                            Some(text) => spec_parse_i32(text)->0 as int,
                            None => 6,
                        })
                    }
                } else {
                    r matches Err(e) && e.spec_is_arguments(
                        spec_unknown_subcommand("follow"@, sub),
                    )
                },
            },
    {
        let sub = match value.first_sub_cmd() {
            Some(sub) => sub,
            None => return Err(no_subcommand("follow")),
        };
        if str_eq(sub, "buf") {
            let target = match value.get("target") {
                Some(text) => match Self::target_of(text, parse_i32(text)) {
                    Ok(buf) => Some(buf),
                    Err(e) => return Err(e),
                },
                None => None,
            };
            let max_windows = match value.get("max_windows") {
                Some(text) => match WindowGridSize::try_from_str(text) {
                    Ok(size) => size,
                    Err(e) => return Err(e),
                },
                None => WindowGridSize::default(),
            };
            Ok(Self::Buf(BufOptions { target, max_windows }))
        } else {
            Err(unknown_subcommand("follow", sub))
        }
    }
}

} // verus!
