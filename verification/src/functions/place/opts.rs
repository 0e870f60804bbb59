//! The options of `place`.

use crate::common_types::text::str_eq;
use crate::error::Error;
use crate::functions::{
    no_subcommand, spec_no_subcommand, spec_unknown_subcommand, unknown_subcommand,
};
use crate::viml::compass_args::CompassArgs;
use vstd::prelude::*;

verus! {

/// A record of a change, placed by hand where the cursor is.
#[derive(Debug, Clone, Copy, PartialEq, Eq, Structural)]
pub struct ChangeOptions {}

impl Default for ChangeOptions {
    fn default() -> (o: Self)
        ensures
            o == (ChangeOptions {  }),
    {
        Self {  }
    }
}

/// What to place.
#[derive(Debug, Clone, Copy, PartialEq, Eq, Structural)]
pub enum PlaceOptions {
    Change(ChangeOptions),
}

impl Default for PlaceOptions {
    fn default() -> (o: Self)
        ensures
            o == PlaceOptions::Change(ChangeOptions {  }),
    {
        PlaceOptions::Change(ChangeOptions {  })
    }
}

impl PlaceOptions {
    /// The options that the words of a `place` command stand for.
    pub fn try_from(value: &CompassArgs) -> (r: Result<Self, Error>)
        ensures
            r is Ok == (value.spec_first_sub_cmd() == Some("change"@)),
            r matches Ok(o) ==> o == PlaceOptions::Change(ChangeOptions {  }),
            r matches Err(e) ==> match value.spec_first_sub_cmd() {
                None => e.spec_is_arguments(spec_no_subcommand("place"@)),
                Some(sub) => e.spec_is_arguments(spec_unknown_subcommand("place"@, sub)),
            },
    {
        let sub = match value.first_sub_cmd() {
            Some(sub) => sub,
            None => return Err(no_subcommand("place")),
        };
        if str_eq(sub, "change") {
            Ok(Self::Change(ChangeOptions {  }))
        } else {
            Err(unknown_subcommand("place", sub))
        }
    }
}

} // verus!
