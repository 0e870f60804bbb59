//! What the command line offers behind `pop`.

use crate::common_types::text::str_eq;
use crate::functions::follow::completion::spec_texts;
use crate::viml::compass_args::CompassArgs;
use vstd::prelude::*;
use vstd::string::*;

verus! {

/// What stands behind `pop` and its first subcommand, if one is typed:
/// `relative`, and behind that its argument.
pub open spec fn spec_pop_completion(sub: Option<Seq<char>>) -> Seq<Seq<char>> {
    if sub == Some("relative"@) {
        seq!["direction="@]
    } else {
        seq!["relative"@]
    }
}

/// What the command line offers behind the words of a `pop` command.
pub fn get_pop_completion(cargs: &CompassArgs) -> (v: Vec<String>)
    ensures
        spec_texts(v@) == spec_pop_completion(cargs.spec_first_sub_cmd()),
{
    let mut v: Vec<String> = Vec::new();
    match cargs.first_sub_cmd() {
        Some(first) if str_eq(first, "relative") => {
            v.push(String::from_str("direction="));
        },
        _ => {
            v.push(String::from_str("relative"));
        },
    }
    v
}

} // verus!
