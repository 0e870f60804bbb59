//! What the command line offers behind `goto`.

use crate::common_types::text::str_eq;
use crate::functions::follow::completion::spec_texts;
use crate::viml::compass_args::CompassArgs;
use vstd::prelude::*;
use vstd::string::*;

verus! {

/// What stands behind `goto` and its first subcommand, if one is typed:
/// `relative` and `absolute`, and behind each its argument.
pub open spec fn spec_goto_completion(sub: Option<Seq<char>>) -> Seq<Seq<char>> {
    if sub == Some("relative"@) {
        seq!["direction="@]
    } else if sub == Some("absolute"@) {
        seq!["target="@]
    } else {
        seq!["relative"@, "absolute"@]
    }
}

/// What the command line offers behind the words of a `goto` command.
pub fn get_goto_completion(cargs: &CompassArgs) -> (v: Vec<String>)
    ensures
        spec_texts(v@) == spec_goto_completion(cargs.spec_first_sub_cmd()),
{
    let mut v: Vec<String> = Vec::new();
    match cargs.first_sub_cmd() {
        Some(first) if str_eq(first, "relative") => {
            v.push(String::from_str("direction="));
        },
        Some(first) if str_eq(first, "absolute") => {
            v.push(String::from_str("target="));
        },
        _ => {
            v.push(String::from_str("relative"));
            v.push(String::from_str("absolute"));
        },
    }
    v
}

} // verus!
