//! What the command line offers behind `follow`.

use crate::common_types::text::str_eq;
use crate::viml::compass_args::CompassArgs;
use vstd::prelude::*;
use vstd::string::*;

verus! {

/// The texts of a list of strings.
pub open spec fn spec_texts(v: Seq<String>) -> Seq<Seq<char>> {
    Seq::new(v.len(), |i: int| v[i]@)
}

/// What stands behind `follow` and its first subcommand, if one is typed:
/// `buf`, and behind `buf` its arguments.
pub open spec fn spec_follow_completion(sub: Option<Seq<char>>) -> Seq<Seq<char>> {
    if sub == Some("buf"@) {
        seq!["target="@, "max_windows="@]
    } else {
        seq!["buf"@]
    }
}

/// What the command line offers behind the words of a `follow` command.
pub fn get_follow_completion(cargs: &CompassArgs) -> (v: Vec<String>)
    ensures
        spec_texts(v@) == spec_follow_completion(cargs.spec_first_sub_cmd()),
{
    let mut v: Vec<String> = Vec::new();
    match cargs.first_sub_cmd() {
        Some(first) if str_eq(first, "buf") => {
            v.push(String::from_str("target="));
            v.push(String::from_str("max_windows="));
        },
        _ => {
            v.push(String::from_str("buf"));
        },
    }
    v
}

} // verus!
