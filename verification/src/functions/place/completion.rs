//! What the command line offers behind `place`.

use crate::functions::follow::completion::spec_texts;
use crate::viml::compass_args::CompassArgs;
use vstd::prelude::*;
use vstd::string::*;

verus! {

/// Behind `place` stands `change`, whatever was typed.
pub fn get_place_completion(cargs: &CompassArgs) -> (v: Vec<String>)
    ensures
        spec_texts(v@) == seq!["change"@],
{
    let mut v: Vec<String> = Vec::new();
    v.push(String::from_str("change"));
    v
}

} // verus!
