//! The text of a sign in the sign column.

use vstd::prelude::*;

verus! {

/// What the editor shows in the sign column beside a mark.
#[derive(Debug, Clone, PartialEq, Eq)]
pub struct SignText(pub String);

impl SignText {
    /// The text of the sign.
    pub fn as_str(&self) -> (s: &str)
        ensures
            s@ == self.0@,
    {
        self.0.as_str()
    }

    /// The text of the sign.
    pub fn into_string(self) -> (s: String)
        ensures
            s@ == self.0@,
    {
        self.0
    }
}

impl From<String> for SignText {
    fn from(value: String) -> (t: Self)
        ensures
            t.0 == value,
    {
        SignText(value)
    }
}

impl vstd::std_specs::convert::FromSpecImpl<String> for SignText {
    open spec fn obeys_from_spec() -> bool {
        true
    }

    open spec fn from_spec(value: String) -> Self {
        SignText(value)
    }
}

} // verus!
