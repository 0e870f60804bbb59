//! The namespace in which the editor keeps the marks of the records.

use vstd::prelude::*;

verus! {

/// A namespace of the editor, by its identifier.
#[derive(Clone, Copy, Debug, PartialEq, Eq, Structural)]
pub struct Namespace {
    pub id: u32,
}

impl From<u32> for Namespace {
    fn from(id: u32) -> (n: Self)
        ensures
            n.id == id,
    {
        Self { id }
    }
}

impl vstd::std_specs::convert::FromSpecImpl<u32> for Namespace {
    open spec fn obeys_from_spec() -> bool {
        true
    }

    open spec fn from_spec(id: u32) -> Self {
        Self { id }
    }
}

impl Namespace {
    /// The identifier of the namespace in the editor.
    pub fn id(self) -> (id: u32)
        ensures
            id == self.id,
    {
        self.id
    }
}

} // verus!
