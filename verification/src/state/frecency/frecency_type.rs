//! The kinds of event a frecency score counts.

use crate::config::frecency::VisitTypeConfig;
use crate::state::frecency::frecency_weight::FrecencyWeight;
use vstd::prelude::*;

verus! {

/// What happened to a record.
#[derive(Clone, Copy, Debug, PartialEq, Eq, Hash, Structural)]
pub enum FrecencyType {
    Create,
    Update,
    RelativeGoto,
    AbsoluteGoto,
}

impl FrecencyType {
    /// The weight that `conf` gives to this kind of event.
    pub open spec fn spec_weight(self, conf: VisitTypeConfig) -> FrecencyWeight {
        match self {
            Self::Create => conf.create,
            Self::Update => conf.update,
            Self::RelativeGoto => conf.relative_goto,
            Self::AbsoluteGoto => conf.absolute_goto,
        }
    }

    /// The weight that `conf` gives to this kind of event.
    pub fn weight(self, conf: &VisitTypeConfig) -> (w: FrecencyWeight)
        ensures
            w == self.spec_weight(*conf),
    {
        match self {
            Self::Create => conf.create,
            Self::Update => conf.update,
            Self::RelativeGoto => conf.relative_goto,
            Self::AbsoluteGoto => conf.absolute_goto,
        }
    }
}

} // verus!
