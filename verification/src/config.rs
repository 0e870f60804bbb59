//! What a user can configure.

pub mod common;
pub mod frecency;
pub mod marks;
pub mod persistence;
pub mod picker;
pub mod tracker;

use frecency::FrecencyConfig;
use marks::MarksConfig;
use persistence::PersistenceConfig;
use picker::PickerConfig;
use tracker::TrackerConfig;
use vstd::prelude::*;

verus! {

/// All that a user can configure.
#[derive(Debug)]
pub struct Config {
    pub picker: PickerConfig,
    pub tracker: TrackerConfig,
    pub marks: MarksConfig,
    pub persistence: PersistenceConfig,
    pub frecency: FrecencyConfig,
}

impl Config {
    /// The configuration of a user who has set nothing but, perhaps, where the
    /// list is kept.
    pub fn with_persistence(persistence: PersistenceConfig) -> (conf: Self)
        ensures
            conf.persistence == persistence,
            conf.frecency.cooldown_seconds == 60,
            conf.tracker.enable,
    {
        Self {
            picker: PickerConfig::default(),
            tracker: TrackerConfig::default(),
            marks: MarksConfig::default(),
            persistence,
            frecency: FrecencyConfig::default(),
        }
    }
}

} // verus!
