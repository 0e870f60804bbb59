//! The weights of the frecency score.

use crate::state::frecency::frecency_weight::FrecencyWeight;
use vstd::prelude::*;

verus! {

/// One step of the recency table: an event younger than `hours` weighs
/// `weight`.
#[derive(Debug)]
pub struct BucketTime {
    pub hours: i64,
    pub weight: FrecencyWeight,
}

/// The recency table, in the order in which its steps are tried, and the
/// weight of an event older than all of them.
#[derive(Debug)]
pub struct BucketTimeConfig {
    pub thresholds: Vec<BucketTime>,
    pub fallback: FrecencyWeight,
}

/// The weight of each kind of event.
#[derive(Debug)]
pub struct VisitTypeConfig {
    pub create: FrecencyWeight,
    pub update: FrecencyWeight,
    pub relative_goto: FrecencyWeight,
    pub absolute_goto: FrecencyWeight,
}

/// How the frecency score is counted.
#[derive(Debug)]
pub struct FrecencyConfig {
    pub time_bucket: BucketTimeConfig,
    pub visit_type: VisitTypeConfig,
    /// An event is recorded only if the one before it is older than this.
    pub cooldown_seconds: i64,
}

fn default_create_visit() -> (w: FrecencyWeight)
    ensures
        w@ == 50,
{
    FrecencyWeight::from(50)
}

fn default_update_visit() -> (w: FrecencyWeight)
    ensures
        w@ == 100,
{
    FrecencyWeight::from(100)
}

fn default_relative_goto_visit() -> (w: FrecencyWeight)
    ensures
        w@ == 50,
{
    FrecencyWeight::from(50)
}

fn default_absolute_goto_visit() -> (w: FrecencyWeight)
    ensures
        w@ == 100,
{
    FrecencyWeight::from(100)
}

/// The recency table a user gets who sets none, as pairs of hours and weight.
pub open spec fn spec_default_thresholds() -> Seq<(int, int)> {
    seq![(4, 100), (14, 70), (31, 50), (90, 30)]
}

/// The steps of a recency table as pairs of hours and weight.
pub open spec fn thresholds_view(thresholds: Seq<BucketTime>) -> Seq<(int, int)> {
    thresholds.map_values(|b: BucketTime| (b.hours as int, b.weight@))
}

fn default_thresholds_bucket() -> (v: Vec<BucketTime>)
    ensures
        thresholds_view(v@) == spec_default_thresholds(),
{
    let mut v: Vec<BucketTime> = Vec::new();
    v.push(BucketTime { hours: 4, weight: FrecencyWeight::from(100) });
    v.push(BucketTime { hours: 14, weight: FrecencyWeight::from(70) });
    v.push(BucketTime { hours: 31, weight: FrecencyWeight::from(50) });
    v.push(BucketTime { hours: 90, weight: FrecencyWeight::from(30) });
    v
}

fn default_fallback_bucket() -> (w: FrecencyWeight)
    ensures
        w@ == 10,
{
    FrecencyWeight::from(10)
}

fn default_cooldown_seconds() -> (s: i64)
    ensures
        s == 60,
{
    60
}

impl Default for VisitTypeConfig {
    fn default() -> (conf: Self)
        ensures
            conf.create@ == 50,
            conf.update@ == 100,
            conf.relative_goto@ == 50,
            conf.absolute_goto@ == 100,
    {
        Self {
            create: default_create_visit(),
            update: default_update_visit(),
            relative_goto: default_relative_goto_visit(),
            absolute_goto: default_absolute_goto_visit(),
        }
    }
}

impl Default for BucketTimeConfig {
    fn default() -> (conf: Self)
        ensures
            thresholds_view(conf.thresholds@) == spec_default_thresholds(),
            conf.fallback@ == 10,
    {
        Self { thresholds: default_thresholds_bucket(), fallback: default_fallback_bucket() }
    }
}

impl Default for FrecencyConfig {
    fn default() -> (conf: Self)
        ensures
            thresholds_view(conf.time_bucket.thresholds@) == spec_default_thresholds(),
            conf.time_bucket.fallback@ == 10,
            conf.visit_type.create@ == 50,
            conf.visit_type.update@ == 100,
            conf.visit_type.relative_goto@ == 50,
            conf.visit_type.absolute_goto@ == 100,
            conf.cooldown_seconds == 60,
    {
        Self {
            time_bucket: BucketTimeConfig::default(),
            visit_type: VisitTypeConfig::default(),
            cooldown_seconds: default_cooldown_seconds(),
        }
    }
}

} // verus!
