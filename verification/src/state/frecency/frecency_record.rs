//! One event of a frecency score.

use crate::common_types::timestamp::{whole_hours, Timestamp};
use crate::config::frecency::{BucketTimeConfig, FrecencyConfig};
use crate::state::frecency::frecency_type::FrecencyType;
use crate::state::frecency::frecency_weight::FrecencyWeight;
use vstd::prelude::*;

verus! {

impl BucketTimeConfig {
    /// The first step of the table, at or after `from`, that lies above
    /// `hours`.
    pub open spec fn spec_first_above(self, hours: int, from: int) -> Option<int>
        decreases self.thresholds@.len() - from,
    {
        if from < 0 || from >= self.thresholds@.len() {
            None
        } else if self.thresholds@[from].hours > hours {
            Some(from)
        } else {
            self.spec_first_above(hours, from + 1)
        }
    }

    /// What an event that is `hours` old weighs: the weight of the first step
    /// of the table that lies above `hours`, or the fallback where none does.
    pub open spec fn spec_weight(self, hours: int) -> FrecencyWeight {
        match self.spec_first_above(hours, 0) {
            Some(i) => self.thresholds@[i].weight,
            None => self.fallback,
        }
    }

    /// What an event that is `hours` old weighs.
    pub fn weight(&self, hours: i64) -> (w: FrecencyWeight)
        ensures
            w == self.spec_weight(hours as int),
    {
        let n = self.thresholds.len();
        let mut i: usize = 0;
        while i < n
            invariant
                i <= n,
                n == self.thresholds@.len(),
                self.spec_first_above(hours as int, 0) == self.spec_first_above(
                    hours as int,
                    i as int,
                ),
            decreases n - i,
        {
            if self.thresholds[i].hours > hours {
                return self.thresholds[i].weight;
            }
            i += 1;
        }
        self.fallback
    }
}

/// What the event `event`, a time and a kind, scores at the time `now`: the
/// weight of its age in whole hours plus the weight of its kind.
pub open spec fn spec_event_score(event: (int, FrecencyType), now: int, conf: FrecencyConfig) -> int {
    conf.time_bucket.spec_weight(whole_hours(now - event.0))@ + event.1.spec_weight(
        conf.visit_type,
    )@
}

/// One event: when it happened and of what kind it was.
#[derive(Clone, Copy, Debug, PartialEq, Eq, Hash)]
pub struct FrecencyRecord {
    pub timestamp: Timestamp,
    typ: FrecencyType,
}

impl View for FrecencyRecord {
    type V = (int, FrecencyType);

    closed spec fn view(&self) -> (int, FrecencyType) {
        (self.timestamp@, self.typ)
    }
}

impl FrecencyRecord {
    /// An event of kind `typ` at the time of the system clock.
    pub fn new(typ: FrecencyType) -> (r: Self)
        ensures
            r@.1 == typ,
    {
        Self::new_at(typ, Timestamp::now())
    }

    /// An event of kind `typ` at `timestamp`.
    pub fn new_at(typ: FrecencyType, timestamp: Timestamp) -> (r: Self)
        ensures
            r@ == (timestamp@, typ),
    {
        Self { timestamp, typ }
    }

    /// When the event happened.
    pub fn timestamp(&self) -> (t: Timestamp)
        ensures
            t@ == self@.0,
    {
        self.timestamp
    }

    /// Of what kind the event was.
    pub fn typ(&self) -> (typ: FrecencyType)
        ensures
            typ == self@.1,
    {
        self.typ
    }

    /// The score at `now`, in a type wide enough for any two weights.
    pub fn score_wide(&self, now: Timestamp, conf: &FrecencyConfig) -> (s: i128)
        ensures
            s == spec_event_score(self@, now@, *conf),
            2 * i64::MIN <= s <= 2 * i64::MAX,
    {
        let hours = now.hours_since(self.timestamp);
        let age = conf.time_bucket.weight(hours);
        let typ = self.typ.weight(&conf.visit_type);
        age.value() as i128 + typ.value() as i128
    }

    /// The score at `now`.
    pub fn score(&self, now: Timestamp, conf: &FrecencyConfig) -> (w: FrecencyWeight)
        requires
            i64::MIN <= spec_event_score(self@, now@, *conf) <= i64::MAX,
        ensures
            w@ == spec_event_score(self@, now@, *conf),
    {
        let hours = now.hours_since(self.timestamp);
        let age = conf.time_bucket.weight(hours);
        let typ = self.typ.weight(&conf.visit_type);
        age + typ
    }
}

} // verus!
