//! The frecency score of a record: how often and how recently it was used.
//!
//! A score is a log of events, each with its time and kind. An event weighs
//! what its age weighs in the recency table plus what its kind weighs, and the
//! score is the sum over the log.

pub mod frecency_record;
pub mod frecency_type;
pub mod frecency_weight;

use crate::common_types::timestamp::Timestamp;
use crate::config::frecency::FrecencyConfig;
use frecency_record::{spec_event_score, FrecencyRecord};
use frecency_type::FrecencyType;
use frecency_weight::FrecencyWeight;
use vstd::prelude::*;

verus! {

/// The sum of the scores of the first `n` events of a log, at the time `now`.
pub open spec fn spec_score_sum(
    events: Seq<(int, FrecencyType)>,
    n: int,
    now: int,
    conf: FrecencyConfig,
) -> int
    decreases n,
{
    if n <= 0 {
        0
    } else {
        spec_score_sum(events, n - 1, now, conf) + spec_event_score(events[n - 1], now, conf)
    }
}

/// Every sum that the total is reached through, from the first event on, is a
/// weight.
pub open spec fn spec_score_sum_fits(
    events: Seq<(int, FrecencyType)>,
    now: int,
    conf: FrecencyConfig,
) -> bool {
    forall|k: int|
        #![trigger spec_score_sum(events, k, now, conf)]
        0 <= k <= events.len() ==> i64::MIN <= spec_score_sum(events, k, now, conf) <= i64::MAX
}

/// The log `events` after an event of kind `typ` was recorded at the time
/// `now`: the event stands at its end if more than `cooldown_seconds` have
/// passed since the latest event; else the log is as it was.
pub open spec fn spec_recorded(
    events: Seq<(int, FrecencyType)>,
    typ: FrecencyType,
    now: int,
    cooldown_seconds: i64,
) -> Seq<(int, FrecencyType)> {
    if now - events.last().0 > cooldown_seconds {
        events.push((now, typ))
    } else {
        events
    }
}

/// Something that has a frecency score at a given time.
pub trait FrecencyScore {
    /// Whether the score can be counted in a weight. An implementation that
    /// does not say when can always be asked.
    open spec fn spec_score_fits(&self, now: Timestamp, conf: &FrecencyConfig) -> bool {
        true
    }

    open spec fn spec_total_score(&self, now: Timestamp, conf: &FrecencyConfig) -> int {
        arbitrary()
    }

    fn total_score(&self, now: Timestamp, conf: &FrecencyConfig) -> (w: FrecencyWeight)
        requires
            self.spec_score_fits(now, conf),
        ensures
            w@ == self.spec_total_score(now, conf),
    ;
}

/// The log of what happened to a record: its creation and what came after.
#[derive(Debug, Clone, PartialEq, Eq, Hash)]
pub struct Frecency {
    first: FrecencyRecord,
    rest: Vec<FrecencyRecord>,
}

impl View for Frecency {
    type V = Seq<(int, FrecencyType)>;

    closed spec fn view(&self) -> Seq<(int, FrecencyType)> {
        seq![self.first@] + self.rest@.map_values(|r: FrecencyRecord| r@)
    }
}

impl Frecency {
    /// A log never is empty.
    pub proof fn lemma_non_empty(self)
        ensures
            self@.len() > 0,
    {
    }

    /// A log that starts with a creation at the time of the system clock.
    pub fn new() -> (f: Self)
        ensures
            f@.len() == 1,
            f@[0].1 == FrecencyType::Create,
    {
        Self::new_at(Timestamp::now())
    }

    /// A log that starts with a creation at `now`.
    pub fn new_at(now: Timestamp) -> (f: Self)
        ensures
            f@ == seq![(now@, FrecencyType::Create)],
    {
        Self { first: FrecencyRecord::new_at(FrecencyType::Create, now), rest: Vec::new() }
    }

    /// The log that holds `records`, oldest first, unless there are none.
    pub fn from_records(records: Vec<FrecencyRecord>) -> (f: Option<Self>)
        ensures
            f is Some == (records@.len() > 0),
            f matches Some(log) ==> log@ == records@.map_values(|r: FrecencyRecord| r@),
    {
        let mut rest = records;
        if rest.len() == 0 {
            None
        } else {
            let first = rest.remove(0);
            Some(Self { first, rest })
        }
    }

    /// Another log with the same events.
    pub fn duplicate(&self) -> (f: Self)
        ensures
            f@ == self@,
    {
        let mut rest: Vec<FrecencyRecord> = Vec::new();
        let m = self.rest.len();
        let mut i: usize = 0;
        while i < m
            invariant
                i <= m,
                m == self.rest@.len(),
                rest@ == self.rest@.subrange(0, i as int),
            decreases m - i,
        {
            rest.push(self.rest[i]);
            i += 1;
        }
        Self { first: self.first, rest }
    }

    /// The events of the log, oldest first.
    pub fn to_records(&self) -> (records: Vec<FrecencyRecord>)
        ensures
            records@.map_values(|r: FrecencyRecord| r@) == self@,
    {
        let mut records: Vec<FrecencyRecord> = Vec::new();
        records.push(self.first);
        let m = self.rest.len();
        let mut i: usize = 0;
        while i < m
            invariant
                i <= m,
                m == self.rest@.len(),
                records@.len() == i + 1,
                records@[0] == self.first,
                forall|k: int| 0 <= k < i ==> records@[k + 1] == self.rest@[k],
            decreases m - i,
        {
            records.push(self.rest[i]);
            i += 1;
        }
        records
    }

    /// The event at `i`, oldest first.
    pub fn get(&self, i: usize) -> (r: Option<FrecencyRecord>)
        ensures
            r is Some == (i < self@.len()),
            r matches Some(rec) ==> rec@ == self@[i as int],
    {
        if i == 0 {
            Some(self.first)
        } else if i - 1 < self.rest.len() {
            Some(self.rest[i - 1])
        } else {
            None
        }
    }

    /// Records an event of kind `typ` at the time of the system clock, unless
    /// the latest event is no older than the cooldown: the log is afterwards
    /// what recording the event at the time that the clock showed makes of
    /// it.
    pub fn add_record(&mut self, typ: FrecencyType, conf: &FrecencyConfig)
        ensures
            exists|now: int|
                i64::MIN <= now <= i64::MAX && final(self)@ == #[trigger] spec_recorded(
                    old(self)@,
                    typ,
                    now,
                    conf.cooldown_seconds,
                ),
            final(self)@ == old(self)@ || (final(self)@.len() == old(self)@.len() + 1
                && final(self)@.drop_last() == old(self)@ && final(self)@.last().1 == typ
                && final(self)@.last().0 - old(self)@.last().0 > conf.cooldown_seconds),
    {
        let now = Timestamp::now();
        self.add_record_at(typ, now, conf.cooldown_seconds);
        proof {
            now.lemma_in_range();
            assert(self@ == spec_recorded(old(self)@, typ, now@, conf.cooldown_seconds));
        }
    }

    /// Records an event of kind `typ` at `now` if more than `cooldown_seconds`
    /// have passed since the latest event; else leaves the log as it is.
    pub fn add_record_at(&mut self, typ: FrecencyType, now: Timestamp, cooldown_seconds: i64)
        ensures
            final(self)@ == spec_recorded(old(self)@, typ, now@, cooldown_seconds),
            final(self)@ == if now@ - old(self)@.last().0 > cooldown_seconds {
                old(self)@.push((now@, typ))
            } else {
                old(self)@
            },
    {
        let last = self.latest_timestamp();
        if now.is_later_by_more_than(last, cooldown_seconds) {
            self.rest.push(FrecencyRecord::new_at(typ, now));
        }
    }

    /// The time of the latest event.
    pub fn latest_timestamp(&self) -> (t: Timestamp)
        ensures
            t@ == self@.last().0,
    {
        let n = self.rest.len();
        if n == 0 {
            self.first.timestamp()
        } else {
            self.rest[n - 1].timestamp()
        }
    }

    /// The score of the event at `i`, in a type wide enough for any two
    /// weights.
    fn event_score(&self, i: usize, now: Timestamp, conf: &FrecencyConfig) -> (s: i128)
        requires
            i < self@.len(),
        ensures
            s == spec_event_score(self@[i as int], now@, *conf),
            2 * i64::MIN <= s <= 2 * i64::MAX,
    {
        if i == 0 {
            self.first.score_wide(now, conf)
        } else {
            self.rest[i - 1].score_wide(now, conf)
        }
    }

    /// The score at `now`, or `None` where it cannot be counted in a weight.
    pub fn checked_total_score(&self, now: Timestamp, conf: &FrecencyConfig) -> (r: Option<
        FrecencyWeight,
    >)
        ensures
            r is Some == spec_score_sum_fits(self@, now@, *conf),
            r matches Some(w) ==> w@ == spec_score_sum(self@, self@.len() as int, now@, *conf),
    {
        let m = self.rest.len();
        let mut acc = FrecencyWeight::from(0);
        let mut i: usize = 0;
        while i <= m
            invariant
                i <= m + 1,
                m + 1 == self@.len(),
                m == self.rest@.len(),
                acc@ == spec_score_sum(self@, i as int, now@, *conf),
                forall|k: int|
                    #![trigger spec_score_sum(self@, k, now@, *conf)]
                    0 <= k <= i ==> i64::MIN <= spec_score_sum(self@, k, now@, *conf) <= i64::MAX,
            decreases m + 1 - i,
        {
            let event = self.event_score(i, now, conf);
            let sum: i128 = event + acc.value() as i128;
            assert(sum == spec_score_sum(self@, i + 1, now@, *conf));
            if sum < i64::MIN as i128 || sum > i64::MAX as i128 {
                return None;
            }
            acc = FrecencyWeight::from(sum as i64);
            if i == m {
                return Some(acc);
            }
            i += 1;
        }
        Some(acc)
    }
}

impl FrecencyScore for Frecency {
    open spec fn spec_score_fits(&self, now: Timestamp, conf: &FrecencyConfig) -> bool {
        spec_score_sum_fits(self@, now@, *conf)
    }

    open spec fn spec_total_score(&self, now: Timestamp, conf: &FrecencyConfig) -> int {
        spec_score_sum(self@, self@.len() as int, now@, *conf)
    }

    fn total_score(&self, now: Timestamp, conf: &FrecencyConfig) -> (w: FrecencyWeight) {
        let m = self.rest.len();
        let mut acc = FrecencyWeight::from(0);
        let mut i: usize = 0;
        while i <= m
            invariant
                i <= m + 1,
                m + 1 == self@.len(),
                m == self.rest@.len(),
                acc@ == spec_score_sum(self@, i as int, now@, *conf),
                spec_score_sum_fits(self@, now@, *conf),
            decreases m + 1 - i,
        {
            let event = self.event_score(i, now, conf);
            acc = FrecencyWeight::from((event + acc.value() as i128) as i64);
            if i == m {
                return acc;
            }
            i += 1;
        }
        acc
    }
}

} // verus!
