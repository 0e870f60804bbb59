//! The cadence of the background jobs: each job runs again once its own wait
//! has passed since its last run.

use crate::config::persistence::PersistenceConfig;
use crate::config::tracker::Debounce;
use vstd::prelude::*;

verus! {

/// A job of the background loop.
#[derive(Clone, Copy, Debug, PartialEq, Eq, Structural)]
pub enum Job {
    /// Looks for a change to track.
    Track,
    /// Merges and prunes records.
    Maintain,
    /// Writes the list out.
    Persist,
}

/// When each job last ran, in milliseconds of the caller's clock.
#[derive(Clone, Copy, Debug, PartialEq, Eq, Structural)]
pub struct Worker {
    pub tracked_at: u64,
    pub maintained_at: u64,
    pub persisted_at: u64,
}

/// The time from `then` to `now`, which is none where `then` is later.
pub open spec fn spec_elapsed(then: u64, now: u64) -> int {
    if now >= then {
        now - then
    } else {
        0
    }
}

impl Worker {
    /// A worker all of whose jobs count as run at `now`.
    pub fn new(now: u64) -> (w: Self)
        ensures
            w == (Worker { tracked_at: now, maintained_at: now, persisted_at: now }),
    {
        Self { tracked_at: now, maintained_at: now, persisted_at: now }
    }

    /// When `job` last ran.
    pub open spec fn spec_ran_at(self, job: Job) -> u64 {
        match job {
            Job::Track => self.tracked_at,
            Job::Maintain => self.maintained_at,
            Job::Persist => self.persisted_at,
        }
    }

    /// How long `job` waits between two runs.
    pub open spec fn spec_wait(job: Job, debounce: Debounce, persistence: PersistenceConfig) -> u64 {
        match job {
            Job::Track => debounce.run,
            Job::Maintain => debounce.maintenance,
            Job::Persist => persistence.interval_milliseconds,
        }
    }

    /// Whether `job` runs at `now`: its wait has passed since its last run,
    /// and the list is written out only where that is asked for.
    pub open spec fn spec_is_due(
        self,
        job: Job,
        now: u64,
        debounce: Debounce,
        persistence: PersistenceConfig,
    ) -> bool {
        &&& job == Job::Persist ==> persistence.enable
        &&& spec_elapsed(self.spec_ran_at(job), now) >= Self::spec_wait(job, debounce, persistence)
    }

    /// Whether `job` runs at `now`.
    pub fn is_due(&self, job: Job, now: u64, debounce: &Debounce, persistence: &PersistenceConfig) -> (due:
        bool)
        ensures
            due == self.spec_is_due(job, now, *debounce, *persistence),
    {
        let (then, wait) = match job {
            Job::Track => (self.tracked_at, debounce.run),
            Job::Maintain => (self.maintained_at, debounce.maintenance),
            Job::Persist => {
                if !persistence.enable {
                    return false;
                }
                (self.persisted_at, persistence.interval_milliseconds)
            },
        };
        let elapsed = if now >= then {
            now - then
        } else {
            0
        };
        elapsed >= wait
    }

    /// Notes that `job` ran at `now`.
    pub fn done(&mut self, job: Job, now: u64)
        ensures
            final(self).spec_ran_at(job) == now,
            forall|other: Job| other != job ==> final(self).spec_ran_at(other) == old(self).spec_ran_at(other),
    {
        match job {
            Job::Track => {
                self.tracked_at = now;
            },
            Job::Maintain => {
                self.maintained_at = now;
            },
            Job::Persist => {
                self.persisted_at = now;
            },
        }
    }
}

/// A job that has just run is not due again before its wait has passed.
pub proof fn lemma_not_due_right_after(
    w: Worker,
    job: Job,
    now: u64,
    later: u64,
    debounce: Debounce,
    persistence: PersistenceConfig,
)
    requires
        w.spec_ran_at(job) == now,
        now <= later,
        later - now < Worker::spec_wait(job, debounce, persistence),
    ensures
        !w.spec_is_due(job, later, debounce, persistence),
{
}

} // verus!
