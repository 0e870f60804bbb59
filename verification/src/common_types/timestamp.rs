//! Points in time, in whole seconds since the Unix epoch.

use vstd::prelude::*;

verus! {

/// A point in time: seconds since the Unix epoch.
#[derive(Clone, Copy, Debug, PartialEq, Eq, Hash, Structural)]
pub struct Timestamp(i64);

impl View for Timestamp {
    type V = int;

    closed spec fn view(&self) -> int {
        self.0 as int
    }
}

/// `d / 3600`, rounded towards zero.
pub open spec fn whole_hours(d: int) -> int {
    if d >= 0 {
        d / 3600
    } else {
        -((-d) / 3600)
    }
}

/// `chrono::Utc::now` and `DateTime::timestamp`: the time of the system clock
/// in whole seconds since the epoch. It is the clock that decides: nothing is
/// claimed of the value. `Utc::now` does not return where the clock stands
/// before the epoch.
#[verifier::external_body]
fn utc_now_secs() -> i64 {
    chrono::Utc::now().timestamp()
}

impl Timestamp {
    /// A point in time is a count of seconds that 64 bits hold.
    pub proof fn lemma_in_range(self)
        ensures
            i64::MIN <= self@ <= i64::MAX,
    {
    }

    /// The point in time `secs` seconds after the epoch.
    pub fn from_secs(secs: i64) -> (t: Self)
        ensures
            t@ == secs,
    {
        Timestamp(secs)
    }

    /// The timestamp of an unsigned count of seconds, where it fits.
    pub fn try_from_u64(secs: u64) -> (t: Option<Self>)
        ensures
            t is Some == (secs <= i64::MAX),
            t matches Some(ts) ==> ts@ == secs,
    {
        if secs <= 0x7fff_ffff_ffff_ffffu64 {
            Some(Timestamp(secs as i64))
        } else {
            None
        }
    }

    /// The time of the system clock.
    pub fn now() -> Self {
        Timestamp(utc_now_secs())
    }

    /// The seconds since the epoch.
    pub fn secs(self) -> (secs: i64)
        ensures
            secs == self@,
    {
        self.0
    }

    /// The seconds from `earlier` to `self`, negative where `earlier` is later.
    pub open spec fn spec_seconds_since(self, earlier: Timestamp) -> int {
        self@ - earlier@
    }

    /// The whole hours from `earlier` to `self`, rounded towards zero.
    pub open spec fn spec_hours_since(self, earlier: Timestamp) -> int {
        whole_hours(self@ - earlier@)
    }

    /// Whether more than `seconds` have passed from `earlier` to `self`.
    pub fn is_later_by_more_than(self, earlier: Timestamp, seconds: i64) -> (b: bool)
        ensures
            b == (self.spec_seconds_since(earlier) > seconds),
    {
        let d: i128 = self.0 as i128 - earlier.0 as i128;
        d > seconds as i128
    }

    /// The whole hours from `earlier` to `self`, rounded towards zero.
    pub fn hours_since(self, earlier: Timestamp) -> (h: i64)
        ensures
            h == self.spec_hours_since(earlier),
    {
        let d: i128 = self.0 as i128 - earlier.0 as i128;
        if d >= 0 {
            (d / 3600) as i64
        } else {
            let back: i128 = (-d) / 3600;
            -(back as i64)
        }
    }
}

} // verus!
