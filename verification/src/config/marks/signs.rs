//! The signs of the four bands.

use crate::config::common::sign::SignText;
use crate::ui::record_mark::RecordMarkTime;
use vstd::prelude::*;
use vstd::string::*;

verus! {

/// The sign of each of the four bands.
#[derive(Debug)]
pub struct Signs {
    pub past: SignText,
    pub close_past: SignText,
    pub future: SignText,
    pub close_future: SignText,
}

fn default_past() -> (t: SignText)
    ensures
        t.0@ == "◀"@,
{
    SignText(String::from_str("◀"))
}

fn default_future() -> (t: SignText)
    ensures
        t.0@ == "▶"@,
{
    SignText(String::from_str("▶"))
}

impl Default for Signs {
    fn default() -> (signs: Self)
        ensures
            signs.past.0@ == "◀"@,
            signs.close_past.0@ == "◀"@,
            signs.future.0@ == "▶"@,
            signs.close_future.0@ == "▶"@,
    {
        Self {
            past: default_past(),
            close_past: default_past(),
            future: default_future(),
            close_future: default_future(),
        }
    }
}

impl Signs {
    /// The sign of the band `time`.
    pub fn sign(&self, time: RecordMarkTime) -> (t: &SignText)
        ensures
            *t == match time {
                RecordMarkTime::Past => self.past,
                RecordMarkTime::PastClose => self.close_past,
                RecordMarkTime::Future => self.future,
                RecordMarkTime::FutureClose => self.close_future,
            },
    {
        match time {
            RecordMarkTime::Past => &self.past,
            RecordMarkTime::PastClose => &self.close_past,
            RecordMarkTime::Future => &self.future,
            RecordMarkTime::FutureClose => &self.close_future,
        }
    }
}

} // verus!
