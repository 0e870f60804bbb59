//! A remembered place: a buffer, a mark in it, how it came about and how often
//! it was used.
//!
//! A record is plain data. What the editor has to do for it (set, move or
//! delete a mark, move the cursor) is done by the caller, who is told what to
//! do by `mark_request` and `take_redraw` and tells the record what was done
//! with `set_loaded`.

use crate::common_types::cursor_position::CursorPosition;
use crate::common_types::extmark::Extmark;
use crate::common_types::timestamp::Timestamp;
use crate::config::frecency::FrecencyConfig;
use crate::state::frecency::frecency_type::FrecencyType;
use crate::state::frecency::frecency_weight::FrecencyWeight;
use crate::state::frecency::{Frecency, FrecencyScore};
use crate::state::track_list::{Active, IndicateCloseness, Mark};
use crate::ui::record_mark::RecordMarkTime;
use vstd::prelude::*;

verus! {

/// The editor's count of the changes made to a buffer.
#[derive(Clone, Copy, Debug, PartialEq, Eq, Hash, Structural)]
pub struct Tick(pub i32);

impl From<i32> for Tick {
    fn from(value: i32) -> (t: Self)
        ensures
            t == Tick(value),
    {
        Self(value)
    }
}

impl vstd::std_specs::convert::FromSpecImpl<i32> for Tick {
    open spec fn obeys_from_spec() -> bool {
        true
    }

    open spec fn from_spec(value: i32) -> Self {
        Self(value)
    }
}

/// How a change record came about: by a change at a tick, or placed by hand,
/// then with the tick it had before, if any.
#[derive(Clone, Copy, Debug, PartialEq, Eq, Hash, Structural)]
pub enum ChangeTypeRecord {
    Tick(Tick),
    Manual(Option<Tick>),
}

/// What a record stands for.
#[derive(Clone, Copy, Debug, PartialEq, Eq, Hash, Structural)]
pub enum TypeRecord {
    Change(ChangeTypeRecord),
}

impl TypeRecord {
    /// The tick of the change that the record stands for, if it is known.
    pub open spec fn spec_tick(self) -> Option<Tick> {
        match self {
            Self::Change(ChangeTypeRecord::Tick(t)) => Some(t),
            Self::Change(ChangeTypeRecord::Manual(t)) => t,
        }
    }

    /// The tick of the change that the record stands for, if it is known.
    pub fn tick(self) -> (t: Option<Tick>)
        ensures
            t == self.spec_tick(),
    {
        match self {
            Self::Change(c) => match c {
                ChangeTypeRecord::Tick(t) => Some(t),
                ChangeTypeRecord::Manual(t) => t,
            },
        }
    }

    /// The kind of a record made by the change at `tick`.
    pub fn from_tick(tick: Tick) -> (typ: Self)
        ensures
            typ == Self::Change(ChangeTypeRecord::Tick(tick)),
    {
        Self::Change(ChangeTypeRecord::Tick(tick))
    }
}

/// The mark of a record: set in the editor, or still to be set at a place and
/// in a band. An inactive one also knows since when, in milliseconds of the
/// caller's clock, it waits to be set.
#[derive(Clone, Copy, Debug, PartialEq, Eq, Hash)]
pub enum LazyExtmark {
    Loaded(Extmark),
    Unloaded((CursorPosition, RecordMarkTime)),
    Inactive((CursorPosition, RecordMarkTime, u64)),
}

impl LazyExtmark {
    /// Where the mark stands, given what the editor reports of a loaded one.
    pub open spec fn spec_pos(self, reported: Option<CursorPosition>) -> CursorPosition {
        match self {
            Self::Loaded(e) => e.spec_pos(reported),
            Self::Unloaded((p, _)) => p,
            Self::Inactive((p, _, _)) => p,
        }
    }

    /// Where the mark stands, given what the editor reports of a loaded one.
    pub fn pos(&self, reported: Option<CursorPosition>) -> (p: CursorPosition)
        ensures
            p == self.spec_pos(reported),
    {
        match self {
            Self::Loaded(e) => e.pos(reported),
            Self::Unloaded((p, _)) => *p,
            Self::Inactive((p, _, _)) => *p,
        }
    }

    /// The identifier of the mark in the editor, if it is set there.
    pub fn id(&self) -> (id: Option<u32>)
        ensures
            id == match *self {
                Self::Loaded(e) => Some(e@.id),
                _ => None,
            },
    {
        match self {
            Self::Loaded(e) => Some(e.id()),
            _ => None,
        }
    }
}

/// One remembered place.
#[derive(Clone, Debug, PartialEq, Eq, Hash)]
pub struct Record {
    /// The editor's handle of the buffer.
    pub buf: i32,
    pub typ: TypeRecord,
    pub lazy_extmark: LazyExtmark,
    pub frecency: Frecency,
    /// The band in which the editor has yet to draw the loaded mark.
    pub redraw: Option<RecordMarkTime>,
}

impl Record {
    /// The record told that it belongs to the band `time`: a loaded mark is
    /// to be drawn again, one that is not loaded takes the band along.
    pub open spec fn spec_set_time(self, time: RecordMarkTime) -> Self {
        match self.lazy_extmark {
            LazyExtmark::Loaded(_) => Record { redraw: Some(time), ..self },
            LazyExtmark::Unloaded((p, _)) => Record {
                lazy_extmark: LazyExtmark::Unloaded((p, time)),
                ..self
            },
            LazyExtmark::Inactive((p, _, since)) => Record {
                lazy_extmark: LazyExtmark::Inactive((p, time, since)),
                ..self
            },
        }
    }

    /// A record whose mark `extmark` the editor has set as the close past.
    pub fn new(buf: i32, typ: TypeRecord, extmark: Extmark, now: Timestamp) -> (r: Self)
        ensures
            r.buf == buf,
            r.typ == typ,
            r.lazy_extmark == LazyExtmark::Loaded(extmark),
            r.frecency@ == seq![(now@, FrecencyType::Create)],
            r.redraw is None,
    {
        Self {
            buf,
            typ,
            lazy_extmark: LazyExtmark::Loaded(extmark),
            frecency: Frecency::new_at(now),
            redraw: None,
        }
    }

    /// A record without a mark, waiting since `since` to get one at `pos`.
    pub fn new_inactive(
        buf: i32,
        typ: TypeRecord,
        pos: CursorPosition,
        since: u64,
        now: Timestamp,
    ) -> (r: Self)
        ensures
            r.buf == buf,
            r.typ == typ,
            r.lazy_extmark == LazyExtmark::Inactive((pos, RecordMarkTime::PastClose, since)),
            r.frecency@ == seq![(now@, FrecencyType::Create)],
            r.redraw is None,
    {
        Self {
            buf,
            typ,
            lazy_extmark: LazyExtmark::Inactive((pos, RecordMarkTime::PastClose, since)),
            frecency: Frecency::new_at(now),
            redraw: None,
        }
    }

    /// Where and in which band the editor has to set the mark, unless it is
    /// set already.
    pub fn mark_request(&self) -> (req: Option<(CursorPosition, RecordMarkTime)>)
        ensures
            req == match self.lazy_extmark {
                LazyExtmark::Loaded(_) => None,
                LazyExtmark::Unloaded((p, t)) => Some((p, t)),
                LazyExtmark::Inactive((p, t, _)) => Some((p, t)),
            },
    {
        match self.lazy_extmark {
            LazyExtmark::Loaded(_) => None,
            LazyExtmark::Unloaded((p, t)) => Some((p, t)),
            LazyExtmark::Inactive((p, t, _)) => Some((p, t)),
        }
    }

    /// The editor has set the mark as asked: the record is loaded, and so
    /// active, and nothing is left to draw.
    pub fn set_loaded(&mut self, extmark: Extmark)
        ensures
            *final(self) == (Record {
                lazy_extmark: LazyExtmark::Loaded(extmark),
                redraw: None,
                ..*old(self)
            }),
    {
        self.lazy_extmark = LazyExtmark::Loaded(extmark);
        self.redraw = None;
    }

    /// The band the editor has to draw the loaded mark in, if any; asking
    /// settles it.
    pub fn take_redraw(&mut self) -> (time: Option<RecordMarkTime>)
        ensures
            time == old(self).redraw,
            *final(self) == (Record { redraw: None, ..*old(self) }),
    {
        let time = self.redraw;
        self.redraw = None;
        time
    }

    /// The record was placed again: it is of kind `typ` now, and an update is
    /// added to its score if the cooldown has passed. Where the editor had to
    /// set a mark for it, `created`, the record is loaded with it.
    pub fn update(
        &mut self,
        typ: TypeRecord,
        created: Option<Extmark>,
        now: Timestamp,
        conf: &FrecencyConfig,
    )
        ensures
            final(self).buf == old(self).buf,
            final(self).typ == typ,
            final(self).lazy_extmark == match created {
                Some(e) => LazyExtmark::Loaded(e),
                None => old(self).lazy_extmark,
            },
            final(self).redraw == match created {
                Some(_) => None,
                None => old(self).redraw,
            },
            final(self).frecency@ == Self::spec_logged(
                old(self).frecency@,
                FrecencyType::Update,
                now,
                conf.cooldown_seconds,
            ),
    {
        if let Some(e) = created {
            self.set_loaded(e);
        }
        self.typ = typ;
        self.frecency.add_record_at(FrecencyType::Update, now, conf.cooldown_seconds);
    }

    /// The log `events` after an event of kind `typ` at `now`, which counts
    /// only if the cooldown has passed since the latest event.
    pub open spec fn spec_logged(
        events: Seq<(int, FrecencyType)>,
        typ: FrecencyType,
        now: Timestamp,
        cooldown_seconds: i64,
    ) -> Seq<(int, FrecencyType)> {
        if now@ - events.last().0 > cooldown_seconds {
            events.push((now@, typ))
        } else {
            events
        }
    }

    /// The record was changed at `pos` and waits, since `since`, to get its
    /// mark there in the band `time`; the mark it had is no more. It is of
    /// kind `typ` now, and an update is added to its score if the cooldown has
    /// passed.
    pub fn deact_update(
        &mut self,
        typ: TypeRecord,
        pos: CursorPosition,
        time: RecordMarkTime,
        since: u64,
        now: Timestamp,
        conf: &FrecencyConfig,
    )
        ensures
            final(self).buf == old(self).buf,
            final(self).typ == typ,
            final(self).lazy_extmark == LazyExtmark::Inactive((pos, time, since)),
            final(self).redraw is None,
            final(self).frecency@ == Self::spec_logged(
                old(self).frecency@,
                FrecencyType::Update,
                now,
                conf.cooldown_seconds,
            ),
    {
        self.lazy_extmark = LazyExtmark::Inactive((pos, time, since));
        self.redraw = None;
        self.typ = typ;
        self.frecency.add_record_at(FrecencyType::Update, now, conf.cooldown_seconds);
    }

    /// The cursor went to the record: an event of kind `typ` is added to its
    /// score if the cooldown has passed.
    pub fn goto(&mut self, typ: FrecencyType, now: Timestamp, conf: &FrecencyConfig)
        ensures
            *final(self) == (Record { frecency: final(self).frecency, ..*old(self) }),
            final(self).frecency@ == Self::spec_logged(
                old(self).frecency@,
                typ,
                now,
                conf.cooldown_seconds,
            ),
    {
        self.frecency.add_record_at(typ, now, conf.cooldown_seconds);
    }

    /// Tells the record that it belongs to the band `time`.
    pub fn set_time(&mut self, time: RecordMarkTime)
        ensures
            *final(self) == old(self).spec_set_time(time),
    {
        match self.lazy_extmark {
            LazyExtmark::Loaded(_) => {
                self.redraw = Some(time);
            },
            LazyExtmark::Unloaded((p, _)) => {
                self.lazy_extmark = LazyExtmark::Unloaded((p, time));
            },
            LazyExtmark::Inactive((p, _, since)) => {
                self.lazy_extmark = LazyExtmark::Inactive((p, time, since));
            },
        }
    }

    /// Whether the record is in the buffer `buf` and has the mark `id` there.
    pub open spec fn spec_has_mark(self, buf: i32, id: u32) -> bool {
        self.buf == buf && match self.lazy_extmark {
            LazyExtmark::Loaded(e) => e@.id == id,
            _ => false,
        }
    }

    /// Whether the record waits, for `debounce` milliseconds or more at the
    /// time `now`, to get its mark.
    pub open spec fn spec_is_ready(self, now: u64, debounce: u64) -> bool {
        match self.lazy_extmark {
            LazyExtmark::Inactive((_, _, since)) => now >= since && now - since >= debounce,
            _ => false,
        }
    }

    /// Whether the record has waited, at `now`, for `debounce` milliseconds or
    /// more to get its mark.
    pub fn is_ready(&self, now: u64, debounce: u64) -> (b: bool)
        ensures
            b == self.spec_is_ready(now, debounce),
    {
        match self.lazy_extmark {
            LazyExtmark::Inactive((_, _, since)) => now >= since && now - since >= debounce,
            _ => false,
        }
    }
}

impl IndicateCloseness for Record {
    open spec fn spec_as_past(self) -> Self {
        self.spec_set_time(RecordMarkTime::Past)
    }

    open spec fn spec_as_future(self) -> Self {
        self.spec_set_time(RecordMarkTime::Future)
    }

    open spec fn spec_as_close_past(self) -> Self {
        self.spec_set_time(RecordMarkTime::PastClose)
    }

    open spec fn spec_as_close_future(self) -> Self {
        self.spec_set_time(RecordMarkTime::FutureClose)
    }

    fn as_past(&mut self) {
        self.set_time(RecordMarkTime::Past);
    }

    fn as_future(&mut self) {
        self.set_time(RecordMarkTime::Future);
    }

    fn as_close_past(&mut self) {
        self.set_time(RecordMarkTime::PastClose);
    }

    fn as_close_future(&mut self) {
        self.set_time(RecordMarkTime::FutureClose);
    }
}

impl FrecencyScore for Record {
    open spec fn spec_score_fits(&self, now: Timestamp, conf: &FrecencyConfig) -> bool {
        self.frecency.spec_score_fits(now, conf)
    }

    open spec fn spec_total_score(&self, now: Timestamp, conf: &FrecencyConfig) -> int {
        self.frecency.spec_total_score(now, conf)
    }

    fn total_score(&self, now: Timestamp, conf: &FrecencyConfig) -> (w: FrecencyWeight) {
        self.frecency.total_score(now, conf)
    }
}

impl Mark for Record {
    /// The cursor can be on a record whose mark is set, and only on such a
    /// one; that it is there changes nothing in the record.
    open spec fn jump_spec(self, after: Self, ok: bool) -> bool {
        after == self && ok == (self.lazy_extmark is Loaded)
    }

    fn jump(&mut self) -> (ok: bool) {
        match self.lazy_extmark {
            LazyExtmark::Loaded(_) => true,
            _ => false,
        }
    }
}

impl Active for Record {
    open spec fn spec_is_active(&self) -> bool {
        !(self.lazy_extmark is Inactive)
    }

    fn is_active(&self) -> (b: bool) {
        match self.lazy_extmark {
            LazyExtmark::Inactive(_) => false,
            _ => true,
        }
    }
}

} // verus!
