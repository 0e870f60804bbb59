//! The policy around the navigation list: when a change becomes a record,
//! which records are merged or dropped, and when the list is written out.
//!
//! The tracker decides and keeps the books. Talking to the editor and to the
//! disk is the caller's part: the caller hands in what it has read (the buffer,
//! the tick, where each mark stands now) and carries out what comes back.

use crate::common_types::cursor_position::CursorPosition;
use crate::common_types::extmark::Extmark;
use crate::common_types::timestamp::Timestamp;
use crate::config::frecency::FrecencyConfig;
use crate::config::marks::update_range::UpdateRange;
use crate::error::{Error, InputError};
use crate::state::frecency::frecency_type::FrecencyType;
use crate::state::record::{ChangeTypeRecord, LazyExtmark, Record, Tick, TypeRecord};
use crate::state::track_list::{
    lemma_first_active_from, relabelled, Active, IndicateCloseness, TrackList, TrackListView,
};
use crate::ui::record_mark::RecordMarkTime;
use std::collections::HashMap;
use vstd::prelude::*;
use vstd::string::*;

verus! {

/// The tick of a buffer that was not changed since it was opened.
pub const INITIAL_CHANGEDTICK: i32 = 2;

/// The list is written out no more often than this, in milliseconds.
pub const FLUSH_INTERVAL_MILLIS: u64 = 5000;

/// What the editor is doing, as far as tracking cares.
#[derive(Clone, Copy, Debug, PartialEq, Eq, Structural)]
pub enum EditorMode {
    CmdLine,
    InsertCmdLine,
    Terminal,
    Insert,
    Other,
}

/// What a look at the current buffer found.
#[derive(Clone, Copy, Debug, PartialEq, Eq, Structural)]
pub enum BufVisit {
    /// The buffer is seen for the first time: its marks have to be set anew.
    First,
    /// Nothing was changed in the buffer since the last look.
    Same,
    /// The buffer was changed; with that, the buffer of the look before.
    Changed(Option<i32>),
}

/// One list of records and the books kept around it.
#[derive(Debug)]
pub struct Tracker {
    pub list: TrackList<Record>,
    latest_flush: u64,
    visited_bufs: HashMap<i32, Tick>,
    latest_buf: Option<i32>,
}

/// What a tracker is to its callers.
pub ghost struct TrackerView {
    pub list: TrackListView<Record>,
    /// When the list was last written out, in milliseconds.
    pub latest_flush: u64,
    /// The tick last seen of each buffer that was looked at.
    pub visited_bufs: Map<i32, Tick>,
    /// The buffer of the latest look, unless it was forgotten on purpose.
    pub latest_buf: Option<i32>,
}

impl View for Tracker {
    type V = TrackerView;

    closed spec fn view(&self) -> TrackerView {
        TrackerView {
            list: self.list@,
            latest_flush: self.latest_flush,
            visited_bufs: self.visited_bufs@,
            latest_buf: self.latest_buf,
        }
    }
}

/// Where the record at `i` stands, given what the editor reports of each
/// record's mark.
pub open spec fn spec_record_pos(
    ring: Seq<Record>,
    reported: Seq<Option<CursorPosition>>,
    i: int,
) -> CursorPosition {
    ring[i].lazy_extmark.spec_pos(reported[i])
}

/// Whether the record at `i` is in the buffer `buf` and near `pos`.
pub open spec fn spec_is_near(
    ring: Seq<Record>,
    reported: Seq<Option<CursorPosition>>,
    conf: UpdateRange,
    buf: i32,
    pos: CursorPosition,
    i: int,
) -> bool {
    ring[i].buf == buf && spec_record_pos(ring, reported, i).spec_is_nearby(pos, conf)
}

/// Whether the record at `j` is merged away: it is in `buf` and near a record
/// of `buf` that stands before it in the ring.
pub open spec fn spec_is_merged(
    ring: Seq<Record>,
    reported: Seq<Option<CursorPosition>>,
    conf: UpdateRange,
    buf: i32,
    j: int,
) -> bool {
    ring[j].buf == buf && exists|i: int|
        0 <= i < j && #[trigger] spec_is_near(
            ring,
            reported,
            conf,
            buf,
            spec_record_pos(ring, reported, j),
            i,
        )
}

/// The indices below `n` that `doomed` holds of, in ascending order.
pub open spec fn spec_indices_where(doomed: spec_fn(int) -> bool, n: int) -> Seq<usize>
    decreases n,
{
    if n <= 0 {
        Seq::empty()
    } else if doomed(n - 1) {
        spec_indices_where(doomed, n - 1).push((n - 1) as usize)
    } else {
        spec_indices_where(doomed, n - 1)
    }
}

/// Two conditions that agree below `n` give the same indices.
pub proof fn lemma_indices_where_agree(a: spec_fn(int) -> bool, b: spec_fn(int) -> bool, n: int)
    requires
        forall|j: int| 0 <= j < n ==> #[trigger] a(j) == b(j),
    ensures
        spec_indices_where(a, n) == spec_indices_where(b, n),
    decreases n,
{
    if n > 0 {
        lemma_indices_where_agree(a, b, n - 1);
    }
}

/// The list after the elements at `idxs` were removed, the last of them first.
pub open spec fn spec_removed_all(
    v: TrackListView<Record>,
    idxs: Seq<usize>,
) -> TrackListView<Record>
    decreases idxs.len(),
{
    if idxs.len() == 0 {
        v
    } else {
        spec_removed_all(v.removed(idxs.last() as int), idxs.drop_last())
    }
}

/// The elements that left the list when those at `idxs` were removed, the
/// last of them first.
pub open spec fn spec_taken(v: TrackListView<Record>, idxs: Seq<usize>) -> Seq<Record>
    decreases idxs.len(),
{
    if idxs.len() == 0 {
        Seq::empty()
    } else {
        let first = if idxs.last() < v.ring.len() {
            seq![v.ring[idxs.last() as int]]
        } else {
            Seq::empty()
        };
        first + spec_taken(v.removed(idxs.last() as int), idxs.drop_last())
    }
}

/// The record with an event of kind `typ` at `now` added to its score, if the
/// cooldown has passed.
pub open spec fn spec_visited(
    before: Record,
    after: Record,
    typ: FrecencyType,
    now: Timestamp,
    conf: FrecencyConfig,
) -> bool {
    &&& after == (Record { frecency: after.frecency, ..before })
    &&& after.frecency@ == Record::spec_logged(before.frecency@, typ, now, conf.cooldown_seconds)
}

impl Tracker {
    /// A tracker with an empty list that was last written out at `now`.
    pub fn new(now: u64) -> (t: Self)
        ensures
            t@.list.ring == Seq::<Record>::empty(),
            t@.list.pos is None,
            t@.latest_flush == now,
            t@.visited_bufs == Map::<i32, Tick>::empty(),
            t@.latest_buf is None,
    {
        Self {
            list: TrackList::default(),
            latest_flush: now,
            visited_bufs: HashMap::new(),
            latest_buf: None,
        }
    }

    /// Whether, at `now`, it is time to write the list out again.
    pub fn persist_due(&self, now: u64) -> (due: bool)
        ensures
            due == (now >= self@.latest_flush && now - self@.latest_flush
                >= FLUSH_INTERVAL_MILLIS),
    {
        now >= self.latest_flush && now - self.latest_flush >= FLUSH_INTERVAL_MILLIS
    }

    /// The list was written out at `now`.
    pub fn persisted(&mut self, now: u64)
        ensures
            final(self)@ == (TrackerView { latest_flush: now, ..old(self)@ }),
    {
        self.latest_flush = now;
    }

    /// Replaces the list, as when one was read from disk.
    pub fn load_state(&mut self, list: TrackList<Record>)
        ensures
            final(self)@ == (TrackerView { list: list@, ..old(self)@ }),
    {
        self.list = list;
    }

    /// Forgets the buffer of the latest look, so that the next change is not
    /// taken for one made by hand.
    pub fn unset_latest_buf(&mut self)
        ensures
            final(self)@ == (TrackerView { latest_buf: None, ..old(self)@ }),
    {
        self.latest_buf = None;
    }

    /// Whether tracking goes on for a buffer that is special or not, with the
    /// editor in `mode` (or in none that could be read). In a special buffer,
    /// on the command line and in a terminal it does not, and the latest
    /// buffer is forgotten; while text is inserted, or with no mode, it does
    /// not either.
    pub fn gate(&mut self, special_buf: bool, mode: Option<EditorMode>) -> (go: bool)
        ensures
            go == (!special_buf && mode == Some(EditorMode::Other)),
            final(self)@ == if special_buf || mode == Some(EditorMode::CmdLine) || mode == Some(
                EditorMode::InsertCmdLine,
            ) || mode == Some(EditorMode::Terminal) {
                TrackerView { latest_buf: None, ..old(self)@ }
            } else {
                old(self)@
            },
    {
        if special_buf {
            self.unset_latest_buf();
            return false;
        }
        match mode {
            Some(EditorMode::CmdLine) | Some(EditorMode::InsertCmdLine) | Some(
                EditorMode::Terminal,
            ) => {
                self.unset_latest_buf();
                false
            },
            Some(EditorMode::Insert) => false,
            Some(EditorMode::Other) => true,
            None => false,
        }
    }

    /// Notes that the buffer `curr_buf` is looked at and has the tick
    /// `tick_new`, and says what that means.
    pub fn record_first_buf_visit(&mut self, curr_buf: i32, tick_new: Tick) -> (visit: BufVisit)
        ensures
            final(self)@.list == old(self)@.list,
            final(self)@.latest_flush == old(self)@.latest_flush,
            final(self)@.latest_buf == Some(curr_buf),
            visit == if old(self)@.visited_bufs.contains_key(curr_buf) {
                if old(self)@.visited_bufs[curr_buf] == tick_new {
                    BufVisit::Same
                } else {
                    BufVisit::Changed(old(self)@.latest_buf)
                }
            } else {
                BufVisit::First
            },
            final(self)@.visited_bufs == match visit {
                BufVisit::Same => old(self)@.visited_bufs,
                BufVisit::Changed(_) => old(self)@.visited_bufs.insert(curr_buf, tick_new),
                BufVisit::First => old(self)@.visited_bufs.insert(
                    curr_buf,
                    Tick(INITIAL_CHANGEDTICK),
                ),
            },
    {
        broadcast use vstd::std_specs::hash::group_hash_axioms;

        let latest_buf = self.latest_buf;
        self.latest_buf = Some(curr_buf);
        let prev: Option<Tick> = match self.visited_bufs.get(&curr_buf) {
            Some(t) => Some(*t),
            None => None,
        };
        match prev {
            Some(prev_tick) => {
                if prev_tick == tick_new {
                    BufVisit::Same
                } else {
                    self.visited_bufs.insert(curr_buf, tick_new);
                    BufVisit::Changed(latest_buf)
                }
            },
            None => {
                self.visited_bufs.insert(curr_buf, Tick(INITIAL_CHANGEDTICK));
                BufVisit::First
            },
        }
    }

    /// Whether a change seen in the buffer `buf` becomes a record: the tick
    /// has changed, the buffer is modified and not ignored, and the look
    /// before was at the same buffer.
    pub fn wants_record(visit: BufVisit, modified: bool, ignored: bool, buf: i32) -> (b: bool)
        ensures
            b == (visit == BufVisit::Changed(Some(buf)) && modified && !ignored),
    {
        match visit {
            BufVisit::Changed(Some(latest)) => modified && !ignored && latest == buf,
            _ => false,
        }
    }

    /// The first record that is inactive.
    pub fn first_inactive_idx(&self) -> (r: Option<usize>)
        ensures
            match r {
                Some(i) => {
                    &&& i < self@.list.ring.len()
                    &&& !self@.list.ring[i as int].spec_is_active()
                    &&& forall|j: int| 0 <= j < i ==> (#[trigger] self@.list.ring[j]).spec_is_active()
                },
                None => forall|j: int|
                    0 <= j < self@.list.ring.len() ==> (
                    #[trigger] self@.list.ring[j]).spec_is_active(),
            },
    {
        let n = self.list.len();
        let mut i: usize = 0;
        while i < n
            invariant
                i <= n,
                n == self@.list.ring.len(),
                forall|j: int| 0 <= j < i ==> (#[trigger] self@.list.ring[j]).spec_is_active(),
            decreases n - i,
        {
            if let Some(r) = self.list.get(i) {
                if !r.is_active() {
                    return Some(i);
                }
            }
            i += 1;
        }
        None
    }

    /// The list after its first inactive record was given the mark `extmark`:
    /// the record is loaded and the one behind it is told that it is past.
    pub open spec fn spec_activated(
        v: TrackListView<Record>,
        i: int,
        extmark: Extmark,
    ) -> TrackListView<Record> {
        let loaded = Record {
            lazy_extmark: LazyExtmark::Loaded(extmark),
            redraw: None,
            ..v.ring[i]
        };
        TrackListView {
            ring: relabelled(v.ring.update(i, loaded), i + 1, RecordMarkTime::Past),
            pos: v.pos,
        }
    }

    /// Makes the first inactive record active, after the editor has set the
    /// mark `extmark` for it. Says whether there was such a record.
    pub fn activate_first(&mut self, extmark: Extmark) -> (done: bool)
        ensures
            final(self)@ == (TrackerView { list: final(self)@.list, ..old(self)@ }),
            done == exists|j: int|
                0 <= j < old(self)@.list.ring.len() && !(#[trigger] old(self)@.list.ring[j]).spec_is_active(),
            !done ==> final(self)@.list == old(self)@.list,
            done ==> exists|i: int|
                {
                    &&& 0 <= i < old(self)@.list.ring.len()
                    &&& !(#[trigger] old(self)@.list.ring[i]).spec_is_active()
                    &&& forall|j: int|
                        0 <= j < i ==> (#[trigger] old(self)@.list.ring[j]).spec_is_active()
                    &&& final(self)@.list == Self::spec_activated(old(self)@.list, i, extmark)
                },
    {
        let i = match self.first_inactive_idx() {
            Some(i) => i,
            None => return false,
        };
        proof {
            self.list.lemma_len_bounded();
        }
        if let Some(r) = self.list.get_mut(i) {
            r.set_loaded(extmark);
        }
        if i < usize::MAX {
            if let Some(next) = self.list.get_mut(i + 1) {
                next.as_past();
            }
        }
        true
    }

    /// The first record in `buf` that is near `pos`, given what the editor
    /// reports of each record's mark.
    pub fn nearby_idx(
        &self,
        buf: i32,
        pos: CursorPosition,
        reported: &Vec<Option<CursorPosition>>,
        conf: &UpdateRange,
    ) -> (r: Option<usize>)
        requires
            reported@.len() == self@.list.ring.len(),
        ensures
            match r {
                Some(i) => {
                    &&& i < self@.list.ring.len()
                    &&& spec_is_near(self@.list.ring, reported@, *conf, buf, pos, i as int)
                    &&& forall|j: int|
                        0 <= j < i ==> !#[trigger] spec_is_near(
                            self@.list.ring,
                            reported@,
                            *conf,
                            buf,
                            pos,
                            j,
                        )
                },
                None => forall|j: int|
                    0 <= j < self@.list.ring.len() ==> !#[trigger] spec_is_near(
                        self@.list.ring,
                        reported@,
                        *conf,
                        buf,
                        pos,
                        j,
                    ),
            },
    {
        self.nearby_idx_below(buf, pos, reported, conf, self.list.len())
    }

    /// The first record before `end` that is in `buf` and near `pos`.
    fn nearby_idx_below(
        &self,
        buf: i32,
        pos: CursorPosition,
        reported: &Vec<Option<CursorPosition>>,
        conf: &UpdateRange,
        end: usize,
    ) -> (r: Option<usize>)
        requires
            reported@.len() == self@.list.ring.len(),
            end <= self@.list.ring.len(),
        ensures
            match r {
                Some(i) => {
                    &&& i < end
                    &&& spec_is_near(self@.list.ring, reported@, *conf, buf, pos, i as int)
                    &&& forall|j: int|
                        0 <= j < i ==> !#[trigger] spec_is_near(
                            self@.list.ring,
                            reported@,
                            *conf,
                            buf,
                            pos,
                            j,
                        )
                },
                None => forall|j: int|
                    0 <= j < end ==> !#[trigger] spec_is_near(
                        self@.list.ring,
                        reported@,
                        *conf,
                        buf,
                        pos,
                        j,
                    ),
            },
    {
        let mut i: usize = 0;
        while i < end
            invariant
                i <= end <= self@.list.ring.len(),
                reported@.len() == self@.list.ring.len(),
                forall|j: int|
                    0 <= j < i ==> !#[trigger] spec_is_near(
                        self@.list.ring,
                        reported@,
                        *conf,
                        buf,
                        pos,
                        j,
                    ),
            decreases end - i,
        {
            if let Some(r) = self.list.get(i) {
                if r.buf == buf && r.lazy_extmark.pos(reported[i]).is_nearby(&pos, conf) {
                    return Some(i);
                }
            }
            i += 1;
        }
        None
    }

    /// The list after a change at `pos` in `buf`, at the tick `tick`, was
    /// tracked: the record `target`, which is near, is moved there and made
    /// inactive in the slot of the close past; with no record near, a new
    /// inactive one is put in that slot.
    pub open spec fn spec_tracked(
        v: TrackListView<Record>,
        target: Option<usize>,
        after: Record,
    ) -> TrackListView<Record> {
        match target {
            Some(i) => (TrackListView { ring: v.ring.update(i as int, after), pos: v.pos })
                .deactivated(i as int),
            None => v.pushed_inactive(after),
        }
    }

    /// Tracks a change at `pos` in `buf`, seen at the tick `tick`: the record
    /// `target` is updated and becomes the inactive close past; with no
    /// target a new inactive record becomes that.
    pub fn track_change(
        &mut self,
        target: Option<usize>,
        buf: i32,
        tick: Tick,
        pos: CursorPosition,
        since: u64,
        now: Timestamp,
        conf: &FrecencyConfig,
    )
        requires
            old(self)@.list.wf(),
            target matches Some(i) ==> i < old(self)@.list.ring.len(),
        ensures
            final(self)@ == (TrackerView { list: final(self)@.list, ..old(self)@ }),
            final(self)@.list.wf(),
            exists|after: Record|
                {
                    &&& #[trigger] Self::spec_tracked(old(self)@.list, target, after) == final(self)@.list
                    &&& after.typ == TypeRecord::Change(ChangeTypeRecord::Tick(tick))
                    &&& after.lazy_extmark == LazyExtmark::Inactive(
                        (pos, RecordMarkTime::PastClose, since),
                    )
                    &&& after.redraw is None
                    &&& match target {
                        Some(i) => {
                            &&& after.buf == old(self)@.list.ring[i as int].buf
                            &&& after.frecency@ == Record::spec_logged(
                                old(self)@.list.ring[i as int].frecency@,
                                FrecencyType::Update,
                                now,
                                conf.cooldown_seconds,
                            )
                        },
                        None => {
                            &&& after.buf == buf
                            &&& after.frecency@ == seq![(now@, FrecencyType::Create)]
                        },
                    }
                },
    {
        match target {
            Some(i) => {
                if let Some(r) = self.list.get_mut(i) {
                    r.deact_update(
                        TypeRecord::from_tick(tick),
                        pos,
                        RecordMarkTime::PastClose,
                        since,
                        now,
                        conf,
                    );
                }
                let ghost after = self@.list.ring[i as int];
                self.list.make_inactive(i);
                assert(Self::spec_tracked(old(self)@.list, target, after) == self@.list);
            },
            None => {
                let record = Record::new_inactive(
                    buf,
                    TypeRecord::from_tick(tick),
                    pos,
                    since,
                    now,
                );
                self.list.push_inactive(record);
                assert(Self::spec_tracked(old(self)@.list, target, record) == self@.list);
            },
        }
    }

    /// The indices, in ascending order, of the records that `doomed` says are
    /// to go.
    fn indices_of(doomed: &Vec<bool>) -> (idxs: Vec<usize>)
        ensures
            idxs@ == spec_indices_where(|j: int| doomed@[j], doomed@.len() as int),
    {
        let n = doomed.len();
        let mut idxs: Vec<usize> = Vec::new();
        let mut j: usize = 0;
        while j < n
            invariant
                j <= n,
                n == doomed@.len(),
                idxs@ == spec_indices_where(|j: int| doomed@[j], j as int),
            decreases n - j,
        {
            if doomed[j] {
                idxs.push(j);
            }
            j += 1;
        }
        idxs
    }

    /// The records that are merged away: each record of `buf` that is near a
    /// record of `buf` standing before it in the ring.
    pub fn merge_indices(
        &self,
        buf: i32,
        reported: &Vec<Option<CursorPosition>>,
        conf: &UpdateRange,
    ) -> (idxs: Vec<usize>)
        requires
            reported@.len() == self@.list.ring.len(),
        ensures
            idxs@ == spec_indices_where(
                |j: int| spec_is_merged(self@.list.ring, reported@, *conf, buf, j),
                self@.list.ring.len() as int,
            ),
    {
        let n = self.list.len();
        let mut doomed: Vec<bool> = Vec::new();
        let mut j: usize = 0;
        while j < n
            invariant
                j <= n,
                n == self@.list.ring.len(),
                reported@.len() == n,
                doomed@.len() == j,
                forall|k: int|
                    0 <= k < j ==> (#[trigger] doomed@[k]) == spec_is_merged(
                        self@.list.ring,
                        reported@,
                        *conf,
                        buf,
                        k,
                    ),
            decreases n - j,
        {
            let mut merged = false;
            if let Some(r) = self.list.get(j) {
                if r.buf == buf {
                    let pos = r.lazy_extmark.pos(reported[j]);
                    let near = self.nearby_idx_below(buf, pos, reported, conf, j);
                    merged = near.is_some();
                    assert(merged == spec_is_merged(
                        self@.list.ring,
                        reported@,
                        *conf,
                        buf,
                        j as int,
                    )) by {
                        if let Some(i) = near {
                            assert(spec_is_near(
                                self@.list.ring,
                                reported@,
                                *conf,
                                buf,
                                spec_record_pos(self@.list.ring, reported@, j as int),
                                i as int,
                            ));
                        }
                    }
                }
            }
            doomed.push(merged);
            j += 1;
        }
        let idxs = Self::indices_of(&doomed);
        proof {
            lemma_indices_where_agree(
                |j: int| doomed@[j],
                |j: int| spec_is_merged(self@.list.ring, reported@, *conf, buf, j),
                n as int,
            );
        }
        idxs
    }

    /// Removes the records at `idxs`, the last index first, and hands them
    /// out in the order in which they left.
    pub fn remove_indices(&mut self, idxs: &Vec<usize>) -> (taken: Vec<Record>)
        ensures
            final(self)@ == (TrackerView {
                list: spec_removed_all(old(self)@.list, idxs@),
                ..old(self)@
            }),
            taken@ == spec_taken(old(self)@.list, idxs@),
    {
        let mut taken: Vec<Record> = Vec::new();
        let mut k: usize = idxs.len();
        assert(idxs@.take(k as int) =~= idxs@);
        while k > 0
            invariant
                k <= idxs@.len(),
                self@ == (TrackerView { list: self@.list, ..old(self)@ }),
                spec_removed_all(self@.list, idxs@.take(k as int)) == spec_removed_all(
                    old(self)@.list,
                    idxs@,
                ),
                taken@ + spec_taken(self@.list, idxs@.take(k as int)) == spec_taken(
                    old(self)@.list,
                    idxs@,
                ),
            decreases k,
        {
            let ghost head = idxs@.take(k as int);
            k -= 1;
            assert(head.drop_last() =~= idxs@.take(k as int));
            if let Some(r) = self.list.remove(idxs[k]) {
                taken.push(r);
            }
        }
        taken
    }

    /// Merges the records of `buf` that stand near each other: of such
    /// records only the one nearest to the future stays. The records that
    /// left are handed out, so that their marks can be deleted.
    pub fn merge(
        &mut self,
        buf: i32,
        reported: &Vec<Option<CursorPosition>>,
        conf: &UpdateRange,
    ) -> (taken: Vec<Record>)
        requires
            reported@.len() == old(self)@.list.ring.len(),
        ensures
            ({
                let idxs = spec_indices_where(
                    |j: int| spec_is_merged(old(self)@.list.ring, reported@, *conf, buf, j),
                    old(self)@.list.ring.len() as int,
                );
                &&& final(self)@ == (TrackerView {
                    list: spec_removed_all(old(self)@.list, idxs),
                    ..old(self)@
                })
                &&& taken@ == spec_taken(old(self)@.list, idxs)
            }),
    {
        let idxs = self.merge_indices(buf, reported, conf);
        self.remove_indices(&idxs)
    }

    /// Removes the records whose buffer is not among `existing`, the buffers
    /// whose file is still there.
    pub fn remove_deleted_file_records(&mut self, existing: &Vec<i32>) -> (taken: Vec<Record>)
        ensures
            ({
                let idxs = spec_indices_where(
                    |j: int| !existing@.contains(old(self)@.list.ring[j].buf),
                    old(self)@.list.ring.len() as int,
                );
                &&& final(self)@ == (TrackerView {
                    list: spec_removed_all(old(self)@.list, idxs),
                    ..old(self)@
                })
                &&& taken@ == spec_taken(old(self)@.list, idxs)
            }),
    {
        let n = self.list.len();
        let mut doomed: Vec<bool> = Vec::new();
        let mut j: usize = 0;
        while j < n
            invariant
                j <= n,
                n == self@.list.ring.len(),
                self@ == old(self)@,
                doomed@.len() == j,
                forall|k: int|
                    0 <= k < j ==> (#[trigger] doomed@[k]) == !existing@.contains(
                        self@.list.ring[k].buf,
                    ),
            decreases n - j,
        {
            let mut gone = false;
            if let Some(r) = self.list.get(j) {
                gone = !Self::contains_buf(existing, r.buf);
            }
            doomed.push(gone);
            j += 1;
        }
        let idxs = Self::indices_of(&doomed);
        proof {
            lemma_indices_where_agree(
                |j: int| doomed@[j],
                |j: int| !existing@.contains(old(self)@.list.ring[j].buf),
                n as int,
            );
        }
        self.remove_indices(&idxs)
    }

    fn contains_buf(bufs: &Vec<i32>, buf: i32) -> (b: bool)
        ensures
            b == bufs@.contains(buf),
    {
        let mut i: usize = 0;
        while i < bufs.len()
            invariant
                i <= bufs@.len(),
                forall|k: int| 0 <= k < i ==> bufs@[k] != buf,
            decreases bufs@.len() - i,
        {
            if bufs[i] == buf {
                return true;
            }
            i += 1;
        }
        false
    }

    /// Whether a record of the list has the mark `id` in the buffer `buf`. A
    /// mark of the editor that no record has is a leaked one.
    pub fn is_tracked(&self, buf: i32, id: u32) -> (b: bool)
        ensures
            b == exists|j: int|
                0 <= j < self@.list.ring.len() && (#[trigger] self@.list.ring[j]).spec_has_mark(
                    buf,
                    id,
                ),
    {
        let n = self.list.len();
        let mut j: usize = 0;
        while j < n
            invariant
                j <= n,
                n == self@.list.ring.len(),
                forall|k: int|
                    0 <= k < j ==> !(#[trigger] self@.list.ring[k]).spec_has_mark(buf, id),
            decreases n - j,
        {
            if let Some(r) = self.list.get(j) {
                if r.buf == buf && r.lazy_extmark.id() == Some(id) {
                    return true;
                }
            }
            j += 1;
        }
        false
    }

    /// Whether it is time to make the first inactive record active: text is
    /// not being inserted and some record has waited for `debounce`
    /// milliseconds or more.
    pub fn activation_due(&self, insert_mode: bool, now: u64, debounce: u64) -> (due: bool)
        ensures
            due == (!insert_mode && exists|j: int|
                0 <= j < self@.list.ring.len() && (#[trigger] self@.list.ring[j]).spec_is_ready(
                    now,
                    debounce,
                )),
    {
        if insert_mode {
            return false;
        }
        let n = self.list.len();
        let mut j: usize = 0;
        while j < n
            invariant
                j <= n,
                n == self@.list.ring.len(),
                !insert_mode,
                forall|k: int|
                    0 <= k < j ==> !(#[trigger] self@.list.ring[k]).spec_is_ready(now, debounce),
            decreases n - j,
        {
            if let Some(r) = self.list.get(j) {
                if r.is_ready(now, debounce) {
                    return true;
                }
            }
            j += 1;
        }
        false
    }

    /// Steps to the nearest active record towards the past and counts the
    /// visit in its score. Gives the index of the record stepped to, or
    /// `None`, with nothing changed, where there is none or its mark is not
    /// set.
    pub fn step_past(&mut self, now: Timestamp, conf: &FrecencyConfig) -> (r: Option<usize>)
        ensures
            final(self)@ == (TrackerView { list: final(self)@.list, ..old(self)@ }),
            match old(self)@.list.active_close_past() {
                Some(idx) if old(self)@.list.ring[idx].lazy_extmark is Loaded => {
                    let stepped = old(self)@.list.stepped_past(idx, old(self)@.list.ring[idx]);
                    &&& r == Some(idx as usize)
                    &&& final(self)@.list.pos == stepped.pos
                    &&& final(self)@.list.ring == stepped.ring.update(
                        idx,
                        final(self)@.list.ring[idx],
                    )
                    &&& spec_visited(
                        stepped.ring[idx],
                        final(self)@.list.ring[idx],
                        FrecencyType::RelativeGoto,
                        now,
                        *conf,
                    )
                },
                _ => r is None && final(self)@.list == old(self)@.list,
            },
    {
        let ghost before = self@.list;
        proof {
            lemma_first_active_from(before.ring, before.close_past_idx());
        }
        match self.list.step_past() {
            Some(record) => {
                record.goto(FrecencyType::RelativeGoto, now, conf);
            },
            None => {
                assert(self@.list.ring =~= before.ring);
                return None;
            },
        }
        self.list.cursor()
    }

    /// Steps one record towards the future and counts the visit in the score
    /// of the record that the cursor left. Gives the index of that record, or
    /// `None`, with nothing changed, where the cursor is on no record or on
    /// one whose mark is not set.
    pub fn step_future(&mut self, now: Timestamp, conf: &FrecencyConfig) -> (r: Option<usize>)
        ensures
            final(self)@ == (TrackerView { list: final(self)@.list, ..old(self)@ }),
            match old(self)@.list.pos {
                Some(p) if old(self)@.list.wf() && old(self)@.list.ring[p as int].lazy_extmark
                    is Loaded => {
                    let stepped = old(self)@.list.stepped_future(
                        p as int,
                        old(self)@.list.ring[p as int],
                    );
                    &&& r == Some(p)
                    &&& final(self)@.list.pos == stepped.pos
                    &&& final(self)@.list.ring == stepped.ring.update(
                        p as int,
                        final(self)@.list.ring[p as int],
                    )
                    &&& spec_visited(
                        stepped.ring[p as int],
                        final(self)@.list.ring[p as int],
                        FrecencyType::RelativeGoto,
                        now,
                        *conf,
                    )
                },
                _ => r is None && final(self)@.list == old(self)@.list,
            },
    {
        let ghost before = self@.list;
        let p = self.list.cursor();
        match self.list.step_future() {
            Some(record) => {
                record.goto(FrecencyType::RelativeGoto, now, conf);
            },
            None => {
                assert(self@.list.ring =~= before.ring);
                return None;
            },
        }
        p
    }

    /// Counts a visit by index in the score of the record at `idx_record`.
    /// Fails, with nothing changed, where there is no such record.
    pub fn goto_absolute(&mut self, idx_record: usize, now: Timestamp, conf: &FrecencyConfig) -> (r:
        Result<(), Error>)
        ensures
            final(self)@ == (TrackerView { list: final(self)@.list, ..old(self)@ }),
            final(self)@.list.pos == old(self)@.list.pos,
            r is Ok == (idx_record < old(self)@.list.ring.len()),
            r matches Err(e) ==> e matches Error::Input(InputError::NoRecords(_)) && final(self)@.list == old(self)@.list,
            r is Ok ==> {
                &&& final(self)@.list.ring == old(self)@.list.ring.update(
                    idx_record as int,
                    final(self)@.list.ring[idx_record as int],
                )
                &&& spec_visited(
                    old(self)@.list.ring[idx_record as int],
                    final(self)@.list.ring[idx_record as int],
                    FrecencyType::AbsoluteGoto,
                    now,
                    *conf,
                )
            },
    {
        match self.list.get_mut(idx_record) {
            Some(record) => {
                record.goto(FrecencyType::AbsoluteGoto, now, conf);
                Ok(())
            },
            None => {
                let idx = idx_record.to_string();
                Err(
                    Error::Input(
                        InputError::NoRecords(
                            String::from_str(
                                "non-existent index for absolute goto provided: ",
                            ).concat(idx.as_str()),
                        ),
                    ),
                )
            },
        }
    }

    /// Removes the nearest active record towards the past and hands it out.
    /// Gives `None`, with nothing changed, where there is none or its mark is
    /// not set.
    pub fn pop_past(&mut self) -> (r: Option<Record>)
        ensures
            final(self)@ == (TrackerView { list: final(self)@.list, ..old(self)@ }),
            match old(self)@.list.active_close_past() {
                Some(idx) if old(self)@.list.ring[idx].lazy_extmark is Loaded => {
                    &&& r == Some(old(self)@.list.ring[idx])
                    &&& final(self)@.list == old(self)@.list.popped_past(idx)
                },
                _ => r is None && final(self)@.list == old(self)@.list,
            },
    {
        let ghost before = self@.list;
        proof {
            lemma_first_active_from(before.ring, before.close_past_idx());
        }
        let r = self.list.pop_past();
        assert(r is None ==> self@.list.ring =~= before.ring && self@.list.pos == before.pos);
        r
    }

    /// Removes the record under the cursor and hands it out. Gives `None`,
    /// with nothing changed, where the cursor is on no record or on one whose
    /// mark is not set.
    pub fn pop_future(&mut self) -> (r: Option<Record>)
        ensures
            final(self)@ == (TrackerView { list: final(self)@.list, ..old(self)@ }),
            match old(self)@.list.pos {
                Some(p) if old(self)@.list.wf() && old(self)@.list.ring[p as int].lazy_extmark
                    is Loaded => {
                    &&& r == Some(old(self)@.list.ring[p as int])
                    &&& final(self)@.list == old(self)@.list.popped_future(p as int)
                },
                _ => r is None && final(self)@.list == old(self)@.list,
            },
    {
        let ghost before = self@.list;
        let r = self.list.pop_future();
        assert(r is None ==> self@.list.ring =~= before.ring && self@.list.pos == before.pos);
        r
    }
}

} // verus!
