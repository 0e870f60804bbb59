//! A list as it is kept between two runs of the editor: the cursor and, of
//! each record, the buffer, the kind, the score and the place.

use crate::common_types::cursor_position::CursorPosition;
use crate::state::frecency::Frecency;
use crate::state::record::{LazyExtmark, Record, TypeRecord};
use crate::state::track_list::TrackList;
use crate::ui::record_mark::{recreate_mark_time, spec_mark_time};
use vstd::prelude::*;

verus! {

/// The layout of what is written out.
#[derive(Debug, Clone, Copy, PartialEq, Eq, Structural)]
pub enum Version {
    One,
}

impl Default for Version {
    fn default() -> (v: Self)
        ensures
            v == Version::One,
    {
        Version::One
    }
}

/// A record as it is written out.
#[derive(Debug, Clone, PartialEq, Eq)]
pub struct PersistentRecord {
    pub buf_handle: i32,
    pub typ: TypeRecord,
    pub frecency: Frecency,
    pub cursor_pos: CursorPosition,
}

/// The cursor and the records of a list as they are written out.
#[derive(Debug, Clone, PartialEq, Eq)]
pub struct DataSession {
    pub pos: Option<usize>,
    pub records: Vec<PersistentRecord>,
}

/// A list as it is written out, with the layout it is written in.
#[derive(Debug, Clone, PartialEq, Eq)]
pub struct Session {
    pub version: Version,
    pub data: DataSession,
}

/// What is written out of `record`, whose mark the editor reports at
/// `reported`.
pub open spec fn spec_persisted(
    record: Record,
    reported: Option<CursorPosition>,
    out: PersistentRecord,
) -> bool {
    &&& out.buf_handle == record.buf
    &&& out.typ == record.typ
    &&& out.frecency@ == record.frecency@
    &&& out.cursor_pos == record.lazy_extmark.spec_pos(reported)
}

/// The record that is made of what was written out of the record at `i` of a
/// list with the cursor `pos`: its mark is not yet set, and is to be set in
/// the band that the place in the list calls for.
pub open spec fn spec_restored(
    saved: PersistentRecord,
    i: int,
    pos: Option<usize>,
    record: Record,
) -> bool {
    &&& record.buf == saved.buf_handle
    &&& record.typ == saved.typ
    &&& record.frecency@ == saved.frecency@
    &&& record.lazy_extmark == LazyExtmark::Unloaded((saved.cursor_pos, spec_mark_time(i, pos)))
    &&& record.redraw is None
}

/// How many of the first `n` buffers are still there.
pub open spec fn spec_count_valid(valid: Seq<bool>, n: int) -> int
    decreases n,
{
    if n <= 0 {
        0
    } else {
        spec_count_valid(valid, n - 1) + if valid[n - 1] {
            1int
        } else {
            0int
        }
    }
}

impl PersistentRecord {
    /// What is written out of `record`, whose mark the editor reports at
    /// `reported`.
    pub fn from_record(record: &Record, reported: Option<CursorPosition>) -> (out: Self)
        ensures
            spec_persisted(*record, reported, out),
    {
        Self {
            buf_handle: record.buf,
            typ: record.typ,
            frecency: record.frecency.duplicate(),
            cursor_pos: record.lazy_extmark.pos(reported),
        }
    }
}

impl Session {
    /// What is written out of `list`, given where the editor reports the mark
    /// of each record.
    pub fn from_list(list: &TrackList<Record>, reported: &Vec<Option<CursorPosition>>) -> (s: Self)
        requires
            reported@.len() == list@.ring.len(),
        ensures
            s.version == Version::One,
            s.data.pos == list@.pos,
            s.data.records@.len() == list@.ring.len(),
            forall|i: int|
                0 <= i < list@.ring.len() ==> spec_persisted(
                    list@.ring[i],
                    reported@[i],
                    #[trigger] s.data.records@[i],
                ),
    {
        let n = list.len();
        let mut records: Vec<PersistentRecord> = Vec::with_capacity(n);
        let mut i: usize = 0;
        while i < n
            invariant
                i <= n,
                n == list@.ring.len(),
                reported@.len() == n,
                records@.len() == i,
                forall|k: int|
                    0 <= k < i ==> spec_persisted(
                        list@.ring[k],
                        reported@[k],
                        #[trigger] records@[k],
                    ),
            decreases n - i,
        {
            if let Some(r) = list.get(i) {
                records.push(PersistentRecord::from_record(r, reported[i]));
            }
            i += 1;
        }
        Self { version: Version::default(), data: DataSession { pos: list.cursor(), records } }
    }

    /// The list made of what was written out: the cursor as it was, and the
    /// records whose buffer is still there, as `valid` says of each, in
    /// their order.
    pub fn into_list(&self, valid: &Vec<bool>) -> (list: TrackList<Record>)
        requires
            valid@.len() == self.data.records@.len(),
        ensures
            list@.pos == self.data.pos,
            list@.ring.len() == spec_count_valid(valid@, valid@.len() as int),
            forall|i: int|
                0 <= i < valid@.len() && #[trigger] valid@[i] ==> spec_restored(
                    self.data.records@[i],
                    i,
                    self.data.pos,
                    list@.ring[spec_count_valid(valid@, i)],
                ),
    {
        let n = self.data.records.len();
        let mut list: TrackList<Record> = TrackList::with_capacity(n, self.data.pos);
        let mut i: usize = 0;
        while i < n
            invariant
                i <= n,
                n == self.data.records@.len(),
                valid@.len() == n,
                list@.pos == self.data.pos,
                list@.ring.len() == spec_count_valid(valid@, i as int),
                forall|k: int|
                    0 <= k < i && #[trigger] valid@[k] ==> spec_restored(
                        self.data.records@[k],
                        k,
                        self.data.pos,
                        list@.ring[spec_count_valid(valid@, k)],
                    ),
            decreases n - i,
        {
            if valid[i] {
                let saved = &self.data.records[i];
                list.push_plain(
                    Record {
                        buf: saved.buf_handle,
                        typ: saved.typ,
                        lazy_extmark: LazyExtmark::Unloaded(
                            (saved.cursor_pos, recreate_mark_time(i, self.data.pos)),
                        ),
                        frecency: saved.frecency.duplicate(),
                        redraw: None,
                    },
                );
                assert forall|k: int| 0 <= k < i && #[trigger] valid@[k] implies spec_restored(
                    self.data.records@[k],
                    k,
                    self.data.pos,
                    list@.ring[spec_count_valid(valid@, k)],
                ) by {
                    lemma_count_valid_below(valid@, k, i as int);
                }
            }
            i += 1;
        }
        list
    }
}

/// A buffer that is still there is counted after all before it: fewer are
/// counted up to it than up to any place behind it.
pub proof fn lemma_count_valid_below(valid: Seq<bool>, k: int, n: int)
    requires
        0 <= k < n <= valid.len(),
        valid[k],
    ensures
        0 <= spec_count_valid(valid, k) < spec_count_valid(valid, n),
    decreases n,
{
    lemma_count_valid_bounds(valid, k);
    if n > k + 1 {
        lemma_count_valid_below(valid, k, n - 1);
    }
}

/// No more buffers are counted than there are.
pub proof fn lemma_count_valid_bounds(valid: Seq<bool>, n: int)
    requires
        0 <= n,
    ensures
        0 <= spec_count_valid(valid, n) <= n,
    decreases n,
{
    if n > 0 {
        lemma_count_valid_bounds(valid, n - 1);
    }
}

} // verus!
