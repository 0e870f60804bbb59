//! The navigation list: an ordered ring of elements and one nullable cursor.
//!
//! Index 0 is the element nearest to the future. The cursor `pos` names the
//! element being viewed; the element right behind it, at `pos + 1`, is the
//! close past. With no cursor the whole ring is past and index 0 is the
//! close past.

use crate::common_types::timestamp::Timestamp;
use crate::config::frecency::FrecencyConfig;
use crate::state::frecency::FrecencyScore;
use crate::ui::record_mark::RecordMarkTime;
use std::collections::vec_deque::{Iter, IterMut};
use std::collections::VecDeque;
use std::iter::Rev;
use vstd::std_specs::iter::IteratorSpec;
use vstd::prelude::*;

pub mod laws;

verus! {

/// An element that can be told which band of the list it now belongs to.
///
/// Each notification is a function of the element alone: what the element is
/// afterwards is given by the matching `spec_as_*` function. An
/// implementation that does not say what that is leaves it open.
pub trait IndicateCloseness: Sized {
    open spec fn spec_as_past(self) -> Self {
        arbitrary()
    }

    open spec fn spec_as_future(self) -> Self {
        arbitrary()
    }

    open spec fn spec_as_close_past(self) -> Self {
        arbitrary()
    }

    open spec fn spec_as_close_future(self) -> Self {
        arbitrary()
    }

    fn as_past(&mut self)
        ensures
            *final(self) == old(self).spec_as_past(),
    ;

    fn as_future(&mut self)
        ensures
            *final(self) == old(self).spec_as_future(),
    ;

    fn as_close_past(&mut self)
        ensures
            *final(self) == old(self).spec_as_close_past(),
    ;

    fn as_close_future(&mut self)
        ensures
            *final(self) == old(self).spec_as_close_future(),
    ;
}

/// An element the editor's cursor can be moved to.
///
/// A jump may fail and may change the element either way; `jump_spec` relates
/// the element before, the element after and the outcome. An implementation
/// that does not say how allows every outcome.
pub trait Mark: Sized {
    open spec fn jump_spec(self, after: Self, ok: bool) -> bool {
        true
    }

    fn jump(&mut self) -> (ok: bool)
        ensures
            old(self).jump_spec(*final(self), ok),
    ;
}

/// An element that may be provisional: an inactive element is in the list but
/// is passed over when stepping towards the past.
pub trait Active {
    open spec fn spec_is_active(&self) -> bool {
        arbitrary()
    }

    fn is_active(&self) -> (b: bool)
        ensures
            b == self.spec_is_active(),
    ;
}

/// The element `x` after it was told that it belongs to the band `time`.
pub open spec fn labelled<T: IndicateCloseness>(x: T, time: RecordMarkTime) -> T {
    match time {
        RecordMarkTime::Past => x.spec_as_past(),
        RecordMarkTime::Future => x.spec_as_future(),
        RecordMarkTime::PastClose => x.spec_as_close_past(),
        RecordMarkTime::FutureClose => x.spec_as_close_future(),
    }
}

/// The ring after the element at `i`, if there is one, was told its band.
pub open spec fn relabelled<T: IndicateCloseness>(
    ring: Seq<T>,
    i: int,
    time: RecordMarkTime,
) -> Seq<T> {
    if 0 <= i < ring.len() {
        ring.update(i, labelled(ring[i], time))
    } else {
        ring
    }
}

/// The ring with the elements at `i` and `j` exchanged.
pub open spec fn swapped<T>(ring: Seq<T>, i: int, j: int) -> Seq<T> {
    ring.update(i, ring[j]).update(j, ring[i])
}

/// The ring with the element at `from` taken out and put back at `to`.
pub open spec fn moved<T>(ring: Seq<T>, from: int, to: int) -> Seq<T> {
    ring.remove(from).insert(to, ring[from])
}

/// The first index at or after `start` whose element is active.
pub open spec fn first_active_from<T: Active>(ring: Seq<T>, start: int) -> Option<int>
    decreases ring.len() - start,
{
    if start < 0 || start >= ring.len() {
        None
    } else if ring[start].spec_is_active() {
        Some(start)
    } else {
        first_active_from(ring, start + 1)
    }
}

/// `first_active_from` by its meaning: the index it gives holds an active
/// element and none before it, from `start` on, does; it gives none exactly
/// when no element from `start` on is active.
pub proof fn lemma_first_active_from<T: Active>(ring: Seq<T>, start: int)
    requires
        0 <= start,
    ensures
        match first_active_from(ring, start) {
            Some(idx) => {
                &&& start <= idx < ring.len()
                &&& ring[idx].spec_is_active()
                &&& forall|j: int| start <= j < idx ==> !(#[trigger] ring[j]).spec_is_active()
            },
            None => forall|j: int|
                start <= j < ring.len() ==> !(#[trigger] ring[j]).spec_is_active(),
        },
    decreases ring.len() - start,
{
    if start < ring.len() && !ring[start].spec_is_active() {
        lemma_first_active_from(ring, start + 1);
    }
}

/// Whether the element at `i` comes before the element at `j` in the order of
/// the frecency score at `now`: by its score, and among equal scores by its
/// place in the ring.
pub open spec fn ranks_before<T: FrecencyScore>(
    ring: Seq<T>,
    now: Timestamp,
    conf: &FrecencyConfig,
    i: int,
    j: int,
) -> bool {
    let si = ring[i].spec_total_score(now, conf);
    let sj = ring[j].spec_total_score(now, conf);
    si < sj || (si == sj && i < j)
}

/// What a list is to its callers: the elements, index 0 first, and the cursor.
pub ghost struct TrackListView<T> {
    pub ring: Seq<T>,
    pub pos: Option<usize>,
}

impl<T> TrackListView<T> {
    /// The cursor, if set, names an element of the ring.
    pub open spec fn wf(self) -> bool {
        self.pos matches Some(p) ==> p < self.ring.len()
    }

    /// The index of the close past: right behind the cursor, or the front.
    pub open spec fn close_past_idx(self) -> int {
        match self.pos {
            Some(p) => p + 1,
            None => 0,
        }
    }

    /// The cursor one step nearer to the future than `p`.
    pub open spec fn pos_before(p: int) -> Option<usize> {
        if p >= 1 {
            Some((p - 1) as usize)
        } else {
            None
        }
    }

    /// `val` stands at the far end of the past.
    pub open spec fn pushed_plain(self, val: T) -> Self {
        TrackListView { ring: self.ring.push(val), pos: self.pos }
    }

    /// `val` stands in the slot of the close past; no element was told anything.
    pub open spec fn pushed_inactive(self, val: T) -> Self {
        TrackListView { ring: self.ring.insert(self.close_past_idx(), val), pos: self.pos }
    }

    /// The list after one failed jump that left `mid` at `idx`.
    pub open spec fn jump_failed(self, idx: int, mid: T) -> Self {
        TrackListView { ring: self.ring.update(idx, mid), pos: self.pos }
    }
}

impl<T: IndicateCloseness> TrackListView<T> {
    /// `val` becomes the close past; the element that was is told it is past.
    pub open spec fn pushed(self, val: T) -> Self {
        let cp = self.close_past_idx();
        TrackListView {
            ring: relabelled(self.ring, cp, RecordMarkTime::Past).insert(cp, val),
            pos: self.pos,
        }
    }

    /// The cursor moves to `idx`, whose element a jump left as `mid`, and the
    /// neighbours are told their new bands.
    pub open spec fn stepped_past(self, idx: int, mid: T) -> Self {
        let r0 = self.ring.update(idx, labelled(mid, RecordMarkTime::FutureClose));
        let r1 = relabelled(r0, idx + 1, RecordMarkTime::PastClose);
        let r2 = relabelled(r1, idx + 2, RecordMarkTime::Past);
        let r3 = relabelled(r2, idx - 1, RecordMarkTime::Future);
        TrackListView { ring: r3, pos: Some(idx as usize) }
    }

    /// The cursor, at `p`, moves one step to the future; a jump left `mid` at
    /// `p`, which becomes the close past.
    pub open spec fn stepped_future(self, p: int, mid: T) -> Self {
        let r0 = self.ring.update(p, labelled(mid, RecordMarkTime::PastClose));
        let r1 = relabelled(r0, p + 1, RecordMarkTime::Past);
        let r2 = relabelled(r1, p - 1, RecordMarkTime::FutureClose);
        TrackListView { ring: r2, pos: Self::pos_before(p) }
    }

    /// The element at `idx` leaves the ring and the cursor comes to stand right
    /// before the gap; where elements were passed over on the way to `idx`,
    /// the two before the gap are told their bands too.
    pub open spec fn popped_past(self, idx: int) -> Self {
        let r0 = self.ring.remove(idx);
        let r1 = relabelled(r0, idx, RecordMarkTime::PastClose);
        let r2 = if idx != self.close_past_idx() {
            relabelled(
                relabelled(r1, idx - 1, RecordMarkTime::FutureClose),
                idx - 2,
                RecordMarkTime::Future,
            )
        } else {
            r1
        };
        TrackListView { ring: r2, pos: Self::pos_before(idx) }
    }

    /// The element under the cursor, at `p`, leaves the ring and the cursor
    /// moves one step to the future.
    pub open spec fn popped_future(self, p: int) -> Self {
        TrackListView {
            ring: relabelled(self.ring, p - 1, RecordMarkTime::FutureClose).remove(p),
            pos: Self::pos_before(p),
        }
    }

    /// The element at `i` leaves the ring. A cursor at or behind `i` moves one
    /// step to the future; where the cursor or the close past left, its
    /// successor is told its band.
    pub open spec fn removed(self, i: int) -> Self {
        if !(0 <= i < self.ring.len()) {
            self
        } else {
            match self.pos {
                Some(p) => if i == p + 1 {
                    TrackListView {
                        ring: relabelled(self.ring, i + 1, RecordMarkTime::PastClose).remove(i),
                        pos: self.pos,
                    }
                } else if i == p {
                    TrackListView {
                        ring: relabelled(self.ring, p - 1, RecordMarkTime::FutureClose).remove(i),
                        pos: Self::pos_before(p as int),
                    }
                } else if i < p {
                    TrackListView { ring: self.ring.remove(i), pos: Self::pos_before(p as int) }
                } else {
                    TrackListView { ring: self.ring.remove(i), pos: self.pos }
                },
                None => if i == 0 {
                    TrackListView {
                        ring: relabelled(self.ring, 1, RecordMarkTime::PastClose).remove(0),
                        pos: None,
                    }
                } else {
                    TrackListView { ring: self.ring.remove(i), pos: None }
                },
            }
        }
    }

    /// The element at `idx` becomes the close past.
    ///
    /// Nothing changes where it already is, or where `idx` names no element.
    /// Else it is told its band. In a ring of one the cursor is cleared. With
    /// no cursor it moves to the front. From the past, or from under the
    /// cursor, it moves right behind the cursor, which steps to the future
    /// where it stood on the element. From the future it changes places with
    /// the element under the cursor, the cursor steps to the future and the
    /// elements from `idx` up to the cursor turn right by one.
    pub open spec fn promoted(self, idx: int) -> Self {
        if idx == self.close_past_idx() || !(0 <= idx < self.ring.len()) {
            self
        } else {
            let r1 = relabelled(self.ring, idx, RecordMarkTime::PastClose);
            if self.ring.len() == 1 {
                TrackListView { ring: r1, pos: None }
            } else {
                match self.pos {
                    None => TrackListView {
                        ring: moved(relabelled(r1, 0, RecordMarkTime::Past), idx, 0),
                        pos: None,
                    },
                    Some(p) => if idx >= p {
                        let r2 = relabelled(r1, p + 1, RecordMarkTime::Past);
                        if idx > p + 1 {
                            TrackListView { ring: moved(r2, idx, p + 1), pos: self.pos }
                        } else {
                            TrackListView { ring: r2, pos: Self::pos_before(p as int) }
                        }
                    } else {
                        TrackListView {
                            ring: moved(swapped(r1, idx, p as int), p - 1, idx),
                            pos: Self::pos_before(p as int),
                        }
                    },
                }
            }
        }
    }

    /// The element at `idx`, which has just been made inactive, moves to the
    /// slot of the close past without being told anything; where it was that
    /// already, or stood under the cursor, the neighbour that takes its band
    /// is told so.
    pub open spec fn deactivated(self, idx: int) -> Self {
        if self.ring.len() == 1 {
            TrackListView { ring: self.ring, pos: None }
        } else {
            match self.pos {
                Some(p) => if idx == p + 1 {
                    TrackListView {
                        ring: relabelled(self.ring, idx + 1, RecordMarkTime::PastClose),
                        pos: self.pos,
                    }
                } else if idx > p {
                    TrackListView { ring: moved(self.ring, idx, p + 1), pos: self.pos }
                } else if idx < p {
                    TrackListView {
                        ring: moved(swapped(self.ring, idx, p as int), p - 1, idx),
                        pos: Self::pos_before(p as int),
                    }
                } else {
                    TrackListView {
                        ring: relabelled(self.ring, idx - 1, RecordMarkTime::FutureClose),
                        pos: Self::pos_before(p as int),
                    }
                },
                None => TrackListView {
                    ring: moved(
                        if idx == 0 {
                            relabelled(self.ring, 1, RecordMarkTime::PastClose)
                        } else {
                            self.ring
                        },
                        idx,
                        0,
                    ),
                    pos: None,
                },
            }
        }
    }
}

impl<T: Active> TrackListView<T> {
    /// The nearest active element at or behind the close past.
    pub open spec fn active_close_past(self) -> Option<int> {
        first_active_from(self.ring, self.close_past_idx())
    }
}

/// An ordered list of elements with one cursor into it.
#[derive(Clone, Debug, PartialEq, Eq)]
pub struct TrackList<T> {
    ring: VecDeque<T>,
    pub pos: Option<usize>,
}

impl<T> View for TrackList<T> {
    type V = TrackListView<T>;

    closed spec fn view(&self) -> TrackListView<T> {
        TrackListView { ring: self.ring@, pos: self.pos }
    }
}

/// `VecDeque::get_mut`: a mutable reference to the element at `i`, or `None`
/// when `i` is out of bounds. Whatever is written through the reference is
/// the element at `i` afterwards; nothing else in the deque changes.
#[verifier::external_body]
fn ring_get_mut<T>(ring: &mut VecDeque<T>, i: usize) -> (r: Option<&mut T>)
    ensures
        i >= old(ring)@.len() ==> r.is_none() && final(ring)@ == old(ring)@,
        i < old(ring)@.len() ==> r.is_some() && *r.unwrap() == old(ring)@[i as int]
            && final(ring)@ == old(ring)@.update(i as int, *final(r.unwrap())),
{
    ring.get_mut(i)
}

/// A walk through a deque that hands out each element for writing.
#[verifier::external_type_specification]
#[verifier::external_body]
#[verifier::reject_recursive_types(T)]
pub struct ExIterMut<'a, T: 'a>(IterMut<'a, T>);

/// `VecDeque::iter_mut`: a walk that hands out each element for writing. It
/// can change elements, not how many there are.
#[verifier::external_body]
fn ring_iter_mut<T>(ring: &mut VecDeque<T>) -> (iter: IterMut<'_, T>)
    ensures
        final(ring)@.len() == old(ring)@.len(),
{
    ring.iter_mut()
}

/// `VecDeque::swap`: exchanges the elements at `i` and `j`, which must both be
/// in bounds.
#[verifier::external_body]
fn ring_swap<T>(ring: &mut VecDeque<T>, i: usize, j: usize)
    requires
        i < old(ring)@.len(),
        j < old(ring)@.len(),
    ensures
        final(ring)@ == swapped(old(ring)@, i as int, j as int),
{
    ring.swap(i, j)
}

impl<T> Default for TrackList<T> {
    fn default() -> (list: Self)
        ensures
            list@.ring == Seq::<T>::empty(),
            list@.pos is None,
    {
        Self { ring: VecDeque::new(), pos: None }
    }
}

impl<T> TrackList<T> {
    /// An empty list with room for `capacity` elements and the cursor `pos`.
    pub fn with_capacity(capacity: usize, pos: Option<usize>) -> (list: Self)
        ensures
            list@.ring == Seq::<T>::empty(),
            list@.pos == pos,
    {
        Self { ring: VecDeque::with_capacity(capacity), pos }
    }

    /// The number of elements.
    pub fn len(&self) -> (n: usize)
        ensures
            n == self@.ring.len(),
    {
        self.ring.len()
    }

    /// Whether the list holds no element.
    pub fn is_empty(&self) -> (b: bool)
        ensures
            b == (self@.ring.len() == 0),
    {
        self.ring.len() == 0
    }

    /// The cursor.
    pub fn cursor(&self) -> (pos: Option<usize>)
        ensures
            pos == self@.pos,
    {
        self.pos
    }

    /// Sets the cursor and leaves the ring as it is.
    pub fn set_cursor(&mut self, pos: Option<usize>)
        ensures
            final(self)@ == (TrackListView { ring: old(self)@.ring, pos }),
    {
        self.pos = pos;
    }

    /// A ring never holds more elements than an index can count.
    pub proof fn lemma_len_bounded(&self)
        ensures
            self@.ring.len() <= usize::MAX,
    {
        assert(self.ring.len() <= usize::MAX);
    }

    /// Whether the cursor, if set, names an element of the ring.
    pub fn is_wf(&self) -> (b: bool)
        ensures
            b == self@.wf(),
    {
        match self.pos {
            Some(p) => p < self.ring.len(),
            None => true,
        }
    }

    /// The elements from the one nearest to the future to the oldest.
    pub fn iter_from_future(&self) -> (iter: Iter<'_, T>)
        ensures
            IteratorSpec::remaining(&iter) == self@.ring.as_ref(),
    {
        self.ring.iter()
    }

    /// The elements from the oldest to the one nearest to the future.
    pub fn iter_from_past(&self) -> (iter: Rev<Iter<'_, T>>)
        ensures
            IteratorSpec::remaining(&iter) == self@.ring.as_ref().reverse(),
    {
        self.ring.iter().rev()
    }

    /// The elements from the one nearest to the future to the oldest, each
    /// for writing. The walk changes neither the cursor nor the number of
    /// elements.
    pub fn iter_mut_from_future(&mut self) -> (iter: IterMut<'_, T>)
        ensures
            final(self)@.pos == old(self)@.pos,
            final(self)@.ring.len() == old(self)@.ring.len(),
    {
        ring_iter_mut(&mut self.ring)
    }

    /// The element at `i`, if there is one.
    pub fn get(&self, i: usize) -> (r: Option<&T>)
        ensures
            i < self@.ring.len() ==> r == Some(&self@.ring[i as int]),
            i >= self@.ring.len() ==> r.is_none(),
    {
        if i < self.ring.len() {
            Some(&self.ring[i])
        } else {
            None
        }
    }

    /// The element at `i`, if there is one, for writing.
    pub fn get_mut(&mut self, i: usize) -> (r: Option<&mut T>)
        ensures
            final(self)@.pos == old(self)@.pos,
            i >= old(self)@.ring.len() ==> r.is_none() && final(self)@ == old(self)@,
            i < old(self)@.ring.len() ==> r.is_some() && *r.unwrap() == old(self)@.ring[i as int]
                && final(self)@.ring == old(self)@.ring.update(i as int, *final(r.unwrap())),
    {
        ring_get_mut(&mut self.ring, i)
    }

    /// Appends an element at the far end of the past, telling no element
    /// anything.
    pub fn push_plain(&mut self, val: T)
        ensures
            final(self)@ == old(self)@.pushed_plain(val),
    {
        self.ring.push_back(val);
    }

    /// Puts `val` in the slot of the close past, telling no element anything.
    pub fn push_inactive(&mut self, val: T)
        requires
            old(self)@.wf(),
        ensures
            final(self)@ == old(self)@.pushed_inactive(val),
            final(self)@.wf(),
    {
        match self.pos {
            Some(p) => {
                assert(p < self.ring.len());
                self.ring.insert(p + 1, val)
            },
            None => self.ring.push_front(val),
        }
        assert(self@.ring =~= old(self)@.pushed_inactive(val).ring);
    }

    /// Takes the element at `from` out and puts it back at `to`.
    fn move_to(&mut self, from: usize, to: usize)
        requires
            to <= from < old(self)@.ring.len(),
        ensures
            final(self)@.pos == old(self)@.pos,
            final(self)@.ring == moved(old(self)@.ring, from as int, to as int),
    {
        if let Some(x) = self.ring.remove(from) {
            self.ring.insert(to, x);
        }
    }
}

impl<T: IndicateCloseness> TrackList<T> {
    /// Tells the element at `i`, if there is one, that it belongs to `time`.
    fn relabel(&mut self, i: usize, time: RecordMarkTime)
        ensures
            final(self)@.pos == old(self)@.pos,
            final(self)@.ring == relabelled(old(self)@.ring, i as int, time),
    {
        if let Some(e) = ring_get_mut(&mut self.ring, i) {
            match time {
                RecordMarkTime::Past => e.as_past(),
                RecordMarkTime::Future => e.as_future(),
                RecordMarkTime::PastClose => e.as_close_past(),
                RecordMarkTime::FutureClose => e.as_close_future(),
            }
        }
    }

    /// Tells the element `back` places before `i`, if there is one, that it
    /// belongs to `time`.
    fn relabel_before(&mut self, i: usize, back: usize, time: RecordMarkTime)
        ensures
            final(self)@.pos == old(self)@.pos,
            final(self)@.ring == relabelled(old(self)@.ring, i - back, time),
    {
        if i >= back {
            self.relabel(i - back, time);
        }
    }

    /// Tells the element `ahead` places behind `i`, if there is one, that it
    /// belongs to `time`.
    fn relabel_behind(&mut self, i: usize, ahead: usize, time: RecordMarkTime)
        ensures
            final(self)@.pos == old(self)@.pos,
            final(self)@.ring == relabelled(old(self)@.ring, i + ahead, time),
    {
        assert(self.ring.len() <= usize::MAX);
        if ahead <= usize::MAX - i {
            self.relabel(i + ahead, time);
        }
    }

    /// Puts `val` in the slot of the close past, right behind the cursor. The
    /// element that held that slot is told that it is past; `val` is told
    /// nothing.
    pub fn push(&mut self, val: T)
        requires
            old(self)@.wf(),
        ensures
            final(self)@ == old(self)@.pushed(val),
            final(self)@.wf(),
    {
        match self.pos {
            Some(p) => {
                assert(p < self.ring.len());
                self.relabel(p + 1, RecordMarkTime::Past);
                self.ring.insert(p + 1, val);
            },
            None => {
                self.relabel(0, RecordMarkTime::Past);
                self.ring.push_front(val);
            },
        }
        assert(self@.ring =~= old(self)@.pushed(val).ring);
    }

    /// Removes the element at `i` and hands it out, or does nothing where `i`
    /// names no element.
    pub fn remove(&mut self, i: usize) -> (r: Option<T>)
        ensures
            final(self)@ == old(self)@.removed(i as int),
            r == if i < old(self)@.ring.len() {
                Some(old(self)@.ring[i as int])
            } else {
                None
            },
            old(self)@.wf() ==> final(self)@.wf(),
    {
        if i >= self.ring.len() {
            return None;
        }
        match self.pos {
            Some(p) => {
                if p < usize::MAX && i == p + 1 {
                    self.relabel_behind(i, 1, RecordMarkTime::PastClose);
                } else if i == p {
                    self.relabel_before(p, 1, RecordMarkTime::FutureClose);
                    self.pos = if p >= 1 {
                        Some(p - 1)
                    } else {
                        None
                    };
                } else if i < p {
                    self.pos = Some(p - 1);
                }
            },
            None => {
                if i == 0 {
                    self.relabel(1, RecordMarkTime::PastClose);
                }
            },
        }
        self.ring.remove(i)
    }
}

impl<T: Active> TrackList<T> {
    /// The index of the nearest active element at or behind the close past.
    pub fn active_close_past_idx(&self) -> (r: Option<usize>)
        ensures
            r is Some == self@.active_close_past() is Some,
            r matches Some(idx) ==> self@.active_close_past() == Some(idx as int),
            r matches Some(idx) ==> self@.close_past_idx() <= idx < self@.ring.len(),
    {
        let n = self.ring.len();
        let start: usize = match self.pos {
            Some(p) => {
                if p >= n {
                    return None;
                }
                p + 1
            },
            None => 0,
        };
        let mut i: usize = start;
        while i < n
            invariant
                start <= i <= n,
                n == self@.ring.len(),
                start == self@.close_past_idx(),
                first_active_from(self@.ring, start as int) == first_active_from(
                    self@.ring,
                    i as int,
                ),
            decreases n - i,
        {
            if self.ring[i].is_active() {
                return Some(i);
            }
            i += 1;
        }
        None
    }
}

impl<T: Mark> TrackList<T> {
    /// Has the editor jump to the element at `idx`.
    fn jump_at(&mut self, idx: usize) -> (ok: bool)
        requires
            idx < old(self)@.ring.len(),
        ensures
            old(self)@.ring[idx as int].jump_spec(final(self)@.ring[idx as int], ok),
            final(self)@ == old(self)@.jump_failed(idx as int, final(self)@.ring[idx as int]),
    {
        match ring_get_mut(&mut self.ring, idx) {
            Some(e) => e.jump(),
            None => false,
        }
    }
}

impl<T: IndicateCloseness + Mark + Active> TrackList<T> {
    /// Moves the cursor one step towards the past: to the nearest active
    /// element at or behind the close past, which the editor jumps to.
    ///
    /// With no such element nothing happens. Where the jump fails the cursor
    /// stays and the list is as before but for what the jump did to the
    /// element. Else the element under the new cursor is handed out.
    pub fn step_past(&mut self) -> (r: Option<&mut T>)
        ensures
            old(self)@.wf() ==> final(self)@.wf(),
            final(self)@.ring.len() == old(self)@.ring.len(),
            old(self)@.active_close_past() is None ==> r is None && final(self)@ == old(self)@,
            old(self)@.active_close_past() matches Some(idx) ==> match r {
                None => {
                    &&& old(self)@.ring[idx].jump_spec(final(self)@.ring[idx], false)
                    &&& final(self)@ == old(self)@.jump_failed(idx, final(self)@.ring[idx])
                },
                Some(e) => exists|mid: T|
                    {
                        &&& #[trigger] old(self)@.ring[idx].jump_spec(mid, true)
                        &&& *e == old(self)@.stepped_past(idx, mid).ring[idx]
                        &&& final(self)@ == old(self)@.stepped_past(idx, mid).jump_failed(
                            idx,
                            *final(e),
                        )
                    },
            },
    {
        let idx = match self.active_close_past_idx() {
            Some(idx) => idx,
            None => return None,
        };
        let ok = self.jump_at(idx);
        let ghost mid = self@.ring[idx as int];
        if !ok {
            return None;
        }
        self.pos = Some(idx);
        self.relabel(idx, RecordMarkTime::FutureClose);
        self.relabel_behind(idx, 1, RecordMarkTime::PastClose);
        self.relabel_behind(idx, 2, RecordMarkTime::Past);
        self.relabel_before(idx, 1, RecordMarkTime::Future);
        assert(self@.ring =~= old(self)@.stepped_past(idx as int, mid).ring);
        ring_get_mut(&mut self.ring, idx)
    }

    /// Moves the cursor one step towards the future, after the editor has
    /// jumped to the element it leaves.
    ///
    /// With no cursor, or one that names no element, nothing happens. Where
    /// the jump fails the cursor stays. Else the element that the cursor left,
    /// now the close past, is handed out.
    pub fn step_future(&mut self) -> (r: Option<&mut T>)
        ensures
            old(self)@.wf() ==> final(self)@.wf(),
            final(self)@.ring.len() == old(self)@.ring.len(),
            !(old(self)@.pos is Some && old(self)@.wf()) ==> r is None && final(self)@ == old(self)@,
            old(self)@.wf() ==> (old(self)@.pos matches Some(p) ==> match r {
                None => {
                    &&& old(self)@.ring[p as int].jump_spec(final(self)@.ring[p as int], false)
                    &&& final(self)@ == old(self)@.jump_failed(
                        p as int,
                        final(self)@.ring[p as int],
                    )
                },
                Some(e) => exists|mid: T|
                    {
                        &&& #[trigger] old(self)@.ring[p as int].jump_spec(mid, true)
                        &&& *e == old(self)@.stepped_future(p as int, mid).ring[p as int]
                        &&& final(self)@ == old(self)@.stepped_future(p as int, mid).jump_failed(
                            p as int,
                            *final(e),
                        )
                    },
            }),
    {
        let p = match self.pos {
            Some(p) => p,
            None => return None,
        };
        if p >= self.ring.len() {
            return None;
        }
        let ok = self.jump_at(p);
        let ghost mid = self@.ring[p as int];
        if !ok {
            return None;
        }
        self.relabel(p, RecordMarkTime::PastClose);
        self.relabel_behind(p, 1, RecordMarkTime::Past);
        self.relabel_before(p, 1, RecordMarkTime::FutureClose);
        self.pos = if p >= 1 {
            Some(p - 1)
        } else {
            None
        };
        assert(self@.ring =~= old(self)@.stepped_future(p as int, mid).ring);
        ring_get_mut(&mut self.ring, p)
    }

    /// Removes the nearest active element at or behind the close past, after
    /// the editor has jumped to it, and hands it out.
    ///
    /// With no such element nothing happens. Where the jump fails nothing is
    /// removed.
    pub fn pop_past(&mut self) -> (r: Option<T>)
        ensures
            old(self)@.active_close_past() is None ==> r is None && final(self)@ == old(self)@,
            old(self)@.active_close_past() matches Some(idx) ==> match r {
                None => {
                    &&& old(self)@.ring[idx].jump_spec(final(self)@.ring[idx], false)
                    &&& final(self)@ == old(self)@.jump_failed(idx, final(self)@.ring[idx])
                },
                Some(x) => {
                    &&& old(self)@.ring[idx].jump_spec(x, true)
                    &&& final(self)@ == old(self)@.popped_past(idx)
                },
            },
            old(self)@.wf() ==> final(self)@.wf(),
    {
        let idx = match self.active_close_past_idx() {
            Some(idx) => idx,
            None => return None,
        };
        let start: usize = match self.pos {
            Some(p) => p + 1,
            None => 0,
        };
        let ok = self.jump_at(idx);
        if !ok {
            return None;
        }
        self.pos = if idx >= 1 {
            Some(idx - 1)
        } else {
            None
        };
        let popped = self.ring.remove(idx);
        self.relabel(idx, RecordMarkTime::PastClose);
        if idx != start {
            self.relabel_before(idx, 1, RecordMarkTime::FutureClose);
            self.relabel_before(idx, 2, RecordMarkTime::Future);
        }
        assert(self@.ring =~= old(self)@.popped_past(idx as int).ring);
        popped
    }

    /// Removes the element under the cursor, after the editor has jumped to
    /// it, moves the cursor one step towards the future and hands the element
    /// out.
    ///
    /// With no cursor, or one that names no element, nothing happens. Where
    /// the jump fails nothing is removed.
    pub fn pop_future(&mut self) -> (r: Option<T>)
        ensures
            !(old(self)@.pos is Some && old(self)@.wf()) ==> r is None && final(self)@ == old(self)@,
            old(self)@.wf() ==> (old(self)@.pos matches Some(p) ==> match r {
                None => {
                    &&& old(self)@.ring[p as int].jump_spec(final(self)@.ring[p as int], false)
                    &&& final(self)@ == old(self)@.jump_failed(
                        p as int,
                        final(self)@.ring[p as int],
                    )
                },
                Some(x) => {
                    &&& old(self)@.ring[p as int].jump_spec(x, true)
                    &&& final(self)@ == old(self)@.popped_future(p as int)
                },
            }),
            old(self)@.wf() ==> final(self)@.wf(),
    {
        let p = match self.pos {
            Some(p) => p,
            None => return None,
        };
        if p >= self.ring.len() {
            return None;
        }
        let ok = self.jump_at(p);
        if !ok {
            return None;
        }
        self.relabel_before(p, 1, RecordMarkTime::FutureClose);
        self.pos = if p >= 1 {
            Some(p - 1)
        } else {
            None
        };
        let popped = self.ring.remove(p);
        assert(self@.ring =~= old(self)@.popped_future(p as int).ring);
        popped
    }
}

impl<T: IndicateCloseness> TrackList<T> {
    /// Makes the element at `idx` the close past, keeping it in the list.
    ///
    /// Gives `None`, and changes nothing, where `idx` names no element and is
    /// not the slot of the close past.
    pub fn make_close_past(&mut self, idx: usize) -> (r: Option<()>)
        requires
            old(self)@.wf(),
        ensures
            final(self)@ == old(self)@.promoted(idx as int),
            r is Some <==> idx == old(self)@.close_past_idx() || idx < old(self)@.ring.len(),
            final(self)@.wf(),
    {
        let n = self.ring.len();
        let is_close_past = match self.pos {
            Some(p) => p + 1 == idx,
            None => idx == 0,
        };
        if is_close_past {
            return Some(());
        }
        if idx >= n {
            return None;
        }
        self.relabel(idx, RecordMarkTime::PastClose);
        if n == 1 {
            self.pos = None;
            return Some(());
        }
        match self.pos {
            Some(p) => {
                if idx >= p {
                    self.relabel(p + 1, RecordMarkTime::Past);
                    let ghost r2 = self@.ring;
                    ring_swap(&mut self.ring, idx, p);
                    if p + 1 < idx {
                        self.move_to(idx, p);
                        assert(self@.ring =~= moved(r2, idx as int, p + 1));
                    } else {
                        self.pos = if p >= 1 {
                            Some(p - 1)
                        } else {
                            None
                        };
                        assert(self@.ring =~= r2);
                    }
                } else {
                    let new_pos = p - 1;
                    self.pos = Some(new_pos);
                    ring_swap(&mut self.ring, idx, p);
                    self.move_to(new_pos, idx);
                }
            },
            None => {
                self.relabel(0, RecordMarkTime::Past);
                self.move_to(idx, 0);
            },
        }
        Some(())
    }

    /// Moves the element at `idx`, which has just been made inactive, to the
    /// slot of the close past.
    pub fn make_inactive(&mut self, idx: usize)
        requires
            old(self)@.wf(),
            idx < old(self)@.ring.len() || old(self)@.ring.len() == 1 || (old(self)@.pos is Some
                && idx == old(self)@.close_past_idx()),
        ensures
            final(self)@ == old(self)@.deactivated(idx as int),
            final(self)@.wf(),
    {
        let n = self.ring.len();
        if n == 1 {
            self.pos = None;
            return ;
        }
        match self.pos {
            Some(p) => {
                if idx > p {
                    if idx == p + 1 {
                        self.relabel_behind(idx, 1, RecordMarkTime::PastClose);
                        return ;
                    }
                    let ghost r0 = self@.ring;
                    ring_swap(&mut self.ring, idx, p);
                    self.move_to(idx, p);
                    assert(self@.ring =~= moved(r0, idx as int, p + 1));
                } else if idx < p {
                    let new_pos = p - 1;
                    self.pos = Some(new_pos);
                    ring_swap(&mut self.ring, idx, p);
                    self.move_to(new_pos, idx);
                } else {
                    self.relabel_before(idx, 1, RecordMarkTime::FutureClose);
                    self.pos = if p >= 1 {
                        Some(p - 1)
                    } else {
                        None
                    };
                }
            },
            None => {
                if idx == 0 {
                    self.relabel(1, RecordMarkTime::PastClose);
                }
                self.move_to(idx, 0);
            },
        }
    }
}

impl<T: FrecencyScore> TrackList<T> {
    /// The elements with their indices, in ascending order of their frecency
    /// score at `now`; elements of equal score keep the order of the ring.
    pub fn frecency(&self, now: Timestamp, conf: &FrecencyConfig) -> (v: Vec<(usize, &T)>)
        requires
            forall|i: int|
                0 <= i < self@.ring.len() ==> (#[trigger] self@.ring[i]).spec_score_fits(now, conf),
        ensures
            v@.len() == self@.ring.len(),
            forall|k: int|
                0 <= k < v@.len() ==> (#[trigger] v@[k]).0 < self@.ring.len() && *v@[k].1
                    == self@.ring[v@[k].0 as int],
            forall|a: int, b: int|
                0 <= a < b < v@.len() ==> ranks_before(
                    self@.ring,
                    now,
                    conf,
                    (#[trigger] v@[a]).0 as int,
                    (#[trigger] v@[b]).0 as int,
                ),
    {
        let n = self.ring.len();
        let mut scores: Vec<i64> = Vec::new();
        let mut i: usize = 0;
        while i < n
            invariant
                i <= n,
                n == self@.ring.len(),
                scores@.len() == i,
                forall|k: int|
                    0 <= k < i ==> (#[trigger] scores@[k]) == self@.ring[k].spec_total_score(
                        now,
                        conf,
                    ),
                forall|k: int|
                    0 <= k < self@.ring.len() ==> (#[trigger] self@.ring[k]).spec_score_fits(
                        now,
                        conf,
                    ),
            decreases n - i,
        {
            scores.push(self.ring[i].total_score(now, conf).value());
            i += 1;
        }
        let mut order: Vec<usize> = Vec::new();
        i = 0;
        while i < n
            invariant
                i <= n,
                n == self@.ring.len(),
                scores@.len() == n,
                order@.len() == i,
                forall|k: int| 0 <= k < i ==> (#[trigger] order@[k]) < i,
                forall|k: int|
                    0 <= k < n ==> (#[trigger] scores@[k]) == self@.ring[k].spec_total_score(
                        now,
                        conf,
                    ),
                forall|a: int, b: int|
                    0 <= a < b < i ==> ranks_before(
                        self@.ring,
                        now,
                        conf,
                        (#[trigger] order@[a]) as int,
                        (#[trigger] order@[b]) as int,
                    ),
            decreases n - i,
        {
            let mut j: usize = i;
            while j > 0 && scores[order[j - 1]] > scores[i]
                invariant
                    j <= i < n,
                    scores@.len() == n,
                    order@.len() == i,
                    forall|k: int| 0 <= k < i ==> (#[trigger] order@[k]) < i,
                    forall|k: int| j <= k < i ==> scores@[(#[trigger] order@[k]) as int] > scores@[i as int],
                decreases j,
            {
                j -= 1;
            }
            order.insert(j, i);
            i += 1;
        }
        let mut v: Vec<(usize, &T)> = Vec::new();
        let mut k: usize = 0;
        while k < n
            invariant
                k <= n,
                n == self@.ring.len(),
                order@.len() == n,
                v@.len() == k,
                forall|m: int| 0 <= m < n ==> (#[trigger] order@[m]) < n,
                forall|m: int|
                    0 <= m < k ==> (#[trigger] v@[m]).0 == order@[m] && *v@[m].1
                        == self@.ring[order@[m] as int],
            decreases n - k,
        {
            let idx = order[k];
            v.push((idx, &self.ring[idx]));
            k += 1;
        }
        v
    }
}

} // verus!
