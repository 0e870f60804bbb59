//! What holds of the navigation list across several of its operations.

use crate::state::track_list::{
    first_active_from, labelled, lemma_first_active_from, Active, IndicateCloseness,
    TrackListView,
};
use crate::ui::record_mark::RecordMarkTime;
use vstd::prelude::*;

verus! {

/// The list after the elements of `vals` were pushed, the first of them
/// first.
pub open spec fn pushed_all<T: IndicateCloseness>(
    v: TrackListView<T>,
    vals: Seq<T>,
) -> TrackListView<T>
    decreases vals.len(),
{
    if vals.len() == 0 {
        v
    } else {
        pushed_all(v, vals.drop_last()).pushed(vals.last())
    }
}

/// Pushing never moves the cursor: a list that starts without one and is only
/// pushed to has none, however many elements were pushed. Every push makes
/// the ring longer by one, and its element is the close past right after.
pub proof fn lemma_pushes_keep_cursor<T: IndicateCloseness>(v: TrackListView<T>, vals: Seq<T>)
    requires
        v.wf(),
    ensures
        pushed_all(v, vals).pos == v.pos,
        pushed_all(v, vals).wf(),
        pushed_all(v, vals).ring.len() == v.ring.len() + vals.len(),
        vals.len() > 0 ==> pushed_all(v, vals).ring[v.close_past_idx()] == vals.last(),
    decreases vals.len(),
{
    if vals.len() > 0 {
        lemma_pushes_keep_cursor(v, vals.drop_last());
    }
}

/// A step to the past and, right after it, a step to the future bring the
/// cursor back to where it was, in a ring as long as before. This is so where
/// the close past is active, so that the first step passes over nothing, and
/// where both jumps succeed, leaving `m1` and `m2`. The element that the first
/// step made current is the one that the second step hands out as the close
/// past. Where the cursor stood on an element, that element is current again,
/// having been told that it is future and then that it is close future.
pub proof fn lemma_step_past_then_future<T: IndicateCloseness + Active>(
    v: TrackListView<T>,
    m1: T,
    m2: T,
)
    requires
        v.wf(),
        v.active_close_past() == Some(v.close_past_idx()),
    ensures
        ({
            let idx = v.close_past_idx();
            let there = v.stepped_past(idx, m1);
            let back = there.stepped_future(idx, m2);
            &&& there.pos == Some(idx as usize)
            &&& there.wf()
            &&& back.pos == v.pos
            &&& back.wf()
            &&& back.ring.len() == v.ring.len()
            &&& back.ring[idx] == labelled(m2, RecordMarkTime::PastClose)
            &&& v.pos matches Some(p) ==> back.ring[p as int] == labelled(
                labelled(v.ring[p as int], RecordMarkTime::Future),
                RecordMarkTime::FutureClose,
            )
        }),
{
    lemma_first_active_from(v.ring, v.close_past_idx());
}

/// With the cursor on the oldest element there is nothing to step to: the
/// list has no active element behind the cursor, whatever the elements are.
pub proof fn lemma_no_past_behind_oldest<T: Active>(v: TrackListView<T>)
    requires
        v.close_past_idx() >= v.ring.len(),
    ensures
        v.active_close_past() is None,
{
}

/// A list has an element to step to exactly when an active element stands at
/// or behind the close past.
pub proof fn lemma_past_exists<T: Active>(v: TrackListView<T>)
    ensures
        v.active_close_past() is Some <==> exists|j: int|
            v.close_past_idx() <= j < v.ring.len() && (#[trigger] v.ring[j]).spec_is_active(),
{
    lemma_first_active_from(v.ring, v.close_past_idx());
    if v.active_close_past() is Some {
        let idx = first_active_from(v.ring, v.close_past_idx())->0;
    }
}

/// Making the close past the close past changes nothing, whatever the list.
pub proof fn lemma_promote_close_past<T: IndicateCloseness>(v: TrackListView<T>)
    ensures
        v.promoted(v.close_past_idx()) == v,
{
}

/// After an element was made the close past it stands in the slot of the
/// close past, right behind the cursor or, with no cursor, at the front. It
/// was told that it is the close past unless it was that before. The ring is as
/// long as it was and the cursor still names an element; in a ring of one
/// element there is no cursor afterwards unless nothing had to be done.
pub proof fn lemma_promoted_is_close_past<T: IndicateCloseness>(v: TrackListView<T>, idx: int)
    requires
        v.wf(),
        0 <= idx < v.ring.len(),
    ensures
        ({
            let w = v.promoted(idx);
            &&& w.wf()
            &&& w.ring.len() == v.ring.len()
            &&& 0 <= w.close_past_idx() < w.ring.len()
            &&& w.ring[w.close_past_idx()] == if idx == v.close_past_idx() {
                v.ring[idx]
            } else {
                labelled(v.ring[idx], RecordMarkTime::PastClose)
            }
            &&& v.ring.len() == 1 ==> w.pos is None
        }),
{
}

/// Removing an element keeps the cursor on the element it was on, unless that
/// was the element removed: then the cursor moves to the element before it.
pub proof fn lemma_removed_keeps_current<T: IndicateCloseness>(v: TrackListView<T>, i: int)
    requires
        v.wf(),
        0 <= i < v.ring.len(),
    ensures
        ({
            let w = v.removed(i);
            &&& w.wf()
            &&& w.ring.len() == v.ring.len() - 1
            &&& v.pos matches Some(p) ==> if i == p {
                w.pos == TrackListView::<T>::pos_before(p as int)
            } else {
                w.pos matches Some(q) && w.ring[q as int] == v.ring[p as int]
            }
            &&& v.pos is None ==> w.pos is None
        }),
{
}

} // verus!
