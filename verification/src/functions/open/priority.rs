//! Which records the picker shows: one of each buffer before a second of any.

use crate::state::tracker::{lemma_indices_where_agree, spec_indices_where};
use vstd::prelude::*;

verus! {

/// Whether the record at `k` is the first of its buffer, where `bufs` holds
/// the buffer of each record.
pub open spec fn spec_is_first_of_buf(bufs: Seq<i32>, k: int) -> bool {
    forall|j: int| 0 <= j < k ==> bufs[j] != #[trigger] bufs[k]
}

/// The first record of each buffer, but no more than `limit` records.
pub open spec fn spec_first_of_each(bufs: Seq<i32>, limit: int) -> Seq<usize> {
    let firsts = spec_indices_where(|k: int| spec_is_first_of_buf(bufs, k), bufs.len() as int);
    if firsts.len() > limit {
        firsts.take(limit)
    } else {
        firsts
    }
}

/// The records to show: the first of each buffer and then, while fewer than
/// `limit` are chosen, the others in their order.
pub open spec fn spec_unique_bufs_priority(bufs: Seq<i32>, limit: int) -> Seq<usize> {
    let firsts = spec_first_of_each(bufs, limit);
    let others = spec_indices_where(|k: int| !spec_is_first_of_buf(bufs, k), bufs.len() as int);
    if firsts.len() + others.len() > limit {
        firsts + others.take(limit - firsts.len())
    } else {
        firsts + others
    }
}

fn is_first_of_buf(bufs: &Vec<i32>, k: usize) -> (b: bool)
    requires
        k < bufs@.len(),
    ensures
        b == spec_is_first_of_buf(bufs@, k as int),
{
    let mut j: usize = 0;
    while j < k
        invariant
            j <= k < bufs@.len(),
            forall|i: int| 0 <= i < j ==> bufs@[i] != bufs@[k as int],
        decreases k - j,
    {
        if bufs[j] == bufs[k] {
            return false;
        }
        j += 1;
    }
    true
}

/// The indices below the length of `bufs`, in ascending order, of which
/// `wanted` says what being the first of a buffer says.
fn indices_by_first(bufs: &Vec<i32>, wanted: bool) -> (idxs: Vec<usize>)
    ensures
        idxs@ == spec_indices_where(
            |k: int| spec_is_first_of_buf(bufs@, k) == wanted,
            bufs@.len() as int,
        ),
{
    let n = bufs.len();
    let mut idxs: Vec<usize> = Vec::new();
    let mut k: usize = 0;
    while k < n
        invariant
            k <= n,
            n == bufs@.len(),
            idxs@ == spec_indices_where(
                |k: int| spec_is_first_of_buf(bufs@, k) == wanted,
                k as int,
            ),
        decreases n - k,
    {
        if is_first_of_buf(bufs, k) == wanted {
            idxs.push(k);
        }
        k += 1;
    }
    idxs
}

/// The records that the picker shows, by their places in the order of
/// frecency, where `bufs` holds the buffer of each record in that order: one
/// record of each buffer first, so that as many buffers as can be are shown,
/// and then the records left over, until `limit` records are chosen.
pub fn unique_bufs_priority(bufs: &Vec<i32>, limit: usize) -> (chosen: Vec<usize>)
    ensures
        chosen@ == spec_unique_bufs_priority(bufs@, limit as int),
        chosen@.len() <= limit,
{
    let mut chosen = indices_by_first(bufs, true);
    let mut others = indices_by_first(bufs, false);
    proof {
        lemma_indices_where_agree(
            |k: int| spec_is_first_of_buf(bufs@, k) == true,
            |k: int| spec_is_first_of_buf(bufs@, k),
            bufs@.len() as int,
        );
        lemma_indices_where_agree(
            |k: int| spec_is_first_of_buf(bufs@, k) == false,
            |k: int| !spec_is_first_of_buf(bufs@, k),
            bufs@.len() as int,
        );
    }
    if chosen.len() > limit {
        chosen.truncate(limit);
    }
    let room = limit - chosen.len();
    if others.len() > room {
        others.truncate(room);
    }
    chosen.append(&mut others);
    chosen
}

} // verus!
