//! Which of the records shown are followed, and with which keys.

use crate::config::picker::jump_keymaps::{
    spec_first_unused_idx, spec_keymaps, JumpKeymap, JumpKeymapList,
};
use crate::state::tracker::spec_indices_where;
use vstd::prelude::*;

verus! {

/// Whether the record shown at `k` is of the buffer `target`.
pub open spec fn spec_is_of_buf(bufs: Seq<i32>, target: i32, k: int) -> bool {
    bufs[k] == target
}

/// The places, among the records shown, of the records of the buffer
/// `target`, but no more than `max_windows` of them.
pub open spec fn spec_follow_places(bufs: Seq<i32>, target: i32, max_windows: int) -> Seq<usize> {
    let places = spec_indices_where(|k: int| spec_is_of_buf(bufs, target, k), bufs.len() as int);
    if places.len() > max_windows {
        places.take(max_windows)
    } else {
        places
    }
}

/// The key of the record shown at `place`, where `used` are the keys given
/// out before: the key of that place, or where the keys do not reach that
/// far the first key that is not used. There is none where all are used.
pub open spec fn spec_follow_key(keys: Seq<JumpKeymap>, used: Seq<JumpKeymap>, place: usize) -> Option<
    JumpKeymap,
> {
    if place < keys.len() {
        Some(keys[place as int])
    } else if spec_first_unused_idx(keys, used, 0) < keys.len() {
        Some(keys[spec_first_unused_idx(keys, used, 0)])
    } else {
        None
    }
}

/// The keys of the first `n` of the records at `places`, if there is a key
/// for each.
pub open spec fn spec_follow_keys(keys: Seq<JumpKeymap>, places: Seq<usize>, n: int) -> Option<
    Seq<JumpKeymap>,
>
    decreases n,
{
    if n <= 0 {
        Some(Seq::empty())
    } else {
        match spec_follow_keys(keys, places, n - 1) {
            Some(used) => match spec_follow_key(keys, used, places[n - 1]) {
                Some(key) => Some(used.push(key)),
                None => None,
            },
            None => None,
        }
    }
}

/// The places, among the records shown, of the records of `target`.
pub fn follow_places(bufs: &Vec<i32>, target: i32, max_windows: usize) -> (places: Vec<usize>)
    ensures
        places@ == spec_follow_places(bufs@, target, max_windows as int),
{
    let n = bufs.len();
    let mut places: Vec<usize> = Vec::new();
    let mut k: usize = 0;
    while k < n
        invariant
            k <= n,
            n == bufs@.len(),
            places@ == spec_indices_where(|k: int| spec_is_of_buf(bufs@, target, k), k as int),
        decreases n - k,
    {
        if bufs[k] == target {
            places.push(k);
        }
        k += 1;
    }
    if places.len() > max_windows {
        places.truncate(max_windows);
    }
    places
}

/// The records of the buffer `target` among the records shown, whose buffers
/// `bufs` holds, by their places, and a key for each: a record keeps the key
/// of its place, so that it is the one the user saw before. Gives `None`
/// where the keys run out.
pub fn follow_buf<'a>(
    bufs: &Vec<i32>,
    target: i32,
    max_windows: usize,
    keys: &'a JumpKeymapList,
) -> (r: Option<(Vec<usize>, Vec<&'a JumpKeymap>)>)
    ensures
        ({
            let places = spec_follow_places(bufs@, target, max_windows as int);
            match r {
                Some((p, k)) => p@ == places && Some(spec_keymaps(k@)) == spec_follow_keys(
                    keys@,
                    places,
                    places.len() as int,
                ),
                None => spec_follow_keys(keys@, places, places.len() as int) is None,
            }
        }),
{
    let places = follow_places(bufs, target, max_windows);
    let mut jump_vec: Vec<&'a JumpKeymap> = Vec::new();
    let mut i: usize = 0;
    while i < places.len()
        invariant
            i <= places@.len(),
            places@ == spec_follow_places(bufs@, target, max_windows as int),
            Some(spec_keymaps(jump_vec@)) == spec_follow_keys(keys@, places@, i as int),
        decreases places@.len() - i,
    {
        let key = match keys.get(places[i]) {
            Some(k) => k,
            None => match keys.first_unused(&jump_vec) {
                Some(k) => k,
                None => {
                    proof {
                        lemma_follow_keys_stay_none(keys@, places@, i + 1, places@.len() as int);
                    }
                    return None;
                },
            },
        };
        jump_vec.push(key);
        i += 1;
    }
    Some((places, jump_vec))
}

/// Once the keys have run out they have run out for all records behind.
proof fn lemma_follow_keys_stay_none(keys: Seq<JumpKeymap>, places: Seq<usize>, n: int, m: int)
    requires
        0 <= n <= m,
        spec_follow_keys(keys, places, n) is None,
    ensures
        spec_follow_keys(keys, places, m) is None,
    decreases m - n,
{
    if n < m {
        lemma_follow_keys_stay_none(keys, places, n + 1, m);
    }
}

} // verus!
