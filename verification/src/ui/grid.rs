//! The grid of windows in which the picker shows records.

use crate::config::picker::window_grid_size::WindowGridSize;
use crate::state::record::{ChangeTypeRecord, Record, TypeRecord};
use vstd::prelude::*;
use vstd::string::*;

verus! {

/// What the picker shows: records of many buffers, or those of one.
#[derive(Clone, Copy, Debug, PartialEq, Eq, Structural)]
pub enum GridLayout {
    Open,
    Follow,
}

/// The lesser of two numbers.
pub open spec fn spec_min(a: int, b: int) -> int {
    if a <= b {
        a
    } else {
        b
    }
}

/// How many windows each of the two rows of the grid gets for `record_len`
/// records: the first row the greater half of the records, the second the
/// lesser, and neither more than half of `limit_win`.
pub fn calc_halves(record_len: usize, limit_win: WindowGridSize) -> (halves: (usize, usize))
    ensures
        halves.0 == spec_min(limit_win@ / 2, record_len / 2 + record_len % 2),
        halves.1 == spec_min(limit_win@ / 2, record_len as int / 2),
{
    let half_limit_win = limit_win.to_usize() / 2;
    let first = record_len / 2 + if record_len % 2 == 0 {
        0
    } else {
        1
    };
    let second = record_len / 2;
    (
        if half_limit_win <= first {
            half_limit_win
        } else {
            first
        },
        if half_limit_win <= second {
            half_limit_win
        } else {
            second
        },
    )
}

/// The argument of `goto absolute` that names a record by its buffer,
/// written `buf`, and by its tick, written `tick`.
pub open spec fn spec_goto_by_tick(buf: Seq<char>, tick: Seq<char>) -> Seq<char> {
    "tick={\"buf\":"@ + buf + ",\"tick\":"@ + tick + "}"@
}

/// The argument of `goto absolute` that names a record by its buffer,
/// written `buf`, and by the time of its latest event, written `time`.
pub open spec fn spec_goto_by_time(buf: Seq<char>, time: Seq<char>) -> Seq<char> {
    "time={\"buf\":"@ + buf + ",\"timestamp\":"@ + time + "}"@
}

/// The argument of `goto absolute` that names the record: a record of a
/// change by its buffer and tick, a record placed by hand by its buffer and
/// the time of its latest event.
pub fn get_goto_string(record: &Record) -> (s: String)
    ensures
        match record.typ {
            TypeRecord::Change(ChangeTypeRecord::Tick(t)) => exists|buf: String, tick: String|
                {
                    &&& to_string_from_display_ensures::<i32>(&record.buf, buf)
                    &&& to_string_from_display_ensures::<i32>(&t.0, tick)
                    &&& s@ == spec_goto_by_tick(buf@, tick@)
                },
            TypeRecord::Change(ChangeTypeRecord::Manual(_)) => exists|buf: String, time: String|
                {
                    &&& to_string_from_display_ensures::<i32>(&record.buf, buf)
                    &&& to_string_from_display_ensures::<i64>(
                        &(record.frecency@.last().0 as i64),
                        time,
                    )
                    &&& s@ == spec_goto_by_time(buf@, time@)
                },
        },
{
    let buf = record.buf.to_string();
    match record.typ {
        TypeRecord::Change(ChangeTypeRecord::Tick(t)) => {
            let tick = t.0.to_string();
            let s = String::from_str("tick={\"buf\":").concat(buf.as_str()).concat(
                ",\"tick\":",
            ).concat(tick.as_str()).concat("}");
            assert(s@ == spec_goto_by_tick(buf@, tick@));
            s
        },
        TypeRecord::Change(ChangeTypeRecord::Manual(_)) => {
            let secs = record.frecency.latest_timestamp().secs();
            let time = secs.to_string();
            let s = String::from_str("time={\"buf\":").concat(buf.as_str()).concat(
                ",\"timestamp\":",
            ).concat(time.as_str()).concat("}");
            assert(s@ == spec_goto_by_time(buf@, time@));
            s
        },
    }
}

/// The key mapping that closes the picker and goes to the record that
/// `goto` names.
pub fn goto_mapping(goto: &str) -> (cmd: String)
    ensures
        cmd@ == ":tabclose<CR>:Compass goto absolute "@ + goto@ + "<CR>"@,
{
    String::from_str(":tabclose<CR>:Compass goto absolute ").concat(goto).concat("<CR>")
}

/// The key mapping that closes the picker and follows the buffer written
/// `buf` in at most as many windows as `max_windows` writes.
pub fn follow_mapping(buf: &str, max_windows: &str) -> (cmd: String)
    ensures
        cmd@ == ":tabclose<CR>:Compass follow buf target="@ + buf@ + " max_windows="@
            + max_windows@ + "<CR>"@,
{
    String::from_str(":tabclose<CR>:Compass follow buf target=").concat(buf).concat(
        " max_windows=",
    ).concat(max_windows).concat("<CR>")
}

/// What the key that follows the preview of a record does: where records of
/// many buffers are shown it follows the buffer of the record, written `buf`,
/// in at most as many windows as `max_windows` writes; where those of one
/// buffer are shown it goes to the record that `goto` names.
pub fn follow_key_mapping(layout: GridLayout, buf: &str, max_windows: &str, goto: &str) -> (cmd:
    String)
    ensures
        cmd@ == match layout {
            GridLayout::Open => ":tabclose<CR>:Compass follow buf target="@ + buf@
                + " max_windows="@ + max_windows@ + "<CR>"@,
            GridLayout::Follow => ":tabclose<CR>:Compass goto absolute "@ + goto@ + "<CR>"@,
        },
{
    match layout {
        GridLayout::Open => follow_mapping(buf, max_windows),
        GridLayout::Follow => goto_mapping(goto),
    }
}

} // verus!
