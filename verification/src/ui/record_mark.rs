//! The band a record's mark is drawn in, relative to the cursor of the list.

use crate::common_types::cursor_position::CursorRange;
use vstd::prelude::*;
use vstd::string::*;

verus! {

/// Whether a character is white space.
pub uninterp spec fn spec_is_whitespace(c: char) -> bool;

/// `char::is_whitespace`: whether the character is white space, which the
/// character alone decides.
#[verifier::external_body]
fn is_whitespace(c: char) -> (b: bool)
    ensures
        b == spec_is_whitespace(c),
{
    c.is_whitespace()
}

/// Where a record stands relative to the cursor.
#[derive(Debug, PartialEq, Eq, Clone, Copy, Hash, Structural)]
pub enum RecordMarkTime {
    Past,
    Future,
    PastClose,
    FutureClose,
}

/// The band of the record at index `i` of a list whose cursor is `pos`.
pub open spec fn spec_mark_time(i: int, pos: Option<usize>) -> RecordMarkTime {
    match pos {
        Some(p) => if i == p {
            RecordMarkTime::FutureClose
        } else if i == p + 1 {
            RecordMarkTime::PastClose
        } else if i < p {
            RecordMarkTime::Future
        } else {
            RecordMarkTime::Past
        },
        None => if i == 0 {
            RecordMarkTime::PastClose
        } else {
            RecordMarkTime::Past
        },
    }
}

/// The band in which the mark of record `i` is drawn again for a list whose
/// cursor is `pos`.
pub fn recreate_mark_time(i: usize, pos: Option<usize>) -> (time: RecordMarkTime)
    ensures
        time == spec_mark_time(i as int, pos),
{
    match pos {
        Some(p) => {
            if i == p {
                RecordMarkTime::FutureClose
            } else if i > 0 && i - 1 == p {
                RecordMarkTime::PastClose
            } else if i < p {
                RecordMarkTime::Future
            } else {
                RecordMarkTime::Past
            }
        },
        None => {
            if i == 0 {
                RecordMarkTime::PastClose
            } else {
                RecordMarkTime::Past
            }
        },
    }
}

/// Whether a mark can stand on the character: it is neither white space nor a
/// tab.
pub open spec fn spec_is_mark_char(c: char) -> bool {
    !spec_is_whitespace(c) && c != '\t'
}

/// How many bytes the character takes in a line.
pub open spec fn spec_len_utf8(c: char) -> int {
    if (c as u32) < 0x80 {
        1
    } else if (c as u32) < 0x800 {
        2
    } else if (c as u32) < 0x10000 {
        3
    } else {
        4
    }
}

/// How many bytes stand before the character at `i` of the line.
pub open spec fn spec_byte_offset(line: Seq<char>, i: int) -> int
    decreases i,
{
    if i <= 0 {
        0
    } else {
        spec_byte_offset(line, i - 1) + spec_len_utf8(line[i - 1])
    }
}

/// For each character of the line, whether a mark can stand on it and how
/// many bytes stand before it.
pub open spec fn spec_mark_chars(line: Seq<char>) -> Seq<(bool, u128)> {
    Seq::new(line.len(), |i: int| (spec_is_mark_char(line[i]), spec_byte_offset(line, i) as u128))
}

/// The first character at or after `at` on which a mark can stand and before
/// which at least `from` bytes stand.
pub open spec fn spec_first_mark_col(marks: Seq<(bool, u128)>, from: int, at: int) -> Option<int>
    decreases marks.len() - at,
{
    if at < 0 || at >= marks.len() {
        None
    } else if marks[at].0 && marks[at].1 >= from {
        Some(at)
    } else {
        spec_first_mark_col(marks, from, at + 1)
    }
}

/// The column of a line where a mark asked for at `maybe_col`, or anywhere,
/// is set, given of each character of the line whether a mark can stand on it
/// and how many bytes stand before it: none in an empty line; the last
/// character where the line has no more characters than the column asked for
/// and one; else the first character on which a mark can stand and which
/// stands no fewer bytes into the line than the column asked for.
pub open spec fn spec_mark_col(marks: Seq<(bool, u128)>, maybe_col: Option<usize>) -> Option<int> {
    if marks.len() == 0 {
        None
    } else {
        match maybe_col {
            Some(col) if marks.len() <= col + 1 => Some(marks.len() - 1),
            Some(col) => spec_first_mark_col(marks, col as int, 0),
            None => spec_first_mark_col(marks, 0, 0),
        }
    }
}

/// The column of the line where a mark asked for at `maybe_col`, or anywhere,
/// is set.
pub open spec fn spec_first_non_blank_col(line: Seq<char>, maybe_col: Option<usize>) -> Option<
    int,
> {
    spec_mark_col(spec_mark_chars(line), maybe_col)
}

/// The column where a mark asked for at `maybe_col`, or anywhere, is set in a
/// line of which `marks` says, for each character, whether a mark can stand
/// on it and how many bytes stand before it.
pub fn mark_col(marks: &Vec<(bool, u128)>, maybe_col: Option<usize>) -> (r: Option<usize>)
    ensures
        r is Some == spec_mark_col(marks@, maybe_col) is Some,
        r matches Some(c) ==> Some(c as int) == spec_mark_col(marks@, maybe_col),
{
    let n = marks.len();
    if n == 0 {
        return None;
    }
    let from: usize = match maybe_col {
        Some(col) => {
            if col >= n - 1 {
                return Some(n - 1);
            }
            col
        },
        None => 0,
    };
    let mut i: usize = 0;
    while i < n
        invariant
            i <= n,
            n == marks@.len(),
            spec_mark_col(marks@, maybe_col) == spec_first_mark_col(marks@, from as int, i as int),
        decreases n - i,
    {
        if marks[i].0 && marks[i].1 >= from as u128 {
            return Some(i);
        }
        i += 1;
    }
    None
}

fn len_utf8(c: char) -> (n: u128)
    ensures
        n == spec_len_utf8(c),
        1 <= n <= 4,
{
    let v = c as u32;
    if v < 0x80 {
        1
    } else if v < 0x800 {
        2
    } else if v < 0x10000 {
        3
    } else {
        4
    }
}

/// The column of `line` where a mark asked for at `maybe_col`, or anywhere, is
/// set.
pub fn get_first_non_blank_col(line: &str, maybe_col: Option<usize>) -> (r: Option<usize>)
    ensures
        r is Some == spec_first_non_blank_col(line@, maybe_col) is Some,
        r matches Some(c) ==> Some(c as int) == spec_first_non_blank_col(line@, maybe_col),
{
    let n = line.unicode_len();
    let mut marks: Vec<(bool, u128)> = Vec::new();
    let mut offset: u128 = 0;
    let mut i: usize = 0;
    while i < n
        invariant
            i <= n,
            n == line@.len(),
            offset == spec_byte_offset(line@, i as int),
            offset <= 4 * i,
            marks@ == spec_mark_chars(line@).subrange(0, i as int),
        decreases n - i,
    {
        let c = line.get_char(i);
        marks.push((!is_whitespace(c) && c != '\t', offset));
        assert(marks@ =~= spec_mark_chars(line@).subrange(0, i + 1));
        offset = offset + len_utf8(c);
        i += 1;
    }
    assert(marks@ =~= spec_mark_chars(line@));
    mark_col(&marks, maybe_col)
}

/// How many lines above and below the line asked for are tried.
pub const NON_BLANK_REACH: usize = 5;

/// Where the mark asked for at `range` is set, given the lines around it:
/// `lines[NON_BLANK_REACH]` is the line asked for, the lines before it stand
/// before it in the buffer, those behind it behind; a line that the buffer
/// does not have is `None`. The line asked for is tried first, from the
/// column asked for; then, nearest first, the line below and the line above,
/// from their start. Where no line has a place the mark stays where it was
/// asked for.
pub fn get_non_blank_pos(lines: &Vec<Option<String>>, range: &CursorRange) -> (r: CursorRange)
    requires
        lines@.len() == 2 * NON_BLANK_REACH + 1,
        range.line + NON_BLANK_REACH <= usize::MAX,
    ensures
        r == spec_non_blank_pos(lines@, *range, 0),
{
    if let Some(line) = &lines[NON_BLANK_REACH] {
        if let Some(col) = get_first_non_blank_col(line.as_str(), Some(range.col)) {
            return CursorRange { line: range.line, col };
        }
    }
    let mut i: usize = 1;
    while i <= NON_BLANK_REACH
        invariant
            1 <= i <= NON_BLANK_REACH + 1,
            lines@.len() == 2 * NON_BLANK_REACH + 1,
            range.line + NON_BLANK_REACH <= usize::MAX,
            spec_non_blank_pos(lines@, *range, 0) == spec_non_blank_pos(lines@, *range, i as int),
        decreases NON_BLANK_REACH + 1 - i,
    {
        if let Some(line) = &lines[NON_BLANK_REACH + i] {
            if let Some(col) = get_first_non_blank_col(line.as_str(), None) {
                return CursorRange { line: range.line + i, col };
            }
        }
        if range.line >= i {
            if let Some(line) = &lines[NON_BLANK_REACH - i] {
                if let Some(col) = get_first_non_blank_col(line.as_str(), None) {
                    return CursorRange { line: range.line - i, col };
                }
            }
        }
        i += 1;
    }
    CursorRange { line: range.line, col: range.col }
}

/// The column found in the line at `at` of the window of lines, if the buffer
/// has that line.
pub open spec fn spec_col_in(lines: Seq<Option<String>>, at: int, maybe_col: Option<usize>) -> Option<
    int,
> {
    match lines[at] {
        Some(line) => spec_first_non_blank_col(line@, maybe_col),
        None => None,
    }
}

/// Where the mark is set when the lines nearer than `step` have no place for
/// it.
pub open spec fn spec_non_blank_pos(
    lines: Seq<Option<String>>,
    range: CursorRange,
    step: int,
) -> CursorRange
    decreases NON_BLANK_REACH + 1 - step,
{
    let reach = NON_BLANK_REACH as int;
    if step < 0 || step > reach {
        range
    } else if step == 0 {
        match spec_col_in(lines, reach, Some(range.col)) {
            Some(col) => CursorRange { line: range.line, col: col as usize },
            None => spec_non_blank_pos(lines, range, 1),
        }
    } else {
        match spec_col_in(lines, reach + step, None) {
            Some(col) => CursorRange { line: (range.line + step) as usize, col: col as usize },
            None => match (if range.line >= step {
                spec_col_in(lines, reach - step, None)
            } else {
                None
            }) {
                Some(col) => CursorRange { line: (range.line - step) as usize, col: col as usize },
                None => spec_non_blank_pos(lines, range, step + 1),
            },
        }
    }
}

/// The parts of a path cut down to the last `depth` of them, or all of them
/// where there are fewer.
pub fn truncate_path(parts: Vec<String>, depth: usize) -> (last: Vec<String>)
    ensures
        last@ == parts@.subrange(
            if parts@.len() > depth {
                parts@.len() - depth
            } else {
                0
            },
            parts@.len() as int,
        ),
{
    let mut last = parts;
    let n = last.len();
    if n > depth {
        last.split_off(n - depth)
    } else {
        last
    }
}

} // verus!
