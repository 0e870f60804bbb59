//! Places in a buffer.

use crate::config::marks::update_range::{Range, UpdateRange};
use vstd::prelude::*;

verus! {

/// A place in a buffer as the cursor counts: lines from 1, columns from 0.
#[derive(Clone, Copy, Debug, Hash, PartialEq, Eq, Structural)]
pub struct CursorPosition {
    pub line: usize,
    pub col: usize,
}

/// A place in a buffer as marks count: lines and columns from 0.
#[derive(Clone, Copy, Debug, PartialEq, Eq, Structural)]
pub struct CursorRange {
    pub line: usize,
    pub col: usize,
}

/// How far two lines, or two columns, are apart.
pub open spec fn spec_distance(a: usize, b: usize) -> int {
    if a >= b {
        a - b
    } else {
        b - a
    }
}

fn distance(a: usize, b: usize) -> (d: usize)
    ensures
        d == spec_distance(a, b),
{
    if a >= b {
        a - b
    } else {
        b - a
    }
}

impl Range {
    /// Whether `d` is within the distance that alone makes two places near.
    pub open spec fn spec_single(range: Option<Range>, d: int) -> bool {
        range matches Some(r) && r.single_max_distance matches Some(single) && single >= d
    }

    /// Whether `d` is within the distance that makes two places near if the
    /// other distance is too. Where no range is set every distance is.
    pub open spec fn spec_combined(range: Option<Range>, d: int) -> bool {
        match range {
            Some(r) => r.combined_max_distance matches Some(combined) && combined >= d,
            None => true,
        }
    }

    fn single(range: &Option<Range>, d: usize) -> (b: bool)
        ensures
            b == Self::spec_single(*range, d as int),
    {
        match range {
            Some(r) => match r.single_max_distance {
                Some(single) => single >= d,
                None => false,
            },
            None => false,
        }
    }

    fn combined(range: &Option<Range>, d: usize) -> (b: bool)
        ensures
            b == Self::spec_combined(*range, d as int),
    {
        match range {
            Some(r) => match r.combined_max_distance {
                Some(combined) => combined >= d,
                None => false,
            },
            None => true,
        }
    }
}

impl CursorPosition {
    /// Two places are near each other where their lines alone are close
    /// enough, or their columns alone, or both lines and columns are within
    /// the combined distances.
    pub open spec fn spec_is_nearby(self, other: Self, conf: UpdateRange) -> bool {
        let lines = spec_distance(self.line, other.line);
        let cols = spec_distance(self.col, other.col);
        Range::spec_single(conf.lines, lines) || Range::spec_single(conf.columns, cols) || (
        Range::spec_combined(conf.lines, lines) && Range::spec_combined(conf.columns, cols))
    }

    /// Whether the two places are near each other by the ranges of `conf`.
    pub fn is_nearby(&self, other: &Self, conf: &UpdateRange) -> (b: bool)
        ensures
            b == self.spec_is_nearby(*other, *conf),
    {
        let lines = distance(self.line, other.line);
        if Range::single(&conf.lines, lines) {
            return true;
        }
        let near_line = Range::combined(&conf.lines, lines);
        let cols = distance(self.col, other.col);
        if Range::single(&conf.columns, cols) {
            return true;
        }
        let near_col = Range::combined(&conf.columns, cols);
        near_line && near_col
    }

    /// The same place as marks count it: one line less, but never less than
    /// the first.
    pub open spec fn spec_to_range(self) -> CursorRange {
        CursorRange { line: if self.line >= 1 {
            (self.line - 1) as usize
        } else {
            0
        }, col: self.col }
    }

    /// The same place as marks count it.
    pub fn to_range(&self) -> (r: CursorRange)
        ensures
            r == self.spec_to_range(),
    {
        CursorRange { line: if self.line >= 1 {
            self.line - 1
        } else {
            0
        }, col: self.col }
    }
}

impl CursorRange {
    /// The same place as the cursor counts it.
    pub fn to_position(&self) -> (p: CursorPosition)
        requires
            self.line < usize::MAX,
        ensures
            p.line == self.line + 1,
            p.col == self.col,
    {
        CursorPosition { line: self.line + 1, col: self.col }
    }
}

impl From<(usize, usize)> for CursorPosition {
    fn from(value: (usize, usize)) -> (p: Self)
        ensures
            p.line == value.0,
            p.col == value.1,
    {
        Self { line: value.0, col: value.1 }
    }
}

impl vstd::std_specs::convert::FromSpecImpl<(usize, usize)> for CursorPosition {
    open spec fn obeys_from_spec() -> bool {
        true
    }

    open spec fn from_spec(value: (usize, usize)) -> Self {
        Self { line: value.0, col: value.1 }
    }
}

impl From<(usize, usize)> for CursorRange {
    fn from(value: (usize, usize)) -> (r: Self)
        ensures
            r.line == value.0,
            r.col == value.1,
    {
        Self { line: value.0, col: value.1 }
    }
}

impl vstd::std_specs::convert::FromSpecImpl<(usize, usize)> for CursorRange {
    open spec fn obeys_from_spec() -> bool {
        true
    }

    open spec fn from_spec(value: (usize, usize)) -> Self {
        Self { line: value.0, col: value.1 }
    }
}

} // verus!
