//! The editor's mark of a record.

use crate::common_types::cursor_position::{CursorPosition, CursorRange};
use vstd::prelude::*;

verus! {

/// A mark that the editor keeps in a buffer and moves with the text.
#[derive(Clone, Copy, Debug, PartialEq, Eq, Hash)]
pub struct Extmark {
    pub id: u32,
    init_pos: CursorPosition,
}

/// What a mark is: its identifier and the place it was set at.
pub ghost struct ExtmarkView {
    pub id: u32,
    pub init_pos: CursorPosition,
}

impl View for Extmark {
    type V = ExtmarkView;

    closed spec fn view(&self) -> ExtmarkView {
        ExtmarkView { id: self.id, init_pos: self.init_pos }
    }
}

/// The place where the editor reports the mark of a buffer that was not yet
/// opened properly.
pub open spec fn spec_unopened_pos() -> CursorPosition {
    CursorPosition { line: 2, col: 0 }
}

impl Extmark {
    /// The mark with the identifier `id` that was set at `init_pos`.
    pub fn new(id: u32, init_pos: CursorPosition) -> (e: Self)
        ensures
            e@ == (ExtmarkView { id, init_pos }),
    {
        Self { id, init_pos }
    }

    /// The identifier of the mark in the editor.
    pub fn id(&self) -> (id: u32)
        ensures
            id == self@.id,
    {
        self.id
    }

    /// The place the mark was set at.
    pub fn init_pos(&self) -> (p: CursorPosition)
        ensures
            p == self@.init_pos,
    {
        self.init_pos
    }

    /// Where the mark stands, given what the editor reports of it: the place
    /// reported, unless the editor reports none or the place of an unopened
    /// buffer; then the place the mark was set at.
    pub open spec fn spec_pos(self, reported: Option<CursorPosition>) -> CursorPosition {
        match reported {
            Some(p) => if p == spec_unopened_pos() {
                self@.init_pos
            } else {
                p
            },
            None => self@.init_pos,
        }
    }

    /// Where the mark stands, given what the editor reports of it.
    pub fn pos(&self, reported: Option<CursorPosition>) -> (p: CursorPosition)
        ensures
            p == self.spec_pos(reported),
    {
        match reported {
            Some(p) => {
                if p.line == 2 && p.col == 0 {
                    self.init_pos
                } else {
                    p
                }
            },
            None => self.init_pos,
        }
    }

    /// Where the mark stands, as marks count.
    pub fn get_range(&self, reported: Option<CursorPosition>) -> (r: CursorRange)
        ensures
            r == self.spec_pos(reported).spec_to_range(),
    {
        self.pos(reported).to_range()
    }
}

} // verus!
