//! What the editor shows of a record: the band of its mark, and the grid of
//! windows of the picker.

pub mod grid;
pub mod record_mark;
