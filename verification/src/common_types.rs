//! Small value types shared by the rest of the library.

pub mod cursor_position;
pub mod direction;
pub mod extmark;
pub mod text;
pub mod timestamp;
