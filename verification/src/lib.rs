//! The core of a small terminal text editor: a line buffer, a cursor that is
//! tracked both on the screen and in the document, and the paging rule that
//! ties the two together.

pub mod buffer_manager;
pub mod cursor_manager;
pub mod input;
pub mod manager;
pub mod text;
