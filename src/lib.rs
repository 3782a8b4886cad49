//! Core of a modal terminal text editor: a grapheme-indexed line buffer and
//! the decision logic of the editor's control loop.

pub mod row;
pub mod editor;
