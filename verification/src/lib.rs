//! Core of a modal, terminal-based text editor: an in-memory text buffer
//! plus a finite-state input interpreter that turns keystrokes into buffer
//! mutations. Terminal setup, painting and the keyboard event source are
//! external collaborators; everything here is pure state logic.

pub mod buffer;
pub mod editor;
pub mod input;

pub use editor::Editor;
