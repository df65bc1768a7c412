//! Tool, dialog and docking layer of a character-cell ("ANSI") art editor.
//!
//! The library models the transient editor state — the character grid of the
//! active layer, an overlay layer used to preview a draw operation, the caret,
//! the selection, the docking tree of open tabs, dialog state and the message
//! dispatcher — and verifies the state transitions that the painting tools,
//! keyboard handling and menu messages perform on it.  Rendering, file
//! choosers and the embedded scripting runtime stay outside; they exchange
//! plain values (positions, colour indices, characters, strings) with the
//! functions here.
use vstd::prelude::*;

pub mod animator;
pub mod attribute;
pub mod dialogs;
pub mod docking;
pub mod document;
pub mod editor;
pub mod messages;
pub mod geometry;
pub mod grid;
pub mod scan_lines;
pub mod tools;

verus! {

/// Outcome handed back by the event handlers of the tools.
pub enum Event {
    Nothing,
}

/// Result of an operation the user interface reports failures of.
pub type TerminalResult<T> = Result<T, String>;

} // verus!
