//! The modal dialogs: their state, their decisions, and the commit step
//! they run when accepted.  Widget drawing belongs to the user-interface
//! shell; what is modelled here is every choice a dialog makes.
use vstd::prelude::*;

pub mod save_file_dialog;
pub mod select_font_dialog;

use crate::TerminalResult;
use crate::editor::AnsiEditor;
use crate::messages::MainWindow;

verus! {

/// A modal dialog's life after its widgets are drawn: whether the user
/// accepted it, and what accepting changes.
pub trait ModalDialog {
    spec fn wf(&self) -> bool;

    fn should_commit(&self) -> bool;

    /// Applies the accepted dialog to the active editor.
    fn commit(&self, editor: &mut AnsiEditor) -> (r: TerminalResult<bool>)
        requires
            self.wf(),
            old(editor).wf(),
        ensures
            final(editor).wf(),
    ;

    /// Applies the accepted dialog to the window itself.
    fn commit_self(&self, window: &mut MainWindow) -> (r: TerminalResult<bool>)
        requires
            self.wf(),
            old(window).wf(),
        ensures
            final(window).wf(),
    ;
}

} // verus!
