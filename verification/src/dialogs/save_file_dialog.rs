//! The save dialog: the file chooser itself belongs to the shell; modelled
//! here is what choosing a file decides and what committing it changes.
use vstd::prelude::*;

use crate::TerminalResult;
use crate::dialogs::ModalDialog;
use crate::docking::Tile;
use crate::editor::AnsiEditor;
use crate::messages::MainWindow;

verus! {

/// The save dialog's state: whether a file was chosen, and which.
pub struct SaveFileDialog {
    pub open_file: bool,
    pub opened_file: Option<String>,
}

impl SaveFileDialog {
    /// A fresh dialog with nothing chosen yet (the shell opens the file
    /// chooser alongside).
    pub fn new() -> (r: SaveFileDialog)
        ensures
            !r.open_file,
            r.opened_file is None,
    {
        SaveFileDialog { open_file: false, opened_file: None }
    }

    /// What the chooser reporting a selected `file` decides: the dialog
    /// remembers it and is ready to commit.  Hands back `true` as the
    /// dialog round is over.
    pub fn file_selected(&mut self, file: String) -> (r: bool)
        ensures
            final(self).open_file,
            final(self).opened_file matches Some(f) && f@ == file@,
            r,
    {
        self.opened_file = Some(file);
        self.open_file = true;
        true
    }
}

impl Default for SaveFileDialog {
    fn default() -> (r: SaveFileDialog)
        ensures
            !r.open_file,
            r.opened_file is None,
    {
        SaveFileDialog::new()
    }
}

impl ModalDialog for SaveFileDialog {
    open spec fn wf(&self) -> bool {
        true
    }

    fn should_commit(&self) -> (r: bool)
        ensures
            r == self.open_file,
    {
        self.open_file
    }

    fn commit(&self, editor: &mut AnsiEditor) -> (r: TerminalResult<bool>)
        ensures
            r == TerminalResult::<bool>::Ok(true),
            *final(editor) == *old(editor),
    {
        Ok(true)
    }

    /// Committing records the chosen path on the active tab; the caller
    /// writes the document out.
    fn commit_self(&self, window: &mut MainWindow) -> (r: TerminalResult<bool>)
        ensures
            r == TerminalResult::<bool>::Ok(true),
            ({
                let pair = (self.opened_file, old(window).active_idx());
                match pair {
                    (Some(f), Some(idx)) => {
                    &&& final(window).tree.root == old(window).tree.root
                    &&& final(window).tree.tiles@.len() == old(window).tree.tiles@.len()
                    &&& (forall|i: int|
                        0 <= i < old(window).tree.tiles@.len() && i != idx
                            ==> #[trigger] final(window).tree.tiles@[i] == old(
                            window,
                        ).tree.tiles@[i])
                    &&& (final(window).tree.tiles@[idx] matches Tile::Pane(tb) && {
                        &&& tb.full_path matches Some(p) && p@ == f@
                        &&& tb.doc == old(window).active_tab().doc
                    })
                    &&& final(window).toasts@ == old(window).toasts@
                    &&& final(window).dialog == old(window).dialog
                    &&& final(window).selected_font == old(window).selected_font
                },
                    _ => *final(window) == *old(window),
                }
            }),
    {
        match &self.opened_file {
            Some(file) => {
                let file = file.clone();
                match window.tree.active_pane() {
                    Some(idx) => {
                        let tile = window.tree.replace_tile(idx, Tile::Vacant);
                        match tile {
                            Tile::Pane(mut tab) => {
                                tab.full_path = Some(file);
                                let _ = window.tree.replace_tile(idx, Tile::Pane(tab));
                            },
                            _ => {},
                        }
                    },
                    None => {},
                }
            },
            None => {},
        }
        Ok(true)
    }
}

} // verus!
