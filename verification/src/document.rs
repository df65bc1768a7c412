//! Open documents: the trait family the docking layer talks to, and the
//! ANSI-art document that implements it over the editor model.
//!
//! The system clipboard and the on-disk encodings belong to the outside;
//! here `cut` removes the selected cells, `copy` and `paste` only report
//! success, and saving is an action handed back to the caller.
use vstd::prelude::*;

use crate::TerminalResult;
use crate::editor::AnsiEditor;
use crate::grid::MAX_DIM;
use crate::messages::Message;

verus! {

/// Clipboard interest of a document.
pub trait ClipboardHandler {
    spec fn wf(&self) -> bool;

    fn can_cut(&self) -> bool;

    fn cut(&mut self) -> (r: TerminalResult<()>)
        requires
            old(self).wf(),
        ensures
            final(self).wf(),
    ;

    fn can_copy(&self) -> bool;

    fn copy(&mut self) -> (r: TerminalResult<()>)
        requires
            old(self).wf(),
        ensures
            final(self).wf(),
    ;

    fn can_paste(&self) -> bool;

    fn paste(&mut self) -> (r: TerminalResult<()>)
        requires
            old(self).wf(),
        ensures
            final(self).wf(),
    ;
}

/// Undo and redo surface of a document.
pub trait UndoHandler {
    spec fn wf(&self) -> bool;

    fn undo_description(&self) -> Option<String>;

    fn can_undo(&self) -> bool;

    fn undo(&mut self) -> (r: TerminalResult<Option<Message>>)
        requires
            old(self).wf(),
        ensures
            final(self).wf(),
    ;

    fn redo_description(&self) -> Option<String>;

    fn can_redo(&self) -> bool;

    fn redo(&mut self) -> (r: TerminalResult<Option<Message>>)
        requires
            old(self).wf(),
        ensures
            final(self).wf(),
    ;
}

/// What every open tab offers the window around it.
pub trait Document: UndoHandler + ClipboardHandler {
    spec fn doc_wf(&self) -> bool;

    fn undo_stack_len(&self) -> usize;

    fn default_extension(&self) -> &'static str;

    fn get_ansi_editor(&self) -> Option<&AnsiEditor>;

    fn can_paste_char(&self) -> bool;

    fn paste_char(&mut self, ch: char)
        requires
            old(self).doc_wf(),
        ensures
            final(self).doc_wf(),
    ;

    fn inform_save(&mut self)
        requires
            old(self).doc_wf(),
        ensures
            final(self).doc_wf(),
    ;
}

/// An open ANSI-art document: the editor state plus its tab bookkeeping.
pub struct EditorDoc {
    pub editor: AnsiEditor,
    pub title: String,
    pub dirty: bool,
}

impl EditorDoc {
    pub open spec fn editor_wf(&self) -> bool {
        self.editor.wf()
    }

    pub fn new(title: String, width: usize, height: usize) -> (r: EditorDoc)
        requires
            1 <= width <= MAX_DIM,
            1 <= height <= MAX_DIM,
        ensures
            r.editor_wf(),
            r.title@ == title@,
            !r.dirty,
            r.editor.width() == width,
            r.editor.height() == height,
    {
        EditorDoc { editor: AnsiEditor::new(width, height), title, dirty: false }
    }

    pub fn get_title(&self) -> (r: String)
        ensures
            r@ == self.title@,
    {
        self.title.clone()
    }

    pub fn is_dirty(&self) -> (r: bool)
        ensures
            r == self.dirty,
    {
        self.dirty
    }
}

impl ClipboardHandler for EditorDoc {
    open spec fn wf(&self) -> bool {
        self.editor.wf()
    }

    fn can_cut(&self) -> (r: bool)
        ensures
            r == (self.editor.selection is Some),
    {
        self.editor.selection.is_some()
    }

    /// Cutting removes the selected cells; the clipboard itself lives with
    /// the caller.
    fn cut(&mut self) -> (r: TerminalResult<()>)
        ensures
            r is Ok,
            final(self).title@ == old(self).title@,
            final(self).dirty == old(self).dirty,
            final(self).editor.selection is None,
            forall|x: int, y: int|
                0 <= x < old(self).editor.width() && 0 <= y < old(self).editor.height()
                    ==> #[trigger] final(self).editor.layer.cell(x, y) == if old(
                    self,
                ).editor.selection matches Some(s) && s.contains(x, y) {
                    crate::attribute::AttributedChar::invisible()
                } else {
                    old(self).editor.layer.cell(x, y)
                },
    {
        self.editor.delete_selection();
        Ok(())
    }

    fn can_copy(&self) -> (r: bool)
        ensures
            r == (self.editor.selection is Some),
    {
        self.editor.selection.is_some()
    }

    /// Copying hands the selection to the caller's clipboard; the document
    /// itself does not change.
    fn copy(&mut self) -> (r: TerminalResult<()>)
        ensures
            r is Ok,
            *final(self) == *old(self),
    {
        Ok(())
    }

    fn can_paste(&self) -> (r: bool)
        ensures
            !r,
    {
        false
    }

    fn paste(&mut self) -> (r: TerminalResult<()>)
        ensures
            r is Ok,
            *final(self) == *old(self),
    {
        Ok(())
    }
}

impl UndoHandler for EditorDoc {
    open spec fn wf(&self) -> bool {
        self.editor.wf()
    }

    fn undo_description(&self) -> (r: Option<String>)
        ensures
            match r {
                Some(d) => self.editor.undo_stack@.len() > 0 && d@
                    == self.editor.undo_stack@.last()@,
                None => self.editor.undo_stack@.len() == 0,
            },
    {
        let n = self.editor.undo_stack.len();
        if n > 0 {
            Some(self.editor.undo_stack[n - 1].clone())
        } else {
            None
        }
    }

    fn can_undo(&self) -> (r: bool)
        ensures
            r == (self.editor.undo_stack@.len() > 0),
    {
        self.editor.undo_stack.len() > 0
    }

    fn undo(&mut self) -> (r: TerminalResult<Option<Message>>)
        ensures
            r == TerminalResult::<Option<Message>>::Ok(None),
            final(self).title@ == old(self).title@,
            final(self).dirty == old(self).dirty,
            final(self).editor.layer == old(self).editor.layer,
            AnsiEditor::same_ui(final(self).editor, old(self).editor),
            old(self).editor.undo_stack@.len() == 0 ==> AnsiEditor::same_undo(
                final(self).editor,
                old(self).editor,
            ),
            old(self).editor.undo_stack@.len() > 0 ==> {
                &&& final(self).editor.undo_stack@ == old(self).editor.undo_stack@.drop_last()
                &&& final(self).editor.redo_stack@ == old(self).editor.redo_stack@.push(
                    old(self).editor.undo_stack@.last(),
                )
            },
    {
        self.editor.undo();
        Ok(None)
    }

    fn redo_description(&self) -> (r: Option<String>)
        ensures
            match r {
                Some(d) => self.editor.redo_stack@.len() > 0 && d@
                    == self.editor.redo_stack@.last()@,
                None => self.editor.redo_stack@.len() == 0,
            },
    {
        let n = self.editor.redo_stack.len();
        if n > 0 {
            Some(self.editor.redo_stack[n - 1].clone())
        } else {
            None
        }
    }

    fn can_redo(&self) -> (r: bool)
        ensures
            r == (self.editor.redo_stack@.len() > 0),
    {
        self.editor.redo_stack.len() > 0
    }

    fn redo(&mut self) -> (r: TerminalResult<Option<Message>>)
        ensures
            r == TerminalResult::<Option<Message>>::Ok(None),
            final(self).title@ == old(self).title@,
            final(self).dirty == old(self).dirty,
            final(self).editor.layer == old(self).editor.layer,
            AnsiEditor::same_ui(final(self).editor, old(self).editor),
            old(self).editor.redo_stack@.len() == 0 ==> AnsiEditor::same_undo(
                final(self).editor,
                old(self).editor,
            ),
            old(self).editor.redo_stack@.len() > 0 ==> {
                &&& final(self).editor.redo_stack@ == old(self).editor.redo_stack@.drop_last()
                &&& final(self).editor.undo_stack@ == old(self).editor.undo_stack@.push(
                    old(self).editor.redo_stack@.last(),
                )
            },
    {
        self.editor.redo();
        Ok(None)
    }
}

impl Document for EditorDoc {
    open spec fn doc_wf(&self) -> bool {
        self.editor.wf()
    }

    fn undo_stack_len(&self) -> (r: usize)
        ensures
            r == self.editor.undo_stack@.len(),
    {
        self.editor.undo_stack.len()
    }

    fn default_extension(&self) -> (r: &'static str)
        ensures
            r@ == "icd"@,
    {
        "icd"
    }

    fn get_ansi_editor(&self) -> (r: Option<&AnsiEditor>)
        ensures
            match r {
                Some(e) => *e == self.editor,
                None => false,
            },
    {
        Some(&self.editor)
    }

    fn can_paste_char(&self) -> (r: bool)
        ensures
            r,
    {
        true
    }

    /// A character pasted from the character-selection dialog is typed at
    /// the caret.
    fn paste_char(&mut self, ch: char)
        ensures
            final(self).title@ == old(self).title@,
            final(self).dirty == old(self).dirty,
            crate::tools::typed_char_rel(old(self).editor, final(self).editor, ch),
    {
        self.editor.clear_selection();
        self.editor.type_key(ch);
    }

    fn inform_save(&mut self)
        ensures
            final(self).title@ == old(self).title@,
            !final(self).dirty,
            final(self).editor == old(self).editor,
    {
        self.dirty = false;
    }
}

/// How open documents are displayed: the zoom factor, in percent so the
/// user interface can step it in hundredths, and whether the view follows
/// the window width.
pub struct DocumentOptions {
    pub scale_x_percent: u32,
    pub scale_y_percent: u32,
    pub fit_width: bool,
}

impl DocumentOptions {
    /// What a scale component clamped into the allowed range is.
    pub open spec fn clamped_scale(v: int) -> int {
        if v < 50 {
            50
        } else if v > 500 {
            500
        } else {
            v
        }
    }

    pub fn new() -> (r: DocumentOptions)
        ensures
            r.scale_x_percent == 200,
            r.scale_y_percent == 200,
            !r.fit_width,
    {
        DocumentOptions { scale_x_percent: 200, scale_y_percent: 200, fit_width: false }
    }

    pub fn get_scale(&self) -> (r: (u32, u32))
        ensures
            r.0 == self.scale_x_percent,
            r.1 == self.scale_y_percent,
    {
        (self.scale_x_percent, self.scale_y_percent)
    }

    /// Sets the zoom, clamped into half to five times the natural size.
    pub fn set_scale(&mut self, x_percent: u32, y_percent: u32)
        ensures
            final(self).scale_x_percent == Self::clamped_scale(x_percent as int),
            final(self).scale_y_percent == Self::clamped_scale(y_percent as int),
            final(self).fit_width == old(self).fit_width,
    {
        self.scale_x_percent = if x_percent < 50 {
            50
        } else if x_percent > 500 {
            500
        } else {
            x_percent
        };
        self.scale_y_percent = if y_percent < 50 {
            50
        } else if y_percent > 500 {
            500
        } else {
            y_percent
        };
    }
}

impl Default for DocumentOptions {
    fn default() -> (r: DocumentOptions)
        ensures
            r.scale_x_percent == 200,
            r.scale_y_percent == 200,
            !r.fit_width,
    {
        DocumentOptions::new()
    }
}

} // verus!
