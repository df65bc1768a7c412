//! The colour picker: clicking a cell adopts its attribute for the caret.
use vstd::prelude::*;

use crate::Event;
use crate::editor::AnsiEditor;
use crate::editor::Caret;
use crate::geometry::Position;
use crate::tools::Tool;

verus! {

pub struct PipetteTool {}

impl Tool for PipetteTool {
    open spec fn wf(&self) -> bool {
        true
    }

    fn use_caret(&self) -> (r: bool)
        ensures
            !r,
    {
        false
    }

    fn is_visible(&self) -> (r: bool)
        ensures
            r,
    {
        true
    }

    fn is_exclusive(&self) -> (r: bool)
        ensures
            !r,
    {
        false
    }

    fn use_selection(&self) -> (r: bool)
        ensures
            !r,
    {
        false
    }

    /// The primary button picks up the attribute of the clicked cell — as
    /// shown, so a painted preview counts — into the caret.
    fn handle_click(&mut self, editor: &mut AnsiEditor, button: i32, pos: Position) -> (r: Event)
        ensures
            button == 1 ==> *final(editor) == (AnsiEditor {
                caret: Caret {
                    attribute: ({
                        let shown = if old(editor).layer.in_bounds(pos) {
                            match old(editor).overlay.cell(pos.x as int, pos.y as int) {
                                Some(c) => c,
                                None => old(editor).layer.cell(pos.x as int, pos.y as int),
                            }
                        } else {
                            crate::attribute::AttributedChar::invisible()
                        };
                        shown.attribute
                    }),
                    ..old(editor).caret
                },
                ..*old(editor)
            }),
            button != 1 ==> *final(editor) == *old(editor),
            r matches Event::Nothing,
    {
        if button == 1 {
            let ch = editor.get_char(pos);
            editor.set_caret_attribute(ch.attribute);
        }
        Event::Nothing
    }

    fn handle_drag_begin(&mut self, editor: &mut AnsiEditor) -> (r: Event)
        ensures
            *final(editor) == *old(editor),
            r matches Event::Nothing,
    {
        Event::Nothing
    }

    fn handle_drag(&mut self, editor: &mut AnsiEditor) -> (r: Event)
        ensures
            *final(editor) == *old(editor),
            r matches Event::Nothing,
    {
        Event::Nothing
    }

    fn handle_hover(&mut self, editor: &mut AnsiEditor, cur: Position) -> (r: Event)
        ensures
            *final(editor) == *old(editor),
            r matches Event::Nothing,
    {
        Event::Nothing
    }

    fn handle_drag_end(&mut self, editor: &mut AnsiEditor) -> (r: Event)
        ensures
            *final(editor) == *old(editor),
            r matches Event::Nothing,
    {
        Event::Nothing
    }
}

} // verus!
