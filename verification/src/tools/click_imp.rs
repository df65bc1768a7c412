//! The default tool: clicking places the caret, dragging selects.
use vstd::prelude::*;

use crate::Event;
use crate::editor::AnsiEditor;
use crate::editor::Selection;
use crate::geometry::Position;
use crate::tools::Tool;

verus! {

pub struct ClickTool {}

impl Tool for ClickTool {
    open spec fn wf(&self) -> bool {
        true
    }

    fn use_caret(&self) -> (r: bool)
        ensures
            r,
    {
        true
    }

    fn is_visible(&self) -> (r: bool)
        ensures
            r,
    {
        true
    }

    fn is_exclusive(&self) -> (r: bool)
        ensures
            !r,
    {
        false
    }

    fn use_selection(&self) -> (r: bool)
        ensures
            r,
    {
        true
    }

    /// The primary button moves the caret to the clicked cell and drops the
    /// selection; other buttons do nothing.
    fn handle_click(&mut self, editor: &mut AnsiEditor, button: i32, pos: Position) -> (r: Event)
        ensures
            button == 1 ==> *final(editor) == (AnsiEditor {
                caret: crate::editor::Caret {
                    position: Position {
                        x: AnsiEditor::clamped(pos.x as int, old(editor).width()) as i32,
                        y: AnsiEditor::clamped(pos.y as int, old(editor).height()) as i32,
                    },
                    ..old(editor).caret
                },
                selection: None,
                ..*old(editor)
            }),
            button != 1 ==> *final(editor) == *old(editor),
            r matches Event::Nothing,
    {
        if button == 1 {
            editor.set_caret_position(pos);
            editor.clear_selection();
        }
        Event::Nothing
    }

    fn handle_drag_begin(&mut self, editor: &mut AnsiEditor) -> (r: Event)
        ensures
            *final(editor) == *old(editor),
            r matches Event::Nothing,
    {
        Event::Nothing
    }

    /// Dragging away from the start cell selects the spanned rectangle;
    /// a drag that returns to its start drops the selection.
    fn handle_drag(&mut self, editor: &mut AnsiEditor) -> (r: Event)
        ensures
            ({
                let start = old(editor).drag_pos.start;
                let cur = old(editor).drag_pos.cur;
                if start == cur {
                    *final(editor) == (AnsiEditor { selection: None, ..*old(editor) })
                } else {
                    *final(editor) == (AnsiEditor {
                        selection: Some(
                            Selection {
                                x: if start.x <= cur.x { start.x } else { cur.x },
                                y: if start.y <= cur.y { start.y } else { cur.y },
                                width: if cur.x >= start.x {
                                    (cur.x - start.x) as i32
                                } else {
                                    (start.x - cur.x) as i32
                                },
                                height: if cur.y >= start.y {
                                    (cur.y - start.y) as i32
                                } else {
                                    (start.y - cur.y) as i32
                                },
                            },
                        ),
                        ..*old(editor)
                    })
                }
            }),
            r matches Event::Nothing,
    {
        let start = editor.drag_pos.start;
        let cur = editor.drag_pos.cur;
        if start.x == cur.x && start.y == cur.y {
            editor.clear_selection();
        } else {
            let x = if start.x <= cur.x {
                start.x
            } else {
                cur.x
            };
            let y = if start.y <= cur.y {
                start.y
            } else {
                cur.y
            };
            let width = if cur.x >= start.x {
                cur.x - start.x
            } else {
                start.x - cur.x
            };
            let height = if cur.y >= start.y {
                cur.y - start.y
            } else {
                start.y - cur.y
            };
            editor.set_selection(Selection::from_rectangle(x, y, width, height));
        }
        Event::Nothing
    }

    fn handle_hover(&mut self, editor: &mut AnsiEditor, cur: Position) -> (r: Event)
        ensures
            *final(editor) == *old(editor),
            r matches Event::Nothing,
    {
        Event::Nothing
    }

    /// A drag that spans nothing — its end cell equal to its start, after
    /// the end of a forward drag is pushed one cell out — drops the
    /// selection; any other drag keeps what `handle_drag` selected.
    fn handle_drag_end(&mut self, editor: &mut AnsiEditor) -> (r: Event)
        ensures
            ({
                let start = old(editor).drag_pos.start;
                let cur0 = old(editor).drag_pos.cur;
                let cur = if start.lt_spec(cur0) {
                    Position { x: (cur0.x + 1) as i32, y: (cur0.y + 1) as i32 }
                } else {
                    cur0
                };
                if start == cur {
                    *final(editor) == (AnsiEditor { selection: None, ..*old(editor) })
                } else {
                    *final(editor) == *old(editor)
                }
            }),
            r matches Event::Nothing,
    {
        let start = editor.drag_pos.start;
        let mut cur = editor.drag_pos.cur;
        if start.is_before(cur) {
            cur = Position { x: cur.x + 1, y: cur.y + 1 };
        }
        if start.x == cur.x && start.y == cur.y {
            editor.clear_selection();
        }
        Event::Nothing
    }
}

} // verus!
