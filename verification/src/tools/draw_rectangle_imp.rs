//! The rectangle tool: dragging previews the outline of the spanned
//! rectangle in half blocks; releasing commits or discards the preview.
use vstd::prelude::*;

use crate::Event;
use crate::editor::AnsiEditor;
use crate::geometry::Position;
use crate::geometry::Rectangle;
use crate::scan_lines::ScanLines;
use crate::tools::DrawMode;
use crate::tools::Plottable;
use crate::tools::Tool;
use crate::tools::drag_rect;
use crate::tools::outline_painted;
use crate::tools::outline_hit;
use crate::tools::paint_outline;

verus! {

pub struct DrawRectangleTool {
    pub draw_mode: DrawMode,
    pub use_fore: bool,
    pub use_back: bool,
    pub attr: crate::attribute::TextAttribute,
    pub char_code: char,
}

impl Plottable for DrawRectangleTool {
    open spec fn draw_mode_spec(&self) -> DrawMode {
        self.draw_mode
    }

    open spec fn use_fore_spec(&self) -> bool {
        self.use_fore
    }

    open spec fn use_back_spec(&self) -> bool {
        self.use_back
    }

    open spec fn char_code_spec(&self) -> char {
        self.char_code
    }

    fn get_draw_mode(&self) -> (r: DrawMode) {
        self.draw_mode
    }

    fn get_use_fore(&self) -> (r: bool) {
        self.use_fore
    }

    fn get_use_back(&self) -> (r: bool) {
        self.use_back
    }

    fn get_char_code(&self) -> (r: char) {
        self.char_code
    }
}

impl Tool for DrawRectangleTool {
    open spec fn wf(&self) -> bool {
        true
    }

    fn use_caret(&self) -> (r: bool)
        ensures
            !r,
    {
        false
    }

    fn is_visible(&self) -> (r: bool)
        ensures
            r,
    {
        true
    }

    fn is_exclusive(&self) -> (r: bool)
        ensures
            !r,
    {
        false
    }

    fn use_selection(&self) -> (r: bool)
        ensures
            !r,
    {
        false
    }

    fn handle_click(&mut self, editor: &mut AnsiEditor, button: i32, pos: Position) -> (r: Event)
        ensures
            *final(editor) == *old(editor),
            r matches Event::Nothing,
    {
        Event::Nothing
    }

    fn handle_drag_begin(&mut self, editor: &mut AnsiEditor) -> (r: Event)
        ensures
            *final(editor) == *old(editor),
            r matches Event::Nothing,
    {
        Event::Nothing
    }

    /// Repaints the preview with the outline of the rectangle the drag
    /// spans — in half-block space when the tool draws lines — in the
    /// caret's foreground colour.
    fn handle_drag(&mut self, editor: &mut AnsiEditor) -> (r: Event)
        ensures
            *final(self) == *old(self),
            exists|sl: ScanLines|
                {
                    &&& (forall|x: int, y: int| #[trigger]
                        sl.covered(x, y) <==> drag_rect(
                            old(editor).drag_pos.start,
                            old(editor).drag_pos.cur,
                            old(self).draw_mode matches DrawMode::Line,
                        ).covers(x, y))
                    &&& outline_painted(*old(editor), *final(editor), sl)
                },
            r matches Event::Nothing,
    {
        editor.clear_overlay_layer();
        let start0 = editor.drag_pos.start;
        let cur0 = editor.drag_pos.cur;
        let line_mode = matches!(self.draw_mode, DrawMode::Line);
        let start = if line_mode {
            Position { x: start0.x, y: start0.y * 2 }
        } else {
            start0
        };
        let cur = if line_mode {
            Position { x: cur0.x, y: cur0.y * 2 }
        } else {
            cur0
        };
        let rect = Rectangle::from_pt(start, cur);
        let ghost spec_rect = drag_rect(start0, cur0, line_mode);
        proof {
            assert(rect == spec_rect);
        }
        let mut lines = ScanLines::new(1);
        lines.add_rectangle(rect);
        proof {
            assert forall|x: int, y: int| #[trigger] lines.covered(x, y) <==> rect.covers(x, y) by {
                let sp = lines.span(y);
            }
        }
        let col = editor.get_caret_attribute().get_foreground();
        let rects = lines.outline();
        paint_outline(editor, &rects, col);
        proof {
            assert forall|x: int, hy: int| #[trigger]
                outline_hit(rects@, rects@.len() as int, x, hy) == lines.on_outline(x, hy) by {
                if outline_hit(rects@, rects@.len() as int, x, hy) {
                    let w = choose|i: int|
                        0 <= i < rects@.len() && #[trigger] rects@[i].covers(x, hy);
                    assert(lines.on_outline(x, hy));
                }
            }
            assert(outline_painted(*old(editor), *editor, lines));
        }
        Event::Nothing
    }

    fn handle_hover(&mut self, editor: &mut AnsiEditor, cur: Position) -> (r: Event)
        ensures
            *final(editor) == *old(editor),
            r matches Event::Nothing,
    {
        Event::Nothing
    }

    /// A drag that never left its start cell is discarded; any other drag
    /// commits the previewed outline to the layer.
    fn handle_drag_end(&mut self, editor: &mut AnsiEditor) -> (r: Event)
        ensures
            old(editor).drag_pos.start == old(editor).drag_pos.cur ==> {
                &&& final(editor).layer == old(editor).layer
                &&& AnsiEditor::same_ui(*final(editor), *old(editor))
                &&& AnsiEditor::same_undo(*final(editor), *old(editor))
                &&& forall|x: int, y: int|
                    0 <= x < old(editor).width() && 0 <= y < old(editor).height()
                        ==> #[trigger] final(editor).overlay.cell(x, y) is None
            },
            old(editor).drag_pos.start != old(editor).drag_pos.cur ==> {
                &&& AnsiEditor::same_ui(*final(editor), *old(editor))
                &&& final(editor).undo_stack@.len() == old(editor).undo_stack@.len() + 1
                &&& forall|x: int, y: int|
                    0 <= x < old(editor).width() && 0 <= y < old(editor).height()
                        ==> #[trigger] final(editor).layer.cell(x, y) == match old(
                        editor,
                    ).overlay.cell(x, y) {
                        Some(c) => c,
                        None => old(editor).layer.cell(x, y),
                    }
            },
            r matches Event::Nothing,
    {
        let start = editor.drag_pos.start;
        let cur = editor.drag_pos.cur;
        if start.x == cur.x && start.y == cur.y {
            editor.remove_overlay();
        } else {
            editor.join_overlay("draw rectangle".to_owned());
        }
        Event::Nothing
    }
}

} // verus!
