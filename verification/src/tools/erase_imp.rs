//! The eraser: a square brush that blanks cells, at once or shade by shade.
use vstd::prelude::*;

use crate::Event;
use crate::attribute::AttributedChar;
use crate::attribute::TextAttribute;
use crate::editor::AnsiEditor;
use crate::geometry::Position;
use crate::tools::Tool;

verus! {

/// How the eraser removes what it touches.
#[derive(Clone, Copy, Debug, PartialEq, Eq, Structural)]
pub enum EraseType {
    /// Step block and shade glyphs one shade lighter per pass.
    Shade,
    /// Blank the cell outright.
    Solid,
}

/// The square eraser brush.
pub struct EraseTool {
    /// Side length of the brush square, kept in `1 ..= 20` by the panel.
    pub size: i32,
    pub brush_type: EraseType,
    /// The description of the undo group a drag opened, while it runs.
    pub undo_op: Option<String>,
}

/// One shade-erase step on a cell: a blank cell stays blank with its
/// attribute reset, block and shade glyphs step one shade lighter (the
/// lightest to a blank), and any other glyph is left alone (`None`).
pub open spec fn erase_shade_cell(c: AttributedChar) -> Option<AttributedChar> {
    if c.ch == ' ' {
        Some(
            AttributedChar {
                ch: ' ',
                attribute: TextAttribute { foreground: 7, background: 0, font_page: 0 },
            },
        )
    } else if c.ch == '\u{00DB}' {
        Some(AttributedChar { ch: '\u{00B2}', attribute: c.attribute })
    } else if c.ch == '\u{00B2}' {
        Some(AttributedChar { ch: '\u{00B1}', attribute: c.attribute })
    } else if c.ch == '\u{00B1}' {
        Some(AttributedChar { ch: '\u{00B0}', attribute: c.attribute })
    } else if c.ch == '\u{00B0}' {
        Some(AttributedChar { ch: ' ', attribute: c.attribute })
    } else {
        None
    }
}

/// What one pass of the eraser leaves in a touched cell.
pub open spec fn erased_cell(brush: EraseType, c: AttributedChar) -> AttributedChar {
    match brush {
        EraseType::Solid => AttributedChar {
            ch: ' ',
            attribute: TextAttribute { foreground: 7, background: 0, font_page: 0 },
        },
        EraseType::Shade => match erase_shade_cell(c) {
            Some(c2) => c2,
            None => c,
        },
    }
}

impl EraseTool {
    pub open spec fn size_wf(self) -> bool {
        1 <= self.size <= 20
    }

    /// Top-left corner of the brush square around `pos`.
    pub open spec fn brush_corner(self, pos: Position) -> (int, int) {
        ((pos.x - self.size / 2) as int, (pos.y - self.size / 2) as int)
    }

    /// Sets the brush size, clamped into `1 ..= 20` as the options panel
    /// does.
    pub fn set_size(&mut self, size: i32)
        ensures
            final(self).size == if size < 1 {
                1int
            } else if size > 20 {
                20int
            } else {
                size as int
            },
            final(self).brush_type == old(self).brush_type,
            final(self).undo_op == old(self).undo_op,
            final(self).size_wf(),
    {
        self.size = if size < 1 {
            1
        } else if size > 20 {
            20
        } else {
            size
        };
    }

    /// One pass of the brush square centred on `pos`.
    #[verifier::loop_isolation(false)]
    pub fn eraser(&self, editor: &mut AnsiEditor, pos: Position)
        requires
            self.size_wf(),
            old(editor).wf(),
            pos.bounded(),
        ensures
            final(editor).wf(),
            final(editor).width() == old(editor).width(),
            final(editor).height() == old(editor).height(),
            final(editor).overlay == old(editor).overlay,
            AnsiEditor::same_ui(*final(editor), *old(editor)),
            AnsiEditor::same_undo(*final(editor), *old(editor)),
            final(editor).selection == old(editor).selection,
            forall|x: int, y: int|
                0 <= x < old(editor).width() && 0 <= y < old(editor).height()
                    ==> #[trigger] final(editor).layer.cell(x, y) == {
                    let (cx, cy) = self.brush_corner(pos);
                    if cx <= x < cx + self.size && cy <= y < cy + self.size {
                        erased_cell(self.brush_type, old(editor).layer.cell(x, y))
                    } else {
                        old(editor).layer.cell(x, y)
                    }
                },
    {
        let mid = Position { x: -(self.size / 2), y: -(self.size / 2) };
        let center = pos.offset(mid);
        let mut y: i32 = 0;
        while y < self.size
            invariant
                0 <= y <= self.size,
                editor.wf(),
                editor.width() == old(editor).width(),
                editor.height() == old(editor).height(),
                editor.overlay == old(editor).overlay,
                AnsiEditor::same_ui(*editor, *old(editor)),
                AnsiEditor::same_undo(*editor, *old(editor)),
                forall|x: int, yy: int|
                    0 <= x < old(editor).width() && 0 <= yy < old(editor).height()
                        ==> #[trigger] editor.layer.cell(x, yy) == if center.x <= x < center.x
                        + self.size && center.y <= yy < center.y + y {
                        erased_cell(self.brush_type, old(editor).layer.cell(x, yy))
                    } else {
                        old(editor).layer.cell(x, yy)
                    },
            decreases self.size - y,
        {
            let mut x: i32 = 0;
            while x < self.size
                invariant
                    0 <= x <= self.size,
                    0 <= y < self.size,
                    editor.wf(),
                    editor.width() == old(editor).width(),
                    editor.height() == old(editor).height(),
                    editor.overlay == old(editor).overlay,
                    AnsiEditor::same_ui(*editor, *old(editor)),
                    AnsiEditor::same_undo(*editor, *old(editor)),
                    forall|xx: int, yy: int|
                        0 <= xx < old(editor).width() && 0 <= yy < old(editor).height()
                            ==> #[trigger] editor.layer.cell(xx, yy) == if (center.x <= xx
                            < center.x + self.size && center.y <= yy < center.y + y) || (center.y
                            + y == yy && center.x <= xx < center.x + x) {
                            erased_cell(self.brush_type, old(editor).layer.cell(xx, yy))
                        } else {
                            old(editor).layer.cell(xx, yy)
                        },
                decreases self.size - x,
            {
                let p = Position { x: center.x + x, y: center.y + y };
                match self.brush_type {
                    EraseType::Shade => {
                        let ch = editor.get_char_from_cur_layer(p);
                        let mut attribute = ch.attribute;
                        let mut char_code = ' ';
                        let mut found = true;
                        if ch.ch == ' ' {
                            attribute = TextAttribute::default();
                        } else if ch.ch == '\u{00DB}' {
                            char_code = '\u{00B2}';
                        } else if ch.ch == '\u{00B2}' {
                            char_code = '\u{00B1}';
                        } else if ch.ch == '\u{00B1}' {
                            char_code = '\u{00B0}';
                        } else if ch.ch == '\u{00B0}' {
                            char_code = ' ';
                        } else {
                            found = false;
                        }
                        if found {
                            editor.set_char(p, AttributedChar::new(char_code, attribute));
                        }
                    },
                    EraseType::Solid => {
                        editor.set_char(p, AttributedChar::new(' ', TextAttribute::default()));
                    },
                }
                x = x + 1;
            }
            y = y + 1;
        }
    }
}

impl Tool for EraseTool {
    open spec fn wf(&self) -> bool {
        self.size_wf()
    }

    fn use_caret(&self) -> (r: bool)
        ensures
            !r,
    {
        false
    }

    fn is_visible(&self) -> (r: bool)
        ensures
            r,
    {
        true
    }

    fn is_exclusive(&self) -> (r: bool)
        ensures
            !r,
    {
        false
    }

    fn use_selection(&self) -> (r: bool)
        ensures
            r,
    {
        true
    }

    /// The primary button opens an undo group and erases once around `pos`.
    fn handle_click(&mut self, editor: &mut AnsiEditor, button: i32, pos: Position) -> (r: Event)
        ensures
            *final(self) == *old(self),
            button != 1 ==> *final(editor) == *old(editor),
            button == 1 ==> {
                &&& final(editor).undo_stack@.len() == old(editor).undo_stack@.len() + 1
                &&& (forall|i: int|
                    0 <= i < old(editor).undo_stack@.len()
                        ==> #[trigger] final(editor).undo_stack@[i] == old(editor).undo_stack@[i])
                &&& final(editor).undo_stack@.last()@ == "eraser"@
                &&& final(editor).redo_stack@.len() == 0
                &&& final(editor).width() == old(editor).width()
                &&& final(editor).height() == old(editor).height()
                &&& final(editor).overlay == old(editor).overlay
                &&& AnsiEditor::same_ui(*final(editor), *old(editor))
                &&& forall|x: int, y: int|
                    0 <= x < old(editor).width() && 0 <= y < old(editor).height()
                        ==> #[trigger] final(editor).layer.cell(x, y) == {
                        let (cx, cy) = old(self).brush_corner(pos);
                        if cx <= x < cx + old(self).size && cy <= y < cy + old(self).size {
                            erased_cell(old(self).brush_type, old(editor).layer.cell(x, y))
                        } else {
                            old(editor).layer.cell(x, y)
                        }
                    }
            },
            r matches Event::Nothing,
    {
        if button == 1 {
            let _undo = editor.begin_atomic_undo("eraser".to_owned());
            self.eraser(editor, pos);
        }
        Event::Nothing
    }

    fn handle_drag_begin(&mut self, editor: &mut AnsiEditor) -> (r: Event)
        ensures
            final(self).size == old(self).size,
            final(self).brush_type == old(self).brush_type,
            final(self).undo_op is Some,
            final(editor).undo_stack@.len() == old(editor).undo_stack@.len() + 1,
            r matches Event::Nothing,
    {
        let g = editor.begin_atomic_undo("eraser".to_owned());
        self.undo_op = Some(g);
        Event::Nothing
    }

    /// Erases around the cell the drag currently touches.
    fn handle_drag(&mut self, editor: &mut AnsiEditor) -> (r: Event)
        ensures
            *final(self) == *old(self),
            final(editor).width() == old(editor).width(),
            final(editor).height() == old(editor).height(),
            final(editor).overlay == old(editor).overlay,
            AnsiEditor::same_ui(*final(editor), *old(editor)),
            AnsiEditor::same_undo(*final(editor), *old(editor)),
            forall|x: int, y: int|
                0 <= x < old(editor).width() && 0 <= y < old(editor).height()
                    ==> #[trigger] final(editor).layer.cell(x, y) == {
                    let (cx, cy) = old(self).brush_corner(old(editor).drag_pos.cur);
                    if cx <= x < cx + old(self).size && cy <= y < cy + old(self).size {
                        erased_cell(old(self).brush_type, old(editor).layer.cell(x, y))
                    } else {
                        old(editor).layer.cell(x, y)
                    }
                },
            r matches Event::Nothing,
    {
        let cur = editor.drag_pos.cur;
        self.eraser(editor, cur);
        Event::Nothing
    }

    fn handle_hover(&mut self, editor: &mut AnsiEditor, cur: Position) -> (r: Event)
        ensures
            *final(self) == *old(self),
            *final(editor) == *old(editor),
            r matches Event::Nothing,
    {
        Event::Nothing
    }

    /// Closes the undo group the drag opened.
    fn handle_drag_end(&mut self, editor: &mut AnsiEditor) -> (r: Event)
        ensures
            final(self).size == old(self).size,
            final(self).brush_type == old(self).brush_type,
            final(self).undo_op is None,
            *final(editor) == *old(editor),
            r matches Event::Nothing,
    {
        self.undo_op = None;
        Event::Nothing
    }
}

} // verus!
