//! The transient state of one open ANSI-art editor.
//!
//! The rendering engine owns the persistent document; the editing session
//! state that the tools and key handlers work on is modelled here as plain
//! values: the character grid of the active layer, the preview overlay, the
//! caret, the selection, the current drag, the selected outline style and the
//! undo / redo description stacks.  An overlay cell is `Some` where a drawing
//! tool has painted a preview and `None` where the layer below shows through.
use vstd::prelude::*;

use crate::attribute::AttributedChar;
use crate::attribute::TextAttribute;
use crate::geometry::Position;
use crate::grid::Grid;
use crate::grid::MAX_DIM;

verus! {

/// Number of outline styles the editor can select between.
pub const OUTLINE_STYLES: usize = 15;

/// The text caret: where typed characters land, and with which attribute.
#[derive(Clone, Copy, Debug, PartialEq, Eq, Structural)]
pub struct Caret {
    pub position: Position,
    pub attribute: TextAttribute,
    pub insert_mode: bool,
}

/// A selected rectangle of cells, in normal form (non-negative extent).
#[derive(Clone, Copy, Debug, PartialEq, Eq, Structural)]
pub struct Selection {
    pub x: i32,
    pub y: i32,
    pub width: i32,
    pub height: i32,
}

impl Selection {
    pub open spec fn wf(self) -> bool {
        &&& self.width >= 0
        &&& self.height >= 0
        &&& self.x + self.width <= i32::MAX
        &&& self.y + self.height <= i32::MAX
    }

    pub open spec fn contains(self, x: int, y: int) -> bool {
        self.x <= x < self.x + self.width && self.y <= y < self.y + self.height
    }

    /// Whether the cell `(px, py)` lies inside the selection.
    pub fn contains_pos(self, px: i32, py: i32) -> (r: bool)
        requires
            self.wf(),
        ensures
            r == self.contains(px as int, py as int),
    {
        self.x <= px && (px as i64) < (self.x as i64) + (self.width as i64) && self.y <= py && (
        py as i64) < (self.y as i64) + (self.height as i64)
    }

    /// The selection covering the `width` x `height` rectangle at `(x, y)`.
    pub fn from_rectangle(x: i32, y: i32, width: i32, height: i32) -> (r: Selection)
        requires
            width >= 0,
            height >= 0,
            x + width <= i32::MAX,
            y + height <= i32::MAX,
        ensures
            r == (Selection { x, y, width, height }),
            r.wf(),
    {
        Selection { x, y, width, height }
    }
}

/// Start and current cell of a mouse drag, in screen and buffer coordinates.
#[derive(Clone, Copy, Debug, PartialEq, Eq, Structural)]
pub struct DragPos {
    pub start_abs: Position,
    pub cur_abs: Position,
    pub start: Position,
    pub cur: Position,
}

impl Default for DragPos {
    fn default() -> (r: DragPos)
        ensures
            r.start_abs == (Position { x: 0, y: 0 }),
            r.cur_abs == (Position { x: 0, y: 0 }),
            r.start == (Position { x: 0, y: 0 }),
            r.cur == (Position { x: 0, y: 0 }),
    {
        DragPos {
            start_abs: Position { x: 0, y: 0 },
            cur_abs: Position { x: 0, y: 0 },
            start: Position { x: 0, y: 0 },
            cur: Position { x: 0, y: 0 },
        }
    }
}

/// Failures the editor reports to its caller.
#[derive(Clone, Copy, Debug, PartialEq, Eq, Structural)]
pub enum EditorError {
    /// The selected outline style has no character at the asked index.
    NoOutlineChar,
}

/// One layer of the document as the layer panel sees it.  The cells of the
/// active layer are modelled by the editor's grid; the engine owns the rest.
pub struct Layer {
    pub name: String,
    pub is_visible: bool,
    pub has_alpha_channel: bool,
}

/// One open editing session.
pub struct AnsiEditor {
    /// The character grid of the active layer.
    pub layer: Grid<AttributedChar>,
    /// The preview overlay: `Some` where a tool painted, `None` elsewhere.
    pub overlay: Grid<Option<AttributedChar>>,
    pub caret: Caret,
    pub selection: Option<Selection>,
    pub drag_pos: DragPos,
    /// Index of the selected outline style.
    pub cur_outline: usize,
    /// Character codes of the glyphs the selected outline font offers.
    pub outline_chars: Vec<u16>,
    /// Descriptions of the operations that can be undone, oldest first.
    pub undo_stack: Vec<String>,
    /// Descriptions of the operations undone since the last edit.
    pub redo_stack: Vec<String>,
    /// The document's layer stack, topmost first.
    pub layers: Vec<Layer>,
    /// Index of the layer being edited.
    pub cur_layer: usize,
    /// Font pages for which a font is loaded.
    pub loaded_font_pages: Vec<usize>,
}

impl AnsiEditor {
    pub open spec fn width(self) -> int {
        self.layer.width()
    }

    pub open spec fn height(self) -> int {
        self.layer.height()
    }

    pub open spec fn wf(self) -> bool {
        &&& self.layer.wf()
        &&& self.overlay.wf()
        &&& self.overlay.width() == self.layer.width()
        &&& self.overlay.height() == self.layer.height()
        &&& 0 <= self.caret.position.x < self.width()
        &&& 0 <= self.caret.position.y < self.height()
        &&& self.cur_outline < OUTLINE_STYLES
        &&& (self.selection matches Some(s) ==> s.wf())
        &&& self.drag_pos.start_abs.bounded()
        &&& self.drag_pos.cur_abs.bounded()
        &&& self.drag_pos.start.bounded()
        &&& self.drag_pos.cur.bounded()
        &&& self.layers@.len() >= 1
        &&& self.cur_layer < self.layers@.len()
        &&& forall|i: int|
            0 <= i < self.outline_chars@.len() ==> (#[trigger] self.outline_chars@[i] < 0xD800
                || self.outline_chars@[i] >= 0xE000)
    }

    /// The editing state outside the two grids and the undo stacks.
    pub open spec fn same_ui(a: AnsiEditor, b: AnsiEditor) -> bool {
        &&& a.caret == b.caret
        &&& a.selection == b.selection
        &&& a.drag_pos == b.drag_pos
        &&& a.cur_outline == b.cur_outline
        &&& a.outline_chars@ == b.outline_chars@
        &&& a.layers@ == b.layers@
        &&& a.cur_layer == b.cur_layer
        &&& a.loaded_font_pages@ == b.loaded_font_pages@
    }

    pub open spec fn same_undo(a: AnsiEditor, b: AnsiEditor) -> bool {
        &&& a.undo_stack@ == b.undo_stack@
        &&& a.redo_stack@ == b.redo_stack@
    }

    /// A fresh editor over an empty `width` x `height` buffer.
    pub fn new(width: usize, height: usize) -> (r: AnsiEditor)
        requires
            1 <= width <= MAX_DIM,
            1 <= height <= MAX_DIM,
        ensures
            r.wf(),
            r.width() == width,
            r.height() == height,
            forall|x: int, y: int|
                0 <= x < width && 0 <= y < height ==> #[trigger] r.layer.cell(x, y)
                    == AttributedChar::invisible(),
            forall|x: int, y: int|
                0 <= x < width && 0 <= y < height ==> #[trigger] r.overlay.cell(x, y) is None,
            r.caret.position == (Position { x: 0, y: 0 }),
            r.caret.attribute == (TextAttribute { foreground: 7, background: 0, font_page: 0 }),
            !r.caret.insert_mode,
            r.selection is None,
            r.cur_outline == 0,
            r.outline_chars@.len() == 0,
            r.undo_stack@.len() == 0,
            r.redo_stack@.len() == 0,
            r.layers@.len() == 1,
            r.layers@[0].is_visible,
            !r.layers@[0].has_alpha_channel,
            r.cur_layer == 0,
            r.loaded_font_pages@ == Seq::<usize>::empty().push(0),
    {
        AnsiEditor {
            layer: Grid::new(width, height, AttributedChar::invisible()),
            overlay: Grid::new(width, height, None),
            caret: Caret {
                position: Position { x: 0, y: 0 },
                attribute: TextAttribute::default(),
                insert_mode: false,
            },
            selection: None,
            drag_pos: DragPos::default(),
            cur_outline: 0,
            outline_chars: Vec::new(),
            undo_stack: Vec::new(),
            redo_stack: Vec::new(),
            layers: {
                let mut layers: Vec<Layer> = Vec::new();
                layers.push(
                    Layer {
                        name: "Background".to_owned(),
                        is_visible: true,
                        has_alpha_channel: false,
                    },
                );
                layers
            },
            cur_layer: 0,
            loaded_font_pages: {
                let mut pages: Vec<usize> = Vec::new();
                pages.push(0);
                pages
            },
        }
    }

    pub fn get_width(&self) -> (r: i32)
        requires
            self.wf(),
        ensures
            r == self.width(),
    {
        proof {
            crate::grid::Grid::lemma_dims(self.layer);
        }
        self.layer.exec_width() as i32
    }

    pub fn get_height(&self) -> (r: i32)
        requires
            self.wf(),
        ensures
            r == self.height(),
    {
        proof {
            crate::grid::Grid::lemma_dims(self.layer);
        }
        self.layer.exec_height() as i32
    }

    pub fn get_caret(&self) -> (r: Caret)
        ensures
            r == self.caret,
    {
        self.caret
    }

    pub fn get_caret_position(&self) -> (r: Position)
        ensures
            r == self.caret.position,
    {
        self.caret.position
    }

    pub fn get_caret_attribute(&self) -> (r: TextAttribute)
        ensures
            r == self.caret.attribute,
    {
        self.caret.attribute
    }

    pub fn set_caret_attribute(&mut self, attribute: TextAttribute)
        requires
            old(self).wf(),
        ensures
            final(self).wf(),
            *final(self) == (AnsiEditor {
                caret: Caret { attribute, ..old(self).caret },
                ..*old(self)
            }),
    {
        self.caret.attribute = attribute;
    }

    /// What a coordinate clamped into `[0, limit)` is.
    pub open spec fn clamped(v: int, limit: int) -> int {
        if v < 0 {
            0
        } else if v >= limit {
            limit - 1
        } else {
            v
        }
    }

    /// Moves the caret to `(x, y)`, clamped into the buffer.
    pub fn set_caret(&mut self, x: i32, y: i32)
        requires
            old(self).wf(),
        ensures
            final(self).wf(),
            *final(self) == (AnsiEditor {
                caret: Caret {
                    position: Position {
                        x: Self::clamped(x as int, old(self).width()) as i32,
                        y: Self::clamped(y as int, old(self).height()) as i32,
                    },
                    ..old(self).caret
                },
                ..*old(self)
            }),
    {
        proof {
            crate::grid::Grid::lemma_dims(self.layer);
        }
        let w = self.layer.exec_width() as i32;
        let h = self.layer.exec_height() as i32;
        let cx = if x < 0 {
            0
        } else if x >= w {
            w - 1
        } else {
            x
        };
        let cy = if y < 0 {
            0
        } else if y >= h {
            h - 1
        } else {
            y
        };
        self.caret.position = Position { x: cx, y: cy };
    }

    pub fn set_caret_position(&mut self, pos: Position)
        requires
            old(self).wf(),
        ensures
            final(self).wf(),
            *final(self) == (AnsiEditor {
                caret: Caret {
                    position: Position {
                        x: Self::clamped(pos.x as int, old(self).width()) as i32,
                        y: Self::clamped(pos.y as int, old(self).height()) as i32,
                    },
                    ..old(self).caret
                },
                ..*old(self)
            }),
    {
        self.set_caret(pos.x, pos.y);
    }

    /// The cell of the active layer at `pos`; invisible outside the buffer.
    pub fn get_char_from_cur_layer(&self, pos: Position) -> (r: AttributedChar)
        requires
            self.wf(),
        ensures
            r == if self.layer.in_bounds(pos) {
                self.layer.cell(pos.x as int, pos.y as int)
            } else {
                AttributedChar::invisible()
            },
    {
        self.layer.get(pos, AttributedChar::invisible())
    }

    /// The visible cell at `pos`: the overlay where it paints, else the layer.
    pub fn get_char(&self, pos: Position) -> (r: AttributedChar)
        requires
            self.wf(),
        ensures
            r == if self.layer.in_bounds(pos) {
                match self.overlay.cell(pos.x as int, pos.y as int) {
                    Some(c) => c,
                    None => self.layer.cell(pos.x as int, pos.y as int),
                }
            } else {
                AttributedChar::invisible()
            },
    {
        match self.overlay.get(pos, None) {
            Some(c) => c,
            None => self.layer.get(pos, AttributedChar::invisible()),
        }
    }

    /// Writes `ch` to the active layer; positions outside are ignored.
    pub fn set_char(&mut self, pos: Position, ch: AttributedChar)
        requires
            old(self).wf(),
        ensures
            final(self).wf(),
            final(self).overlay == old(self).overlay,
            Self::same_ui(*final(self), *old(self)),
            Self::same_undo(*final(self), *old(self)),
            final(self).width() == old(self).width(),
            final(self).height() == old(self).height(),
            forall|x: int, y: int|
                0 <= x < old(self).width() && 0 <= y < old(self).height()
                    ==> #[trigger] final(self).layer.cell(x, y) == if old(self).layer.in_bounds(pos)
                    && x == pos.x && y == pos.y {
                    ch
                } else {
                    old(self).layer.cell(x, y)
                },
    {
        self.layer.set(pos, ch);
    }

    pub fn get_selection(&self) -> (r: Option<Selection>)
        ensures
            r == self.selection,
    {
        self.selection
    }

    pub fn set_selection(&mut self, selection: Selection)
        requires
            old(self).wf(),
            selection.wf(),
        ensures
            final(self).wf(),
            *final(self) == (AnsiEditor { selection: Some(selection), ..*old(self) }),
    {
        self.selection = Some(selection);
    }

    pub fn clear_selection(&mut self)
        requires
            old(self).wf(),
        ensures
            final(self).wf(),
            *final(self) == (AnsiEditor { selection: None, ..*old(self) }),
    {
        self.selection = None;
    }

    pub fn set_cur_outline(&mut self, outline: usize)
        requires
            old(self).wf(),
            outline < OUTLINE_STYLES,
        ensures
            final(self).wf(),
            *final(self) == (AnsiEditor { cur_outline: outline, ..*old(self) }),
    {
        self.cur_outline = outline;
    }

    /// The character code the selected outline style has at `index`.
    pub fn get_outline_char_code(&self, index: usize) -> (r: Result<u16, EditorError>)
        ensures
            r == if index < self.outline_chars@.len() {
                Result::<u16, EditorError>::Ok(self.outline_chars@[index as int])
            } else {
                Result::<u16, EditorError>::Err(EditorError::NoOutlineChar)
            },
    {
        if index < self.outline_chars.len() {
            Ok(self.outline_chars[index])
        } else {
            Err(EditorError::NoOutlineChar)
        }
    }

    /// Puts `layer` at `index` of the layer stack, handing back the one
    /// that was there.
    pub fn replace_layer(&mut self, index: usize, layer: Layer) -> (old_layer: Layer)
        requires
            old(self).wf(),
            index < old(self).layers@.len(),
        ensures
            final(self).wf(),
            old_layer == old(self).layers@[index as int],
            final(self).layers@ == old(self).layers@.update(index as int, layer),
            *final(self) == (AnsiEditor { layers: final(self).layers, ..*old(self) }),
    {
        self.layers.push(layer);
        let old_layer = self.layers.swap_remove(index);
        proof {
            assert(self.layers@ =~= old(self).layers@.update(index as int, layer));
        }
        old_layer
    }

    /// Opens an undo group described by `description`; the returned guard
    /// value repeats the description.
    pub fn begin_atomic_undo(&mut self, description: String) -> (g: String)
        requires
            old(self).wf(),
        ensures
            final(self).wf(),
            g@ == description@,
            final(self).undo_stack@ == old(self).undo_stack@.push(description),
            final(self).redo_stack@.len() == 0,
            final(self).layer == old(self).layer,
            final(self).overlay == old(self).overlay,
            Self::same_ui(*final(self), *old(self)),
    {
        let g = description.clone();
        self.undo_stack.push(description);
        self.redo_stack = Vec::new();
        g
    }

    /// Takes back the newest recorded operation, handing its description to
    /// the redo stack.  The grid itself is restored by the document engine.
    pub fn undo(&mut self)
        requires
            old(self).wf(),
        ensures
            final(self).wf(),
            final(self).layer == old(self).layer,
            final(self).overlay == old(self).overlay,
            Self::same_ui(*final(self), *old(self)),
            old(self).undo_stack@.len() == 0 ==> Self::same_undo(*final(self), *old(self)),
            old(self).undo_stack@.len() > 0 ==> {
                &&& final(self).undo_stack@ == old(self).undo_stack@.drop_last()
                &&& final(self).redo_stack@ == old(self).redo_stack@.push(
                    old(self).undo_stack@.last(),
                )
            },
    {
        if let Some(d) = self.undo_stack.pop() {
            self.redo_stack.push(d);
        }
    }

    /// Blanks every selected cell of the active layer and drops the
    /// selection.  Without a selection nothing changes.
    #[verifier::loop_isolation(false)]
    pub fn delete_selection(&mut self)
        requires
            old(self).wf(),
        ensures
            final(self).wf(),
            final(self).width() == old(self).width(),
            final(self).height() == old(self).height(),
            final(self).overlay == old(self).overlay,
            Self::same_undo(*final(self), *old(self)),
            final(self).caret == old(self).caret,
            final(self).drag_pos == old(self).drag_pos,
            final(self).cur_outline == old(self).cur_outline,
            final(self).outline_chars@ == old(self).outline_chars@,
            final(self).selection is None,
            forall|x: int, y: int|
                0 <= x < old(self).width() && 0 <= y < old(self).height()
                    ==> #[trigger] final(self).layer.cell(x, y) == if old(self).selection matches
                    Some(s) && s.contains(x, y) {
                    AttributedChar::invisible()
                } else {
                    old(self).layer.cell(x, y)
                },
    {
        let sel = match self.selection {
            Some(s) => s,
            None => {
                return ;
            },
        };
        proof {
            crate::grid::Grid::lemma_dims(self.layer);
        }
        let w = self.layer.exec_width();
        let h = self.layer.exec_height();
        let mut y: usize = 0;
        while y < h
            invariant
                y <= h,
                self.wf(),
                self.width() == old(self).width(),
                self.height() == old(self).height(),
                self.overlay == old(self).overlay,
                Self::same_undo(*self, *old(self)),
                self.caret == old(self).caret,
                self.drag_pos == old(self).drag_pos,
                self.cur_outline == old(self).cur_outline,
                self.outline_chars@ == old(self).outline_chars@,
                self.selection == old(self).selection,
                forall|x: int, yy: int|
                    0 <= x < old(self).width() && 0 <= yy < old(self).height()
                        ==> #[trigger] self.layer.cell(x, yy) == if yy < y && sel.contains(x, yy) {
                        AttributedChar::invisible()
                    } else {
                        old(self).layer.cell(x, yy)
                    },
            decreases h - y,
        {
            let mut x: usize = 0;
            while x < w
                invariant
                    x <= w,
                    y < h,
                    self.wf(),
                    self.width() == old(self).width(),
                    self.height() == old(self).height(),
                    self.overlay == old(self).overlay,
                    Self::same_undo(*self, *old(self)),
                    self.caret == old(self).caret,
                    self.drag_pos == old(self).drag_pos,
                    self.cur_outline == old(self).cur_outline,
                    self.outline_chars@ == old(self).outline_chars@,
                    self.selection == old(self).selection,
                    forall|xx: int, yy: int|
                        0 <= xx < old(self).width() && 0 <= yy < old(self).height()
                            ==> #[trigger] self.layer.cell(xx, yy) == if (yy < y || (yy == y && xx
                            < x)) && sel.contains(xx, yy) {
                            AttributedChar::invisible()
                        } else {
                            old(self).layer.cell(xx, yy)
                        },
                decreases w - x,
            {
                if sel.contains_pos(x as i32, y as i32) {
                    self.layer.set(
                        Position { x: x as i32, y: y as i32 },
                        AttributedChar::invisible(),
                    );
                }
                x = x + 1;
            }
            y = y + 1;
        }
        self.selection = None;
    }

    pub fn get_overlay_char(&self, pos: Position) -> (r: Option<AttributedChar>)
        requires
            self.wf(),
        ensures
            r == if self.overlay.in_bounds(pos) {
                self.overlay.cell(pos.x as int, pos.y as int)
            } else {
                Option::<AttributedChar>::None
            },
    {
        self.overlay.get(pos, None)
    }

    /// Paints `ch` onto the preview overlay; positions outside are ignored.
    pub fn set_overlay_char(&mut self, pos: Position, ch: AttributedChar)
        requires
            old(self).wf(),
        ensures
            final(self).wf(),
            final(self).width() == old(self).width(),
            final(self).height() == old(self).height(),
            final(self).layer == old(self).layer,
            Self::same_ui(*final(self), *old(self)),
            Self::same_undo(*final(self), *old(self)),
            forall|x: int, y: int|
                0 <= x < old(self).width() && 0 <= y < old(self).height()
                    ==> #[trigger] final(self).overlay.cell(x, y) == if old(
                    self,
                ).overlay.in_bounds(pos) && x == pos.x && y == pos.y {
                    Some(ch)
                } else {
                    old(self).overlay.cell(x, y)
                },
    {
        self.overlay.set(pos, Some(ch));
    }

    /// Drops every overlay cell, so the layer shows through everywhere.
    pub fn clear_overlay_layer(&mut self)
        requires
            old(self).wf(),
        ensures
            final(self).wf(),
            final(self).width() == old(self).width(),
            final(self).height() == old(self).height(),
            final(self).layer == old(self).layer,
            Self::same_ui(*final(self), *old(self)),
            Self::same_undo(*final(self), *old(self)),
            forall|x: int, y: int|
                0 <= x < old(self).width() && 0 <= y < old(self).height()
                    ==> #[trigger] final(self).overlay.cell(x, y) is None,
    {
        proof {
            crate::grid::Grid::lemma_dims(self.layer);
        }
        let w = self.layer.exec_width();
        let h = self.layer.exec_height();
        self.overlay = Grid::new(w, h, None);
    }

    /// Discards the preview without committing it.
    pub fn remove_overlay(&mut self)
        requires
            old(self).wf(),
        ensures
            final(self).wf(),
            final(self).width() == old(self).width(),
            final(self).height() == old(self).height(),
            final(self).layer == old(self).layer,
            Self::same_ui(*final(self), *old(self)),
            Self::same_undo(*final(self), *old(self)),
            forall|x: int, y: int|
                0 <= x < old(self).width() && 0 <= y < old(self).height()
                    ==> #[trigger] final(self).overlay.cell(x, y) is None,
    {
        self.clear_overlay_layer();
    }

    /// Commits the preview: every painted overlay cell replaces the layer
    /// cell below it, the overlay is emptied, and the operation is recorded
    /// under `description`.
    #[verifier::loop_isolation(false)]
    pub fn join_overlay(&mut self, description: String)
        requires
            old(self).wf(),
        ensures
            final(self).wf(),
            final(self).width() == old(self).width(),
            final(self).height() == old(self).height(),
            Self::same_ui(*final(self), *old(self)),
            final(self).undo_stack@ == old(self).undo_stack@.push(description),
            final(self).redo_stack@.len() == 0,
            forall|x: int, y: int|
                0 <= x < old(self).width() && 0 <= y < old(self).height()
                    ==> #[trigger] final(self).layer.cell(x, y) == match old(self).overlay.cell(
                    x,
                    y,
                ) {
                    Some(c) => c,
                    None => old(self).layer.cell(x, y),
                },
            forall|x: int, y: int|
                0 <= x < old(self).width() && 0 <= y < old(self).height()
                    ==> #[trigger] final(self).overlay.cell(x, y) is None,
    {
        proof {
            crate::grid::Grid::lemma_dims(self.layer);
        }
        let w = self.layer.exec_width();
        let h = self.layer.exec_height();
        let mut y: usize = 0;
        while y < h
            invariant
                y <= h,
                self.wf(),
                self.width() == old(self).width(),
                self.height() == old(self).height(),
                self.overlay == old(self).overlay,
                Self::same_ui(*self, *old(self)),
                Self::same_undo(*self, *old(self)),
                forall|x: int, yy: int|
                    0 <= x < old(self).width() && 0 <= yy < old(self).height()
                        ==> #[trigger] self.layer.cell(x, yy) == if yy < y {
                        match old(self).overlay.cell(x, yy) {
                            Some(c) => c,
                            None => old(self).layer.cell(x, yy),
                        }
                    } else {
                        old(self).layer.cell(x, yy)
                    },
            decreases h - y,
        {
            let mut x: usize = 0;
            while x < w
                invariant
                    x <= w,
                    y < h,
                    self.wf(),
                    self.width() == old(self).width(),
                    self.height() == old(self).height(),
                    self.overlay == old(self).overlay,
                    Self::same_ui(*self, *old(self)),
                    Self::same_undo(*self, *old(self)),
                    forall|xx: int, yy: int|
                        0 <= xx < old(self).width() && 0 <= yy < old(self).height()
                            ==> #[trigger] self.layer.cell(xx, yy) == if yy < y || (yy == y && xx
                            < x) {
                            match old(self).overlay.cell(xx, yy) {
                                Some(c) => c,
                                None => old(self).layer.cell(xx, yy),
                            }
                        } else {
                            old(self).layer.cell(xx, yy)
                        },
                decreases w - x,
            {
                let p = Position { x: x as i32, y: y as i32 };
                match self.overlay.get(p, None) {
                    Some(c) => {
                        self.layer.set(p, c);
                    },
                    None => {},
                }
                x = x + 1;
            }
            y = y + 1;
        }
        self.overlay = Grid::new(w, h, None);
        self.undo_stack.push(description);
        self.redo_stack = Vec::new();
    }

    /// Pulls the cells of row `y` one step towards `x0`: each cell from `x0`
    /// on takes the value of its right neighbour, and the last column is
    /// blanked.
    #[verifier::loop_isolation(false)]
    pub fn shift_row_left_from(&mut self, x0: i32, y: i32)
        requires
            old(self).wf(),
            0 <= x0 < old(self).width(),
            0 <= y < old(self).height(),
        ensures
            final(self).wf(),
            final(self).width() == old(self).width(),
            final(self).height() == old(self).height(),
            final(self).overlay == old(self).overlay,
            Self::same_ui(*final(self), *old(self)),
            Self::same_undo(*final(self), *old(self)),
            forall|x: int, yy: int|
                0 <= x < old(self).width() && 0 <= yy < old(self).height()
                    ==> #[trigger] final(self).layer.cell(x, yy) == if yy == y && x0 <= x < old(
                    self,
                ).width() - 1 {
                    old(self).layer.cell(x + 1, yy)
                } else if yy == y && x == old(self).width() - 1 {
                    AttributedChar::invisible()
                } else {
                    old(self).layer.cell(x, yy)
                },
    {
        proof {
            crate::grid::Grid::lemma_dims(self.layer);
        }
        let w = self.layer.exec_width() as i32;
        let mut i: i32 = x0;
        while i < w - 1
            invariant
                x0 <= i <= w - 1,
                self.wf(),
                self.width() == old(self).width(),
                self.height() == old(self).height(),
                self.overlay == old(self).overlay,
                Self::same_ui(*self, *old(self)),
                Self::same_undo(*self, *old(self)),
                forall|x: int, yy: int|
                    0 <= x < old(self).width() && 0 <= yy < old(self).height()
                        ==> #[trigger] self.layer.cell(x, yy) == if yy == y && x0 <= x < i {
                        old(self).layer.cell(x + 1, yy)
                    } else {
                        old(self).layer.cell(x, yy)
                    },
            decreases w - 1 - i,
        {
            let next = self.get_char_from_cur_layer(Position { x: i + 1, y });
            self.set_char(Position { x: i, y }, next);
            i = i + 1;
        }
        self.set_char(Position { x: w - 1, y }, AttributedChar::invisible());
    }

    /// Pushes the cells of row `y` one step away from `x0`: each cell right
    /// of `x0` takes the value of its left neighbour; the cell at `x0` and
    /// the cells before it stay, and the last column's old value is lost.
    #[verifier::loop_isolation(false)]
    pub fn shift_row_right_from(&mut self, x0: i32, y: i32)
        requires
            old(self).wf(),
            0 <= x0 < old(self).width(),
            0 <= y < old(self).height(),
        ensures
            final(self).wf(),
            final(self).width() == old(self).width(),
            final(self).height() == old(self).height(),
            final(self).overlay == old(self).overlay,
            Self::same_ui(*final(self), *old(self)),
            Self::same_undo(*final(self), *old(self)),
            forall|x: int, yy: int|
                0 <= x < old(self).width() && 0 <= yy < old(self).height()
                    ==> #[trigger] final(self).layer.cell(x, yy) == if yy == y && x0 < x {
                    old(self).layer.cell(x - 1, yy)
                } else {
                    old(self).layer.cell(x, yy)
                },
    {
        proof {
            crate::grid::Grid::lemma_dims(self.layer);
        }
        let w = self.layer.exec_width() as i32;
        let mut i: i32 = w - 1;
        while i > x0
            invariant
                x0 <= i <= w - 1,
                self.wf(),
                self.width() == old(self).width(),
                self.height() == old(self).height(),
                self.overlay == old(self).overlay,
                Self::same_ui(*self, *old(self)),
                Self::same_undo(*self, *old(self)),
                forall|x: int, yy: int|
                    0 <= x < old(self).width() && 0 <= yy < old(self).height()
                        ==> #[trigger] self.layer.cell(x, yy) == if yy == y && i < x {
                        old(self).layer.cell(x - 1, yy)
                    } else {
                        old(self).layer.cell(x, yy)
                    },
            decreases i - x0,
        {
            let prev = self.get_char_from_cur_layer(Position { x: i - 1, y });
            self.set_char(Position { x: i, y }, prev);
            i = i - 1;
        }
    }

    /// Types one character at the caret with the caret's attribute.  In
    /// insert mode the rest of the row first makes room.  The caret then
    /// advances one column, staying inside the buffer.
    pub fn type_key(&mut self, ch: char)
        requires
            old(self).wf(),
        ensures
            final(self).wf(),
            final(self).width() == old(self).width(),
            final(self).height() == old(self).height(),
            final(self).overlay == old(self).overlay,
            Self::same_undo(*final(self), *old(self)),
            final(self).selection == old(self).selection,
            final(self).drag_pos == old(self).drag_pos,
            final(self).cur_outline == old(self).cur_outline,
            final(self).outline_chars@ == old(self).outline_chars@,
            forall|x: int, yy: int|
                0 <= x < old(self).width() && 0 <= yy < old(self).height()
                    ==> #[trigger] final(self).layer.cell(x, yy) == {
                    let cx = old(self).caret.position.x as int;
                    let cy = old(self).caret.position.y as int;
                    if yy == cy && x == cx {
                        AttributedChar { ch, attribute: old(self).caret.attribute }
                    } else if old(self).caret.insert_mode && yy == cy && cx < x {
                        old(self).layer.cell(x - 1, yy)
                    } else {
                        old(self).layer.cell(x, yy)
                    }
                },
            final(self).caret == (Caret {
                position: Position {
                    x: Self::clamped(old(self).caret.position.x + 1, old(self).width()) as i32,
                    y: old(self).caret.position.y,
                },
                ..old(self).caret
            }),
    {
        proof {
            crate::grid::Grid::lemma_dims(self.layer);
        }
        let pos = self.caret.position;
        if self.caret.insert_mode {
            self.shift_row_right_from(pos.x, pos.y);
        }
        let attr = self.caret.attribute;
        self.set_char(pos, AttributedChar { ch, attribute: attr });
        self.set_caret(pos.x + 1, pos.y);
    }

    /// Replays the newest undone operation.
    pub fn redo(&mut self)
        requires
            old(self).wf(),
        ensures
            final(self).wf(),
            final(self).layer == old(self).layer,
            final(self).overlay == old(self).overlay,
            Self::same_ui(*final(self), *old(self)),
            old(self).redo_stack@.len() == 0 ==> Self::same_undo(*final(self), *old(self)),
            old(self).redo_stack@.len() > 0 ==> {
                &&& final(self).redo_stack@ == old(self).redo_stack@.drop_last()
                &&& final(self).undo_stack@ == old(self).undo_stack@.push(
                    old(self).redo_stack@.last(),
                )
            },
    {
        if let Some(d) = self.redo_stack.pop() {
            self.undo_stack.push(d);
        }
    }
}

} // verus!
