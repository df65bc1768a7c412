//! The painting tools and the shared keyboard handling.
//!
//! Every tool receives the same editing events — click, drag, hover, key —
//! and mutates the editor model.  The submodules hold one tool each; this
//! module holds what they share: the key and modifier enums, the drawing
//! modes, the point plotter and the half-block painter used by the shape
//! tools, and the keyboard handler with the caret movement, colour cycling
//! and row editing it performs.
use vstd::prelude::*;

pub mod click_imp;
pub mod draw_ellipse_imp;
pub mod draw_rectangle_imp;
pub mod erase_imp;
pub mod pipette_imp;

use crate::Event;
use crate::attribute::AttributedChar;
use crate::attribute::TextAttribute;
use crate::editor::AnsiEditor;
use crate::editor::Caret;
use crate::geometry::Position;
use crate::geometry::Rectangle;
pub use crate::editor::DragPos;

verus! {

/// A key the editor reacts to.
#[derive(Copy, Clone, Debug)]
pub enum MKey {
    Character(u16),
    Down,
    Up,
    Left,
    Right,
    PageDown,
    PageUp,
    Home,
    End,
    Return,
    Delete,
    Insert,
    Backspace,
    Tab,
    Escape,
    F1,
    F2,
    F3,
    F4,
    F5,
    F6,
    F7,
    F8,
    F9,
    F10,
    F11,
    F12,
}

/// The modifier held while a key or mouse event arrives.
#[derive(Copy, Clone, Debug)]
pub enum MModifiers {
    NoModifier,
    Shift,
    Alt,
    Control,
}

impl MModifiers {
    pub fn is_shift(self) -> (r: bool)
        ensures
            r == (self matches MModifiers::Shift),
    {
        matches!(self, MModifiers::Shift)
    }

    pub fn is_alt(self) -> (r: bool)
        ensures
            r == (self matches MModifiers::Alt),
    {
        matches!(self, MModifiers::Alt)
    }

    pub fn is_control(self) -> (r: bool)
        ensures
            r == (self matches MModifiers::Control),
    {
        matches!(self, MModifiers::Control)
    }
}

/// How the shape and brush tools paint each cell they touch.
#[derive(Clone, Copy, Debug, PartialEq, Eq, Structural)]
pub enum DrawMode {
    Line,
    Char,
    Shade,
    Colorize,
}

/// The four shade glyphs, light to dark: painting in shade mode steps a cell
/// one glyph darker.
pub const SHADE_GRADIENT: [char; 4] = ['\u{00B0}', '\u{00B1}', '\u{00B2}', '\u{00DB}'];

/// The glyph one shade step darker than `c`: the darkest stays, any other
/// gradient glyph advances, everything else starts at the lightest.
pub open spec fn shade_next(c: char) -> char {
    if c == '\u{00DB}' {
        '\u{00DB}'
    } else if c == '\u{00B0}' {
        '\u{00B1}'
    } else if c == '\u{00B1}' {
        '\u{00B2}'
    } else if c == '\u{00B2}' {
        '\u{00DB}'
    } else {
        '\u{00B0}'
    }
}

/// Settings a plotting tool exposes to the shared point plotter.
pub trait Plottable {
    spec fn draw_mode_spec(&self) -> DrawMode;

    spec fn use_fore_spec(&self) -> bool;

    spec fn use_back_spec(&self) -> bool;

    spec fn char_code_spec(&self) -> char;

    fn get_draw_mode(&self) -> (r: DrawMode)
        ensures
            r == self.draw_mode_spec(),
    ;

    fn get_use_fore(&self) -> (r: bool)
        ensures
            r == self.use_fore_spec(),
    ;

    fn get_use_back(&self) -> (r: bool)
        ensures
            r == self.use_back_spec(),
    ;

    fn get_char_code(&self) -> (r: char)
        ensures
            r == self.char_code_spec(),
    ;
}

/// The attribute a plotted cell receives: the cell's own colours (or the
/// default ones where the cell was invisible), overridden by the caret's
/// where the tool says so, always with the caret's font page.
pub open spec fn plot_attribute(
    cell: AttributedChar,
    caret_attr: TextAttribute,
    use_fore: bool,
    use_back: bool,
) -> TextAttribute {
    let base = if cell.is_visible_spec() {
        cell.attribute
    } else {
        TextAttribute { foreground: 7, background: 0, font_page: 0 }
    };
    TextAttribute {
        foreground: if use_fore {
            caret_attr.foreground
        } else {
            base.foreground
        },
        background: if use_back {
            caret_attr.background
        } else {
            base.background
        },
        font_page: caret_attr.font_page,
    }
}

/// The cell the point plotter paints over `cell`, mode by mode.
pub open spec fn plotted_cell(
    cell: AttributedChar,
    caret_attr: TextAttribute,
    mode: DrawMode,
    use_fore: bool,
    use_back: bool,
    char_code: char,
) -> AttributedChar {
    let attribute = plot_attribute(cell, caret_attr, use_fore, use_back);
    match mode {
        DrawMode::Line => AttributedChar { ch: '\u{00DB}', attribute },
        DrawMode::Char => AttributedChar { ch: char_code, attribute },
        DrawMode::Shade => AttributedChar { ch: shade_next(cell.ch), attribute },
        DrawMode::Colorize => AttributedChar { ch: cell.ch, attribute },
    }
}

/// Paints one preview cell at `pos` according to the tool's settings.
pub fn plot_point<T: Plottable>(editor: &mut AnsiEditor, tool: &T, pos: Position)
    requires
        old(editor).wf(),
    ensures
        final(editor).wf(),
        final(editor).width() == old(editor).width(),
        final(editor).height() == old(editor).height(),
        final(editor).layer == old(editor).layer,
        AnsiEditor::same_ui(*final(editor), *old(editor)),
        AnsiEditor::same_undo(*final(editor), *old(editor)),
        forall|x: int, y: int|
            0 <= x < old(editor).width() && 0 <= y < old(editor).height()
                ==> #[trigger] final(editor).overlay.cell(x, y) == if old(editor).layer.in_bounds(
                pos,
            ) && x == pos.x && y == pos.y {
                Some(
                    plotted_cell(
                        old(editor).layer.cell(x, y),
                        old(editor).caret.attribute,
                        tool.draw_mode_spec(),
                        tool.use_fore_spec(),
                        tool.use_back_spec(),
                        tool.char_code_spec(),
                    ),
                )
            } else {
                old(editor).overlay.cell(x, y)
            },
{
    let ch = editor.get_char_from_cur_layer(pos);
    let editor_attr = editor.get_caret_attribute();
    let mut attribute = ch.attribute;
    if !ch.is_visible() {
        attribute = TextAttribute::default();
    }
    if tool.get_use_back() {
        attribute.set_background(editor_attr.get_background());
    }
    if tool.get_use_fore() {
        attribute.set_foreground(editor_attr.get_foreground());
    }
    attribute.set_font_page(editor_attr.get_font_page());

    let plotted = match tool.get_draw_mode() {
        DrawMode::Line => AttributedChar::new('\u{00DB}', attribute),
        DrawMode::Char => AttributedChar::new(tool.get_char_code(), attribute),
        DrawMode::Shade => {
            let code = if ch.ch == '\u{00DB}' {
                '\u{00DB}'
            } else if ch.ch == '\u{00B0}' {
                '\u{00B1}'
            } else if ch.ch == '\u{00B1}' {
                '\u{00B2}'
            } else if ch.ch == '\u{00B2}' {
                '\u{00DB}'
            } else {
                '\u{00B0}'
            };
            AttributedChar::new(code, attribute)
        },
        DrawMode::Colorize => AttributedChar::new(ch.ch, attribute),
    };
    if editor.get_width() > pos.x && pos.x >= 0 && editor.get_height() > pos.y && pos.y >= 0 {
        editor.set_overlay_char(pos, plotted);
    }
}

/// The glyph half-block painting leaves in a cell: painting one half of a
/// cell that already shows the other half (or a full block) fills it, any
/// other content is replaced by the painted half.
pub open spec fn half_block_char(existing: char, top: bool) -> char {
    if top {
        if existing == '\u{00DC}' || existing == '\u{00DB}' {
            '\u{00DB}'
        } else {
            '\u{00DF}'
        }
    } else {
        if existing == '\u{00DF}' || existing == '\u{00DB}' {
            '\u{00DB}'
        } else {
            '\u{00DC}'
        }
    }
}

/// Paints the half cell `pos` — given in half-block coordinates, where each
/// buffer row holds two — onto the preview overlay in colour `col`.
pub fn set_half_block(editor: &mut AnsiEditor, pos: Position, col: u32)
    requires
        old(editor).wf(),
    ensures
        final(editor).wf(),
        final(editor).width() == old(editor).width(),
        final(editor).height() == old(editor).height(),
        final(editor).layer == old(editor).layer,
        AnsiEditor::same_ui(*final(editor), *old(editor)),
        AnsiEditor::same_undo(*final(editor), *old(editor)),
        forall|x: int, y: int|
            0 <= x < old(editor).width() && 0 <= y < old(editor).height()
                ==> #[trigger] final(editor).overlay.cell(x, y) == if pos.y >= 0 && x == pos.x && y
                == pos.y as int / 2 {
                let shown = match old(editor).overlay.cell(x, y) {
                    Some(c) => c,
                    None => old(editor).layer.cell(x, y),
                };
                Some(
                    AttributedChar {
                        ch: half_block_char(shown.ch, pos.y % 2 == 0),
                        attribute: TextAttribute {
                            foreground: col,
                            background: shown.attribute.background,
                            font_page: shown.attribute.font_page,
                        },
                    },
                )
            } else {
                old(editor).overlay.cell(x, y)
            },
{
    if pos.y < 0 {
        return ;
    }
    let cell_pos = Position { x: pos.x, y: pos.y / 2 };
    let shown = editor.get_char(cell_pos);
    let top = pos.y % 2 == 0;
    let ch = if top {
        if shown.ch == '\u{00DC}' || shown.ch == '\u{00DB}' {
            '\u{00DB}'
        } else {
            '\u{00DF}'
        }
    } else {
        if shown.ch == '\u{00DF}' || shown.ch == '\u{00DB}' {
            '\u{00DB}'
        } else {
            '\u{00DC}'
        }
    };
    let attribute = TextAttribute {
        foreground: col,
        background: shown.attribute.background,
        font_page: shown.attribute.font_page,
    };
    editor.set_overlay_char(cell_pos, AttributedChar { ch, attribute });
}

/// The glyph and colours the preview shows at a cell after half-block
/// painting in colour `col` over a cleared preview: nothing where neither
/// half was painted, a full block where both were, else the painted half
/// merged with what the layer shows.
pub open spec fn painted_cell(
    layer_cell: AttributedChar,
    top_hit: bool,
    bot_hit: bool,
    col: u32,
) -> Option<AttributedChar> {
    if !top_hit && !bot_hit {
        None
    } else {
        Some(
            AttributedChar {
                ch: if top_hit && bot_hit {
                    '\u{00DB}'
                } else if top_hit {
                    half_block_char(layer_cell.ch, true)
                } else {
                    half_block_char(layer_cell.ch, false)
                },
                attribute: TextAttribute {
                    foreground: col,
                    background: layer_cell.attribute.background,
                    font_page: layer_cell.attribute.font_page,
                },
            },
        )
    }
}

/// Whether one of the first `upto` rectangles covers the half-block cell
/// `(x, hy)`.
pub open spec fn outline_hit(rects: Seq<Rectangle>, upto: int, x: int, hy: int) -> bool {
    exists|i: int| 0 <= i < upto && #[trigger] rects[i].covers(x, hy)
}

proof fn lemma_hit_extend(rects: Seq<Rectangle>, i: int, x: int, hy: int)
    requires
        0 <= i < rects.len(),
    ensures
        outline_hit(rects, i + 1, x, hy) <==> (outline_hit(rects, i, x, hy) || rects[i].covers(
            x,
            hy,
        )),
{
    if outline_hit(rects, i + 1, x, hy) {
        let w = choose|k: int| 0 <= k < i + 1 && #[trigger] rects[k].covers(x, hy);
        if w < i {
            assert(outline_hit(rects, i, x, hy));
        }
    }
    if outline_hit(rects, i, x, hy) {
        let w = choose|k: int| 0 <= k < i && #[trigger] rects[k].covers(x, hy);
        assert(0 <= w < i + 1 && rects[w].covers(x, hy));
    }
    if rects[i].covers(x, hy) {
        assert(0 <= i < i + 1 && rects[i].covers(x, hy));
    }
}

/// Paints every half-block cell the one-row outline rectangles in `rects`
/// cover, in colour `col`, onto the cleared preview overlay.
#[verifier::loop_isolation(false)]
pub fn paint_outline(editor: &mut AnsiEditor, rects: &Vec<Rectangle>, col: u32)
    requires
        old(editor).wf(),
        forall|x: int, y: int|
            0 <= x < old(editor).width() && 0 <= y < old(editor).height() ==> #[trigger] old(
                editor,
            ).overlay.cell(x, y) is None,
        forall|i: int|
            0 <= i < rects@.len() ==> {
                &&& (#[trigger] rects@[i]).size.height == 1
                &&& rects@[i].size.width >= 1
                &&& -0x3fff_ffff <= rects@[i].start.x
                &&& rects@[i].start.x + rects@[i].size.width - 1 <= 0x3fff_ffff
                &&& -0x3fff_ffff <= rects@[i].start.y <= 0x3fff_ffff
            },
    ensures
        final(editor).wf(),
        final(editor).width() == old(editor).width(),
        final(editor).height() == old(editor).height(),
        final(editor).layer == old(editor).layer,
        AnsiEditor::same_ui(*final(editor), *old(editor)),
        AnsiEditor::same_undo(*final(editor), *old(editor)),
        forall|x: int, y: int|
            0 <= x < old(editor).width() && 0 <= y < old(editor).height()
                ==> #[trigger] final(editor).overlay.cell(x, y) == painted_cell(
                old(editor).layer.cell(x, y),
                outline_hit(rects@, rects@.len() as int, x, 2 * y),
                outline_hit(rects@, rects@.len() as int, x, 2 * y + 1),
                col,
            ),
{
    let n = rects.len();
    let mut i: usize = 0;
    while i < n
        invariant
            i <= n,
            editor.wf(),
            editor.width() == old(editor).width(),
            editor.height() == old(editor).height(),
            editor.layer == old(editor).layer,
            AnsiEditor::same_ui(*editor, *old(editor)),
            AnsiEditor::same_undo(*editor, *old(editor)),
            forall|x: int, y: int|
                0 <= x < old(editor).width() && 0 <= y < old(editor).height()
                    ==> #[trigger] editor.overlay.cell(x, y) == painted_cell(
                    old(editor).layer.cell(x, y),
                    outline_hit(rects@, i as int, x, 2 * y),
                    outline_hit(rects@, i as int, x, 2 * y + 1),
                    col,
                ),
        decreases n - i,
    {
        let rect = rects[i];
        let ry = rect.start.y;
        let x_end = rect.start.x + rect.size.width - 1;
        let mut x = rect.start.x;
        while x <= x_end
            invariant
                rect.start.x <= x <= x_end + 1,
                i < n,
                rect == rects@[i as int],
                x_end == rect.start.x + rect.size.width - 1,
                editor.wf(),
                editor.width() == old(editor).width(),
                editor.height() == old(editor).height(),
                editor.layer == old(editor).layer,
                AnsiEditor::same_ui(*editor, *old(editor)),
                AnsiEditor::same_undo(*editor, *old(editor)),
                forall|xx: int, y: int|
                    0 <= xx < old(editor).width() && 0 <= y < old(editor).height()
                        ==> #[trigger] editor.overlay.cell(xx, y) == painted_cell(
                        old(editor).layer.cell(xx, y),
                        outline_hit(rects@, i as int, xx, 2 * y) || (rects@[i as int].covers(
                            xx,
                            2 * y,
                        ) && xx < x),
                        outline_hit(rects@, i as int, xx, 2 * y + 1) || (rects@[i as int].covers(
                            xx,
                            2 * y + 1,
                        ) && xx < x),
                        col,
                    ),
            decreases x_end + 1 - x,
        {
            set_half_block(editor, Position { x, y: ry }, col);
            x = x + 1;
        }
        proof {
            assert forall|xx: int, y: int|
                0 <= xx < old(editor).width() && 0 <= y < old(editor).height()
                    implies #[trigger] editor.overlay.cell(xx, y) == painted_cell(
                    old(editor).layer.cell(xx, y),
                    outline_hit(rects@, i as int + 1, xx, 2 * y),
                    outline_hit(rects@, i as int + 1, xx, 2 * y + 1),
                    col,
                ) by {
                lemma_hit_extend(rects@, i as int, xx, 2 * y);
                lemma_hit_extend(rects@, i as int, xx, 2 * y + 1);
            }
        }
        i = i + 1;
    }
}

/// The normalised rectangle a drag from `start` to `cur` spans, with the
/// vertical coordinates doubled into half-block space when `double_y`.
pub open spec fn drag_rect(start: Position, cur: Position, double_y: bool) -> Rectangle {
    let sy = if double_y {
        2 * start.y as int
    } else {
        start.y as int
    };
    let cy = if double_y {
        2 * cur.y as int
    } else {
        cur.y as int
    };
    let x0 = if start.x <= cur.x {
        start.x as int
    } else {
        cur.x as int
    };
    let x1 = if start.x <= cur.x {
        cur.x as int
    } else {
        start.x as int
    };
    let y0 = if sy <= cy {
        sy
    } else {
        cy
    };
    let y1 = if sy <= cy {
        cy
    } else {
        sy
    };
    Rectangle {
        start: Position { x: x0 as i32, y: y0 as i32 },
        size: crate::geometry::Size { width: (x1 - x0 + 1) as i32, height: (y1 - y0 + 1) as i32 },
    }
}

/// A shape tool's drag repainted the preview with the half-block outline of
/// the accumulated shape `sl`, in the caret's foreground colour, and touched
/// nothing else.
pub open spec fn outline_painted(a: AnsiEditor, b: AnsiEditor, sl: crate::scan_lines::ScanLines) -> bool {
    &&& sl.wf()
    &&& b.width() == a.width()
    &&& b.height() == a.height()
    &&& b.layer == a.layer
    &&& AnsiEditor::same_ui(b, a)
    &&& AnsiEditor::same_undo(b, a)
    &&& forall|x: int, y: int|
        0 <= x < a.width() && 0 <= y < a.height() ==> #[trigger] b.overlay.cell(x, y)
            == painted_cell(
            a.layer.cell(x, y),
            sl.on_outline(x, 2 * y),
            sl.on_outline(x, 2 * y + 1),
            a.caret.attribute.foreground,
        )
}

/// The character a code point converts to: every Unicode scalar value — a
/// code point outside the surrogate range and at most 0x10FFFF — gives the
/// character with that value, anything else nothing.
pub open spec fn char_code_value(code: u32) -> Option<char> {
    if (code < 0xD800 || code >= 0xE000) && code <= 0x10FFFF {
        Some(code as char)
    } else {
        None
    }
}

/// Relies on char::from_u32: converts exactly the Unicode scalar values;
/// see `char_code_value`.
#[verifier::external_body]
pub(crate) fn char_from_code(code: u32) -> (r: Option<char>)
    ensures
        r == char_code_value(code),
{
    char::from_u32(code)
}

/// The editor with its caret moved to `(x, y)`, clamped into the buffer.
pub open spec fn with_caret_xy(a: AnsiEditor, x: int, y: int) -> AnsiEditor {
    AnsiEditor {
        caret: Caret {
            position: Position {
                x: AnsiEditor::clamped(x, a.width()) as i32,
                y: AnsiEditor::clamped(y, a.height()) as i32,
            },
            ..a.caret
        },
        ..a
    }
}

/// The editor with the caret's foreground colour replaced.
pub open spec fn with_fg(a: AnsiEditor, fg: u32) -> AnsiEditor {
    AnsiEditor {
        caret: Caret {
            attribute: TextAttribute { foreground: fg, ..a.caret.attribute },
            ..a.caret
        },
        ..a
    }
}

/// The editor with the caret's background colour replaced.
pub open spec fn with_bg(a: AnsiEditor, bg: u32) -> AnsiEditor {
    AnsiEditor {
        caret: Caret {
            attribute: TextAttribute { background: bg, ..a.caret.attribute },
            ..a.caret
        },
        ..a
    }
}

/// Both editors agree on everything but the active layer's cells and the
/// selection.
pub open spec fn same_but_layer(a: AnsiEditor, b: AnsiEditor) -> bool {
    &&& b.width() == a.width()
    &&& b.height() == a.height()
    &&& b.overlay == a.overlay
    &&& AnsiEditor::same_undo(b, a)
    &&& b.caret == a.caret
    &&& b.drag_pos == a.drag_pos
    &&& b.cur_outline == a.cur_outline
    &&& b.outline_chars@ == a.outline_chars@
}

/// Deleting the selection: every selected cell blanked, the selection gone.
pub open spec fn deleted_selection_rel(a: AnsiEditor, b: AnsiEditor) -> bool {
    &&& same_but_layer(a, b)
    &&& b.selection is None
    &&& forall|x: int, y: int|
        0 <= x < a.width() && 0 <= y < a.height() ==> #[trigger] b.layer.cell(x, y)
            == if a.selection matches Some(s) && s.contains(x, y) {
            AttributedChar::invisible()
        } else {
            a.layer.cell(x, y)
        }
}

/// Row `y` pulled one cell towards `x0`, its last column blanked; all other
/// cells keep their value.
pub open spec fn row_shifted_left(a: AnsiEditor, b: AnsiEditor, x0: int, y: int) -> bool {
    forall|x: int, yy: int|
        0 <= x < a.width() && 0 <= yy < a.height() ==> #[trigger] b.layer.cell(x, yy) == if yy == y
            && x0 <= x < a.width() - 1 {
            a.layer.cell(x + 1, yy)
        } else if yy == y && x == a.width() - 1 {
            AttributedChar::invisible()
        } else {
            a.layer.cell(x, yy)
        }
}

/// Typing `ch`: the selection is dropped, the caret's cell takes the glyph
/// with the caret's attribute — in insert mode the rest of the row first
/// makes room — and the caret advances one column inside the buffer.
pub open spec fn typed_char_rel(a: AnsiEditor, b: AnsiEditor, ch: char) -> bool {
    &&& b.width() == a.width()
    &&& b.height() == a.height()
    &&& b.overlay == a.overlay
    &&& AnsiEditor::same_undo(b, a)
    &&& b.drag_pos == a.drag_pos
    &&& b.cur_outline == a.cur_outline
    &&& b.outline_chars@ == a.outline_chars@
    &&& b.selection is None
    &&& forall|x: int, yy: int|
        0 <= x < a.width() && 0 <= yy < a.height() ==> #[trigger] b.layer.cell(x, yy) == {
            let cx = a.caret.position.x as int;
            let cy = a.caret.position.y as int;
            if yy == cy && x == cx {
                AttributedChar { ch, attribute: a.caret.attribute }
            } else if a.caret.insert_mode && yy == cy && cx < x {
                a.layer.cell(x - 1, yy)
            } else {
                a.layer.cell(x, yy)
            }
        }
    &&& b.caret == (Caret {
        position: Position {
            x: AnsiEditor::clamped(a.caret.position.x + 1, a.width()) as i32,
            y: a.caret.position.y,
        },
        ..a.caret
    })
}

/// Rubbing out the character left of the caret.  With the caret in the
/// first column only the selection is dropped; otherwise the caret steps
/// left, and in insert mode the rest of the row closes the gap while in
/// overwrite mode the cell under the new caret is blanked.
pub open spec fn backspace_rel(a: AnsiEditor, b: AnsiEditor) -> bool {
    let cx = a.caret.position.x as int;
    let cy = a.caret.position.y as int;
    if cx > 0 {
        &&& b.width() == a.width()
        &&& b.height() == a.height()
        &&& b.overlay == a.overlay
        &&& AnsiEditor::same_undo(b, a)
        &&& b.drag_pos == a.drag_pos
        &&& b.cur_outline == a.cur_outline
        &&& b.outline_chars@ == a.outline_chars@
        &&& b.selection is None
        &&& b.caret == (Caret {
            position: Position { x: (cx - 1) as i32, y: cy as i32 },
            ..a.caret
        })
        &&& if a.caret.insert_mode {
            row_shifted_left(a, b, cx, cy)
        } else {
            forall|x: int, yy: int|
                0 <= x < a.width() && 0 <= yy < a.height() ==> #[trigger] b.layer.cell(x, yy)
                    == if yy == cy && x == cx - 1 {
                    AttributedChar::invisible()
                } else {
                    a.layer.cell(x, yy)
                }
        }
    } else {
        b == (AnsiEditor { selection: None, ..a })
    }
}

/// One of the function keys: with control the outline style is selected,
/// with shift one of the alternate styles, otherwise the style's glyph at
/// `k` is typed (nothing but the selection changes when it has none).
pub open spec fn outline_rel(a: AnsiEditor, b: AnsiEditor, modifier: MModifiers, k: int) -> bool {
    if (modifier matches MModifiers::Control) {
        b == (AnsiEditor { cur_outline: k as usize, ..a })
    } else if k < 5 && (modifier matches MModifiers::Shift) {
        b == (AnsiEditor { cur_outline: (10 + k) as usize, ..a })
    } else if 0 <= k < a.outline_chars@.len() {
        typed_char_rel(a, b, a.outline_chars@[k] as char)
    } else {
        b == (AnsiEditor { selection: None, ..a })
    }
}

/// What each key does to the editor: the caret moves (clamped to the
/// buffer), control cycles the caret colours, editing keys rewrite the
/// caret's row, function keys insert outline glyphs, and the remaining keys
/// change nothing.
pub open spec fn key_transition(
    a: AnsiEditor,
    b: AnsiEditor,
    key: MKey,
    modifier: MModifiers,
) -> bool {
    match key {
        MKey::Down => if (modifier matches MModifiers::Control) {
            b == with_fg(a, ((a.caret.attribute.foreground + 14) % 16) as u32)
        } else {
            b == with_caret_xy(a, a.caret.position.x as int, a.caret.position.y + 1)
        },
        MKey::Up => if (modifier matches MModifiers::Control) {
            b == with_fg(a, ((a.caret.attribute.foreground + 1) % 16) as u32)
        } else {
            b == with_caret_xy(a, a.caret.position.x as int, a.caret.position.y - 1)
        },
        MKey::Left => if (modifier matches MModifiers::Control) {
            b == with_bg(a, ((a.caret.attribute.background + 7) % 8) as u32)
        } else {
            b == with_caret_xy(a, a.caret.position.x - 1, a.caret.position.y as int)
        },
        MKey::Right => if (modifier matches MModifiers::Control) {
            b == with_bg(a, ((a.caret.attribute.background + 1) % 8) as u32)
        } else {
            b == with_caret_xy(a, a.caret.position.x + 1, a.caret.position.y as int)
        },
        MKey::Return => b == with_caret_xy(a, 0, a.caret.position.y + 1),
        MKey::Delete => if a.selection is Some {
            deleted_selection_rel(a, b)
        } else {
            same_but_layer(a, b) && b.selection == a.selection && row_shifted_left(
                a,
                b,
                a.caret.position.x as int,
                a.caret.position.y as int,
            )
        },
        MKey::Insert => b == (AnsiEditor {
            caret: Caret { insert_mode: !a.caret.insert_mode, ..a.caret },
            ..a
        }),
        MKey::Backspace => backspace_rel(a, b),
        MKey::Character(c) => typed_char_rel(a, b, c as char),
        MKey::F1 => outline_rel(a, b, modifier, 0),
        MKey::F2 => outline_rel(a, b, modifier, 1),
        MKey::F3 => outline_rel(a, b, modifier, 2),
        MKey::F4 => outline_rel(a, b, modifier, 3),
        MKey::F5 => outline_rel(a, b, modifier, 4),
        MKey::F6 => outline_rel(a, b, modifier, 5),
        MKey::F7 => outline_rel(a, b, modifier, 6),
        MKey::F8 => outline_rel(a, b, modifier, 7),
        MKey::F9 => outline_rel(a, b, modifier, 8),
        MKey::F10 => outline_rel(a, b, modifier, 9),
        MKey::Escape => b == (AnsiEditor { selection: None, ..a }),
        _ => b == a,
    }
}

/// Selects an outline style or types one of its glyphs; see `outline_rel`.
pub fn handle_outline_insertion(editor: &mut AnsiEditor, modifier: MModifiers, outline: usize)
    requires
        old(editor).wf(),
        outline <= 9,
    ensures
        final(editor).wf(),
        outline_rel(*old(editor), *final(editor), modifier, outline as int),
{
    if matches!(modifier, MModifiers::Control) {
        editor.set_cur_outline(outline);
        return ;
    }
    if outline < 5 {
        if matches!(modifier, MModifiers::Shift) {
            editor.set_cur_outline(10 + outline);
            return ;
        }
    }
    editor.clear_selection();
    let ch = editor.get_outline_char_code(outline);
    if let Ok(code) = ch {
        match char_from_code(code as u32) {
            Some(c) => {
                editor.type_key(c);
            },
            None => {},
        }
    }
}

/// Applies one key press to the editor; see `key_transition` for what each
/// key does.
pub fn handle_key(editor: &mut AnsiEditor, key: MKey, modifier: MModifiers) -> (r: Event)
    requires
        old(editor).wf(),
        key matches MKey::Character(c) ==> (c < 0xD800 || c >= 0xE000),
    ensures
        final(editor).wf(),
        key_transition(*old(editor), *final(editor), key, modifier),
        r matches Event::Nothing,
{
    proof {
        crate::grid::Grid::lemma_dims(editor.layer);
    }
    let pos = editor.get_caret_position();
    match key {
        MKey::Down => {
            if matches!(modifier, MModifiers::Control) {
                let mut attr = editor.get_caret_attribute();
                let fg = (((attr.get_foreground() as u64) + 14) % 16) as u32;
                attr.set_foreground(fg);
                editor.set_caret_attribute(attr);
            } else {
                editor.set_caret(pos.x, pos.y + 1);
            }
        },
        MKey::Up => {
            if matches!(modifier, MModifiers::Control) {
                let mut attr = editor.get_caret_attribute();
                let fg = (((attr.get_foreground() as u64) + 1) % 16) as u32;
                attr.set_foreground(fg);
                editor.set_caret_attribute(attr);
            } else {
                editor.set_caret(pos.x, pos.y - 1);
            }
        },
        MKey::Left => {
            if matches!(modifier, MModifiers::Control) {
                let mut attr = editor.get_caret_attribute();
                let bg = (((attr.get_background() as u64) + 7) % 8) as u32;
                attr.set_background(bg);
                editor.set_caret_attribute(attr);
            } else {
                editor.set_caret(pos.x - 1, pos.y);
            }
        },
        MKey::Right => {
            if matches!(modifier, MModifiers::Control) {
                let mut attr = editor.get_caret_attribute();
                let bg = (((attr.get_background() as u64) + 1) % 8) as u32;
                attr.set_background(bg);
                editor.set_caret_attribute(attr);
            } else {
                editor.set_caret(pos.x + 1, pos.y);
            }
        },
        MKey::Return => {
            editor.set_caret(0, pos.y + 1);
        },
        MKey::Delete => {
            if editor.get_selection().is_some() {
                editor.delete_selection();
            } else {
                let pos = editor.get_caret_position();
                editor.shift_row_left_from(pos.x, pos.y);
            }
        },
        MKey::Insert => {
            let mode = editor.get_caret().insert_mode;
            editor.caret.insert_mode = !mode;
        },
        MKey::Backspace => {
            editor.clear_selection();
            let pos = editor.get_caret_position();
            if pos.x > 0 {
                editor.set_caret_position(Position { x: pos.x - 1, y: pos.y });
                if editor.get_caret().insert_mode {
                    editor.shift_row_left_from(pos.x, pos.y);
                } else {
                    let p2 = editor.get_caret_position();
                    editor.set_char(p2, AttributedChar::invisible());
                }
            }
        },
        MKey::Character(c) => {
            editor.clear_selection();
            match char_from_code(c as u32) {
                Some(ch) => {
                    editor.type_key(ch);
                },
                None => {},
            }
        },
        MKey::F1 => {
            handle_outline_insertion(editor, modifier, 0);
        },
        MKey::F2 => {
            handle_outline_insertion(editor, modifier, 1);
        },
        MKey::F3 => {
            handle_outline_insertion(editor, modifier, 2);
        },
        MKey::F4 => {
            handle_outline_insertion(editor, modifier, 3);
        },
        MKey::F5 => {
            handle_outline_insertion(editor, modifier, 4);
        },
        MKey::F6 => {
            handle_outline_insertion(editor, modifier, 5);
        },
        MKey::F7 => {
            handle_outline_insertion(editor, modifier, 6);
        },
        MKey::F8 => {
            handle_outline_insertion(editor, modifier, 7);
        },
        MKey::F9 => {
            handle_outline_insertion(editor, modifier, 8);
        },
        MKey::F10 => {
            handle_outline_insertion(editor, modifier, 9);
        },
        MKey::Escape => {
            editor.clear_selection();
        },
        _ => {},
    }
    Event::Nothing
}

/// The event interface every tool serves.  The user-interface layer routes
/// mouse and keyboard events to the selected tool through these methods.
pub trait Tool {
    /// The tool's own settings are in range (the selectors of its options
    /// panel keep them there).
    spec fn wf(&self) -> bool;

    /// Whether the caret is shown while this tool is active.
    fn use_caret(&self) -> bool;

    fn is_visible(&self) -> bool;

    fn is_exclusive(&self) -> bool;

    /// Whether the selection is kept visible while this tool is active.
    fn use_selection(&self) -> bool;

    fn handle_click(&mut self, editor: &mut AnsiEditor, button: i32, pos: Position) -> (r: Event)
        requires
            old(self).wf(),
            old(editor).wf(),
            pos.bounded(),
        ensures
            final(self).wf(),
            final(editor).wf(),
    ;

    fn handle_drag_begin(&mut self, editor: &mut AnsiEditor) -> (r: Event)
        requires
            old(self).wf(),
            old(editor).wf(),
        ensures
            final(self).wf(),
            final(editor).wf(),
    ;

    fn handle_drag(&mut self, editor: &mut AnsiEditor) -> (r: Event)
        requires
            old(self).wf(),
            old(editor).wf(),
        ensures
            final(self).wf(),
            final(editor).wf(),
    ;

    fn handle_hover(&mut self, editor: &mut AnsiEditor, cur: Position) -> (r: Event)
        requires
            old(self).wf(),
            old(editor).wf(),
            cur.bounded(),
        ensures
            final(self).wf(),
            final(editor).wf(),
    ;

    fn handle_drag_end(&mut self, editor: &mut AnsiEditor) -> (r: Event)
        requires
            old(self).wf(),
            old(editor).wf(),
        ensures
            final(self).wf(),
            final(editor).wf(),
    ;

    /// Applies one key press; every tool shares the editor's key handling.
    fn handle_key(&mut self, editor: &mut AnsiEditor, key: MKey, modifier: MModifiers) -> (r:
        Event)
        requires
            old(editor).wf(),
            key matches MKey::Character(c) ==> (c < 0xD800 || c >= 0xE000),
        ensures
            final(editor).wf(),
            key_transition(*old(editor), *final(editor), key, modifier),
    {
        handle_key(editor, key, modifier)
    }
}

} // verus!
