//! Procedural animation: the buffer object the animation scripts drive, and
//! the animator that collects the produced frames.
//!
//! The scripting runtime itself runs outside; it calls in with plain values
//! (layer indices, coordinates, code points, colour components) and every
//! decision — bounds checks, palette lookup, the frame limit — is made and
//! verified here.
use vstd::prelude::*;

use crate::attribute::AttributedChar;
use crate::editor::Caret;
use crate::geometry::Position;
use crate::grid::Grid;
use crate::grid::MAX_DIM;
use crate::tools::char_code_value;
use crate::tools::char_from_code;

verus! {

/// Scripts may define at most this many animation frames, to bound memory.
pub const MAX_FRAMES: usize = 4096;

/// A failure reported back to the script.
#[derive(Clone, Copy, Debug, PartialEq, Eq, Structural)]
pub enum ScriptError {
    /// The layer index was out of range; carries the index and the count.
    LayerOutOfRange(usize, usize),
    /// The frame limit was reached.
    TooManyFrames,
}

/// One layer of a scripted buffer.
pub struct ScriptLayer {
    pub cells: Grid<AttributedChar>,
    pub offset: Position,
    pub is_visible: bool,
}

/// The buffer object handed to animation scripts.
pub struct ScriptBuffer {
    pub caret: Caret,
    pub layers: Vec<ScriptLayer>,
    /// The colour table; `set_fg` and `set_bg` extend it as needed.
    pub palette: Vec<(u8, u8, u8)>,
}

impl ScriptBuffer {
    pub open spec fn wf(self) -> bool {
        &&& self.layers@.len() >= 1
        &&& (forall|i: int|
            0 <= i < self.layers@.len() ==> (#[trigger] self.layers@[i]).cells.wf()
                && self.layers@[i].cells.width() == self.layers@[0].cells.width()
                && self.layers@[i].cells.height() == self.layers@[0].cells.height())
    }

    pub open spec fn width(self) -> int {
        self.layers@[0].cells.width()
    }

    pub open spec fn height(self) -> int {
        self.layers@[0].cells.height()
    }

    /// Both buffers show the same state.
    pub open spec fn matches(self, other: ScriptBuffer) -> bool {
        &&& self.caret == other.caret
        &&& self.palette@ == other.palette@
        &&& self.layers@.len() == other.layers@.len()
        &&& (forall|i: int|
            0 <= i < self.layers@.len() ==> {
                let a = #[trigger] self.layers@[i];
                let b = other.layers@[i];
                &&& a.offset == b.offset
                &&& a.is_visible == b.is_visible
                &&& a.cells.width() == b.cells.width()
                &&& a.cells.height() == b.cells.height()
                &&& (forall|x: int, y: int|
                    0 <= x < a.cells.width() && 0 <= y < a.cells.height()
                        ==> #[trigger] a.cells.cell(x, y) == b.cells.cell(x, y))
            })
    }

    /// A fresh single-layer buffer of blank cells with the standard
    /// sixteen-colour palette.
    pub fn new(width: usize, height: usize) -> (r: ScriptBuffer)
        requires
            1 <= width <= MAX_DIM,
            1 <= height <= MAX_DIM,
        ensures
            r.wf(),
            r.width() == width,
            r.height() == height,
            r.layers@.len() == 1,
            r.palette@.len() == 16,
            forall|x: int, y: int|
                0 <= x < width && 0 <= y < height ==> #[trigger] r.layers@[0].cells.cell(x, y)
                    == AttributedChar::invisible(),
    {
        let mut layers: Vec<ScriptLayer> = Vec::new();
        layers.push(
            ScriptLayer {
                cells: Grid::new(width, height, AttributedChar::invisible()),
                offset: Position { x: 0, y: 0 },
                is_visible: true,
            },
        );
        ScriptBuffer {
            caret: Caret {
                position: Position { x: 0, y: 0 },
                attribute: crate::attribute::TextAttribute::default(),
                insert_mode: false,
            },
            layers,
            palette: default_palette(),
        }
    }

    pub fn get_width(&self) -> (r: i32)
        requires
            self.wf(),
        ensures
            r == self.width(),
    {
        proof {
            crate::grid::Grid::lemma_dims(self.layers@[0].cells);
        }
        self.layers[0].cells.exec_width() as i32
    }

    pub fn get_height(&self) -> (r: i32)
        requires
            self.wf(),
        ensures
            r == self.height(),
    {
        proof {
            crate::grid::Grid::lemma_dims(self.layers@[0].cells);
        }
        self.layers[0].cells.exec_height() as i32
    }

    pub fn layer_count(&self) -> (r: usize)
        ensures
            r == self.layers@.len(),
    {
        self.layers.len()
    }

    /// Resizes the buffer to `width` columns: every layer keeps the cells
    /// both sizes share, fresh cells are blank.
    pub fn set_width(&mut self, width: usize)
        requires
            old(self).wf(),
            1 <= width <= MAX_DIM,
        ensures
            final(self).wf(),
            final(self).width() == width,
            final(self).height() == old(self).height(),
            final(self).caret == old(self).caret,
            final(self).palette@ == old(self).palette@,
            final(self).layers@.len() == old(self).layers@.len(),
            forall|i: int, x: int, y: int|
                0 <= i < old(self).layers@.len() && 0 <= x < width && 0 <= y < old(self).height()
                    ==> #[trigger] final(self).layers@[i].cells.cell(x, y) == if x < old(
                    self,
                ).width() {
                    old(self).layers@[i].cells.cell(x, y)
                } else {
                    AttributedChar::invisible()
                },
    {
        proof {
            crate::grid::Grid::lemma_dims(self.layers@[0].cells);
        }
        let height = self.layers[0].cells.exec_height();
        self.resize_layers(width, height);
    }

    /// Resizes the buffer to `height` rows; see `set_width`.
    pub fn set_height(&mut self, height: usize)
        requires
            old(self).wf(),
            1 <= height <= MAX_DIM,
        ensures
            final(self).wf(),
            final(self).width() == old(self).width(),
            final(self).height() == height,
            final(self).caret == old(self).caret,
            final(self).palette@ == old(self).palette@,
            final(self).layers@.len() == old(self).layers@.len(),
            forall|i: int, x: int, y: int|
                0 <= i < old(self).layers@.len() && 0 <= x < old(self).width() && 0 <= y < height
                    ==> #[trigger] final(self).layers@[i].cells.cell(x, y) == if y < old(
                    self,
                ).height() {
                    old(self).layers@[i].cells.cell(x, y)
                } else {
                    AttributedChar::invisible()
                },
    {
        proof {
            crate::grid::Grid::lemma_dims(self.layers@[0].cells);
        }
        let width = self.layers[0].cells.exec_width();
        self.resize_layers(width, height);
    }

    /// Rebuilds every layer at the new size, keeping the shared cells.
    #[verifier::loop_isolation(false)]
    fn resize_layers(&mut self, width: usize, height: usize)
        requires
            old(self).wf(),
            1 <= width <= MAX_DIM,
            1 <= height <= MAX_DIM,
        ensures
            final(self).wf(),
            final(self).width() == width,
            final(self).height() == height,
            final(self).caret == old(self).caret,
            final(self).palette@ == old(self).palette@,
            final(self).layers@.len() == old(self).layers@.len(),
            forall|i: int|
                0 <= i < old(self).layers@.len() ==> {
                    let a = old(self).layers@[i];
                    let b = #[trigger] final(self).layers@[i];
                    &&& b.offset == a.offset
                    &&& b.is_visible == a.is_visible
                    &&& (forall|x: int, y: int|
                        0 <= x < width && 0 <= y < height ==> #[trigger] b.cells.cell(x, y) == if x
                            < old(self).width() && y < old(self).height() {
                            a.cells.cell(x, y)
                        } else {
                            AttributedChar::invisible()
                        })
                },
    {
        let n = self.layers.len();
        let mut i: usize = 0;
        while i < n
            invariant
                i <= n,
                self.caret == old(self).caret,
                self.palette@ == old(self).palette@,
                self.layers@.len() == old(self).layers@.len(),
                forall|k: int|
                    i <= k < n ==> #[trigger] self.layers@[k] == old(self).layers@[k],
                forall|k: int|
                    0 <= k < i ==> {
                        let a = old(self).layers@[k];
                        let b = #[trigger] self.layers@[k];
                        &&& b.offset == a.offset
                        &&& b.is_visible == a.is_visible
                        &&& b.cells.wf()
                        &&& b.cells.width() == width
                        &&& b.cells.height() == height
                        &&& (forall|x: int, y: int|
                            0 <= x < width && 0 <= y < height ==> #[trigger] b.cells.cell(x, y)
                                == if x < old(self).width() && y < old(self).height() {
                                a.cells.cell(x, y)
                            } else {
                                AttributedChar::invisible()
                            })
                    },
            decreases n - i,
        {
            let entry = self.take_layer(i);
            let resized = ScriptLayer {
                cells: entry.cells.resized(width, height, AttributedChar::invisible()),
                offset: entry.offset,
                is_visible: entry.is_visible,
            };
            self.put_layer(i, resized);
            i = i + 1;
        }
    }

    /// The palette index of colour `(r, g, b)`: the first matching entry,
    /// or a fresh one appended at the end.
    pub fn insert_color_rgb(&mut self, red: u8, green: u8, blue: u8) -> (idx: u32)
        requires
            old(self).wf(),
            old(self).palette@.len() < 0xffff_ffff,
        ensures
            final(self).wf(),
            final(self).caret == old(self).caret,
            final(self).layers@ == old(self).layers@,
            idx < final(self).palette@.len(),
            final(self).palette@[idx as int] == (red, green, blue),
            if old(self).palette@.contains((red, green, blue)) {
                final(self).palette@ == old(self).palette@ && old(self).palette@[idx as int] == (
                red,
                green,
                blue,
                ) && (forall|j: int| 0 <= j < idx ==> old(self).palette@[j] != (red, green, blue))
            } else {
                final(self).palette@ == old(self).palette@.push((red, green, blue)) && idx == old(
                    self,
                ).palette@.len()
            },
    {
        let n = self.palette.len();
        let mut i: usize = 0;
        while i < n
            invariant
                i <= n,
                n == self.palette@.len(),
                n < 0xffff_ffff,
                self == old(self),
                old(self).wf(),
                forall|j: int| 0 <= j < i ==> self.palette@[j] != (red, green, blue),
            decreases n - i,
        {
            let c = self.palette[i];
            if c.0 == red && c.1 == green && c.2 == blue {
                proof {
                    assert(self.palette@[i as int] == (red, green, blue));
                    assert(old(self).palette@.contains((red, green, blue)));
                }
                return i as u32;
            }
            i = i + 1;
        }
        self.palette.push((red, green, blue));
        proof {
            assert(!old(self).palette@.contains((red, green, blue))) by {
                assert(forall|j: int|
                    0 <= j < old(self).palette@.len() ==> old(self).palette@[j] != (
                    red,
                    green,
                    blue,
                    ));
            }
        }
        n as u32
    }

    /// Picks (or creates) the palette colour and makes it the caret's
    /// foreground.
    pub fn set_fg(&mut self, red: u8, green: u8, blue: u8)
        requires
            old(self).wf(),
            old(self).palette@.len() < 0xffff_ffff,
        ensures
            final(self).wf(),
            final(self).layers@ == old(self).layers@,
            final(self).palette@[final(self).caret.attribute.foreground as int] == (
            red,
            green,
            blue,
            ),
            final(self).caret == (Caret {
                attribute: crate::attribute::TextAttribute {
                    foreground: final(self).caret.attribute.foreground,
                    ..old(self).caret.attribute
                },
                ..old(self).caret
            }),
    {
        let color = self.insert_color_rgb(red, green, blue);
        self.caret.attribute.foreground = color;
    }

    /// Picks (or creates) the palette colour and makes it the caret's
    /// background.
    pub fn set_bg(&mut self, red: u8, green: u8, blue: u8)
        requires
            old(self).wf(),
            old(self).palette@.len() < 0xffff_ffff,
        ensures
            final(self).wf(),
            final(self).layers@ == old(self).layers@,
            final(self).palette@[final(self).caret.attribute.background as int] == (
            red,
            green,
            blue,
            ),
            final(self).caret == (Caret {
                attribute: crate::attribute::TextAttribute {
                    background: final(self).caret.attribute.background,
                    ..old(self).caret.attribute
                },
                ..old(self).caret
            }),
    {
        let color = self.insert_color_rgb(red, green, blue);
        self.caret.attribute.background = color;
    }

    /// Writes code point `ch` with the caret's attribute at `(x, y)` of the
    /// given layer; fails when the layer index is out of range.
    pub fn set_char(&mut self, layer: usize, x: i32, y: i32, ch: u32) -> (r: Result<
        (),
        ScriptError,
    >)
        requires
            old(self).wf(),
            char_code_value(ch) is Some,
        ensures
            final(self).wf(),
            layer >= old(self).layers@.len() ==> r == Result::<(), ScriptError>::Err(
                ScriptError::LayerOutOfRange(layer, old(self).layers@.len() as usize),
            ) && *final(self) == *old(self),
            layer < old(self).layers@.len() ==> {
                &&& r is Ok
                &&& final(self).caret == old(self).caret
                &&& final(self).palette@ == old(self).palette@
                &&& final(self).layers@.len() == old(self).layers@.len()
                &&& (forall|i: int|
                    0 <= i < old(self).layers@.len() && i != layer
                        ==> #[trigger] final(self).layers@[i] == old(self).layers@[i])
                &&& final(self).layers@[layer as int].offset == old(
                    self,
                ).layers@[layer as int].offset
                &&& final(self).layers@[layer as int].is_visible == old(
                    self,
                ).layers@[layer as int].is_visible
                &&& (forall|xx: int, yy: int|
                    0 <= xx < old(self).width() && 0 <= yy < old(self).height()
                        ==> #[trigger] final(self).layers@[layer as int].cells.cell(xx, yy) == if xx
                        == x && yy == y {
                        AttributedChar {
                            ch: char_code_value(ch)->0,
                            attribute: old(self).caret.attribute,
                        }
                    } else {
                        old(self).layers@[layer as int].cells.cell(xx, yy)
                    })
            },
    {
        let count = self.layers.len();
        if layer >= count {
            return Err(ScriptError::LayerOutOfRange(layer, count));
        }
        let glyph = match char_from_code(ch) {
            Some(c) => c,
            None => {
                proof {
                    assert(false);
                }
                ' '
            },
        };
        let attribute = self.caret.attribute;
        let mut entry = self.take_layer(layer);
        entry.cells.set(Position { x, y }, AttributedChar { ch: glyph, attribute });
        self.put_layer(layer, entry);
        Ok(())
    }

    /// The code point shown at `(x, y)` of the given layer; fails when the
    /// layer index is out of range.
    pub fn get_char(&self, layer: usize, x: i32, y: i32) -> (r: Result<u32, ScriptError>)
        requires
            self.wf(),
        ensures
            layer >= self.layers@.len() ==> r == Result::<u32, ScriptError>::Err(
                ScriptError::LayerOutOfRange(layer, self.layers@.len() as usize),
            ),
            layer < self.layers@.len() ==> r == Result::<u32, ScriptError>::Ok(
                (if self.layers@[layer as int].cells.in_bounds(Position { x, y }) {
                    self.layers@[layer as int].cells.cell(x as int, y as int)
                } else {
                    AttributedChar::invisible()
                }).ch as u32,
            ),
    {
        let count = self.layers.len();
        if layer >= count {
            return Err(ScriptError::LayerOutOfRange(layer, count));
        }
        let cell = self.layers[layer].cells.get(Position { x, y }, AttributedChar::invisible());
        Ok(cell.ch as u32)
    }

    /// The foreground and background colour indices at `(x, y)` of the
    /// given layer.
    pub fn get_color_at(&self, layer: usize, x: i32, y: i32) -> (r: Result<(u32, u32), ScriptError>)
        requires
            self.wf(),
        ensures
            layer >= self.layers@.len() ==> r == Result::<(u32, u32), ScriptError>::Err(
                ScriptError::LayerOutOfRange(layer, self.layers@.len() as usize),
            ),
            layer < self.layers@.len() ==> r == Result::<(u32, u32), ScriptError>::Ok(
                ({
                    let c = if self.layers@[layer as int].cells.in_bounds(Position { x, y }) {
                        self.layers@[layer as int].cells.cell(x as int, y as int)
                    } else {
                        AttributedChar::invisible()
                    };
                    (c.attribute.foreground, c.attribute.background)
                }),
            ),
    {
        let count = self.layers.len();
        if layer >= count {
            return Err(ScriptError::LayerOutOfRange(layer, count));
        }
        let cell = self.layers[layer].cells.get(Position { x, y }, AttributedChar::invisible());
        Ok((cell.attribute.foreground, cell.attribute.background))
    }

    /// Writes `text` with the caret's attribute from `(x, y)` rightwards on
    /// the given layer.
    #[verifier::loop_isolation(false)]
    pub fn print(&mut self, layer: usize, x: i32, y: i32, text: &Vec<char>) -> (r: Result<
        (),
        ScriptError,
    >)
        requires
            old(self).wf(),
            -0x1fff_ffff <= x <= 0x1fff_ffff,
            text@.len() <= 0x1000_0000,
        ensures
            final(self).wf(),
            layer >= old(self).layers@.len() ==> r == Result::<(), ScriptError>::Err(
                ScriptError::LayerOutOfRange(layer, old(self).layers@.len() as usize),
            ) && *final(self) == *old(self),
            layer < old(self).layers@.len() ==> {
                &&& r is Ok
                &&& final(self).caret == old(self).caret
                &&& final(self).palette@ == old(self).palette@
                &&& final(self).layers@.len() == old(self).layers@.len()
                &&& (forall|i: int|
                    0 <= i < old(self).layers@.len() && i != layer
                        ==> #[trigger] final(self).layers@[i] == old(self).layers@[i])
                &&& final(self).layers@[layer as int].offset == old(
                    self,
                ).layers@[layer as int].offset
                &&& final(self).layers@[layer as int].is_visible == old(
                    self,
                ).layers@[layer as int].is_visible
                &&& (forall|xx: int, yy: int|
                    0 <= xx < old(self).width() && 0 <= yy < old(self).height()
                        ==> #[trigger] final(self).layers@[layer as int].cells.cell(xx, yy) == if yy
                        == y && x <= xx < x + text@.len() {
                        AttributedChar {
                            ch: text@[xx - x],
                            attribute: old(self).caret.attribute,
                        }
                    } else {
                        old(self).layers@[layer as int].cells.cell(xx, yy)
                    })
            },
    {
        let count = self.layers.len();
        if layer >= count {
            return Err(ScriptError::LayerOutOfRange(layer, count));
        }
        let attribute = self.caret.attribute;
        let mut entry = self.take_layer(layer);
        let n = text.len();
        let mut i: usize = 0;
        while i < n
            invariant
                i <= n,
                n == text@.len(),
                entry.cells.wf(),
                entry.cells.width() == old(self).width(),
                entry.cells.height() == old(self).height(),
                entry.offset == old(self).layers@[layer as int].offset,
                entry.is_visible == old(self).layers@[layer as int].is_visible,
                forall|xx: int, yy: int|
                    0 <= xx < old(self).width() && 0 <= yy < old(self).height()
                        ==> #[trigger] entry.cells.cell(xx, yy) == if yy == y && x <= xx < x + i {
                        AttributedChar { ch: text@[xx - x], attribute }
                    } else {
                        old(self).layers@[layer as int].cells.cell(xx, yy)
                    },
            decreases n - i,
        {
            entry.cells.set(
                Position { x: x + i as i32, y },
                AttributedChar { ch: text[i], attribute },
            );
            i = i + 1;
        }
        self.put_layer(layer, entry);
        Ok(())
    }

    /// Moves the given layer to offset `(x, y)`.
    pub fn set_layer_position(&mut self, layer: usize, x: i32, y: i32) -> (r: Result<
        (),
        ScriptError,
    >)
        requires
            old(self).wf(),
        ensures
            final(self).wf(),
            layer >= old(self).layers@.len() ==> r == Result::<(), ScriptError>::Err(
                ScriptError::LayerOutOfRange(layer, old(self).layers@.len() as usize),
            ) && *final(self) == *old(self),
            layer < old(self).layers@.len() ==> {
                &&& r is Ok
                &&& final(self).caret == old(self).caret
                &&& final(self).palette@ == old(self).palette@
                &&& final(self).layers@.len() == old(self).layers@.len()
                &&& (forall|i: int|
                    0 <= i < old(self).layers@.len() && i != layer
                        ==> #[trigger] final(self).layers@[i] == old(self).layers@[i])
                &&& final(self).layers@[layer as int].offset == (Position { x, y })
                &&& final(self).layers@[layer as int].cells == old(
                    self,
                ).layers@[layer as int].cells
                &&& final(self).layers@[layer as int].is_visible == old(
                    self,
                ).layers@[layer as int].is_visible
            },
    {
        let count = self.layers.len();
        if layer >= count {
            return Err(ScriptError::LayerOutOfRange(layer, count));
        }
        let mut entry = self.take_layer(layer);
        entry.offset = Position { x, y };
        self.put_layer(layer, entry);
        Ok(())
    }

    /// The offset of the given layer.
    pub fn get_layer_position(&self, layer: usize) -> (r: Result<(i32, i32), ScriptError>)
        requires
            self.wf(),
        ensures
            layer >= self.layers@.len() ==> r == Result::<(i32, i32), ScriptError>::Err(
                ScriptError::LayerOutOfRange(layer, self.layers@.len() as usize),
            ),
            layer < self.layers@.len() ==> r == Result::<(i32, i32), ScriptError>::Ok(
                (self.layers@[layer as int].offset.x, self.layers@[layer as int].offset.y),
            ),
    {
        let count = self.layers.len();
        if layer >= count {
            return Err(ScriptError::LayerOutOfRange(layer, count));
        }
        let p = self.layers[layer].offset;
        Ok((p.x, p.y))
    }

    /// Shows or hides the given layer; a negative index is out of range.
    pub fn set_layer_visible(&mut self, layer: i32, is_visible: bool) -> (r: Result<
        (),
        ScriptError,
    >)
        requires
            old(self).wf(),
        ensures
            final(self).wf(),
            (layer < 0 || layer >= old(self).layers@.len()) ==> ((r matches Err(
                ScriptError::LayerOutOfRange(_, _),
            )) && *final(self) == *old(self)),
            (0 <= layer < old(self).layers@.len()) ==> {
                &&& r is Ok
                &&& final(self).caret == old(self).caret
                &&& final(self).palette@ == old(self).palette@
                &&& final(self).layers@.len() == old(self).layers@.len()
                &&& (forall|i: int|
                    0 <= i < old(self).layers@.len() && i != layer
                        ==> #[trigger] final(self).layers@[i] == old(self).layers@[i])
                &&& final(self).layers@[layer as int].is_visible == is_visible
                &&& final(self).layers@[layer as int].cells == old(
                    self,
                ).layers@[layer as int].cells
                &&& final(self).layers@[layer as int].offset == old(
                    self,
                ).layers@[layer as int].offset
            },
    {
        let count = self.layers.len();
        if layer < 0 {
            return Err(ScriptError::LayerOutOfRange(0, count));
        }
        let layer = layer as usize;
        if layer >= count {
            return Err(ScriptError::LayerOutOfRange(layer, count));
        }
        let mut entry = self.take_layer(layer);
        entry.is_visible = is_visible;
        self.put_layer(layer, entry);
        Ok(())
    }

    /// Whether the given layer is shown.
    pub fn get_layer_visible(&self, layer: usize) -> (r: Result<bool, ScriptError>)
        requires
            self.wf(),
        ensures
            layer >= self.layers@.len() ==> r == Result::<bool, ScriptError>::Err(
                ScriptError::LayerOutOfRange(layer, self.layers@.len() as usize),
            ),
            layer < self.layers@.len() ==> r == Result::<bool, ScriptError>::Ok(
                self.layers@[layer as int].is_visible,
            ),
    {
        let count = self.layers.len();
        if layer >= count {
            return Err(ScriptError::LayerOutOfRange(layer, count));
        }
        Ok(self.layers[layer].is_visible)
    }

    /// Resets the buffer: a fresh caret and a single blank layer of the
    /// same size.
    pub fn clear(&mut self)
        requires
            old(self).wf(),
        ensures
            final(self).wf(),
            final(self).width() == old(self).width(),
            final(self).height() == old(self).height(),
            final(self).layers@.len() == 1,
            forall|x: int, y: int|
                0 <= x < old(self).width() && 0 <= y < old(self).height()
                    ==> #[trigger] final(self).layers@[0].cells.cell(x, y)
                    == AttributedChar::invisible(),
            final(self).caret.position == (Position { x: 0, y: 0 }),
            !final(self).caret.insert_mode,
    {
        proof {
            crate::grid::Grid::lemma_dims(self.layers@[0].cells);
        }
        let w = self.layers[0].cells.exec_width();
        let h = self.layers[0].cells.exec_height();
        let mut layers: Vec<ScriptLayer> = Vec::new();
        layers.push(
            ScriptLayer {
                cells: Grid::new(w, h, AttributedChar::invisible()),
                offset: Position { x: 0, y: 0 },
                is_visible: true,
            },
        );
        self.layers = layers;
        self.caret = Caret {
            position: Position { x: 0, y: 0 },
            attribute: crate::attribute::TextAttribute::default(),
            insert_mode: false,
        };
    }

    /// A copy of the buffer as it stands.
    #[verifier::loop_isolation(false)]
    pub fn snapshot(&self) -> (r: ScriptBuffer)
        requires
            self.wf(),
        ensures
            r.wf(),
            r.matches(*self),
    {
        let mut layers: Vec<ScriptLayer> = Vec::new();
        let n = self.layers.len();
        let mut i: usize = 0;
        while i < n
            invariant
                i <= n,
                layers@.len() == i,
                forall|k: int|
                    0 <= k < i ==> {
                        let a = self.layers@[k];
                        let b = #[trigger] layers@[k];
                        &&& b.offset == a.offset
                        &&& b.is_visible == a.is_visible
                        &&& b.cells.wf()
                        &&& b.cells.width() == a.cells.width()
                        &&& b.cells.height() == a.cells.height()
                        &&& (forall|x: int, y: int|
                            0 <= x < a.cells.width() && 0 <= y < a.cells.height()
                                ==> #[trigger] b.cells.cell(x, y) == a.cells.cell(x, y))
                    },
            decreases n - i,
        {
            let entry = &self.layers[i];
            layers.push(
                ScriptLayer {
                    cells: entry.cells.duplicate(),
                    offset: entry.offset,
                    is_visible: entry.is_visible,
                },
            );
            i = i + 1;
        }
        let mut palette: Vec<(u8, u8, u8)> = Vec::new();
        let np = self.palette.len();
        let mut j: usize = 0;
        while j < np
            invariant
                j <= np,
                palette@.len() == j,
                forall|k: int| 0 <= k < j ==> #[trigger] palette@[k] == self.palette@[k],
            decreases np - j,
        {
            palette.push(self.palette[j]);
            j = j + 1;
        }
        proof {
            assert(palette@ =~= self.palette@);
        }
        ScriptBuffer { caret: self.caret, layers, palette }
    }

    /// Takes the given layer out, to modify it.
    fn take_layer(&mut self, layer: usize) -> (entry: ScriptLayer)
        requires
            layer < old(self).layers@.len(),
        ensures
            entry == old(self).layers@[layer as int],
            final(self).caret == old(self).caret,
            final(self).palette@ == old(self).palette@,
            final(self).layers@ == old(self).layers@.update(
                layer as int,
                final(self).layers@[layer as int],
            ),
            final(self).layers@.len() == old(self).layers@.len(),
    {
        let placeholder = ScriptLayer {
            cells: Grid::new(1, 1, AttributedChar::invisible()),
            offset: Position { x: 0, y: 0 },
            is_visible: false,
        };
        self.layers.push(placeholder);
        let entry = self.layers.swap_remove(layer);
        proof {
            assert(self.layers@ =~= old(self).layers@.update(
                layer as int,
                self.layers@[layer as int],
            ));
        }
        entry
    }

    /// Puts a modified layer back.
    fn put_layer(&mut self, layer: usize, entry: ScriptLayer)
        requires
            layer < old(self).layers@.len(),
        ensures
            final(self).caret == old(self).caret,
            final(self).palette@ == old(self).palette@,
            final(self).layers@ == old(self).layers@.update(layer as int, entry),
    {
        self.layers.push(entry);
        let _ = self.layers.swap_remove(layer);
        proof {
            assert(self.layers@ =~= old(self).layers@.update(
                layer as int,
                self.layers@[layer as int],
            ));
        }
    }
}

/// The classic sixteen-colour table scripts start from.
pub fn default_palette() -> (r: Vec<(u8, u8, u8)>)
    ensures
        r@.len() == 16,
        r@[0] == (0u8, 0u8, 0u8),
        r@[7] == (170u8, 170u8, 170u8),
        r@[15] == (255u8, 255u8, 255u8),
{
    let mut p: Vec<(u8, u8, u8)> = Vec::new();
    p.push((0, 0, 0));
    p.push((0, 0, 170));
    p.push((0, 170, 0));
    p.push((0, 170, 170));
    p.push((170, 0, 0));
    p.push((170, 0, 170));
    p.push((170, 85, 0));
    p.push((170, 170, 170));
    p.push((85, 85, 85));
    p.push((85, 85, 255));
    p.push((85, 255, 85));
    p.push((85, 255, 255));
    p.push((255, 85, 85));
    p.push((255, 85, 255));
    p.push((255, 255, 85));
    p.push((255, 255, 255));
    p
}

/// Collects the frames an animation script produces.
pub struct Animator {
    pub frames: Vec<ScriptBuffer>,
}

impl Animator {
    pub open spec fn wf(self) -> bool {
        forall|i: int| 0 <= i < self.frames@.len() ==> (#[trigger] self.frames@[i]).wf()
    }

    pub fn new() -> (r: Animator)
        ensures
            r.wf(),
            r.frames@.len() == 0,
    {
        Animator { frames: Vec::new() }
    }

    /// The number of the frame a script is defining next, starting at one.
    pub fn cur_frame(&self) -> (r: usize)
        requires
            self.frames@.len() < usize::MAX,
        ensures
            r == self.frames@.len() + 1,
    {
        self.frames.len() + 1
    }

    /// Records a copy of `buffer` as the next frame; refuses once the frame
    /// limit is passed, to bound memory.
    pub fn next_frame(&mut self, buffer: &ScriptBuffer) -> (r: Result<(), ScriptError>)
        requires
            old(self).wf(),
            buffer.wf(),
        ensures
            final(self).wf(),
            old(self).frames@.len() > MAX_FRAMES ==> r == Result::<(), ScriptError>::Err(
                ScriptError::TooManyFrames,
            ) && final(self).frames@ == old(self).frames@,
            old(self).frames@.len() <= MAX_FRAMES ==> {
                &&& r is Ok
                &&& final(self).frames@.len() == old(self).frames@.len() + 1
                &&& (forall|i: int|
                    0 <= i < old(self).frames@.len() ==> #[trigger] final(self).frames@[i] == old(
                        self,
                    ).frames@[i])
                &&& final(self).frames@.last().matches(*buffer)
            },
    {
        if self.frames.len() > MAX_FRAMES {
            return Err(ScriptError::TooManyFrames);
        }
        let frame = buffer.snapshot();
        self.frames.push(frame);
        Ok(())
    }
}

} // verus!
