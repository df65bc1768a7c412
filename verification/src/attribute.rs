//! The attributed character cell: a glyph plus its colour attribute.
//!
//! The rendering engine owns the full attribute word; the tools here read and
//! write only the foreground colour, the background colour and the font page,
//! so a cell is modelled as those three plain values beside the glyph.  The
//! invisible cell (the state of a never-written or deleted cell) is the one
//! whose glyph is the NUL character.
use vstd::prelude::*;

verus! {

/// Colour and font state of one cell or of the caret.
#[derive(Clone, Copy, Debug, PartialEq, Eq, Structural)]
pub struct TextAttribute {
    pub foreground: u32,
    pub background: u32,
    pub font_page: usize,
}

impl TextAttribute {
    pub fn get_foreground(self) -> (r: u32)
        ensures
            r == self.foreground,
    {
        self.foreground
    }

    pub fn set_foreground(&mut self, fg: u32)
        ensures
            *final(self) == (TextAttribute { foreground: fg, ..*old(self) }),
    {
        self.foreground = fg;
    }

    pub fn get_background(self) -> (r: u32)
        ensures
            r == self.background,
    {
        self.background
    }

    pub fn set_background(&mut self, bg: u32)
        ensures
            *final(self) == (TextAttribute { background: bg, ..*old(self) }),
    {
        self.background = bg;
    }

    pub fn get_font_page(self) -> (r: usize)
        ensures
            r == self.font_page,
    {
        self.font_page
    }

    pub fn set_font_page(&mut self, page: usize)
        ensures
            *final(self) == (TextAttribute { font_page: page, ..*old(self) }),
    {
        self.font_page = page;
    }
}

impl Default for TextAttribute {
    /// Light grey on black, first font page.
    fn default() -> (r: TextAttribute)
        ensures
            r == (TextAttribute { foreground: 7, background: 0, font_page: 0 }),
    {
        TextAttribute { foreground: 7, background: 0, font_page: 0 }
    }
}

/// One cell of the character grid: a glyph with its attribute.
#[derive(Clone, Copy, Debug, PartialEq, Eq, Structural)]
pub struct AttributedChar {
    pub ch: char,
    pub attribute: TextAttribute,
}

impl AttributedChar {
    pub fn new(ch: char, attribute: TextAttribute) -> (r: AttributedChar)
        ensures
            r.ch == ch,
            r.attribute == attribute,
    {
        AttributedChar { ch, attribute }
    }

    /// The value `invisible` returns, for use in contracts.
    pub open spec fn invisible_spec() -> AttributedChar {
        AttributedChar {
            ch: '\0',
            attribute: TextAttribute { foreground: 7, background: 0, font_page: 0 },
        }
    }

    /// The cell an erased or never-written position holds.
    #[verifier::when_used_as_spec(invisible_spec)]
    pub fn invisible() -> (r: AttributedChar)
        ensures
            r.ch == '\0',
            r.attribute == (TextAttribute { foreground: 7, background: 0, font_page: 0 }),
            !r.is_visible_spec(),
    {
        AttributedChar { ch: '\0', attribute: TextAttribute::default() }
    }

    /// A cell is visible unless it is the invisible glyph.
    pub open spec fn is_visible_spec(self) -> bool {
        self.ch != '\0'
    }

    pub fn is_visible(self) -> (r: bool)
        ensures
            r == self.is_visible_spec(),
    {
        self.ch != '\0'
    }
}

} // verus!
