//! The font browser: filters the installed TheDraw fonts by name and kind,
//! lets the user pick one, and hands the choice back on commit.
use vstd::prelude::*;

use crate::TerminalResult;
use crate::dialogs::ModalDialog;
use crate::editor::AnsiEditor;
use crate::geometry::Position;
use crate::messages::MainWindow;

verus! {

/// The kinds a TheDraw font can have.
#[derive(Clone, Copy, Debug, PartialEq, Eq, Structural)]
pub enum FontType {
    Outline,
    Block,
    Color,
}

/// What the browser knows of one installed font: its name, its kind, and
/// which character codes it has glyphs for.
pub struct FontInfo {
    pub name: String,
    pub font_type: FontType,
    pub glyphs: Vec<u8>,
}

impl FontInfo {
    pub open spec fn has_char_spec(self, ch: u8) -> bool {
        self.glyphs@.contains(ch)
    }

    /// Whether the font has a glyph for character code `ch`.
    pub fn has_char(&self, ch: u8) -> (r: bool)
        ensures
            r == self.has_char_spec(ch),
    {
        let n = self.glyphs.len();
        let mut i: usize = 0;
        while i < n
            invariant
                i <= n,
                n == self.glyphs@.len(),
                forall|j: int| 0 <= j < i ==> self.glyphs@[j] != ch,
            decreases n - i,
        {
            if self.glyphs[i] == ch {
                return true;
            }
            i = i + 1;
        }
        proof {
            assert(forall|j: int| 0 <= j < self.glyphs@.len() ==> self.glyphs@[j] != ch);
        }
        false
    }

    /// The sample the preview renders: upper case when the font has the
    /// upper-case glyphs, else lower case.
    pub fn sample_text(&self) -> (r: &'static str)
        ensures
            self.has_char_spec(72) ==> r@ == "HELLO"@,
            !self.has_char_spec(72) ==> r@ == "hello"@,
    {
        if self.has_char(72) {
            "HELLO"
        } else {
            "hello"
        }
    }
}

/// Where the preview caret stands after rendering one glyph of `width`
/// cells followed by the font's spacing.
pub fn advance_caret(pos: Position, width: i32, spaces: i32) -> (r: Position)
    requires
        pos.bounded(),
        0 <= width <= 0xffff,
        0 <= spaces <= 0xffff,
    ensures
        r.x == pos.x + width + spaces,
        r.y == pos.y,
{
    Position { x: pos.x + width + spaces, y: pos.y }
}

/// What lower-casing a string yields.  Relied on below; the result depends
/// on the characters alone.
pub uninterp spec fn lower_of(s: Seq<char>) -> Seq<char>;

/// Relies on str::to_lowercase: the lower-case form depends only on the
/// characters of the input.
#[verifier::external_body]
fn to_lowercase_chars(s: &str) -> (r: Vec<char>)
    ensures
        r@ == lower_of(s@),
{
    s.to_lowercase().chars().collect()
}

/// Whether `needle` occurs contiguously inside `hay`.
pub open spec fn contains_seq(hay: Seq<char>, needle: Seq<char>) -> bool {
    exists|i: int|
        0 <= i <= hay.len() - needle.len() && #[trigger] hay.subrange(i, i + needle.len() as int)
            == needle
}

/// Whether `needle` occurs contiguously inside `hay`, as values.
pub fn contains_chars(hay: &Vec<char>, needle: &Vec<char>) -> (r: bool)
    ensures
        r == contains_seq(hay@, needle@),
{
    let nh = hay.len();
    let nn = needle.len();
    if nn > nh {
        return false;
    }
    let mut i: usize = 0;
    while i <= nh - nn
        invariant
            nh == hay@.len(),
            nn == needle@.len(),
            nn <= nh,
            0 <= i <= nh - nn + 1,
            forall|k: int|
                0 <= k < i ==> #[trigger] hay@.subrange(k, k + needle@.len() as int) != needle@,
        decreases nh - nn + 1 - i,
    {
        let mut j: usize = 0;
        let mut matches_here = true;
        proof {
            assert(hay@.subrange(i as int, i as int) =~= needle@.subrange(0, 0));
        }
        while j < nn
            invariant
                nh == hay@.len(),
                nn == needle@.len(),
                0 <= i <= nh - nn,
                j <= nn,
                matches_here == (hay@.subrange(i as int, i + j) == needle@.subrange(0, j as int)),
            ensures
                j == nn || !matches_here,
            decreases nn - j,
        {
            proof {
                assert(hay@.subrange(i as int, i + j + 1).drop_last() == hay@.subrange(
                    i as int,
                    i + j,
                ));
                assert(needle@.subrange(0, j + 1).drop_last() == needle@.subrange(0, j as int));
                assert(hay@.subrange(i as int, i + j + 1).last() == hay@[i + j]);
                assert(needle@.subrange(0, j + 1).last() == needle@[j as int]);
            }
            if hay[i + j] != needle[j] {
                matches_here = false;
                proof {
                    assert(hay@.subrange(i as int, i + j + 1)[j as int] == hay@[i + j]);
                    assert(needle@.subrange(0, j + 1)[j as int] == needle@[j as int]);
                }
                j = j + 1;
                proof {
                    assert(hay@.subrange(i as int, i as int + j) != needle@.subrange(0, j as int));
                }
                break ;
            }
            j = j + 1;
            proof {
                if matches_here {
                    assert(hay@.subrange(i as int, i as int + j) =~= needle@.subrange(0, j as int));
                }
            }
        }
        if matches_here && j == nn {
            proof {
                assert(needle@.subrange(0, nn as int) =~= needle@);
                assert(0 <= i as int <= hay@.len() - needle@.len());
            }
            return true;
        }
        proof {
            if hay@.subrange(i as int, i as int + nn as int) == needle@ {
                assert(needle@.subrange(0, nn as int) =~= needle@);
                if j == nn {
                    assert(!matches_here);
                    assert(false);
                }
                if j < nn {
                    assert(hay@.subrange(i as int, i as int + j) =~= hay@.subrange(
                        i as int,
                        i as int + nn,
                    ).subrange(0, j as int));
                    assert(needle@.subrange(0, j as int) =~= needle@.subrange(0, nn as int).subrange(
                        0,
                        j as int,
                    ));
                    assert(false);
                }
            }
        }
        i = i + 1;
    }
    proof {
        assert forall|k: int|
            0 <= k <= hay@.len() - needle@.len() implies #[trigger] hay@.subrange(
            k,
            k + needle@.len() as int,
        ) != needle@ by {
            assert(k < i);
        }
    }
    false
}

/// Whether one font passes the browser's filter: its lower-cased name must
/// contain the lower-cased filter text, and its kind must be switched on.
pub open spec fn font_shown(
    font_name_lower: Seq<char>,
    font_type: FontType,
    filter_lower: Seq<char>,
    show_outline: bool,
    show_block: bool,
    show_color: bool,
) -> bool {
    &&& contains_seq(font_name_lower, filter_lower)
    &&& match font_type {
        FontType::Outline => show_outline,
        FontType::Block => show_block,
        FontType::Color => show_color,
    }
}

/// The font browser's state.
pub struct SelectFontDialog {
    pub fonts: Vec<FontInfo>,
    pub selected_font: i32,
    pub do_select: bool,
    pub filter: String,
    pub show_outline: bool,
    pub show_block: bool,
    pub show_color: bool,
}

impl SelectFontDialog {
    /// A browser over `fonts` with `selected_font` highlighted, no filter
    /// text and every kind shown.
    pub fn new(fonts: Vec<FontInfo>, selected_font: i32) -> (r: SelectFontDialog)
        ensures
            r.fonts@ == fonts@,
            r.selected_font == selected_font,
            !r.do_select,
            r.filter@.len() == 0,
            r.show_outline && r.show_block && r.show_color,
    {
        SelectFontDialog {
            fonts,
            selected_font,
            do_select: false,
            filter: String::new(),
            show_outline: true,
            show_block: true,
            show_color: true,
        }
    }

    /// The indices of the fonts the filter lets through, in order.
    #[verifier::loop_isolation(false)]
    pub fn filtered_fonts(&self) -> (r: Vec<usize>)
        ensures
            forall|k: int|
                0 <= k < r@.len() ==> #[trigger] r@[k] < self.fonts@.len() && font_shown(
                    lower_of(self.fonts@[r@[k] as int].name@),
                    self.fonts@[r@[k] as int].font_type,
                    lower_of(self.filter@),
                    self.show_outline,
                    self.show_block,
                    self.show_color,
                ),
            forall|i: int|
                0 <= i < self.fonts@.len() && font_shown(
                    lower_of(#[trigger] self.fonts@[i].name@),
                    self.fonts@[i].font_type,
                    lower_of(self.filter@),
                    self.show_outline,
                    self.show_block,
                    self.show_color,
                ) ==> r@.contains(i as usize),
            forall|k1: int, k2: int| 0 <= k1 < k2 < r@.len() ==> #[trigger] r@[k1] < #[trigger] r@[k2],
    {
        let filter_lower = to_lowercase_chars(self.filter.as_str());
        let n = self.fonts.len();
        let mut out: Vec<usize> = Vec::new();
        let mut i: usize = 0;
        while i < n
            invariant
                i <= n,
                forall|k: int|
                    0 <= k < out@.len() ==> #[trigger] out@[k] < i && font_shown(
                        lower_of(self.fonts@[out@[k] as int].name@),
                        self.fonts@[out@[k] as int].font_type,
                        lower_of(self.filter@),
                        self.show_outline,
                        self.show_block,
                        self.show_color,
                    ),
                forall|j: int|
                    0 <= j < i && font_shown(
                        lower_of(#[trigger] self.fonts@[j].name@),
                        self.fonts@[j].font_type,
                        lower_of(self.filter@),
                        self.show_outline,
                        self.show_block,
                        self.show_color,
                    ) ==> out@.contains(j as usize),
                forall|k1: int, k2: int|
                    0 <= k1 < k2 < out@.len() ==> #[trigger] out@[k1] < #[trigger] out@[k2],
            decreases n - i,
        {
            let font = &self.fonts[i];
            let name_lower = to_lowercase_chars(font.name.as_str());
            let name_ok = contains_chars(&name_lower, &filter_lower);
            let kind_ok = match font.font_type {
                FontType::Outline => self.show_outline,
                FontType::Block => self.show_block,
                FontType::Color => self.show_color,
            };
            let ghost out_pre = out@;
            if name_ok && kind_ok {
                out.push(i);
            }
            proof {
                assert forall|j: int|
                    0 <= j < i + 1 && font_shown(
                        lower_of(#[trigger] self.fonts@[j].name@),
                        self.fonts@[j].font_type,
                        lower_of(self.filter@),
                        self.show_outline,
                        self.show_block,
                        self.show_color,
                    ) implies out@.contains(j as usize) by {
                    if j < i {
                        assert(out_pre.contains(j as usize));
                        let k = choose|k: int| 0 <= k < out_pre.len() && out_pre[k] == j as usize;
                        assert(out@[k] == j as usize);
                    } else {
                        assert(out@[out@.len() - 1] == i as usize);
                    }
                }
            }
            i = i + 1;
        }
        out
    }

    /// A click on a row highlights that font.
    pub fn click_row(&mut self, font_index: i32)
        ensures
            final(self).selected_font == font_index,
            final(self).do_select == old(self).do_select,
            final(self).fonts@ == old(self).fonts@,
    {
        self.selected_font = font_index;
    }

    /// A double click highlights the font and accepts the dialog.
    pub fn double_click_row(&mut self, font_index: i32)
        ensures
            final(self).selected_font == font_index,
            final(self).do_select,
            final(self).fonts@ == old(self).fonts@,
    {
        self.selected_font = font_index;
        self.do_select = true;
    }

    /// The select button accepts the dialog with the current highlight.
    pub fn press_select(&mut self)
        ensures
            final(self).do_select,
            final(self).selected_font == old(self).selected_font,
            final(self).fonts@ == old(self).fonts@,
    {
        self.do_select = true;
    }

    /// The clear button empties the filter text.
    pub fn clear_filter(&mut self)
        ensures
            final(self).filter@.len() == 0,
            final(self).selected_font == old(self).selected_font,
            final(self).fonts@ == old(self).fonts@,
    {
        self.filter = String::new();
    }
}

impl ModalDialog for SelectFontDialog {
    open spec fn wf(&self) -> bool {
        true
    }

    fn should_commit(&self) -> (r: bool)
        ensures
            r == self.do_select,
    {
        self.do_select
    }

    fn commit(&self, editor: &mut AnsiEditor) -> (r: TerminalResult<bool>)
        ensures
            r == TerminalResult::<bool>::Ok(true),
            *final(editor) == *old(editor),
    {
        Ok(true)
    }

    /// Accepting the browser hands the chosen font index to the window.
    fn commit_self(&self, window: &mut MainWindow) -> (r: TerminalResult<bool>)
        ensures
            r == TerminalResult::<bool>::Ok(true),
            *final(window) == (MainWindow { selected_font: self.selected_font, ..*old(window) }),
    {
        window.selected_font = self.selected_font;
        Ok(true)
    }
}

} // verus!
