use icy_draw::attribute::{AttributedChar, TextAttribute};
use icy_draw::editor::AnsiEditor;
use icy_draw::geometry::Position;
use icy_draw::tools::click_imp::ClickTool;
use icy_draw::tools::draw_rectangle_imp::DrawRectangleTool;
use icy_draw::tools::erase_imp::{EraseTool, EraseType};
use icy_draw::tools::pipette_imp::PipetteTool;
use icy_draw::tools::{
    DrawMode, MKey, MModifiers, SHADE_GRADIENT, Tool, handle_key, plot_point, set_half_block,
};

fn attr(fg: u32, bg: u32) -> TextAttribute {
    TextAttribute {
        foreground: fg,
        background: bg,
        font_page: 0,
    }
}

#[test]
fn modifier_predicates() {
    assert!(MModifiers::Shift.is_shift());
    assert!(!MModifiers::Shift.is_alt());
    assert!(MModifiers::Alt.is_alt());
    assert!(MModifiers::Control.is_control());
    assert!(!MModifiers::NoModifier.is_control());
}

#[test]
fn arrow_keys_move_the_caret() {
    let mut ed = AnsiEditor::new(8, 8);
    ed.set_caret(3, 3);
    handle_key(&mut ed, MKey::Down, MModifiers::NoModifier);
    assert_eq!(ed.get_caret_position(), Position::new(3, 4));
    handle_key(&mut ed, MKey::Right, MModifiers::NoModifier);
    assert_eq!(ed.get_caret_position(), Position::new(4, 4));
    handle_key(&mut ed, MKey::Up, MModifiers::NoModifier);
    handle_key(&mut ed, MKey::Left, MModifiers::NoModifier);
    assert_eq!(ed.get_caret_position(), Position::new(3, 3));
}

#[test]
fn control_arrows_cycle_colours() {
    let mut ed = AnsiEditor::new(8, 8);
    // Up with control steps the foreground forward modulo sixteen.
    handle_key(&mut ed, MKey::Up, MModifiers::Control);
    assert_eq!(ed.get_caret_attribute().foreground, 8);
    // Down steps it back (adds fourteen modulo sixteen... from 8 to 6).
    handle_key(&mut ed, MKey::Down, MModifiers::Control);
    assert_eq!(ed.get_caret_attribute().foreground, 6);
    // Right with control steps the background forward modulo eight.
    handle_key(&mut ed, MKey::Right, MModifiers::Control);
    assert_eq!(ed.get_caret_attribute().background, 1);
    handle_key(&mut ed, MKey::Left, MModifiers::Control);
    assert_eq!(ed.get_caret_attribute().background, 0);
}

#[test]
fn return_key_goes_to_line_start() {
    let mut ed = AnsiEditor::new(8, 8);
    ed.set_caret(5, 2);
    handle_key(&mut ed, MKey::Return, MModifiers::NoModifier);
    assert_eq!(ed.get_caret_position(), Position::new(0, 3));
}

#[test]
fn delete_key_pulls_the_row_left() {
    let mut ed = AnsiEditor::new(4, 2);
    for (i, ch) in ['a', 'b', 'c', 'd'].iter().enumerate() {
        ed.set_char(Position::new(i as i32, 0), AttributedChar::new(*ch, attr(7, 0)));
    }
    ed.set_caret(1, 0);
    handle_key(&mut ed, MKey::Delete, MModifiers::NoModifier);
    assert_eq!(ed.get_char_from_cur_layer(Position::new(1, 0)).ch, 'c');
    assert_eq!(ed.get_char_from_cur_layer(Position::new(2, 0)).ch, 'd');
    assert!(!ed.get_char_from_cur_layer(Position::new(3, 0)).is_visible());
}

#[test]
fn backspace_blanks_previous_cell() {
    let mut ed = AnsiEditor::new(4, 2);
    ed.type_key('h');
    ed.type_key('i');
    handle_key(&mut ed, MKey::Backspace, MModifiers::NoModifier);
    assert_eq!(ed.get_caret_position(), Position::new(1, 0));
    assert!(!ed.get_char_from_cur_layer(Position::new(1, 0)).is_visible());
    assert_eq!(ed.get_char_from_cur_layer(Position::new(0, 0)).ch, 'h');
}

#[test]
fn character_key_types_at_caret() {
    let mut ed = AnsiEditor::new(4, 2);
    handle_key(&mut ed, MKey::Character(65), MModifiers::NoModifier);
    assert_eq!(ed.get_char_from_cur_layer(Position::new(0, 0)).ch, 'A');
    assert_eq!(ed.get_caret_position(), Position::new(1, 0));
}

#[test]
fn function_keys_select_outline_styles() {
    let mut ed = AnsiEditor::new(4, 2);
    handle_key(&mut ed, MKey::F3, MModifiers::Control);
    assert_eq!(ed.cur_outline, 2);
    handle_key(&mut ed, MKey::F2, MModifiers::Shift);
    assert_eq!(ed.cur_outline, 11);
}

#[test]
fn function_key_types_outline_glyph() {
    let mut ed = AnsiEditor::new(4, 2);
    ed.outline_chars = vec![0xC9, 0xBB];
    handle_key(&mut ed, MKey::F2, MModifiers::NoModifier);
    assert_eq!(
        ed.get_char_from_cur_layer(Position::new(0, 0)).ch,
        '\u{00BB}'
    );
}

#[test]
fn insert_key_toggles_insert_mode() {
    let mut ed = AnsiEditor::new(4, 2);
    assert!(!ed.caret.insert_mode);
    handle_key(&mut ed, MKey::Insert, MModifiers::NoModifier);
    assert!(ed.caret.insert_mode);
}

#[test]
fn shade_gradient_lists_the_glyphs_in_order() {
    assert_eq!(SHADE_GRADIENT, ['\u{00B0}', '\u{00B1}', '\u{00B2}', '\u{00DB}']);
}

#[test]
fn plot_point_shade_steps_the_gradient() {
    let mut ed = AnsiEditor::new(4, 4);
    let tool = DrawRectangleTool {
        draw_mode: DrawMode::Shade,
        use_fore: true,
        use_back: false,
        attr: attr(7, 0),
        char_code: 'x',
    };
    let p = Position::new(1, 1);
    // An untouched cell starts on the lightest shade glyph.
    plot_point(&mut ed, &tool, p);
    assert_eq!(ed.get_overlay_char(p).unwrap().ch, '\u{00B0}');
    // A cell already showing a shade glyph steps one darker.
    ed.set_char(p, AttributedChar::new('\u{00B1}', attr(7, 0)));
    plot_point(&mut ed, &tool, p);
    assert_eq!(ed.get_overlay_char(p).unwrap().ch, '\u{00B2}');
}

#[test]
fn plot_point_char_uses_tool_glyph_and_colours() {
    let mut ed = AnsiEditor::new(4, 4);
    ed.set_caret_attribute(attr(12, 3));
    let tool = DrawRectangleTool {
        draw_mode: DrawMode::Char,
        use_fore: true,
        use_back: true,
        attr: attr(7, 0),
        char_code: 'Q',
    };
    let p = Position::new(2, 2);
    plot_point(&mut ed, &tool, p);
    let cell = ed.get_overlay_char(p).unwrap();
    assert_eq!(cell.ch, 'Q');
    assert_eq!(cell.attribute.foreground, 12);
    assert_eq!(cell.attribute.background, 3);
}

#[test]
fn half_blocks_merge_into_full_blocks() {
    let mut ed = AnsiEditor::new(4, 4);
    // Top half of cell (1, 0): half-block rows 0 and 1 share that cell.
    set_half_block(&mut ed, Position::new(1, 0), 4);
    assert_eq!(ed.get_overlay_char(Position::new(1, 0)).unwrap().ch, '\u{00DF}');
    set_half_block(&mut ed, Position::new(1, 1), 4);
    assert_eq!(ed.get_overlay_char(Position::new(1, 0)).unwrap().ch, '\u{00DB}');
}

#[test]
fn eraser_solid_blanks_square() {
    let mut ed = AnsiEditor::new(5, 5);
    for y in 0..5 {
        for x in 0..5 {
            ed.set_char(Position::new(x, y), AttributedChar::new('#', attr(7, 0)));
        }
    }
    let tool = EraseTool {
        size: 3,
        brush_type: EraseType::Solid,
        undo_op: None,
    };
    tool.eraser(&mut ed, Position::new(2, 2));
    // The three-by-three square around the centre is blanked to spaces.
    assert_eq!(ed.get_char_from_cur_layer(Position::new(1, 1)).ch, ' ');
    assert_eq!(ed.get_char_from_cur_layer(Position::new(3, 3)).ch, ' ');
    assert_eq!(ed.get_char_from_cur_layer(Position::new(0, 0)).ch, '#');
    assert_eq!(ed.get_char_from_cur_layer(Position::new(4, 4)).ch, '#');
}

#[test]
fn eraser_shade_steps_lighter() {
    let mut ed = AnsiEditor::new(3, 3);
    ed.set_char(Position::new(1, 1), AttributedChar::new('\u{00DB}', attr(7, 0)));
    ed.set_char(Position::new(0, 0), AttributedChar::new('Z', attr(7, 0)));
    let tool = EraseTool {
        size: 3,
        brush_type: EraseType::Shade,
        undo_op: None,
    };
    tool.eraser(&mut ed, Position::new(1, 1));
    // A full block steps one shade lighter; unrelated glyphs stay.
    assert_eq!(ed.get_char_from_cur_layer(Position::new(1, 1)).ch, '\u{00B2}');
    assert_eq!(ed.get_char_from_cur_layer(Position::new(0, 0)).ch, 'Z');
}

#[test]
fn eraser_size_is_clamped() {
    let mut tool = EraseTool {
        size: 3,
        brush_type: EraseType::Solid,
        undo_op: None,
    };
    tool.set_size(99);
    assert_eq!(tool.size, 20);
    tool.set_size(-5);
    assert_eq!(tool.size, 1);
}

#[test]
fn click_tool_places_caret_and_drops_selection() {
    let mut ed = AnsiEditor::new(8, 8);
    let mut tool = ClickTool {};
    tool.handle_click(&mut ed, 1, Position::new(5, 6));
    assert_eq!(ed.get_caret_position(), Position::new(5, 6));
    assert!(ed.get_selection().is_none());
}

#[test]
fn click_tool_drag_selects_spanned_rectangle() {
    let mut ed = AnsiEditor::new(8, 8);
    let mut tool = ClickTool {};
    ed.drag_pos.start = Position::new(5, 6);
    ed.drag_pos.cur = Position::new(2, 3);
    tool.handle_drag(&mut ed);
    let sel = ed.get_selection().unwrap();
    assert_eq!((sel.x, sel.y, sel.width, sel.height), (2, 3, 3, 3));
}

#[test]
fn pipette_picks_up_attribute() {
    let mut ed = AnsiEditor::new(4, 4);
    ed.set_char(Position::new(1, 1), AttributedChar::new('x', attr(9, 2)));
    let mut tool = PipetteTool {};
    tool.handle_click(&mut ed, 1, Position::new(1, 1));
    assert_eq!(ed.get_caret_attribute().foreground, 9);
    assert_eq!(ed.get_caret_attribute().background, 2);
}
