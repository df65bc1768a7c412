use icy_draw::attribute::{AttributedChar, TextAttribute};
use icy_draw::editor::{AnsiEditor, Selection};
use icy_draw::geometry::Position;

fn attr(fg: u32, bg: u32) -> TextAttribute {
    TextAttribute {
        foreground: fg,
        background: bg,
        font_page: 0,
    }
}

#[test]
fn new_editor_is_blank() {
    let ed = AnsiEditor::new(10, 5);
    assert_eq!(ed.get_width(), 10);
    assert_eq!(ed.get_height(), 5);
    let c = ed.get_char_from_cur_layer(Position::new(3, 2));
    assert!(!c.is_visible());
    assert_eq!(ed.get_caret_position(), Position::new(0, 0));
    assert_eq!(ed.layers.len(), 1);
}

#[test]
fn set_caret_clamps_to_buffer() {
    let mut ed = AnsiEditor::new(10, 5);
    ed.set_caret(20, -3);
    assert_eq!(ed.get_caret_position(), Position::new(9, 0));
    ed.set_caret(-1, 99);
    assert_eq!(ed.get_caret_position(), Position::new(0, 4));
}

#[test]
fn set_char_outside_is_ignored() {
    let mut ed = AnsiEditor::new(4, 4);
    ed.set_char(Position::new(-1, 2), AttributedChar::new('x', attr(7, 0)));
    ed.set_char(Position::new(2, 2), AttributedChar::new('y', attr(7, 0)));
    assert!(!ed.get_char_from_cur_layer(Position::new(0, 2)).is_visible());
    assert_eq!(ed.get_char_from_cur_layer(Position::new(2, 2)).ch, 'y');
}

#[test]
fn delete_selection_blanks_rectangle() {
    let mut ed = AnsiEditor::new(6, 4);
    for x in 0..6 {
        ed.set_char(Position::new(x, 1), AttributedChar::new('#', attr(7, 0)));
    }
    ed.set_selection(Selection::from_rectangle(1, 0, 2, 3));
    ed.delete_selection();
    assert!(ed.get_selection().is_none());
    assert_eq!(ed.get_char_from_cur_layer(Position::new(0, 1)).ch, '#');
    assert!(!ed.get_char_from_cur_layer(Position::new(1, 1)).is_visible());
    assert!(!ed.get_char_from_cur_layer(Position::new(2, 1)).is_visible());
    assert_eq!(ed.get_char_from_cur_layer(Position::new(3, 1)).ch, '#');
}

#[test]
fn type_key_overwrites_and_advances() {
    let mut ed = AnsiEditor::new(5, 3);
    ed.type_key('a');
    ed.type_key('b');
    assert_eq!(ed.get_char_from_cur_layer(Position::new(0, 0)).ch, 'a');
    assert_eq!(ed.get_char_from_cur_layer(Position::new(1, 0)).ch, 'b');
    assert_eq!(ed.get_caret_position(), Position::new(2, 0));
}

#[test]
fn type_key_insert_mode_shifts_row() {
    let mut ed = AnsiEditor::new(5, 1);
    ed.type_key('a');
    ed.type_key('b');
    ed.set_caret(0, 0);
    ed.caret.insert_mode = true;
    ed.type_key('x');
    assert_eq!(ed.get_char_from_cur_layer(Position::new(0, 0)).ch, 'x');
    assert_eq!(ed.get_char_from_cur_layer(Position::new(1, 0)).ch, 'a');
    assert_eq!(ed.get_char_from_cur_layer(Position::new(2, 0)).ch, 'b');
}

#[test]
fn shift_row_left_drops_first_and_blanks_last() {
    let mut ed = AnsiEditor::new(4, 2);
    for (i, ch) in ['a', 'b', 'c', 'd'].iter().enumerate() {
        ed.set_char(Position::new(i as i32, 0), AttributedChar::new(*ch, attr(7, 0)));
    }
    ed.shift_row_left_from(1, 0);
    assert_eq!(ed.get_char_from_cur_layer(Position::new(0, 0)).ch, 'a');
    assert_eq!(ed.get_char_from_cur_layer(Position::new(1, 0)).ch, 'c');
    assert_eq!(ed.get_char_from_cur_layer(Position::new(2, 0)).ch, 'd');
    assert!(!ed.get_char_from_cur_layer(Position::new(3, 0)).is_visible());
}

#[test]
fn undo_and_redo_move_descriptions() {
    let mut ed = AnsiEditor::new(4, 4);
    let g = ed.begin_atomic_undo("first".to_owned());
    assert_eq!(g, "first");
    ed.begin_atomic_undo("second".to_owned());
    assert_eq!(ed.undo_stack.len(), 2);
    ed.undo();
    assert_eq!(ed.undo_stack.len(), 1);
    assert_eq!(ed.redo_stack.len(), 1);
    assert_eq!(ed.redo_stack[0], "second");
    ed.redo();
    assert_eq!(ed.undo_stack.len(), 2);
    assert_eq!(ed.redo_stack.len(), 0);
}

#[test]
fn overlay_join_commits_painted_cells() {
    let mut ed = AnsiEditor::new(4, 4);
    ed.set_overlay_char(Position::new(1, 1), AttributedChar::new('@', attr(3, 0)));
    // The layer still shows through everywhere else.
    assert_eq!(ed.get_char(Position::new(1, 1)).ch, '@');
    assert!(!ed.get_char_from_cur_layer(Position::new(1, 1)).is_visible());
    ed.join_overlay("paint".to_owned());
    assert_eq!(ed.get_char_from_cur_layer(Position::new(1, 1)).ch, '@');
    assert!(ed.get_overlay_char(Position::new(1, 1)).is_none());
    assert_eq!(ed.undo_stack.len(), 1);
}

#[test]
fn remove_overlay_discards_preview() {
    let mut ed = AnsiEditor::new(4, 4);
    ed.set_overlay_char(Position::new(2, 2), AttributedChar::new('@', attr(3, 0)));
    ed.remove_overlay();
    assert!(ed.get_overlay_char(Position::new(2, 2)).is_none());
    assert!(!ed.get_char_from_cur_layer(Position::new(2, 2)).is_visible());
}

#[test]
fn outline_char_codes_are_looked_up() {
    let mut ed = AnsiEditor::new(4, 4);
    ed.outline_chars = vec![0x40, 0x41];
    assert_eq!(ed.get_outline_char_code(1), Ok(0x41));
    assert!(ed.get_outline_char_code(2).is_err());
}
