use icy_draw::animator::{Animator, MAX_FRAMES, ScriptBuffer, ScriptError};
use icy_draw::editor::AnsiEditor;
use icy_draw::geometry::Position;
use icy_draw::tools::draw_ellipse_imp::DrawEllipseTool;
use icy_draw::tools::draw_rectangle_imp::DrawRectangleTool;
use icy_draw::tools::{DrawMode, Tool};

#[test]
fn script_buffer_reports_its_shape() {
    let buf = ScriptBuffer::new(12, 7);
    assert_eq!(buf.get_width(), 12);
    assert_eq!(buf.get_height(), 7);
    assert_eq!(buf.layer_count(), 1);
}

#[test]
fn set_char_and_get_char_round_trip() {
    let mut buf = ScriptBuffer::new(6, 4);
    assert_eq!(buf.set_char(0, 2, 1, 'Q' as u32), Ok(()));
    assert_eq!(buf.get_char(0, 2, 1), Ok('Q' as u32));
    // Out-of-range layers are refused with the index and the count.
    assert_eq!(
        buf.set_char(3, 0, 0, 65),
        Err(ScriptError::LayerOutOfRange(3, 1))
    );
    assert_eq!(
        buf.get_char(9, 0, 0),
        Err(ScriptError::LayerOutOfRange(9, 1))
    );
}

#[test]
fn palette_reuses_existing_colours() {
    let mut buf = ScriptBuffer::new(4, 4);
    // White is already in the base palette at index fifteen.
    let white = buf.insert_color_rgb(255, 255, 255);
    assert_eq!(white, 15);
    let custom = buf.insert_color_rgb(1, 2, 3);
    assert_eq!(custom, 16);
    let again = buf.insert_color_rgb(1, 2, 3);
    assert_eq!(again, 16);
}

#[test]
fn set_fg_and_bg_update_the_caret() {
    let mut buf = ScriptBuffer::new(4, 4);
    buf.set_fg(255, 255, 255);
    assert_eq!(buf.caret.attribute.foreground, 15);
    buf.set_bg(0, 0, 170);
    assert_eq!(buf.caret.attribute.background, 1);
}

#[test]
fn print_writes_a_row() {
    let mut buf = ScriptBuffer::new(8, 3);
    let text: Vec<char> = "hey".chars().collect();
    assert_eq!(buf.print(0, 2, 1, &text), Ok(()));
    assert_eq!(buf.get_char(0, 2, 1), Ok('h' as u32));
    assert_eq!(buf.get_char(0, 3, 1), Ok('e' as u32));
    assert_eq!(buf.get_char(0, 4, 1), Ok('y' as u32));
    assert_eq!(
        buf.print(1, 0, 0, &text),
        Err(ScriptError::LayerOutOfRange(1, 1))
    );
}

#[test]
fn layer_position_and_visibility() {
    let mut buf = ScriptBuffer::new(4, 4);
    assert_eq!(buf.set_layer_position(0, 3, -2), Ok(()));
    assert_eq!(buf.get_layer_position(0), Ok((3, -2)));
    assert_eq!(buf.get_layer_visible(0), Ok(true));
    assert_eq!(buf.set_layer_visible(0, false), Ok(()));
    assert_eq!(buf.get_layer_visible(0), Ok(false));
    assert!(buf.set_layer_visible(-1, true).is_err());
}

#[test]
fn resizing_keeps_shared_cells() {
    let mut buf = ScriptBuffer::new(4, 4);
    buf.set_char(0, 1, 1, 'k' as u32).unwrap();
    buf.set_char(0, 3, 3, 'z' as u32).unwrap();
    buf.set_width(3);
    assert_eq!(buf.get_width(), 3);
    assert_eq!(buf.get_height(), 4);
    assert_eq!(buf.get_char(0, 1, 1), Ok('k' as u32));
    buf.set_height(6);
    assert_eq!(buf.get_height(), 6);
    assert_eq!(buf.get_char(0, 1, 1), Ok('k' as u32));
    // The column that was cut away stays blank after growing back.
    buf.set_width(5);
    assert_eq!(buf.get_char(0, 3, 3), Ok(0));
}

#[test]
fn preview_caret_advances_by_glyph_and_spacing() {
    let pos = icy_draw::dialogs::select_font_dialog::advance_caret(
        icy_draw::geometry::Position::new(4, 2),
        6,
        1,
    );
    assert_eq!(pos, icy_draw::geometry::Position::new(11, 2));
}

#[test]
fn clear_resets_the_buffer() {
    let mut buf = ScriptBuffer::new(5, 5);
    buf.set_char(0, 1, 1, 'x' as u32).unwrap();
    buf.clear();
    assert_eq!(buf.get_width(), 5);
    assert_eq!(buf.get_char(0, 1, 1), Ok(0));
}

#[test]
fn animator_collects_frames_and_numbers_them() {
    let mut animator = Animator::new();
    assert_eq!(animator.cur_frame(), 1);
    let mut buf = ScriptBuffer::new(3, 3);
    buf.set_char(0, 0, 0, 'a' as u32).unwrap();
    animator.next_frame(&buf).unwrap();
    assert_eq!(animator.cur_frame(), 2);
    // The frame is a copy: later edits do not change it.
    buf.set_char(0, 0, 0, 'b' as u32).unwrap();
    assert_eq!(animator.frames[0].get_char(0, 0, 0), Ok('a' as u32));
}

#[test]
fn animator_refuses_frames_past_the_limit() {
    let mut animator = Animator::new();
    let buf = ScriptBuffer::new(1, 1);
    for _ in 0..(MAX_FRAMES + 1) {
        assert_eq!(animator.next_frame(&buf), Ok(()));
    }
    assert_eq!(animator.next_frame(&buf), Err(ScriptError::TooManyFrames));
}

#[test]
fn rectangle_drag_paints_half_block_outline() {
    let mut ed = AnsiEditor::new(10, 10);
    let mut tool = DrawRectangleTool {
        draw_mode: DrawMode::Char,
        use_fore: true,
        use_back: false,
        attr: icy_draw::attribute::TextAttribute {
            foreground: 7,
            background: 0,
            font_page: 0,
        },
        char_code: 'x',
    };
    // In character mode the drag coordinates stay in cell space: a drag
    // from (1, 1) to (4, 3) paints the perimeter of that rectangle.
    ed.drag_pos.start = Position::new(1, 1);
    ed.drag_pos.cur = Position::new(4, 3);
    tool.handle_drag(&mut ed);
    // Cell (2, 0) holds half-block row 1: the rectangle's top edge is the
    // bottom half of that cell.
    let top = ed.get_overlay_char(Position::new(2, 0)).unwrap();
    assert_eq!(top.ch, '\u{00DC}');
    assert_eq!(top.attribute.foreground, 7);
    // Below the rectangle nothing is painted.
    assert!(ed.get_overlay_char(Position::new(2, 2)).is_none());
    assert!(ed.get_overlay_char(Position::new(0, 0)).is_none());
    // The left edge covers both halves of cell (1, 1): a full block.
    assert_eq!(ed.get_overlay_char(Position::new(1, 1)).unwrap().ch, '\u{00DB}');
    // Ending the drag commits the preview and records an undo step.
    tool.handle_drag_end(&mut ed);
    assert!(ed.get_overlay_char(Position::new(2, 0)).is_none());
    assert_eq!(ed.get_char_from_cur_layer(Position::new(2, 0)).ch, '\u{00DC}');
    assert_eq!(ed.undo_stack.len(), 1);
}

#[test]
fn ellipse_drag_paints_half_block_outline() {
    let mut ed = AnsiEditor::new(10, 10);
    let mut tool = DrawEllipseTool::default();
    tool.draw_mode = DrawMode::Char;
    // A drag over a five-by-five square inscribes an ellipse; in character
    // mode the half-block rows are the drag rows themselves.
    ed.drag_pos.start = Position::new(0, 0);
    ed.drag_pos.cur = Position::new(4, 4);
    tool.handle_drag(&mut ed);
    // The topmost ellipse cell is the centre of the first half-block row.
    assert_eq!(ed.get_overlay_char(Position::new(2, 0)).unwrap().ch, '\u{00DF}');
    // The leftmost cell sits on half-block row two: the top of cell (0, 1).
    assert_eq!(ed.get_overlay_char(Position::new(0, 1)).unwrap().ch, '\u{00DF}');
    // The inside of the ellipse stays clear.
    assert!(ed.get_overlay_char(Position::new(2, 1)).is_none());
}
