use icy_draw::dialogs::ModalDialog;
use icy_draw::dialogs::save_file_dialog::SaveFileDialog;
use icy_draw::dialogs::select_font_dialog::{
    FontInfo, FontType, SelectFontDialog, contains_chars,
};
use icy_draw::docking::{DockingContainer, TabBehavior, Tile, add_child};
use icy_draw::document::{
    ClipboardHandler, Document, DocumentOptions, EditorDoc, UndoHandler,
};
use icy_draw::messages::{DialogRequest, MainAction, MainWindow, Message};

fn doc(title: &str) -> EditorDoc {
    EditorDoc::new(title.to_owned(), 8, 4)
}

fn window_with_doc(path: Option<&str>) -> MainWindow {
    let mut w = MainWindow::new();
    add_child(&mut w.tree, path.map(|p| p.to_owned()), doc("one"));
    w
}

fn chars(s: &str) -> Vec<char> {
    s.chars().collect()
}

#[test]
fn add_child_grows_root_then_tabs() {
    let mut tree = DockingContainer::new();
    add_child(&mut tree, None, doc("a"));
    // The first document becomes the root pane.
    assert_eq!(tree.root, Some(0));
    assert!(matches!(tree.tiles[0], Tile::Pane(_)));
    add_child(&mut tree, None, doc("b"));
    // The second wraps both panes into a tab container.
    assert_eq!(tree.root, Some(2));
    match &tree.tiles[2] {
        Tile::Tabs(t) => {
            assert_eq!(t.children, vec![1, 0]);
            assert_eq!(t.active, Some(1));
        }
        _ => panic!("expected a tab container at the root"),
    }
    add_child(&mut tree, None, doc("c"));
    // Later documents join the container and become active.
    assert_eq!(tree.root, Some(2));
    match &tree.tiles[2] {
        Tile::Tabs(t) => {
            assert_eq!(t.children, vec![1, 0, 3]);
            assert_eq!(t.active, Some(3));
        }
        _ => panic!("expected a tab container at the root"),
    }
    assert_eq!(tree.active_pane(), Some(3));
}

#[test]
fn tab_title_stars_dirty_documents() {
    let mut tree = DockingContainer::new();
    add_child(&mut tree, None, doc("art"));
    let mut behavior = TabBehavior {
        selected_tool: 0,
        document_options: DocumentOptions::new(),
        request_close: None,
    };
    match &mut tree.tiles[0] {
        Tile::Pane(tab) => {
            assert_eq!(behavior.tab_title_for_pane(tab), "art");
            tab.doc.dirty = true;
            assert_eq!(behavior.tab_title_for_pane(tab), "art*");
        }
        _ => panic!("expected a pane"),
    }
    behavior.on_close_requested(7);
    assert_eq!(behavior.request_close, Some(7));
    assert!(behavior.simplification_options().all_panes_must_have_tabs);
}

#[test]
fn document_options_clamp_scale() {
    let mut options = DocumentOptions::new();
    assert_eq!(options.get_scale(), (200, 200));
    options.set_scale(10_000, 10);
    assert_eq!(options.get_scale(), (500, 50));
}

#[test]
fn dialog_messages_record_requests() {
    let mut w = MainWindow::new();
    assert_eq!(w.handle_message(Some(Message::NewFile)), None);
    assert!(matches!(w.dialog, Some(DialogRequest::NewFile)));
    w.handle_message(Some(Message::ShowAboutDialog));
    assert!(matches!(w.dialog, Some(DialogRequest::About)));
    // Without a document, save-as does nothing.
    w.dialog = None;
    w.handle_message(Some(Message::SaveFileAs));
    assert!(w.dialog.is_none());
}

#[test]
fn save_file_uses_native_extension() {
    let mut w = window_with_doc(Some("painting.icd"));
    let action = w.handle_message(Some(Message::SaveFile));
    match action {
        Some(MainAction::SaveDocument(p)) => assert_eq!(p, "painting.icd"),
        _ => panic!("expected a save action"),
    }
    // A foreign extension goes through the save-as dialog instead.
    let mut w2 = window_with_doc(Some("painting.ans"));
    let action2 = w2.handle_message(Some(Message::SaveFile));
    assert!(action2.is_none());
    assert!(matches!(w2.dialog, Some(DialogRequest::SaveFileAs)));
}

#[test]
fn undo_message_moves_descriptions_and_redraws() {
    let mut w = window_with_doc(None);
    match &mut w.tree.tiles[0] {
        Tile::Pane(tab) => {
            tab.doc.editor.begin_atomic_undo("paint".to_owned());
        }
        _ => panic!("expected a pane"),
    }
    let action = w.handle_message(Some(Message::Undo));
    assert!(matches!(action, Some(MainAction::RedrawView)));
    match &w.tree.tiles[0] {
        Tile::Pane(tab) => {
            assert_eq!(tab.doc.editor.undo_stack.len(), 0);
            assert_eq!(tab.doc.editor.redo_stack, vec!["paint"]);
        }
        _ => panic!("expected a pane"),
    }
}

#[test]
fn layer_messages_update_the_stack() {
    let mut w = window_with_doc(None);
    w.handle_message(Some(Message::NewLayer));
    w.handle_message(Some(Message::NewLayer));
    match &w.tree.tiles[0] {
        Tile::Pane(tab) => {
            assert_eq!(tab.doc.editor.layers.len(), 3);
            assert_eq!(tab.doc.editor.layers[0].name, "New Layer");
            assert!(tab.doc.editor.layers[0].has_alpha_channel);
            assert_eq!(tab.doc.editor.layers[2].name, "Background");
        }
        _ => panic!("expected a pane"),
    }
    w.handle_message(Some(Message::SelectLayer(1)));
    w.handle_message(Some(Message::MoveLayerUp(1)));
    match &w.tree.tiles[0] {
        Tile::Pane(tab) => {
            assert_eq!(tab.doc.editor.cur_layer, 0);
        }
        _ => panic!("expected a pane"),
    }
    w.handle_message(Some(Message::ToggleVisibility(0)));
    match &w.tree.tiles[0] {
        Tile::Pane(tab) => {
            assert!(!tab.doc.editor.layers[0].is_visible);
        }
        _ => panic!("expected a pane"),
    }
    w.handle_message(Some(Message::DeleteLayer(0)));
    match &w.tree.tiles[0] {
        Tile::Pane(tab) => {
            assert_eq!(tab.doc.editor.layers.len(), 2);
        }
        _ => panic!("expected a pane"),
    }
}

#[test]
fn show_error_queues_a_toast() {
    let mut w = MainWindow::new();
    w.handle_message(Some(Message::ShowError("out of ink".to_owned())));
    assert_eq!(w.toasts, vec!["out of ink"]);
}

#[test]
fn set_font_page_requests_missing_fonts() {
    let mut w = window_with_doc(None);
    // Page zero is loaded from the start; another page must be fetched.
    assert!(w.handle_message(Some(Message::SetFontPage(0))).is_none());
    let action = w.handle_message(Some(Message::SetFontPage(3)));
    assert!(matches!(action, Some(MainAction::LoadFont(3))));
    match &w.tree.tiles[0] {
        Tile::Pane(tab) => assert_eq!(tab.doc.editor.caret.attribute.font_page, 3),
        _ => panic!("expected a pane"),
    }
}

#[test]
fn editor_doc_implements_undo_and_clipboard() {
    let mut d = doc("art");
    assert!(!d.can_undo());
    assert!(d.undo_description().is_none());
    d.editor.begin_atomic_undo("stroke".to_owned());
    assert!(d.can_undo());
    assert_eq!(d.undo_description(), Some("stroke".to_owned()));
    assert_eq!(d.undo_stack_len(), 1);
    assert!(!d.can_cut());
    d.editor
        .set_selection(icy_draw::editor::Selection::from_rectangle(0, 0, 2, 2));
    assert!(d.can_cut());
    assert!(d.cut().is_ok());
    assert!(d.editor.selection.is_none());
    assert_eq!(d.default_extension(), "icd");
    d.dirty = true;
    d.inform_save();
    assert!(!d.dirty);
}

#[test]
fn contains_chars_finds_substrings() {
    assert!(contains_chars(&chars("hello world"), &chars("lo wo")));
    assert!(contains_chars(&chars("abc"), &chars("")));
    assert!(!contains_chars(&chars("abc"), &chars("abd")));
    assert!(!contains_chars(&chars("ab"), &chars("abc")));
}

#[test]
fn font_filter_is_case_insensitive() {
    let fonts = vec![
        FontInfo {
            name: "COLOR Giant".to_owned(),
            font_type: FontType::Color,
            glyphs: vec![b'H'],
        },
        FontInfo {
            name: "block small".to_owned(),
            font_type: FontType::Block,
            glyphs: vec![],
        },
        FontInfo {
            name: "Outline Grand".to_owned(),
            font_type: FontType::Outline,
            glyphs: vec![b'H'],
        },
    ];
    let mut dialog = SelectFontDialog::new(fonts, 0);
    assert_eq!(dialog.filtered_fonts(), vec![0, 1, 2]);
    // The filter matches regardless of case: this exercises lower-casing
    // on both the needle and the names.
    dialog.filter = "GIANT".to_owned();
    assert_eq!(dialog.filtered_fonts(), vec![0]);
    dialog.filter = "o".to_owned();
    dialog.show_color = false;
    assert_eq!(dialog.filtered_fonts(), vec![1, 2]);
}

#[test]
fn font_dialog_selection_flow() {
    let fonts = vec![FontInfo {
        name: "one".to_owned(),
        font_type: FontType::Block,
        glyphs: vec![],
    }];
    let mut dialog = SelectFontDialog::new(fonts, 0);
    assert!(!dialog.should_commit());
    dialog.click_row(0);
    assert!(!dialog.do_select);
    dialog.double_click_row(0);
    assert!(dialog.should_commit());
    let mut w = MainWindow::new();
    assert!(dialog.commit_self(&mut w).is_ok());
    assert_eq!(w.selected_font, 0);
}

#[test]
fn font_sample_follows_glyph_set() {
    let upper = FontInfo {
        name: "u".to_owned(),
        font_type: FontType::Block,
        glyphs: vec![b'H'],
    };
    let lower = FontInfo {
        name: "l".to_owned(),
        font_type: FontType::Block,
        glyphs: vec![b'x'],
    };
    assert_eq!(upper.sample_text(), "HELLO");
    assert_eq!(lower.sample_text(), "hello");
}

#[test]
fn save_dialog_records_path_on_commit() {
    let mut dialog = SaveFileDialog::default();
    assert!(!dialog.should_commit());
    assert!(dialog.file_selected("art.icd".to_owned()));
    assert!(dialog.should_commit());
    let mut w = window_with_doc(None);
    assert!(dialog.commit_self(&mut w).is_ok());
    match &w.tree.tiles[0] {
        Tile::Pane(tab) => assert_eq!(tab.full_path.as_deref(), Some("art.icd")),
        _ => panic!("expected a pane"),
    }
}
