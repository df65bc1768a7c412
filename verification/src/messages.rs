//! The window's message dispatcher.
//!
//! Menu entries, shortcuts and panels hand a `Message` to the window; the
//! dispatcher mutates the window and its active document and, where work
//! belongs outside — writing a file, loading a font, redrawing the view —
//! hands back a `MainAction` for the caller to perform.  Dialogs are opened
//! by recording a `DialogRequest`; the shell shows the matching widgets.
use vstd::prelude::*;

use crate::dialogs::select_font_dialog::FontInfo;
use crate::docking::DockingContainer;
use crate::docking::Tab;
use crate::docking::Tile;
use crate::editor::AnsiEditor;
use crate::editor::Layer;
use crate::editor::Selection;

verus! {

/// What the user asked the window to do.
pub enum Message {
    NewFile,
    OpenFile,
    SaveFile,
    SaveFileAs,
    ExportFile,
    ShowOutlineDialog,
    NewLayer,
    EditLayer(usize),
    DeleteLayer(usize),
    MoveLayerUp(usize),
    MoveLayerDown(usize),
    ToggleVisibility(usize),
    SelectLayer(usize),
    Undo,
    Redo,
    EditSauce,
    SetCanvasSize,
    SelectAll,
    Deselect,
    DeleteSelection,
    ShowAboutDialog,
    ShowCharacterSelectionDialog(char),
    SelectFontDialog(Vec<FontInfo>, i32),
    ShowError(String),
    SetFontPage(usize),
}

/// A dialog the window was asked to open; the shell draws it.
pub enum DialogRequest {
    NewFile,
    OpenFile,
    SaveFileAs,
    ExportFile,
    SelectOutline,
    About,
    EditSauce,
    SetCanvasSize,
    CharacterSelection(char),
    SelectFont(Vec<FontInfo>, i32),
    EditLayer(usize),
}

/// Work the dispatcher hands back to the caller.
#[derive(Debug, PartialEq)]
pub enum MainAction {
    /// Write the active document to this path.
    SaveDocument(String),
    /// Repaint the terminal view.
    RedrawView,
    /// Load the built-in font for this page and register it.
    LoadFont(usize),
}

/// The extension `std::path::Path` reports for a path.  Relied on below;
/// the result depends on the path's characters alone.
pub uninterp spec fn path_extension_of(s: Seq<char>) -> Option<Seq<char>>;

/// Relies on std::path::Path::extension: the extension of a path is a
/// function of its characters.
#[verifier::external_body]
fn path_extension(path: &str) -> (r: Option<String>)
    ensures
        match r {
            Some(e) => path_extension_of(path@) == Some(e@),
            None => path_extension_of(path@) is None,
        },
{
    std::path::Path::new(path).extension().and_then(|e| e.to_str()).map(|e| e.to_string())
}

/// Whether `page` is among the loaded font pages.
fn contains_page(pages: &Vec<usize>, page: usize) -> (r: bool)
    ensures
        r == pages@.contains(page),
{
    let n = pages.len();
    let mut i: usize = 0;
    while i < n
        invariant
            i <= n,
            n == pages@.len(),
            forall|j: int| 0 <= j < i ==> pages@[j] != page,
        decreases n - i,
    {
        if pages[i] == page {
            return true;
        }
        i = i + 1;
    }
    false
}

/// The main window: the docking tree of open documents, the queued toasts,
/// the dialog the shell should open, and the font choice the font browser
/// hands back.
pub struct MainWindow {
    pub tree: DockingContainer,
    pub toasts: Vec<String>,
    pub dialog: Option<DialogRequest>,
    pub selected_font: i32,
}

/// Undoing on an editor: the newest recorded operation moves to the redo
/// stack; the grids themselves are the engine's to restore.
pub open spec fn editor_undone(a: AnsiEditor, b: AnsiEditor) -> bool {
    &&& b.layer == a.layer
    &&& b.overlay == a.overlay
    &&& AnsiEditor::same_ui(b, a)
    &&& (a.undo_stack@.len() == 0 ==> AnsiEditor::same_undo(b, a))
    &&& (a.undo_stack@.len() > 0 ==> b.undo_stack@ == a.undo_stack@.drop_last()
        && b.redo_stack@ == a.redo_stack@.push(a.undo_stack@.last()))
}

/// Redoing on an editor: the inverse move.
pub open spec fn editor_redone(a: AnsiEditor, b: AnsiEditor) -> bool {
    &&& b.layer == a.layer
    &&& b.overlay == a.overlay
    &&& AnsiEditor::same_ui(b, a)
    &&& (a.redo_stack@.len() == 0 ==> AnsiEditor::same_undo(b, a))
    &&& (a.redo_stack@.len() > 0 ==> b.redo_stack@ == a.redo_stack@.drop_last()
        && b.undo_stack@ == a.undo_stack@.push(a.redo_stack@.last()))
}

impl MainWindow {
    /// Every pane of the tree holds a well-formed editor.
    pub open spec fn wf(self) -> bool {
        forall|i: int|
            0 <= i < self.tree.tiles@.len() ==> ((#[trigger] self.tree.tiles@[i]) matches
                Tile::Pane(t) ==> t.doc.editor.wf())
    }

    /// The slot of the pane the user is looking at.
    pub open spec fn active_idx(self) -> Option<int> {
        self.tree.active_pane_spec()
    }

    /// The tab in that slot.
    pub open spec fn active_tab(self) -> Tab {
        self.tree.tiles@[self.active_idx()->0]->Pane_0
    }

    /// The editor of the active document.
    pub open spec fn active_editor(self) -> AnsiEditor {
        self.active_tab().doc.editor
    }

    /// A window with no documents, no toasts and no dialog open.
    pub fn new() -> (r: MainWindow)
        ensures
            r.wf(),
            r.tree.tiles@.len() == 0,
            r.tree.root is None,
            r.toasts@.len() == 0,
            r.dialog is None,
            r.selected_font == 0,
    {
        MainWindow {
            tree: DockingContainer::new(),
            toasts: Vec::new(),
            dialog: None,
            selected_font: 0,
        }
    }

    /// Only the active pane's document changed; the rest of the window and
    /// of the tree is as before, and the tab keeps its path, title and
    /// dirty flag.
    pub open spec fn same_but_active_doc(a: MainWindow, b: MainWindow) -> bool {
        &&& a.active_idx() is Some
        &&& b.active_idx() == a.active_idx()
        &&& b.tree.root == a.tree.root
        &&& b.tree.tiles@.len() == a.tree.tiles@.len()
        &&& (forall|i: int|
            0 <= i < a.tree.tiles@.len() && i != a.active_idx()->0 ==> #[trigger] b.tree.tiles@[i]
                == a.tree.tiles@[i])
        &&& (b.tree.tiles@[a.active_idx()->0] matches Tile::Pane(tb) && {
            &&& a.tree.tiles@[a.active_idx()->0] matches Tile::Pane(ta)
            &&& tb.full_path == ta.full_path
            &&& tb.doc.title@ == ta.doc.title@
            &&& tb.doc.dirty == ta.doc.dirty
        })
        &&& b.toasts@ == a.toasts@
        &&& b.dialog == a.dialog
        &&& b.selected_font == a.selected_font
    }

    /// The window with a dialog request recorded.
    pub open spec fn with_dialog(a: MainWindow, d: DialogRequest) -> MainWindow {
        MainWindow { dialog: Some(d), ..a }
    }

    /// The editor changed only in its layer stack and layer selection.
    pub open spec fn editor_same_but_layers(a: AnsiEditor, b: AnsiEditor) -> bool {
        b == (AnsiEditor { layers: b.layers, cur_layer: b.cur_layer, ..a })
    }

    /// What handling each message does; the dispatcher's contract matches
    /// on the message and relates the new window to the old one.
    pub open spec fn message_effect(
        a: MainWindow,
        b: MainWindow,
        msg_opt: Option<Message>,
        r: Option<MainAction>,
    ) -> bool {
        match msg_opt {
            None => b == a && r is None,
            Some(msg) => match msg {
                Message::NewFile => b == Self::with_dialog(a, DialogRequest::NewFile) && r is None,
                Message::OpenFile => b == Self::with_dialog(a, DialogRequest::OpenFile)
                    && r is None,
                Message::ShowOutlineDialog => b == Self::with_dialog(
                    a,
                    DialogRequest::SelectOutline,
                ) && r is None,
                Message::ShowAboutDialog => b == Self::with_dialog(a, DialogRequest::About)
                    && r is None,
                Message::ExportFile => b == Self::with_dialog(a, DialogRequest::ExportFile)
                    && r is None,
                Message::EditSauce => b == Self::with_dialog(a, DialogRequest::EditSauce)
                    && r is None,
                Message::SetCanvasSize => b == Self::with_dialog(a, DialogRequest::SetCanvasSize)
                    && r is None,
                Message::EditLayer(i) => b == Self::with_dialog(a, DialogRequest::EditLayer(i))
                    && r is None,
                Message::SelectFontDialog(fonts, sel) => b == Self::with_dialog(
                    a,
                    DialogRequest::SelectFont(fonts, sel),
                ) && r is None,
                Message::ShowCharacterSelectionDialog(ch) => if a.active_idx() is Some {
                    b == Self::with_dialog(a, DialogRequest::CharacterSelection(ch)) && r is None
                } else {
                    b == a && r is None
                },
                Message::SaveFileAs => if a.active_idx() is Some {
                    b == Self::with_dialog(a, DialogRequest::SaveFileAs) && r is None
                } else {
                    b == a && r is None
                },
                Message::SaveFile => if a.active_idx() is Some {
                    match a.active_tab().full_path {
                        Some(p) => if path_extension_of(p@) == Some("icd"@) {
                            b == a && (r matches Some(MainAction::SaveDocument(s)) && s@ == p@)
                        } else {
                            b == Self::with_dialog(a, DialogRequest::SaveFileAs) && r is None
                        },
                        None => b == Self::with_dialog(a, DialogRequest::SaveFileAs) && r is None,
                    }
                } else {
                    b == a && r is None
                },
                Message::Undo => if a.active_idx() is Some {
                    Self::same_but_active_doc(a, b) && editor_undone(
                        a.active_editor(),
                        b.active_editor(),
                    ) && r matches Some(MainAction::RedrawView)
                } else {
                    b == a && r is None
                },
                Message::Redo => if a.active_idx() is Some {
                    Self::same_but_active_doc(a, b) && editor_redone(
                        a.active_editor(),
                        b.active_editor(),
                    ) && r matches Some(MainAction::RedrawView)
                } else {
                    b == a && r is None
                },
                Message::SelectAll => if a.active_idx() is Some {
                    Self::same_but_active_doc(a, b) && b.active_editor() == (AnsiEditor {
                        selection: Some(
                            Selection {
                                x: 0,
                                y: 0,
                                width: a.active_editor().width() as i32,
                                height: a.active_editor().height() as i32,
                            },
                        ),
                        ..a.active_editor()
                    }) && r is None
                } else {
                    b == a && r is None
                },
                Message::Deselect => if a.active_idx() is Some {
                    Self::same_but_active_doc(a, b) && b.active_editor() == (AnsiEditor {
                        selection: None,
                        ..a.active_editor()
                    }) && r matches Some(MainAction::RedrawView)
                } else {
                    b == a && r is None
                },
                Message::DeleteSelection => if a.active_idx() is Some
                    && a.active_editor().selection is Some {
                    &&& Self::same_but_active_doc(a, b)
                    &&& b.active_editor().selection is None
                    &&& b.active_editor().overlay == a.active_editor().overlay
                    &&& AnsiEditor::same_undo(b.active_editor(), a.active_editor())
                    &&& b.active_editor().caret == a.active_editor().caret
                    &&& (forall|x: int, y: int|
                        0 <= x < a.active_editor().width() && 0 <= y < a.active_editor().height()
                            ==> #[trigger] b.active_editor().layer.cell(x, y) == if a.active_editor().selection matches Some(s)
                            && s.contains(x, y) {
                            crate::attribute::AttributedChar::invisible()
                        } else {
                            a.active_editor().layer.cell(x, y)
                        })
                    &&& r matches Some(MainAction::RedrawView)
                } else {
                    b == a && r is None
                },
                Message::NewLayer => {
                    &&& Self::same_but_active_doc(a, b)
                    &&& Self::editor_same_but_layers(a.active_editor(), b.active_editor())
                    &&& b.active_editor().layers@.len() == a.active_editor().layers@.len() + 1
                    &&& b.active_editor().layers@[0].name@ == "New Layer"@
                    &&& b.active_editor().layers@[0].is_visible
                    &&& b.active_editor().layers@[0].has_alpha_channel == (
                    a.active_editor().layers@.len() > 0)
                    &&& (forall|i: int|
                        0 <= i < a.active_editor().layers@.len()
                            ==> #[trigger] b.active_editor().layers@[i + 1]
                            == a.active_editor().layers@[i])
                    &&& b.active_editor().cur_layer == a.active_editor().cur_layer
                    &&& r is None
                },
                Message::MoveLayerUp(i) => {
                    &&& Self::same_but_active_doc(a, b)
                    &&& Self::editor_same_but_layers(a.active_editor(), b.active_editor())
                    &&& b.active_editor().layers@ == a.active_editor().layers@.update(
                        i - 1,
                        a.active_editor().layers@[i as int],
                    ).update(i as int, a.active_editor().layers@[i - 1])
                    &&& b.active_editor().cur_layer == a.active_editor().cur_layer - 1
                    &&& r is None
                },
                Message::MoveLayerDown(i) => {
                    &&& Self::same_but_active_doc(a, b)
                    &&& Self::editor_same_but_layers(a.active_editor(), b.active_editor())
                    &&& b.active_editor().layers@ == a.active_editor().layers@.update(
                        i as int,
                        a.active_editor().layers@[i + 1],
                    ).update(i + 1, a.active_editor().layers@[i as int])
                    &&& b.active_editor().cur_layer == a.active_editor().cur_layer + 1
                    &&& r is None
                },
                Message::DeleteLayer(i) => {
                    &&& Self::same_but_active_doc(a, b)
                    &&& Self::editor_same_but_layers(a.active_editor(), b.active_editor())
                    &&& b.active_editor().layers@ == a.active_editor().layers@.remove(i as int)
                    &&& b.active_editor().cur_layer == if a.active_editor().cur_layer
                        < a.active_editor().layers@.len() - 2 {
                        a.active_editor().cur_layer as int
                    } else {
                        a.active_editor().layers@.len() - 2
                    }
                    &&& r is None
                },
                Message::ToggleVisibility(i) => {
                    &&& Self::same_but_active_doc(a, b)
                    &&& Self::editor_same_but_layers(a.active_editor(), b.active_editor())
                    &&& b.active_editor().layers@.len() == a.active_editor().layers@.len()
                    &&& (forall|j: int|
                        0 <= j < a.active_editor().layers@.len() && j != i
                            ==> #[trigger] b.active_editor().layers@[j]
                            == a.active_editor().layers@[j])
                    &&& b.active_editor().layers@[i as int].name@
                        == a.active_editor().layers@[i as int].name@
                    &&& b.active_editor().layers@[i as int].is_visible
                        == !a.active_editor().layers@[i as int].is_visible
                    &&& b.active_editor().layers@[i as int].has_alpha_channel
                        == a.active_editor().layers@[i as int].has_alpha_channel
                    &&& b.active_editor().cur_layer == a.active_editor().cur_layer
                    &&& r is None
                },
                Message::SelectLayer(i) => {
                    &&& Self::same_but_active_doc(a, b)
                    &&& Self::editor_same_but_layers(a.active_editor(), b.active_editor())
                    &&& b.active_editor().layers@ == a.active_editor().layers@
                    &&& b.active_editor().cur_layer == i
                    &&& r is None
                },
                Message::SetFontPage(page) => {
                    &&& Self::same_but_active_doc(a, b)
                    &&& b.active_editor() == (AnsiEditor {
                        caret: crate::editor::Caret {
                            attribute: crate::attribute::TextAttribute {
                                font_page: page,
                                ..a.active_editor().caret.attribute
                            },
                            ..a.active_editor().caret
                        },
                        ..a.active_editor()
                    })
                    &&& r == if a.active_editor().loaded_font_pages@.contains(page) {
                        Option::<MainAction>::None
                    } else {
                        Some(MainAction::LoadFont(page))
                    }
                },
                Message::ShowError(m) => b.tree == a.tree && b.dialog == a.dialog
                    && b.selected_font == a.selected_font && b.toasts@ == a.toasts@.push(m)
                    && r is None,
            },
        }
    }

    /// What each message needs of the window before it can be handled: the
    /// messages that the window only raises with a document open need the
    /// active pane, and the layer messages need their indices in range (a
    /// move needs room to move, a delete a second layer to remain).
    pub open spec fn msg_wf(self, msg_opt: Option<Message>) -> bool {
        match msg_opt {
            None => true,
            Some(msg) => match msg {
                Message::ExportFile => self.active_idx() is Some,
                Message::EditSauce => self.active_idx() is Some,
                Message::SetCanvasSize => self.active_idx() is Some,
                Message::EditLayer(_) => self.active_idx() is Some,
                Message::NewLayer => self.active_idx() is Some,
                Message::MoveLayerUp(i) => self.active_idx() is Some && 1 <= i
                    < self.active_editor().layers@.len() && self.active_editor().cur_layer >= 1,
                Message::MoveLayerDown(i) => self.active_idx() is Some && i + 1
                    < self.active_editor().layers@.len() && self.active_editor().cur_layer + 1
                    < self.active_editor().layers@.len(),
                Message::DeleteLayer(i) => self.active_idx() is Some && i
                    < self.active_editor().layers@.len() && self.active_editor().layers@.len() >= 2,
                Message::ToggleVisibility(i) => self.active_idx() is Some && i
                    < self.active_editor().layers@.len(),
                Message::SelectLayer(i) => self.active_idx() is Some && i
                    < self.active_editor().layers@.len(),
                Message::SetFontPage(_) => self.active_idx() is Some,
                _ => true,
            },
        }
    }

    /// Swapping the active pane's document for another keeps the window
    /// well-formed and the rest of the tree untouched.
    proof fn lemma_window_replace(a: MainWindow, b: MainWindow, idx: int, tab0: Tab, tab1: Tab)
        requires
            a.wf(),
            a.active_idx() == Some(idx),
            a.tree.tiles@[idx] == Tile::Pane(tab0),
            b.tree.root == a.tree.root,
            b.tree.tiles@ == a.tree.tiles@.update(idx, Tile::Vacant).update(idx, Tile::Pane(tab1)),
            b.toasts@ == a.toasts@,
            b.dialog == a.dialog,
            b.selected_font == a.selected_font,
            tab1.doc.editor.wf(),
            tab1.full_path == tab0.full_path,
            tab1.doc.title@ == tab0.doc.title@,
            tab1.doc.dirty == tab0.doc.dirty,
        ensures
            b.wf(),
            Self::same_but_active_doc(a, b),
            b.active_editor() == tab1.doc.editor,
            a.active_editor() == tab0.doc.editor,
            b.active_idx() == Some(idx),
    {
        assert(0 <= idx < a.tree.tiles@.len());
        assert(b.tree.tiles@.len() == a.tree.tiles@.len());
        assert(forall|i: int|
            0 <= i < a.tree.tiles@.len() && i != idx ==> #[trigger] b.tree.tiles@[i]
                == a.tree.tiles@[i]);
        assert(b.tree.tiles@[idx] == Tile::Pane(tab1));
        match a.tree.root {
            Some(rid) => {
                if rid as int == idx {
                    assert(b.tree.active_pane_spec() == Some(idx));
                } else {
                    assert(b.tree.tiles@[rid as int] == a.tree.tiles@[rid as int]);
                    assert(b.tree.active_pane_spec() == Some(idx));
                }
            },
            None => {},
        }
        assert forall|i: int|
            0 <= i < b.tree.tiles@.len() implies ((#[trigger] b.tree.tiles@[i]) matches Tile::Pane(
            t,
        ) ==> t.doc.editor.wf()) by {
            if i != idx {
                assert(b.tree.tiles@[i] == a.tree.tiles@[i]);
            }
        }
    }

    /// Handles one message; see `message_effect` for what each one does.
    #[verifier::rlimit(100)]
    pub fn handle_message(&mut self, msg_opt: Option<Message>) -> (r: Option<MainAction>)
        requires
            old(self).wf(),
            old(self).msg_wf(msg_opt),
        ensures
            final(self).wf(),
            Self::message_effect(*old(self), *final(self), msg_opt, r),
    {
        let msg = match msg_opt {
            None => {
                return None;
            },
            Some(m) => m,
        };
        match msg {
            Message::NewFile => {
                self.dialog = Some(DialogRequest::NewFile);
                None
            },
            Message::OpenFile => {
                self.dialog = Some(DialogRequest::OpenFile);
                None
            },
            Message::ShowOutlineDialog => {
                self.dialog = Some(DialogRequest::SelectOutline);
                None
            },
            Message::ShowAboutDialog => {
                self.dialog = Some(DialogRequest::About);
                None
            },
            Message::ExportFile => {
                self.dialog = Some(DialogRequest::ExportFile);
                None
            },
            Message::EditSauce => {
                self.dialog = Some(DialogRequest::EditSauce);
                None
            },
            Message::SetCanvasSize => {
                self.dialog = Some(DialogRequest::SetCanvasSize);
                None
            },
            Message::EditLayer(i) => {
                self.dialog = Some(DialogRequest::EditLayer(i));
                None
            },
            Message::SelectFontDialog(fonts, sel) => {
                self.dialog = Some(DialogRequest::SelectFont(fonts, sel));
                None
            },
            Message::ShowCharacterSelectionDialog(ch) => {
                if self.tree.active_pane().is_some() {
                    self.dialog = Some(DialogRequest::CharacterSelection(ch));
                }
                None
            },
            Message::SaveFileAs => {
                if self.tree.active_pane().is_some() {
                    self.dialog = Some(DialogRequest::SaveFileAs);
                }
                None
            },
            Message::SaveFile => {
                match self.tree.active_pane() {
                    Some(idx) => {
                        let path_opt: Option<String> = match &self.tree.tiles[idx] {
                            Tile::Pane(tab) => match &tab.full_path {
                                Some(p) => Some(p.clone()),
                                None => None,
                            },
                            _ => None,
                        };
                        match path_opt {
                            Some(p) => {
                                let ext = path_extension(p.as_str());
                                let is_icd = match ext {
                                    Some(e) => e == "icd".to_owned(),
                                    None => false,
                                };
                                if is_icd {
                                    Some(MainAction::SaveDocument(p))
                                } else {
                                    self.dialog = Some(DialogRequest::SaveFileAs);
                                    None
                                }
                            },
                            None => {
                                self.dialog = Some(DialogRequest::SaveFileAs);
                                None
                            },
                        }
                    },
                    None => None,
                }
            },
            Message::Undo => {
                match self.tree.active_pane() {
                    Some(idx) => {
                        let tile = self.tree.replace_tile(idx, Tile::Vacant);
                        let ghost tab0 = tile->Pane_0;
                        let tile2 = match tile {
                            Tile::Pane(mut tab) => {
                                tab.doc.editor.undo();
                                Tile::Pane(tab)
                            },
                            other => other,
                        };
                        let _ = self.tree.replace_tile(idx, tile2);
                        proof {
                            Self::lemma_window_replace(
                                *old(self),
                                *self,
                                idx as int,
                                tab0,
                                tile2->Pane_0,
                            );
                        }
                        Some(MainAction::RedrawView)
                    },
                    None => None,
                }
            },
            Message::Redo => {
                match self.tree.active_pane() {
                    Some(idx) => {
                        let tile = self.tree.replace_tile(idx, Tile::Vacant);
                        let ghost tab0 = tile->Pane_0;
                        let tile2 = match tile {
                            Tile::Pane(mut tab) => {
                                tab.doc.editor.redo();
                                Tile::Pane(tab)
                            },
                            other => other,
                        };
                        let _ = self.tree.replace_tile(idx, tile2);
                        proof {
                            Self::lemma_window_replace(
                                *old(self),
                                *self,
                                idx as int,
                                tab0,
                                tile2->Pane_0,
                            );
                        }
                        Some(MainAction::RedrawView)
                    },
                    None => None,
                }
            },
            Message::SelectAll => {
                match self.tree.active_pane() {
                    Some(idx) => {
                        let tile = self.tree.replace_tile(idx, Tile::Vacant);
                        let ghost tab0 = tile->Pane_0;
                        let tile2 = match tile {
                            Tile::Pane(mut tab) => {
                                let w = tab.doc.editor.get_width();
                                let h = tab.doc.editor.get_height();
                                tab.doc.editor.set_selection(
                                    Selection::from_rectangle(0, 0, w, h),
                                );
                                Tile::Pane(tab)
                            },
                            other => other,
                        };
                        let _ = self.tree.replace_tile(idx, tile2);
                        proof {
                            Self::lemma_window_replace(
                                *old(self),
                                *self,
                                idx as int,
                                tab0,
                                tile2->Pane_0,
                            );
                        }
                        None
                    },
                    None => None,
                }
            },
            Message::Deselect => {
                match self.tree.active_pane() {
                    Some(idx) => {
                        let tile = self.tree.replace_tile(idx, Tile::Vacant);
                        let ghost tab0 = tile->Pane_0;
                        let tile2 = match tile {
                            Tile::Pane(mut tab) => {
                                tab.doc.editor.clear_selection();
                                Tile::Pane(tab)
                            },
                            other => other,
                        };
                        let _ = self.tree.replace_tile(idx, tile2);
                        proof {
                            Self::lemma_window_replace(
                                *old(self),
                                *self,
                                idx as int,
                                tab0,
                                tile2->Pane_0,
                            );
                        }
                        Some(MainAction::RedrawView)
                    },
                    None => None,
                }
            },
            Message::DeleteSelection => {
                match self.tree.active_pane() {
                    Some(idx) => {
                        let has_selection = match &self.tree.tiles[idx] {
                            Tile::Pane(tab) => tab.doc.editor.selection.is_some(),
                            _ => false,
                        };
                        if has_selection {
                            let tile = self.tree.replace_tile(idx, Tile::Vacant);
                            let ghost tab0 = tile->Pane_0;
                            let tile2 = match tile {
                                Tile::Pane(mut tab) => {
                                    tab.doc.editor.delete_selection();
                                    Tile::Pane(tab)
                                },
                                other => other,
                            };
                            let _ = self.tree.replace_tile(idx, tile2);
                            proof {
                                Self::lemma_window_replace(
                                    *old(self),
                                    *self,
                                    idx as int,
                                    tab0,
                                    tile2->Pane_0,
                                );
                            }
                            Some(MainAction::RedrawView)
                        } else {
                            None
                        }
                    },
                    None => None,
                }
            },
            Message::NewLayer => {
                match self.tree.active_pane() {
                    Some(idx) => {
                        let tile = self.tree.replace_tile(idx, Tile::Vacant);
                        let ghost tab0 = tile->Pane_0;
                        let tile2 = match tile {
                            Tile::Pane(mut tab) => {
                                let has_alpha = tab.doc.editor.layers.len() > 0;
                                tab.doc.editor.layers.insert(
                                    0,
                                    Layer {
                                        name: "New Layer".to_owned(),
                                        is_visible: true,
                                        has_alpha_channel: has_alpha,
                                    },
                                );
                                Tile::Pane(tab)
                            },
                            other => other,
                        };
                        let _ = self.tree.replace_tile(idx, tile2);
                        proof {
                            Self::lemma_window_replace(
                                *old(self),
                                *self,
                                idx as int,
                                tab0,
                                tile2->Pane_0,
                            );
                        }
                        None
                    },
                    None => None,
                }
            },
            Message::MoveLayerUp(i) => {
                match self.tree.active_pane() {
                    Some(idx) => {
                        let tile = self.tree.replace_tile(idx, Tile::Vacant);
                        let ghost tab0 = tile->Pane_0;
                        let tile2 = match tile {
                            Tile::Pane(mut tab) => {
                                proof {
                                    assert(tab == old(self).active_tab());
                                }
                                // Binds the layer count to a machine word;
                                // the index arithmetic below needs the bound.
                                let layer_count = tab.doc.editor.layers.len();
                                let placeholder = Layer {
                                    name: String::new(),
                                    is_visible: false,
                                    has_alpha_channel: false,
                                };
                                let li = tab.doc.editor.replace_layer(i, placeholder);
                                let lj = tab.doc.editor.replace_layer(i - 1, li);
                                let _ = tab.doc.editor.replace_layer(i, lj);
                                let cur = tab.doc.editor.cur_layer;
                                tab.doc.editor.cur_layer = cur - 1;
                                proof {
                                    assert(tab.doc.editor.layers@ =~= tab0.doc.editor.layers@.update(
                                        i - 1,
                                        tab0.doc.editor.layers@[i as int],
                                    ).update(i as int, tab0.doc.editor.layers@[i - 1]));
                                }
                                Tile::Pane(tab)
                            },
                            other => other,
                        };
                        let _ = self.tree.replace_tile(idx, tile2);
                        proof {
                            Self::lemma_window_replace(
                                *old(self),
                                *self,
                                idx as int,
                                tab0,
                                tile2->Pane_0,
                            );
                        }
                        None
                    },
                    None => None,
                }
            },
            Message::MoveLayerDown(i) => {
                match self.tree.active_pane() {
                    Some(idx) => {
                        let tile = self.tree.replace_tile(idx, Tile::Vacant);
                        let ghost tab0 = tile->Pane_0;
                        let tile2 = match tile {
                            Tile::Pane(mut tab) => {
                                proof {
                                    assert(tab == old(self).active_tab());
                                }
                                // Binds the layer count to a machine word;
                                // the index arithmetic below needs the bound.
                                let layer_count = tab.doc.editor.layers.len();
                                let placeholder = Layer {
                                    name: String::new(),
                                    is_visible: false,
                                    has_alpha_channel: false,
                                };
                                let li = tab.doc.editor.replace_layer(i, placeholder);
                                let lj = tab.doc.editor.replace_layer(i + 1, li);
                                let _ = tab.doc.editor.replace_layer(i, lj);
                                let cur = tab.doc.editor.cur_layer;
                                tab.doc.editor.cur_layer = cur + 1;
                                proof {
                                    assert(tab.doc.editor.layers@ =~= tab0.doc.editor.layers@.update(
                                        i as int,
                                        tab0.doc.editor.layers@[i + 1],
                                    ).update(i + 1, tab0.doc.editor.layers@[i as int]));
                                }
                                Tile::Pane(tab)
                            },
                            other => other,
                        };
                        let _ = self.tree.replace_tile(idx, tile2);
                        proof {
                            Self::lemma_window_replace(
                                *old(self),
                                *self,
                                idx as int,
                                tab0,
                                tile2->Pane_0,
                            );
                        }
                        None
                    },
                    None => None,
                }
            },
            Message::DeleteLayer(i) => {
                match self.tree.active_pane() {
                    Some(idx) => {
                        let tile = self.tree.replace_tile(idx, Tile::Vacant);
                        let ghost tab0 = tile->Pane_0;
                        let tile2 = match tile {
                            Tile::Pane(mut tab) => {
                                proof {
                                    assert(tab == old(self).active_tab());
                                }
                                let _ = tab.doc.editor.layers.remove(i);
                                let len = tab.doc.editor.layers.len();
                                let cur = tab.doc.editor.cur_layer;
                                tab.doc.editor.cur_layer = if cur < len - 1 {
                                    cur
                                } else {
                                    len - 1
                                };
                                Tile::Pane(tab)
                            },
                            other => other,
                        };
                        let _ = self.tree.replace_tile(idx, tile2);
                        proof {
                            Self::lemma_window_replace(
                                *old(self),
                                *self,
                                idx as int,
                                tab0,
                                tile2->Pane_0,
                            );
                        }
                        None
                    },
                    None => None,
                }
            },
            Message::ToggleVisibility(i) => {
                match self.tree.active_pane() {
                    Some(idx) => {
                        let tile = self.tree.replace_tile(idx, Tile::Vacant);
                        let ghost tab0 = tile->Pane_0;
                        let tile2 = match tile {
                            Tile::Pane(mut tab) => {
                                proof {
                                    assert(tab == old(self).active_tab());
                                }
                                let name = tab.doc.editor.layers[i].name.clone();
                                let visible = tab.doc.editor.layers[i].is_visible;
                                let alpha = tab.doc.editor.layers[i].has_alpha_channel;
                                let _ = tab.doc.editor.replace_layer(
                                    i,
                                    Layer { name, is_visible: !visible, has_alpha_channel: alpha },
                                );
                                Tile::Pane(tab)
                            },
                            other => other,
                        };
                        let _ = self.tree.replace_tile(idx, tile2);
                        proof {
                            Self::lemma_window_replace(
                                *old(self),
                                *self,
                                idx as int,
                                tab0,
                                tile2->Pane_0,
                            );
                        }
                        None
                    },
                    None => None,
                }
            },
            Message::SelectLayer(i) => {
                match self.tree.active_pane() {
                    Some(idx) => {
                        let tile = self.tree.replace_tile(idx, Tile::Vacant);
                        let ghost tab0 = tile->Pane_0;
                        let tile2 = match tile {
                            Tile::Pane(mut tab) => {
                                proof {
                                    assert(tab == old(self).active_tab());
                                }
                                tab.doc.editor.cur_layer = i;
                                Tile::Pane(tab)
                            },
                            other => other,
                        };
                        let _ = self.tree.replace_tile(idx, tile2);
                        proof {
                            Self::lemma_window_replace(
                                *old(self),
                                *self,
                                idx as int,
                                tab0,
                                tile2->Pane_0,
                            );
                        }
                        None
                    },
                    None => None,
                }
            },
            Message::SetFontPage(page) => {
                match self.tree.active_pane() {
                    Some(idx) => {
                        let tile = self.tree.replace_tile(idx, Tile::Vacant);
                        let ghost tab0 = tile->Pane_0;
                        let mut loaded = false;
                        let tile2 = match tile {
                            Tile::Pane(mut tab) => {
                                tab.doc.editor.caret.attribute.font_page = page;
                                loaded = contains_page(&tab.doc.editor.loaded_font_pages, page);
                                Tile::Pane(tab)
                            },
                            other => other,
                        };
                        let _ = self.tree.replace_tile(idx, tile2);
                        proof {
                            Self::lemma_window_replace(
                                *old(self),
                                *self,
                                idx as int,
                                tab0,
                                tile2->Pane_0,
                            );
                        }
                        if loaded {
                            None
                        } else {
                            Some(MainAction::LoadFont(page))
                        }
                    },
                    None => None,
                }
            },
            Message::ShowError(m) => {
                self.toasts.push(m);
                None
            },
        }
    }
}

} // verus!
