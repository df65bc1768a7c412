//! The docking tree of open tabs, and the behaviour of its tab bar.
//!
//! Tiles live in slots addressed by `TileId`; the tree is either empty, a
//! single pane at the root, or a tab container whose children are panes.
//! `add_child` grows it exactly that way: the first document becomes the
//! root, the second wraps both into a tab container, and later ones join
//! that container and become active.
use vstd::prelude::*;

use crate::document::DocumentOptions;
use crate::document::EditorDoc;

verus! {

/// Identifier of a tile: the index of its slot.
pub type TileId = usize;

/// One open tab: the document and, once saved or opened from disk, its
/// path.
pub struct Tab {
    pub full_path: Option<String>,
    pub doc: EditorDoc,
}

/// A container showing its children as tabs, one of them active.
pub struct TabsContainer {
    pub children: Vec<TileId>,
    pub active: Option<TileId>,
}

/// A slot of the docking tree.
pub enum Tile {
    Pane(Tab),
    Tabs(TabsContainer),
    Vacant,
}

/// The docking tree: tiles in slots, and the root slot if any.
pub struct DockingContainer {
    pub tiles: Vec<Tile>,
    pub root: Option<TileId>,
}

impl DockingContainer {
    /// The slot of the pane the user is looking at: the root pane, or the
    /// active pane of the root tab container.
    pub open spec fn active_pane_spec(self) -> Option<int> {
        match self.root {
            Some(rid) => if 0 <= rid < self.tiles@.len() {
                match self.tiles@[rid as int] {
                    Tile::Pane(_) => Some(rid as int),
                    Tile::Tabs(t) => match t.active {
                        Some(a) => if a < self.tiles@.len() && (self.tiles@[a as int] matches
                            Tile::Pane(_)) {
                            Some(a as int)
                        } else {
                            None
                        },
                        None => None,
                    },
                    Tile::Vacant => None,
                }
            } else {
                None
            },
            None => None,
        }
    }

    pub fn new() -> (r: DockingContainer)
        ensures
            r.tiles@.len() == 0,
            r.root is None,
    {
        DockingContainer { tiles: Vec::new(), root: None }
    }

    /// The slot of the pane the user is looking at, as a value.
    pub fn active_pane(&self) -> (r: Option<TileId>)
        ensures
            match r {
                Some(id) => self.active_pane_spec() == Some(id as int),
                None => self.active_pane_spec() is None,
            },
    {
        match self.root {
            Some(rid) => {
                if rid < self.tiles.len() {
                    match &self.tiles[rid] {
                        Tile::Pane(_) => Some(rid),
                        Tile::Tabs(t) => {
                            match t.active {
                                Some(a) => {
                                    if a < self.tiles.len() && matches!(
                                        &self.tiles[a],
                                        Tile::Pane(_),
                                    ) {
                                        Some(a)
                                    } else {
                                        None
                                    }
                                },
                                None => None,
                            }
                        },
                        Tile::Vacant => None,
                    }
                } else {
                    None
                }
            },
            None => None,
        }
    }

    /// Puts `tile` into slot `id` and hands back what was there.
    pub fn replace_tile(&mut self, id: TileId, tile: Tile) -> (old_tile: Tile)
        requires
            id < old(self).tiles@.len(),
        ensures
            old_tile == old(self).tiles@[id as int],
            final(self).tiles@ == old(self).tiles@.update(id as int, tile),
            final(self).root == old(self).root,
    {
        self.tiles.push(tile);
        let old_tile = self.tiles.swap_remove(id);
        proof {
            assert(self.tiles@ =~= old(self).tiles@.update(id as int, tile));
        }
        old_tile
    }
}

/// Adds a new document pane to the tree: the first becomes the root, one
/// beside a root pane wraps both into a tab container, and later ones join
/// the root container and become its active tab.
pub fn add_child(tree: &mut DockingContainer, full_path: Option<String>, doc: EditorDoc)
    ensures
        ({
            let n = old(tree).tiles@.len() as int;
            match old(tree).root {
                None => {
                    &&& final(tree).tiles@.len() == n + 1
                    &&& (forall|i: int|
                        0 <= i < n ==> #[trigger] final(tree).tiles@[i] == old(tree).tiles@[i])
                    &&& final(tree).tiles@[n] == Tile::Pane(Tab { full_path, doc })
                    &&& final(tree).root == Some(n as usize)
                },
                Some(r) => if r < n && (old(tree).tiles@[r as int] matches Tile::Tabs(_)) {
                    &&& old(tree).tiles@[r as int] matches Tile::Tabs(tc0) ==> {
                        &&& final(tree).tiles@.len() == n + 1
                        &&& (forall|i: int|
                            0 <= i < n && i != r ==> #[trigger] final(tree).tiles@[i] == old(
                                tree,
                            ).tiles@[i])
                        &&& final(tree).tiles@[n] == Tile::Pane(Tab { full_path, doc })
                        &&& (final(tree).tiles@[r as int] matches Tile::Tabs(tc1)
                            && tc1.children@ == tc0.children@.push(n as usize) && tc1.active
                            == Some(n as usize))
                        &&& final(tree).root == old(tree).root
                    }
                } else if r < n && (old(tree).tiles@[r as int] matches Tile::Pane(_)) {
                    &&& final(tree).tiles@.len() == n + 2
                    &&& (forall|i: int|
                        0 <= i < n ==> #[trigger] final(tree).tiles@[i] == old(tree).tiles@[i])
                    &&& final(tree).tiles@[n] == Tile::Pane(Tab { full_path, doc })
                    &&& (final(tree).tiles@[n + 1] matches Tile::Tabs(tc)
                        && tc.children@ == Seq::<TileId>::empty().push(n as usize).push(r)
                        && tc.active == Some(n as usize))
                    &&& final(tree).root == Some((n + 1) as usize)
                } else {
                    &&& final(tree).tiles@.len() == n + 1
                    &&& (forall|i: int|
                        0 <= i < n ==> #[trigger] final(tree).tiles@[i] == old(tree).tiles@[i])
                    &&& final(tree).tiles@[n] == Tile::Pane(Tab { full_path, doc })
                    &&& final(tree).root == Some(n as usize)
                },
            }
        }),
{
    let tile = Tab { full_path, doc };
    let new_child: usize = tree.tiles.len();
    tree.tiles.push(Tile::Pane(tile));
    match tree.root {
        None => {
            tree.root = Some(new_child);
        },
        Some(r) => {
            if r < new_child {
                let is_tabs = matches!(&tree.tiles[r], Tile::Tabs(_));
                let is_pane = matches!(&tree.tiles[r], Tile::Pane(_));
                if is_tabs {
                    let old_tile = tree.replace_tile(r, Tile::Vacant);
                    match old_tile {
                        Tile::Tabs(mut t) => {
                            t.children.push(new_child);
                            t.active = Some(new_child);
                            let _ = tree.replace_tile(r, Tile::Tabs(t));
                        },
                        _ => {},
                    }
                } else if is_pane {
                    let mut children: Vec<TileId> = Vec::new();
                    children.push(new_child);
                    children.push(r);
                    let new_id = tree.tiles.len();
                    tree.tiles.push(
                        Tile::Tabs(TabsContainer { children, active: Some(new_child) }),
                    );
                    tree.root = Some(new_id);
                } else {
                    tree.root = Some(new_child);
                }
            } else {
                tree.root = Some(new_child);
            }
        },
    }
}

/// What the docking layer asks of the tab bar while drawing it.
pub struct TabBehavior {
    /// Index of the selected tool in the tool palette.
    pub selected_tool: usize,
    pub document_options: DocumentOptions,
    /// Set when the user asked to close a tab, for the window to act on.
    pub request_close: Option<TileId>,
}

/// The simplifications the docking layer may apply to the tree.
pub struct SimplificationOptions {
    pub all_panes_must_have_tabs: bool,
    pub prune_empty_tabs: bool,
    pub prune_single_child_tabs: bool,
}

impl TabBehavior {
    /// The title shown on a pane's tab: the document's title, starred when
    /// it has unsaved changes.
    pub fn tab_title_for_pane(&mut self, pane: &Tab) -> (r: String)
        ensures
            r@ == if pane.doc.dirty {
                pane.doc.title@ + "*"@
            } else {
                pane.doc.title@
            },
            *final(self) == *old(self),
    {
        let title = pane.doc.get_title();
        if pane.doc.is_dirty() {
            title.concat("*")
        } else {
            title
        }
    }

    /// Remembers which tile the user asked to close.
    pub fn on_close_requested(&mut self, tile_id: TileId)
        ensures
            final(self).request_close == Some(tile_id),
            final(self).selected_tool == old(self).selected_tool,
    {
        self.request_close = Some(tile_id);
    }

    /// Every pane is shown under a tab bar; no pruning beyond the default.
    pub fn simplification_options(&self) -> (r: SimplificationOptions)
        ensures
            r.all_panes_must_have_tabs,
    {
        SimplificationOptions {
            all_panes_must_have_tabs: true,
            prune_empty_tabs: true,
            prune_single_child_tabs: true,
        }
    }

    pub fn has_close_buttons(&self) -> (r: bool)
        ensures
            r,
    {
        true
    }
}

} // verus!
