//! What the workspace asks of the program around it.

use crate::paths::ProjectPath;
use vstd::prelude::*;

verus! {

/// The side of a pane on which a new pane opens.
#[derive(Clone, Copy, Debug, PartialEq, Eq, Structural)]
pub enum SplitDirection {
    Up,
    Down,
    Left,
    Right,
}

/// A side of the workspace.
#[derive(Clone, Copy, Debug, PartialEq, Eq, Structural)]
pub enum Side {
    Left,
    Right,
}

/// A thing to be done outside the workspace. Views and models are named by their ids. A list of
/// effects is carried out from the first to the last.
#[derive(Debug, PartialEq, Eq)]
pub enum Effect {
    /// Draw the workspace again.
    Notify,
    /// Give the keyboard to a view.
    Focus(usize),
    /// Give the keyboard to the workspace itself.
    FocusSelf,
    /// Draw the workspace again whenever this project changes.
    ObserveProject(usize),
    /// Perform the effect of `Workspace::pane_changed` whenever this pane changes.
    ObservePane(usize),
    /// Call `Workspace::handle_pane_event` for every event that this pane emits.
    SubscribeToPane(usize),
    /// Run a `CurrentUserWatch` on the current user of a user store and the status of a client.
    WatchCurrentUser { user_store: usize, client: usize },
    /// Let the status bar show another pane.
    SetStatusBarPane { status_bar: usize, pane: usize },
    /// Ask the active item of a pane, if there is one, for a copy of itself, and call
    /// `Workspace::finish_split` with the view that came back.
    CloneActiveItem { from: usize },
    /// Show an item view in a pane.
    AddItemView { pane: usize, view: usize },
    /// Make a view of an item, with these settings, and show it in a pane.
    ShowItem { item: usize, settings: usize, pane: usize },
    /// Make room for a new pane beside an old one in the group of panes at the center.
    SplitCenter { old_pane: usize, new_pane: usize, direction: SplitDirection },
    /// Take a pane out of the group at the center, and call `Workspace::remove_pane` with what
    /// came back.
    RemoveFromCenter { pane: usize },
    /// Tell a project which entry is being looked at.
    SetActivePath { project: usize, path: Option<ProjectPath> },
    /// Show the item of a sidebar, or hide it where it is shown, and call
    /// `Workspace::sidebar_item_toggled`.
    ToggleSidebarItem { side: Side, item_index: usize },
    /// Show the item of a sidebar, and call `Workspace::sidebar_item_activated`.
    ActivateSidebarItem { side: Side, item_index: usize },
    /// Put a text on the clipboard.
    WriteToClipboard(String),
}

/// A model or a view to be made. The id that it was given is handed back.
#[derive(Clone, Copy, Debug, PartialEq, Eq, Structural)]
pub enum Creation {
    Project { languages: usize, client: usize, user_store: usize, fs: usize },
    Pane { settings: usize },
    StatusBar { pane: usize, settings: usize },
}

} // verus!
