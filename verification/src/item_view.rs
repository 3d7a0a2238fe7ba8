//! What can be shown in a pane.

use crate::paths::ProjectPath;
use std::path::PathBuf;
use vstd::prelude::*;

verus! {

/// Opens entries of a certain kind.
pub trait EntryOpener {
    /// What openers work on, such as the worktrees.
    type Context;

    /// Work that is under way.
    type Task;

    /// Starts to open an entry of a worktree, if it is of the kind. The context is handed back.
    fn open(&self, worktree: usize, path: ProjectPath, cx: Self::Context) -> (
        Option<Self::Task>,
        Self::Context,
    );
}

/// A thing that can be edited, such as a file.
pub trait Item: Sized {
    type View: ItemView;

    /// A view of the item with the id `handle`.
    fn build_view(handle: usize, settings: usize) -> Self::View;

    /// The entry that the item stands for.
    fn project_path(&self) -> Option<ProjectPath>;
}

/// A view of an item, to be shown in a pane.
pub trait ItemView: Sized {
    /// What the view tells the pane.
    type Event;

    /// Work that is under way.
    type Task;

    /// Why work was not begun.
    type Error;

    fn title(&self) -> String;

    fn project_path(&self) -> Option<ProjectPath>;

    /// Another view of the item, for a pane that was split off; none unless a kind of view says
    /// otherwise.
    fn clone_on_split(&self) -> (copy: Option<Self>)
        default_ensures
            copy is None,
    {
        None
    }

    /// Whether there is something to save; there is not unless a kind of view says otherwise.
    fn is_dirty(&self) -> (dirty: bool)
        default_ensures
            !dirty,
    {
        false
    }

    /// Whether the file has changed on disk since the editing began; it has not unless a kind of
    /// view says otherwise.
    fn has_conflict(&self) -> (conflict: bool)
        default_ensures
            !conflict,
    {
        false
    }

    fn save(&mut self) -> Result<Self::Task, Self::Error>;

    fn save_as(&mut self, worktree: usize, path: &PathBuf) -> Self::Task;

    /// Whether the pane makes the view its active item on an event; it does not unless a kind of
    /// view says otherwise.
    fn should_activate_item_on_event(event: &Self::Event) -> (activate: bool)
        default_ensures
            !activate,
    {
        false
    }

    /// Whether the pane closes the view on an event; it does not unless a kind of view says
    /// otherwise.
    fn should_close_item_on_event(event: &Self::Event) -> (close: bool)
        default_ensures
            !close,
    {
        false
    }

    /// Whether the pane draws the tab of the view again on an event; it does not unless a kind of
    /// view says otherwise.
    fn should_update_tab_on_event(event: &Self::Event) -> (update: bool)
        default_ensures
            !update,
    {
        false
    }
}

/// What a pane does for one of its item views.
#[derive(Clone, Copy, Debug, PartialEq, Eq, Structural)]
pub enum PaneAction {
    /// Close the item view with an id.
    CloseItem(usize),
    /// Make the item view at an index the active one.
    ActivateItem(usize),
    /// Become the active pane.
    Activate,
    /// Draw the pane again.
    Notify,
}

/// What a pane does on an event of an item view: where the view is to be closed, that alone;
/// otherwise it is made the active one, if the pane has it, and its tab is drawn again.
pub open spec fn actions_on_item_event(
    item: usize,
    index: Option<usize>,
    close: bool,
    activate: bool,
    update: bool,
) -> Seq<PaneAction> {
    if close {
        seq![PaneAction::CloseItem(item)]
    } else {
        (match index {
            Some(index) if activate => seq![PaneAction::ActivateItem(index), PaneAction::Activate],
            _ => Seq::empty(),
        }) + (if update {
            seq![PaneAction::Notify]
        } else {
            Seq::empty()
        })
    }
}

/// What a pane does on an event of an item view, by what the kind of view says of the event. The
/// index is that of the view in the pane.
pub fn item_event_actions(
    item: usize,
    index: Option<usize>,
    close: bool,
    activate: bool,
    update: bool,
) -> (actions: Vec<PaneAction>)
    ensures
        actions@ == actions_on_item_event(item, index, close, activate, update),
{
    let mut actions: Vec<PaneAction> = Vec::new();
    if close {
        actions.push(PaneAction::CloseItem(item));
        return actions;
    }
    if activate {
        if let Some(index) = index {
            actions.push(PaneAction::ActivateItem(index));
            actions.push(PaneAction::Activate);
        }
    }
    if update {
        actions.push(PaneAction::Notify);
    }
    actions
}

/// What a pane, once it is the parent of an item view of kind `V`, does on an event of the view.
pub fn on_item_event<V: ItemView>(item: usize, index: Option<usize>, event: &V::Event) -> (actions:
    Vec<PaneAction>)
    ensures
        exists|close: bool, activate: bool, update: bool| #[trigger]
            actions_on_item_event(item, index, close, activate, update) == actions@
                && call_ensures(V::should_close_item_on_event, (event,), close) && (close || (
            call_ensures(V::should_activate_item_on_event, (event,), activate) && call_ensures(
                V::should_update_tab_on_event,
                (event,),
                update,
            ))),
{
    let close = V::should_close_item_on_event(event);
    if close {
        return item_event_actions(item, index, true, false, false);
    }
    let activate = V::should_activate_item_on_event(event);
    let update = V::should_update_tab_on_event(event);
    item_event_actions(item, index, false, activate, update)
}

} // verus!
