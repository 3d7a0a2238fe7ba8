//! How a workspace comes into being.

use crate::effects::{Creation, Effect, Side};
use vstd::prelude::*;

verus! {

/// An item of a sidebar.
#[derive(Clone, Copy, Debug, PartialEq, Eq, Structural)]
pub struct SidebarItemId {
    pub side: Side,
    pub item_index: usize,
}

/// Shows an item of a sidebar, or hides it.
#[derive(Clone, Copy, Debug, PartialEq, Eq, Structural)]
pub struct ToggleSidebarItem(pub SidebarItemId);

/// Shows an item of a sidebar and moves the keyboard to it, or back from it.
#[derive(Clone, Copy, Debug, PartialEq, Eq, Structural)]
pub struct ToggleSidebarItemFocus(pub SidebarItemId);

/// Opens a new workspace.
#[derive(Clone, Debug)]
pub struct OpenNew(pub WorkspaceParams);

/// What a key can be bound to.
#[derive(Clone, Copy, Debug, PartialEq, Eq, Structural)]
pub enum Action {
    Save,
    DebugElements,
    ToggleSidebarItem(ToggleSidebarItem),
    ToggleSidebarItemFocus(ToggleSidebarItemFocus),
}

/// The methods of a workspace that answer to actions.
#[derive(Clone, Copy, Debug, PartialEq, Eq, Structural)]
pub enum ActionHandler {
    SaveActiveItem,
    DebugElements,
    ToggleSidebarItem,
    ToggleSidebarItemFocus,
}

/// A key binding; without a context it holds everywhere.
#[derive(Clone, Copy, Debug, PartialEq, Eq)]
pub struct Binding {
    pub keystrokes: &'static str,
    pub action: Action,
    pub context: Option<&'static str>,
}

/// A part of the editor that registers its own actions and key bindings.
#[derive(Clone, Copy, Debug, PartialEq, Eq, Structural)]
pub enum Registrant {
    Panes,
}

/// What is registered once, before there is a workspace: the handlers, then the bindings, and then
/// what other parts register themselves.
#[derive(Debug, PartialEq, Eq)]
pub struct Registrations {
    pub handlers: Vec<ActionHandler>,
    pub bindings: Vec<Binding>,
    pub registrants: Vec<Registrant>,
}

/// The first item of the left sidebar.
pub open spec fn first_left_item() -> SidebarItemId {
    SidebarItemId { side: Side::Left, item_index: 0 }
}

/// The actions and key bindings of a workspace, in the order in which they are registered. The
/// panes register theirs after them.
pub fn init() -> (registrations: Registrations)
    ensures
        registrations.handlers@ == seq![
            ActionHandler::SaveActiveItem,
            ActionHandler::DebugElements,
            ActionHandler::ToggleSidebarItem,
            ActionHandler::ToggleSidebarItemFocus,
        ],
        registrations.bindings@ == seq![
            (Binding { keystrokes: "cmd-s", action: Action::Save, context: None }),
            (Binding { keystrokes: "cmd-alt-i", action: Action::DebugElements, context: None }),
            (Binding {
                keystrokes: "cmd-shift-!",
                action: Action::ToggleSidebarItem(ToggleSidebarItem(first_left_item())),
                context: None,
            }),
            (Binding {
                keystrokes: "cmd-1",
                action: Action::ToggleSidebarItemFocus(ToggleSidebarItemFocus(first_left_item())),
                context: None,
            }),
        ],
        registrations.registrants@ == seq![Registrant::Panes],
{
    let item = SidebarItemId { side: Side::Left, item_index: 0 };
    let mut handlers: Vec<ActionHandler> = Vec::new();
    handlers.push(ActionHandler::SaveActiveItem);
    handlers.push(ActionHandler::DebugElements);
    handlers.push(ActionHandler::ToggleSidebarItem);
    handlers.push(ActionHandler::ToggleSidebarItemFocus);
    let mut bindings: Vec<Binding> = Vec::new();
    bindings.push(Binding { keystrokes: "cmd-s", action: Action::Save, context: None });
    bindings.push(
        Binding { keystrokes: "cmd-alt-i", action: Action::DebugElements, context: None },
    );
    bindings.push(
        Binding {
            keystrokes: "cmd-shift-!",
            action: Action::ToggleSidebarItem(ToggleSidebarItem(item)),
            context: None,
        },
    );
    bindings.push(
        Binding {
            keystrokes: "cmd-1",
            action: Action::ToggleSidebarItemFocus(ToggleSidebarItemFocus(item)),
            context: None,
        },
    );
    let mut registrants: Vec<Registrant> = Vec::new();
    registrants.push(Registrant::Panes);
    Registrations { handlers, bindings, registrants }
}

/// The ids of what a workspace is made from.
#[derive(Clone, Debug)]
pub struct WorkspaceParams {
    pub client: usize,
    pub fs: usize,
    pub languages: usize,
    pub settings: usize,
    pub user_store: usize,
    pub channel_list: usize,
    pub entry_openers: Vec<usize>,
}

/// The ids of what is made for a workspace.
#[derive(Clone, Copy, Debug, PartialEq, Eq, Structural)]
pub struct WorkspaceParts {
    pub project: usize,
    pub pane: usize,
    pub status_bar: usize,
}

/// What the panes and views of a workspace are held in: a group at the center, which starts with
/// one pane, and a sidebar made for each side.
#[derive(Clone, Copy, Debug, PartialEq, Eq, Structural)]
pub struct WorkspaceFrame {
    pub center_pane: usize,
    pub left_sidebar: Side,
    pub right_sidebar: Side,
}

/// How much has been made for a workspace.
#[derive(Clone, Copy, Debug, PartialEq, Eq, Structural)]
pub enum WorkspaceSetup {
    /// Nothing: the project is being made.
    Project,
    /// The project: the first pane is being made.
    Pane { project: usize },
    /// The project and the first pane: the status bar is being made.
    StatusBar { project: usize, pane: usize },
}

/// What follows when a part has been made. The effects come first. In the end a frame is made, and
/// `Workspace::new` is called with it and the parts.
#[derive(Debug, PartialEq, Eq)]
pub enum SetupStep {
    Create { effects: Vec<Effect>, creation: Creation, next: WorkspaceSetup },
    Finished { effects: Vec<Effect>, parts: WorkspaceParts, frame: WorkspaceFrame },
}

impl WorkspaceSetup {
    /// The setup of a workspace starts with its project.
    pub fn start(params: &WorkspaceParams) -> (start: (Self, Creation))
        ensures
            start.0 == WorkspaceSetup::Project,
            start.1 == (Creation::Project {
                languages: params.languages,
                client: params.client,
                user_store: params.user_store,
                fs: params.fs,
            }),
    {
        let creation = Creation::Project {
            languages: params.languages,
            client: params.client,
            user_store: params.user_store,
            fs: params.fs,
        };
        (WorkspaceSetup::Project, creation)
    }

    /// What follows when the part that was being made has been made, with the id `made`: the
    /// project is observed; the first pane is observed, subscribed to and given the keyboard; and
    /// with the status bar the parts are complete. The group at the center starts with the pane.
    pub fn next(self, params: &WorkspaceParams, made: usize) -> (step: SetupStep)
        ensures
            match self {
                WorkspaceSetup::Project => step matches SetupStep::Create {
                    effects,
                    creation,
                    next,
                } && effects@ == seq![Effect::ObserveProject(made)] && creation == (
                Creation::Pane { settings: params.settings }) && next == (WorkspaceSetup::Pane {
                    project: made,
                }),
                WorkspaceSetup::Pane { project } => step matches SetupStep::Create {
                    effects,
                    creation,
                    next,
                } && effects@ == seq![
                    Effect::ObservePane(made),
                    Effect::SubscribeToPane(made),
                    Effect::Focus(made),
                ] && creation == (Creation::StatusBar { pane: made, settings: params.settings })
                    && next == (WorkspaceSetup::StatusBar { project, pane: made }),
                WorkspaceSetup::StatusBar { project, pane } => step matches SetupStep::Finished {
                    effects,
                    parts,
                    frame,
                } && effects@ == seq![
                    (Effect::WatchCurrentUser {
                        user_store: params.user_store,
                        client: params.client,
                    }),
                ] && parts == (WorkspaceParts { project, pane, status_bar: made }) && frame == (
                WorkspaceFrame {
                    center_pane: pane,
                    left_sidebar: Side::Left,
                    right_sidebar: Side::Right,
                }),
            },
    {
        let mut effects: Vec<Effect> = Vec::new();
        match self {
            WorkspaceSetup::Project => {
                effects.push(Effect::ObserveProject(made));
                SetupStep::Create {
                    effects,
                    creation: Creation::Pane { settings: params.settings },
                    next: WorkspaceSetup::Pane { project: made },
                }
            },
            WorkspaceSetup::Pane { project } => {
                effects.push(Effect::ObservePane(made));
                effects.push(Effect::SubscribeToPane(made));
                effects.push(Effect::Focus(made));
                SetupStep::Create {
                    effects,
                    creation: Creation::StatusBar { pane: made, settings: params.settings },
                    next: WorkspaceSetup::StatusBar { project, pane: made },
                }
            },
            WorkspaceSetup::StatusBar { project, pane } => {
                effects.push(
                    Effect::WatchCurrentUser {
                        user_store: params.user_store,
                        client: params.client,
                    },
                );
                SetupStep::Finished {
                    effects,
                    parts: WorkspaceParts { project, pane, status_bar: made },
                    frame: WorkspaceFrame {
                        center_pane: pane,
                        left_sidebar: Side::Left,
                        right_sidebar: Side::Right,
                    },
                }
            },
        }
    }
}

/// A watch over the current user and the connection: a workspace is drawn again whenever either
/// of them changes. The values that they have at the start do not count.
#[derive(Clone, Copy, Debug, PartialEq, Eq, Structural)]
pub enum CurrentUserWatch {
    /// Waits for the current user.
    User,
    /// Waits for the status of the connection.
    Connection,
    /// Waits for a change of either.
    Either,
    /// Both have ended.
    Ended,
}

impl CurrentUserWatch {
    /// What to wait for first.
    pub fn new() -> (watch: Self)
        ensures
            watch == CurrentUserWatch::User,
    {
        CurrentUserWatch::User
    }

    /// What to wait for next, and what to do before, when something has `arrived` or, where it
    /// has not, what was waited for has ended. The workspace may be gone by then.
    pub fn next(self, arrived: bool, workspace_alive: bool) -> (step: (Self, Option<Effect>))
        ensures
            step.0 == match self {
                CurrentUserWatch::User => CurrentUserWatch::Connection,
                CurrentUserWatch::Connection => CurrentUserWatch::Either,
                CurrentUserWatch::Either if arrived => CurrentUserWatch::Either,
                _ => CurrentUserWatch::Ended,
            },
            step.1 == if self is Either && arrived && workspace_alive {
                Some(Effect::Notify)
            } else {
                None::<Effect>
            },
    {
        match self {
            CurrentUserWatch::User => (CurrentUserWatch::Connection, None),
            CurrentUserWatch::Connection => (CurrentUserWatch::Either, None),
            CurrentUserWatch::Either => {
                if !arrived {
                    (CurrentUserWatch::Ended, None)
                } else if workspace_alive {
                    (CurrentUserWatch::Either, Some(Effect::Notify))
                } else {
                    (CurrentUserWatch::Either, None)
                }
            },
            CurrentUserWatch::Ended => (CurrentUserWatch::Ended, None),
        }
    }
}

} // verus!
