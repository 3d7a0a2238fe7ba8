//! How a workspace is drawn.

use crate::effects::Side;
use crate::elements::{
    cons, listed, optional, Alignment, Axis, Background, Children, Click, Element, Size, Style,
};
use crate::state::Workspace;
use vstd::prelude::*;

verus! {

/// The status of the connection to the server.
#[derive(Clone, Copy, Debug, PartialEq, Eq, Structural)]
pub enum ConnectionStatus {
    ConnectionError,
    ConnectionLost,
    Reauthenticating,
    Reconnecting,
    ReconnectionError,
    UpgradeRequired,
    /// Any other.
    Other,
}

impl ConnectionStatus {
    /// There was a connection, or there should be one, and there is none.
    pub open spec fn is_offline(self) -> bool {
        self is ConnectionError || self is ConnectionLost || self is Reauthenticating
            || self is Reconnecting || self is ReconnectionError
    }
}

/// What is read of a user: the id of their picture, if there is one.
#[derive(Clone, Copy, Debug, PartialEq, Eq, Structural)]
pub struct UserState {
    pub avatar: Option<usize>,
}

/// Someone else who works in a worktree.
#[derive(Clone, Copy, Debug, PartialEq, Eq, Structural)]
pub struct Collaborator {
    pub user: UserState,
    pub replica_id: u16,
}

/// What is read of the worktree that is active: who works in it, and as which replica this
/// workspace does.
#[derive(Debug)]
pub struct ActiveWorktree {
    pub replica_id: u16,
    pub collaborators: Vec<Collaborator>,
}

/// What the title bar shows.
#[derive(Debug)]
pub struct TitlebarState {
    pub current_user: Option<UserState>,
    pub active_worktree: Option<ActiveWorktree>,
    pub status: ConnectionStatus,
}

/// An icon or a warning for a connection that does not work.
pub open spec fn connection_element(status: ConnectionStatus) -> Option<Element> {
    if status.is_offline() {
        Some(
            Element::Container {
                style: Some(Style::OfflineIcon),
                background: Background::OfStyle,
                child: Box::new(
                    Element::Align {
                        alignment: Alignment::Center,
                        child: Box::new(
                            Element::Constrained {
                                width: Some(Size::OfflineIconWidth),
                                height: None,
                                child: Box::new(
                                    Element::Svg {
                                        path: "icons/offline-14.svg",
                                        color: Style::TitlebarIcon,
                                    },
                                ),
                            },
                        ),
                    },
                ),
            },
        )
    } else if status is UpgradeRequired {
        Some(
            Element::Align {
                alignment: Alignment::Center,
                child: Box::new(
                    Element::Container {
                        style: Some(Style::OutdatedWarning),
                        background: Background::OfStyle,
                        child: Box::new(
                            Element::Label {
                                text: "Please update Zed to collaborate",
                                style: Style::OutdatedWarning,
                            },
                        ),
                    },
                ),
            },
        )
    } else {
        None
    }
}

/// The picture of a user, with a ribbon in the color of a replica below it.
pub open spec fn picture_element(picture: usize, replica_id: Option<u16>) -> Element {
    let image = Element::Align {
        alignment: Alignment::Center,
        child: Box::new(
            Element::Constrained {
                width: Some(Size::AvatarWidth),
                height: None,
                child: Box::new(Element::Image { picture, style: Style::Avatar }),
            },
        ),
    };
    let ribbon = Element::Align {
        alignment: Alignment::Bottom,
        child: Box::new(
            Element::Constrained {
                width: Some(Size::AvatarRibbonWidth),
                height: Some(Size::AvatarRibbonHeight),
                child: Box::new(
                    Element::Container {
                        style: Some(Style::AvatarRibbon),
                        background: Background::Replica(replica_id),
                        child: Box::new(Element::Empty),
                    },
                ),
            },
        ),
    };
    Element::Constrained {
        width: Some(Size::RightSidebarWidth),
        height: None,
        child: Box::new(Element::Stack(cons(image, cons(ribbon, Children::End)))),
    }
}

/// The words "Sign in", in a style.
pub open spec fn sign_in_label(style: Style) -> Element {
    Element::Container {
        style: Some(style),
        background: Background::OfStyle,
        child: Box::new(Element::Label { text: "Sign in", style }),
    }
}

/// The button to sign in with.
pub open spec fn sign_in_element() -> Element {
    Element::Align {
        alignment: Alignment::Center,
        child: Box::new(
            Element::Button {
                normal: Box::new(sign_in_label(Style::SignInPrompt)),
                hovered: Box::new(sign_in_label(Style::HoveredSignInPrompt)),
                click: Click::Authenticate,
            },
        ),
    }
}

/// The picture of a user. Where there is none, the button to sign in with is in its place.
pub open spec fn avatar_element(user: Option<UserState>, replica_id: Option<u16>) -> Element {
    match user {
        Some(UserState { avatar: Some(picture) }) => picture_element(picture, replica_id),
        _ => sign_in_element(),
    }
}

/// The pictures of those who work in the active worktree.
pub open spec fn collaborator_elements(worktree: Option<ActiveWorktree>) -> Seq<Element> {
    match worktree {
        Some(worktree) => worktree.collaborators@.map_values(
            |collaborator: Collaborator|
                avatar_element(Some(collaborator.user), Some(collaborator.replica_id)),
        ),
        None => Seq::empty(),
    }
}

/// The title bar: the title, and at its right the collaborators, the current user and the
/// connection.
pub open spec fn titlebar_element(state: TitlebarState) -> Element {
    let replica_id = match state.active_worktree {
        Some(worktree) => Some(worktree.replica_id),
        None => None,
    };
    let title = Element::Align {
        alignment: Alignment::Center,
        child: Box::new(Element::Label { text: "zed", style: Style::Title }),
    };
    let people = Element::Align {
        alignment: Alignment::Right,
        child: Box::new(
            Element::Flex {
                axis: Axis::Row,
                children: listed(
                    collaborator_elements(state.active_worktree),
                    cons(
                        avatar_element(state.current_user, replica_id),
                        optional(connection_element(state.status), Children::End),
                    ),
                ),
            },
        ),
    };
    Element::Named {
        name: "titlebar",
        child: Box::new(
            Element::Constrained {
                width: None,
                height: Some(Size::TitlebarHeight),
                child: Box::new(
                    Element::Container {
                        style: Some(Style::Titlebar),
                        background: Background::OfStyle,
                        child: Box::new(
                            Element::Stack(cons(title, cons(people, Children::End))),
                        ),
                    },
                ),
            },
        ),
    }
}

/// The item that a sidebar shows, if it shows one.
pub open spec fn sidebar_item_element(side: Side, shown: bool) -> Option<Element> {
    if shown {
        Some(Element::Flexible { tenths: 8, child: Box::new(Element::SidebarItem(side)) })
    } else {
        None
    }
}

/// The panes with the status bar below them.
pub open spec fn center_element(status_bar: usize) -> Element {
    Element::Expanded {
        tenths: 10,
        child: Box::new(
            Element::Flex {
                axis: Axis::Column,
                children: cons(
                    Element::Expanded { tenths: 10, child: Box::new(Element::Center) },
                    cons(Element::View(status_bar), Children::End),
                ),
            },
        ),
    }
}

/// Everything below the title bar: from left to right a sidebar, its item, the panes, the other
/// sidebar's item and that sidebar; and on top of it the modal view.
pub open spec fn content_element(
    status_bar: usize,
    modal: Option<usize>,
    left_item: bool,
    right_item: bool,
) -> Element {
    let row = Element::Flex {
        axis: Axis::Row,
        children: cons(
            Element::Sidebar(Side::Left),
            optional(
                sidebar_item_element(Side::Left, left_item),
                cons(
                    center_element(status_bar),
                    optional(
                        sidebar_item_element(Side::Right, right_item),
                        cons(Element::Sidebar(Side::Right), Children::End),
                    ),
                ),
            ),
        ),
    };
    let modal_view = match modal {
        Some(view) => Some(Element::View(view)),
        None => None,
    };
    Element::Stack(cons(row, optional(modal_view, Children::End)))
}

/// The whole workspace.
pub open spec fn workspace_element(titlebar: Element, content: Element) -> Element {
    Element::Named {
        name: "workspace",
        child: Box::new(
            Element::Container {
                style: None,
                background: Background::Workspace,
                child: Box::new(
                    Element::Flex {
                        axis: Axis::Column,
                        children: cons(
                            titlebar,
                            cons(
                                Element::Expanded { tenths: 10, child: Box::new(content) },
                                Children::End,
                            ),
                        ),
                    },
                ),
            },
        ),
    }
}

fn align(alignment: Alignment, child: Element) -> (element: Element)
    ensures
        element == (Element::Align { alignment, child: Box::new(child) }),
{
    Element::Align { alignment, child: Box::new(child) }
}

fn contain(style: Style, child: Element) -> (element: Element)
    ensures
        element == (Element::Container {
            style: Some(style),
            background: Background::OfStyle,
            child: Box::new(child),
        }),
{
    Element::Container { style: Some(style), background: Background::OfStyle, child: Box::new(child) }
}

fn constrain(width: Option<Size>, height: Option<Size>, child: Element) -> (element: Element)
    ensures
        element == (Element::Constrained { width, height, child: Box::new(child) }),
{
    Element::Constrained { width, height, child: Box::new(child) }
}

fn expand(child: Element) -> (element: Element)
    ensures
        element == (Element::Expanded { tenths: 10, child: Box::new(child) }),
{
    Element::Expanded { tenths: 10, child: Box::new(child) }
}

fn render_sign_in_label(style: Style) -> (element: Element)
    ensures
        element == sign_in_label(style),
{
    contain(style, Element::Label { text: "Sign in", style })
}

fn render_sidebar_item(side: Side, shown: bool) -> (element: Option<Element>)
    ensures
        element == sidebar_item_element(side, shown),
{
    if shown {
        Some(Element::Flexible { tenths: 8, child: Box::new(Element::SidebarItem(side)) })
    } else {
        None
    }
}

impl<G, S> Workspace<G, S> {
    /// Draws an icon or a warning for a connection that does not work.
    pub fn render_connection_status(&self, status: ConnectionStatus) -> (element: Option<Element>)
        ensures
            element == connection_element(status),
    {
        match status {
            ConnectionStatus::ConnectionError
            | ConnectionStatus::ConnectionLost
            | ConnectionStatus::Reauthenticating
            | ConnectionStatus::Reconnecting
            | ConnectionStatus::ReconnectionError => {
                let icon = Element::Svg {
                    path: "icons/offline-14.svg",
                    color: Style::TitlebarIcon,
                };
                let sized = constrain(Some(Size::OfflineIconWidth), None, icon);
                Some(contain(Style::OfflineIcon, align(Alignment::Center, sized)))
            },
            ConnectionStatus::UpgradeRequired => {
                let label = Element::Label {
                    text: "Please update Zed to collaborate",
                    style: Style::OutdatedWarning,
                };
                Some(align(Alignment::Center, contain(Style::OutdatedWarning, label)))
            },
            ConnectionStatus::Other => None,
        }
    }

    /// Draws the title bar.
    pub fn render_titlebar(&self, state: &TitlebarState) -> (element: Element)
        ensures
            element == titlebar_element(*state),
    {
        let replica_id = match &state.active_worktree {
            Some(worktree) => Some(worktree.replica_id),
            None => None,
        };
        let title = align(
            Alignment::Center,
            Element::Label { text: "zed", style: Style::Title },
        );
        let people = Children::End.prepend_optional(self.render_connection_status(state.status))
            .prepend(self.render_avatar(state.current_user, replica_id)).prepend_all(
            self.render_collaborators(&state.active_worktree),
        );
        let right = align(
            Alignment::Right,
            Element::Flex { axis: Axis::Row, children: people },
        );
        let bar = Element::Stack(Children::End.prepend(right).prepend(title));
        Element::Named {
            name: "titlebar",
            child: Box::new(
                constrain(None, Some(Size::TitlebarHeight), contain(Style::Titlebar, bar)),
            ),
        }
    }

    /// Draws those who work in the active worktree.
    pub fn render_collaborators(&self, worktree: &Option<ActiveWorktree>) -> (elements: Vec<
        Element,
    >)
        ensures
            elements@ == collaborator_elements(*worktree),
    {
        let mut elements: Vec<Element> = Vec::new();
        if let Some(active) = worktree {
            let mut i: usize = 0;
            while i < active.collaborators.len()
                invariant
                    i <= active.collaborators@.len(),
                    *worktree == Some(*active),
                    elements@ == collaborator_elements(*worktree).take(i as int),
                decreases active.collaborators@.len() - i,
            {
                let collaborator = active.collaborators[i];
                elements.push(
                    self.render_avatar(Some(collaborator.user), Some(collaborator.replica_id)),
                );
                i += 1;
                assert(elements@ =~= collaborator_elements(*worktree).take(i as int));
            }
            assert(collaborator_elements(*worktree).take(active.collaborators@.len() as int)
                =~= collaborator_elements(*worktree));
        }
        elements
    }

    /// Draws the picture of a user or, where there is none, the button to sign in with.
    pub fn render_avatar(&self, user: Option<UserState>, replica_id: Option<u16>) -> (element:
        Element)
        ensures
            element == avatar_element(user, replica_id),
    {
        if let Some(UserState { avatar: Some(picture) }) = user {
            let image = align(
                Alignment::Center,
                constrain(
                    Some(Size::AvatarWidth),
                    None,
                    Element::Image { picture, style: Style::Avatar },
                ),
            );
            let color = Element::Container {
                style: Some(Style::AvatarRibbon),
                background: Background::Replica(replica_id),
                child: Box::new(Element::Empty),
            };
            let ribbon = align(
                Alignment::Bottom,
                constrain(Some(Size::AvatarRibbonWidth), Some(Size::AvatarRibbonHeight), color),
            );
            let both = Element::Stack(Children::End.prepend(ribbon).prepend(image));
            constrain(Some(Size::RightSidebarWidth), None, both)
        } else {
            align(
                Alignment::Center,
                Element::Button {
                    normal: Box::new(render_sign_in_label(Style::SignInPrompt)),
                    hovered: Box::new(render_sign_in_label(Style::HoveredSignInPrompt)),
                    click: Click::Authenticate,
                },
            )
        }
    }

    /// Draws the workspace. The sidebars show an item or none.
    pub fn render(&self, titlebar: &TitlebarState, left_item: bool, right_item: bool) -> (element:
        Element)
        ensures
            element == workspace_element(
                titlebar_element(*titlebar),
                content_element(self@.status_bar, self@.modal, left_item, right_item),
            ),
    {
        let panes = expand(
            Element::Flex {
                axis: Axis::Column,
                children: Children::End.prepend(Element::View(self.status_bar())).prepend(
                    expand(Element::Center),
                ),
            },
        );
        let row = Element::Flex {
            axis: Axis::Row,
            children: Children::End.prepend(Element::Sidebar(Side::Right)).prepend_optional(
                render_sidebar_item(Side::Right, right_item),
            ).prepend(panes).prepend_optional(
                render_sidebar_item(Side::Left, left_item),
            ).prepend(Element::Sidebar(Side::Left)),
        };
        let modal_view = match self.modal() {
            Some(view) => Some(Element::View(view)),
            None => None,
        };
        let content = Element::Stack(Children::End.prepend_optional(modal_view).prepend(row));
        let below = expand(content);
        let children = Children::End.prepend(below).prepend(self.render_titlebar(titlebar));
        Element::Named {
            name: "workspace",
            child: Box::new(
                Element::Container {
                    style: None,
                    background: Background::Workspace,
                    child: Box::new(Element::Flex { axis: Axis::Column, children }),
                },
            ),
        }
    }
}

} // verus!
