use std::path::PathBuf;
use workspace::effects::{Effect, Side};
use workspace::elements::{
    Alignment, Axis, Background, Children, Click, Element, Size, Style,
};
use workspace::item_view::{item_event_actions, on_item_event, ItemView, PaneAction};
use workspace::paths::ProjectPath;
use workspace::render::{
    ActiveWorktree, Collaborator, ConnectionStatus, TitlebarState, UserState,
};
use workspace::setup::{
    init, Action, ActionHandler, CurrentUserWatch, Registrant, SidebarItemId, ToggleSidebarItem,
    ToggleSidebarItemFocus, WorkspaceParams, WorkspaceParts,
};
use workspace::state::Workspace;

fn workspace() -> Workspace<(), ()> {
    let params = WorkspaceParams {
        client: 11,
        fs: 12,
        languages: 13,
        settings: 14,
        user_store: 15,
        channel_list: 16,
        entry_openers: vec![],
    };
    Workspace::new(&params, WorkspaceParts { project: 1, pane: 2, status_bar: 3 }, (), (), ())
}

#[test]
fn actions_and_keys() {
    let registrations = init();
    assert_eq!(
        registrations.handlers,
        vec![
            ActionHandler::SaveActiveItem,
            ActionHandler::DebugElements,
            ActionHandler::ToggleSidebarItem,
            ActionHandler::ToggleSidebarItemFocus,
        ]
    );
    let first = SidebarItemId { side: Side::Left, item_index: 0 };
    let bindings: Vec<(&str, Action)> =
        registrations.bindings.iter().map(|b| (b.keystrokes, b.action)).collect();
    assert_eq!(
        bindings,
        vec![
            ("cmd-s", Action::Save),
            ("cmd-alt-i", Action::DebugElements),
            ("cmd-shift-!", Action::ToggleSidebarItem(ToggleSidebarItem(first))),
            ("cmd-1", Action::ToggleSidebarItemFocus(ToggleSidebarItemFocus(first))),
        ]
    );
    assert!(registrations.bindings.iter().all(|b| b.context.is_none()));
    assert_eq!(registrations.registrants, vec![Registrant::Panes]);
}

#[test]
fn first_values_of_user_and_connection_draw_nothing() {
    let watch = CurrentUserWatch::new();
    let (watch, effect) = watch.next(true, true);
    assert_eq!((watch, effect), (CurrentUserWatch::Connection, None));
    let (watch, effect) = watch.next(false, true);
    assert_eq!((watch, effect), (CurrentUserWatch::Either, None));
    assert_eq!(watch.next(true, true), (CurrentUserWatch::Either, Some(Effect::Notify)));
    assert_eq!(watch.next(true, false), (CurrentUserWatch::Either, None));
    assert_eq!(watch.next(false, true), (CurrentUserWatch::Ended, None));
    assert_eq!(CurrentUserWatch::Ended.next(true, true), (CurrentUserWatch::Ended, None));
}

#[test]
fn sidebar_items_are_toggled() {
    let workspace = workspace();
    let item = SidebarItemId { side: Side::Right, item_index: 4 };
    assert_eq!(
        workspace.toggle_sidebar_item(&ToggleSidebarItem(item)),
        Effect::ToggleSidebarItem { side: Side::Right, item_index: 4 }
    );
    assert_eq!(
        workspace.sidebar_item_toggled(Some(50)),
        vec![Effect::Focus(50), Effect::Notify]
    );
    assert_eq!(
        workspace.sidebar_item_toggled(None),
        vec![Effect::FocusSelf, Effect::Notify]
    );
    assert_eq!(
        workspace.toggle_sidebar_item_focus(&ToggleSidebarItemFocus(item)),
        Effect::ActivateSidebarItem { side: Side::Right, item_index: 4 }
    );
    assert_eq!(
        workspace.sidebar_item_activated(Some((50, false))),
        vec![Effect::Focus(50), Effect::Notify]
    );
    assert_eq!(
        workspace.sidebar_item_activated(Some((50, true))),
        vec![Effect::FocusSelf, Effect::Notify]
    );
    assert_eq!(workspace.sidebar_item_activated(None), vec![Effect::Notify]);
}

#[test]
fn elements_are_copied() {
    let workspace = workspace();
    assert_eq!(
        workspace.debug_elements::<String>(Ok("{}".to_string())),
        Ok(Effect::WriteToClipboard("{}".to_string()))
    );
    assert_eq!(workspace.debug_elements(Err("no")), Err("no"));
}

enum EditorEvent {
    Closed,
    Edited,
    Blurred,
}

struct Editor;

impl ItemView for Editor {
    type Event = EditorEvent;
    type Task = ();
    type Error = ();

    fn title(&self) -> String {
        "editor".to_string()
    }

    fn project_path(&self) -> Option<ProjectPath> {
        None
    }

    fn save(&mut self) -> Result<(), ()> {
        Ok(())
    }

    fn save_as(&mut self, _: usize, _: &PathBuf) {}

    fn should_activate_item_on_event(event: &EditorEvent) -> bool {
        matches!(event, EditorEvent::Edited)
    }

    fn should_close_item_on_event(event: &EditorEvent) -> bool {
        matches!(event, EditorEvent::Closed)
    }

    fn should_update_tab_on_event(_: &EditorEvent) -> bool {
        true
    }
}

struct Plain;

impl ItemView for Plain {
    type Event = ();
    type Task = ();
    type Error = ();

    fn title(&self) -> String {
        "plain".to_string()
    }

    fn project_path(&self) -> Option<ProjectPath> {
        None
    }

    fn save(&mut self) -> Result<(), ()> {
        Err(())
    }

    fn save_as(&mut self, _: usize, _: &PathBuf) {}
}

#[test]
fn panes_follow_item_views() {
    assert_eq!(
        on_item_event::<Editor>(8, Some(1), &EditorEvent::Closed),
        vec![PaneAction::CloseItem(8)]
    );
    assert_eq!(
        on_item_event::<Editor>(8, Some(1), &EditorEvent::Edited),
        vec![PaneAction::ActivateItem(1), PaneAction::Activate, PaneAction::Notify]
    );
    assert_eq!(
        on_item_event::<Editor>(8, None, &EditorEvent::Edited),
        vec![PaneAction::Notify]
    );
    assert_eq!(
        on_item_event::<Editor>(8, Some(1), &EditorEvent::Blurred),
        vec![PaneAction::Notify]
    );
    assert_eq!(
        item_event_actions(8, Some(1), true, true, true),
        vec![PaneAction::CloseItem(8)]
    );
    assert_eq!(on_item_event::<Plain>(8, Some(1), &()), vec![]);
}

#[test]
fn plain_item_views() {
    assert!(Plain.clone_on_split().is_none());
    assert!(!Plain.is_dirty());
    assert!(!Plain.has_conflict());
}

fn list(elements: Vec<Element>) -> Children {
    let mut children = Children::End;
    for element in elements.into_iter().rev() {
        children = Children::Then(Box::new(element), Box::new(children));
    }
    children
}

fn container(style: Style, child: Element) -> Element {
    Element::Container {
        style: Some(style),
        background: Background::OfStyle,
        child: Box::new(child),
    }
}

fn align(alignment: Alignment, child: Element) -> Element {
    Element::Align { alignment, child: Box::new(child) }
}

fn offline() -> Element {
    container(
        Style::OfflineIcon,
        align(
            Alignment::Center,
            Element::Constrained {
                width: Some(Size::OfflineIconWidth),
                height: None,
                child: Box::new(Element::Svg {
                    path: "icons/offline-14.svg",
                    color: Style::TitlebarIcon,
                }),
            },
        ),
    )
}

#[test]
fn connection_status() {
    let workspace = workspace();
    for status in [
        ConnectionStatus::ConnectionError,
        ConnectionStatus::ConnectionLost,
        ConnectionStatus::Reauthenticating,
        ConnectionStatus::Reconnecting,
        ConnectionStatus::ReconnectionError,
    ] {
        assert_eq!(workspace.render_connection_status(status), Some(offline()));
    }
    assert_eq!(
        workspace.render_connection_status(ConnectionStatus::UpgradeRequired),
        Some(align(
            Alignment::Center,
            container(
                Style::OutdatedWarning,
                Element::Label {
                    text: "Please update Zed to collaborate",
                    style: Style::OutdatedWarning
                }
            )
        ))
    );
    assert_eq!(workspace.render_connection_status(ConnectionStatus::Other), None);
}

fn picture(picture: usize, replica_id: Option<u16>) -> Element {
    Element::Constrained {
        width: Some(Size::RightSidebarWidth),
        height: None,
        child: Box::new(Element::Stack(list(vec![
            align(
                Alignment::Center,
                Element::Constrained {
                    width: Some(Size::AvatarWidth),
                    height: None,
                    child: Box::new(Element::Image { picture, style: Style::Avatar }),
                },
            ),
            align(
                Alignment::Bottom,
                Element::Constrained {
                    width: Some(Size::AvatarRibbonWidth),
                    height: Some(Size::AvatarRibbonHeight),
                    child: Box::new(Element::Container {
                        style: Some(Style::AvatarRibbon),
                        background: Background::Replica(replica_id),
                        child: Box::new(Element::Empty),
                    }),
                },
            ),
        ]))),
    }
}

fn sign_in() -> Element {
    let label = |style| container(style, Element::Label { text: "Sign in", style });
    align(
        Alignment::Center,
        Element::Button {
            normal: Box::new(label(Style::SignInPrompt)),
            hovered: Box::new(label(Style::HoveredSignInPrompt)),
            click: Click::Authenticate,
        },
    )
}

#[test]
fn avatars() {
    let workspace = workspace();
    let user = Some(UserState { avatar: Some(60) });
    assert_eq!(workspace.render_avatar(user, Some(2)), picture(60, Some(2)));
    assert_eq!(workspace.render_avatar(user, None), picture(60, None));
    assert_eq!(workspace.render_avatar(Some(UserState { avatar: None }), Some(2)), sign_in());
    assert_eq!(workspace.render_avatar(None, None), sign_in());
}

#[test]
fn whole_workspace() {
    let mut workspace = workspace();
    let collaborator =
        |avatar, replica_id| Collaborator { user: UserState { avatar: Some(avatar) }, replica_id };
    let titlebar = TitlebarState {
        current_user: Some(UserState { avatar: Some(60) }),
        active_worktree: Some(ActiveWorktree {
            replica_id: 9,
            collaborators: vec![collaborator(61, 1), collaborator(62, 2)],
        }),
        status: ConnectionStatus::ConnectionLost,
    };
    assert_eq!(
        workspace.render_collaborators(&titlebar.active_worktree),
        vec![picture(61, Some(1)), picture(62, Some(2))]
    );
    assert_eq!(workspace.render_collaborators(&None), vec![]);
    let bar = |people| Element::Named {
        name: "titlebar",
        child: Box::new(Element::Constrained {
            width: None,
            height: Some(Size::TitlebarHeight),
            child: Box::new(container(
                Style::Titlebar,
                Element::Stack(list(vec![
                    align(
                        Alignment::Center,
                        Element::Label { text: "zed", style: Style::Title },
                    ),
                    align(
                        Alignment::Right,
                        Element::Flex { axis: Axis::Row, children: list(people) },
                    ),
                ])),
            )),
        }),
    };
    let people = || {
        vec![
            picture(61, Some(1)),
            picture(62, Some(2)),
            picture(60, Some(9)),
            offline(),
        ]
    };
    assert_eq!(workspace.render_titlebar(&titlebar), bar(people()));

    let expanded = |child| Element::Expanded { tenths: 10, child: Box::new(child) };
    let item = |side| Element::Flexible { tenths: 8, child: Box::new(Element::SidebarItem(side)) };
    let center = || {
        expanded(Element::Flex {
            axis: Axis::Column,
            children: list(vec![expanded(Element::Center), Element::View(3)]),
        })
    };
    let whole = |titlebar, content| Element::Named {
        name: "workspace",
        child: Box::new(Element::Container {
            style: None,
            background: Background::Workspace,
            child: Box::new(Element::Flex {
                axis: Axis::Column,
                children: list(vec![titlebar, expanded(Element::Stack(list(content)))]),
            }),
        }),
    };
    assert_eq!(
        workspace.render(&titlebar, true, false),
        whole(
            bar(people()),
            vec![Element::Flex {
                axis: Axis::Row,
                children: list(vec![
                    Element::Sidebar(Side::Left),
                    item(Side::Left),
                    center(),
                    Element::Sidebar(Side::Right),
                ]),
            }]
        )
    );
    workspace.modal_added(70);
    let nobody = TitlebarState {
        current_user: None,
        active_worktree: None,
        status: ConnectionStatus::Other,
    };
    assert_eq!(
        workspace.render(&nobody, false, true),
        whole(
            bar(vec![sign_in()]),
            vec![
                Element::Flex {
                    axis: Axis::Row,
                    children: list(vec![
                        Element::Sidebar(Side::Left),
                        center(),
                        item(Side::Right),
                        Element::Sidebar(Side::Right),
                    ]),
                },
                Element::View(70),
            ]
        )
    );
}
