use workspace::effects::{Creation, Effect, Side, SplitDirection};
use workspace::setup::{
    SetupStep, WorkspaceFrame, WorkspaceParams, WorkspaceParts, WorkspaceSetup,
};
use workspace::state::{ModalToggle, PaneEvent, PaneEventStep, PaneSplit, Workspace};

fn params() -> WorkspaceParams {
    WorkspaceParams {
        client: 11,
        fs: 12,
        languages: 13,
        settings: 14,
        user_store: 15,
        channel_list: 16,
        entry_openers: vec![17, 18],
    }
}

fn parts() -> WorkspaceParts {
    WorkspaceParts { project: 1, pane: 2, status_bar: 3 }
}

fn workspace() -> Workspace<Vec<usize>, &'static str> {
    Workspace::new(&params(), parts(), vec![2], "left", "right")
}

#[test]
fn setup_makes_project_pane_and_status_bar() {
    let params = params();
    let (setup, creation) = WorkspaceSetup::start(&params);
    assert_eq!(creation, Creation::Project { languages: 13, client: 11, user_store: 15, fs: 12 });
    let next = match setup.next(&params, 1) {
        SetupStep::Create { effects, creation, next } => {
            assert_eq!(effects, vec![Effect::ObserveProject(1)]);
            assert_eq!(creation, Creation::Pane { settings: 14 });
            next
        }
        step => panic!("{:?}", step),
    };
    let next = match next.next(&params, 2) {
        SetupStep::Create { effects, creation, next } => {
            assert_eq!(
                effects,
                vec![Effect::ObservePane(2), Effect::SubscribeToPane(2), Effect::Focus(2)]
            );
            assert_eq!(creation, Creation::StatusBar { pane: 2, settings: 14 });
            next
        }
        step => panic!("{:?}", step),
    };
    assert_eq!(
        next.next(&params, 3),
        SetupStep::Finished {
            effects: vec![Effect::WatchCurrentUser { user_store: 15, client: 11 }],
            parts: parts(),
            frame: WorkspaceFrame {
                center_pane: 2,
                left_sidebar: Side::Left,
                right_sidebar: Side::Right,
            },
        }
    );
}

#[test]
fn new_workspace_has_one_active_pane() {
    let mut workspace = workspace();
    assert_eq!(workspace.panes(), &[2]);
    assert_eq!(workspace.active_pane(), 2);
    assert_eq!(workspace.status_bar(), 3);
    assert_eq!(workspace.project(), 1);
    assert_eq!(workspace.modal(), None);
    assert_eq!(workspace.items(), &[] as &[usize]);
    assert_eq!(
        (workspace.settings(), workspace.client(), workspace.user_store(), workspace.fs()),
        (14, 11, 15, 12)
    );
    assert_eq!(workspace.on_focus(), Effect::Focus(2));
    assert_eq!(Workspace::<(), ()>::ui_name(), "Workspace");
    *workspace.left_sidebar_mut() = "other left";
    *workspace.right_sidebar_mut() = "other right";
    assert_eq!(*workspace.sidebar_mut(Side::Left), "other left");
    *workspace.sidebar_mut(Side::Right) = "right again";
    assert_eq!(*workspace.right_sidebar_mut(), "right again");
    *workspace.sidebar_mut(Side::Right) = "other right";
    workspace.center_mut().push(4);
    assert_eq!(*workspace.sidebar(Side::Left), "other left");
    assert_eq!(*workspace.sidebar(Side::Right), "other right");
    assert_eq!(*workspace.center(), vec![2, 4]);
}

#[test]
fn split_introduces_and_activates_the_new_pane() {
    let mut workspace = workspace();
    let split = match workspace.handle_pane_event(2, PaneEvent::Split(SplitDirection::Right)) {
        PaneEventStep::Split(split) => split,
        step => panic!("{:?}", step),
    };
    assert_eq!(
        split,
        PaneSplit {
            from: 2,
            direction: SplitDirection::Right,
            creation: Creation::Pane { settings: 14 },
        }
    );
    let effects = workspace.split_pane_added(split, 5);
    assert_eq!(
        effects,
        vec![
            Effect::ObservePane(5),
            Effect::SubscribeToPane(5),
            Effect::SetStatusBarPane { status_bar: 3, pane: 5 },
            Effect::Focus(5),
            Effect::Notify,
            Effect::SetStatusBarPane { status_bar: 3, pane: 5 },
            Effect::Focus(5),
            Effect::Notify,
            Effect::CloneActiveItem { from: 2 },
        ]
    );
    let place = Effect::SplitCenter { old_pane: 2, new_pane: 5, direction: SplitDirection::Right };
    assert_eq!(
        workspace.finish_split(split, 5, Some(9)),
        vec![Effect::AddItemView { pane: 5, view: 9 }, place, Effect::Notify]
    );
    assert_eq!(
        workspace.finish_split(split, 5, None),
        vec![
            Effect::SplitCenter { old_pane: 2, new_pane: 5, direction: SplitDirection::Right },
            Effect::Notify
        ]
    );
    assert_eq!(workspace.panes(), &[2, 5]);
    assert_eq!(workspace.active_pane(), 5);
}

#[test]
fn added_pane_becomes_active() {
    let mut workspace = workspace();
    assert_eq!(workspace.add_pane(), Creation::Pane { settings: 14 });
    assert_eq!(
        workspace.pane_added(5),
        vec![
            Effect::ObservePane(5),
            Effect::SubscribeToPane(5),
            Effect::SetStatusBarPane { status_bar: 3, pane: 5 },
            Effect::Focus(5),
            Effect::Notify,
        ]
    );
    assert_eq!(workspace.active_pane(), 5);
}

#[test]
fn removing_a_pane_activates_the_last_of_the_others() {
    let mut workspace = workspace();
    workspace.pane_added(5);
    workspace.pane_added(6);
    assert_eq!(
        workspace.handle_pane_event(5, PaneEvent::Remove),
        PaneEventStep::Remove(Effect::RemoveFromCenter { pane: 5 })
    );
    assert_eq!(workspace.panes(), &[2, 5, 6]);
    assert_eq!(
        workspace.remove_pane(5, true),
        vec![
            Effect::SetStatusBarPane { status_bar: 3, pane: 6 },
            Effect::Focus(6),
            Effect::Notify
        ]
    );
    assert_eq!(workspace.panes(), &[2, 6]);
    assert_eq!(workspace.active_pane(), 6);
}

#[test]
fn last_pane_at_the_center_stays() {
    let mut workspace = workspace();
    assert_eq!(workspace.remove_pane(2, false), vec![]);
    assert_eq!(workspace.panes(), &[2]);
}

#[test]
fn removing_an_added_pane_restores_the_panes() {
    let mut workspace = workspace();
    workspace.pane_added(5);
    workspace.pane_added(6);
    workspace.handle_pane_event(2, PaneEvent::Activate);
    workspace.pane_added(7);
    workspace.remove_pane(7, true);
    assert_eq!(workspace.panes(), &[2, 5, 6]);
    assert_eq!(workspace.active_pane(), 6);
}

#[test]
fn pane_events_of_strangers_are_ignored() {
    let mut workspace = workspace();
    for event in [PaneEvent::Activate, PaneEvent::Remove, PaneEvent::Split(SplitDirection::Up)] {
        assert_eq!(workspace.handle_pane_event(99, event), PaneEventStep::NotFound);
    }
    assert_eq!(workspace.active_pane(), 2);
    assert_eq!(workspace.pane(99), None);
    assert_eq!(workspace.pane(2), Some(2));
}

#[test]
fn activating_a_pane() {
    let mut workspace = workspace();
    workspace.pane_added(5);
    assert_eq!(
        workspace.handle_pane_event(2, PaneEvent::Activate),
        PaneEventStep::Activated(vec![
            Effect::SetStatusBarPane { status_bar: 3, pane: 2 },
            Effect::Focus(2),
            Effect::Notify
        ])
    );
    assert_eq!(workspace.active_pane(), 2);
    assert_eq!(workspace.panes(), &[2, 5]);
}

#[test]
fn modal_is_toggled() {
    let mut workspace = workspace();
    assert_eq!(workspace.toggle_modal(true), ModalToggle::AddView);
    assert_eq!(workspace.modal_added(8), vec![Effect::Focus(8), Effect::Notify]);
    assert_eq!(workspace.modal(), Some(8));
    assert_eq!(workspace.toggle_modal(false), ModalToggle::AddView);
    assert_eq!(workspace.modal(), Some(8));
    workspace.modal_added(9);
    assert_eq!(workspace.modal(), Some(9));
    assert_eq!(
        workspace.toggle_modal(true),
        ModalToggle::Closed(vec![Effect::FocusSelf, Effect::Notify])
    );
    assert_eq!(workspace.modal(), None);
}

#[test]
fn modal_is_dismissed() {
    let mut workspace = workspace();
    assert_eq!(workspace.dismiss_modal(), vec![]);
    workspace.modal_added(8);
    assert_eq!(workspace.dismiss_modal(), vec![Effect::Focus(2), Effect::Notify]);
    assert_eq!(workspace.modal(), None);
}

// A group of panes as a plain list: it has every pane once, and keeps its last one.
fn perform_at_center(workspace: &mut Workspace<Vec<usize>, &'static str>, effects: Vec<Effect>) {
    for effect in effects {
        match effect {
            Effect::SplitCenter { old_pane, new_pane, .. } => {
                assert!(workspace.center().contains(&old_pane));
                workspace.center_mut().push(new_pane);
            }
            Effect::RemoveFromCenter { pane } => {
                assert!(workspace.center().contains(&pane));
                let removed = workspace.center().len() > 1;
                if removed {
                    workspace.center_mut().retain(|other| *other != pane);
                }
                workspace.remove_pane(pane, removed);
            }
            _ => {}
        }
    }
}

#[test]
fn panes_at_the_center_are_those_of_the_workspace() {
    let mut workspace = workspace();
    let events = vec![
        (2, PaneEvent::Remove),
        (2, PaneEvent::Split(SplitDirection::Right)),
        (10, PaneEvent::Split(SplitDirection::Up)),
        (99, PaneEvent::Remove),
        (2, PaneEvent::Activate),
        (10, PaneEvent::Remove),
        (2, PaneEvent::Remove),
        (11, PaneEvent::Remove),
    ];
    let mut new_pane = 10;
    for (pane, event) in events {
        match workspace.handle_pane_event(pane, event) {
            PaneEventStep::Split(split) => {
                workspace.split_pane_added(split, new_pane);
                let effects = workspace.finish_split(split, new_pane, None);
                perform_at_center(&mut workspace, effects);
                new_pane += 1;
            }
            PaneEventStep::Remove(effect) => perform_at_center(&mut workspace, vec![effect]),
            PaneEventStep::NotFound => assert_eq!(pane, 99),
            PaneEventStep::Activated(_) => {}
        }
        assert_eq!(workspace.panes(), workspace.center().as_slice());
        assert!(workspace.panes().contains(&workspace.active_pane()));
    }
    assert_eq!(workspace.panes(), &[11]);
}
