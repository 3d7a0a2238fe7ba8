use std::path::PathBuf;
use workspace::effects::Effect;
use workspace::item_view::EntryOpener;
use workspace::items::{ItemState, ItemViewState, PaneState};
use workspace::loading::{EntryLoad, LoadError, PendingEntry};
use workspace::paths::ProjectPath;
use workspace::setup::{WorkspaceParams, WorkspaceParts};
use workspace::state::{EntryRequest, ExistingEntry, LoadedEntry, OpenEntry, Workspace};

fn workspace() -> Workspace<(), ()> {
    let params = WorkspaceParams {
        client: 11,
        fs: 12,
        languages: 13,
        settings: 14,
        user_store: 15,
        channel_list: 16,
        entry_openers: vec![17, 18],
    };
    Workspace::new(&params, WorkspaceParts { project: 1, pane: 2, status_bar: 3 }, (), (), ())
}

fn at(worktree_id: usize, path: &str) -> ProjectPath {
    ProjectPath { worktree_id, path: PathBuf::from(path) }
}

fn live(id: usize, path: &str) -> ItemState {
    ItemState { id, project_path: Some(at(7, path)) }
}

fn show(item: usize, pane: usize) -> Effect {
    Effect::ShowItem { item, settings: 14, pane }
}

fn open(
    workspace: &mut Workspace<(), ()>,
    path: &str,
    live: &Vec<ItemState>,
) -> (PendingEntry, Option<EntryLoad>) {
    let request = workspace.request_entry(at(7, path));
    match workspace.open_entry(request, false, live, true) {
        OpenEntry::Pending { pending, load } => (pending, load),
        OpenEntry::Open(effect) => panic!("open: {:?}", effect),
        OpenEntry::NoWorktree => panic!("no worktree"),
    }
}

#[test]
fn request_goes_to_the_active_pane() {
    let mut workspace = workspace();
    workspace.pane_added(5);
    assert_eq!(
        workspace.request_entry(at(7, "a")),
        EntryRequest { pane: 5, project_path: at(7, "a") }
    );
}

#[test]
fn entry_that_the_pane_shows_is_activated() {
    let mut workspace = workspace();
    workspace.add_item(20);
    let request = workspace.request_entry(at(7, "a"));
    assert!(matches!(
        workspace.open_entry(request, true, &vec![], false),
        OpenEntry::Open(None)
    ));
    // No item is forgotten, though none is live.
    assert_eq!(workspace.items(), &[20]);
}

#[test]
fn entry_that_is_open_elsewhere_gets_another_view() {
    let mut workspace = workspace();
    assert_eq!(workspace.add_item(20), show(20, 2));
    workspace.add_item(21);
    workspace.add_item(22);
    let states = vec![live(20, "a"), live(22, "b")];
    workspace.pane_added(5);
    let request = workspace.request_entry(at(7, "./b"));
    // The components of "./b" and "b" differ.
    assert_eq!(
        workspace.activate_or_open_existing_entry(&request, false, &states),
        ExistingEntry::NotOpen
    );
    assert_eq!(workspace.items(), &[20, 22]);
    let request = workspace.request_entry(at(7, "b/"));
    match workspace.open_entry(request, false, &states, false) {
        OpenEntry::Open(effect) => assert_eq!(effect, Some(show(22, 5))),
        _ => panic!(),
    }
}

#[test]
fn first_item_of_an_entry_is_shown() {
    let mut workspace = workspace();
    for item in [23, 22, 21] {
        workspace.add_item(item);
    }
    let states = vec![live(21, "a"), live(22, "a"), live(23, "b")];
    let request = EntryRequest { pane: 9, project_path: at(7, "a") };
    assert_eq!(
        workspace.activate_or_open_existing_entry(&request, false, &states),
        ExistingEntry::Shown(show(22, 9))
    );
    assert_eq!(workspace.items(), &[23, 22, 21]);
    // A second look finds the same.
    assert_eq!(
        workspace.activate_or_open_existing_entry(&request, false, &states),
        ExistingEntry::Shown(show(22, 9))
    );
}

#[test]
fn same_path_in_another_worktree_is_another_entry() {
    let mut workspace = workspace();
    workspace.add_item(20);
    let request = EntryRequest { pane: 2, project_path: at(8, "a") };
    assert_eq!(
        workspace.activate_or_open_existing_entry(&request, false, &vec![live(20, "a")]),
        ExistingEntry::NotOpen
    );
}

#[test]
fn entry_without_worktree_is_not_opened() {
    let mut workspace = workspace();
    let request = workspace.request_entry(at(7, "a"));
    assert!(matches!(
        workspace.open_entry(request, false, &vec![], false),
        OpenEntry::NoWorktree
    ));
    // Nothing is being loaded: the next request starts the load.
    assert!(open(&mut workspace, "a", &vec![]).1.is_some());
}

struct Opener {
    suffix: &'static str,
}

type Asked = Vec<(&'static str, usize, ProjectPath)>;

impl EntryOpener for Opener {
    type Context = Asked;
    type Task = String;

    fn open(&self, worktree: usize, path: ProjectPath, cx: Asked) -> (Option<String>, Asked) {
        let mut cx = cx;
        cx.push((self.suffix, worktree, path.clone()));
        if path.path.to_str().unwrap().ends_with(self.suffix) {
            (Some(format!("open {}", self.suffix)), cx)
        } else {
            (None, cx)
        }
    }
}

#[test]
fn openers_are_asked_in_order() {
    let mut workspace = workspace();
    let (_, load) = open(&mut workspace, "a.txt", &vec![]);
    let mut load = load.unwrap();
    assert_eq!(load.openers, vec![17, 18]);
    // They are found by their ids, wherever they stand.
    let openers = vec![
        (19, Opener { suffix: "t" }),
        (18, Opener { suffix: ".txt" }),
        (17, Opener { suffix: ".png" }),
        (18, Opener { suffix: ".rs" }),
    ];
    let (task, asked) = load.open(&openers, vec![]);
    assert_eq!(task, Some("open .txt".to_string()));
    assert_eq!(asked, vec![(".png", 7, at(7, "a.txt")), (".txt", 7, at(7, "a.txt"))]);
    // None is asked after the one that took the entry.
    load.openers = vec![19, 17, 18];
    let (task, asked) = load.open(&openers, vec![]);
    assert_eq!(task, Some("open t".to_string()));
    assert_eq!(asked, vec![("t", 7, at(7, "a.txt"))]);
    // All are asked where none takes it.
    load.openers = vec![17, 17];
    let (task, asked) = load.open(&openers, vec![]);
    assert_eq!(task, None);
    assert_eq!(asked.len(), 2);
    assert_eq!(
        (load.next_opener(0), load.next_opener(1), load.next_opener(2)),
        (Some(17), Some(17), None)
    );
}

#[test]
fn second_request_joins_the_load() {
    let mut workspace = workspace();
    let (first, load) = open(&mut workspace, "a", &vec![]);
    let load = load.unwrap();
    workspace.pane_added(5);
    let (second, none) = open(&mut workspace, "a", &vec![]);
    assert!(none.is_none());
    let (other, other_load) = open(&mut workspace, "b", &vec![]);
    assert!(other_load.is_some());
    assert_eq!((first.pane, second.pane, other.pane), (2, 5, 5));
    assert_eq!(first.poll(), None);
    assert_eq!(second.poll(), None);
    load.finish(Some(Ok(30)));
    assert_eq!(first.poll(), Some(Ok(30)));
    assert_eq!(second.poll(), Some(Ok(30)));
    assert_eq!(other.poll(), None);

    // The first to come adds the item, in the pane that is active by then.
    let result = first.poll().unwrap();
    match workspace.entry_loaded(first, result, true) {
        LoadedEntry::Loaded { item, request } => {
            assert_eq!(request, EntryRequest { pane: 2, project_path: at(7, "a") });
            assert_eq!(
                workspace.show_loaded_entry(&request, item, false, &vec![]),
                Some(show(30, 5))
            );
        }
        loaded => panic!("{:?}", loaded),
    }
    assert_eq!(workspace.items(), &[30]);
    // The second finds it open, and shows it in its own pane.
    workspace.handle_pane_event(2, workspace::state::PaneEvent::Activate);
    let result = second.poll().unwrap();
    match workspace.entry_loaded(second, result, true) {
        LoadedEntry::Loaded { item, request } => {
            assert_eq!(
                workspace.show_loaded_entry(&request, item, false, &vec![live(30, "a")]),
                Some(show(30, 5))
            );
        }
        loaded => panic!("{:?}", loaded),
    }
    assert_eq!(workspace.items(), &[30]);
    // The load of "a" is over; that of "b" is not.
    assert!(open(&mut workspace, "a", &vec![]).1.is_some());
    assert!(open(&mut workspace, "b", &vec![]).1.is_none());
}

#[test]
fn loaded_entry_that_the_pane_shows_by_now() {
    let mut workspace = workspace();
    let request = EntryRequest { pane: 2, project_path: at(7, "a") };
    assert_eq!(workspace.show_loaded_entry(&request, 30, true, &vec![]), None);
    assert_eq!(workspace.items(), &[] as &[usize]);
}

#[test]
fn failures_reach_everyone_who_waits() {
    let mut workspace = workspace();
    let (pending, load) = open(&mut workspace, "a", &vec![]);
    load.unwrap().finish(None);
    assert_eq!(pending.poll(), Some(Err(LoadError::NoOpener)));
    let result = pending.poll().unwrap();
    assert_eq!(
        workspace.entry_loaded(pending, result, true),
        LoadedEntry::Failed(LoadError::NoOpener)
    );

    let (pending, load) = open(&mut workspace, "a", &vec![]);
    load.unwrap().finish(Some(Err(4)));
    let result = pending.poll().unwrap();
    assert_eq!(
        workspace.entry_loaded(pending, result, true),
        LoadedEntry::Failed(LoadError::Failed(4))
    );
}

#[test]
fn loaded_entry_is_dropped_with_its_pane() {
    let mut workspace = workspace();
    let (pending, load) = open(&mut workspace, "a", &vec![]);
    load.unwrap().finish(Some(Ok(30)));
    let result = pending.poll().unwrap();
    assert_eq!(workspace.entry_loaded(pending, result, false), LoadedEntry::PaneGone);
    assert_eq!(workspace.items(), &[] as &[usize]);
    assert!(open(&mut workspace, "a", &vec![]).1.is_some());
}

#[test]
fn project_learns_the_active_path() {
    let mut workspace = workspace();
    workspace.pane_added(5);
    let item = |id, path: Option<&str>| {
        Some(ItemViewState { id, project_path: path.map(|p| at(7, p)), has_conflict: false })
    };
    let panes = vec![
        PaneState { id: 2, active_item: item(40, Some("a")) },
        PaneState { id: 5, active_item: item(41, Some("b")) },
    ];
    assert_eq!(workspace.active_item(&panes).unwrap().id, 41);
    assert_eq!(workspace.active_project_path(&panes), Some(at(7, "b")));
    assert_eq!(
        workspace.pane_changed(&panes),
        Effect::SetActivePath { project: 1, path: Some(at(7, "b")) }
    );
    let unnamed = vec![PaneState { id: 5, active_item: item(41, None) }];
    assert_eq!(workspace.active_project_path(&unnamed), None);
    let empty = vec![PaneState { id: 5, active_item: None }];
    assert_eq!(workspace.active_item(&empty), None);
    assert_eq!(workspace.pane_changed(&empty), Effect::SetActivePath { project: 1, path: None });
}
