use std::path::PathBuf;
use workspace::items::{ItemViewState, PaneState};
use workspace::opening::{
    OpenPath, OpenPathAction, OpenPathEvent, OpenPathState, PromptLevel, SaveAction, SaveEvent,
    SaveState,
};
use workspace::paths::ProjectPath;
use workspace::setup::{WorkspaceParams, WorkspaceParts};
use workspace::state::Workspace;
use workspace::worktrees::{
    AddLocalWorktree, ProjectState, WorkspaceHandle, WorktreeFiles, WorktreeLookup, WorktreeState,
};

fn workspace() -> Workspace<(), ()> {
    let params = WorkspaceParams {
        client: 11,
        fs: 12,
        languages: 13,
        settings: 14,
        user_store: 15,
        channel_list: 16,
        entry_openers: vec![],
    };
    Workspace::new(&params, WorkspaceParts { project: 1, pane: 2, status_bar: 3 }, (), (), ())
}

fn path(path: &str) -> PathBuf {
    PathBuf::from(path)
}

fn worktrees() -> Vec<WorktreeState> {
    vec![
        WorktreeState { id: 30, abs_path: None },
        WorktreeState { id: 31, abs_path: Some(path("/home/a")) },
        WorktreeState { id: 32, abs_path: Some(path("/home")) },
    ]
}

#[test]
fn paths_are_found_in_the_first_worktree_that_holds_them() {
    let workspace = workspace();
    let found = |abs_path: &str| workspace.worktree_for_abs_path(&worktrees(), &path(abs_path));
    assert_eq!(
        found("/home/a/src/lib.rs"),
        WorktreeLookup::Found { worktree: 31, path: path("src/lib.rs") }
    );
    assert_eq!(found("/home/a"), WorktreeLookup::Found { worktree: 31, path: path("") });
    // A trailing separator adds nothing, and any name may stand below the root.
    assert_eq!(found("/home/a/"), WorktreeLookup::Found { worktree: 31, path: path("") });
    assert_eq!(
        found("/home/a/b:c/../d"),
        WorktreeLookup::Found { worktree: 31, path: path("b:c/../d") }
    );
    // Only whole components count.
    assert_eq!(found("/home/ab"), WorktreeLookup::Found { worktree: 32, path: path("ab") });
    assert_eq!(
        found("/tmp/x"),
        WorktreeLookup::Missing(AddLocalWorktree { project: 1, abs_path: path("/tmp/x") })
    );
}

#[test]
fn added_worktree_holds_its_path() {
    let workspace = workspace();
    let mut worktrees = worktrees();
    let abs_path = path("/tmp/x");
    let place = workspace.worktree_added::<String>(Ok(33)).unwrap();
    assert_eq!(place, (33, path("")));
    worktrees.push(WorktreeState { id: 33, abs_path: Some(abs_path.clone()) });
    assert_eq!(
        workspace.worktree_for_abs_path(&worktrees, &abs_path),
        WorktreeLookup::Found { worktree: 33, path: path("") }
    );
    assert_eq!(workspace.worktree_added(Err("no")), Err("no"));
    assert_eq!(
        workspace.add_worktree(&abs_path),
        AddLocalWorktree { project: 1, abs_path }
    );
}

#[test]
fn project_paths_of_places() {
    let workspace = workspace();
    assert_eq!(
        workspace.project_path_for_path::<String>(Ok((31, path("src")))),
        Ok(ProjectPath { worktree_id: 31, path: path("src") })
    );
    assert_eq!(workspace.project_path_for_path(Err("no")), Err("no"));
}

#[test]
fn paths_contained_in_the_project() {
    let workspace = workspace();
    assert!(workspace.contains_path(&vec![None, Some(false), Some(true)]));
    assert!(!workspace.contains_path(&vec![None, Some(false)]));
    assert!(!workspace.contains_path(&vec![]));
    assert!(workspace.contains_paths(&vec![]));
    assert!(workspace.contains_paths(&vec![vec![Some(true)], vec![None, Some(true)]]));
    assert!(!workspace.contains_paths(&vec![vec![Some(true)], vec![None]]));
}

#[test]
fn local_worktrees_are_scanned() {
    let workspace = workspace();
    let project = ProjectState { worktrees: worktrees() };
    let worktrees = workspace.worktrees(&project);
    assert_eq!(worktrees.len(), 3);
    assert_eq!(workspace.worktree_scans_complete(worktrees), vec![31, 32]);
    assert_eq!(workspace.worktree_scans_complete(&vec![]), vec![]);
}

#[test]
fn files_of_all_worktrees() {
    let workspace = workspace();
    let worktrees = vec![
        WorktreeFiles { id: 30, files: vec![path("a"), path("b/c")] },
        WorktreeFiles { id: 31, files: vec![] },
        WorktreeFiles { id: 32, files: vec![path("a")] },
    ];
    let at = |worktree_id, p| ProjectPath { worktree_id, path: path(p) };
    assert_eq!(
        workspace.file_project_paths(&worktrees),
        vec![at(30, "a"), at(30, "b/c"), at(32, "a")]
    );
}

#[test]
fn files_are_opened() {
    let workspace = workspace();
    let mut openings = workspace.open_paths(&vec![path("/home/a/x"), path("/tmp")]);
    assert_eq!(openings.len(), 2);
    assert_eq!(
        openings[1],
        OpenPath { abs_path: path("/tmp"), state: OpenPathState::Locating }
    );
    let opening = &mut openings[0];
    assert_eq!(opening.abs_path, path("/home/a/x"));
    let place = ProjectPath { worktree_id: 31, path: path("x") };
    assert_eq!(
        opening.next::<String>(OpenPathEvent::Opened),
        OpenPathAction::Nothing
    );
    assert_eq!(
        opening.next::<String>(OpenPathEvent::Located(Ok(place.clone()))),
        OpenPathAction::CheckIsFile
    );
    assert_eq!(
        opening.next::<String>(OpenPathEvent::Checked { is_file: true }),
        OpenPathAction::OpenEntry(place)
    );
    assert_eq!(opening.next::<String>(OpenPathEvent::Opened), OpenPathAction::Nothing);
    assert_eq!(opening.state, OpenPathState::Finished);
    assert_eq!(
        opening.next::<String>(OpenPathEvent::Checked { is_file: true }),
        OpenPathAction::Nothing
    );
}

#[test]
fn directories_are_not_opened() {
    let mut opening = OpenPath { abs_path: path("/tmp"), state: OpenPathState::Locating };
    let place = ProjectPath { worktree_id: 33, path: path("") };
    opening.next::<String>(OpenPathEvent::Located(Ok(place)));
    assert_eq!(
        opening.next::<String>(OpenPathEvent::Checked { is_file: false }),
        OpenPathAction::Nothing
    );
    assert_eq!(opening.state, OpenPathState::Finished);
}

#[test]
fn paths_without_worktree_are_reported() {
    let mut opening = OpenPath { abs_path: path("/tmp"), state: OpenPathState::Locating };
    assert_eq!(
        opening.next(OpenPathEvent::Located(Err("no"))),
        OpenPathAction::Report("no")
    );
    assert_eq!(opening.state, OpenPathState::Finished);
}

fn panes(project_path: Option<ProjectPath>, has_conflict: bool) -> Vec<PaneState> {
    vec![PaneState {
        id: 2,
        active_item: Some(ItemViewState { id: 40, project_path, has_conflict }),
    }]
}

fn somewhere() -> Option<ProjectPath> {
    Some(ProjectPath { worktree_id: 31, path: path("x") })
}

type Step = (SaveState, SaveAction<String>);

#[test]
fn item_is_saved_in_its_place() {
    let step: Step = workspace().save_active_item(&panes(somewhere(), false), &worktrees());
    assert_eq!(step, (SaveState::Saving, SaveAction::Save { item: 40 }));
    let step: Step = step.0.next(SaveEvent::Saved(Ok(())));
    assert_eq!(step, (SaveState::Finished, SaveAction::Nothing));
    let step: Step = SaveState::Saving.next(SaveEvent::Saved(Err("disk".to_string())));
    assert_eq!(step, (SaveState::Finished, SaveAction::Report("disk".to_string())));
}

#[test]
fn without_an_item_nothing_is_saved() {
    let empty = vec![PaneState { id: 2, active_item: None }];
    let step: Step = workspace().save_active_item(&empty, &worktrees());
    assert_eq!(step, (SaveState::Finished, SaveAction::Nothing));
}

#[test]
fn conflict_is_asked_about() {
    let step: Step = workspace().save_active_item(&panes(somewhere(), true), &worktrees());
    assert_eq!(
        step.1,
        SaveAction::Prompt {
            level: PromptLevel::Warning,
            message: "This file has changed on disk since you started editing it. Do you want to overwrite it?",
            answers: ["Overwrite", "Cancel"],
        }
    );
    let overwrite: Step = step.0.next(SaveEvent::Answered(0));
    assert_eq!(overwrite, (SaveState::Saving, SaveAction::Save { item: 40 }));
    let cancel: Step = step.0.next(SaveEvent::Answered(1));
    assert_eq!(cancel, (SaveState::Finished, SaveAction::Nothing));
    let stray: Step = step.0.next(SaveEvent::Saved(Ok(())));
    assert_eq!(stray, (SaveState::Confirming { item: 40 }, SaveAction::Nothing));
}

#[test]
fn new_item_is_saved_under_a_chosen_path() {
    let mut worktrees = worktrees();
    let step: Step = workspace().save_active_item(&panes(None, true), &worktrees);
    assert_eq!(
        step,
        (
            SaveState::ChoosingPath { item: 40 },
            SaveAction::PromptForNewPath { directory: path("") }
        )
    );
    worktrees.remove(0);
    let step: Step = workspace().save_active_item(&panes(None, false), &worktrees);
    assert_eq!(step.1, SaveAction::PromptForNewPath { directory: path("/home/a") });
    let none: Step = step.0.next(SaveEvent::PathChosen(None));
    assert_eq!(none, (SaveState::Finished, SaveAction::Nothing));
    let step: Step = step.0.next(SaveEvent::PathChosen(Some(path("/home/a/y"))));
    assert_eq!(
        step,
        (SaveState::Locating { item: 40 }, SaveAction::Locate(path("/home/a/y")))
    );
    let lost: Step = step.0.next(SaveEvent::Located(Err("no".to_string())));
    assert_eq!(lost, (SaveState::Finished, SaveAction::Report("no".to_string())));
    let step: Step = step.0.next(SaveEvent::Located(Ok((31, path("y")))));
    assert_eq!(
        step,
        (SaveState::Saving, SaveAction::SaveAs { item: 40, worktree: 31, path: path("y") })
    );
}
