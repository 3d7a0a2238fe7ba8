//! Where paths are found, what is opened, and what is saved.

use crate::items::PaneState;
use crate::laws::panes::{first_state_of, lemma_pane_state, no_state_of};
use crate::opening::{
    OpenPath, OpenPathAction, OpenPathEvent, OpenPathState, PromptLevel, SaveAction, SaveEvent,
    SaveState,
};
use crate::paths::{joined_components, path_components, ProjectPath};
use crate::state::Workspace;
use crate::worktrees::{
    all_project_paths, each_is_contained, first_holder, local_worktrees, some_worktree_contains,
    AddLocalWorktree, ProjectState, WorkspaceHandle, WorktreeFiles, WorktreeLookup, WorktreeState,
};
use std::path::PathBuf;
use vstd::prelude::*;

verus! {

/// Some worktree on this machine said that it contains the path.
pub open spec fn said_to_be_contained(answers: Seq<Option<bool>>) -> bool {
    exists|k: int| 0 <= k < answers.len() && #[trigger] answers[k] == Some(true)
}

/// A path is contained exactly if some worktree says so of it. The answers of worktrees that are
/// not on this machine do not count.
pub proof fn contained_path_is_in_a_worktree<G, S>(
    w: Workspace<G, S>,
    answers: Vec<Option<bool>>,
    contained: bool,
)
    requires
        call_ensures(Workspace::<G, S>::contains_path, (&w, &answers), contained),
    ensures
        contained <==> said_to_be_contained(answers@),
{
}

/// Several paths are contained exactly if each one is.
pub proof fn contained_paths_are_each_in_a_worktree<G, S>(
    w: Workspace<G, S>,
    answers: Vec<Vec<Option<bool>>>,
    contained: bool,
)
    requires
        call_ensures(Workspace::<G, S>::contains_paths, (&w, &answers), contained),
    ensures
        contained ==> forall|j: int|
            0 <= j < answers@.len() ==> said_to_be_contained(#[trigger] answers@[j]@),
        !contained ==> exists|j: int|
            0 <= j < answers@.len() && !said_to_be_contained(#[trigger] answers@[j]@),
{
    assert(contained == each_is_contained(answers@));
    if contained {
        assert forall|j: int| 0 <= j < answers@.len() implies said_to_be_contained(
            #[trigger] answers@[j]@,
        ) by {
            assert(some_worktree_contains(answers@[j]@));
        }
    } else {
        let j = choose|j: int|
            0 <= j < answers@.len() && !some_worktree_contains(#[trigger] answers@[j]@);
        assert(!said_to_be_contained(answers@[j]@));
    }
}

/// Without paths there is nothing that is not contained.
pub proof fn no_paths_are_contained<G, S>(
    w: Workspace<G, S>,
    answers: Vec<Vec<Option<bool>>>,
    contained: bool,
)
    requires
        call_ensures(Workspace::<G, S>::contains_paths, (&w, &answers), contained),
        answers@.len() == 0,
    ensures
        contained,
{
}

/// The worktrees of a project are those of the project.
pub proof fn worktrees_are_those_of_the_project<G, S>(
    w: Workspace<G, S>,
    project: ProjectState,
    worktrees: &Vec<WorktreeState>,
)
    requires
        call_ensures(Workspace::<G, S>::worktrees, (&w, &project), worktrees),
    ensures
        worktrees@ == project.worktrees@,
{
}

/// The scans that are waited for are those of the worktrees on this machine, all of them, in the
/// order of the worktrees.
pub proof fn scans_follow_the_worktrees<G, S>(
    w: Workspace<G, S>,
    worktrees: Vec<WorktreeState>,
    scans: Vec<usize>,
)
    requires
        call_ensures(Workspace::<G, S>::worktree_scans_complete, (&w, &worktrees), scans),
    ensures
        scans@ == worktrees@.filter(|tree: WorktreeState| tree.abs_path is Some).map_values(
            |tree: WorktreeState| tree.id,
        ),
{
    lemma_local_worktrees(worktrees@);
}

proof fn lemma_local_worktrees(worktrees: Seq<WorktreeState>)
    ensures
        local_worktrees(worktrees) == worktrees.filter(
            |tree: WorktreeState| tree.abs_path is Some,
        ).map_values(|tree: WorktreeState| tree.id),
    decreases worktrees.len(),
{
    reveal(Seq::filter);
    let local = |tree: WorktreeState| tree.abs_path is Some;
    let id = |tree: WorktreeState| tree.id;
    if worktrees.len() > 0 {
        let front = worktrees.drop_last();
        lemma_local_worktrees(front);
        if local(worktrees.last()) {
            assert(front.filter(local).push(worktrees.last()).map_values(id) =~= front.filter(
                local,
            ).map_values(id).push(worktrees.last().id));
        }
    } else {
        assert(worktrees.filter(local).map_values(id) =~= Seq::<usize>::empty());
    }
}

/// The root of the worktree lies on this machine, and its components start those of the path.
pub open spec fn root_leads_to(worktree: WorktreeState, abs_path: PathBuf) -> bool {
    worktree.abs_path matches Some(root) && {
        &&& path_components(root).len() <= path_components(abs_path).len()
        &&& forall|i: int|
            0 <= i < path_components(root).len() ==> #[trigger] path_components(root)[i]
                == path_components(abs_path)[i]
    }
}

/// The worktree at `i` is the first whose root leads to the path.
pub open spec fn first_root(worktrees: Seq<WorktreeState>, abs_path: PathBuf, i: int) -> bool {
    &&& 0 <= i < worktrees.len()
    &&& root_leads_to(worktrees[i], abs_path)
    &&& forall|j: int| 0 <= j < i ==> !root_leads_to(#[trigger] worktrees[j], abs_path)
}

/// No root leads to the path.
pub open spec fn no_root(worktrees: Seq<WorktreeState>, abs_path: PathBuf) -> bool {
    forall|j: int| 0 <= j < worktrees.len() ==> !root_leads_to(#[trigger] worktrees[j], abs_path)
}

proof fn lemma_root(worktree: WorktreeState, abs_path: PathBuf)
    ensures
        root_leads_to(worktree, abs_path) == worktree.holds(abs_path),
{
    if let Some(root) = worktree.abs_path {
        let r = path_components(root);
        let p = path_components(abs_path);
        if root_leads_to(worktree, abs_path) {
            assert(p.take(r.len() as int) =~= r);
            assert(r.is_prefix_of(p));
        }
        if r.is_prefix_of(p) {
            assert(r =~= p.subrange(0, r.len() as int));
            assert forall|i: int| 0 <= i < r.len() implies #[trigger] r[i] == p[i] by {
                assert(r[i] == p.subrange(0, r.len() as int)[i]);
            }
        }
    }
}

/// A path lies in the first worktree whose root leads to it, at what is left of it there: joined
/// onto the root that is the path, it is empty exactly if the path is the root, and where the names
/// below the root hold no `/`, `\` or `:` and are not `.`, it has these names. Only a path to which
/// no root leads gets a worktree, of the path itself, in the project of the workspace.
pub proof fn path_lies_in_the_first_worktree<G, S>(
    w: Workspace<G, S>,
    worktrees: Vec<WorktreeState>,
    abs_path: PathBuf,
    lookup: WorktreeLookup,
)
    requires
        call_ensures(
            Workspace::<G, S>::worktree_for_abs_path,
            (&w, &worktrees, &abs_path),
            lookup,
        ),
    ensures
        lookup is Missing <==> no_root(worktrees@, abs_path),
        lookup matches WorktreeLookup::Missing(addition) ==> addition == (AddLocalWorktree {
            project: w@.project,
            abs_path,
        }),
        forall|i: int| #[trigger]
            first_root(worktrees@, abs_path, i) ==> {
                &&& lookup matches WorktreeLookup::Found { worktree, path }
                &&& worktree == worktrees@[i].id
                &&& is_left_of(worktrees@[i].abs_path->0, abs_path, path)
            },
{
    assert forall|j: int| 0 <= j < worktrees@.len() implies root_leads_to(
        #[trigger] worktrees@[j],
        abs_path,
    ) == worktrees@[j].holds(abs_path) by {
        lemma_root(worktrees@[j], abs_path);
    }
    if let WorktreeLookup::Found { worktree, path } = lookup {
        let k = choose|k: int| #[trigger]
            first_holder(worktrees@, abs_path, k) && worktree == worktrees@[k].id
                && crate::paths::is_rest(worktrees@[k].abs_path->0, abs_path, path);
        assert(root_leads_to(worktrees@[k], abs_path));
        let root = worktrees@[k].abs_path->0;
        assert(is_left_of(root, abs_path, path)) by {
            if has_plain_names_below(root, abs_path) {
                assert(crate::paths::is_plain_below(root, abs_path)) by {
                    assert forall|i: int|
                        path_components(root).len() <= i < path_components(
                            abs_path,
                        ).len() implies crate::paths::is_plain_name(
                        #[trigger] path_components(abs_path)[i],
                    ) by {}
                }
            }
        }
        assert forall|i: int| #[trigger] first_root(worktrees@, abs_path, i) implies i == k by {
            if i < k {
                assert(!worktrees@[i].holds(abs_path));
            } else if k < i {
                assert(!root_leads_to(worktrees@[k], abs_path));
            }
        }
    }
}

/// The names below the root hold no `/`, `\` or `:`, and none is `.`.
pub open spec fn has_plain_names_below(root: PathBuf, abs_path: PathBuf) -> bool {
    forall|i: int|
        path_components(root).len() <= i < path_components(abs_path).len() ==> {
            let name = #[trigger] path_components(abs_path)[i];
            &&& !name.contains(0x2f)
            &&& !name.contains(0x5c)
            &&& !name.contains(0x3a)
            &&& name != seq![0x2eu8]
        }
}

/// What is left of a path below a root.
pub open spec fn is_left_of(root: PathBuf, abs_path: PathBuf, rest: PathBuf) -> bool {
    &&& joined_components(root, rest) == path_components(abs_path)
    &&& path_components(rest).len() == 0 <==> path_components(abs_path).len() == path_components(
        root,
    ).len()
    &&& has_plain_names_below(root, abs_path) ==> path_components(rest).len() == path_components(
        abs_path,
    ).len() - path_components(root).len() && forall|i: int|
        0 <= i < path_components(rest).len() ==> #[trigger] path_components(rest)[i]
            == path_components(abs_path)[path_components(root).len() + i]
}

/// A worktree is added for the path, in the project of the workspace. Once it is, the path lies in
/// it at the root, and its project path is the worktree with an empty path; where adding it
/// failed, the error is handed on.
pub proof fn added_worktree_has_the_path_at_its_root<G, S, E>(
    w: Workspace<G, S>,
    abs_path: PathBuf,
    addition: AddLocalWorktree,
    added: Result<usize, E>,
    place: Result<(usize, PathBuf), E>,
    project_path: Result<ProjectPath, E>,
)
    requires
        call_ensures(Workspace::<G, S>::add_worktree, (&w, &abs_path), addition),
        call_ensures(Workspace::<G, S>::worktree_added::<E>, (&w, added), place),
        call_ensures(Workspace::<G, S>::project_path_for_path::<E>, (&w, place), project_path),
    ensures
        addition.project == w@.project,
        addition.abs_path == abs_path,
        place is Ok <==> added is Ok,
        project_path is Ok <==> added is Ok,
        project_path matches Ok(found) ==> found.worktree_id == added->Ok_0 && path_components(
            found.path,
        ).len() == 0,
        project_path matches Err(error) ==> error == added->Err_0,
{
}

/// The project path of a place is the worktree and the path there, and an error is handed on.
pub proof fn project_path_is_the_place<G, S, E>(
    w: Workspace<G, S>,
    place: Result<(usize, PathBuf), E>,
    project_path: Result<ProjectPath, E>,
)
    requires
        call_ensures(Workspace::<G, S>::project_path_for_path::<E>, (&w, place), project_path),
    ensures
        project_path is Ok <==> place is Ok,
        project_path matches Ok(found) ==> found.worktree_id == place->Ok_0.0 && found.path
            == place->Ok_0.1,
        project_path matches Err(error) ==> error == place->Err_0,
{
}

/// The project paths of all files are those of the files of each worktree, in turn.
pub proof fn files_come_worktree_by_worktree<G, S>(
    w: Workspace<G, S>,
    worktrees: Vec<WorktreeFiles>,
    paths: Vec<ProjectPath>,
)
    requires
        call_ensures(
            <Workspace::<G, S> as WorkspaceHandle>::file_project_paths,
            (&w, &worktrees),
            paths,
        ),
    ensures
        paths@ == worktrees@.map_values(
            |tree: WorktreeFiles|
                tree.files@.map_values(
                    |path: PathBuf| ProjectPath { worktree_id: tree.id, path },
                ),
        ).flatten(),
{
    lemma_all_project_paths(worktrees@);
}

proof fn lemma_all_project_paths(worktrees: Seq<WorktreeFiles>)
    ensures
        all_project_paths(worktrees) == worktrees.map_values(
            |tree: WorktreeFiles|
                tree.files@.map_values(
                    |path: PathBuf| ProjectPath { worktree_id: tree.id, path },
                ),
        ).flatten(),
    decreases worktrees.len(),
{
    let paths_of = |tree: WorktreeFiles|
        tree.files@.map_values(|path: PathBuf| ProjectPath { worktree_id: tree.id, path });
    let all = worktrees.map_values(paths_of);
    all.lemma_flatten_and_flatten_alt_are_equivalent();
    if worktrees.len() > 0 {
        let front = worktrees.drop_last();
        lemma_all_project_paths(front);
        assert(all.drop_last() =~= front.map_values(paths_of));
        all.drop_last().lemma_flatten_and_flatten_alt_are_equivalent();
        assert(all.last() == paths_of(worktrees.last()));
        assert(worktrees.last().project_paths() =~= paths_of(worktrees.last()));
    } else {
        assert(all =~= Seq::<Seq<ProjectPath>>::empty());
    }
}

/// Every path is opened on its own, in the order of the paths, and first looked for.
pub proof fn every_path_is_opened<G, S>(
    w: Workspace<G, S>,
    abs_paths: Vec<PathBuf>,
    openings: Vec<OpenPath>,
)
    requires
        call_ensures(Workspace::<G, S>::open_paths, (&w, &abs_paths), openings),
    ensures
        openings@.len() == abs_paths@.len(),
        forall|i: int|
            0 <= i < abs_paths@.len() ==> (#[trigger] openings@[i]).abs_path == abs_paths@[i],
        forall|i: int| 0 <= i < abs_paths@.len() ==> (#[trigger] openings@[i]).state is Locating,
{
}

/// A path that was found is opened exactly if it is a file, as the entry at its project path,
/// whatever that is, the root of a worktree included. Then its opening is over.
pub proof fn every_file_is_opened<E>(
    opening: &mut OpenPath,
    project_path: ProjectPath,
    first: OpenPathAction<E>,
    checking: &mut OpenPath,
    is_file: bool,
    second: OpenPathAction<E>,
    last: &mut OpenPath,
    third: OpenPathAction<E>,
)
    requires
        old(opening).state is Locating,
        call_ensures(
            OpenPath::next::<E>,
            (opening, OpenPathEvent::<E>::Located(Ok(project_path))),
            first,
        ),
        *old(checking) == *final(opening),
        call_ensures(
            OpenPath::next::<E>,
            (checking, OpenPathEvent::<E>::Checked { is_file }),
            second,
        ),
        *old(last) == *final(checking),
        call_ensures(OpenPath::next::<E>, (last, OpenPathEvent::<E>::Opened), third),
    ensures
        first is CheckIsFile,
        is_file ==> second == OpenPathAction::<E>::OpenEntry(project_path),
        !is_file ==> second is Nothing && final(checking).state is Finished,
        third is Nothing,
        final(last).state is Finished,
        final(last).abs_path == old(opening).abs_path,
{
}

/// A path that was not found is reported, with the error, and not opened.
pub proof fn missing_path_is_reported<E>(
    opening: &mut OpenPath,
    error: E,
    action: OpenPathAction<E>,
)
    requires
        old(opening).state is Locating,
        call_ensures(
            OpenPath::next::<E>,
            (opening, OpenPathEvent::<E>::Located(Err(error))),
            action,
        ),
    ensures
        action == OpenPathAction::<E>::Report(error),
        final(opening).state is Finished,
        final(opening).abs_path == old(opening).abs_path,
{
}

/// The event is what is waited for at this point of an opening.
pub open spec fn opening_waits_for<E>(state: OpenPathState, event: OpenPathEvent<E>) -> bool {
    ||| state is Locating && event is Located
    ||| state is Checking && event is Checked
    ||| state is Opening && event is Opened
}

/// What is not waited for leaves an opening as it is.
pub proof fn untimely_event_opens_nothing<E>(
    opening: &mut OpenPath,
    event: OpenPathEvent<E>,
    action: OpenPathAction<E>,
)
    requires
        call_ensures(OpenPath::next::<E>, (opening, event), action),
        !opening_waits_for(old(opening).state, event),
    ensures
        action is Nothing,
        *final(opening) == *old(opening),
{
}

/// Without an item in the active pane, nothing is saved.
pub proof fn nothing_to_save<G, S, E>(
    w: Workspace<G, S>,
    panes: Vec<PaneState>,
    worktrees: Vec<WorktreeState>,
    step: (SaveState, SaveAction<E>),
)
    requires
        call_ensures(Workspace::<G, S>::save_active_item::<E>, (&w, &panes, &worktrees), step),
        no_state_of(panes@, w@.active_pane) || exists|i: int| #[trigger]
            first_state_of(panes@, w@.active_pane, i) && panes@[i].active_item is None,
    ensures
        step.0 is Finished,
        step.1 is Nothing,
{
    lemma_pane_state(panes@, w@.active_pane);
}

/// The item that the active pane shows is saved, and no other: in its place at once if it has one
/// and nobody else has changed it, after a question if the file has changed on disk, and otherwise
/// under a path that is to be chosen. That starts at the root of the first worktree if it lies on
/// this machine, and else at an empty path.
pub proof fn active_item_is_saved<G, S, E>(
    w: Workspace<G, S>,
    panes: Vec<PaneState>,
    worktrees: Vec<WorktreeState>,
    step: (SaveState, SaveAction<E>),
    i: int,
)
    requires
        call_ensures(Workspace::<G, S>::save_active_item::<E>, (&w, &panes, &worktrees), step),
        first_state_of(panes@, w@.active_pane, i),
        panes@[i].active_item is Some,
    ensures
        ({
            let item = panes@[i].active_item->0;
            &&& item.project_path is None ==> {
                &&& step.0 == (SaveState::ChoosingPath { item: item.id })
                &&& step.1 matches SaveAction::PromptForNewPath { directory }
                &&& worktrees@.len() > 0 && worktrees@[0].abs_path is Some ==> directory
                    == worktrees@[0].abs_path->0
                &&& worktrees@.len() == 0 || worktrees@[0].abs_path is None ==> path_components(
                    directory,
                ).len() == 0
            }
            &&& item.project_path is Some && item.has_conflict ==> {
                &&& step.0 == (SaveState::Confirming { item: item.id })
                &&& step.1 matches SaveAction::Prompt { level, message, answers }
                &&& level is Warning
                &&& message@
                    == "This file has changed on disk since you started editing it. Do you want to overwrite it?"@
                &&& answers@.len() == 2
                &&& answers@[0]@ == "Overwrite"@
                &&& answers@[1]@ == "Cancel"@
            }
            &&& item.project_path is Some && !item.has_conflict ==> step.0 is Saving && step.1 == (
            SaveAction::<E>::Save { item: item.id })
        }),
{
    lemma_pane_state(panes@, w@.active_pane);
}

/// A file that has changed on disk is overwritten exactly if the first answer was given. Any other
/// answer ends it.
pub proof fn first_answer_overwrites<E>(
    item: usize,
    answer: usize,
    step: (SaveState, SaveAction<E>),
)
    requires
        call_ensures(
            SaveState::next::<E>,
            (SaveState::Confirming { item }, SaveEvent::<E>::Answered(answer)),
            step,
        ),
    ensures
        answer == 0 ==> step.0 is Saving && step.1 == (SaveAction::<E>::Save { item }),
        answer != 0 ==> step.0 is Finished && step.1 is Nothing,
{
}

/// An item without a place is saved where its chosen path is found: the path is looked for as it
/// was chosen, and the item is saved in the worktree and under the path that came back. Without a
/// choice nothing happens, and an error is reported.
pub proof fn chosen_path_is_saved_to<E>(
    item: usize,
    chosen: Option<PathBuf>,
    first: (SaveState, SaveAction<E>),
    located: Result<(usize, PathBuf), E>,
    second: (SaveState, SaveAction<E>),
)
    requires
        call_ensures(
            SaveState::next::<E>,
            (SaveState::ChoosingPath { item }, SaveEvent::<E>::PathChosen(chosen)),
            first,
        ),
        call_ensures(
            SaveState::next::<E>,
            (first.0, SaveEvent::<E>::Located(located)),
            second,
        ),
    ensures
        chosen is None ==> first.0 is Finished && first.1 is Nothing && second.0 is Finished
            && second.1 is Nothing,
        chosen matches Some(abs_path) ==> {
            &&& first.1 == SaveAction::<E>::Locate(abs_path)
            &&& located matches Ok((worktree, path)) ==> second.0 is Saving && second.1 == (
            SaveAction::<E>::SaveAs { item, worktree, path })
            &&& located matches Err(error) ==> second.0 is Finished && second.1
                == SaveAction::<E>::Report(error)
        },
{
}

/// Saving ends with its result: an error is reported, and success says nothing.
pub proof fn failed_save_is_reported<E>(saved: Result<(), E>, step: (SaveState, SaveAction<E>))
    requires
        call_ensures(
            SaveState::next::<E>,
            (SaveState::Saving, SaveEvent::<E>::Saved(saved)),
            step,
        ),
    ensures
        step.0 is Finished,
        saved is Ok ==> step.1 is Nothing,
        saved matches Err(error) ==> step.1 == SaveAction::<E>::Report(error),
{
}

/// The event is what is waited for at this point of saving.
pub open spec fn saving_waits_for<E>(state: SaveState, event: SaveEvent<E>) -> bool {
    ||| state is ChoosingPath && event is PathChosen
    ||| state is Locating && event is Located
    ||| state is Confirming && event is Answered
    ||| state is Saving && event is Saved
}

/// What is not waited for saves nothing.
pub proof fn untimely_event_saves_nothing<E>(
    state: SaveState,
    event: SaveEvent<E>,
    step: (SaveState, SaveAction<E>),
)
    requires
        call_ensures(SaveState::next::<E>, (state, event), step),
        !saving_waits_for(state, event),
    ensures
        step.0 == state,
        step.1 is Nothing,
{
}

} // verus!
