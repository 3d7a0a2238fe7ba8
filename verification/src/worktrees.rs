//! What a workspace decides from the worktrees of its project.

use crate::paths::{clone_path, empty_path, is_rest, path_components, strip_prefix, ProjectPath};
use crate::state::Workspace;
use std::path::PathBuf;
use vstd::prelude::*;

verus! {

/// What is read of a worktree: its id and, where it lies on this machine, its root.
#[derive(Debug)]
pub struct WorktreeState {
    pub id: usize,
    pub abs_path: Option<PathBuf>,
}

/// What is read of a project: its worktrees.
#[derive(Debug)]
pub struct ProjectState {
    pub worktrees: Vec<WorktreeState>,
}

/// A worktree with the paths of all its files, the ignored ones among them.
#[derive(Debug)]
pub struct WorktreeFiles {
    pub id: usize,
    pub files: Vec<PathBuf>,
}

/// A worktree on this machine, to be added to a project.
#[derive(Debug, PartialEq, Eq)]
pub struct AddLocalWorktree {
    pub project: usize,
    pub abs_path: PathBuf,
}

/// Which worktree holds an absolute path.
#[derive(Debug, PartialEq, Eq)]
pub enum WorktreeLookup {
    /// This one, with the rest of the path below its root.
    Found { worktree: usize, path: PathBuf },
    /// None: one has to be added. Then `Workspace::worktree_added` is called.
    Missing(AddLocalWorktree),
}

impl WorktreeState {
    /// The worktree lies on this machine, and the path below its root.
    pub open spec fn holds(self, abs_path: PathBuf) -> bool {
        self.abs_path matches Some(root) && path_components(root).is_prefix_of(
            path_components(abs_path),
        )
    }

    /// The worktree lies on this machine.
    pub open spec fn is_local(self) -> bool {
        self.abs_path is Some
    }
}

/// The worktree at `i` is the first that holds the path.
pub open spec fn first_holder(worktrees: Seq<WorktreeState>, abs_path: PathBuf, i: int) -> bool {
    &&& 0 <= i < worktrees.len()
    &&& worktrees[i].holds(abs_path)
    &&& forall|j: int| 0 <= j < i ==> !(#[trigger] worktrees[j]).holds(abs_path)
}

/// No worktree holds the path.
pub open spec fn no_holder(worktrees: Seq<WorktreeState>, abs_path: PathBuf) -> bool {
    forall|j: int| 0 <= j < worktrees.len() ==> !(#[trigger] worktrees[j]).holds(abs_path)
}

/// Some worktree on this machine answered that it contains the path.
pub open spec fn some_worktree_contains(answers: Seq<Option<bool>>) -> bool {
    exists|i: int| 0 <= i < answers.len() && #[trigger] answers[i] == Some(true)
}

/// Of each of some paths, some worktree on this machine answered that it contains it.
pub open spec fn each_is_contained(answers: Seq<Vec<Option<bool>>>) -> bool {
    forall|i: int| 0 <= i < answers.len() ==> some_worktree_contains(#[trigger] answers[i]@)
}

/// The ids of the worktrees on this machine, in their order.
pub open spec fn local_worktrees(worktrees: Seq<WorktreeState>) -> Seq<usize>
    decreases worktrees.len(),
{
    if worktrees.len() == 0 {
        Seq::empty()
    } else {
        let front = local_worktrees(worktrees.drop_last());
        if worktrees.last().is_local() {
            front.push(worktrees.last().id)
        } else {
            front
        }
    }
}

impl WorktreeFiles {
    /// The project paths of the files.
    pub open spec fn project_paths(self) -> Seq<ProjectPath> {
        self.files@.map_values(|path: PathBuf| ProjectPath { worktree_id: self.id, path })
    }
}

/// The project paths of all files, worktree by worktree.
pub open spec fn all_project_paths(worktrees: Seq<WorktreeFiles>) -> Seq<ProjectPath>
    decreases worktrees.len(),
{
    if worktrees.len() == 0 {
        Seq::empty()
    } else {
        all_project_paths(worktrees.drop_last()) + worktrees.last().project_paths()
    }
}

/// The directory in which a new file is saved unless another is chosen: the root of the first
/// worktree, if that lies on this machine.
pub open spec fn is_start_path(worktrees: Seq<WorktreeState>, path: PathBuf) -> bool {
    if worktrees.len() > 0 && worktrees[0].is_local() {
        Some(path) == worktrees[0].abs_path
    } else {
        path_components(path) == Seq::<Seq<u8>>::empty()
    }
}

pub(crate) fn start_path(worktrees: &Vec<WorktreeState>) -> (path: PathBuf)
    ensures
        is_start_path(worktrees@, path),
{
    if worktrees.len() > 0 {
        if let Some(root) = &worktrees[0].abs_path {
            return clone_path(root);
        }
    }
    empty_path()
}

impl<G, S> Workspace<G, S> {
    /// The worktrees of the project.
    pub fn worktrees<'a>(&self, project: &'a ProjectState) -> (worktrees: &'a Vec<WorktreeState>)
        ensures
            *worktrees == project.worktrees,
    {
        &project.worktrees
    }

    /// Whether the project contains every one of some paths, by the answers of the worktrees for
    /// each path in turn.
    pub fn contains_paths(&self, answers: &Vec<Vec<Option<bool>>>) -> (contained: bool)
        ensures
            contained == forall|i: int|
                0 <= i < answers@.len() ==> some_worktree_contains(#[trigger] answers@[i]@),
            contained == each_is_contained(answers@),
    {
        let mut i: usize = 0;
        while i < answers.len()
            invariant
                i <= answers@.len(),
                forall|j: int| 0 <= j < i ==> some_worktree_contains(#[trigger] answers@[j]@),
            decreases answers@.len() - i,
        {
            if !self.contains_path(&answers[i]) {
                assert(!some_worktree_contains(answers@[i as int]@));
                return false;
            }
            i += 1;
        }
        true
    }

    /// Whether the project contains a path. The worktrees answer in turn: `None` where one is not
    /// on this machine, and otherwise whether it contains the path.
    pub fn contains_path(&self, answers: &Vec<Option<bool>>) -> (contained: bool)
        ensures
            contained == some_worktree_contains(answers@),
    {
        let mut i: usize = 0;
        while i < answers.len()
            invariant
                i <= answers@.len(),
                forall|j: int| 0 <= j < i ==> #[trigger] answers@[j] != Some(true),
            decreases answers@.len() - i,
        {
            if let Some(contains) = answers[i] {
                if contains {
                    assert(answers@[i as int] == Some(true));
                    return true;
                }
            }
            i += 1;
        }
        false
    }

    /// The worktrees whose scans have to be waited for, one after the other, until all that lie
    /// on this machine are scanned.
    pub fn worktree_scans_complete(&self, worktrees: &Vec<WorktreeState>) -> (scans: Vec<usize>)
        ensures
            scans@ == local_worktrees(worktrees@),
    {
        let mut scans: Vec<usize> = Vec::new();
        let mut i: usize = 0;
        while i < worktrees.len()
            invariant
                i <= worktrees@.len(),
                scans@ == local_worktrees(worktrees@.take(i as int)),
            decreases worktrees@.len() - i,
        {
            assert(worktrees@.take(i + 1).drop_last() =~= worktrees@.take(i as int));
            if worktrees[i].abs_path.is_some() {
                scans.push(worktrees[i].id);
            }
            i += 1;
        }
        assert(worktrees@.take(worktrees@.len() as int) =~= worktrees@);
        scans
    }

    /// Finds the first worktree that holds an absolute path, and the path relative to its root.
    /// Where no worktree does, one is to be added for the path itself.
    pub fn worktree_for_abs_path(
        &self,
        worktrees: &Vec<WorktreeState>,
        abs_path: &PathBuf,
    ) -> (lookup: WorktreeLookup)
        ensures
            match lookup {
                WorktreeLookup::Found { worktree, path } => exists|i: int| #[trigger]
                    first_holder(worktrees@, *abs_path, i) && worktree == worktrees@[i].id
                        && is_rest(worktrees@[i].abs_path->0, *abs_path, path),
                WorktreeLookup::Missing(addition) => no_holder(worktrees@, *abs_path) && addition
                    == (AddLocalWorktree { project: self@.project, abs_path: *abs_path }),
            },
    {
        let mut i: usize = 0;
        while i < worktrees.len()
            invariant
                i <= worktrees@.len(),
                forall|j: int| 0 <= j < i ==> !(#[trigger] worktrees@[j]).holds(*abs_path),
            decreases worktrees@.len() - i,
        {
            if let Some(root) = &worktrees[i].abs_path {
                if let Some(path) = strip_prefix(abs_path, root) {
                    assert(first_holder(worktrees@, *abs_path, i as int));
                    return WorktreeLookup::Found { worktree: worktrees[i].id, path };
                }
            }
            i += 1;
        }
        WorktreeLookup::Missing(self.add_worktree(abs_path))
    }

    /// A worktree on this machine, to be added to the project.
    pub fn add_worktree(&self, path: &PathBuf) -> (addition: AddLocalWorktree)
        ensures
            addition == (AddLocalWorktree { project: self@.project, abs_path: *path }),
    {
        AddLocalWorktree { project: self.project(), abs_path: clone_path(path) }
    }

    /// Where a path lies for which a worktree was to be added: at the root of that worktree.
    pub fn worktree_added<E>(&self, added: Result<usize, E>) -> (place: Result<
        (usize, PathBuf),
        E,
    >)
        ensures
            match added {
                Ok(worktree) => place matches Ok((id, path)) && id == worktree
                    && path_components(path) == Seq::<Seq<u8>>::empty(),
                Err(error) => place == Err::<(usize, PathBuf), E>(error),
            },
    {
        match added {
            Ok(worktree) => Ok((worktree, empty_path())),
            Err(error) => Err(error),
        }
    }

    /// The project path of a path that lies in a worktree.
    pub fn project_path_for_path<E>(&self, place: Result<(usize, PathBuf), E>) -> (project_path:
        Result<ProjectPath, E>)
        ensures
            match place {
                Ok((worktree_id, path)) => project_path == Ok::<ProjectPath, E>(
                    (ProjectPath { worktree_id, path }),
                ),
                Err(error) => project_path == Err::<ProjectPath, E>(error),
            },
    {
        match place {
            Ok((worktree_id, path)) => Ok(ProjectPath { worktree_id, path }),
            Err(error) => Err(error),
        }
    }
}

/// What can be asked of a workspace from outside.
pub trait WorkspaceHandle {
    /// The project paths of all files, worktree by worktree.
    fn file_project_paths(&self, worktrees: &Vec<WorktreeFiles>) -> (paths: Vec<ProjectPath>)
        ensures
            paths@ == all_project_paths(worktrees@),
    ;
}

impl<G, S> WorkspaceHandle for Workspace<G, S> {
    fn file_project_paths(&self, worktrees: &Vec<WorktreeFiles>) -> (paths: Vec<ProjectPath>) {
        let mut paths: Vec<ProjectPath> = Vec::new();
        let mut i: usize = 0;
        while i < worktrees.len()
            invariant
                i <= worktrees@.len(),
                paths@ == all_project_paths(worktrees@.take(i as int)),
            decreases worktrees@.len() - i,
        {
            let worktree = &worktrees[i];
            let ghost before = paths@;
            let mut k: usize = 0;
            assert(paths@ =~= before + worktree.project_paths().take(0));
            while k < worktree.files.len()
                invariant
                    k <= worktree.files@.len(),
                    paths@ == before + worktree.project_paths().take(k as int),
                decreases worktree.files@.len() - k,
            {
                paths.push(
                    ProjectPath { worktree_id: worktree.id, path: clone_path(&worktree.files[k]) },
                );
                k += 1;
                assert(paths@ =~= before + worktree.project_paths().take(k as int));
            }
            proof {
                let all = worktree.project_paths();
                assert(all.take(worktree.files@.len() as int) =~= all);
                assert(worktrees@.take(i + 1).drop_last() =~= worktrees@.take(i as int));
            }
            i += 1;
        }
        assert(worktrees@.take(worktrees@.len() as int) =~= worktrees@);
        paths
    }
}

} // verus!
