//! Opening absolute paths, and saving.

use crate::items::{shown_item, PaneState};
use crate::paths::{clone_path, ProjectPath};
use crate::state::Workspace;
use crate::worktrees::{is_start_path, start_path, WorktreeState};
use std::path::PathBuf;
use vstd::prelude::*;

verus! {

/// How far the opening of an absolute path has come.
#[derive(Debug, PartialEq, Eq)]
pub enum OpenPathState {
    /// Its worktree is being looked for, or added.
    Locating,
    /// It is being found out whether the path is a file.
    Checking(ProjectPath),
    /// Its entry is being opened.
    Opening,
    /// It has come to an end.
    Finished,
}

/// What happens while an absolute path is opened.
#[derive(Debug, PartialEq, Eq)]
pub enum OpenPathEvent<E> {
    Located(Result<ProjectPath, E>),
    Checked { is_file: bool },
    Opened,
}

/// What to do next to open an absolute path.
#[derive(Debug, PartialEq, Eq)]
pub enum OpenPathAction<E> {
    /// Find out whether the path is a file.
    CheckIsFile,
    /// Open the entry and, where it has to be waited for, wait.
    OpenEntry(ProjectPath),
    /// Report that the path was not opened.
    Report(E),
    /// Do nothing.
    Nothing,
}

/// The opening of one absolute path. It starts with its project path being looked for.
#[derive(Debug, PartialEq, Eq)]
pub struct OpenPath {
    pub abs_path: PathBuf,
    pub state: OpenPathState,
}

/// What follows while an absolute path is opened: a path is opened if it is a file. An event that
/// is not the one waited for changes nothing.
pub open spec fn next_opening<E>(
    state: OpenPathState,
    event: OpenPathEvent<E>,
) -> (OpenPathState, OpenPathAction<E>) {
    match (state, event) {
        (OpenPathState::Locating, OpenPathEvent::Located(Ok(project_path))) => (
            OpenPathState::Checking(project_path),
            OpenPathAction::<E>::CheckIsFile,
        ),
        (OpenPathState::Locating, OpenPathEvent::Located(Err(error))) => (
            OpenPathState::Finished,
            OpenPathAction::<E>::Report(error),
        ),
        (OpenPathState::Checking(project_path), OpenPathEvent::Checked { is_file }) => if is_file {
            (OpenPathState::Opening, OpenPathAction::<E>::OpenEntry(project_path))
        } else {
            (OpenPathState::Finished, OpenPathAction::<E>::Nothing)
        },
        (OpenPathState::Opening, OpenPathEvent::Opened) => (
            OpenPathState::Finished,
            OpenPathAction::<E>::Nothing,
        ),
        (other, _) => (other, OpenPathAction::<E>::Nothing),
    }
}

impl OpenPath {
    /// Follows an event.
    pub fn next<E>(&mut self, event: OpenPathEvent<E>) -> (action: OpenPathAction<E>)
        ensures
            final(self).abs_path == old(self).abs_path,
            (final(self).state, action) == next_opening(old(self).state, event),
    {
        match event {
            OpenPathEvent::Located(located) => {
                if let OpenPathState::Locating = &self.state {
                    return match located {
                        Ok(project_path) => {
                            self.state = OpenPathState::Checking(project_path);
                            OpenPathAction::CheckIsFile
                        },
                        Err(error) => {
                            self.state = OpenPathState::Finished;
                            OpenPathAction::Report(error)
                        },
                    };
                }
                OpenPathAction::Nothing
            },
            OpenPathEvent::Checked { is_file } => {
                if let OpenPathState::Checking(project_path) = &self.state {
                    let project_path = project_path.clone();
                    if is_file {
                        self.state = OpenPathState::Opening;
                        return OpenPathAction::OpenEntry(project_path);
                    }
                    self.state = OpenPathState::Finished;
                }
                OpenPathAction::Nothing
            },
            OpenPathEvent::Opened => {
                if let OpenPathState::Opening = &self.state {
                    self.state = OpenPathState::Finished;
                }
                OpenPathAction::Nothing
            },
        }
    }
}

/// The question whether to overwrite a file that has changed on disk.
pub const CONFLICT_MESSAGE: &'static str =
    "This file has changed on disk since you started editing it. Do you want to overwrite it?";

/// How urgent a question is.
#[derive(Clone, Copy, Debug, PartialEq, Eq, Structural)]
pub enum PromptLevel {
    Warning,
}

/// How far the saving of an item view has come.
#[derive(Clone, Copy, Debug, PartialEq, Eq, Structural)]
pub enum SaveState {
    /// A path is being chosen for the item.
    ChoosingPath { item: usize },
    /// The worktree of the chosen path is being looked for, or added.
    Locating { item: usize },
    /// It is being asked whether to overwrite the file.
    Confirming { item: usize },
    /// The item is being saved.
    Saving,
    /// It has come to an end.
    Finished,
}

/// What happens while an item view is saved.
#[derive(Debug, PartialEq, Eq)]
pub enum SaveEvent<E> {
    PathChosen(Option<PathBuf>),
    Located(Result<(usize, PathBuf), E>),
    /// The answer with this index was given.
    Answered(usize),
    Saved(Result<(), E>),
}

/// What to do next to save an item view.
#[derive(Debug, PartialEq, Eq)]
pub enum SaveAction<E> {
    /// Have a path chosen, starting in this directory.
    PromptForNewPath { directory: PathBuf },
    /// Ask a question.
    Prompt { level: PromptLevel, message: &'static str, answers: [&'static str; 2] },
    /// Look for the worktree of a path.
    Locate(PathBuf),
    /// Save the item in its place.
    Save { item: usize },
    /// Save the item in a worktree, under a path.
    SaveAs { item: usize, worktree: usize, path: PathBuf },
    /// Report that the item was not saved.
    Report(E),
    /// Do nothing.
    Nothing,
}

/// The index of the answer by which a file is overwritten.
pub const OVERWRITE: usize = 0;

/// What follows while an item view is saved. An event that is not the one waited for changes
/// nothing.
pub open spec fn next_saving<E>(state: SaveState, event: SaveEvent<E>) -> (
    SaveState,
    SaveAction<E>,
) {
    match (state, event) {
        (SaveState::ChoosingPath { item }, SaveEvent::PathChosen(Some(abs_path))) => (
            SaveState::Locating { item },
            SaveAction::<E>::Locate(abs_path),
        ),
        (SaveState::ChoosingPath { .. }, SaveEvent::PathChosen(None)) => (
            SaveState::Finished,
            SaveAction::<E>::Nothing,
        ),
        (SaveState::Locating { item }, SaveEvent::Located(Ok((worktree, path)))) => (
            SaveState::Saving,
            SaveAction::<E>::SaveAs { item, worktree, path },
        ),
        (SaveState::Locating { .. }, SaveEvent::Located(Err(error))) => (
            SaveState::Finished,
            SaveAction::<E>::Report(error),
        ),
        (SaveState::Confirming { item }, SaveEvent::Answered(answer)) => if answer
            == OVERWRITE {
            (SaveState::Saving, SaveAction::<E>::Save { item })
        } else {
            (SaveState::Finished, SaveAction::<E>::Nothing)
        },
        (SaveState::Saving, SaveEvent::Saved(Ok(_))) => (
            SaveState::Finished,
            SaveAction::<E>::Nothing,
        ),
        (SaveState::Saving, SaveEvent::Saved(Err(error))) => (
            SaveState::Finished,
            SaveAction::<E>::Report(error),
        ),
        (other, _) => (other, SaveAction::<E>::Nothing),
    }
}

impl SaveState {
    /// Follows an event.
    pub fn next<E>(self, event: SaveEvent<E>) -> (step: (SaveState, SaveAction<E>))
        ensures
            step == next_saving(self, event),
    {
        match (self, event) {
            (SaveState::ChoosingPath { item }, SaveEvent::PathChosen(chosen)) => match chosen {
                Some(abs_path) => (SaveState::Locating { item }, SaveAction::Locate(abs_path)),
                None => (SaveState::Finished, SaveAction::Nothing),
            },
            (SaveState::Locating { item }, SaveEvent::Located(located)) => match located {
                Ok((worktree, path)) => (
                    SaveState::Saving,
                    SaveAction::SaveAs { item, worktree, path },
                ),
                Err(error) => (SaveState::Finished, SaveAction::Report(error)),
            },
            (SaveState::Confirming { item }, SaveEvent::Answered(answer)) => {
                if answer == OVERWRITE {
                    (SaveState::Saving, SaveAction::Save { item })
                } else {
                    (SaveState::Finished, SaveAction::Nothing)
                }
            },
            (SaveState::Saving, SaveEvent::Saved(saved)) => match saved {
                Ok(_) => (SaveState::Finished, SaveAction::Nothing),
                Err(error) => (SaveState::Finished, SaveAction::Report(error)),
            },
            (state, _) => (state, SaveAction::Nothing),
        }
    }
}

impl<G, S> Workspace<G, S> {
    /// Opens absolute paths. The project paths of all of them are looked for first; then each is
    /// opened on its own.
    pub fn open_paths(&self, abs_paths: &Vec<PathBuf>) -> (openings: Vec<OpenPath>)
        ensures
            openings@ == abs_paths@.map_values(
                |abs_path: PathBuf| OpenPath { abs_path, state: OpenPathState::Locating },
            ),
    {
        let mut openings: Vec<OpenPath> = Vec::new();
        let mut i: usize = 0;
        while i < abs_paths.len()
            invariant
                i <= abs_paths@.len(),
                openings@.len() == i,
                forall|j: int|
                    0 <= j < i ==> #[trigger] openings@[j] == (OpenPath {
                        abs_path: abs_paths@[j],
                        state: OpenPathState::Locating,
                    }),
            decreases abs_paths@.len() - i,
        {
            openings.push(
                OpenPath { abs_path: clone_path(&abs_paths[i]), state: OpenPathState::Locating },
            );
            i += 1;
        }
        openings
    }

    /// Saves the item view that the active pane shows, if there is one. An item without a project
    /// path gets one first, and a file that has changed on disk is not overwritten unasked.
    pub fn save_active_item<E>(
        &self,
        panes: &Vec<PaneState>,
        worktrees: &Vec<WorktreeState>,
    ) -> (step: (SaveState, SaveAction<E>))
        ensures
            match shown_item(panes@, self@.active_pane) {
                None => step == (SaveState::Finished, SaveAction::<E>::Nothing),
                Some(item) => if item.project_path is None {
                    step.0 == (SaveState::ChoosingPath { item: item.id }) && (
                    step.1 matches SaveAction::PromptForNewPath { directory } && is_start_path(
                        worktrees@,
                        directory,
                    ))
                } else if item.has_conflict {
                    step.0 == (SaveState::Confirming { item: item.id }) && (
                    step.1 matches SaveAction::Prompt { level, message, answers } && level
                        == PromptLevel::Warning && message@ == CONFLICT_MESSAGE@ && answers@ == seq![
                        "Overwrite",
                        "Cancel",
                    ])
                } else {
                    step == (SaveState::Saving, SaveAction::<E>::Save { item: item.id })
                },
            },
    {
        match self.active_item(panes) {
            None => (SaveState::Finished, SaveAction::Nothing),
            Some(item) => {
                if item.project_path.is_none() {
                    (
                        SaveState::ChoosingPath { item: item.id },
                        SaveAction::PromptForNewPath { directory: start_path(worktrees) },
                    )
                } else if item.has_conflict {
                    (
                        SaveState::Confirming { item: item.id },
                        SaveAction::Prompt {
                            level: PromptLevel::Warning,
                            message: CONFLICT_MESSAGE,
                            answers: ["Overwrite", "Cancel"],
                        },
                    )
                } else {
                    (SaveState::Saving, SaveAction::Save { item: item.id })
                }
            },
        }
    }
}

} // verus!
