//! The decision core of an editor workspace.

pub mod center;
pub mod effects;
pub mod elements;
pub mod item_view;
pub mod items;
pub mod laws;
pub mod loading;
pub mod opening;
pub mod paths;
pub mod render;
pub mod setup;
pub mod state;
pub mod worktrees;
