//! What is read of items and of the panes that show them.

use crate::paths::{EntryKey, ProjectPath};
use vstd::prelude::*;

verus! {

/// An item that still exists, and the entry that it stands for.
#[derive(Debug)]
pub struct ItemState {
    pub id: usize,
    pub project_path: Option<ProjectPath>,
}

/// The view of an item.
#[derive(Debug, PartialEq, Eq)]
pub struct ItemViewState {
    pub id: usize,
    pub project_path: Option<ProjectPath>,
    pub has_conflict: bool,
}

/// A pane, and the item view that it shows.
#[derive(Debug, PartialEq, Eq)]
pub struct PaneState {
    pub id: usize,
    pub active_item: Option<ItemViewState>,
}

/// The item still exists.
pub open spec fn is_live(live: Seq<ItemState>, item: usize) -> bool {
    exists|i: int| 0 <= i < live.len() && (#[trigger] live[i]).id == item
}

impl ItemState {
    /// This is the item, and it stands for the entry.
    pub open spec fn stands_for(self, item: usize, entry: EntryKey) -> bool {
        &&& self.id == item
        &&& self.project_path matches Some(project_path) && project_path@ == entry
    }
}

/// The item still exists, and stands for the entry.
pub open spec fn is_item_of(live: Seq<ItemState>, item: usize, entry: EntryKey) -> bool {
    exists|i: int| 0 <= i < live.len() && (#[trigger] live[i]).stands_for(item, entry)
}

/// The items that still exist, in their order.
pub open spec fn live_items(items: Seq<usize>, live: Seq<ItemState>) -> Seq<usize> {
    items.filter(|item: usize| is_live(live, item))
}

/// The first of the items that stands for the entry.
pub open spec fn first_item_of(
    items: Seq<usize>,
    live: Seq<ItemState>,
    entry: EntryKey,
) -> Option<usize>
    decreases items.len(),
{
    if items.len() == 0 {
        None
    } else {
        match first_item_of(items.drop_last(), live, entry) {
            Some(item) => Some(item),
            None => if is_item_of(live, items.last(), entry) {
                Some(items.last())
            } else {
                None
            },
        }
    }
}

fn exec_is_live(live: &Vec<ItemState>, item: usize) -> (found: bool)
    ensures
        found == is_live(live@, item),
{
    let mut i: usize = 0;
    while i < live.len()
        invariant
            i <= live@.len(),
            forall|j: int| 0 <= j < i ==> (#[trigger] live@[j]).id != item,
        decreases live@.len() - i,
    {
        if live[i].id == item {
            return true;
        }
        i += 1;
    }
    false
}

fn exec_is_item_of(live: &Vec<ItemState>, item: usize, project_path: &ProjectPath) -> (found: bool)
    ensures
        found == is_item_of(live@, item, project_path@),
{
    let mut i: usize = 0;
    while i < live.len()
        invariant
            i <= live@.len(),
            forall|j: int| 0 <= j < i ==> !(#[trigger] live@[j]).stands_for(item, project_path@),
        decreases live@.len() - i,
    {
        if live[i].id == item {
            if let Some(other) = &live[i].project_path {
                if *other == *project_path {
                    assert(live@[i as int].stands_for(item, project_path@));
                    return true;
                }
            }
        }
        i += 1;
    }
    false
}

/// Keeps the items that still exist, and finds the first of them that stands for an entry.
pub(crate) fn retain_live(
    items: &Vec<usize>,
    live: &Vec<ItemState>,
    project_path: &ProjectPath,
) -> (kept: (Vec<usize>, Option<usize>))
    ensures
        kept.0@ == live_items(items@, live@),
        kept.1 == first_item_of(items@, live@, project_path@),
{
    let ghost alive = |item: usize| is_live(live@, item);
    let mut retained: Vec<usize> = Vec::new();
    let mut found: Option<usize> = None;
    let mut i: usize = 0;
    assert(items@.take(0).filter(alive) =~= Seq::<usize>::empty()) by {
        reveal(Seq::filter);
    }
    while i < items.len()
        invariant
            i <= items@.len(),
            alive == (|item: usize| is_live(live@, item)),
            retained@ == items@.take(i as int).filter(alive),
            found == first_item_of(items@.take(i as int), live@, project_path@),
        decreases items@.len() - i,
    {
        let item = items[i];
        proof {
            reveal(Seq::filter);
            assert(items@.take(i + 1).drop_last() =~= items@.take(i as int));
            assert(items@.take(i + 1).last() == item);
        }
        if exec_is_live(live, item) {
            if found.is_none() && exec_is_item_of(live, item, project_path) {
                found = Some(item);
            }
            retained.push(item);
        } else {
            assert(!is_item_of(live@, item, project_path@)) by {
                if is_item_of(live@, item, project_path@) {
                    let k = choose|k: int|
                        0 <= k < live@.len() && (#[trigger] live@[k]).stands_for(
                            item,
                            project_path@,
                        );
                    assert(live@[k].id == item);
                }
            }
        }
        i += 1;
    }
    assert(items@.take(items@.len() as int) =~= items@);
    (retained, found)
}

/// The state of a pane, the first where there are several.
pub open spec fn pane_state(panes: Seq<PaneState>, pane: usize) -> Option<PaneState>
    decreases panes.len(),
{
    if panes.len() == 0 {
        None
    } else if panes.first().id == pane {
        Some(panes.first())
    } else {
        pane_state(panes.drop_first(), pane)
    }
}

/// The item view that a pane shows.
pub open spec fn shown_item(panes: Seq<PaneState>, pane: usize) -> Option<ItemViewState> {
    match pane_state(panes, pane) {
        Some(state) => state.active_item,
        None => None,
    }
}

/// The entry of the item view that a pane shows.
pub open spec fn shown_path(panes: Seq<PaneState>, pane: usize) -> Option<ProjectPath> {
    match shown_item(panes, pane) {
        Some(item) => item.project_path,
        None => None,
    }
}

pub(crate) fn find_shown_item<'a>(panes: &'a Vec<PaneState>, pane: usize) -> (item: Option<
    &'a ItemViewState,
>)
    ensures
        match item {
            Some(item) => shown_item(panes@, pane) == Some(*item),
            None => shown_item(panes@, pane) is None,
        },
{
    let mut i: usize = 0;
    assert(panes@.skip(0) =~= panes@);
    while i < panes.len()
        invariant
            i <= panes@.len(),
            pane_state(panes@, pane) == pane_state(panes@.skip(i as int), pane),
        decreases panes@.len() - i,
    {
        assert(panes@.skip(i as int).drop_first() =~= panes@.skip(i + 1));
        if panes[i].id == pane {
            return match &panes[i].active_item {
                Some(item) => Some(item),
                None => None,
            };
        }
        i += 1;
    }
    None
}

} // verus!
