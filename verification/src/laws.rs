//! What holds of a workspace as a whole.

pub mod entries;
pub mod files;
pub mod panes;
pub mod screen;

use crate::center::{
    center_after_all, center_allows_all, center_removes, lemma_center_removes, lemma_center_splits,
    lemma_split_end, panes_at_center,
};
use crate::effects::{Creation, Effect};
use crate::items::{first_item_of, is_item_of, is_live, live_items, ItemState};
use crate::loading::{
    held_in_time, load_result, received_channel, EntryLoad, LoadError, PendingEntry,
};
use crate::opening::{
    next_opening, next_saving, OpenPathAction, OpenPathEvent, OpenPathState, SaveAction, SaveEvent,
    SaveState, OVERWRITE,
};
use crate::paths::{
    is_plain_below, is_plain_name, is_rest, path_components, EntryKey, ProjectPath,
};
use crate::setup::WorkspaceFrame;
use crate::state::{
    is_other, split_end, PaneEvent, PaneSplit, WorkspaceState,
};
use crate::worktrees::{
    all_project_paths, first_holder, local_worktrees, no_holder, WorktreeFiles, WorktreeState,
};
use std::path::PathBuf;
use vstd::prelude::*;

verus! {

/// A pane that is removed right after it was added leaves the panes as they were. The last of
/// them is active then, whichever was before.
pub proof fn removing_an_added_pane<G, S>(w: WorkspaceState<G, S>, pane: usize)
    requires
        w.valid(),
        !w.panes.contains(pane),
    ensures
        w.with_pane(pane).without_pane(pane) == w.with_active_pane(w.panes.last()),
{
    reveal(Seq::filter);
    let keep = is_other(pane);
    assert(w.panes.push(pane).drop_last() =~= w.panes);
    assert(w.panes.push(pane).last() == pane);
    assert forall|i: int| 0 <= i < w.panes.len() implies keep(#[trigger] w.panes[i]) by {
        assert(w.panes.contains(w.panes[i]));
    }
    lemma_filter_all(w.panes, keep);
}

proof fn lemma_filter_all(s: Seq<usize>, keep: spec_fn(usize) -> bool)
    requires
        forall|i: int| 0 <= i < s.len() ==> keep(#[trigger] s[i]),
    ensures
        s.filter(keep) == s,
    decreases s.len(),
{
    reveal(Seq::filter);
    if s.len() > 0 {
        let front = s.drop_last();
        assert forall|i: int| 0 <= i < front.len() implies keep(#[trigger] front[i]) by {
            assert(front[i] == s[i]);
        }
        lemma_filter_all(front, keep);
        assert(s[s.len() - 1] == s.last());
        assert(front.push(s.last()) =~= s);
    }
}

/// An event of a pane with what it meets: for a split, the id of the new pane and the copy of the
/// item that the old one shows.
pub struct PaneEventRecord {
    pub pane_id: usize,
    pub event: PaneEvent,
    pub new_pane: usize,
    pub copy: Option<usize>,
}

/// The split that an event asks for.
pub open spec fn split_of<G, S>(w: WorkspaceState<G, S>, record: PaneEventRecord) -> PaneSplit {
    PaneSplit {
        from: record.pane_id,
        direction: record.event->Split_0,
        creation: Creation::Pane { settings: w.settings },
    }
}

/// What an event of a pane has the group at the center do.
pub open spec fn center_effects<G, S>(
    w: WorkspaceState<G, S>,
    record: PaneEventRecord,
) -> Seq<Effect> {
    if !w.panes.contains(record.pane_id) {
        Seq::empty()
    } else {
        match record.event {
            PaneEvent::Split(_) => split_end(split_of(w, record), record.new_pane, record.copy),
            PaneEvent::Remove => seq![Effect::RemoveFromCenter { pane: record.pane_id }],
            PaneEvent::Activate => Seq::empty(),
        }
    }
}

/// What has become of the workspace and the panes at its center once an event of a pane was
/// followed to its end.
pub open spec fn after_pane_event<G, S>(
    w: WorkspaceState<G, S>,
    center: Set<usize>,
    record: PaneEventRecord,
) -> (WorkspaceState<G, S>, Set<usize>) {
    let pane = record.pane_id;
    let followed = if !w.panes.contains(pane) {
        w
    } else {
        match record.event {
            PaneEvent::Split(_) => w.with_pane(record.new_pane),
            PaneEvent::Remove => if center_removes(center, pane) {
                w.without_pane(pane)
            } else {
                w
            },
            PaneEvent::Activate => w.with_active_pane(pane),
        }
    };
    (followed, center_after_all(center, center_effects(w, record)))
}

/// A new workspace has its pane at the center.
pub proof fn new_workspace_has_its_pane_at_the_center<G, S>(
    w: WorkspaceState<G, S>,
    frame: WorkspaceFrame,
)
    requires
        w.panes == seq![frame.center_pane],
        w.active_pane == frame.center_pane,
    ensures
        panes_at_center(w, set![frame.center_pane]),
{
    assert(w.panes[0] == frame.center_pane);
}

/// An event of any pane keeps the panes of the workspace and those at the center the same, none
/// twice, the active one among them. The group at the center is asked only for panes that it has.
/// It never gives up its last pane, so where a pane is removed, another one is left to become
/// active.
pub proof fn pane_event_keeps_the_center<G, S>(
    w: WorkspaceState<G, S>,
    center: Set<usize>,
    record: PaneEventRecord,
)
    requires
        panes_at_center(w, center),
        !w.panes.contains(record.new_pane),
    ensures
        panes_at_center(
            after_pane_event(w, center, record).0,
            after_pane_event(w, center, record).1,
        ),
        center_allows_all(center, center_effects(w, record)),
        center_removes(center, record.pane_id) ==> exists|i: int|
            0 <= i < w.panes.len() && #[trigger] w.panes[i] != record.pane_id,
{
    let pane = record.pane_id;
    let effects = center_effects(w, record);
    reveal_with_fuel(center_after_all, 2);
    if center_removes(center, pane) {
        lemma_center_removes(w, center, pane);
    }
    if w.panes.contains(pane) {
        assert(center.contains(pane));
        match record.event {
            PaneEvent::Split(_) => {
                lemma_split_end(center, split_of(w, record), record.new_pane, record.copy);
                lemma_center_splits(w, center, record.new_pane);
            },
            PaneEvent::Remove => {
                assert(effects.drop_last() =~= Seq::<Effect>::empty());
                assert(effects.take(0) =~= Seq::<Effect>::empty());
            },
            PaneEvent::Activate => {},
        }
    }
}

/// What has become of the workspace and the panes at its center after a series of events.
pub open spec fn after_pane_events<G, S>(
    w: WorkspaceState<G, S>,
    center: Set<usize>,
    records: Seq<PaneEventRecord>,
) -> (WorkspaceState<G, S>, Set<usize>)
    decreases records.len(),
{
    if records.len() == 0 {
        (w, center)
    } else {
        let before = after_pane_events(w, center, records.drop_last());
        after_pane_event(before.0, before.1, records.last())
    }
}

/// Every series of events of panes keeps the panes of the workspace and those at the center the
/// same, as long as a new pane gets an id that no other pane has.
pub proof fn pane_events_keep_the_center<G, S>(
    w: WorkspaceState<G, S>,
    center: Set<usize>,
    records: Seq<PaneEventRecord>,
)
    requires
        panes_at_center(w, center),
        forall|i: int|
            0 <= i < records.len() ==> !after_pane_events(w, center, records.take(i)).0.panes.contains(
                (#[trigger] records[i]).new_pane,
            ),
    ensures
        panes_at_center(
            after_pane_events(w, center, records).0,
            after_pane_events(w, center, records).1,
        ),
    decreases records.len(),
{
    if records.len() > 0 {
        let front = records.drop_last();
        let last = records.len() - 1;
        assert forall|i: int| 0 <= i < front.len() implies !after_pane_events(
            w,
            center,
            front.take(i),
        ).0.panes.contains((#[trigger] front[i]).new_pane) by {
            assert(front[i] == records[i]);
            assert(front.take(i) =~= records.take(i));
        }
        pane_events_keep_the_center(w, center, front);
        assert(records[last] == records.last());
        assert(records.take(last) =~= front);
        let before = after_pane_events(w, center, front);
        pane_event_keeps_the_center(before.0, before.1, records.last());
    }
}

/// A modal view that is opened where none was, and toggled again or dismissed, leaves nothing
/// behind.
pub proof fn closing_an_opened_modal<G, S>(w: WorkspaceState<G, S>, view: usize)
    requires
        w.modal is None,
    ensures
        w.with_modal(Some(view)).with_modal(None) == w,
{
}

/// What is found for an entry is an item of the workspace that still exists and stands for the
/// entry, and is kept.
pub proof fn found_item_is_open(
    items: Seq<usize>,
    live: Seq<ItemState>,
    entry: EntryKey,
    item: usize,
)
    requires
        first_item_of(items, live, entry) == Some(item),
    ensures
        items.contains(item),
        is_item_of(live, item, entry),
        live_items(items, live).contains(item),
    decreases items.len(),
{
    let alive = |i: usize| is_live(live, i);
    let front = items.drop_last();
    if first_item_of(front, live, entry) is Some {
        found_item_is_open(front, live, entry, item);
        let i = choose|i: int| 0 <= i < front.len() && front[i] == item;
        assert(items[i] == item);
    } else {
        assert(items[items.len() - 1] == item);
    }
    lemma_item_of_is_live(live, item, entry);
    let i = choose|i: int| 0 <= i < items.len() && items[i] == item;
    assert(alive(items[i]));
    broadcast use vstd::seq_lib::group_filter_ensures;

    assert(live_items(items, live) == items.filter(alive));
}

proof fn lemma_item_of_is_live(live: Seq<ItemState>, item: usize, entry: EntryKey)
    requires
        is_item_of(live, item, entry),
    ensures
        is_live(live, item),
{
    let i = choose|i: int|
        0 <= i < live.len() && (#[trigger] live[i]).stands_for(item, entry);
    assert(live[i].id == item);
}

/// Where an item of the workspace stands for an entry, one is found.
pub proof fn open_entry_is_found(
    items: Seq<usize>,
    live: Seq<ItemState>,
    entry: EntryKey,
    item: usize,
)
    requires
        items.contains(item),
        is_item_of(live, item, entry),
    ensures
        first_item_of(items, live, entry) is Some,
    decreases items.len(),
{
    let i = choose|i: int| 0 <= i < items.len() && items[i] == item;
    if i < items.len() - 1 {
        assert(items.drop_last()[i] == item);
        open_entry_is_found(items.drop_last(), live, entry, item);
    }
}

/// An entry is not loaded again while an item that was added for it exists.
pub proof fn added_item_is_found<G, S>(
    w: WorkspaceState<G, S>,
    item: usize,
    live: Seq<ItemState>,
    entry: EntryKey,
    pane: usize,
    activated: bool,
)
    requires
        is_item_of(live, item, entry),
    ensures
        w.with_item(item).existing_entry(entry, pane, activated, live) !is NotOpen,
{
    let items = w.items.push(item);
    assert(items[items.len() - 1] == item);
    open_entry_is_found(items, live, entry, item);
}

/// Looking for an entry a second time, with the same items in existence, forgets no more items
/// and finds the same.
pub proof fn looking_up_twice<G, S>(
    w: WorkspaceState<G, S>,
    live: Seq<ItemState>,
    entry: EntryKey,
    pane: usize,
    activated: bool,
)
    ensures
        w.looked_up(activated, live).looked_up(activated, live) == w.looked_up(activated, live),
        w.looked_up(activated, live).existing_entry(entry, pane, activated, live)
            == w.existing_entry(entry, pane, activated, live),
{
    lemma_live_items(w.items, live, entry);
}

proof fn lemma_live_items(items: Seq<usize>, live: Seq<ItemState>, entry: EntryKey)
    ensures
        live_items(live_items(items, live), live) == live_items(items, live),
        first_item_of(live_items(items, live), live, entry) == first_item_of(items, live, entry),
    decreases items.len(),
{
    reveal(Seq::filter);
    let kept = live_items(items, live);
    if items.len() > 0 {
        let front = items.drop_last();
        lemma_live_items(front, live, entry);
        let kept_front = live_items(front, live);
        if is_live(live, items.last()) {
            assert(kept == kept_front.push(items.last()));
            assert(kept.drop_last() =~= kept_front);
            assert(kept.last() == items.last());
        } else {
            assert(kept == kept_front);
            if is_item_of(live, items.last(), entry) {
                lemma_item_of_is_live(live, items.last(), entry);
            }
        }
    }
}

/// The entry is being loaded on the channel.
pub open spec fn loads_on<G, S>(
    w: WorkspaceState<G, S>,
    entry: EntryKey,
    channel: int,
) -> bool {
    w.loading.contains_key(entry) && w.loading[entry] == channel
}

/// A load goes on, on its channel, until it is finished, whatever else happens: panes that come,
/// go and become active, items that are added and forgotten, modal views, and the loads of other
/// entries. So a second request for the entry finds the load of the first.
pub proof fn load_goes_on<G, S>(
    w: WorkspaceState<G, S>,
    entry: EntryKey,
    channel: int,
    other: EntryKey,
    other_channel: int,
    pane: usize,
    item: usize,
    modal: Option<usize>,
    live: Seq<ItemState>,
    activated: bool,
)
    requires
        loads_on(w, entry, channel),
        entry != other,
    ensures
        loads_on(w.with_modal(modal), entry, channel),
        loads_on(w.with_active_pane(pane), entry, channel),
        loads_on(w.with_pane(pane), entry, channel),
        loads_on(w.without_pane(pane), entry, channel),
        loads_on(w.with_item(item), entry, channel),
        loads_on(w.looked_up(activated, live), entry, channel),
        loads_on(w.with_load(other, other_channel), entry, channel),
        loads_on(w.without_load(other), entry, channel),
{
}

/// A load that has begun goes on.
pub proof fn begun_load_goes_on<G, S>(w: WorkspaceState<G, S>, entry: EntryKey, channel: int)
    ensures
        loads_on(w.with_load(entry, channel), entry, channel),
{
}

/// A load that has come to an end leaves no trace among the loads.
pub proof fn finished_load_is_forgotten<G, S>(
    w: WorkspaceState<G, S>,
    entry: EntryKey,
    channel: int,
)
    ensures
        !w.without_load(entry).loading.contains_key(entry),
        !w.loading.contains_key(entry) ==> w.with_load(entry, channel).without_load(entry) == w,
{
    if !w.loading.contains_key(entry) {
        assert(w.loading.insert(entry, channel).remove(entry) =~= w.loading);
    }
}

/// Everyone who waits for an entry gets the one result of its load, whenever they ask.
pub proof fn waiters_get_one_result(
    load: EntryLoad,
    opened: Option<Result<usize, usize>>,
    first: PendingEntry,
    second: PendingEntry,
    first_result: Result<usize, LoadError>,
    second_result: Result<usize, LoadError>,
)
    requires
        load.result.held() == set![None::<Result<usize, LoadError>>],
        held_in_time(load.result.channel()) == load.result.held().insert(Some(load_result(opened))),
        received_channel(first.watch) == load.result.channel(),
        received_channel(second.watch) == load.result.channel(),
        held_in_time(received_channel(first.watch)).contains(Some(first_result)),
        held_in_time(received_channel(second.watch)).contains(Some(second_result)),
    ensures
        first_result == load_result(opened),
        second_result == first_result,
{
}

/// An item that exists stays among the items, whatever is looked for and added.
pub proof fn live_item_is_kept<G, S>(
    w: WorkspaceState<G, S>,
    item: usize,
    other: usize,
    live: Seq<ItemState>,
    activated: bool,
)
    requires
        w.items.contains(item),
        is_live(live, item),
    ensures
        w.looked_up(activated, live).items.contains(item),
        w.with_item(other).items.contains(item),
{
    let alive = |i: usize| is_live(live, i);
    let k = choose|k: int| 0 <= k < w.items.len() && w.items[k] == item;
    assert(alive(w.items[k]));
    broadcast use vstd::seq_lib::group_filter_ensures;

    assert(live_items(w.items, live) == w.items.filter(alive));
    assert(w.with_item(other).items[k] == item);
}

/// Of two who waited for an entry, at most one stores the item that was loaded, as long as the
/// item exists and stands for the entry: where the first stored it, the second finds it.
pub proof fn waiters_store_one_item<G, S>(
    w: WorkspaceState<G, S>,
    item: usize,
    entry: EntryKey,
    first_pane: usize,
    first_activated: bool,
    first_live: Seq<ItemState>,
    second_pane: usize,
    second_activated: bool,
    second_live: Seq<ItemState>,
)
    requires
        w.existing_entry(entry, first_pane, first_activated, first_live) is NotOpen,
        is_item_of(second_live, item, entry),
    ensures
        w.looked_up(first_activated, first_live).with_item(item).existing_entry(
            entry,
            second_pane,
            second_activated,
            second_live,
        ) !is NotOpen,
{
    added_item_is_found(
        w.looked_up(first_activated, first_live),
        item,
        second_live,
        entry,
        second_pane,
        second_activated,
    );
}

/// A path that no worktree holds is found in the worktree that is added for it, at its root; no
/// second worktree is added.
pub proof fn added_worktree_is_found(
    worktrees: Seq<WorktreeState>,
    abs_path: PathBuf,
    id: usize,
    rest: PathBuf,
)
    requires
        no_holder(worktrees, abs_path),
    ensures
        ({
            let added = WorktreeState { id, abs_path: Some(abs_path) };
            &&& first_holder(worktrees.push(added), abs_path, worktrees.len() as int)
            &&& is_rest(abs_path, abs_path, rest) ==> path_components(rest) == Seq::<
                Seq<u8>,
            >::empty()
        }),
{
    let added = WorktreeState { id, abs_path: Some(abs_path) };
    let all = worktrees.push(added);
    let components = path_components(abs_path);
    assert(components.is_prefix_of(components));
    assert(all[worktrees.len() as int].holds(abs_path));
    assert forall|j: int| 0 <= j < worktrees.len() implies !(#[trigger] all[j]).holds(abs_path) by {
        assert(all[j] == worktrees[j]);
    }
    if is_rest(abs_path, abs_path, rest) {
        assert(path_components(rest) =~= Seq::<Seq<u8>>::empty());
    }
}

/// What is left of a path below a worktree is relative where the path has plain names only there:
/// the rest holds nothing but these names.
pub proof fn rest_of_plain_names_is_relative(root: PathBuf, abs_path: PathBuf, rest: PathBuf)
    requires
        is_rest(root, abs_path, rest),
        is_plain_below(root, abs_path),
    ensures
        forall|i: int|
            0 <= i < path_components(rest).len() ==> is_plain_name(
                #[trigger] path_components(rest)[i],
            ),
{
    assert forall|i: int| 0 <= i < path_components(rest).len() implies is_plain_name(
        #[trigger] path_components(rest)[i],
    ) by {
        let k = path_components(root).len() + i;
        assert(path_components(abs_path)[k] == path_components(rest)[i]);
    }
}

/// A path has nothing left below a worktree that holds it exactly where it is the root itself.
pub proof fn empty_rest_is_the_root(root: PathBuf, abs_path: PathBuf, rest: PathBuf)
    requires
        path_components(root).is_prefix_of(path_components(abs_path)),
        is_rest(root, abs_path, rest),
    ensures
        path_components(rest).len() == 0 <==> path_components(abs_path) == path_components(root),
{
    if path_components(abs_path).len() == path_components(root).len() {
        assert(path_components(abs_path) =~= path_components(root));
    }
}

/// Only one worktree is the first that holds a path, so a path has one place in a project.
pub proof fn first_holder_is_unique(
    worktrees: Seq<WorktreeState>,
    abs_path: PathBuf,
    i: int,
    j: int,
)
    requires
        first_holder(worktrees, abs_path, i),
        first_holder(worktrees, abs_path, j),
    ensures
        i == j,
{
    if i < j {
        assert(!worktrees[i].holds(abs_path));
    } else if j < i {
        assert(!worktrees[j].holds(abs_path));
    }
}

/// The project paths of a project are those of its files: every file has one, and there are no
/// others.
pub proof fn project_paths_are_those_of_files(
    worktrees: Seq<WorktreeFiles>,
    project_path: ProjectPath,
)
    ensures
        all_project_paths(worktrees).contains(project_path) <==> exists|i: int|
            0 <= i < worktrees.len() && (#[trigger] worktrees[i]).id == project_path.worktree_id
                && worktrees[i].files@.contains(project_path.path),
    decreases worktrees.len(),
{
    if worktrees.len() > 0 {
        let front = worktrees.drop_last();
        let last = worktrees.last();
        let paths = all_project_paths(front);
        let all = all_project_paths(worktrees);
        project_paths_are_those_of_files(front, project_path);
        if all.contains(project_path) {
            let k = choose|k: int| 0 <= k < all.len() && all[k] == project_path;
            if k < paths.len() {
                assert(paths[k] == project_path);
                let i = choose|i: int|
                    0 <= i < front.len() && (#[trigger] front[i]).id == project_path.worktree_id
                        && front[i].files@.contains(project_path.path);
                assert(worktrees[i] == front[i]);
            } else {
                assert(last.files@[k - paths.len()] == project_path.path);
                assert(worktrees[worktrees.len() - 1] == last);
            }
        }
        if exists|i: int|
            0 <= i < worktrees.len() && (#[trigger] worktrees[i]).id == project_path.worktree_id
                && worktrees[i].files@.contains(project_path.path) {
            let i = choose|i: int|
                0 <= i < worktrees.len() && (#[trigger] worktrees[i]).id
                    == project_path.worktree_id && worktrees[i].files@.contains(project_path.path);
            if i < front.len() {
                assert(front[i] == worktrees[i]);
                assert(paths.contains(project_path));
                let k = choose|k: int| 0 <= k < paths.len() && paths[k] == project_path;
                assert(all[k] == project_path);
            } else {
                let k = choose|k: int|
                    0 <= k < last.files@.len() && last.files@[k] == project_path.path;
                assert(last.project_paths()[k] == project_path);
                assert(all[paths.len() + k] == project_path);
            }
        }
    }
}

/// The scans of exactly the worktrees on this machine are waited for.
pub proof fn scans_are_those_of_local_worktrees(worktrees: Seq<WorktreeState>, id: usize)
    ensures
        local_worktrees(worktrees).contains(id) <==> exists|i: int|
            0 <= i < worktrees.len() && (#[trigger] worktrees[i]).is_local() && worktrees[i].id
                == id,
    decreases worktrees.len(),
{
    if worktrees.len() > 0 {
        let front = worktrees.drop_last();
        let ids = local_worktrees(front);
        let all = local_worktrees(worktrees);
        scans_are_those_of_local_worktrees(front, id);
        if all.contains(id) {
            let k = choose|k: int| 0 <= k < all.len() && all[k] == id;
            if k < ids.len() {
                assert(ids[k] == id);
                let i = choose|i: int|
                    0 <= i < front.len() && (#[trigger] front[i]).is_local() && front[i].id == id;
                assert(worktrees[i] == front[i]);
            } else {
                assert(worktrees[worktrees.len() - 1].is_local());
            }
        }
        if exists|i: int|
            0 <= i < worktrees.len() && (#[trigger] worktrees[i]).is_local() && worktrees[i].id
                == id {
            let i = choose|i: int|
                0 <= i < worktrees.len() && (#[trigger] worktrees[i]).is_local() && worktrees[i].id
                    == id;
            if i < front.len() {
                assert(front[i] == worktrees[i]);
                let k = choose|k: int| 0 <= k < ids.len() && ids[k] == id;
                assert(all[k] == id);
            } else {
                assert(all[all.len() - 1] == id);
            }
        }
    }
}

/// While an item is saved, it is saved in its place only where a question was answered with
/// "Overwrite", and under a path only where one was chosen and found; nothing follows the end.
pub proof fn nothing_is_overwritten_unasked<E>(state: SaveState, event: SaveEvent<E>)
    ensures
        next_saving(state, event).1 matches SaveAction::Save { item } ==> state == (
        SaveState::Confirming { item }) && event == SaveEvent::<E>::Answered(OVERWRITE),
        next_saving(state, event).1 matches SaveAction::SaveAs { item, worktree, path } ==> state
            == (SaveState::Locating { item }) && event == SaveEvent::<E>::Located(
            Ok((worktree, path)),
        ),
        state is Finished ==> next_saving(state, event) == (state, SaveAction::<E>::Nothing),
{
}

/// Only a path that was found to be a file is opened, as the entry at its project path; nothing
/// follows the end.
pub proof fn only_files_are_opened<E>(state: OpenPathState, event: OpenPathEvent<E>)
    ensures
        next_opening(state, event).1 matches OpenPathAction::OpenEntry(project_path) ==> state
            == OpenPathState::Checking(project_path) && event == (OpenPathEvent::<E>::Checked {
            is_file: true,
        }),
        next_opening(state, event).0 matches OpenPathState::Checking(project_path) ==> state
            == OpenPathState::Checking(project_path) || event == OpenPathEvent::<E>::Located(
            Ok(project_path),
        ),
        state is Finished ==> next_opening(state, event) == (state, OpenPathAction::<E>::Nothing),
{
}

} // verus!
