//! What opening an entry comes to, whatever is open and being loaded.

use crate::effects::Effect;
use crate::item_view::{
    actions_on_item_event, item_event_actions, on_item_event, EntryOpener, ItemView, PaneAction,
};
use crate::items::{first_item_of, is_item_of, is_live, live_items, ItemState};
use crate::loading::{
    asked_in_turn, held_in_time, opener_of, received_channel, EntryLoad, LoadError, PendingEntry,
};
use crate::paths::{path_components, EntryKey, ProjectPath};
use crate::state::{
    EntryRequest, ExistingEntry, LoadedEntry, OpenEntry, Workspace, WorkspaceState,
};
use vstd::prelude::*;

verus! {

/// The two lead to the same place in the same worktree.
pub open spec fn same_entry(a: ProjectPath, b: ProjectPath) -> bool {
    a.worktree_id == b.worktree_id && path_components(a.path) == path_components(b.path)
}

/// What an entry is known by while it is being loaded.
pub open spec fn key_of(project_path: ProjectPath) -> EntryKey {
    (project_path.worktree_id, path_components(project_path.path))
}

/// The item is among those that exist.
pub open spec fn exists_in(live: Seq<ItemState>, item: usize) -> bool {
    exists|j: int| 0 <= j < live.len() && (#[trigger] live[j]).id == item
}

/// The item exists, and the entry is what it was opened for.
pub open spec fn opened_for(live: Seq<ItemState>, item: usize, project_path: ProjectPath) -> bool {
    exists|j: int|
        {
            &&& 0 <= j < live.len()
            &&& (#[trigger] live[j]).id == item
            &&& live[j].project_path matches Some(path) && same_entry(path, project_path)
        }
}

/// The item at `k` is the oldest that was opened for the entry and exists.
pub open spec fn oldest_for(
    items: Seq<usize>,
    live: Seq<ItemState>,
    project_path: ProjectPath,
    k: int,
) -> bool {
    &&& 0 <= k < items.len()
    &&& opened_for(live, items[k], project_path)
    &&& forall|j: int| 0 <= j < k ==> !opened_for(live, #[trigger] items[j], project_path)
}

/// No item that exists was opened for the entry.
pub open spec fn open_nowhere(
    items: Seq<usize>,
    live: Seq<ItemState>,
    project_path: ProjectPath,
) -> bool {
    forall|j: int| 0 <= j < items.len() ==> !opened_for(live, #[trigger] items[j], project_path)
}

proof fn lemma_opened_for(live: Seq<ItemState>, item: usize, project_path: ProjectPath)
    ensures
        opened_for(live, item, project_path) == is_item_of(live, item, project_path@),
{
    if opened_for(live, item, project_path) {
        let j = choose|j: int|
            {
                &&& 0 <= j < live.len()
                &&& (#[trigger] live[j]).id == item
                &&& live[j].project_path matches Some(path) && same_entry(path, project_path)
            };
        assert(live[j].stands_for(item, project_path@));
    }
    if is_item_of(live, item, project_path@) {
        let j = choose|j: int|
            0 <= j < live.len() && (#[trigger] live[j]).stands_for(item, project_path@);
        assert(live[j].id == item);
    }
}

proof fn lemma_first_item(items: Seq<usize>, live: Seq<ItemState>, project_path: ProjectPath)
    ensures
        match first_item_of(items, live, project_path@) {
            Some(item) => exists|k: int| #[trigger]
                oldest_for(items, live, project_path, k) && items[k] == item,
            None => open_nowhere(items, live, project_path),
        },
    decreases items.len(),
{
    if items.len() > 0 {
        let front = items.drop_last();
        let last = items.len() - 1;
        lemma_first_item(front, live, project_path);
        lemma_opened_for(live, items.last(), project_path);
        assert forall|j: int| 0 <= j < last implies #[trigger] items[j] == front[j] by {}
        match first_item_of(front, live, project_path@) {
            Some(item) => {
                let k = choose|k: int| #[trigger]
                    oldest_for(front, live, project_path, k) && front[k] == item;
                assert(oldest_for(items, live, project_path, k));
            },
            None => {
                assert forall|j: int| 0 <= j < last implies !opened_for(
                    live,
                    #[trigger] items[j],
                    project_path,
                ) by {
                    assert(front[j] == items[j]);
                }
                if is_item_of(live, items.last(), project_path@) {
                    assert(oldest_for(items, live, project_path, last));
                }
            },
        }
    }
}

proof fn lemma_oldest_is_one(
    items: Seq<usize>,
    live: Seq<ItemState>,
    project_path: ProjectPath,
    i: int,
    j: int,
)
    requires
        oldest_for(items, live, project_path, i),
        oldest_for(items, live, project_path, j),
    ensures
        i == j,
{
    if i < j {
        assert(!opened_for(live, items[i], project_path));
    } else if j < i {
        assert(!opened_for(live, items[j], project_path));
    }
}

proof fn lemma_kept(items: Seq<usize>, live: Seq<ItemState>)
    ensures
        live_items(items, live) == items.filter(|item: usize| exists_in(live, item)),
{
    let alive = |item: usize| is_live(live, item);
    let exists_now = |item: usize| exists_in(live, item);
    assert(alive =~= exists_now);
}

/// Two paths are equal exactly if they name the same entry.
pub proof fn equal_paths_name_one_entry(a: ProjectPath, b: ProjectPath, same: bool)
    requires
        call_ensures(<ProjectPath as PartialEq>::eq, (&a, &b), same),
    ensures
        same == same_entry(a, b),
{
}

/// Where the pane has activated the entry, that is all: no view is added, whether or not an item
/// was opened for the entry. Otherwise the oldest item that was opened for it gets a view, in the
/// pane that was asked, and where there is none, the entry is not open.
pub proof fn lookup_activates_then_shows<G, S>(
    w: &mut Workspace<G, S>,
    request: EntryRequest,
    activated: bool,
    live: Vec<ItemState>,
    existing: ExistingEntry,
)
    requires
        call_ensures(
            Workspace::<G, S>::activate_or_open_existing_entry,
            (w, &request, activated, &live),
            existing,
        ),
    ensures
        existing is Activated <==> activated,
        existing is NotOpen <==> !activated && open_nowhere(
            old(w)@.items,
            live@,
            request.project_path,
        ),
        forall|k: int|
            !activated && #[trigger] oldest_for(old(w)@.items, live@, request.project_path, k)
                ==> existing == ExistingEntry::Shown(
                Effect::ShowItem {
                    item: old(w)@.items[k],
                    settings: old(w)@.settings,
                    pane: request.pane,
                },
            ),
{
    lemma_first_item(old(w)@.items, live@, request.project_path);
    assert forall|k: int|
        !activated && #[trigger] oldest_for(
            old(w)@.items,
            live@,
            request.project_path,
            k,
        ) implies existing == ExistingEntry::Shown(
        Effect::ShowItem {
            item: old(w)@.items[k],
            settings: old(w)@.settings,
            pane: request.pane,
        },
    ) by {
        if first_item_of(old(w)@.items, live@, request.project_path@) is Some {
            let i = choose|i: int| #[trigger]
                oldest_for(old(w)@.items, live@, request.project_path, i) && old(w)@.items[i]
                    == first_item_of(old(w)@.items, live@, request.project_path@)->0;
            lemma_oldest_is_one(old(w)@.items, live@, request.project_path, i, k);
        }
    }
    if first_item_of(old(w)@.items, live@, request.project_path@) is Some {
        let i = choose|i: int| #[trigger]
            oldest_for(old(w)@.items, live@, request.project_path, i) && old(w)@.items[i]
                == first_item_of(old(w)@.items, live@, request.project_path@)->0;
        assert(opened_for(live@, old(w)@.items[i], request.project_path));
    }
}

/// Looking for an entry forgets exactly the items that are gone, and nothing where the pane has
/// activated the entry. It changes nothing else.
pub proof fn lookup_forgets_what_is_gone<G, S>(
    w: &mut Workspace<G, S>,
    request: EntryRequest,
    activated: bool,
    live: Vec<ItemState>,
    existing: ExistingEntry,
)
    requires
        call_ensures(
            Workspace::<G, S>::activate_or_open_existing_entry,
            (w, &request, activated, &live),
            existing,
        ),
    ensures
        activated ==> final(w)@ == old(w)@,
        !activated ==> final(w)@.items == old(w)@.items.filter(
            |item: usize| exists_in(live@, item),
        ),
        final(w)@ == (WorkspaceState { items: final(w)@.items, ..old(w)@ }),
{
    lemma_kept(old(w)@.items, live@);
}

/// What opening an entry changes: the items that are gone are forgotten, unless the pane has
/// activated the entry, and a load may begin. Nothing else changes.
pub proof fn opening_changes_items_and_loads<G, S>(
    w: &mut Workspace<G, S>,
    request: EntryRequest,
    activated: bool,
    live: Vec<ItemState>,
    worktree_exists: bool,
    opened: OpenEntry,
)
    requires
        call_ensures(
            Workspace::<G, S>::open_entry,
            (w, request, activated, &live, worktree_exists),
            opened,
        ),
    ensures
        activated ==> final(w)@ == old(w)@,
        !activated ==> final(w)@.items == old(w)@.items.filter(
            |item: usize| exists_in(live@, item),
        ),
        final(w)@ == (WorkspaceState {
            items: final(w)@.items,
            loading: final(w)@.loading,
            ..old(w)@
        }),
        opened !is Pending ==> final(w)@.loading == old(w)@.loading,
        opened matches OpenEntry::Pending { pending, load } ==> final(w)@.loading == if load is Some {
            old(w)@.loading.insert(
                key_of(request.project_path),
                received_channel(pending.watch),
            )
        } else {
            old(w)@.loading
        },
{
    lemma_kept(old(w)@.items, live@);
}

/// An entry that the pane shows in a tab is activated there and nothing else is shown, whatever
/// items exist. An entry that is open elsewhere gets one view, of its oldest item, in the pane.
pub proof fn open_entry_is_shown_once<G, S>(
    w: &mut Workspace<G, S>,
    request: EntryRequest,
    activated: bool,
    live: Vec<ItemState>,
    worktree_exists: bool,
    opened: OpenEntry,
)
    requires
        call_ensures(
            Workspace::<G, S>::open_entry,
            (w, request, activated, &live, worktree_exists),
            opened,
        ),
    ensures
        opened == OpenEntry::Open(None) <==> activated,
        forall|k: int|
            !activated && #[trigger] oldest_for(old(w)@.items, live@, request.project_path, k)
                ==> opened == OpenEntry::Open(
                Some(
                    Effect::ShowItem {
                        item: old(w)@.items[k],
                        settings: old(w)@.settings,
                        pane: request.pane,
                    },
                ),
            ),
        opened is Open <==> activated || !open_nowhere(
            old(w)@.items,
            live@,
            request.project_path,
        ),
{
    let items = old(w)@.items;
    let first = first_item_of(items, live@, request.project_path@);
    lemma_first_item(items, live@, request.project_path);
    assert forall|k: int|
        !activated && #[trigger] oldest_for(
            items,
            live@,
            request.project_path,
            k,
        ) implies opened == OpenEntry::Open(
        Some(
            Effect::ShowItem {
                item: items[k],
                settings: old(w)@.settings,
                pane: request.pane,
            },
        ),
    ) by {
        if first is Some {
            let i = choose|i: int| #[trigger]
                oldest_for(items, live@, request.project_path, i) && items[i] == first->0;
            lemma_oldest_is_one(items, live@, request.project_path, i, k);
        }
    }
    if first is Some {
        let i = choose|i: int| #[trigger]
            oldest_for(items, live@, request.project_path, i) && items[i] == first->0;
        assert(opened_for(live@, items[i], request.project_path));
    }
}

/// An entry that is open nowhere is waited for, if its worktree exists. A load begins only if none
/// of the entry is under way, with all openers and an empty channel; otherwise the channel of the
/// load that is under way is waited on.
pub proof fn missing_entry_is_loaded_once<G, S>(
    w: &mut Workspace<G, S>,
    request: EntryRequest,
    activated: bool,
    live: Vec<ItemState>,
    worktree_exists: bool,
    opened: OpenEntry,
)
    requires
        call_ensures(
            Workspace::<G, S>::open_entry,
            (w, request, activated, &live, worktree_exists),
            opened,
        ),
        !activated,
        open_nowhere(old(w)@.items, live@, request.project_path),
    ensures
        !worktree_exists ==> opened is NoWorktree,
        worktree_exists ==> {
            &&& opened matches OpenEntry::Pending { pending, load }
            &&& pending.pane == request.pane
            &&& pending.project_path == request.project_path
            &&& load is None <==> old(w)@.loading.contains_key(key_of(request.project_path))
            &&& load is None ==> received_channel(pending.watch) == old(w)@.loading[key_of(
                request.project_path,
            )]
            &&& load matches Some(load) ==> {
                &&& load.project_path == request.project_path
                &&& load.openers@ == old(w)@.entry_openers
                &&& load.result.channel() == received_channel(pending.watch)
                &&& load.result.held() == set![None::<Result<usize, LoadError>>]
            }
        },
{
    let items = old(w)@.items;
    lemma_first_item(items, live@, request.project_path);
    if first_item_of(items, live@, request.project_path@) is Some {
        let i = choose|i: int| #[trigger]
            oldest_for(items, live@, request.project_path, i) && items[i] == first_item_of(
                items,
                live@,
                request.project_path@,
            )->0;
        assert(opened_for(live@, items[i], request.project_path));
    }
}

/// Of two requests for an entry that is open nowhere, the second begins no load, and waits on the
/// channel of the first.
pub proof fn second_request_waits_on_the_first<G, S>(
    w: &mut Workspace<G, S>,
    request: EntryRequest,
    live: Vec<ItemState>,
    opened: OpenEntry,
    later: &mut Workspace<G, S>,
    second_request: EntryRequest,
    second_live: Vec<ItemState>,
    second_opened: OpenEntry,
)
    requires
        call_ensures(
            Workspace::<G, S>::open_entry,
            (w, request, false, &live, true),
            opened,
        ),
        open_nowhere(old(w)@.items, live@, request.project_path),
        old(later)@.loading == final(w)@.loading,
        same_entry(request.project_path, second_request.project_path),
        call_ensures(
            Workspace::<G, S>::open_entry,
            (later, second_request, false, &second_live, true),
            second_opened,
        ),
        open_nowhere(old(later)@.items, second_live@, second_request.project_path),
    ensures
        opened matches OpenEntry::Pending { pending: first, load: _ } && (
        second_opened matches OpenEntry::Pending { pending: second, load } && load is None
            && received_channel(second.watch) == received_channel(first.watch)),
{
    missing_entry_is_loaded_once(w, request, false, live, true, opened);
    opening_changes_items_and_loads(w, request, false, live, true, opened);
    missing_entry_is_loaded_once(
        later,
        second_request,
        false,
        second_live,
        true,
        second_opened,
    );
}

/// A request is for the active pane and the entry.
pub proof fn request_is_for_the_active_pane<G, S>(
    w: Workspace<G, S>,
    project_path: ProjectPath,
    request: EntryRequest,
)
    requires
        call_ensures(Workspace::<G, S>::request_entry, (&w, project_path), request),
    ensures
        request.pane == w@.active_pane,
        request.project_path == project_path,
{
}

/// When a load has come to an end, the entry is no longer being loaded, other loads go on, and
/// nothing else changes, whatever came of it.
pub proof fn ended_load_is_forgotten<G, S>(
    w: &mut Workspace<G, S>,
    pending: PendingEntry,
    result: Result<usize, LoadError>,
    pane_alive: bool,
    loaded: LoadedEntry,
)
    requires
        call_ensures(
            Workspace::<G, S>::entry_loaded,
            (w, pending, result, pane_alive),
            loaded,
        ),
    ensures
        !final(w)@.loading.contains_key(key_of(pending.project_path)),
        forall|key: EntryKey|
            key != key_of(pending.project_path) ==> (#[trigger] final(w)@.loading.contains_key(key)
                <==> old(w)@.loading.contains_key(key)),
        forall|key: EntryKey|
            key != key_of(pending.project_path) && old(w)@.loading.contains_key(key)
                ==> #[trigger] final(w)@.loading[key] == old(w)@.loading[key],
        final(w)@ == (WorkspaceState { loading: final(w)@.loading, ..old(w)@ }),
{
}

/// What was loaded goes on to the pane that waited for it, as long as the pane exists, and so does
/// the error. A pane that is gone gets neither.
pub proof fn loaded_entry_goes_to_its_pane<G, S>(
    w: &mut Workspace<G, S>,
    pending: PendingEntry,
    result: Result<usize, LoadError>,
    pane_alive: bool,
    loaded: LoadedEntry,
)
    requires
        call_ensures(
            Workspace::<G, S>::entry_loaded,
            (w, pending, result, pane_alive),
            loaded,
        ),
    ensures
        loaded is PaneGone <==> !pane_alive,
        pane_alive ==> (loaded is Failed <==> result is Err),
        loaded matches LoadedEntry::Failed(error) ==> result == Err::<usize, LoadError>(error),
        loaded matches LoadedEntry::Loaded { item, request } ==> {
            &&& result == Ok::<usize, LoadError>(item)
            &&& request.pane == pending.pane
            &&& request.project_path == pending.project_path
        },
{
}

/// A loaded item is added, once, and shown in the active pane, only where the entry is neither
/// shown by the pane that waited nor open elsewhere. Where the pane shows it, nothing is added or
/// shown; where it is open elsewhere, its oldest item is shown in the pane that waited.
pub proof fn loaded_item_is_added_if_missing<G, S>(
    w: &mut Workspace<G, S>,
    request: EntryRequest,
    item: usize,
    activated: bool,
    live: Vec<ItemState>,
    effect: Option<Effect>,
)
    requires
        call_ensures(
            Workspace::<G, S>::show_loaded_entry,
            (w, &request, item, activated, &live),
            effect,
        ),
    ensures
        effect is None <==> activated,
        activated ==> final(w)@ == old(w)@,
        forall|k: int|
            !activated && #[trigger] oldest_for(old(w)@.items, live@, request.project_path, k)
                ==> effect == Some(
                Effect::ShowItem {
                    item: old(w)@.items[k],
                    settings: old(w)@.settings,
                    pane: request.pane,
                },
            ) && final(w)@.items == old(w)@.items.filter(|i: usize| exists_in(live@, i)),
        !activated && open_nowhere(old(w)@.items, live@, request.project_path) ==> effect == Some(
            Effect::ShowItem { item, settings: old(w)@.settings, pane: old(w)@.active_pane },
        ) && final(w)@.items == old(w)@.items.filter(|i: usize| exists_in(live@, i)).push(item),
        final(w)@ == (WorkspaceState { items: final(w)@.items, ..old(w)@ }),
{
    let items = old(w)@.items;
    let first = first_item_of(items, live@, request.project_path@);
    lemma_first_item(items, live@, request.project_path);
    lemma_kept(items, live@);
    assert((|i: usize| exists_in(live@, i)) =~= (|item: usize| exists_in(live@, item)));
    if first is Some {
        let i = choose|i: int| #[trigger]
            oldest_for(items, live@, request.project_path, i) && items[i] == first->0;
        assert(opened_for(live@, items[i], request.project_path));
        assert forall|k: int| #[trigger]
            oldest_for(items, live@, request.project_path, k) implies items[k] == first->0 by {
            lemma_oldest_is_one(items, live@, request.project_path, i, k);
        }
    }
}

/// An item that is added comes last among the items and is shown, with the settings of the
/// workspace, in the active pane.
pub proof fn added_item_is_shown<G, S>(w: &mut Workspace<G, S>, item: usize, effect: Effect)
    requires
        call_ensures(Workspace::<G, S>::add_item, (w, item), effect),
    ensures
        final(w)@.items == old(w)@.items.push(item),
        final(w)@ == (WorkspaceState { items: final(w)@.items, ..old(w)@ }),
        effect == (Effect::ShowItem {
            item,
            settings: old(w)@.settings,
            pane: old(w)@.active_pane,
        }),
{
}

/// The opener that is asked next is the one after those that declined, and there is one exactly as
/// long as not all have.
pub proof fn openers_follow_each_other(load: EntryLoad, declined: usize, opener: Option<usize>)
    requires
        call_ensures(EntryLoad::next_opener, (&load, declined), opener),
    ensures
        opener is Some <==> declined < load.openers@.len(),
        opener matches Some(id) ==> id == load.openers@[declined as int],
{
}

/// The opener at `j` is the first with the id.
pub open spec fn first_with_id<O>(openers: Seq<(usize, O)>, id: usize, j: int) -> bool {
    &&& 0 <= j < openers.len()
    &&& openers[j].0 == id
    &&& forall|i: int| 0 <= i < j ==> (#[trigger] openers[i]).0 != id
}

proof fn lemma_opener_of<O>(openers: Seq<(usize, O)>, id: usize)
    ensures
        match opener_of(openers, id) {
            Some(opener) => exists|j: int| #[trigger]
                first_with_id(openers, id, j) && openers[j].1 == opener,
            None => forall|j: int| 0 <= j < openers.len() ==> (#[trigger] openers[j]).0 != id,
        },
    decreases openers.len(),
{
    if openers.len() > 0 {
        let rest = openers.drop_first();
        assert(openers.first() == openers[0]);
        if openers.first().0 == id {
            assert(first_with_id(openers, id, 0));
        } else {
            lemma_opener_of(rest, id);
            assert forall|i: int| 0 < i < openers.len() implies #[trigger] openers[i] == rest[i
                - 1] by {}
            match opener_of(rest, id) {
                Some(opener) => {
                    let j = choose|j: int| #[trigger]
                        first_with_id(rest, id, j) && rest[j].1 == opener;
                    assert(openers[j + 1] == rest[j]);
                    assert(first_with_id(openers, id, j + 1));
                },
                None => {
                    assert forall|j: int| 0 <= j < openers.len() implies (
                    #[trigger] openers[j]).0 != id by {
                        if j > 0 {
                            assert(openers[j] == rest[j - 1]);
                        }
                    }
                },
            }
        }
    }
}

/// The openers of a load are asked one after the other, from the first on, with the worktree and
/// the path of the load, and the context goes from one to the next. All that were asked have
/// declined, but for the last where a task came back; without a task, all were asked.
pub proof fn openers_decline_until_one_opens<O: EntryOpener>(
    load: EntryLoad,
    openers: Vec<(usize, O)>,
    cx: O::Context,
    opened: (Option<O::Task>, O::Context),
)
    requires
        call_ensures(EntryLoad::open::<O>, (&load, &openers, cx), opened),
        forall|i: int|
            0 <= i < load.openers@.len() ==> exists|j: int| #[trigger]
                first_with_id(openers@, #[trigger] load.openers@[i], j),
    ensures
        exists|contexts: Seq<O::Context>| #[trigger]
            declining_until(load, openers@, contexts, opened.0) && contexts.first() == cx
                && contexts.last() == opened.1,
{
    let contexts = choose|contexts: Seq<O::Context>|
        {
            &&& #[trigger] asked_in_turn(
                load.openers@,
                openers@,
                load.project_path,
                contexts,
                opened.0,
            )
            &&& contexts.first() == cx
            &&& contexts.last() == opened.1
        };
    let asked = contexts.len() - 1;
    assert forall|i: int, j: int|
        0 <= i < asked && #[trigger] first_with_id(
            openers@,
            #[trigger] load.openers@[i],
            j,
        ) implies call_ensures(
        O::open,
        (&openers@[j].1, load.project_path.worktree_id, load.project_path, contexts[i]),
        (
            if i == asked - 1 {
                opened.0
            } else {
                None
            },
            contexts[i + 1],
        ),
    ) by {
        lemma_opener_of(openers@, load.openers@[i]);
        let opener = opener_of(openers@, load.openers@[i]);
        if opener is Some {
            let k = choose|k: int| #[trigger]
                first_with_id(openers@, load.openers@[i], k) && openers@[k].1 == opener->0;
            if k < j {
                assert(openers@[k].0 != load.openers@[i]);
            } else if j < k {
                assert(openers@[j].0 != load.openers@[i]);
            }
        } else {
            assert(openers@[j].0 != load.openers@[i]);
        }
    }
    assert(declining_until(load, openers@, contexts, opened.0));
}

/// The calls of the openers by which a load is begun: `contexts` has the context before the first
/// and after each of them.
pub open spec fn declining_until<O: EntryOpener>(
    load: EntryLoad,
    openers: Seq<(usize, O)>,
    contexts: Seq<O::Context>,
    task: Option<O::Task>,
) -> bool {
    let asked = contexts.len() - 1;
    &&& 0 <= asked <= load.openers@.len()
    &&& task is Some ==> asked > 0
    &&& task is None ==> asked == load.openers@.len()
    &&& forall|i: int, j: int|
        0 <= i < asked && #[trigger] first_with_id(openers, #[trigger] load.openers@[i], j)
            ==> call_ensures(
            O::open,
            (&openers[j].1, load.project_path.worktree_id, load.project_path, contexts[i]),
            (
                if i == asked - 1 {
                    task
                } else {
                    None
                },
                contexts[i + 1],
            ),
        )
}

/// A load sends one result: the item that the opener came back with, the failure under its number,
/// or that no opener took the entry. Nothing but that is on the channel from then on.
pub proof fn load_sends_what_was_opened(load: EntryLoad, opened: Option<Result<usize, usize>>)
    requires
        call_ensures(EntryLoad::finish, (load, opened), ()),
    ensures
        forall|value: Option<Result<usize, LoadError>>| #[trigger]
            held_in_time(load.result.channel()).contains(value) ==> {
                ||| load.result.held().contains(value)
                ||| opened matches Some(Ok(item)) && value == Some(Ok::<usize, LoadError>(item))
                ||| opened matches Some(Err(failure)) && value == Some(
                    Err::<usize, LoadError>(LoadError::Failed(failure)),
                )
                ||| opened is None && value == Some(Err::<usize, LoadError>(LoadError::NoOpener))
            },
        opened matches Some(Ok(item)) ==> held_in_time(load.result.channel()).contains(Some(Ok(item))),
        opened matches Some(Err(failure)) ==> held_in_time(load.result.channel()).contains(
            Some(Err(LoadError::Failed(failure))),
        ),
        opened is None ==> held_in_time(load.result.channel()).contains(
            Some(Err(LoadError::NoOpener)),
        ),
{
}

/// Who waits reads the channel that they were given.
pub proof fn waiting_reads_the_channel(
    pending: PendingEntry,
    result: Option<Result<usize, LoadError>>,
)
    requires
        call_ensures(PendingEntry::poll, (&pending,), result),
    ensures
        held_in_time(received_channel(pending.watch)).contains(result),
{
}

/// On an event of an item view, closing it rules out everything else. Otherwise the view becomes
/// the active item and the pane the active pane, in that order, exactly if that is asked for and
/// the pane has the view; and last the tab is drawn again exactly if that is asked for.
pub proof fn closing_comes_alone(
    item: usize,
    index: Option<usize>,
    close: bool,
    activate: bool,
    update: bool,
    actions: Vec<PaneAction>,
)
    requires
        call_ensures(item_event_actions, (item, index, close, activate, update), actions),
    ensures
        close ==> actions@ == seq![PaneAction::CloseItem(item)],
        !close ==> forall|id: usize| !(#[trigger] actions@.contains(PaneAction::CloseItem(id))),
        !close ==> forall|at: usize| #[trigger]
            actions@.contains(PaneAction::ActivateItem(at)) <==> activate && index == Some(at),
        !close && activate && index is Some ==> actions@.len() >= 2 && actions@[0]
            == PaneAction::ActivateItem(index->0) && actions@[1] == PaneAction::Activate,
        !close ==> (actions@.contains(PaneAction::Activate) <==> activate && index is Some),
        !close ==> (actions@.contains(PaneAction::Notify) <==> update),
        !close && update ==> actions@.last() == PaneAction::Notify,
        !close ==> actions@.len() == (if activate && index is Some {
            2int
        } else {
            0
        }) + (if update {
            1int
        } else {
            0
        }),
{
    let n = actions@.len() as int;
    if !close {
        if activate && index is Some {
            assert(actions@[0] == PaneAction::ActivateItem(index->0));
            assert(actions@[1] == PaneAction::Activate);
        }
        if update {
            assert(actions@[n - 1] == PaneAction::Notify);
        }
    }
}

/// A pane follows what the kind of view says of an event: it does what follows from the answers.
pub proof fn item_events_follow_the_view<V: ItemView>(
    item: usize,
    index: Option<usize>,
    event: &V::Event,
    close: bool,
    activate: bool,
    update: bool,
    actions: Vec<PaneAction>,
    expected: Vec<PaneAction>,
)
    requires
        call_ensures(on_item_event::<V>, (item, index, event), actions),
        forall|answer: bool|
            call_ensures(V::should_close_item_on_event, (event,), answer) ==> answer == close,
        forall|answer: bool|
            call_ensures(V::should_activate_item_on_event, (event,), answer) ==> answer == activate,
        forall|answer: bool|
            call_ensures(V::should_update_tab_on_event, (event,), answer) ==> answer == update,
        call_ensures(item_event_actions, (item, index, close, activate, update), expected),
    ensures
        actions@ == expected@,
{
    let (c, a, u) = choose|c: bool, a: bool, u: bool| #[trigger]
        actions_on_item_event(item, index, c, a, u) == actions@ && call_ensures(
            V::should_close_item_on_event,
            (event,),
            c,
        ) && (c || (call_ensures(V::should_activate_item_on_event, (event,), a) && call_ensures(
            V::should_update_tab_on_event,
            (event,),
            u,
        )));
    assert(c == close);
}

} // verus!
