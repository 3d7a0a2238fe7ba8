//! What becomes of panes, the modal view and the sidebars, and where the keyboard goes.

use crate::effects::{Creation, Effect, Side, SplitDirection};
use crate::items::{pane_state, ItemViewState, PaneState};
use crate::paths::ProjectPath;
use crate::setup::{
    init, Action, ActionHandler, CurrentUserWatch, Registrant, Registrations, SetupStep,
    SidebarItemId, ToggleSidebarItem, ToggleSidebarItemFocus, WorkspaceFrame, WorkspaceParams,
    WorkspaceParts, WorkspaceSetup,
};
use crate::state::{
    is_other, ModalToggle, PaneEvent, PaneEventStep, PaneSplit, Workspace, WorkspaceState,
};
use vstd::prelude::*;

verus! {

/// Where the keyboard is once effects were performed: `None` at the workspace itself, `Some` at a
/// view; where no effect moves it, it stays where it was.
pub open spec fn keyboard_after(before: Option<usize>, effects: Seq<Effect>) -> Option<usize>
    decreases effects.len(),
{
    if effects.len() == 0 {
        before
    } else {
        match effects.last() {
            Effect::Focus(view) => Some(view),
            Effect::FocusSelf => None,
            _ => keyboard_after(before, effects.drop_last()),
        }
    }
}

/// Which pane the status bar shows once effects were performed.
pub open spec fn status_after(status_bar: usize, before: usize, effects: Seq<Effect>) -> usize
    decreases effects.len(),
{
    if effects.len() == 0 {
        before
    } else {
        match effects.last() {
            Effect::SetStatusBarPane { status_bar: bar, pane } if bar == status_bar => pane,
            _ => status_after(status_bar, before, effects.drop_last()),
        }
    }
}

/// The effects show the active pane as such: the keyboard is there in the end, the status bar
/// shows it, and the workspace is drawn again.
pub open spec fn shows_active_pane<G, S>(w: WorkspaceState<G, S>, effects: Seq<Effect>) -> bool {
    &&& forall|before: Option<usize>| #[trigger]
        keyboard_after(before, effects) == Some(w.active_pane)
    &&& forall|before: usize| #[trigger]
        status_after(w.status_bar, before, effects) == w.active_pane
    &&& effects.contains(Effect::Notify)
}

proof fn lemma_activation<G, S>(
    w: WorkspaceState<G, S>,
    front: Seq<Effect>,
    effects: Seq<Effect>,
    back: Seq<Effect>,
)
    requires
        effects == front + seq![
            Effect::SetStatusBarPane { status_bar: w.status_bar, pane: w.active_pane },
            Effect::Focus(w.active_pane),
            Effect::Notify,
        ] + back,
        back.len() <= 1,
        back.len() == 1 ==> back[0] is CloneActiveItem,
    ensures
        shows_active_pane(w, effects),
{
    reveal_with_fuel(keyboard_after, 5);
    reveal_with_fuel(status_after, 5);
    let n = front.len() as int;
    assert(effects[n + 2] == Effect::Notify);
    let e4 = effects.take(n + 3);
    let e3 = effects.take(n + 2);
    let e2 = effects.take(n + 1);
    if back.len() == 1 {
        assert(effects.drop_last() =~= e4);
    } else {
        assert(effects =~= e4);
    }
    assert(e4.drop_last() =~= e3);
    assert(e3.drop_last() =~= e2);
}

/// A new workspace holds what it was made from and nothing else: one pane, which is active, no
/// modal view, no item, and no load.
pub proof fn new_workspace_is_empty<G, S>(
    params: WorkspaceParams,
    parts: WorkspaceParts,
    center: G,
    left_sidebar: S,
    right_sidebar: S,
    w: Workspace<G, S>,
)
    requires
        call_ensures(
            Workspace::<G, S>::new,
            (&params, parts, center, left_sidebar, right_sidebar),
            w,
        ),
    ensures
        w@.settings == params.settings,
        w@.client == params.client,
        w@.user_store == params.user_store,
        w@.fs == params.fs,
        w@.entry_openers == params.entry_openers@,
        w@.project == parts.project,
        w@.status_bar == parts.status_bar,
        w@.center == center,
        w@.left_sidebar == left_sidebar,
        w@.right_sidebar == right_sidebar,
        forall|pane: usize| #[trigger] w@.panes.contains(pane) <==> pane == parts.pane,
        w@.panes.len() == 1,
        w@.active_pane == parts.pane,
        w@.modal is None,
        w@.items.len() == 0,
        forall|key| !(#[trigger] w@.loading.contains_key(key)),
{
    assert(w@.panes[0] == parts.pane);
}

/// Every workspace has a pane, and its active pane is one of its panes.
pub proof fn active_pane_is_a_pane<G, S>(w: Workspace<G, S>)
    requires
        w.wf(),
    ensures
        exists|i: int| 0 <= i < w@.panes.len() && #[trigger] w@.panes[i] == w@.active_pane,
{
    let i = choose|i: int| 0 <= i < w@.panes.len() && w@.panes[i] == w@.active_pane;
    assert(w@.panes[i] == w@.active_pane);
}

/// The pane with an id is that pane, exactly if the workspace has it.
pub proof fn pane_is_found_by_its_id<G, S>(w: Workspace<G, S>, id: usize, pane: Option<usize>)
    requires
        call_ensures(Workspace::<G, S>::pane, (&w, id), pane),
    ensures
        pane is Some <==> exists|i: int| 0 <= i < w@.panes.len() && #[trigger] w@.panes[i] == id,
        pane matches Some(found) ==> found == id,
{
    if w@.panes.contains(id) {
        let i = choose|i: int| 0 <= i < w@.panes.len() && w@.panes[i] == id;
        assert(w@.panes[i] == id);
    }
}

/// A new pane comes last among the panes, leaves the others as they are, and becomes active. It is
/// observed and subscribed to before it is shown as the active pane.
pub proof fn added_pane_comes_last_and_is_active<G, S>(
    w: &mut Workspace<G, S>,
    pane: usize,
    effects: Vec<Effect>,
)
    requires
        call_ensures(Workspace::<G, S>::pane_added, (w, pane), effects),
    ensures
        final(w)@.panes.len() == old(w)@.panes.len() + 1,
        final(w)@.panes.last() == pane,
        forall|i: int|
            0 <= i < old(w)@.panes.len() ==> #[trigger] final(w)@.panes[i] == old(w)@.panes[i],
        final(w)@.active_pane == pane,
        final(w)@ == (WorkspaceState {
            panes: final(w)@.panes,
            active_pane: final(w)@.active_pane,
            ..old(w)@
        }),
        effects@.len() == 5,
        effects@[0] == Effect::ObservePane(pane),
        effects@[1] == Effect::SubscribeToPane(pane),
        shows_active_pane(final(w)@, effects@),
{
    let front = seq![Effect::ObservePane(pane), Effect::SubscribeToPane(pane)];
    assert(effects@ =~= front + seq![
        Effect::SetStatusBarPane { status_bar: old(w)@.status_bar, pane },
        Effect::Focus(pane),
        Effect::Notify,
    ] + Seq::<Effect>::empty());
    lemma_activation(final(w)@, front, effects@, Seq::empty());
}

/// An event of a pane that the workspace does not have changes nothing and asks for nothing.
pub proof fn strange_pane_is_ignored<G, S>(
    w: &mut Workspace<G, S>,
    pane_id: usize,
    event: PaneEvent,
    step: PaneEventStep,
)
    requires
        call_ensures(Workspace::<G, S>::handle_pane_event, (w, pane_id, event), step),
    ensures
        step is NotFound <==> !old(w)@.panes.contains(pane_id),
        step is NotFound ==> final(w)@ == old(w)@,
{
}

/// A pane of the workspace that activates itself becomes active and is shown as such. Nothing else
/// changes, and no other event makes a pane active at once.
pub proof fn activated_pane_is_active<G, S>(
    w: &mut Workspace<G, S>,
    pane_id: usize,
    event: PaneEvent,
    step: PaneEventStep,
)
    requires
        call_ensures(Workspace::<G, S>::handle_pane_event, (w, pane_id, event), step),
        old(w)@.panes.contains(pane_id),
    ensures
        step is Activated <==> event is Activate,
        event is Activate ==> final(w)@.active_pane == pane_id,
        event !is Activate ==> final(w)@ == old(w)@,
        final(w)@ == (WorkspaceState { active_pane: final(w)@.active_pane, ..old(w)@ }),
        step matches PaneEventStep::Activated(effects) ==> effects@.len() == 3
            && shows_active_pane(final(w)@, effects@),
{
    if let PaneEventStep::Activated(effects) = step {
        assert(effects@ =~= Seq::<Effect>::empty() + seq![
            Effect::SetStatusBarPane { status_bar: old(w)@.status_bar, pane: pane_id },
            Effect::Focus(pane_id),
            Effect::Notify,
        ] + Seq::<Effect>::empty());
        lemma_activation(final(w)@, Seq::empty(), effects@, Seq::empty());
    }
}

/// A pane that is to be removed is taken out of the center first, that pane and no other.
pub proof fn removed_pane_leaves_the_center_first<G, S>(
    w: &mut Workspace<G, S>,
    pane_id: usize,
    event: PaneEvent,
    step: PaneEventStep,
)
    requires
        call_ensures(Workspace::<G, S>::handle_pane_event, (w, pane_id, event), step),
        old(w)@.panes.contains(pane_id),
    ensures
        step is Remove <==> event is Remove,
        step matches PaneEventStep::Remove(effect) ==> effect == (Effect::RemoveFromCenter {
            pane: pane_id,
        }),
{
}

/// A pane that was taken out of the center leaves the panes; the others stay, in their order, and
/// the last of them becomes active and is shown as such. Where it was not taken out, nothing
/// happens.
pub proof fn removed_pane_leaves_the_others<G, S>(
    w: &mut Workspace<G, S>,
    pane: usize,
    removed: bool,
    effects: Vec<Effect>,
)
    requires
        call_ensures(Workspace::<G, S>::remove_pane, (w, pane, removed), effects),
    ensures
        !removed ==> final(w)@ == old(w)@ && effects@.len() == 0,
        removed ==> final(w)@.panes == old(w)@.panes.filter(|other: usize| other != pane),
        removed ==> !final(w)@.panes.contains(pane),
        removed ==> final(w)@.active_pane == final(w)@.panes.last(),
        removed ==> effects@.len() == 3 && shows_active_pane(final(w)@, effects@),
        final(w)@ == (WorkspaceState {
            panes: final(w)@.panes,
            active_pane: final(w)@.active_pane,
            ..old(w)@
        }),
{
    if removed {
        let keep = |other: usize| other != pane;
        assert(keep =~= is_other(pane));
        broadcast use vstd::seq_lib::group_filter_ensures;

        if final(w)@.panes.contains(pane) {
            let i = choose|i: int|
                0 <= i < final(w)@.panes.len() && final(w)@.panes[i] == pane;
            assert(keep(final(w)@.panes[i]));
        }
        assert(effects@ =~= Seq::<Effect>::empty() + seq![
            Effect::SetStatusBarPane {
                status_bar: old(w)@.status_bar,
                pane: final(w)@.active_pane,
            },
            Effect::Focus(final(w)@.active_pane),
            Effect::Notify,
        ] + Seq::<Effect>::empty());
        lemma_activation(final(w)@, Seq::empty(), effects@, Seq::empty());
    }
}

/// A new pane is made with the settings of the workspace.
pub proof fn new_pane_has_the_settings<G, S>(w: Workspace<G, S>, creation: Creation)
    requires
        call_ensures(Workspace::<G, S>::add_pane, (&w,), creation),
    ensures
        creation is Pane,
        creation->Pane_settings == w@.settings,
{
}

/// A split that a pane asks for is that of the pane, in the direction that was asked for, and
/// starts with a new pane that has the settings of the workspace.
pub proof fn split_is_as_asked<G, S>(
    w: &mut Workspace<G, S>,
    pane_id: usize,
    direction: SplitDirection,
    step: PaneEventStep,
    reference: Workspace<G, S>,
    split: PaneSplit,
)
    requires
        call_ensures(
            Workspace::<G, S>::handle_pane_event,
            (w, pane_id, PaneEvent::Split(direction)),
            step,
        ),
        old(w)@.panes.contains(pane_id),
        reference@ == old(w)@,
        call_ensures(Workspace::<G, S>::split_pane, (&reference, pane_id, direction), split),
    ensures
        step == PaneEventStep::Split(split),
        split.from == pane_id,
        split.direction == direction,
        split.creation == (Creation::Pane { settings: old(w)@.settings }),
        final(w)@ == old(w)@,
{
}

/// The new pane of a split comes last and is active, and the pane that was split is asked for a
/// copy of its item, after all else.
pub proof fn split_pane_asks_for_a_copy<G, S>(
    w: &mut Workspace<G, S>,
    split: PaneSplit,
    new_pane: usize,
    effects: Vec<Effect>,
)
    requires
        call_ensures(Workspace::<G, S>::split_pane_added, (w, split, new_pane), effects),
    ensures
        final(w)@.panes.len() == old(w)@.panes.len() + 1,
        final(w)@.panes.last() == new_pane,
        forall|i: int|
            0 <= i < old(w)@.panes.len() ==> #[trigger] final(w)@.panes[i] == old(w)@.panes[i],
        final(w)@.active_pane == new_pane,
        final(w)@ == (WorkspaceState {
            panes: final(w)@.panes,
            active_pane: final(w)@.active_pane,
            ..old(w)@
        }),
        effects@.len() == 9,
        effects@[0] == Effect::ObservePane(new_pane),
        effects@[1] == Effect::SubscribeToPane(new_pane),
        effects@.last() == (Effect::CloneActiveItem { from: split.from }),
        forall|i: int|
            2 <= i < 8 ==> (#[trigger] effects@[i] == (Effect::SetStatusBarPane {
                status_bar: old(w)@.status_bar,
                pane: new_pane,
            }) || effects@[i] == Effect::Focus(new_pane) || effects@[i] == Effect::Notify),
        shows_active_pane(final(w)@, effects@),
{
    let bar = Effect::SetStatusBarPane { status_bar: old(w)@.status_bar, pane: new_pane };
    let front = seq![
        Effect::ObservePane(new_pane),
        Effect::SubscribeToPane(new_pane),
        bar,
        Effect::Focus(new_pane),
        Effect::Notify,
    ];
    let back = seq![Effect::CloneActiveItem { from: split.from }];
    assert(effects@ =~= front + seq![bar, Effect::Focus(new_pane), Effect::Notify] + back);
    lemma_activation(final(w)@, front, effects@, back);
}

/// The end of a split makes room once, beside the pane that was split, for the new pane, in the
/// direction of the split. A copy of the item, if there is one, is shown in the new pane before;
/// without one, nothing is shown. Last the workspace is drawn again.
pub proof fn split_ends_in_its_direction<G, S>(
    w: Workspace<G, S>,
    split: PaneSplit,
    new_pane: usize,
    copy: Option<usize>,
    effects: Vec<Effect>,
)
    requires
        call_ensures(Workspace::<G, S>::finish_split, (&w, split, new_pane, copy), effects),
    ensures
        effects@.contains(
            Effect::SplitCenter {
                old_pane: split.from,
                new_pane,
                direction: split.direction,
            },
        ),
        forall|i: int, j: int|
            0 <= i < j < effects@.len() ==> !(#[trigger] effects@[i] is SplitCenter
                && #[trigger] effects@[j] is SplitCenter),
        copy matches Some(view) ==> effects@.len() == 3 && effects@[0] == (Effect::AddItemView {
            pane: new_pane,
            view,
        }),
        copy is None ==> effects@.len() == 2,
        effects@.last() == Effect::Notify,
{
    let at = effects@.len() - 2;
    assert(effects@[at] == (Effect::SplitCenter {
        old_pane: split.from,
        new_pane,
        direction: split.direction,
    }));
}

/// A split of a pane, from the event to its end, opens the new pane beside that pane in the
/// direction that was asked for, whichever it is.
pub proof fn split_opens_where_it_was_asked_for<G, S>(
    w: &mut Workspace<G, S>,
    pane_id: usize,
    direction: SplitDirection,
    step: PaneEventStep,
    later: Workspace<G, S>,
    new_pane: usize,
    copy: Option<usize>,
    effects: Vec<Effect>,
)
    requires
        call_ensures(
            Workspace::<G, S>::handle_pane_event,
            (w, pane_id, PaneEvent::Split(direction)),
            step,
        ),
        old(w)@.panes.contains(pane_id),
        call_ensures(
            Workspace::<G, S>::finish_split,
            (&later, step->Split_0, new_pane, copy),
            effects,
        ),
    ensures
        step is Split,
        effects@.contains(Effect::SplitCenter { old_pane: pane_id, new_pane, direction }),
        forall|i: int|
            0 <= i < effects@.len() && #[trigger] effects@[i] is SplitCenter ==> effects@[i] == (
            Effect::SplitCenter { old_pane: pane_id, new_pane, direction }),
{
    let at = effects@.len() - 2;
    assert(effects@[at] == (Effect::SplitCenter { old_pane: pane_id, new_pane, direction }));
}

/// A modal view that is open and of the kind asked for is closed, and the keyboard goes back to
/// the workspace. Otherwise nothing changes and a view is asked for.
pub proof fn toggling_closes_a_view_of_the_kind<G, S>(
    w: &mut Workspace<G, S>,
    is_kind: bool,
    toggle: ModalToggle,
)
    requires
        call_ensures(Workspace::<G, S>::toggle_modal, (w, is_kind), toggle),
    ensures
        toggle is Closed <==> old(w)@.modal is Some && is_kind,
        toggle is AddView ==> final(w)@ == old(w)@,
        toggle matches ModalToggle::Closed(effects) ==> {
            &&& final(w)@.modal is None
            &&& effects@.len() == 2
            &&& forall|before: Option<usize>| #[trigger] keyboard_after(before, effects@) is None
            &&& effects@.contains(Effect::Notify)
        },
        final(w)@ == (WorkspaceState { modal: final(w)@.modal, ..old(w)@ }),
{
    reveal_with_fuel(keyboard_after, 4);
    if let ModalToggle::Closed(effects) = toggle {
        assert(effects@[1] == Effect::Notify);
        assert(effects@.drop_last().last() == Effect::FocusSelf);
    }
}

/// A modal view that was made is open, whatever was before, and has the keyboard.
pub proof fn added_modal_is_open<G, S>(w: &mut Workspace<G, S>, view: usize, effects: Vec<Effect>)
    requires
        call_ensures(Workspace::<G, S>::modal_added, (w, view), effects),
    ensures
        final(w)@.modal == Some(view),
        final(w)@ == (WorkspaceState { modal: final(w)@.modal, ..old(w)@ }),
        effects@.len() == 2,
        forall|before: Option<usize>| #[trigger] keyboard_after(before, effects@) == Some(view),
        effects@.contains(Effect::Notify),
{
    reveal_with_fuel(keyboard_after, 4);
    assert(effects@[1] == Effect::Notify);
    assert(effects@.drop_last().last() == Effect::Focus(view));
}

/// A modal view that is dismissed is closed, and the keyboard goes to the active pane. Where none
/// is open, nothing happens.
pub proof fn dismissed_modal_gives_the_keyboard_to_the_pane<G, S>(
    w: &mut Workspace<G, S>,
    effects: Vec<Effect>,
)
    requires
        call_ensures(Workspace::<G, S>::dismiss_modal, (w,), effects),
    ensures
        final(w)@.modal is None,
        final(w)@ == (WorkspaceState { modal: final(w)@.modal, ..old(w)@ }),
        old(w)@.modal is None ==> effects@.len() == 0,
        old(w)@.modal is Some ==> {
            &&& effects@.len() == 2
            &&& forall|before: Option<usize>| #[trigger]
                keyboard_after(before, effects@) == Some(old(w)@.active_pane)
            &&& effects@.contains(Effect::Notify)
        },
{
    reveal_with_fuel(keyboard_after, 4);
    if old(w)@.modal is Some {
        assert(effects@[1] == Effect::Notify);
        assert(effects@.drop_last().last() == Effect::Focus(old(w)@.active_pane));
    }
}

/// The keyboard goes on from the workspace to the active pane.
pub proof fn keyboard_goes_on_to_the_active_pane<G, S>(w: Workspace<G, S>, effect: Effect)
    requires
        call_ensures(Workspace::<G, S>::on_focus, (&w,), effect),
    ensures
        effect == Effect::Focus(w@.active_pane),
{
}

/// An item of a sidebar is toggled on the side and at the index that were asked for. Then the
/// keyboard is at the item that the sidebar shows or, where it shows none, at the workspace.
pub proof fn toggled_sidebar_item_gets_the_keyboard<G, S>(
    w: Workspace<G, S>,
    action: ToggleSidebarItem,
    effect: Effect,
    active_item: Option<usize>,
    effects: Vec<Effect>,
)
    requires
        call_ensures(Workspace::<G, S>::toggle_sidebar_item, (&w, &action), effect),
        call_ensures(Workspace::<G, S>::sidebar_item_toggled, (&w, active_item), effects),
    ensures
        effect == (Effect::ToggleSidebarItem {
            side: action.0.side,
            item_index: action.0.item_index,
        }),
        effects@.len() == 2,
        forall|before: Option<usize>| #[trigger] keyboard_after(before, effects@) == active_item,
        effects@.contains(Effect::Notify),
{
    reveal_with_fuel(keyboard_after, 4);
    assert(effects@[1] == Effect::Notify);
    assert(effects@.drop_last().last() == effects@[0]);
}

/// An item of a sidebar is activated on the side and at the index that were asked for. Then the
/// keyboard goes to the item that the sidebar shows, or back to the workspace where the item has
/// it; where the sidebar shows none, the keyboard stays.
pub proof fn activated_sidebar_item_toggles_the_keyboard<G, S>(
    w: Workspace<G, S>,
    action: ToggleSidebarItemFocus,
    effect: Effect,
    active_item: Option<(usize, bool)>,
    effects: Vec<Effect>,
)
    requires
        call_ensures(Workspace::<G, S>::toggle_sidebar_item_focus, (&w, &action), effect),
        call_ensures(Workspace::<G, S>::sidebar_item_activated, (&w, active_item), effects),
    ensures
        effect == (Effect::ActivateSidebarItem {
            side: action.0.side,
            item_index: action.0.item_index,
        }),
        forall|before: Option<usize>| #[trigger]
            keyboard_after(before, effects@) == match active_item {
                Some((view, focused)) => if focused {
                    None
                } else {
                    Some(view)
                },
                None => before,
            },
        effects@.contains(Effect::Notify),
        effects@.len() == if active_item is Some {
            2int
        } else {
            1
        },
{
    reveal_with_fuel(keyboard_after, 4);
    let n = effects@.len() as int;
    assert(effects@[n - 1] == Effect::Notify);
    if active_item is Some {
        assert(effects@.drop_last().last() == effects@[0]);
    } else {
        assert(effects@.drop_last() =~= Seq::<Effect>::empty());
    }
}

/// What a workspace was made from is what it tells of itself: nothing that is read of a new
/// workspace is taken for something else.
pub proof fn new_workspace_tells_what_it_was_made_from<G, S>(
    params: WorkspaceParams,
    parts: WorkspaceParts,
    center: G,
    left_sidebar: S,
    right_sidebar: S,
    w: Workspace<G, S>,
    settings: usize,
    client: usize,
    user_store: usize,
    fs: usize,
    status_bar: usize,
    project: usize,
)
    requires
        call_ensures(
            Workspace::<G, S>::new,
            (&params, parts, center, left_sidebar, right_sidebar),
            w,
        ),
        call_ensures(Workspace::<G, S>::settings, (&w,), settings),
        call_ensures(Workspace::<G, S>::client, (&w,), client),
        call_ensures(Workspace::<G, S>::user_store, (&w,), user_store),
        call_ensures(Workspace::<G, S>::fs, (&w,), fs),
        call_ensures(Workspace::<G, S>::status_bar, (&w,), status_bar),
        call_ensures(Workspace::<G, S>::project, (&w,), project),
    ensures
        settings == params.settings,
        client == params.client,
        user_store == params.user_store,
        fs == params.fs,
        status_bar == parts.status_bar,
        project == parts.project,
{
}

/// The panes, the active one, the modal view, the items and the center are told as they are.
pub proof fn parts_are_told_as_they_are<G, S>(
    w: Workspace<G, S>,
    panes: &[usize],
    active_pane: usize,
    modal: Option<usize>,
    items: &[usize],
    center: &G,
    name: &'static str,
)
    requires
        call_ensures(Workspace::<G, S>::panes, (&w,), panes),
        call_ensures(Workspace::<G, S>::active_pane, (&w,), active_pane),
        call_ensures(Workspace::<G, S>::modal, (&w,), modal),
        call_ensures(Workspace::<G, S>::items, (&w,), items),
        call_ensures(Workspace::<G, S>::center, (&w,), center),
        call_ensures(Workspace::<G, S>::ui_name, (), name),
    ensures
        panes@ == w@.panes,
        active_pane == w@.active_pane,
        modal == w@.modal,
        items@ == w@.items,
        *center == w@.center,
        name@ == "Workspace"@,
{
}

/// Changing the sidebar of a side changes that sidebar, and nothing else of the workspace.
pub proof fn changed_sidebar_is_that_of_its_side<G, S>(
    w: &mut Workspace<G, S>,
    side: Side,
    sidebar: &mut S,
)
    requires
        call_ensures(Workspace::<G, S>::sidebar_mut, (w, side), sidebar),
    ensures
        side is Left ==> *old(sidebar) == old(w)@.left_sidebar && final(w)@ == (WorkspaceState {
            left_sidebar: *final(sidebar),
            ..old(w)@
        }),
        side is Right ==> *old(sidebar) == old(w)@.right_sidebar && final(w)@ == (WorkspaceState {
            right_sidebar: *final(sidebar),
            ..old(w)@
        }),
{
}

/// Changing the left sidebar, the right one or the center changes that, and nothing else.
pub proof fn changes_stay_in_their_place<G, S>(
    w: &mut Workspace<G, S>,
    left_sidebar: &mut S,
    v: &mut Workspace<G, S>,
    right_sidebar: &mut S,
    u: &mut Workspace<G, S>,
    center: &mut G,
)
    requires
        call_ensures(Workspace::<G, S>::left_sidebar_mut, (w,), left_sidebar),
        call_ensures(Workspace::<G, S>::right_sidebar_mut, (v,), right_sidebar),
        call_ensures(Workspace::<G, S>::center_mut, (u,), center),
    ensures
        *old(left_sidebar) == old(w)@.left_sidebar,
        final(w)@ == (WorkspaceState { left_sidebar: *final(left_sidebar), ..old(w)@ }),
        *old(right_sidebar) == old(v)@.right_sidebar,
        final(v)@ == (WorkspaceState { right_sidebar: *final(right_sidebar), ..old(v)@ }),
        *old(center) == old(u)@.center,
        final(u)@ == (WorkspaceState { center: *final(center), ..old(u)@ }),
{
}

/// The sidebar on a side is that of the side.
pub proof fn sidebar_is_that_of_its_side<G, S>(w: Workspace<G, S>, side: Side, sidebar: &S)
    requires
        call_ensures(Workspace::<G, S>::sidebar, (&w, side), sidebar),
    ensures
        side is Left ==> *sidebar == w@.left_sidebar,
        side is Right ==> *sidebar == w@.right_sidebar,
{
}

/// A description of the screen is put on the clipboard as it is, and an error is handed on.
pub proof fn description_goes_to_the_clipboard<G, S, E>(
    w: Workspace<G, S>,
    json: Result<String, E>,
    copied: Result<Effect, E>,
)
    requires
        call_ensures(Workspace::<G, S>::debug_elements::<E>, (&w, json), copied),
    ensures
        copied is Ok <==> json is Ok,
        copied matches Ok(effect) ==> effect == Effect::WriteToClipboard(json->Ok_0),
        copied matches Err(error) ==> error == json->Err_0,
{
}

/// The state at `i` is the first that is given of the pane.
pub open spec fn first_state_of(panes: Seq<PaneState>, pane: usize, i: int) -> bool {
    &&& 0 <= i < panes.len()
    &&& panes[i].id == pane
    &&& forall|j: int| 0 <= j < i ==> (#[trigger] panes[j]).id != pane
}

/// No state is given of the pane.
pub open spec fn no_state_of(panes: Seq<PaneState>, pane: usize) -> bool {
    forall|j: int| 0 <= j < panes.len() ==> (#[trigger] panes[j]).id != pane
}

pub(crate) proof fn lemma_pane_state(panes: Seq<PaneState>, pane: usize)
    ensures
        forall|i: int| #[trigger]
            first_state_of(panes, pane, i) ==> pane_state(panes, pane) == Some(panes[i]),
        no_state_of(panes, pane) ==> pane_state(panes, pane) is None,
    decreases panes.len(),
{
    if panes.len() > 0 {
        let rest = panes.drop_first();
        lemma_pane_state(rest, pane);
        assert(panes.first() == panes[0]);
        assert forall|i: int| #[trigger] first_state_of(panes, pane, i) implies pane_state(
            panes,
            pane,
        ) == Some(panes[i]) by {
            if i > 0 {
                assert(panes[0].id != pane);
                assert forall|j: int| 0 <= j < i - 1 implies (#[trigger] rest[j]).id != pane by {
                    assert(panes[j + 1].id != pane);
                }
                assert(rest[i - 1] == panes[i]);
                assert(first_state_of(rest, pane, i - 1));
            } else if panes[0].id != pane {
                assert(false);
            }
        }
        if no_state_of(panes, pane) {
            assert(panes[0].id != pane);
            assert forall|j: int| 0 <= j < rest.len() implies (#[trigger] rest[j]).id != pane by {
                assert(panes[j + 1].id != pane);
            }
        }
    }
}

/// The active item is what the active pane shows, and that of no other pane.
pub proof fn active_item_is_of_the_active_pane<G, S>(
    w: Workspace<G, S>,
    panes: Vec<PaneState>,
    item: Option<&ItemViewState>,
)
    requires
        call_ensures(Workspace::<G, S>::active_item, (&w, &panes), item),
    ensures
        forall|i: int| #[trigger]
            first_state_of(panes@, w@.active_pane, i) ==> match item {
                Some(shown) => panes@[i].active_item == Some(*shown),
                None => panes@[i].active_item is None,
            },
        no_state_of(panes@, w@.active_pane) ==> item is None,
{
    lemma_pane_state(panes@, w@.active_pane);
}

/// The active path is that of what the active pane shows, and the project of the workspace is told
/// of it whenever a pane has changed.
pub proof fn active_path_is_of_the_active_pane<G, S>(
    w: Workspace<G, S>,
    panes: Vec<PaneState>,
    path: Option<ProjectPath>,
    effect: Effect,
)
    requires
        call_ensures(Workspace::<G, S>::active_project_path, (&w, &panes), path),
        call_ensures(Workspace::<G, S>::pane_changed, (&w, &panes), effect),
    ensures
        forall|i: int| #[trigger]
            first_state_of(panes@, w@.active_pane, i) ==> match panes@[i].active_item {
                Some(shown) => path == shown.project_path,
                None => path is None,
            },
        no_state_of(panes@, w@.active_pane) ==> path is None,
        effect == (Effect::SetActivePath { project: w@.project, path }),
{
    lemma_pane_state(panes@, w@.active_pane);
}

/// Four handlers are registered, in this order, and four keys are bound everywhere: two to saving
/// and debugging, two to the first item of the left sidebar. The panes register after that.
pub proof fn keys_are_bound_to_their_actions(registrations: Registrations)
    requires
        call_ensures(init, (), registrations),
    ensures
        registrations.handlers@ == seq![
            ActionHandler::SaveActiveItem,
            ActionHandler::DebugElements,
            ActionHandler::ToggleSidebarItem,
            ActionHandler::ToggleSidebarItemFocus,
        ],
        registrations.bindings@.len() == 4,
        forall|i: int|
            0 <= i < 4 ==> (#[trigger] registrations.bindings@[i]).context is None,
        registrations.bindings@[0].keystrokes@ == "cmd-s"@,
        registrations.bindings@[0].action == Action::Save,
        registrations.bindings@[1].keystrokes@ == "cmd-alt-i"@,
        registrations.bindings@[1].action == Action::DebugElements,
        registrations.bindings@[2].keystrokes@ == "cmd-shift-!"@,
        registrations.bindings@[2].action == Action::ToggleSidebarItem(
            ToggleSidebarItem(SidebarItemId { side: Side::Left, item_index: 0 }),
        ),
        registrations.bindings@[3].keystrokes@ == "cmd-1"@,
        registrations.bindings@[3].action == Action::ToggleSidebarItemFocus(
            ToggleSidebarItemFocus(SidebarItemId { side: Side::Left, item_index: 0 }),
        ),
        registrations.registrants@ == seq![Registrant::Panes],
{
}

/// A setup makes a project, a pane and a status bar, in that order, from what is given for the
/// workspace, and ends with their ids. The project is observed as soon as it is made; the pane is
/// observed, subscribed to and given the keyboard; and in the end the user is watched.
pub proof fn setup_makes_three_parts(
    params: WorkspaceParams,
    start: (WorkspaceSetup, Creation),
    project: usize,
    first: SetupStep,
    pane: usize,
    second: SetupStep,
    status_bar: usize,
    third: SetupStep,
)
    requires
        call_ensures(WorkspaceSetup::start, (&params,), start),
        call_ensures(WorkspaceSetup::next, (start.0, &params, project), first),
        call_ensures(WorkspaceSetup::next, (first->next, &params, pane), second),
        call_ensures(WorkspaceSetup::next, (second->next, &params, status_bar), third),
    ensures
        start.1 == (Creation::Project {
            languages: params.languages,
            client: params.client,
            user_store: params.user_store,
            fs: params.fs,
        }),
        first matches SetupStep::Create { effects, creation, .. } && effects@ == seq![
            Effect::ObserveProject(project),
        ] && creation == (Creation::Pane { settings: params.settings }),
        second matches SetupStep::Create { effects, creation, .. } && effects@ == seq![
            Effect::ObservePane(pane),
            Effect::SubscribeToPane(pane),
            Effect::Focus(pane),
        ] && creation == (Creation::StatusBar { pane, settings: params.settings }),
        third matches SetupStep::Finished { effects, parts, frame } && effects@ == seq![
            (Effect::WatchCurrentUser { user_store: params.user_store, client: params.client }),
        ] && parts == (WorkspaceParts { project, pane, status_bar }) && frame == (WorkspaceFrame {
            center_pane: pane,
            left_sidebar: Side::Left,
            right_sidebar: Side::Right,
        }),
{
}

/// The first value of the user and the first of the connection draw nothing, whatever they are.
/// After them, every value draws a workspace that still exists, and the watch goes on; when the
/// values end, it ends for good and draws nothing any more.
pub proof fn only_changes_of_the_user_draw(
    start: CurrentUserWatch,
    arrived: (bool, bool, bool, bool),
    alive: (bool, bool, bool, bool),
    first: (CurrentUserWatch, Option<Effect>),
    second: (CurrentUserWatch, Option<Effect>),
    third: (CurrentUserWatch, Option<Effect>),
    fourth: (CurrentUserWatch, Option<Effect>),
)
    requires
        call_ensures(CurrentUserWatch::new, (), start),
        call_ensures(CurrentUserWatch::next, (start, arrived.0, alive.0), first),
        call_ensures(CurrentUserWatch::next, (first.0, arrived.1, alive.1), second),
        call_ensures(CurrentUserWatch::next, (second.0, arrived.2, alive.2), third),
        call_ensures(CurrentUserWatch::next, (third.0, arrived.3, alive.3), fourth),
    ensures
        start is User,
        first.0 is Connection,
        second.0 is Either,
        first.1 is None,
        second.1 is None,
        third.1 == if arrived.2 && alive.2 {
            Some(Effect::Notify)
        } else {
            None
        },
        arrived.2 ==> third.0 == second.0,
        !arrived.2 ==> third.0 is Ended && fourth.0 is Ended && fourth.1 is None,
{
}

} // verus!
