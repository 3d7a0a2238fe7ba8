//! The state of a workspace, and how it changes.

use crate::center::{
    center_after, center_after_all, center_allows, center_allows_all, center_removes,
    lemma_center_removes, lemma_center_splits, lemma_split_end, panes_at_center,
};
use crate::effects::{Creation, Effect, Side, SplitDirection};
use crate::items::{
    find_shown_item, first_item_of, live_items, retain_live, shown_item, shown_path, ItemState,
    ItemViewState, PaneState,
};
use crate::loading::{
    received_channel, EntryLoad, LoadError, LoadingItems, PendingEntry, ResultSender,
};
use crate::paths::{EntryKey, ProjectPath};
use crate::setup::{ToggleSidebarItem, ToggleSidebarItemFocus, WorkspaceParams, WorkspaceParts};
use vstd::prelude::*;

verus! {

/// A workspace: panes around a center of kind `G`, between two sidebars of kind `S`. Views and
/// models are named by their ids.
pub struct Workspace<G, S> {
    settings: usize,
    client: usize,
    user_store: usize,
    fs: usize,
    modal: Option<usize>,
    center: G,
    left_sidebar: S,
    right_sidebar: S,
    panes: Vec<usize>,
    active_pane: usize,
    status_bar: usize,
    project: usize,
    entry_openers: Vec<usize>,
    items: Vec<usize>,
    loading_items: LoadingItems,
}

/// What a workspace holds.
pub struct WorkspaceState<G, S> {
    pub settings: usize,
    pub client: usize,
    pub user_store: usize,
    pub fs: usize,
    /// The modal view that is open.
    pub modal: Option<usize>,
    pub center: G,
    pub left_sidebar: S,
    pub right_sidebar: S,
    /// The panes, from the oldest to the newest.
    pub panes: Seq<usize>,
    pub active_pane: usize,
    pub status_bar: usize,
    pub project: usize,
    pub entry_openers: Seq<usize>,
    /// The items that were added, from the oldest to the newest; some may be gone.
    pub items: Seq<usize>,
    /// The channel of each entry that is being loaded.
    pub loading: Map<EntryKey, int>,
}

impl<G, S> View for Workspace<G, S> {
    type V = WorkspaceState<G, S>;

    closed spec fn view(&self) -> WorkspaceState<G, S> {
        WorkspaceState {
            settings: self.settings,
            client: self.client,
            user_store: self.user_store,
            fs: self.fs,
            modal: self.modal,
            center: self.center,
            left_sidebar: self.left_sidebar,
            right_sidebar: self.right_sidebar,
            panes: self.panes@,
            active_pane: self.active_pane,
            status_bar: self.status_bar,
            project: self.project,
            entry_openers: self.entry_openers@,
            items: self.items@,
            loading: self.loading_items@,
        }
    }
}

/// What makes a pane the active one outside the workspace.
pub open spec fn activation(status_bar: usize, pane: usize) -> Seq<Effect> {
    seq![Effect::SetStatusBarPane { status_bar, pane }, Effect::Focus(pane), Effect::Notify]
}

/// What introduces a new pane, which becomes the active one.
pub open spec fn introduction(status_bar: usize, pane: usize) -> Seq<Effect> {
    seq![Effect::ObservePane(pane), Effect::SubscribeToPane(pane)] + activation(status_bar, pane)
}

/// What ends a split: the new pane shows the copy of the item, if there is one, and gets its place
/// at the center.
pub open spec fn split_end(split: PaneSplit, new_pane: usize, copy: Option<usize>) -> Seq<Effect> {
    (match copy {
        Some(view) => seq![Effect::AddItemView { pane: new_pane, view }],
        None => Seq::<Effect>::empty(),
    }) + seq![
        Effect::SplitCenter { old_pane: split.from, new_pane, direction: split.direction },
        Effect::Notify,
    ]
}

/// Tells the other panes from a pane.
pub open spec fn is_other(pane: usize) -> spec_fn(usize) -> bool {
    |other: usize| other != pane
}

impl<G, S> WorkspaceState<G, S> {
    /// There is a pane, and the active pane is one of them.
    pub open spec fn valid(self) -> bool {
        self.panes.len() > 0 && self.panes.contains(self.active_pane)
    }

    /// No pane occurs twice.
    pub open spec fn panes_distinct(self) -> bool {
        self.panes.no_duplicates()
    }

    /// A modal view in place of the one that was open, or none.
    pub open spec fn with_modal(self, modal: Option<usize>) -> Self {
        WorkspaceState { modal, ..self }
    }

    /// Another pane is active.
    pub open spec fn with_active_pane(self, pane: usize) -> Self {
        WorkspaceState { active_pane: pane, ..self }
    }

    /// A new pane comes last and is active.
    pub open spec fn with_pane(self, pane: usize) -> Self {
        WorkspaceState { panes: self.panes.push(pane), active_pane: pane, ..self }
    }

    /// The other panes, in their order.
    pub open spec fn other_panes(self, pane: usize) -> Seq<usize> {
        self.panes.filter(is_other(pane))
    }

    /// The pane is gone, and the last of the others is active.
    pub open spec fn without_pane(self, pane: usize) -> Self {
        WorkspaceState {
            panes: self.other_panes(pane),
            active_pane: self.other_panes(pane).last(),
            ..self
        }
    }

    /// One more item.
    pub open spec fn with_item(self, item: usize) -> Self {
        WorkspaceState { items: self.items.push(item), ..self }
    }

    /// Only the items that still exist.
    pub open spec fn with_live_items(self, live: Seq<ItemState>) -> Self {
        WorkspaceState { items: live_items(self.items, live), ..self }
    }

    /// What has become of the items when an entry was looked for: nothing where a pane already
    /// showed it, and otherwise only those that still exist are kept.
    pub open spec fn looked_up(self, activated: bool, live: Seq<ItemState>) -> Self {
        if activated {
            self
        } else {
            self.with_live_items(live)
        }
    }

    /// An item for the entry, to be shown in `pane`, if there is one.
    pub open spec fn existing_entry(
        self,
        entry: EntryKey,
        pane: usize,
        activated: bool,
        live: Seq<ItemState>,
    ) -> ExistingEntry {
        if activated {
            ExistingEntry::Activated
        } else {
            match first_item_of(self.items, live, entry) {
                Some(item) => ExistingEntry::Shown(
                    Effect::ShowItem { item, settings: self.settings, pane },
                ),
                None => ExistingEntry::NotOpen,
            }
        }
    }

    /// The entry is being loaded on a channel.
    pub open spec fn with_load(self, entry: EntryKey, channel: int) -> Self {
        WorkspaceState { loading: self.loading.insert(entry, channel), ..self }
    }

    /// The entry is not being loaded.
    pub open spec fn without_load(self, entry: EntryKey) -> Self {
        WorkspaceState { loading: self.loading.remove(entry), ..self }
    }
}

/// What to do when a modal view is toggled.
#[derive(Debug, PartialEq, Eq)]
pub enum ModalToggle {
    /// The modal view was closed.
    Closed(Vec<Effect>),
    /// Make a modal view and call `Workspace::modal_added`.
    AddView,
}

/// What a pane tells its workspace.
#[derive(Clone, Copy, Debug, PartialEq, Eq, Structural)]
pub enum PaneEvent {
    Activate,
    Remove,
    Split(SplitDirection),
}

/// What follows from the event of a pane.
#[derive(Debug, PartialEq, Eq)]
pub enum PaneEventStep {
    /// The pane is not one of the workspace.
    NotFound,
    /// A pane is to be made for the split.
    Split(PaneSplit),
    /// The pane is to be taken out of the center.
    Remove(Effect),
    /// The pane is the active one.
    Activated(Vec<Effect>),
}

/// The split of a pane, before its new pane has been made.
#[derive(Clone, Copy, Debug, PartialEq, Eq, Structural)]
pub struct PaneSplit {
    pub from: usize,
    pub direction: SplitDirection,
    pub creation: Creation,
}

/// A pane is to make an entry its active item, if it shows it.
#[derive(Debug, PartialEq, Eq)]
pub struct EntryRequest {
    pub pane: usize,
    pub project_path: ProjectPath,
}

/// Whether an entry is open.
#[derive(Debug, PartialEq, Eq)]
pub enum ExistingEntry {
    /// The pane showed it already, and has made it its active item.
    Activated,
    /// Some item stands for it: it gets another view.
    Shown(Effect),
    /// It is not open anywhere.
    NotOpen,
}

/// What follows from the wish to open an entry.
pub enum OpenEntry {
    /// It is open: the pane shows it, once the effect, if there is one, is performed.
    Open(Option<Effect>),
    /// Its worktree does not exist.
    NoWorktree,
    /// It has to be waited for. The load is the first one, where nobody has started it yet.
    Pending { pending: PendingEntry, load: Option<EntryLoad> },
}

/// What follows when an entry has been loaded.
#[derive(Debug, PartialEq, Eq)]
pub enum LoadedEntry {
    /// The pane that it was meant for is gone.
    PaneGone,
    /// It could not be loaded.
    Failed(LoadError),
    /// The pane may show it by now. Once it was asked, `Workspace::show_loaded_entry` is called.
    Loaded { item: usize, request: EntryRequest },
}

pub(crate) proof fn lemma_filter_distinct(s: Seq<usize>, keep: spec_fn(usize) -> bool)
    requires
        s.no_duplicates(),
    ensures
        s.filter(keep).no_duplicates(),
        forall|x: usize| #[trigger] s.filter(keep).contains(x) ==> s.contains(x),
    decreases s.len(),
{
    reveal(Seq::filter);
    if s.len() > 0 {
        let front = s.drop_last();
        lemma_filter_distinct(front, keep);
        let kept = front.filter(keep);
        assert forall|x: usize| #[trigger] kept.contains(x) implies s.contains(x) && x
            != s.last() by {
            let i = choose|i: int| 0 <= i < front.len() && front[i] == x;
            assert(s[i] == x);
        }
        assert(s[s.len() - 1] == s.last());
        assert forall|x: usize| #[trigger] s.filter(keep).contains(x) implies s.contains(x) by {
            let i = choose|i: int| 0 <= i < s.filter(keep).len() && s.filter(keep)[i] == x;
            if i < kept.len() {
                assert(kept[i] == x);
                assert(kept.contains(x));
            }
        }
        assert forall|i: int, j: int|
            0 <= i < s.filter(keep).len() && 0 <= j < s.filter(keep).len() && i
                != j implies s.filter(keep)[i] != s.filter(keep)[j] by {
            if i < kept.len() {
                assert(kept.contains(kept[i]));
            }
            if j < kept.len() {
                assert(kept.contains(kept[j]));
            }
        }
    }
}

impl<G, S> Workspace<G, S> {
    /// The entries that are being loaded are kept in order.
    pub closed spec fn loads_wf(self) -> bool {
        self.loading_items.wf()
    }

    /// What holds of every workspace.
    pub open spec fn wf(self) -> bool {
        self.loads_wf() && self@.valid()
    }

    /// A workspace with one pane, from the parts that were made for it, and from the group at the
    /// center and the two sidebars of its `WorkspaceFrame`.
    pub fn new(
        params: &WorkspaceParams,
        parts: WorkspaceParts,
        center: G,
        left_sidebar: S,
        right_sidebar: S,
    ) -> (workspace: Self)
        ensures
            workspace.wf(),
            workspace@.panes_distinct(),
            panes_at_center(workspace@, set![parts.pane]),
            workspace@ == (WorkspaceState {
                settings: params.settings,
                client: params.client,
                user_store: params.user_store,
                fs: params.fs,
                modal: None,
                center,
                left_sidebar,
                right_sidebar,
                panes: seq![parts.pane],
                active_pane: parts.pane,
                status_bar: parts.status_bar,
                project: parts.project,
                entry_openers: params.entry_openers@,
                items: Seq::empty(),
                loading: Map::empty(),
            }),
    {
        let mut panes: Vec<usize> = Vec::new();
        panes.push(parts.pane);
        let entry_openers = params.entry_openers.clone();
        let workspace = Workspace {
            settings: params.settings,
            client: params.client,
            user_store: params.user_store,
            fs: params.fs,
            modal: None,
            center,
            left_sidebar,
            right_sidebar,
            panes,
            active_pane: parts.pane,
            status_bar: parts.status_bar,
            project: parts.project,
            entry_openers,
            items: Vec::new(),
            loading_items: LoadingItems::new(),
        };
        proof {
            assert(entry_openers@ =~= params.entry_openers@);
            assert(workspace@.panes =~= seq![parts.pane]);
            assert(workspace@.panes[0] == parts.pane);
            assert(workspace@.items =~= Seq::<usize>::empty());
        }
        workspace
    }

    pub fn left_sidebar_mut(&mut self) -> (sidebar: &mut S)
        ensures
            *sidebar == old(self)@.left_sidebar,
            final(self)@ == (WorkspaceState { left_sidebar: *final(sidebar), ..old(self)@ }),
            old(self).wf() ==> final(self).wf(),
    {
        &mut self.left_sidebar
    }

    pub fn right_sidebar_mut(&mut self) -> (sidebar: &mut S)
        ensures
            *sidebar == old(self)@.right_sidebar,
            final(self)@ == (WorkspaceState { right_sidebar: *final(sidebar), ..old(self)@ }),
            old(self).wf() ==> final(self).wf(),
    {
        &mut self.right_sidebar
    }

    /// The sidebar on a side.
    pub fn sidebar(&self, side: Side) -> (sidebar: &S)
        ensures
            *sidebar == match side {
                Side::Left => self@.left_sidebar,
                Side::Right => self@.right_sidebar,
            },
    {
        match side {
            Side::Left => &self.left_sidebar,
            Side::Right => &self.right_sidebar,
        }
    }

    /// The sidebar on a side, to be changed.
    pub fn sidebar_mut(&mut self, side: Side) -> (sidebar: &mut S)
        ensures
            *sidebar == match side {
                Side::Left => old(self)@.left_sidebar,
                Side::Right => old(self)@.right_sidebar,
            },
            final(self)@ == match side {
                Side::Left => WorkspaceState { left_sidebar: *final(sidebar), ..old(self)@ },
                Side::Right => WorkspaceState { right_sidebar: *final(sidebar), ..old(self)@ },
            },
            old(self).wf() ==> final(self).wf(),
    {
        match side {
            Side::Left => self.left_sidebar_mut(),
            Side::Right => self.right_sidebar_mut(),
        }
    }

    /// The group of panes at the center.
    pub fn center(&self) -> (center: &G)
        ensures
            *center == self@.center,
    {
        &self.center
    }

    /// The group of panes at the center, to be changed.
    pub fn center_mut(&mut self) -> (center: &mut G)
        ensures
            *center == old(self)@.center,
            final(self)@ == (WorkspaceState { center: *final(center), ..old(self)@ }),
            old(self).wf() ==> final(self).wf(),
    {
        &mut self.center
    }

    pub fn settings(&self) -> (settings: usize)
        ensures
            settings == self@.settings,
    {
        self.settings
    }

    pub fn client(&self) -> (client: usize)
        ensures
            client == self@.client,
    {
        self.client
    }

    pub fn user_store(&self) -> (user_store: usize)
        ensures
            user_store == self@.user_store,
    {
        self.user_store
    }

    pub fn fs(&self) -> (fs: usize)
        ensures
            fs == self@.fs,
    {
        self.fs
    }

    pub fn status_bar(&self) -> (status_bar: usize)
        ensures
            status_bar == self@.status_bar,
    {
        self.status_bar
    }

    pub fn project(&self) -> (project: usize)
        ensures
            project == self@.project,
    {
        self.project
    }

    pub fn panes(&self) -> (panes: &[usize])
        ensures
            panes@ == self@.panes,
    {
        self.panes.as_slice()
    }

    pub fn active_pane(&self) -> (pane: usize)
        ensures
            pane == self@.active_pane,
    {
        self.active_pane
    }

    pub fn modal(&self) -> (modal: Option<usize>)
        ensures
            modal == self@.modal,
    {
        self.modal
    }

    /// The items that were added and that were not found to be gone.
    pub fn items(&self) -> (items: &[usize])
        ensures
            items@ == self@.items,
    {
        self.items.as_slice()
    }

    pub fn ui_name() -> (name: &'static str)
        ensures
            name@ == "Workspace"@,
    {
        "Workspace"
    }

    /// The keyboard goes on to the active pane.
    pub fn on_focus(&self) -> (effect: Effect)
        ensures
            effect == Effect::Focus(self@.active_pane),
    {
        Effect::Focus(self.active_pane)
    }

    /// Closes the modal view if it is of the kind asked for, as `is_kind` says of the one that is
    /// open. Otherwise a view of that kind is to be made.
    pub fn toggle_modal(&mut self, is_kind: bool) -> (toggle: ModalToggle)
        requires
            old(self).wf(),
        ensures
            final(self).wf(),
            if old(self)@.modal is Some && is_kind {
                final(self)@ == old(self)@.with_modal(None) && (toggle matches ModalToggle::Closed(
                    effects,
                ) && effects@ == seq![Effect::FocusSelf, Effect::Notify])
            } else {
                final(self)@ == old(self)@ && toggle == ModalToggle::AddView
            },
    {
        if self.modal.is_some() && is_kind {
            self.modal = None;
            let mut effects: Vec<Effect> = Vec::new();
            effects.push(Effect::FocusSelf);
            effects.push(Effect::Notify);
            ModalToggle::Closed(effects)
        } else {
            ModalToggle::AddView
        }
    }

    /// Opens the modal view that was made, in place of one that was open.
    pub fn modal_added(&mut self, view: usize) -> (effects: Vec<Effect>)
        requires
            old(self).wf(),
        ensures
            final(self).wf(),
            final(self)@ == old(self)@.with_modal(Some(view)),
            effects@ == seq![Effect::Focus(view), Effect::Notify],
    {
        self.modal = Some(view);
        let mut effects: Vec<Effect> = Vec::new();
        effects.push(Effect::Focus(view));
        effects.push(Effect::Notify);
        effects
    }

    /// Closes the modal view, if one is open, and gives the keyboard to the active pane.
    pub fn dismiss_modal(&mut self) -> (effects: Vec<Effect>)
        requires
            old(self).wf(),
        ensures
            final(self).wf(),
            final(self)@ == old(self)@.with_modal(None),
            effects@ == if old(self)@.modal is Some {
                seq![Effect::Focus(old(self)@.active_pane), Effect::Notify]
            } else {
                Seq::<Effect>::empty()
            },
    {
        let mut effects: Vec<Effect> = Vec::new();
        if self.modal.is_some() {
            self.modal = None;
            effects.push(Effect::Focus(self.active_pane));
            effects.push(Effect::Notify);
        }
        effects
    }

    /// Makes a pane of the workspace the active one.
    fn activate_pane(&mut self, pane: usize) -> (effects: Vec<Effect>)
        requires
            old(self).wf(),
            old(self)@.panes.contains(pane),
        ensures
            final(self).wf(),
            final(self)@ == old(self)@.with_active_pane(pane),
            effects@ == activation(old(self)@.status_bar, pane),
    {
        self.active_pane = pane;
        let mut effects: Vec<Effect> = Vec::new();
        effects.push(Effect::SetStatusBarPane { status_bar: self.status_bar, pane });
        effects.push(Effect::Focus(pane));
        effects.push(Effect::Notify);
        effects
    }

    /// The pane with an id, if it is one of the workspace.
    pub fn pane(&self, pane_id: usize) -> (pane: Option<usize>)
        ensures
            pane == if self@.panes.contains(pane_id) {
                Some(pane_id)
            } else {
                None::<usize>
            },
    {
        let mut i: usize = 0;
        while i < self.panes.len()
            invariant
                i <= self.panes@.len(),
                forall|j: int| 0 <= j < i ==> #[trigger] self.panes@[j] != pane_id,
            decreases self.panes@.len() - i,
        {
            if self.panes[i] == pane_id {
                assert(self@.panes[i as int] == pane_id);
                return Some(self.panes[i]);
            }
            i += 1;
        }
        None
    }

    /// A new pane starts with being made.
    pub fn add_pane(&self) -> (creation: Creation)
        ensures
            creation == (Creation::Pane { settings: self@.settings }),
    {
        Creation::Pane { settings: self.settings }
    }

    /// Takes up a pane that was made. It becomes the active one.
    pub fn pane_added(&mut self, pane: usize) -> (effects: Vec<Effect>)
        requires
            old(self).wf(),
        ensures
            final(self).wf(),
            final(self)@ == old(self)@.with_pane(pane),
            effects@ == introduction(old(self)@.status_bar, pane),
            old(self)@.panes_distinct() && !old(self)@.panes.contains(pane)
                ==> final(self)@.panes_distinct(),
    {
        let ghost before = self@;
        self.panes.push(pane);
        assert(self@.panes =~= before.panes.push(pane));
        proof {
            assert(self@.panes[before.panes.len() as int] == pane);
            assert(self@.panes.contains(pane));
            let k = choose|k: int| 0 <= k < before.panes.len() && before.panes[k]
                == before.active_pane;
            assert(self@.panes[k] == before.active_pane);
            if !before.panes.contains(pane) {
                assert(forall|i: int|
                    0 <= i < before.panes.len() ==> #[trigger] before.panes[i] != pane);
            }
        }
        let mut effects: Vec<Effect> = Vec::new();
        effects.push(Effect::ObservePane(pane));
        effects.push(Effect::SubscribeToPane(pane));
        let mut activation_effects = self.activate_pane(pane);
        effects.append(&mut activation_effects);
        assert(effects@ =~= introduction(before.status_bar, pane));
        effects
    }

    /// Splits a pane of the workspace. This starts with a new pane being made.
    pub fn split_pane(&self, pane: usize, direction: SplitDirection) -> (split: PaneSplit)
        requires
            self@.panes.contains(pane),
        ensures
            split == (PaneSplit {
                from: pane,
                direction,
                creation: Creation::Pane { settings: self@.settings },
            }),
    {
        PaneSplit { from: pane, direction, creation: self.add_pane() }
    }

    /// Goes on with a split when the new pane has been made: it is taken up, made the active one,
    /// and is to get a copy of the item that the other pane shows.
    pub fn split_pane_added(&mut self, split: PaneSplit, new_pane: usize) -> (effects: Vec<Effect>)
        requires
            old(self).wf(),
        ensures
            final(self).wf(),
            final(self)@ == old(self)@.with_pane(new_pane),
            effects@ == introduction(old(self)@.status_bar, new_pane) + activation(
                old(self)@.status_bar,
                new_pane,
            ) + seq![Effect::CloneActiveItem { from: split.from }],
            old(self)@.panes_distinct() && !old(self)@.panes.contains(new_pane)
                ==> final(self)@.panes_distinct(),
            forall|center: Set<usize>| #[trigger]
                panes_at_center(old(self)@, center) && !old(self)@.panes.contains(new_pane)
                    ==> panes_at_center(final(self)@, center.insert(new_pane)),
    {
        let ghost before = self@;
        let mut effects = self.pane_added(new_pane);
        proof {
            assert(self@.panes[before.panes.len() as int] == new_pane);
            assert(self@.panes.contains(new_pane));
        }
        let mut activation_effects = self.activate_pane(new_pane);
        effects.append(&mut activation_effects);
        effects.push(Effect::CloneActiveItem { from: split.from });
        assert(effects@ =~= introduction(before.status_bar, new_pane) + activation(
            before.status_bar,
            new_pane,
        ) + seq![Effect::CloneActiveItem { from: split.from }]);
        assert forall|center: Set<usize>| #[trigger]
            panes_at_center(before, center) && !before.panes.contains(
                new_pane,
            ) implies panes_at_center(self@, center.insert(new_pane)) by {
            lemma_center_splits(before, center, new_pane);
        }
        effects
    }

    /// Ends a split. The new pane shows the copy of the item, if there is one, and gets its place
    /// at the center.
    pub fn finish_split(&self, split: PaneSplit, new_pane: usize, copy: Option<usize>) -> (effects:
        Vec<Effect>)
        ensures
            effects@ == split_end(split, new_pane, copy),
            forall|center: Set<usize>| #[trigger]
                center.contains(split.from) ==> center_allows_all(center, effects@)
                    && center_after_all(center, effects@) == center.insert(new_pane),
    {
        let mut effects: Vec<Effect> = Vec::new();
        if let Some(view) = copy {
            effects.push(Effect::AddItemView { pane: new_pane, view });
        }
        effects.push(
            Effect::SplitCenter { old_pane: split.from, new_pane, direction: split.direction },
        );
        effects.push(Effect::Notify);
        assert(effects@ =~= split_end(split, new_pane, copy));
        assert forall|center: Set<usize>| #[trigger]
            center.contains(split.from) implies center_allows_all(center, effects@)
            && center_after_all(center, effects@) == center.insert(new_pane) by {
            lemma_split_end(center, split, new_pane, copy);
        }
        effects
    }

    /// Removes a pane that was to be taken out of the center, if that was done: it is not done to
    /// the last pane there. The last of the other panes becomes the active one.
    pub fn remove_pane(&mut self, pane: usize, removed: bool) -> (effects: Vec<Effect>)
        requires
            old(self).wf(),
            removed ==> exists|i: int|
                0 <= i < old(self)@.panes.len() && #[trigger] old(self)@.panes[i] != pane,
        ensures
            final(self).wf(),
            old(self)@.panes_distinct() ==> final(self)@.panes_distinct(),
            if removed {
                final(self)@ == old(self)@.without_pane(pane) && effects@ == activation(
                    old(self)@.status_bar,
                    final(self)@.active_pane,
                )
            } else {
                final(self)@ == old(self)@ && effects@ == Seq::<Effect>::empty()
            },
            forall|center: Set<usize>| #[trigger]
                panes_at_center(old(self)@, center) && old(self)@.panes.contains(pane) && removed
                    == center_removes(center, pane) ==> panes_at_center(
                    final(self)@,
                    center_after(center, Effect::RemoveFromCenter { pane }),
                ),
    {
        if !removed {
            return Vec::new();
        }
        let ghost before = self@;
        assert forall|center: Set<usize>| #[trigger]
            panes_at_center(before, center) && center_removes(
                center,
                pane,
            ) implies panes_at_center(before.without_pane(pane), center.remove(pane)) by {
            lemma_center_removes(before, center, pane);
        }
        let ghost other = is_other(pane);
        let mut panes: Vec<usize> = Vec::new();
        let mut i: usize = 0;
        assert(self.panes@.take(0).filter(other) =~= Seq::<usize>::empty()) by {
            reveal(Seq::filter);
        }
        while i < self.panes.len()
            invariant
                i <= self.panes@.len(),
                other == is_other(pane),
                panes@ == self.panes@.take(i as int).filter(other),
            decreases self.panes@.len() - i,
        {
            proof {
                reveal(Seq::filter);
                assert(self.panes@.take(i + 1).drop_last() =~= self.panes@.take(i as int));
                assert(self.panes@.take(i + 1).last() == self.panes@[i as int]);
            }
            if self.panes[i] != pane {
                panes.push(self.panes[i]);
            }
            i += 1;
        }
        proof {
            assert(self.panes@.take(self.panes@.len() as int) =~= self.panes@);
            broadcast use vstd::seq_lib::group_filter_ensures;

            let k = choose|k: int|
                0 <= k < before.panes.len() && #[trigger] before.panes[k] != pane;
            assert(other(before.panes[k]));
            assert(panes@.contains(before.panes[k]));
            if before.panes_distinct() {
                lemma_filter_distinct(before.panes, other);
            }
        }
        let last = panes[panes.len() - 1];
        self.panes = panes;
        self.active_pane = last;
        proof {
            assert(self@.panes[self@.panes.len() - 1] == last);
            assert(self@.panes.contains(last));
        }
        self.activate_pane(last)
    }

    /// Follows an event of a pane.
    pub fn handle_pane_event(&mut self, pane_id: usize, event: PaneEvent) -> (step: PaneEventStep)
        requires
            old(self).wf(),
        ensures
            final(self).wf(),
            final(self)@ == if old(self)@.panes.contains(pane_id) && event is Activate {
                old(self)@.with_active_pane(pane_id)
            } else {
                old(self)@
            },
            if !old(self)@.panes.contains(pane_id) {
                step == PaneEventStep::NotFound
            } else {
                match event {
                    PaneEvent::Split(direction) => step == PaneEventStep::Split(
                        PaneSplit {
                            from: pane_id,
                            direction,
                            creation: Creation::Pane { settings: old(self)@.settings },
                        },
                    ),
                    PaneEvent::Remove => step == PaneEventStep::Remove(
                        Effect::RemoveFromCenter { pane: pane_id },
                    ),
                    PaneEvent::Activate => step matches PaneEventStep::Activated(effects)
                        && effects@ == activation(old(self)@.status_bar, pane_id),
                }
            },
            forall|center: Set<usize>| #[trigger]
                panes_at_center(old(self)@, center) ==> {
                    &&& panes_at_center(final(self)@, center)
                    &&& step matches PaneEventStep::Split(split) ==> center.contains(split.from)
                    &&& step matches PaneEventStep::Remove(effect) ==> center_allows(center, effect)
                },
    {
        match self.pane(pane_id) {
            Some(pane) => match event {
                PaneEvent::Split(direction) => PaneEventStep::Split(
                    self.split_pane(pane, direction),
                ),
                PaneEvent::Remove => PaneEventStep::Remove(Effect::RemoveFromCenter { pane }),
                PaneEvent::Activate => PaneEventStep::Activated(self.activate_pane(pane)),
            },
            None => PaneEventStep::NotFound,
        }
    }

    /// The item view that the active pane shows.
    pub fn active_item<'a>(&self, panes: &'a Vec<PaneState>) -> (item: Option<&'a ItemViewState>)
        ensures
            match item {
                Some(item) => shown_item(panes@, self@.active_pane) == Some(*item),
                None => shown_item(panes@, self@.active_pane) is None,
            },
    {
        find_shown_item(panes, self.active_pane)
    }

    /// The entry that is being looked at.
    pub fn active_project_path(&self, panes: &Vec<PaneState>) -> (path: Option<ProjectPath>)
        ensures
            path == shown_path(panes@, self@.active_pane),
    {
        match self.active_item(panes) {
            Some(item) => match &item.project_path {
                Some(path) => Some(path.clone()),
                None => None,
            },
            None => None,
        }
    }

    /// When a pane has changed, the project learns which entry is being looked at.
    pub fn pane_changed(&self, panes: &Vec<PaneState>) -> (effect: Effect)
        ensures
            effect == (Effect::SetActivePath {
                project: self@.project,
                path: shown_path(panes@, self@.active_pane),
            }),
    {
        Effect::SetActivePath { project: self.project, path: self.active_project_path(panes) }
    }

    /// Adds an item, and has it shown in the active pane.
    pub fn add_item(&mut self, item: usize) -> (effect: Effect)
        requires
            old(self).wf(),
        ensures
            final(self).wf(),
            final(self)@ == old(self)@.with_item(item),
            effect == (Effect::ShowItem {
                item,
                settings: old(self)@.settings,
                pane: old(self)@.active_pane,
            }),
    {
        self.items.push(item);
        Effect::ShowItem { item, settings: self.settings, pane: self.active_pane }
    }

    /// Looks for an entry that is open already. Where the pane that was asked did not show it, as
    /// `activated` says, the first item that stands for it is shown there. Items that are gone
    /// are forgotten on the way.
    pub fn activate_or_open_existing_entry(
        &mut self,
        request: &EntryRequest,
        activated: bool,
        live: &Vec<ItemState>,
    ) -> (existing: ExistingEntry)
        requires
            old(self).wf(),
        ensures
            final(self).wf(),
            final(self)@ == old(self)@.looked_up(activated, live@),
            existing == old(self)@.existing_entry(
                request.project_path@,
                request.pane,
                activated,
                live@,
            ),
    {
        if activated {
            return ExistingEntry::Activated;
        }
        let (items, found) = retain_live(&self.items, live, &request.project_path);
        self.items = items;
        match found {
            Some(item) => ExistingEntry::Shown(
                Effect::ShowItem { item, settings: self.settings, pane: request.pane },
            ),
            None => ExistingEntry::NotOpen,
        }
    }

    /// An entry is opened in the active pane, which is asked for it first.
    pub fn request_entry(&self, project_path: ProjectPath) -> (request: EntryRequest)
        ensures
            request == (EntryRequest { pane: self@.active_pane, project_path }),
    {
        EntryRequest { pane: self.active_pane, project_path }
    }

    /// Opens an entry in the pane that was asked for it. Where it is open, it is shown, and where
    /// it is being loaded, that load is waited for; otherwise a load starts. The pane has made
    /// the entry its active item if it showed it, as `activated` says.
    #[must_use]
    pub fn open_entry(
        &mut self,
        request: EntryRequest,
        activated: bool,
        live: &Vec<ItemState>,
        worktree_exists: bool,
    ) -> (opened: OpenEntry)
        requires
            old(self).wf(),
        ensures
            final(self).wf(),
            ({
                let before = old(self)@;
                let looked_up = before.looked_up(activated, live@);
                let entry = request.project_path@;
                match before.existing_entry(entry, request.pane, activated, live@) {
                    ExistingEntry::Activated => final(self)@ == looked_up && opened
                        == OpenEntry::Open(None),
                    ExistingEntry::Shown(effect) => final(self)@ == looked_up && opened
                        == OpenEntry::Open(Some(effect)),
                    ExistingEntry::NotOpen => if !worktree_exists {
                        final(self)@ == looked_up && opened == OpenEntry::NoWorktree
                    } else {
                        &&& opened matches OpenEntry::Pending { pending, load }
                        &&& pending.project_path == request.project_path
                        &&& pending.pane == request.pane
                        &&& if before.loading.contains_key(entry) {
                            &&& load is None
                            &&& received_channel(pending.watch) == before.loading[entry]
                            &&& final(self)@ == looked_up
                        } else {
                            &&& load matches Some(load)
                            &&& load.project_path == request.project_path
                            &&& load.openers@ == before.entry_openers
                            &&& load.result.channel() == received_channel(pending.watch)
                            &&& load.result.held() == set![None::<Result<usize, LoadError>>]
                            &&& final(self)@ == looked_up.with_load(
                                entry,
                                received_channel(pending.watch),
                            )
                        }
                    },
                }
            }),
    {
        match self.activate_or_open_existing_entry(&request, activated, live) {
            ExistingEntry::Activated => return OpenEntry::Open(None),
            ExistingEntry::Shown(effect) => return OpenEntry::Open(Some(effect)),
            ExistingEntry::NotOpen => {},
        }
        if !worktree_exists {
            return OpenEntry::NoWorktree;
        }
        let EntryRequest { pane, project_path } = request;
        match self.loading_items.join(&project_path) {
            Some(watch) => OpenEntry::Pending {
                pending: PendingEntry { project_path, pane, watch },
                load: None,
            },
            None => {
                let (sender, watch) = self.loading_items.start(project_path.clone());
                let openers = self.entry_openers.clone();
                assert(openers@ =~= self.entry_openers@);
                let load = EntryLoad {
                    project_path: project_path.clone(),
                    openers,
                    result: ResultSender::new(sender),
                };
                OpenEntry::Pending {
                    pending: PendingEntry { project_path, pane, watch },
                    load: Some(load),
                }
            },
        }
    }

    /// Takes up the result of a load, for a pane that may be gone by now. The entry is no longer
    /// being loaded.
    pub fn entry_loaded(
        &mut self,
        pending: PendingEntry,
        result: Result<usize, LoadError>,
        pane_alive: bool,
    ) -> (loaded: LoadedEntry)
        requires
            old(self).wf(),
        ensures
            final(self).wf(),
            final(self)@ == old(self)@.without_load(pending.project_path@),
            loaded == if !pane_alive {
                LoadedEntry::PaneGone
            } else {
                match result {
                    Ok(item) => LoadedEntry::Loaded {
                        item,
                        request: EntryRequest {
                            pane: pending.pane,
                            project_path: pending.project_path,
                        },
                    },
                    Err(error) => LoadedEntry::Failed(error),
                }
            },
    {
        self.loading_items.remove(&pending.project_path);
        if !pane_alive {
            return LoadedEntry::PaneGone;
        }
        match result {
            Ok(item) => {
                let PendingEntry { project_path, pane, .. } = pending;
                LoadedEntry::Loaded { item, request: EntryRequest { pane, project_path } }
            },
            Err(error) => LoadedEntry::Failed(error),
        }
    }

    /// Shows an entry that has been loaded for a pane. By the time loading finishes, the entry
    /// could have been opened already: then that item is shown in the pane. Otherwise the item
    /// that was loaded is added, and shown in the pane that is active by now.
    pub fn show_loaded_entry(
        &mut self,
        request: &EntryRequest,
        item: usize,
        activated: bool,
        live: &Vec<ItemState>,
    ) -> (effect: Option<Effect>)
        requires
            old(self).wf(),
        ensures
            final(self).wf(),
            ({
                let before = old(self)@;
                let looked_up = before.looked_up(activated, live@);
                match before.existing_entry(
                    request.project_path@,
                    request.pane,
                    activated,
                    live@,
                ) {
                    ExistingEntry::Activated => final(self)@ == looked_up && effect is None,
                    ExistingEntry::Shown(show) => final(self)@ == looked_up && effect == Some(show),
                    ExistingEntry::NotOpen => final(self)@ == looked_up.with_item(item) && effect
                        == Some(
                        Effect::ShowItem {
                            item,
                            settings: before.settings,
                            pane: before.active_pane,
                        },
                    ),
                }
            }),
    {
        match self.activate_or_open_existing_entry(request, activated, live) {
            ExistingEntry::Activated => None,
            ExistingEntry::Shown(effect) => Some(effect),
            ExistingEntry::NotOpen => Some(self.add_item(item)),
        }
    }

    /// Toggles an item of a sidebar.
    pub fn toggle_sidebar_item(&self, action: &ToggleSidebarItem) -> (effect: Effect)
        ensures
            effect == (Effect::ToggleSidebarItem {
                side: action.0.side,
                item_index: action.0.item_index,
            }),
    {
        Effect::ToggleSidebarItem { side: action.0.side, item_index: action.0.item_index }
    }

    /// The keyboard goes to the item that the sidebar shows once one was toggled, and to the
    /// workspace where it shows none.
    pub fn sidebar_item_toggled(&self, active_item: Option<usize>) -> (effects: Vec<Effect>)
        ensures
            effects@ == seq![
                match active_item {
                    Some(view) => Effect::Focus(view),
                    None => Effect::FocusSelf,
                },
                Effect::Notify,
            ],
    {
        let mut effects: Vec<Effect> = Vec::new();
        match active_item {
            Some(view) => effects.push(Effect::Focus(view)),
            None => effects.push(Effect::FocusSelf),
        }
        effects.push(Effect::Notify);
        effects
    }

    /// Toggles whether an item of a sidebar has the keyboard.
    pub fn toggle_sidebar_item_focus(&self, action: &ToggleSidebarItemFocus) -> (effect: Effect)
        ensures
            effect == (Effect::ActivateSidebarItem {
                side: action.0.side,
                item_index: action.0.item_index,
            }),
    {
        Effect::ActivateSidebarItem { side: action.0.side, item_index: action.0.item_index }
    }

    /// The keyboard goes to the item that the sidebar shows once one was activated or, where the
    /// item has the keyboard already, to the workspace.
    pub fn sidebar_item_activated(&self, active_item: Option<(usize, bool)>) -> (effects: Vec<
        Effect,
    >)
        ensures
            effects@ == match active_item {
                Some((view, focused)) => seq![
                    if focused {
                        Effect::FocusSelf
                    } else {
                        Effect::Focus(view)
                    },
                    Effect::Notify,
                ],
                None => seq![Effect::Notify],
            },
    {
        let mut effects: Vec<Effect> = Vec::new();
        if let Some((view, focused)) = active_item {
            if focused {
                effects.push(Effect::FocusSelf);
            } else {
                effects.push(Effect::Focus(view));
            }
        }
        effects.push(Effect::Notify);
        effects
    }

    /// Copies a description of the elements on the screen, if there is one, to the clipboard.
    pub fn debug_elements<E>(&self, json: Result<String, E>) -> (copied: Result<Effect, E>)
        ensures
            copied == match json {
                Ok(json) => Ok::<Effect, E>(Effect::WriteToClipboard(json)),
                Err(error) => Err::<Effect, E>(error),
            },
    {
        match json {
            Ok(json) => Ok(Effect::WriteToClipboard(json)),
            Err(error) => Err(error),
        }
    }
}

} // verus!
