//! The group of panes at the center, as the set of the panes that it has.

use crate::effects::Effect;
use crate::state::{is_other, lemma_filter_distinct, split_end, PaneSplit, WorkspaceState};
use vstd::prelude::*;

verus! {

/// The group at the center takes a pane out: it has the pane, and another one beside it.
pub open spec fn center_removes(center: Set<usize>, pane: usize) -> bool {
    center.contains(pane) && exists|other: usize| #[trigger] center.contains(other) && other != pane
}

/// An effect asks the group at the center for no pane that it does not have.
pub open spec fn center_allows(center: Set<usize>, effect: Effect) -> bool {
    match effect {
        Effect::SplitCenter { old_pane, .. } => center.contains(old_pane),
        Effect::RemoveFromCenter { pane } => center.contains(pane),
        _ => true,
    }
}

/// The panes at the center once an effect was performed. A split adds the new pane, and a pane is
/// removed unless it is the only one.
pub open spec fn center_after(center: Set<usize>, effect: Effect) -> Set<usize> {
    match effect {
        Effect::SplitCenter { new_pane, .. } => center.insert(new_pane),
        Effect::RemoveFromCenter { pane } => if center_removes(center, pane) {
            center.remove(pane)
        } else {
            center
        },
        _ => center,
    }
}

/// The panes at the center once a list of effects was performed.
pub open spec fn center_after_all(center: Set<usize>, effects: Seq<Effect>) -> Set<usize>
    decreases effects.len(),
{
    if effects.len() == 0 {
        center
    } else {
        center_after(center_after_all(center, effects.drop_last()), effects.last())
    }
}

/// No effect of a list, in its turn, asks the group at the center for a pane that it does not have.
pub open spec fn center_allows_all(center: Set<usize>, effects: Seq<Effect>) -> bool {
    forall|i: int|
        0 <= i < effects.len() ==> center_allows(
            center_after_all(center, effects.take(i)),
            #[trigger] effects[i],
        )
}

/// The workspace has a pane, the active one is among them, no pane occurs twice, and the panes at
/// the center are those of the workspace.
pub open spec fn panes_at_center<G, S>(w: WorkspaceState<G, S>, center: Set<usize>) -> bool {
    &&& w.valid()
    &&& w.panes_distinct()
    &&& forall|pane: usize| #[trigger] center.contains(pane) <==> w.panes.contains(pane)
}

/// A new pane joins the panes and the center alike.
pub(crate) proof fn lemma_center_splits<G, S>(
    w: WorkspaceState<G, S>,
    center: Set<usize>,
    new_pane: usize,
)
    requires
        panes_at_center(w, center),
        !w.panes.contains(new_pane),
    ensures
        panes_at_center(w.with_pane(new_pane), center.insert(new_pane)),
{
    let after = w.with_pane(new_pane);
    assert(after.panes[w.panes.len() as int] == new_pane);
    assert forall|p: usize|
        #[trigger] center.insert(new_pane).contains(p) <==> after.panes.contains(p) by {
        if w.panes.contains(p) {
            let k = choose|k: int| 0 <= k < w.panes.len() && w.panes[k] == p;
            assert(after.panes[k] == p);
        }
        if after.panes.contains(p) && p != new_pane {
            let k = choose|k: int| 0 <= k < after.panes.len() && after.panes[k] == p;
            assert(w.panes[k] == p);
        }
    }
}

/// A pane that the center gives up leaves the panes and the center alike, and others are left.
pub(crate) proof fn lemma_center_removes<G, S>(
    w: WorkspaceState<G, S>,
    center: Set<usize>,
    pane: usize,
)
    requires
        panes_at_center(w, center),
        center_removes(center, pane),
    ensures
        panes_at_center(w.without_pane(pane), center.remove(pane)),
        exists|i: int| 0 <= i < w.panes.len() && #[trigger] w.panes[i] != pane,
{
    let after = w.without_pane(pane);
    lemma_filter_distinct(w.panes, is_other(pane));
    broadcast use vstd::seq_lib::group_filter_ensures;

    assert forall|p: usize|
        #[trigger] center.remove(pane).contains(p) <==> after.panes.contains(p) by {
        if w.panes.contains(p) && p != pane {
            let k = choose|k: int| 0 <= k < w.panes.len() && w.panes[k] == p;
            assert(is_other(pane)(w.panes[k]));
        }
        if after.panes.contains(p) {
            let k = choose|k: int| 0 <= k < after.panes.len() && after.panes[k] == p;
            assert(is_other(pane)(after.panes[k]));
        }
    }
    let other = choose|other: usize| #[trigger] center.contains(other) && other != pane;
    assert(center.remove(pane).contains(other));
    assert(w.panes.contains(other));
    let i = choose|i: int| 0 <= i < w.panes.len() && w.panes[i] == other;
    assert(w.panes[i] != pane);
    assert(after.panes[after.panes.len() - 1] == after.panes.last());
}

/// The end of a split adds the new pane to the center, and asks for the old one.
pub(crate) proof fn lemma_split_end(
    center: Set<usize>,
    split: PaneSplit,
    new_pane: usize,
    copy: Option<usize>,
)
    requires
        center.contains(split.from),
    ensures
        center_after_all(center, split_end(split, new_pane, copy)) == center.insert(new_pane),
        center_allows_all(center, split_end(split, new_pane, copy)),
{
    reveal_with_fuel(center_after_all, 4);
    let effects = split_end(split, new_pane, copy);
    let n = effects.len() as int;
    assert(effects.take(n) =~= effects);
    assert(effects.take(0) =~= Seq::<Effect>::empty());
    assert forall|i: int| 0 < i <= n implies (#[trigger] effects.take(i)).drop_last()
        =~= effects.take(i - 1) && effects.take(i).last() == effects[i - 1] by {}
    assert(effects.drop_last() =~= effects.take(n - 1));
    assert(center_after_all(center, effects.take(n - 2)) == center) by {
        if n == 3 {
            assert(effects.take(1).last() == effects[0]);
        }
    }
    assert(center_after_all(center, effects.take(n - 1)) == center.insert(new_pane));
}

} // verus!
