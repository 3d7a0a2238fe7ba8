//! What is to be seen.

use crate::effects::Side;
use crate::elements::{
    listed, Alignment, Axis, Background, Children, Click, Element, Size, Style,
};
use crate::render::{
    Collaborator, ConnectionStatus, ActiveWorktree, TitlebarState, UserState,
};
use crate::state::Workspace;
use vstd::prelude::*;

verus! {

/// The elements of a list, in their order.
pub open spec fn in_order(children: Children) -> Seq<Element>
    decreases children,
{
    match children {
        Children::End => Seq::empty(),
        Children::Then(first, rest) => seq![*first] + in_order(*rest),
    }
}

/// What is to be seen of an element, without what holds and places it: from left to right, from
/// top to bottom, and from the back to the front. A button is seen as one thing.
pub open spec fn seen(element: Element) -> Seq<Element>
    decreases element,
{
    match element {
        Element::Container { child, .. } => seen(*child),
        Element::Align { child, .. } => seen(*child),
        Element::Constrained { child, .. } => seen(*child),
        Element::Expanded { child, .. } => seen(*child),
        Element::Flexible { child, .. } => seen(*child),
        Element::Named { child, .. } => seen(*child),
        Element::Flex { children, .. } => seen_of_all(children),
        Element::Stack(children) => seen_of_all(children),
        other => seq![other],
    }
}

/// What is to be seen of the elements of a list.
pub open spec fn seen_of_all(children: Children) -> Seq<Element>
    decreases children,
{
    match children {
        Children::End => Seq::empty(),
        Children::Then(first, rest) => seen(*first) + seen_of_all(*rest),
    }
}

/// A list of one element if there is one.
pub open spec fn if_any(element: Option<Element>) -> Seq<Element> {
    match element {
        Some(element) => seq![element],
        None => Seq::empty(),
    }
}

proof fn lemma_listed(elements: Seq<Element>, rest: Children)
    ensures
        in_order(listed(elements, rest)) == elements + in_order(rest),
    decreases elements.len(),
{
    if elements.len() > 0 {
        let front = elements.drop_last();
        let longer = Children::Then(Box::new(elements.last()), Box::new(rest));
        lemma_listed(front, longer);
        assert(front + (seq![elements.last()] + in_order(rest)) =~= elements + in_order(rest));
    } else {
        assert(elements + in_order(rest) =~= in_order(rest));
    }
}

/// What is put in front of a list comes before all that was in it, in its order.
pub proof fn elements_in_front_come_first(
    children: Children,
    element: Element,
    one: Children,
    optional: Option<Element>,
    with_optional: Children,
    elements: Vec<Element>,
    with_all: Children,
)
    requires
        call_ensures(Children::prepend, (children, element), one),
        call_ensures(Children::prepend_optional, (children, optional), with_optional),
        call_ensures(Children::prepend_all, (children, elements), with_all),
    ensures
        in_order(one) == seq![element] + in_order(children),
        in_order(with_optional) == if_any(optional) + in_order(children),
        in_order(with_all) == elements@ + in_order(children),
{
    lemma_listed(elements@, children);
    assert(Seq::<Element>::empty() + in_order(children) =~= in_order(children));
}

/// A user's picture above a ribbon in the color of their replica.
pub open spec fn is_portrait(element: Element, picture: usize, replica_id: Option<u16>) -> bool {
    &&& element matches Element::Constrained { width, height, child }
    &&& width == Some(Size::RightSidebarWidth)
    &&& height is None
    &&& *child matches Element::Stack(layers)
    &&& in_order(layers).len() == 2
    &&& in_order(layers)[0] matches Element::Align { alignment, child: framed }
    &&& alignment is Center
    &&& *framed matches Element::Constrained { width: image_width, height: image_height, child: image }
    &&& image_width == Some(Size::AvatarWidth)
    &&& image_height is None
    &&& *image == (Element::Image { picture, style: Style::Avatar })
    &&& in_order(layers)[1] matches Element::Align { alignment: ribbon_place, child: ribbon }
    &&& ribbon_place is Bottom
    &&& *ribbon matches Element::Constrained { width: ribbon_width, height: ribbon_height, child: band }
    &&& ribbon_width == Some(Size::AvatarRibbonWidth)
    &&& ribbon_height == Some(Size::AvatarRibbonHeight)
    &&& *band matches Element::Container { style, background, child: empty }
    &&& style == Some(Style::AvatarRibbon)
    &&& background == Background::Replica(replica_id)
    &&& *empty is Empty
}

/// The words "Sign in" in a style.
pub open spec fn invites_to_sign_in(element: Element, style: Style) -> bool {
    &&& element matches Element::Container { style: around, background, child }
    &&& around == Some(style)
    &&& background is OfStyle
    &&& *child matches Element::Label { text, style: letters }
    &&& text@ == "Sign in"@
    &&& letters == style
}

/// A button to sign in with, which looks different under the pointer.
pub open spec fn is_sign_in_button(element: Element) -> bool {
    &&& element matches Element::Align { alignment, child }
    &&& alignment is Center
    &&& *child matches Element::Button { normal, hovered, click }
    &&& invites_to_sign_in(*normal, Style::SignInPrompt)
    &&& invites_to_sign_in(*hovered, Style::HoveredSignInPrompt)
    &&& click is Authenticate
}

/// The element stands for a user: it is their picture, with the color of the replica, if there is
/// one, and a button to sign in with exactly if there is none.
pub open spec fn stands_for_user(
    element: Element,
    user: Option<UserState>,
    replica_id: Option<u16>,
) -> bool {
    if user is Some && (user->0).avatar is Some {
        is_portrait(element, (user->0).avatar->0, replica_id)
    } else {
        is_sign_in_button(element)
    }
}

proof fn lemma_portrait(element: Element, user: Option<UserState>, replica_id: Option<u16>)
    requires
        element == crate::render::avatar_element(user, replica_id),
    ensures
        stands_for_user(element, user, replica_id),
{
    reveal_with_fuel(in_order, 4);
    if user is Some && (user->0).avatar is Some {
        let layers = (*(element->Constrained_child))->Stack_0;
        assert(in_order(layers).len() == 2);
    }
}

/// A user with a picture is shown by it, and one without is asked to sign in.
pub proof fn avatar_stands_for_the_user<G, S>(
    w: Workspace<G, S>,
    user: Option<UserState>,
    replica_id: Option<u16>,
    element: Element,
)
    requires
        call_ensures(Workspace::<G, S>::render_avatar, (&w, user, replica_id), element),
    ensures
        stands_for_user(element, user, replica_id),
{
    lemma_portrait(element, user, replica_id);
}

/// Everyone who works in the active worktree is drawn, in their order, each with their replica;
/// without an active worktree there is nobody.
pub proof fn collaborators_are_drawn_in_order<G, S>(
    w: Workspace<G, S>,
    worktree: Option<ActiveWorktree>,
    elements: Vec<Element>,
)
    requires
        call_ensures(Workspace::<G, S>::render_collaborators, (&w, &worktree), elements),
    ensures
        worktree is None ==> elements@.len() == 0,
        worktree matches Some(active) ==> stand_for_collaborators(
            elements@,
            active.collaborators@,
        ),
{
    if let Some(active) = worktree {
        lemma_collaborators(elements@, active);
    }
}

/// The elements stand for the collaborators, one for one.
pub open spec fn stand_for_collaborators(
    elements: Seq<Element>,
    collaborators: Seq<Collaborator>,
) -> bool {
    &&& elements.len() == collaborators.len()
    &&& forall|i: int|
        0 <= i < collaborators.len() ==> stands_for_user(
            #[trigger] elements[i],
            Some(collaborators[i].user),
            Some(collaborators[i].replica_id),
        )
}

proof fn lemma_collaborators(elements: Seq<Element>, worktree: ActiveWorktree)
    requires
        elements == crate::render::collaborator_elements(Some(worktree)),
    ensures
        stand_for_collaborators(elements, worktree.collaborators@),
{
    assert forall|i: int| 0 <= i < worktree.collaborators@.len() implies stands_for_user(
        #[trigger] elements[i],
        Some(worktree.collaborators@[i].user),
        Some(worktree.collaborators@[i].replica_id),
    ) by {
        lemma_portrait(
            elements[i],
            Some(worktree.collaborators@[i].user),
            Some(worktree.collaborators@[i].replica_id),
        );
    }
}

/// A connection that is lost, failed or being made again is drawn as an icon, one for which this
/// program is too old as a warning, and any other not at all.
pub proof fn broken_connection_is_drawn<G, S>(
    w: Workspace<G, S>,
    status: ConnectionStatus,
    element: Option<Element>,
)
    requires
        call_ensures(Workspace::<G, S>::render_connection_status, (&w, status), element),
    ensures
        stands_for_connection(element, status),
{
}

/// The element stands for the status of the connection.
pub open spec fn stands_for_connection(element: Option<Element>, status: ConnectionStatus) -> bool {
    match status {
        ConnectionStatus::Other => element is None,
        ConnectionStatus::UpgradeRequired => element is Some && is_warning(element->0),
        ConnectionStatus::ConnectionError => element is Some && is_offline_icon(element->0),
        ConnectionStatus::ConnectionLost => element is Some && is_offline_icon(element->0),
        ConnectionStatus::Reauthenticating => element is Some && is_offline_icon(element->0),
        ConnectionStatus::Reconnecting => element is Some && is_offline_icon(element->0),
        ConnectionStatus::ReconnectionError => element is Some && is_offline_icon(element->0),
    }
}

/// The icon for a connection that does not work.
pub open spec fn is_offline_icon(element: Element) -> bool {
    &&& element matches Element::Container { style, background, child }
    &&& style == Some(Style::OfflineIcon)
    &&& background is OfStyle
    &&& *child matches Element::Align { alignment, child: sized }
    &&& alignment is Center
    &&& *sized matches Element::Constrained { width, height, child: icon }
    &&& width == Some(Size::OfflineIconWidth)
    &&& height is None
    &&& *icon matches Element::Svg { path, color }
    &&& path@ == "icons/offline-14.svg"@
    &&& color is TitlebarIcon
}

/// The warning that this program is too old.
pub open spec fn is_warning(element: Element) -> bool {
    &&& element matches Element::Align { alignment, child }
    &&& alignment is Center
    &&& *child matches Element::Container { style, background, child: label }
    &&& style == Some(Style::OutdatedWarning)
    &&& background is OfStyle
    &&& *label matches Element::Label { text, style: letters }
    &&& text@ == "Please update Zed to collaborate"@
    &&& letters is OutdatedWarning
}

/// The element is a title bar with these people and icons at its right.
pub open spec fn is_titlebar(element: Element, people: Seq<Element>) -> bool {
    &&& element matches Element::Named { name, child: sized }
    &&& name@ == "titlebar"@
    &&& *sized matches Element::Constrained { width, height, child: bar }
    &&& width is None
    &&& height == Some(Size::TitlebarHeight)
    &&& *bar matches Element::Container { style, background, child: layers }
    &&& style == Some(Style::Titlebar)
    &&& background is OfStyle
    &&& *layers matches Element::Stack(both)
    &&& in_order(both).len() == 2
    &&& in_order(both)[0] matches Element::Align { alignment: middle, child: title }
    &&& middle is Center
    &&& *title matches Element::Label { text, style: letters }
    &&& text@ == "zed"@
    &&& letters is Title
    &&& in_order(both)[1] matches Element::Align { alignment: side, child: row }
    &&& side is Right
    &&& *row matches Element::Flex { axis, children }
    &&& axis is Row
    &&& in_order(children) == people
}

/// The people and icons of a title bar: everyone who works in the active worktree, the current
/// user, and the connection if it is drawn. The current user has the replica of the active
/// worktree, and is shown whether or not there is one.
pub open spec fn are_people_of(people: Seq<Element>, state: TitlebarState) -> bool {
    let others = match state.active_worktree {
        Some(active) => active.collaborators@,
        None => Seq::<Collaborator>::empty(),
    };
    let n = others.len() as int;
    &&& people.len() == n + 1 || people.len() == n + 2
    &&& stand_for_collaborators(people.take(n), others)
    &&& stands_for_user(
        people[n],
        state.current_user,
        if state.active_worktree is Some {
            Some((state.active_worktree->0).replica_id)
        } else {
            None
        },
    )
    &&& stands_for_connection(
        if people.len() == n + 2 {
            Some(people[n + 1])
        } else {
            None
        },
        state.status,
    )
}

/// The title bar shows everyone who works in the active worktree, then the current user, then the
/// connection where it does not work.
pub proof fn titlebar_shows_people_and_connection<G, S>(
    w: Workspace<G, S>,
    state: TitlebarState,
    element: Element,
)
    requires
        call_ensures(Workspace::<G, S>::render_titlebar, (&w, &state), element),
    ensures
        exists|people: Seq<Element>| #[trigger]
            is_titlebar(element, people) && are_people_of(people, state),
{
    lemma_titlebar(state, element);
}

proof fn lemma_titlebar(state: TitlebarState, element: Element)
    requires
        element == crate::render::titlebar_element(state),
    ensures
        exists|people: Seq<Element>| #[trigger]
            is_titlebar(element, people) && are_people_of(people, state),
{
    reveal_with_fuel(in_order, 4);
    let both = (*((*((*(element->Named_child))->Constrained_child))->Container_child))->Stack_0;
    let children = (*(in_order(both)[1]->Align_child))->Flex_children;
    let people = in_order(children);
    let avatars = crate::render::collaborator_elements(state.active_worktree);
    let replica_id = match state.active_worktree {
        Some(worktree) => Some(worktree.replica_id),
        None => None,
    };
    let user = crate::render::avatar_element(state.current_user, replica_id);
    let connection = crate::render::connection_element(state.status);
    let tail = crate::elements::optional(connection, Children::End);
    let after = Children::Then(Box::new(user), Box::new(tail));
    lemma_listed(avatars, after);
    let n = avatars.len() as int;
    assert(in_order(tail) =~= if_any(connection));
    assert(people =~= avatars + (seq![user] + if_any(connection)));
    assert(people.take(n) =~= avatars);
    assert(people[n] == user);
    lemma_portrait(user, state.current_user, replica_id);
    match state.active_worktree {
        Some(active) => {
            lemma_collaborators(avatars, active);
        },
        None => {},
    }
    if connection is Some {
        assert(people[n + 1] == connection->0);
    }
    assert(is_titlebar(element, people));
    assert(are_people_of(people, state));
}

/// A current user with a picture is seen by it in the title bar, in every state, also while no
/// worktree is active. The current user is asked to sign in exactly if they have no picture, or
/// there is none: the buttons are as many as the people without one.
pub proof fn signed_in_user_is_seen<G, S>(
    w: Workspace<G, S>,
    state: TitlebarState,
    element: Element,
)
    requires
        call_ensures(Workspace::<G, S>::render_titlebar, (&w, &state), element),
    ensures
        state.current_user matches Some(UserState { avatar: Some(picture) }) ==> seen(
            element,
        ).contains(Element::Image { picture, style: Style::Avatar }),
        exists|people: Seq<Element>| #[trigger]
            is_titlebar(element, people) && forall|i: int|
                0 <= i < people.len() && is_sign_in_button(#[trigger] people[i])
                    ==> lacks_a_picture(state, i),
{
    titlebar_shows_people_and_connection(w, state, element);
    let people = choose|people: Seq<Element>| #[trigger]
        is_titlebar(element, people) && are_people_of(people, state);
    let others = match state.active_worktree {
        Some(active) => active.collaborators@,
        None => Seq::<Collaborator>::empty(),
    };
    let n = others.len() as int;
    assert forall|i: int|
        0 <= i < people.len() && is_sign_in_button(#[trigger] people[i]) implies lacks_a_picture(
        state,
        i,
    ) by {
        if i < n {
            assert(people.take(n)[i] == people[i]);
        }
    }
    if let Some(UserState { avatar: Some(picture) }) = state.current_user {
        let image = Element::Image { picture, style: Style::Avatar };
        lemma_seen_portrait(people[n], picture);
        lemma_seen_titlebar(element, people, n, image);
    }
}

/// The person at `i` among the people of a title bar has no picture: one of the collaborators, or
/// the current user, who comes after them.
pub open spec fn lacks_a_picture(state: TitlebarState, i: int) -> bool {
    let others = match state.active_worktree {
        Some(active) => active.collaborators@,
        None => Seq::<Collaborator>::empty(),
    };
    if i < others.len() {
        others[i].user.avatar is None
    } else {
        i == others.len() && (state.current_user is None || (state.current_user->0).avatar is None)
    }
}

proof fn lemma_seen_portrait(element: Element, picture: usize)
    requires
        exists|replica_id: Option<u16>| is_portrait(element, picture, replica_id),
    ensures
        seen(element).contains(Element::Image { picture, style: Style::Avatar }),
{
    let layers = (*(element->Constrained_child))->Stack_0;
    let image = Element::Image { picture, style: Style::Avatar };
    assert(seen(element) == seen_of_all(layers)) by {
        reveal_with_fuel(seen, 3);
    }
    assert(seen(in_order(layers)[0]) =~= seq![image]) by {
        reveal_with_fuel(seen, 4);
    }
    assert(seq![image][0] == image);
    lemma_seen_of_all(layers, 0, image);
}

proof fn lemma_seen_of_all(children: Children, i: int, part: Element)
    requires
        0 <= i < in_order(children).len(),
        seen(in_order(children)[i]).contains(part),
    ensures
        seen_of_all(children).contains(part),
    decreases children,
{
    if let Children::Then(first, rest) = children {
        let head = seen(*first);
        let tail = seen_of_all(*rest);
        if i == 0 {
            let k = choose|k: int| 0 <= k < head.len() && head[k] == part;
            assert((head + tail)[k] == part);
        } else {
            assert(in_order(children)[i] == in_order(*rest)[i - 1]);
            lemma_seen_of_all(*rest, i - 1, part);
            let k = choose|k: int| 0 <= k < tail.len() && tail[k] == part;
            assert((head + tail)[head.len() + k] == part);
        }
    }
}

proof fn lemma_seen_titlebar(element: Element, people: Seq<Element>, i: int, part: Element)
    requires
        is_titlebar(element, people),
        0 <= i < people.len(),
        seen(people[i]).contains(part),
    ensures
        seen(element).contains(part),
{
    let both = (*((*((*(element->Named_child))->Constrained_child))->Container_child))->Stack_0;
    let right = in_order(both)[1];
    let children = (*(right->Align_child))->Flex_children;
    lemma_seen_of_all(children, i, part);
    assert(seen(right) == seen_of_all(children)) by {
        reveal_with_fuel(seen, 3);
    }
    lemma_seen_of_all(both, 1, part);
    assert(seen(element) == seen_of_all(both)) by {
        reveal_with_fuel(seen, 5);
    }
}

/// The item that a sidebar shows, in its part of the space.
pub open spec fn is_item_of_sidebar(element: Element, side: Side) -> bool {
    &&& element matches Element::Flexible { tenths, child }
    &&& tenths == 8
    &&& *child == Element::SidebarItem(side)
}

/// The panes, with the status bar below them.
pub open spec fn are_panes_with_status_bar(element: Element, status_bar: usize) -> bool {
    &&& element matches Element::Expanded { tenths, child }
    &&& tenths == 10
    &&& *child matches Element::Flex { axis, children }
    &&& axis is Column
    &&& in_order(children).len() == 2
    &&& in_order(children)[0] matches Element::Expanded { tenths: all, child: center }
    &&& all == 10
    &&& *center is Center
    &&& in_order(children)[1] == Element::View(status_bar)
}

/// What is beside the panes: each sidebar at its side, and between it and the panes the item that
/// it shows, if it shows one.
pub open spec fn is_row(
    row: Seq<Element>,
    status_bar: usize,
    left_item: bool,
    right_item: bool,
) -> bool {
    let panes: int = if left_item {
        2
    } else {
        1
    };
    &&& row.len() == panes + 1 + (if right_item {
        2int
    } else {
        1
    })
    &&& row[0] == Element::Sidebar(Side::Left)
    &&& left_item ==> is_item_of_sidebar(row[1], Side::Left)
    &&& are_panes_with_status_bar(row[panes], status_bar)
    &&& right_item ==> is_item_of_sidebar(row[panes + 1], Side::Right)
    &&& row.last() == Element::Sidebar(Side::Right)
}

/// The workspace is the title bar, and below it, in all the space that is left, the panes between
/// the sidebars, with the modal view on top of them exactly while one is open.
pub proof fn workspace_shows_all_its_parts<G, S>(
    w: Workspace<G, S>,
    titlebar: TitlebarState,
    left_item: bool,
    right_item: bool,
    element: Element,
    bar: Element,
)
    requires
        call_ensures(
            Workspace::<G, S>::render,
            (&w, &titlebar, left_item, right_item),
            element,
        ),
        call_ensures(Workspace::<G, S>::render_titlebar, (&w, &titlebar), bar),
    ensures
        exists|row: Seq<Element>| #[trigger]
            is_workspace(element, bar, row, w@.modal) && is_row(
                row,
                w@.status_bar,
                left_item,
                right_item,
            ),
{
    reveal_with_fuel(in_order, 7);
    let column = (*((*(element->Named_child))->Container_child))->Flex_children;
    let layers = (*(in_order(column)[1]->Expanded_child))->Stack_0;
    let row = in_order(in_order(layers)[0]->Flex_children);
    assert(is_row(row, w@.status_bar, left_item, right_item)) by {
        let panes: int = if left_item {
            2
        } else {
            1
        };
        let both = (*(row[panes]->Expanded_child))->Flex_children;
        assert(in_order(both).len() == 2);
    }
    assert(is_workspace(element, bar, row, w@.modal));
}

/// The element is a workspace with a title bar, with what is in the row below it, and with a modal
/// view or none.
pub open spec fn is_workspace(
    element: Element,
    bar: Element,
    row: Seq<Element>,
    modal: Option<usize>,
) -> bool {
    &&& element matches Element::Named { name, child: around }
    &&& name@ == "workspace"@
    &&& *around matches Element::Container { style, background, child: column }
    &&& style is None
    &&& background is Workspace
    &&& *column matches Element::Flex { axis, children }
    &&& axis is Column
    &&& in_order(children).len() == 2
    &&& in_order(children)[0] == bar
    &&& in_order(children)[1] matches Element::Expanded { tenths, child: content }
    &&& tenths == 10
    &&& *content matches Element::Stack(layers)
    &&& in_order(layers).len() == if modal is Some {
        2int
    } else {
        1
    }
    &&& in_order(layers)[0] matches Element::Flex { axis: beside, children: parts }
    &&& beside is Row
    &&& in_order(parts) == row
    &&& modal matches Some(view) ==> in_order(layers)[1] == Element::View(view)
}

} // verus!
