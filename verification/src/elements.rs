//! What is drawn, as a tree of elements.

use crate::effects::Side;
use vstd::prelude::*;

verus! {

/// The parts of the theme that a workspace is drawn with.
#[derive(Clone, Copy, Debug, PartialEq, Eq, Structural)]
pub enum Style {
    Titlebar,
    Title,
    TitlebarIcon,
    OfflineIcon,
    OutdatedWarning,
    Avatar,
    AvatarRibbon,
    SignInPrompt,
    HoveredSignInPrompt,
}

/// The widths and heights of the theme that a workspace is drawn with.
#[derive(Clone, Copy, Debug, PartialEq, Eq, Structural)]
pub enum Size {
    TitlebarHeight,
    OfflineIconWidth,
    AvatarWidth,
    AvatarRibbonWidth,
    AvatarRibbonHeight,
    RightSidebarWidth,
}

/// The color behind an element.
#[derive(Clone, Copy, Debug, PartialEq, Eq, Structural)]
pub enum Background {
    /// The one that comes with the style.
    OfStyle,
    /// That of the workspace.
    Workspace,
    /// The color in which the cursor of a replica is drawn, or the default color.
    Replica(Option<u16>),
}

/// Where in its place an element is drawn.
#[derive(Clone, Copy, Debug, PartialEq, Eq, Structural)]
pub enum Alignment {
    Center,
    Right,
    Bottom,
}

/// In which direction elements follow each other.
#[derive(Clone, Copy, Debug, PartialEq, Eq, Structural)]
pub enum Axis {
    Row,
    Column,
}

/// What a click on an element does.
#[derive(Clone, Copy, Debug, PartialEq, Eq, Structural)]
pub enum Click {
    /// Sign in.
    Authenticate,
}

/// An element of the screen.
#[derive(Debug, PartialEq, Eq)]
pub enum Element {
    /// Nothing to be seen.
    Empty,
    Label { text: &'static str, style: Style },
    Svg { path: &'static str, color: Style },
    /// The picture with an id.
    Image { picture: usize, style: Style },
    /// The view with an id.
    View(usize),
    /// The buttons of a sidebar.
    Sidebar(Side),
    /// The item that a sidebar shows.
    SidebarItem(Side),
    /// The group of panes at the center.
    Center,
    /// An element with a style around it.
    Container { style: Option<Style>, background: Background, child: Box<Element> },
    Align { alignment: Alignment, child: Box<Element> },
    Constrained { width: Option<Size>, height: Option<Size>, child: Box<Element> },
    /// An element that fills its part of the space left over; parts are counted in tenths.
    Expanded { tenths: u8, child: Box<Element> },
    /// An element that takes up to its part of the space left over; parts are counted in tenths.
    Flexible { tenths: u8, child: Box<Element> },
    /// Elements beside each other.
    Flex { axis: Axis, children: Children },
    /// Elements on top of each other, the first at the bottom.
    Stack(Children),
    /// An element that looks different under the pointer, which becomes a pointing hand.
    Button { normal: Box<Element>, hovered: Box<Element>, click: Click },
    /// An element under a name.
    Named { name: &'static str, child: Box<Element> },
}

/// A list of elements.
#[derive(Debug, PartialEq, Eq)]
pub enum Children {
    End,
    Then(Box<Element>, Box<Children>),
}

/// A list of the elements of a sequence, followed by others.
pub open spec fn listed(elements: Seq<Element>, rest: Children) -> Children
    decreases elements.len(),
{
    if elements.len() == 0 {
        rest
    } else {
        listed(
            elements.drop_last(),
            Children::Then(Box::new(elements.last()), Box::new(rest)),
        )
    }
}

/// A list of one element at most, followed by others.
pub open spec fn optional(element: Option<Element>, rest: Children) -> Children {
    match element {
        Some(element) => Children::Then(Box::new(element), Box::new(rest)),
        None => rest,
    }
}

/// An element and the list of those that follow.
pub open spec fn cons(element: Element, rest: Children) -> Children {
    Children::Then(Box::new(element), Box::new(rest))
}

impl Children {
    /// Puts an element in front.
    pub fn prepend(self, element: Element) -> (children: Children)
        ensures
            children == cons(element, self),
    {
        Children::Then(Box::new(element), Box::new(self))
    }

    /// Puts an element in front, if there is one.
    pub fn prepend_optional(self, element: Option<Element>) -> (children: Children)
        ensures
            children == optional(element, self),
    {
        match element {
            Some(element) => self.prepend(element),
            None => self,
        }
    }

    /// Puts all elements in front, in their order.
    pub fn prepend_all(self, elements: Vec<Element>) -> (children: Children)
        ensures
            children == listed(elements@, self),
    {
        let mut elements = elements;
        let mut children = self;
        let ghost all = elements@;
        while elements.len() > 0
            invariant
                listed(all, self) == listed(elements@, children),
            decreases elements@.len(),
        {
            if let Some(element) = elements.pop() {
                children = children.prepend(element);
            }
        }
        children
    }
}

} // verus!
