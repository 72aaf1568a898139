//! The commands that key bindings name.
use vstd::prelude::*;
use crate::keys::KeyState;

verus! {

/// A direction of movement between windows, workspaces or outputs.
#[derive(Clone, Copy, Debug, PartialEq, Eq, Structural)]
pub enum Direction {
    Left,
    Right,
    Up,
    Down,
}

/// A direction of keyboard focus movement.
#[derive(Clone, Copy, Debug, PartialEq, Eq, Structural)]
pub enum FocusDirection {
    Left,
    Right,
    Up,
    Down,
    In,
    Out,
}

/// Whether an interactive resize grows or shrinks the window.
#[derive(Clone, Copy, Debug, PartialEq, Eq, Structural)]
pub enum ResizeDirection {
    Outwards,
    Inwards,
}

/// The window edge that an interactive resize step moves.
#[derive(Clone, Copy, Debug, PartialEq, Eq, Structural)]
pub enum ResizeEdge {
    Top,
    Bottom,
    Left,
    Right,
}

/// The orientation of a tiling container.
#[derive(Clone, Copy, Debug, PartialEq, Eq, Structural)]
pub enum Orientation {
    Horizontal,
    Vertical,
}

/// How the workspaces of an output are laid out, which decides what a
/// movement past the last window means.
#[derive(Clone, Copy, Debug, PartialEq, Eq, Structural)]
pub enum WorkspaceLayout {
    Horizontal,
    Vertical,
}

/// Every command that a key binding can trigger.
#[derive(Clone, Debug, PartialEq, Eq)]
pub enum Action {
    Terminate,
    Debug,
    Close,
    Workspace(u8),
    NextWorkspace,
    PreviousWorkspace,
    LastWorkspace,
    MoveToWorkspace(u8),
    MoveToNextWorkspace,
    MoveToPreviousWorkspace,
    MoveToLastWorkspace,
    SendToWorkspace(u8),
    SendToNextWorkspace,
    SendToPreviousWorkspace,
    SendToLastWorkspace,
    NextOutput,
    PreviousOutput,
    MoveToNextOutput,
    MoveToPreviousOutput,
    SendToNextOutput,
    SendToPreviousOutput,
    Focus(FocusDirection),
    Move(Direction),
    SwapWindow,
    Maximize,
    Resizing(ResizeDirection),
    _ResizingInternal(ResizeDirection, ResizeEdge, KeyState),
    ToggleOrientation,
    Orientation(Orientation),
    ToggleStacking,
    ToggleTiling,
    ToggleWindowFloating,
    Spawn(String),
}

impl Action {
    /// An equal copy of the action.
    pub fn duplicate(&self) -> (r: Action)
        ensures
            r == *self,
    {
        match self {
            Action::Terminate => Action::Terminate,
            Action::Debug => Action::Debug,
            Action::Close => Action::Close,
            Action::Workspace(n) => Action::Workspace(*n),
            Action::NextWorkspace => Action::NextWorkspace,
            Action::PreviousWorkspace => Action::PreviousWorkspace,
            Action::LastWorkspace => Action::LastWorkspace,
            Action::MoveToWorkspace(n) => Action::MoveToWorkspace(*n),
            Action::MoveToNextWorkspace => Action::MoveToNextWorkspace,
            Action::MoveToPreviousWorkspace => Action::MoveToPreviousWorkspace,
            Action::MoveToLastWorkspace => Action::MoveToLastWorkspace,
            Action::SendToWorkspace(n) => Action::SendToWorkspace(*n),
            Action::SendToNextWorkspace => Action::SendToNextWorkspace,
            Action::SendToPreviousWorkspace => Action::SendToPreviousWorkspace,
            Action::SendToLastWorkspace => Action::SendToLastWorkspace,
            Action::NextOutput => Action::NextOutput,
            Action::PreviousOutput => Action::PreviousOutput,
            Action::MoveToNextOutput => Action::MoveToNextOutput,
            Action::MoveToPreviousOutput => Action::MoveToPreviousOutput,
            Action::SendToNextOutput => Action::SendToNextOutput,
            Action::SendToPreviousOutput => Action::SendToPreviousOutput,
            Action::Focus(d) => Action::Focus(*d),
            Action::Move(d) => Action::Move(*d),
            Action::SwapWindow => Action::SwapWindow,
            Action::Maximize => Action::Maximize,
            Action::Resizing(d) => Action::Resizing(*d),
            Action::_ResizingInternal(d, e, s) => Action::_ResizingInternal(*d, *e, *s),
            Action::ToggleOrientation => Action::ToggleOrientation,
            Action::Orientation(o) => Action::Orientation(*o),
            Action::ToggleStacking => Action::ToggleStacking,
            Action::ToggleTiling => Action::ToggleTiling,
            Action::ToggleWindowFloating => Action::ToggleWindowFloating,
            Action::Spawn(c) => Action::Spawn(c.clone()),
        }
    }
}

/// The workspace index that the number key `n` selects: `0` is the tenth
/// workspace, every other number counts from one.
pub open spec fn workspace_index_of(n: u8) -> nat {
    if n == 0 {
        9
    } else {
        (n - 1) as nat
    }
}

/// The workspace index that the number key `n` selects.
pub fn workspace_index(n: u8) -> (r: usize)
    ensures
        r == workspace_index_of(n),
{
    if n == 0 {
        9
    } else {
        (n - 1) as usize
    }
}

/// The edge that a resize key moves while growing windows.
pub open spec fn edge_of_sym(sym: u32) -> Option<ResizeEdge> {
    if sym == crate::keys::KEY_LEFT || sym == crate::keys::KEY_LOWER_H || sym
        == crate::keys::KEY_UPPER_H {
        Some(ResizeEdge::Left)
    } else if sym == crate::keys::KEY_DOWN || sym == crate::keys::KEY_LOWER_J || sym
        == crate::keys::KEY_UPPER_J {
        Some(ResizeEdge::Bottom)
    } else if sym == crate::keys::KEY_UP || sym == crate::keys::KEY_LOWER_K || sym
        == crate::keys::KEY_UPPER_K {
        Some(ResizeEdge::Top)
    } else if sym == crate::keys::KEY_RIGHT || sym == crate::keys::KEY_LOWER_L || sym
        == crate::keys::KEY_UPPER_L {
        Some(ResizeEdge::Right)
    } else {
        None
    }
}

/// The edge that the arrow or vi-style key `sym` moves while growing
/// windows, if it is one of those keys.
pub fn resize_edge_for(sym: u32) -> (r: Option<ResizeEdge>)
    ensures
        r == edge_of_sym(sym),
{
    if sym == crate::keys::KEY_LEFT || sym == crate::keys::KEY_LOWER_H || sym
        == crate::keys::KEY_UPPER_H {
        Some(ResizeEdge::Left)
    } else if sym == crate::keys::KEY_DOWN || sym == crate::keys::KEY_LOWER_J || sym
        == crate::keys::KEY_UPPER_J {
        Some(ResizeEdge::Bottom)
    } else if sym == crate::keys::KEY_UP || sym == crate::keys::KEY_LOWER_K || sym
        == crate::keys::KEY_UPPER_K {
        Some(ResizeEdge::Top)
    } else if sym == crate::keys::KEY_RIGHT || sym == crate::keys::KEY_LOWER_L || sym
        == crate::keys::KEY_UPPER_L {
        Some(ResizeEdge::Right)
    } else {
        None
    }
}

/// The opposite edge.
pub open spec fn flipped(e: ResizeEdge) -> ResizeEdge {
    match e {
        ResizeEdge::Top => ResizeEdge::Bottom,
        ResizeEdge::Bottom => ResizeEdge::Top,
        ResizeEdge::Left => ResizeEdge::Right,
        ResizeEdge::Right => ResizeEdge::Left,
    }
}

impl ResizeEdge {
    /// The opposite edge.
    pub fn flip_direction(self) -> (r: ResizeEdge)
        ensures
            r == flipped(self),
    {
        match self {
            ResizeEdge::Top => ResizeEdge::Bottom,
            ResizeEdge::Bottom => ResizeEdge::Top,
            ResizeEdge::Left => ResizeEdge::Right,
            ResizeEdge::Right => ResizeEdge::Left,
        }
    }
}

} // verus!
