//! The compositor-wide modal states that change how keys are routed.
use vstd::prelude::*;
use crate::action::ResizeDirection;
use crate::keys::{KeyPattern, Modifiers};

verus! {

/// A node of the tiling layout: the workspace that holds it and the node
/// within that workspace's tree.
#[derive(Clone, Copy, Debug, PartialEq, Eq, Structural)]
pub struct NodeDesc {
    pub workspace: u64,
    pub node: u64,
}

/// What started the overview.
#[derive(Clone, Copy, Debug, PartialEq, Eq, Structural)]
pub enum Trigger {
    /// Held pointer button.
    Pointer(u32),
    /// A window move that had nowhere to go; these modifiers keep it open.
    KeyboardMove(Modifiers),
    /// A window swap from this binding, starting at this node.
    KeyboardSwap(KeyPattern, NodeDesc),
}

#[derive(Clone, Copy, Debug, PartialEq, Eq, Structural)]
pub enum OverviewMode {
    Inactive,
    Started(Trigger),
}

#[derive(Clone, Copy, Debug, PartialEq, Eq, Structural)]
pub enum ResizeMode {
    Inactive,
    /// Entered by this binding, growing or shrinking windows.
    Started(KeyPattern, ResizeDirection),
}

/// The modal state that the keyboard filter reads and updates.
#[derive(Clone, Copy, Debug, PartialEq, Eq, Structural)]
pub struct ModalState {
    pub overview: OverviewMode,
    pub resize: ResizeMode,
}

impl ModalState {
    /// Neither mode active.
    pub fn new() -> (r: ModalState)
        ensures
            r.overview == OverviewMode::Inactive,
            r.resize == ResizeMode::Inactive,
    {
        ModalState { overview: OverviewMode::Inactive, resize: ResizeMode::Inactive }
    }
}

} // verus!
