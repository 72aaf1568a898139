//! Input dispatch core of a tiling Wayland compositor.
//!
//! The modules hold the decisions that sit between raw device events and
//! the compositor: the modal keyboard filter, the bookkeeping of keys whose
//! release must not reach clients, the device and seat registries, the
//! placement of the pointer across outputs, the precedence of surfaces under
//! the pointer, and the shell commands that key-bound actions stand for.
use vstd::prelude::*;

pub mod action;
pub mod devices;
pub mod dispatch;
pub mod filter;
pub mod keys;
pub mod laws;
pub mod modal;
pub mod pointer;
pub mod seat;
pub mod suppressed;

verus! {

} // verus!
