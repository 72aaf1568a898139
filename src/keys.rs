//! Keys, modifiers and key patterns as plain values.
use vstd::prelude::*;

verus! {

/// Keysym of the left arrow key.
pub const KEY_LEFT: u32 = 0xff51;
/// Keysym of the up arrow key.
pub const KEY_UP: u32 = 0xff52;
/// Keysym of the right arrow key.
pub const KEY_RIGHT: u32 = 0xff53;
/// Keysym of the down arrow key.
pub const KEY_DOWN: u32 = 0xff54;
/// Keysym of `H`.
pub const KEY_UPPER_H: u32 = 0x48;
/// Keysym of `J`.
pub const KEY_UPPER_J: u32 = 0x4a;
/// Keysym of `K`.
pub const KEY_UPPER_K: u32 = 0x4b;
/// Keysym of `L`.
pub const KEY_UPPER_L: u32 = 0x4c;
/// Keysym of `h`.
pub const KEY_LOWER_H: u32 = 0x68;
/// Keysym of `j`.
pub const KEY_LOWER_J: u32 = 0x6a;
/// Keysym of `k`.
pub const KEY_LOWER_K: u32 = 0x6b;
/// Keysym of `l`.
pub const KEY_LOWER_L: u32 = 0x6c;
/// Keysym that asks for the first virtual terminal.
pub const KEY_SWITCH_VT_1: u32 = 0x1008_FE01;
/// Keysym that asks for the twelfth virtual terminal.
pub const KEY_SWITCH_VT_12: u32 = 0x1008_FE0C;

/// Whether a key or a button went down or came up.
#[derive(Clone, Copy, Debug, PartialEq, Eq, Structural)]
pub enum KeyState {
    Released,
    Pressed,
}

/// The modifiers that key bindings are written with.
#[derive(Clone, Copy, Debug, PartialEq, Eq, Structural)]
pub struct Modifiers {
    pub ctrl: bool,
    pub alt: bool,
    pub shift: bool,
    pub logo: bool,
}

/// A key binding: the exact modifier set and one keysym.
#[derive(Clone, Copy, Debug, PartialEq, Eq, Structural)]
pub struct KeyPattern {
    pub modifiers: Modifiers,
    pub key: u32,
}

/// One keyboard event as the filter sees it.
pub struct KeyEvent {
    /// The raw keycode of the key.
    pub code: u32,
    pub state: KeyState,
    /// The modifiers held when the event was processed.
    pub modifiers: Modifiers,
    /// The keysym after the keymap applied the modifiers.
    pub modified_sym: u32,
    /// The keysyms of the key without modifiers applied.
    pub raw_syms: Vec<u32>,
}

/// A modifier that `required` holds and `now` does not.
pub open spec fn lost_modifier(required: Modifiers, now: Modifiers) -> bool {
    ||| required.ctrl && !now.ctrl
    ||| required.alt && !now.alt
    ||| required.logo && !now.logo
    ||| required.shift && !now.shift
}

impl Modifiers {
    /// Whether some modifier of `self` is no longer held in `now`.
    pub fn lost_in(&self, now: &Modifiers) -> (r: bool)
        ensures
            r == lost_modifier(*self, *now),
    {
        (self.ctrl && !now.ctrl) || (self.alt && !now.alt) || (self.logo && !now.logo) || (
        self.shift && !now.shift)
    }

    /// Whether no modifier is held.
    pub open spec fn is_empty(&self) -> bool {
        !self.ctrl && !self.alt && !self.shift && !self.logo
    }
}

/// Whether `syms` holds `key`.
pub fn contains_sym(syms: &Vec<u32>, key: u32) -> (r: bool)
    ensures
        r == syms@.contains(key),
{
    let mut i: usize = 0;
    while i < syms.len()
        invariant
            i <= syms.len(),
            forall|j: int| 0 <= j < i ==> syms@[j] != key,
        decreases syms.len() - i,
    {
        if syms[i] == key {
            return true;
        }
        i = i + 1;
    }
    false
}

} // verus!
