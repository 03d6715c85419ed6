//! Keybinds: a virtual-key code with the modifier keys that must be held.
use vstd::prelude::*;

verus! {

/// The modifier keys held when a key message arrives.
#[derive(PartialEq, Eq, Structural, Clone, Copy, Debug)]
pub struct Modifiers {
    pub ctrl: bool,
    pub shift: bool,
    pub alt: bool,
}

/// A key combination: a virtual-key code and the modifiers it requires.
#[derive(PartialEq, Eq, Structural, Clone, Copy, Debug)]
pub struct Keybind {
    pub vk: u16,
    pub ctrl: bool,
    pub shift: bool,
    pub alt: bool,
}

impl Keybind {
    /// True when the held modifiers are exactly the ones this keybind names.
    pub fn modifiers_match(&self, held: Modifiers) -> (b: bool)
        ensures
            b == (self.ctrl == held.ctrl && self.shift == held.shift && self.alt == held.alt),
    {
        self.ctrl == held.ctrl && self.shift == held.shift && self.alt == held.alt
    }

    /// True when a key-down of `vk` with `held` modifiers triggers this keybind.
    pub fn matches(&self, vk: u16, held: Modifiers) -> (b: bool)
        ensures
            b == (self.vk == vk && self.ctrl == held.ctrl && self.shift == held.shift && self.alt == held.alt),
    {
        self.vk == vk && self.modifiers_match(held)
    }
}

} // verus!
