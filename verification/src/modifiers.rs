//! The set of modifier keys that are held down, as a bitmask.

use vstd::prelude::*;

verus! {

/// No modifier.
pub const MODIFIER_NONE: u32 = 0;

/// Either shift key.
pub const MODIFIER_SHIFT: u32 = 1;

/// The command (super, windows) key.
pub const MODIFIER_SUPER: u32 = 2;

/// The control key.
pub const MODIFIER_CONTROL: u32 = 4;

/// The option (alt) key.
pub const MODIFIER_ALT: u32 = 8;

/// Caps lock, while it is on.
pub const MODIFIER_CAPSLOCK: u32 = 16;

/// A set of modifier keys.
#[derive(Clone, Copy, Debug, PartialEq, Eq, Structural)]
pub struct KeyModifier {
    pub bits: u32,
}

impl KeyModifier {
    /// Whether every key of `flag` is in the set.
    pub open spec fn has(self, flag: u32) -> bool {
        self.bits & flag == flag
    }

    /// Whether no modifier is held.
    pub open spec fn none_held(self) -> bool {
        self.bits == 0
    }

    /// The set that holds the keys of both.
    pub open spec fn union(self, other: KeyModifier) -> KeyModifier {
        KeyModifier { bits: self.bits | other.bits }
    }

    /// The empty set.
    pub fn new() -> (r: KeyModifier)
        ensures
            r.bits == MODIFIER_NONE,
            r.none_held(),
    {
        KeyModifier { bits: MODIFIER_NONE }
    }

    /// The set with exactly the given bits.
    pub fn from_bits(bits: u32) -> (r: KeyModifier)
        ensures
            r.bits == bits,
    {
        KeyModifier { bits }
    }

    /// Whether no modifier is held.
    pub fn is_empty(&self) -> (r: bool)
        ensures
            r == self.none_held(),
    {
        self.bits == 0
    }

    /// Whether shift is held.
    pub fn is_shift(&self) -> (r: bool)
        ensures
            r == self.has(MODIFIER_SHIFT),
    {
        self.bits & MODIFIER_SHIFT == MODIFIER_SHIFT
    }

    /// Whether the command key is held.
    pub fn is_super(&self) -> (r: bool)
        ensures
            r == self.has(MODIFIER_SUPER),
    {
        self.bits & MODIFIER_SUPER == MODIFIER_SUPER
    }

    /// Whether control is held.
    pub fn is_control(&self) -> (r: bool)
        ensures
            r == self.has(MODIFIER_CONTROL),
    {
        self.bits & MODIFIER_CONTROL == MODIFIER_CONTROL
    }

    /// Whether the option key is held.
    pub fn is_alt(&self) -> (r: bool)
        ensures
            r == self.has(MODIFIER_ALT),
    {
        self.bits & MODIFIER_ALT == MODIFIER_ALT
    }

    /// Whether caps lock is on.
    pub fn is_capslock(&self) -> (r: bool)
        ensures
            r == self.has(MODIFIER_CAPSLOCK),
    {
        self.bits & MODIFIER_CAPSLOCK == MODIFIER_CAPSLOCK
    }

    /// Adds the keys of `other` to the set.
    pub fn insert(&mut self, other: KeyModifier)
        ensures
            *final(self) == old(self).union(other),
    {
        self.bits = self.bits | other.bits;
    }
}

} // verus!
