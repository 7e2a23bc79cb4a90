//! Typed key events, as the host input adapter delivers them.

use vstd::prelude::*;

verus! {

/// A modifier held together with a key.
#[derive(Debug, PartialEq, Eq, Structural, Clone, Copy)]
pub enum Modifier {
    Shift,
    Ctrl,
    Alt,
}

/// The key itself.
#[derive(Debug, PartialEq, Eq, Structural, Clone, Copy)]
pub enum Key {
    Char { data: char },
    Mod,
    Backspace,
    Enter,
}

/// One keypress: the key and the modifier held with it, if any.
#[derive(Debug, Clone, Copy)]
pub struct KeyEvent {
    pub key_type: Key,
    pub modifier: Option<Modifier>,
}

} // verus!
