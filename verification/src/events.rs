//! Keyboard events: a key together with its state, scancode, modifiers and
//! repeat flag.

use vstd::prelude::*;

verus! {

use crate::input::{Key, ModifierKeys};

/// Whether a key went down or up.
#[derive(Debug, Clone, Copy, PartialEq, Eq, Structural)]
pub enum KeyState {
    /// The key went down.
    Pressed,
    /// The key went up.
    Released,
}

/// One keyboard event.
#[derive(Debug, Clone, Copy, PartialEq, Eq, Structural)]
pub struct KeyEvent {
    /// The key the event is about.
    pub key: Key,
    /// The platform scancode, zero when unknown.
    pub scancode: u32,
    /// Whether the key went down or up.
    pub state: KeyState,
    /// The modifiers held at event time.
    pub modifiers: ModifierKeys,
    /// Whether this is an auto-repeat of a held key.
    pub repeat: bool,
}

impl KeyEvent {
    /// An event for `key` in `state`, with no scancode, no modifiers and no
    /// repeat flag.
    pub fn new(key: Key, state: KeyState) -> (r: KeyEvent)
        ensures
            r.key == key,
            r.scancode == 0u32,
            r.state == state,
            r.modifiers.spec_bits() == 0u8,
            r.repeat == false,
    {
        KeyEvent { key, scancode: 0, state, modifiers: ModifierKeys::empty(), repeat: false }
    }

    /// The same event with the given modifiers.
    pub fn with_modifiers(self, modifiers: ModifierKeys) -> (r: KeyEvent)
        ensures
            r == (KeyEvent { modifiers, ..self }),
    {
        KeyEvent { modifiers, ..self }
    }

    /// The same event with the given repeat flag.
    pub fn with_repeat(self, repeat: bool) -> (r: KeyEvent)
        ensures
            r == (KeyEvent { repeat, ..self }),
    {
        KeyEvent { repeat, ..self }
    }

    /// Whether the key went down.
    pub fn is_pressed(&self) -> (r: bool)
        ensures
            r == (self.state is Pressed),
    {
        matches!(self.state, KeyState::Pressed)
    }

    /// Whether the key went up.
    pub fn is_released(&self) -> (r: bool)
        ensures
            r == (self.state is Released),
    {
        matches!(self.state, KeyState::Released)
    }
}

} // verus!
