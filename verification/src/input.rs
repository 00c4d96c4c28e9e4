//! Keyboard and mouse input values: physical key codes, mouse buttons and
//! modifier-key sets.

use vstd::prelude::*;

verus! {

/// A key, identified either by physical code or by the character it
/// produces.
#[derive(Debug, Clone, Copy, PartialEq, Eq, Hash, Structural)]
pub enum Key {
    /// A key identified by its physical code.
    Code(KeyCode),
    /// A key identified by the character it produces.
    Character(char),
}

/// Physical key codes, following keyboard layout.
#[derive(Debug, Clone, Copy, PartialEq, Eq, Hash, Structural)]
#[allow(missing_docs)]
pub enum KeyCode {
    A,
    B,
    C,
    D,
    E,
    F,
    G,
    H,
    I,
    J,
    K,
    L,
    M,
    N,
    O,
    P,
    Q,
    R,
    S,
    T,
    U,
    V,
    W,
    X,
    Y,
    Z,
    Key0,
    Key1,
    Key2,
    Key3,
    Key4,
    Key5,
    Key6,
    Key7,
    Key8,
    Key9,
    F1,
    F2,
    F3,
    F4,
    F5,
    F6,
    F7,
    F8,
    F9,
    F10,
    F11,
    F12,
    F13,
    F14,
    F15,
    F16,
    F17,
    F18,
    F19,
    F20,
    F21,
    F22,
    F23,
    F24,
    ArrowUp,
    ArrowDown,
    ArrowLeft,
    ArrowRight,
    Home,
    End,
    PageUp,
    PageDown,
    Insert,
    Delete,
    Backspace,
    Enter,
    Tab,
    Space,
    Escape,
    ShiftLeft,
    ShiftRight,
    ControlLeft,
    ControlRight,
    AltLeft,
    AltRight,
    MetaLeft,
    MetaRight,
    CapsLock,
    NumLock,
    ScrollLock,
    Numpad0,
    Numpad1,
    Numpad2,
    Numpad3,
    Numpad4,
    Numpad5,
    Numpad6,
    Numpad7,
    Numpad8,
    Numpad9,
    NumpadAdd,
    NumpadSubtract,
    NumpadMultiply,
    NumpadDivide,
    NumpadDecimal,
    NumpadEnter,
    Minus,
    Equal,
    BracketLeft,
    BracketRight,
    Backslash,
    Semicolon,
    Quote,
    Comma,
    Period,
    Slash,
    Backquote,
    MediaPlayPause,
    MediaStop,
    MediaTrackNext,
    MediaTrackPrevious,
    VolumeUp,
    VolumeDown,
    VolumeMute,
    PrintScreen,
    Pause,
    ContextMenu,
}

/// Whether a key code is one of the letter keys `A` through `Z`.
pub open spec fn spec_is_letter(k: KeyCode) -> bool {
    ||| k is A
    ||| k is B
    ||| k is C
    ||| k is D
    ||| k is E
    ||| k is F
    ||| k is G
    ||| k is H
    ||| k is I
    ||| k is J
    ||| k is K
    ||| k is L
    ||| k is M
    ||| k is N
    ||| k is O
    ||| k is P
    ||| k is Q
    ||| k is R
    ||| k is S
    ||| k is T
    ||| k is U
    ||| k is V
    ||| k is W
    ||| k is X
    ||| k is Y
    ||| k is Z
}

/// Whether a key code is one of the digit keys `0` through `9` in the main
/// row.
pub open spec fn spec_is_digit(k: KeyCode) -> bool {
    ||| k is Key0
    ||| k is Key1
    ||| k is Key2
    ||| k is Key3
    ||| k is Key4
    ||| k is Key5
    ||| k is Key6
    ||| k is Key7
    ||| k is Key8
    ||| k is Key9
}

/// Whether a key code is one of the function keys `F1` through `F24`.
pub open spec fn spec_is_function_key(k: KeyCode) -> bool {
    ||| k is F1
    ||| k is F2
    ||| k is F3
    ||| k is F4
    ||| k is F5
    ||| k is F6
    ||| k is F7
    ||| k is F8
    ||| k is F9
    ||| k is F10
    ||| k is F11
    ||| k is F12
    ||| k is F13
    ||| k is F14
    ||| k is F15
    ||| k is F16
    ||| k is F17
    ||| k is F18
    ||| k is F19
    ||| k is F20
    ||| k is F21
    ||| k is F22
    ||| k is F23
    ||| k is F24
}

/// Whether a key code is a modifier key (shift, control, alt or meta).
pub open spec fn spec_is_modifier(k: KeyCode) -> bool {
    ||| k is ShiftLeft
    ||| k is ShiftRight
    ||| k is ControlLeft
    ||| k is ControlRight
    ||| k is AltLeft
    ||| k is AltRight
    ||| k is MetaLeft
    ||| k is MetaRight
}

impl KeyCode {
    /// Whether this is one of the letter keys.
    pub fn is_letter(&self) -> (r: bool)
        ensures
            r == spec_is_letter(*self),
    {
        matches!(
            self,
            KeyCode::A | KeyCode::B | KeyCode::C | KeyCode::D | KeyCode::E | KeyCode::F
                | KeyCode::G | KeyCode::H | KeyCode::I | KeyCode::J | KeyCode::K | KeyCode::L
                | KeyCode::M | KeyCode::N | KeyCode::O | KeyCode::P | KeyCode::Q | KeyCode::R
                | KeyCode::S | KeyCode::T | KeyCode::U | KeyCode::V | KeyCode::W | KeyCode::X
                | KeyCode::Y | KeyCode::Z
        )
    }

    /// Whether this is one of the digit keys.
    pub fn is_digit(&self) -> (r: bool)
        ensures
            r == spec_is_digit(*self),
    {
        matches!(
            self,
            KeyCode::Key0 | KeyCode::Key1 | KeyCode::Key2 | KeyCode::Key3 | KeyCode::Key4
                | KeyCode::Key5 | KeyCode::Key6 | KeyCode::Key7 | KeyCode::Key8 | KeyCode::Key9
        )
    }

    /// Whether this is one of the function keys.
    pub fn is_function_key(&self) -> (r: bool)
        ensures
            r == spec_is_function_key(*self),
    {
        matches!(
            self,
            KeyCode::F1 | KeyCode::F2 | KeyCode::F3 | KeyCode::F4 | KeyCode::F5 | KeyCode::F6
                | KeyCode::F7 | KeyCode::F8 | KeyCode::F9 | KeyCode::F10 | KeyCode::F11
                | KeyCode::F12 | KeyCode::F13 | KeyCode::F14 | KeyCode::F15 | KeyCode::F16
                | KeyCode::F17 | KeyCode::F18 | KeyCode::F19 | KeyCode::F20 | KeyCode::F21
                | KeyCode::F22 | KeyCode::F23 | KeyCode::F24
        )
    }

    /// Whether this is a modifier key.
    pub fn is_modifier(&self) -> (r: bool)
        ensures
            r == spec_is_modifier(*self),
    {
        matches!(
            self,
            KeyCode::ShiftLeft | KeyCode::ShiftRight | KeyCode::ControlLeft
                | KeyCode::ControlRight | KeyCode::AltLeft | KeyCode::AltRight
                | KeyCode::MetaLeft | KeyCode::MetaRight
        )
    }
}

/// A mouse button.
#[derive(Debug, Clone, Copy, PartialEq, Eq, Hash, Structural)]
pub enum MouseButton {
    /// The primary button.
    Left,
    /// The secondary button.
    Right,
    /// The wheel button.
    Middle,
    /// The navigation-back button.
    Back,
    /// The navigation-forward button.
    Forward,
    /// Any further button, by index.
    Other(u8),
}

/// The button a numeric index stands for: 0 through 4 name the five common
/// buttons, anything else is carried as-is.
pub open spec fn spec_button_of_index(index: u8) -> MouseButton {
    if index == 0 {
        MouseButton::Left
    } else if index == 1 {
        MouseButton::Right
    } else if index == 2 {
        MouseButton::Middle
    } else if index == 3 {
        MouseButton::Back
    } else if index == 4 {
        MouseButton::Forward
    } else {
        MouseButton::Other(index)
    }
}

/// The numeric index a button stands at; the inverse of
/// `spec_button_of_index` on the named buttons.
pub open spec fn spec_index_of_button(b: MouseButton) -> u8 {
    match b {
        MouseButton::Left => 0,
        MouseButton::Right => 1,
        MouseButton::Middle => 2,
        MouseButton::Back => 3,
        MouseButton::Forward => 4,
        MouseButton::Other(n) => n,
    }
}

impl MouseButton {
    /// The button a numeric index stands for.
    pub fn from_index(index: u8) -> (r: MouseButton)
        ensures
            r == spec_button_of_index(index),
    {
        match index {
            0 => MouseButton::Left,
            1 => MouseButton::Right,
            2 => MouseButton::Middle,
            3 => MouseButton::Back,
            4 => MouseButton::Forward,
            n => MouseButton::Other(n),
        }
    }

    /// The numeric index of this button.
    pub fn to_index(&self) -> (r: u8)
        ensures
            r == spec_index_of_button(*self),
    {
        match self {
            MouseButton::Left => 0,
            MouseButton::Right => 1,
            MouseButton::Middle => 2,
            MouseButton::Back => 3,
            MouseButton::Forward => 4,
            MouseButton::Other(n) => *n,
        }
    }
}

/// The given bit when the condition holds, zero otherwise.
pub open spec fn mask_bit(cond: bool, bit: u8) -> u8 {
    if cond {
        bit
    } else {
        0
    }
}

/// A set of held modifier keys, one bit each: shift, control, alt and
/// meta, from the lowest bit upward.
#[derive(Debug, Clone, Copy, PartialEq, Eq, Hash, Structural)]
pub struct ModifierKeys {
    bits: u8,
}

impl ModifierKeys {
    /// The raw bit set.
    pub closed spec fn spec_bits(&self) -> u8 {
        self.bits
    }

    /// The set holding only shift.
    pub fn shift() -> (r: ModifierKeys)
        ensures
            r.spec_bits() == 1u8,
    {
        ModifierKeys { bits: 1 }
    }

    /// The set holding only control.
    pub fn ctrl() -> (r: ModifierKeys)
        ensures
            r.spec_bits() == 2u8,
    {
        ModifierKeys { bits: 2 }
    }

    /// The set holding only alt.
    pub fn alt() -> (r: ModifierKeys)
        ensures
            r.spec_bits() == 4u8,
    {
        ModifierKeys { bits: 4 }
    }

    /// The set holding only meta.
    pub fn meta() -> (r: ModifierKeys)
        ensures
            r.spec_bits() == 8u8,
    {
        ModifierKeys { bits: 8 }
    }

    /// The empty set.
    pub fn empty() -> (r: ModifierKeys)
        ensures
            r.spec_bits() == 0u8,
    {
        ModifierKeys { bits: 0 }
    }

    /// The set holding exactly the named modifiers.
    pub fn new(shift: bool, ctrl: bool, alt: bool, meta: bool) -> (r: ModifierKeys)
        ensures
            r.spec_bits() == (mask_bit(shift, 1) | mask_bit(ctrl, 2) | mask_bit(alt, 4)
                | mask_bit(meta, 8)),
    {
        let m1: u8 = if shift {
            1
        } else {
            0
        };
        let m2: u8 = if ctrl {
            2
        } else {
            0
        };
        let m3: u8 = if alt {
            4
        } else {
            0
        };
        let m4: u8 = if meta {
            8
        } else {
            0
        };
        ModifierKeys { bits: m1 | m2 | m3 | m4 }
    }

    /// Whether every modifier in `other` is held in `self`.
    pub fn contains(&self, other: ModifierKeys) -> (r: bool)
        ensures
            r == ((self.spec_bits() & other.spec_bits()) == other.spec_bits()),
    {
        (self.bits & other.bits) == other.bits
    }

    /// Adds the modifiers in `other`.
    pub fn insert(&mut self, other: ModifierKeys)
        ensures
            final(self).spec_bits() == (old(self).spec_bits() | other.spec_bits()),
    {
        self.bits = self.bits | other.bits;
    }

    /// Removes the modifiers in `other`.
    pub fn remove(&mut self, other: ModifierKeys)
        ensures
            final(self).spec_bits() == (old(self).spec_bits() & !other.spec_bits()),
    {
        self.bits = self.bits & !other.bits;
    }

    /// Whether shift is held.
    pub fn has_shift(&self) -> (r: bool)
        ensures
            r == ((self.spec_bits() & 1u8) == 1u8),
    {
        (self.bits & 1) == 1
    }

    /// Whether control is held.
    pub fn has_ctrl(&self) -> (r: bool)
        ensures
            r == ((self.spec_bits() & 2u8) == 2u8),
    {
        (self.bits & 2) == 2
    }

    /// Whether alt is held.
    pub fn has_alt(&self) -> (r: bool)
        ensures
            r == ((self.spec_bits() & 4u8) == 4u8),
    {
        (self.bits & 4) == 4
    }

    /// Whether meta is held.
    pub fn has_meta(&self) -> (r: bool)
        ensures
            r == ((self.spec_bits() & 8u8) == 8u8),
    {
        (self.bits & 8) == 8
    }
}

} // verus!
