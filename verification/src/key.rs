use vstd::prelude::*;

verus! {

/// The keys that the interface tells apart. Every other key is `Other`.
#[derive(Clone, Copy, Debug, PartialEq, Eq, Structural)]
pub enum KeyCode {
    Backspace,
    Enter,
    Left,
    Right,
    Home,
    End,
    Delete,
    Tab,
    Esc,
    Char(char),
    Other,
}

/// The modifier keys held down with a key.
#[derive(Clone, Copy, Debug, PartialEq, Eq, Structural)]
pub struct KeyModifiers {
    pub shift: bool,
    pub control: bool,
    pub alt: bool,
    pub super_key: bool,
    pub hyper: bool,
    pub meta: bool,
}

impl KeyModifiers {
    /// No modifier at all.
    pub open spec fn spec_none() -> KeyModifiers {
        KeyModifiers {
            shift: false,
            control: false,
            alt: false,
            super_key: false,
            hyper: false,
            meta: false,
        }
    }

    /// Control, and nothing else.
    pub open spec fn spec_control() -> KeyModifiers {
        KeyModifiers { control: true, ..Self::spec_none() }
    }

    #[verifier::when_used_as_spec(spec_none)]
    pub fn none() -> (modifiers: KeyModifiers)
        ensures
            modifiers == Self::spec_none(),
    {
        KeyModifiers {
            shift: false,
            control: false,
            alt: false,
            super_key: false,
            hyper: false,
            meta: false,
        }
    }

    #[verifier::when_used_as_spec(spec_control)]
    pub fn control() -> (modifiers: KeyModifiers)
        ensures
            modifiers == Self::spec_control(),
    {
        KeyModifiers {
            shift: false,
            control: true,
            alt: false,
            super_key: false,
            hyper: false,
            meta: false,
        }
    }

    /// Whether Control is held and no other modifier is.
    pub open spec fn spec_is_control_only(self) -> bool {
        self == Self::spec_control()
    }

    #[verifier::when_used_as_spec(spec_is_control_only)]
    pub fn is_control_only(self) -> (b: bool)
        ensures
            b == self.spec_is_control_only(),
    {
        self.control && !self.shift && !self.alt && !self.super_key && !self.hyper && !self.meta
    }
}

/// A key press: the key and the modifiers held with it.
#[derive(Clone, Copy, Debug, PartialEq, Eq, Structural)]
pub struct KeyEvent {
    pub code: KeyCode,
    pub modifiers: KeyModifiers,
}

impl KeyEvent {
    /// Whether this is the letter `letter` with Control held.
    pub open spec fn spec_is_control_char(self, letter: char) -> bool {
        self.code == KeyCode::Char(letter) && self.modifiers.control
    }

    #[verifier::when_used_as_spec(spec_is_control_char)]
    pub fn is_control_char(self, letter: char) -> (b: bool)
        ensures
            b == self.spec_is_control_char(letter),
    {
        match self.code {
            KeyCode::Char(character) => character == letter && self.modifiers.control,
            _ => false,
        }
    }
}

/// What the terminal reports: a key press, or something the interface does
/// not act on (a resize, the mouse, a paste).
#[derive(Clone, Copy, Debug, PartialEq, Eq, Structural)]
pub enum Event {
    Key(KeyEvent),
    Other,
}

} // verus!
