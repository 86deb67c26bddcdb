use vstd::prelude::*;

verus! {

/// Modifier keys held while a key was pressed.
#[derive(Clone, Copy, Debug, PartialEq, Eq, Structural)]
pub struct KeyModifiers {
    pub shift: bool,
    pub control: bool,
    pub alt: bool,
}

impl KeyModifiers {
    /// No modifier held.
    pub fn none() -> (r: Self)
        ensures
            r.plain(),
    {
        KeyModifiers { shift: false, control: false, alt: false }
    }

    /// Only the control key held.
    pub fn control() -> (r: Self)
        ensures
            r.control && !r.shift && !r.alt,
    {
        KeyModifiers { shift: false, control: true, alt: false }
    }

    pub open spec fn plain(self) -> bool {
        !self.shift && !self.control && !self.alt
    }

    pub fn is_plain(&self) -> (r: bool)
        ensures
            r == self.plain(),
    {
        !self.shift && !self.control && !self.alt
    }
}

/// A key event as the terminal reports it.
#[derive(Clone, Copy, Debug, PartialEq, Eq, Structural)]
pub enum Key {
    Escape,
    Enter,
    Backspace,
    Tab,
    Delete(KeyModifiers),
    Home,
    End,
    PageUp,
    PageDown,
    Up(KeyModifiers),
    Down(KeyModifiers),
    Left(KeyModifiers),
    Right(KeyModifiers),
    Char(char, KeyModifiers),
    /// Any key this library does not distinguish.
    Any,
}

} // verus!
