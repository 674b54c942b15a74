use vstd::prelude::*;

verus! {

/// A key of the keyboard, as the editor sees it.
#[derive(Clone, Copy, Debug, PartialEq, Eq, Structural)]
pub enum KeyCode {
    Backspace,
    Enter,
    Left,
    Right,
    Up,
    Down,
    Home,
    End,
    PageUp,
    PageDown,
    Tab,
    BackTab,
    Delete,
    Insert,
    F(u8),
    Char(char),
    Null,
    Esc,
}

/// The modifier keys held down with a key.
#[derive(Clone, Copy, Debug, PartialEq, Eq, Structural)]
pub struct KeyModifiers {
    pub shift: bool,
    pub control: bool,
    pub alt: bool,
}

impl KeyModifiers {
    /// No modifier held.
    pub open spec fn is_none(self) -> bool {
        !self.shift && !self.control && !self.alt
    }

    /// Control held, and nothing else.
    pub open spec fn is_control_only(self) -> bool {
        !self.shift && self.control && !self.alt
    }

    /// No modifier.
    pub fn none() -> (m: KeyModifiers)
        ensures
            m.is_none(),
    {
        KeyModifiers { shift: false, control: false, alt: false }
    }

    /// Control alone.
    pub fn control_only() -> (m: KeyModifiers)
        ensures
            m.is_control_only(),
    {
        KeyModifiers { shift: false, control: true, alt: false }
    }
}

/// A key press with its modifiers.
#[derive(Clone, Copy, Debug, PartialEq, Eq, Structural)]
pub struct KeyEvent {
    pub code: KeyCode,
    pub modifiers: KeyModifiers,
}

/// A terminal event.
#[derive(Clone, Copy, Debug, PartialEq, Eq, Structural)]
pub enum Event {
    FocusGained,
    FocusLost,
    Key(KeyEvent),
    Mouse,
    Paste,
    Resize(u16, u16),
}

impl KeyEvent {
    /// The key pressed with no modifier.
    pub open spec fn is_plain(self, code: KeyCode) -> bool {
        self.code == code && self.modifiers.is_none()
    }

    /// The character key pressed with control and nothing else.
    pub open spec fn is_ctrl(self, c: char) -> bool {
        self.code == KeyCode::Char(c) && self.modifiers.is_control_only()
    }

    /// Whether this is `code` pressed with no modifier.
    pub fn plain(&self, code: KeyCode) -> (b: bool)
        ensures
            b == self.is_plain(code),
    {
        let same = match (self.code, code) {
            (KeyCode::Backspace, KeyCode::Backspace) => true,
            (KeyCode::Enter, KeyCode::Enter) => true,
            (KeyCode::Left, KeyCode::Left) => true,
            (KeyCode::Right, KeyCode::Right) => true,
            (KeyCode::Up, KeyCode::Up) => true,
            (KeyCode::Down, KeyCode::Down) => true,
            (KeyCode::Home, KeyCode::Home) => true,
            (KeyCode::End, KeyCode::End) => true,
            (KeyCode::PageUp, KeyCode::PageUp) => true,
            (KeyCode::PageDown, KeyCode::PageDown) => true,
            (KeyCode::Tab, KeyCode::Tab) => true,
            (KeyCode::BackTab, KeyCode::BackTab) => true,
            (KeyCode::Delete, KeyCode::Delete) => true,
            (KeyCode::Insert, KeyCode::Insert) => true,
            (KeyCode::F(a), KeyCode::F(b)) => a == b,
            (KeyCode::Char(a), KeyCode::Char(b)) => a == b,
            (KeyCode::Null, KeyCode::Null) => true,
            (KeyCode::Esc, KeyCode::Esc) => true,
            _ => false,
        };
        same && !self.modifiers.shift && !self.modifiers.control && !self.modifiers.alt
    }

    /// Whether this is the character `c` pressed with control alone.
    pub fn ctrl(&self, c: char) -> (b: bool)
        ensures
            b == self.is_ctrl(c),
    {
        let same = match self.code {
            KeyCode::Char(d) => d == c,
            _ => false,
        };
        same && !self.modifiers.shift && self.modifiers.control && !self.modifiers.alt
    }
}

} // verus!
