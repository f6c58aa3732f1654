use vstd::prelude::*;

verus! {

/// The logical key that a key event carries.
#[derive(Clone, Copy, Debug, PartialEq, Eq, Structural)]
pub enum KeyCode {
    Char(char),
    Enter,
    Esc,
    Up,
    Down,
    Left,
    Right,
    Home,
    End,
    Backspace,
    Delete,
    Tab,
    /// Any key that neither the screens nor the text input act on.
    Other,
}

/// Whether a key went down, is held down, or went up.
#[derive(Clone, Copy, Debug, PartialEq, Eq, Structural)]
pub enum KeyEventKind {
    Press,
    Repeat,
    Release,
}

/// Modifier bits of a key event, in the terminal library's encoding.
pub const SHIFT: u8 = 1;
pub const CONTROL: u8 = 2;
pub const ALT: u8 = 4;

/// One keyboard event as the controller sees it.
#[derive(Clone, Copy, Debug, PartialEq, Eq, Structural)]
pub struct KeyEvent {
    pub code: KeyCode,
    /// A set of modifier bits (`SHIFT`, `CONTROL`, `ALT`, ...).
    pub modifiers: u8,
    pub kind: KeyEventKind,
}

impl KeyEvent {
    /// A key press without modifiers.
    pub fn press(code: KeyCode) -> (r: KeyEvent)
        ensures
            r == (KeyEvent { code, modifiers: 0, kind: KeyEventKind::Press }),
    {
        KeyEvent { code, modifiers: 0, kind: KeyEventKind::Press }
    }

    /// A key release without modifiers.
    pub fn release(code: KeyCode) -> (r: KeyEvent)
        ensures
            r == (KeyEvent { code, modifiers: 0, kind: KeyEventKind::Release }),
    {
        KeyEvent { code, modifiers: 0, kind: KeyEventKind::Release }
    }

    pub fn is_press(&self) -> (r: bool)
        ensures
            r == (self.kind == KeyEventKind::Press),
    {
        match self.kind {
            KeyEventKind::Press => true,
            _ => false,
        }
    }
}

} // verus!
