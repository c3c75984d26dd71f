use vstd::prelude::*;

verus! {

/// The key that was pressed, as the terminal reports it.
#[derive(Clone, Copy, Debug, PartialEq, Eq, Structural)]
pub enum KeyCode {
    Backspace,
    Enter,
    Left,
    Right,
    Up,
    Down,
    Home,
    End,
    PageUp,
    PageDown,
    Tab,
    BackTab,
    Delete,
    Insert,
    F(u8),
    Char(char),
    Null,
    Esc,
    /// A lock, media or lone modifier key.
    Special,
}

/// One key-press: its code and the modifier bits held with it
/// (shift 1, control 2, alt 4, super 8, hyper 16, meta 32).
#[derive(Clone, Copy, Debug, PartialEq, Eq, Structural)]
pub struct KeyPress {
    pub code: KeyCode,
    pub modifiers: u8,
}

/// What travels from the event source to the application loop.
#[derive(Clone, Copy, Debug, PartialEq, Eq, Structural)]
pub enum Event<I> {
    Input(I),
    Tick,
}

/// The character whose key ends the loop.
pub const QUIT_CHAR: char = 'q';

/// A key-press ends the loop when its key is the quit character,
/// whatever modifiers are held.
pub open spec fn is_quit_key(k: KeyPress) -> bool {
    k.code == KeyCode::Char(QUIT_CHAR)
}

/// An event ends the loop when it is the input of a quit key.
pub open spec fn is_quit_event(e: Event<KeyPress>) -> bool {
    match e {
        Event::Input(k) => is_quit_key(k),
        Event::Tick => false,
    }
}

impl KeyPress {
    pub fn new(code: KeyCode, modifiers: u8) -> (r: KeyPress)
        ensures
            r.code == code,
            r.modifiers == modifiers,
    {
        KeyPress { code, modifiers }
    }

    pub fn is_quit(&self) -> (r: bool)
        ensures
            r == is_quit_key(*self),
    {
        match self.code {
            KeyCode::Char(c) => c == QUIT_CHAR,
            _ => false,
        }
    }
}

impl Event<KeyPress> {
    pub fn is_quit(&self) -> (r: bool)
        ensures
            r == is_quit_event(*self),
    {
        match self {
            Event::Input(k) => k.is_quit(),
            Event::Tick => false,
        }
    }
}

} // verus!
