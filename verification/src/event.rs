//! What the terminal reports, as far as the view reacts to it.
//!
//! A key is told apart only as a character or as something else; of the
//! other events nothing is kept but that they happened.

use vstd::prelude::*;
use vstd::std_specs::convert::FromSpecImpl;

verus! {

/// Which key an event is about.
#[derive(Debug, Clone, Copy, PartialEq, Eq, Structural)]
pub enum KeyCode {
    /// A key that types this character.
    Char(char),
    /// Any key that types no character: an arrow, a function key, escape.
    Other,
}

/// What happened to the key.
#[derive(Debug, Clone, Copy, PartialEq, Eq, Structural)]
pub enum KeyEventKind {
    Press,
    Repeat,
    Release,
}

/// One event of the keyboard.
#[derive(Debug, Clone, Copy, PartialEq, Eq, Structural)]
pub struct KeyEvent {
    pub code: KeyCode,
    pub kind: KeyEventKind,
}

impl KeyEvent {
    /// The press of the key `code`.
    pub fn new(code: KeyCode) -> (event: Self)
        ensures
            event == (KeyEvent { code, kind: KeyEventKind::Press }),
    {
        KeyEvent { code, kind: KeyEventKind::Press }
    }
}

impl From<KeyCode> for KeyEvent {
    /// The press of the key `code`.
    fn from(code: KeyCode) -> (event: Self) {
        KeyEvent::new(code)
    }
}

impl FromSpecImpl<KeyCode> for KeyEvent {
    open spec fn obeys_from_spec() -> bool {
        true
    }

    open spec fn from_spec(code: KeyCode) -> Self {
        KeyEvent { code, kind: KeyEventKind::Press }
    }
}

/// One event of the terminal.
#[derive(Debug, Clone, Copy, PartialEq, Eq, Structural)]
pub enum Event {
    /// The keyboard reported `KeyEvent`.
    Key(KeyEvent),
    /// Anything else: focus, mouse, paste, a new size.
    Other,
}

} // verus!
