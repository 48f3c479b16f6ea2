//! Terminal input events, as plain values.
use vstd::prelude::*;

verus! {

/// The key that was pressed.
#[derive(Clone, Copy, Debug, PartialEq, Eq, Structural)]
pub enum KeyCode {
    Char(char),
    Backspace,
    Enter,
    Esc,
    Left,
    Right,
    Up,
    Down,
    Tab,
    Other,
}

/// The modifier keys held: none at all, exactly Control, or any other combination.
#[derive(Clone, Copy, Debug, PartialEq, Eq, Structural)]
pub enum Modifiers {
    NoModifier,
    ControlOnly,
    Other,
}

/// A key press.
#[derive(Clone, Copy, Debug, PartialEq, Eq, Structural)]
pub struct KeyEvent {
    pub code: KeyCode,
    pub modifiers: Modifiers,
}

/// What the event loop hands to the application on each turn.
#[derive(Clone, Copy)]
pub enum AppEvent {
    Key(KeyEvent),
    Tick,
}

/// `q` or `Esc` without modifiers, or `Ctrl+C`.
pub open spec fn is_quit_spec(key: KeyEvent) -> bool {
    ||| key.code == KeyCode::Char('q') && key.modifiers == Modifiers::NoModifier
    ||| key.code == KeyCode::Char('c') && key.modifiers == Modifiers::ControlOnly
    ||| key.code == KeyCode::Esc && key.modifiers == Modifiers::NoModifier
}

/// Whether `key` asks to quit.
pub fn is_quit(key: &KeyEvent) -> (b: bool)
    ensures
        b == is_quit_spec(*key),
{
    match (key.code, key.modifiers) {
        (KeyCode::Char('q'), Modifiers::NoModifier) => true,
        (KeyCode::Char('c'), Modifiers::ControlOnly) => true,
        (KeyCode::Esc, Modifiers::NoModifier) => true,
        _ => false,
    }
}

} // verus!
