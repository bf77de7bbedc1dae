//! Keyboard and mouse events as the player sees them: the key that was
//! pressed with its modifier bits, and the kind and cell of a mouse event.

use vstd::prelude::*;

verus! {

/// No modifier held.
pub const MOD_NONE: u8 = 0;
/// Shift held.
pub const MOD_SHIFT: u8 = 1;
/// Control held.
pub const MOD_CONTROL: u8 = 2;
/// Alt held.
pub const MOD_ALT: u8 = 4;

/// The keys the player reacts to; every other key is `Other`.
#[derive(Debug, Clone, Copy, PartialEq, Eq, Structural)]
pub enum KeyCode {
    Char(char),
    Enter,
    Esc,
    Backspace,
    Tab,
    BackTab,
    Up,
    Down,
    Left,
    Right,
    Home,
    End,
    Delete,
    Other,
}

/// A key press: the key and the exact set of modifier bits held with it.
#[derive(Debug, Clone, Copy, PartialEq, Eq, Structural)]
pub struct KeyEvent {
    pub code: KeyCode,
    pub modifiers: u8,
}

impl KeyEvent {
    pub fn new(code: KeyCode, modifiers: u8) -> (k: KeyEvent)
        ensures
            k.code == code,
            k.modifiers == modifiers,
    {
        KeyEvent { code, modifiers }
    }
}

/// What a mouse event was.
#[derive(Debug, Clone, Copy, PartialEq, Eq, Structural)]
pub enum MouseKind {
    /// Left button pressed.
    Down,
    /// Left button released.
    Up,
    /// Moved with the left button held.
    Drag,
    /// Moved with no button held.
    Moved,
    ScrollDown,
    ScrollUp,
    Other,
}

/// A mouse event at a terminal cell.
#[derive(Debug, Clone, Copy, PartialEq, Eq, Structural)]
pub struct MouseEvent {
    pub kind: MouseKind,
    pub column: u16,
    pub row: u16,
}

/// The key is `c` typed as a character.
pub open spec fn is_char(k: KeyCode, c: char) -> bool {
    k == KeyCode::Char(c)
}

/// `j` or Down.
pub open spec fn is_down(k: KeyCode) -> bool {
    k == KeyCode::Char('j') || k == KeyCode::Down
}

/// `k` or Up.
pub open spec fn is_up(k: KeyCode) -> bool {
    k == KeyCode::Char('k') || k == KeyCode::Up
}

/// `g` or Home.
pub open spec fn is_home(k: KeyCode) -> bool {
    k == KeyCode::Char('g') || k == KeyCode::Home
}

/// `G` or End.
pub open spec fn is_end(k: KeyCode) -> bool {
    k == KeyCode::Char('G') || k == KeyCode::End
}

pub fn key_is_down(k: KeyCode) -> (r: bool)
    ensures
        r == is_down(k),
{
    match k {
        KeyCode::Char(c) => c == 'j',
        KeyCode::Down => true,
        _ => false,
    }
}

pub fn key_is_up(k: KeyCode) -> (r: bool)
    ensures
        r == is_up(k),
{
    match k {
        KeyCode::Char(c) => c == 'k',
        KeyCode::Up => true,
        _ => false,
    }
}

pub fn key_is_home(k: KeyCode) -> (r: bool)
    ensures
        r == is_home(k),
{
    match k {
        KeyCode::Char(c) => c == 'g',
        KeyCode::Home => true,
        _ => false,
    }
}

pub fn key_is_end(k: KeyCode) -> (r: bool)
    ensures
        r == is_end(k),
{
    match k {
        KeyCode::Char(c) => c == 'G',
        KeyCode::End => true,
        _ => false,
    }
}

pub fn key_is_char(k: KeyCode, c: char) -> (r: bool)
    ensures
        r == is_char(k, c),
{
    match k {
        KeyCode::Char(d) => d == c,
        _ => false,
    }
}

} // verus!
