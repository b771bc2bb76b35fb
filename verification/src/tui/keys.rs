//! Keys the screens react to.

use vstd::prelude::*;

verus! {

/// A key press, as the screens see it.
#[derive(Debug, Clone, Copy, PartialEq, Eq, Structural)]
pub enum Key {
    Up,
    Down,
    Left,
    Right,
    Enter,
    Esc,
    Backspace,
    PageUp,
    PageDown,
    Char(char),
    Other,
}

/// Up, or `k`.
pub open spec fn is_up(k: Key) -> bool {
    k matches Key::Up || k == Key::Char('k')
}

/// Down, or `j`.
pub open spec fn is_down(k: Key) -> bool {
    k matches Key::Down || k == Key::Char('j')
}

/// Left, or `h`.
pub open spec fn is_left(k: Key) -> bool {
    k matches Key::Left || k == Key::Char('h')
}

/// Right, or `l`.
pub open spec fn is_right(k: Key) -> bool {
    k matches Key::Right || k == Key::Char('l')
}

/// Escape, or `q`.
pub open spec fn is_quit(k: Key) -> bool {
    k matches Key::Esc || k == Key::Char('q')
}

/// Up, or `k`.
pub fn key_up(k: Key) -> (b: bool)
    ensures
        b == is_up(k),
{
    match k {
        Key::Up => true,
        Key::Char(c) => c == 'k',
        _ => false,
    }
}

/// Down, or `j`.
pub fn key_down(k: Key) -> (b: bool)
    ensures
        b == is_down(k),
{
    match k {
        Key::Down => true,
        Key::Char(c) => c == 'j',
        _ => false,
    }
}

/// Left, or `h`.
pub fn key_left(k: Key) -> (b: bool)
    ensures
        b == is_left(k),
{
    match k {
        Key::Left => true,
        Key::Char(c) => c == 'h',
        _ => false,
    }
}

/// Right, or `l`.
pub fn key_right(k: Key) -> (b: bool)
    ensures
        b == is_right(k),
{
    match k {
        Key::Right => true,
        Key::Char(c) => c == 'l',
        _ => false,
    }
}

/// Escape, or `q`.
pub fn key_quit(k: Key) -> (b: bool)
    ensures
        b == is_quit(k),
{
    match k {
        Key::Esc => true,
        Key::Char(c) => c == 'q',
        _ => false,
    }
}

} // verus!
