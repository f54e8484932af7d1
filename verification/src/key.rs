//! Keys as the handlers see them, and the classes of keys that move a cursor.

use vstd::prelude::*;

verus! {

/// A key press, as delivered by the terminal.
#[derive(Clone, Copy, Debug, PartialEq, Eq, Structural)]
pub enum Key {
    Backspace,
    Left,
    Right,
    Up,
    Down,
    Home,
    End,
    PageUp,
    PageDown,
    BackTab,
    Delete,
    Insert,
    F(u8),
    Char(char),
    Alt(char),
    Ctrl(char),
    Null,
    Esc,
}

/// The keys that move a cursor down: the down arrow, `j` and Ctrl-n.
pub open spec fn is_down(key: Key) -> bool {
    key == Key::Down || key == Key::Char('j') || key == Key::Ctrl('n')
}

/// The keys that move a cursor up: the up arrow, `k` and Ctrl-p.
pub open spec fn is_up(key: Key) -> bool {
    key == Key::Up || key == Key::Char('k') || key == Key::Ctrl('p')
}

/// The keys that move a cursor left: the left arrow and `h`.
pub open spec fn is_left(key: Key) -> bool {
    key == Key::Left || key == Key::Char('h')
}

/// The keys that move a cursor right: the right arrow and `l`.
pub open spec fn is_right(key: Key) -> bool {
    key == Key::Right || key == Key::Char('l')
}

/// The keys that end the event loop: `q` and Ctrl-c.
pub open spec fn is_quit(key: Key) -> bool {
    key == Key::Char('q') || key == Key::Ctrl('c')
}

/// The Enter key, which arrives as a line feed.
pub open spec fn is_enter(key: Key) -> bool {
    key == Key::Char('\n')
}

/// Whether `key` moves a cursor down.
pub fn down_event(key: Key) -> (r: bool)
    ensures
        r == is_down(key),
{
    match key {
        Key::Down => true,
        Key::Char(c) => c == 'j',
        Key::Ctrl(c) => c == 'n',
        _ => false,
    }
}

/// Whether `key` moves a cursor up.
pub fn up_event(key: Key) -> (r: bool)
    ensures
        r == is_up(key),
{
    match key {
        Key::Up => true,
        Key::Char(c) => c == 'k',
        Key::Ctrl(c) => c == 'p',
        _ => false,
    }
}

/// Whether `key` moves a cursor left.
pub fn left_event(key: Key) -> (r: bool)
    ensures
        r == is_left(key),
{
    match key {
        Key::Left => true,
        Key::Char(c) => c == 'h',
        _ => false,
    }
}

/// Whether `key` moves a cursor right.
pub fn right_event(key: Key) -> (r: bool)
    ensures
        r == is_right(key),
{
    match key {
        Key::Right => true,
        Key::Char(c) => c == 'l',
        _ => false,
    }
}

/// Whether `key` ends the event loop.
pub fn quit_event(key: Key) -> (r: bool)
    ensures
        r == is_quit(key),
{
    match key {
        Key::Char(c) => c == 'q',
        Key::Ctrl(c) => c == 'c',
        _ => false,
    }
}

/// Whether `key` is the plain character `c`.
pub fn char_event(key: Key, c: char) -> (r: bool)
    ensures
        r == (key == Key::Char(c)),
{
    match key {
        Key::Char(k) => k == c,
        _ => false,
    }
}

/// The cursor classes and the quit keys share no key, so the order in which
/// a handler tests them does not matter.
pub proof fn key_classes_disjoint(key: Key)
    ensures
        !(is_down(key) && is_up(key)),
        !(is_left(key) && is_right(key)),
        (is_down(key) || is_up(key)) ==> !(is_left(key) || is_right(key)),
        is_quit(key) ==> !(is_down(key) || is_up(key) || is_left(key) || is_right(key)),
        is_enter(key) ==> !(is_quit(key) || is_down(key) || is_up(key) || is_left(key)
            || is_right(key)),
{
}

} // verus!
