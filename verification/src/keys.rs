//! The keyboard surface: which key asks for which operation.

use vstd::prelude::*;

verus! {

/// A key press, as far as the session tells keys apart.
#[derive(Clone, Copy, Debug, PartialEq, Eq, Structural)]
pub enum Key {
    /// A function key, by its number.
    F(u8),
    Up,
    Down,
    Left,
    Right,
    /// A key that types a character.
    Char(char),
    /// Any other key.
    Other,
}

/// What the user asks the session to do.
#[derive(Clone, Copy, Debug, PartialEq, Eq, Structural)]
pub enum Intent {
    VolumeUp,
    VolumeDown,
    PrevStation,
    NextStation,
    ToggleMute,
    Quit,
}

/// The operation bound to a key, if any. `ctrl` says whether the control
/// modifier was held.
///
/// | keys | operation |
/// |---|---|
/// | F11, Up | volume up |
/// | F10, Down | volume down |
/// | F7, Left | previous station |
/// | F9, Right | next station |
/// | F8, F12, `m`, `M` | mute toggle |
/// | `q`, `Q`, control with `c` | quit |
pub open spec fn bound_intent(key: Key, ctrl: bool) -> Option<Intent> {
    match key {
        Key::F(n) => if n == 11 {
            Some(Intent::VolumeUp)
        } else if n == 10 {
            Some(Intent::VolumeDown)
        } else if n == 7 {
            Some(Intent::PrevStation)
        } else if n == 9 {
            Some(Intent::NextStation)
        } else if n == 8 || n == 12 {
            Some(Intent::ToggleMute)
        } else {
            None
        },
        Key::Up => Some(Intent::VolumeUp),
        Key::Down => Some(Intent::VolumeDown),
        Key::Left => Some(Intent::PrevStation),
        Key::Right => Some(Intent::NextStation),
        Key::Char(c) => if c == 'm' || c == 'M' {
            Some(Intent::ToggleMute)
        } else if c == 'q' || c == 'Q' {
            Some(Intent::Quit)
        } else if c == 'c' && ctrl {
            Some(Intent::Quit)
        } else {
            None
        },
        Key::Other => None,
    }
}

/// Looks up the operation bound to a key.
pub fn intent_for_key(key: Key, ctrl: bool) -> (r: Option<Intent>)
    ensures
        r == bound_intent(key, ctrl),
{
    match key {
        Key::F(11) | Key::Up => Some(Intent::VolumeUp),
        Key::F(10) | Key::Down => Some(Intent::VolumeDown),
        Key::F(7) | Key::Left => Some(Intent::PrevStation),
        Key::F(9) | Key::Right => Some(Intent::NextStation),
        Key::F(8) | Key::F(12) | Key::Char('m') | Key::Char('M') => Some(Intent::ToggleMute),
        Key::Char('q') | Key::Char('Q') => Some(Intent::Quit),
        Key::Char('c') => if ctrl {
            Some(Intent::Quit)
        } else {
            None
        },
        _ => None,
    }
}

} // verus!
