//! Keyboard and mouse input, and the bytes a terminal expects for each key.

use vstd::prelude::*;
use crate::text::{ascii_lower, encode_utf8, to_ascii_lower, utf8_encode};

verus! {

/// A key on the keyboard.
#[derive(Debug, Clone, Copy, PartialEq, Eq, Structural)]
pub enum KeyCode {
    Backspace,
    Enter,
    Left,
    Right,
    Up,
    Down,
    Home,
    End,
    PageUp,
    PageDown,
    Tab,
    BackTab,
    Delete,
    Insert,
    /// A function key, `F(1)` to `F(12)` and beyond
    F(u8),
    /// A character key
    Char(char),
    Null,
    Esc,
    CapsLock,
    ScrollLock,
    NumLock,
    PrintScreen,
    Pause,
    Menu,
    KeypadBegin,
    /// A media key
    Media,
    /// A modifier key pressed on its own
    Modifier,
}

/// The modifier keys held with a key.
#[derive(Debug, Clone, Copy, PartialEq, Eq, Structural)]
pub struct KeyModifiers {
    pub shift: bool,
    pub control: bool,
    pub alt: bool,
    pub super_key: bool,
    pub hyper: bool,
    pub meta: bool,
}

impl KeyModifiers {
    /// No modifier.
    pub open spec fn none_spec() -> KeyModifiers {
        KeyModifiers {
            shift: false,
            control: false,
            alt: false,
            super_key: false,
            hyper: false,
            meta: false,
        }
    }

    /// No modifier.
    pub fn empty() -> (r: KeyModifiers)
        ensures
            r == KeyModifiers::none_spec(),
    {
        KeyModifiers {
            shift: false,
            control: false,
            alt: false,
            super_key: false,
            hyper: false,
            meta: false,
        }
    }

    /// Alt alone.
    pub fn alt() -> (r: KeyModifiers)
        ensures
            r == (KeyModifiers { alt: true, ..KeyModifiers::none_spec() }),
    {
        KeyModifiers { alt: true, ..KeyModifiers::empty() }
    }

    /// Control alone.
    pub fn control() -> (r: KeyModifiers)
        ensures
            r == (KeyModifiers { control: true, ..KeyModifiers::none_spec() }),
    {
        KeyModifiers { control: true, ..KeyModifiers::empty() }
    }

    /// Shift alone.
    pub fn shift() -> (r: KeyModifiers)
        ensures
            r == (KeyModifiers { shift: true, ..KeyModifiers::none_spec() }),
    {
        KeyModifiers { shift: true, ..KeyModifiers::empty() }
    }
}

/// A key press: the key and the modifiers held with it.
#[derive(Debug, Clone, Copy, PartialEq, Eq, Structural)]
pub struct KeyEvent {
    pub code: KeyCode,
    pub modifiers: KeyModifiers,
}

impl KeyEvent {
    /// The press of `code` with `modifiers`.
    pub fn new(code: KeyCode, modifiers: KeyModifiers) -> (r: KeyEvent)
        ensures
            r == (KeyEvent { code, modifiers }),
    {
        KeyEvent { code, modifiers }
    }
}

/// The control code for Ctrl held with `c`: the low byte of the lower-cased
/// character minus 96, wrapping (so `a` to `z` give 1 to 26).
pub open spec fn ctrl_byte(c: char) -> u8 {
    (((ascii_lower(c) as u32) % 256 + 256 - 96) % 256) as u8
}

/// The escape sequence of a function key; none beyond F12.
pub open spec fn function_key_bytes(n: u8) -> Seq<u8> {
    if n == 1 {
        seq![27u8, 79, 80]
    } else if n == 2 {
        seq![27u8, 79, 81]
    } else if n == 3 {
        seq![27u8, 79, 82]
    } else if n == 4 {
        seq![27u8, 79, 83]
    } else if n == 5 {
        seq![27u8, 91, 49, 53, 126]
    } else if n == 6 {
        seq![27u8, 91, 49, 55, 126]
    } else if n == 7 {
        seq![27u8, 91, 49, 56, 126]
    } else if n == 8 {
        seq![27u8, 91, 49, 57, 126]
    } else if n == 9 {
        seq![27u8, 91, 50, 48, 126]
    } else if n == 10 {
        seq![27u8, 91, 50, 49, 126]
    } else if n == 11 {
        seq![27u8, 91, 50, 51, 126]
    } else if n == 12 {
        seq![27u8, 91, 50, 52, 126]
    } else {
        Seq::empty()
    }
}

/// The bytes a terminal expects for a key press: a character as UTF-8 (or its
/// control code with Ctrl), the usual control characters, and the xterm escape
/// sequences for cursor, navigation and function keys; nothing for other keys.
pub open spec fn key_bytes(key: KeyEvent) -> Seq<u8> {
    match key.code {
        KeyCode::Char(c) => if key.modifiers.control {
            seq![ctrl_byte(c)]
        } else {
            utf8_encode(c)
        },
        KeyCode::Enter => seq![13u8],
        KeyCode::Backspace => seq![127u8],
        KeyCode::Tab => seq![9u8],
        KeyCode::Esc => seq![27u8],
        KeyCode::Up => seq![27u8, 91, 65],
        KeyCode::Down => seq![27u8, 91, 66],
        KeyCode::Right => seq![27u8, 91, 67],
        KeyCode::Left => seq![27u8, 91, 68],
        KeyCode::Home => seq![27u8, 91, 72],
        KeyCode::End => seq![27u8, 91, 70],
        KeyCode::PageUp => seq![27u8, 91, 53, 126],
        KeyCode::PageDown => seq![27u8, 91, 54, 126],
        KeyCode::Delete => seq![27u8, 91, 51, 126],
        KeyCode::Insert => seq![27u8, 91, 50, 126],
        KeyCode::F(n) => function_key_bytes(n),
        _ => Seq::empty(),
    }
}

fn function_key_vec(n: u8) -> (r: Vec<u8>)
    ensures
        r@ == function_key_bytes(n),
{
    let r = if n == 1 {
        vec![27u8, 79, 80]
    } else if n == 2 {
        vec![27u8, 79, 81]
    } else if n == 3 {
        vec![27u8, 79, 82]
    } else if n == 4 {
        vec![27u8, 79, 83]
    } else if n == 5 {
        vec![27u8, 91, 49, 53, 126]
    } else if n == 6 {
        vec![27u8, 91, 49, 55, 126]
    } else if n == 7 {
        vec![27u8, 91, 49, 56, 126]
    } else if n == 8 {
        vec![27u8, 91, 49, 57, 126]
    } else if n == 9 {
        vec![27u8, 91, 50, 48, 126]
    } else if n == 10 {
        vec![27u8, 91, 50, 49, 126]
    } else if n == 11 {
        vec![27u8, 91, 50, 51, 126]
    } else if n == 12 {
        vec![27u8, 91, 50, 52, 126]
    } else {
        Vec::new()
    };
    assert(r@ =~= function_key_bytes(n));
    r
}

/// Converts a key press to terminal bytes (see [`key_bytes`]).
pub fn key_to_bytes(key: &KeyEvent) -> (r: Vec<u8>)
    ensures
        r@ == key_bytes(*key),
{
    let r = match key.code {
        KeyCode::Char(c) => {
            if key.modifiers.control {
                let lower = to_ascii_lower(c);
                let low_byte = ((lower as u32) % 256) as u8;
                vec![low_byte.wrapping_sub(96)]
            } else {
                encode_utf8(c)
            }
        },
        KeyCode::Enter => vec![13u8],
        KeyCode::Backspace => vec![127u8],
        KeyCode::Tab => vec![9u8],
        KeyCode::Esc => vec![27u8],
        KeyCode::Up => vec![27u8, 91, 65],
        KeyCode::Down => vec![27u8, 91, 66],
        KeyCode::Right => vec![27u8, 91, 67],
        KeyCode::Left => vec![27u8, 91, 68],
        KeyCode::Home => vec![27u8, 91, 72],
        KeyCode::End => vec![27u8, 91, 70],
        KeyCode::PageUp => vec![27u8, 91, 53, 126],
        KeyCode::PageDown => vec![27u8, 91, 54, 126],
        KeyCode::Delete => vec![27u8, 91, 51, 126],
        KeyCode::Insert => vec![27u8, 91, 50, 126],
        KeyCode::F(n) => function_key_vec(n),
        _ => Vec::new(),
    };
    assert(r@ =~= key_bytes(*key));
    r
}

} // verus!

verus! {

/// A mouse button.
#[derive(Debug, Clone, Copy, PartialEq, Eq, Structural)]
pub enum MouseButton {
    Left,
    Right,
    Middle,
}

/// What the mouse did.
#[derive(Debug, Clone, Copy, PartialEq, Eq, Structural)]
pub enum MouseEventKind {
    Down(MouseButton),
    Up(MouseButton),
    Drag(MouseButton),
    Moved,
    ScrollDown,
    ScrollUp,
    ScrollLeft,
    ScrollRight,
}

/// A mouse event at a terminal cell.
#[derive(Debug, Clone, Copy, PartialEq, Eq, Structural)]
pub struct MouseEvent {
    pub kind: MouseEventKind,
    pub column: u16,
    pub row: u16,
    pub modifiers: KeyModifiers,
}

} // verus!

verus! {

/// Ctrl with a letter gives the control codes 1 to 26, whatever the case of
/// the letter.
pub proof fn lemma_ctrl_letter_codes(c: char)
    requires
        ('a' <= c <= 'z') || ('A' <= c <= 'Z'),
    ensures
        1 <= ctrl_byte(c) <= 26,
        ctrl_byte(c) == ctrl_byte(ascii_lower(c)),
{
    if 'A' <= c <= 'Z' {
        assert((c as u32) + 32 <= 'z' as u32);
        assert(ascii_lower(c) as u32 == c as u32 + 32);
    }
}

} // verus!
