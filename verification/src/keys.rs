//! Keys, and the Windows virtual key codes by which the browser knows them.
use vstd::prelude::*;

verus! {

/// A key without a character that has a virtual key code here, or any other.
#[derive(Clone, Copy, Debug, PartialEq, Eq, Structural)]
pub enum NamedKey {
    Backspace,
    Tab,
    Enter,
    Shift,
    Control,
    Alt,
    Escape,
    PageUp,
    PageDown,
    End,
    Home,
    ArrowLeft,
    ArrowUp,
    ArrowRight,
    ArrowDown,
    Delete,
    F1,
    F2,
    F3,
    F4,
    F5,
    F6,
    F7,
    F8,
    F9,
    F10,
    F11,
    F12,
    Other,
}

/// The meaning of a key press under the current layout.
#[derive(Debug)]
pub enum Key {
    /// A key that yields text.
    Character(String),
    Named(NamedKey),
    /// A dead key, or one that the window system does not know.
    Unidentified,
}

/// The number of a character, letters of the ASCII range in upper case.
pub open spec fn upper_case_scalar(c: char) -> int {
    let scalar = c as int;
    if 'a' as int <= scalar <= 'z' as int {
        scalar - ('a' as int - 'A' as int)
    } else {
        scalar
    }
}

/// The virtual key code of a named key; zero for those without one here.
pub open spec fn named_key_code(key: NamedKey) -> int {
    match key {
        NamedKey::Backspace => 0x08,
        NamedKey::Tab => 0x09,
        NamedKey::Enter => 0x0d,
        NamedKey::Shift => 0x10,
        NamedKey::Control => 0x11,
        NamedKey::Alt => 0x12,
        NamedKey::Escape => 0x1b,
        NamedKey::PageUp => 0x21,
        NamedKey::PageDown => 0x22,
        NamedKey::End => 0x23,
        NamedKey::Home => 0x24,
        NamedKey::ArrowLeft => 0x25,
        NamedKey::ArrowUp => 0x26,
        NamedKey::ArrowRight => 0x27,
        NamedKey::ArrowDown => 0x28,
        NamedKey::Delete => 0x2e,
        NamedKey::F1 => 0x70,
        NamedKey::F2 => 0x71,
        NamedKey::F3 => 0x72,
        NamedKey::F4 => 0x73,
        NamedKey::F5 => 0x74,
        NamedKey::F6 => 0x75,
        NamedKey::F7 => 0x76,
        NamedKey::F8 => 0x77,
        NamedKey::F9 => 0x78,
        NamedKey::F10 => 0x79,
        NamedKey::F11 => 0x7a,
        NamedKey::F12 => 0x7b,
        NamedKey::Other => 0,
    }
}

/// The virtual key code of a key. A key that yields text has the number of its
/// first character.
pub open spec fn key_code(key: Key) -> int {
    match key {
        Key::Character(text) => if text@.len() == 0 {
            0
        } else {
            upper_case_scalar(text@[0])
        },
        Key::Named(named) => named_key_code(named),
        Key::Unidentified => 0,
    }
}

/// The number of a character, letters of the ASCII range in upper case.
fn ascii_upper_case(c: char) -> (scalar: i32)
    ensures
        scalar == upper_case_scalar(c),
{
    let scalar: u32 = c as u32;
    if 0x61 <= scalar && scalar <= 0x7a {
        (scalar - 0x20) as i32
    } else {
        scalar as i32
    }
}

/// The virtual key code of a key.
pub fn windows_key_code(key: &Key) -> (code: i32)
    ensures
        code == key_code(*key),
{
    match key {
        Key::Character(text) => {
            let mut characters = text.as_str().chars();
            match characters.next() {
                Some(character) => ascii_upper_case(character),
                None => 0,
            }
        },
        Key::Named(named) => match named {
            NamedKey::Backspace => 0x08,
            NamedKey::Tab => 0x09,
            NamedKey::Enter => 0x0d,
            NamedKey::Shift => 0x10,
            NamedKey::Control => 0x11,
            NamedKey::Alt => 0x12,
            NamedKey::Escape => 0x1b,
            NamedKey::PageUp => 0x21,
            NamedKey::PageDown => 0x22,
            NamedKey::End => 0x23,
            NamedKey::Home => 0x24,
            NamedKey::ArrowLeft => 0x25,
            NamedKey::ArrowUp => 0x26,
            NamedKey::ArrowRight => 0x27,
            NamedKey::ArrowDown => 0x28,
            NamedKey::Delete => 0x2e,
            NamedKey::F1 => 0x70,
            NamedKey::F2 => 0x71,
            NamedKey::F3 => 0x72,
            NamedKey::F4 => 0x73,
            NamedKey::F5 => 0x74,
            NamedKey::F6 => 0x75,
            NamedKey::F7 => 0x76,
            NamedKey::F8 => 0x77,
            NamedKey::F9 => 0x78,
            NamedKey::F10 => 0x79,
            NamedKey::F11 => 0x7a,
            NamedKey::F12 => 0x7b,
            NamedKey::Other => 0,
        },
        Key::Unidentified => 0,
    }
}

/// A key that yields text has the number of its first character as its code. An
/// ASCII letter has the same code in either case, that of its capital; every
/// other character has its own number. What follows the first character does not
/// matter, and a key without text has no code.
pub proof fn law_character_keys_have_their_number(text: String)
    ensures
        text@.len() == 0 ==> key_code(Key::Character(text)) == 0,
        text@.len() > 0 ==> {
            let scalar = text@[0] as int;
            let code = key_code(Key::Character(text));
            &&& !(0x61 <= scalar <= 0x7a) ==> code == scalar
            &&& 0x61 <= scalar <= 0x7a ==> code == scalar - 0x20
        },
        key_code(Key::Unidentified) == 0,
{
}

proof fn lemma_character_range(c: char)
    ensures
        0 <= c as int <= 0x10_ffff,
{
}

/// The code of a key fits in twenty-one bits, as every character does.
pub proof fn law_key_codes_are_small(key: Key)
    ensures
        0 <= key_code(key) <= 0x10_ffff,
{
    if let Key::Character(text) = key {
        if text@.len() > 0 {
            lemma_character_range(text@[0]);
        }
    }
}

/// The named keys have the virtual key codes of Windows: the function keys, the
/// keys that page and the arrows are numbered in a row, and no two keys share a
/// code.
pub proof fn law_named_keys_are_told_apart(a: NamedKey, b: NamedKey)
    ensures
        a != NamedKey::Other ==> key_code(Key::Named(a)) > 0,
        key_code(Key::Named(NamedKey::Other)) == 0,
        a != b ==> key_code(Key::Named(a)) != key_code(Key::Named(b)),
        ({
            let code = |key: NamedKey| key_code(Key::Named(key));
            &&& code(NamedKey::F1) == 0x70 && code(NamedKey::F2) == 0x71 && code(NamedKey::F3)
                == 0x72 && code(NamedKey::F4) == 0x73 && code(NamedKey::F5) == 0x74
            &&& code(NamedKey::F6) == 0x75 && code(NamedKey::F7) == 0x76 && code(NamedKey::F8)
                == 0x77 && code(NamedKey::F9) == 0x78 && code(NamedKey::F10) == 0x79
            &&& code(NamedKey::F11) == 0x7a && code(NamedKey::F12) == 0x7b
            &&& code(NamedKey::ArrowLeft) == 0x25 && code(NamedKey::ArrowUp) == 0x26
            &&& code(NamedKey::ArrowRight) == 0x27 && code(NamedKey::ArrowDown) == 0x28
            &&& code(NamedKey::PageUp) == 0x21 && code(NamedKey::PageDown) == 0x22
            &&& code(NamedKey::End) == 0x23 && code(NamedKey::Home) == 0x24
            &&& code(NamedKey::Backspace) == 0x08 && code(NamedKey::Tab) == 0x09
            &&& code(NamedKey::Enter) == 0x0d && code(NamedKey::Escape) == 0x1b
            &&& code(NamedKey::Shift) == 0x10 && code(NamedKey::Control) == 0x11
            &&& code(NamedKey::Alt) == 0x12 && code(NamedKey::Delete) == 0x2e
        }),
{
}

} // verus!
