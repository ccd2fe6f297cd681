use vstd::prelude::*;

verus! {

/// A physical key, named by its label on a US layout.
#[derive(Clone, Copy, Debug, PartialEq, Eq, Structural)]
pub enum Key {
    /// Letter key `n` of the alphabet, `n < 26` (0 is A).
    Letter(u8),
    /// Digit key `n` of the number row, `n < 10`.
    Number(u8),
    Space,
    Comma,
    Period,
    Slash,
    Minus,
    Backslash,
    RightBracket,
    Backspace,
    Left,
    Right,
    Return,
    Other,
}

/// The letter that letter key `n` types: the layout swaps Y and Z.
pub open spec fn letter_offset(n: u8) -> u8 {
    if n == 25 {
        24
    } else if n == 24 {
        25
    } else {
        n
    }
}

/// The character that `key` types, with or without shift; `None` for keys
/// that type nothing.
pub open spec fn symbol_of(key: Key, shift: bool) -> Option<char> {
    match key {
        Key::Letter(n) => if n < 26 {
            Some(((if shift { 65u8 } else { 97u8 }) + letter_offset(n)) as u8 as char)
        } else {
            None
        },
        Key::Number(n) => if n >= 10 {
            None
        } else if !shift {
            Some((48u8 + n) as u8 as char)
        } else if n == 1 {
            Some('!')
        } else if n == 2 {
            Some('"')
        } else if n == 7 {
            Some('/')
        } else if n == 8 {
            Some('(')
        } else if n == 9 {
            Some(')')
        } else if n == 0 {
            Some('=')
        } else {
            None
        },
        Key::Space => Some(' '),
        Key::Comma => if shift { None } else { Some(',') },
        Key::Period => if shift { Some(':') } else { Some('.') },
        Key::Slash => if shift { None } else { Some('-') },
        Key::Minus => if shift { Some('?') } else { None },
        Key::Backslash => if shift { Some('\'') } else { None },
        Key::RightBracket => if shift { Some('*') } else { Some('+') },
        _ => None,
    }
}

/// Maps a key press to the character it types, if any.
pub fn resolve_symbol(key: Key, shift: bool) -> (r: Option<char>)
    ensures
        r == symbol_of(key, shift),
{
    match key {
        Key::Letter(n) => {
            if n < 26 {
                let offset: u8 = if n == 25 {
                    24
                } else if n == 24 {
                    25
                } else {
                    n
                };
                let base: u8 = if shift { 65 } else { 97 };
                Some((base + offset) as char)
            } else {
                None
            }
        },
        Key::Number(n) => {
            if n >= 10 {
                None
            } else if !shift {
                Some((48u8 + n) as char)
            } else if n == 1 {
                Some('!')
            } else if n == 2 {
                Some('"')
            } else if n == 7 {
                Some('/')
            } else if n == 8 {
                Some('(')
            } else if n == 9 {
                Some(')')
            } else if n == 0 {
                Some('=')
            } else {
                None
            }
        },
        Key::Space => Some(' '),
        Key::Comma => if shift { None } else { Some(',') },
        Key::Period => if shift { Some(':') } else { Some('.') },
        Key::Slash => if shift { None } else { Some('-') },
        Key::Minus => if shift { Some('?') } else { None },
        Key::Backslash => if shift { Some('\'') } else { None },
        Key::RightBracket => if shift { Some('*') } else { Some('+') },
        _ => None,
    }
}

} // verus!
