//! Keys: host key codes, the sixteen keys of the CHIP-8 keypad, and the
//! mapping between them and 4-bit key values.

use vstd::prelude::*;

verus! {

/// A key as reported by a host keyboard.
#[derive(Debug, Clone, Copy, PartialEq, Eq, Structural)]
pub enum KeyCode {
    Backspace,
    Enter,
    Left,
    Right,
    Up,
    Down,
    Home,
    End,
    PageUp,
    PageDown,
    Tab,
    BackTab,
    Delete,
    Insert,
    /// A function key: `F(1)` is F1.
    F(u8),
    /// A character key.
    Char(char),
    Null,
    Esc,
}

/// One of the sixteen keys of the CHIP-8 keypad, named after its value.
#[derive(Debug, Clone, Copy, PartialEq, Eq, Structural)]
pub enum ChipKey {
    Zero,
    One,
    Two,
    Three,
    Four,
    Five,
    Six,
    Seven,
    Eight,
    Nine,
    A,
    B,
    C,
    D,
    E,
    F,
}

/// The hexadecimal digit character (lower case) of a 4-bit value.
pub open spec fn hex_digit_char(n: u8) -> char {
    if n == 0 { '0' }
    else if n == 1 { '1' }
    else if n == 2 { '2' }
    else if n == 3 { '3' }
    else if n == 4 { '4' }
    else if n == 5 { '5' }
    else if n == 6 { '6' }
    else if n == 7 { '7' }
    else if n == 8 { '8' }
    else if n == 9 { '9' }
    else if n == 10 { 'a' }
    else if n == 11 { 'b' }
    else if n == 12 { 'c' }
    else if n == 13 { 'd' }
    else if n == 14 { 'e' }
    else { 'f' }
}

/// The value of a lower-case hexadecimal digit character, if it is one.
pub open spec fn hex_char_value(c: char) -> Option<u8> {
    if c == '0' { Some(0u8) }
    else if c == '1' { Some(1u8) }
    else if c == '2' { Some(2u8) }
    else if c == '3' { Some(3u8) }
    else if c == '4' { Some(4u8) }
    else if c == '5' { Some(5u8) }
    else if c == '6' { Some(6u8) }
    else if c == '7' { Some(7u8) }
    else if c == '8' { Some(8u8) }
    else if c == '9' { Some(9u8) }
    else if c == 'a' { Some(10u8) }
    else if c == 'b' { Some(11u8) }
    else if c == 'c' { Some(12u8) }
    else if c == 'd' { Some(13u8) }
    else if c == 'e' { Some(14u8) }
    else if c == 'f' { Some(15u8) }
    else { None }
}

/// The 4-bit value that a host key stands for: its hexadecimal digit, or 0xF
/// for any key that is not one.
pub open spec fn key_value(key: KeyCode) -> u8 {
    match key {
        KeyCode::Char(c) => match hex_char_value(c) {
            Some(n) => n,
            None => 0xf,
        },
        _ => 0xf,
    }
}

/// The keypad key of a number: its own key below 16, the key F otherwise.
pub open spec fn key_of_value(n: int) -> ChipKey {
    if n == 0 { ChipKey::Zero }
    else if n == 1 { ChipKey::One }
    else if n == 2 { ChipKey::Two }
    else if n == 3 { ChipKey::Three }
    else if n == 4 { ChipKey::Four }
    else if n == 5 { ChipKey::Five }
    else if n == 6 { ChipKey::Six }
    else if n == 7 { ChipKey::Seven }
    else if n == 8 { ChipKey::Eight }
    else if n == 9 { ChipKey::Nine }
    else if n == 10 { ChipKey::A }
    else if n == 11 { ChipKey::B }
    else if n == 12 { ChipKey::C }
    else if n == 13 { ChipKey::D }
    else if n == 14 { ChipKey::E }
    else { ChipKey::F }
}

impl ChipKey {
    /// The 4-bit value of a keypad key.
    pub open spec fn value(self) -> u8 {
        match self {
            ChipKey::Zero => 0x0,
            ChipKey::One => 0x1,
            ChipKey::Two => 0x2,
            ChipKey::Three => 0x3,
            ChipKey::Four => 0x4,
            ChipKey::Five => 0x5,
            ChipKey::Six => 0x6,
            ChipKey::Seven => 0x7,
            ChipKey::Eight => 0x8,
            ChipKey::Nine => 0x9,
            ChipKey::A => 0xa,
            ChipKey::B => 0xb,
            ChipKey::C => 0xc,
            ChipKey::D => 0xd,
            ChipKey::E => 0xe,
            ChipKey::F => 0xf,
        }
    }

    /// The 4-bit value of this key.
    pub fn nibble(&self) -> (r: u8)
        ensures
            r == self.value(),
            r < 16,
    {
        match self {
            ChipKey::Zero => 0x0,
            ChipKey::One => 0x1,
            ChipKey::Two => 0x2,
            ChipKey::Three => 0x3,
            ChipKey::Four => 0x4,
            ChipKey::Five => 0x5,
            ChipKey::Six => 0x6,
            ChipKey::Seven => 0x7,
            ChipKey::Eight => 0x8,
            ChipKey::Nine => 0x9,
            ChipKey::A => 0xa,
            ChipKey::B => 0xb,
            ChipKey::C => 0xc,
            ChipKey::D => 0xd,
            ChipKey::E => 0xe,
            ChipKey::F => 0xf,
        }
    }
}

/// Any number is read as a keypad key: its own key when it is below 16,
/// the key F otherwise.
impl From<usize> for ChipKey {
    fn from(nibble: usize) -> (r: ChipKey) {
        match nibble {
            0x0 => ChipKey::Zero,
            0x1 => ChipKey::One,
            0x2 => ChipKey::Two,
            0x3 => ChipKey::Three,
            0x4 => ChipKey::Four,
            0x5 => ChipKey::Five,
            0x6 => ChipKey::Six,
            0x7 => ChipKey::Seven,
            0x8 => ChipKey::Eight,
            0x9 => ChipKey::Nine,
            0xA => ChipKey::A,
            0xB => ChipKey::B,
            0xC => ChipKey::C,
            0xD => ChipKey::D,
            0xE => ChipKey::E,
            _ => ChipKey::F,
        }
    }
}

impl vstd::std_specs::convert::FromSpecImpl<usize> for ChipKey {
    open spec fn obeys_from_spec() -> bool {
        true
    }

    open spec fn from_spec(nibble: usize) -> ChipKey {
        key_of_value(nibble as int)
    }
}

/// The host key of a 4-bit value: the character of its hexadecimal digit.
/// A value above 0xF gives the key of 0xF.
pub fn nibble_2_key(key_nibble: u8) -> (r: KeyCode)
    ensures
        r == KeyCode::Char(hex_digit_char(key_nibble)),
{
    match key_nibble {
        0x0 => KeyCode::Char('0'),
        0x1 => KeyCode::Char('1'),
        0x2 => KeyCode::Char('2'),
        0x3 => KeyCode::Char('3'),
        0x4 => KeyCode::Char('4'),
        0x5 => KeyCode::Char('5'),
        0x6 => KeyCode::Char('6'),
        0x7 => KeyCode::Char('7'),
        0x8 => KeyCode::Char('8'),
        0x9 => KeyCode::Char('9'),
        0xa => KeyCode::Char('a'),
        0xb => KeyCode::Char('b'),
        0xc => KeyCode::Char('c'),
        0xd => KeyCode::Char('d'),
        0xe => KeyCode::Char('e'),
        _ => KeyCode::Char('f'),
    }
}

/// The 4-bit value of a host key: its hexadecimal digit, or 0xF for a key
/// that is not a hexadecimal digit character.
pub fn key_2_nibble(key: KeyCode) -> (r: u8)
    ensures
        r == key_value(key),
        r < 16,
{
    match key {
        KeyCode::Char(x) => match x {
            '0' => 0x0,
            '1' => 0x1,
            '2' => 0x2,
            '3' => 0x3,
            '4' => 0x4,
            '5' => 0x5,
            '6' => 0x6,
            '7' => 0x7,
            '8' => 0x8,
            '9' => 0x9,
            'a' => 0xa,
            'b' => 0xb,
            'c' => 0xc,
            'd' => 0xd,
            'e' => 0xe,
            _ => 0xf,
        },
        _ => 0xf,
    }
}

/// The keypad key that a host key stands for: a hexadecimal digit character
/// gives the key of its value; any other key gives none.
pub open spec fn host_chip_key(key: KeyCode) -> Option<ChipKey> {
    match key {
        KeyCode::Char(c) => match hex_char_value(c) {
            Some(n) => Some(key_of_value(n as int)),
            None => None,
        },
        _ => None,
    }
}

/// The keypad key that a host key stands for: a hexadecimal digit character
/// gives the key of its value; any other key gives none.
pub fn into_chip_key(key: &KeyCode) -> (r: Option<ChipKey>)
    ensures
        r == host_chip_key(*key),
        r matches Some(k) ==> Some(k.value()) == match *key {
            KeyCode::Char(c) => hex_char_value(c),
            _ => None,
        },
{
    match key {
        KeyCode::Char('0') => Some(ChipKey::Zero),
        KeyCode::Char('1') => Some(ChipKey::One),
        KeyCode::Char('2') => Some(ChipKey::Two),
        KeyCode::Char('3') => Some(ChipKey::Three),
        KeyCode::Char('4') => Some(ChipKey::Four),
        KeyCode::Char('5') => Some(ChipKey::Five),
        KeyCode::Char('6') => Some(ChipKey::Six),
        KeyCode::Char('7') => Some(ChipKey::Seven),
        KeyCode::Char('8') => Some(ChipKey::Eight),
        KeyCode::Char('9') => Some(ChipKey::Nine),
        KeyCode::Char('a') => Some(ChipKey::A),
        KeyCode::Char('b') => Some(ChipKey::B),
        KeyCode::Char('c') => Some(ChipKey::C),
        KeyCode::Char('d') => Some(ChipKey::D),
        KeyCode::Char('e') => Some(ChipKey::E),
        KeyCode::Char('f') => Some(ChipKey::F),
        _ => None,
    }
}

} // verus!
