//! Keys, and the bytes that a key press sends to the application.

use vstd::prelude::*;
use vstd::utf8::*;
use crate::terminalstate::TerminalState;
use crate::text::encode_char;

verus! {

/// The bit of the control key in a set of modifiers.
pub const CTRL: u8 = 1;

/// The bit of the alt key.
pub const ALT: u8 = 2;

/// The bit of the meta key.
pub const META: u8 = 4;

/// The bit of the super key.
pub const SUPER: u8 = 8;

/// The bit of the shift key.
pub const SHIFT: u8 = 16;

/// The modifier keys held while a key is pressed, as a set of bits.
#[derive(Debug, Default, Clone, Copy, PartialEq, Eq, Structural)]
pub struct KeyModifiers {
    pub bits: u8,
}

impl KeyModifiers {
    /// Whether the set holds one of the bits of `flag`.
    pub open spec fn has(self, flag: u8) -> bool {
        self.bits & flag != 0
    }

    /// No modifier.
    pub fn empty() -> (mods: KeyModifiers)
        ensures
            mods.bits == 0,
    {
        KeyModifiers { bits: 0 }
    }

    /// The modifiers whose bits are set in `bits`.
    pub fn from_bits(bits: u8) -> (mods: KeyModifiers)
        ensures
            mods.bits == bits,
    {
        KeyModifiers { bits }
    }

    /// Whether the set holds one of the bits of `flag`.
    pub fn contains(&self, flag: u8) -> (held: bool)
        ensures
            held == self.has(flag),
    {
        self.bits & flag != 0
    }
}

/// A key of the keyboard.
#[derive(Debug, Copy, Clone, PartialEq, Eq, Structural)]
pub enum KeyCode {
    Char(char),
    Unknown,
    Control,
    Alt,
    Meta,
    Super,
    Hyper,
    Shift,
    Left,
    Up,
    Right,
    Down,
    PageUp,
    PageDown,
    Home,
    End,
}

/// What a character key sends. With control held, a letter sends its
/// control code: the letter's code less 0x40 for a capital, less 0x60
/// for a small letter. Otherwise, with alt held, a character up to
/// U+00FF sends the UTF-8 encoding of the character with bit 7 set. All
/// others send their UTF-8 encoding.
pub open spec fn char_key_bytes(c: char, ctrl: bool, alt: bool) -> Seq<u8> {
    let v = c as u32;
    if ctrl && 0x41 <= v <= 0x5a {
        seq![(v - 0x40) as u8]
    } else if ctrl && 0x61 <= v <= 0x7a {
        seq![(v - 0x60) as u8]
    } else if alt && v <= 0xff {
        encode_scalar(v | 0x80)
    } else {
        encode_scalar(v)
    }
}

/// What a cursor key sends: `ESC [` and its letter, or `ESC O` and its
/// letter where the application asked for application cursor keys.
pub open spec fn cursor_key_bytes(letter: u8, application_cursor_keys: bool) -> Seq<u8> {
    seq![
        0x1bu8,
        if application_cursor_keys {
            0x4fu8
        } else {
            0x5bu8
        },
        letter,
    ]
}

/// What a press of `key` sends while the modifiers `mods` are held.
/// Modifier keys on their own and unknown keys send nothing.
pub open spec fn key_bytes(key: KeyCode, mods: KeyModifiers, application_cursor_keys: bool) -> Seq<
    u8,
> {
    match key {
        KeyCode::Char(c) => char_key_bytes(c, mods.has(CTRL), mods.has(ALT)),
        KeyCode::Up => cursor_key_bytes(0x41, application_cursor_keys),
        KeyCode::Down => cursor_key_bytes(0x42, application_cursor_keys),
        KeyCode::Right => cursor_key_bytes(0x43, application_cursor_keys),
        KeyCode::Left => cursor_key_bytes(0x44, application_cursor_keys),
        KeyCode::Home => cursor_key_bytes(0x48, application_cursor_keys),
        KeyCode::End => cursor_key_bytes(0x46, application_cursor_keys),
        KeyCode::PageUp => seq![0x1bu8, 0x5bu8, 0x35u8, 0x7eu8],
        KeyCode::PageDown => seq![0x1bu8, 0x5bu8, 0x36u8, 0x7eu8],
        _ => Seq::empty(),
    }
}

/// The bytes that a character key sends.
fn encode_char_key(c: char, ctrl: bool, alt: bool) -> (bytes: Vec<u8>)
    ensures
        bytes@ == char_key_bytes(c, ctrl, alt),
{
    let v: u32 = c as u32;
    if ctrl && 0x41 <= v && v <= 0x5a {
        let mut bytes: Vec<u8> = Vec::new();
        bytes.push((v - 0x40) as u8);
        assert(bytes@ =~= seq![(v - 0x40) as u8]);
        bytes
    } else if ctrl && 0x61 <= v && v <= 0x7a {
        let mut bytes: Vec<u8> = Vec::new();
        bytes.push((v - 0x60) as u8);
        assert(bytes@ =~= seq![(v - 0x60) as u8]);
        bytes
    } else if alt && v <= 0xff {
        let high: u32 = v | 0x80;
        let lead: u8 = 0xc0 | ((high >> 6) as u8);
        let last: u8 = 0x80 | ((high & 0x3f) as u8);
        assert(0x80 <= high <= 0xff && lead == 0xC0 | ((high >> 6) & 0x1F) as u8 && last == 0x80 | (
        high & 0x3F) as u8) by (bit_vector)
            requires
                v <= 0xff,
                high == v | 0x80,
                lead == 0xc0 | ((high >> 6) as u8),
                last == 0x80 | ((high & 0x3f) as u8),
        ;
        let mut bytes: Vec<u8> = Vec::new();
        bytes.push(lead);
        bytes.push(last);
        assert(bytes@ =~= encode_scalar(high));
        bytes
    } else {
        encode_char(c)
    }
}

/// The bytes that a cursor key sends.
fn encode_cursor_key(letter: u8, application_cursor_keys: bool) -> (bytes: Vec<u8>)
    ensures
        bytes@ == cursor_key_bytes(letter, application_cursor_keys),
{
    let mut bytes: Vec<u8> = Vec::new();
    bytes.push(0x1b);
    bytes.push(if application_cursor_keys {
        0x4f
    } else {
        0x5b
    });
    bytes.push(letter);
    assert(bytes@ =~= cursor_key_bytes(letter, application_cursor_keys));
    bytes
}

/// The bytes that a press of `key` sends while `mods` are held.
pub fn encode_key(key: KeyCode, mods: KeyModifiers, application_cursor_keys: bool) -> (bytes: Vec<
    u8,
>)
    ensures
        bytes@ == key_bytes(key, mods, application_cursor_keys),
{
    match key {
        KeyCode::Char(c) => encode_char_key(c, mods.contains(CTRL), mods.contains(ALT)),
        KeyCode::Up => encode_cursor_key(0x41, application_cursor_keys),
        KeyCode::Down => encode_cursor_key(0x42, application_cursor_keys),
        KeyCode::Right => encode_cursor_key(0x43, application_cursor_keys),
        KeyCode::Left => encode_cursor_key(0x44, application_cursor_keys),
        KeyCode::Home => encode_cursor_key(0x48, application_cursor_keys),
        KeyCode::End => encode_cursor_key(0x46, application_cursor_keys),
        KeyCode::PageUp => {
            let mut bytes: Vec<u8> = Vec::new();
            bytes.push(0x1b);
            bytes.push(0x5b);
            bytes.push(0x35);
            bytes.push(0x7e);
            assert(bytes@ =~= seq![0x1bu8, 0x5bu8, 0x35u8, 0x7eu8]);
            bytes
        },
        KeyCode::PageDown => {
            let mut bytes: Vec<u8> = Vec::new();
            bytes.push(0x1b);
            bytes.push(0x5b);
            bytes.push(0x36);
            bytes.push(0x7e);
            assert(bytes@ =~= seq![0x1bu8, 0x5bu8, 0x36u8, 0x7eu8]);
            bytes
        },
        _ => Vec::new(),
    }
}

impl TerminalState {
    /// Processes a key press generated by the gui layer that is embedding
    /// the terminal: translates the key into the sequence of bytes to
    /// send to the slave end of the pty.
    pub fn key_down(&self, key: KeyCode, mods: KeyModifiers) -> (to_send: Vec<u8>)
        ensures
            to_send@ == key_bytes(key, mods, self@.application_cursor_keys),
    {
        encode_key(key, mods, self.application_cursor_keys())
    }

    /// Processes a key release: it sends nothing.
    pub fn key_up(&self, key: KeyCode, mods: KeyModifiers) -> (to_send: Vec<u8>)
        ensures
            to_send@ == Seq::<u8>::empty(),
    {
        Vec::new()
    }
}

} // verus!
