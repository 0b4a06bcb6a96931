//! The keyboard of the host: which of its keys stands for which key of the
//! keypad.

use vstd::prelude::*;

verus! {

/// A key of the host keyboard, as far as the keypad is concerned: the
/// sixteen keys of the block `1234` / `QWER` / `ASDF` / `ZXCV`, and any
/// other key.
#[derive(Clone, Copy, Debug, PartialEq, Eq, Structural)]
pub enum Key {
    Key1,
    Key2,
    Key3,
    Key4,
    Q,
    W,
    E,
    R,
    A,
    S,
    D,
    F,
    Z,
    X,
    C,
    V,
    Other,
}

/// The keypad code that a keyboard key stands for, if it stands for one.
///
/// The keyboard block is laid over the keypad row by row:
///
/// ```text
/// 1 2 3 4        1 2 3 C
/// Q W E R   for  4 5 6 D
/// A S D F        7 8 9 E
/// Z X C V        A 0 B F
/// ```
pub open spec fn key2btn_spec(key: Key) -> Option<usize> {
    match key {
        Key::Key1 => Some(0x1),
        Key::Key2 => Some(0x2),
        Key::Key3 => Some(0x3),
        Key::Key4 => Some(0xC),
        Key::Q => Some(0x4),
        Key::W => Some(0x5),
        Key::E => Some(0x6),
        Key::R => Some(0xD),
        Key::A => Some(0x7),
        Key::S => Some(0x8),
        Key::D => Some(0x9),
        Key::F => Some(0xE),
        Key::Z => Some(0xA),
        Key::X => Some(0x0),
        Key::C => Some(0xB),
        Key::V => Some(0xF),
        Key::Other => None,
    }
}

/// The keyboard key that stands for a keypad code.
pub open spec fn btn2key_spec(btn: usize) -> Key {
    if btn == 0x0 {
        Key::X
    } else if btn == 0x1 {
        Key::Key1
    } else if btn == 0x2 {
        Key::Key2
    } else if btn == 0x3 {
        Key::Key3
    } else if btn == 0x4 {
        Key::Q
    } else if btn == 0x5 {
        Key::W
    } else if btn == 0x6 {
        Key::E
    } else if btn == 0x7 {
        Key::A
    } else if btn == 0x8 {
        Key::S
    } else if btn == 0x9 {
        Key::D
    } else if btn == 0xA {
        Key::Z
    } else if btn == 0xB {
        Key::C
    } else if btn == 0xC {
        Key::Key4
    } else if btn == 0xD {
        Key::R
    } else if btn == 0xE {
        Key::F
    } else {
        Key::V
    }
}

/// Maps a keyboard key to the keypad code that it stands for; `None` for a
/// key outside the block.
pub fn key2btn(key: Key) -> (btn: Option<usize>)
    ensures
        btn == key2btn_spec(key),
        btn matches Some(b) ==> b < 16,
{
    match key {
        Key::Key1 => Some(0x1),
        Key::Key2 => Some(0x2),
        Key::Key3 => Some(0x3),
        Key::Key4 => Some(0xC),
        Key::Q => Some(0x4),
        Key::W => Some(0x5),
        Key::E => Some(0x6),
        Key::R => Some(0xD),
        Key::A => Some(0x7),
        Key::S => Some(0x8),
        Key::D => Some(0x9),
        Key::F => Some(0xE),
        Key::Z => Some(0xA),
        Key::X => Some(0x0),
        Key::C => Some(0xB),
        Key::V => Some(0xF),
        Key::Other => None,
    }
}

/// The block covers the keypad one to one: every keypad code has its key,
/// and no two keys stand for the same code.
pub proof fn keymap_is_one_to_one(key: Key, btn: usize)
    ensures
        btn < 16 ==> key2btn_spec(btn2key_spec(btn)) == Some(btn),
        key2btn_spec(key) == Some(btn) ==> btn < 16 && btn2key_spec(btn) == key,
{
}

} // verus!
